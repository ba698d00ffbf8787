//! The marks that a message to the user begins with.

use vstd::prelude::*;

verus! {

/// What kind of message is shown.
#[derive(Debug, Clone, Copy, PartialEq, Eq, Structural)]
pub enum FancyMessageType {
    Info,
    Warn,
    Error,
    Sub,
    Unknown,
}

impl FancyMessageType {
    /// The mark of this kind, with its colours.
    pub open spec fn prefix_spec(self) -> Seq<char> {
        match self {
            FancyMessageType::Info => "[\x1b[32m+\x1b[0m] \x1b[1mINFO\x1b[0m:"@,
            FancyMessageType::Warn => "[\x1b[33m*\x1b[0m] \x1b[1mWARNING\x1b[0m:"@,
            FancyMessageType::Error => "[\x1b[31m!\x1b[0m] \x1b[1mERROR\x1b[0m:"@,
            FancyMessageType::Sub => "\t[\x1b[34m>\x1b[0m]"@,
            FancyMessageType::Unknown => "[\x1b[1m?\x1b[0m] \x1b[1mUNKNOWN\x1b[0m:"@,
        }
    }

    /// The mark of this kind, with its colours.
    pub fn prefix(&self) -> (r: &'static str)
        ensures
            r@ == self.prefix_spec(),
    {
        match self {
            FancyMessageType::Info => "[\x1b[32m+\x1b[0m] \x1b[1mINFO\x1b[0m:",
            FancyMessageType::Warn => "[\x1b[33m*\x1b[0m] \x1b[1mWARNING\x1b[0m:",
            FancyMessageType::Error => "[\x1b[31m!\x1b[0m] \x1b[1mERROR\x1b[0m:",
            FancyMessageType::Sub => "\t[\x1b[34m>\x1b[0m]",
            FancyMessageType::Unknown => "[\x1b[1m?\x1b[0m] \x1b[1mUNKNOWN\x1b[0m:",
        }
    }

    /// Whether a message of this kind goes to the standard output; the
    /// others go to the error stream.
    pub fn to_stdout(&self) -> (r: bool)
        ensures
            r == (*self is Info || *self is Sub),
    {
        match self {
            FancyMessageType::Info => true,
            FancyMessageType::Sub => true,
            _ => false,
        }
    }
}

} // verus!
