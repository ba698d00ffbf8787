//! What to do where the user is asked and where the user's editor is
//! looked for.

use vstd::prelude::*;
use vstd::std_specs::convert::FromSpecImpl;

verus! {

/// The answer that a question takes for granted.
#[derive(Debug, Clone, Copy, PartialEq, Eq, PartialOrd, Ord, Hash, Structural)]
pub enum YesNo {
    Yes,
    No,
}

impl YesNo {
    /// `Yes` as `true`, `No` as `false`.
    pub open spec fn as_bool(self) -> bool {
        self is Yes
    }

    /// The answer to a question: what the user said, and the answer taken
    /// for granted where the user could not be asked.
    pub fn settle(self, answer: Option<bool>) -> (r: bool)
        ensures
            r == match answer {
                Some(said) => said,
                None => self.as_bool(),
            },
    {
        match answer {
            Some(said) => said,
            None => match self {
                YesNo::Yes => true,
                YesNo::No => false,
            },
        }
    }
}

impl From<YesNo> for bool {
    fn from(value: YesNo) -> (r: Self) {
        match value {
            YesNo::Yes => true,
            YesNo::No => false,
        }
    }
}

impl FromSpecImpl<YesNo> for bool {
    open spec fn obeys_from_spec() -> bool {
        true
    }

    open spec fn from_spec(value: YesNo) -> Self {
        value.as_bool()
    }
}

/// The editor to open a file with: the first that is set of the three
/// variables, in the order given, else `sensible-editor`.
pub fn pick_editor(pacstall_editor: Option<String>, editor: Option<String>, visual: Option<String>)
    -> (r: String)
    ensures
        r@ == match (pacstall_editor, editor, visual) {
            (Some(e), _, _) => e@,
            (None, Some(e), _) => e@,
            (None, None, Some(e)) => e@,
            (None, None, None) => "sensible-editor"@,
        },
{
    match (pacstall_editor, editor, visual) {
        (Some(e), _, _) => e,
        (None, Some(e), _) => e,
        (None, None, Some(e)) => e,
        (None, None, None) => "sensible-editor".to_owned(),
    }
}

} // verus!
