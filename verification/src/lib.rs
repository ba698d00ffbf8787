//! Metadata resolution and policy validation for shell-script package
//! manifests.
//!
//! A manifest binds shell variables. This crate turns those bindings into
//! a typed description of the packages that the manifest builds, and holds
//! that description to packaging policy, check by check. Every function
//! carries a contract, and every contract is proved.
//!
//! The way through the crate follows the data: [`value`] and
//! [`environment`] hold what the interpreter has bound, [`resolver`] finds
//! the variants of a field, [`manifest`] builds the [`srcinfo`]
//! description, and [`checks`] validates it.

pub mod text;
pub mod numbers;
pub mod value;
pub mod environment;
pub mod keys;
pub mod clamp;
pub mod srcinfo;
pub mod resolver;
pub mod manifest;
pub mod overrides;
pub mod rules;
pub mod checks;
pub mod status;
pub mod report;
pub mod search;
pub mod args;
pub mod message;
pub mod prompt;
