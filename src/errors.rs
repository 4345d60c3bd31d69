//! Errors of this library.
use vstd::prelude::*;

verus! {

/// Errors reported by this library.
#[derive(Clone, Debug, PartialEq, Eq)]
pub enum Error {
    /// An unanticipated failure of a lower layer, with its description.
    Unknown(String),
    /// A namespace kind was given as text that names none of the known kinds;
    /// the text is kept as it was given.
    UnknownNamespaceKind(String),
    /// The persisted text form could not be encoded or decoded.
    YamlError(String),
}

/// Results whose error is this library's [`Error`].
pub type Result<T> = core::result::Result<T, Error>;

} // verus!
