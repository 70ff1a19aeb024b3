//! The failure taxonomy of profile lifecycle operations.

use vstd::prelude::*;

verus! {

/// Everything a profile lifecycle operation can fail with.
#[derive(Clone, Copy, PartialEq, Eq, Structural, Debug)]
pub enum Error {
    /// A profile with the same slug already exists: creation never overwrites.
    AlreadyExists,
    /// No profile with the requested identifier exists.
    NotFound,
    /// A config or mod record exists but cannot be understood.
    Malformed,
    /// A config sets none of the per-loader version fields.
    NoLoader,
    /// A config sets more than one per-loader version field.
    AmbiguousLoader,
    /// Nothing is selected, or the selection names no profile: no directory
    /// of that name holds a readable config.
    SelectedProfileMissing,
    /// A filesystem operation failed.
    IoFailure,
}

/// The description `message` returns for each error.
pub open spec fn message_of(e: Error) -> Seq<char> {
    match e {
        Error::AlreadyExists => "a profile with this slug already exists"@,
        Error::NotFound => "no such profile"@,
        Error::Malformed => "the record exists but cannot be understood"@,
        Error::NoLoader => "the config sets no version field, so no loader can be derived"@,
        Error::AmbiguousLoader => "the config sets more than one version field"@,
        Error::SelectedProfileMissing => "nothing is selected, or the selection names no profile"@,
        Error::IoFailure => "a filesystem operation failed"@,
    }
}

impl Error {
    /// A human-readable description, for rendering by the surrounding binary.
    pub fn message(&self) -> (r: String)
        ensures
            r@ == message_of(*self),
    {
        match self {
            Error::AlreadyExists => String::from_str("a profile with this slug already exists"),
            Error::NotFound => String::from_str("no such profile"),
            Error::Malformed => String::from_str("the record exists but cannot be understood"),
            Error::NoLoader => String::from_str(
                "the config sets no version field, so no loader can be derived",
            ),
            Error::AmbiguousLoader => String::from_str(
                "the config sets more than one version field",
            ),
            Error::SelectedProfileMissing => String::from_str(
                "nothing is selected, or the selection names no profile",
            ),
            Error::IoFailure => String::from_str("a filesystem operation failed"),
        }
    }
}

} // verus!
