//! The ways in which deriving a path method fails.

use vstd::prelude::*;

verus! {

/// Why no path method can be derived for an item.
#[derive(Clone, Copy, Debug, PartialEq, Eq, Structural)]
pub enum DeriveError {
    /// The item is a struct or a union: only an enum has variants to name.
    NotAnEnum,
    /// No `path_str` attribute of the item sets `prefix` to a string.
    MissingPrefix,
}

impl DeriveError {
    /// The diagnostic that each failure is reported with.
    pub open spec fn message_text(self) -> Seq<char> {
        match self {
            DeriveError::NotAnEnum => "DerivePathStr only supports enums"@,
            DeriveError::MissingPrefix => "prefix attribute is required"@,
        }
    }

    /// The diagnostic for this failure, as an owned string.
    pub fn message(&self) -> (text: String)
        ensures
            text@ == self.message_text(),
    {
        match self {
            DeriveError::NotAnEnum => "DerivePathStr only supports enums".to_string(),
            DeriveError::MissingPrefix => "prefix attribute is required".to_string(),
        }
    }
}

} // verus!
