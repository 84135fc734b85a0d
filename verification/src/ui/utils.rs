//! What the windows ask of a name before they take it.

use vstd::prelude::*;
use crate::constants::{MAX_NAME_LENGTH, MIN_NAME_LENGTH};

verus! {

/// How the length of a name fares against the bounds of a name.
#[derive(Debug, PartialEq, Eq, Structural, Clone, Copy)]
pub enum NameLength {
    TooShort,
    Fits,
    TooLong,
}

/// How a name of `length` bytes fares.
pub open spec fn spec_name_length(length: int) -> NameLength {
    if length < MIN_NAME_LENGTH {
        NameLength::TooShort
    } else if length > MAX_NAME_LENGTH {
        NameLength::TooLong
    } else {
        NameLength::Fits
    }
}

/// How a name of `length` bytes fares, the blanks around it not counted.
pub fn name_length(length: usize) -> (fares: NameLength)
    ensures
        fares == spec_name_length(length as int),
        fares == NameLength::Fits <==> MIN_NAME_LENGTH <= length <= MAX_NAME_LENGTH,
{
    if length < MIN_NAME_LENGTH {
        NameLength::TooShort
    } else if length > MAX_NAME_LENGTH {
        NameLength::TooLong
    } else {
        NameLength::Fits
    }
}

impl NameLength {
    /// What the title of the text area says of a name that cannot be used.
    pub open spec fn spec_note(self) -> Option<Seq<char>> {
        match self {
            NameLength::TooShort => Some("(too short)"@),
            NameLength::Fits => None,
            NameLength::TooLong => Some("(too long)"@),
        }
    }

    /// What the title of the text area says of a name that cannot be used.
    pub fn note(&self) -> (note: Option<&'static str>)
        ensures
            match self.spec_note() {
                Some(text) => note matches Some(said) && said@ == text,
                None => note is None,
            },
    {
        match self {
            NameLength::TooShort => Some("(too short)"),
            NameLength::Fits => None,
            NameLength::TooLong => Some("(too long)"),
        }
    }

    /// Whether the name can be used.
    pub fn is_valid(&self) -> (valid: bool)
        ensures
            valid == (*self == NameLength::Fits),
    {
        match self {
            NameLength::Fits => true,
            _ => false,
        }
    }
}

} // verus!
