//! The closed error taxonomy of the constrained value families: why a
//! constructor rejected an input. Every error carries enough context to
//! produce a human-readable message, and each `message` function's exact
//! output is stated in its contract.

use vstd::prelude::*;
use vstd::string::StringExecFns;
use crate::decimal::DecimalText;

verus! {

/// A value fell outside an inclusive numeric range. Each variant carries
/// `(min, max, value)`: the bounds of the range and the offending value.
#[derive(Debug, Clone, Copy, PartialEq, Eq)]
pub enum OutOfBoundsError<T> {
    /// The value exceeds the upper bound.
    High(T, T, T),
    /// The value is below the lower bound.
    Low(T, T, T),
}

impl<T: DecimalText> OutOfBoundsError<T> {
    /// The exact text of the human-readable message for this error.
    pub open spec fn spec_message(&self) -> Seq<char> {
        match self {
            OutOfBoundsError::High(min, max, value) => value.spec_text() + " is too high (range: "@
                + min.spec_text() + ".."@ + max.spec_text() + ")"@,
            OutOfBoundsError::Low(min, max, value) => value.spec_text() + " is too low (range: "@
                + min.spec_text() + ".."@ + max.spec_text() + ")"@,
        }
    }

    /// A human-readable message naming the offending value and the bounds
    /// it violated.
    pub fn message(&self) -> (r: String)
        ensures
            r@ == self.spec_message(),
    {
        match self {
            OutOfBoundsError::High(min, max, value) => {
                let r = value.to_text().concat(" is too high (range: ").concat(
                    min.to_text().as_str(),
                ).concat("..").concat(max.to_text().as_str()).concat(")");
                proof {
                    assert(r@ =~= self.spec_message());
                }
                r
            },
            OutOfBoundsError::Low(min, max, value) => {
                let r = value.to_text().concat(" is too low (range: ").concat(
                    min.to_text().as_str(),
                ).concat("..").concat(max.to_text().as_str()).concat(")");
                proof {
                    assert(r@ =~= self.spec_message());
                }
                r
            },
        }
    }
}

/// A string's content failed validation.
#[derive(Debug, Clone, PartialEq, Eq)]
pub enum StringContentError {
    /// The string is empty.
    Empty,
    /// The string consists only of whitespace; carries the original text.
    Blank(String),
}

impl StringContentError {
    /// The exact text of the human-readable message for this error.
    pub open spec fn spec_message(&self) -> Seq<char> {
        match self {
            StringContentError::Empty => "string is empty"@,
            StringContentError::Blank(value) => "string is blank (content: `"@ + value@ + "`)"@,
        }
    }

    /// A human-readable message; for a blank string it includes the
    /// original text.
    pub fn message(&self) -> (r: String)
        ensures
            r@ == self.spec_message(),
    {
        match self {
            StringContentError::Empty => String::from_str("string is empty"),
            StringContentError::Blank(value) => {
                let r = String::from_str("string is blank (content: `").concat(
                    value.as_str(),
                ).concat("`)");
                proof {
                    assert(r@ =~= self.spec_message());
                }
                r
            },
        }
    }
}

/// A sequence-like collection failed validation.
#[derive(Debug, Clone, Copy, PartialEq, Eq)]
pub enum SequenceContentError {
    /// The collection yields no elements.
    Empty,
}

impl SequenceContentError {
    /// The exact text of the human-readable message for this error.
    pub open spec fn spec_message(&self) -> Seq<char> {
        "sequence is empty"@
    }

    /// A human-readable message.
    pub fn message(&self) -> (r: String)
        ensures
            r@ == self.spec_message(),
    {
        String::from_str("sequence is empty")
    }
}

} // verus!
