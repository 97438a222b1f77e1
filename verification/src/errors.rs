//! The failure taxonomy of the identifier pipeline.

use vstd::prelude::*;

verus! {

/// A failure while deriving an identifier. `IoError` wraps the text of
/// any failure opening or reading the chosen byte source. `InvalidInput`
/// is reserved for input-validation failures; no current operation
/// produces it.
pub enum UuidError {
    IoError(String),
    InvalidInput(String),
}

impl UuidError {
    /// The human-readable rendering of the error, as it is written to
    /// the user before a non-zero exit.
    pub open spec fn spec_message(self) -> Seq<char> {
        match self {
            UuidError::IoError(m) => "IO Error: "@ + m@,
            UuidError::InvalidInput(m) => "Invalid Input: "@ + m@,
        }
    }

    /// Render the error as text, prefixed with its kind.
    pub fn message(&self) -> (r: String)
        ensures
            r@ == self.spec_message(),
    {
        match self {
            UuidError::IoError(m) => {
                let mut s = "IO Error: ".to_owned();
                s.append(m.as_str());
                s
            },
            UuidError::InvalidInput(m) => {
                let mut s = "Invalid Input: ".to_owned();
                s.append(m.as_str());
                s
            },
        }
    }
}

} // verus!
