//! Selection of the active byte source for a run.

use vstd::prelude::*;

verus! {

/// The resolved choice of byte source for one invocation. Exactly one
/// variant is active per run: an explicit file path, an explicit
/// literal string, the piped standard-input stream, or — when nothing
/// else is available — the current-timestamp fallback.
pub enum InputSource {
    File(String),
    Literal(String),
    Stream,
    Fallback,
}

/// Pick the active source by the fixed precedence: explicit file over
/// explicit literal over a piped (non-terminal) stream over the
/// timestamp fallback.
pub fn select_source(file: Option<String>, literal: Option<String>, stdin_is_terminal: bool) -> (s:
    InputSource)
    ensures
        (match file {
            Some(p) => s == InputSource::File(p),
            None => match literal {
                Some(l) => s == InputSource::Literal(l),
                None => if stdin_is_terminal {
                    s == InputSource::Fallback
                } else {
                    s == InputSource::Stream
                },
            },
        }),
{
    match file {
        Some(p) => InputSource::File(p),
        None => match literal {
            Some(l) => InputSource::Literal(l),
            None => if stdin_is_terminal {
                InputSource::Fallback
            } else {
                InputSource::Stream
            },
        },
    }
}

/// The active source with its byte content resolved by the I/O layer.
/// File and stream content goes through the digest accumulator;
/// literal and fallback bytes feed the identifier builder directly.
pub enum ResolvedSource {
    File(Vec<u8>),
    Stream(Vec<u8>),
    Literal(Vec<u8>),
    Fallback(Vec<u8>),
}

impl ResolvedSource {
    /// The content bytes, whichever variant is active.
    pub open spec fn content(self) -> Seq<u8> {
        match self {
            ResolvedSource::File(b) => b@,
            ResolvedSource::Stream(b) => b@,
            ResolvedSource::Literal(b) => b@,
            ResolvedSource::Fallback(b) => b@,
        }
    }

    /// Whether the digest-accumulator path applies to this source.
    pub open spec fn is_hashed(self) -> bool {
        self is File || self is Stream
    }
}

} // verus!
