//! Deterministic 128-bit identifiers derived from byte content.
//!
//! A byte source (file content, piped stream, literal string, or a
//! timestamp fallback) is mapped to a name-based UUID: file and stream
//! bytes are first condensed to a SHA-256 digest and rendered as
//! uppercase hexadecimal text, literal and fallback bytes are used as
//! the name directly; the name is then fed to the version-5 UUID
//! construction under the DNS namespace and printed in canonical
//! hyphenated lowercase form.

pub mod digest;
pub mod errors;
pub mod identifier;
pub mod source;
