//! The identifier builder: from a "name" byte sequence to the
//! canonical text of its version-5 UUID under the DNS namespace.
//!
//! File and stream content is first condensed by the digest
//! accumulator and rendered as uppercase hexadecimal text; that text
//! is the name. A literal string or the timestamp fallback is the name
//! directly, byte for byte. The name is mapped through the RFC 4122
//! version-5 construction and printed 8-4-4-4-12, lowercase.

use vstd::prelude::*;
use crate::digest::{digest_of_bytes, sha256_of, MAX_DIGEST_INPUT_BYTES};
use crate::source::ResolvedSource;

verus! {

/// The uppercase hexadecimal digit for a value below 16, as an ASCII
/// byte.
pub open spec fn hex_upper_digit(n: u8) -> u8
    recommends
        n < 16,
{
    if n < 10 {
        (0x30 + n) as u8
    } else {
        (0x37 + n) as u8
    }
}

/// Uppercase hexadecimal rendering of a byte sequence: two digits per
/// byte, in order.
pub open spec fn hex_upper_of(b: Seq<u8>) -> Seq<u8>
    decreases b.len(),
{
    if b.len() == 0 {
        Seq::empty()
    } else {
        hex_upper_of(b.drop_last()) + seq![
            hex_upper_digit((b.last() / 16) as u8),
            hex_upper_digit((b.last() % 16) as u8),
        ]
    }
}

/// Relies on data_encoding::HEXUPPER.encode: each byte becomes two
/// uppercase hexadecimal digits, in order.
#[verifier::external_body]
fn hex_upper_bytes(b: &[u8]) -> (r: Vec<u8>)
    ensures
        r@ == hex_upper_of(b@),
{
    data_encoding::HEXUPPER.encode(b).into_bytes()
}

/// The 16 bytes of the version-5 UUID of `name` under the DNS
/// namespace: the RFC 4122 name-based construction, a function of the
/// name alone. The construction itself (SHA-1 over namespace and name)
/// is done by `uuid`; this name only identifies its result.
pub uninterp spec fn v5_dns_bytes_of(name: Seq<u8>) -> Seq<u8>;

/// Relies on uuid::Uuid::new_v5 with Uuid::NAMESPACE_DNS: a
/// deterministic function of the name; 16 bytes, with the four version
/// bits set to 5 and the two variant bits set to the RFC 4122 pattern.
#[verifier::external_body]
fn v5_dns_uuid(name: &[u8]) -> (r: Vec<u8>)
    ensures
        r@ == v5_dns_bytes_of(name@),
        r@.len() == 16,
        r@[6] & 0xf0 == 0x50,
        r@[8] & 0xc0 == 0x80,
{
    uuid::Uuid::new_v5(&uuid::Uuid::NAMESPACE_DNS, name).as_bytes().to_vec()
}

/// The lowercase hexadecimal digit for a value below 16.
pub open spec fn hex_lower_char(n: u8) -> char
    recommends
        n < 16,
{
    if n == 0 {
        '0'
    } else if n == 1 {
        '1'
    } else if n == 2 {
        '2'
    } else if n == 3 {
        '3'
    } else if n == 4 {
        '4'
    } else if n == 5 {
        '5'
    } else if n == 6 {
        '6'
    } else if n == 7 {
        '7'
    } else if n == 8 {
        '8'
    } else if n == 9 {
        '9'
    } else if n == 10 {
        'a'
    } else if n == 11 {
        'b'
    } else if n == 12 {
        'c'
    } else if n == 13 {
        'd'
    } else if n == 14 {
        'e'
    } else {
        'f'
    }
}

/// Lowercase hexadecimal rendering of a byte sequence: two digits per
/// byte, in order.
pub open spec fn hex_lower_of(b: Seq<u8>) -> Seq<char>
    decreases b.len(),
{
    if b.len() == 0 {
        Seq::empty()
    } else {
        hex_lower_of(b.drop_last()) + seq![
            hex_lower_char((b.last() / 16) as u8),
            hex_lower_char((b.last() % 16) as u8),
        ]
    }
}

/// The one-character string for a lowercase hexadecimal digit.
fn hex_char_str(n: u8) -> (r: &'static str)
    requires
        n < 16,
    ensures
        r@ == seq![hex_lower_char(n)],
{
    if n == 0 {
        proof {
            reveal_strlit("0");
            assert("0"@ =~= seq![hex_lower_char(n)]);
        }
        "0"
    } else if n == 1 {
        proof {
            reveal_strlit("1");
            assert("1"@ =~= seq![hex_lower_char(n)]);
        }
        "1"
    } else if n == 2 {
        proof {
            reveal_strlit("2");
            assert("2"@ =~= seq![hex_lower_char(n)]);
        }
        "2"
    } else if n == 3 {
        proof {
            reveal_strlit("3");
            assert("3"@ =~= seq![hex_lower_char(n)]);
        }
        "3"
    } else if n == 4 {
        proof {
            reveal_strlit("4");
            assert("4"@ =~= seq![hex_lower_char(n)]);
        }
        "4"
    } else if n == 5 {
        proof {
            reveal_strlit("5");
            assert("5"@ =~= seq![hex_lower_char(n)]);
        }
        "5"
    } else if n == 6 {
        proof {
            reveal_strlit("6");
            assert("6"@ =~= seq![hex_lower_char(n)]);
        }
        "6"
    } else if n == 7 {
        proof {
            reveal_strlit("7");
            assert("7"@ =~= seq![hex_lower_char(n)]);
        }
        "7"
    } else if n == 8 {
        proof {
            reveal_strlit("8");
            assert("8"@ =~= seq![hex_lower_char(n)]);
        }
        "8"
    } else if n == 9 {
        proof {
            reveal_strlit("9");
            assert("9"@ =~= seq![hex_lower_char(n)]);
        }
        "9"
    } else if n == 10 {
        proof {
            reveal_strlit("a");
            assert("a"@ =~= seq![hex_lower_char(n)]);
        }
        "a"
    } else if n == 11 {
        proof {
            reveal_strlit("b");
            assert("b"@ =~= seq![hex_lower_char(n)]);
        }
        "b"
    } else if n == 12 {
        proof {
            reveal_strlit("c");
            assert("c"@ =~= seq![hex_lower_char(n)]);
        }
        "c"
    } else if n == 13 {
        proof {
            reveal_strlit("d");
            assert("d"@ =~= seq![hex_lower_char(n)]);
        }
        "d"
    } else if n == 14 {
        proof {
            reveal_strlit("e");
            assert("e"@ =~= seq![hex_lower_char(n)]);
        }
        "e"
    } else {
        proof {
            reveal_strlit("f");
            assert("f"@ =~= seq![hex_lower_char(n)]);
        }
        "f"
    }
}

/// Append the lowercase hexadecimal rendering of `bytes[from..to]`.
fn push_hex_lower(s: &mut String, bytes: &[u8], from: usize, to: usize)
    requires
        from <= to <= bytes@.len(),
    ensures
        final(s)@ == old(s)@ + hex_lower_of(bytes@.subrange(from as int, to as int)),
{
    let mut i: usize = from;
    while i < to
        invariant
            from <= i <= to <= bytes@.len(),
            s@ == old(s)@ + hex_lower_of(bytes@.subrange(from as int, i as int)),
        decreases to - i,
    {
        let b: u8 = *vstd::slice::slice_index_get(bytes, i);
        s.append(hex_char_str(b / 16));
        s.append(hex_char_str(b % 16));
        proof {
            let sub = bytes@.subrange(from as int, i + 1);
            assert(sub.drop_last() =~= bytes@.subrange(from as int, i as int));
            assert(sub.last() == bytes@[i as int]);
            assert(s@ =~= old(s)@ + hex_lower_of(sub));
        }
        i = i + 1;
    }
    proof {
        assert(bytes@.subrange(from as int, i as int) == bytes@.subrange(
            from as int,
            to as int,
        ));
    }
}

/// Canonical 8-4-4-4-12 hyphenated lowercase text of 16 bytes.
pub open spec fn hyphenated_of(b: Seq<u8>) -> Seq<char>
    recommends
        b.len() == 16,
{
    hex_lower_of(b.subrange(0, 4)) + seq!['-'] + hex_lower_of(b.subrange(4, 6)) + seq!['-']
        + hex_lower_of(b.subrange(6, 8)) + seq!['-'] + hex_lower_of(b.subrange(8, 10)) + seq!['-']
        + hex_lower_of(b.subrange(10, 16))
}

/// Render 16 identifier bytes in the canonical hyphenated lowercase
/// form.
pub fn format_hyphenated(bytes: &[u8]) -> (r: String)
    requires
        bytes@.len() == 16,
    ensures
        r@ == hyphenated_of(bytes@),
{
    let mut s = String::new();
    push_hex_lower(&mut s, bytes, 0, 4);
    s.append("-");
    push_hex_lower(&mut s, bytes, 4, 6);
    s.append("-");
    push_hex_lower(&mut s, bytes, 6, 8);
    s.append("-");
    push_hex_lower(&mut s, bytes, 8, 10);
    s.append("-");
    push_hex_lower(&mut s, bytes, 10, 16);
    proof {
        reveal_strlit("-");
        assert("-"@ =~= seq!['-']);
        assert(s@ =~= hyphenated_of(bytes@));
    }
    s
}

/// The identifier text for a raw name: the hyphenated lowercase text
/// of its version-5 UUID under the DNS namespace.
pub open spec fn uuid_text_of_name(name: Seq<u8>) -> Seq<char> {
    hyphenated_of(v5_dns_bytes_of(name))
}

/// The identifier text for hashed content (the file and stream paths):
/// the name is the uppercase hexadecimal text of the content's SHA-256
/// digest.
pub open spec fn uuid_text_of_content(content: Seq<u8>) -> Seq<char> {
    uuid_text_of_name(hex_upper_of(sha256_of(content)))
}

/// Two lowercase hexadecimal digits per byte.
pub proof fn lemma_hex_lower_len(b: Seq<u8>)
    ensures
        hex_lower_of(b).len() == 2 * b.len(),
    decreases b.len(),
{
    if b.len() > 0 {
        lemma_hex_lower_len(b.drop_last());
    }
}

/// The canonical hyphenated text of 16 bytes has exactly 36
/// characters: 8-4-4-4-12 digits and four hyphens.
pub proof fn lemma_hyphenated_len(b: Seq<u8>)
    requires
        b.len() == 16,
    ensures
        hyphenated_of(b).len() == 36,
{
    lemma_hex_lower_len(b.subrange(0, 4));
    lemma_hex_lower_len(b.subrange(4, 6));
    lemma_hex_lower_len(b.subrange(6, 8));
    lemma_hex_lower_len(b.subrange(8, 10));
    lemma_hex_lower_len(b.subrange(10, 16));
}

/// Identifier for a raw name (the literal and fallback paths).
pub fn derive_for_name(name: &[u8]) -> (r: String)
    ensures
        r@ == uuid_text_of_name(name@),
        r@.len() == 36,
{
    let u = v5_dns_uuid(name);
    let r = format_hyphenated(u.as_slice());
    proof {
        lemma_hyphenated_len(u@);
    }
    r
}

/// Identifier for an already-computed digest: the name is the digest's
/// uppercase hexadecimal text.
pub fn derive_for_digest(digest_bytes: &[u8]) -> (r: String)
    ensures
        r@ == uuid_text_of_name(hex_upper_of(digest_bytes@)),
        r@.len() == 36,
{
    let hx = hex_upper_bytes(digest_bytes);
    derive_for_name(hx.as_slice())
}

/// Identifier for content bytes (the file and stream paths): SHA-256
/// digest, uppercase hexadecimal text, version-5 construction.
pub fn derive_for_content(data: &[u8]) -> (r: String)
    requires
        data@.len() <= MAX_DIGEST_INPUT_BYTES,
    ensures
        r@ == uuid_text_of_content(data@),
        r@.len() == 36,
{
    let d = digest_of_bytes(data);
    derive_for_digest(d.as_slice())
}

/// The identifier text for a resolved source: file and stream content
/// goes through the digest path, literal and fallback bytes are the
/// name directly.
pub open spec fn identifier_text_of(src: ResolvedSource) -> Seq<char> {
    if src.is_hashed() {
        uuid_text_of_content(src.content())
    } else {
        uuid_text_of_name(src.content())
    }
}

/// Derive the identifier for a resolved source: the one operation the
/// input-selection layer invokes.
pub fn derive_identifier(src: &ResolvedSource) -> (r: String)
    requires
        src.is_hashed() ==> src.content().len() <= MAX_DIGEST_INPUT_BYTES,
    ensures
        r@ == identifier_text_of(*src),
        r@.len() == 36,
{
    match src {
        ResolvedSource::File(b) => derive_for_content(b.as_slice()),
        ResolvedSource::Stream(b) => derive_for_content(b.as_slice()),
        ResolvedSource::Literal(b) => derive_for_name(b.as_slice()),
        ResolvedSource::Fallback(b) => derive_for_name(b.as_slice()),
    }
}

/// Determinism: the identifier is a function of the source's path
/// (hashed or direct) and content bytes alone, so equal content on
/// the same path yields bit-for-bit identical identifiers across runs
/// and machines.
pub proof fn lemma_derivation_deterministic(a: ResolvedSource, b: ResolvedSource)
    requires
        a.is_hashed() == b.is_hashed(),
        a.content() == b.content(),
    ensures
        identifier_text_of(a) == identifier_text_of(b),
{
}

} // verus!
