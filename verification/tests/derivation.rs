use uuidecho::digest::{digest_of_bytes, digest_of_chunks, DigestAccumulator};
use uuidecho::identifier::{
    derive_for_content, derive_for_digest, derive_for_name, derive_identifier, format_hyphenated,
};
use uuidecho::source::ResolvedSource;

const SHA256_ABC: [u8; 32] = [
    0xba, 0x78, 0x16, 0xbf, 0x8f, 0x01, 0xcf, 0xea, 0x41, 0x41, 0x40, 0xde, 0x5d, 0xae, 0x22,
    0x23, 0xb0, 0x03, 0x61, 0xa3, 0x96, 0x17, 0x7a, 0x9c, 0xb4, 0x10, 0xff, 0x61, 0xf2, 0x00,
    0x15, 0xad,
];

#[test]
fn literal_abc_is_fixed() {
    let id = derive_for_name(b"abc");
    assert_eq!(id, "6cb8e707-0fc5-5f55-88d4-d4fed43e64a8");
}

#[test]
fn literal_empty_is_fixed() {
    let id = derive_for_name(b"");
    assert_eq!(id, "4ebd0208-8328-5d69-8c44-ec50939c0967");
}

#[test]
fn literal_known_dns_name() {
    let id = derive_for_name(b"example.org");
    assert_eq!(id, "aad03681-8b63-5304-89e0-8ca8f49461b5");
}

#[test]
fn literals_abc_and_abd_differ() {
    let a = derive_for_name(b"abc");
    let b = derive_for_name(b"abd");
    assert_ne!(a, b);
}

#[test]
fn empty_content_is_v5_of_hex_of_empty_digest() {
    let id = derive_for_content(&[]);
    assert_eq!(id, "79aa02f4-352f-5ebb-84ee-238cadce56b4");
}

#[test]
fn content_abc_is_fixed() {
    let id = derive_for_content(b"abc");
    assert_eq!(id, "c4a84aef-1a28-5723-ba1e-0079c88c27bb");
}

#[test]
fn digest_matches_known_sha256_vector() {
    let d = digest_of_bytes(b"abc");
    assert_eq!(d.as_slice(), &SHA256_ABC[..]);
}

#[test]
fn digest_of_empty_input_has_known_prefix() {
    let d = digest_of_bytes(&[]);
    assert_eq!(d.len(), 32);
    assert_eq!(d[0], 0xe3);
    assert_eq!(d[1], 0xb0);
    assert_eq!(d[31], 0x55);
}

#[test]
fn digest_for_known_vector_names_expected_identifier() {
    let id = derive_for_digest(&SHA256_ABC);
    assert_eq!(id, "c4a84aef-1a28-5723-ba1e-0079c88c27bb");
}

#[test]
fn digest_identifier_equals_uppercase_hex_name() {
    let mut name: Vec<u8> = Vec::new();
    for b in SHA256_ABC.iter() {
        let hi = b >> 4;
        let lo = b & 0x0f;
        name.push(if hi < 10 { 0x30 + hi } else { 0x37 + hi });
        name.push(if lo < 10 { 0x30 + lo } else { 0x37 + lo });
    }
    assert_eq!(derive_for_digest(&SHA256_ABC), derive_for_name(name.as_slice()));
}

#[test]
fn deriving_same_content_twice_is_identical() {
    let data: Vec<u8> = (0u32..4096).map(|i| (i % 251) as u8).collect();
    let first = derive_for_content(data.as_slice());
    let second = derive_for_content(data.as_slice());
    assert_eq!(first, second);
}

#[test]
fn file_and_stream_paths_agree_on_same_bytes() {
    let data: Vec<u8> = (0u32..3000).map(|i| (i * 7 % 256) as u8).collect();
    let as_file = derive_identifier(&ResolvedSource::File(data.clone()));
    let as_stream = derive_identifier(&ResolvedSource::Stream(data));
    assert_eq!(as_file, as_stream);
}

#[test]
fn multi_chunk_content_matches_reference() {
    let mut data: Vec<u8> = Vec::new();
    while data.len() < 5000 {
        data.push(b"0123456789"[data.len() % 10]);
    }
    let id = derive_for_content(data.as_slice());
    assert_eq!(id, "cd727cc6-c5e4-5059-984a-fadd44c08814");
}

#[test]
fn uneven_chunking_matches_one_shot_digest() {
    let data: Vec<u8> = (0u32..5000).map(|i| (i % 10 + 0x30) as u8).collect();
    let mut acc = DigestAccumulator::new();
    acc.update(&data[0..1]);
    acc.update(&data[1..1023]);
    acc.update(&data[1023..1023]);
    acc.update(&data[1023..4097]);
    acc.update(&data[4097..5000]);
    let streamed = acc.finish();
    let one_shot = digest_of_bytes(data.as_slice());
    assert_eq!(streamed, one_shot);
}

#[test]
fn chunk_vector_matches_one_shot_digest() {
    let data: Vec<u8> = (0u32..5000).map(|i| (i % 10 + 0x30) as u8).collect();
    let chunks: Vec<Vec<u8>> = vec![
        data[0..17].to_vec(),
        data[17..1024].to_vec(),
        Vec::new(),
        data[1024..2500].to_vec(),
        data[2500..5000].to_vec(),
    ];
    assert_eq!(digest_of_chunks(&chunks), digest_of_bytes(data.as_slice()));
}

#[test]
fn fresh_accumulator_agrees_with_empty_digest() {
    let acc = DigestAccumulator::new();
    assert_eq!(acc.finish(), digest_of_bytes(&[]));
}

#[test]
fn literal_and_fallback_paths_use_name_directly() {
    let literal = derive_identifier(&ResolvedSource::Literal(b"abc".to_vec()));
    let fallback = derive_identifier(&ResolvedSource::Fallback(b"abc".to_vec()));
    assert_eq!(literal, "6cb8e707-0fc5-5f55-88d4-d4fed43e64a8");
    assert_eq!(literal, fallback);
}

#[test]
fn hashed_and_direct_paths_differ_for_same_bytes() {
    let hashed = derive_identifier(&ResolvedSource::File(b"abc".to_vec()));
    let direct = derive_identifier(&ResolvedSource::Literal(b"abc".to_vec()));
    assert_ne!(hashed, direct);
}

#[test]
fn distinct_fallback_timestamps_give_distinct_identifiers() {
    let earlier = derive_identifier(&ResolvedSource::Fallback(
        b"2024-05-01 10:00:00.000000001 UTC".to_vec(),
    ));
    let later = derive_identifier(&ResolvedSource::Fallback(
        b"2024-05-01 10:00:00.000000002 UTC".to_vec(),
    ));
    assert_ne!(earlier, later);
}

#[test]
fn identifier_text_is_canonical_form() {
    let id = derive_for_name(b"canonical-form-check");
    assert_eq!(id.len(), 36);
    let bytes = id.as_bytes();
    for (i, b) in bytes.iter().enumerate() {
        if i == 8 || i == 13 || i == 18 || i == 23 {
            assert_eq!(*b, b'-');
        } else {
            assert!(b.is_ascii_hexdigit());
            assert!(!b.is_ascii_uppercase());
        }
    }
    assert_eq!(bytes[14], b'5');
    let variant_nibble = bytes[19];
    assert!(matches!(variant_nibble, b'8' | b'9' | b'a' | b'b'));
}

#[test]
fn format_hyphenated_renders_fixed_bytes() {
    let bytes: [u8; 16] = [
        0x00, 0x01, 0x23, 0x45, 0x67, 0x89, 0xab, 0xcd, 0xef, 0xfe, 0xdc, 0xba, 0x98, 0x76,
        0x54, 0x32,
    ];
    let text = format_hyphenated(&bytes);
    assert_eq!(text, "00012345-6789-abcd-effe-dcba98765432");
}
