use shiori::checksum::to_lower_hex;
use shiori::download::Checksum;

fn check(expected: &str, chunks: &[&[u8]]) -> bool {
    let checksum = Checksum::Sha1(expected.to_string());
    let mut v = checksum.start_verification();
    for c in chunks {
        v.update(c);
    }
    v.finish()
}

#[test]
fn correct_digest_passes() {
    assert!(check("2aae6c35c94fcfb415dbe95f408b9ce91ee846ed", &[b"hello world"]));
}

#[test]
fn digest_is_compared_without_case() {
    assert!(check("2AAE6C35C94FCFB415DBE95F408B9CE91EE846ED", &[b"hello world"]));
}

#[test]
fn chunked_reading_gives_the_same_digest() {
    assert!(check("2aae6c35c94fcfb415dbe95f408b9ce91ee846ed", &[b"hel", b"", b"lo wor", b"ld"]));
    assert!(check("a9993e364706816aba3e25717850c26c9cd0d89d", &[b"a", b"bc"]));
}

#[test]
fn one_flipped_bit_fails() {
    // 'h' (0x68) with its lowest bit flipped is 'i' (0x69).
    assert!(!check("2aae6c35c94fcfb415dbe95f408b9ce91ee846ed", &[b"iello world"]));
}

#[test]
fn wrong_length_digest_fails() {
    assert!(!check("2aae6c35", &[b"hello world"]));
    assert!(!check("", &[b""]));
}

#[test]
fn empty_input_digest() {
    assert!(check("da39a3ee5e6b4b0d3255bfef95601890afd80709", &[]));
}

#[test]
fn lower_hex_of_bytes() {
    assert_eq!(to_lower_hex(&[0x00, 0xff, 0x1a, 0x9c]).into_iter().collect::<String>(), "00ff1a9c");
    assert!(to_lower_hex(&[]).is_empty());
}

#[test]
fn matches_digest_directly() {
    let c = Checksum::Sha1("00Ff".to_string());
    assert!(c.matches_digest(&[0x00, 0xff]));
    assert!(!c.matches_digest(&[0x00, 0xfe]));
}
