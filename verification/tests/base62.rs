use mqkit::base62::contains;
use mqkit::base62::decode;
use mqkit::base62::encode;

#[test]
fn test_decode() {
    assert_eq!(decode("0"), Some(0));
    assert_eq!(decode("1"), Some(1));
    assert_eq!(decode("9"), Some(9));
    assert_eq!(decode("a"), Some(10));
    assert_eq!(decode("z"), Some(35));
    assert_eq!(decode("A"), Some(36));
    assert_eq!(decode("Z"), Some(61));
    assert_eq!(decode("10"), Some(62));
    assert_eq!(decode("lYGhA16ahyf"), Some(18446744073709551615));
    assert_eq!(decode("lYGhA16ahyg"), None);
}

#[test]
fn test_encode() {
    assert_eq!(encode(0), "0");
    assert_eq!(encode(1), "1");
    assert_eq!(encode(9), "9");
    assert_eq!(encode(10), "a");
    assert_eq!(encode(35), "z");
    assert_eq!(encode(36), "A");
    assert_eq!(encode(61), "Z");
    assert_eq!(encode(62), "10");
    assert_eq!(encode(18446744073709551615), "lYGhA16ahyf");
}

#[test]
fn test_contains() {
    let charset = b"0123456789abcdefghijklmnopqrstuvwxyzABCDEFGHIJKLMNOPQRSTUVWXYZ";
    for &c in charset.iter() {
        assert!(contains(c));
    }

    assert!(!contains(b' '));
    assert!(!contains(b'-'));
    assert!(!contains(b'_'));
}

#[test]
fn test_decode_rejects_foreign_bytes() {
    assert_eq!(decode("a b"), None);
    assert_eq!(decode("-1"), None);
    assert_eq!(decode("\u{00e9}"), None);
}

#[test]
fn test_encode_decode_round_trip() {
    for v in [0u64, 1, 61, 62, 3843, 3844, 238327, 987654321, u64::MAX] {
        assert_eq!(decode(encode(v).as_str()), Some(v));
    }
}
