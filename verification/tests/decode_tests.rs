use pty_exec::decode::decode_utf8_lossy;

fn decoded(bytes: &[u8]) -> String {
    decode_utf8_lossy(&bytes.to_vec())
}

#[test]
fn decode_empty() {
    assert_eq!(decoded(b""), "");
}

#[test]
fn decode_ascii_exact() {
    assert_eq!(decoded(b"echo 'Hello, World'"), "echo 'Hello, World'");
}

#[test]
fn decode_multibyte_exact() {
    // two-, three- and four-byte scalars
    assert_eq!(decoded("é€😀".as_bytes()), "é€😀");
}

#[test]
fn decode_invalid_byte_replaced() {
    assert_eq!(decoded(&[0xFF, 0x61]), "\u{FFFD}a");
}

#[test]
fn decode_truncated_sequence_replaced() {
    // a three-byte encoding cut after two bytes: one replacement character
    assert_eq!(decoded(&[0xE2, 0x82]), "\u{FFFD}");
}

#[test]
fn decode_overlong_replaced() {
    // overlong two-byte encoding of NUL: one replacement per byte
    assert_eq!(decoded(&[0xC0, 0x80]), "\u{FFFD}\u{FFFD}");
}

#[test]
fn decode_surrogate_replaced() {
    // an encoded surrogate is ill-formed at its second byte
    assert_eq!(decoded(&[0xED, 0xA0, 0x80]), "\u{FFFD}\u{FFFD}\u{FFFD}");
}

#[test]
fn decode_matches_std_lossy() {
    let cases: Vec<Vec<u8>> = vec![
        b"plain ascii".to_vec(),
        "déjà vu 😀€".as_bytes().to_vec(),
        vec![0x80, 0x81, 0xBF],
        vec![0xC2, 0x41],
        vec![0xC2],
        vec![0xE0, 0x9F, 0x80],
        vec![0xE0, 0xA0, 0x80],
        vec![0xE1, 0x80],
        vec![0xED, 0x9F, 0xBF],
        vec![0xED, 0xA0, 0x80, 0x61],
        vec![0xF0, 0x80, 0x80, 0x80],
        vec![0xF0, 0x9F, 0x98],
        vec![0xF0, 0x9F, 0x98, 0x80],
        vec![0xF4, 0x8F, 0xBF, 0xBF],
        vec![0xF4, 0x90, 0x80, 0x80],
        vec![0xF5, 0x80, 0x80, 0x80],
        vec![0xFE, 0xFF],
        vec![0x61, 0xC2, 0xA9, 0xE2, 0x82, 0xAC, 0xF0, 0x9F, 0x92, 0xA9, 0xFF],
    ];
    for bytes in cases {
        let expected: String = String::from_utf8_lossy(&bytes).into_owned();
        assert_eq!(decoded(&bytes), expected, "bytes: {:?}", bytes);
    }
}
