use pty_exec::error::{format_i32, PtyError};

#[test]
fn message_has_fixed_prefix() {
    let e = PtyError::new("something broke");
    assert_eq!(e.message(), "Pseudo Terminal Error: something broke");
}

#[test]
fn with_detail_concatenates() {
    let e = PtyError::with_detail("Write failure ", "EIO");
    assert_eq!(e.0, "Write failure EIO");
}

#[test]
fn format_i32_values() {
    assert_eq!(format_i32(0), "0");
    assert_eq!(format_i32(7), "7");
    assert_eq!(format_i32(123), "123");
    assert_eq!(format_i32(-5), "-5");
    assert_eq!(format_i32(2147483647), "2147483647");
    assert_eq!(format_i32(-2147483648), "-2147483648");
}
