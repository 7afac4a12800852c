use v4l_core::fourcc::FourCC;

#[test]
fn debug_fourcc_string() {
    assert_eq!(FourCC::new(b"MJPG").debug_str(), "FourCC(\"MJPG\")");
}

#[test]
fn debug_fourcc_nonascii() {
    assert_eq!(FourCC::new(&[0x01, 0xff, 0x20, 0xcd]).debug_str(), "FourCC(01 ff 20 cd)");
}

#[test]
fn fourcc_equality_bytewise() {
    assert_eq!(FourCC::new(b"YUYV"), FourCC::new(b"YUYV"));
    assert_ne!(FourCC::new(b"YUYV"), FourCC::new(b"MJPG"));
}

#[test]
fn str_of_printable_tag() {
    let fourcc = FourCC::new(b"MJPG");
    assert_eq!(fourcc.str().unwrap(), "MJPG");
}

#[test]
fn str_of_invalid_utf8_is_err() {
    let fourcc = FourCC::new(&[0x01, 0xff, 0x20, 0xcd]);
    assert!(fourcc.str().is_err());
}

#[test]
fn display_round_trips_for_ascii() {
    assert_eq!(FourCC::new(b"MJPG").display_str(), "MJPG");
    assert_eq!(FourCC::new(b"YUYV").display_str(), "YUYV");
}

#[test]
fn display_of_invalid_utf8_is_hex() {
    assert_eq!(FourCC::new(&[0x01, 0xff, 0x20, 0xcd]).display_str(), "01 ff 20 cd");
}

#[test]
fn debug_of_nonprintable_valid_utf8_is_hex() {
    // Four control bytes are valid UTF-8 but not printable.
    assert_eq!(FourCC::new(&[0x01, 0x01, 0x01, 0x01]).debug_str(), "FourCC(01 01 01 01)");
    // A tab and a newline are control characters too.
    assert_eq!(FourCC::new(&[0x4d, 0x09, 0x0a, 0x47]).debug_str(), "FourCC(4d 09 0a 47)");
}

#[test]
fn display_of_nonprintable_valid_utf8_is_hex() {
    assert_eq!(FourCC::new(&[0x01, 0x01, 0x01, 0x01]).display_str(), "01 01 01 01");
}

#[test]
fn printable_non_ascii_renders_as_text() {
    // The bytes 0xc3 0xa9 decode to U+00E9, printable, followed by "AB".
    let fourcc = FourCC::new(&[0xc3, 0xa9, 0x41, 0x42]);
    assert_eq!(fourcc.display_str(), "\u{e9}AB");
    assert_eq!(fourcc.debug_str(), "FourCC(\"\u{e9}AB\")");
}

#[test]
fn from_u32_little_endian() {
    // "MJPG" read as a little-endian 32-bit value.
    assert_eq!(FourCC::from(0x4750_4a4du32), FourCC::new(b"MJPG"));
}

#[test]
fn into_u32_little_endian() {
    assert_eq!(u32::from(FourCC::new(b"MJPG")), 0x4750_4a4du32);
}

#[test]
fn u32_round_trip() {
    let code: u32 = 0x5659_5559;
    assert_eq!(u32::from(FourCC::from(code)), code);
    let fourcc = FourCC::new(b"YUYV");
    assert_eq!(FourCC::from(u32::from(fourcc)), fourcc);
}

#[test]
fn default_is_all_zero() {
    assert_eq!(FourCC::default().repr, [0u8; 4]);
}
