use totp_generator::error::Error;
use totp_generator::text::{decimal, digit_to_char, join_text, padded_decimal};

#[test]
fn padded_decimal_pads_and_cuts() {
    assert_eq!(padded_decimal(42, 6), "000042");
    assert_eq!(padded_decimal(0, 3), "000");
    assert_eq!(padded_decimal(123456, 4), "3456");
    assert_eq!(padded_decimal(7, 0), "");
    assert_eq!(padded_decimal(u64::MAX, 20), "18446744073709551615");
    assert_eq!(padded_decimal(u64::MAX, 22), "0018446744073709551615");
}

#[test]
fn decimal_has_no_leading_zeros() {
    assert_eq!(decimal(0), "0");
    assert_eq!(decimal(9), "9");
    assert_eq!(decimal(10), "10");
    assert_eq!(decimal(1748742660), "1748742660");
    assert_eq!(decimal(u64::MAX), "18446744073709551615");
}

#[test]
fn digits_map_to_characters() {
    assert_eq!(digit_to_char(0), '0');
    assert_eq!(digit_to_char(5), '5');
    assert_eq!(digit_to_char(9), '9');
}

#[test]
fn join_text_joins_in_order() {
    assert_eq!(join_text("ab", "cd"), "abcd");
    assert_eq!(join_text("", "x"), "x");
    assert_eq!(join_text("x", ""), "x");
}

#[test]
fn error_messages() {
    assert_eq!(Error::EntryNotFound.message(), "Entry not found");
    assert_eq!(Error::InvalidSecret.message(), "Invalid base32 secret");
    assert_eq!(
        Error::ConfigIo("gone".to_string()).message(),
        "Failed to read config file: gone"
    );
    assert_eq!(
        Error::ConfigParse("bad".to_string()).message(),
        "Failed to parse secrets: bad"
    );
    assert_eq!(
        Error::SurfaceStartup("port".to_string()).message(),
        "Failed to start: port"
    );
}
