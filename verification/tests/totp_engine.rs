use totp_generator::error::Error;
use totp_generator::totp::{
    counter_bytes, generate_totp, get_counter, power_of_ten, token_for_counter, token_from_tag,
    truncate_tag, Totp,
};

#[test]
fn topt_test_known_totp_values() {
    let secret = "JBSWY3DPEHPK3PXP";
    let digits = 6;
    let time_step = 30;

    let test_cases = vec![
        (1748742637, "879599"),
        (1748742663, "690726"),
        (1748742688, "690726"),
        (1748742714, "565959"),
        (1748742739, "295060"),
    ];

    for (timestamp, expected) in test_cases {
        let otp = Totp::new(secret, time_step, Some(digits), timestamp).unwrap();
        assert_eq!(otp.token, expected, "Failed for timestamp {}", otp.to_text());
    }
}

#[test]
fn totp_test_known_totp_values() {
    let secret = "JBSWY3DPEHPK3PXP";
    let digits = 6;
    let time_step = 30;

    let test_cases = vec![
        (1748742637, "879599", 1748742660, 58291421),
        (1748742663, "690726", 1748742690, 58291422),
        (1748742688, "690726", 1748742690, 58291422),
        (1748742714, "565959", 1748742720, 58291423),
        (1748742739, "295060", 1748742750, 58291424),
    ];

    for (timestamp, expected, expected_valid, expected_counter) in test_cases {
        let (otp, valid, counter) =
            generate_totp(secret, time_step, Some(digits), timestamp).unwrap();
        assert_eq!(otp, expected, "Failed for timestamp {}", timestamp);
        assert_eq!(valid, expected_valid, "Failed valid for timestamp {}", timestamp);
        assert_eq!(counter, expected_counter, "Failed counter for timestamp {}", timestamp);
    }
}

#[test]
fn generate_is_repeatable() {
    let first = generate_totp("JBSWY3DPEHPK3PXP", 30, Some(6), 1748742637).unwrap();
    let second = generate_totp("JBSWY3DPEHPK3PXP", 30, Some(6), 1748742637).unwrap();
    assert_eq!(first, second);
}

#[test]
fn generate_defaults_to_six_digits() {
    let (token, _, _) = generate_totp("JBSWY3DPEHPK3PXP", 30, None, 1748742637).unwrap();
    assert_eq!(token, "879599");
}

#[test]
fn generate_other_digit_counts() {
    let (eight, _, _) = generate_totp("JBSWY3DPEHPK3PXP", 30, Some(8), 1748742637).unwrap();
    assert_eq!(eight.len(), 8);
    assert!(eight.ends_with("879599"));
    let (one, _, _) = generate_totp("JBSWY3DPEHPK3PXP", 30, Some(1), 1748742637).unwrap();
    assert_eq!(one, "9");
    let (nine, _, _) = generate_totp("JBSWY3DPEHPK3PXP", 30, Some(9), 1748742637).unwrap();
    assert_eq!(nine.len(), 9);
    assert!(nine.ends_with(eight.as_str()));
}

#[test]
fn generate_rejects_undecodable_secret() {
    let outcome = generate_totp("not base32!", 30, Some(6), 1748742637);
    assert!(matches!(outcome, Err(Error::InvalidSecret)));
    assert!(matches!(Totp::new("1", 30, Some(6), 0), Err(Error::InvalidSecret)));
}

#[test]
fn rfc_reference_key_sha1() {
    // The 20-byte ASCII key "12345678901234567890" in Base32.
    let secret = "GEZDGNBVGY3TQOJQGEZDGNBVGY3TQOJQ";
    let cases = vec![
        (59u64, "94287082"),
        (1111111109, "07081804"),
        (1111111111, "14050471"),
        (1234567890, "89005924"),
        (2000000000, "69279037"),
        (20000000000, "65353130"),
    ];
    for (now, expected) in cases {
        let (token, _, _) = generate_totp(secret, 30, Some(8), now).unwrap();
        assert_eq!(token, expected, "at {}", now);
    }
}

#[test]
fn counter_is_floor_of_quotient() {
    assert_eq!(get_counter(0, 30), 0);
    assert_eq!(get_counter(29, 30), 0);
    assert_eq!(get_counter(30, 30), 1);
    assert_eq!(get_counter(1748742637, 30), 58291421);
    assert_eq!(get_counter(u64::MAX, 1), u64::MAX);
}

#[test]
fn counter_bytes_are_big_endian() {
    assert_eq!(counter_bytes(1), vec![0, 0, 0, 0, 0, 0, 0, 1]);
    assert_eq!(
        counter_bytes(0x0102030405060708),
        vec![1, 2, 3, 4, 5, 6, 7, 8]
    );
    assert_eq!(counter_bytes(u64::MAX), vec![255; 8]);
}

#[test]
fn truncation_follows_the_offset_nibble() {
    // The worked example of RFC 4226, section 5.4.
    let tag: [u8; 20] = [
        0x1f, 0x86, 0x98, 0x69, 0x0e, 0x02, 0xca, 0x16, 0x61, 0x85, 0x50, 0xef, 0x7f, 0x19, 0xda,
        0x8e, 0x94, 0x5b, 0x55, 0x5a,
    ];
    assert_eq!(truncate_tag(&tag), 0x50ef7f19);
    assert_eq!(token_from_tag(&tag, 6), "872921");
    let mut high = [0xffu8; 20];
    high[19] = 0xf0;
    assert_eq!(truncate_tag(&high), 0x7fffffff);
    assert_eq!(token_from_tag(&high, 9), "147483647");
    let zero = [0u8; 20];
    assert_eq!(token_from_tag(&zero, 4), "0000");
}

#[test]
fn powers_of_ten() {
    assert_eq!(power_of_ten(0), 1);
    assert_eq!(power_of_ten(1), 10);
    assert_eq!(power_of_ten(6), 1_000_000);
    assert_eq!(power_of_ten(9), 1_000_000_000);
}

#[test]
fn validity_window_holds_the_time() {
    for now in [0u64, 1, 29, 30, 31, 1748742637, 1748742660] {
        let code = Totp::new("JBSWY3DPEHPK3PXP", 30, Some(6), now).unwrap();
        assert!(code.counter * 30 <= now);
        assert!(now < code.valid_until);
        assert_eq!(code.valid_until, (code.counter + 1) * 30);
        assert_eq!(code.token.len(), 6);
    }
}

#[test]
fn needs_refresh_turns_at_the_boundary() {
    let code = Totp::new("JBSWY3DPEHPK3PXP", 30, Some(6), 1748742637).unwrap();
    assert_eq!(code.valid_until, 1748742660);
    for now in 1748742630..1748742660 {
        assert!(!code.needs_refresh(30, now));
    }
    assert!(code.needs_refresh(30, 1748742660));
    assert!(code.needs_refresh(30, 1748742629));
    assert!(code.needs_refresh(30, 1748742661));
}

#[test]
fn valid_duration_counts_down() {
    let code = Totp::new("JBSWY3DPEHPK3PXP", 30, Some(6), 1748742637).unwrap();
    assert_eq!(code.valid_duration(1748742637), 23);
    assert_eq!(code.valid_duration(1748742659), 1);
    assert_eq!(code.valid_duration(1748742660), 0);
    let long = Totp::new("JBSWY3DPEHPK3PXP", 100000, Some(6), 0).unwrap();
    assert_eq!(long.valid_duration(0), (100000u64 % 65536) as u16);
}

#[test]
fn refresh_moves_to_the_current_window() {
    let mut code = Totp::new("JBSWY3DPEHPK3PXP", 30, Some(6), 1748742637).unwrap();
    assert_eq!(code.token, "879599");
    code.refresh("JBSWY3DPEHPK3PXP", 30, Some(6), 1748742663).unwrap();
    assert_eq!(code.token, "690726");
    assert_eq!(code.counter, 58291422);
    assert_eq!(code.valid_until, 1748742690);
    let failed = code.refresh("***", 30, Some(6), 1748742714);
    assert!(matches!(failed, Err(Error::InvalidSecret)));
    assert_eq!(code.token, "690726");
    assert_eq!(code.counter, 58291422);
}

#[test]
fn totp_text_form() {
    let code = Totp::new("JBSWY3DPEHPK3PXP", 30, Some(6), 1748742637).unwrap();
    assert_eq!(code.to_text(), "879599 @ 1748742660");
}

#[test]
fn counter_based_reference_codes() {
    // The test values of RFC 4226, appendix D.
    let key = b"12345678901234567890";
    let expected = [
        "755224", "287082", "359152", "969429", "338314", "254676", "287922", "162583", "399871",
        "520489",
    ];
    for (counter, code) in expected.iter().enumerate() {
        assert_eq!(token_for_counter(key, counter as u64, 6), *code);
    }
    assert_eq!(token_for_counter(b"", 0, 6).len(), 6);
    assert_ne!(token_for_counter(key, 0, 6), token_for_counter(b"other key", 0, 6));
}
