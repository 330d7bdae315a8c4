use asm_emit::text::{magnitude, push_byte, push_byte_list, push_decimal, push_hex, push_signed_decimal};

fn decimal(n: u64) -> String {
    let mut out = String::new();
    push_decimal(&mut out, n);
    out
}

fn signed(i: i64) -> String {
    let mut out = String::new();
    push_signed_decimal(&mut out, i);
    out
}

fn hex(n: u64, width: u8) -> String {
    let mut out = String::new();
    push_hex(&mut out, n, width);
    out
}

fn byte_list(bytes: &[u8]) -> String {
    let mut out = String::new();
    push_byte_list(&mut out, bytes);
    out
}

#[test]
fn decimal_of_small_numbers() {
    assert_eq!(decimal(0), "0");
    assert_eq!(decimal(7), "7");
    assert_eq!(decimal(9), "9");
    assert_eq!(decimal(10), "10");
    assert_eq!(decimal(60), "60");
    assert_eq!(decimal(1000), "1000");
}

#[test]
fn decimal_of_the_largest_number() {
    assert_eq!(decimal(u64::MAX), "18446744073709551615");
}

#[test]
fn decimal_agrees_with_the_standard_library() {
    for n in [0u64, 1, 9, 10, 11, 99, 100, 101, 12345, 4294967295, 4294967296, u64::MAX - 1] {
        assert_eq!(decimal(n), n.to_string());
    }
}

#[test]
fn decimal_appends_to_what_is_there() {
    let mut out = String::from("n = ");
    push_decimal(&mut out, 42);
    assert_eq!(out, "n = 42");
}

#[test]
fn signed_decimal_of_negative_numbers() {
    assert_eq!(signed(-1), "-1");
    assert_eq!(signed(-60), "-60");
    assert_eq!(signed(0), "0");
    assert_eq!(signed(60), "60");
}

#[test]
fn signed_decimal_at_the_limits() {
    assert_eq!(signed(i64::MIN), "-9223372036854775808");
    assert_eq!(signed(i64::MAX), "9223372036854775807");
}

#[test]
fn magnitude_at_the_limits() {
    assert_eq!(magnitude(0), 0);
    assert_eq!(magnitude(5), 5);
    assert_eq!(magnitude(-5), 5);
    assert_eq!(magnitude(i64::MAX), 9223372036854775807);
    assert_eq!(magnitude(i64::MIN), 9223372036854775808);
}

#[test]
fn hex_is_fixed_width_and_lower_case() {
    assert_eq!(hex(0, 16), "0000000000000000");
    assert_eq!(hex(0x1f, 16), "000000000000001f");
    assert_eq!(hex(0xABCDEF, 16), "0000000000abcdef");
    assert_eq!(hex(u64::MAX, 16), "ffffffffffffffff");
    assert_eq!(hex(0x8b785f225f7f0d83, 16), "8b785f225f7f0d83");
}

#[test]
fn hex_keeps_the_least_significant_digits() {
    assert_eq!(hex(0x1234, 0), "");
    assert_eq!(hex(0x1234, 2), "34");
    assert_eq!(hex(0x1234, 4), "1234");
    assert_eq!(hex(0x1234, 6), "001234");
}

#[test]
fn hex_agrees_with_the_standard_library() {
    for n in [0u64, 9, 10, 15, 16, 255, 256, 0xdead_beef, 0x0123_4567_89ab_cdef, u64::MAX] {
        assert_eq!(hex(n, 16), format!("{:016x}", n));
    }
}

#[test]
fn byte_tokens_are_upper_case() {
    let mut out = String::new();
    push_byte(&mut out, 0x0a);
    assert_eq!(out, "0x0A");
    push_byte(&mut out, 0xff);
    assert_eq!(out, "0x0A0xFF");
}

#[test]
fn every_byte_agrees_with_the_standard_library() {
    for b in 0..=255u8 {
        let mut out = String::new();
        push_byte(&mut out, b);
        assert_eq!(out, format!("0x{:02X}", b));
    }
}

#[test]
fn byte_list_of_two_bytes() {
    assert_eq!(byte_list(&[0x00, 0xFF]), "0x00, 0xFF");
}

#[test]
fn byte_list_has_no_trailing_separator() {
    assert_eq!(byte_list(&[]), "");
    assert_eq!(byte_list(&[0x41]), "0x41");
    assert_eq!(byte_list(&[1, 2, 3]), "0x01, 0x02, 0x03");
}

#[test]
fn byte_list_keeps_the_input_order() {
    assert_eq!(byte_list(&[3, 1, 2, 1]), "0x03, 0x01, 0x02, 0x01");
}

#[test]
fn byte_lists_of_different_bytes_differ() {
    let lists: [&[u8]; 6] = [&[], &[0], &[0, 0], &[0x10], &[0x01], &[0x01, 0x00]];
    for (i, first) in lists.iter().enumerate() {
        for second in lists.iter().skip(i + 1) {
            assert_ne!(byte_list(first), byte_list(second));
        }
    }
}
