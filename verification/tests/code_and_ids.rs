use cgeos2::code::{read_code, CodeError};
use cgeos2::decimal::decimal_string;
use cgeos2::ids::{id_text, resolve_operation_id};
use cgeos2::request_id::{next_request_id, request_id_for, REQUEST_ID_MODULUS};

#[test]
fn stdin_code_is_trimmed_without_appearing_in_errors() {
    assert_eq!(read_code(" 123456\n").unwrap(), "123456");
    let error = read_code("123 456\n").unwrap_err().message();
    assert!(!error.contains("123 456"));
}

#[test]
fn code_accepts_one_token_padded_by_any_white_space() {
    assert_eq!(read_code("\t\r\n654321\u{3000}\n").unwrap(), "654321");
    assert_eq!(read_code("a").unwrap(), "a");
    assert_eq!(read_code("\u{a0}x-y_z\u{2028}").unwrap(), "x-y_z");
}

#[test]
fn code_refuses_empty_multi_line_and_spaced_input() {
    assert_eq!(read_code(""), Err(CodeError::NotOneToken));
    assert_eq!(read_code(" \n\t "), Err(CodeError::NotOneToken));
    assert_eq!(read_code("12\n34\n"), Err(CodeError::NotOneToken));
    assert_eq!(read_code("12\u{2003}34"), Err(CodeError::NotOneToken));
    assert_eq!(
        CodeError::NotOneToken.message(),
        "stdin code must be one non-empty token"
    );
}

#[test]
fn decimal_text_matches_display() {
    assert_eq!(decimal_string(0), "0");
    assert_eq!(decimal_string(7), "7");
    assert_eq!(decimal_string(1234567890), "1234567890");
    assert_eq!(decimal_string(u64::MAX), u64::MAX.to_string());
}

#[test]
fn request_id_reduces_truncates_and_avoids_zero() {
    assert_eq!(request_id_for(None), "1");
    assert_eq!(request_id_for(Some(0)), "1");
    assert_eq!(request_id_for(Some(5)), "5");
    assert_eq!(request_id_for(Some(999_999_999_999_999_999)), "1");
    assert_eq!(request_id_for(Some(1_000_000_000_000_000_000)), "1");
    assert_eq!(
        request_id_for(Some(1_700_000_000_123_456_789)),
        "700000000123456790"
    );
    assert_eq!(request_id_for(Some((1u128 << 64) + 7)), "7");
}

#[test]
fn next_request_id_is_a_positive_decimal_below_the_modulus() {
    let id = next_request_id();
    assert!(!id.is_empty());
    assert!(id.bytes().all(|b| b.is_ascii_digit()));
    assert!(!id.starts_with('0'));
    let n: u64 = id.parse().unwrap();
    assert!(n >= 1 && n < REQUEST_ID_MODULUS);
}

#[test]
fn id_text_is_lowercase_hyphenated() {
    assert_eq!(id_text(1), "00000000-0000-0000-0000-000000000001");
    assert_eq!(
        id_text(0xa1a2a3a4b1b2c1c2d1d2d3d4d5d6d7d8),
        "a1a2a3a4-b1b2-c1c2-d1d2-d3d4d5d6d7d8"
    );
    assert_eq!(id_text(u128::MAX), "ffffffff-ffff-ffff-ffff-ffffffffffff");
}

#[test]
fn given_operation_id_is_kept_and_missing_one_is_random_v4() {
    assert_eq!(resolve_operation_id(Some(42)), 42);
    let a = resolve_operation_id(None);
    let b = resolve_operation_id(None);
    assert_eq!((a >> 76) & 0xf, 4);
    assert_eq!((a >> 62) & 0x3, 2);
    assert_ne!(a, b);
}
