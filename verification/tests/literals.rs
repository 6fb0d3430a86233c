use contract_vm::decimal::parse_exit_code;
use contract_vm::decimal::parse_target;
use contract_vm::error::VmError;
use contract_vm::hexlit::decode_hex;
use contract_vm::text::decode_text;
use contract_vm::text::transaction_line;

#[test]
fn hex_literal_decodes_pair_by_pair() {
    assert_eq!(decode_hex("0000000000000001"), Ok(vec![0, 0, 0, 0, 0, 0, 0, 1]));
    assert_eq!(decode_hex("48656c6c6f"), Ok(vec![0x48, 0x65, 0x6c, 0x6c, 0x6f]));
    assert_eq!(decode_hex("ff00"), Ok(vec![255, 0]));
    assert_eq!(decode_hex("10"), Ok(vec![16]));
    assert_eq!(decode_hex("01"), Ok(vec![1]));
}

#[test]
fn hex_literal_accepts_both_cases() {
    assert_eq!(decode_hex("f9b4ca"), Ok(vec![0xf9, 0xb4, 0xca]));
    assert_eq!(decode_hex("F9B4CA"), Ok(vec![0xf9, 0xb4, 0xca]));
    assert_eq!(decode_hex("f9B4Ca"), Ok(vec![0xf9, 0xb4, 0xca]));
    assert_eq!(decode_hex("aAfF09"), Ok(vec![0xaa, 0xff, 0x09]));
}

#[test]
fn empty_hex_literal_is_no_bytes() {
    assert_eq!(decode_hex(""), Ok(vec![]));
}

#[test]
fn malformed_hex_literal_is_an_encoding_error() {
    assert_eq!(decode_hex("123"), Err(VmError::InvalidEncoding));
    assert_eq!(decode_hex("0g"), Err(VmError::InvalidEncoding));
    assert_eq!(decode_hex("g0"), Err(VmError::InvalidEncoding));
    assert_eq!(decode_hex("0x10"), Err(VmError::InvalidEncoding));
    assert_eq!(decode_hex(" 10"), Err(VmError::InvalidEncoding));
    assert_eq!(decode_hex("1/"), Err(VmError::InvalidEncoding));
    assert_eq!(decode_hex("1:"), Err(VmError::InvalidEncoding));
    assert_eq!(decode_hex("1@"), Err(VmError::InvalidEncoding));
    assert_eq!(decode_hex("1G"), Err(VmError::InvalidEncoding));
    assert_eq!(decode_hex("1`"), Err(VmError::InvalidEncoding));
    assert_eq!(decode_hex("\u{e9}"), Err(VmError::InvalidEncoding));
    assert_eq!(decode_hex("\u{e9}\u{e9}"), Err(VmError::InvalidEncoding));
    assert_eq!(decode_hex("\u{661}\u{662}"), Err(VmError::InvalidEncoding));
}

#[test]
fn text_is_decoded_from_utf8() {
    assert_eq!(decode_text(vec![0x61, 0x6c, 0x69, 0x63, 0x65]), Ok("alice".to_string()));
    assert_eq!(decode_text(vec![]), Ok(String::new()));
    assert_eq!(decode_text(vec![0xc3, 0xa9]), Ok("\u{e9}".to_string()));
    assert_eq!(decode_text(vec![0xe2, 0x82, 0xac, 0x31]), Ok("\u{20ac}1".to_string()));
}

#[test]
fn malformed_utf8_is_an_encoding_error() {
    assert_eq!(decode_text(vec![0xff]), Err(VmError::InvalidEncoding));
    assert_eq!(decode_text(vec![0x61, 0x80]), Err(VmError::InvalidEncoding));
    assert_eq!(decode_text(vec![0xc3]), Err(VmError::InvalidEncoding));
    assert_eq!(decode_text(vec![0xc0, 0x80]), Err(VmError::InvalidEncoding));
    assert_eq!(decode_text(vec![0xed, 0xa0, 0x80]), Err(VmError::InvalidEncoding));
}

#[test]
fn jump_target_is_decimal_with_optional_plus() {
    assert_eq!(parse_target("0"), Some(0));
    assert_eq!(parse_target("12"), Some(12));
    assert_eq!(parse_target("+7"), Some(7));
    assert_eq!(parse_target("007"), Some(7));
    assert_eq!(parse_target(&usize::MAX.to_string()), Some(usize::MAX));
}

#[test]
fn jump_target_rejects_what_is_not_a_number() {
    assert_eq!(parse_target(""), None);
    assert_eq!(parse_target("+"), None);
    assert_eq!(parse_target("-"), None);
    assert_eq!(parse_target("-1"), None);
    assert_eq!(parse_target("-0"), None);
    assert_eq!(parse_target("1a"), None);
    assert_eq!(parse_target("a1"), None);
    assert_eq!(parse_target(" 1"), None);
    assert_eq!(parse_target("1 "), None);
    assert_eq!(parse_target("++1"), None);
    assert_eq!(parse_target("1+"), None);
    assert_eq!(parse_target("0x10"), None);
    assert_eq!(parse_target("1.0"), None);
    assert_eq!(parse_target("\u{661}"), None);
    assert_eq!(parse_target("/"), None);
    assert_eq!(parse_target(":"), None);
}

#[test]
fn jump_target_rejects_overflow() {
    assert_eq!(parse_target("18446744073709551616"), None);
    assert_eq!(parse_target("99999999999999999999999999999999999999999"), None);
    assert_eq!(parse_target("340282366920938463463374607431768211456"), None);
}

#[test]
fn exit_code_is_decimal_with_optional_sign() {
    assert_eq!(parse_exit_code("0"), Some(0));
    assert_eq!(parse_exit_code("42"), Some(42));
    assert_eq!(parse_exit_code("+42"), Some(42));
    assert_eq!(parse_exit_code("-42"), Some(-42));
    assert_eq!(parse_exit_code("-0"), Some(0));
    assert_eq!(parse_exit_code("9223372036854775807"), Some(i64::MAX));
    assert_eq!(parse_exit_code("-9223372036854775808"), Some(i64::MIN));
    assert_eq!(parse_exit_code("-9223372036854775807"), Some(i64::MIN + 1));
}

#[test]
fn exit_code_rejects_what_is_out_of_range_or_malformed() {
    assert_eq!(parse_exit_code("9223372036854775808"), None);
    assert_eq!(parse_exit_code("-9223372036854775809"), None);
    assert_eq!(parse_exit_code(""), None);
    assert_eq!(parse_exit_code("-"), None);
    assert_eq!(parse_exit_code("+"), None);
    assert_eq!(parse_exit_code("--1"), None);
    assert_eq!(parse_exit_code("+-1"), None);
    assert_eq!(parse_exit_code("-+1"), None);
    assert_eq!(parse_exit_code("1-"), None);
    assert_eq!(parse_exit_code("one"), None);
}

#[test]
fn parsers_agree_with_the_standard_library() {
    for text in ["0", "5", "+5", "-5", "", "+", "-", "00", "1_000", "4294967296", "\u{663}"] {
        assert_eq!(parse_target(text), text.parse::<usize>().ok());
        assert_eq!(parse_exit_code(text), text.parse::<i64>().ok());
    }
}

#[test]
fn transaction_line_separates_the_texts_by_single_spaces() {
    assert_eq!(transaction_line("alice", "bob", "12"), "alice bob 12");
    assert_eq!(transaction_line("", "", ""), "  ");
    assert_eq!(transaction_line("a b", "c", ""), "a b c ");
}
