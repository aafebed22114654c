use cloak::decimal::{parse_u32, push_decimal, push_signed_decimal};
use cloak::errors::CustomError;
use cloak::models::query_id;
use cloak::rls::row_level_security_statement;
use cloak::user_id::UserId;

#[test]
fn decimal_notation() {
    let mut s = String::new();
    push_decimal(&mut s, 0);
    assert_eq!(s, "0");
    let mut s = String::from("n=");
    push_decimal(&mut s, 18446744073709551615);
    assert_eq!(s, "n=18446744073709551615");
    let mut s = String::new();
    push_signed_decimal(&mut s, -9223372036854775808);
    assert_eq!(s, "-9223372036854775808");
    let mut s = String::new();
    push_signed_decimal(&mut s, 907);
    assert_eq!(s, "907");
}

#[test]
fn parse_u32_like_std() {
    for text in ["42", "+7", "", "+", "4294967295", "4294967296", "-1", "12a", "007", "++1", " 1"] {
        assert_eq!(parse_u32(text.as_bytes()), text.parse::<u32>().ok(), "{:?}", text);
    }
    assert_eq!(parse_u32(b"+4294967295"), Some(4294967295));
    assert_eq!(parse_u32(b"99999999999999999999"), None);
}

#[test]
fn user_id_from_header() {
    assert_eq!(UserId::from_request(Some(b"123")), Ok(UserId { user_id: 123 }));
    assert_eq!(UserId::from_request(Some(b"+0")), Ok(UserId { user_id: 0 }));
    let refused = Err(CustomError::Unauthorized("x-user-id not found or unparseable".to_string()));
    assert_eq!(UserId::from_request(None), refused);
    assert_eq!(UserId::from_request(Some(b"abc")), refused);
    assert_eq!(UserId::from_request(Some(b"")), refused);
    assert_eq!(UserId::from_request(Some(b"4294967296")), refused);
    assert_eq!(UserId::from_request(Some(b"1\x7f")), refused);
}

#[test]
fn user_id_round_trip() {
    for n in [0u32, 1, 9, 10, 65535, 2147483648, 4294967295] {
        assert_eq!(UserId::from_request(Some(n.to_string().as_bytes())), Ok(UserId { user_id: n }));
    }
}

#[test]
fn row_level_security() {
    assert_eq!(row_level_security_statement(5), "SET LOCAL row_level_security.user_id = 5");
    assert_eq!(row_level_security_statement(-3), "SET LOCAL row_level_security.user_id = -3");
    assert_eq!(
        row_level_security_statement(i32::MIN),
        "SET LOCAL row_level_security.user_id = -2147483648"
    );
}

#[test]
fn query_ids_wrap_like_as() {
    assert_eq!(query_id(5), 5);
    assert_eq!(query_id(2147483647), 2147483647);
    assert_eq!(query_id(2147483648), -2147483648);
    assert_eq!(query_id(4294967295), -1);
}
