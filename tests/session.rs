use home_auth::session::{get_user_id_from_cookie, parse_i32, Claims};

#[test]
fn decimal_text() {
    assert_eq!(parse_i32("42"), Some(42));
    assert_eq!(parse_i32("-17"), Some(-17));
    assert_eq!(parse_i32("+8"), Some(8));
    assert_eq!(parse_i32("007"), Some(7));
    assert_eq!(parse_i32("2147483647"), Some(i32::MAX));
    assert_eq!(parse_i32("-2147483648"), Some(i32::MIN));
    assert_eq!(parse_i32("2147483648"), None);
    assert_eq!(parse_i32("-2147483649"), None);
    assert_eq!(parse_i32("99999999999999999999"), None);
    assert_eq!(parse_i32(""), None);
    assert_eq!(parse_i32("-"), None);
    assert_eq!(parse_i32("+"), None);
    assert_eq!(parse_i32("4x"), None);
    assert_eq!(parse_i32(" 4"), None);
}

#[test]
fn user_id_from_claims() {
    let claims = Claims { sub: "42".to_string(), exp: 10 };
    assert_eq!(get_user_id_from_cookie(Some(&claims)), Some(42));
    let claims = Claims { sub: "-1".to_string(), exp: 10 };
    assert_eq!(get_user_id_from_cookie(Some(&claims)), Some(-1));
    let claims = Claims { sub: "someone".to_string(), exp: 10 };
    assert_eq!(get_user_id_from_cookie(Some(&claims)), None);
    assert_eq!(get_user_id_from_cookie(None), None);
}
