use rats::decimal::{i32_to_string, parse_usize, u64_to_string};
use rats::user::User;

#[test]
fn prints_numbers_like_to_string() {
    assert_eq!(u64_to_string(0), "0");
    assert_eq!(u64_to_string(7), "7");
    assert_eq!(u64_to_string(4096), "4096");
    assert_eq!(u64_to_string(u64::MAX), u64::MAX.to_string());
    assert_eq!(i32_to_string(-1), "-1");
    assert_eq!(i32_to_string(i32::MIN), i32::MIN.to_string());
    assert_eq!(i32_to_string(i32::MAX), i32::MAX.to_string());
}

#[test]
fn parses_numbers_like_str_parse() {
    for text in ["0", "42", "+42", "007", "", "+", "-1", "1a", "++1", " 1", "18446744073709551615", "18446744073709551616", "99999999999999999999999"] {
        assert_eq!(parse_usize(text), text.parse::<usize>().ok(), "{:?}", text);
    }
}

#[test]
fn session_cookie_round_trip() {
    for id in [0i32, 1, 17, 123456, i32::MAX] {
        let cookie = rats::user::login(Some(id)).cookie.unwrap();
        let user = User::from_cookie(&cookie).unwrap();
        assert_eq!(user.0, id as usize);
    }
    let cookie = rats::user::login(Some(-5)).cookie.unwrap();
    assert_eq!(cookie, "-5");
    assert!(User::from_cookie(&cookie).is_none());
    assert!(User::from_cookie("abc").is_none());
}
