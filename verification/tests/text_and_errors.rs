use quickstack::access::{admin_only, require_admin, AuthUser};
use quickstack::error::AppError;
use quickstack::money::money_string;
use quickstack::paging::page_window;
use quickstack::text::{
    ascii_lower_char, cat2, cat3, cat4, chars_ends_with, chars_eq, chars_starts_with, contains_string, decimal_string,
    find_char, is_ascii_alnum_char, is_digit_char, is_space_char, parse_i64, parse_u32, parse_u64, rfind_char,
    signed_decimal_string, slice_chars, split_chars, str_eq, trim_chars, trim_end_chars, trim_str,
};

fn cs(s: &str) -> Vec<char> {
    s.chars().collect()
}

fn st(v: &[char]) -> String {
    v.iter().collect()
}

fn user(admin: bool) -> AuthUser {
    AuthUser { user_id: "u1".to_string(), username: "alice".to_string(), is_global_admin: admin }
}

#[test]
fn decimal_printing() {
    assert_eq!(decimal_string(0), "0");
    assert_eq!(decimal_string(1234), "1234");
    assert_eq!(decimal_string(u64::MAX), "18446744073709551615");
    assert_eq!(signed_decimal_string(-42), "-42");
    assert_eq!(signed_decimal_string(7), "7");
    assert_eq!(signed_decimal_string(i64::MIN), "-9223372036854775808");
}

#[test]
fn decimal_parsing_like_from_str() {
    assert_eq!(parse_u32(&cs("42")), Some(42));
    assert_eq!(parse_u32(&cs("+7")), Some(7));
    assert_eq!(parse_u32(&cs("")), None);
    assert_eq!(parse_u32(&cs("4x")), None);
    assert_eq!(parse_u32(&cs("4294967295")), Some(u32::MAX));
    assert_eq!(parse_u32(&cs("4294967296")), None);
    assert_eq!(parse_u64(&cs("18446744073709551615")), Some(u64::MAX));
    assert_eq!(parse_u64(&cs("-1")), None);
    assert_eq!(parse_i64(&cs("-9223372036854775808")), Some(i64::MIN));
    assert_eq!(parse_i64(&cs("9223372036854775808")), None);
    assert_eq!(parse_i64(&cs("-")), None);
    assert_eq!(parse_i64(&cs("+15")), Some(15));
}

#[test]
fn character_classes() {
    assert!(is_digit_char('7'));
    assert!(!is_digit_char('a'));
    assert!(is_ascii_alnum_char('Z'));
    assert!(!is_ascii_alnum_char('-'));
    assert!(is_space_char(' '));
    assert!(is_space_char('\u{3000}'));
    assert!(!is_space_char('x'));
    assert_eq!(ascii_lower_char('Q'), 'q');
    assert_eq!(ascii_lower_char('é'), 'é');
}

#[test]
fn searching_and_slicing() {
    let s = cs("a/b/c");
    assert_eq!(find_char(&s, '/'), Some(1));
    assert_eq!(rfind_char(&s, '/'), Some(3));
    assert_eq!(find_char(&s, ':'), None);
    assert_eq!(st(&slice_chars(&s, 2, 5)), "b/c");
    let parts: Vec<String> = split_chars(&cs("a,,b"), ',').iter().map(|p| st(p)).collect();
    assert_eq!(parts, vec!["a", "", "b"]);
    let one: Vec<String> = split_chars(&cs(""), ',').iter().map(|p| st(p)).collect();
    assert_eq!(one, vec![""]);
    assert!(chars_eq(&cs("abc"), &cs("abc")));
    assert!(!chars_eq(&cs("abc"), &cs("abd")));
    assert!(chars_starts_with(&cs("https://x"), &cs("http")));
    assert!(chars_ends_with(&cs("key.pub"), &cs(".pub")));
    assert!(!chars_ends_with(&cs("pub"), &cs(".pub")));
    assert!(str_eq("x", "x"));
    assert!(!str_eq("x", "y"));
}

#[test]
fn trimming_like_str_trim() {
    assert_eq!(st(&trim_str("  hi there \n")), "hi there");
    assert_eq!(st(&trim_chars(&cs("\t\t"))), "");
    assert_eq!(st(&trim_end_chars(&cs("  x  "))), "  x");
}

#[test]
fn concatenation_and_membership() {
    assert_eq!(cat2("a", "b"), "ab");
    assert_eq!(cat3("a", "b", "c"), "abc");
    assert_eq!(cat4("a", "b", "c", "d"), "abcd");
    let v = vec!["x".to_string(), "y".to_string()];
    assert!(contains_string(&v, &"y".to_string()));
    assert!(!contains_string(&v, &"z".to_string()));
}

#[test]
fn admin_gates() {
    assert!(require_admin(&user(true)).is_ok());
    match require_admin(&user(false)) {
        Err(AppError::Forbidden(m)) => assert_eq!(m, "global admin required"),
        _ => panic!("expected 403"),
    }
    assert!(admin_only(&user(true)).is_ok());
    match admin_only(&user(false)) {
        Err(AppError::Forbidden(m)) => assert_eq!(m, "admin only"),
        _ => panic!("expected 403"),
    }
}

#[test]
fn error_message_of_each_kind() {
    assert_eq!(AppError::BadRequest("a".to_string()).message(), "a");
    assert_eq!(AppError::Conflict("c".to_string()).message(), "c");
    assert_eq!(AppError::Internal("i".to_string()).message(), "i");
}

#[test]
fn money_has_two_decimals() {
    assert_eq!(money_string(0), "0.00");
    assert_eq!(money_string(5), "0.05");
    assert_eq!(money_string(12345), "123.45");
    assert_eq!(money_string(-250), "-2.50");
}

#[test]
fn page_window_clamps() {
    let w = page_window(None, None, 20, 100);
    assert_eq!((w.page, w.per_page, w.offset), (1, 20, 0));
    let w = page_window(Some(0), Some(500), 20, 100);
    assert_eq!((w.page, w.per_page, w.offset), (1, 100, 0));
    let w = page_window(Some(3), Some(10), 20, 100);
    assert_eq!((w.page, w.per_page, w.offset), (3, 10, 20));
}

#[test]
fn public_routes() {
    assert!(quickstack::access::is_public_route("POST", "/auth/login"));
    assert!(quickstack::access::is_public_route("GET", "/auth/registration-status"));
    assert!(quickstack::access::is_public_route("POST", "/webhooks/abc-123"));
    assert!(quickstack::access::is_public_route("POST", "/stripe/webhook"));
    assert!(quickstack::access::is_public_route("GET", "/_qs/maintenance"));
    assert!(!quickstack::access::is_public_route("GET", "/auth/login"));
    assert!(!quickstack::access::is_public_route("POST", "/webhooks/"));
    assert!(!quickstack::access::is_public_route("POST", "/webhooks/a/b"));
    assert!(!quickstack::access::is_public_route("GET", "/api/v1/auth/me"));
    assert!(!quickstack::access::is_public_route("POST", "/auth/refresh"));
}
