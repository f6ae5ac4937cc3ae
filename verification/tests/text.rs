use opensnitch_tui::text::{decimal_string, has_char, push_decimal, same_text};
use opensnitch_tui::time::{Timestamp, NANOS_PER_SEC};

#[test]
fn test_decimal_string() {
    assert_eq!(decimal_string(0), "0");
    assert_eq!(decimal_string(7), "7");
    assert_eq!(decimal_string(10), "10");
    assert_eq!(decimal_string(567), "567");
    assert_eq!(decimal_string(1_000_000), "1000000");
    assert_eq!(decimal_string(u64::MAX as u128), u64::MAX.to_string());
    assert_eq!(decimal_string(u128::MAX), u128::MAX.to_string());
}

#[test]
fn test_push_decimal_appends() {
    let mut out = String::from("port ");
    push_decimal(&mut out, 443);
    assert_eq!(out, "port 443");
}

#[test]
fn test_same_text() {
    assert!(same_text("", ""));
    assert!(same_text("abc", "abc"));
    assert!(!same_text("abc", "abd"));
    assert!(!same_text("abc", "ab"));
    assert!(!same_text("ab", "abc"));
    assert!(!same_text("", "a"));
    assert!(same_text("h\u{e9}llo", "h\u{e9}llo"));
}

#[test]
fn test_has_char() {
    assert!(has_char("::1", ':'));
    assert!(has_char("fe80::1", ':'));
    assert!(!has_char("10.0.0.1", ':'));
    assert!(!has_char("", ':'));
}

#[test]
fn test_after_secs() {
    let t = Timestamp { nanos: 5 };
    assert_eq!(t.after_secs(0), t);
    assert_eq!(t.after_secs(15), Timestamp { nanos: 15 * NANOS_PER_SEC + 5 });
    let late = Timestamp { nanos: u128::MAX - 10 };
    assert_eq!(late.after_secs(1), Timestamp { nanos: u128::MAX });
    assert_eq!(NANOS_PER_SEC, 1_000_000_000);
}

#[test]
fn test_secs_since() {
    let a = Timestamp { nanos: 1_500_000_000 };
    let b = Timestamp { nanos: 4_499_999_999 };
    assert_eq!(b.secs_since(a), Some(2));
    assert_eq!(a.secs_since(a), Some(0));
    assert_eq!(a.secs_since(b), None);
    assert_eq!(Timestamp { nanos: 4_500_000_000 }.secs_since(a), Some(3));
}

#[test]
fn test_has_reached() {
    let deadline = Timestamp { nanos: 100 };
    assert!(!Timestamp { nanos: 99 }.has_reached(deadline));
    assert!(Timestamp { nanos: 100 }.has_reached(deadline));
    assert!(Timestamp { nanos: 101 }.has_reached(deadline));
}
