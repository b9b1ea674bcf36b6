use ratatui_image::text::{push_decimal, str_contains, str_equal};

#[test]
fn decimal_digits() {
    let mut s = String::from("n=");
    push_decimal(&mut s, 0);
    push_decimal(&mut s, 7);
    s.push(',');
    push_decimal(&mut s, 18446744073709551615);
    assert_eq!(s, "n=07,18446744073709551615");
}

#[test]
fn contains_and_equal() {
    assert!(str_contains("xterm-kitty", "kitty"));
    assert!(str_contains("kitty", "kitty"));
    assert!(str_contains("abc", ""));
    assert!(!str_contains("kitt", "kitty"));
    assert!(str_equal("foot", "foot"));
    assert!(!str_equal("foot", "foot-extra"));
}
