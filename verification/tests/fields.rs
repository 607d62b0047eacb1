use bip21::encode::DisplayEncoder;
use bip21::key::{contains_eq_sign, first_unsafe_key, write_key_char, write_key_str};
use bip21::param::Param;
use bip21::ser::{maybe_display_param, maybe_write_param, write_param};

fn pair(key: &str, value: &str) -> (String, String) {
    (key.to_string(), value.to_string())
}

#[test]
fn equal_sign_is_found() {
    assert!(contains_eq_sign("a=b"));
    assert!(contains_eq_sign("="));
    assert!(contains_eq_sign("ab="));
    assert!(contains_eq_sign("ä=ö"));
    assert!(!contains_eq_sign(""));
    assert!(!contains_eq_sign("ab"));
    assert!(!contains_eq_sign("a&b?c%3D"));
    assert!(!contains_eq_sign("日本"));
}

#[test]
fn first_unsafe_key_is_reported() {
    assert_eq!(first_unsafe_key(&vec![]), None);
    assert_eq!(first_unsafe_key(&vec![pair("foo", "bar"), pair("baz", "qux")]), None);
    assert_eq!(first_unsafe_key(&vec![pair("a=b", "c")]), Some(0));
    assert_eq!(
        first_unsafe_key(&vec![pair("foo", "bar"), pair("a=b", "c"), pair("=", "d")]),
        Some(1)
    );
}

#[test]
fn equal_sign_in_a_value_is_no_fault() {
    assert_eq!(first_unsafe_key(&vec![pair("foo", "a=b")]), None);
}

#[test]
fn key_pieces_are_written_as_they_are() {
    let mut out = String::from("x");
    write_key_char(&mut out, '?');
    write_key_str(&mut out, "req-pay ment");
    write_key_char(&mut out, 'ä');
    assert_eq!(out, "x?req-pay mentä");
}

#[test]
fn first_field_follows_a_question_mark() {
    let mut out = String::from("bitcoin:ADDR");
    let mut no_params = true;
    write_param(&mut out, "foo", "bar", &mut no_params);
    assert_eq!(out, "bitcoin:ADDR?foo=bar");
    assert!(!no_params);
}

#[test]
fn later_fields_follow_an_ampersand() {
    let mut out = String::new();
    let mut no_params = false;
    write_param(&mut out, "foo", "bar", &mut no_params);
    assert_eq!(out, "&foo=bar");
    assert!(!no_params);
    write_param(&mut out, "baz", "qux", &mut no_params);
    assert_eq!(out, "&foo=bar&baz=qux");
    assert!(!no_params);
}

#[test]
fn value_is_written_as_it_renders() {
    let mut out = String::new();
    let mut no_params = true;
    write_param(&mut out, "k", "a b&c", &mut no_params);
    write_param(&mut out, "k", &DisplayEncoder("a b&c"), &mut no_params);
    assert_eq!(out, "?k=a b&c&k=a%20b%26c");
}

#[test]
fn empty_key_and_value_still_make_a_field() {
    let mut out = String::new();
    let mut no_params = true;
    write_param(&mut out, "", "", &mut no_params);
    assert_eq!(out, "?=");
    assert!(!no_params);
}

#[test]
fn absent_param_writes_nothing() {
    let mut out = String::from("bitcoin:ADDR");
    let mut no_params = true;
    maybe_write_param(&mut out, "label", None, &mut no_params);
    assert_eq!(out, "bitcoin:ADDR");
    assert!(no_params);
    let mut no_params = false;
    maybe_write_param(&mut out, "label", None, &mut no_params);
    assert_eq!(out, "bitcoin:ADDR");
    assert!(!no_params);
}

#[test]
fn present_param_is_written_encoded() {
    let mut out = String::new();
    let mut no_params = true;
    let label = Param::from_text("Lunch & more".into());
    maybe_write_param(&mut out, "label", Some(&label), &mut no_params);
    assert_eq!(out, "?label=Lunch%20%26%20more");
    assert!(!no_params);
    let message = Param::decode("%68i").unwrap();
    maybe_write_param(&mut out, "message", Some(&message), &mut no_params);
    assert_eq!(out, "?label=Lunch%20%26%20more&message=hi");
}

#[test]
fn absent_text_writes_nothing() {
    let mut out = String::new();
    let mut no_params = true;
    maybe_display_param(&mut out, "amount", None, &mut no_params);
    assert_eq!(out, "");
    assert!(no_params);
}

#[test]
fn present_text_is_written_encoded() {
    let mut out = String::new();
    let mut no_params = true;
    maybe_display_param(&mut out, "amount", Some("0.01"), &mut no_params);
    assert_eq!(out, "?amount=0.01");
    assert!(!no_params);
    maybe_display_param(&mut out, "note", Some("1 + 1 = 2"), &mut no_params);
    assert_eq!(out, "?amount=0.01&note=1%20+%201%20%3D%202");
}
