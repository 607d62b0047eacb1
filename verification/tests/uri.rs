use bip21::key::first_unsafe_key;
use bip21::{AddressText, NoExtras, Param, SerializeParams, Uri};

fn address() -> AddressText {
    AddressText { normal: "ADDR".to_string(), alternate: "addr-qr".to_string() }
}

fn bare<T>(extras: T) -> Uri<'static, T> {
    Uri { address: address(), amount: None, label: None, message: None, extras }
}

fn text<T: SerializeParams>(uri: Uri<'_, T>) -> String {
    let mut out = String::new();
    uri.fmt(&mut out, false);
    out
}

fn pair(key: &str, value: &str) -> (String, String) {
    (key.to_string(), value.to_string())
}

fn occurrences(text: &str, c: char) -> usize {
    text.chars().filter(|x| *x == c).count()
}

#[test]
fn address_alone() {
    assert_eq!(text(bare(NoExtras)), "bitcoin:ADDR");
}

#[test]
fn amount_and_label() {
    let mut uri = bare(NoExtras);
    uri.amount = Some(1_000_000);
    uri.label = Some(Param::from_text("Lunch".into()));
    assert_eq!(text(uri), "bitcoin:ADDR?amount=0.01&label=Lunch");
}

#[test]
fn message_with_a_space() {
    let mut uri = bare(NoExtras);
    uri.message = Some(Param::from_text("Hi there!".into()));
    assert_eq!(text(uri), "bitcoin:ADDR?message=Hi%20there!");
}

#[test]
fn extras_in_their_order() {
    let uri = bare(vec![pair("foo", "bar"), pair("baz", "qux")]);
    assert_eq!(text(uri), "bitcoin:ADDR?foo=bar&baz=qux");
}

#[test]
fn extras_are_neither_sorted_nor_merged() {
    let uri = bare(vec![pair("z", "1"), pair("a", "2"), pair("z", "1"), pair("m", "")]);
    assert_eq!(text(uri), "bitcoin:ADDR?z=1&a=2&z=1&m=");
}

#[test]
fn extra_values_are_encoded_and_keys_are_not() {
    let uri = bare(vec![pair("req-a b", "x y&z=1"), pair("ö", "ö")]);
    assert_eq!(text(uri), "bitcoin:ADDR?req-a b=x%20y%26z%3D1&ö=%C3%B6");
}

#[test]
fn fixed_fields_come_in_their_order_before_extras() {
    let uri = Uri {
        address: address(),
        amount: Some(12_345_678_900),
        label: Some(Param::from_bytes(vec![b'L', 0xff].into())),
        message: Some(Param::decode("a%2fb%20c").unwrap()),
        extras: vec![pair("foo", "bar")],
    };
    assert_eq!(text(uri), "bitcoin:ADDR?amount=123.456789&label=L%FF&message=a/b%20c&foo=bar");
}

#[test]
fn absent_fields_leave_the_order_of_the_rest() {
    let mut uri = bare(vec![pair("foo", "bar")]);
    uri.message = Some(Param::from_text("m".into()));
    assert_eq!(text(uri), "bitcoin:ADDR?message=m&foo=bar");

    let mut uri = bare(vec![pair("foo", "bar")]);
    uri.amount = Some(1);
    uri.message = Some(Param::from_text("m".into()));
    assert_eq!(text(uri), "bitcoin:ADDR?amount=0.00000001&message=m&foo=bar");

    let mut uri = bare(NoExtras);
    uri.label = Some(Param::from_text("l".into()));
    uri.message = Some(Param::from_text("m".into()));
    assert_eq!(text(uri), "bitcoin:ADDR?label=l&message=m");
}

#[test]
fn amounts_are_shown_in_bitcoins() {
    let shown = |sat: u64| {
        let mut uri = bare(NoExtras);
        uri.amount = Some(sat);
        text(uri)
    };
    assert_eq!(shown(0), "bitcoin:ADDR?amount=0");
    assert_eq!(shown(1), "bitcoin:ADDR?amount=0.00000001");
    assert_eq!(shown(1_000_000), "bitcoin:ADDR?amount=0.01");
    assert_eq!(shown(100_000_000), "bitcoin:ADDR?amount=1");
    assert_eq!(shown(150_000_000), "bitcoin:ADDR?amount=1.5");
    assert_eq!(shown(2_100_000_000_000_000), "bitcoin:ADDR?amount=21000000");
}

#[test]
fn alternate_form_shows_the_other_address_text() {
    let mut uri = bare(vec![pair("foo", "bar")]);
    uri.label = Some(Param::from_text("l".into()));
    let mut out = String::new();
    uri.fmt(&mut out, true);
    assert_eq!(out, "bitcoin:addr-qr?label=l&foo=bar");
}

#[test]
fn uri_is_appended_to_the_sink() {
    let mut out = String::from("pay ");
    bare(NoExtras).fmt(&mut out, false);
    assert_eq!(out, "pay bitcoin:ADDR");
}

#[test]
fn one_question_mark_and_an_ampersand_between_fields() {
    for k in 0..6usize {
        let mut uri = bare(Vec::new());
        if k >= 1 {
            uri.amount = Some(5);
        }
        if k >= 2 {
            uri.label = Some(Param::from_text("a&b".into()));
        }
        if k >= 3 {
            uri.message = Some(Param::from_text("c&d&e".into()));
        }
        for i in 3..k {
            uri.extras.push(pair("key", &format!("v&{}", i)));
        }
        let out = text(uri);
        assert_eq!(occurrences(&out, '?'), k.min(1), "{}", out);
        assert_eq!(occurrences(&out, '&'), k.saturating_sub(1), "{}", out);
    }
}

#[test]
fn no_extras_gives_no_pairs() {
    assert!(NoExtras.serialize_params().is_empty());
}

#[test]
fn pairs_give_themselves() {
    let pairs = vec![pair("foo", "bar"), pair("baz", "qux")];
    assert_eq!(pairs.clone().serialize_params(), pairs);
}

#[test]
fn key_with_equal_sign_is_caught_before_writing() {
    let extras = vec![pair("a=b", "value")];
    assert_eq!(first_unsafe_key(&extras), Some(0));
    let mut out = String::from("kept");
    match bare(extras).try_fmt(&mut out, false) {
        Err(key) => assert_eq!(key.0, "a=b"),
        Ok(()) => panic!("the key was written"),
    }
    assert_eq!(out, "kept");
}

#[test]
fn first_key_with_equal_sign_is_named() {
    let mut uri = bare(vec![pair("foo", "bar"), pair("b=", "1"), pair("=c", "2")]);
    uri.amount = Some(1);
    let mut out = String::new();
    match uri.try_fmt(&mut out, false) {
        Err(key) => assert_eq!(key.0, "b="),
        Ok(()) => panic!("the key was written"),
    }
    assert_eq!(out, "");
}

#[test]
fn safe_keys_are_written() {
    let mut uri = bare(vec![pair("foo", "a=b"), pair("baz", "qux")]);
    uri.label = Some(Param::from_text("Lunch".into()));
    let mut out = String::from("pay ");
    assert!(uri.try_fmt(&mut out, false).is_ok());
    assert_eq!(out, "pay bitcoin:ADDR?label=Lunch&foo=a%3Db&baz=qux");

    let mut out = String::new();
    assert!(bare(NoExtras).try_fmt(&mut out, true).is_ok());
    assert_eq!(out, "bitcoin:addr-qr");
}

#[test]
fn question_mark_in_a_value_stays_literal() {
    let mut uri = bare(NoExtras);
    uri.message = Some(Param::from_text("a?b".into()));
    assert_eq!(text(uri), "bitcoin:ADDR?message=a?b");
}
