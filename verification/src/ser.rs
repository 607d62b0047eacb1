//! Writing the fields of a URI: `?key=value`, then `&key=value`.

use vstd::prelude::*;
use crate::encode::percent_encoded;
use crate::encode::percent_encoded_text;
use crate::encode::DisplayEncoder;
use crate::key::is_safe_key;
use crate::key::write_key_char;
use crate::key::write_key_str;
use crate::param::DisplayParam;
use crate::param::Param;
use crate::render::Render;

verus! {

/// A value that gives further fields of a URI.
pub trait SerializeParams: Sized {
    /// The keys and values that `serialize_params` gives, in its order.
    spec fn params(&self) -> Seq<(Seq<char>, Seq<char>)>;

    /// The pairs of key and value, in the order in which they are to be
    /// written. The values are raw text: they are encoded when written.
    ///
    /// A key must not hold `=`: such pairs cannot be written.
    fn serialize_params(self) -> (pairs: Vec<(String, String)>)
        ensures
            pairs.deep_view() == self.params(),
    ;
}

/// The extras of a URI that has none.
#[derive(Debug)]
pub struct NoExtras;

impl SerializeParams for NoExtras {
    open spec fn params(&self) -> Seq<(Seq<char>, Seq<char>)> {
        Seq::empty()
    }

    fn serialize_params(self) -> (pairs: Vec<(String, String)>) {
        Vec::new()
    }
}

impl SerializeParams for Vec<(String, String)> {
    open spec fn params(&self) -> Seq<(Seq<char>, Seq<char>)> {
        self.deep_view()
    }

    fn serialize_params(self) -> (pairs: Vec<(String, String)>) {
        self
    }
}

/// The separator before a field: `?` before the first, `&` before the others.
pub open spec fn separator(first: bool) -> char {
    if first {
        '?'
    } else {
        '&'
    }
}

/// One field as it is written: separator, key, `=`, value.
pub open spec fn field_text(first: bool, key: Seq<char>, value: Seq<char>) -> Seq<char> {
    seq![separator(first)] + key + seq!['='] + value
}

/// Fields written one after the other, given as pairs of key and written value.
pub open spec fn fields_text(fields: Seq<(Seq<char>, Seq<char>)>) -> Seq<char>
    decreases fields.len(),
{
    if fields.len() == 0 {
        Seq::empty()
    } else {
        fields_text(fields.drop_last()) + field_text(
            fields.len() == 1,
            fields.last().0,
            fields.last().1,
        )
    }
}

/// Writes key-value pair with all required symbols around them.
///
/// `value` is written as it renders itself: encoding it is the caller's part.
pub fn write_param<V: Render + ?Sized>(
    writer: &mut String,
    key: &str,
    value: &V,
    no_params: &mut bool,
)
    requires
        is_safe_key(key@),
    ensures
        final(writer)@ == old(writer)@ + field_text(*old(no_params), key@, value.text()),
        !*final(no_params),
{
    if *no_params {
        write_key_char(writer, '?');
        write_key_str(writer, key);
        *no_params = false;
    } else {
        write_key_char(writer, '&');
        write_key_str(writer, key);
    }
    writer.push('=');
    value.render(writer);
}

/// Write key-value pair if `value` is `Some`, the value percent-encoded.
/// Without a value nothing is written, and `no_params` stays as it is.
pub fn maybe_write_param(
    writer: &mut String,
    key: &str,
    value: Option<&Param<'_>>,
    no_params: &mut bool,
)
    requires
        is_safe_key(key@),
    ensures
        match value {
            Some(param) => {
                &&& final(writer)@ == old(writer)@ + field_text(
                    *old(no_params),
                    key@,
                    percent_encoded(param@),
                )
                &&& !*final(no_params)
            },
            None => {
                &&& final(writer)@ == old(writer)@
                &&& *final(no_params) == *old(no_params)
            },
        },
{
    match value {
        Some(value) => write_param(writer, key, &DisplayParam(value), no_params),
        None => {},
    }
}

/// Write key-value pair if `value` is `Some`, the text percent-encoded.
/// Without a value nothing is written, and `no_params` stays as it is.
pub fn maybe_display_param(
    writer: &mut String,
    key: &str,
    value: Option<&str>,
    no_params: &mut bool,
)
    requires
        is_safe_key(key@),
    ensures
        match value {
            Some(text) => {
                &&& final(writer)@ == old(writer)@ + field_text(
                    *old(no_params),
                    key@,
                    percent_encoded_text(text@),
                )
                &&& !*final(no_params)
            },
            None => {
                &&& final(writer)@ == old(writer)@
                &&& *final(no_params) == *old(no_params)
            },
        },
{
    match value {
        Some(value) => write_param(writer, key, &DisplayEncoder(value), no_params),
        None => {},
    }
}

} // verus!
