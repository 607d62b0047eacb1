//! The value of a label, a message or another text parameter.

use vstd::prelude::*;
use vstd::utf8::encode_utf8;
use std::borrow::Cow;
use percent_encoding_rfc3986::PercentDecode;
use crate::decode::decoder_bytes;
use crate::decode::decoder_output;
use crate::decode::percent_decode;
use crate::decode::percent_decoded;
use crate::decode::well_formed;
use crate::encode::encode_bytes;
use crate::encode::encode_str;
use crate::encode::percent_encoded;
use crate::render::Render;

verus! {

/// How a parameter's value is held.
#[derive(Debug)]
pub enum ParamInner<'a> {
    /// A decoder over bytes that arrived percent-encoded.
    EncodedBorrowed(PercentDecode<'a>),
    /// Raw bytes.
    UnencodedBytes(Cow<'a, [u8]>),
    /// Raw text.
    UnencodedString(Cow<'a, str>),
}

/// A parameter's value. Whatever way it is held, it stands for a sequence of
/// raw bytes, its view.
#[derive(Debug)]
pub struct Param<'a>(pub ParamInner<'a>);

impl<'a> View for Param<'a> {
    type V = Seq<u8>;

    open spec fn view(&self) -> Seq<u8> {
        match self.0 {
            ParamInner::EncodedBorrowed(decoder) => decoder_output(decoder),
            ParamInner::UnencodedBytes(bytes) => bytes@,
            ParamInner::UnencodedString(text) => encode_utf8(text@),
        }
    }
}

impl<'a> Param<'a> {
    /// Takes percent-encoded text, if it is well formed.
    pub fn decode(s: &'a str) -> (r: Option<Param<'a>>)
        ensures
            r is Some <==> well_formed(encode_utf8(s@)),
            r is Some ==> r->Some_0@ == percent_decoded(encode_utf8(s@)),
    {
        match percent_decode(s.as_bytes()) {
            Some(decoder) => Some(Param(ParamInner::EncodedBorrowed(decoder))),
            None => None,
        }
    }

    /// Takes raw bytes.
    pub fn from_bytes(bytes: Cow<'a, [u8]>) -> (r: Param<'a>)
        ensures
            r@ == bytes@,
    {
        Param(ParamInner::UnencodedBytes(bytes))
    }

    /// Takes raw text.
    pub fn from_text(text: Cow<'a, str>) -> (r: Param<'a>)
        ensures
            r@ == encode_utf8(text@),
    {
        Param(ParamInner::UnencodedString(text))
    }
}

/// The bytes that a `Cow` holds, borrowed or owned.
fn cow_bytes<'b>(bytes: &'b Cow<'_, [u8]>) -> (r: &'b [u8])
    ensures
        r@ == bytes@,
{
    match bytes {
        Cow::Borrowed(slice) => slice,
        Cow::Owned(vec) => vec.as_slice(),
    }
}

/// The text that a `Cow` holds, borrowed or owned.
fn cow_text<'b>(text: &'b Cow<'_, str>) -> (r: &'b str)
    ensures
        r@ == text@,
{
    match text {
        Cow::Borrowed(slice) => slice,
        Cow::Owned(string) => string.as_str(),
    }
}

/// A parameter that is written percent-encoded.
#[derive(Debug)]
pub struct DisplayParam<'a>(pub &'a Param<'a>);

impl<'a> Render for DisplayParam<'a> {
    open spec fn text(&self) -> Seq<char> {
        percent_encoded(self.0@)
    }

    fn render(&self, writer: &mut String) {
        match &(self.0).0 {
            ParamInner::EncodedBorrowed(decoder) => {
                let decoded = decoder_bytes(decoder);
                encode_bytes(writer, cow_bytes(&decoded));
            },
            ParamInner::UnencodedBytes(bytes) => encode_bytes(writer, cow_bytes(bytes)),
            ParamInner::UnencodedString(text) => encode_str(writer, cow_text(text)),
        }
    }
}

} // verus!
