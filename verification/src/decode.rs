//! Percent-decoding: what a decoder makes of encoded bytes.

use vstd::prelude::*;
use vstd::utf8::decode_utf8;
use vstd::utf8::encode_utf8;
use vstd::utf8::encode_utf8_decode_utf8;
use vstd::utf8::is_ascii_chars_encode_utf8;
use std::borrow::Cow;
use percent_encoding_rfc3986::PercentDecode;
use crate::charset::must_encode;
use crate::encode::encoded_byte;
use crate::encode::hex_digits;
use crate::encode::lemma_encoded_text_is_clean;
use crate::encode::lemma_hex_digits;
use crate::encode::lemma_percent_encoded_concat;
use crate::encode::percent_encoded;
use crate::encode::percent_encoded_text;

verus! {

/// ASCII hexadecimal digits, letters in either case.
pub open spec fn is_hex_digit(b: u8) -> bool {
    ('0' <= b as char <= '9') || ('A' <= b as char <= 'F') || ('a' <= b as char <= 'f')
}

/// The number that a hexadecimal digit stands for.
pub open spec fn hex_value(b: u8) -> int {
    if '0' <= b as char <= '9' {
        b - 0x30
    } else if 'A' <= b as char <= 'F' {
        b - 0x41 + 10
    } else {
        b - 0x61 + 10
    }
}

/// Encoded bytes are well formed when two hexadecimal digits follow every `%`.
pub open spec fn well_formed(s: Seq<u8>) -> bool
    decreases s.len(),
{
    if s.len() == 0 {
        true
    } else if s[0] as char == '%' {
        s.len() >= 3 && is_hex_digit(s[1]) && is_hex_digit(s[2]) && well_formed(s.skip(3))
    } else {
        well_formed(s.skip(1))
    }
}

/// The bytes that well-formed encoded bytes stand for: every `%XX` gives the
/// byte with that value, every other byte gives itself.
pub open spec fn percent_decoded(s: Seq<u8>) -> Seq<u8>
    recommends
        well_formed(s),
    decreases s.len(),
{
    if s.len() == 0 {
        Seq::empty()
    } else if s[0] as char == '%' && s.len() >= 3 {
        seq![(hex_value(s[1]) * 16 + hex_value(s[2])) as u8] + percent_decoded(s.skip(3))
    } else {
        seq![s[0]] + percent_decoded(s.skip(1))
    }
}

/// A decoder of the `percent_encoding_rfc3986` crate: a lazy view of encoded
/// bytes that yields the bytes they stand for.
#[verifier::external_type_specification]
#[verifier::external_body]
pub struct ExPercentDecode<'a>(PercentDecode<'a>);

/// The bytes that a decoder yields from where it stands.
pub uninterp spec fn decoder_output(d: PercentDecode<'_>) -> Seq<u8>;

/// `percent_encoding_rfc3986::percent_decode` checks that two hexadecimal
/// digits follow every `%` of the input and refuses it otherwise; the decoder
/// it gives yields a byte for every `%XX` and every other byte unchanged.
#[verifier::external_body]
pub(crate) fn percent_decode<'a>(input: &'a [u8]) -> (r: Option<PercentDecode<'a>>)
    ensures
        r is Some <==> well_formed(input@),
        r is Some ==> decoder_output(r->Some_0) == percent_decoded(input@),
{
    percent_encoding_rfc3986::percent_decode(input).ok()
}

/// Converting a `PercentDecode` into `Cow<[u8]>` gives the bytes that the
/// decoder yields: borrowed where no `%` is left among them, collected
/// otherwise.
#[verifier::external_body]
pub(crate) fn decoder_bytes<'a>(d: &PercentDecode<'a>) -> (r: Cow<'a, [u8]>)
    ensures
        r@ == decoder_output(*d),
{
    Cow::from(d.clone())
}

/// The bytes of encoded text: the codes of its characters, one byte each.
proof fn lemma_encoded_text_bytes(bytes: Seq<u8>)
    ensures
        encode_utf8(percent_encoded(bytes)).len() == percent_encoded(bytes).len(),
        forall|i: int|
            0 <= i < percent_encoded(bytes).len() ==> #[trigger] encode_utf8(
                percent_encoded(bytes),
            )[i] == percent_encoded(bytes)[i] as u8,
{
    lemma_encoded_text_is_clean(bytes);
    is_ascii_chars_encode_utf8(percent_encoded(bytes));
}

/// The digits of an escape sequence are hexadecimal digits with the values
/// of the two halves of the byte.
proof fn lemma_escape_digits(n: int)
    requires
        0 <= n < 16,
    ensures
        is_hex_digit(hex_digits()[n] as u8),
        hex_value(hex_digits()[n] as u8) == n,
{
    lemma_hex_digits(n);
}

/// Decoding undoes encoding: whatever the bytes, their encoding is well
/// formed, and decoding it gives the bytes back.
pub proof fn lemma_decode_encoded(bytes: Seq<u8>)
    ensures
        well_formed(encode_utf8(percent_encoded(bytes))),
        percent_decoded(encode_utf8(percent_encoded(bytes))) == bytes,
    decreases bytes.len(),
{
    let encoded = encode_utf8(percent_encoded(bytes));
    lemma_encoded_text_bytes(bytes);
    if bytes.len() > 0 {
        let b = bytes[0];
        let rest = bytes.skip(1);
        let first = encoded_byte(b);
        assert(bytes =~= seq![b] + rest);
        lemma_percent_encoded_concat(seq![b], rest);
        assert(percent_encoded(seq![b]) =~= first) by {
            assert(seq![b].drop_last() =~= Seq::<u8>::empty());
            assert(percent_encoded(Seq::<u8>::empty()) =~= Seq::<char>::empty());
        }
        lemma_encoded_text_bytes(rest);
        lemma_decode_encoded(rest);
        assert(encoded.skip(first.len() as int) =~= encode_utf8(percent_encoded(rest)));
        if must_encode(b) {
            lemma_escape_digits((b / 16) as int);
            lemma_escape_digits((b % 16) as int);
        }
    }
}

/// Text survives encoding and decoding: the bytes that come back are the
/// UTF-8 form of the text that went in, whatever characters it holds.
pub proof fn lemma_decode_encoded_text(text: Seq<char>)
    ensures
        well_formed(encode_utf8(percent_encoded_text(text))),
        decode_utf8(percent_decoded(encode_utf8(percent_encoded_text(text)))) == text,
{
    lemma_decode_encoded(encode_utf8(text));
    encode_utf8_decode_utf8(text);
}

} // verus!
