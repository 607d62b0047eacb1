//! Percent-encoding of bytes and text into a sink.

use vstd::prelude::*;
use vstd::string::StringExecFns;
use vstd::utf8::encode_utf8;
use crate::charset::is_digit;
use crate::charset::is_exempt;
use crate::charset::is_letter;
use crate::charset::must_encode;
use crate::charset::should_encode;
use crate::render::Render;

verus! {

/// The sixteen hexadecimal digits, letters in upper case.
pub open spec fn hex_digits() -> Seq<char> {
    seq!['0', '1', '2', '3', '4', '5', '6', '7', '8', '9', 'A', 'B', 'C', 'D', 'E', 'F']
}

/// The escape sequence of a byte: `%` and its two hexadecimal digits.
pub open spec fn escape(b: u8) -> Seq<char> {
    seq!['%', hex_digits()[b as int / 16], hex_digits()[b as int % 16]]
}

/// What one byte becomes: its escape sequence where the policy asks for
/// one, else the ASCII character with that code.
pub open spec fn encoded_byte(b: u8) -> Seq<char> {
    if must_encode(b) {
        escape(b)
    } else {
        seq![b as char]
    }
}

/// The percent-encoding of a byte sequence: the bytes' encodings in order.
pub open spec fn percent_encoded(bytes: Seq<u8>) -> Seq<char>
    decreases bytes.len(),
{
    if bytes.len() == 0 {
        Seq::empty()
    } else {
        percent_encoded(bytes.drop_last()) + encoded_byte(bytes.last())
    }
}

/// The percent-encoding of text: that of its UTF-8 bytes.
pub open spec fn percent_encoded_text(text: Seq<char>) -> Seq<char> {
    percent_encoded(encode_utf8(text))
}

/// The characters that encoded text is made of: `%`, letters, digits and
/// the exempt marks.
pub open spec fn is_encoded_char(c: char) -> bool {
    c == '%' || is_letter(c) || is_digit(c) || is_exempt(c)
}

/// `percent_encoding_rfc3986::percent_encode_byte` returns one slice of its
/// table of the 256 escape sequences `%00` to `%FF`: the one at the byte's
/// index, so a `%` and the byte's value in two upper-case hexadecimal digits.
pub assume_specification[ percent_encoding_rfc3986::percent_encode_byte ](byte: u8) -> (r:
    &'static str)
    ensures
        r@ == escape(byte),
;

/// `String::push` appends the given character to the end of the string.
pub assume_specification[ String::push ](s: &mut String, c: char)
    ensures
        final(s)@ == old(s)@.push(c),
;

/// Appends the percent-encoding of `bytes` to `writer`.
pub fn encode_bytes(writer: &mut String, bytes: &[u8])
    ensures
        final(writer)@ == old(writer)@ + percent_encoded(bytes@),
{
    let mut i: usize = 0;
    while i < bytes.len()
        invariant
            i <= bytes.len(),
            writer@ == old(writer)@ + percent_encoded(bytes@.take(i as int)),
        decreases bytes.len() - i,
    {
        let b = bytes[i];
        proof {
            let next = bytes@.take(i + 1);
            assert(next.drop_last() == bytes@.take(i as int));
        }
        if should_encode(b) {
            writer.append(percent_encoding_rfc3986::percent_encode_byte(b));
        } else {
            writer.push(b as char);
        }
        i += 1;
    }
    proof {
        assert(bytes@.take(i as int) == bytes@);
    }
}

/// Appends the percent-encoding of the UTF-8 bytes of `text` to `writer`.
pub fn encode_str(writer: &mut String, text: &str)
    ensures
        final(writer)@ == old(writer)@ + percent_encoded_text(text@),
{
    encode_bytes(writer, text.as_bytes());
}

/// Text that is written percent-encoded.
#[derive(Debug)]
pub struct DisplayEncoder<'a>(pub &'a str);

impl<'a> Render for DisplayEncoder<'a> {
    open spec fn text(&self) -> Seq<char> {
        percent_encoded_text(self.0@)
    }

    fn render(&self, writer: &mut String) {
        encode_str(writer, self.0);
    }
}

/// Encoding bytes one after the other is encoding them piece by piece.
pub proof fn lemma_percent_encoded_concat(a: Seq<u8>, b: Seq<u8>)
    ensures
        percent_encoded(a + b) == percent_encoded(a) + percent_encoded(b),
    decreases b.len(),
{
    if b.len() > 0 {
        assert((a + b).drop_last() =~= a + b.drop_last());
        lemma_percent_encoded_concat(a, b.drop_last());
    }
}

/// Each of the sixteen digits is a decimal digit or one of `A` to `F`, and
/// they stand in the order of their values.
pub(crate) proof fn lemma_hex_digits(n: int)
    requires
        0 <= n < 16,
    ensures
        is_digit(hex_digits()[n]) || ('A' <= hex_digits()[n] <= 'F'),
        n < 10 ==> hex_digits()[n] as int == '0' as int + n,
        n >= 10 ==> hex_digits()[n] as int == 'A' as int + n - 10,
{
}

/// Encoded text holds nothing but `%`, letters, digits and exempt marks.
/// So, whatever the bytes, neither `&` nor `=` nor a character outside ASCII
/// comes out of encoding.
pub proof fn lemma_encoded_text_is_clean(bytes: Seq<u8>)
    ensures
        forall|i: int|
            0 <= i < percent_encoded(bytes).len() ==> is_encoded_char(
                #[trigger] percent_encoded(bytes)[i],
            ),
        !percent_encoded(bytes).contains('&'),
        !percent_encoded(bytes).contains('='),
    decreases bytes.len(),
{
    if bytes.len() > 0 {
        lemma_encoded_text_is_clean(bytes.drop_last());
        let b = bytes.last();
        let head = percent_encoded(bytes.drop_last());
        lemma_hex_digits((b / 16) as int);
        lemma_hex_digits((b % 16) as int);
        assert forall|i: int| 0 <= i < percent_encoded(bytes).len() implies is_encoded_char(
            #[trigger] percent_encoded(bytes)[i],
        ) by {
            if i >= head.len() {
                assert(percent_encoded(bytes)[i] == encoded_byte(b)[i - head.len()]);
            }
        }
    }
}

} // verus!
