//! Which bytes are percent-encoded inside the value of a URI field.
//!
//! Values are `qchar` sequences: everything RFC 3986 allows unescaped in a
//! query component, except `&` and `=`, which separate and split the fields.

use vstd::prelude::*;

verus! {

/// ASCII letters, either case.
pub open spec fn is_letter(c: char) -> bool {
    ('A' <= c <= 'Z') || ('a' <= c <= 'z')
}

/// ASCII decimal digits.
pub open spec fn is_digit(c: char) -> bool {
    '0' <= c <= '9'
}

/// The marks that stay literal although they are neither letters nor digits:
/// `- . _ ~` (unreserved), `! $ ' ( ) * + , ;` (sub-delimiters other than
/// `&` and `=`), `: @` (the rest of `pchar`) and `/ ?` (the rest of `query`).
pub open spec fn is_exempt(c: char) -> bool {
    ||| c == '-' || c == '.' || c == '_' || c == '~'
    ||| c == '!' || c == '$' || c == '\'' || c == '(' || c == ')'
    ||| c == '*' || c == '+' || c == ',' || c == ';'
    ||| c == ':' || c == '@'
    ||| c == '/' || c == '?'
}

/// The policy: a byte is written as `%XX` unless it is the code of a letter,
/// of a digit or of an exempt mark.
pub open spec fn must_encode(b: u8) -> bool {
    !(is_letter(b as char) || is_digit(b as char) || is_exempt(b as char))
}

/// Decides the policy for one byte.
pub fn should_encode(b: u8) -> (r: bool)
    ensures
        r == must_encode(b),
{
    match b as char {
        'A'..='Z' | 'a'..='z' | '0'..='9' => false,
        '-' | '.' | '_' | '~' => false,
        '!' | '$' | '\'' | '(' | ')' | '*' | '+' | ',' | ';' => false,
        ':' | '@' | '/' | '?' => false,
        _ => true,
    }
}

} // verus!
