//! The separators of a URI: one `?` before the first field, one `&` before
//! each of the others, and none where there is no field.

use vstd::prelude::*;
use vstd::utf8::encode_utf8;
use crate::amount::btc_text;
use crate::encode::lemma_encoded_text_is_clean;
use crate::ser::field_text;
use crate::ser::fields_text;
use crate::ser::separator;
use crate::ser::SerializeParams;
use crate::uri::amount_value;
use crate::uri::optional_field;
use crate::uri::param_value;
use crate::uri::Uri;

verus! {

/// How often `c` occurs in `text`.
pub open spec fn count(text: Seq<char>, c: char) -> nat
    decreases text.len(),
{
    if text.len() == 0 {
        0
    } else {
        count(text.drop_last(), c) + if text.last() == c {
            1nat
        } else {
            0nat
        }
    }
}

/// No key holds `c`.
pub open spec fn keys_free_of(fields: Seq<(Seq<char>, Seq<char>)>, c: char) -> bool {
    forall|i: int| 0 <= i < fields.len() ==> !(#[trigger] fields[i]).0.contains(c)
}

/// No written value holds `c`.
pub open spec fn values_free_of(fields: Seq<(Seq<char>, Seq<char>)>, c: char) -> bool {
    forall|i: int| 0 <= i < fields.len() ==> !(#[trigger] fields[i]).1.contains(c)
}

/// Neither a key nor a written value of `fields` holds `c`.
pub open spec fn fields_free_of(fields: Seq<(Seq<char>, Seq<char>)>, c: char) -> bool {
    keys_free_of(fields, c) && values_free_of(fields, c)
}

/// The occurrences in a text are those in its two parts.
proof fn lemma_count_concat(a: Seq<char>, b: Seq<char>, c: char)
    ensures
        count(a + b, c) == count(a, c) + count(b, c),
    decreases b.len(),
{
    if b.len() > 0 {
        assert((a + b).drop_last() =~= a + b.drop_last());
        lemma_count_concat(a, b.drop_last(), c);
    }
}

/// A text that does not hold `c` has no occurrence of it.
proof fn lemma_count_absent(text: Seq<char>, c: char)
    requires
        !text.contains(c),
    ensures
        count(text, c) == 0,
    decreases text.len(),
{
    if text.len() > 0 {
        assert(!text.drop_last().contains(c)) by {
            assert forall|i: int| 0 <= i < text.len() - 1 implies text.drop_last()[i] == text[i] by {}
        }
        lemma_count_absent(text.drop_last(), c);
    }
}

/// In a field whose key and value are free of `c`, `c` occurs only where it
/// is the separator.
proof fn lemma_count_field(first: bool, key: Seq<char>, value: Seq<char>, c: char)
    requires
        c != '=',
        !key.contains(c),
        !value.contains(c),
    ensures
        count(field_text(first, key, value), c) == if separator(first) == c {
            1nat
        } else {
            0nat
        },
{
    let sep = seq![separator(first)];
    let eq = seq!['='];
    lemma_count_concat(sep + key + eq, value, c);
    lemma_count_concat(sep + key, eq, c);
    lemma_count_concat(sep, key, c);
    lemma_count_absent(key, c);
    lemma_count_absent(value, c);
    assert(count(sep.drop_last(), c) == 0);
    assert(count(eq.drop_last(), c) == 0);
}

/// The separators of fields whose keys and values hold neither `?` nor `&`:
/// one `?` if there is any field, and one `&` for each field after the first.
pub proof fn lemma_separator_counts(fields: Seq<(Seq<char>, Seq<char>)>)
    ensures
        fields_free_of(fields, '?') ==> count(fields_text(fields), '?') == if fields.len() == 0 {
            0int
        } else {
            1int
        },
        fields_free_of(fields, '&') ==> count(fields_text(fields), '&') == if fields.len() == 0 {
            0int
        } else {
            fields.len() - 1
        },
    decreases fields.len(),
{
    if fields.len() > 0 {
        let before = fields.drop_last();
        let last = fields.last();
        let first = fields.len() == 1;
        lemma_separator_counts(before);
        assert forall|i: int| 0 <= i < before.len() implies before[i] == fields[i] by {}
        if fields_free_of(fields, '?') {
            lemma_count_field(first, last.0, last.1, '?');
            lemma_count_concat(fields_text(before), field_text(first, last.0, last.1), '?');
        }
        if fields_free_of(fields, '&') {
            lemma_count_field(first, last.0, last.1, '&');
            lemma_count_concat(fields_text(before), field_text(first, last.0, last.1), '&');
        }
    }
}

/// As many fields are written as the URI has.
pub proof fn lemma_field_count<T: SerializeParams>(uri: Uri<'_, T>)
    ensures
        uri.fields().len() == uri.field_count(),
{
}

/// The keys of the fields are those of the extra parameters and three
/// names that hold neither `?` nor `&`.
proof fn lemma_keys_free_of<T: SerializeParams>(uri: Uri<'_, T>, c: char)
    requires
        c == '?' || c == '&',
        keys_free_of(uri.extras.params(), c),
    ensures
        keys_free_of(uri.fields(), c),
{
    reveal_strlit("amount");
    reveal_strlit("label");
    reveal_strlit("message");
    let fields = uri.fields();
    let params = uri.extras.params();
    let fixed = optional_field("amount"@, amount_value(uri.amount)) + optional_field(
        "label"@,
        param_value(uri.label),
    ) + optional_field("message"@, param_value(uri.message));
    assert forall|i: int| 0 <= i < fields.len() implies !(#[trigger] fields[i]).0.contains(c) by {
        if i >= fixed.len() {
            assert(fields[i].0 == params[i - fixed.len()].0);
        }
    }
}

/// No written value of a URI holds `&`: all are written encoded.
proof fn lemma_values_free_of_ampersand<T: SerializeParams>(uri: Uri<'_, T>)
    ensures
        values_free_of(uri.fields(), '&'),
{
    let fields = uri.fields();
    let params = uri.extras.params();
    let fixed = optional_field("amount"@, amount_value(uri.amount)) + optional_field(
        "label"@,
        param_value(uri.label),
    ) + optional_field("message"@, param_value(uri.message));
    assert forall|i: int| 0 <= i < fields.len() implies !(#[trigger] fields[i]).1.contains('&') by {
        if i < fixed.len() {
            if uri.amount is Some {
                lemma_encoded_text_is_clean(encode_utf8(btc_text(uri.amount->Some_0)));
            }
            if uri.label is Some {
                lemma_encoded_text_is_clean(uri.label->Some_0@);
            }
            if uri.message is Some {
                lemma_encoded_text_is_clean(uri.message->Some_0@);
            }
        } else {
            lemma_encoded_text_is_clean(encode_utf8(params[i - fixed.len()].1));
        }
    }
}

/// The separators of a URI, counted in its text where neither the address
/// nor the keys and values of `fields` hold `c` themselves.
proof fn lemma_count_in_uri<T: SerializeParams>(uri: Uri<'_, T>, alternate: bool, c: char)
    requires
        c == '?' || c == '&',
        !uri.address.shown(alternate).contains(c),
    ensures
        count(uri.rendered(alternate), c) == count(fields_text(uri.fields()), c),
{
    reveal_strlit("bitcoin:");
    let scheme = "bitcoin:"@;
    let address = uri.address.shown(alternate);
    lemma_count_concat(scheme + address, fields_text(uri.fields()), c);
    lemma_count_concat(scheme, address, c);
    lemma_count_absent(scheme, c);
    lemma_count_absent(address, c);
}

/// A URI has one `?` if it has any field and none if it has no field,
/// provided that neither the address nor a key of the extra parameters nor
/// a written value holds a `?` of its own.
pub proof fn lemma_question_mark_count<T: SerializeParams>(uri: Uri<'_, T>, alternate: bool)
    requires
        !uri.address.shown(alternate).contains('?'),
        keys_free_of(uri.extras.params(), '?'),
        values_free_of(uri.fields(), '?'),
    ensures
        count(uri.rendered(alternate), '?') == if uri.field_count() == 0 {
            0int
        } else {
            1int
        },
{
    lemma_keys_free_of(uri, '?');
    lemma_separator_counts(uri.fields());
    lemma_count_in_uri(uri, alternate, '?');
}

/// A URI has one `&` for each field after the first, provided that neither
/// the address nor a key of the extra parameters holds a `&` of its own.
/// The values cannot bring one in: they are written encoded.
pub proof fn lemma_ampersand_count<T: SerializeParams>(uri: Uri<'_, T>, alternate: bool)
    requires
        !uri.address.shown(alternate).contains('&'),
        keys_free_of(uri.extras.params(), '&'),
    ensures
        count(uri.rendered(alternate), '&') == if uri.field_count() == 0 {
            0int
        } else {
            uri.field_count() - 1
        },
{
    lemma_keys_free_of(uri, '&');
    lemma_values_free_of_ampersand(uri);
    lemma_separator_counts(uri.fields());
    lemma_count_in_uri(uri, alternate, '&');
}

} // verus!
