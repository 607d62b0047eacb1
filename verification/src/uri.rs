//! A payment request and its text.

use vstd::prelude::*;
use vstd::string::StringExecFns;
use crate::amount::btc_text;
use crate::amount::display_in_btc;
use crate::encode::percent_encoded;
use crate::encode::percent_encoded_text;
use crate::encode::DisplayEncoder;
use crate::key::all_keys_safe;
use crate::key::first_unsafe_key;
use crate::key::is_first_unsafe;
use crate::key::UnsafeKey;
use crate::param::Param;
use crate::ser::field_text;
use crate::ser::fields_text;
use crate::ser::maybe_display_param;
use crate::ser::maybe_write_param;
use crate::ser::write_param;
use crate::ser::SerializeParams;

verus! {

/// The text of an address, in both forms in which a URI can show it.
#[derive(Debug)]
pub struct AddressText {
    /// The usual form.
    pub normal: String,
    /// The form for QR codes.
    pub alternate: String,
}

impl AddressText {
    /// The form that is asked for.
    pub open spec fn shown(&self, alternate: bool) -> Seq<char> {
        if alternate {
            self.alternate@
        } else {
            self.normal@
        }
    }
}

/// A payment request.
#[derive(Debug)]
pub struct Uri<'a, T> {
    /// Where to pay.
    pub address: AddressText,
    /// How much, in satoshis.
    pub amount: Option<u64>,
    /// A name for the receiver.
    pub label: Option<Param<'a>>,
    /// A note for the payer.
    pub message: Option<Param<'a>>,
    /// Whatever else the request holds.
    pub extras: T,
}

/// The fields that an optional value gives: one where there is a value,
/// none where there is none.
pub open spec fn optional_field(key: Seq<char>, value: Option<Seq<char>>) -> Seq<
    (Seq<char>, Seq<char>),
> {
    match value {
        Some(v) => seq![(key, v)],
        None => Seq::empty(),
    }
}

/// The written value of the amount field.
pub open spec fn amount_value(amount: Option<u64>) -> Option<Seq<char>> {
    match amount {
        Some(sat) => Some(percent_encoded_text(btc_text(sat))),
        None => None,
    }
}

/// The written value of a label or message field.
pub open spec fn param_value(param: Option<Param<'_>>) -> Option<Seq<char>> {
    match param {
        Some(p) => Some(percent_encoded(p@)),
        None => None,
    }
}

/// The fields that extra parameters are written as: the keys as they are,
/// the values percent-encoded.
pub open spec fn extra_fields(params: Seq<(Seq<char>, Seq<char>)>) -> Seq<(Seq<char>, Seq<char>)> {
    params.map_values(|p: (Seq<char>, Seq<char>)| (p.0, percent_encoded_text(p.1)))
}

/// `1` for a value that is there, `0` for one that is not.
pub open spec fn present<V>(value: Option<V>) -> nat {
    if value is Some {
        1
    } else {
        0
    }
}

/// Adding the field of an optional value to those written so far adds its
/// text to theirs, if there is a value.
proof fn lemma_fields_text_optional(
    fields: Seq<(Seq<char>, Seq<char>)>,
    key: Seq<char>,
    value: Option<Seq<char>>,
)
    ensures
        fields_text(fields + optional_field(key, value)) == match value {
            Some(v) => fields_text(fields) + field_text(fields.len() == 0, key, v),
            None => fields_text(fields),
        },
{
    match value {
        Some(v) => {
            assert((fields + optional_field(key, value)).drop_last() =~= fields);
        },
        None => {
            assert(fields + optional_field(key, value) =~= fields);
        },
    }
}

impl<'a, T: SerializeParams> Uri<'a, T> {
    /// The fields of the URI in the order in which they are written, as
    /// pairs of key and written value: the amount, the label and the
    /// message, each if present, then the extra parameters in their order.
    pub open spec fn fields(&self) -> Seq<(Seq<char>, Seq<char>)> {
        optional_field("amount"@, amount_value(self.amount)) + optional_field(
            "label"@,
            param_value(self.label),
        ) + optional_field("message"@, param_value(self.message)) + extra_fields(
            self.extras.params(),
        )
    }

    /// How many fields the URI has: the amount, the label and the message
    /// count where they are present, the extra parameters all count.
    pub open spec fn field_count(&self) -> nat {
        present(self.amount) + present(self.label) + present(self.message)
            + self.extras.params().len()
    }

    /// The text of the URI.
    pub open spec fn rendered(&self, alternate: bool) -> Seq<char> {
        "bitcoin:"@ + self.address.shown(alternate) + fields_text(self.fields())
    }

    /// Writes the URI: the scheme, the address in the form asked for, then
    /// the fields.
    pub fn fmt(self, f: &mut String, alternate: bool)
        requires
            all_keys_safe(self.extras.params()),
        ensures
            final(f)@ == old(f)@ + self.rendered(alternate),
    {
        proof {
            reveal_strlit("amount");
            reveal_strlit("label");
            reveal_strlit("message");
        }
        let ghost head = old(f)@ + "bitcoin:"@ + self.address.shown(alternate);
        let ghost params = self.extras.params();
        f.append("bitcoin:");
        if alternate {
            f.append(self.address.alternate.as_str());
        } else {
            f.append(self.address.normal.as_str());
        }
        let mut no_params = true;
        let ghost mut written: Seq<(Seq<char>, Seq<char>)> = Seq::empty();

        let display_amount = match self.amount {
            Some(sat) => Some(display_in_btc(sat)),
            None => None,
        };
        let amount_text = match &display_amount {
            Some(text) => Some(text.as_str()),
            None => None,
        };
        maybe_display_param(f, "amount", amount_text, &mut no_params);
        proof {
            lemma_fields_text_optional(written, "amount"@, amount_value(self.amount));
            written = written + optional_field("amount"@, amount_value(self.amount));
        }
        maybe_write_param(f, "label", self.label.as_ref(), &mut no_params);
        proof {
            lemma_fields_text_optional(written, "label"@, param_value(self.label));
            written = written + optional_field("label"@, param_value(self.label));
        }
        maybe_write_param(f, "message", self.message.as_ref(), &mut no_params);
        proof {
            lemma_fields_text_optional(written, "message"@, param_value(self.message));
            written = written + optional_field("message"@, param_value(self.message));
        }
        let ghost fixed = written;

        let pairs = self.extras.serialize_params();
        let mut i: usize = 0;
        while i < pairs.len()
            invariant
                i <= pairs.len(),
                pairs.deep_view() == params,
                all_keys_safe(params),
                written == fixed + extra_fields(params).take(i as int),
                no_params == (written.len() == 0),
                f@ == head + fields_text(written),
            decreases pairs.len() - i,
        {
            let pair = &pairs[i];
            proof {
                assert(params[i as int] == (pair.0@, pair.1@));
                let next = fixed + extra_fields(params).take(i + 1);
                assert(next.drop_last() =~= written);
            }
            write_param(f, pair.0.as_str(), &DisplayEncoder(pair.1.as_str()), &mut no_params);
            proof {
                written = fixed + extra_fields(params).take(i + 1);
            }
            i += 1;
        }
        proof {
            assert(extra_fields(params).take(i as int) =~= extra_fields(params));
        }
    }

    /// Writes the URI as `fmt` does, unless a key of the extra parameters
    /// holds `=`: then nothing is written, and the first such key comes
    /// back.
    pub fn try_fmt(self, f: &mut String, alternate: bool) -> (r: Result<(), UnsafeKey>)
        ensures
            r is Ok <==> all_keys_safe(self.extras.params()),
            r is Ok ==> final(f)@ == old(f)@ + self.rendered(alternate),
            r is Err ==> final(f)@ == old(f)@,
            r is Err ==> exists|at: int|
                is_first_unsafe(self.extras.params(), at) && r->Err_0.0@
                    == (#[trigger] self.extras.params()[at]).0,
    {
        let pairs = self.extras.serialize_params();
        match first_unsafe_key(&pairs) {
            Some(at) => Err(UnsafeKey(pairs[at].0.clone())),
            None => {
                let uri = Uri {
                    address: self.address,
                    amount: self.amount,
                    label: self.label,
                    message: self.message,
                    extras: pairs,
                };
                uri.fmt(f, alternate);
                Ok(())
            },
        }
    }
}

} // verus!
