//! The text of an amount.

use vstd::prelude::*;

verus! {

/// The text that stands for `sat` satoshis in a URI: the amount in bitcoins,
/// as `bitcoin::Amount` displays it without a unit.
pub uninterp spec fn btc_text(sat: u64) -> Seq<char>;

/// `bitcoin::Amount::display_in` gives a value that displays the amount in
/// the denomination asked for, here bitcoins; nothing but the number of
/// satoshis goes into the text.
#[verifier::external_body]
pub(crate) fn display_in_btc(sat: u64) -> (r: String)
    ensures
        r@ == btc_text(sat),
{
    bitcoin::Amount::from_sat(sat).display_in(bitcoin::amount::Denomination::Bitcoin).to_string()
}

} // verus!
