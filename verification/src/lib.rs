//! Rendering of BIP 21 payment URIs.
//!
//! A [`Uri`] is written as `bitcoin:`, the address, and then its fields:
//! `?key=value` for the first and `&key=value` for the others. The amount,
//! the label and the message come first, in this order and each only if
//! present; the pairs that the extras give follow in their own order. Keys
//! are written as they are and must not hold `=`; values are
//! percent-encoded, so that neither `&` nor `=` can stand in one.
//!
//! - [`charset`]: which bytes are encoded;
//! - [`encode`], [`decode`]: percent-encoding, and what a decoder makes of it;
//! - [`render`]: values that write themselves to a sink;
//! - [`param`]: the values of text fields;
//! - [`key`]: the rule on keys;
//! - [`ser`]: writing one field after the other;
//! - [`amount`]: the text of an amount;
//! - [`uri`]: the request and its text;
//! - [`separators`]: how many `?` and `&` a URI holds.

pub mod amount;
pub mod charset;
pub mod decode;
pub mod encode;
pub mod key;
pub mod param;
pub mod render;
pub mod separators;
pub mod ser;
pub mod uri;

pub use key::UnsafeKey;
pub use param::Param;
pub use ser::NoExtras;
pub use ser::SerializeParams;
pub use uri::AddressText;
pub use uri::Uri;
