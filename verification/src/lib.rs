//! A codec for the JSON objects of a ledger's remote API: monetary amounts,
//! ledger entries, and the envelope that every response comes in.
//!
//! Each type of the API is a plain Rust value with a mathematical model. What
//! JSON value stands for an item, and what every JSON value decodes to, is
//! stated once, over those models, in the [`codec::Codec`] impl of the type;
//! `encode` and `decode` are proved to compute exactly that, and each module
//! proves that decoding undoes encoding. JSON values are those of
//! `serde_json`, which the codec reads and builds through the operations of
//! [`json`].

pub mod amount;
pub mod codec;
pub mod decimal;
pub mod error;
pub mod json;
pub mod ledger;
pub mod records;
pub mod response;
