//! The ways in which decoding can fail.

use crate::decimal::ParseAmountError;
use vstd::prelude::*;

verus! {

/// A failed decode. An entry type that is not known and an error object sent
/// by a server are no failures: both decode to ordinary values.
#[derive(Debug, Clone, PartialEq, Eq)]
pub enum DecodeError {
    /// A string that stands where a native amount is due is not the decimal
    /// form of an unsigned 64-bit integer. `text` is the string as it came,
    /// `reason` says what is wrong with it.
    MalformedAmount { text: String, reason: ParseAmountError },
    /// The value has another shape than the one that is due: another kind of
    /// JSON value, a number out of range, or an object that lacks a required
    /// field.
    ShapeMismatch,
    /// The text is not JSON at all.
    Syntax,
}

/// The mathematical content of a [`DecodeError`].
pub enum DecodeErrorModel {
    MalformedAmount { text: Seq<char>, reason: ParseAmountError },
    ShapeMismatch,
    Syntax,
}

impl View for DecodeError {
    type V = DecodeErrorModel;

    open spec fn view(&self) -> DecodeErrorModel {
        match *self {
            DecodeError::MalformedAmount { text, reason } => DecodeErrorModel::MalformedAmount {
                text: text@,
                reason,
            },
            DecodeError::ShapeMismatch => DecodeErrorModel::ShapeMismatch,
            DecodeError::Syntax => DecodeErrorModel::Syntax,
        }
    }
}

impl DecodeErrorModel {
    /// The failure in words. A malformed amount is quoted with the reason
    /// why it is none.
    pub open spec fn message_text(self) -> Seq<char> {
        match self {
            DecodeErrorModel::MalformedAmount { text, reason } => "malformed amount `"@ + text
                + "`: "@ + reason.description_text(),
            DecodeErrorModel::ShapeMismatch => "shape mismatch"@,
            DecodeErrorModel::Syntax => "invalid JSON"@,
        }
    }
}

impl DecodeError {
    /// The failure in words.
    pub fn message(&self) -> (r: String)
        ensures
            r@ == self@.message_text(),
    {
        let mut out = String::new();
        match self {
            DecodeError::MalformedAmount { text, reason } => {
                out.append("malformed amount `");
                out.append(text.as_str());
                out.append("`: ");
                out.append(reason.description());
            },
            DecodeError::ShapeMismatch => {
                out.append("shape mismatch");
            },
            DecodeError::Syntax => {
                out.append("invalid JSON");
            },
        }
        assert(out@ =~= self@.message_text());
        out
    }
}

} // verus!
