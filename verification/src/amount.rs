//! Monetary amounts: the native currency, counted in drops and written as a
//! decimal string, and amounts of an issued currency, written as an object.

use crate::codec::{read_required, required, write_field, Codec};
use crate::decimal::{
    decimal_text, format_u64, lemma_parse_decimal_text, parse_u64, parse_u64_spec,
    ParseAmountError,
};
use crate::error::{DecodeError, DecodeErrorModel};
use crate::json::{
    empty_object, object_new, object_value, string_value, value_as_object, value_as_str,
    value_model, JsonModel,
};
use serde_json::Value;
use vstd::prelude::*;

verus! {

/// An address that identifies an account.
pub type Address = String;

/// A count of drops, the smallest unit of the native currency.
///
/// On the wire a count is always a decimal string, never a JSON number.
#[derive(Debug, Eq, PartialEq, Ord, PartialOrd, Clone, Structural)]
pub struct Drops(u64);

impl View for Drops {
    type V = u64;

    closed spec fn view(&self) -> u64 {
        self.0
    }
}

/// What a text reads as, where a count of drops is due.
pub closed spec fn drops_of_text(text: Seq<char>) -> Result<Drops, ParseAmountError> {
    match parse_u64_spec(text) {
        Ok(n) => Ok(Drops(n)),
        Err(e) => Err(e),
    }
}

/// A text reads as the count that it denotes in decimal, or fails as the
/// reading of the decimal fails.
pub proof fn lemma_drops_of_text(text: Seq<char>)
    ensures
        match drops_of_text(text) {
            Ok(d) => parse_u64_spec(text) == Ok::<u64, ParseAmountError>(d@),
            Err(e) => parse_u64_spec(text) == Err::<u64, ParseAmountError>(e),
        },
{
}

/// Two counts of the same number are the same count.
pub proof fn lemma_drops_by_number(a: Drops, b: Drops)
    ensures
        a@ == b@ <==> a == b,
{
}

impl Default for Drops {
    /// No drops.
    fn default() -> (r: Self)
        ensures
            r@ == 0,
    {
        Drops(0)
    }
}

impl Drops {
    /// The count `n`.
    pub fn new(n: u64) -> (r: Drops)
        ensures
            r@ == n,
    {
        Drops(n)
    }

    /// The count as a number.
    pub fn value(&self) -> (n: u64)
        ensures
            n == self@,
    {
        self.0
    }

    /// The decimal string of the count.
    pub fn to_text(&self) -> (r: String)
        ensures
            r@ == decimal_text(self@ as nat),
    {
        format_u64(self.0)
    }
}

impl TryFrom<&str> for Drops {
    type Error = ParseAmountError;

    /// Reads a count from its decimal string.
    fn try_from(value: &str) -> (r: Result<Drops, ParseAmountError>)
        ensures
            match r {
                Ok(d) => parse_u64_spec(value@) == Ok::<u64, ParseAmountError>(d@),
                Err(e) => parse_u64_spec(value@) == Err::<u64, ParseAmountError>(e),
            },
    {
        match parse_u64(value) {
            Ok(n) => Ok(Drops(n)),
            Err(e) => Err(e),
        }
    }
}

impl vstd::std_specs::convert::TryFromSpecImpl<&str> for Drops {
    open spec fn obeys_try_from_spec() -> bool {
        true
    }

    open spec fn try_from_spec(v: &str) -> Result<Drops, ParseAmountError> {
        drops_of_text(v@)
    }
}

impl TryFrom<String> for Drops {
    type Error = ParseAmountError;

    /// Reads a count from its decimal string.
    fn try_from(value: String) -> (r: Result<Drops, ParseAmountError>)
        ensures
            match r {
                Ok(d) => parse_u64_spec(value@) == Ok::<u64, ParseAmountError>(d@),
                Err(e) => parse_u64_spec(value@) == Err::<u64, ParseAmountError>(e),
            },
    {
        match parse_u64(value.as_str()) {
            Ok(n) => Ok(Drops(n)),
            Err(e) => Err(e),
        }
    }
}

impl vstd::std_specs::convert::TryFromSpecImpl<String> for Drops {
    open spec fn obeys_try_from_spec() -> bool {
        true
    }

    open spec fn try_from_spec(v: String) -> Result<Drops, ParseAmountError> {
        drops_of_text(v@)
    }
}

impl Codec for Drops {
    type Model = u64;

    open spec fn model(&self) -> u64 {
        self@
    }

    /// The decimal string of the count.
    open spec fn encoding(m: u64) -> JsonModel {
        JsonModel::String(decimal_text(m as nat))
    }

    /// Only a string decodes, and only where it is the decimal form of an
    /// unsigned 64-bit integer.
    open spec fn decoding(j: JsonModel) -> Result<u64, DecodeErrorModel> {
        match j {
            JsonModel::String(s) => match parse_u64_spec(s) {
                Ok(n) => Ok(n),
                Err(reason) => Err(DecodeErrorModel::MalformedAmount { text: s, reason }),
            },
            _ => Err(DecodeErrorModel::ShapeMismatch),
        }
    }

    fn encode(&self) -> (v: Value) {
        string_value(format_u64(self.0))
    }

    fn decode(v: &Value) -> (r: Result<Drops, DecodeError>) {
        match value_as_str(v) {
            Some(s) => match parse_u64(s) {
                Ok(n) => Ok(Drops(n)),
                Err(reason) => Err(DecodeError::MalformedAmount { text: s.to_owned(), reason }),
            },
            None => Err(DecodeError::ShapeMismatch),
        }
    }
}

/// An amount of a currency that an account has issued.
///
/// The codec carries the three texts as they are: whether `value` is a
/// number is for others to judge.
#[derive(Default, Debug, Eq, PartialEq)]
pub struct IssuedCurrencyAmount {
    /// The quantity, as a decimal text.
    pub value: String,
    /// The currency code.
    pub currency: String,
    /// The account that issued the currency.
    pub issuer: Address,
}

/// The mathematical content of an [`IssuedCurrencyAmount`].
pub struct IssuedCurrencyAmountModel {
    pub value: Seq<char>,
    pub currency: Seq<char>,
    pub issuer: Seq<char>,
}

impl View for IssuedCurrencyAmount {
    type V = IssuedCurrencyAmountModel;

    open spec fn view(&self) -> IssuedCurrencyAmountModel {
        IssuedCurrencyAmountModel {
            value: self.value@,
            currency: self.currency@,
            issuer: self.issuer@,
        }
    }
}

/// The issued amount that the fields of an object hold: `value`, `currency`
/// and `issuer` must all be there, each a string.
pub open spec fn issued_amount_from_fields(fields: Map<Seq<char>, JsonModel>) -> Result<
    IssuedCurrencyAmountModel,
    DecodeErrorModel,
> {
    let value = required::<String>(fields, "value"@);
    let currency = required::<String>(fields, "currency"@);
    let issuer = required::<String>(fields, "issuer"@);
    if value is Err {
        Err(value->Err_0)
    } else if currency is Err {
        Err(currency->Err_0)
    } else if issuer is Err {
        Err(issuer->Err_0)
    } else {
        Ok(
            IssuedCurrencyAmountModel {
                value: value->Ok_0,
                currency: currency->Ok_0,
                issuer: issuer->Ok_0,
            },
        )
    }
}

impl Codec for IssuedCurrencyAmount {
    type Model = IssuedCurrencyAmountModel;

    open spec fn model(&self) -> IssuedCurrencyAmountModel {
        self@
    }

    open spec fn encoding(m: IssuedCurrencyAmountModel) -> JsonModel {
        JsonModel::Object(
            empty_object().insert("value"@, JsonModel::String(m.value)).insert(
                "currency"@,
                JsonModel::String(m.currency),
            ).insert("issuer"@, JsonModel::String(m.issuer)),
        )
    }

    open spec fn decoding(j: JsonModel) -> Result<IssuedCurrencyAmountModel, DecodeErrorModel> {
        match j {
            JsonModel::Object(fields) => issued_amount_from_fields(fields),
            _ => Err(DecodeErrorModel::ShapeMismatch),
        }
    }

    fn encode(&self) -> (v: Value) {
        let mut fields = object_new();
        write_field(&mut fields, "value", &self.value);
        write_field(&mut fields, "currency", &self.currency);
        write_field(&mut fields, "issuer", &self.issuer);
        object_value(fields)
    }

    fn decode(v: &Value) -> (r: Result<IssuedCurrencyAmount, DecodeError>) {
        let fields = match value_as_object(v) {
            Some(m) => m,
            None => {
                return Err(DecodeError::ShapeMismatch);
            },
        };
        let value: String = match read_required::<String>(fields, "value") {
            Ok(x) => x,
            Err(e) => {
                return Err(e);
            },
        };
        let currency: String = match read_required::<String>(fields, "currency") {
            Ok(x) => x,
            Err(e) => {
                return Err(e);
            },
        };
        let issuer: String = match read_required::<String>(fields, "issuer") {
            Ok(x) => x,
            Err(e) => {
                return Err(e);
            },
        };
        Ok(IssuedCurrencyAmount { value, currency, issuer })
    }
}

/// An amount of money: of the native currency, or of an issued one.
///
/// The wire tells the two apart by shape alone: a string is a native amount,
/// an object an issued one.
#[derive(Debug, Eq, PartialEq)]
pub enum CurrencyAmount {
    /// An amount of the native currency, in drops.
    XRP(Drops),
    /// An amount of an issued currency.
    IssuedCurrency(IssuedCurrencyAmount),
}

/// The mathematical content of a [`CurrencyAmount`].
pub enum CurrencyAmountModel {
    XRP(u64),
    IssuedCurrency(IssuedCurrencyAmountModel),
}

impl View for CurrencyAmount {
    type V = CurrencyAmountModel;

    open spec fn view(&self) -> CurrencyAmountModel {
        match *self {
            CurrencyAmount::XRP(d) => CurrencyAmountModel::XRP(d@),
            CurrencyAmount::IssuedCurrency(a) => CurrencyAmountModel::IssuedCurrency(a@),
        }
    }
}

impl Default for CurrencyAmount {
    /// No drops at all.
    fn default() -> (r: Self)
        ensures
            r@ == CurrencyAmountModel::XRP(0),
    {
        CurrencyAmount::XRP(Drops(0u64))
    }
}

impl Codec for CurrencyAmount {
    type Model = CurrencyAmountModel;

    open spec fn model(&self) -> CurrencyAmountModel {
        self@
    }

    open spec fn encoding(m: CurrencyAmountModel) -> JsonModel {
        match m {
            CurrencyAmountModel::XRP(n) => Drops::encoding(n),
            CurrencyAmountModel::IssuedCurrency(a) => IssuedCurrencyAmount::encoding(a),
        }
    }

    /// A string is read as a native amount and as nothing else: a string that
    /// is no count of drops fails. An object is read as an issued amount. No
    /// other value is an amount.
    open spec fn decoding(j: JsonModel) -> Result<CurrencyAmountModel, DecodeErrorModel> {
        match j {
            JsonModel::String(_) => match Drops::decoding(j) {
                Ok(n) => Ok(CurrencyAmountModel::XRP(n)),
                Err(e) => Err(e),
            },
            JsonModel::Object(_) => match IssuedCurrencyAmount::decoding(j) {
                Ok(a) => Ok(CurrencyAmountModel::IssuedCurrency(a)),
                Err(e) => Err(e),
            },
            _ => Err(DecodeErrorModel::ShapeMismatch),
        }
    }

    fn encode(&self) -> (v: Value) {
        match self {
            CurrencyAmount::XRP(d) => d.encode(),
            CurrencyAmount::IssuedCurrency(a) => a.encode(),
        }
    }

    fn decode(v: &Value) -> (r: Result<CurrencyAmount, DecodeError>) {
        if value_as_str(v).is_some() {
            match Drops::decode(v) {
                Ok(d) => Ok(CurrencyAmount::XRP(d)),
                Err(e) => Err(e),
            }
        } else if value_as_object(v).is_some() {
            match IssuedCurrencyAmount::decode(v) {
                Ok(a) => Ok(CurrencyAmount::IssuedCurrency(a)),
                Err(e) => Err(e),
            }
        } else {
            Err(DecodeError::ShapeMismatch)
        }
    }
}

/// Every count of drops decodes from its own encoding.
pub proof fn lemma_drops_round_trip(n: u64)
    ensures
        Drops::decoding(Drops::encoding(n)) == Ok::<u64, DecodeErrorModel>(n),
{
    lemma_parse_decimal_text(n);
}

/// Every issued amount decodes from its own encoding.
pub proof fn lemma_issued_amount_round_trip(a: IssuedCurrencyAmountModel)
    ensures
        IssuedCurrencyAmount::decoding(IssuedCurrencyAmount::encoding(a)) == Ok::<
            IssuedCurrencyAmountModel,
            DecodeErrorModel,
        >(a),
{
    reveal_strlit("value");
    reveal_strlit("currency");
    reveal_strlit("issuer");
    assert("value"@.len() == 5 && "currency"@.len() == 8 && "issuer"@.len() == 6);
}

/// Every amount, native or issued, decodes from its own encoding.
pub proof fn lemma_currency_amount_round_trip(a: CurrencyAmountModel)
    ensures
        CurrencyAmount::decoding(CurrencyAmount::encoding(a)) == Ok::<
            CurrencyAmountModel,
            DecodeErrorModel,
        >(a),
{
    match a {
        CurrencyAmountModel::XRP(n) => {
            lemma_drops_round_trip(n);
        },
        CurrencyAmountModel::IssuedCurrency(i) => {
            lemma_issued_amount_round_trip(i);
        },
    }
}

} // verus!
