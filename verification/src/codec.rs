//! The codec: what it means to encode and decode a type, the codecs of the
//! basic types, and the reading and writing of an object's fields.

use crate::error::{DecodeError, DecodeErrorModel};
use crate::json::{
    array_value, bool_value, i64_value, null_value, object_get, object_insert, object_model,
    parse_text, parsed_text, print_value, printed_text, string_value, u64_value, value_as_array,
    value_as_bool, value_as_i64, value_as_str, value_as_u64, value_is_null, value_model,
    values_model, JsonModel, NumberModel,
};
use serde_json::Value;
use vstd::prelude::*;
use vstd::std_specs::iter::IteratorSpec;

verus! {

/// A type with a JSON form.
///
/// `encoding` and `decoding` say, over mathematical values, which JSON value
/// stands for an item and what every JSON value decodes to. `encode` and
/// `decode` compute exactly that.
pub trait Codec: Sized {
    /// The mathematical value that an item stands for.
    type Model;

    /// The mathematical value of `self`.
    spec fn model(&self) -> Self::Model;

    /// The JSON value that stands for `m`.
    spec fn encoding(m: Self::Model) -> JsonModel;

    /// What `j` decodes to: an item, or the reason why it is none.
    spec fn decoding(j: JsonModel) -> Result<Self::Model, DecodeErrorModel>;

    /// Encodes `self`.
    fn encode(&self) -> (v: Value)
        ensures
            value_model(v) == Self::encoding(self.model()),
    ;

    /// Decodes `v`.
    fn decode(v: &Value) -> (r: Result<Self, DecodeError>)
        ensures
            match r {
                Ok(x) => Self::decoding(value_model(*v)) == Ok::<Self::Model, DecodeErrorModel>(
                    x.model(),
                ),
                Err(e) => Self::decoding(value_model(*v)) == Err::<Self::Model, DecodeErrorModel>(
                    e@,
                ),
            },
    ;
}

/// Whether the outcome `r` of a decode is the outcome `expected`.
pub open spec fn outcome_is<T: Codec>(
    r: Result<T, DecodeError>,
    expected: Result<T::Model, DecodeErrorModel>,
) -> bool {
    match r {
        Ok(x) => expected == Ok::<T::Model, DecodeErrorModel>(x.model()),
        Err(e) => expected == Err::<T::Model, DecodeErrorModel>(e@),
    }
}

/// The mathematical value of an item that may be absent.
pub open spec fn option_model<T: Codec>(x: Option<T>) -> Option<T::Model> {
    match x {
        Some(v) => Some(v.model()),
        None => None,
    }
}

/// The mathematical values of a run of items.
pub open spec fn items_model<T: Codec>(items: Seq<T>) -> Seq<T::Model> {
    items.map_values(|x: T| x.model())
}

impl Codec for bool {
    type Model = bool;

    open spec fn model(&self) -> bool {
        *self
    }

    open spec fn encoding(m: bool) -> JsonModel {
        JsonModel::Bool(m)
    }

    open spec fn decoding(j: JsonModel) -> Result<bool, DecodeErrorModel> {
        match j {
            JsonModel::Bool(b) => Ok(b),
            _ => Err(DecodeErrorModel::ShapeMismatch),
        }
    }

    fn encode(&self) -> (v: Value) {
        bool_value(*self)
    }

    fn decode(v: &Value) -> (r: Result<bool, DecodeError>) {
        match value_as_bool(v) {
            Some(b) => Ok(b),
            None => Err(DecodeError::ShapeMismatch),
        }
    }
}

/// The non-negative integer that a JSON number holds, if it holds one that is
/// at most `max`.
pub open spec fn unsigned_in_range(j: JsonModel, max: u64) -> Option<u64> {
    match j {
        JsonModel::Number(NumberModel::PosInt(n)) => if n <= max {
            Some(n)
        } else {
            None
        },
        _ => None,
    }
}

impl Codec for u8 {
    type Model = u8;

    open spec fn model(&self) -> u8 {
        *self
    }

    open spec fn encoding(m: u8) -> JsonModel {
        JsonModel::Number(NumberModel::PosInt(m as u64))
    }

    open spec fn decoding(j: JsonModel) -> Result<u8, DecodeErrorModel> {
        match unsigned_in_range(j, 0xff) {
            Some(n) => Ok(n as u8),
            None => Err(DecodeErrorModel::ShapeMismatch),
        }
    }

    fn encode(&self) -> (v: Value) {
        u64_value(*self as u64)
    }

    fn decode(v: &Value) -> (r: Result<u8, DecodeError>) {
        match value_as_u64(v) {
            Some(n) => if n <= 0xff {
                Ok(n as u8)
            } else {
                Err(DecodeError::ShapeMismatch)
            },
            None => Err(DecodeError::ShapeMismatch),
        }
    }
}

impl Codec for u16 {
    type Model = u16;

    open spec fn model(&self) -> u16 {
        *self
    }

    open spec fn encoding(m: u16) -> JsonModel {
        JsonModel::Number(NumberModel::PosInt(m as u64))
    }

    open spec fn decoding(j: JsonModel) -> Result<u16, DecodeErrorModel> {
        match unsigned_in_range(j, 0xffff) {
            Some(n) => Ok(n as u16),
            None => Err(DecodeErrorModel::ShapeMismatch),
        }
    }

    fn encode(&self) -> (v: Value) {
        u64_value(*self as u64)
    }

    fn decode(v: &Value) -> (r: Result<u16, DecodeError>) {
        match value_as_u64(v) {
            Some(n) => if n <= 0xffff {
                Ok(n as u16)
            } else {
                Err(DecodeError::ShapeMismatch)
            },
            None => Err(DecodeError::ShapeMismatch),
        }
    }
}

impl Codec for u32 {
    type Model = u32;

    open spec fn model(&self) -> u32 {
        *self
    }

    open spec fn encoding(m: u32) -> JsonModel {
        JsonModel::Number(NumberModel::PosInt(m as u64))
    }

    open spec fn decoding(j: JsonModel) -> Result<u32, DecodeErrorModel> {
        match unsigned_in_range(j, 0xffff_ffff) {
            Some(n) => Ok(n as u32),
            None => Err(DecodeErrorModel::ShapeMismatch),
        }
    }

    fn encode(&self) -> (v: Value) {
        u64_value(*self as u64)
    }

    fn decode(v: &Value) -> (r: Result<u32, DecodeError>) {
        match value_as_u64(v) {
            Some(n) => if n <= 0xffff_ffff {
                Ok(n as u32)
            } else {
                Err(DecodeError::ShapeMismatch)
            },
            None => Err(DecodeError::ShapeMismatch),
        }
    }
}

impl Codec for u64 {
    type Model = u64;

    open spec fn model(&self) -> u64 {
        *self
    }

    open spec fn encoding(m: u64) -> JsonModel {
        JsonModel::Number(NumberModel::PosInt(m))
    }

    open spec fn decoding(j: JsonModel) -> Result<u64, DecodeErrorModel> {
        match unsigned_in_range(j, u64::MAX) {
            Some(n) => Ok(n),
            None => Err(DecodeErrorModel::ShapeMismatch),
        }
    }

    fn encode(&self) -> (v: Value) {
        u64_value(*self)
    }

    fn decode(v: &Value) -> (r: Result<u64, DecodeError>) {
        match value_as_u64(v) {
            Some(n) => Ok(n),
            None => Err(DecodeError::ShapeMismatch),
        }
    }
}

impl Codec for i64 {
    type Model = i64;

    open spec fn model(&self) -> i64 {
        *self
    }

    open spec fn encoding(m: i64) -> JsonModel {
        JsonModel::Number(
            if m < 0 {
                NumberModel::NegInt(m)
            } else {
                NumberModel::PosInt(m as u64)
            },
        )
    }

    open spec fn decoding(j: JsonModel) -> Result<i64, DecodeErrorModel> {
        match j {
            JsonModel::Number(NumberModel::PosInt(n)) => if n <= i64::MAX {
                Ok(n as i64)
            } else {
                Err(DecodeErrorModel::ShapeMismatch)
            },
            JsonModel::Number(NumberModel::NegInt(n)) => Ok(n),
            _ => Err(DecodeErrorModel::ShapeMismatch),
        }
    }

    fn encode(&self) -> (v: Value) {
        i64_value(*self)
    }

    fn decode(v: &Value) -> (r: Result<i64, DecodeError>) {
        match value_as_i64(v) {
            Some(n) => Ok(n),
            None => Err(DecodeError::ShapeMismatch),
        }
    }
}

impl Codec for String {
    type Model = Seq<char>;

    open spec fn model(&self) -> Seq<char> {
        self@
    }

    open spec fn encoding(m: Seq<char>) -> JsonModel {
        JsonModel::String(m)
    }

    open spec fn decoding(j: JsonModel) -> Result<Seq<char>, DecodeErrorModel> {
        match j {
            JsonModel::String(s) => Ok(s),
            _ => Err(DecodeErrorModel::ShapeMismatch),
        }
    }

    fn encode(&self) -> (v: Value) {
        string_value(self.clone())
    }

    fn decode(v: &Value) -> (r: Result<String, DecodeError>) {
        match value_as_str(v) {
            Some(s) => Ok(s.to_owned()),
            None => Err(DecodeError::ShapeMismatch),
        }
    }
}

/// Any JSON value, carried through as it is.
impl Codec for Value {
    type Model = JsonModel;

    open spec fn model(&self) -> JsonModel {
        value_model(*self)
    }

    open spec fn encoding(m: JsonModel) -> JsonModel {
        m
    }

    open spec fn decoding(j: JsonModel) -> Result<JsonModel, DecodeErrorModel> {
        Ok(j)
    }

    fn encode(&self) -> (v: Value) {
        self.clone()
    }

    fn decode(v: &Value) -> (r: Result<Value, DecodeError>) {
        Ok(v.clone())
    }
}

/// The JSON values that stand for a run of items, one for one.
pub open spec fn encoding_all<T: Codec>(items: Seq<T::Model>) -> Seq<JsonModel> {
    items.map_values(|m: T::Model| T::encoding(m))
}

/// What a run of JSON values decodes to, item by item: the items, or the
/// failure of the first value that is none.
pub open spec fn decoding_all<T: Codec>(items: Seq<JsonModel>) -> Result<
    Seq<T::Model>,
    DecodeErrorModel,
>
    decreases items.len(),
{
    if items.len() == 0 {
        Ok(Seq::empty())
    } else {
        match decoding_all::<T>(items.drop_last()) {
            Err(e) => Err(e),
            Ok(front) => match T::decoding(items.last()) {
                Err(e) => Err(e),
                Ok(m) => Ok(front.push(m)),
            },
        }
    }
}

/// Once a prefix of a run fails to decode, the whole run fails in the same way.
pub proof fn lemma_decoding_all_fails<T: Codec>(items: Seq<JsonModel>, k: int)
    requires
        0 <= k <= items.len(),
        decoding_all::<T>(items.take(k)) is Err,
    ensures
        decoding_all::<T>(items) == decoding_all::<T>(items.take(k)),
    decreases items.len() - k,
{
    if k < items.len() {
        assert(items.take(k + 1).drop_last() =~= items.take(k));
        lemma_decoding_all_fails::<T>(items, k + 1);
    } else {
        assert(items.take(k) =~= items);
    }
}

/// A run of items that each decode from their own encoding decodes from the
/// run of their encodings.
pub proof fn lemma_decoding_all_encoding_all<T: Codec>(items: Seq<T::Model>)
    requires
        forall|i: int|
            0 <= i < items.len() ==> T::decoding(T::encoding(#[trigger] items[i])) == Ok::<
                T::Model,
                DecodeErrorModel,
            >(items[i]),
    ensures
        decoding_all::<T>(encoding_all::<T>(items)) == Ok::<Seq<T::Model>, DecodeErrorModel>(items),
    decreases items.len(),
{
    let js = encoding_all::<T>(items);
    if items.len() == 0 {
        assert(items =~= Seq::empty());
    } else {
        assert(js.drop_last() =~= encoding_all::<T>(items.drop_last()));
        lemma_decoding_all_encoding_all::<T>(items.drop_last());
        assert(js.last() == T::encoding(items.last()));
        assert(items.drop_last().push(items.last()) =~= items);
    }
}

impl<T: Codec> Codec for Vec<T> {
    type Model = Seq<T::Model>;

    open spec fn model(&self) -> Seq<T::Model> {
        items_model(self@)
    }

    open spec fn encoding(m: Seq<T::Model>) -> JsonModel {
        JsonModel::Array(encoding_all::<T>(m))
    }

    open spec fn decoding(j: JsonModel) -> Result<Seq<T::Model>, DecodeErrorModel> {
        match j {
            JsonModel::Array(items) => decoding_all::<T>(items),
            _ => Err(DecodeErrorModel::ShapeMismatch),
        }
    }

    fn encode(&self) -> (v: Value) {
        let mut out: Vec<Value> = Vec::new();
        let mut i: usize = 0;
        while i < self.len()
            invariant
                0 <= i <= self.len(),
                out.len() == i,
                forall|j: int|
                    0 <= j < i ==> value_model(#[trigger] out@[j]) == T::encoding(
                        self@[j].model(),
                    ),
            decreases self.len() - i,
        {
            out.push(self[i].encode());
            i = i + 1;
        }
        assert(values_model(out@) =~= encoding_all::<T>(items_model(self@)));
        array_value(out)
    }

    fn decode(v: &Value) -> (r: Result<Vec<T>, DecodeError>) {
        match value_as_array(v) {
            None => Err(DecodeError::ShapeMismatch),
            Some(items) => {
                let ghost js = values_model(items@);
                let mut out: Vec<T> = Vec::new();
                let mut i: usize = 0;
                assert(js.take(0) =~= Seq::empty());
                assert(items_model(out@) =~= Seq::empty());
                while i < items.len()
                    invariant
                        0 <= i <= items.len(),
                        js == values_model(items@),
                        value_model(*v) == JsonModel::Array(js),
                        decoding_all::<T>(js.take(i as int)) == Ok::<
                            Seq<T::Model>,
                            DecodeErrorModel,
                        >(items_model(out@)),
                    decreases items.len() - i,
                {
                    proof {
                        assert(js.take(i + 1).drop_last() =~= js.take(i as int));
                        assert(js.take(i + 1).last() == value_model(items@[i as int]));
                    }
                    let ghost before = out@;
                    match T::decode(&items[i]) {
                        Ok(x) => {
                            out.push(x);
                            assert(items_model(out@) =~= items_model(before).push(x.model()));
                        },
                        Err(e) => {
                            proof {
                                assert(decoding_all::<T>(js.take(i + 1)) == Err::<
                                    Seq<T::Model>,
                                    DecodeErrorModel,
                                >(e@));
                                lemma_decoding_all_fails::<T>(js, i + 1);
                            }
                            return Err(e);
                        },
                    }
                    i = i + 1;
                }
                assert(js.take(i as int) =~= js);
                Ok(out)
            },
        }
    }
}

/// What the field `name` of an object decodes to, where the field must be
/// there: an object without it has the wrong shape.
pub open spec fn required<T: Codec>(fields: Map<Seq<char>, JsonModel>, name: Seq<char>) -> Result<
    T::Model,
    DecodeErrorModel,
> {
    if fields.contains_key(name) {
        T::decoding(fields[name])
    } else {
        Err(DecodeErrorModel::ShapeMismatch)
    }
}

/// What the field `name` of an object decodes to, where the field may be
/// left out: a field that is missing or `null` is absent, any other value must
/// decode.
pub open spec fn optional<T: Codec>(fields: Map<Seq<char>, JsonModel>, name: Seq<char>) -> Result<
    Option<T::Model>,
    DecodeErrorModel,
> {
    if !fields.contains_key(name) || fields[name] is Null {
        Ok(None)
    } else {
        match T::decoding(fields[name]) {
            Ok(m) => Ok(Some(m)),
            Err(e) => Err(e),
        }
    }
}

/// The JSON value that stands for an item that may be absent: `null` where
/// it is.
pub open spec fn optional_encoding<T: Codec>(m: Option<T::Model>) -> JsonModel {
    match m {
        Some(x) => T::encoding(x),
        None => JsonModel::Null,
    }
}

/// Whether two texts are the same, character by character.
pub(crate) fn same_text(a: &str, b: &str) -> (r: bool)
    ensures
        r == (a@ == b@),
{
    broadcast use vstd::string::group_string_axioms;

    let mut left = a.chars();
    let mut right = b.chars();
    let ghost mut k: int = 0;
    assert(a@.skip(0) =~= a@);
    assert(b@.skip(0) =~= b@);
    loop
        invariant
            left.obeys_prophetic_iter_laws(),
            right.obeys_prophetic_iter_laws(),
            0 <= k <= a@.len(),
            k <= b@.len(),
            left.remaining() == a@.skip(k),
            right.remaining() == b@.skip(k),
            a@.take(k) == b@.take(k),
        decreases a@.len() - k,
    {
        let x = left.next();
        let y = right.next();
        match (x, y) {
            (None, None) => {
                assert(a@.take(k) =~= a@);
                assert(b@.take(k) =~= b@);
                return true;
            },
            (Some(c), Some(d)) => {
                assert(c == a@[k] && d == b@[k]);
                if c != d {
                    return false;
                }
                proof {
                    assert(a@.skip(k).drop_first() =~= a@.skip(k + 1));
                    assert(b@.skip(k).drop_first() =~= b@.skip(k + 1));
                    assert(a@.take(k + 1) =~= a@.take(k).push(c));
                    assert(b@.take(k + 1) =~= b@.take(k).push(d));
                    k = k + 1;
                }
            },
            _ => {
                assert(a@.len() != b@.len());
                return false;
            },
        }
    }
}

/// Whether `v` is the JSON string `text`.
pub(crate) fn is_string(v: &Value, text: &str) -> (r: bool)
    ensures
        r == (value_model(*v) == JsonModel::String(text@)),
{
    match value_as_str(v) {
        Some(s) => same_text(s, text),
        None => false,
    }
}

/// Decodes the field `name`, which must be there.
pub fn read_required<T: Codec>(fields: &serde_json::Map<String, Value>, name: &str) -> (r: Result<
    T,
    DecodeError,
>)
    ensures
        outcome_is(r, required::<T>(object_model(*fields), name@)),
{
    match object_get(fields, name) {
        Some(v) => T::decode(v),
        None => Err(DecodeError::ShapeMismatch),
    }
}

/// Decodes the field `name`, which may be left out.
pub fn read_optional<T: Codec>(fields: &serde_json::Map<String, Value>, name: &str) -> (r: Result<
    Option<T>,
    DecodeError,
>)
    ensures
        match r {
            Ok(x) => optional::<T>(object_model(*fields), name@) == Ok::<
                Option<T::Model>,
                DecodeErrorModel,
            >(option_model(x)),
            Err(e) => optional::<T>(object_model(*fields), name@) == Err::<
                Option<T::Model>,
                DecodeErrorModel,
            >(e@),
        },
{
    match object_get(fields, name) {
        None => Ok(None),
        Some(v) => {
            if value_is_null(v) {
                Ok(None)
            } else {
                match T::decode(v) {
                    Ok(x) => Ok(Some(x)),
                    Err(e) => Err(e),
                }
            }
        },
    }
}

/// Stores the encoding of `x` under `name`.
pub fn write_field<T: Codec>(fields: &mut serde_json::Map<String, Value>, name: &str, x: &T)
    ensures
        object_model(*final(fields)) == object_model(*old(fields)).insert(
            name@,
            T::encoding(x.model()),
        ),
{
    object_insert(fields, name.to_owned(), x.encode());
}

/// Stores the encoding of `x` under `name`: `null` where `x` is absent.
pub fn write_optional<T: Codec>(
    fields: &mut serde_json::Map<String, Value>,
    name: &str,
    x: &Option<T>,
)
    ensures
        object_model(*final(fields)) == object_model(*old(fields)).insert(
            name@,
            optional_encoding::<T>(option_model(*x)),
        ),
{
    let v = match x {
        Some(inner) => inner.encode(),
        None => null_value(),
    };
    object_insert(fields, name.to_owned(), v);
}

/// Decodes a JSON text: the text must be JSON, and the value that it denotes
/// must decode.
pub fn from_str<T: Codec>(text: &str) -> (r: Result<T, DecodeError>)
    ensures
        match parsed_text(text@) {
            Some(j) => outcome_is(r, T::decoding(j)),
            None => r is Err && r->Err_0 == DecodeError::Syntax,
        },
{
    match parse_text(text) {
        Some(v) => T::decode(&v),
        None => Err(DecodeError::Syntax),
    }
}

/// Encodes `x` and prints the JSON value as a compact text.
pub fn to_string<T: Codec>(x: &T) -> (r: String)
    ensures
        r@ == printed_text(T::encoding(x.model())),
{
    let v = x.encode();
    print_value(&v)
}

} // verus!
