//! The envelope of a response: the metadata that every response may carry,
//! and the `result`, which is the payload or an error.
//!
//! In this module `Result` is the envelope's own type; the standard one is
//! written `core::result::Result`.

use crate::codec::{
    lemma_decoding_all_encoding_all, optional, optional_encoding, option_model, read_optional,
    read_required, required, write_field, write_optional, Codec,
};
use crate::error::{DecodeError, DecodeErrorModel};
use crate::json::{
    empty_object, object_new, object_value, value_as_object, value_model, JsonModel,
};
use crate::records::{lemma_request_id_round_trip, RequestId, RequestIdModel};
use serde_json::Value;
use vstd::prelude::*;

verus! {

/// The `result` of a response: the payload that the request asked for, or
/// whatever the server sent in its place.
///
/// The wire has no mark that tells the two apart. A value that decodes as
/// the payload is the payload; any other value is kept as it came.
#[derive(Debug, Clone)]
pub enum Result<T> {
    /// The payload.
    Success(T),
    /// A value that is no payload, commonly an object with a field `error`.
    Error(Value),
}

/// The mathematical content of a [`Result`].
pub enum ResultModel<M> {
    Success(M),
    Error(JsonModel),
}

impl<T: Codec> View for Result<T> {
    type V = ResultModel<T::Model>;

    open spec fn view(&self) -> ResultModel<T::Model> {
        match *self {
            Result::Success(x) => ResultModel::Success(x.model()),
            Result::Error(v) => ResultModel::Error(value_model(v)),
        }
    }
}

impl<T: Codec> Codec for Result<T> {
    type Model = ResultModel<T::Model>;

    open spec fn model(&self) -> ResultModel<T::Model> {
        self@
    }

    open spec fn encoding(m: ResultModel<T::Model>) -> JsonModel {
        match m {
            ResultModel::Success(x) => T::encoding(x),
            ResultModel::Error(j) => j,
        }
    }

    /// Decoding never fails: the payload is tried first, and a value that is
    /// no payload is the error, whole.
    open spec fn decoding(j: JsonModel) -> core::result::Result<
        ResultModel<T::Model>,
        DecodeErrorModel,
    > {
        match T::decoding(j) {
            Ok(x) => Ok(ResultModel::Success(x)),
            Err(_) => Ok(ResultModel::Error(j)),
        }
    }

    fn encode(&self) -> (v: Value) {
        match self {
            Result::Success(x) => x.encode(),
            Result::Error(e) => e.clone(),
        }
    }

    fn decode(v: &Value) -> (r: core::result::Result<Result<T>, DecodeError>) {
        match T::decode(v) {
            Ok(x) => Ok(Result::Success(x)),
            Err(_) => Ok(Result::Error(v.clone())),
        }
    }
}

/// The envelope of a response with a payload of type `T`.
#[derive(Debug, Clone)]
pub struct Response<T> {
    /// The id that the request gave. Wire name `id`.
    pub id: Option<RequestId>,
    /// Whether the server understood the request. Wire name `status`.
    pub status: Option<String>,
    /// The kind of message. Wire name `type`.
    pub response_type: Option<String>,
    /// The payload, or the error. Wire name `result`; the one field that must
    /// be there.
    pub result: Result<T>,
    /// A warning about load. Wire name `warning`.
    pub warning: Option<String>,
    /// Further warnings, each as the server sent it. Wire name `warnings`.
    pub warnings: Option<Vec<Value>>,
    /// Whether the request was forwarded to another server. Wire name
    /// `forwarded`.
    pub forwarded: Option<bool>,
}

/// The mathematical content of a [`Response`] whose payload has the content
/// `M`.
pub struct ResponseModel<M> {
    pub id: Option<RequestIdModel>,
    pub status: Option<Seq<char>>,
    pub response_type: Option<Seq<char>>,
    pub result: ResultModel<M>,
    pub warning: Option<Seq<char>>,
    pub warnings: Option<Seq<JsonModel>>,
    pub forwarded: Option<bool>,
}

/// The envelope that the fields of an object hold. `result` must be there;
/// every other field may be left out.
pub open spec fn response_from_fields<T: Codec>(
    fields: Map<Seq<char>, JsonModel>,
) -> core::result::Result<ResponseModel<T::Model>, DecodeErrorModel> {
    let id = optional::<RequestId>(fields, "id"@);
    let status = optional::<String>(fields, "status"@);
    let response_type = optional::<String>(fields, "type"@);
    let result = required::<Result<T>>(fields, "result"@);
    let warning = optional::<String>(fields, "warning"@);
    let warnings = optional::<Vec<Value>>(fields, "warnings"@);
    let forwarded = optional::<bool>(fields, "forwarded"@);
    if id is Err {
        Err(id->Err_0)
    } else if status is Err {
        Err(status->Err_0)
    } else if response_type is Err {
        Err(response_type->Err_0)
    } else if result is Err {
        Err(result->Err_0)
    } else if warning is Err {
        Err(warning->Err_0)
    } else if warnings is Err {
        Err(warnings->Err_0)
    } else if forwarded is Err {
        Err(forwarded->Err_0)
    } else {
        Ok(
            ResponseModel {
                id: id->Ok_0,
                status: status->Ok_0,
                response_type: response_type->Ok_0,
                result: result->Ok_0,
                warning: warning->Ok_0,
                warnings: warnings->Ok_0,
                forwarded: forwarded->Ok_0,
            },
        )
    }
}

impl<T: Codec> View for Response<T> {
    type V = ResponseModel<T::Model>;

    open spec fn view(&self) -> ResponseModel<T::Model> {
        ResponseModel {
            id: option_model(self.id),
            status: option_model(self.status),
            response_type: option_model(self.response_type),
            result: self.result@,
            warning: option_model(self.warning),
            warnings: option_model(self.warnings),
            forwarded: option_model(self.forwarded),
        }
    }
}

impl<T: Codec> Codec for Response<T> {
    type Model = ResponseModel<T::Model>;

    open spec fn model(&self) -> ResponseModel<T::Model> {
        self@
    }

    open spec fn encoding(m: ResponseModel<T::Model>) -> JsonModel {
        JsonModel::Object(
            empty_object().insert("id"@, optional_encoding::<RequestId>(m.id)).insert(
                "status"@,
                optional_encoding::<String>(m.status),
            ).insert("type"@, optional_encoding::<String>(m.response_type)).insert(
                "result"@,
                Result::<T>::encoding(m.result),
            ).insert("warning"@, optional_encoding::<String>(m.warning)).insert(
                "warnings"@,
                optional_encoding::<Vec<Value>>(m.warnings),
            ).insert("forwarded"@, optional_encoding::<bool>(m.forwarded)),
        )
    }

    open spec fn decoding(j: JsonModel) -> core::result::Result<
        ResponseModel<T::Model>,
        DecodeErrorModel,
    > {
        match j {
            JsonModel::Object(fields) => response_from_fields::<T>(fields),
            _ => Err(DecodeErrorModel::ShapeMismatch),
        }
    }

    fn encode(&self) -> (v: Value) {
        let mut fields = object_new();
        write_optional(&mut fields, "id", &self.id);
        write_optional(&mut fields, "status", &self.status);
        write_optional(&mut fields, "type", &self.response_type);
        write_field(&mut fields, "result", &self.result);
        write_optional(&mut fields, "warning", &self.warning);
        write_optional(&mut fields, "warnings", &self.warnings);
        write_optional(&mut fields, "forwarded", &self.forwarded);
        object_value(fields)
    }

    fn decode(v: &Value) -> (r: core::result::Result<Response<T>, DecodeError>) {
        let fields = match value_as_object(v) {
            Some(m) => m,
            None => {
                return Err(DecodeError::ShapeMismatch);
            },
        };
        let id: Option<RequestId> = match read_optional::<RequestId>(fields, "id") {
            Ok(x) => x,
            Err(e) => {
                return Err(e);
            },
        };
        let status: Option<String> = match read_optional::<String>(fields, "status") {
            Ok(x) => x,
            Err(e) => {
                return Err(e);
            },
        };
        let response_type: Option<String> = match read_optional::<String>(fields, "type") {
            Ok(x) => x,
            Err(e) => {
                return Err(e);
            },
        };
        let result: Result<T> = match read_required::<Result<T>>(fields, "result") {
            Ok(x) => x,
            Err(e) => {
                return Err(e);
            },
        };
        let warning: Option<String> = match read_optional::<String>(fields, "warning") {
            Ok(x) => x,
            Err(e) => {
                return Err(e);
            },
        };
        let warnings: Option<Vec<Value>> = match read_optional::<Vec<Value>>(fields, "warnings") {
            Ok(x) => x,
            Err(e) => {
                return Err(e);
            },
        };
        let forwarded: Option<bool> = match read_optional::<bool>(fields, "forwarded") {
            Ok(x) => x,
            Err(e) => {
                return Err(e);
            },
        };
        Ok(Response { id, status, response_type, result, warning, warnings, forwarded })
    }
}

/// The two arms of a `result` exclude each other, and the payload comes
/// first: a value is decoded as the payload exactly when it decodes as one,
/// and is kept whole as the error exactly when it does not. Decoding a
/// `result` never fails.
pub proof fn lemma_result_decoding<T: Codec>(j: JsonModel)
    ensures
        Result::<T>::decoding(j) is Ok,
        T::decoding(j) is Ok ==> Result::<T>::decoding(j)->Ok_0 == ResultModel::Success(
            T::decoding(j)->Ok_0,
        ),
        T::decoding(j) is Err ==> Result::<T>::decoding(j)->Ok_0 == ResultModel::<
            T::Model,
        >::Error(j),
{
}

/// Whether a `result` decodes from its own encoding: a payload that does,
/// or an error that is no payload.
pub open spec fn result_round_trips<T: Codec>(m: ResultModel<T::Model>) -> bool {
    match m {
        ResultModel::Success(x) => T::decoding(T::encoding(x)) == Ok::<
            T::Model,
            DecodeErrorModel,
        >(x),
        ResultModel::Error(j) => T::decoding(j) is Err,
    }
}

/// A `result` decodes from its own encoding where its payload does, or
/// where it is an error that does not decode as a payload.
pub proof fn lemma_result_round_trip<T: Codec>(m: ResultModel<T::Model>)
    requires
        result_round_trips::<T>(m),
    ensures
        Result::<T>::decoding(Result::<T>::encoding(m)) == Ok::<
            ResultModel<T::Model>,
            DecodeErrorModel,
        >(m),
{
}

/// An envelope decodes from its own encoding where its `result` does.
pub proof fn lemma_response_round_trip<T: Codec>(m: ResponseModel<T::Model>)
    requires
        result_round_trips::<T>(m.result),
    ensures
        Response::<T>::decoding(Response::<T>::encoding(m)) == Ok::<
            ResponseModel<T::Model>,
            DecodeErrorModel,
        >(m),
{
    reveal_strlit("id");
    reveal_strlit("status");
    reveal_strlit("type");
    reveal_strlit("result");
    reveal_strlit("warning");
    reveal_strlit("warnings");
    reveal_strlit("forwarded");
    assert("id"@.len() == 2 && "type"@.len() == 4 && "warning"@.len() == 7);
    assert("status"@.len() == 6 && "status"@[0] == 's');
    assert("result"@.len() == 6 && "result"@[0] == 'r');
    assert("warnings"@.len() == 8 && "forwarded"@.len() == 9);
    lemma_result_round_trip::<T>(m.result);
    if let Some(id) = m.id {
        lemma_request_id_round_trip(id);
    }
    if let Some(ws) = m.warnings {
        lemma_decoding_all_encoding_all::<Value>(ws);
        assert(crate::codec::encoding_all::<Value>(ws) =~= ws);
    }
}

} // verus!
