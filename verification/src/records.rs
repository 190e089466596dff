//! Plain records of requests and responses: ids, ledger selection, cursors,
//! error objects and the lookup of one transaction.

use crate::codec::{
    optional, optional_encoding, option_model, read_optional, read_required, write_field,
    write_optional, Codec,
};
use crate::error::{DecodeError, DecodeErrorModel};
use crate::json::{
    empty_object, object_get, object_len, object_new, object_value, value_as_object, JsonModel,
};
use serde_json::Value;
use vstd::prelude::*;

verus! {

/// A cursor into a paged listing. What it holds is for the server to say.
pub type Marker = Value;

/// The id by which a caller finds the response to its request: a number or a
/// text.
///
/// On the wire an id is an object with one field, `Number` or `String`, that
/// holds the number or the text.
#[derive(Debug, Clone, PartialEq, Eq, Hash)]
pub enum RequestId {
    /// A numerical id.
    Number(u64),
    /// An id that is no number, for example a hash.
    String(String),
}

/// The mathematical content of a [`RequestId`].
pub enum RequestIdModel {
    Number(u64),
    String(Seq<char>),
}

impl View for RequestId {
    type V = RequestIdModel;

    open spec fn view(&self) -> RequestIdModel {
        match *self {
            RequestId::Number(n) => RequestIdModel::Number(n),
            RequestId::String(s) => RequestIdModel::String(s@),
        }
    }
}

impl Codec for RequestId {
    type Model = RequestIdModel;

    open spec fn model(&self) -> RequestIdModel {
        self@
    }

    open spec fn encoding(m: RequestIdModel) -> JsonModel {
        match m {
            RequestIdModel::Number(n) => JsonModel::Object(
                empty_object().insert("Number"@, u64::encoding(n)),
            ),
            RequestIdModel::String(s) => JsonModel::Object(
                empty_object().insert("String"@, String::encoding(s)),
            ),
        }
    }

    /// Only an object with exactly one field decodes: `Number` with an
    /// unsigned 64-bit integer, or `String` with a string.
    open spec fn decoding(j: JsonModel) -> Result<RequestIdModel, DecodeErrorModel> {
        match j {
            JsonModel::Object(fields) => if fields.len() != 1 {
                Err(DecodeErrorModel::ShapeMismatch)
            } else if fields.contains_key("Number"@) {
                match u64::decoding(fields["Number"@]) {
                    Ok(n) => Ok(RequestIdModel::Number(n)),
                    Err(e) => Err(e),
                }
            } else if fields.contains_key("String"@) {
                match String::decoding(fields["String"@]) {
                    Ok(s) => Ok(RequestIdModel::String(s)),
                    Err(e) => Err(e),
                }
            } else {
                Err(DecodeErrorModel::ShapeMismatch)
            },
            _ => Err(DecodeErrorModel::ShapeMismatch),
        }
    }

    fn encode(&self) -> (v: Value) {
        let mut fields = object_new();
        match self {
            RequestId::Number(n) => {
                write_field(&mut fields, "Number", n);
            },
            RequestId::String(s) => {
                write_field(&mut fields, "String", s);
            },
        }
        object_value(fields)
    }

    fn decode(v: &Value) -> (r: Result<RequestId, DecodeError>) {
        let fields = match value_as_object(v) {
            Some(m) => m,
            None => {
                return Err(DecodeError::ShapeMismatch);
            },
        };
        if object_len(fields) != 1 {
            return Err(DecodeError::ShapeMismatch);
        }
        if object_get(fields, "Number").is_some() {
            match read_required::<u64>(fields, "Number") {
                Ok(n) => Ok(RequestId::Number(n)),
                Err(e) => Err(e),
            }
        } else if object_get(fields, "String").is_some() {
            match read_required::<String>(fields, "String") {
                Ok(s) => Ok(RequestId::String(s)),
                Err(e) => Err(e),
            }
        } else {
            Err(DecodeError::ShapeMismatch)
        }
    }
}

/// Which ledger a request reads, or a response was read from. Every field
/// may be absent, each on its own.
#[derive(Debug, Clone, PartialEq, Eq, Default)]
pub struct LedgerInfo {
    /// The hash of the ledger version.
    pub ledger_hash: Option<String>,
    /// The index of the ledger version.
    pub ledger_index: Option<i64>,
    /// The index of the ledger in progress that the data was read from.
    pub ledger_current_index: Option<i64>,
    /// Whether the data comes from a validated ledger version.
    pub validated: Option<bool>,
}

/// The mathematical content of a [`LedgerInfo`].
pub struct LedgerInfoModel {
    pub ledger_hash: Option<Seq<char>>,
    pub ledger_index: Option<i64>,
    pub ledger_current_index: Option<i64>,
    pub validated: Option<bool>,
}

impl View for LedgerInfo {
    type V = LedgerInfoModel;

    open spec fn view(&self) -> LedgerInfoModel {
        LedgerInfoModel {
            ledger_hash: option_model(self.ledger_hash),
            ledger_index: option_model(self.ledger_index),
            ledger_current_index: option_model(self.ledger_current_index),
            validated: option_model(self.validated),
        }
    }
}

/// The ledger selection that the fields of an object hold.
pub open spec fn ledger_info_from_fields(fields: Map<Seq<char>, JsonModel>) -> Result<
    LedgerInfoModel,
    DecodeErrorModel,
> {
    let ledger_hash = optional::<String>(fields, "ledger_hash"@);
    let ledger_index = optional::<i64>(fields, "ledger_index"@);
    let ledger_current_index = optional::<i64>(fields, "ledger_current_index"@);
    let validated = optional::<bool>(fields, "validated"@);
    if ledger_hash is Err {
        Err(ledger_hash->Err_0)
    } else if ledger_index is Err {
        Err(ledger_index->Err_0)
    } else if ledger_current_index is Err {
        Err(ledger_current_index->Err_0)
    } else if validated is Err {
        Err(validated->Err_0)
    } else {
        Ok(
            LedgerInfoModel {
                ledger_hash: ledger_hash->Ok_0,
                ledger_index: ledger_index->Ok_0,
                ledger_current_index: ledger_current_index->Ok_0,
                validated: validated->Ok_0,
            },
        )
    }
}

impl Codec for LedgerInfo {
    type Model = LedgerInfoModel;

    open spec fn model(&self) -> LedgerInfoModel {
        self@
    }

    open spec fn encoding(m: LedgerInfoModel) -> JsonModel {
        JsonModel::Object(
            empty_object().insert("ledger_hash"@, optional_encoding::<String>(m.ledger_hash)).insert(
                "ledger_index"@,
                optional_encoding::<i64>(m.ledger_index),
            ).insert(
                "ledger_current_index"@,
                optional_encoding::<i64>(m.ledger_current_index),
            ).insert("validated"@, optional_encoding::<bool>(m.validated)),
        )
    }

    open spec fn decoding(j: JsonModel) -> Result<LedgerInfoModel, DecodeErrorModel> {
        match j {
            JsonModel::Object(fields) => ledger_info_from_fields(fields),
            _ => Err(DecodeErrorModel::ShapeMismatch),
        }
    }

    fn encode(&self) -> (v: Value) {
        let mut fields = object_new();
        write_optional(&mut fields, "ledger_hash", &self.ledger_hash);
        write_optional(&mut fields, "ledger_index", &self.ledger_index);
        write_optional(&mut fields, "ledger_current_index", &self.ledger_current_index);
        write_optional(&mut fields, "validated", &self.validated);
        object_value(fields)
    }

    fn decode(v: &Value) -> (r: Result<LedgerInfo, DecodeError>) {
        let fields = match value_as_object(v) {
            Some(m) => m,
            None => {
                return Err(DecodeError::ShapeMismatch);
            },
        };
        let ledger_hash: Option<String> = match read_optional::<String>(fields, "ledger_hash") {
            Ok(x) => x,
            Err(e) => {
                return Err(e);
            },
        };
        let ledger_index: Option<i64> = match read_optional::<i64>(fields, "ledger_index") {
            Ok(x) => x,
            Err(e) => {
                return Err(e);
            },
        };
        let ledger_current_index: Option<i64> = match read_optional::<i64>(
            fields,
            "ledger_current_index",
        ) {
            Ok(x) => x,
            Err(e) => {
                return Err(e);
            },
        };
        let validated: Option<bool> = match read_optional::<bool>(fields, "validated") {
            Ok(x) => x,
            Err(e) => {
                return Err(e);
            },
        };
        Ok(LedgerInfo { ledger_hash, ledger_index, ledger_current_index, validated })
    }
}

/// Where a paged listing goes on. Both fields may be absent.
#[derive(Debug, Clone, PartialEq, Eq, Default)]
pub struct PaginationInfo {
    /// How many items to retrieve.
    pub limit: Option<i64>,
    /// The cursor that an earlier response gave.
    pub marker: Option<Marker>,
}

/// The mathematical content of a [`PaginationInfo`].
pub struct PaginationInfoModel {
    pub limit: Option<i64>,
    pub marker: Option<JsonModel>,
}

impl View for PaginationInfo {
    type V = PaginationInfoModel;

    open spec fn view(&self) -> PaginationInfoModel {
        PaginationInfoModel {
            limit: option_model(self.limit),
            marker: option_model(self.marker),
        }
    }
}

/// The cursor that the fields of an object hold.
pub open spec fn pagination_info_from_fields(fields: Map<Seq<char>, JsonModel>) -> Result<
    PaginationInfoModel,
    DecodeErrorModel,
> {
    let limit = optional::<i64>(fields, "limit"@);
    let marker = optional::<Value>(fields, "marker"@);
    if limit is Err {
        Err(limit->Err_0)
    } else if marker is Err {
        Err(marker->Err_0)
    } else {
        Ok(PaginationInfoModel { limit: limit->Ok_0, marker: marker->Ok_0 })
    }
}

impl Codec for PaginationInfo {
    type Model = PaginationInfoModel;

    open spec fn model(&self) -> PaginationInfoModel {
        self@
    }

    open spec fn encoding(m: PaginationInfoModel) -> JsonModel {
        JsonModel::Object(
            empty_object().insert("limit"@, optional_encoding::<i64>(m.limit)).insert(
                "marker"@,
                optional_encoding::<Value>(m.marker),
            ),
        )
    }

    open spec fn decoding(j: JsonModel) -> Result<PaginationInfoModel, DecodeErrorModel> {
        match j {
            JsonModel::Object(fields) => pagination_info_from_fields(fields),
            _ => Err(DecodeErrorModel::ShapeMismatch),
        }
    }

    fn encode(&self) -> (v: Value) {
        let mut fields = object_new();
        write_optional(&mut fields, "limit", &self.limit);
        write_optional(&mut fields, "marker", &self.marker);
        object_value(fields)
    }

    fn decode(v: &Value) -> (r: Result<PaginationInfo, DecodeError>) {
        let fields = match value_as_object(v) {
            Some(m) => m,
            None => {
                return Err(DecodeError::ShapeMismatch);
            },
        };
        let limit: Option<i64> = match read_optional::<i64>(fields, "limit") {
            Ok(x) => x,
            Err(e) => {
                return Err(e);
            },
        };
        let marker: Option<Value> = match read_optional::<Value>(fields, "marker") {
            Ok(x) => x,
            Err(e) => {
                return Err(e);
            },
        };
        Ok(PaginationInfo { limit, marker })
    }
}

/// The common shape of a server's error object.
#[derive(Debug, Clone)]
pub struct Error {
    /// The code of the error.
    pub error: Option<String>,
}

/// The mathematical content of an [`Error`].
pub struct ErrorModel {
    pub error: Option<Seq<char>>,
}

impl View for Error {
    type V = ErrorModel;

    open spec fn view(&self) -> ErrorModel {
        ErrorModel { error: option_model(self.error) }
    }
}

impl Codec for Error {
    type Model = ErrorModel;

    open spec fn model(&self) -> ErrorModel {
        self@
    }

    open spec fn encoding(m: ErrorModel) -> JsonModel {
        JsonModel::Object(empty_object().insert("error"@, optional_encoding::<String>(m.error)))
    }

    open spec fn decoding(j: JsonModel) -> Result<ErrorModel, DecodeErrorModel> {
        match j {
            JsonModel::Object(fields) => match optional::<String>(fields, "error"@) {
                Ok(error) => Ok(ErrorModel { error }),
                Err(e) => Err(e),
            },
            _ => Err(DecodeErrorModel::ShapeMismatch),
        }
    }

    fn encode(&self) -> (v: Value) {
        let mut fields = object_new();
        write_optional(&mut fields, "error", &self.error);
        object_value(fields)
    }

    fn decode(v: &Value) -> (r: Result<Error, DecodeError>) {
        let fields = match value_as_object(v) {
            Some(m) => m,
            None => {
                return Err(DecodeError::ShapeMismatch);
            },
        };
        match read_optional::<String>(fields, "error") {
            Ok(error) => Ok(Error { error }),
            Err(e) => Err(e),
        }
    }
}

/// The request for one transaction of one ledger.
#[derive(Default, Debug, Eq, PartialEq)]
pub struct TransactionEntryRequest {
    /// The hash of the transaction.
    pub tx_hash: Option<String>,
    /// The index of the ledger.
    pub ledger_index: Option<u64>,
    /// The hash of the ledger.
    pub ledger_hash: Option<String>,
}

/// The mathematical content of a [`TransactionEntryRequest`].
pub struct TransactionEntryRequestModel {
    pub tx_hash: Option<Seq<char>>,
    pub ledger_index: Option<u64>,
    pub ledger_hash: Option<Seq<char>>,
}

impl View for TransactionEntryRequest {
    type V = TransactionEntryRequestModel;

    open spec fn view(&self) -> TransactionEntryRequestModel {
        TransactionEntryRequestModel {
            tx_hash: option_model(self.tx_hash),
            ledger_index: option_model(self.ledger_index),
            ledger_hash: option_model(self.ledger_hash),
        }
    }
}

/// The request that the fields of an object hold.
pub open spec fn transaction_entry_request_from_fields(
    fields: Map<Seq<char>, JsonModel>,
) -> Result<TransactionEntryRequestModel, DecodeErrorModel> {
    let tx_hash = optional::<String>(fields, "tx_hash"@);
    let ledger_index = optional::<u64>(fields, "ledger_index"@);
    let ledger_hash = optional::<String>(fields, "ledger_hash"@);
    if tx_hash is Err {
        Err(tx_hash->Err_0)
    } else if ledger_index is Err {
        Err(ledger_index->Err_0)
    } else if ledger_hash is Err {
        Err(ledger_hash->Err_0)
    } else {
        Ok(
            TransactionEntryRequestModel {
                tx_hash: tx_hash->Ok_0,
                ledger_index: ledger_index->Ok_0,
                ledger_hash: ledger_hash->Ok_0,
            },
        )
    }
}

impl Codec for TransactionEntryRequest {
    type Model = TransactionEntryRequestModel;

    open spec fn model(&self) -> TransactionEntryRequestModel {
        self@
    }

    open spec fn encoding(m: TransactionEntryRequestModel) -> JsonModel {
        JsonModel::Object(
            empty_object().insert("tx_hash"@, optional_encoding::<String>(m.tx_hash)).insert(
                "ledger_index"@,
                optional_encoding::<u64>(m.ledger_index),
            ).insert("ledger_hash"@, optional_encoding::<String>(m.ledger_hash)),
        )
    }

    open spec fn decoding(j: JsonModel) -> Result<
        TransactionEntryRequestModel,
        DecodeErrorModel,
    > {
        match j {
            JsonModel::Object(fields) => transaction_entry_request_from_fields(fields),
            _ => Err(DecodeErrorModel::ShapeMismatch),
        }
    }

    fn encode(&self) -> (v: Value) {
        let mut fields = object_new();
        write_optional(&mut fields, "tx_hash", &self.tx_hash);
        write_optional(&mut fields, "ledger_index", &self.ledger_index);
        write_optional(&mut fields, "ledger_hash", &self.ledger_hash);
        object_value(fields)
    }

    fn decode(v: &Value) -> (r: Result<TransactionEntryRequest, DecodeError>) {
        let fields = match value_as_object(v) {
            Some(m) => m,
            None => {
                return Err(DecodeError::ShapeMismatch);
            },
        };
        let tx_hash: Option<String> = match read_optional::<String>(fields, "tx_hash") {
            Ok(x) => x,
            Err(e) => {
                return Err(e);
            },
        };
        let ledger_index: Option<u64> = match read_optional::<u64>(fields, "ledger_index") {
            Ok(x) => x,
            Err(e) => {
                return Err(e);
            },
        };
        let ledger_hash: Option<String> = match read_optional::<String>(fields, "ledger_hash") {
            Ok(x) => x,
            Err(e) => {
                return Err(e);
            },
        };
        Ok(TransactionEntryRequest { tx_hash, ledger_index, ledger_hash })
    }
}

/// The transaction that a [`TransactionEntryRequest`] asked for.
#[derive(Default, Debug, Eq, PartialEq)]
pub struct TransactionEntryResponse {
    /// The transaction, as the server sent it.
    pub tx_json: Option<Value>,
    /// The index of the ledger that holds the transaction.
    pub ledger_index: Option<u64>,
    /// The hash of that ledger.
    pub ledger_hash: Option<String>,
}

/// The mathematical content of a [`TransactionEntryResponse`].
pub struct TransactionEntryResponseModel {
    pub tx_json: Option<JsonModel>,
    pub ledger_index: Option<u64>,
    pub ledger_hash: Option<Seq<char>>,
}

impl View for TransactionEntryResponse {
    type V = TransactionEntryResponseModel;

    open spec fn view(&self) -> TransactionEntryResponseModel {
        TransactionEntryResponseModel {
            tx_json: option_model(self.tx_json),
            ledger_index: option_model(self.ledger_index),
            ledger_hash: option_model(self.ledger_hash),
        }
    }
}

/// The response that the fields of an object hold.
pub open spec fn transaction_entry_response_from_fields(
    fields: Map<Seq<char>, JsonModel>,
) -> Result<TransactionEntryResponseModel, DecodeErrorModel> {
    let tx_json = optional::<Value>(fields, "tx_json"@);
    let ledger_index = optional::<u64>(fields, "ledger_index"@);
    let ledger_hash = optional::<String>(fields, "ledger_hash"@);
    if tx_json is Err {
        Err(tx_json->Err_0)
    } else if ledger_index is Err {
        Err(ledger_index->Err_0)
    } else if ledger_hash is Err {
        Err(ledger_hash->Err_0)
    } else {
        Ok(
            TransactionEntryResponseModel {
                tx_json: tx_json->Ok_0,
                ledger_index: ledger_index->Ok_0,
                ledger_hash: ledger_hash->Ok_0,
            },
        )
    }
}

impl Codec for TransactionEntryResponse {
    type Model = TransactionEntryResponseModel;

    open spec fn model(&self) -> TransactionEntryResponseModel {
        self@
    }

    open spec fn encoding(m: TransactionEntryResponseModel) -> JsonModel {
        JsonModel::Object(
            empty_object().insert("tx_json"@, optional_encoding::<Value>(m.tx_json)).insert(
                "ledger_index"@,
                optional_encoding::<u64>(m.ledger_index),
            ).insert("ledger_hash"@, optional_encoding::<String>(m.ledger_hash)),
        )
    }

    open spec fn decoding(j: JsonModel) -> Result<
        TransactionEntryResponseModel,
        DecodeErrorModel,
    > {
        match j {
            JsonModel::Object(fields) => transaction_entry_response_from_fields(fields),
            _ => Err(DecodeErrorModel::ShapeMismatch),
        }
    }

    fn encode(&self) -> (v: Value) {
        let mut fields = object_new();
        write_optional(&mut fields, "tx_json", &self.tx_json);
        write_optional(&mut fields, "ledger_index", &self.ledger_index);
        write_optional(&mut fields, "ledger_hash", &self.ledger_hash);
        object_value(fields)
    }

    fn decode(v: &Value) -> (r: Result<TransactionEntryResponse, DecodeError>) {
        let fields = match value_as_object(v) {
            Some(m) => m,
            None => {
                return Err(DecodeError::ShapeMismatch);
            },
        };
        let tx_json: Option<Value> = match read_optional::<Value>(fields, "tx_json") {
            Ok(x) => x,
            Err(e) => {
                return Err(e);
            },
        };
        let ledger_index: Option<u64> = match read_optional::<u64>(fields, "ledger_index") {
            Ok(x) => x,
            Err(e) => {
                return Err(e);
            },
        };
        let ledger_hash: Option<String> = match read_optional::<String>(fields, "ledger_hash") {
            Ok(x) => x,
            Err(e) => {
                return Err(e);
            },
        };
        Ok(TransactionEntryResponse { tx_json, ledger_index, ledger_hash })
    }
}

/// The wire names of the records' fields differ from one another: each is
/// known by its length and one of its characters.
proof fn lemma_record_field_names()
    ensures
        "Number"@.len() == 6 && "Number"@[0] == 'N',
        "String"@.len() == 6 && "String"@[0] == 'S',
        "ledger_hash"@.len() == 11,
        "ledger_index"@.len() == 12,
        "ledger_current_index"@.len() == 20,
        "validated"@.len() == 9,
        "limit"@.len() == 5,
        "marker"@.len() == 6,
        "error"@.len() == 5,
        "tx_hash"@.len() == 7 && "tx_hash"@[3] == 'h',
        "tx_json"@.len() == 7 && "tx_json"@[3] == 'j',
{
    reveal_strlit("Number");
    reveal_strlit("String");
    reveal_strlit("ledger_hash");
    reveal_strlit("ledger_index");
    reveal_strlit("ledger_current_index");
    reveal_strlit("validated");
    reveal_strlit("limit");
    reveal_strlit("marker");
    reveal_strlit("error");
    reveal_strlit("tx_hash");
    reveal_strlit("tx_json");
}

/// Every request id decodes from its own encoding.
pub proof fn lemma_request_id_round_trip(id: RequestIdModel)
    ensures
        RequestId::decoding(RequestId::encoding(id)) == Ok::<RequestIdModel, DecodeErrorModel>(id),
        RequestId::encoding(id) is Object,
{
    lemma_record_field_names();
    let fields = RequestId::encoding(id)->Object_0;
    match id {
        RequestIdModel::Number(n) => {
            assert(fields.dom() =~= Set::empty().insert("Number"@));
        },
        RequestIdModel::String(t) => {
            assert(fields.dom() =~= Set::empty().insert("String"@));
        },
    }
}

/// Every ledger selection decodes from its own encoding.
pub proof fn lemma_ledger_info_round_trip(l: LedgerInfoModel)
    ensures
        LedgerInfo::decoding(LedgerInfo::encoding(l)) == Ok::<LedgerInfoModel, DecodeErrorModel>(
            l,
        ),
{
    lemma_record_field_names();
}

/// A cursor decodes from its own encoding, unless its marker is the JSON
/// value `null`: on the wire that marker is an absent one.
pub proof fn lemma_pagination_info_round_trip(p: PaginationInfoModel)
    requires
        p.marker != Some(JsonModel::Null),
    ensures
        PaginationInfo::decoding(PaginationInfo::encoding(p)) == Ok::<
            PaginationInfoModel,
            DecodeErrorModel,
        >(p),
{
    lemma_record_field_names();
}

/// Every error object of the common shape decodes from its own encoding.
pub proof fn lemma_error_round_trip(e: ErrorModel)
    ensures
        Error::decoding(Error::encoding(e)) == Ok::<ErrorModel, DecodeErrorModel>(e),
{
    lemma_record_field_names();
}

/// Every request for a transaction decodes from its own encoding.
pub proof fn lemma_transaction_entry_request_round_trip(t: TransactionEntryRequestModel)
    ensures
        TransactionEntryRequest::decoding(TransactionEntryRequest::encoding(t)) == Ok::<
            TransactionEntryRequestModel,
            DecodeErrorModel,
        >(t),
{
    lemma_record_field_names();
}

/// A looked-up transaction decodes from its own encoding, unless the
/// transaction is the JSON value `null`: on the wire that is an absent one.
pub proof fn lemma_transaction_entry_response_round_trip(t: TransactionEntryResponseModel)
    requires
        t.tx_json != Some(JsonModel::Null),
    ensures
        TransactionEntryResponse::decoding(TransactionEntryResponse::encoding(t)) == Ok::<
            TransactionEntryResponseModel,
            DecodeErrorModel,
        >(t),
{
    lemma_record_field_names();
}

} // verus!
