use serde_json::Value;
use xrpl_types::amount::{CurrencyAmount, Drops};
use xrpl_types::codec::{from_str, to_string, Codec};
use xrpl_types::error::DecodeError;
use xrpl_types::ledger::{Check, LedgerEntry};
use xrpl_types::records::{
    Error, LedgerInfo, PaginationInfo, RequestId, TransactionEntryRequest,
    TransactionEntryResponse,
};
use xrpl_types::response::{Response, Result as Outcome};

fn json(text: &str) -> Value {
    serde_json::from_str::<Value>(text).unwrap()
}

#[test]
fn response_with_error_result_yields_error_branch() {
    let v = json("{\"result\":{\"error\":\"actNotFound\"}}");
    let response = Response::<Check>::decode(&v).unwrap();
    match &response.result {
        Outcome::Error(e) => assert_eq!(*e, json("{\"error\":\"actNotFound\"}")),
        Outcome::Success(c) => panic!("decoded as a payload: {:?}", c),
    }
    assert_eq!(response.id, None);
    assert_eq!(response.status, None);
    assert_eq!(response.response_type, None);
    assert_eq!(response.warning, None);
    assert_eq!(response.warnings, None);
    assert_eq!(response.forwarded, None);
}

#[test]
fn response_error_object_reads_as_error_record() {
    let v = json("{\"result\":{\"error\":\"actNotFound\",\"error_code\":19}}");
    let response = Response::<CurrencyAmount>::decode(&v).unwrap();
    match response.result {
        Outcome::Error(e) => {
            let record = Error::decode(&e).unwrap();
            assert_eq!(record.error, Some("actNotFound".to_string()));
        }
        Outcome::Success(c) => panic!("decoded as a payload: {:?}", c),
    }
}

#[test]
fn response_with_payload_yields_success_branch() {
    let v = json(
        "{\"id\":{\"Number\":7},\"status\":\"success\",\"type\":\"response\",\
        \"result\":{\"Account\":\"rA\",\"Destination\":\"rB\",\"Flags\":0},\
        \"warning\":\"load\",\"warnings\":[{\"id\":1004,\"message\":\"x\"},\"y\"],\
        \"forwarded\":false}",
    );
    let response = Response::<Check>::decode(&v).unwrap();
    match &response.result {
        Outcome::Success(c) => assert_eq!(
            *c,
            Check { account: "rA".to_string(), destination: "rB".to_string(), flags: 0 }
        ),
        Outcome::Error(e) => panic!("decoded as an error: {}", e),
    }
    assert_eq!(response.id, Some(RequestId::Number(7)));
    assert_eq!(response.status, Some("success".to_string()));
    assert_eq!(response.response_type, Some("response".to_string()));
    assert_eq!(response.warning, Some("load".to_string()));
    assert_eq!(
        response.warnings,
        Some(vec![json("{\"id\":1004,\"message\":\"x\"}"), json("\"y\"")])
    );
    assert_eq!(response.forwarded, Some(false));
    assert_eq!(response.encode(), v);
}

#[test]
fn response_payload_is_tried_before_the_error_branch() {
    let v = json("{\"result\":{\"error\":\"actNotFound\"}}");
    let loose = Response::<TransactionEntryResponse>::decode(&v).unwrap();
    match loose.result {
        Outcome::Success(t) => assert_eq!(t, TransactionEntryResponse::default()),
        Outcome::Error(e) => panic!("decoded as an error: {}", e),
    }
    let entry = Response::<LedgerEntry>::decode(&v).unwrap();
    match entry.result {
        Outcome::Success(t) => assert_eq!(t, LedgerEntry::Unknown),
        Outcome::Error(e) => panic!("decoded as an error: {}", e),
    }
}

#[test]
fn response_error_branch_keeps_any_value() {
    for text in ["null", "17", "\"oops\"", "[1,2]", "{\"error\":\"x\",\"more\":{\"a\":[null]}}", "1.5"]
    {
        let v = json(&format!("{{\"result\":{}}}", text));
        let response = Response::<Check>::decode(&v).unwrap();
        match response.result {
            Outcome::Error(e) => assert_eq!(e, json(text)),
            Outcome::Success(c) => panic!("decoded as a payload: {:?}", c),
        }
    }
}

#[test]
fn response_malformed_payload_goes_to_the_error_branch() {
    let v = json("{\"result\":\"12x\"}");
    let response = Response::<Drops>::decode(&v).unwrap();
    match response.result {
        Outcome::Error(e) => assert_eq!(e, json("\"12x\"")),
        Outcome::Success(d) => panic!("decoded as a payload: {:?}", d),
    }
    let v = json("{\"result\":\"12\"}");
    let response = Response::<Drops>::decode(&v).unwrap();
    match response.result {
        Outcome::Success(d) => assert_eq!(d, Drops::new(12)),
        Outcome::Error(e) => panic!("decoded as an error: {}", e),
    }
}

#[test]
fn response_needs_result() {
    assert_eq!(
        Response::<Check>::decode(&json("{\"status\":\"success\"}")).err(),
        Some(DecodeError::ShapeMismatch)
    );
    assert_eq!(Response::<Value>::decode(&json("{}")).err(), Some(DecodeError::ShapeMismatch));
    assert_eq!(Response::<Value>::decode(&json("[]")).err(), Some(DecodeError::ShapeMismatch));
    let present = Response::<Value>::decode(&json("{\"result\":null}")).unwrap();
    match present.result {
        Outcome::Success(v) => assert_eq!(v, Value::Null),
        Outcome::Error(e) => panic!("decoded as an error: {}", e),
    }
}

#[test]
fn response_metadata_of_wrong_shape_fails() {
    for text in [
        "{\"id\":7,\"result\":{}}",
        "{\"status\":1,\"result\":{}}",
        "{\"type\":[],\"result\":{}}",
        "{\"warning\":{},\"result\":{}}",
        "{\"warnings\":\"load\",\"result\":{}}",
        "{\"forwarded\":\"yes\",\"result\":{}}",
    ] {
        assert_eq!(
            Response::<Value>::decode(&json(text)).err(),
            Some(DecodeError::ShapeMismatch),
            "{}",
            text
        );
    }
}

#[test]
fn response_null_metadata_is_absent() {
    let v = json(
        "{\"id\":null,\"status\":null,\"type\":null,\"result\":1,\"warning\":null,\
        \"warnings\":null,\"forwarded\":null}",
    );
    let response = Response::<u64>::decode(&v).unwrap();
    assert_eq!(response.id, None);
    assert_eq!(response.warnings, None);
    assert_eq!(response.forwarded, None);
    assert_eq!(response.encode(), v);
}

#[test]
fn response_round_trip_through_text() {
    let response = Response {
        id: Some(RequestId::String("abc".to_string())),
        status: Some("success".to_string()),
        response_type: Some("response".to_string()),
        result: Outcome::Success(CurrencyAmount::XRP(Drops::new(1))),
        warning: None,
        warnings: Some(vec![]),
        forwarded: Some(true),
    };
    let text = to_string(&response);
    assert_eq!(
        text,
        "{\"forwarded\":true,\"id\":{\"String\":\"abc\"},\"result\":\"1\",\"status\":\"success\",\
        \"type\":\"response\",\"warning\":null,\"warnings\":[]}"
    );
    let back = from_str::<Response<CurrencyAmount>>(&text).unwrap();
    assert_eq!(back.encode(), response.encode());
    assert_eq!(back.id, Some(RequestId::String("abc".to_string())));
    assert_eq!(back.warnings, Some(vec![]));
    assert_eq!(from_str::<Response<Value>>("{\"result\":").err(), Some(DecodeError::Syntax));
}

#[test]
fn response_clone_keeps_every_field() {
    let response = Response {
        id: Some(RequestId::Number(1)),
        status: None,
        response_type: None,
        result: Outcome::<Drops>::Error(json("{\"error\":[1,{\"a\":null}]}")),
        warning: Some("load".to_string()),
        warnings: Some(vec![json("1.5"), json("{}")]),
        forwarded: None,
    };
    let copy = response.clone();
    assert_eq!(copy.encode(), response.encode());
    assert_eq!(
        copy.encode(),
        json(
            "{\"id\":{\"Number\":1},\"status\":null,\"type\":null,\
            \"result\":{\"error\":[1,{\"a\":null}]},\"warning\":\"load\",\
            \"warnings\":[1.5,{}],\"forwarded\":null}"
        )
    );
}

#[test]
fn result_encode_by_branch() {
    let success: Outcome<Drops> = Outcome::Success(Drops::new(3));
    assert_eq!(success.encode(), json("\"3\""));
    let error: Outcome<Drops> = Outcome::Error(json("{\"error\":\"x\"}"));
    assert_eq!(error.encode(), json("{\"error\":\"x\"}"));
    match Outcome::<Drops>::decode(&error.encode()).unwrap() {
        Outcome::Error(e) => assert_eq!(e, json("{\"error\":\"x\"}")),
        Outcome::Success(d) => panic!("decoded as a payload: {:?}", d),
    }
}

#[test]
fn request_id_wire_form() {
    assert_eq!(RequestId::Number(5).encode(), json("{\"Number\":5}"));
    assert_eq!(RequestId::String("h".to_string()).encode(), json("{\"String\":\"h\"}"));
    assert_eq!(RequestId::decode(&json("{\"Number\":18446744073709551615}")), Ok(RequestId::Number(u64::MAX)));
    assert_eq!(RequestId::decode(&json("{\"String\":\"\"}")), Ok(RequestId::String(String::new())));
}

#[test]
fn request_id_rejects_other_shapes() {
    for text in [
        "5",
        "\"h\"",
        "{}",
        "{\"Number\":5,\"String\":\"h\"}",
        "{\"Number\":5,\"other\":1}",
        "{\"Number\":\"5\"}",
        "{\"Number\":-5}",
        "{\"String\":5}",
        "{\"number\":5}",
        "[5]",
        "null",
    ] {
        assert_eq!(RequestId::decode(&json(text)), Err(DecodeError::ShapeMismatch), "{}", text);
    }
}

#[test]
fn ledger_info_fields_are_independent() {
    assert_eq!(LedgerInfo::decode(&json("{}")), Ok(LedgerInfo::default()));
    assert_eq!(
        LedgerInfo::decode(&json("{\"ledger_index\":-3}")),
        Ok(LedgerInfo { ledger_index: Some(-3), ..LedgerInfo::default() })
    );
    assert_eq!(
        LedgerInfo::decode(&json(
            "{\"ledger_hash\":\"AB\",\"ledger_index\":9223372036854775807,\
            \"ledger_current_index\":-9223372036854775808,\"validated\":true}"
        )),
        Ok(LedgerInfo {
            ledger_hash: Some("AB".to_string()),
            ledger_index: Some(i64::MAX),
            ledger_current_index: Some(i64::MIN),
            validated: Some(true),
        })
    );
    assert_eq!(
        LedgerInfo::decode(&json("{\"ledger_index\":9223372036854775808}")),
        Err(DecodeError::ShapeMismatch)
    );
    assert_eq!(
        LedgerInfo::decode(&json("{\"ledger_index\":\"validated\"}")),
        Err(DecodeError::ShapeMismatch)
    );
    assert_eq!(
        LedgerInfo::decode(&json("{\"validated\":0}")),
        Err(DecodeError::ShapeMismatch)
    );
}

#[test]
fn ledger_info_round_trip() {
    let info = LedgerInfo {
        ledger_hash: Some(String::new()),
        ledger_index: Some(0),
        ledger_current_index: Some(-1),
        validated: Some(false),
    };
    assert_eq!(
        info.encode(),
        json(
            "{\"ledger_hash\":\"\",\"ledger_index\":0,\"ledger_current_index\":-1,\
            \"validated\":false}"
        )
    );
    assert_eq!(LedgerInfo::decode(&info.encode()), Ok(info));
    assert_eq!(
        LedgerInfo::default().encode(),
        json(
            "{\"ledger_hash\":null,\"ledger_index\":null,\"ledger_current_index\":null,\
            \"validated\":null}"
        )
    );
    assert_eq!(LedgerInfo::decode(&LedgerInfo::default().encode()), Ok(LedgerInfo::default()));
}

#[test]
fn pagination_marker_is_carried_as_it_came() {
    let text = "{\"limit\":200,\"marker\":{\"ledger\":5,\"seq\":[1,2.5,\"x\",null,true]}}";
    let page = PaginationInfo::decode(&json(text)).unwrap();
    assert_eq!(page.limit, Some(200));
    assert_eq!(page.marker, Some(json("{\"ledger\":5,\"seq\":[1,2.5,\"x\",null,true]}")));
    assert_eq!(page.encode(), json(text));
    assert_eq!(PaginationInfo::decode(&page.encode()), Ok(page));
}

#[test]
fn pagination_null_marker_is_absent() {
    let page = PaginationInfo { limit: None, marker: Some(Value::Null) };
    assert_eq!(page.encode(), json("{\"limit\":null,\"marker\":null}"));
    assert_eq!(PaginationInfo::decode(&page.encode()), Ok(PaginationInfo::default()));
    assert_eq!(
        PaginationInfo::decode(&json("{\"limit\":\"10\"}")),
        Err(DecodeError::ShapeMismatch)
    );
}

#[test]
fn transaction_entry_records() {
    let request = TransactionEntryRequest {
        tx_hash: Some("C53E".to_string()),
        ledger_index: Some(56865245),
        ledger_hash: None,
    };
    assert_eq!(
        request.encode(),
        json("{\"tx_hash\":\"C53E\",\"ledger_index\":56865245,\"ledger_hash\":null}")
    );
    assert_eq!(TransactionEntryRequest::decode(&request.encode()), Ok(request));
    let text = "{\"tx_json\":{\"Account\":\"rA\",\"Fee\":\"12\"},\"ledger_index\":56865245,\
        \"ledger_hash\":\"793E\"}";
    let response = TransactionEntryResponse::decode(&json(text)).unwrap();
    assert_eq!(response.tx_json, Some(json("{\"Account\":\"rA\",\"Fee\":\"12\"}")));
    assert_eq!(response.ledger_index, Some(56865245));
    assert_eq!(response.ledger_hash, Some("793E".to_string()));
    assert_eq!(response.encode(), json(text));
    assert_eq!(
        TransactionEntryRequest::decode(&json("{\"ledger_index\":-1}")),
        Err(DecodeError::ShapeMismatch)
    );
    assert_eq!(
        TransactionEntryResponse::decode(&json("\"tx\"")),
        Err(DecodeError::ShapeMismatch)
    );
}

#[test]
fn error_record() {
    assert_eq!(Error::decode(&json("{}")).unwrap().error, None);
    assert_eq!(
        Error::decode(&json("{\"error\":\"noNetwork\"}")).unwrap().error,
        Some("noNetwork".to_string())
    );
    assert_eq!(Error::decode(&json("{\"error\":5}")).err(), Some(DecodeError::ShapeMismatch));
    assert_eq!(Error { error: None }.encode(), json("{\"error\":null}"));
    assert_eq!(
        Error { error: Some("x".to_string()) }.encode(),
        json("{\"error\":\"x\"}")
    );
}

#[test]
fn basic_codecs() {
    assert_eq!(true.encode(), json("true"));
    assert_eq!(bool::decode(&json("false")), Ok(false));
    assert_eq!(bool::decode(&json("0")), Err(DecodeError::ShapeMismatch));
    assert_eq!(255u8.encode(), json("255"));
    assert_eq!(u8::decode(&json("255")), Ok(255));
    assert_eq!(u8::decode(&json("256")), Err(DecodeError::ShapeMismatch));
    assert_eq!(65535u16.encode(), json("65535"));
    assert_eq!(u16::decode(&json("65536")), Err(DecodeError::ShapeMismatch));
    assert_eq!(u32::decode(&json("4294967295")), Ok(u32::MAX));
    assert_eq!(u64::MAX.encode(), json("18446744073709551615"));
    assert_eq!(u64::decode(&json("18446744073709551615")), Ok(u64::MAX));
    assert_eq!(u64::decode(&json("18446744073709551616")), Err(DecodeError::ShapeMismatch));
    assert_eq!(u64::decode(&json("-0")), Err(DecodeError::ShapeMismatch));
    assert_eq!((-5i64).encode(), json("-5"));
    assert_eq!(5i64.encode(), json("5"));
    assert_eq!(i64::decode(&json("-9223372036854775808")), Ok(i64::MIN));
    assert_eq!(i64::decode(&json("-9223372036854775809")), Err(DecodeError::ShapeMismatch));
    assert_eq!("a\"b".to_string().encode(), json("\"a\\\"b\""));
    assert_eq!(String::decode(&json("\"\\u00e9\"")), Ok("\u{e9}".to_string()));
    assert_eq!(String::decode(&json("1")), Err(DecodeError::ShapeMismatch));
    assert_eq!(vec![1u32, 2, 3].encode(), json("[1,2,3]"));
    assert_eq!(Vec::<u32>::decode(&json("[1,2,3]")), Ok(vec![1, 2, 3]));
    assert_eq!(Vec::<u32>::decode(&json("[]")), Ok(vec![]));
    assert_eq!(Vec::<u32>::decode(&json("[1,\"2\",3]")), Err(DecodeError::ShapeMismatch));
    assert_eq!(Vec::<u32>::decode(&json("{}")), Err(DecodeError::ShapeMismatch));
    assert_eq!(
        Vec::<Drops>::decode(&json("[\"1\",\"x\",2]")).err().map(|e| e.message()),
        Some("malformed amount `x`: invalid digit found in string".to_string())
    );
    assert_eq!(Value::decode(&json("{\"a\":[1]}")), Ok(json("{\"a\":[1]}")));
    assert_eq!(json("{\"a\":[1]}").encode(), json("{\"a\":[1]}"));
}
