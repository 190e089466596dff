use serde_json::Value;
use xrpl_types::amount::{CurrencyAmount, Drops, IssuedCurrencyAmount};
use xrpl_types::codec::{from_str, to_string, Codec};
use xrpl_types::decimal::ParseAmountError;
use xrpl_types::error::DecodeError;
use xrpl_types::ledger::{AccountRoot, Check, LedgerEntry, SignerEntry, SignerList};

fn json(text: &str) -> Value {
    serde_json::from_str::<Value>(text).unwrap()
}

const MINIMAL_ACCOUNT: &str = "{\"LedgerEntryType\":\"AccountRoot\",\"Account\":\"rX\",\"Balance\":\"500\",\"Flags\":0,\"OwnerCount\":0,\"PreviousTxnID\":\"ABCD\",\"PreviousTxnLgrSeq\":1,\"Sequence\":1}";

fn minimal_account() -> AccountRoot {
    AccountRoot {
        account: "rX".to_string(),
        balance: CurrencyAmount::XRP(Drops::new(500)),
        flags: 0,
        owner_count: 0,
        previous_txn_id: "ABCD".to_string(),
        previous_txn_lgr_seq: 1,
        sequence: 1,
        account_txn_id: None,
        domain: None,
        email_hash: None,
        message_key: None,
        regular_key: None,
        ticket_count: None,
        tick_size: None,
        transfer_rate: None,
    }
}

fn full_account() -> AccountRoot {
    AccountRoot {
        account: "rf1BiGeXwwQoi8Z2ueFYTEXSwuJYfV2Jpn".to_string(),
        balance: CurrencyAmount::XRP(Drops::new(148446663)),
        flags: 8388608,
        owner_count: 3,
        previous_txn_id: "0D5FB50FA65C9FE1538FD7E398FFFE9D1908DFA4576D8D7A020040686F93C77D"
            .to_string(),
        previous_txn_lgr_seq: 14091160,
        sequence: 336,
        account_txn_id: Some(
            "0D5FB50FA65C9FE1538FD7E398FFFE9D1908DFA4576D8D7A020040686F93C77D".to_string(),
        ),
        domain: Some("6D64756F31332E636F6D".to_string()),
        email_hash: Some("98B4375E1D753E5B91627516F6D70977".to_string()),
        message_key: Some(
            "0000000000000000000000070000000300000000000000000000000000000000".to_string(),
        ),
        regular_key: Some(String::new()),
        ticket_count: Some(0),
        tick_size: Some(15),
        transfer_rate: Some(4294967295),
    }
}

#[test]
fn account_root_decodes_with_optional_fields_absent() {
    let entry = LedgerEntry::decode(&json(MINIMAL_ACCOUNT)).unwrap();
    match &entry {
        LedgerEntry::AccountRoot(a) => {
            assert_eq!(a.balance, CurrencyAmount::XRP(Drops::new(500)));
            assert_eq!(a.account, "rX");
            assert_eq!(a.flags, 0);
            assert_eq!(a.owner_count, 0);
            assert_eq!(a.previous_txn_id, "ABCD");
            assert_eq!(a.previous_txn_lgr_seq, 1);
            assert_eq!(a.sequence, 1);
            assert_eq!(a.account_txn_id, None);
            assert_eq!(a.domain, None);
            assert_eq!(a.email_hash, None);
            assert_eq!(a.message_key, None);
            assert_eq!(a.regular_key, None);
            assert_eq!(a.ticket_count, None);
            assert_eq!(a.tick_size, None);
            assert_eq!(a.transfer_rate, None);
        }
        other => panic!("decoded as {:?}", other),
    }
    assert_eq!(entry, LedgerEntry::AccountRoot(minimal_account()));
}

#[test]
fn account_root_decodes_every_field_by_its_wire_name() {
    let text = "{\"LedgerEntryType\":\"AccountRoot\",\
        \"Account\":\"rf1BiGeXwwQoi8Z2ueFYTEXSwuJYfV2Jpn\",\
        \"Balance\":\"148446663\",\
        \"Flags\":8388608,\
        \"OwnerCount\":3,\
        \"PreviousTxnID\":\"0D5FB50FA65C9FE1538FD7E398FFFE9D1908DFA4576D8D7A020040686F93C77D\",\
        \"PreviousTxnLgrSeq\":14091160,\
        \"Sequence\":336,\
        \"AccountTxnID\":\"0D5FB50FA65C9FE1538FD7E398FFFE9D1908DFA4576D8D7A020040686F93C77D\",\
        \"Domain\":\"6D64756F31332E636F6D\",\
        \"EmailHash\":\"98B4375E1D753E5B91627516F6D70977\",\
        \"MessageKey\":\"0000000000000000000000070000000300000000000000000000000000000000\",\
        \"RegularKey\":\"\",\
        \"TicketCount\":0,\
        \"TickSize\":15,\
        \"TransferRate\":4294967295,\
        \"index\":\"13F1A95D7AAB7108D5CE7EEAF504B2894B8C674E6D68499076441C4837282BF8\"}";
    assert_eq!(LedgerEntry::decode(&json(text)), Ok(LedgerEntry::AccountRoot(full_account())));
    assert_eq!(AccountRoot::decode(&json(text)), Ok(full_account()));
}

#[test]
fn account_root_present_but_empty_is_not_absent() {
    let a = full_account();
    assert_eq!(a.regular_key, Some(String::new()));
    assert_eq!(a.ticket_count, Some(0));
    let decoded = AccountRoot::decode(&a.encode()).unwrap();
    assert_eq!(decoded.regular_key, Some(String::new()));
    assert_eq!(decoded.ticket_count, Some(0));
    assert_ne!(decoded.regular_key, None);
}

#[test]
fn account_root_null_field_is_absent() {
    let text = "{\"Account\":\"rX\",\"Balance\":\"500\",\"Flags\":0,\"OwnerCount\":0,\
        \"PreviousTxnID\":\"ABCD\",\"PreviousTxnLgrSeq\":1,\"Sequence\":1,\
        \"Domain\":null,\"TickSize\":null}";
    assert_eq!(AccountRoot::decode(&json(text)), Ok(minimal_account()));
}

#[test]
fn account_root_wire_names_are_exact() {
    let text = "{\"LedgerEntryType\":\"AccountRoot\",\"account\":\"rX\",\"Balance\":\"500\",\
        \"Flags\":0,\"OwnerCount\":0,\"PreviousTxnID\":\"ABCD\",\"PreviousTxnLgrSeq\":1,\
        \"Sequence\":1}";
    assert_eq!(LedgerEntry::decode(&json(text)), Err(DecodeError::ShapeMismatch));
    let text = "{\"LedgerEntryType\":\"AccountRoot\",\"Account\":\"rX\",\"Balance\":\"500\",\
        \"Flags\":0,\"OwnerCount\":0,\"PreviousTxnId\":\"ABCD\",\"PreviousTxnLgrSeq\":1,\
        \"Sequence\":1}";
    assert_eq!(LedgerEntry::decode(&json(text)), Err(DecodeError::ShapeMismatch));
    let text = "{\"Account\":\"rX\",\"Balance\":\"500\",\"Flags\":0,\"OwnerCount\":0,\
        \"PreviousTxnID\":\"ABCD\",\"PreviousTxnLgrSeq\":1,\"Sequence\":1,\
        \"AccountTxnId\":\"FF\",\"AccountTxnID\":\"EE\"}";
    assert_eq!(AccountRoot::decode(&json(text)).unwrap().account_txn_id, Some("EE".to_string()));
}

#[test]
fn account_root_missing_required_field_fails() {
    for name in [
        "Account",
        "Balance",
        "Flags",
        "OwnerCount",
        "PreviousTxnID",
        "PreviousTxnLgrSeq",
        "Sequence",
    ] {
        let mut v = json(MINIMAL_ACCOUNT);
        v.as_object_mut().unwrap().remove(name);
        assert_eq!(LedgerEntry::decode(&v), Err(DecodeError::ShapeMismatch), "without {}", name);
        let mut v = json(MINIMAL_ACCOUNT);
        v.as_object_mut().unwrap().insert(name.to_string(), Value::Null);
        assert_eq!(LedgerEntry::decode(&v), Err(DecodeError::ShapeMismatch), "null {}", name);
    }
}

#[test]
fn account_root_malformed_balance_fails_the_entry() {
    let mut v = json(MINIMAL_ACCOUNT);
    v.as_object_mut().unwrap().insert("Balance".to_string(), Value::String("abc".to_string()));
    assert_eq!(
        LedgerEntry::decode(&v),
        Err(DecodeError::MalformedAmount {
            text: "abc".to_string(),
            reason: ParseAmountError::InvalidDigit
        })
    );
    let mut v = json(MINIMAL_ACCOUNT);
    v.as_object_mut().unwrap().insert("Balance".to_string(), json("500"));
    assert_eq!(LedgerEntry::decode(&v), Err(DecodeError::ShapeMismatch));
}

#[test]
fn account_root_first_failing_field_decides() {
    let text = "{\"Account\":\"rX\",\"Balance\":\"\",\"Flags\":\"0\",\"OwnerCount\":0,\
        \"PreviousTxnID\":\"ABCD\",\"PreviousTxnLgrSeq\":1,\"Sequence\":1}";
    assert_eq!(
        AccountRoot::decode(&json(text)),
        Err(DecodeError::MalformedAmount { text: String::new(), reason: ParseAmountError::Empty })
    );
    let text = "{\"Account\":7,\"Balance\":\"\",\"Flags\":\"0\",\"OwnerCount\":0,\
        \"PreviousTxnID\":\"ABCD\",\"PreviousTxnLgrSeq\":1,\"Sequence\":1}";
    assert_eq!(AccountRoot::decode(&json(text)), Err(DecodeError::ShapeMismatch));
}

#[test]
fn account_root_numbers_must_fit_their_fields() {
    let mut v = json(MINIMAL_ACCOUNT);
    v.as_object_mut().unwrap().insert("Flags".to_string(), json("4294967295"));
    assert_eq!(AccountRoot::decode(&v).unwrap().flags, 4294967295);
    for bad in ["4294967296", "-1", "1.0", "\"1\"", "true", "1e2"] {
        let mut v = json(MINIMAL_ACCOUNT);
        v.as_object_mut().unwrap().insert("Flags".to_string(), json(bad));
        assert_eq!(AccountRoot::decode(&v), Err(DecodeError::ShapeMismatch), "Flags {}", bad);
    }
    let mut v = json(MINIMAL_ACCOUNT);
    v.as_object_mut().unwrap().insert("TickSize".to_string(), json("255"));
    assert_eq!(AccountRoot::decode(&v).unwrap().tick_size, Some(255));
    let mut v = json(MINIMAL_ACCOUNT);
    v.as_object_mut().unwrap().insert("TickSize".to_string(), json("256"));
    assert_eq!(AccountRoot::decode(&v), Err(DecodeError::ShapeMismatch));
}

#[test]
fn account_root_with_issued_balance() {
    let mut v = json(MINIMAL_ACCOUNT);
    v.as_object_mut().unwrap().insert(
        "Balance".to_string(),
        json("{\"value\":\"10\",\"currency\":\"USD\",\"issuer\":\"rI\"}"),
    );
    let decoded = AccountRoot::decode(&v).unwrap();
    assert_eq!(
        decoded.balance,
        CurrencyAmount::IssuedCurrency(IssuedCurrencyAmount {
            value: "10".to_string(),
            currency: "USD".to_string(),
            issuer: "rI".to_string(),
        })
    );
    assert_eq!(AccountRoot::decode(&decoded.encode()), Ok(decoded));
}

#[test]
fn account_root_encode_writes_wire_names() {
    let expected = json(
        "{\"Account\":\"rX\",\"Balance\":\"500\",\"Flags\":0,\"OwnerCount\":0,\
        \"PreviousTxnID\":\"ABCD\",\"PreviousTxnLgrSeq\":1,\"Sequence\":1,\
        \"AccountTxnID\":null,\"Domain\":null,\"EmailHash\":null,\"MessageKey\":null,\
        \"RegularKey\":null,\"TicketCount\":null,\"TickSize\":null,\"TransferRate\":null}",
    );
    assert_eq!(minimal_account().encode(), expected);
    let mut tagged = expected;
    tagged
        .as_object_mut()
        .unwrap()
        .insert("LedgerEntryType".to_string(), Value::String("AccountRoot".to_string()));
    assert_eq!(LedgerEntry::AccountRoot(minimal_account()).encode(), tagged);
}

#[test]
fn account_root_encode_full() {
    let expected = json(
        "{\"Account\":\"rf1BiGeXwwQoi8Z2ueFYTEXSwuJYfV2Jpn\",\
        \"Balance\":\"148446663\",\
        \"Flags\":8388608,\
        \"OwnerCount\":3,\
        \"PreviousTxnID\":\"0D5FB50FA65C9FE1538FD7E398FFFE9D1908DFA4576D8D7A020040686F93C77D\",\
        \"PreviousTxnLgrSeq\":14091160,\
        \"Sequence\":336,\
        \"AccountTxnID\":\"0D5FB50FA65C9FE1538FD7E398FFFE9D1908DFA4576D8D7A020040686F93C77D\",\
        \"Domain\":\"6D64756F31332E636F6D\",\
        \"EmailHash\":\"98B4375E1D753E5B91627516F6D70977\",\
        \"MessageKey\":\"0000000000000000000000070000000300000000000000000000000000000000\",\
        \"RegularKey\":\"\",\
        \"TicketCount\":0,\
        \"TickSize\":15,\
        \"TransferRate\":4294967295}",
    );
    assert_eq!(full_account().encode(), expected);
}

#[test]
fn unknown_entry_type_decodes_as_unknown() {
    let text = "{\"LedgerEntryType\":\"SomeFutureType\",\"Account\":\"rX\",\"Whatever\":[1,2,3]}";
    assert_eq!(LedgerEntry::decode(&json(text)), Ok(LedgerEntry::Unknown));
    assert_eq!(
        LedgerEntry::decode(&json("{\"LedgerEntryType\":\"SomeFutureType\"}")),
        Ok(LedgerEntry::Unknown)
    );
    assert_eq!(
        LedgerEntry::decode(&json("{\"LedgerEntryType\":\"accountroot\"}")),
        Ok(LedgerEntry::Unknown)
    );
    assert_eq!(
        LedgerEntry::decode(&json("{\"LedgerEntryType\":\"AccountRoot \"}")),
        Ok(LedgerEntry::Unknown)
    );
    assert_eq!(
        LedgerEntry::decode(&json("{\"LedgerEntryType\":\"Chec\"}")),
        Ok(LedgerEntry::Unknown)
    );
    assert_eq!(
        LedgerEntry::decode(&json("{\"LedgerEntryType\":\"Unknown\"}")),
        Ok(LedgerEntry::Unknown)
    );
}

#[test]
fn missing_or_odd_entry_type_decodes_as_unknown() {
    assert_eq!(LedgerEntry::decode(&json("{}")), Ok(LedgerEntry::Unknown));
    assert_eq!(LedgerEntry::decode(&json("{\"Account\":\"rX\"}")), Ok(LedgerEntry::Unknown));
    assert_eq!(LedgerEntry::decode(&json("{\"LedgerEntryType\":7}")), Ok(LedgerEntry::Unknown));
    assert_eq!(LedgerEntry::decode(&json("{\"LedgerEntryType\":null}")), Ok(LedgerEntry::Unknown));
    assert_eq!(
        LedgerEntry::decode(&json("{\"ledgerentrytype\":\"AccountRoot\"}")),
        Ok(LedgerEntry::Unknown)
    );
}

#[test]
fn ledger_entry_must_be_an_object() {
    assert_eq!(LedgerEntry::decode(&json("\"AccountRoot\"")), Err(DecodeError::ShapeMismatch));
    assert_eq!(LedgerEntry::decode(&json("null")), Err(DecodeError::ShapeMismatch));
    assert_eq!(LedgerEntry::decode(&json("[]")), Err(DecodeError::ShapeMismatch));
    assert_eq!(AccountRoot::decode(&json("[]")), Err(DecodeError::ShapeMismatch));
    assert_eq!(Check::decode(&json("1")), Err(DecodeError::ShapeMismatch));
}

#[test]
fn known_entry_type_with_bad_fields_fails() {
    assert_eq!(
        LedgerEntry::decode(&json("{\"LedgerEntryType\":\"AccountRoot\"}")),
        Err(DecodeError::ShapeMismatch)
    );
    assert_eq!(
        LedgerEntry::decode(&json("{\"LedgerEntryType\":\"Check\",\"Account\":\"rA\"}")),
        Err(DecodeError::ShapeMismatch)
    );
}

#[test]
fn ledger_entry_default_is_unknown() {
    assert_eq!(LedgerEntry::default(), LedgerEntry::Unknown);
}

#[test]
fn unknown_entry_encodes_as_placeholder() {
    assert_eq!(LedgerEntry::Unknown.encode(), json("{\"LedgerEntryType\":\"Unknown\"}"));
    assert_eq!(LedgerEntry::decode(&LedgerEntry::Unknown.encode()), Ok(LedgerEntry::Unknown));
}

#[test]
fn check_decodes_and_encodes() {
    let text =
        "{\"LedgerEntryType\":\"Check\",\"Account\":\"rA\",\"Destination\":\"rB\",\"Flags\":65536}";
    let check =
        Check { account: "rA".to_string(), destination: "rB".to_string(), flags: 65536 };
    assert_eq!(
        LedgerEntry::decode(&json(text)),
        Ok(LedgerEntry::Check(Check {
            account: "rA".to_string(),
            destination: "rB".to_string(),
            flags: 65536
        }))
    );
    assert_eq!(LedgerEntry::Check(check).encode(), json(text));
    assert_eq!(
        to_string(&LedgerEntry::decode(&json(text)).unwrap()),
        "{\"Account\":\"rA\",\"Destination\":\"rB\",\"Flags\":65536,\"LedgerEntryType\":\"Check\"}"
    );
}

#[test]
fn ledger_entry_round_trip() {
    let entries = vec![
        LedgerEntry::AccountRoot(minimal_account()),
        LedgerEntry::AccountRoot(full_account()),
        LedgerEntry::Check(Check {
            account: "rA".to_string(),
            destination: "rB".to_string(),
            flags: 0,
        }),
        LedgerEntry::Check(Check {
            account: String::new(),
            destination: String::new(),
            flags: 4294967295,
        }),
    ];
    for entry in entries {
        let encoded = entry.encode();
        assert_eq!(LedgerEntry::decode(&encoded), Ok(entry));
        let again = LedgerEntry::decode(&encoded).unwrap().encode();
        assert_eq!(again, encoded);
    }
}

#[test]
fn ledger_entry_round_trip_through_text() {
    let entry = LedgerEntry::AccountRoot(full_account());
    let text = to_string(&entry);
    assert_eq!(from_str::<LedgerEntry>(&text), Ok(entry));
    assert_eq!(from_str::<LedgerEntry>(MINIMAL_ACCOUNT), Ok(LedgerEntry::AccountRoot(minimal_account())));
    assert_eq!(from_str::<LedgerEntry>("{\"LedgerEntryType\":"), Err(DecodeError::Syntax));
}

#[test]
fn signer_list_decodes_and_encodes() {
    let text = "{\"SignerEntries\":[{\"Account\":\"rA\",\"SignerWeight\":1},\
        {\"Account\":\"rB\",\"SignerWeight\":65535}],\"SignerQuorum\":3}";
    let list = SignerList {
        signer_entries: vec![
            SignerEntry { account: "rA".to_string(), signer_weight: 1 },
            SignerEntry { account: "rB".to_string(), signer_weight: 65535 },
        ],
        signer_quorum: 3,
    };
    assert_eq!(list.encode(), json(text));
    assert_eq!(SignerList::decode(&json(text)), Ok(list));
}

#[test]
fn signer_list_without_signers() {
    let list = SignerList::default();
    assert_eq!(list.encode(), json("{\"SignerEntries\":[],\"SignerQuorum\":0}"));
    assert_eq!(SignerList::decode(&list.encode()), Ok(SignerList::default()));
}

#[test]
fn signer_list_rejects_bad_shapes() {
    assert_eq!(
        SignerList::decode(&json("{\"SignerEntries\":{},\"SignerQuorum\":3}")),
        Err(DecodeError::ShapeMismatch)
    );
    assert_eq!(
        SignerList::decode(&json("{\"SignerEntries\":[]}")),
        Err(DecodeError::ShapeMismatch)
    );
    assert_eq!(
        SignerList::decode(&json(
            "{\"SignerEntries\":[{\"Account\":\"rA\",\"SignerWeight\":65536}],\"SignerQuorum\":3}"
        )),
        Err(DecodeError::ShapeMismatch)
    );
    assert_eq!(
        SignerList::decode(&json(
            "{\"SignerEntries\":[{\"Account\":\"rA\",\"SignerWeight\":1},7],\"SignerQuorum\":3}"
        )),
        Err(DecodeError::ShapeMismatch)
    );
    assert_eq!(
        SignerEntry::decode(&json("{\"Account\":\"rA\"}")),
        Err(DecodeError::ShapeMismatch)
    );
}

#[test]
fn to_fields_and_from_fields_agree_with_the_codec() {
    let fields = full_account().to_fields();
    assert_eq!(Value::Object(fields.clone()), full_account().encode());
    assert_eq!(AccountRoot::from_fields(&fields), Ok(full_account()));
    let check = Check { account: "rA".to_string(), destination: "rB".to_string(), flags: 1 };
    let fields = check.to_fields();
    assert_eq!(fields.len(), 3);
    assert_eq!(Check::from_fields(&fields), Ok(check));
}
