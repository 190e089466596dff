//! Ledger entries: the objects of the ledger's state, told apart on the wire
//! by the field `LedgerEntryType`.

use crate::amount::{lemma_currency_amount_round_trip, Address, CurrencyAmount, CurrencyAmountModel};
use crate::codec::{
    is_string, lemma_decoding_all_encoding_all, optional, optional_encoding, option_model,
    read_optional, read_required, required, write_field, write_optional, Codec,
};
use crate::error::{DecodeError, DecodeErrorModel};
use crate::json::{
    empty_object, object_get, object_insert, object_model, object_new, object_value,
    string_value, value_as_object, value_model, JsonModel,
};
use serde_json::Value;
use vstd::prelude::*;

verus! {

/// A 256-bit hash, in hexadecimal.
pub type H256 = String;

/// One signer of a signer list.
#[derive(Default, Debug, Eq, PartialEq)]
pub struct SignerEntry {
    /// The signer's address. Wire name `Account`.
    pub account: String,
    /// The weight of the signer's signature. Wire name `SignerWeight`.
    pub signer_weight: u16,
}

/// The mathematical content of a [`SignerEntry`].
pub struct SignerEntryModel {
    pub account: Seq<char>,
    pub signer_weight: u16,
}

impl View for SignerEntry {
    type V = SignerEntryModel;

    open spec fn view(&self) -> SignerEntryModel {
        SignerEntryModel { account: self.account@, signer_weight: self.signer_weight }
    }
}

/// The signer that the fields of an object hold.
pub open spec fn signer_entry_from_fields(fields: Map<Seq<char>, JsonModel>) -> Result<
    SignerEntryModel,
    DecodeErrorModel,
> {
    let account = required::<String>(fields, "Account"@);
    let signer_weight = required::<u16>(fields, "SignerWeight"@);
    if account is Err {
        Err(account->Err_0)
    } else if signer_weight is Err {
        Err(signer_weight->Err_0)
    } else {
        Ok(SignerEntryModel { account: account->Ok_0, signer_weight: signer_weight->Ok_0 })
    }
}

impl Codec for SignerEntry {
    type Model = SignerEntryModel;

    open spec fn model(&self) -> SignerEntryModel {
        self@
    }

    open spec fn encoding(m: SignerEntryModel) -> JsonModel {
        JsonModel::Object(
            empty_object().insert("Account"@, String::encoding(m.account)).insert(
                "SignerWeight"@,
                u16::encoding(m.signer_weight),
            ),
        )
    }

    open spec fn decoding(j: JsonModel) -> Result<SignerEntryModel, DecodeErrorModel> {
        match j {
            JsonModel::Object(fields) => signer_entry_from_fields(fields),
            _ => Err(DecodeErrorModel::ShapeMismatch),
        }
    }

    fn encode(&self) -> (v: Value) {
        let mut fields = object_new();
        write_field(&mut fields, "Account", &self.account);
        write_field(&mut fields, "SignerWeight", &self.signer_weight);
        object_value(fields)
    }

    fn decode(v: &Value) -> (r: Result<SignerEntry, DecodeError>) {
        let fields = match value_as_object(v) {
            Some(m) => m,
            None => {
                return Err(DecodeError::ShapeMismatch);
            },
        };
        let account: String = match read_required::<String>(fields, "Account") {
            Ok(x) => x,
            Err(e) => {
                return Err(e);
            },
        };
        let signer_weight: u16 = match read_required::<u16>(fields, "SignerWeight") {
            Ok(x) => x,
            Err(e) => {
                return Err(e);
            },
        };
        Ok(SignerEntry { account, signer_weight })
    }
}

/// A list of signers with the quorum that their weights must reach.
#[derive(Default, Debug, Eq, PartialEq)]
pub struct SignerList {
    /// The signers. Wire name `SignerEntries`.
    pub signer_entries: Vec<SignerEntry>,
    /// The sum of weights that a signature needs. Wire name `SignerQuorum`.
    pub signer_quorum: u32,
}

/// The mathematical content of a [`SignerList`].
pub struct SignerListModel {
    pub signer_entries: Seq<SignerEntryModel>,
    pub signer_quorum: u32,
}

impl View for SignerList {
    type V = SignerListModel;

    open spec fn view(&self) -> SignerListModel {
        SignerListModel {
            signer_entries: self.signer_entries.model(),
            signer_quorum: self.signer_quorum,
        }
    }
}

/// The signer list that the fields of an object hold.
pub open spec fn signer_list_from_fields(fields: Map<Seq<char>, JsonModel>) -> Result<
    SignerListModel,
    DecodeErrorModel,
> {
    let signer_entries = required::<Vec<SignerEntry>>(fields, "SignerEntries"@);
    let signer_quorum = required::<u32>(fields, "SignerQuorum"@);
    if signer_entries is Err {
        Err(signer_entries->Err_0)
    } else if signer_quorum is Err {
        Err(signer_quorum->Err_0)
    } else {
        Ok(
            SignerListModel {
                signer_entries: signer_entries->Ok_0,
                signer_quorum: signer_quorum->Ok_0,
            },
        )
    }
}

impl Codec for SignerList {
    type Model = SignerListModel;

    open spec fn model(&self) -> SignerListModel {
        self@
    }

    open spec fn encoding(m: SignerListModel) -> JsonModel {
        JsonModel::Object(
            empty_object().insert(
                "SignerEntries"@,
                Vec::<SignerEntry>::encoding(m.signer_entries),
            ).insert("SignerQuorum"@, u32::encoding(m.signer_quorum)),
        )
    }

    open spec fn decoding(j: JsonModel) -> Result<SignerListModel, DecodeErrorModel> {
        match j {
            JsonModel::Object(fields) => signer_list_from_fields(fields),
            _ => Err(DecodeErrorModel::ShapeMismatch),
        }
    }

    fn encode(&self) -> (v: Value) {
        let mut fields = object_new();
        write_field(&mut fields, "SignerEntries", &self.signer_entries);
        write_field(&mut fields, "SignerQuorum", &self.signer_quorum);
        object_value(fields)
    }

    fn decode(v: &Value) -> (r: Result<SignerList, DecodeError>) {
        let fields = match value_as_object(v) {
            Some(m) => m,
            None => {
                return Err(DecodeError::ShapeMismatch);
            },
        };
        let signer_entries: Vec<SignerEntry> = match read_required::<Vec<SignerEntry>>(
            fields,
            "SignerEntries",
        ) {
            Ok(x) => x,
            Err(e) => {
                return Err(e);
            },
        };
        let signer_quorum: u32 = match read_required::<u32>(fields, "SignerQuorum") {
            Ok(x) => x,
            Err(e) => {
                return Err(e);
            },
        };
        Ok(SignerList { signer_entries, signer_quorum })
    }
}

/// The record of an account.
#[derive(Default, Debug, Eq, PartialEq)]
pub struct AccountRoot {
    /// The address of the account. Wire name `Account`.
    pub account: Address,
    /// The balance of the account. Wire name `Balance`.
    pub balance: CurrencyAmount,
    /// A bit map of flags. Wire name `Flags`.
    pub flags: u32,
    /// How many objects the account owns in the ledger. Wire name `OwnerCount`.
    pub owner_count: u32,
    /// The hash of the transaction that last changed this entry. Wire name
    /// `PreviousTxnID`.
    pub previous_txn_id: H256,
    /// The index of the ledger that holds that transaction. Wire name
    /// `PreviousTxnLgrSeq`.
    pub previous_txn_lgr_seq: u32,
    /// The sequence number of the account's next transaction. Wire name
    /// `Sequence`.
    pub sequence: u32,
    /// The hash of the transaction that the account sent last. Wire name
    /// `AccountTxnID`.
    pub account_txn_id: Option<H256>,
    /// A domain, as the hexadecimal of its ASCII text. Wire name `Domain`.
    pub domain: Option<String>,
    /// The MD5 hash of an e-mail address. Wire name `EmailHash`.
    pub email_hash: Option<H256>,
    /// A public key for messages to the account, 33 bytes in hexadecimal.
    /// Wire name `MessageKey`.
    pub message_key: Option<String>,
    /// The address of the key pair that may sign in place of the master
    /// key. Wire name `RegularKey`.
    pub regular_key: Option<String>,
    /// How many tickets the account owns. Wire name `TicketCount`.
    pub ticket_count: Option<u32>,
    /// How many significant digits its offers' rates keep. Wire name
    /// `TickSize`.
    pub tick_size: Option<u8>,
    /// The fee for transfers of the currencies that the account issued. Wire
    /// name `TransferRate`.
    pub transfer_rate: Option<u32>,
}

/// The mathematical content of an [`AccountRoot`].
pub struct AccountRootModel {
    pub account: Seq<char>,
    pub balance: CurrencyAmountModel,
    pub flags: u32,
    pub owner_count: u32,
    pub previous_txn_id: Seq<char>,
    pub previous_txn_lgr_seq: u32,
    pub sequence: u32,
    pub account_txn_id: Option<Seq<char>>,
    pub domain: Option<Seq<char>>,
    pub email_hash: Option<Seq<char>>,
    pub message_key: Option<Seq<char>>,
    pub regular_key: Option<Seq<char>>,
    pub ticket_count: Option<u32>,
    pub tick_size: Option<u8>,
    pub transfer_rate: Option<u32>,
}

impl View for AccountRoot {
    type V = AccountRootModel;

    open spec fn view(&self) -> AccountRootModel {
        AccountRootModel {
            account: self.account@,
            balance: self.balance@,
            flags: self.flags,
            owner_count: self.owner_count,
            previous_txn_id: self.previous_txn_id@,
            previous_txn_lgr_seq: self.previous_txn_lgr_seq,
            sequence: self.sequence,
            account_txn_id: option_model(self.account_txn_id),
            domain: option_model(self.domain),
            email_hash: option_model(self.email_hash),
            message_key: option_model(self.message_key),
            regular_key: option_model(self.regular_key),
            ticket_count: option_model(self.ticket_count),
            tick_size: option_model(self.tick_size),
            transfer_rate: option_model(self.transfer_rate),
        }
    }
}

/// The fields that stand for an account record, under their wire names. A
/// field that is absent from the record is written as `null`.
pub open spec fn account_root_fields(m: AccountRootModel) -> Map<Seq<char>, JsonModel> {
    empty_object().insert("Account"@, String::encoding(m.account)).insert(
        "Balance"@,
        CurrencyAmount::encoding(m.balance),
    ).insert("Flags"@, u32::encoding(m.flags)).insert(
        "OwnerCount"@,
        u32::encoding(m.owner_count),
    ).insert("PreviousTxnID"@, String::encoding(m.previous_txn_id)).insert(
        "PreviousTxnLgrSeq"@,
        u32::encoding(m.previous_txn_lgr_seq),
    ).insert("Sequence"@, u32::encoding(m.sequence)).insert(
        "AccountTxnID"@,
        optional_encoding::<String>(m.account_txn_id),
    ).insert("Domain"@, optional_encoding::<String>(m.domain)).insert(
        "EmailHash"@,
        optional_encoding::<String>(m.email_hash),
    ).insert("MessageKey"@, optional_encoding::<String>(m.message_key)).insert(
        "RegularKey"@,
        optional_encoding::<String>(m.regular_key),
    ).insert("TicketCount"@, optional_encoding::<u32>(m.ticket_count)).insert(
        "TickSize"@,
        optional_encoding::<u8>(m.tick_size),
    ).insert("TransferRate"@, optional_encoding::<u32>(m.transfer_rate))
}

/// The account record that the fields of an object hold. The first seven
/// fields must be there; the other eight may be left out. The failure of the
/// first field that fails, in the order of the record, is the failure of the
/// whole.
pub open spec fn account_root_from_fields(fields: Map<Seq<char>, JsonModel>) -> Result<
    AccountRootModel,
    DecodeErrorModel,
> {
    let account = required::<String>(fields, "Account"@);
    let balance = required::<CurrencyAmount>(fields, "Balance"@);
    let flags = required::<u32>(fields, "Flags"@);
    let owner_count = required::<u32>(fields, "OwnerCount"@);
    let previous_txn_id = required::<String>(fields, "PreviousTxnID"@);
    let previous_txn_lgr_seq = required::<u32>(fields, "PreviousTxnLgrSeq"@);
    let sequence = required::<u32>(fields, "Sequence"@);
    let account_txn_id = optional::<String>(fields, "AccountTxnID"@);
    let domain = optional::<String>(fields, "Domain"@);
    let email_hash = optional::<String>(fields, "EmailHash"@);
    let message_key = optional::<String>(fields, "MessageKey"@);
    let regular_key = optional::<String>(fields, "RegularKey"@);
    let ticket_count = optional::<u32>(fields, "TicketCount"@);
    let tick_size = optional::<u8>(fields, "TickSize"@);
    let transfer_rate = optional::<u32>(fields, "TransferRate"@);
    if account is Err {
        Err(account->Err_0)
    } else if balance is Err {
        Err(balance->Err_0)
    } else if flags is Err {
        Err(flags->Err_0)
    } else if owner_count is Err {
        Err(owner_count->Err_0)
    } else if previous_txn_id is Err {
        Err(previous_txn_id->Err_0)
    } else if previous_txn_lgr_seq is Err {
        Err(previous_txn_lgr_seq->Err_0)
    } else if sequence is Err {
        Err(sequence->Err_0)
    } else if account_txn_id is Err {
        Err(account_txn_id->Err_0)
    } else if domain is Err {
        Err(domain->Err_0)
    } else if email_hash is Err {
        Err(email_hash->Err_0)
    } else if message_key is Err {
        Err(message_key->Err_0)
    } else if regular_key is Err {
        Err(regular_key->Err_0)
    } else if ticket_count is Err {
        Err(ticket_count->Err_0)
    } else if tick_size is Err {
        Err(tick_size->Err_0)
    } else if transfer_rate is Err {
        Err(transfer_rate->Err_0)
    } else {
        Ok(
            AccountRootModel {
                account: account->Ok_0,
                balance: balance->Ok_0,
                flags: flags->Ok_0,
                owner_count: owner_count->Ok_0,
                previous_txn_id: previous_txn_id->Ok_0,
                previous_txn_lgr_seq: previous_txn_lgr_seq->Ok_0,
                sequence: sequence->Ok_0,
                account_txn_id: account_txn_id->Ok_0,
                domain: domain->Ok_0,
                email_hash: email_hash->Ok_0,
                message_key: message_key->Ok_0,
                regular_key: regular_key->Ok_0,
                ticket_count: ticket_count->Ok_0,
                tick_size: tick_size->Ok_0,
                transfer_rate: transfer_rate->Ok_0,
            },
        )
    }
}

impl AccountRoot {
    /// The fields of the record, under their wire names.
    pub fn to_fields(&self) -> (fields: serde_json::Map<String, Value>)
        ensures
            object_model(fields) == account_root_fields(self@),
    {
        let mut fields = object_new();
        write_field(&mut fields, "Account", &self.account);
        write_field(&mut fields, "Balance", &self.balance);
        write_field(&mut fields, "Flags", &self.flags);
        write_field(&mut fields, "OwnerCount", &self.owner_count);
        write_field(&mut fields, "PreviousTxnID", &self.previous_txn_id);
        write_field(&mut fields, "PreviousTxnLgrSeq", &self.previous_txn_lgr_seq);
        write_field(&mut fields, "Sequence", &self.sequence);
        write_optional(&mut fields, "AccountTxnID", &self.account_txn_id);
        write_optional(&mut fields, "Domain", &self.domain);
        write_optional(&mut fields, "EmailHash", &self.email_hash);
        write_optional(&mut fields, "MessageKey", &self.message_key);
        write_optional(&mut fields, "RegularKey", &self.regular_key);
        write_optional(&mut fields, "TicketCount", &self.ticket_count);
        write_optional(&mut fields, "TickSize", &self.tick_size);
        write_optional(&mut fields, "TransferRate", &self.transfer_rate);
        fields
    }

    /// Reads the record from the fields of an object.
    pub fn from_fields(fields: &serde_json::Map<String, Value>) -> (r: Result<
        AccountRoot,
        DecodeError,
    >)
        ensures
            match r {
                Ok(x) => account_root_from_fields(object_model(*fields)) == Ok::<
                    AccountRootModel,
                    DecodeErrorModel,
                >(x@),
                Err(e) => account_root_from_fields(object_model(*fields)) == Err::<
                    AccountRootModel,
                    DecodeErrorModel,
                >(e@),
            },
    {
        let account: String = match read_required::<String>(fields, "Account") {
            Ok(x) => x,
            Err(e) => {
                return Err(e);
            },
        };
        let balance: CurrencyAmount = match read_required::<CurrencyAmount>(fields, "Balance") {
            Ok(x) => x,
            Err(e) => {
                return Err(e);
            },
        };
        let flags: u32 = match read_required::<u32>(fields, "Flags") {
            Ok(x) => x,
            Err(e) => {
                return Err(e);
            },
        };
        let owner_count: u32 = match read_required::<u32>(fields, "OwnerCount") {
            Ok(x) => x,
            Err(e) => {
                return Err(e);
            },
        };
        let previous_txn_id: String = match read_required::<String>(fields, "PreviousTxnID") {
            Ok(x) => x,
            Err(e) => {
                return Err(e);
            },
        };
        let previous_txn_lgr_seq: u32 = match read_required::<u32>(fields, "PreviousTxnLgrSeq") {
            Ok(x) => x,
            Err(e) => {
                return Err(e);
            },
        };
        let sequence: u32 = match read_required::<u32>(fields, "Sequence") {
            Ok(x) => x,
            Err(e) => {
                return Err(e);
            },
        };
        let account_txn_id: Option<String> = match read_optional::<String>(
            fields,
            "AccountTxnID",
        ) {
            Ok(x) => x,
            Err(e) => {
                return Err(e);
            },
        };
        let domain: Option<String> = match read_optional::<String>(fields, "Domain") {
            Ok(x) => x,
            Err(e) => {
                return Err(e);
            },
        };
        let email_hash: Option<String> = match read_optional::<String>(fields, "EmailHash") {
            Ok(x) => x,
            Err(e) => {
                return Err(e);
            },
        };
        let message_key: Option<String> = match read_optional::<String>(fields, "MessageKey") {
            Ok(x) => x,
            Err(e) => {
                return Err(e);
            },
        };
        let regular_key: Option<String> = match read_optional::<String>(fields, "RegularKey") {
            Ok(x) => x,
            Err(e) => {
                return Err(e);
            },
        };
        let ticket_count: Option<u32> = match read_optional::<u32>(fields, "TicketCount") {
            Ok(x) => x,
            Err(e) => {
                return Err(e);
            },
        };
        let tick_size: Option<u8> = match read_optional::<u8>(fields, "TickSize") {
            Ok(x) => x,
            Err(e) => {
                return Err(e);
            },
        };
        let transfer_rate: Option<u32> = match read_optional::<u32>(fields, "TransferRate") {
            Ok(x) => x,
            Err(e) => {
                return Err(e);
            },
        };
        Ok(
            AccountRoot {
                account,
                balance,
                flags,
                owner_count,
                previous_txn_id,
                previous_txn_lgr_seq,
                sequence,
                account_txn_id,
                domain,
                email_hash,
                message_key,
                regular_key,
                ticket_count,
                tick_size,
                transfer_rate,
            },
        )
    }
}

impl Codec for AccountRoot {
    type Model = AccountRootModel;

    open spec fn model(&self) -> AccountRootModel {
        self@
    }

    open spec fn encoding(m: AccountRootModel) -> JsonModel {
        JsonModel::Object(account_root_fields(m))
    }

    open spec fn decoding(j: JsonModel) -> Result<AccountRootModel, DecodeErrorModel> {
        match j {
            JsonModel::Object(fields) => account_root_from_fields(fields),
            _ => Err(DecodeErrorModel::ShapeMismatch),
        }
    }

    fn encode(&self) -> (v: Value) {
        object_value(self.to_fields())
    }

    fn decode(v: &Value) -> (r: Result<AccountRoot, DecodeError>) {
        match value_as_object(v) {
            Some(fields) => AccountRoot::from_fields(fields),
            None => Err(DecodeError::ShapeMismatch),
        }
    }
}

/// A check: a promise of money that its recipient may cash.
#[derive(Default, Debug, Eq, PartialEq)]
pub struct Check {
    /// The sender of the check. Wire name `Account`.
    pub account: Address,
    /// The recipient of the check. Wire name `Destination`.
    pub destination: Address,
    /// A bit map of flags. Wire name `Flags`.
    pub flags: u32,
}

/// The mathematical content of a [`Check`].
pub struct CheckModel {
    pub account: Seq<char>,
    pub destination: Seq<char>,
    pub flags: u32,
}

impl View for Check {
    type V = CheckModel;

    open spec fn view(&self) -> CheckModel {
        CheckModel { account: self.account@, destination: self.destination@, flags: self.flags }
    }
}

/// The fields that stand for a check, under their wire names.
pub open spec fn check_fields(m: CheckModel) -> Map<Seq<char>, JsonModel> {
    empty_object().insert("Account"@, String::encoding(m.account)).insert(
        "Destination"@,
        String::encoding(m.destination),
    ).insert("Flags"@, u32::encoding(m.flags))
}

/// The check that the fields of an object hold: all three must be there.
pub open spec fn check_from_fields(fields: Map<Seq<char>, JsonModel>) -> Result<
    CheckModel,
    DecodeErrorModel,
> {
    let account = required::<String>(fields, "Account"@);
    let destination = required::<String>(fields, "Destination"@);
    let flags = required::<u32>(fields, "Flags"@);
    if account is Err {
        Err(account->Err_0)
    } else if destination is Err {
        Err(destination->Err_0)
    } else if flags is Err {
        Err(flags->Err_0)
    } else {
        Ok(
            CheckModel {
                account: account->Ok_0,
                destination: destination->Ok_0,
                flags: flags->Ok_0,
            },
        )
    }
}

impl Check {
    /// The fields of the check, under their wire names.
    pub fn to_fields(&self) -> (fields: serde_json::Map<String, Value>)
        ensures
            object_model(fields) == check_fields(self@),
    {
        let mut fields = object_new();
        write_field(&mut fields, "Account", &self.account);
        write_field(&mut fields, "Destination", &self.destination);
        write_field(&mut fields, "Flags", &self.flags);
        fields
    }

    /// Reads the check from the fields of an object.
    pub fn from_fields(fields: &serde_json::Map<String, Value>) -> (r: Result<Check, DecodeError>)
        ensures
            match r {
                Ok(x) => check_from_fields(object_model(*fields)) == Ok::<
                    CheckModel,
                    DecodeErrorModel,
                >(x@),
                Err(e) => check_from_fields(object_model(*fields)) == Err::<
                    CheckModel,
                    DecodeErrorModel,
                >(e@),
            },
    {
        let account: String = match read_required::<String>(fields, "Account") {
            Ok(x) => x,
            Err(e) => {
                return Err(e);
            },
        };
        let destination: String = match read_required::<String>(fields, "Destination") {
            Ok(x) => x,
            Err(e) => {
                return Err(e);
            },
        };
        let flags: u32 = match read_required::<u32>(fields, "Flags") {
            Ok(x) => x,
            Err(e) => {
                return Err(e);
            },
        };
        Ok(Check { account, destination, flags })
    }
}

impl Codec for Check {
    type Model = CheckModel;

    open spec fn model(&self) -> CheckModel {
        self@
    }

    open spec fn encoding(m: CheckModel) -> JsonModel {
        JsonModel::Object(check_fields(m))
    }

    open spec fn decoding(j: JsonModel) -> Result<CheckModel, DecodeErrorModel> {
        match j {
            JsonModel::Object(fields) => check_from_fields(fields),
            _ => Err(DecodeErrorModel::ShapeMismatch),
        }
    }

    fn encode(&self) -> (v: Value) {
        object_value(self.to_fields())
    }

    fn decode(v: &Value) -> (r: Result<Check, DecodeError>) {
        match value_as_object(v) {
            Some(fields) => Check::from_fields(fields),
            None => Err(DecodeError::ShapeMismatch),
        }
    }
}

/// An entry of the ledger's state.
///
/// `Unknown` stands for every entry whose type this library does not model,
/// so that an entry of a later type still decodes.
#[derive(Debug, Eq, PartialEq)]
pub enum LedgerEntry {
    /// An entry of a type that is not modelled, or of no stated type.
    Unknown,
    /// The record of an account.
    AccountRoot(AccountRoot),
    /// A check.
    Check(Check),
}

/// The mathematical content of a [`LedgerEntry`].
pub enum LedgerEntryModel {
    Unknown,
    AccountRoot(AccountRootModel),
    Check(CheckModel),
}

impl View for LedgerEntry {
    type V = LedgerEntryModel;

    open spec fn view(&self) -> LedgerEntryModel {
        match *self {
            LedgerEntry::Unknown => LedgerEntryModel::Unknown,
            LedgerEntry::AccountRoot(a) => LedgerEntryModel::AccountRoot(a@),
            LedgerEntry::Check(c) => LedgerEntryModel::Check(c@),
        }
    }
}

impl Default for LedgerEntry {
    /// The entry of unknown type.
    fn default() -> (r: Self)
        ensures
            r@ == LedgerEntryModel::Unknown,
    {
        LedgerEntry::Unknown
    }
}

/// Whether the fields of an object name `entry_type` as the type of the
/// entry, in the field `LedgerEntryType`.
pub open spec fn has_entry_type(fields: Map<Seq<char>, JsonModel>, entry_type: Seq<char>) -> bool {
    fields.contains_key("LedgerEntryType"@) && fields["LedgerEntryType"@] == JsonModel::String(
        entry_type,
    )
}

impl Codec for LedgerEntry {
    type Model = LedgerEntryModel;

    open spec fn model(&self) -> LedgerEntryModel {
        self@
    }

    /// The fields of the entry together with the name of its type. The
    /// unknown entry has the type name `Unknown` and no field besides.
    open spec fn encoding(m: LedgerEntryModel) -> JsonModel {
        match m {
            LedgerEntryModel::Unknown => JsonModel::Object(
                empty_object().insert("LedgerEntryType"@, JsonModel::String("Unknown"@)),
            ),
            LedgerEntryModel::AccountRoot(a) => JsonModel::Object(
                account_root_fields(a).insert(
                    "LedgerEntryType"@,
                    JsonModel::String("AccountRoot"@),
                ),
            ),
            LedgerEntryModel::Check(c) => JsonModel::Object(
                check_fields(c).insert("LedgerEntryType"@, JsonModel::String("Check"@)),
            ),
        }
    }

    /// An object that names a known type decodes as an entry of that type,
    /// or fails as its fields fail. Every other object is an unknown entry:
    /// one that names another type, one whose type is no string, one that
    /// names no type. A value that is no object is no entry.
    open spec fn decoding(j: JsonModel) -> Result<LedgerEntryModel, DecodeErrorModel> {
        match j {
            JsonModel::Object(fields) => if has_entry_type(fields, "AccountRoot"@) {
                match account_root_from_fields(fields) {
                    Ok(a) => Ok(LedgerEntryModel::AccountRoot(a)),
                    Err(e) => Err(e),
                }
            } else if has_entry_type(fields, "Check"@) {
                match check_from_fields(fields) {
                    Ok(c) => Ok(LedgerEntryModel::Check(c)),
                    Err(e) => Err(e),
                }
            } else {
                Ok(LedgerEntryModel::Unknown)
            },
            _ => Err(DecodeErrorModel::ShapeMismatch),
        }
    }

    fn encode(&self) -> (v: Value) {
        let mut fields = match self {
            LedgerEntry::Unknown => object_new(),
            LedgerEntry::AccountRoot(a) => a.to_fields(),
            LedgerEntry::Check(c) => c.to_fields(),
        };
        let name = match self {
            LedgerEntry::Unknown => "Unknown",
            LedgerEntry::AccountRoot(_) => "AccountRoot",
            LedgerEntry::Check(_) => "Check",
        };
        object_insert(&mut fields, "LedgerEntryType".to_owned(), string_value(name.to_owned()));
        object_value(fields)
    }

    fn decode(v: &Value) -> (r: Result<LedgerEntry, DecodeError>) {
        let fields = match value_as_object(v) {
            Some(m) => m,
            None => {
                return Err(DecodeError::ShapeMismatch);
            },
        };
        proof {
            reveal_strlit("AccountRoot");
            reveal_strlit("Check");
            assert("AccountRoot"@.len() == 11 && "Check"@.len() == 5);
        }
        match object_get(fields, "LedgerEntryType") {
            Some(tag) => {
                if is_string(tag, "AccountRoot") {
                    match AccountRoot::from_fields(fields) {
                        Ok(a) => Ok(LedgerEntry::AccountRoot(a)),
                        Err(e) => Err(e),
                    }
                } else if is_string(tag, "Check") {
                    match Check::from_fields(fields) {
                        Ok(c) => Ok(LedgerEntry::Check(c)),
                        Err(e) => Err(e),
                    }
                } else {
                    Ok(LedgerEntry::Unknown)
                }
            },
            None => Ok(LedgerEntry::Unknown),
        }
    }
}

/// The wire names of the entries' fields differ from one another: each is
/// known by its length and its first character.
proof fn lemma_entry_field_names()
    ensures
        "LedgerEntryType"@.len() == 15 && "LedgerEntryType"@[0] == 'L',
        "Account"@.len() == 7 && "Account"@[0] == 'A',
        "Balance"@.len() == 7 && "Balance"@[0] == 'B',
        "Flags"@.len() == 5 && "Flags"@[0] == 'F',
        "OwnerCount"@.len() == 10 && "OwnerCount"@[0] == 'O',
        "PreviousTxnID"@.len() == 13 && "PreviousTxnID"@[0] == 'P',
        "PreviousTxnLgrSeq"@.len() == 17 && "PreviousTxnLgrSeq"@[0] == 'P',
        "Sequence"@.len() == 8 && "Sequence"@[0] == 'S',
        "AccountTxnID"@.len() == 12 && "AccountTxnID"@[0] == 'A',
        "Domain"@.len() == 6 && "Domain"@[0] == 'D',
        "EmailHash"@.len() == 9 && "EmailHash"@[0] == 'E',
        "MessageKey"@.len() == 10 && "MessageKey"@[0] == 'M',
        "RegularKey"@.len() == 10 && "RegularKey"@[0] == 'R',
        "TicketCount"@.len() == 11 && "TicketCount"@[0] == 'T',
        "TickSize"@.len() == 8 && "TickSize"@[0] == 'T',
        "TransferRate"@.len() == 12 && "TransferRate"@[0] == 'T',
        "Destination"@.len() == 11 && "Destination"@[0] == 'D',
        "SignerEntries"@.len() == 13 && "SignerEntries"@[0] == 'S',
        "SignerQuorum"@.len() == 12 && "SignerQuorum"@[0] == 'S',
        "SignerWeight"@.len() == 12 && "SignerWeight"@[0] == 'S',
        "AccountRoot"@.len() == 11 && "AccountRoot"@[0] == 'A',
        "Check"@.len() == 5 && "Check"@[0] == 'C',
        "Unknown"@.len() == 7 && "Unknown"@[0] == 'U',
{
    reveal_strlit("LedgerEntryType");
    reveal_strlit("Account");
    reveal_strlit("Balance");
    reveal_strlit("Flags");
    reveal_strlit("OwnerCount");
    reveal_strlit("PreviousTxnID");
    reveal_strlit("PreviousTxnLgrSeq");
    reveal_strlit("Sequence");
    reveal_strlit("AccountTxnID");
    reveal_strlit("Domain");
    reveal_strlit("EmailHash");
    reveal_strlit("MessageKey");
    reveal_strlit("RegularKey");
    reveal_strlit("TicketCount");
    reveal_strlit("TickSize");
    reveal_strlit("TransferRate");
    reveal_strlit("Destination");
    reveal_strlit("SignerEntries");
    reveal_strlit("SignerQuorum");
    reveal_strlit("SignerWeight");
    reveal_strlit("AccountRoot");
    reveal_strlit("Check");
    reveal_strlit("Unknown");
}

/// An account record is read back from its own fields, whatever stands
/// beside them in the field `LedgerEntryType`.
pub proof fn lemma_account_root_fields_round_trip(a: AccountRootModel, entry_type: JsonModel)
    ensures
        account_root_from_fields(account_root_fields(a)) == Ok::<
            AccountRootModel,
            DecodeErrorModel,
        >(a),
        account_root_from_fields(account_root_fields(a).insert("LedgerEntryType"@, entry_type))
            == Ok::<AccountRootModel, DecodeErrorModel>(a),
{
    lemma_entry_field_names();
    lemma_currency_amount_round_trip(a.balance);
}

/// A check is read back from its own fields, whatever stands beside them in
/// the field `LedgerEntryType`.
pub proof fn lemma_check_fields_round_trip(c: CheckModel, entry_type: JsonModel)
    ensures
        check_from_fields(check_fields(c)) == Ok::<CheckModel, DecodeErrorModel>(c),
        check_from_fields(check_fields(c).insert("LedgerEntryType"@, entry_type)) == Ok::<
            CheckModel,
            DecodeErrorModel,
        >(c),
{
    lemma_entry_field_names();
}

/// Every ledger entry decodes from its own encoding: an account record, a
/// check, and the unknown entry too.
pub proof fn lemma_ledger_entry_round_trip(e: LedgerEntryModel)
    ensures
        LedgerEntry::decoding(LedgerEntry::encoding(e)) == Ok::<
            LedgerEntryModel,
            DecodeErrorModel,
        >(e),
{
    lemma_entry_field_names();
    match e {
        LedgerEntryModel::Unknown => {},
        LedgerEntryModel::AccountRoot(a) => {
            lemma_account_root_fields_round_trip(a, JsonModel::String("AccountRoot"@));
        },
        LedgerEntryModel::Check(c) => {
            lemma_check_fields_round_trip(c, JsonModel::String("Check"@));
        },
    }
}

/// An object that names no known entry type decodes as the unknown entry,
/// whatever else it holds: decoding it never fails.
pub proof fn lemma_unknown_entry_type(fields: Map<Seq<char>, JsonModel>)
    requires
        !has_entry_type(fields, "AccountRoot"@),
        !has_entry_type(fields, "Check"@),
    ensures
        LedgerEntry::decoding(JsonModel::Object(fields)) == Ok::<
            LedgerEntryModel,
            DecodeErrorModel,
        >(LedgerEntryModel::Unknown),
{
}

/// Every signer decodes from its own encoding.
pub proof fn lemma_signer_entry_round_trip(s: SignerEntryModel)
    ensures
        SignerEntry::decoding(SignerEntry::encoding(s)) == Ok::<
            SignerEntryModel,
            DecodeErrorModel,
        >(s),
{
    lemma_entry_field_names();
}

/// Every signer list decodes from its own encoding.
pub proof fn lemma_signer_list_round_trip(l: SignerListModel)
    ensures
        SignerList::decoding(SignerList::encoding(l)) == Ok::<SignerListModel, DecodeErrorModel>(
            l,
        ),
{
    lemma_entry_field_names();
    assert forall|i: int| 0 <= i < l.signer_entries.len() implies SignerEntry::decoding(
        SignerEntry::encoding(#[trigger] l.signer_entries[i]),
    ) == Ok::<SignerEntryModel, DecodeErrorModel>(l.signer_entries[i]) by {
        lemma_signer_entry_round_trip(l.signer_entries[i]);
    }
    lemma_decoding_all_encoding_all::<SignerEntry>(l.signer_entries);
}

} // verus!
