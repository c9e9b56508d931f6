//! The rows that the store's queries give, the replies to its statements,
//! and how a row is read into a record.
use vstd::prelude::*;
use crate::bytes::copy_bytes;
use crate::codec::{
    decode_keychain, decode_transaction, decode_txid_bytes, keychain_from_text,
    transaction_from_bytes, txid_from_bytes,
};
use crate::error::{ErrorKind, StoreError};
use crate::types::{
    confirmation_from_columns, confirmation_of, opt_bytes, BlockTime, DetailsView, KeychainKind,
    LocalUtxo, OutPoint, SyncTime, TransactionDetails, TxOut, UtxoView,
};

verus! {

/// A row that a query of the store gives, its columns already read as the
/// types that the query's reader asks for.
#[derive(Debug, Clone, PartialEq, Eq)]
pub enum Row {
    /// A script (queries of scripts).
    Script { script: Vec<u8> },
    /// A keychain and a child index (the query of a script's path).
    Path { keychain: String, child: u32 },
    /// An output (the query of every output).
    Utxo { value: u64, keychain: String, vout: u32, txid: Vec<u8>, script: Vec<u8>, is_spent: bool },
    /// An output at a known outpoint (the query of an outpoint).
    UtxoAt { value: u64, keychain: String, script: Vec<u8>, is_spent: bool },
    /// An encoded transaction (queries of transactions).
    RawTx { raw_tx: Vec<u8> },
    /// Details (the query of every set of details).
    Details {
        txid: Vec<u8>,
        timestamp: Option<u64>,
        received: u64,
        sent: u64,
        fee: Option<u64>,
        height: Option<u32>,
    },
    /// Details with the encoded transaction (the query of every set of details with
    /// its transaction).
    DetailsWithRaw {
        txid: Vec<u8>,
        timestamp: Option<u64>,
        received: u64,
        sent: u64,
        fee: Option<u64>,
        height: Option<u32>,
        raw_tx: Option<Vec<u8>>,
    },
    /// Details of a known transaction id, with the encoded transaction (the
    /// query of a transaction id's details).
    DetailsOfTxid {
        timestamp: Option<u64>,
        received: u64,
        sent: u64,
        fee: Option<u64>,
        height: Option<u32>,
        raw_tx: Option<Vec<u8>>,
    },
    /// A derivation index.
    Index { value: u32 },
    /// A sync time.
    SyncTime { height: u32, timestamp: u64 },
    /// A descriptor checksum.
    Checksum { checksum: Vec<u8> },
}

/// The mathematical value of a `Row`.
pub enum RowView {
    Script { script: Seq<u8> },
    Path { keychain: Seq<char>, child: u32 },
    Utxo { value: u64, keychain: Seq<char>, vout: u32, txid: Seq<u8>, script: Seq<u8>, is_spent: bool },
    UtxoAt { value: u64, keychain: Seq<char>, script: Seq<u8>, is_spent: bool },
    RawTx { raw_tx: Seq<u8> },
    Details {
        txid: Seq<u8>,
        timestamp: Option<u64>,
        received: u64,
        sent: u64,
        fee: Option<u64>,
        height: Option<u32>,
    },
    DetailsWithRaw {
        txid: Seq<u8>,
        timestamp: Option<u64>,
        received: u64,
        sent: u64,
        fee: Option<u64>,
        height: Option<u32>,
        raw_tx: Option<Seq<u8>>,
    },
    DetailsOfTxid {
        timestamp: Option<u64>,
        received: u64,
        sent: u64,
        fee: Option<u64>,
        height: Option<u32>,
        raw_tx: Option<Seq<u8>>,
    },
    Index { value: u32 },
    SyncTime { height: u32, timestamp: u64 },
    Checksum { checksum: Seq<u8> },
}

impl View for Row {
    type V = RowView;

    open spec fn view(&self) -> RowView {
        match self {
            Row::Script { script } => RowView::Script { script: script@ },
            Row::Path { keychain, child } => RowView::Path { keychain: keychain@, child: *child },
            Row::Utxo { value, keychain, vout, txid, script, is_spent } => RowView::Utxo {
                value: *value,
                keychain: keychain@,
                vout: *vout,
                txid: txid@,
                script: script@,
                is_spent: *is_spent,
            },
            Row::UtxoAt { value, keychain, script, is_spent } => RowView::UtxoAt {
                value: *value,
                keychain: keychain@,
                script: script@,
                is_spent: *is_spent,
            },
            Row::RawTx { raw_tx } => RowView::RawTx { raw_tx: raw_tx@ },
            Row::Details { txid, timestamp, received, sent, fee, height } => RowView::Details {
                txid: txid@,
                timestamp: *timestamp,
                received: *received,
                sent: *sent,
                fee: *fee,
                height: *height,
            },
            Row::DetailsWithRaw { txid, timestamp, received, sent, fee, height, raw_tx } =>
                RowView::DetailsWithRaw {
                txid: txid@,
                timestamp: *timestamp,
                received: *received,
                sent: *sent,
                fee: *fee,
                height: *height,
                raw_tx: opt_bytes(*raw_tx),
            },
            Row::DetailsOfTxid { timestamp, received, sent, fee, height, raw_tx } =>
                RowView::DetailsOfTxid {
                timestamp: *timestamp,
                received: *received,
                sent: *sent,
                fee: *fee,
                height: *height,
                raw_tx: opt_bytes(*raw_tx),
            },
            Row::Index { value } => RowView::Index { value: *value },
            Row::SyncTime { height, timestamp } => RowView::SyncTime {
                height: *height,
                timestamp: *timestamp,
            },
            Row::Checksum { checksum } => RowView::Checksum { checksum: checksum@ },
        }
    }
}

/// The reply to a statement.
#[derive(Debug)]
pub enum Reply {
    /// A statement that writes ran.
    Done,
    /// A query gave these rows, in order; `failure` is the error that
    /// stopped the fetching of further rows, if one did.  The reply to a
    /// query of which only the first row is wanted holds at most that row.
    Rows { rows: Vec<Row>, failure: Option<rusqlite::Error> },
    /// The statement failed.
    Failed(rusqlite::Error),
}

/// The mathematical value of a `Reply`.
pub enum ReplyView {
    Done,
    Rows { rows: Seq<RowView>, failed: bool },
    Failed,
}

impl View for Reply {
    type V = ReplyView;

    open spec fn view(&self) -> ReplyView {
        match self {
            Reply::Done => ReplyView::Done,
            Reply::Rows { rows, failure } => ReplyView::Rows {
                rows: rows@.map_values(|r: Row| r@),
                failed: failure is Some,
            },
            Reply::Failed(_) => ReplyView::Failed,
        }
    }
}

// ---------------------------------------------------------------------
// What a row reads as.

/// The script of a row.
pub open spec fn script_of_row(r: RowView) -> Result<Seq<u8>, ErrorKind> {
    match r {
        RowView::Script { script } => Ok(script),
        _ => Err(ErrorKind::UnexpectedReply),
    }
}

/// The derivation path of a row.
pub open spec fn path_of_row(r: RowView) -> Result<(KeychainKind, u32), ErrorKind> {
    match r {
        RowView::Path { keychain, child } => match keychain_from_text(keychain) {
            Ok(k) => Ok((k, child)),
            Err(e) => Err(e),
        },
        _ => Err(ErrorKind::UnexpectedReply),
    }
}

/// The output of a row of every output.  The keychain is read first, then
/// the transaction id.
pub open spec fn utxo_of_row(r: RowView) -> Result<UtxoView, ErrorKind> {
    match r {
        RowView::Utxo { value, keychain, vout, txid, script, is_spent } => match keychain_from_text(
            keychain,
        ) {
            Ok(k) => match txid_from_bytes(txid) {
                Ok(t) => Ok(
                    UtxoView {
                        txid: t,
                        vout,
                        value,
                        script_pubkey: script,
                        keychain: k,
                        is_spent,
                    },
                ),
                Err(e) => Err(e),
            },
            Err(e) => Err(e),
        },
        _ => Err(ErrorKind::UnexpectedReply),
    }
}

/// The output of a row found at the outpoint (`txid`, `vout`).  The keychain
/// is read first, then the transaction id.
pub open spec fn utxo_at_of_row(r: RowView, txid: Seq<u8>, vout: u32) -> Result<UtxoView, ErrorKind> {
    match r {
        RowView::UtxoAt { value, keychain, script, is_spent } => match keychain_from_text(keychain) {
            Ok(k) => match txid_from_bytes(txid) {
                Ok(t) => Ok(
                    UtxoView {
                        txid: t,
                        vout,
                        value,
                        script_pubkey: script,
                        keychain: k,
                        is_spent,
                    },
                ),
                Err(e) => Err(e),
            },
            Err(e) => Err(e),
        },
        _ => Err(ErrorKind::UnexpectedReply),
    }
}

/// The encoded transaction of a row.
pub open spec fn transaction_of_row(r: RowView) -> Result<Seq<u8>, ErrorKind> {
    match r {
        RowView::RawTx { raw_tx } => transaction_from_bytes(raw_tx),
        _ => Err(ErrorKind::UnexpectedReply),
    }
}

/// An optional encoded transaction read back.
pub open spec fn optional_transaction(raw: Option<Seq<u8>>) -> Result<Option<Seq<u8>>, ErrorKind> {
    match raw {
        Some(b) => match transaction_from_bytes(b) {
            Ok(t) => Ok(Some(t)),
            Err(e) => Err(e),
        },
        None => Ok(None),
    }
}

/// The details of a row of every set of details; the transaction is not
/// read.
pub open spec fn details_of_row(r: RowView) -> Result<DetailsView, ErrorKind> {
    match r {
        RowView::Details { txid, timestamp, received, sent, fee, height } => match txid_from_bytes(
            txid,
        ) {
            Ok(t) => Ok(
                DetailsView {
                    transaction: None,
                    txid: t,
                    received,
                    sent,
                    fee,
                    confirmation_time: confirmation_of(height, timestamp),
                },
            ),
            Err(e) => Err(e),
        },
        _ => Err(ErrorKind::UnexpectedReply),
    }
}

/// The details of a row of details with their transaction.  The transaction
/// id is read first, then the transaction.
pub open spec fn details_with_raw_of_row(r: RowView) -> Result<DetailsView, ErrorKind> {
    match r {
        RowView::DetailsWithRaw { txid, timestamp, received, sent, fee, height, raw_tx } =>
            match txid_from_bytes(txid) {
            Ok(t) => match optional_transaction(raw_tx) {
                Ok(tx) => Ok(
                    DetailsView {
                        transaction: tx,
                        txid: t,
                        received,
                        sent,
                        fee,
                        confirmation_time: confirmation_of(height, timestamp),
                    },
                ),
                Err(e) => Err(e),
            },
            Err(e) => Err(e),
        },
        _ => Err(ErrorKind::UnexpectedReply),
    }
}

/// The details of a row found for `txid`.  The transaction is read first,
/// then the transaction id.
pub open spec fn details_of_txid_row(r: RowView, txid: Seq<u8>) -> Result<DetailsView, ErrorKind> {
    match r {
        RowView::DetailsOfTxid { timestamp, received, sent, fee, height, raw_tx } =>
            match optional_transaction(raw_tx) {
            Ok(tx) => match txid_from_bytes(txid) {
                Ok(t) => Ok(
                    DetailsView {
                        transaction: tx,
                        txid: t,
                        received,
                        sent,
                        fee,
                        confirmation_time: confirmation_of(height, timestamp),
                    },
                ),
                Err(e) => Err(e),
            },
            Err(e) => Err(e),
        },
        _ => Err(ErrorKind::UnexpectedReply),
    }
}

/// The derivation index of a row.
pub open spec fn index_of_row(r: RowView) -> Result<u32, ErrorKind> {
    match r {
        RowView::Index { value } => Ok(value),
        _ => Err(ErrorKind::UnexpectedReply),
    }
}

/// The sync time of a row.
pub open spec fn sync_time_of_row(r: RowView) -> Result<SyncTime, ErrorKind> {
    match r {
        RowView::SyncTime { height, timestamp } => Ok(
            SyncTime { block_time: BlockTime { height, timestamp } },
        ),
        _ => Err(ErrorKind::UnexpectedReply),
    }
}

/// The descriptor checksum of a row.
pub open spec fn checksum_of_row(r: RowView) -> Result<Seq<u8>, ErrorKind> {
    match r {
        RowView::Checksum { checksum } => Ok(checksum),
        _ => Err(ErrorKind::UnexpectedReply),
    }
}

// ---------------------------------------------------------------------
// Reading rows.

/// Reads the script of a row.
pub fn read_script(r: &Row) -> (res: Result<Vec<u8>, StoreError>)
    ensures
        match res {
            Ok(s) => script_of_row(r@) == Ok::<Seq<u8>, ErrorKind>(s@),
            Err(e) => script_of_row(r@) == Err::<Seq<u8>, ErrorKind>(e@),
        },
{
    match r {
        Row::Script { script } => Ok(copy_bytes(script)),
        _ => Err(StoreError::UnexpectedReply),
    }
}

/// Reads the derivation path of a row.
pub fn read_path(r: &Row) -> (res: Result<(KeychainKind, u32), StoreError>)
    ensures
        match res {
            Ok(p) => path_of_row(r@) == Ok::<(KeychainKind, u32), ErrorKind>(p),
            Err(e) => path_of_row(r@) == Err::<(KeychainKind, u32), ErrorKind>(e@),
        },
{
    match r {
        Row::Path { keychain, child } => match decode_keychain(keychain.as_str()) {
            Ok(k) => Ok((k, *child)),
            Err(e) => Err(e),
        },
        _ => Err(StoreError::UnexpectedReply),
    }
}

/// Reads the output of a row of every output.
pub fn read_utxo(r: &Row) -> (res: Result<LocalUtxo, StoreError>)
    ensures
        match res {
            Ok(u) => utxo_of_row(r@) == Ok::<UtxoView, ErrorKind>(u@),
            Err(e) => utxo_of_row(r@) == Err::<UtxoView, ErrorKind>(e@),
        },
{
    match r {
        Row::Utxo { value, keychain, vout, txid, script, is_spent } => {
            let k = match decode_keychain(keychain.as_str()) {
                Ok(k) => k,
                Err(e) => return Err(e),
            };
            let t = match decode_txid_bytes(txid.as_slice()) {
                Ok(t) => t,
                Err(e) => return Err(e),
            };
            Ok(
                LocalUtxo {
                    outpoint: OutPoint { txid: t, vout: *vout },
                    txout: TxOut { value: *value, script_pubkey: copy_bytes(script) },
                    keychain: k,
                    is_spent: *is_spent,
                },
            )
        },
        _ => Err(StoreError::UnexpectedReply),
    }
}

/// Reads the output of a row found at the outpoint (`txid`, `vout`).
pub fn read_utxo_at(r: &Row, txid: &[u8], vout: u32) -> (res: Result<LocalUtxo, StoreError>)
    ensures
        match res {
            Ok(u) => utxo_at_of_row(r@, txid@, vout) == Ok::<UtxoView, ErrorKind>(u@),
            Err(e) => utxo_at_of_row(r@, txid@, vout) == Err::<UtxoView, ErrorKind>(e@),
        },
{
    match r {
        Row::UtxoAt { value, keychain, script, is_spent } => {
            let k = match decode_keychain(keychain.as_str()) {
                Ok(k) => k,
                Err(e) => return Err(e),
            };
            let t = match decode_txid_bytes(txid) {
                Ok(t) => t,
                Err(e) => return Err(e),
            };
            Ok(
                LocalUtxo {
                    outpoint: OutPoint { txid: t, vout },
                    txout: TxOut { value: *value, script_pubkey: copy_bytes(script) },
                    keychain: k,
                    is_spent: *is_spent,
                },
            )
        },
        _ => Err(StoreError::UnexpectedReply),
    }
}

/// Reads the encoded transaction of a row.
pub fn read_transaction(r: &Row) -> (res: Result<Vec<u8>, StoreError>)
    ensures
        match res {
            Ok(t) => transaction_of_row(r@) == Ok::<Seq<u8>, ErrorKind>(t@),
            Err(e) => transaction_of_row(r@) == Err::<Seq<u8>, ErrorKind>(e@),
        },
{
    match r {
        Row::RawTx { raw_tx } => decode_transaction(copy_bytes(raw_tx)),
        _ => Err(StoreError::UnexpectedReply),
    }
}

/// Reads an optional encoded transaction.
fn read_optional_transaction(raw: &Option<Vec<u8>>) -> (res: Result<Option<Vec<u8>>, StoreError>)
    ensures
        match res {
            Ok(t) => optional_transaction(opt_bytes(*raw)) == Ok::<Option<Seq<u8>>, ErrorKind>(
                opt_bytes(t),
            ),
            Err(e) => optional_transaction(opt_bytes(*raw)) == Err::<Option<Seq<u8>>, ErrorKind>(
                e@,
            ),
        },
{
    match raw {
        Some(b) => match decode_transaction(copy_bytes(b)) {
            Ok(t) => Ok(Some(t)),
            Err(e) => Err(e),
        },
        None => Ok(None),
    }
}

/// Reads the details of a row of every set of details.
pub fn read_details(r: &Row) -> (res: Result<TransactionDetails, StoreError>)
    ensures
        match res {
            Ok(d) => details_of_row(r@) == Ok::<DetailsView, ErrorKind>(d@),
            Err(e) => details_of_row(r@) == Err::<DetailsView, ErrorKind>(e@),
        },
{
    match r {
        Row::Details { txid, timestamp, received, sent, fee, height } => {
            let t = match decode_txid_bytes(txid.as_slice()) {
                Ok(t) => t,
                Err(e) => return Err(e),
            };
            Ok(
                TransactionDetails {
                    transaction: None,
                    txid: t,
                    received: *received,
                    sent: *sent,
                    fee: *fee,
                    confirmation_time: confirmation_from_columns(*height, *timestamp),
                },
            )
        },
        _ => Err(StoreError::UnexpectedReply),
    }
}

/// Reads the details of a row of details with their transaction.
pub fn read_details_with_raw(r: &Row) -> (res: Result<TransactionDetails, StoreError>)
    ensures
        match res {
            Ok(d) => details_with_raw_of_row(r@) == Ok::<DetailsView, ErrorKind>(d@),
            Err(e) => details_with_raw_of_row(r@) == Err::<DetailsView, ErrorKind>(e@),
        },
{
    match r {
        Row::DetailsWithRaw { txid, timestamp, received, sent, fee, height, raw_tx } => {
            let t = match decode_txid_bytes(txid.as_slice()) {
                Ok(t) => t,
                Err(e) => return Err(e),
            };
            let tx = match read_optional_transaction(raw_tx) {
                Ok(tx) => tx,
                Err(e) => return Err(e),
            };
            Ok(
                TransactionDetails {
                    transaction: tx,
                    txid: t,
                    received: *received,
                    sent: *sent,
                    fee: *fee,
                    confirmation_time: confirmation_from_columns(*height, *timestamp),
                },
            )
        },
        _ => Err(StoreError::UnexpectedReply),
    }
}

/// Reads the details of a row found for `txid`.
pub fn read_details_of_txid(r: &Row, txid: &[u8]) -> (res: Result<TransactionDetails, StoreError>)
    ensures
        match res {
            Ok(d) => details_of_txid_row(r@, txid@) == Ok::<DetailsView, ErrorKind>(d@),
            Err(e) => details_of_txid_row(r@, txid@) == Err::<DetailsView, ErrorKind>(e@),
        },
{
    match r {
        Row::DetailsOfTxid { timestamp, received, sent, fee, height, raw_tx } => {
            let tx = match read_optional_transaction(raw_tx) {
                Ok(tx) => tx,
                Err(e) => return Err(e),
            };
            let t = match decode_txid_bytes(txid) {
                Ok(t) => t,
                Err(e) => return Err(e),
            };
            Ok(
                TransactionDetails {
                    transaction: tx,
                    txid: t,
                    received: *received,
                    sent: *sent,
                    fee: *fee,
                    confirmation_time: confirmation_from_columns(*height, *timestamp),
                },
            )
        },
        _ => Err(StoreError::UnexpectedReply),
    }
}

/// Reads the derivation index of a row.
pub fn read_index(r: &Row) -> (res: Result<u32, StoreError>)
    ensures
        match res {
            Ok(v) => index_of_row(r@) == Ok::<u32, ErrorKind>(v),
            Err(e) => index_of_row(r@) == Err::<u32, ErrorKind>(e@),
        },
{
    match r {
        Row::Index { value } => Ok(*value),
        _ => Err(StoreError::UnexpectedReply),
    }
}

/// Reads the sync time of a row.
pub fn read_sync_time(r: &Row) -> (res: Result<SyncTime, StoreError>)
    ensures
        match res {
            Ok(s) => sync_time_of_row(r@) == Ok::<SyncTime, ErrorKind>(s),
            Err(e) => sync_time_of_row(r@) == Err::<SyncTime, ErrorKind>(e@),
        },
{
    match r {
        Row::SyncTime { height, timestamp } => Ok(
            SyncTime { block_time: BlockTime { height: *height, timestamp: *timestamp } },
        ),
        _ => Err(StoreError::UnexpectedReply),
    }
}

/// Reads the descriptor checksum of a row.
pub fn read_checksum(r: &Row) -> (res: Result<Vec<u8>, StoreError>)
    ensures
        match res {
            Ok(c) => checksum_of_row(r@) == Ok::<Seq<u8>, ErrorKind>(c@),
            Err(e) => checksum_of_row(r@) == Err::<Seq<u8>, ErrorKind>(e@),
        },
{
    match r {
        Row::Checksum { checksum } => Ok(copy_bytes(checksum)),
        _ => Err(StoreError::UnexpectedReply),
    }
}

} // verus!
