//! The protocol of each store operation: the statements it issues, one
//! after the other, and how it answers once their replies are in.
//!
//! An operation starts with `Operation::begin`, which gives the first
//! action.  While the action is a statement, the caller runs it and hands the
//! reply to `Operation::resume`, which gives the next action; an operation
//! ends with `Action::Finish`.
use vstd::prelude::*;
use crate::codec::keychain_text;
use crate::error::{ErrorKind, StoreError};
use crate::request::{answer_view, Output, OutputView, RequestView};
use crate::rows::{
    checksum_of_row, details_of_row, details_of_txid_row, details_with_raw_of_row, index_of_row,
    path_of_row, script_of_row, sync_time_of_row, transaction_of_row, utxo_at_of_row, utxo_of_row,
    ReplyView, RowView,
};
use crate::sql::{Statement, StatementView};
use crate::types::{opt_bytes, BlockTime, DetailsView, TransactionDetails};

verus! {

// ---------------------------------------------------------------------
// States and actions.

/// What follows once an outstanding write has succeeded.
#[derive(Debug)]
pub enum AfterWrite {
    /// Answer with `output`.
    Answer { output: Output },
    /// Details are written; record the transaction next under `txid`,
    /// where there is one.
    StoreTransaction { txid: Vec<u8>, transaction: Option<Vec<u8>> },
    /// Details are forgotten; forget the transaction of `txid` next, then
    /// answer with `output`.
    DeleteTransaction { txid: Vec<u8>, output: Output },
}

/// What the rows of an outstanding query are for.
#[derive(Debug)]
pub enum AfterRead {
    /// Whether an encoding is on record for `txid`: replace it or record it.
    UpsertTransaction { txid: Vec<u8>, transaction: Vec<u8> },
    /// Whether details are on record for their id: replace them or record
    /// them, then record their transaction under `transaction_txid`.
    UpsertDetails { details: TransactionDetails, transaction_txid: Vec<u8> },
    /// The script at a path, to forget it.
    TakeScript { keychain: String, child: u32 },
    /// The path of a script, to forget it.
    TakePath { script: Vec<u8> },
    /// The output at an outpoint, to forget it.
    TakeUtxo { txid: Vec<u8>, vout: u32 },
    /// The encoding of a transaction id, to forget it.
    TakeTransaction { txid: Vec<u8> },
    /// The details of a transaction id, to forget them.
    TakeDetails { txid: Vec<u8>, include_raw: bool },
    /// The last derivation index of a keychain, to forget it.
    TakeIndex { keychain: String },
    /// The sync time, to forget it.
    TakeSyncTime,
    /// The checksum on record for a keychain, to compare it with `bytes`.
    CompareChecksum { keychain: String, bytes: Vec<u8> },
    /// The last derivation index of a keychain, to advance it.
    Increment { keychain: String },
    /// Scripts, to answer with.
    ListScripts,
    /// Outputs, to answer with.
    ListUtxos,
    /// Encoded transactions, to answer with.
    ListTransactions,
    /// Sets of details (with their transactions, where `include_raw`).
    ListDetails { include_raw: bool },
    /// The script at a path.
    FindScript,
    /// The path of a script.
    FindPath,
    /// The output at an outpoint.
    FindUtxo { txid: Vec<u8>, vout: u32 },
    /// The encoding of a transaction id.
    FindTransaction,
    /// The details of a transaction id.
    FindDetails { txid: Vec<u8>, include_raw: bool },
    /// The last derivation index of a keychain.
    FindIndex,
    /// The sync time.
    FindSyncTime,
}

/// Where an operation stands.
#[derive(Debug)]
pub enum Operation {
    /// It has finished.
    Finished,
    /// It waits for the reply to a write.
    Writing { then: AfterWrite },
    /// It waits for the rows of a query.
    Reading { then: AfterRead },
}

/// What the caller does next for an operation.
#[derive(Debug)]
pub enum Action {
    /// Run a statement that writes, and hand back its reply.
    Execute(Statement),
    /// Run a query and hand back its first row, if it gives one.
    QueryFirst(Statement),
    /// Run a query and hand back all its rows.
    QueryAll(Statement),
    /// The operation has ended with this answer.
    Finish(Result<Output, StoreError>),
}

/// The mathematical value of an `AfterWrite`.
pub enum AfterWriteView {
    Answer { output: OutputView },
    StoreTransaction { txid: Seq<u8>, transaction: Option<Seq<u8>> },
    DeleteTransaction { txid: Seq<u8>, output: OutputView },
}

/// The mathematical value of an `AfterRead`.
pub enum AfterReadView {
    UpsertTransaction { txid: Seq<u8>, transaction: Seq<u8> },
    UpsertDetails { details: DetailsView, transaction_txid: Seq<u8> },
    TakeScript { keychain: Seq<char>, child: u32 },
    TakePath { script: Seq<u8> },
    TakeUtxo { txid: Seq<u8>, vout: u32 },
    TakeTransaction { txid: Seq<u8> },
    TakeDetails { txid: Seq<u8>, include_raw: bool },
    TakeIndex { keychain: Seq<char> },
    TakeSyncTime,
    CompareChecksum { keychain: Seq<char>, bytes: Seq<u8> },
    Increment { keychain: Seq<char> },
    ListScripts,
    ListUtxos,
    ListTransactions,
    ListDetails { include_raw: bool },
    FindScript,
    FindPath,
    FindUtxo { txid: Seq<u8>, vout: u32 },
    FindTransaction,
    FindDetails { txid: Seq<u8>, include_raw: bool },
    FindIndex,
    FindSyncTime,
}

/// The mathematical value of an `Operation`.
pub enum OperationView {
    Finished,
    Writing { then: AfterWriteView },
    Reading { then: AfterReadView },
}

/// The mathematical value of an `Action`.
pub enum ActionView {
    Execute(StatementView),
    QueryFirst(StatementView),
    QueryAll(StatementView),
    Finish(Result<OutputView, ErrorKind>),
}

impl View for AfterWrite {
    type V = AfterWriteView;

    open spec fn view(&self) -> AfterWriteView {
        match self {
            AfterWrite::Answer { output } => AfterWriteView::Answer { output: output@ },
            AfterWrite::StoreTransaction { txid, transaction } => AfterWriteView::StoreTransaction {
                txid: txid@,
                transaction: opt_bytes(*transaction),
            },
            AfterWrite::DeleteTransaction { txid, output } => AfterWriteView::DeleteTransaction {
                txid: txid@,
                output: output@,
            },
        }
    }
}

impl View for AfterRead {
    type V = AfterReadView;

    open spec fn view(&self) -> AfterReadView {
        match self {
            AfterRead::UpsertTransaction { txid, transaction } =>
                AfterReadView::UpsertTransaction { txid: txid@, transaction: transaction@ },
            AfterRead::UpsertDetails { details, transaction_txid } => AfterReadView::UpsertDetails {
                details: details@,
                transaction_txid: transaction_txid@,
            },
            AfterRead::TakeScript { keychain, child } => AfterReadView::TakeScript {
                keychain: keychain@,
                child: *child,
            },
            AfterRead::TakePath { script } => AfterReadView::TakePath { script: script@ },
            AfterRead::TakeUtxo { txid, vout } => AfterReadView::TakeUtxo {
                txid: txid@,
                vout: *vout,
            },
            AfterRead::TakeTransaction { txid } => AfterReadView::TakeTransaction { txid: txid@ },
            AfterRead::TakeDetails { txid, include_raw } => AfterReadView::TakeDetails {
                txid: txid@,
                include_raw: *include_raw,
            },
            AfterRead::TakeIndex { keychain } => AfterReadView::TakeIndex { keychain: keychain@ },
            AfterRead::TakeSyncTime => AfterReadView::TakeSyncTime,
            AfterRead::CompareChecksum { keychain, bytes } => AfterReadView::CompareChecksum {
                keychain: keychain@,
                bytes: bytes@,
            },
            AfterRead::Increment { keychain } => AfterReadView::Increment { keychain: keychain@ },
            AfterRead::ListScripts => AfterReadView::ListScripts,
            AfterRead::ListUtxos => AfterReadView::ListUtxos,
            AfterRead::ListTransactions => AfterReadView::ListTransactions,
            AfterRead::ListDetails { include_raw } => AfterReadView::ListDetails {
                include_raw: *include_raw,
            },
            AfterRead::FindScript => AfterReadView::FindScript,
            AfterRead::FindPath => AfterReadView::FindPath,
            AfterRead::FindUtxo { txid, vout } => AfterReadView::FindUtxo {
                txid: txid@,
                vout: *vout,
            },
            AfterRead::FindTransaction => AfterReadView::FindTransaction,
            AfterRead::FindDetails { txid, include_raw } => AfterReadView::FindDetails {
                txid: txid@,
                include_raw: *include_raw,
            },
            AfterRead::FindIndex => AfterReadView::FindIndex,
            AfterRead::FindSyncTime => AfterReadView::FindSyncTime,
        }
    }
}

impl View for Operation {
    type V = OperationView;

    open spec fn view(&self) -> OperationView {
        match self {
            Operation::Finished => OperationView::Finished,
            Operation::Writing { then } => OperationView::Writing { then: then@ },
            Operation::Reading { then } => OperationView::Reading { then: then@ },
        }
    }
}

impl View for Action {
    type V = ActionView;

    open spec fn view(&self) -> ActionView {
        match self {
            Action::Execute(s) => ActionView::Execute(s@),
            Action::QueryFirst(s) => ActionView::QueryFirst(s@),
            Action::QueryAll(s) => ActionView::QueryAll(s@),
            Action::Finish(r) => ActionView::Finish(answer_view(*r)),
        }
    }
}

/// The mathematical value of a protocol step.
pub open spec fn step_view(r: (Operation, Action)) -> (OperationView, ActionView) {
    (r.0@, r.1@)
}

// ---------------------------------------------------------------------
// The protocol, stated.

/// End with `r`.
pub open spec fn finish(r: Result<OutputView, ErrorKind>) -> (OperationView, ActionView) {
    (OperationView::Finished, ActionView::Finish(r))
}

/// Run the write `s`; `then` follows.
pub open spec fn write_then(s: StatementView, then: AfterWriteView) -> (OperationView, ActionView) {
    (OperationView::Writing { then }, ActionView::Execute(s))
}

/// Run the query `s` for its first row; `then` reads it.
pub open spec fn read_first(s: StatementView, then: AfterReadView) -> (OperationView, ActionView) {
    (OperationView::Reading { then }, ActionView::QueryFirst(s))
}

/// Run the query `s` for all its rows; `then` reads them.
pub open spec fn read_all(s: StatementView, then: AfterReadView) -> (OperationView, ActionView) {
    (OperationView::Reading { then }, ActionView::QueryAll(s))
}

/// The first row of a reply: `None` where the query gave none.
pub open spec fn first_row(reply: ReplyView) -> Result<Option<RowView>, ErrorKind> {
    match reply {
        ReplyView::Rows { rows, failed } => if rows.len() > 0 {
            Ok(Some(rows[0]))
        } else if failed {
            Err(ErrorKind::Sqlite)
        } else {
            Ok(None)
        },
        ReplyView::Failed => Err(ErrorKind::Sqlite),
        ReplyView::Done => Err(ErrorKind::UnexpectedReply),
    }
}

/// The first row of a reply, read by `f`.
pub open spec fn on_first<T>(reply: ReplyView, f: spec_fn(RowView) -> Result<T, ErrorKind>) -> Result<
    Option<T>,
    ErrorKind,
> {
    match first_row(reply) {
        Ok(Some(r)) => match f(r) {
            Ok(x) => Ok(Some(x)),
            Err(e) => Err(e),
        },
        Ok(None) => Ok(None),
        Err(e) => Err(e),
    }
}

/// Rows read in order by `f`; the first row that fails to read gives the
/// error.
pub open spec fn read_rows<T>(rows: Seq<RowView>, f: spec_fn(RowView) -> Result<T, ErrorKind>) -> Result<
    Seq<T>,
    ErrorKind,
>
    decreases rows.len(),
{
    if rows.len() == 0 {
        Ok(Seq::empty())
    } else {
        match read_rows(rows.drop_last(), f) {
            Ok(s) => match f(rows.last()) {
                Ok(x) => Ok(s.push(x)),
                Err(e) => Err(e),
            },
            Err(e) => Err(e),
        }
    }
}

/// All rows of a reply, read by `f`.  An error in reading a row comes
/// before an error that stopped the fetching of later rows.
pub open spec fn on_all<T>(reply: ReplyView, f: spec_fn(RowView) -> Result<T, ErrorKind>) -> Result<
    Seq<T>,
    ErrorKind,
> {
    match reply {
        ReplyView::Rows { rows, failed } => match read_rows(rows, f) {
            Ok(s) => if failed {
                Err(ErrorKind::Sqlite)
            } else {
                Ok(s)
            },
            Err(e) => Err(e),
        },
        ReplyView::Failed => Err(ErrorKind::Sqlite),
        ReplyView::Done => Err(ErrorKind::UnexpectedReply),
    }
}

/// The timestamp column of a confirmation.
pub open spec fn timestamp_column(c: Option<BlockTime>) -> Option<u64> {
    match c {
        Some(b) => Some(b.timestamp),
        None => None,
    }
}

/// The height column of a confirmation.
pub open spec fn height_column(c: Option<BlockTime>) -> Option<u32> {
    match c {
        Some(b) => Some(b.height),
        None => None,
    }
}

/// Records `d` as new details.
pub open spec fn insert_details(d: DetailsView) -> StatementView {
    StatementView::InsertTransactionDetails {
        txid: d.txid,
        timestamp: timestamp_column(d.confirmation_time),
        received: d.received,
        sent: d.sent,
        fee: d.fee,
        height: height_column(d.confirmation_time),
    }
}

/// Replaces the details on record for the id of `d`.
pub open spec fn update_details(d: DetailsView) -> StatementView {
    StatementView::UpdateTransactionDetails {
        txid: d.txid,
        timestamp: timestamp_column(d.confirmation_time),
        received: d.received,
        sent: d.sent,
        fee: d.fee,
        height: height_column(d.confirmation_time),
    }
}

/// Starts recording an encoded transaction under `txid`: the encoding on
/// record for that id is looked up.
pub open spec fn start_store_transaction(txid: Seq<u8>, raw: Seq<u8>) -> (OperationView, ActionView) {
    read_first(
        StatementView::SelectTransactionByTxid { txid },
        AfterReadView::UpsertTransaction { txid, transaction: raw },
    )
}

/// The first step of an operation.
pub open spec fn begin_spec(req: RequestView) -> (OperationView, ActionView) {
    match req {
        RequestView::SetScriptPubkey { script, keychain, child } => write_then(
            StatementView::InsertScriptPubkey { keychain: keychain_text(keychain), child, script },
            AfterWriteView::Answer { output: OutputView::Unit },
        ),
        RequestView::SetUtxo { utxo } => write_then(
            StatementView::InsertUtxo {
                value: utxo.value,
                keychain: keychain_text(utxo.keychain),
                vout: utxo.vout,
                txid: utxo.txid,
                script: utxo.script_pubkey,
                is_spent: utxo.is_spent,
            },
            AfterWriteView::Answer { output: OutputView::Unit },
        ),
        RequestView::SetRawTx { txid, transaction } => start_store_transaction(txid, transaction),
        RequestView::SetTx { details, transaction_txid } => read_first(
            StatementView::SelectTransactionDetailsByTxid { txid: details.txid },
            AfterReadView::UpsertDetails { details, transaction_txid },
        ),
        RequestView::SetLastIndex { keychain, value } => write_then(
            StatementView::UpdateLastDerivationIndex { keychain: keychain_text(keychain), value },
            AfterWriteView::Answer { output: OutputView::Unit },
        ),
        RequestView::SetSyncTime { sync_time } => write_then(
            StatementView::UpdateSyncTime {
                height: sync_time.block_time.height,
                timestamp: sync_time.block_time.timestamp,
            },
            AfterWriteView::Answer { output: OutputView::Unit },
        ),
        RequestView::DelScriptPubkeyFromPath { keychain, child } => read_first(
            StatementView::SelectScriptPubkeyByPath { keychain: keychain_text(keychain), child },
            AfterReadView::TakeScript { keychain: keychain_text(keychain), child },
        ),
        RequestView::DelPathFromScriptPubkey { script } => read_first(
            StatementView::SelectScriptPubkeyByScript { script },
            AfterReadView::TakePath { script },
        ),
        RequestView::DelUtxo { outpoint } => read_first(
            StatementView::SelectUtxoByOutpoint { txid: outpoint.txid, vout: outpoint.vout },
            AfterReadView::TakeUtxo { txid: outpoint.txid, vout: outpoint.vout },
        ),
        RequestView::DelRawTx { txid } => read_first(
            StatementView::SelectTransactionByTxid { txid },
            AfterReadView::TakeTransaction { txid },
        ),
        RequestView::DelTx { txid, include_raw } => read_first(
            StatementView::SelectTransactionDetailsByTxid { txid },
            AfterReadView::TakeDetails { txid, include_raw },
        ),
        RequestView::DelLastIndex { keychain } => read_first(
            StatementView::SelectLastDerivationIndexByKeychain { keychain: keychain_text(keychain) },
            AfterReadView::TakeIndex { keychain: keychain_text(keychain) },
        ),
        RequestView::DelSyncTime => read_first(
            StatementView::SelectSyncTime,
            AfterReadView::TakeSyncTime,
        ),
        RequestView::CheckDescriptorChecksum { keychain, bytes } => read_first(
            StatementView::SelectChecksumByKeychain { keychain: keychain_text(keychain) },
            AfterReadView::CompareChecksum { keychain: keychain_text(keychain), bytes },
        ),
        RequestView::IterScriptPubkeys { keychain } => match keychain {
            Some(k) => read_all(
                StatementView::SelectScriptPubkeysByKeychain { keychain: keychain_text(k) },
                AfterReadView::ListScripts,
            ),
            None => read_all(StatementView::SelectScriptPubkeys, AfterReadView::ListScripts),
        },
        RequestView::IterUtxos => read_all(StatementView::SelectUtxos, AfterReadView::ListUtxos),
        RequestView::IterRawTxs => read_all(
            StatementView::SelectTransactions,
            AfterReadView::ListTransactions,
        ),
        RequestView::IterTxs { include_raw } => if include_raw {
            read_all(
                StatementView::SelectTransactionDetailsWithRaw,
                AfterReadView::ListDetails { include_raw },
            )
        } else {
            read_all(
                StatementView::SelectTransactionDetails,
                AfterReadView::ListDetails { include_raw },
            )
        },
        RequestView::GetScriptPubkeyFromPath { keychain, child } => read_first(
            StatementView::SelectScriptPubkeyByPath { keychain: keychain_text(keychain), child },
            AfterReadView::FindScript,
        ),
        RequestView::GetPathFromScriptPubkey { script } => read_first(
            StatementView::SelectScriptPubkeyByScript { script },
            AfterReadView::FindPath,
        ),
        RequestView::GetUtxo { outpoint } => read_first(
            StatementView::SelectUtxoByOutpoint { txid: outpoint.txid, vout: outpoint.vout },
            AfterReadView::FindUtxo { txid: outpoint.txid, vout: outpoint.vout },
        ),
        RequestView::GetRawTx { txid } => read_first(
            StatementView::SelectTransactionByTxid { txid },
            AfterReadView::FindTransaction,
        ),
        RequestView::GetTx { txid, include_raw } => read_first(
            StatementView::SelectTransactionDetailsByTxid { txid },
            AfterReadView::FindDetails { txid, include_raw },
        ),
        RequestView::GetLastIndex { keychain } => read_first(
            StatementView::SelectLastDerivationIndexByKeychain { keychain: keychain_text(keychain) },
            AfterReadView::FindIndex,
        ),
        RequestView::GetSyncTime => read_first(
            StatementView::SelectSyncTime,
            AfterReadView::FindSyncTime,
        ),
        RequestView::IncrementLastIndex { keychain } => read_first(
            StatementView::SelectLastDerivationIndexByKeychain { keychain: keychain_text(keychain) },
            AfterReadView::Increment { keychain: keychain_text(keychain) },
        ),
        RequestView::Flush => finish(Ok(OutputView::Unit)),
    }
}

/// The step that follows the reply to a write.
pub open spec fn after_write_spec(then: AfterWriteView, reply: ReplyView) -> (
    OperationView,
    ActionView,
) {
    match reply {
        ReplyView::Done => match then {
            AfterWriteView::Answer { output } => finish(Ok(output)),
            AfterWriteView::StoreTransaction { txid, transaction } => match transaction {
                Some(raw) => start_store_transaction(txid, raw),
                None => finish(Ok(OutputView::Unit)),
            },
            AfterWriteView::DeleteTransaction { txid, output } => write_then(
                StatementView::DeleteTransactionByTxid { txid },
                AfterWriteView::Answer { output },
            ),
        },
        ReplyView::Failed => finish(Err(ErrorKind::Sqlite)),
        ReplyView::Rows { .. } => finish(Err(ErrorKind::UnexpectedReply)),
    }
}

/// Details read back with the transaction left out, unless `include_raw`.
pub open spec fn with_raw_if(d: DetailsView, include_raw: bool) -> DetailsView {
    if include_raw {
        d
    } else {
        DetailsView { transaction: None, ..d }
    }
}

/// The step that answers a lookup: forget what was found, then answer
/// with it; answer `empty` where nothing was found.
pub open spec fn take_then<T>(
    found: Result<Option<T>, ErrorKind>,
    delete: StatementView,
    answer: spec_fn(Option<T>) -> OutputView,
) -> (OperationView, ActionView) {
    match found {
        Ok(Some(x)) => write_then(delete, AfterWriteView::Answer { output: answer(Some(x)) }),
        Ok(None) => finish(Ok(answer(None))),
        Err(e) => finish(Err(e)),
    }
}

/// The step that answers with what a lookup found.
pub open spec fn answer_with<T>(
    found: Result<Option<T>, ErrorKind>,
    answer: spec_fn(Option<T>) -> OutputView,
) -> (OperationView, ActionView) {
    match found {
        Ok(o) => finish(Ok(answer(o))),
        Err(e) => finish(Err(e)),
    }
}

/// The step that answers with every row read.
pub open spec fn answer_with_all<T>(
    found: Result<Seq<T>, ErrorKind>,
    answer: spec_fn(Seq<T>) -> OutputView,
) -> (OperationView, ActionView) {
    match found {
        Ok(s) => finish(Ok(answer(s))),
        Err(e) => finish(Err(e)),
    }
}

/// The step that follows the rows of a query.
pub open spec fn after_read_spec(then: AfterReadView, reply: ReplyView) -> (
    OperationView,
    ActionView,
) {
    match then {
        AfterReadView::UpsertTransaction { txid, transaction } => match on_first(
            reply,
            |r: RowView| transaction_of_row(r),
        ) {
            Ok(Some(_)) => write_then(
                StatementView::UpdateTransaction { txid, raw_tx: transaction },
                AfterWriteView::Answer { output: OutputView::Unit },
            ),
            Ok(None) => write_then(
                StatementView::InsertTransaction { txid, raw_tx: transaction },
                AfterWriteView::Answer { output: OutputView::Unit },
            ),
            Err(e) => finish(Err(e)),
        },
        AfterReadView::UpsertDetails { details, transaction_txid } => match on_first(
            reply,
            |r: RowView| details_of_txid_row(r, details.txid),
        ) {
            Ok(Some(_)) => write_then(
                update_details(details),
                AfterWriteView::StoreTransaction {
                    txid: transaction_txid,
                    transaction: details.transaction,
                },
            ),
            Ok(None) => write_then(
                insert_details(details),
                AfterWriteView::StoreTransaction {
                    txid: transaction_txid,
                    transaction: details.transaction,
                },
            ),
            Err(e) => finish(Err(e)),
        },
        AfterReadView::TakeScript { keychain, child } => take_then(
            on_first(reply, |r: RowView| script_of_row(r)),
            StatementView::DeleteScriptPubkeyByPath { keychain, child },
            |o: Option<Seq<u8>>| OutputView::Script(o),
        ),
        AfterReadView::TakePath { script } => take_then(
            on_first(reply, |r: RowView| path_of_row(r)),
            StatementView::DeleteScriptPubkeyByScript { script },
            |o| OutputView::Path(o),
        ),
        AfterReadView::TakeUtxo { txid, vout } => take_then(
            on_first(reply, |r: RowView| utxo_at_of_row(r, txid, vout)),
            StatementView::DeleteUtxoByOutpoint { txid, vout },
            |o| OutputView::Utxo(o),
        ),
        AfterReadView::TakeTransaction { txid } => take_then(
            on_first(reply, |r: RowView| transaction_of_row(r)),
            StatementView::DeleteTransactionByTxid { txid },
            |o| OutputView::Transaction(o),
        ),
        AfterReadView::TakeDetails { txid, include_raw } => match on_first(
            reply,
            |r: RowView| details_of_txid_row(r, txid),
        ) {
            Ok(Some(d)) => if include_raw {
                write_then(
                    StatementView::DeleteTransactionDetailsByTxid { txid },
                    AfterWriteView::DeleteTransaction {
                        txid,
                        output: OutputView::Details(Some(d)),
                    },
                )
            } else {
                write_then(
                    StatementView::DeleteTransactionDetailsByTxid { txid },
                    AfterWriteView::Answer { output: OutputView::Details(Some(d)) },
                )
            },
            Ok(None) => finish(Ok(OutputView::Details(None))),
            Err(e) => finish(Err(e)),
        },
        AfterReadView::TakeIndex { keychain } => take_then(
            on_first(reply, |r: RowView| index_of_row(r)),
            StatementView::DeleteLastDerivationIndexByKeychain { keychain },
            |o| OutputView::Index(o),
        ),
        AfterReadView::TakeSyncTime => take_then(
            on_first(reply, |r: RowView| sync_time_of_row(r)),
            StatementView::DeleteSyncTime,
            |o| OutputView::SyncTime(o),
        ),
        AfterReadView::CompareChecksum { keychain, bytes } => match on_first(
            reply,
            |r: RowView| checksum_of_row(r),
        ) {
            Ok(Some(c)) => if c == bytes {
                finish(Ok(OutputView::Unit))
            } else {
                finish(Err(ErrorKind::ChecksumMismatch))
            },
            Ok(None) => write_then(
                StatementView::InsertChecksum { keychain, checksum: bytes },
                AfterWriteView::Answer { output: OutputView::Unit },
            ),
            Err(e) => finish(Err(e)),
        },
        AfterReadView::Increment { keychain } => match on_first(
            reply,
            |r: RowView| index_of_row(r),
        ) {
            Ok(Some(v)) => if v == u32::MAX {
                finish(Err(ErrorKind::IndexOverflow))
            } else {
                write_then(
                    StatementView::UpdateLastDerivationIndex { keychain, value: (v + 1) as u32 },
                    AfterWriteView::Answer { output: OutputView::NextIndex((v + 1) as u32) },
                )
            },
            Ok(None) => write_then(
                StatementView::InsertLastDerivationIndex { keychain, value: 0 },
                AfterWriteView::Answer { output: OutputView::NextIndex(0) },
            ),
            Err(e) => finish(Err(e)),
        },
        AfterReadView::ListScripts => answer_with_all(
            on_all(reply, |r: RowView| script_of_row(r)),
            |s| OutputView::Scripts(s),
        ),
        AfterReadView::ListUtxos => answer_with_all(
            on_all(reply, |r: RowView| utxo_of_row(r)),
            |s| OutputView::Utxos(s),
        ),
        AfterReadView::ListTransactions => answer_with_all(
            on_all(reply, |r: RowView| transaction_of_row(r)),
            |s| OutputView::Transactions(s),
        ),
        AfterReadView::ListDetails { include_raw } => if include_raw {
            answer_with_all(
                on_all(reply, |r: RowView| details_with_raw_of_row(r)),
                |s| OutputView::DetailsList(s),
            )
        } else {
            answer_with_all(
                on_all(reply, |r: RowView| details_of_row(r)),
                |s| OutputView::DetailsList(s),
            )
        },
        AfterReadView::FindScript => answer_with(
            on_first(reply, |r: RowView| script_of_row(r)),
            |o| OutputView::Script(o),
        ),
        AfterReadView::FindPath => answer_with(
            on_first(reply, |r: RowView| path_of_row(r)),
            |o| OutputView::Path(o),
        ),
        AfterReadView::FindUtxo { txid, vout } => answer_with(
            on_first(reply, |r: RowView| utxo_at_of_row(r, txid, vout)),
            |o| OutputView::Utxo(o),
        ),
        AfterReadView::FindTransaction => answer_with(
            on_first(reply, |r: RowView| transaction_of_row(r)),
            |o| OutputView::Transaction(o),
        ),
        AfterReadView::FindDetails { txid, include_raw } => match on_first(
            reply,
            |r: RowView| details_of_txid_row(r, txid),
        ) {
            Ok(Some(d)) => finish(Ok(OutputView::Details(Some(with_raw_if(d, include_raw))))),
            Ok(None) => finish(Ok(OutputView::Details(None))),
            Err(e) => finish(Err(e)),
        },
        AfterReadView::FindIndex => answer_with(
            on_first(reply, |r: RowView| index_of_row(r)),
            |o| OutputView::Index(o),
        ),
        AfterReadView::FindSyncTime => answer_with(
            on_first(reply, |r: RowView| sync_time_of_row(r)),
            |o| OutputView::SyncTime(o),
        ),
    }
}

/// The step that follows a reply.  A reply to a finished operation is out
/// of place.
pub open spec fn resume_spec(op: OperationView, reply: ReplyView) -> (OperationView, ActionView) {
    match op {
        OperationView::Finished => finish(Err(ErrorKind::UnexpectedReply)),
        OperationView::Writing { then } => after_write_spec(then, reply),
        OperationView::Reading { then } => after_read_spec(then, reply),
    }
}

} // verus!
