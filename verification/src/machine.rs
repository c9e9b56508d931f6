//! The protocol of the store operations, carried out.
use vstd::prelude::*;
use crate::bytes::{bytes_equal, copy_bytes};
use crate::codec::encode_keychain;
use crate::error::{ErrorKind, StoreError};
use crate::protocol::{
    after_read_spec, after_write_spec, begin_spec, finish, first_row, read_all, read_first,
    read_rows, resume_spec, start_store_transaction, step_view, write_then, Action, AfterRead,
    AfterReadView, AfterWrite, AfterWriteView, Operation, update_details, insert_details,
};
use crate::request::{answer_view, Output, Request};
use crate::rows::{
    details_of_row, details_with_raw_of_row, read_checksum, read_details, read_details_of_txid,
    read_details_with_raw, read_index, read_path, read_script, read_sync_time, read_transaction,
    read_utxo, read_utxo_at, script_of_row, transaction_of_row, utxo_of_row, Reply, ReplyView, Row,
    RowView,
};
use crate::sql::Statement;
use crate::types::{
    opt_bytes, confirmation_columns, DetailsView, LocalUtxo, TransactionDetails, UtxoView,
};

verus! {

/// The mathematical values of a sequence of rows.
pub open spec fn rows_view(rows: Seq<Row>) -> Seq<RowView> {
    rows.map_values(|r: Row| r@)
}

/// The SQLite error that a reply carries, if it carries one.
pub open spec fn reply_error(reply: Reply) -> Option<rusqlite::Error> {
    match reply {
        Reply::Failed(e) => Some(e),
        Reply::Rows { failure, .. } => failure,
        Reply::Done => None,
    }
}

/// An action that ends an operation with an SQLite error ends it with the
/// one that the reply carried.
pub open spec fn passes_reply_error(reply: Reply, a: Action) -> bool {
    match a {
        Action::Finish(Err(StoreError::Sqlite(e))) => reply_error(reply) == Some(e),
        _ => true,
    }
}

/// Reading one more row extends what the rows before it read as.
pub proof fn lemma_read_rows_extend<T>(rows: Seq<RowView>, f: spec_fn(RowView) -> Result<T, ErrorKind>, i: int)
    requires
        0 <= i < rows.len(),
    ensures
        read_rows(rows.take(i + 1), f) == match read_rows(rows.take(i), f) {
            Ok(s) => match f(rows[i]) {
                Ok(x) => Ok(s.push(x)),
                Err(e) => Err(e),
            },
            Err(e) => Err(e),
        },
{
    assert(rows.take(i + 1).drop_last() =~= rows.take(i));
    assert(rows.take(i + 1).last() == rows[i]);
}

/// Once a row fails to read, reading more rows gives the same error.
pub proof fn lemma_read_rows_error_persists<T>(
    rows: Seq<RowView>,
    f: spec_fn(RowView) -> Result<T, ErrorKind>,
    i: int,
)
    requires
        0 <= i <= rows.len(),
        read_rows(rows.take(i), f) is Err,
    ensures
        read_rows(rows, f) == read_rows(rows.take(i), f),
    decreases rows.len() - i,
{
    if i < rows.len() {
        lemma_read_rows_extend(rows, f, i);
        lemma_read_rows_error_persists(rows, f, i + 1);
    } else {
        assert(rows.take(i) =~= rows);
    }
}

// ---------------------------------------------------------------------
// Reading every row of a reply.

fn read_scripts(rows: &Vec<Row>) -> (r: Result<Vec<Vec<u8>>, StoreError>)
    ensures
        match r {
            Ok(v) => read_rows(rows_view(rows@), |x: RowView| script_of_row(x)) == Ok::<
                Seq<Seq<u8>>,
                ErrorKind,
            >(v@.map_values(|b: Vec<u8>| b@)),
            Err(e) => read_rows(rows_view(rows@), |x: RowView| script_of_row(x)) == Err::<
                Seq<Seq<u8>>,
                ErrorKind,
            >(e@),
        },
        r matches Err(e) ==> !(e is Sqlite),
{
    let ghost rv = rows_view(rows@);
    let ghost f = |x: RowView| script_of_row(x);
    let mut out: Vec<Vec<u8>> = Vec::new();
    let mut i: usize = 0;
    assert(out@.map_values(|b: Vec<u8>| b@) =~= Seq::<Seq<u8>>::empty());
    while i < rows.len()
        invariant
            rv == rows_view(rows@),
            f == (|x: RowView| script_of_row(x)),
            i <= rows.len(),
            read_rows(rv.take(i as int), f) == Ok::<Seq<Seq<u8>>, ErrorKind>(
                out@.map_values(|b: Vec<u8>| b@),
            ),
        decreases rows.len() - i,
    {
        proof {
            lemma_read_rows_extend(rv, f, i as int);
        }
        match read_script(&rows[i]) {
            Ok(s) => {
                let ghost before = out@;
                out.push(s);
                assert(out@.map_values(|b: Vec<u8>| b@) =~= before.map_values(|b: Vec<u8>| b@).push(s@));
            },
            Err(e) => {
                proof {
                    lemma_read_rows_error_persists(rv, f, i + 1);
                }
                return Err(e);
            },
        }
        i = i + 1;
    }
    assert(rv.take(i as int) =~= rv);
    Ok(out)
}

fn read_utxos(rows: &Vec<Row>) -> (r: Result<Vec<LocalUtxo>, StoreError>)
    ensures
        match r {
            Ok(v) => read_rows(rows_view(rows@), |x: RowView| utxo_of_row(x)) == Ok::<
                Seq<UtxoView>,
                ErrorKind,
            >(v@.map_values(|u: LocalUtxo| u@)),
            Err(e) => read_rows(rows_view(rows@), |x: RowView| utxo_of_row(x)) == Err::<
                Seq<UtxoView>,
                ErrorKind,
            >(e@),
        },
        r matches Err(e) ==> !(e is Sqlite),
{
    let ghost rv = rows_view(rows@);
    let ghost f = |x: RowView| utxo_of_row(x);
    let mut out: Vec<LocalUtxo> = Vec::new();
    let mut i: usize = 0;
    assert(out@.map_values(|u: LocalUtxo| u@) =~= Seq::<UtxoView>::empty());
    while i < rows.len()
        invariant
            rv == rows_view(rows@),
            f == (|x: RowView| utxo_of_row(x)),
            i <= rows.len(),
            read_rows(rv.take(i as int), f) == Ok::<Seq<UtxoView>, ErrorKind>(
                out@.map_values(|u: LocalUtxo| u@),
            ),
        decreases rows.len() - i,
    {
        proof {
            lemma_read_rows_extend(rv, f, i as int);
        }
        match read_utxo(&rows[i]) {
            Ok(u) => {
                let ghost before = out@;
                let ghost uv = u@;
                out.push(u);
                assert(out@.map_values(|u: LocalUtxo| u@) =~= before.map_values(|u: LocalUtxo| u@).push(uv));
            },
            Err(e) => {
                proof {
                    lemma_read_rows_error_persists(rv, f, i + 1);
                }
                return Err(e);
            },
        }
        i = i + 1;
    }
    assert(rv.take(i as int) =~= rv);
    Ok(out)
}

fn read_transactions(rows: &Vec<Row>) -> (r: Result<Vec<Vec<u8>>, StoreError>)
    ensures
        match r {
            Ok(v) => read_rows(rows_view(rows@), |x: RowView| transaction_of_row(x)) == Ok::<
                Seq<Seq<u8>>,
                ErrorKind,
            >(v@.map_values(|b: Vec<u8>| b@)),
            Err(e) => read_rows(rows_view(rows@), |x: RowView| transaction_of_row(x)) == Err::<
                Seq<Seq<u8>>,
                ErrorKind,
            >(e@),
        },
        r matches Err(e) ==> !(e is Sqlite),
{
    let ghost rv = rows_view(rows@);
    let ghost f = |x: RowView| transaction_of_row(x);
    let mut out: Vec<Vec<u8>> = Vec::new();
    let mut i: usize = 0;
    assert(out@.map_values(|b: Vec<u8>| b@) =~= Seq::<Seq<u8>>::empty());
    while i < rows.len()
        invariant
            rv == rows_view(rows@),
            f == (|x: RowView| transaction_of_row(x)),
            i <= rows.len(),
            read_rows(rv.take(i as int), f) == Ok::<Seq<Seq<u8>>, ErrorKind>(
                out@.map_values(|b: Vec<u8>| b@),
            ),
        decreases rows.len() - i,
    {
        proof {
            lemma_read_rows_extend(rv, f, i as int);
        }
        match read_transaction(&rows[i]) {
            Ok(s) => {
                let ghost before = out@;
                out.push(s);
                assert(out@.map_values(|b: Vec<u8>| b@) =~= before.map_values(|b: Vec<u8>| b@).push(s@));
            },
            Err(e) => {
                proof {
                    lemma_read_rows_error_persists(rv, f, i + 1);
                }
                return Err(e);
            },
        }
        i = i + 1;
    }
    assert(rv.take(i as int) =~= rv);
    Ok(out)
}

fn read_all_details(rows: &Vec<Row>, include_raw: bool) -> (r: Result<Vec<TransactionDetails>, StoreError>)
    ensures
        ({
            let f = if include_raw {
                |x: RowView| details_with_raw_of_row(x)
            } else {
                |x: RowView| details_of_row(x)
            };
            match r {
                Ok(v) => read_rows(rows_view(rows@), f) == Ok::<Seq<DetailsView>, ErrorKind>(
                    v@.map_values(|d: TransactionDetails| d@),
                ),
                Err(e) => read_rows(rows_view(rows@), f) == Err::<Seq<DetailsView>, ErrorKind>(
                    e@,
                ),
            }
        }),
        r matches Err(e) ==> !(e is Sqlite),
{
    let ghost rv = rows_view(rows@);
    let ghost f = if include_raw {
        |x: RowView| details_with_raw_of_row(x)
    } else {
        |x: RowView| details_of_row(x)
    };
    let mut out: Vec<TransactionDetails> = Vec::new();
    let mut i: usize = 0;
    assert(out@.map_values(|d: TransactionDetails| d@) =~= Seq::<DetailsView>::empty());
    while i < rows.len()
        invariant
            rv == rows_view(rows@),
            f == (if include_raw {
                |x: RowView| details_with_raw_of_row(x)
            } else {
                |x: RowView| details_of_row(x)
            }),
            i <= rows.len(),
            read_rows(rv.take(i as int), f) == Ok::<Seq<DetailsView>, ErrorKind>(
                out@.map_values(|d: TransactionDetails| d@),
            ),
        decreases rows.len() - i,
    {
        proof {
            lemma_read_rows_extend(rv, f, i as int);
        }
        let read = if include_raw {
            read_details_with_raw(&rows[i])
        } else {
            read_details(&rows[i])
        };
        match read {
            Ok(d) => {
                let ghost before = out@;
                let ghost dv = d@;
                out.push(d);
                assert(out@.map_values(|d: TransactionDetails| d@) =~= before.map_values(
                    |d: TransactionDetails| d@,
                ).push(dv));
            },
            Err(e) => {
                proof {
                    lemma_read_rows_error_persists(rv, f, i + 1);
                }
                return Err(e);
            },
        }
        i = i + 1;
    }
    assert(rv.take(i as int) =~= rv);
    Ok(out)
}

// ---------------------------------------------------------------------
// Steps.

fn finished(r: Result<Output, StoreError>) -> (s: (Operation, Action))
    ensures
        step_view(s) == finish(answer_view(r)),
        s.1 == Action::Finish(r),
{
    (Operation::Finished, Action::Finish(r))
}

fn writing(st: Statement, then: AfterWrite) -> (s: (Operation, Action))
    ensures
        step_view(s) == write_then(st@, then@),
{
    (Operation::Writing { then }, Action::Execute(st))
}

fn reading_first(st: Statement, then: AfterRead) -> (s: (Operation, Action))
    ensures
        step_view(s) == read_first(st@, then@),
{
    (Operation::Reading { then }, Action::QueryFirst(st))
}

fn reading_all(st: Statement, then: AfterRead) -> (s: (Operation, Action))
    ensures
        step_view(s) == read_all(st@, then@),
{
    (Operation::Reading { then }, Action::QueryAll(st))
}

/// The first row of a reply.
fn first_of(reply: Reply) -> (r: Result<Option<Row>, StoreError>)
    ensures
        match r {
            Ok(Some(row)) => first_row(reply@) == Ok::<Option<RowView>, ErrorKind>(Some(row@)),
            Ok(None) => first_row(reply@) == Ok::<Option<RowView>, ErrorKind>(None),
            Err(e) => first_row(reply@) == Err::<Option<RowView>, ErrorKind>(e@),
        },
        r matches Err(StoreError::Sqlite(e)) ==> reply_error(reply) == Some(e),
{
    match reply {
        Reply::Rows { mut rows, failure } => {
            if rows.len() > 0 {
                let row = rows.remove(0);
                Ok(Some(row))
            } else {
                match failure {
                    Some(e) => Err(StoreError::Sqlite(e)),
                    None => Ok(None),
                }
            }
        },
        Reply::Failed(e) => Err(StoreError::Sqlite(e)),
        Reply::Done => Err(StoreError::UnexpectedReply),
    }
}

/// The rows of a reply to a query of all rows, with the error that stopped
/// their fetching.
fn all_of(reply: Reply) -> (r: Result<(Vec<Row>, Option<rusqlite::Error>), StoreError>)
    ensures
        match r {
            Ok((rows, failure)) => reply@ == (ReplyView::Rows {
                rows: rows_view(rows@),
                failed: failure is Some,
            }),
            Err(e) => (reply@ is Failed && e@ == ErrorKind::Sqlite) || (reply@ is Done && e@
                == ErrorKind::UnexpectedReply),
        },
        r matches Ok((_, Some(e))) ==> reply_error(reply) == Some(e),
        r matches Err(StoreError::Sqlite(e)) ==> reply_error(reply) == Some(e),
{
    match reply {
        Reply::Rows { rows, failure } => Ok((rows, failure)),
        Reply::Failed(e) => Err(StoreError::Sqlite(e)),
        Reply::Done => Err(StoreError::UnexpectedReply),
    }
}

/// Records an encoded transaction under `txid`: the encoding on record for
/// that id is looked up.
fn store_transaction_step(txid: Vec<u8>, raw: Vec<u8>) -> (s: (Operation, Action))
    ensures
        step_view(s) == start_store_transaction(txid@, raw@),
{
    reading_first(
        Statement::SelectTransactionByTxid { txid: copy_bytes(&txid) },
        AfterRead::UpsertTransaction { txid, transaction: raw },
    )
}

/// Answers a lookup: forgets what was found with `delete`, then answers
/// with it.
fn take_step(found: Option<Output>, delete: Statement, none: Output) -> (s: (Operation, Action))
    ensures
        step_view(s) == match found {
            Some(o) => write_then(delete@, AfterWriteView::Answer { output: o@ }),
            None => finish(Ok(none@)),
        },
{
    match found {
        Some(o) => writing(delete, AfterWrite::Answer { output: o }),
        None => finished(Ok(none)),
    }
}

fn after_write(then: AfterWrite, reply: Reply) -> (s: (Operation, Action))
    ensures
        step_view(s) == after_write_spec(then@, reply@),
        passes_reply_error(reply, s.1),
{
    match reply {
        Reply::Done => match then {
            AfterWrite::Answer { output } => finished(Ok(output)),
            AfterWrite::StoreTransaction { txid, transaction } => match transaction {
                Some(raw) => store_transaction_step(txid, raw),
                None => finished(Ok(Output::Unit)),
            },
            AfterWrite::DeleteTransaction { txid, output } => writing(
                Statement::DeleteTransactionByTxid { txid },
                AfterWrite::Answer { output },
            ),
        },
        Reply::Failed(e) => finished(Err(StoreError::Sqlite(e))),
        Reply::Rows { .. } => finished(Err(StoreError::UnexpectedReply)),
    }
}

/// Splits a confirmation into its columns for a details statement.
fn details_statement(d: TransactionDetails, update: bool) -> (r: (Statement, Option<Vec<u8>>))
    ensures
        r.0@ == (if update {
            update_details(d@)
        } else {
            insert_details(d@)
        }),
        opt_bytes(r.1) == d@.transaction,
{
    let (timestamp, height) = confirmation_columns(d.confirmation_time);
    let st = if update {
        Statement::UpdateTransactionDetails {
            txid: d.txid,
            timestamp,
            received: d.received,
            sent: d.sent,
            fee: d.fee,
            height,
        }
    } else {
        Statement::InsertTransactionDetails {
            txid: d.txid,
            timestamp,
            received: d.received,
            sent: d.sent,
            fee: d.fee,
            height,
        }
    };
    (st, d.transaction)
}

fn after_upsert_transaction(txid: Vec<u8>, transaction: Vec<u8>, reply: Reply) -> (s: (Operation, Action))
    ensures
        step_view(s) == after_read_spec(
            AfterReadView::UpsertTransaction { txid: txid@, transaction: transaction@ },
            reply@,
        ),
        passes_reply_error(reply, s.1),
{
    match first_of(reply) {
        Ok(Some(row)) => match read_transaction(&row) {
            Ok(_) => writing(
                Statement::UpdateTransaction { txid, raw_tx: transaction },
                AfterWrite::Answer { output: Output::Unit },
            ),
            Err(e) => finished(Err(e)),
        },
        Ok(None) => writing(
            Statement::InsertTransaction { txid, raw_tx: transaction },
            AfterWrite::Answer { output: Output::Unit },
        ),
        Err(e) => finished(Err(e)),
    }
}

fn after_upsert_details(details: TransactionDetails, transaction_txid: Vec<u8>, reply: Reply) -> (s: (
    Operation,
    Action,
))
    ensures
        step_view(s) == after_read_spec(
            AfterReadView::UpsertDetails { details: details@, transaction_txid: transaction_txid@ },
            reply@,
        ),
        passes_reply_error(reply, s.1),
{
    let found = match first_of(reply) {
        Ok(Some(row)) => match read_details_of_txid(&row, details.txid.as_slice()) {
            Ok(_) => true,
            Err(e) => return finished(Err(e)),
        },
        Ok(None) => false,
        Err(e) => return finished(Err(e)),
    };
    let (st, transaction) = details_statement(details, found);
    writing(st, AfterWrite::StoreTransaction { txid: transaction_txid, transaction })
}

fn after_take_details(txid: Vec<u8>, include_raw: bool, reply: Reply) -> (s: (Operation, Action))
    ensures
        step_view(s) == after_read_spec(
            AfterReadView::TakeDetails { txid: txid@, include_raw },
            reply@,
        ),
        passes_reply_error(reply, s.1),
{
    match first_of(reply) {
        Ok(Some(row)) => match read_details_of_txid(&row, txid.as_slice()) {
            Ok(d) => {
                let delete = Statement::DeleteTransactionDetailsByTxid { txid: copy_bytes(&txid) };
                if include_raw {
                    writing(
                        delete,
                        AfterWrite::DeleteTransaction { txid, output: Output::Details(Some(d)) },
                    )
                } else {
                    writing(delete, AfterWrite::Answer { output: Output::Details(Some(d)) })
                }
            },
            Err(e) => finished(Err(e)),
        },
        Ok(None) => finished(Ok(Output::Details(None))),
        Err(e) => finished(Err(e)),
    }
}

fn after_compare_checksum(keychain: String, bytes: Vec<u8>, reply: Reply) -> (s: (Operation, Action))
    ensures
        step_view(s) == after_read_spec(
            AfterReadView::CompareChecksum { keychain: keychain@, bytes: bytes@ },
            reply@,
        ),
        passes_reply_error(reply, s.1),
{
    match first_of(reply) {
        Ok(Some(row)) => match read_checksum(&row) {
            Ok(c) => if bytes_equal(c.as_slice(), bytes.as_slice()) {
                finished(Ok(Output::Unit))
            } else {
                finished(Err(StoreError::ChecksumMismatch))
            },
            Err(e) => finished(Err(e)),
        },
        Ok(None) => writing(
            Statement::InsertChecksum { keychain, checksum: bytes },
            AfterWrite::Answer { output: Output::Unit },
        ),
        Err(e) => finished(Err(e)),
    }
}

fn after_increment(keychain: String, reply: Reply) -> (s: (Operation, Action))
    ensures
        step_view(s) == after_read_spec(AfterReadView::Increment { keychain: keychain@ }, reply@),
        passes_reply_error(reply, s.1),
{
    match first_of(reply) {
        Ok(Some(row)) => match read_index(&row) {
            Ok(v) => if v == u32::MAX {
                finished(Err(StoreError::IndexOverflow))
            } else {
                writing(
                    Statement::UpdateLastDerivationIndex { keychain, value: v + 1 },
                    AfterWrite::Answer { output: Output::NextIndex(v + 1) },
                )
            },
            Err(e) => finished(Err(e)),
        },
        Ok(None) => writing(
            Statement::InsertLastDerivationIndex { keychain, value: 0 },
            AfterWrite::Answer { output: Output::NextIndex(0) },
        ),
        Err(e) => finished(Err(e)),
    }
}

fn after_take(then: AfterRead, reply: Reply) -> (s: (Operation, Action))
    requires
        then is TakeScript || then is TakePath || then is TakeUtxo || then is TakeTransaction
            || then is TakeIndex || then is TakeSyncTime,
    ensures
        step_view(s) == after_read_spec(then@, reply@),
        passes_reply_error(reply, s.1),
{
    let row = match first_of(reply) {
        Ok(Some(row)) => Some(row),
        Ok(None) => None,
        Err(e) => return finished(Err(e)),
    };
    match then {
        AfterRead::TakeScript { keychain, child } => {
            let found = match row {
                Some(r) => match read_script(&r) {
                    Ok(x) => Some(Output::Script(Some(x))),
                    Err(e) => return finished(Err(e)),
                },
                None => None,
            };
            take_step(found, Statement::DeleteScriptPubkeyByPath { keychain, child }, Output::Script(None))
        },
        AfterRead::TakePath { script } => {
            let found = match row {
                Some(r) => match read_path(&r) {
                    Ok(x) => Some(Output::Path(Some(x))),
                    Err(e) => return finished(Err(e)),
                },
                None => None,
            };
            take_step(found, Statement::DeleteScriptPubkeyByScript { script }, Output::Path(None))
        },
        AfterRead::TakeUtxo { txid, vout } => {
            let found = match row {
                Some(r) => match read_utxo_at(&r, txid.as_slice(), vout) {
                    Ok(x) => Some(Output::Utxo(Some(x))),
                    Err(e) => return finished(Err(e)),
                },
                None => None,
            };
            take_step(found, Statement::DeleteUtxoByOutpoint { txid, vout }, Output::Utxo(None))
        },
        AfterRead::TakeTransaction { txid } => {
            let found = match row {
                Some(r) => match read_transaction(&r) {
                    Ok(x) => Some(Output::Transaction(Some(x))),
                    Err(e) => return finished(Err(e)),
                },
                None => None,
            };
            take_step(found, Statement::DeleteTransactionByTxid { txid }, Output::Transaction(None))
        },
        AfterRead::TakeIndex { keychain } => {
            let found = match row {
                Some(r) => match read_index(&r) {
                    Ok(x) => Some(Output::Index(Some(x))),
                    Err(e) => return finished(Err(e)),
                },
                None => None,
            };
            take_step(
                found,
                Statement::DeleteLastDerivationIndexByKeychain { keychain },
                Output::Index(None),
            )
        },
        AfterRead::TakeSyncTime => {
            let found = match row {
                Some(r) => match read_sync_time(&r) {
                    Ok(x) => Some(Output::SyncTime(Some(x))),
                    Err(e) => return finished(Err(e)),
                },
                None => None,
            };
            take_step(found, Statement::DeleteSyncTime, Output::SyncTime(None))
        },
        _ => finished(Err(StoreError::UnexpectedReply)),
    }
}

fn after_find(then: AfterRead, reply: Reply) -> (s: (Operation, Action))
    requires
        then is FindScript || then is FindPath || then is FindUtxo || then is FindTransaction
            || then is FindDetails || then is FindIndex || then is FindSyncTime,
    ensures
        step_view(s) == after_read_spec(then@, reply@),
        passes_reply_error(reply, s.1),
{
    let row = match first_of(reply) {
        Ok(Some(row)) => row,
        Ok(None) => {
            let none = match then {
                AfterRead::FindScript => Output::Script(None),
                AfterRead::FindPath => Output::Path(None),
                AfterRead::FindUtxo { .. } => Output::Utxo(None),
                AfterRead::FindTransaction => Output::Transaction(None),
                AfterRead::FindDetails { .. } => Output::Details(None),
                AfterRead::FindIndex => Output::Index(None),
                _ => Output::SyncTime(None),
            };
            return finished(Ok(none));
        },
        Err(e) => return finished(Err(e)),
    };
    let found = match then {
        AfterRead::FindScript => match read_script(&row) {
            Ok(x) => Output::Script(Some(x)),
            Err(e) => return finished(Err(e)),
        },
        AfterRead::FindPath => match read_path(&row) {
            Ok(x) => Output::Path(Some(x)),
            Err(e) => return finished(Err(e)),
        },
        AfterRead::FindUtxo { txid, vout } => match read_utxo_at(&row, txid.as_slice(), vout) {
            Ok(x) => Output::Utxo(Some(x)),
            Err(e) => return finished(Err(e)),
        },
        AfterRead::FindTransaction => match read_transaction(&row) {
            Ok(x) => Output::Transaction(Some(x)),
            Err(e) => return finished(Err(e)),
        },
        AfterRead::FindDetails { txid, include_raw } => match read_details_of_txid(&row, txid.as_slice()) {
            Ok(mut d) => {
                if !include_raw {
                    d.transaction = None;
                }
                Output::Details(Some(d))
            },
            Err(e) => return finished(Err(e)),
        },
        AfterRead::FindIndex => match read_index(&row) {
            Ok(x) => Output::Index(Some(x)),
            Err(e) => return finished(Err(e)),
        },
        _ => match read_sync_time(&row) {
            Ok(x) => Output::SyncTime(Some(x)),
            Err(e) => return finished(Err(e)),
        },
    };
    finished(Ok(found))
}

fn after_list(then: AfterRead, reply: Reply) -> (s: (Operation, Action))
    requires
        then is ListScripts || then is ListUtxos || then is ListTransactions || then is ListDetails,
    ensures
        step_view(s) == after_read_spec(then@, reply@),
        passes_reply_error(reply, s.1),
{
    let (rows, failure) = match all_of(reply) {
        Ok(p) => p,
        Err(e) => return finished(Err(e)),
    };
    let listed = match then {
        AfterRead::ListScripts => match read_scripts(&rows) {
            Ok(v) => Output::Scripts(v),
            Err(e) => return finished(Err(e)),
        },
        AfterRead::ListUtxos => match read_utxos(&rows) {
            Ok(v) => Output::Utxos(v),
            Err(e) => return finished(Err(e)),
        },
        AfterRead::ListTransactions => match read_transactions(&rows) {
            Ok(v) => Output::Transactions(v),
            Err(e) => return finished(Err(e)),
        },
        AfterRead::ListDetails { include_raw } => match read_all_details(&rows, include_raw) {
            Ok(v) => Output::DetailsList(v),
            Err(e) => return finished(Err(e)),
        },
        _ => return finished(Err(StoreError::UnexpectedReply)),
    };
    match failure {
        Some(e) => finished(Err(StoreError::Sqlite(e))),
        None => finished(Ok(listed)),
    }
}

fn after_read(then: AfterRead, reply: Reply) -> (s: (Operation, Action))
    ensures
        step_view(s) == after_read_spec(then@, reply@),
        passes_reply_error(reply, s.1),
{
    match then {
        AfterRead::UpsertTransaction { txid, transaction } => after_upsert_transaction(
            txid,
            transaction,
            reply,
        ),
        AfterRead::UpsertDetails { details, transaction_txid } => after_upsert_details(
            details,
            transaction_txid,
            reply,
        ),
        AfterRead::TakeDetails { txid, include_raw } => after_take_details(txid, include_raw, reply),
        AfterRead::CompareChecksum { keychain, bytes } => after_compare_checksum(
            keychain,
            bytes,
            reply,
        ),
        AfterRead::Increment { keychain } => after_increment(keychain, reply),
        AfterRead::TakeScript { .. } | AfterRead::TakePath { .. } | AfterRead::TakeUtxo { .. }
        | AfterRead::TakeTransaction { .. } | AfterRead::TakeIndex { .. }
        | AfterRead::TakeSyncTime => after_take(then, reply),
        AfterRead::FindScript | AfterRead::FindPath | AfterRead::FindUtxo { .. }
        | AfterRead::FindTransaction | AfterRead::FindDetails { .. } | AfterRead::FindIndex
        | AfterRead::FindSyncTime => after_find(then, reply),
        AfterRead::ListScripts | AfterRead::ListUtxos | AfterRead::ListTransactions
        | AfterRead::ListDetails { .. } => after_list(then, reply),
    }
}

impl Operation {
    /// Starts an operation: its state and its first action.
    pub fn begin(req: Request) -> (s: (Operation, Action))
        ensures
            step_view(s) == begin_spec(req@),
    {
        match req {
            Request::SetScriptPubkey { script, keychain, child } => writing(
                Statement::InsertScriptPubkey { keychain: encode_keychain(keychain), child, script },
                AfterWrite::Answer { output: Output::Unit },
            ),
            Request::SetUtxo { utxo } => {
                let LocalUtxo { outpoint, txout, keychain, is_spent } = utxo;
                writing(
                    Statement::InsertUtxo {
                        value: txout.value,
                        keychain: encode_keychain(keychain),
                        vout: outpoint.vout,
                        txid: outpoint.txid,
                        script: txout.script_pubkey,
                        is_spent,
                    },
                    AfterWrite::Answer { output: Output::Unit },
                )
            },
            Request::SetRawTx { txid, transaction } => store_transaction_step(txid, transaction),
            Request::SetTx { details, transaction_txid } => reading_first(
                Statement::SelectTransactionDetailsByTxid { txid: copy_bytes(&details.txid) },
                AfterRead::UpsertDetails { details, transaction_txid },
            ),
            Request::SetLastIndex { keychain, value } => writing(
                Statement::UpdateLastDerivationIndex { keychain: encode_keychain(keychain), value },
                AfterWrite::Answer { output: Output::Unit },
            ),
            Request::SetSyncTime { sync_time } => writing(
                Statement::UpdateSyncTime {
                    height: sync_time.block_time.height,
                    timestamp: sync_time.block_time.timestamp,
                },
                AfterWrite::Answer { output: Output::Unit },
            ),
            Request::DelScriptPubkeyFromPath { keychain, child } => reading_first(
                Statement::SelectScriptPubkeyByPath { keychain: encode_keychain(keychain), child },
                AfterRead::TakeScript { keychain: encode_keychain(keychain), child },
            ),
            Request::DelPathFromScriptPubkey { script } => reading_first(
                Statement::SelectScriptPubkeyByScript { script: copy_bytes(&script) },
                AfterRead::TakePath { script },
            ),
            Request::DelUtxo { outpoint } => reading_first(
                Statement::SelectUtxoByOutpoint {
                    txid: copy_bytes(&outpoint.txid),
                    vout: outpoint.vout,
                },
                AfterRead::TakeUtxo { txid: outpoint.txid, vout: outpoint.vout },
            ),
            Request::DelRawTx { txid } => reading_first(
                Statement::SelectTransactionByTxid { txid: copy_bytes(&txid) },
                AfterRead::TakeTransaction { txid },
            ),
            Request::DelTx { txid, include_raw } => reading_first(
                Statement::SelectTransactionDetailsByTxid { txid: copy_bytes(&txid) },
                AfterRead::TakeDetails { txid, include_raw },
            ),
            Request::DelLastIndex { keychain } => reading_first(
                Statement::SelectLastDerivationIndexByKeychain { keychain: encode_keychain(keychain) },
                AfterRead::TakeIndex { keychain: encode_keychain(keychain) },
            ),
            Request::DelSyncTime => reading_first(Statement::SelectSyncTime, AfterRead::TakeSyncTime),
            Request::CheckDescriptorChecksum { keychain, bytes } => reading_first(
                Statement::SelectChecksumByKeychain { keychain: encode_keychain(keychain) },
                AfterRead::CompareChecksum { keychain: encode_keychain(keychain), bytes },
            ),
            Request::IterScriptPubkeys { keychain } => match keychain {
                Some(k) => reading_all(
                    Statement::SelectScriptPubkeysByKeychain { keychain: encode_keychain(k) },
                    AfterRead::ListScripts,
                ),
                None => reading_all(Statement::SelectScriptPubkeys, AfterRead::ListScripts),
            },
            Request::IterUtxos => reading_all(Statement::SelectUtxos, AfterRead::ListUtxos),
            Request::IterRawTxs => reading_all(Statement::SelectTransactions, AfterRead::ListTransactions),
            Request::IterTxs { include_raw } => if include_raw {
                reading_all(
                    Statement::SelectTransactionDetailsWithRaw,
                    AfterRead::ListDetails { include_raw },
                )
            } else {
                reading_all(
                    Statement::SelectTransactionDetails,
                    AfterRead::ListDetails { include_raw },
                )
            },
            Request::GetScriptPubkeyFromPath { keychain, child } => reading_first(
                Statement::SelectScriptPubkeyByPath { keychain: encode_keychain(keychain), child },
                AfterRead::FindScript,
            ),
            Request::GetPathFromScriptPubkey { script } => reading_first(
                Statement::SelectScriptPubkeyByScript { script },
                AfterRead::FindPath,
            ),
            Request::GetUtxo { outpoint } => reading_first(
                Statement::SelectUtxoByOutpoint {
                    txid: copy_bytes(&outpoint.txid),
                    vout: outpoint.vout,
                },
                AfterRead::FindUtxo { txid: outpoint.txid, vout: outpoint.vout },
            ),
            Request::GetRawTx { txid } => reading_first(
                Statement::SelectTransactionByTxid { txid },
                AfterRead::FindTransaction,
            ),
            Request::GetTx { txid, include_raw } => reading_first(
                Statement::SelectTransactionDetailsByTxid { txid: copy_bytes(&txid) },
                AfterRead::FindDetails { txid, include_raw },
            ),
            Request::GetLastIndex { keychain } => reading_first(
                Statement::SelectLastDerivationIndexByKeychain { keychain: encode_keychain(keychain) },
                AfterRead::FindIndex,
            ),
            Request::GetSyncTime => reading_first(Statement::SelectSyncTime, AfterRead::FindSyncTime),
            Request::IncrementLastIndex { keychain } => reading_first(
                Statement::SelectLastDerivationIndexByKeychain { keychain: encode_keychain(keychain) },
                AfterRead::Increment { keychain: encode_keychain(keychain) },
            ),
            Request::Flush => finished(Ok(Output::Unit)),
        }
    }

    /// Hands an operation the reply to its last statement: its next state
    /// and its next action.
    pub fn resume(self, reply: Reply) -> (s: (Operation, Action))
        ensures
            step_view(s) == resume_spec(self@, reply@),
            passes_reply_error(reply, s.1),
    {
        match self {
            Operation::Finished => finished(Err(StoreError::UnexpectedReply)),
            Operation::Writing { then } => after_write(then, reply),
            Operation::Reading { then } => after_read(then, reply),
        }
    }
}

} // verus!
