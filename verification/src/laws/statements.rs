//! Laws that tie the SQL that runs to the model of the store: for each
//! statement, what its text means over the rows of the tables is what
//! `model::apply` says the statement does.
use vstd::prelude::*;
use crate::model::{
    apply, delete_where, join_rows, joined, update_where, ChecksumRecord, DetailsRecord, ScriptRecord, Tables,
    TransactionRecord, UtxoRecord,
};
use crate::rows::{ReplyView, RowView};
use crate::sql::{query, StatementView};
use crate::laws::drive::{
    lemma_delete_where_keys_unique, lemma_filter_map_all, lemma_filter_map_at_most_one,
    lemma_filter_map_from, lemma_filter_map_none, lemma_filter_map_some, lemma_filter_map_then,
};
use crate::sql_syntax::{
    alone, assign, col, column_value, conds_hold, eq_param, equality_holds, eval, inserted_row,
    operand_value, project, select_rows, set_param, Column, Equality, Operand, Value, Join, qcol,
    joined_rows, join_select_rows, upserted_rows, Upsert,
};

verus! {

// ---------------------------------------------------------------------
// Records, rows and parameters as column values.

/// A flag as SQLite stores it.
pub open spec fn flag(b: bool) -> Value {
    Value::Int(if b { 1 } else { 0 })
}

/// An optional number as SQLite stores it.
pub open spec fn opt_u64(o: Option<u64>) -> Value {
    match o {
        Some(v) => Value::Int(v as int),
        None => Value::Null,
    }
}

/// An optional number as SQLite stores it.
pub open spec fn opt_u32(o: Option<u32>) -> Value {
    match o {
        Some(v) => Value::Int(v as int),
        None => Value::Null,
    }
}

/// Optional bytes as SQLite stores them.
pub open spec fn opt_blob(o: Option<Seq<u8>>) -> Value {
    match o {
        Some(v) => Value::Blob(v),
        None => Value::Null,
    }
}

/// A script record as a row of `script_pubkeys`.
pub open spec fn script_cells(r: ScriptRecord) -> Map<Seq<char>, Value> {
    map![
        "keychain"@ => Value::Text(r.keychain),
        "child"@ => Value::Int(r.child as int),
        "script"@ => Value::Blob(r.script),
    ]
}

/// An output record as a row of `utxos`.
pub open spec fn utxo_cells(u: UtxoRecord) -> Map<Seq<char>, Value> {
    map![
        "value"@ => Value::Int(u.value as int),
        "keychain"@ => Value::Text(u.keychain),
        "vout"@ => Value::Int(u.vout as int),
        "txid"@ => Value::Blob(u.txid),
        "script"@ => Value::Blob(u.script),
        "is_spent"@ => flag(u.is_spent),
    ]
}

/// An encoding record as a row of `transactions`.
pub open spec fn transaction_cells(x: TransactionRecord) -> Map<Seq<char>, Value> {
    map!["txid"@ => Value::Blob(x.txid), "raw_tx"@ => Value::Blob(x.raw_tx)]
}

/// A details record as a row of `transaction_details`.
pub open spec fn details_cells(d: DetailsRecord) -> Map<Seq<char>, Value> {
    map![
        "txid"@ => Value::Blob(d.txid),
        "timestamp"@ => opt_u64(d.timestamp),
        "received"@ => Value::Int(d.received as int),
        "sent"@ => Value::Int(d.sent as int),
        "fee"@ => opt_u64(d.fee),
        "height"@ => opt_u32(d.height),
    ]
}

/// A checksum record as a row of `checksums`.
pub open spec fn checksum_cells(c: ChecksumRecord) -> Map<Seq<char>, Value> {
    map!["keychain"@ => Value::Text(c.keychain), "checksum"@ => Value::Blob(c.checksum)]
}

/// The tables of the store that hold rows in the order they were written,
/// as a database.
pub open spec fn db_of(t: Tables) -> Map<Seq<char>, Seq<Map<Seq<char>, Value>>> {
    map![
        "script_pubkeys"@ => t.script_pubkeys.map_values(|r: ScriptRecord| script_cells(r)),
        "utxos"@ => t.utxos.map_values(|u: UtxoRecord| utxo_cells(u)),
        "transactions"@ => t.transactions.map_values(|x: TransactionRecord| transaction_cells(x)),
        "transaction_details"@ => t.transaction_details.map_values(|d: DetailsRecord| details_cells(d)),
        "checksums"@ => t.checksums.map_values(|c: ChecksumRecord| checksum_cells(c)),
        "sync_time"@ => sync_rows(t.sync_time),
    ]
}

/// The row of the sync time.
pub open spec fn sync_cells(height: u32, timestamp: u64) -> Map<Seq<char>, Value> {
    map![
        "id"@ => Value::Int(0),
        "height"@ => Value::Int(height as int),
        "timestamp"@ => Value::Int(timestamp as int),
    ]
}

/// The rows of the table of the sync time: its one row, if any.
pub open spec fn sync_rows(sync_time: Option<(u32, u64)>) -> Seq<Map<Seq<char>, Value>> {
    match sync_time {
        Some((height, timestamp)) => seq![sync_cells(height, timestamp)],
        None => Seq::empty(),
    }
}

/// The values of a row that a query gives, in the order of its columns.
pub open spec fn row_values(r: RowView) -> Seq<Value> {
    match r {
        RowView::Script { script } => seq![Value::Blob(script)],
        RowView::Path { keychain, child } => seq![Value::Text(keychain), Value::Int(child as int)],
        RowView::Utxo { value, keychain, vout, txid, script, is_spent } => seq![
            Value::Int(value as int),
            Value::Text(keychain),
            Value::Int(vout as int),
            Value::Blob(txid),
            Value::Blob(script),
            flag(is_spent),
        ],
        RowView::UtxoAt { value, keychain, script, is_spent } => seq![
            Value::Int(value as int),
            Value::Text(keychain),
            Value::Blob(script),
            flag(is_spent),
        ],
        RowView::RawTx { raw_tx } => seq![Value::Blob(raw_tx)],
        RowView::Details { txid, timestamp, received, sent, fee, height } => seq![
            Value::Blob(txid),
            opt_u64(timestamp),
            Value::Int(received as int),
            Value::Int(sent as int),
            opt_u64(fee),
            opt_u32(height),
        ],
        RowView::DetailsWithRaw { txid, timestamp, received, sent, fee, height, raw_tx } => seq![
            Value::Blob(txid),
            opt_u64(timestamp),
            Value::Int(received as int),
            Value::Int(sent as int),
            opt_u64(fee),
            opt_u32(height),
            opt_blob(raw_tx),
        ],
        RowView::DetailsOfTxid { timestamp, received, sent, fee, height, raw_tx } => seq![
            opt_u64(timestamp),
            Value::Int(received as int),
            Value::Int(sent as int),
            opt_u64(fee),
            opt_u32(height),
            opt_blob(raw_tx),
        ],
        RowView::Index { value } => seq![Value::Int(value as int)],
        RowView::SyncTime { height, timestamp } => seq![Value::Int(height as int), Value::Int(timestamp as int)],
        RowView::Checksum { checksum } => seq![Value::Blob(checksum)],
    }
}

/// The values of the rows of a reply; none for a reply without rows.
pub open spec fn reply_values(r: ReplyView) -> Seq<Seq<Value>> {
    match r {
        ReplyView::Rows { rows, .. } => rows.map_values(|x: RowView| row_values(x)),
        _ => Seq::empty(),
    }
}

/// The values bound to the parameters of a statement, by name.
pub open spec fn params(s: StatementView) -> Map<Seq<char>, Value> {
    match s {
        StatementView::InsertScriptPubkey { keychain, child, script } => map![
            "keychain"@ => Value::Text(keychain),
            "child"@ => Value::Int(child as int),
            "script"@ => Value::Blob(script),
        ],
        StatementView::InsertUtxo { value, keychain, vout, txid, script, is_spent } => map![
            "value"@ => Value::Int(value as int),
            "keychain"@ => Value::Text(keychain),
            "vout"@ => Value::Int(vout as int),
            "txid"@ => Value::Blob(txid),
            "script"@ => Value::Blob(script),
            "is_spent"@ => flag(is_spent),
        ],
        StatementView::InsertTransaction { txid, raw_tx } => map![
            "txid"@ => Value::Blob(txid),
            "raw_tx"@ => Value::Blob(raw_tx),
        ],
        StatementView::UpdateTransaction { txid, raw_tx } => map![
            "txid"@ => Value::Blob(txid),
            "raw_tx"@ => Value::Blob(raw_tx),
        ],
        StatementView::InsertTransactionDetails { txid, timestamp, received, sent, fee, height } => map![
            "txid"@ => Value::Blob(txid),
            "timestamp"@ => opt_u64(timestamp),
            "received"@ => Value::Int(received as int),
            "sent"@ => Value::Int(sent as int),
            "fee"@ => opt_u64(fee),
            "height"@ => opt_u32(height),
        ],
        StatementView::UpdateTransactionDetails { txid, timestamp, received, sent, fee, height } => map![
            "txid"@ => Value::Blob(txid),
            "timestamp"@ => opt_u64(timestamp),
            "received"@ => Value::Int(received as int),
            "sent"@ => Value::Int(sent as int),
            "fee"@ => opt_u64(fee),
            "height"@ => opt_u32(height),
        ],
        StatementView::InsertChecksum { keychain, checksum } => map![
            "keychain"@ => Value::Text(keychain),
            "checksum"@ => Value::Blob(checksum),
        ],
        StatementView::SelectScriptPubkeysByKeychain { keychain } => map!["keychain"@ => Value::Text(keychain)],
        StatementView::SelectScriptPubkeyByPath { keychain, child } => map![
            "keychain"@ => Value::Text(keychain),
            "child"@ => Value::Int(child as int),
        ],
        StatementView::SelectScriptPubkeyByScript { script } => map!["script"@ => Value::Blob(script)],
        StatementView::SelectUtxoByOutpoint { txid, vout } => map![
            "txid"@ => Value::Blob(txid),
            "vout"@ => Value::Int(vout as int),
        ],
        StatementView::SelectTransactionByTxid { txid } => map!["txid"@ => Value::Blob(txid)],
        StatementView::SelectTransactionDetailsByTxid { txid } => map!["txid"@ => Value::Blob(txid)],
        StatementView::SelectChecksumByKeychain { keychain } => map!["keychain"@ => Value::Text(keychain)],
        StatementView::DeleteScriptPubkeyByPath { keychain, child } => map![
            "keychain"@ => Value::Text(keychain),
            "child"@ => Value::Int(child as int),
        ],
        StatementView::DeleteScriptPubkeyByScript { script } => map!["script"@ => Value::Blob(script)],
        StatementView::DeleteUtxoByOutpoint { txid, vout } => map![
            "txid"@ => Value::Blob(txid),
            "vout"@ => Value::Int(vout as int),
        ],
        StatementView::DeleteTransactionByTxid { txid } => map!["txid"@ => Value::Blob(txid)],
        StatementView::DeleteTransactionDetailsByTxid { txid } => map!["txid"@ => Value::Blob(txid)],
        StatementView::InsertLastDerivationIndex { keychain, value } => map![
            "keychain"@ => Value::Text(keychain),
            "value"@ => Value::Int(value as int),
        ],
        StatementView::UpdateLastDerivationIndex { keychain, value } => map![
            "keychain"@ => Value::Text(keychain),
            "value"@ => Value::Int(value as int),
        ],
        StatementView::SelectLastDerivationIndexByKeychain { keychain } => map!["keychain"@ => Value::Text(keychain)],
        StatementView::DeleteLastDerivationIndexByKeychain { keychain } => map!["keychain"@ => Value::Text(keychain)],
        StatementView::UpdateSyncTime { height, timestamp } => map![
            "height"@ => Value::Int(height as int),
            "timestamp"@ => Value::Int(timestamp as int),
        ],
        _ => Map::empty(),
    }
}

/// The names of the columns and tables differ from each other.
pub proof fn lemma_names_differ()
    ensures
        "keychain"@ != "child"@,
        "keychain"@ != "script"@,
        "child"@ != "script"@,
        "value"@ != "keychain"@,
        "value"@ != "vout"@,
        "value"@ != "txid"@,
        "value"@ != "script"@,
        "value"@ != "is_spent"@,
        "keychain"@ != "vout"@,
        "keychain"@ != "txid"@,
        "keychain"@ != "is_spent"@,
        "vout"@ != "txid"@,
        "vout"@ != "script"@,
        "vout"@ != "is_spent"@,
        "txid"@ != "script"@,
        "txid"@ != "is_spent"@,
        "script"@ != "is_spent"@,
        "txid"@ != "raw_tx"@,
        "txid"@ != "timestamp"@,
        "txid"@ != "received"@,
        "txid"@ != "sent"@,
        "txid"@ != "fee"@,
        "txid"@ != "height"@,
        "timestamp"@ != "received"@,
        "timestamp"@ != "sent"@,
        "timestamp"@ != "fee"@,
        "timestamp"@ != "height"@,
        "received"@ != "sent"@,
        "received"@ != "fee"@,
        "received"@ != "height"@,
        "sent"@ != "fee"@,
        "sent"@ != "height"@,
        "fee"@ != "height"@,
        "keychain"@ != "checksum"@,
        "script_pubkeys"@ != "utxos"@,
        "script_pubkeys"@ != "transactions"@,
        "script_pubkeys"@ != "transaction_details"@,
        "script_pubkeys"@ != "checksums"@,
        "utxos"@ != "transactions"@,
        "utxos"@ != "transaction_details"@,
        "utxos"@ != "checksums"@,
        "transactions"@ != "transaction_details"@,
        "transactions"@ != "checksums"@,
        "transaction_details"@ != "checksums"@,
        "sync_time"@ != "script_pubkeys"@,
        "sync_time"@ != "utxos"@,
        "sync_time"@ != "transactions"@,
        "sync_time"@ != "transaction_details"@,
        "sync_time"@ != "checksums"@,
        "id"@ != "height"@,
        "id"@ != "timestamp"@,
        "height"@ != "timestamp"@,
        "last_derivation_indices"@ != "script_pubkeys"@,
        "last_derivation_indices"@ != "utxos"@,
        "last_derivation_indices"@ != "transactions"@,
        "last_derivation_indices"@ != "transaction_details"@,
        "last_derivation_indices"@ != "checksums"@,
        "last_derivation_indices"@ != "sync_time"@,
{
    reveal_strlit("keychain");
    reveal_strlit("child");
    reveal_strlit("script");
    reveal_strlit("value");
    reveal_strlit("vout");
    reveal_strlit("txid");
    reveal_strlit("is_spent");
    reveal_strlit("raw_tx");
    reveal_strlit("timestamp");
    reveal_strlit("received");
    reveal_strlit("sent");
    reveal_strlit("fee");
    reveal_strlit("height");
    reveal_strlit("checksum");
    reveal_strlit("script_pubkeys");
    reveal_strlit("utxos");
    reveal_strlit("transactions");
    reveal_strlit("transaction_details");
    reveal_strlit("checksums");
    assert("keychain"@.len() != "child"@.len());
    assert("keychain"@.len() != "script"@.len());
    assert("child"@.len() != "script"@.len());
    assert("value"@.len() != "keychain"@.len());
    assert("value"@.len() != "vout"@.len());
    assert("value"@.len() != "txid"@.len());
    assert("value"@.len() != "script"@.len());
    assert("value"@.len() != "is_spent"@.len());
    assert("keychain"@.len() != "vout"@.len());
    assert("keychain"@.len() != "txid"@.len());
    assert("keychain"@[0] != "is_spent"@[0]);
    assert("vout"@[0] != "txid"@[0]);
    assert("vout"@.len() != "script"@.len());
    assert("vout"@.len() != "is_spent"@.len());
    assert("txid"@.len() != "script"@.len());
    assert("txid"@.len() != "is_spent"@.len());
    assert("script"@.len() != "is_spent"@.len());
    assert("txid"@.len() != "raw_tx"@.len());
    assert("txid"@.len() != "timestamp"@.len());
    assert("txid"@.len() != "received"@.len());
    assert("txid"@[0] != "sent"@[0]);
    assert("txid"@.len() != "fee"@.len());
    assert("txid"@.len() != "height"@.len());
    assert("timestamp"@.len() != "received"@.len());
    assert("timestamp"@.len() != "sent"@.len());
    assert("timestamp"@.len() != "fee"@.len());
    assert("timestamp"@.len() != "height"@.len());
    assert("received"@.len() != "sent"@.len());
    assert("received"@.len() != "fee"@.len());
    assert("received"@.len() != "height"@.len());
    assert("sent"@.len() != "fee"@.len());
    assert("sent"@.len() != "height"@.len());
    assert("fee"@.len() != "height"@.len());
    assert("keychain"@[0] != "checksum"@[0]);
    assert("script_pubkeys"@.len() != "utxos"@.len());
    assert("script_pubkeys"@.len() != "transactions"@.len());
    assert("script_pubkeys"@.len() != "transaction_details"@.len());
    assert("script_pubkeys"@.len() != "checksums"@.len());
    assert("utxos"@.len() != "transactions"@.len());
    assert("utxos"@.len() != "transaction_details"@.len());
    assert("utxos"@.len() != "checksums"@.len());
    assert("transactions"@.len() != "transaction_details"@.len());
    assert("transactions"@.len() != "checksums"@.len());
    assert("transaction_details"@.len() != "checksums"@.len());
    reveal_strlit("sync_time");
    reveal_strlit("id");
    assert("sync_time"@[1] != "script_pubkeys"@[1]);
    assert("sync_time"@.len() != "utxos"@.len());
    assert("sync_time"@.len() != "transactions"@.len());
    assert("sync_time"@.len() != "transaction_details"@.len());
    assert("sync_time"@[0] != "checksums"@[0]);
    assert("id"@.len() != "height"@.len());
    assert("id"@.len() != "timestamp"@.len());
    assert("height"@.len() != "timestamp"@.len());
    reveal_strlit("last_derivation_indices");
    assert("last_derivation_indices"@.len() != "script_pubkeys"@.len());
    assert("last_derivation_indices"@.len() != "utxos"@.len());
    assert("last_derivation_indices"@.len() != "transactions"@.len());
    assert("last_derivation_indices"@.len() != "transaction_details"@.len());
    assert("last_derivation_indices"@.len() != "checksums"@.len());
    assert("last_derivation_indices"@.len() != "sync_time"@.len());
}

// ---------------------------------------------------------------------
// Selecting rows of records.

/// Picking from the rows of records is picking from the records, where
/// `g` picks from the row of a record what `f` picks from it, made into
/// values by `h`.
pub proof fn lemma_pick_rows<A, C, D, B>(
    recs: Seq<A>,
    cells: spec_fn(A) -> C,
    g: spec_fn(C) -> Option<B>,
    f: spec_fn(A) -> Option<D>,
    h: spec_fn(D) -> B,
)
    requires
        forall|x: A| #[trigger] g(cells(x)) == match f(x) {
            Some(r) => Some(h(r)),
            None => None,
        },
    ensures
        recs.map_values(cells).filter_map(g) == recs.filter_map(f).map_values(h),
    decreases recs.len(),
{
    if recs.len() > 0 {
        lemma_pick_rows(recs.drop_last(), cells, g, f, h);
        assert(recs.map_values(cells).drop_last() =~= recs.drop_last().map_values(cells));
        assert(g(cells(recs.last())) == match f(recs.last()) {
            Some(r) => Some(h(r)),
            None => None,
        });
    }
    assert(recs.map_values(cells).filter_map(g) =~= recs.filter_map(f).map_values(h));
}

/// A query of one table gives the values of the rows of its records that
/// `f` picks, in order, where it picks from the row of each record what `f`
/// picks from the record.
pub proof fn lemma_select_records<A>(
    recs: Seq<A>,
    cells: spec_fn(A) -> Map<Seq<char>, Value>,
    from: Seq<char>,
    columns: Seq<Column>,
    conds: Seq<Equality>,
    ps: Map<Seq<char>, Value>,
    f: spec_fn(A) -> Option<RowView>,
)
    requires
        forall|x: A| (if conds_hold(alone(from, cells(x)), from, ps, conds) {
            Some(project(alone(from, cells(x)), from, columns))
        } else {
            None
        }) == match #[trigger] f(x) {
            Some(r) => Some(row_values(r)),
            None => None,
        },
    ensures
        select_rows(recs.map_values(cells), from, columns, conds, ps) == recs.filter_map(f).map_values(
            |r: RowView| row_values(r),
        ),
{
    let g = |r: Map<Seq<char>, Value>| if conds_hold(alone(from, r), from, ps, conds) {
        Some(project(alone(from, r), from, columns))
    } else {
        None
    };
    assert forall|x: A| #[trigger] g(cells(x)) == match f(x) {
        Some(r) => Some(row_values(r)),
        None => None,
    } by {}
    lemma_pick_rows(recs, cells, g, f, |r: RowView| row_values(r));
}

/// The query of the scripts at a path gives the scripts of exactly the
/// records of that keychain and child, in the order they were written,
/// and changes nothing.
pub proof fn law_select_script_by_path(t: Tables, keychain: Seq<char>, child: u32)
    ensures
        ({
            let s = StatementView::SelectScriptPubkeyByPath { keychain, child };
            eval(query(s), db_of(t), params(s)) == Some((db_of(apply(t, s).0), reply_values(apply(t, s).1)))
        }),
{
    lemma_names_differ();
    reveal_with_fuel(conds_hold, 3);
    let s = StatementView::SelectScriptPubkeyByPath { keychain, child };
    let from = "script_pubkeys"@;
    let columns = seq![col("script"@)];
    let conds = seq![eq_param("keychain"@), eq_param("child"@)];
    let f = |r: ScriptRecord| if r.keychain == keychain && r.child == child {
        Some(RowView::Script { script: r.script })
    } else {
        None
    };
    assert forall|x: ScriptRecord| (if conds_hold(alone(from, script_cells(x)), from, params(s), conds) {
        Some(project(alone(from, script_cells(x)), from, columns))
    } else {
        None
    }) == match #[trigger] f(x) {
        Some(r) => Some(row_values(r)),
        None => None,
    } by {
        assert(conds.drop_last() =~= seq![eq_param("keychain"@)]);
        assert(seq![eq_param("keychain"@)].drop_last() =~= Seq::<Equality>::empty());
        assert(project(alone(from, script_cells(x)), from, columns) =~= seq![Value::Blob(x.script)]);
    }
    lemma_select_records(t.script_pubkeys, |r: ScriptRecord| script_cells(r), from, columns, conds, params(s), f);
}

/// The query of every recorded script, in the order written, changing nothing: the rows its text selects are
/// those that the model of the store gives.
pub proof fn law_select_script_pubkeys(t: Tables)
    ensures
        ({
            let s = StatementView::SelectScriptPubkeys;
            eval(query(s), db_of(t), params(s)) == Some((db_of(apply(t, s).0), reply_values(apply(t, s).1)))
        }),
{
    lemma_names_differ();
    reveal_with_fuel(conds_hold, 3);
    let s = StatementView::SelectScriptPubkeys;
    let from = "script_pubkeys"@;
    let columns = seq![col("script"@)];
    let conds = seq![];
    let f = |r: ScriptRecord| Some(RowView::Script { script: r.script });
    assert forall|r: ScriptRecord| (if conds_hold(alone(from, script_cells(r)), from, params(s), conds) {
        Some(project(alone(from, script_cells(r)), from, columns))
    } else {
        None
    }) == match #[trigger] f(r) {
        Some(row) => Some(row_values(row)),
        None => None,
    } by {

        assert(project(alone(from, script_cells(r)), from, columns) =~= seq![Value::Blob(r.script)]);
    }
    lemma_select_records(t.script_pubkeys, |r: ScriptRecord| script_cells(r), from, columns, conds, params(s), f);
}

/// The query of the scripts of exactly the records of the keychain, in the order written, changing nothing: the rows its text selects are
/// those that the model of the store gives.
pub proof fn law_select_script_pubkeys_by_keychain(t: Tables, keychain: Seq<char>)
    ensures
        ({
            let s = StatementView::SelectScriptPubkeysByKeychain { keychain };
            eval(query(s), db_of(t), params(s)) == Some((db_of(apply(t, s).0), reply_values(apply(t, s).1)))
        }),
{
    lemma_names_differ();
    reveal_with_fuel(conds_hold, 3);
    let s = StatementView::SelectScriptPubkeysByKeychain { keychain };
    let from = "script_pubkeys"@;
    let columns = seq![col("script"@)];
    let conds = seq![eq_param("keychain"@)];
    let f = |r: ScriptRecord| if r.keychain == keychain {
        Some(RowView::Script { script: r.script })
    } else {
        None
    };
    assert forall|r: ScriptRecord| (if conds_hold(alone(from, script_cells(r)), from, params(s), conds) {
        Some(project(alone(from, script_cells(r)), from, columns))
    } else {
        None
    }) == match #[trigger] f(r) {
        Some(row) => Some(row_values(row)),
        None => None,
    } by {
        assert(seq![eq_param("keychain"@)].drop_last() =~= Seq::<Equality>::empty());
        assert(project(alone(from, script_cells(r)), from, columns) =~= seq![Value::Blob(r.script)]);
    }
    lemma_select_records(t.script_pubkeys, |r: ScriptRecord| script_cells(r), from, columns, conds, params(s), f);
}

/// The query of the paths of exactly the records of the script, in the order written, changing nothing: the rows its text selects are
/// those that the model of the store gives.
pub proof fn law_select_script_pubkey_by_script(t: Tables, script: Seq<u8>)
    ensures
        ({
            let s = StatementView::SelectScriptPubkeyByScript { script };
            eval(query(s), db_of(t), params(s)) == Some((db_of(apply(t, s).0), reply_values(apply(t, s).1)))
        }),
{
    lemma_names_differ();
    reveal_with_fuel(conds_hold, 3);
    let s = StatementView::SelectScriptPubkeyByScript { script };
    let from = "script_pubkeys"@;
    let columns = seq![col("keychain"@), col("child"@)];
    let conds = seq![eq_param("script"@)];
    let f = |r: ScriptRecord| if r.script == script {
        Some(RowView::Path { keychain: r.keychain, child: r.child })
    } else {
        None
    };
    assert forall|r: ScriptRecord| (if conds_hold(alone(from, script_cells(r)), from, params(s), conds) {
        Some(project(alone(from, script_cells(r)), from, columns))
    } else {
        None
    }) == match #[trigger] f(r) {
        Some(row) => Some(row_values(row)),
        None => None,
    } by {
        assert(seq![eq_param("script"@)].drop_last() =~= Seq::<Equality>::empty());
        assert(project(alone(from, script_cells(r)), from, columns) =~= seq![Value::Text(r.keychain), Value::Int(r.child as int)]);
    }
    lemma_select_records(t.script_pubkeys, |r: ScriptRecord| script_cells(r), from, columns, conds, params(s), f);
}

/// The query of every recorded output, in the order written, changing nothing: the rows its text selects are
/// those that the model of the store gives.
pub proof fn law_select_utxos(t: Tables)
    ensures
        ({
            let s = StatementView::SelectUtxos;
            eval(query(s), db_of(t), params(s)) == Some((db_of(apply(t, s).0), reply_values(apply(t, s).1)))
        }),
{
    lemma_names_differ();
    reveal_with_fuel(conds_hold, 3);
    let s = StatementView::SelectUtxos;
    let from = "utxos"@;
    let columns = seq![col("value"@), col("keychain"@), col("vout"@), col("txid"@), col("script"@), col("is_spent"@)];
    let conds = seq![];
    let f = |u: UtxoRecord| Some(
        RowView::Utxo {
            value: u.value,
            keychain: u.keychain,
            vout: u.vout,
            txid: u.txid,
            script: u.script,
            is_spent: u.is_spent,
        },
    );
    assert forall|u: UtxoRecord| (if conds_hold(alone(from, utxo_cells(u)), from, params(s), conds) {
        Some(project(alone(from, utxo_cells(u)), from, columns))
    } else {
        None
    }) == match #[trigger] f(u) {
        Some(row) => Some(row_values(row)),
        None => None,
    } by {

        assert(project(alone(from, utxo_cells(u)), from, columns) =~= seq![Value::Int(u.value as int), Value::Text(u.keychain), Value::Int(u.vout as int), Value::Blob(u.txid), Value::Blob(u.script), flag(u.is_spent)]);
    }
    lemma_select_records(t.utxos, |u: UtxoRecord| utxo_cells(u), from, columns, conds, params(s), f);
}

/// The query of exactly the outputs recorded at the outpoint, both its transaction id and its index, in the order written, changing nothing: the rows its text selects are
/// those that the model of the store gives.
pub proof fn law_select_utxo_by_outpoint(t: Tables, txid: Seq<u8>, vout: u32)
    ensures
        ({
            let s = StatementView::SelectUtxoByOutpoint { txid, vout };
            eval(query(s), db_of(t), params(s)) == Some((db_of(apply(t, s).0), reply_values(apply(t, s).1)))
        }),
{
    lemma_names_differ();
    reveal_with_fuel(conds_hold, 3);
    let s = StatementView::SelectUtxoByOutpoint { txid, vout };
    let from = "utxos"@;
    let columns = seq![col("value"@), col("keychain"@), col("script"@), col("is_spent"@)];
    let conds = seq![eq_param("txid"@), eq_param("vout"@)];
    let f = |u: UtxoRecord| if u.txid == txid && u.vout == vout {
        Some(
            RowView::UtxoAt {
                value: u.value,
                keychain: u.keychain,
                script: u.script,
                is_spent: u.is_spent,
            },
        )
    } else {
        None
    };
    assert forall|u: UtxoRecord| (if conds_hold(alone(from, utxo_cells(u)), from, params(s), conds) {
        Some(project(alone(from, utxo_cells(u)), from, columns))
    } else {
        None
    }) == match #[trigger] f(u) {
        Some(row) => Some(row_values(row)),
        None => None,
    } by {
        assert(seq![eq_param("txid"@), eq_param("vout"@)].drop_last() =~= seq![eq_param("txid"@)]);
        assert(seq![eq_param("txid"@)].drop_last() =~= Seq::<Equality>::empty());
        assert(project(alone(from, utxo_cells(u)), from, columns) =~= seq![Value::Int(u.value as int), Value::Text(u.keychain), Value::Blob(u.script), flag(u.is_spent)]);
    }
    lemma_select_records(t.utxos, |u: UtxoRecord| utxo_cells(u), from, columns, conds, params(s), f);
}

/// The query of every recorded encoding, in the order written, changing nothing: the rows its text selects are
/// those that the model of the store gives.
pub proof fn law_select_transactions(t: Tables)
    ensures
        ({
            let s = StatementView::SelectTransactions;
            eval(query(s), db_of(t), params(s)) == Some((db_of(apply(t, s).0), reply_values(apply(t, s).1)))
        }),
{
    lemma_names_differ();
    reveal_with_fuel(conds_hold, 3);
    let s = StatementView::SelectTransactions;
    let from = "transactions"@;
    let columns = seq![col("raw_tx"@)];
    let conds = seq![];
    let f = |x: TransactionRecord| Some(RowView::RawTx { raw_tx: x.raw_tx });
    assert forall|x: TransactionRecord| (if conds_hold(alone(from, transaction_cells(x)), from, params(s), conds) {
        Some(project(alone(from, transaction_cells(x)), from, columns))
    } else {
        None
    }) == match #[trigger] f(x) {
        Some(row) => Some(row_values(row)),
        None => None,
    } by {

        assert(project(alone(from, transaction_cells(x)), from, columns) =~= seq![Value::Blob(x.raw_tx)]);
    }
    lemma_select_records(t.transactions, |x: TransactionRecord| transaction_cells(x), from, columns, conds, params(s), f);
}

/// The query of exactly the encodings recorded for the id, in the order written, changing nothing: the rows its text selects are
/// those that the model of the store gives.
pub proof fn law_select_transaction_by_txid(t: Tables, txid: Seq<u8>)
    ensures
        ({
            let s = StatementView::SelectTransactionByTxid { txid };
            eval(query(s), db_of(t), params(s)) == Some((db_of(apply(t, s).0), reply_values(apply(t, s).1)))
        }),
{
    lemma_names_differ();
    reveal_with_fuel(conds_hold, 3);
    let s = StatementView::SelectTransactionByTxid { txid };
    let from = "transactions"@;
    let columns = seq![col("raw_tx"@)];
    let conds = seq![eq_param("txid"@)];
    let f = |x: TransactionRecord| if x.txid == txid {
        Some(RowView::RawTx { raw_tx: x.raw_tx })
    } else {
        None
    };
    assert forall|x: TransactionRecord| (if conds_hold(alone(from, transaction_cells(x)), from, params(s), conds) {
        Some(project(alone(from, transaction_cells(x)), from, columns))
    } else {
        None
    }) == match #[trigger] f(x) {
        Some(row) => Some(row_values(row)),
        None => None,
    } by {
        assert(seq![eq_param("txid"@)].drop_last() =~= Seq::<Equality>::empty());
        assert(project(alone(from, transaction_cells(x)), from, columns) =~= seq![Value::Blob(x.raw_tx)]);
    }
    lemma_select_records(t.transactions, |x: TransactionRecord| transaction_cells(x), from, columns, conds, params(s), f);
}

/// The query of every recorded set of details, in the order written, changing nothing: the rows its text selects are
/// those that the model of the store gives.
pub proof fn law_select_transaction_details(t: Tables)
    ensures
        ({
            let s = StatementView::SelectTransactionDetails;
            eval(query(s), db_of(t), params(s)) == Some((db_of(apply(t, s).0), reply_values(apply(t, s).1)))
        }),
{
    lemma_names_differ();
    reveal_with_fuel(conds_hold, 3);
    let s = StatementView::SelectTransactionDetails;
    let from = "transaction_details"@;
    let columns = seq![col("txid"@), col("timestamp"@), col("received"@), col("sent"@), col("fee"@), col("height"@)];
    let conds = seq![];
    let f = |d: DetailsRecord| Some(
        RowView::Details {
            txid: d.txid,
            timestamp: d.timestamp,
            received: d.received,
            sent: d.sent,
            fee: d.fee,
            height: d.height,
        },
    );
    assert forall|d: DetailsRecord| (if conds_hold(alone(from, details_cells(d)), from, params(s), conds) {
        Some(project(alone(from, details_cells(d)), from, columns))
    } else {
        None
    }) == match #[trigger] f(d) {
        Some(row) => Some(row_values(row)),
        None => None,
    } by {

        assert(project(alone(from, details_cells(d)), from, columns) =~= seq![Value::Blob(d.txid), opt_u64(d.timestamp), Value::Int(d.received as int), Value::Int(d.sent as int), opt_u64(d.fee), opt_u32(d.height)]);
    }
    lemma_select_records(t.transaction_details, |d: DetailsRecord| details_cells(d), from, columns, conds, params(s), f);
}

/// The query of exactly the checksums recorded for the keychain, in the order written, changing nothing: the rows its text selects are
/// those that the model of the store gives.
pub proof fn law_select_checksum_by_keychain(t: Tables, keychain: Seq<char>)
    ensures
        ({
            let s = StatementView::SelectChecksumByKeychain { keychain };
            eval(query(s), db_of(t), params(s)) == Some((db_of(apply(t, s).0), reply_values(apply(t, s).1)))
        }),
{
    lemma_names_differ();
    reveal_with_fuel(conds_hold, 3);
    let s = StatementView::SelectChecksumByKeychain { keychain };
    let from = "checksums"@;
    let columns = seq![col("checksum"@)];
    let conds = seq![eq_param("keychain"@)];
    let f = |c: ChecksumRecord| if c.keychain == keychain {
        Some(RowView::Checksum { checksum: c.checksum })
    } else {
        None
    };
    assert forall|c: ChecksumRecord| (if conds_hold(alone(from, checksum_cells(c)), from, params(s), conds) {
        Some(project(alone(from, checksum_cells(c)), from, columns))
    } else {
        None
    }) == match #[trigger] f(c) {
        Some(row) => Some(row_values(row)),
        None => None,
    } by {
        assert(seq![eq_param("keychain"@)].drop_last() =~= Seq::<Equality>::empty());
        assert(project(alone(from, checksum_cells(c)), from, columns) =~= seq![Value::Blob(c.checksum)]);
    }
    lemma_select_records(t.checksums, |c: ChecksumRecord| checksum_cells(c), from, columns, conds, params(s), f);
}

/// Forgetting the scripts recorded at the path, both keychain and child forgets exactly the rows of those records, and keeps
/// the others in order: the rows its text deletes are those that the
/// model of the store forgets.
pub proof fn law_delete_script_pubkey_by_path(t: Tables, keychain: Seq<char>, child: u32)
    ensures
        ({
            let s = StatementView::DeleteScriptPubkeyByPath { keychain, child };
            eval(query(s), db_of(t), params(s)) == Some((db_of(apply(t, s).0), reply_values(apply(t, s).1)))
        }),
{
    lemma_names_differ();
    reveal_with_fuel(conds_hold, 3);
    let s = StatementView::DeleteScriptPubkeyByPath { keychain, child };
    let table = "script_pubkeys"@;
    let conds = seq![eq_param("keychain"@), eq_param("child"@)];
    let gone = |r: ScriptRecord| r.keychain == keychain && r.child == child;
    let g = |row: Map<Seq<char>, Value>| if conds_hold(alone(table, row), table, params(s), conds) {
        None
    } else {
        Some(row)
    };
    let f = |r: ScriptRecord| if gone(r) {
        None
    } else {
        Some(r)
    };
    assert forall|r: ScriptRecord| #[trigger] g(script_cells(r)) == match f(r) {
        Some(y) => Some(script_cells(y)),
        None => None,
    } by {
        assert(seq![eq_param("keychain"@), eq_param("child"@)].drop_last() =~= seq![eq_param("keychain"@)]);
        assert(seq![eq_param("keychain"@)].drop_last() =~= Seq::<Equality>::empty());
    }
    lemma_pick_rows(t.script_pubkeys, |r: ScriptRecord| script_cells(r), g, f, |r: ScriptRecord| script_cells(r));
    assert(db_of(t).insert(table, t.script_pubkeys.map_values(|r: ScriptRecord| script_cells(r)).filter_map(g)) =~= db_of(apply(t, s).0));
}

/// Forgetting every record of the script forgets exactly the rows of those records, and keeps
/// the others in order: the rows its text deletes are those that the
/// model of the store forgets.
pub proof fn law_delete_script_pubkey_by_script(t: Tables, script: Seq<u8>)
    ensures
        ({
            let s = StatementView::DeleteScriptPubkeyByScript { script };
            eval(query(s), db_of(t), params(s)) == Some((db_of(apply(t, s).0), reply_values(apply(t, s).1)))
        }),
{
    lemma_names_differ();
    reveal_with_fuel(conds_hold, 3);
    let s = StatementView::DeleteScriptPubkeyByScript { script };
    let table = "script_pubkeys"@;
    let conds = seq![eq_param("script"@)];
    let gone = |r: ScriptRecord| r.script == script;
    let g = |row: Map<Seq<char>, Value>| if conds_hold(alone(table, row), table, params(s), conds) {
        None
    } else {
        Some(row)
    };
    let f = |r: ScriptRecord| if gone(r) {
        None
    } else {
        Some(r)
    };
    assert forall|r: ScriptRecord| #[trigger] g(script_cells(r)) == match f(r) {
        Some(y) => Some(script_cells(y)),
        None => None,
    } by {
        assert(seq![eq_param("script"@)].drop_last() =~= Seq::<Equality>::empty());
    }
    lemma_pick_rows(t.script_pubkeys, |r: ScriptRecord| script_cells(r), g, f, |r: ScriptRecord| script_cells(r));
    assert(db_of(t).insert(table, t.script_pubkeys.map_values(|r: ScriptRecord| script_cells(r)).filter_map(g)) =~= db_of(apply(t, s).0));
}

/// Forgetting the outputs recorded at the outpoint, both its transaction id and its index forgets exactly the rows of those records, and keeps
/// the others in order: the rows its text deletes are those that the
/// model of the store forgets.
pub proof fn law_delete_utxo_by_outpoint(t: Tables, txid: Seq<u8>, vout: u32)
    ensures
        ({
            let s = StatementView::DeleteUtxoByOutpoint { txid, vout };
            eval(query(s), db_of(t), params(s)) == Some((db_of(apply(t, s).0), reply_values(apply(t, s).1)))
        }),
{
    lemma_names_differ();
    reveal_with_fuel(conds_hold, 3);
    let s = StatementView::DeleteUtxoByOutpoint { txid, vout };
    let table = "utxos"@;
    let conds = seq![eq_param("txid"@), eq_param("vout"@)];
    let gone = |u: UtxoRecord| u.txid == txid && u.vout == vout;
    let g = |row: Map<Seq<char>, Value>| if conds_hold(alone(table, row), table, params(s), conds) {
        None
    } else {
        Some(row)
    };
    let f = |u: UtxoRecord| if gone(u) {
        None
    } else {
        Some(u)
    };
    assert forall|u: UtxoRecord| #[trigger] g(utxo_cells(u)) == match f(u) {
        Some(y) => Some(utxo_cells(y)),
        None => None,
    } by {
        assert(seq![eq_param("txid"@), eq_param("vout"@)].drop_last() =~= seq![eq_param("txid"@)]);
        assert(seq![eq_param("txid"@)].drop_last() =~= Seq::<Equality>::empty());
    }
    lemma_pick_rows(t.utxos, |u: UtxoRecord| utxo_cells(u), g, f, |u: UtxoRecord| utxo_cells(u));
    assert(db_of(t).insert(table, t.utxos.map_values(|u: UtxoRecord| utxo_cells(u)).filter_map(g)) =~= db_of(apply(t, s).0));
}

/// Forgetting the encodings recorded for the id forgets exactly the rows of those records, and keeps
/// the others in order: the rows its text deletes are those that the
/// model of the store forgets.
pub proof fn law_delete_transaction_by_txid(t: Tables, txid: Seq<u8>)
    ensures
        ({
            let s = StatementView::DeleteTransactionByTxid { txid };
            eval(query(s), db_of(t), params(s)) == Some((db_of(apply(t, s).0), reply_values(apply(t, s).1)))
        }),
{
    lemma_names_differ();
    reveal_with_fuel(conds_hold, 3);
    let s = StatementView::DeleteTransactionByTxid { txid };
    let table = "transactions"@;
    let conds = seq![eq_param("txid"@)];
    let gone = |x: TransactionRecord| x.txid == txid;
    let g = |row: Map<Seq<char>, Value>| if conds_hold(alone(table, row), table, params(s), conds) {
        None
    } else {
        Some(row)
    };
    let f = |x: TransactionRecord| if gone(x) {
        None
    } else {
        Some(x)
    };
    assert forall|x: TransactionRecord| #[trigger] g(transaction_cells(x)) == match f(x) {
        Some(y) => Some(transaction_cells(y)),
        None => None,
    } by {
        assert(seq![eq_param("txid"@)].drop_last() =~= Seq::<Equality>::empty());
    }
    lemma_pick_rows(t.transactions, |x: TransactionRecord| transaction_cells(x), g, f, |x: TransactionRecord| transaction_cells(x));
    assert(db_of(t).insert(table, t.transactions.map_values(|x: TransactionRecord| transaction_cells(x)).filter_map(g)) =~= db_of(apply(t, s).0));
}

/// Forgetting the details recorded for the id forgets exactly the rows of those records, and keeps
/// the others in order: the rows its text deletes are those that the
/// model of the store forgets.
pub proof fn law_delete_transaction_details_by_txid(t: Tables, txid: Seq<u8>)
    ensures
        ({
            let s = StatementView::DeleteTransactionDetailsByTxid { txid };
            eval(query(s), db_of(t), params(s)) == Some((db_of(apply(t, s).0), reply_values(apply(t, s).1)))
        }),
{
    lemma_names_differ();
    reveal_with_fuel(conds_hold, 3);
    let s = StatementView::DeleteTransactionDetailsByTxid { txid };
    let table = "transaction_details"@;
    let conds = seq![eq_param("txid"@)];
    let gone = |d: DetailsRecord| d.txid == txid;
    let g = |row: Map<Seq<char>, Value>| if conds_hold(alone(table, row), table, params(s), conds) {
        None
    } else {
        Some(row)
    };
    let f = |d: DetailsRecord| if gone(d) {
        None
    } else {
        Some(d)
    };
    assert forall|d: DetailsRecord| #[trigger] g(details_cells(d)) == match f(d) {
        Some(y) => Some(details_cells(y)),
        None => None,
    } by {
        assert(seq![eq_param("txid"@)].drop_last() =~= Seq::<Equality>::empty());
    }
    lemma_pick_rows(t.transaction_details, |d: DetailsRecord| details_cells(d), g, f, |d: DetailsRecord| details_cells(d));
    assert(db_of(t).insert(table, t.transaction_details.map_values(|d: DetailsRecord| details_cells(d)).filter_map(g)) =~= db_of(apply(t, s).0));
}

/// Replacing the encoding recorded for the id, of every record of it and of no other: the rows its text changes, and
/// how, are those that the model of the store changes.
pub proof fn law_update_transaction(t: Tables, txid: Seq<u8>, raw_tx: Seq<u8>)
    ensures
        ({
            let s = StatementView::UpdateTransaction { txid, raw_tx };
            eval(query(s), db_of(t), params(s)) == Some((db_of(apply(t, s).0), reply_values(apply(t, s).1)))
        }),
{
    lemma_names_differ();
    reveal_with_fuel(conds_hold, 3);
    reveal_with_fuel(assign, 7);
    let s = StatementView::UpdateTransaction { txid, raw_tx };
    let table = "transactions"@;
    let sets = seq![set_param("raw_tx"@)];
    let conds = seq![eq_param("txid"@)];
    let u = |row: Map<Seq<char>, Value>| if conds_hold(alone(table, row), table, params(s), conds) {
        assign(row, table, params(s), sets)
    } else {
        row
    };
    let hit = |x: TransactionRecord| x.txid == txid;
    let change = |x: TransactionRecord| TransactionRecord { raw_tx, ..x };
    assert forall|x: TransactionRecord| #[trigger] u(transaction_cells(x)) == transaction_cells(if hit(x) {
        change(x)
    } else {
        x
    }) by {
        assert(seq![set_param("raw_tx"@)].drop_last() =~= Seq::<(Seq<char>, Operand)>::empty());
        assert(seq![eq_param("txid"@)].drop_last() =~= Seq::<Equality>::empty());
        if hit(x) {
            assert(assign(transaction_cells(x), table, params(s), sets) =~= transaction_cells(change(x)));
        }
    }
    assert(t.transactions.map_values(|x: TransactionRecord| transaction_cells(x)).map_values(u) =~= update_where(t.transactions, hit, change).map_values(
        |x: TransactionRecord| transaction_cells(x),
    ));
    assert(db_of(t).insert(table, t.transactions.map_values(|x: TransactionRecord| transaction_cells(x)).map_values(u)) =~= db_of(apply(t, s).0));
}

/// Replacing the details recorded for the id, whatever they held, of every record of it and of no other: the rows its text changes, and
/// how, are those that the model of the store changes.
pub proof fn law_update_transaction_details(t: Tables, txid: Seq<u8>, timestamp: Option<u64>, received: u64, sent: u64, fee: Option<u64>, height: Option<u32>)
    ensures
        ({
            let s = StatementView::UpdateTransactionDetails { txid, timestamp, received, sent, fee, height };
            eval(query(s), db_of(t), params(s)) == Some((db_of(apply(t, s).0), reply_values(apply(t, s).1)))
        }),
{
    lemma_names_differ();
    reveal_with_fuel(conds_hold, 3);
    reveal_with_fuel(assign, 7);
    let s = StatementView::UpdateTransactionDetails { txid, timestamp, received, sent, fee, height };
    let table = "transaction_details"@;
    let sets = seq![set_param("timestamp"@), set_param("received"@), set_param("sent"@), set_param("fee"@), set_param("height"@)];
    let conds = seq![eq_param("txid"@)];
    let u = |row: Map<Seq<char>, Value>| if conds_hold(alone(table, row), table, params(s), conds) {
        assign(row, table, params(s), sets)
    } else {
        row
    };
    let hit = |d: DetailsRecord| d.txid == txid;
    let change = |d: DetailsRecord| DetailsRecord { txid, timestamp, received, sent, fee, height };
    assert forall|d: DetailsRecord| #[trigger] u(details_cells(d)) == details_cells(if hit(d) {
        change(d)
    } else {
        d
    }) by {
        assert(seq![set_param("timestamp"@), set_param("received"@), set_param("sent"@), set_param("fee"@), set_param("height"@)].drop_last() =~= seq![set_param("timestamp"@), set_param("received"@), set_param("sent"@), set_param("fee"@)]);
        assert(seq![set_param("timestamp"@), set_param("received"@), set_param("sent"@), set_param("fee"@)].drop_last() =~= seq![set_param("timestamp"@), set_param("received"@), set_param("sent"@)]);
        assert(seq![set_param("timestamp"@), set_param("received"@), set_param("sent"@)].drop_last() =~= seq![set_param("timestamp"@), set_param("received"@)]);
        assert(seq![set_param("timestamp"@), set_param("received"@)].drop_last() =~= seq![set_param("timestamp"@)]);
        assert(seq![set_param("timestamp"@)].drop_last() =~= Seq::<(Seq<char>, Operand)>::empty());
        assert(seq![eq_param("txid"@)].drop_last() =~= Seq::<Equality>::empty());
        if hit(d) {
            assert(assign(details_cells(d), table, params(s), sets) =~= details_cells(change(d)));
        }
    }
    assert(t.transaction_details.map_values(|d: DetailsRecord| details_cells(d)).map_values(u) =~= update_where(t.transaction_details, hit, change).map_values(
        |d: DetailsRecord| details_cells(d),
    ));
    assert(db_of(t).insert(table, t.transaction_details.map_values(|d: DetailsRecord| details_cells(d)).map_values(u)) =~= db_of(apply(t, s).0));
}

/// Recording a script at a path adds one row after the others, holding each value
/// bound, in its own column: the row its text writes is the row of the
/// record that the model of the store adds.
pub proof fn law_insert_script_pubkey(t: Tables, keychain: Seq<char>, child: u32, script: Seq<u8>)
    ensures
        ({
            let s = StatementView::InsertScriptPubkey { keychain, child, script };
            eval(query(s), db_of(t), params(s)) == Some((db_of(apply(t, s).0), reply_values(apply(t, s).1)))
        }),
{
    lemma_names_differ();
    reveal_with_fuel(inserted_row, 8);
    let s = StatementView::InsertScriptPubkey { keychain, child, script };
    let table = "script_pubkeys"@;
    let rec = ScriptRecord { keychain, child, script };
    assert(seq!["keychain"@, "child"@, "script"@].drop_last() =~= seq!["keychain"@, "child"@]);
    assert(seq!["keychain"@, "child"@].drop_last() =~= seq!["keychain"@]);
    assert(seq!["keychain"@].drop_last() =~= Seq::<Seq<char>>::empty());
    assert(seq![Operand::Param("keychain"@), Operand::Param("child"@), Operand::Param("script"@)].drop_last() =~= seq![Operand::Param("keychain"@), Operand::Param("child"@)]);
    assert(seq![Operand::Param("keychain"@), Operand::Param("child"@)].drop_last() =~= seq![Operand::Param("keychain"@)]);
    assert(seq![Operand::Param("keychain"@)].drop_last() =~= Seq::<Operand>::empty());
    assert(inserted_row(seq!["keychain"@, "child"@, "script"@], seq![Operand::Param("keychain"@), Operand::Param("child"@), Operand::Param("script"@)], params(s)) =~= script_cells(rec));
    assert(t.script_pubkeys.push(rec).map_values(|r: ScriptRecord| script_cells(r)) =~= t.script_pubkeys.map_values(|r: ScriptRecord| script_cells(r)).push(
        script_cells(rec),
    ));
    assert(db_of(t).insert(table, db_of(t)[table].push(script_cells(rec))) =~= db_of(apply(t, s).0));
}

/// Recording an output adds one row after the others, holding each value
/// bound, in its own column: the row its text writes is the row of the
/// record that the model of the store adds.
pub proof fn law_insert_utxo(t: Tables, value: u64, keychain: Seq<char>, vout: u32, txid: Seq<u8>, script: Seq<u8>, is_spent: bool)
    ensures
        ({
            let s = StatementView::InsertUtxo { value, keychain, vout, txid, script, is_spent };
            eval(query(s), db_of(t), params(s)) == Some((db_of(apply(t, s).0), reply_values(apply(t, s).1)))
        }),
{
    lemma_names_differ();
    reveal_with_fuel(inserted_row, 8);
    let s = StatementView::InsertUtxo { value, keychain, vout, txid, script, is_spent };
    let table = "utxos"@;
    let rec = UtxoRecord { value, keychain, vout, txid, script, is_spent };
    assert(seq!["value"@, "keychain"@, "vout"@, "txid"@, "script"@, "is_spent"@].drop_last() =~= seq!["value"@, "keychain"@, "vout"@, "txid"@, "script"@]);
    assert(seq!["value"@, "keychain"@, "vout"@, "txid"@, "script"@].drop_last() =~= seq!["value"@, "keychain"@, "vout"@, "txid"@]);
    assert(seq!["value"@, "keychain"@, "vout"@, "txid"@].drop_last() =~= seq!["value"@, "keychain"@, "vout"@]);
    assert(seq!["value"@, "keychain"@, "vout"@].drop_last() =~= seq!["value"@, "keychain"@]);
    assert(seq!["value"@, "keychain"@].drop_last() =~= seq!["value"@]);
    assert(seq!["value"@].drop_last() =~= Seq::<Seq<char>>::empty());
    assert(seq![Operand::Param("value"@), Operand::Param("keychain"@), Operand::Param("vout"@), Operand::Param("txid"@), Operand::Param("script"@), Operand::Param("is_spent"@)].drop_last() =~= seq![Operand::Param("value"@), Operand::Param("keychain"@), Operand::Param("vout"@), Operand::Param("txid"@), Operand::Param("script"@)]);
    assert(seq![Operand::Param("value"@), Operand::Param("keychain"@), Operand::Param("vout"@), Operand::Param("txid"@), Operand::Param("script"@)].drop_last() =~= seq![Operand::Param("value"@), Operand::Param("keychain"@), Operand::Param("vout"@), Operand::Param("txid"@)]);
    assert(seq![Operand::Param("value"@), Operand::Param("keychain"@), Operand::Param("vout"@), Operand::Param("txid"@)].drop_last() =~= seq![Operand::Param("value"@), Operand::Param("keychain"@), Operand::Param("vout"@)]);
    assert(seq![Operand::Param("value"@), Operand::Param("keychain"@), Operand::Param("vout"@)].drop_last() =~= seq![Operand::Param("value"@), Operand::Param("keychain"@)]);
    assert(seq![Operand::Param("value"@), Operand::Param("keychain"@)].drop_last() =~= seq![Operand::Param("value"@)]);
    assert(seq![Operand::Param("value"@)].drop_last() =~= Seq::<Operand>::empty());
    assert(inserted_row(seq!["value"@, "keychain"@, "vout"@, "txid"@, "script"@, "is_spent"@], seq![Operand::Param("value"@), Operand::Param("keychain"@), Operand::Param("vout"@), Operand::Param("txid"@), Operand::Param("script"@), Operand::Param("is_spent"@)], params(s)) =~= utxo_cells(rec));
    assert(t.utxos.push(rec).map_values(|u: UtxoRecord| utxo_cells(u)) =~= t.utxos.map_values(|u: UtxoRecord| utxo_cells(u)).push(
        utxo_cells(rec),
    ));
    assert(db_of(t).insert(table, db_of(t)[table].push(utxo_cells(rec))) =~= db_of(apply(t, s).0));
}

/// Recording an encoding adds one row after the others, holding each value
/// bound, in its own column: the row its text writes is the row of the
/// record that the model of the store adds.
pub proof fn law_insert_transaction(t: Tables, txid: Seq<u8>, raw_tx: Seq<u8>)
    ensures
        ({
            let s = StatementView::InsertTransaction { txid, raw_tx };
            eval(query(s), db_of(t), params(s)) == Some((db_of(apply(t, s).0), reply_values(apply(t, s).1)))
        }),
{
    lemma_names_differ();
    reveal_with_fuel(inserted_row, 8);
    let s = StatementView::InsertTransaction { txid, raw_tx };
    let table = "transactions"@;
    let rec = TransactionRecord { txid, raw_tx };
    assert(seq!["txid"@, "raw_tx"@].drop_last() =~= seq!["txid"@]);
    assert(seq!["txid"@].drop_last() =~= Seq::<Seq<char>>::empty());
    assert(seq![Operand::Param("txid"@), Operand::Param("raw_tx"@)].drop_last() =~= seq![Operand::Param("txid"@)]);
    assert(seq![Operand::Param("txid"@)].drop_last() =~= Seq::<Operand>::empty());
    assert(inserted_row(seq!["txid"@, "raw_tx"@], seq![Operand::Param("txid"@), Operand::Param("raw_tx"@)], params(s)) =~= transaction_cells(rec));
    assert(t.transactions.push(rec).map_values(|x: TransactionRecord| transaction_cells(x)) =~= t.transactions.map_values(|x: TransactionRecord| transaction_cells(x)).push(
        transaction_cells(rec),
    ));
    assert(db_of(t).insert(table, db_of(t)[table].push(transaction_cells(rec))) =~= db_of(apply(t, s).0));
}

/// Recording details adds one row after the others, holding each value
/// bound, in its own column: the row its text writes is the row of the
/// record that the model of the store adds.
pub proof fn law_insert_transaction_details(t: Tables, txid: Seq<u8>, timestamp: Option<u64>, received: u64, sent: u64, fee: Option<u64>, height: Option<u32>)
    ensures
        ({
            let s = StatementView::InsertTransactionDetails { txid, timestamp, received, sent, fee, height };
            eval(query(s), db_of(t), params(s)) == Some((db_of(apply(t, s).0), reply_values(apply(t, s).1)))
        }),
{
    lemma_names_differ();
    reveal_with_fuel(inserted_row, 8);
    let s = StatementView::InsertTransactionDetails { txid, timestamp, received, sent, fee, height };
    let table = "transaction_details"@;
    let rec = DetailsRecord { txid, timestamp, received, sent, fee, height };
    assert(seq!["txid"@, "timestamp"@, "received"@, "sent"@, "fee"@, "height"@].drop_last() =~= seq!["txid"@, "timestamp"@, "received"@, "sent"@, "fee"@]);
    assert(seq!["txid"@, "timestamp"@, "received"@, "sent"@, "fee"@].drop_last() =~= seq!["txid"@, "timestamp"@, "received"@, "sent"@]);
    assert(seq!["txid"@, "timestamp"@, "received"@, "sent"@].drop_last() =~= seq!["txid"@, "timestamp"@, "received"@]);
    assert(seq!["txid"@, "timestamp"@, "received"@].drop_last() =~= seq!["txid"@, "timestamp"@]);
    assert(seq!["txid"@, "timestamp"@].drop_last() =~= seq!["txid"@]);
    assert(seq!["txid"@].drop_last() =~= Seq::<Seq<char>>::empty());
    assert(seq![Operand::Param("txid"@), Operand::Param("timestamp"@), Operand::Param("received"@), Operand::Param("sent"@), Operand::Param("fee"@), Operand::Param("height"@)].drop_last() =~= seq![Operand::Param("txid"@), Operand::Param("timestamp"@), Operand::Param("received"@), Operand::Param("sent"@), Operand::Param("fee"@)]);
    assert(seq![Operand::Param("txid"@), Operand::Param("timestamp"@), Operand::Param("received"@), Operand::Param("sent"@), Operand::Param("fee"@)].drop_last() =~= seq![Operand::Param("txid"@), Operand::Param("timestamp"@), Operand::Param("received"@), Operand::Param("sent"@)]);
    assert(seq![Operand::Param("txid"@), Operand::Param("timestamp"@), Operand::Param("received"@), Operand::Param("sent"@)].drop_last() =~= seq![Operand::Param("txid"@), Operand::Param("timestamp"@), Operand::Param("received"@)]);
    assert(seq![Operand::Param("txid"@), Operand::Param("timestamp"@), Operand::Param("received"@)].drop_last() =~= seq![Operand::Param("txid"@), Operand::Param("timestamp"@)]);
    assert(seq![Operand::Param("txid"@), Operand::Param("timestamp"@)].drop_last() =~= seq![Operand::Param("txid"@)]);
    assert(seq![Operand::Param("txid"@)].drop_last() =~= Seq::<Operand>::empty());
    assert(inserted_row(seq!["txid"@, "timestamp"@, "received"@, "sent"@, "fee"@, "height"@], seq![Operand::Param("txid"@), Operand::Param("timestamp"@), Operand::Param("received"@), Operand::Param("sent"@), Operand::Param("fee"@), Operand::Param("height"@)], params(s)) =~= details_cells(rec));
    assert(t.transaction_details.push(rec).map_values(|d: DetailsRecord| details_cells(d)) =~= t.transaction_details.map_values(|d: DetailsRecord| details_cells(d)).push(
        details_cells(rec),
    ));
    assert(db_of(t).insert(table, db_of(t)[table].push(details_cells(rec))) =~= db_of(apply(t, s).0));
}

/// Recording a checksum adds one row after the others, holding each value
/// bound, in its own column: the row its text writes is the row of the
/// record that the model of the store adds.
pub proof fn law_insert_checksum(t: Tables, keychain: Seq<char>, checksum: Seq<u8>)
    ensures
        ({
            let s = StatementView::InsertChecksum { keychain, checksum };
            eval(query(s), db_of(t), params(s)) == Some((db_of(apply(t, s).0), reply_values(apply(t, s).1)))
        }),
{
    lemma_names_differ();
    reveal_with_fuel(inserted_row, 8);
    let s = StatementView::InsertChecksum { keychain, checksum };
    let table = "checksums"@;
    let rec = ChecksumRecord { keychain, checksum };
    assert(seq!["keychain"@, "checksum"@].drop_last() =~= seq!["keychain"@]);
    assert(seq!["keychain"@].drop_last() =~= Seq::<Seq<char>>::empty());
    assert(seq![Operand::Param("keychain"@), Operand::Param("checksum"@)].drop_last() =~= seq![Operand::Param("keychain"@)]);
    assert(seq![Operand::Param("keychain"@)].drop_last() =~= Seq::<Operand>::empty());
    assert(inserted_row(seq!["keychain"@, "checksum"@], seq![Operand::Param("keychain"@), Operand::Param("checksum"@)], params(s)) =~= checksum_cells(rec));
    assert(t.checksums.push(rec).map_values(|c: ChecksumRecord| checksum_cells(c)) =~= t.checksums.map_values(|c: ChecksumRecord| checksum_cells(c)).push(
        checksum_cells(rec),
    ));
    assert(db_of(t).insert(table, db_of(t)[table].push(checksum_cells(rec))) =~= db_of(apply(t, s).0));
}

// ---------------------------------------------------------------------
// The left join of details with encodings.

/// The join of details with encodings as `LEFT JOIN .. ON` writes it.
pub open spec fn details_join() -> Join {
    Join {
        table: "transactions"@,
        on: Equality {
            left: Operand::Column(qcol("transaction_details"@, "txid"@)),
            right: Operand::Column(qcol("transactions"@, "txid"@)),
            spaced: true,
        },
    }
}

/// The rows in view for details `d` joined with encoding `x`.
pub open spec fn joined_view(d: DetailsRecord, x: TransactionRecord) -> Map<Seq<char>, Map<Seq<char>, Value>> {
    map!["transaction_details"@ => details_cells(d), "transactions"@ => transaction_cells(x)]
}

/// The rows of the left join for one set of details are the rows that the
/// model gives for it, where the columns read of each pair of rows in view
/// are the values of the model's row for it, and the conditions keep
/// exactly the details for which `keep` holds.
pub proof fn lemma_joined_one(
    d: DetailsRecord,
    txs: Seq<TransactionRecord>,
    columns: Seq<Column>,
    conds: Seq<Equality>,
    ps: Map<Seq<char>, Value>,
    row: spec_fn(DetailsRecord, Option<Seq<u8>>) -> RowView,
    keep: bool,
)
    requires
        forall|x: TransactionRecord|
            conds_hold(#[trigger] joined_view(d, x), "transaction_details"@, ps, conds) == keep && project(
                joined_view(d, x),
                "transaction_details"@,
                columns,
            ) == row_values(row(d, Some(x.raw_tx))),
        conds_hold(alone("transaction_details"@, details_cells(d)), "transaction_details"@, ps, conds) == keep,
        project(alone("transaction_details"@, details_cells(d)), "transaction_details"@, columns) == row_values(
            row(d, None),
        ),
    ensures
        joined_rows(
            details_cells(d),
            txs.map_values(|x: TransactionRecord| transaction_cells(x)),
            "transaction_details"@,
            details_join(),
            columns,
            conds,
            ps,
        ) == if keep {
            joined(d, txs, row).map_values(|r: RowView| row_values(r))
        } else {
            Seq::empty()
        },
{
    lemma_names_differ();
    let from = "transaction_details"@;
    let j = details_join();
    let left = details_cells(d);
    let both = |r: Map<Seq<char>, Value>| map![from => left, j.table => r];
    let mf = |r: Map<Seq<char>, Value>| if equality_holds(both(r), from, ps, j.on) {
        Some(both(r))
    } else {
        None
    };
    let pickx = |x: TransactionRecord| if x.txid == d.txid {
        Some(x)
    } else {
        None
    };
    assert forall|x: TransactionRecord| #[trigger] mf(transaction_cells(x)) == match pickx(x) {
        Some(y) => Some(both(transaction_cells(y))),
        None => None,
    } by {
        assert(both(transaction_cells(x)) =~= joined_view(d, x));
    }
    lemma_pick_rows(
        txs,
        |x: TransactionRecord| transaction_cells(x),
        mf,
        pickx,
        |y: TransactionRecord| both(transaction_cells(y)),
    );
    let p = txs.filter_map(pickx);
    let gm = |x: TransactionRecord| if x.txid == d.txid {
        Some(row(d, Some(x.raw_tx)))
    } else {
        None
    };
    lemma_filter_map_then(txs, pickx, |y: TransactionRecord| row(d, Some(y.raw_tx)), gm);
    let matched = txs.map_values(|x: TransactionRecord| transaction_cells(x)).filter_map(mf);
    let vf = |v: Map<Seq<char>, Map<Seq<char>, Value>>| if conds_hold(v, from, ps, conds) {
        Some(project(v, from, columns))
    } else {
        None
    };
    if p.len() == 0 {
        let one = seq![alone(from, left)];
        assert(one.drop_last() =~= Seq::<Map<Seq<char>, Map<Seq<char>, Value>>>::empty());
        assert(one.last() == alone(from, left));
        assert(one.drop_last().filter_map(vf) =~= Seq::<Seq<Value>>::empty());
        assert(vf(alone(from, left)) == if keep {
            Some(row_values(row(d, None)))
        } else {
            None
        });
        assert(one.filter_map(vf) =~= if keep {
            seq![row_values(row(d, None))]
        } else {
            Seq::empty()
        });
        assert(joined(d, txs, row) =~= seq![row(d, None)]);
        assert(matched.len() == 0);
        assert(joined_rows(left, txs.map_values(|x: TransactionRecord| transaction_cells(x)), from, j, columns, conds, ps)
            == one.filter_map(vf));
        assert(joined_rows(left, txs.map_values(|x: TransactionRecord| transaction_cells(x)), from, j, columns, conds, ps) == if keep {
            joined(d, txs, row).map_values(|r: RowView| row_values(r))
        } else {
            Seq::empty()
        });
        assert(seq![row(d, None)].map_values(|r: RowView| row_values(r)) =~= seq![row_values(row(d, None))]);
    } else {
        if keep {
            let fk = |x: TransactionRecord| Some(row(d, Some(x.raw_tx)));
            assert forall|x: TransactionRecord| #[trigger] vf(both(transaction_cells(x))) == match fk(x) {
                Some(r) => Some(row_values(r)),
                None => None,
            } by {
                assert(both(transaction_cells(x)) =~= joined_view(d, x));
            }
            lemma_pick_rows(p, |x: TransactionRecord| both(transaction_cells(x)), vf, fk, |r: RowView| row_values(r));
            lemma_filter_map_all(p, |y: TransactionRecord| row(d, Some(y.raw_tx)));
            assert(fk =~= (|x: TransactionRecord| Some((|y: TransactionRecord| row(d, Some(y.raw_tx)))(x))));
            assert(p.filter_map(fk) == p.map_values(|y: TransactionRecord| row(d, Some(y.raw_tx))));
            assert(matched.filter_map(vf) == p.filter_map(fk).map_values(|r: RowView| row_values(r)));
        } else {
            assert forall|i: int| 0 <= i < matched.len() implies vf(#[trigger] matched[i]) is None by {
                let y = p[i];
                assert(matched[i] == both(transaction_cells(y)));
                assert(both(transaction_cells(y)) =~= joined_view(d, y));
            }
            lemma_filter_map_none(matched, vf);
        }
        assert(p.map_values(|y: TransactionRecord| both(transaction_cells(y))) == matched);
        assert(matched.len() > 0);
        assert(joined_rows(left, txs.map_values(|x: TransactionRecord| transaction_cells(x)), from, j, columns, conds, ps)
            == matched.filter_map(vf));
        assert(joined(d, txs, row) == p.map_values(|y: TransactionRecord| row(d, Some(y.raw_tx))));
        assert(joined_rows(left, txs.map_values(|x: TransactionRecord| transaction_cells(x)), from, j, columns, conds, ps) == if keep {
            joined(d, txs, row).map_values(|r: RowView| row_values(r))
        } else {
            Seq::empty()
        });
    }
}

/// The rows of the left join of every set of details are those the model
/// gives for the details that the conditions keep, in order.
pub proof fn lemma_join_all(
    ds: Seq<DetailsRecord>,
    txs: Seq<TransactionRecord>,
    columns: Seq<Column>,
    conds: Seq<Equality>,
    ps: Map<Seq<char>, Value>,
    row: spec_fn(DetailsRecord, Option<Seq<u8>>) -> RowView,
    gone: spec_fn(DetailsRecord) -> bool,
)
    requires
        forall|d: DetailsRecord, x: TransactionRecord|
            conds_hold(#[trigger] joined_view(d, x), "transaction_details"@, ps, conds) == !gone(d) && project(
                joined_view(d, x),
                "transaction_details"@,
                columns,
            ) == row_values(row(d, Some(x.raw_tx))),
        forall|d: DetailsRecord|
            conds_hold(#[trigger] alone("transaction_details"@, details_cells(d)), "transaction_details"@, ps, conds)
                == !gone(d) && project(
                alone("transaction_details"@, details_cells(d)),
                "transaction_details"@,
                columns,
            ) == row_values(row(d, None)),
    ensures
        join_select_rows(
            ds.map_values(|d: DetailsRecord| details_cells(d)),
            txs.map_values(|x: TransactionRecord| transaction_cells(x)),
            "transaction_details"@,
            details_join(),
            columns,
            conds,
            ps,
        ) == join_rows(delete_where(ds, gone), txs, row).map_values(|r: RowView| row_values(r)),
    decreases ds.len(),
{
    let rights = txs.map_values(|x: TransactionRecord| transaction_cells(x));
    let lefts = ds.map_values(|d: DetailsRecord| details_cells(d));
    if ds.len() == 0 {
        assert(delete_where(ds, gone) =~= Seq::<DetailsRecord>::empty());
        assert(join_rows(delete_where(ds, gone), txs, row) =~= Seq::<RowView>::empty());
    } else {
        let rest = ds.drop_last();
        let d = ds.last();
        lemma_join_all(rest, txs, columns, conds, ps, row, gone);
        assert(lefts.drop_last() =~= rest.map_values(|e: DetailsRecord| details_cells(e)));
        assert(conds_hold(alone("transaction_details"@, details_cells(d)), "transaction_details"@, ps, conds) == !gone(d));
        lemma_joined_one(d, txs, columns, conds, ps, row, !gone(d));
        let kr = delete_where(rest, gone);
        let h = |r: RowView| row_values(r);
        if gone(d) {
            assert(delete_where(ds, gone) == kr);
        } else {
            assert(delete_where(ds, gone) == kr.push(d));
            assert(kr.push(d).drop_last() =~= kr);
            assert(join_rows(kr.push(d), txs, row) == join_rows(kr, txs, row) + joined(d, txs, row));
            assert((join_rows(kr, txs, row) + joined(d, txs, row)).map_values(h) =~= join_rows(kr, txs, row).map_values(
                h,
            ) + joined(d, txs, row).map_values(h));
        }
    }
}

/// The query of every set of details with the encodings of its id gives,
/// for each set of details in the order written, a row with each encoding
/// recorded for its id, in the order written, or one row without an
/// encoding where there is none; it changes nothing.
pub proof fn law_select_transaction_details_with_raw(t: Tables)
    ensures
        ({
            let s = StatementView::SelectTransactionDetailsWithRaw;
            eval(query(s), db_of(t), params(s)) == Some((db_of(apply(t, s).0), reply_values(apply(t, s).1)))
        }),
{
    lemma_names_differ();
    let s = StatementView::SelectTransactionDetailsWithRaw;
    let td = "transaction_details"@;
    let tx = "transactions"@;
    let columns = seq![
        qcol(td, "txid"@),
        qcol(td, "timestamp"@),
        qcol(td, "received"@),
        qcol(td, "sent"@),
        qcol(td, "fee"@),
        qcol(td, "height"@),
        qcol(tx, "raw_tx"@),
    ];
    let conds = Seq::<Equality>::empty();
    let row = |d: DetailsRecord, raw: Option<Seq<u8>>|
        RowView::DetailsWithRaw {
            txid: d.txid,
            timestamp: d.timestamp,
            received: d.received,
            sent: d.sent,
            fee: d.fee,
            height: d.height,
            raw_tx: raw,
        };
    let gone = |d: DetailsRecord| false;
    assert forall|d: DetailsRecord, x: TransactionRecord|
        conds_hold(#[trigger] joined_view(d, x), td, params(s), conds) == !gone(d) && project(
            joined_view(d, x),
            td,
            columns,
        ) == row_values(row(d, Some(x.raw_tx))) by {
        assert(project(joined_view(d, x), td, columns) =~= row_values(row(d, Some(x.raw_tx))));
    }
    assert forall|d: DetailsRecord|
        conds_hold(#[trigger] alone(td, details_cells(d)), td, params(s), conds) == !gone(d) && project(
            alone(td, details_cells(d)),
            td,
            columns,
        ) == row_values(row(d, None)) by {
        assert(project(alone(td, details_cells(d)), td, columns) =~= row_values(row(d, None)));
    }
    lemma_join_all(t.transaction_details, t.transactions, columns, conds, params(s), row, gone);
    lemma_filter_map_all(t.transaction_details, |d: DetailsRecord| d);
    assert((|r: DetailsRecord| if gone(r) {
        None
    } else {
        Some(r)
    }) =~= (|r: DetailsRecord| Some((|d: DetailsRecord| d)(r))));
    assert(t.transaction_details.map_values(|d: DetailsRecord| d) =~= t.transaction_details);
    assert(delete_where(t.transaction_details, gone) =~= t.transaction_details);
}

/// The query of the details of an id with the encodings of the id gives,
/// for exactly the details recorded for that id, in the order written, a
/// row with each encoding recorded for the id, in the order written, or one
/// row without an encoding where there is none; it changes nothing.
pub proof fn law_select_transaction_details_by_txid(t: Tables, txid: Seq<u8>)
    ensures
        ({
            let s = StatementView::SelectTransactionDetailsByTxid { txid };
            eval(query(s), db_of(t), params(s)) == Some((db_of(apply(t, s).0), reply_values(apply(t, s).1)))
        }),
{
    lemma_names_differ();
    reveal_with_fuel(conds_hold, 2);
    let s = StatementView::SelectTransactionDetailsByTxid { txid };
    let td = "transaction_details"@;
    let tx = "transactions"@;
    let columns = seq![
        qcol(td, "timestamp"@),
        qcol(td, "received"@),
        qcol(td, "sent"@),
        qcol(td, "fee"@),
        qcol(td, "height"@),
        qcol(tx, "raw_tx"@),
    ];
    let conds = seq![
        Equality {
            left: Operand::Column(qcol(td, "txid"@)),
            right: Operand::Param("txid"@),
            spaced: false,
        },
    ];
    let row = |d: DetailsRecord, raw: Option<Seq<u8>>|
        RowView::DetailsOfTxid {
            timestamp: d.timestamp,
            received: d.received,
            sent: d.sent,
            fee: d.fee,
            height: d.height,
            raw_tx: raw,
        };
    let gone = |d: DetailsRecord| d.txid != txid;
    assert(conds.drop_last() =~= Seq::<Equality>::empty());
    assert forall|d: DetailsRecord, x: TransactionRecord|
        conds_hold(#[trigger] joined_view(d, x), td, params(s), conds) == !gone(d) && project(
            joined_view(d, x),
            td,
            columns,
        ) == row_values(row(d, Some(x.raw_tx))) by {
        assert(project(joined_view(d, x), td, columns) =~= row_values(row(d, Some(x.raw_tx))));
    }
    assert forall|d: DetailsRecord|
        conds_hold(#[trigger] alone(td, details_cells(d)), td, params(s), conds) == !gone(d) && project(
            alone(td, details_cells(d)),
            td,
            columns,
        ) == row_values(row(d, None)) by {
        assert(project(alone(td, details_cells(d)), td, columns) =~= row_values(row(d, None)));
    }
    lemma_join_all(t.transaction_details, t.transactions, columns, conds, params(s), row, gone);
}

/// `id = 0`: the row of the sync time.
pub open spec fn id_zero() -> Seq<Equality> {
    seq![Equality { left: Operand::Column(col("id"@)), right: Operand::Number(0), spaced: true }]
}

/// The query of the sync time gives its row, if there is one, and changes
/// nothing.
pub proof fn law_select_sync_time(t: Tables)
    ensures
        ({
            let s = StatementView::SelectSyncTime;
            eval(query(s), db_of(t), params(s)) == Some((db_of(apply(t, s).0), reply_values(apply(t, s).1)))
        }),
{
    lemma_names_differ();
    reveal_with_fuel(conds_hold, 2);
    let s = StatementView::SelectSyncTime;
    let from = "sync_time"@;
    let columns = seq![col("height"@), col("timestamp"@)];
    let conds = id_zero();
    assert(conds.drop_last() =~= Seq::<Equality>::empty());
    let rows = sync_rows(t.sync_time);
    if let Some((h, ts)) = t.sync_time {
        let r = sync_cells(h, ts);
        assert(rows.drop_last() =~= Seq::<Map<Seq<char>, Value>>::empty());
        assert(conds_hold(alone(from, r), from, params(s), conds));
        assert(project(alone(from, r), from, columns) =~= seq![Value::Int(h as int), Value::Int(ts as int)]);
        assert(select_rows(rows.drop_last(), from, columns, conds, params(s)) =~= Seq::<Seq<Value>>::empty());
        assert(rows.last() == r);
        assert(select_rows(rows, from, columns, conds, params(s)) =~= seq![
            seq![Value::Int(h as int), Value::Int(ts as int)],
        ]);
        assert(seq![RowView::SyncTime { height: h, timestamp: ts }].map_values(|x: RowView| row_values(x)) =~= seq![
            seq![Value::Int(h as int), Value::Int(ts as int)],
        ]);
    } else {
        assert(select_rows(rows, from, columns, conds, params(s)) =~= Seq::<Seq<Value>>::empty());
    }
}

/// Forgetting the sync time forgets its row.
pub proof fn law_delete_sync_time(t: Tables)
    ensures
        ({
            let s = StatementView::DeleteSyncTime;
            eval(query(s), db_of(t), params(s)) == Some((db_of(apply(t, s).0), reply_values(apply(t, s).1)))
        }),
{
    lemma_names_differ();
    reveal_with_fuel(conds_hold, 2);
    let s = StatementView::DeleteSyncTime;
    let table = "sync_time"@;
    let conds = id_zero();
    assert(conds.drop_last() =~= Seq::<Equality>::empty());
    let g = |r: Map<Seq<char>, Value>| if conds_hold(alone(table, r), table, params(s), conds) {
        None
    } else {
        Some(r)
    };
    let rows = sync_rows(t.sync_time);
    if let Some((h, ts)) = t.sync_time {
        assert(rows.drop_last() =~= Seq::<Map<Seq<char>, Value>>::empty());
        assert(conds_hold(alone(table, sync_cells(h, ts)), table, params(s), conds));
        assert(rows.drop_last().filter_map(g) =~= Seq::<Map<Seq<char>, Value>>::empty());
        assert(rows.last() == sync_cells(h, ts));
        assert(g(rows.last()) is None);
    }
    assert(rows.filter_map(g) =~= Seq::<Map<Seq<char>, Value>>::empty());
    assert(db_of(t).insert(table, rows.filter_map(g)) =~= db_of(apply(t, s).0));
}

/// Recording the sync time writes its one row, replacing the row there
/// was or adding it where there was none.
pub proof fn law_update_sync_time(t: Tables, height: u32, timestamp: u64)
    ensures
        ({
            let s = StatementView::UpdateSyncTime { height, timestamp };
            eval(query(s), db_of(t), params(s)) == Some((db_of(apply(t, s).0), reply_values(apply(t, s).1)))
        }),
{
    lemma_names_differ();
    reveal_with_fuel(conds_hold, 2);
    reveal_with_fuel(assign, 3);
    reveal_with_fuel(inserted_row, 4);
    let s = StatementView::UpdateSyncTime { height, timestamp };
    let table = "sync_time"@;
    let columns = seq!["id"@, "height"@, "timestamp"@];
    let values = seq![Operand::Number(0), Operand::Param("height"@), Operand::Param("timestamp"@)];
    assert(columns.drop_last() =~= seq!["id"@, "height"@]);
    assert(seq!["id"@, "height"@].drop_last() =~= seq!["id"@]);
    assert(seq!["id"@].drop_last() =~= Seq::<Seq<char>>::empty());
    assert(values.drop_last() =~= seq![Operand::Number(0), Operand::Param("height"@)]);
    assert(seq![Operand::Number(0), Operand::Param("height"@)].drop_last() =~= seq![Operand::Number(0)]);
    assert(seq![Operand::Number(0)].drop_last() =~= Seq::<Operand>::empty());
    let row = inserted_row(columns, values, params(s));
    assert(row =~= sync_cells(height, timestamp));
    let sets = seq![set_param("height"@), set_param("timestamp"@)];
    assert(sets.drop_last() =~= seq![set_param("height"@)]);
    assert(seq![set_param("height"@)].drop_last() =~= Seq::<(Seq<char>, Operand)>::empty());
    assert(id_zero().drop_last() =~= Seq::<Equality>::empty());
    let rows = sync_rows(t.sync_time);
    if let Some((h, ts)) = t.sync_time {
        let old = sync_cells(h, ts);
        assert(rows[0] == old);
        assert(assign(old, table, params(s), sets) =~= sync_cells(height, timestamp));
        assert(conds_hold(alone(table, old), table, params(s), id_zero()));
        let u = Upsert { key: "id"@, sets, conds: id_zero() };
        assert(upserted_rows(rows, row, table, u, params(s)) =~= seq![sync_cells(height, timestamp)]);
    } else {
        assert(rows.push(row) =~= seq![sync_cells(height, timestamp)]);
    }
    assert(db_of(t).insert(table, sync_rows(Some((height, timestamp)))) =~= db_of(apply(t, s).0));
}

/// Whether the meaning of a statement's text is stated over the tables:
/// every statement but those of the last derivation indices, which the
/// model keeps by keychain rather than in the order written.
pub open spec fn meaning_stated(s: StatementView) -> bool {
    !(s is InsertLastDerivationIndex || s is UpdateLastDerivationIndex
        || s is SelectLastDerivationIndexByKeychain || s is DeleteLastDerivationIndexByKeychain)
}

/// What the SQL text of a statement selects, writes or forgets, on any
/// tables, is what the model of the store says the statement does: the
/// rows a query gives are the model's rows, in the model's order, column
/// by column, and the tables a write leaves are the model's tables.
pub proof fn law_sql_means_model(t: Tables, s: StatementView)
    requires
        meaning_stated(s),
    ensures
        eval(query(s), db_of(t), params(s)) == Some((db_of(apply(t, s).0), reply_values(apply(t, s).1))),
{
    match s {
        StatementView::InsertScriptPubkey { keychain, child, script } => law_insert_script_pubkey(t, keychain, child, script),
        StatementView::InsertUtxo { value, keychain, vout, txid, script, is_spent } => law_insert_utxo(t, value, keychain, vout, txid, script, is_spent),
        StatementView::InsertTransaction { txid, raw_tx } => law_insert_transaction(t, txid, raw_tx),
        StatementView::UpdateTransaction { txid, raw_tx } => law_update_transaction(t, txid, raw_tx),
        StatementView::InsertTransactionDetails { txid, timestamp, received, sent, fee, height } => law_insert_transaction_details(t, txid, timestamp, received, sent, fee, height),
        StatementView::UpdateTransactionDetails { txid, timestamp, received, sent, fee, height } => law_update_transaction_details(t, txid, timestamp, received, sent, fee, height),
        StatementView::InsertChecksum { keychain, checksum } => law_insert_checksum(t, keychain, checksum),
        StatementView::UpdateSyncTime { height, timestamp } => law_update_sync_time(t, height, timestamp),
        StatementView::SelectScriptPubkeys => law_select_script_pubkeys(t),
        StatementView::SelectScriptPubkeysByKeychain { keychain } => law_select_script_pubkeys_by_keychain(t, keychain),
        StatementView::SelectScriptPubkeyByPath { keychain, child } => law_select_script_by_path(t, keychain, child),
        StatementView::SelectScriptPubkeyByScript { script } => law_select_script_pubkey_by_script(t, script),
        StatementView::SelectUtxos => law_select_utxos(t),
        StatementView::SelectUtxoByOutpoint { txid, vout } => law_select_utxo_by_outpoint(t, txid, vout),
        StatementView::SelectTransactions => law_select_transactions(t),
        StatementView::SelectTransactionByTxid { txid } => law_select_transaction_by_txid(t, txid),
        StatementView::SelectTransactionDetailsWithRaw => law_select_transaction_details_with_raw(t),
        StatementView::SelectTransactionDetails => law_select_transaction_details(t),
        StatementView::SelectTransactionDetailsByTxid { txid } => law_select_transaction_details_by_txid(t, txid),
        StatementView::SelectSyncTime => law_select_sync_time(t),
        StatementView::SelectChecksumByKeychain { keychain } => law_select_checksum_by_keychain(t, keychain),
        StatementView::DeleteScriptPubkeyByPath { keychain, child } => law_delete_script_pubkey_by_path(t, keychain, child),
        StatementView::DeleteScriptPubkeyByScript { script } => law_delete_script_pubkey_by_script(t, script),
        StatementView::DeleteUtxoByOutpoint { txid, vout } => law_delete_utxo_by_outpoint(t, txid, vout),
        StatementView::DeleteTransactionByTxid { txid } => law_delete_transaction_by_txid(t, txid),
        StatementView::DeleteTransactionDetailsByTxid { txid } => law_delete_transaction_details_by_txid(t, txid),
        StatementView::DeleteSyncTime => law_delete_sync_time(t),
        _ => {},
    }
}

// ---------------------------------------------------------------------
// The last derivation indices, which the model keeps by keychain.

/// A row of `last_derivation_indices`.
pub open spec fn index_cells(keychain: Seq<char>, value: u32) -> Map<Seq<char>, Value> {
    map!["keychain"@ => Value::Text(keychain), "value"@ => Value::Int(value as int)]
}

/// `ks` lists the keychains of `m`, each once, in some order: the order in
/// which the rows of the table were written.
pub open spec fn lists_keys(m: Map<Seq<char>, u32>, ks: Seq<Seq<char>>) -> bool {
    &&& ks.no_duplicates()
    &&& forall|k: Seq<char>| m.contains_key(k) <==> ks.contains(k)
}

/// The rows of the indices of `m`, in the order of `ks`.
pub open spec fn index_rows(m: Map<Seq<char>, u32>, ks: Seq<Seq<char>>) -> Seq<Map<Seq<char>, Value>> {
    ks.map_values(|k: Seq<char>| index_cells(k, m[k]))
}

/// The database of the tables, with the rows of the indices written in the
/// order of `ks`.
pub open spec fn db_with_indices(t: Tables, ks: Seq<Seq<char>>) -> Map<Seq<char>, Seq<Map<Seq<char>, Value>>> {
    db_of(t).insert("last_derivation_indices"@, index_rows(t.last_derivation_indices, ks))
}

/// What the text of a statement does to the database with the indices in
/// the order of `ks` is what the model does: the same rows, and a table of
/// indices that lists the model's, in some order.
pub open spec fn means_model_with(t: Tables, s: StatementView, ks: Seq<Seq<char>>) -> bool {
    eval(query(s), db_with_indices(t, ks), params(s)) matches Some((db2, rows)) && rows == reply_values(
        apply(t, s).1,
    ) && exists|ks2: Seq<Seq<char>>|
        lists_keys(apply(t, s).0.last_derivation_indices, ks2) && db2 == db_with_indices(apply(t, s).0, ks2)
}

/// Forgetting elements keeps the others.
pub proof fn lemma_delete_where_keeps<A>(s: Seq<A>, gone: spec_fn(A) -> bool, i: int)
    requires
        0 <= i < s.len(),
        !gone(s[i]),
    ensures
        delete_where(s, gone).contains(s[i]),
    decreases s.len(),
{
    let g = |r: A| if gone(r) {
        None
    } else {
        Some(r)
    };
    if i == s.len() - 1 {
        assert(delete_where(s, gone) == delete_where(s.drop_last(), gone).push(s[i]));
        assert(delete_where(s, gone)[delete_where(s.drop_last(), gone).len() as int] == s[i]);
    } else {
        lemma_delete_where_keeps(s.drop_last(), gone, i);
        let k = delete_where(s.drop_last(), gone);
        let j = choose|j: int| 0 <= j < k.len() && k[j] == s[i];
        if gone(s.last()) {
            assert(delete_where(s, gone) == k);
        } else {
            assert(delete_where(s, gone) == k.push(s.last()));
            assert(delete_where(s, gone)[j] == s[i]);
        }
    }
}

/// The query of the last derivation index of a keychain gives the index
/// recorded for exactly that keychain, if any, whatever order the rows of
/// the indices were written in; it changes nothing.
pub proof fn law_select_last_derivation_index_by_keychain(t: Tables, keychain: Seq<char>, ks: Seq<Seq<char>>)
    requires
        lists_keys(t.last_derivation_indices, ks),
    ensures
        means_model_with(t, StatementView::SelectLastDerivationIndexByKeychain { keychain }, ks),
{
    lemma_names_differ();
    reveal_with_fuel(conds_hold, 2);
    let s = StatementView::SelectLastDerivationIndexByKeychain { keychain };
    let m = t.last_derivation_indices;
    let from = "last_derivation_indices"@;
    let columns = seq![col("value"@)];
    let conds = seq![eq_param("keychain"@)];
    assert(conds.drop_last() =~= Seq::<Equality>::empty());
    let g = |r: Map<Seq<char>, Value>| if conds_hold(alone(from, r), from, params(s), conds) {
        Some(project(alone(from, r), from, columns))
    } else {
        None
    };
    let f = |k: Seq<char>| if k == keychain {
        Some(RowView::Index { value: m[k] })
    } else {
        None
    };
    let cells = |k: Seq<char>| index_cells(k, m[k]);
    assert forall|k: Seq<char>| #[trigger] g(cells(k)) == match f(k) {
        Some(r) => Some(row_values(r)),
        None => None,
    } by {
        assert(project(alone(from, cells(k)), from, columns) =~= seq![Value::Int(m[k] as int)]);
    }
    lemma_pick_rows(ks, cells, g, f, |r: RowView| row_values(r));
    let picked = ks.filter_map(f);
    assert forall|i: int, j: int| 0 <= i < j < ks.len() && (#[trigger] f(ks[i])) is Some implies (#[trigger] f(
        ks[j],
    )) is None by {
        assert(ks[i] != ks[j]);
    }
    lemma_filter_map_at_most_one(ks, f);
    let expected = if m.contains_key(keychain) {
        seq![RowView::Index { value: m[keychain] }]
    } else {
        Seq::<RowView>::empty()
    };
    if m.contains_key(keychain) {
        assert(ks.contains(keychain));
        let i = choose|i: int| 0 <= i < ks.len() && ks[i] == keychain;
        lemma_filter_map_some(ks, f, i);
        lemma_filter_map_from(ks, f, 0);
        assert(picked =~= expected);
    } else {
        assert forall|i: int| 0 <= i < ks.len() implies f(#[trigger] ks[i]) is None by {
            if ks[i] == keychain {
                assert(ks.contains(keychain));
            }
        }
        lemma_filter_map_none(ks, f);
    }
    assert(lists_keys(apply(t, s).0.last_derivation_indices, ks));
    assert(db_with_indices(t, ks) == db_with_indices(apply(t, s).0, ks));
}

/// Forgetting the last derivation index of a keychain forgets the row of
/// exactly that keychain, keeping the others in their order.
pub proof fn law_delete_last_derivation_index_by_keychain(t: Tables, keychain: Seq<char>, ks: Seq<Seq<char>>)
    requires
        lists_keys(t.last_derivation_indices, ks),
    ensures
        means_model_with(t, StatementView::DeleteLastDerivationIndexByKeychain { keychain }, ks),
{
    lemma_names_differ();
    reveal_with_fuel(conds_hold, 2);
    let s = StatementView::DeleteLastDerivationIndexByKeychain { keychain };
    let m = t.last_derivation_indices;
    let m2 = m.remove(keychain);
    let table = "last_derivation_indices"@;
    let conds = seq![eq_param("keychain"@)];
    assert(conds.drop_last() =~= Seq::<Equality>::empty());
    let g = |r: Map<Seq<char>, Value>| if conds_hold(alone(table, r), table, params(s), conds) {
        None
    } else {
        Some(r)
    };
    let gone = |k: Seq<char>| k == keychain;
    let f = |k: Seq<char>| if gone(k) {
        None
    } else {
        Some(k)
    };
    let cells = |k: Seq<char>| index_cells(k, m[k]);
    assert forall|k: Seq<char>| #[trigger] g(cells(k)) == match f(k) {
        Some(y) => Some(cells(y)),
        None => None,
    } by {}
    lemma_pick_rows(ks, cells, g, f, cells);
    let ks2 = delete_where(ks, gone);
    let key = |k: Seq<char>| k;
    assert forall|i: int, j: int| 0 <= i < j < ks.len() implies #[trigger] key(ks[i]) != #[trigger] key(ks[j]) by {}
    lemma_delete_where_keys_unique(ks, gone, key);
    assert forall|i: int, j: int| 0 <= i < ks2.len() && 0 <= j < ks2.len() && i != j implies ks2[i] != ks2[j] by {
        if i < j {
            assert(key(ks2[i]) != key(ks2[j]));
        } else {
            assert(key(ks2[j]) != key(ks2[i]));
        }
    }
    assert forall|i: int| 0 <= i < ks2.len() implies #[trigger] ks2[i] != keychain && ks.contains(ks2[i]) by {
        lemma_filter_map_from(ks, f, i);
    }
    assert forall|k: Seq<char>| m2.contains_key(k) <==> ks2.contains(k) by {
        if m2.contains_key(k) {
            assert(ks.contains(k));
            let i = choose|i: int| 0 <= i < ks.len() && ks[i] == k;
            lemma_delete_where_keeps(ks, gone, i);
        }
        if ks2.contains(k) {
            let i = choose|i: int| 0 <= i < ks2.len() && ks2[i] == k;
        }
    }
    assert(ks2.map_values(cells) =~= index_rows(m2, ks2));
    assert(lists_keys(m2, ks2));
    assert(db_with_indices(t, ks).insert(table, ks.map_values(cells).filter_map(g)) =~= db_with_indices(
        apply(t, s).0,
        ks2,
    ));
}

/// Recording the last derivation index of a keychain where none is on
/// record adds its row after the others.
pub proof fn lemma_index_added(t: Tables, keychain: Seq<char>, value: u32, ks: Seq<Seq<char>>)
    requires
        lists_keys(t.last_derivation_indices, ks),
        !t.last_derivation_indices.contains_key(keychain),
    ensures
        lists_keys(t.last_derivation_indices.insert(keychain, value), ks.push(keychain)),
        index_rows(t.last_derivation_indices, ks).push(index_cells(keychain, value)) == index_rows(
            t.last_derivation_indices.insert(keychain, value),
            ks.push(keychain),
        ),
{
    let m = t.last_derivation_indices;
    let ks2 = ks.push(keychain);
    assert forall|i: int| 0 <= i < ks.len() implies #[trigger] ks[i] != keychain by {
        assert(ks.contains(ks[i]));
    }
    assert forall|i: int, j: int| 0 <= i < ks2.len() && 0 <= j < ks2.len() && i != j implies ks2[i] != ks2[j] by {}
    assert forall|k: Seq<char>| m.insert(keychain, value).contains_key(k) <==> ks2.contains(k) by {
        if ks2.contains(k) {
            let i = choose|i: int| 0 <= i < ks2.len() && ks2[i] == k;
            if i < ks.len() {
                assert(ks.contains(k));
            }
        }
        if m.contains_key(k) {
            assert(ks.contains(k));
            let i = choose|i: int| 0 <= i < ks.len() && ks[i] == k;
            assert(ks2[i] == k);
        }
        if k == keychain {
            assert(ks2[ks.len() as int] == k);
        }
    }
    assert(index_rows(m, ks).push(index_cells(keychain, value)) =~= index_rows(m.insert(keychain, value), ks2));
}

/// Recording the first last derivation index of a keychain adds its row
/// after the others.
pub proof fn law_insert_last_derivation_index(t: Tables, keychain: Seq<char>, value: u32, ks: Seq<Seq<char>>)
    requires
        lists_keys(t.last_derivation_indices, ks),
        !t.last_derivation_indices.contains_key(keychain),
    ensures
        means_model_with(t, StatementView::InsertLastDerivationIndex { keychain, value }, ks),
{
    lemma_names_differ();
    reveal_with_fuel(inserted_row, 3);
    let s = StatementView::InsertLastDerivationIndex { keychain, value };
    let table = "last_derivation_indices"@;
    assert(seq!["keychain"@, "value"@].drop_last() =~= seq!["keychain"@]);
    assert(seq!["keychain"@].drop_last() =~= Seq::<Seq<char>>::empty());
    assert(seq![Operand::Param("keychain"@), Operand::Param("value"@)].drop_last() =~= seq![Operand::Param("keychain"@)]);
    assert(seq![Operand::Param("keychain"@)].drop_last() =~= Seq::<Operand>::empty());
    assert(inserted_row(
        seq!["keychain"@, "value"@],
        seq![Operand::Param("keychain"@), Operand::Param("value"@)],
        params(s),
    ) =~= index_cells(keychain, value));
    lemma_index_added(t, keychain, value, ks);
    assert(db_with_indices(t, ks).insert(table, index_rows(t.last_derivation_indices, ks).push(index_cells(keychain, value)))
        =~= db_with_indices(apply(t, s).0, ks.push(keychain)));
}

/// Recording the last derivation index of a keychain replaces the value of
/// its row where there is one, and adds its row after the others
/// otherwise.
pub proof fn law_update_last_derivation_index(t: Tables, keychain: Seq<char>, value: u32, ks: Seq<Seq<char>>)
    requires
        lists_keys(t.last_derivation_indices, ks),
    ensures
        means_model_with(t, StatementView::UpdateLastDerivationIndex { keychain, value }, ks),
{
    lemma_names_differ();
    reveal_with_fuel(inserted_row, 3);
    reveal_with_fuel(conds_hold, 2);
    reveal_with_fuel(assign, 2);
    let s = StatementView::UpdateLastDerivationIndex { keychain, value };
    let m = t.last_derivation_indices;
    let table = "last_derivation_indices"@;
    assert(seq!["keychain"@, "value"@].drop_last() =~= seq!["keychain"@]);
    assert(seq!["keychain"@].drop_last() =~= Seq::<Seq<char>>::empty());
    assert(seq![Operand::Param("keychain"@), Operand::Param("value"@)].drop_last() =~= seq![Operand::Param("keychain"@)]);
    assert(seq![Operand::Param("keychain"@)].drop_last() =~= Seq::<Operand>::empty());
    let row = inserted_row(
        seq!["keychain"@, "value"@],
        seq![Operand::Param("keychain"@), Operand::Param("value"@)],
        params(s),
    );
    assert(row =~= index_cells(keychain, value));
    let u = Upsert { key: "keychain"@, sets: seq![set_param("value"@)], conds: seq![eq_param("keychain"@)] };
    assert(u.sets.drop_last() =~= Seq::<(Seq<char>, Operand)>::empty());
    assert(u.conds.drop_last() =~= Seq::<Equality>::empty());
    let rows = index_rows(m, ks);
    let out = upserted_rows(rows, row, table, u, params(s));
    if m.contains_key(keychain) {
        assert(ks.contains(keychain));
        let i = choose|i: int| 0 <= i < ks.len() && ks[i] == keychain;
        assert(rows[i] == index_cells(keychain, m[keychain]));
        assert(rows[i]["keychain"@] == Value::Text(keychain));
        assert(out =~= index_rows(m.insert(keychain, value), ks)) by {
            assert forall|j: int| 0 <= j < ks.len() implies #[trigger] out[j] == index_rows(m.insert(keychain, value), ks)[j] by {
                if ks[j] == keychain {
                    assert(assign(rows[j], table, params(s), u.sets) =~= index_cells(keychain, value));
                }
            }
        }
        assert(lists_keys(m.insert(keychain, value), ks)) by {
            assert forall|k: Seq<char>| m.insert(keychain, value).contains_key(k) <==> ks.contains(k) by {
                if k == keychain {
                    assert(ks.contains(k));
                }
            }
        }
        assert(db_with_indices(t, ks).insert(table, out) =~= db_with_indices(apply(t, s).0, ks));
    } else {
        assert forall|i: int| 0 <= i < rows.len() implies !(#[trigger] rows[i]["keychain"@] == Value::Text(keychain)) by {
            assert(ks.contains(ks[i]));
        }
        assert(out == rows.push(row));
        lemma_index_added(t, keychain, value, ks);
        assert(db_with_indices(t, ks).insert(table, out) =~= db_with_indices(apply(t, s).0, ks.push(keychain)));
    }
}

/// What the SQL text of a statement of the last derivation indices does,
/// whatever order the rows of the indices were written in, is what the
/// model says the statement does: the same rows, and a table of indices
/// that lists the model's.  A first insert for a keychain is stated where
/// the keychain has no index yet; where it has one, the unique index on
/// the keychain refuses the insert.
pub proof fn law_index_sql_means_model(t: Tables, s: StatementView, ks: Seq<Seq<char>>)
    requires
        !meaning_stated(s),
        lists_keys(t.last_derivation_indices, ks),
        s matches StatementView::InsertLastDerivationIndex { keychain, .. } ==> !t.last_derivation_indices.contains_key(
            keychain,
        ),
    ensures
        means_model_with(t, s, ks),
{
    match s {
        StatementView::InsertLastDerivationIndex { keychain, value } => law_insert_last_derivation_index(
            t,
            keychain,
            value,
            ks,
        ),
        StatementView::UpdateLastDerivationIndex { keychain, value } => law_update_last_derivation_index(
            t,
            keychain,
            value,
            ks,
        ),
        StatementView::SelectLastDerivationIndexByKeychain { keychain } =>
            law_select_last_derivation_index_by_keychain(t, keychain, ks),
        StatementView::DeleteLastDerivationIndexByKeychain { keychain } =>
            law_delete_last_derivation_index_by_keychain(t, keychain, ks),
        _ => {},
    }
}

} // verus!
