//! What the store's statements do to its tables: the meaning that the
//! store gives to each SQL statement it issues.  Tables are sequences of
//! rows in the order they were written.  Every query of the store orders its
//! rows by when they were written (`ORDER BY rowid`); the rows of the join
//! of details with transactions come in the order of the details, then of
//! the transactions, and details without a transaction of their id come
//! once, without one (a left join).  The table of derivation indices has a
//! unique key, so it is a map; the sync time table holds at most its one
//! row.
use vstd::prelude::*;
use crate::rows::{ReplyView, RowView};
use crate::sql::StatementView;

verus! {

/// A row of the table of scripts.
pub struct ScriptRecord {
    pub keychain: Seq<char>,
    pub child: u32,
    pub script: Seq<u8>,
}

/// A row of the table of outputs.
pub struct UtxoRecord {
    pub value: u64,
    pub keychain: Seq<char>,
    pub vout: u32,
    pub txid: Seq<u8>,
    pub script: Seq<u8>,
    pub is_spent: bool,
}

/// A row of the table of encoded transactions.
pub struct TransactionRecord {
    pub txid: Seq<u8>,
    pub raw_tx: Seq<u8>,
}

/// A row of the table of transaction details.
pub struct DetailsRecord {
    pub txid: Seq<u8>,
    pub timestamp: Option<u64>,
    pub received: u64,
    pub sent: u64,
    pub fee: Option<u64>,
    pub height: Option<u32>,
}

/// A row of the table of descriptor checksums.
pub struct ChecksumRecord {
    pub keychain: Seq<char>,
    pub checksum: Seq<u8>,
}

/// The tables of a store.
pub struct Tables {
    pub script_pubkeys: Seq<ScriptRecord>,
    pub utxos: Seq<UtxoRecord>,
    pub transactions: Seq<TransactionRecord>,
    pub transaction_details: Seq<DetailsRecord>,
    pub last_derivation_indices: Map<Seq<char>, u32>,
    pub checksums: Seq<ChecksumRecord>,
    pub sync_time: Option<(u32, u64)>,
}

/// The tables of a new store.
pub open spec fn empty_tables() -> Tables {
    Tables {
        script_pubkeys: Seq::empty(),
        utxos: Seq::empty(),
        transactions: Seq::empty(),
        transaction_details: Seq::empty(),
        last_derivation_indices: Map::empty(),
        checksums: Seq::empty(),
        sync_time: None,
    }
}

/// The rows that `pick` gives for the rows of a table, in order.
pub open spec fn select<A>(rows: Seq<A>, pick: spec_fn(A) -> Option<RowView>) -> Seq<RowView> {
    rows.filter_map(pick)
}

/// The rows of a table for which `gone` does not hold, in order.
pub open spec fn delete_where<A>(rows: Seq<A>, gone: spec_fn(A) -> bool) -> Seq<A> {
    rows.filter_map(|r: A| if gone(r) { None } else { Some(r) })
}

/// The rows of a table, with `change` applied to those for which `hit`
/// holds.
pub open spec fn update_where<A>(rows: Seq<A>, hit: spec_fn(A) -> bool, change: spec_fn(A) -> A) -> Seq<A> {
    rows.map_values(|r: A| if hit(r) { change(r) } else { r })
}

/// The rows that the left join gives for one set of details `d`: one for
/// each transaction of its id, in order, or, where there is none, one
/// without a transaction.
pub open spec fn joined(
    d: DetailsRecord,
    txs: Seq<TransactionRecord>,
    row: spec_fn(DetailsRecord, Option<Seq<u8>>) -> RowView,
) -> Seq<RowView> {
    let matches = txs.filter_map(
        |x: TransactionRecord| if x.txid == d.txid {
            Some(row(d, Some(x.raw_tx)))
        } else {
            None
        },
    );
    if matches.len() == 0 {
        seq![row(d, None)]
    } else {
        matches
    }
}

/// The rows of the left join of details and transactions on their ids,
/// for the details `ds`: the rows of each set of details, in order.
pub open spec fn join_rows(
    ds: Seq<DetailsRecord>,
    txs: Seq<TransactionRecord>,
    row: spec_fn(DetailsRecord, Option<Seq<u8>>) -> RowView,
) -> Seq<RowView>
    decreases ds.len(),
{
    if ds.len() == 0 {
        Seq::empty()
    } else {
        join_rows(ds.drop_last(), txs, row) + joined(ds.last(), txs, row)
    }
}

/// The reply of a query that gives `rows`.
pub open spec fn rows_reply(rows: Seq<RowView>) -> ReplyView {
    ReplyView::Rows { rows, failed: false }
}

/// What a statement does to the tables, and what it replies.
pub open spec fn apply(t: Tables, s: StatementView) -> (Tables, ReplyView) {
    match s {
        StatementView::InsertScriptPubkey { keychain, child, script } => (
            Tables {
                script_pubkeys: t.script_pubkeys.push(ScriptRecord { keychain, child, script }),
                ..t
            },
            ReplyView::Done,
        ),
        StatementView::InsertUtxo { value, keychain, vout, txid, script, is_spent } => (
            Tables {
                utxos: t.utxos.push(UtxoRecord { value, keychain, vout, txid, script, is_spent }),
                ..t
            },
            ReplyView::Done,
        ),
        StatementView::InsertTransaction { txid, raw_tx } => (
            Tables { transactions: t.transactions.push(TransactionRecord { txid, raw_tx }), ..t },
            ReplyView::Done,
        ),
        StatementView::UpdateTransaction { txid, raw_tx } => (
            Tables {
                transactions: update_where(
                    t.transactions,
                    |x: TransactionRecord| x.txid == txid,
                    |x: TransactionRecord| TransactionRecord { raw_tx, ..x },
                ),
                ..t
            },
            ReplyView::Done,
        ),
        StatementView::InsertTransactionDetails { txid, timestamp, received, sent, fee, height } => (
            Tables {
                transaction_details: t.transaction_details.push(
                    DetailsRecord { txid, timestamp, received, sent, fee, height },
                ),
                ..t
            },
            ReplyView::Done,
        ),
        StatementView::UpdateTransactionDetails { txid, timestamp, received, sent, fee, height } => (
            Tables {
                transaction_details: update_where(
                    t.transaction_details,
                    |d: DetailsRecord| d.txid == txid,
                    |d: DetailsRecord| DetailsRecord { txid, timestamp, received, sent, fee, height },
                ),
                ..t
            },
            ReplyView::Done,
        ),
        StatementView::InsertLastDerivationIndex { keychain, value } => if t.last_derivation_indices.contains_key(keychain) {
            (t, ReplyView::Failed)
        } else {
            (
                Tables {
                    last_derivation_indices: t.last_derivation_indices.insert(keychain, value),
                    ..t
                },
                ReplyView::Done,
            )
        },
        StatementView::InsertChecksum { keychain, checksum } => (
            Tables { checksums: t.checksums.push(ChecksumRecord { keychain, checksum }), ..t },
            ReplyView::Done,
        ),
        StatementView::UpdateLastDerivationIndex { keychain, value } => (
            Tables {
                last_derivation_indices: t.last_derivation_indices.insert(keychain, value),
                ..t
            },
            ReplyView::Done,
        ),
        StatementView::UpdateSyncTime { height, timestamp } => (
            Tables { sync_time: Some((height, timestamp)), ..t },
            ReplyView::Done,
        ),
        StatementView::SelectScriptPubkeys => (
            t,
            rows_reply(
                select(t.script_pubkeys, |r: ScriptRecord| Some(RowView::Script { script: r.script })),
            ),
        ),
        StatementView::SelectScriptPubkeysByKeychain { keychain } => (
            t,
            rows_reply(
                select(
                    t.script_pubkeys,
                    |r: ScriptRecord| if r.keychain == keychain {
                        Some(RowView::Script { script: r.script })
                    } else {
                        None
                    },
                ),
            ),
        ),
        StatementView::SelectScriptPubkeyByPath { keychain, child } => (
            t,
            rows_reply(
                select(
                    t.script_pubkeys,
                    |r: ScriptRecord| if r.keychain == keychain && r.child == child {
                        Some(RowView::Script { script: r.script })
                    } else {
                        None
                    },
                ),
            ),
        ),
        StatementView::SelectScriptPubkeyByScript { script } => (
            t,
            rows_reply(
                select(
                    t.script_pubkeys,
                    |r: ScriptRecord| if r.script == script {
                        Some(RowView::Path { keychain: r.keychain, child: r.child })
                    } else {
                        None
                    },
                ),
            ),
        ),
        StatementView::SelectUtxos => (
            t,
            rows_reply(
                select(
                    t.utxos,
                    |u: UtxoRecord|
                        Some(
                            RowView::Utxo {
                                value: u.value,
                                keychain: u.keychain,
                                vout: u.vout,
                                txid: u.txid,
                                script: u.script,
                                is_spent: u.is_spent,
                            },
                        ),
                ),
            ),
        ),
        StatementView::SelectUtxoByOutpoint { txid, vout } => (
            t,
            rows_reply(
                select(
                    t.utxos,
                    |u: UtxoRecord| if u.txid == txid && u.vout == vout {
                        Some(
                            RowView::UtxoAt {
                                value: u.value,
                                keychain: u.keychain,
                                script: u.script,
                                is_spent: u.is_spent,
                            },
                        )
                    } else {
                        None
                    },
                ),
            ),
        ),
        StatementView::SelectTransactions => (
            t,
            rows_reply(
                select(t.transactions, |x: TransactionRecord| Some(RowView::RawTx { raw_tx: x.raw_tx })),
            ),
        ),
        StatementView::SelectTransactionByTxid { txid } => (
            t,
            rows_reply(
                select(
                    t.transactions,
                    |x: TransactionRecord| if x.txid == txid {
                        Some(RowView::RawTx { raw_tx: x.raw_tx })
                    } else {
                        None
                    },
                ),
            ),
        ),
        StatementView::SelectTransactionDetailsWithRaw => (
            t,
            rows_reply(
                join_rows(
                    t.transaction_details,
                    t.transactions,
                    |d: DetailsRecord, raw: Option<Seq<u8>>|
                        RowView::DetailsWithRaw {
                            txid: d.txid,
                            timestamp: d.timestamp,
                            received: d.received,
                            sent: d.sent,
                            fee: d.fee,
                            height: d.height,
                            raw_tx: raw,
                        },
                ),
            ),
        ),
        StatementView::SelectTransactionDetails => (
            t,
            rows_reply(
                select(
                    t.transaction_details,
                    |d: DetailsRecord|
                        Some(
                            RowView::Details {
                                txid: d.txid,
                                timestamp: d.timestamp,
                                received: d.received,
                                sent: d.sent,
                                fee: d.fee,
                                height: d.height,
                            },
                        ),
                ),
            ),
        ),
        StatementView::SelectTransactionDetailsByTxid { txid } => (
            t,
            rows_reply(
                join_rows(
                    delete_where(t.transaction_details, |d: DetailsRecord| d.txid != txid),
                    t.transactions,
                    |d: DetailsRecord, raw: Option<Seq<u8>>|
                        RowView::DetailsOfTxid {
                            timestamp: d.timestamp,
                            received: d.received,
                            sent: d.sent,
                            fee: d.fee,
                            height: d.height,
                            raw_tx: raw,
                        },
                ),
            ),
        ),
        StatementView::SelectLastDerivationIndexByKeychain { keychain } => (
            t,
            rows_reply(
                if t.last_derivation_indices.contains_key(keychain) {
                    seq![RowView::Index { value: t.last_derivation_indices[keychain] }]
                } else {
                    Seq::empty()
                },
            ),
        ),
        StatementView::SelectSyncTime => (
            t,
            rows_reply(
                match t.sync_time {
                    Some((height, timestamp)) => seq![RowView::SyncTime { height, timestamp }],
                    None => Seq::empty(),
                },
            ),
        ),
        StatementView::SelectChecksumByKeychain { keychain } => (
            t,
            rows_reply(
                select(
                    t.checksums,
                    |c: ChecksumRecord| if c.keychain == keychain {
                        Some(RowView::Checksum { checksum: c.checksum })
                    } else {
                        None
                    },
                ),
            ),
        ),
        StatementView::DeleteScriptPubkeyByPath { keychain, child } => (
            Tables {
                script_pubkeys: delete_where(
                    t.script_pubkeys,
                    |r: ScriptRecord| r.keychain == keychain && r.child == child,
                ),
                ..t
            },
            ReplyView::Done,
        ),
        StatementView::DeleteScriptPubkeyByScript { script } => (
            Tables {
                script_pubkeys: delete_where(t.script_pubkeys, |r: ScriptRecord| r.script == script),
                ..t
            },
            ReplyView::Done,
        ),
        StatementView::DeleteUtxoByOutpoint { txid, vout } => (
            Tables {
                utxos: delete_where(t.utxos, |u: UtxoRecord| u.txid == txid && u.vout == vout),
                ..t
            },
            ReplyView::Done,
        ),
        StatementView::DeleteTransactionByTxid { txid } => (
            Tables {
                transactions: delete_where(t.transactions, |x: TransactionRecord| x.txid == txid),
                ..t
            },
            ReplyView::Done,
        ),
        StatementView::DeleteTransactionDetailsByTxid { txid } => (
            Tables {
                transaction_details: delete_where(
                    t.transaction_details,
                    |d: DetailsRecord| d.txid == txid,
                ),
                ..t
            },
            ReplyView::Done,
        ),
        StatementView::DeleteLastDerivationIndexByKeychain { keychain } => (
            Tables { last_derivation_indices: t.last_derivation_indices.remove(keychain), ..t },
            ReplyView::Done,
        ),
        StatementView::DeleteSyncTime => (Tables { sync_time: None, ..t }, ReplyView::Done),
    }
}

} // verus!
