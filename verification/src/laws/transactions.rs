//! Laws of transactions and their details.
use vstd::prelude::*;
use crate::error::ErrorKind;
use crate::external::is_transaction_encoding;
use crate::model::{apply, delete_where, join_rows, joined, update_where, DetailsRecord, Tables, TransactionRecord};
use crate::protocol::{
    begin_spec, height_column, resume_spec, start_store_transaction, timestamp_column, ActionView,
    OperationView,
};
use crate::request::{OutputView, RequestView};
use crate::rows::{details_of_row, details_with_raw_of_row, transaction_of_row, ReplyView, RowView};
use crate::sql::StatementView;
use crate::types::{confirmation_of, DetailsView};
use crate::laws::drive::{
    lemma_filter_map_after_map, lemma_filter_map_push,
    lemma_read_every_row,
    drive, lemma_delete_twice,
    lemma_filter_map_all, lemma_filter_map_at_most_one, lemma_filter_map_from, lemma_filter_map_some,
    lemma_filter_map_then, lemma_pick_after_delete, lemma_delete_where_keys_unique, run,
};

verus! {

/// Every encoding on record for `txid` decodes as a transaction.
pub open spec fn encodings_valid_for(t: Tables, txid: Seq<u8>) -> bool {
    forall|i: int|
        0 <= i < t.transactions.len() && #[trigger] t.transactions[i].txid == txid
            ==> is_transaction_encoding(t.transactions[i].raw_tx)
}

/// Encodings on record for `txid` are there, and each is `raw`.
pub open spec fn only_encoding_for(txs: Seq<TransactionRecord>, txid: Seq<u8>, raw: Seq<u8>) -> bool {
    &&& exists|i: int| 0 <= i < txs.len() && #[trigger] txs[i].txid == txid
    &&& forall|i: int| 0 <= i < txs.len() && #[trigger] txs[i].txid == txid ==> txs[i].raw_tx == raw
}

/// Where every encoding on record for `txid` is `raw`, the first row that
/// `f` picks for `txid` is made from `raw`.
pub proof fn lemma_first_for_txid(
    txs: Seq<TransactionRecord>,
    txid: Seq<u8>,
    raw: Seq<u8>,
    h: spec_fn(Seq<u8>) -> RowView,
    f: spec_fn(TransactionRecord) -> Option<RowView>,
)
    requires
        only_encoding_for(txs, txid, raw),
        forall|x: TransactionRecord| #[trigger] f(x) == if x.txid == txid {
            Some(h(x.raw_tx))
        } else {
            None
        },
    ensures
        txs.filter_map(f).len() > 0,
        txs.filter_map(f)[0] == h(raw),
{
    let i = choose|i: int| 0 <= i < txs.len() && #[trigger] txs[i].txid == txid;
    lemma_filter_map_some(txs, f, i);
    lemma_filter_map_from(txs, f, 0);
}

/// Recording an encoded transaction under `id` leaves only that encoding on
/// record for the id, and changes no other table.
pub proof fn lemma_store_transaction(t: Tables, id: Seq<u8>, raw: Seq<u8>, fuel: nat)
    requires
        fuel >= 2,
        encodings_valid_for(t, id),
    ensures
        ({
            let (answer, after) = drive(start_store_transaction(id, raw), t, fuel);
            &&& answer == Ok::<OutputView, ErrorKind>(OutputView::Unit)
            &&& after == Tables { transactions: after.transactions, ..t }
            &&& only_encoding_for(after.transactions, id, raw)
            &&& after.transactions == transactions_after_set(t.transactions, id, raw)
        }),
{
    reveal_with_fuel(drive, 3);
    let f = |x: TransactionRecord| if x.txid == id {
        Some(RowView::RawTx { raw_tx: x.raw_tx })
    } else {
        None
    };
    let rows = t.transactions.filter_map(f);
    let after = drive(start_store_transaction(id, raw), t, fuel).1;
    if rows.len() > 0 {
        lemma_filter_map_from(t.transactions, f, 0);
        let i = choose|i: int| 0 <= i < t.transactions.len() && f(t.transactions[i]) == Some(rows[0]);
        assert(is_transaction_encoding(t.transactions[i].raw_tx));
        assert(after.transactions[i].txid == id);
        assert(t.transactions[i].txid == id);
        assert(after.transactions =~= transactions_after_set(t.transactions, id, raw));
    } else {
        assert forall|i: int| 0 <= i < t.transactions.len() implies f(#[trigger] t.transactions[i]) is None by {
            if f(t.transactions[i]) is Some {
                lemma_filter_map_some(t.transactions, f, i);
            }
        }
        assert(after.transactions == t.transactions.push(TransactionRecord { txid: id, raw_tx: raw }));
        assert(after.transactions[t.transactions.len() as int].txid == id);
        assert forall|i: int| 0 <= i < after.transactions.len() && #[trigger] after.transactions[i].txid == id implies after.transactions[i].raw_tx == raw by {
            if i < t.transactions.len() {
                assert(f(t.transactions[i]) is Some);
            }
        }
    }
}

/// An encoded transaction recorded under its id is the one found for the
/// id, where it decodes.
pub proof fn law_raw_tx_round_trip(t: Tables, id: Seq<u8>, raw: Seq<u8>)
    requires
        is_transaction_encoding(raw),
        encodings_valid_for(t, id),
    ensures
        run(RequestView::SetRawTx { txid: id, transaction: raw }, t).0 == Ok::<OutputView, ErrorKind>(
            OutputView::Unit,
        ),
        run(
            RequestView::GetRawTx { txid: id },
            run(RequestView::SetRawTx { txid: id, transaction: raw }, t).1,
        ).0 == Ok::<OutputView, ErrorKind>(OutputView::Transaction(Some(raw))),
{
    reveal_with_fuel(drive, 2);
    lemma_store_transaction(t, id, raw, 4);
    let after = run(RequestView::SetRawTx { txid: id, transaction: raw }, t).1;
    let f = |x: TransactionRecord| if x.txid == id {
        Some(RowView::RawTx { raw_tx: x.raw_tx })
    } else {
        None
    };
    lemma_first_for_txid(after.transactions, id, raw, |b: Seq<u8>| RowView::RawTx { raw_tx: b }, f);
}

/// The first encoding on record for `txid`, if there is one.
pub open spec fn first_encoding(txs: Seq<TransactionRecord>, txid: Seq<u8>) -> Option<Seq<u8>> {
    let found = txs.filter_map(
        |x: TransactionRecord| if x.txid == txid {
            Some(x.raw_tx)
        } else {
            None
        },
    );
    if found.len() > 0 {
        Some(found[0])
    } else {
        None
    }
}

/// The row that records `d`.
pub open spec fn details_record(d: DetailsView) -> DetailsRecord {
    DetailsRecord {
        txid: d.txid,
        timestamp: timestamp_column(d.confirmation_time),
        received: d.received,
        sent: d.sent,
        fee: d.fee,
        height: height_column(d.confirmation_time),
    }
}

/// The details that a row of details reads back as, with `transaction`.
pub open spec fn details_of_record(d: DetailsRecord, transaction: Option<Seq<u8>>) -> DetailsView {
    DetailsView {
        transaction,
        txid: d.txid,
        received: d.received,
        sent: d.sent,
        fee: d.fee,
        confirmation_time: confirmation_of(d.height, d.timestamp),
    }
}

/// Details on record for `txid` are there, and each is `rec`.
pub open spec fn details_settled(ds: Seq<DetailsRecord>, txid: Seq<u8>, rec: DetailsRecord) -> bool {
    &&& exists|i: int| 0 <= i < ds.len() && #[trigger] ds[i].txid == txid
    &&& forall|i: int| 0 <= i < ds.len() && #[trigger] ds[i].txid == txid ==> ds[i] == rec
}

/// No two sets of details on record share a transaction id.
pub open spec fn details_ids_unique(ds: Seq<DetailsRecord>) -> bool {
    forall|i: int, j: int| 0 <= i < j < ds.len() ==> #[trigger] ds[i].txid != #[trigger] ds[j].txid
}

/// No two encodings on record share a transaction id.
pub open spec fn transaction_ids_unique(txs: Seq<TransactionRecord>) -> bool {
    forall|i: int, j: int| 0 <= i < j < txs.len() ==> #[trigger] txs[i].txid != #[trigger] txs[j].txid
}

/// The details on record once `rec` is recorded: those of its id replaced
/// by it where there are any, else it added after the others.
pub open spec fn details_after_set(ds: Seq<DetailsRecord>, rec: DetailsRecord) -> Seq<DetailsRecord> {
    if exists|i: int| 0 <= i < ds.len() && #[trigger] ds[i].txid == rec.txid {
        ds.map_values(|d: DetailsRecord| if d.txid == rec.txid { rec } else { d })
    } else {
        ds.push(rec)
    }
}

/// The encodings on record once `raw` is recorded under `txid`: those of
/// the id replaced by it where there are any, else it added after the
/// others.
pub open spec fn transactions_after_set(
    txs: Seq<TransactionRecord>,
    txid: Seq<u8>,
    raw: Seq<u8>,
) -> Seq<TransactionRecord> {
    if exists|i: int| 0 <= i < txs.len() && #[trigger] txs[i].txid == txid {
        txs.map_values(
            |x: TransactionRecord| if x.txid == txid {
                TransactionRecord { txid, raw_tx: raw }
            } else {
                x
            },
        )
    } else {
        txs.push(TransactionRecord { txid, raw_tx: raw })
    }
}

/// The first row of the left join for `d` is made from the first encoding
/// on record for its id.
pub proof fn lemma_joined_first(
    d: DetailsRecord,
    txs: Seq<TransactionRecord>,
    row: spec_fn(DetailsRecord, Option<Seq<u8>>) -> RowView,
)
    ensures
        joined(d, txs, row).len() > 0,
        joined(d, txs, row)[0] == row(d, first_encoding(txs, d.txid)),
{
    let pick = |x: TransactionRecord| if x.txid == d.txid {
        Some(x.raw_tx)
    } else {
        None
    };
    let g = |x: TransactionRecord| if x.txid == d.txid {
        Some(row(d, Some(x.raw_tx)))
    } else {
        None
    };
    lemma_filter_map_then(txs, pick, |b: Seq<u8>| row(d, Some(b)), g);
}

/// The first row of the left join for several sets of details is the first
/// row for the first of them.
pub proof fn lemma_join_first(
    ds: Seq<DetailsRecord>,
    txs: Seq<TransactionRecord>,
    row: spec_fn(DetailsRecord, Option<Seq<u8>>) -> RowView,
)
    requires
        ds.len() > 0,
    ensures
        join_rows(ds, txs, row).len() > 0,
        join_rows(ds, txs, row)[0] == row(ds[0], first_encoding(txs, ds[0].txid)),
    decreases ds.len(),
{
    lemma_joined_first(ds.last(), txs, row);
    if ds.len() == 1 {
        assert(ds.drop_last() =~= Seq::<DetailsRecord>::empty());
        assert(join_rows(ds.drop_last(), txs, row) =~= Seq::<RowView>::empty());
    } else {
        lemma_join_first(ds.drop_last(), txs, row);
        assert(ds.drop_last()[0] == ds[0]);
    }
}

/// Where no two encodings share an id, the left join gives one row for
/// each set of details, made from the encoding of its id, if any.
pub proof fn lemma_join_single(
    ds: Seq<DetailsRecord>,
    txs: Seq<TransactionRecord>,
    row: spec_fn(DetailsRecord, Option<Seq<u8>>) -> RowView,
)
    requires
        transaction_ids_unique(txs),
    ensures
        join_rows(ds, txs, row) == ds.map_values(|d: DetailsRecord| row(d, first_encoding(txs, d.txid))),
    decreases ds.len(),
{
    let one = |d: DetailsRecord| row(d, first_encoding(txs, d.txid));
    if ds.len() > 0 {
        lemma_join_single(ds.drop_last(), txs, row);
        let d = ds.last();
        let g = |x: TransactionRecord| if x.txid == d.txid {
            Some(row(d, Some(x.raw_tx)))
        } else {
            None
        };
        assert forall|i: int, j: int|
            0 <= i < j < txs.len() && (#[trigger] g(txs[i])) is Some implies (#[trigger] g(txs[j])) is None by {
            assert(txs[i].txid != txs[j].txid);
        }
        lemma_filter_map_at_most_one(txs, g);
        lemma_joined_first(d, txs, row);
        assert(joined(d, txs, row) =~= seq![one(d)]);
        assert(ds.map_values(one) =~= ds.drop_last().map_values(one).push(one(d)));
    }
    assert(join_rows(ds, txs, row) =~= ds.map_values(one));
}

/// Where every encoding on record for `txid` is `raw`, it is the first.
pub proof fn lemma_first_encoding_only(txs: Seq<TransactionRecord>, txid: Seq<u8>, raw: Seq<u8>)
    requires
        only_encoding_for(txs, txid, raw),
    ensures
        first_encoding(txs, txid) == Some(raw),
{
    let pick = |x: TransactionRecord| if x.txid == txid {
        Some(x.raw_tx)
    } else {
        None
    };
    let i = choose|i: int| 0 <= i < txs.len() && #[trigger] txs[i].txid == txid;
    lemma_filter_map_some(txs, pick, i);
    lemma_filter_map_from(txs, pick, 0);
}

/// The first encoding on record for an id decodes where every encoding on
/// record for it does.
pub proof fn lemma_first_encoding_valid(t: Tables, txid: Seq<u8>)
    requires
        encodings_valid_for(t, txid),
    ensures
        first_encoding(t.transactions, txid) matches Some(b) ==> is_transaction_encoding(b),
{
    let pick = |x: TransactionRecord| if x.txid == txid {
        Some(x.raw_tx)
    } else {
        None
    };
    if first_encoding(t.transactions, txid) is Some {
        lemma_filter_map_from(t.transactions, pick, 0);
    }
}

/// Where details for `txid` are settled as `rec`, the lookup of details
/// for `txid` finds `rec` first.
pub proof fn lemma_first_settled(ds: Seq<DetailsRecord>, txid: Seq<u8>, rec: DetailsRecord)
    requires
        details_settled(ds, txid, rec),
    ensures
        delete_where(ds, |d: DetailsRecord| d.txid != txid).len() > 0,
        delete_where(ds, |d: DetailsRecord| d.txid != txid)[0] == rec,
{
    let ne = |d: DetailsRecord| d.txid != txid;
    let g = |r: DetailsRecord| if ne(r) {
        None
    } else {
        Some(r)
    };
    let i = choose|i: int| 0 <= i < ds.len() && #[trigger] ds[i].txid == txid;
    lemma_filter_map_some(ds, g, i);
    lemma_filter_map_from(ds, g, 0);
}

/// What the lookup of details for `txid` finds where they are settled as
/// `rec`: `rec`, with the first encoding on record for the id where the
/// transaction is asked for.
#[verifier::spinoff_prover]
pub proof fn lemma_get_settled(t: Tables, txid: Seq<u8>, rec: DetailsRecord, include_raw: bool)
    requires
        txid.len() == 32,
        details_settled(t.transaction_details, txid, rec),
        encodings_valid_for(t, txid),
    ensures
        run(RequestView::GetTx { txid, include_raw }, t).0 == Ok::<OutputView, ErrorKind>(
            OutputView::Details(
                Some(
                    details_of_record(
                        rec,
                        if include_raw {
                            first_encoding(t.transactions, txid)
                        } else {
                            None
                        },
                    ),
                ),
            ),
        ),
{
    reveal_with_fuel(drive, 2);
    lemma_first_settled(t.transaction_details, txid, rec);
    let kept = delete_where(t.transaction_details, |d: DetailsRecord| d.txid != txid);
    let row = |d: DetailsRecord, raw: Option<Seq<u8>>|
        RowView::DetailsOfTxid {
            timestamp: d.timestamp,
            received: d.received,
            sent: d.sent,
            fee: d.fee,
            height: d.height,
            raw_tx: raw,
        };
    lemma_join_first(kept, t.transactions, row);
    lemma_first_encoding_valid(t, txid);
}

/// What recording details needs of the store: an id of 32 bytes, and every
/// encoding on record for it, and for the id that their transaction is
/// recorded under, decodes.
pub open spec fn set_tx_ready(t: Tables, details: DetailsView, transaction_txid: Seq<u8>) -> bool {
    &&& details.txid.len() == 32
    &&& encodings_valid_for(t, details.txid)
    &&& details.transaction is Some ==> encodings_valid_for(t, transaction_txid)
}

/// Recording `raw` under another id than `txid` leaves the first encoding
/// on record for `txid`, and whether those on record for it decode.
pub proof fn lemma_first_encoding_other(t: Tables, id2: Seq<u8>, raw: Seq<u8>, txid: Seq<u8>)
    requires
        id2 != txid,
    ensures
        first_encoding(transactions_after_set(t.transactions, id2, raw), txid) == first_encoding(
            t.transactions,
            txid,
        ),
        encodings_valid_for(t, txid) ==> encodings_valid_for(
            Tables { transactions: transactions_after_set(t.transactions, id2, raw), ..t },
            txid,
        ),
{
    let txs = t.transactions;
    let pick = |x: TransactionRecord| if x.txid == txid {
        Some(x.raw_tx)
    } else {
        None
    };
    let m = |x: TransactionRecord| if x.txid == id2 {
        TransactionRecord { txid: id2, raw_tx: raw }
    } else {
        x
    };
    let after = transactions_after_set(txs, id2, raw);
    if exists|i: int| 0 <= i < txs.len() && #[trigger] txs[i].txid == id2 {
        lemma_filter_map_after_map(txs, m, pick);
        assert(after == txs.map_values(m));
    } else {
        lemma_filter_map_push(txs, TransactionRecord { txid: id2, raw_tx: raw }, pick);
    }
    if encodings_valid_for(t, txid) {
        assert forall|i: int| 0 <= i < after.len() && #[trigger] after[i].txid == txid
            implies is_transaction_encoding(after[i].raw_tx) by {
            if i < txs.len() {
                assert(txs[i].txid == txid);
            }
        }
    }
}

/// What recording details does to the tables: the details of their id are
/// replaced by them, or they are added; their transaction, where they
/// carry one, is then recorded under `transaction_txid`; nothing else
/// changes.
#[verifier::spinoff_prover]
#[verifier::rlimit(40)]
pub proof fn lemma_set_tx(t: Tables, details: DetailsView, transaction_txid: Seq<u8>)
    requires
        set_tx_ready(t, details, transaction_txid),
    ensures
        ({
            let (answer, after) = run(RequestView::SetTx { details, transaction_txid }, t);
            &&& answer == Ok::<OutputView, ErrorKind>(OutputView::Unit)
            &&& after == Tables {
                transaction_details: after.transaction_details,
                transactions: after.transactions,
                ..t
            }
            &&& after.transaction_details == details_after_set(
                t.transaction_details,
                details_record(details),
            )
            &&& details_settled(after.transaction_details, details.txid, details_record(details))
            &&& match details.transaction {
                Some(raw) => only_encoding_for(after.transactions, transaction_txid, raw)
                    && after.transactions == transactions_after_set(t.transactions, transaction_txid, raw),
                None => after.transactions == t.transactions,
            }
        }),
{
    reveal_with_fuel(drive, 3);
    let id = details.txid;
    let rec = details_record(details);
    let ne = |d: DetailsRecord| d.txid != id;
    let g = |r: DetailsRecord| if ne(r) {
        None
    } else {
        Some(r)
    };
    let ds = t.transaction_details;
    let kept = delete_where(ds, ne);
    let row = |d: DetailsRecord, raw: Option<Seq<u8>>|
        RowView::DetailsOfTxid {
            timestamp: d.timestamp,
            received: d.received,
            sent: d.sent,
            fee: d.fee,
            height: d.height,
            raw_tx: raw,
        };
    let ds1 = if kept.len() > 0 {
        lemma_join_first(kept, t.transactions, row);
        lemma_filter_map_from(ds, g, 0);
        lemma_first_encoding_valid(t, id);
        let i = choose|i: int| 0 <= i < ds.len() && g(ds[i]) == Some(kept[0]);
        assert(ds[i].txid == id);
        let upd = ds.map_values(|d: DetailsRecord| if d.txid == id { rec } else { d });
        assert(update_where(
            ds,
            |d: DetailsRecord| d.txid == id,
            |d: DetailsRecord| DetailsRecord {
                txid: rec.txid,
                timestamp: rec.timestamp,
                received: rec.received,
                sent: rec.sent,
                fee: rec.fee,
                height: rec.height,
            },
        ) =~= upd);
        assert(upd[i].txid == id);
        upd
    } else {
        assert forall|i: int| 0 <= i < ds.len() implies #[trigger] ds[i].txid != id by {
            if ds[i].txid == id {
                lemma_filter_map_some(ds, g, i);
            }
        }
        assert(join_rows(kept, t.transactions, row) =~= Seq::<RowView>::empty());
        let p = ds.push(rec);
        assert(p[ds.len() as int].txid == id);
        p
    };
    assert(ds1 == details_after_set(ds, rec));
    assert(details_settled(ds1, id, rec));
    let t1 = Tables { transaction_details: ds1, ..t };
    match details.transaction {
        Some(raw) => {
            lemma_store_transaction(t1, transaction_txid, raw, 2);
        },
        None => {},
    }
}

/// The encoding found for the id of `details` once they are recorded with
/// their transaction under `transaction_txid`: the one they carried where
/// it is recorded under their id, else the one already on record for it.
pub open spec fn encoding_after_set_tx(
    t: Tables,
    details: DetailsView,
    transaction_txid: Seq<u8>,
) -> Option<Seq<u8>> {
    match details.transaction {
        Some(raw) => if transaction_txid == details.txid {
            Some(raw)
        } else {
            first_encoding(t.transactions, details.txid)
        },
        None => first_encoding(t.transactions, details.txid),
    }
}

/// Details recorded, with or without their transaction, are the details
/// found for their id afterwards: with the transaction they carried where
/// it is asked for and was recorded under their id, else with the encoding
/// already on record for the id, if any; without one where it is not asked
/// for.
pub proof fn law_tx_round_trip(
    t: Tables,
    details: DetailsView,
    transaction_txid: Seq<u8>,
    include_raw: bool,
)
    requires
        set_tx_ready(t, details, transaction_txid),
        details.transaction matches Some(raw) ==> is_transaction_encoding(raw),
    ensures
        run(RequestView::SetTx { details, transaction_txid }, t).0 == Ok::<OutputView, ErrorKind>(
            OutputView::Unit,
        ),
        run(
            RequestView::GetTx { txid: details.txid, include_raw },
            run(RequestView::SetTx { details, transaction_txid }, t).1,
        ).0 == Ok::<OutputView, ErrorKind>(
            OutputView::Details(
                Some(
                    DetailsView {
                        transaction: if !include_raw {
                            None
                        } else {
                            encoding_after_set_tx(t, details, transaction_txid)
                        },
                        ..details
                    },
                ),
            ),
        ),
{
    let id = details.txid;
    let rec = details_record(details);
    lemma_set_tx(t, details, transaction_txid);
    let after = run(RequestView::SetTx { details, transaction_txid }, t).1;
    match details.transaction {
        Some(raw) => if transaction_txid == id {
            lemma_first_encoding_only(after.transactions, id, raw);
            assert forall|i: int|
                0 <= i < after.transactions.len() && #[trigger] after.transactions[i].txid == id
                implies is_transaction_encoding(after.transactions[i].raw_tx) by {}
        } else {
            lemma_first_encoding_other(t, transaction_txid, raw, id);
            assert(after == Tables {
                transactions: transactions_after_set(t.transactions, transaction_txid, raw),
                transaction_details: after.transaction_details,
                ..t
            });
        },
        None => {},
    }
    lemma_get_settled(after, id, rec, include_raw);
    assert(confirmation_of(rec.height, rec.timestamp) == details.confirmation_time);
}

/// Recording details keeps every transaction id to at most one set of
/// details, and leaves exactly one for theirs.
pub proof fn law_set_tx_keeps_ids_unique(t: Tables, details: DetailsView, transaction_txid: Seq<u8>)
    requires
        set_tx_ready(t, details, transaction_txid),
        details_ids_unique(t.transaction_details),
    ensures
        details_ids_unique(run(RequestView::SetTx { details, transaction_txid }, t).1.transaction_details),
        exists|i: int|
            0 <= i < run(RequestView::SetTx { details, transaction_txid }, t).1.transaction_details.len()
                && #[trigger] run(RequestView::SetTx { details, transaction_txid }, t).1.transaction_details[i]
                == details_record(details),
{
    lemma_set_tx(t, details, transaction_txid);
    let ds = t.transaction_details;
    let after = run(RequestView::SetTx { details, transaction_txid }, t).1.transaction_details;
    let rec = details_record(details);
    assert forall|i: int, j: int| 0 <= i < j < after.len() implies #[trigger] after[i].txid
        != #[trigger] after[j].txid by {
        if exists|k: int| 0 <= k < ds.len() && #[trigger] ds[k].txid == rec.txid {
            assert(after[i].txid == ds[i].txid && after[j].txid == ds[j].txid);
        } else {
            if j == ds.len() {
                assert(ds[i].txid != rec.txid);
            } else {
                assert(ds[i].txid != ds[j].txid);
            }
        }
    }
}

/// Listing details without their transactions answers with every set of
/// details on record, in the order recorded, each without a transaction,
/// where each transaction id on record reads back.
pub proof fn law_iter_txs(t: Tables)
    requires
        forall|i: int| 0 <= i < t.transaction_details.len() ==> (#[trigger] t.transaction_details[i]).txid.len() == 32,
    ensures
        run(RequestView::IterTxs { include_raw: false }, t).0 == Ok::<OutputView, ErrorKind>(
            OutputView::DetailsList(
                t.transaction_details.map_values(|d: DetailsRecord| details_of_record(d, None)),
            ),
        ),
{
    reveal_with_fuel(drive, 2);
    let row = |d: DetailsRecord|
        RowView::Details {
            txid: d.txid,
            timestamp: d.timestamp,
            received: d.received,
            sent: d.sent,
            fee: d.fee,
            height: d.height,
        };
    assert((|d: DetailsRecord| Some(row(d))) =~= (|d: DetailsRecord|
        Some(
            RowView::Details {
                txid: d.txid,
                timestamp: d.timestamp,
                received: d.received,
                sent: d.sent,
                fee: d.fee,
                height: d.height,
            },
        )));
    lemma_read_every_row(
        t.transaction_details,
        row,
        |r: RowView| details_of_row(r),
        |d: DetailsRecord| details_of_record(d, None),
    );
}

/// Listing details with their transactions answers with every set of
/// details on record, in the order recorded, each with the encoding on
/// record for its id, or none where there is none, where no two encodings
/// share an id and all of it reads back.
#[verifier::spinoff_prover]
pub proof fn law_iter_txs_with_raw(t: Tables)
    requires
        transaction_ids_unique(t.transactions),
        forall|i: int| 0 <= i < t.transaction_details.len() ==> (#[trigger] t.transaction_details[i]).txid.len() == 32,
        forall|i: int| 0 <= i < t.transactions.len() ==> is_transaction_encoding(#[trigger] t.transactions[i].raw_tx),
    ensures
        run(RequestView::IterTxs { include_raw: true }, t).0 == Ok::<OutputView, ErrorKind>(
            OutputView::DetailsList(
                t.transaction_details.map_values(
                    |d: DetailsRecord| details_of_record(d, first_encoding(t.transactions, d.txid)),
                ),
            ),
        ),
{
    reveal_with_fuel(drive, 2);
    let txs = t.transactions;
    let ds = t.transaction_details;
    let row = |d: DetailsRecord, raw: Option<Seq<u8>>|
        RowView::DetailsWithRaw {
            txid: d.txid,
            timestamp: d.timestamp,
            received: d.received,
            sent: d.sent,
            fee: d.fee,
            height: d.height,
            raw_tx: raw,
        };
    let one = |d: DetailsRecord| row(d, first_encoding(txs, d.txid));
    lemma_join_single(ds, txs, row);
    lemma_filter_map_all(ds, one);
    assert forall|i: int| 0 <= i < ds.len() implies details_with_raw_of_row(one(#[trigger] ds[i]))
        == Ok::<DetailsView, ErrorKind>(details_of_record(ds[i], first_encoding(txs, ds[i].txid))) by {
        lemma_first_encoding_valid(t, ds[i].txid);
    }
    lemma_read_every_row(
        ds,
        one,
        |r: RowView| details_with_raw_of_row(r),
        |d: DetailsRecord| details_of_record(d, first_encoding(txs, d.txid)),
    );
}

/// Recording `raw` under `txid` keeps every id to at most one encoding
/// where no id had more.
pub proof fn lemma_transactions_after_set_unique(txs: Seq<TransactionRecord>, txid: Seq<u8>, raw: Seq<u8>)
    requires
        transaction_ids_unique(txs),
    ensures
        transaction_ids_unique(transactions_after_set(txs, txid, raw)),
{
    let after = transactions_after_set(txs, txid, raw);
    assert forall|i: int, j: int| 0 <= i < j < after.len() implies #[trigger] after[i].txid
        != #[trigger] after[j].txid by {
        if exists|k: int| 0 <= k < txs.len() && #[trigger] txs[k].txid == txid {
            assert(after[i].txid == txs[i].txid && after[j].txid == txs[j].txid);
        } else {
            if j == txs.len() {
                assert(txs[i].txid != txid);
            } else {
                assert(txs[i].txid != txs[j].txid);
            }
        }
    }
}

/// Recording an encoded transaction, whether or not it succeeds, changes
/// only the encodings on record, and keeps every id to at most one.
pub proof fn lemma_store_transaction_unique(t: Tables, id: Seq<u8>, raw: Seq<u8>, fuel: nat)
    requires
        fuel >= 2,
        transaction_ids_unique(t.transactions),
    ensures
        ({
            let after = drive(start_store_transaction(id, raw), t, fuel).1;
            &&& after == Tables { transactions: after.transactions, ..t }
            &&& transaction_ids_unique(after.transactions)
        }),
{
    reveal_with_fuel(drive, 3);
    {
        let f = |x: TransactionRecord| if x.txid == id {
            Some(RowView::RawTx { raw_tx: x.raw_tx })
        } else {
            None
        };
        let rows = t.transactions.filter_map(f);
        let after = drive(start_store_transaction(id, raw), t, fuel).1;
        if rows.len() > 0 {
            lemma_filter_map_from(t.transactions, f, 0);
            let i = choose|i: int| 0 <= i < t.transactions.len() && f(t.transactions[i]) == Some(rows[0]);
            assert(t.transactions[i].txid == id);
            if is_transaction_encoding(t.transactions[i].raw_tx) {
                assert(after.transactions =~= transactions_after_set(t.transactions, id, raw));
                lemma_transactions_after_set_unique(t.transactions, id, raw);
            }
        } else {
            assert forall|i: int| 0 <= i < t.transactions.len() implies #[trigger] t.transactions[i].txid != id by {
                if t.transactions[i].txid == id {
                    lemma_filter_map_some(t.transactions, f, i);
                }
            }
            assert(after.transactions =~= transactions_after_set(t.transactions, id, raw));
            lemma_transactions_after_set_unique(t.transactions, id, raw);
        }
    }
}

/// Recording an encoded transaction replaces the encodings on record for
/// its id, or adds it after the others where there are none, and changes
/// nothing else; where every encoding on record then decodes, the listing
/// of encoded transactions is the earlier listing with that one replaced
/// or added last.
pub proof fn law_set_raw_tx(t: Tables, id: Seq<u8>, raw: Seq<u8>)
    requires
        encodings_valid_for(t, id),
    ensures
        run(RequestView::SetRawTx { txid: id, transaction: raw }, t) == (
            Ok::<OutputView, ErrorKind>(OutputView::Unit),
            Tables { transactions: transactions_after_set(t.transactions, id, raw), ..t },
        ),
        is_transaction_encoding(raw) && (forall|i: int|
            0 <= i < t.transactions.len() ==> is_transaction_encoding(#[trigger] t.transactions[i].raw_tx))
            ==> run(RequestView::IterRawTxs, run(RequestView::SetRawTx { txid: id, transaction: raw }, t).1).0
            == Ok::<OutputView, ErrorKind>(
            OutputView::Transactions(
                transactions_after_set(t.transactions, id, raw).map_values(|x: TransactionRecord| x.raw_tx),
            ),
        ),
{
    lemma_store_transaction(t, id, raw, 4);
    let after = Tables { transactions: transactions_after_set(t.transactions, id, raw), ..t };
    if is_transaction_encoding(raw) && (forall|i: int|
        0 <= i < t.transactions.len() ==> is_transaction_encoding(#[trigger] t.transactions[i].raw_tx)) {
        assert forall|i: int| 0 <= i < after.transactions.len() implies is_transaction_encoding(
            #[trigger] after.transactions[i].raw_tx,
        ) by {
            if i < t.transactions.len() {
                assert(t.transactions[i].txid == id ==> after.transactions[i].raw_tx == raw);
                assert(t.transactions[i].txid != id ==> after.transactions[i] == t.transactions[i]);
            }
        }
        law_iter_raw_txs(after);
    }
}

/// Every operation, successful or not, keeps every transaction id to at
/// most one encoding on record.
#[verifier::spinoff_prover]
#[verifier::rlimit(60)]
pub proof fn law_transaction_ids_stay_unique(t: Tables, req: RequestView)
    requires
        transaction_ids_unique(t.transactions),
    ensures
        transaction_ids_unique(run(req, t).1.transactions),
{
    reveal_with_fuel(drive, 3);
    let key = |x: TransactionRecord| x.txid;
    match req {
        RequestView::SetRawTx { txid, transaction } => {
            assert(begin_spec(req) == start_store_transaction(txid, transaction));
            assert(run(req, t) == drive(start_store_transaction(txid, transaction), t, 4));
            lemma_store_transaction_unique(t, txid, transaction, 4);
        },
        RequestView::SetTx { details, transaction_txid } => {
            let lookup = StatementView::SelectTransactionDetailsByTxid { txid: details.txid };
            let s2 = resume_spec(begin_spec(req).0, apply(t, lookup).1);
            assert(run(req, t) == drive(s2, t, 3));
            if let ActionView::Execute(w) = s2.1 {
                let t1 = apply(t, w).0;
                assert(t1.transactions == t.transactions);
                assert(apply(t, w).1 == ReplyView::Done);
                let s3 = resume_spec(s2.0, ReplyView::Done);
                assert(drive(s2, t, 3) == drive(s3, t1, 2));
                if let Some(raw) = details.transaction {
                    assert(s3 == start_store_transaction(transaction_txid, raw));
                    lemma_store_transaction_unique(t1, transaction_txid, raw, 2);
                }
            }
        },
        RequestView::DelRawTx { txid } => {
            let gone = |x: TransactionRecord| x.txid == txid;
            let after = run(req, t).1.transactions;
            assert forall|i: int, j: int| 0 <= i < j < t.transactions.len() implies #[trigger] key(
                t.transactions[i],
            ) != #[trigger] key(t.transactions[j]) by {
                assert(t.transactions[i].txid != t.transactions[j].txid);
            }
            lemma_delete_where_keys_unique(t.transactions, gone, key);
            assert(after == t.transactions || after == delete_where(t.transactions, gone));
            assert forall|i: int, j: int| 0 <= i < j < after.len() implies #[trigger] after[i].txid
                != #[trigger] after[j].txid by {
                assert(key(after[i]) != key(after[j]));
            }
        },
        RequestView::DelTx { txid, include_raw } => {
            let gone = |x: TransactionRecord| x.txid == txid;
            let after = run(req, t).1.transactions;
            assert forall|i: int, j: int| 0 <= i < j < t.transactions.len() implies #[trigger] key(
                t.transactions[i],
            ) != #[trigger] key(t.transactions[j]) by {
                assert(t.transactions[i].txid != t.transactions[j].txid);
            }
            lemma_delete_where_keys_unique(t.transactions, gone, key);
            let lookup = StatementView::SelectTransactionDetailsByTxid { txid };
            let s2 = resume_spec(begin_spec(req).0, apply(t, lookup).1);
            assert(run(req, t) == drive(s2, t, 3));
            if let ActionView::Execute(w) = s2.1 {
                let t1 = apply(t, w).0;
                assert(t1.transactions == t.transactions);
                assert(apply(t, w).1 == ReplyView::Done);
                let s3 = resume_spec(s2.0, ReplyView::Done);
                assert(drive(s2, t, 3) == drive(s3, t1, 2));
                if include_raw {
                    assert(s3.1 == ActionView::Execute(StatementView::DeleteTransactionByTxid { txid }));
                    assert(apply(t1, StatementView::DeleteTransactionByTxid { txid }).0.transactions
                        == delete_where(t.transactions, gone));
                }
            }
            assert(after == t.transactions || after == delete_where(t.transactions, gone));
            assert forall|i: int, j: int| 0 <= i < j < after.len() implies #[trigger] after[i].txid
                != #[trigger] after[j].txid by {
                assert(key(after[i]) != key(after[j]));
            }
        },
        _ => {
            law_other_operations_keep_transactions(t, req);
        },
    }
}

/// Whether a statement writes the table of encoded transactions.
pub open spec fn writes_transactions(s: StatementView) -> bool {
    s is InsertTransaction || s is UpdateTransaction || s is DeleteTransactionByTxid
}

/// Whether what follows in an operation may write encoded transactions.
pub open spec fn may_write_transactions(op: OperationView) -> bool {
    match op {
        OperationView::Finished => false,
        OperationView::Writing { then } => then is StoreTransaction || then is DeleteTransaction,
        OperationView::Reading { then } => then is UpsertTransaction || then is UpsertDetails
            || then is TakeTransaction || then is TakeDetails,
    }
}

/// A step from which no statement that writes encoded transactions follows.
pub open spec fn keeps_transactions(step: (OperationView, ActionView)) -> bool {
    &&& !may_write_transactions(step.0)
    &&& match step.1 {
        ActionView::Execute(s) => !writes_transactions(s),
        ActionView::QueryFirst(s) => !writes_transactions(s),
        ActionView::QueryAll(s) => !writes_transactions(s),
        ActionView::Finish(_) => true,
    }
}

/// A statement that does not write encoded transactions leaves them.
pub proof fn lemma_apply_keeps_transactions(t: Tables, s: StatementView)
    requires
        !writes_transactions(s),
    ensures
        apply(t, s).0.transactions == t.transactions,
{
}

/// What follows a step that keeps encoded transactions keeps them too.
pub proof fn lemma_resume_keeps_transactions(op: OperationView, reply: ReplyView)
    requires
        !may_write_transactions(op),
    ensures
        keeps_transactions(resume_spec(op, reply)),
{
}

/// Operations run from a step that keeps encoded transactions leave them.
pub proof fn lemma_drive_keeps_transactions(step: (OperationView, ActionView), t: Tables, fuel: nat)
    requires
        keeps_transactions(step),
    ensures
        drive(step, t, fuel).1.transactions == t.transactions,
    decreases fuel,
{
    match step.1 {
        ActionView::Finish(_) => {},
        ActionView::Execute(s) => if fuel > 0 {
            lemma_apply_keeps_transactions(t, s);
            lemma_resume_keeps_transactions(step.0, apply(t, s).1);
            lemma_drive_keeps_transactions(resume_spec(step.0, apply(t, s).1), apply(t, s).0, (fuel - 1) as nat);
        },
        ActionView::QueryFirst(s) => if fuel > 0 {
            lemma_apply_keeps_transactions(t, s);
            lemma_resume_keeps_transactions(step.0, apply(t, s).1);
            lemma_drive_keeps_transactions(resume_spec(step.0, apply(t, s).1), apply(t, s).0, (fuel - 1) as nat);
        },
        ActionView::QueryAll(s) => if fuel > 0 {
            lemma_apply_keeps_transactions(t, s);
            lemma_resume_keeps_transactions(step.0, apply(t, s).1);
            lemma_drive_keeps_transactions(resume_spec(step.0, apply(t, s).1), apply(t, s).0, (fuel - 1) as nat);
        },
    }
}

/// Operations other than recording or forgetting transactions and their
/// details leave the encodings on record as they are.
pub proof fn law_other_operations_keep_transactions(t: Tables, req: RequestView)
    requires
        !(req is SetRawTx || req is SetTx || req is DelRawTx || req is DelTx),
    ensures
        run(req, t).1.transactions == t.transactions,
{
    assert(keeps_transactions(begin_spec(req)));
    lemma_drive_keeps_transactions(begin_spec(req), t, 4);
}

/// Whether a statement writes the table of details.
pub open spec fn writes_details(s: StatementView) -> bool {
    s is InsertTransactionDetails || s is UpdateTransactionDetails || s is DeleteTransactionDetailsByTxid
}

/// Whether what follows in an operation may write details.
pub open spec fn may_write_details(op: OperationView) -> bool {
    match op {
        OperationView::Finished => false,
        OperationView::Writing { .. } => false,
        OperationView::Reading { then } => then is UpsertDetails || then is TakeDetails,
    }
}

/// A step from which no statement that writes details follows.
pub open spec fn keeps_details(step: (OperationView, ActionView)) -> bool {
    &&& !may_write_details(step.0)
    &&& match step.1 {
        ActionView::Execute(s) => !writes_details(s),
        ActionView::QueryFirst(s) => !writes_details(s),
        ActionView::QueryAll(s) => !writes_details(s),
        ActionView::Finish(_) => true,
    }
}

/// Operations run from a step that keeps details leave them.
pub proof fn lemma_drive_keeps_details(step: (OperationView, ActionView), t: Tables, fuel: nat)
    requires
        keeps_details(step),
    ensures
        drive(step, t, fuel).1.transaction_details == t.transaction_details,
    decreases fuel,
{
    match step.1 {
        ActionView::Finish(_) => {},
        ActionView::Execute(s) => if fuel > 0 {
            assert(keeps_details(resume_spec(step.0, apply(t, s).1)));
            lemma_drive_keeps_details(resume_spec(step.0, apply(t, s).1), apply(t, s).0, (fuel - 1) as nat);
        },
        ActionView::QueryFirst(s) => if fuel > 0 {
            assert(keeps_details(resume_spec(step.0, apply(t, s).1)));
            lemma_drive_keeps_details(resume_spec(step.0, apply(t, s).1), apply(t, s).0, (fuel - 1) as nat);
        },
        ActionView::QueryAll(s) => if fuel > 0 {
            assert(keeps_details(resume_spec(step.0, apply(t, s).1)));
            lemma_drive_keeps_details(resume_spec(step.0, apply(t, s).1), apply(t, s).0, (fuel - 1) as nat);
        },
    }
}

/// Every operation keeps every transaction id to at most one set of
/// details on record, where the details it records are well formed.
#[verifier::spinoff_prover]
#[verifier::rlimit(60)]
pub proof fn law_details_ids_stay_unique(t: Tables, req: RequestView)
    requires
        details_ids_unique(t.transaction_details),
        req matches RequestView::SetTx { details, transaction_txid } ==> set_tx_ready(
            t,
            details,
            transaction_txid,
        ),
    ensures
        details_ids_unique(run(req, t).1.transaction_details),
{
    let key = |d: DetailsRecord| d.txid;
    match req {
        RequestView::SetTx { details, transaction_txid } => {
            law_set_tx_keeps_ids_unique(t, details, transaction_txid);
        },
        RequestView::DelTx { txid, include_raw } => {
            reveal_with_fuel(drive, 3);
            let gone = |d: DetailsRecord| d.txid == txid;
            let after = run(req, t).1.transaction_details;
            assert forall|i: int, j: int| 0 <= i < j < t.transaction_details.len() implies #[trigger] key(
                t.transaction_details[i],
            ) != #[trigger] key(t.transaction_details[j]) by {
                assert(t.transaction_details[i].txid != t.transaction_details[j].txid);
            }
            lemma_delete_where_keys_unique(t.transaction_details, gone, key);
            let lookup = StatementView::SelectTransactionDetailsByTxid { txid };
            let s2 = resume_spec(begin_spec(req).0, apply(t, lookup).1);
            assert(run(req, t) == drive(s2, t, 3));
            if let ActionView::Execute(w) = s2.1 {
                let t1 = apply(t, w).0;
                assert(t1.transaction_details == delete_where(t.transaction_details, gone));
                let s3 = resume_spec(s2.0, ReplyView::Done);
                assert(drive(s2, t, 3) == drive(s3, t1, 2));
                if include_raw {
                    assert(s3.1 == ActionView::Execute(StatementView::DeleteTransactionByTxid { txid }));
                }
            }
            assert(after == t.transaction_details || after == delete_where(t.transaction_details, gone));
            assert forall|i: int, j: int| 0 <= i < j < after.len() implies #[trigger] after[i].txid
                != #[trigger] after[j].txid by {
                assert(key(after[i]) != key(after[j]));
            }
        },
        _ => {
            assert(keeps_details(begin_spec(req)));
            lemma_drive_keeps_details(begin_spec(req), t, 4);
        },
    }
}

/// Forgetting the encoded transaction of an id answers with what a lookup
/// of it gives; afterwards the lookup finds nothing.
pub proof fn law_del_raw_tx(t: Tables, txid: Seq<u8>)
    ensures
        run(RequestView::DelRawTx { txid }, t).0 == run(RequestView::GetRawTx { txid }, t).0,
        run(RequestView::DelRawTx { txid }, t).0 is Ok ==> run(
            RequestView::GetRawTx { txid },
            run(RequestView::DelRawTx { txid }, t).1,
        ).0 == Ok::<OutputView, ErrorKind>(OutputView::Transaction(None)),
{
    reveal_with_fuel(drive, 3);
    lemma_pick_after_delete(
        t.transactions,
        |x: TransactionRecord| x.txid == txid,
        |x: TransactionRecord| if x.txid == txid {
            Some(RowView::RawTx { raw_tx: x.raw_tx })
        } else {
            None
        },
    );
}

/// Forgetting the details of a transaction id answers with what a lookup
/// of them, with the transaction, gives; afterwards the lookup finds
/// nothing.
#[verifier::spinoff_prover]
#[verifier::rlimit(40)]
pub proof fn law_del_tx(t: Tables, txid: Seq<u8>, include_raw: bool)
    ensures
        run(RequestView::DelTx { txid, include_raw }, t).0 == run(
            RequestView::GetTx { txid, include_raw: true },
            t,
        ).0,
        run(RequestView::DelTx { txid, include_raw }, t).0 is Ok ==> run(
            RequestView::GetTx { txid, include_raw },
            run(RequestView::DelTx { txid, include_raw }, t).1,
        ).0 == Ok::<OutputView, ErrorKind>(OutputView::Details(None)),
{
    reveal_with_fuel(drive, 4);
    lemma_delete_twice(
        t.transaction_details,
        |d: DetailsRecord| d.txid == txid,
        |d: DetailsRecord| d.txid != txid,
    );
    let after = run(RequestView::DelTx { txid, include_raw }, t).1;
    let row = |d: DetailsRecord, raw: Option<Seq<u8>>|
        RowView::DetailsOfTxid {
            timestamp: d.timestamp,
            received: d.received,
            sent: d.sent,
            fee: d.fee,
            height: d.height,
            raw_tx: raw,
        };
    assert(join_rows(Seq::<DetailsRecord>::empty(), after.transactions, row) == Seq::<RowView>::empty());
}

/// Details asked for without their transaction come without it.
pub proof fn law_get_tx_without_raw(t: Tables, txid: Seq<u8>)
    ensures
        run(RequestView::GetTx { txid, include_raw: false }, t).0 matches Ok(
            OutputView::Details(Some(d)),
        ) ==> d.transaction is None,
{
    reveal_with_fuel(drive, 2);
}

/// Listing encoded transactions answers with every encoding on record, in
/// the order they were recorded, where each decodes.
pub proof fn law_iter_raw_txs(t: Tables)
    requires
        forall|i: int| 0 <= i < t.transactions.len() ==> is_transaction_encoding(#[trigger] t.transactions[i].raw_tx),
    ensures
        run(RequestView::IterRawTxs, t).0 == Ok::<OutputView, ErrorKind>(
            OutputView::Transactions(t.transactions.map_values(|x: TransactionRecord| x.raw_tx)),
        ),
{
    reveal_with_fuel(drive, 2);
    let row = |x: TransactionRecord| RowView::RawTx { raw_tx: x.raw_tx };
    assert((|x: TransactionRecord| Some(row(x))) =~= (|x: TransactionRecord| Some(RowView::RawTx { raw_tx: x.raw_tx })));
    lemma_read_every_row(
        t.transactions,
        row,
        |r: RowView| transaction_of_row(r),
        |x: TransactionRecord| x.raw_tx,
    );
}

} // verus!
