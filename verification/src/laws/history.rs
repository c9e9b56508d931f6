//! Laws over several operations run one after the other: what a lookup
//! finds after later writes, and what listings give after a run of writes.
use vstd::prelude::*;
use crate::error::ErrorKind;
use crate::external::is_transaction_encoding;
use crate::model::{apply, delete_where, empty_tables, join_rows, DetailsRecord, Tables, TransactionRecord};
use crate::protocol::{height_column, timestamp_column};
use crate::protocol::{begin_spec, resume_spec, ActionView};
use crate::types::{confirmation_of, DetailsView, UtxoView};
use crate::codec::lemma_keychain_round_trip;
use crate::model::UtxoRecord;
use crate::laws::utxos::{law_iter_utxos, law_set_utxo_appends, utxo_of_record, utxo_record, utxo_record_reads};
use crate::request::{OutputView, RequestView};
use crate::rows::{ReplyView, RowView};
use crate::sql::StatementView;
use crate::laws::drive::{
    drive, lemma_filter_map_after_delete, lemma_filter_map_after_map, lemma_filter_map_from,
    lemma_filter_map_none, lemma_filter_map_push, lemma_filter_map_then, run, run_all,
};
use crate::laws::transactions::{
    details_after_set, details_record, encoding_after_set_tx, encodings_valid_for, first_encoding,
    keeps_details, lemma_drive_keeps_details, lemma_first_encoding_other, lemma_join_first,
    lemma_set_tx, law_other_operations_keep_transactions, law_raw_tx_round_trip, law_tx_round_trip,
    set_tx_ready, transactions_after_set, details_of_record, law_iter_txs, law_iter_txs_with_raw,
    lemma_first_encoding_only, lemma_transactions_after_set_unique, transaction_ids_unique,
    details_ids_unique, law_set_tx_keeps_ids_unique, law_transaction_ids_stay_unique, law_iter_raw_txs,
};

verus! {

/// The details on record for `txid`, in order.
pub open spec fn details_for(ds: Seq<DetailsRecord>, txid: Seq<u8>) -> Seq<DetailsRecord> {
    delete_where(ds, |d: DetailsRecord| d.txid != txid)
}

/// Whether an operation writes what is on record for `txid`: its details,
/// or an encoding under it.
pub open spec fn writes_for(req: RequestView, txid: Seq<u8>) -> bool {
    match req {
        RequestView::SetRawTx { txid: x, .. } => x == txid,
        RequestView::SetTx { details, transaction_txid } => details.txid == txid
            || (details.transaction is Some && transaction_txid == txid),
        RequestView::DelRawTx { txid: x } => x == txid,
        RequestView::DelTx { txid: x, .. } => x == txid,
        _ => false,
    }
}

/// What an operation needs of the store to write what it writes: recording
/// details needs what `set_tx_ready` says, recording an encoding needs the
/// encodings on record for its id to decode.
pub open spec fn ready(t: Tables, req: RequestView) -> bool {
    match req {
        RequestView::SetTx { details, transaction_txid } => set_tx_ready(t, details, transaction_txid),
        RequestView::SetRawTx { txid, .. } => encodings_valid_for(t, txid),
        _ => true,
    }
}

/// The lookup of details for `txid` depends only on the details on record
/// for it and the first encoding on record for it.
pub proof fn lemma_get_tx_determined(t1: Tables, t2: Tables, txid: Seq<u8>, include_raw: bool)
    requires
        details_for(t1.transaction_details, txid) == details_for(t2.transaction_details, txid),
        first_encoding(t1.transactions, txid) == first_encoding(t2.transactions, txid),
    ensures
        run(RequestView::GetTx { txid, include_raw }, t1).0 == run(
            RequestView::GetTx { txid, include_raw },
            t2,
        ).0,
{
    reveal_with_fuel(drive, 2);
    let kept = details_for(t1.transaction_details, txid);
    let row = |d: DetailsRecord, raw: Option<Seq<u8>>|
        RowView::DetailsOfTxid {
            timestamp: d.timestamp,
            received: d.received,
            sent: d.sent,
            fee: d.fee,
            height: d.height,
            raw_tx: raw,
        };
    if kept.len() > 0 {
        lemma_join_first(kept, t1.transactions, row);
        lemma_join_first(kept, t2.transactions, row);
        let ne = |d: DetailsRecord| d.txid != txid;
        let g = |r: DetailsRecord| if ne(r) {
            None
        } else {
            Some(r)
        };
        lemma_filter_map_from(t1.transaction_details, g, 0);
        assert(kept[0].txid == txid);
    } else {
        assert(join_rows(kept, t1.transactions, row) =~= Seq::<RowView>::empty());
        assert(join_rows(kept, t2.transactions, row) =~= Seq::<RowView>::empty());
    }
}

/// The lookup of an encoded transaction depends only on the first encoding
/// on record for its id.
pub proof fn lemma_get_raw_tx_determined(t1: Tables, t2: Tables, txid: Seq<u8>)
    requires
        first_encoding(t1.transactions, txid) == first_encoding(t2.transactions, txid),
    ensures
        run(RequestView::GetRawTx { txid }, t1).0 == run(RequestView::GetRawTx { txid }, t2).0,
{
    reveal_with_fuel(drive, 2);
    let pick = |x: TransactionRecord| if x.txid == txid {
        Some(x.raw_tx)
    } else {
        None
    };
    let f = |x: TransactionRecord| if x.txid == txid {
        Some(RowView::RawTx { raw_tx: x.raw_tx })
    } else {
        None
    };
    lemma_filter_map_then(t1.transactions, pick, |b: Seq<u8>| RowView::RawTx { raw_tx: b }, f);
    lemma_filter_map_then(t2.transactions, pick, |b: Seq<u8>| RowView::RawTx { raw_tx: b }, f);
}

/// Forgetting the encodings of another id keeps the first encoding on
/// record for `txid`, and whether those on record for it decode.
pub proof fn lemma_delete_other_encodings(t: Tables, other: Seq<u8>, txid: Seq<u8>)
    requires
        other != txid,
    ensures
        first_encoding(delete_where(t.transactions, |x: TransactionRecord| x.txid == other), txid)
            == first_encoding(t.transactions, txid),
        encodings_valid_for(t, txid) ==> encodings_valid_for(
            Tables {
                transactions: delete_where(t.transactions, |x: TransactionRecord| x.txid == other),
                ..t
            },
            txid,
        ),
{
    let gone = |x: TransactionRecord| x.txid == other;
    let pick = |x: TransactionRecord| if x.txid == txid {
        Some(x.raw_tx)
    } else {
        None
    };
    lemma_filter_map_after_delete(t.transactions, gone, pick);
    let kept = delete_where(t.transactions, gone);
    let g = |r: TransactionRecord| if gone(r) {
        None
    } else {
        Some(r)
    };
    if encodings_valid_for(t, txid) {
        assert forall|i: int| 0 <= i < kept.len() && #[trigger] kept[i].txid == txid
            implies is_transaction_encoding(kept[i].raw_tx) by {
            lemma_filter_map_from(t.transactions, g, i);
        }
    }
}

/// Forgetting the details of another id keeps the details on record for
/// `txid`.
pub proof fn lemma_delete_other_details(ds: Seq<DetailsRecord>, other: Seq<u8>, txid: Seq<u8>)
    requires
        other != txid,
    ensures
        details_for(delete_where(ds, |d: DetailsRecord| d.txid == other), txid) == details_for(ds, txid),
{
    let ne = |d: DetailsRecord| d.txid != txid;
    let g = |r: DetailsRecord| if ne(r) {
        None
    } else {
        Some(r)
    };
    lemma_filter_map_after_delete(ds, |d: DetailsRecord| d.txid == other, g);
}

/// An operation that writes nothing on record for `txid` keeps the details
/// and the first encoding on record for it, and whether those encodings
/// decode.
#[verifier::spinoff_prover]
#[verifier::rlimit(60)]
pub proof fn lemma_other_write_keeps(t: Tables, req: RequestView, txid: Seq<u8>)
    requires
        !writes_for(req, txid),
        ready(t, req),
    ensures
        details_for(run(req, t).1.transaction_details, txid) == details_for(t.transaction_details, txid),
        first_encoding(run(req, t).1.transactions, txid) == first_encoding(t.transactions, txid),
        encodings_valid_for(t, txid) ==> encodings_valid_for(run(req, t).1, txid),
{
    let after = run(req, t).1;
    match req {
        RequestView::SetRawTx { txid: x, transaction } => {
            reveal_with_fuel(drive, 3);
            crate::laws::transactions::law_set_raw_tx(t, x, transaction);
            lemma_first_encoding_other(t, x, transaction, txid);
            assert(after == Tables { transactions: transactions_after_set(t.transactions, x, transaction), ..t });
            assert(encodings_valid_for(t, txid) ==> encodings_valid_for(after, txid));
        },
        RequestView::SetTx { details, transaction_txid } => {
            lemma_set_tx(t, details, transaction_txid);
            let rec = details_record(details);
            let ds = t.transaction_details;
            let ne = |d: DetailsRecord| d.txid != txid;
            let g = |r: DetailsRecord| if ne(r) {
                None
            } else {
                Some(r)
            };
            if exists|i: int| 0 <= i < ds.len() && #[trigger] ds[i].txid == rec.txid {
                let m = |d: DetailsRecord| if d.txid == rec.txid {
                    rec
                } else {
                    d
                };
                lemma_filter_map_after_map(ds, m, g);
                assert(after.transaction_details == ds.map_values(m));
            } else {
                lemma_filter_map_push(ds, rec, g);
            }
            if let Some(raw) = details.transaction {
                lemma_first_encoding_other(t, transaction_txid, raw, txid);
            }
            assert(encodings_valid_for(t, txid) ==> encodings_valid_for(after, txid));
        },
        RequestView::DelRawTx { txid: x } => {
            reveal_with_fuel(drive, 3);
            let gone = |y: TransactionRecord| y.txid == x;
            lemma_delete_other_encodings(t, x, txid);
            assert(keeps_details(begin_spec(req)));
            lemma_drive_keeps_details(begin_spec(req), t, 4);
            assert(after.transactions == t.transactions || after.transactions == delete_where(
                t.transactions,
                gone,
            ));
            if after.transactions != t.transactions {
                assert(after == Tables { transactions: delete_where(t.transactions, gone), ..t });
            }
            assert(encodings_valid_for(t, txid) ==> encodings_valid_for(after, txid));
        },
        RequestView::DelTx { txid: x, include_raw } => {
            reveal_with_fuel(drive, 3);
            let gone = |y: TransactionRecord| y.txid == x;
            let dgone = |d: DetailsRecord| d.txid == x;
            lemma_delete_other_encodings(t, x, txid);
            lemma_delete_other_details(t.transaction_details, x, txid);
            let lookup = StatementView::SelectTransactionDetailsByTxid { txid: x };
            let s2 = resume_spec(begin_spec(req).0, apply(t, lookup).1);
            assert(run(req, t) == drive(s2, t, 3));
            if let ActionView::Execute(w) = s2.1 {
                let t1 = apply(t, w).0;
                assert(t1 == Tables {
                    transaction_details: delete_where(t.transaction_details, dgone),
                    ..t
                });
                let s3 = resume_spec(s2.0, ReplyView::Done);
                assert(drive(s2, t, 3) == drive(s3, t1, 2));
                if include_raw {
                    assert(s3.1 == ActionView::Execute(StatementView::DeleteTransactionByTxid { txid: x }));
                    assert(after == Tables { transactions: delete_where(t.transactions, gone), ..t1 });
                    assert(after.transactions == delete_where(t.transactions, gone));
                    if encodings_valid_for(t, txid) {
                        let k = delete_where(t.transactions, gone);
                        assert forall|i: int| 0 <= i < after.transactions.len() && #[trigger] after.transactions[i].txid == txid
                            implies is_transaction_encoding(after.transactions[i].raw_tx) by {
                            let g = |r: TransactionRecord| if gone(r) {
                                None
                            } else {
                                Some(r)
                            };
                            lemma_filter_map_from(t.transactions, g, i);
                        }
                    }
                } else {
                    assert(after == t1);
                }
            } else {
                assert(after == t);
            }
            assert(encodings_valid_for(t, txid) ==> encodings_valid_for(after, txid));
        },
        _ => {
            assert(keeps_details(begin_spec(req)));
            lemma_drive_keeps_details(begin_spec(req), t, 4);
            law_other_operations_keep_transactions(t, req);
        },
    }
}

/// An operation that writes nothing on record for `txid` leaves what the
/// lookups of details and of the encoded transaction of `txid` answer.
pub proof fn law_other_writes_keep_lookups(t: Tables, req: RequestView, txid: Seq<u8>, include_raw: bool)
    requires
        !writes_for(req, txid),
        ready(t, req),
    ensures
        run(RequestView::GetTx { txid, include_raw }, run(req, t).1).0 == run(
            RequestView::GetTx { txid, include_raw },
            t,
        ).0,
        run(RequestView::GetRawTx { txid }, run(req, t).1).0 == run(RequestView::GetRawTx { txid }, t).0,
{
    lemma_other_write_keeps(t, req, txid);
    lemma_get_tx_determined(run(req, t).1, t, txid, include_raw);
    lemma_get_raw_tx_determined(run(req, t).1, t, txid);
}

/// Every operation of `reqs`, run in order from `t`, finds the store as it
/// needs it.
pub open spec fn all_ready(reqs: Seq<RequestView>, t: Tables) -> bool {
    forall|i: int| 0 <= i < reqs.len() ==> ready(run_all(reqs.take(i), t).1, #[trigger] reqs[i])
}

/// Operations that write nothing on record for `txid`, run one after the
/// other, leave what the lookups of details and of the encoded transaction
/// of `txid` answer.
pub proof fn law_lookups_after_later_writes(t: Tables, later: Seq<RequestView>, txid: Seq<u8>, include_raw: bool)
    requires
        forall|i: int| 0 <= i < later.len() ==> !writes_for(#[trigger] later[i], txid),
        all_ready(later, t),
    ensures
        run(RequestView::GetTx { txid, include_raw }, run_all(later, t).1).0 == run(
            RequestView::GetTx { txid, include_raw },
            t,
        ).0,
        run(RequestView::GetRawTx { txid }, run_all(later, t).1).0 == run(
            RequestView::GetRawTx { txid },
            t,
        ).0,
    decreases later.len(),
{
    if later.len() > 0 {
        let rest = later.drop_last();
        let n = later.len() - 1;
        assert forall|i: int| 0 <= i < rest.len() implies ready(
            run_all(rest.take(i), t).1,
            #[trigger] rest[i],
        ) by {
            assert(rest.take(i) =~= later.take(i));
            assert(rest[i] == later[i]);
            assert(ready(run_all(later.take(i), t).1, later[i]));
        }
        assert forall|i: int| 0 <= i < rest.len() implies !writes_for(#[trigger] rest[i], txid) by {
            assert(rest[i] == later[i]);
        }
        law_lookups_after_later_writes(t, rest, txid, include_raw);
        assert(later.take(n) =~= rest);
        assert(ready(run_all(later.take(n), t).1, later[n]));
        assert(!writes_for(later[n], txid));
        law_other_writes_keep_lookups(run_all(rest, t).1, later.last(), txid, include_raw);
    }
}

/// Details recorded, then operations that write nothing on record for
/// their id: the lookup of the id finds the details recorded, as right
/// after they were recorded.
pub proof fn law_tx_lookup_after_last_write(
    t: Tables,
    details: DetailsView,
    transaction_txid: Seq<u8>,
    later: Seq<RequestView>,
    include_raw: bool,
)
    requires
        set_tx_ready(t, details, transaction_txid),
        details.transaction matches Some(raw) ==> is_transaction_encoding(raw),
        forall|i: int| 0 <= i < later.len() ==> !writes_for(#[trigger] later[i], details.txid),
        all_ready(later, run(RequestView::SetTx { details, transaction_txid }, t).1),
    ensures
        run(
            RequestView::GetTx { txid: details.txid, include_raw },
            run_all(later, run(RequestView::SetTx { details, transaction_txid }, t).1).1,
        ).0 == Ok::<OutputView, ErrorKind>(
            OutputView::Details(
                Some(
                    DetailsView {
                        transaction: if !include_raw {
                            None
                        } else {
                            encoding_after_set_tx(t, details, transaction_txid)
                        },
                        ..details
                    },
                ),
            ),
        ),
{
    law_tx_round_trip(t, details, transaction_txid, include_raw);
    law_lookups_after_later_writes(
        run(RequestView::SetTx { details, transaction_txid }, t).1,
        later,
        details.txid,
        include_raw,
    );
}

/// An encoded transaction recorded under an id, then operations that write
/// nothing on record for the id: the lookup of the id finds that
/// transaction, the last one recorded for it.
pub proof fn law_raw_tx_lookup_after_last_write(t: Tables, txid: Seq<u8>, raw: Seq<u8>, later: Seq<RequestView>)
    requires
        is_transaction_encoding(raw),
        encodings_valid_for(t, txid),
        forall|i: int| 0 <= i < later.len() ==> !writes_for(#[trigger] later[i], txid),
        all_ready(later, run(RequestView::SetRawTx { txid, transaction: raw }, t).1),
    ensures
        run(
            RequestView::GetRawTx { txid },
            run_all(later, run(RequestView::SetRawTx { txid, transaction: raw }, t).1).1,
        ).0 == Ok::<OutputView, ErrorKind>(OutputView::Transaction(Some(raw))),
{
    law_raw_tx_round_trip(t, txid, raw);
    law_lookups_after_later_writes(
        run(RequestView::SetRawTx { txid, transaction: raw }, t).1,
        later,
        txid,
        false,
    );
}

/// The lookup of details for an id with none on record finds nothing; what
/// it finds otherwise is for that id.
pub proof fn law_get_tx_answers_for_its_id(t: Tables, txid: Seq<u8>, include_raw: bool)
    ensures
        details_for(t.transaction_details, txid).len() == 0 ==> run(
            RequestView::GetTx { txid, include_raw },
            t,
        ).0 == Ok::<OutputView, ErrorKind>(OutputView::Details(None)),
        run(RequestView::GetTx { txid, include_raw }, t).0 matches Ok(OutputView::Details(Some(d)))
            ==> d.txid == txid,
{
    reveal_with_fuel(drive, 2);
    let kept = details_for(t.transaction_details, txid);
    let row = |d: DetailsRecord, raw: Option<Seq<u8>>|
        RowView::DetailsOfTxid {
            timestamp: d.timestamp,
            received: d.received,
            sent: d.sent,
            fee: d.fee,
            height: d.height,
            raw_tx: raw,
        };
    if kept.len() == 0 {
        assert(join_rows(kept, t.transactions, row) =~= Seq::<RowView>::empty());
    } else {
        lemma_join_first(kept, t.transactions, row);
    }
}

/// The answer of a write that succeeds.
pub open spec fn unit_answer() -> Result<OutputView, ErrorKind> {
    Ok(OutputView::Unit)
}

/// The operations that record each output of `us`, in order.
pub open spec fn set_utxos(us: Seq<UtxoView>) -> Seq<RequestView> {
    us.map_values(|u: UtxoView| RequestView::SetUtxo { utxo: u })
}

/// Recording outputs one after the other adds their rows after the others,
/// in order; each answers with success.
pub proof fn lemma_set_utxos(t: Tables, us: Seq<UtxoView>)
    ensures
        run_all(set_utxos(us), t).1 == (Tables {
            utxos: t.utxos + us.map_values(|u: UtxoView| utxo_record(u)),
            ..t
        }),
        run_all(set_utxos(us), t).0.len() == us.len(),
        forall|i: int| 0 <= i < us.len() ==> #[trigger] run_all(set_utxos(us), t).0[i] == unit_answer(),
    decreases us.len(),
{
    if us.len() > 0 {
        let rest = us.drop_last();
        lemma_set_utxos(t, rest);
        assert(set_utxos(us).drop_last() =~= set_utxos(rest));
        let mid = run_all(set_utxos(rest), t).1;
        law_set_utxo_appends(mid, us.last());
        assert(us.map_values(|u: UtxoView| utxo_record(u)) =~= rest.map_values(|u: UtxoView| utxo_record(u)).push(
            utxo_record(us.last()),
        ));
        assert(t.utxos + us.map_values(|u: UtxoView| utxo_record(u)) =~= (t.utxos + rest.map_values(
            |u: UtxoView| utxo_record(u),
        )).push(utxo_record(us.last())));
    } else {
        assert(t.utxos + us.map_values(|u: UtxoView| utxo_record(u)) =~= t.utxos);
    }
}

/// Outputs recorded one after the other, each with a transaction id of 32
/// bytes, onto a store whose outputs read back: each recording succeeds,
/// and the listing of outputs is the earlier listing followed by them, in
/// the order recorded.  From a new store, the listing is exactly them.
pub proof fn law_iter_utxos_after_sets(t: Tables, us: Seq<UtxoView>)
    requires
        forall|i: int| 0 <= i < t.utxos.len() ==> utxo_record_reads(#[trigger] t.utxos[i]),
        forall|i: int| 0 <= i < us.len() ==> (#[trigger] us[i]).txid.len() == 32,
    ensures
        forall|i: int| 0 <= i < us.len() ==> #[trigger] run_all(set_utxos(us), t).0[i] == unit_answer(),
        run(RequestView::IterUtxos, run_all(set_utxos(us), t).1).0 == Ok::<OutputView, ErrorKind>(
            OutputView::Utxos(t.utxos.map_values(|u: UtxoRecord| utxo_of_record(u)) + us),
        ),
{
    lemma_set_utxos(t, us);
    let after = run_all(set_utxos(us), t).1;
    let n = t.utxos.len();
    assert forall|i: int| 0 <= i < after.utxos.len() implies utxo_record_reads(#[trigger] after.utxos[i]) by {
        if i >= n {
            lemma_keychain_round_trip(us[i - n].keychain);
        }
    }
    law_iter_utxos(after);
    assert forall|i: int| 0 <= i < us.len() implies utxo_of_record(utxo_record(#[trigger] us[i])) == us[i] by {
        lemma_keychain_round_trip(us[i].keychain);
    }
    assert(after.utxos.map_values(|u: UtxoRecord| utxo_of_record(u)) =~= t.utxos.map_values(
        |u: UtxoRecord| utxo_of_record(u),
    ) + us);
}

/// The operations that record each set of details of `ds`, in order, each
/// with its transaction, if any, under the id of the details.
pub open spec fn set_txs(ds: Seq<DetailsView>) -> Seq<RequestView> {
    ds.map_values(|d: DetailsView| RequestView::SetTx { details: d, transaction_txid: d.txid })
}

/// Details that can be recorded and read back: an id of 32 bytes, and a
/// transaction, where they carry one, that decodes.
pub open spec fn details_well_formed(d: DetailsView) -> bool {
    &&& d.txid.len() == 32
    &&& d.transaction matches Some(raw) ==> is_transaction_encoding(raw)
}

/// No two sets of details of `ds` share an id.
pub open spec fn distinct_ids(ds: Seq<DetailsView>) -> bool {
    forall|i: int, j: int| 0 <= i < j < ds.len() ==> #[trigger] ds[i].txid != #[trigger] ds[j].txid
}

/// What recording details of distinct ids one after the other onto a new
/// store leaves: their rows, in order, and for each id the transaction its
/// details carried, if any, and no other encoding.
pub proof fn lemma_set_txs(ds: Seq<DetailsView>)
    requires
        forall|i: int| 0 <= i < ds.len() ==> details_well_formed(#[trigger] ds[i]),
        distinct_ids(ds),
    ensures
        ({
            let (answers, after) = run_all(set_txs(ds), empty_tables());
            &&& answers.len() == ds.len()
            &&& forall|i: int| 0 <= i < ds.len() ==> #[trigger] answers[i] == unit_answer()
            &&& after.transaction_details == ds.map_values(|d: DetailsView| details_record(d))
            &&& forall|i: int| 0 <= i < after.transactions.len() ==> is_transaction_encoding(
                #[trigger] after.transactions[i].raw_tx,
            )
            &&& transaction_ids_unique(after.transactions)
            &&& forall|i: int| 0 <= i < after.transactions.len() ==> exists|j: int|
                0 <= j < ds.len() && ds[j].txid == #[trigger] after.transactions[i].txid
            &&& forall|j: int| 0 <= j < ds.len() ==> first_encoding(after.transactions, #[trigger] ds[j].txid)
                == ds[j].transaction
        }),
    decreases ds.len(),
{
    if ds.len() > 0 {
        let rest = ds.drop_last();
        let n = rest.len() as int;
        assert forall|i: int| 0 <= i < rest.len() implies details_well_formed(#[trigger] rest[i]) by {
            assert(rest[i] == ds[i]);
        }
        lemma_set_txs(rest);
        assert(set_txs(ds).drop_last() =~= set_txs(rest));
        let mid = run_all(set_txs(rest), empty_tables()).1;
        let d = ds.last();
        assert(d == ds[n]);
        assert forall|j: int| 0 <= j < rest.len() implies #[trigger] rest[j].txid != d.txid by {
            assert(rest[j] == ds[j]);
        }
        let rec = details_record(d);
        assert forall|i: int| 0 <= i < mid.transaction_details.len() implies #[trigger] mid.transaction_details[i].txid
            != rec.txid by {
            assert(mid.transaction_details[i] == details_record(rest[i]));
        }
        assert(set_tx_ready(mid, d, d.txid));
        lemma_set_tx(mid, d, d.txid);
        let after = run(RequestView::SetTx { details: d, transaction_txid: d.txid }, mid).1;
        assert(after.transaction_details =~= ds.map_values(|x: DetailsView| details_record(x)));
        assert forall|i: int| 0 <= i < mid.transactions.len() implies #[trigger] mid.transactions[i].txid != d.txid by {
            let j = choose|j: int| 0 <= j < rest.len() && rest[j].txid == mid.transactions[i].txid;
        }
        match d.transaction {
            Some(raw) => {
                assert(after.transactions == mid.transactions.push(TransactionRecord { txid: d.txid, raw_tx: raw }));
                lemma_first_encoding_only(after.transactions, d.txid, raw);
                lemma_transactions_after_set_unique(mid.transactions, d.txid, raw);
                assert forall|j: int| 0 <= j < ds.len() implies first_encoding(after.transactions, #[trigger] ds[j].txid)
                    == ds[j].transaction by {
                    if j < n {
                        assert(rest[j] == ds[j]);
                        lemma_first_encoding_other(mid, d.txid, raw, ds[j].txid);
                    }
                }
                assert forall|i: int| 0 <= i < after.transactions.len() implies exists|j: int|
                    0 <= j < ds.len() && ds[j].txid == #[trigger] after.transactions[i].txid by {
                    if i < mid.transactions.len() {
                        let j = choose|j: int| 0 <= j < rest.len() && rest[j].txid == mid.transactions[i].txid;
                        assert(ds[j] == rest[j]);
                    } else {
                        assert(ds[n].txid == after.transactions[i].txid);
                    }
                }
            },
            None => {
                let pick = |x: TransactionRecord| if x.txid == d.txid {
                    Some(x.raw_tx)
                } else {
                    None
                };
                lemma_filter_map_none(mid.transactions, pick);
                assert forall|j: int| 0 <= j < ds.len() implies first_encoding(after.transactions, #[trigger] ds[j].txid)
                    == ds[j].transaction by {
                    if j < n {
                        assert(rest[j] == ds[j]);
                    }
                }
                assert forall|i: int| 0 <= i < after.transactions.len() implies exists|j: int|
                    0 <= j < ds.len() && ds[j].txid == #[trigger] after.transactions[i].txid by {
                    let j = choose|j: int| 0 <= j < rest.len() && rest[j].txid == mid.transactions[i].txid;
                    assert(ds[j] == rest[j]);
                }
            },
        }
    } else {
        assert(ds.map_values(|d: DetailsView| details_record(d)) =~= Seq::<DetailsRecord>::empty());
    }
}

/// Details of distinct ids recorded one after the other onto a new store,
/// each with its transaction, if any, under its id: each recording
/// succeeds; the listing without transactions gives them in the order
/// recorded, each without its transaction, and the listing with
/// transactions gives them exactly as recorded.
pub proof fn law_iter_txs_after_sets(ds: Seq<DetailsView>)
    requires
        forall|i: int| 0 <= i < ds.len() ==> details_well_formed(#[trigger] ds[i]),
        distinct_ids(ds),
    ensures
        forall|i: int| 0 <= i < ds.len() ==> #[trigger] run_all(set_txs(ds), empty_tables()).0[i]
            == unit_answer(),
        run(RequestView::IterTxs { include_raw: false }, run_all(set_txs(ds), empty_tables()).1).0
            == Ok::<OutputView, ErrorKind>(
            OutputView::DetailsList(ds.map_values(|d: DetailsView| DetailsView { transaction: None, ..d })),
        ),
        run(RequestView::IterTxs { include_raw: true }, run_all(set_txs(ds), empty_tables()).1).0
            == Ok::<OutputView, ErrorKind>(OutputView::DetailsList(ds)),
{
    lemma_set_txs(ds);
    let after = run_all(set_txs(ds), empty_tables()).1;
    let recs = after.transaction_details;
    assert forall|i: int| 0 <= i < recs.len() implies (#[trigger] recs[i]).txid.len() == 32 by {
        assert(recs[i] == details_record(ds[i]));
    }
    law_iter_txs(after);
    law_iter_txs_with_raw(after);
    assert forall|i: int| 0 <= i < ds.len() implies confirmation_of(
        height_column((#[trigger] ds[i]).confirmation_time),
        timestamp_column(ds[i].confirmation_time),
    ) == ds[i].confirmation_time by {}
    assert(recs.map_values(|d: DetailsRecord| details_of_record(d, None)) =~= ds.map_values(
        |d: DetailsView| DetailsView { transaction: None, ..d },
    ));
    assert(recs.map_values(
        |d: DetailsRecord| details_of_record(d, first_encoding(after.transactions, d.txid)),
    ) =~= ds);
}

/// Every encoding on record decodes.
pub open spec fn all_encodings_valid(t: Tables) -> bool {
    forall|i: int| 0 <= i < t.transactions.len() ==> is_transaction_encoding(#[trigger] t.transactions[i].raw_tx)
}

/// Every set of details on record has an id of 32 bytes.
pub open spec fn details_ids_read(t: Tables) -> bool {
    forall|i: int| 0 <= i < t.transaction_details.len() ==> (#[trigger] t.transaction_details[i]).txid.len() == 32
}

/// Recording well formed details keeps every encoding decoding, every id
/// of details of 32 bytes, and every id to at most one set of details.
pub proof fn lemma_set_tx_keeps_store(t: Tables, d: DetailsView, transaction_txid: Seq<u8>)
    requires
        details_well_formed(d),
        all_encodings_valid(t),
        details_ids_read(t),
        details_ids_unique(t.transaction_details),
    ensures
        set_tx_ready(t, d, transaction_txid),
        all_encodings_valid(run(RequestView::SetTx { details: d, transaction_txid }, t).1),
        details_ids_read(run(RequestView::SetTx { details: d, transaction_txid }, t).1),
        details_ids_unique(run(RequestView::SetTx { details: d, transaction_txid }, t).1.transaction_details),
{
    lemma_set_tx(t, d, transaction_txid);
    law_set_tx_keeps_ids_unique(t, d, transaction_txid);
    let after = run(RequestView::SetTx { details: d, transaction_txid }, t).1;
    let rec = details_record(d);
    let ds = t.transaction_details;
    assert forall|i: int| 0 <= i < after.transaction_details.len() implies (
        #[trigger] after.transaction_details[i]).txid.len() == 32 by {
        if i < ds.len() {
            assert(after.transaction_details[i] == ds[i] || after.transaction_details[i] == rec);
        }
    }
    if let Some(raw) = d.transaction {
        let txs = t.transactions;
        assert forall|i: int| 0 <= i < after.transactions.len() implies is_transaction_encoding(
            #[trigger] after.transactions[i].raw_tx,
        ) by {
            if i < txs.len() {
                assert(after.transactions[i] == txs[i] || after.transactions[i].raw_tx == raw);
            }
        }
    }
}

/// `x` is in the listing `v`, and nothing else in it has the id of `x`.
pub open spec fn listed_once(v: Seq<DetailsView>, x: DetailsView) -> bool {
    exists|i: int|
        0 <= i < v.len() && #[trigger] v[i] == x && forall|j: int|
            0 <= j < v.len() && (#[trigger] v[j]).txid == x.txid ==> j == i
}

/// Details recorded twice for one id, onto a store where every id has at
/// most one set of details, all of which read back: the second recording
/// replaces the first, so the lookup of the id finds the second, and the
/// listing without transactions holds exactly one set of details for the
/// id, the second.
pub proof fn law_set_tx_twice(
    t: Tables,
    d1: DetailsView,
    tt1: Seq<u8>,
    d2: DetailsView,
    tt2: Seq<u8>,
)
    requires
        d1.txid == d2.txid,
        details_well_formed(d1),
        details_well_formed(d2),
        all_encodings_valid(t),
        details_ids_read(t),
        details_ids_unique(t.transaction_details),
    ensures
        ({
            let t1 = run(RequestView::SetTx { details: d1, transaction_txid: tt1 }, t).1;
            let t2 = run(RequestView::SetTx { details: d2, transaction_txid: tt2 }, t1).1;
            &&& run(RequestView::GetTx { txid: d2.txid, include_raw: false }, t2).0 == Ok::<
                OutputView,
                ErrorKind,
            >(OutputView::Details(Some(DetailsView { transaction: None, ..d2 })))
            &&& run(RequestView::IterTxs { include_raw: false }, t2).0 matches Ok(
                OutputView::DetailsList(v),
            ) && listed_once(v, DetailsView { transaction: None, ..d2 })
        }),
{
    lemma_set_tx_keeps_store(t, d1, tt1);
    let t1 = run(RequestView::SetTx { details: d1, transaction_txid: tt1 }, t).1;
    lemma_set_tx_keeps_store(t1, d2, tt2);
    law_set_tx_keeps_ids_unique(t1, d2, tt2);
    let t2 = run(RequestView::SetTx { details: d2, transaction_txid: tt2 }, t1).1;
    law_tx_round_trip(t1, d2, tt2, false);
    law_iter_txs(t2);
    let rec = details_record(d2);
    let recs = t2.transaction_details;
    let v = recs.map_values(|d: DetailsRecord| details_of_record(d, None));
    let i = choose|i: int| 0 <= i < recs.len() && #[trigger] recs[i] == rec;
    assert(confirmation_of(rec.height, rec.timestamp) == d2.confirmation_time);
    assert(v[i] == (DetailsView { transaction: None, ..d2 }));
    assert forall|j: int| 0 <= j < v.len() && (#[trigger] v[j]).txid == d2.txid implies j == i by {
        if j != i {
            assert(recs[j].txid != recs[i].txid);
        }
    }
    assert(listed_once(v, DetailsView { transaction: None, ..d2 }));
    assert(run(RequestView::IterTxs { include_raw: false }, t2).0 == Ok::<OutputView, ErrorKind>(
        OutputView::DetailsList(v),
    ));
    assert(run(RequestView::GetTx { txid: d2.txid, include_raw: false }, t2).0 == Ok::<
        OutputView,
        ErrorKind,
    >(OutputView::Details(Some(DetailsView { transaction: None, ..d2 }))));
}

/// Any operations, run one after the other onto a store where no two
/// encodings share an id, keep every id to at most one encoding; so the
/// listing of encoded transactions, where they decode, gives each id once.
pub proof fn law_raw_txs_listed_once(t: Tables, reqs: Seq<RequestView>)
    requires
        transaction_ids_unique(t.transactions),
    ensures
        transaction_ids_unique(run_all(reqs, t).1.transactions),
        all_encodings_valid(run_all(reqs, t).1) ==> run(RequestView::IterRawTxs, run_all(reqs, t).1).0
            == Ok::<OutputView, ErrorKind>(
            OutputView::Transactions(
                run_all(reqs, t).1.transactions.map_values(|x: TransactionRecord| x.raw_tx),
            ),
        ),
    decreases reqs.len(),
{
    if reqs.len() > 0 {
        law_raw_txs_listed_once(t, reqs.drop_last());
        law_transaction_ids_stay_unique(run_all(reqs.drop_last(), t).1, reqs.last());
    }
    if all_encodings_valid(run_all(reqs, t).1) {
        law_iter_raw_txs(run_all(reqs, t).1);
    }
}

} // verus!
