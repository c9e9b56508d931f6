//! Laws of the outputs of the wallet.
use vstd::prelude::*;
use crate::codec::{keychain_from_text, keychain_text, lemma_keychain_round_trip};
use crate::error::ErrorKind;
use crate::model::{Tables, UtxoRecord};
use crate::request::{OutPointView, OutputView, RequestView};
use crate::rows::{utxo_of_row, RowView};
use crate::types::{KeychainKind, UtxoView};
use crate::laws::drive::{
    lemma_read_every_row,
    drive, lemma_filter_map_none, lemma_filter_map_push, lemma_pick_after_delete, run,
};

verus! {

/// No output is on record at the outpoint.
pub open spec fn no_utxo_at(t: Tables, txid: Seq<u8>, vout: u32) -> bool {
    forall|i: int| 0 <= i < t.utxos.len() ==> !(#[trigger] t.utxos[i].txid == txid && t.utxos[i].vout == vout)
}

/// An output recorded where none was is the output found at its outpoint.
pub proof fn law_utxo_round_trip(t: Tables, utxo: UtxoView)
    requires
        no_utxo_at(t, utxo.txid, utxo.vout),
        utxo.txid.len() == 32,
    ensures
        run(RequestView::SetUtxo { utxo }, t).0 == Ok::<OutputView, ErrorKind>(OutputView::Unit),
        run(
            RequestView::GetUtxo { outpoint: crate::request::OutPointView { txid: utxo.txid, vout: utxo.vout } },
            run(RequestView::SetUtxo { utxo }, t).1,
        ).0 == Ok::<OutputView, ErrorKind>(OutputView::Utxo(Some(utxo))),
{
    reveal_with_fuel(drive, 3);
    lemma_keychain_round_trip(utxo.keychain);
    let t2 = run(RequestView::SetUtxo { utxo }, t).1;
    let rec = UtxoRecord {
        value: utxo.value,
        keychain: keychain_text(utxo.keychain),
        vout: utxo.vout,
        txid: utxo.txid,
        script: utxo.script_pubkey,
        is_spent: utxo.is_spent,
    };
    assert(t2.utxos == t.utxos.push(rec));
    let f = |u: UtxoRecord| if u.txid == utxo.txid && u.vout == utxo.vout {
        Some(
            RowView::UtxoAt {
                value: u.value,
                keychain: u.keychain,
                script: u.script,
                is_spent: u.is_spent,
            },
        )
    } else {
        None
    };
    lemma_filter_map_none(t.utxos, f);
    lemma_filter_map_push(t.utxos, rec, f);
    assert(t2.utxos.filter_map(f) =~= seq![
        RowView::UtxoAt {
            value: utxo.value,
            keychain: keychain_text(utxo.keychain),
            script: utxo.script_pubkey,
            is_spent: utxo.is_spent,
        },
    ]);
}

/// Forgetting the output at an outpoint answers with what a lookup there
/// gives; afterwards the lookup finds nothing.
pub proof fn law_del_utxo(t: Tables, outpoint: OutPointView)
    ensures
        run(RequestView::DelUtxo { outpoint }, t).0 == run(RequestView::GetUtxo { outpoint }, t).0,
        run(RequestView::DelUtxo { outpoint }, t).0 is Ok ==> run(
            RequestView::GetUtxo { outpoint },
            run(RequestView::DelUtxo { outpoint }, t).1,
        ).0 == Ok::<OutputView, ErrorKind>(OutputView::Utxo(None)),
{
    reveal_with_fuel(drive, 3);
    lemma_pick_after_delete(
        t.utxos,
        |u: UtxoRecord| u.txid == outpoint.txid && u.vout == outpoint.vout,
        |u: UtxoRecord| if u.txid == outpoint.txid && u.vout == outpoint.vout {
            Some(
                RowView::UtxoAt {
                    value: u.value,
                    keychain: u.keychain,
                    script: u.script,
                    is_spent: u.is_spent,
                },
            )
        } else {
            None
        },
    );
}

/// An output on record reads back: its keychain text names a keychain and
/// its transaction id is 32 bytes.
pub open spec fn utxo_record_reads(u: UtxoRecord) -> bool {
    keychain_from_text(u.keychain) is Ok && u.txid.len() == 32
}

/// The output that a record on record reads back as.
pub open spec fn utxo_of_record(u: UtxoRecord) -> UtxoView {
    UtxoView {
        txid: u.txid,
        vout: u.vout,
        value: u.value,
        script_pubkey: u.script,
        keychain: match keychain_from_text(u.keychain) {
            Ok(k) => k,
            Err(_) => KeychainKind::External,
        },
        is_spent: u.is_spent,
    }
}

/// Listing outputs answers with every output on record, in the order they
/// were recorded, where each reads back.
pub proof fn law_iter_utxos(t: Tables)
    requires
        forall|i: int| 0 <= i < t.utxos.len() ==> utxo_record_reads(#[trigger] t.utxos[i]),
    ensures
        run(RequestView::IterUtxos, t).0 == Ok::<OutputView, ErrorKind>(
            OutputView::Utxos(t.utxos.map_values(|u: UtxoRecord| utxo_of_record(u))),
        ),
{
    reveal_with_fuel(drive, 2);
    let row = |u: UtxoRecord|
        RowView::Utxo {
            value: u.value,
            keychain: u.keychain,
            vout: u.vout,
            txid: u.txid,
            script: u.script,
            is_spent: u.is_spent,
        };
    assert((|u: UtxoRecord| Some(row(u))) =~= (|u: UtxoRecord|
        Some(
            RowView::Utxo {
                value: u.value,
                keychain: u.keychain,
                vout: u.vout,
                txid: u.txid,
                script: u.script,
                is_spent: u.is_spent,
            },
        )));
    lemma_read_every_row(t.utxos, row, |r: RowView| utxo_of_row(r), |u: UtxoRecord| utxo_of_record(u));
}

/// The row that records an output.
pub open spec fn utxo_record(utxo: UtxoView) -> UtxoRecord {
    UtxoRecord {
        value: utxo.value,
        keychain: keychain_text(utxo.keychain),
        vout: utxo.vout,
        txid: utxo.txid,
        script: utxo.script_pubkey,
        is_spent: utxo.is_spent,
    }
}

/// Recording an output adds it after the outputs on record and changes
/// nothing else; where every output then reads back, the listing of
/// outputs is the earlier listing with the output added last.
pub proof fn law_set_utxo_appends(t: Tables, utxo: UtxoView)
    ensures
        run(RequestView::SetUtxo { utxo }, t) == (
            Ok::<OutputView, ErrorKind>(OutputView::Unit),
            Tables { utxos: t.utxos.push(utxo_record(utxo)), ..t },
        ),
        utxo.txid.len() == 32 && (forall|i: int|
            0 <= i < t.utxos.len() ==> utxo_record_reads(#[trigger] t.utxos[i])) ==> run(
            RequestView::IterUtxos,
            run(RequestView::SetUtxo { utxo }, t).1,
        ).0 == Ok::<OutputView, ErrorKind>(
            OutputView::Utxos(t.utxos.map_values(|u: UtxoRecord| utxo_of_record(u)).push(utxo)),
        ),
{
    reveal_with_fuel(drive, 3);
    let rec = utxo_record(utxo);
    let after = Tables { utxos: t.utxos.push(rec), ..t };
    assert(run(RequestView::SetUtxo { utxo }, t).1 == after);
    if utxo.txid.len() == 32 && (forall|i: int| 0 <= i < t.utxos.len() ==> utxo_record_reads(#[trigger] t.utxos[i])) {
        lemma_keychain_round_trip(utxo.keychain);
        assert forall|i: int| 0 <= i < after.utxos.len() implies utxo_record_reads(#[trigger] after.utxos[i]) by {
            if i < t.utxos.len() {
                assert(after.utxos[i] == t.utxos[i]);
            }
        }
        law_iter_utxos(after);
        assert(after.utxos.map_values(|u: UtxoRecord| utxo_of_record(u)) =~= t.utxos.map_values(
            |u: UtxoRecord| utxo_of_record(u),
        ).push(utxo));
    }
}

} // verus!
