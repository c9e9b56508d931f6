//! Laws of the scripts of the wallet.
use vstd::prelude::*;
use crate::codec::{keychain_text, lemma_keychain_round_trip, lemma_keychain_text_injective};
use crate::error::ErrorKind;
use crate::model::{ScriptRecord, Tables};
use crate::protocol::read_rows;
use crate::request::{OutputView, RequestView};
use crate::rows::{script_of_row, RowView};
use crate::types::KeychainKind;
use crate::laws::drive::{
    drive, lemma_filter_map_none, lemma_filter_map_push, lemma_pick_after_delete, run,
};

verus! {

/// No script is on record at the path.
pub open spec fn no_script_at(t: Tables, keychain: KeychainKind, child: u32) -> bool {
    forall|i: int|
        0 <= i < t.script_pubkeys.len() ==> !(#[trigger] t.script_pubkeys[i].keychain
            == keychain_text(keychain) && t.script_pubkeys[i].child == child)
}

/// A script recorded at a path where none was is the script found there.
pub proof fn law_script_at_path_round_trip(t: Tables, script: Seq<u8>, keychain: KeychainKind, child: u32)
    requires
        no_script_at(t, keychain, child),
    ensures
        run(RequestView::SetScriptPubkey { script, keychain, child }, t).0 == Ok::<OutputView, ErrorKind>(OutputView::Unit),
        run(
            RequestView::GetScriptPubkeyFromPath { keychain, child },
            run(RequestView::SetScriptPubkey { script, keychain, child }, t).1,
        ).0 == Ok::<OutputView, ErrorKind>(OutputView::Script(Some(script))),
{
    reveal_with_fuel(drive, 3);
    let t2 = run(RequestView::SetScriptPubkey { script, keychain, child }, t).1;
    let rec = ScriptRecord { keychain: keychain_text(keychain), child, script };
    assert(t2.script_pubkeys == t.script_pubkeys.push(rec));
    let f = |r: ScriptRecord| if r.keychain == keychain_text(keychain) && r.child == child {
        Some(crate::rows::RowView::Script { script: r.script })
    } else {
        None
    };
    lemma_filter_map_none(t.script_pubkeys, f);
    lemma_filter_map_push(t.script_pubkeys, rec, f);
    assert(t2.script_pubkeys.filter_map(f) =~= seq![crate::rows::RowView::Script { script }]);
}

/// No script is on record as `script`.
pub open spec fn no_path_of(t: Tables, script: Seq<u8>) -> bool {
    forall|i: int| 0 <= i < t.script_pubkeys.len() ==> #[trigger] t.script_pubkeys[i].script != script
}

/// A script recorded where it was not on record has the path it was
/// recorded at.
pub proof fn law_path_of_script_round_trip(t: Tables, script: Seq<u8>, keychain: KeychainKind, child: u32)
    requires
        no_path_of(t, script),
    ensures
        run(
            RequestView::GetPathFromScriptPubkey { script },
            run(RequestView::SetScriptPubkey { script, keychain, child }, t).1,
        ).0 == Ok::<OutputView, ErrorKind>(OutputView::Path(Some((keychain, child)))),
{
    reveal_with_fuel(drive, 3);
    lemma_keychain_round_trip(keychain);
    let t2 = run(RequestView::SetScriptPubkey { script, keychain, child }, t).1;
    let rec = ScriptRecord { keychain: keychain_text(keychain), child, script };
    assert(t2.script_pubkeys == t.script_pubkeys.push(rec));
    let f = |r: ScriptRecord| if r.script == script {
        Some(RowView::Path { keychain: r.keychain, child: r.child })
    } else {
        None
    };
    lemma_filter_map_none(t.script_pubkeys, f);
    lemma_filter_map_push(t.script_pubkeys, rec, f);
    assert(t2.script_pubkeys.filter_map(f) =~= seq![RowView::Path { keychain: keychain_text(keychain), child }]);
}

/// Forgetting the script at a path answers with what a lookup there
/// gives; afterwards the lookup finds nothing.
pub proof fn law_del_script_pubkey_from_path(t: Tables, keychain: KeychainKind, child: u32)
    ensures
        run(RequestView::DelScriptPubkeyFromPath { keychain, child }, t).0 == run(
            RequestView::GetScriptPubkeyFromPath { keychain, child },
            t,
        ).0,
        run(RequestView::DelScriptPubkeyFromPath { keychain, child }, t).0 is Ok ==> run(
            RequestView::GetScriptPubkeyFromPath { keychain, child },
            run(RequestView::DelScriptPubkeyFromPath { keychain, child }, t).1,
        ).0 == Ok::<OutputView, ErrorKind>(OutputView::Script(None)),
{
    reveal_with_fuel(drive, 3);
    let k = keychain_text(keychain);
    lemma_pick_after_delete(
        t.script_pubkeys,
        |r: ScriptRecord| r.keychain == k && r.child == child,
        |r: ScriptRecord| if r.keychain == k && r.child == child {
            Some(RowView::Script { script: r.script })
        } else {
            None
        },
    );
}

/// Forgetting the path of a script answers with what a lookup of it
/// gives; afterwards the lookup finds nothing.
pub proof fn law_del_path_from_script_pubkey(t: Tables, script: Seq<u8>)
    ensures
        run(RequestView::DelPathFromScriptPubkey { script }, t).0 == run(
            RequestView::GetPathFromScriptPubkey { script },
            t,
        ).0,
        run(RequestView::DelPathFromScriptPubkey { script }, t).0 is Ok ==> run(
            RequestView::GetPathFromScriptPubkey { script },
            run(RequestView::DelPathFromScriptPubkey { script }, t).1,
        ).0 == Ok::<OutputView, ErrorKind>(OutputView::Path(None)),
{
    reveal_with_fuel(drive, 3);
    lemma_pick_after_delete(
        t.script_pubkeys,
        |r: ScriptRecord| r.script == script,
        |r: ScriptRecord| if r.script == script {
            Some(RowView::Path { keychain: r.keychain, child: r.child })
        } else {
            None
        },
    );
}

/// Every recorded script reads back, in order.
pub proof fn lemma_read_all_scripts(s: Seq<ScriptRecord>)
    ensures
        read_rows(
            s.filter_map(|r: ScriptRecord| Some(RowView::Script { script: r.script })),
            |x: RowView| script_of_row(x),
        ) == Ok::<Seq<Seq<u8>>, ErrorKind>(s.map_values(|r: ScriptRecord| r.script)),
    decreases s.len(),
{
    let f = |r: ScriptRecord| Some(RowView::Script { script: r.script });
    let rows = s.filter_map(f);
    if s.len() > 0 {
        lemma_read_all_scripts(s.drop_last());
        assert(rows.drop_last() =~= s.drop_last().filter_map(f));
        assert(s.map_values(|r: ScriptRecord| r.script) =~= s.drop_last().map_values(
            |r: ScriptRecord| r.script,
        ).push(s.last().script));
    } else {
        assert(s.map_values(|r: ScriptRecord| r.script) =~= Seq::<Seq<u8>>::empty());
    }
}

/// The recorded scripts of a keychain read back, in order.
pub proof fn lemma_read_scripts_of(s: Seq<ScriptRecord>, k: Seq<char>)
    ensures
        read_rows(
            s.filter_map(
                |r: ScriptRecord| if r.keychain == k {
                    Some(RowView::Script { script: r.script })
                } else {
                    None
                },
            ),
            |x: RowView| script_of_row(x),
        ) == Ok::<Seq<Seq<u8>>, ErrorKind>(
            s.filter_map(|r: ScriptRecord| if r.keychain == k { Some(r.script) } else { None }),
        ),
    decreases s.len(),
{
    let f = |r: ScriptRecord| if r.keychain == k {
        Some(RowView::Script { script: r.script })
    } else {
        None
    };
    let g = |r: ScriptRecord| if r.keychain == k { Some(r.script) } else { None };
    if s.len() > 0 {
        lemma_read_scripts_of(s.drop_last(), k);
        if s.last().keychain == k {
            assert(s.filter_map(f).drop_last() =~= s.drop_last().filter_map(f));
            assert(s.filter_map(g) =~= s.drop_last().filter_map(g).push(s.last().script));
        }
    }
}

/// Listing scripts answers with every recorded script, in the order they
/// were recorded, or with every recorded script of the keychain asked for.
pub proof fn law_iter_script_pubkeys(t: Tables, keychain: Option<KeychainKind>)
    ensures
        run(RequestView::IterScriptPubkeys { keychain }, t).0 == match keychain {
            None => Ok::<OutputView, ErrorKind>(
                OutputView::Scripts(t.script_pubkeys.map_values(|r: ScriptRecord| r.script)),
            ),
            Some(k) => Ok::<OutputView, ErrorKind>(
                OutputView::Scripts(
                    t.script_pubkeys.filter_map(
                        |r: ScriptRecord| if r.keychain == keychain_text(k) {
                            Some(r.script)
                        } else {
                            None
                        },
                    ),
                ),
            ),
        },
{
    reveal_with_fuel(drive, 2);
    match keychain {
        None => lemma_read_all_scripts(t.script_pubkeys),
        Some(k) => lemma_read_scripts_of(t.script_pubkeys, keychain_text(k)),
    }
}

/// Every script on record is of one of the two keychains.
pub open spec fn scripts_of_known_keychains(t: Tables) -> bool {
    forall|i: int|
        0 <= i < t.script_pubkeys.len() ==> (#[trigger] t.script_pubkeys[i]).keychain == keychain_text(
            KeychainKind::External,
        ) || t.script_pubkeys[i].keychain == keychain_text(KeychainKind::Internal)
}

/// The scripts of the two keychains together are every script, counted
/// with repeats, where every script is of one of them.
pub proof fn lemma_scripts_split(s: Seq<ScriptRecord>)
    requires
        forall|i: int|
            0 <= i < s.len() ==> (#[trigger] s[i]).keychain == keychain_text(KeychainKind::External)
                || s[i].keychain == keychain_text(KeychainKind::Internal),
    ensures
        s.map_values(|r: ScriptRecord| r.script).to_multiset() =~= s.filter_map(
            |r: ScriptRecord| if r.keychain == keychain_text(KeychainKind::External) {
                Some(r.script)
            } else {
                None
            },
        ).to_multiset().add(
            s.filter_map(
                |r: ScriptRecord| if r.keychain == keychain_text(KeychainKind::Internal) {
                    Some(r.script)
                } else {
                    None
                },
            ).to_multiset(),
        ),
    decreases s.len(),
{
    broadcast use vstd::seq_lib::group_to_multiset_ensures;

    lemma_keychain_text_injective(KeychainKind::External, KeychainKind::Internal);
    let sc = |r: ScriptRecord| r.script;
    if s.len() == 0 {
        assert(s.map_values(sc) =~= Seq::<Seq<u8>>::empty());
    } else {
        let rest = s.drop_last();
        assert forall|i: int| 0 <= i < rest.len() implies (#[trigger] rest[i]).keychain == keychain_text(
            KeychainKind::External,
        ) || rest[i].keychain == keychain_text(KeychainKind::Internal) by {
            assert(rest[i] == s[i]);
        }
        lemma_scripts_split(rest);
        let e = |r: ScriptRecord| if r.keychain == keychain_text(KeychainKind::External) {
            Some(r.script)
        } else {
            None
        };
        let n = |r: ScriptRecord| if r.keychain == keychain_text(KeychainKind::Internal) {
            Some(r.script)
        } else {
            None
        };
        let x = s.last().script;
        assert(s.last() == s[s.len() - 1]);
        assert(s.map_values(sc) =~= rest.map_values(sc).push(x));
        let a = rest.map_values(sc).to_multiset();
        let ea = rest.filter_map(e).to_multiset();
        let na = rest.filter_map(n).to_multiset();
        if s.last().keychain == keychain_text(KeychainKind::External) {
            assert(s.filter_map(e) == rest.filter_map(e).push(x));
            assert(s.filter_map(n) == rest.filter_map(n));
            assert(ea.insert(x).add(na) =~= ea.add(na).insert(x));
        } else {
            assert(s.filter_map(e) == rest.filter_map(e));
            assert(s.filter_map(n) == rest.filter_map(n).push(x));
            assert(ea.add(na.insert(x)) =~= ea.add(na).insert(x));
        }
    }
}

/// Listing scripts changes nothing; where every script on record is of one
/// of the two keychains, the listing of every script holds, counted with
/// repeats, exactly the scripts of the two keychains' listings together.
pub proof fn law_iter_script_pubkeys_by_keychain(t: Tables, keychain: Option<KeychainKind>)
    ensures
        run(RequestView::IterScriptPubkeys { keychain }, t).1 == t,
        scripts_of_known_keychains(t) ==> match (
            run(RequestView::IterScriptPubkeys { keychain: None }, t).0,
            run(RequestView::IterScriptPubkeys { keychain: Some(KeychainKind::External) }, t).0,
            run(RequestView::IterScriptPubkeys { keychain: Some(KeychainKind::Internal) }, t).0,
        ) {
            (Ok(OutputView::Scripts(all)), Ok(OutputView::Scripts(ext)), Ok(OutputView::Scripts(inner))) =>
                all.to_multiset() =~= ext.to_multiset().add(inner.to_multiset()),
            _ => false,
        },
{
    reveal_with_fuel(drive, 2);
    law_iter_script_pubkeys(t, None);
    law_iter_script_pubkeys(t, Some(KeychainKind::External));
    law_iter_script_pubkeys(t, Some(KeychainKind::Internal));
    if scripts_of_known_keychains(t) {
        lemma_scripts_split(t.script_pubkeys);
    }
}

} // verus!
