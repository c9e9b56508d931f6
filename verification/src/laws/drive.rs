//! Running operations against the tables, and facts about picking rows.
use vstd::prelude::*;
use crate::error::ErrorKind;
use crate::model::{apply, delete_where, empty_tables, Tables};
use crate::protocol::{begin_spec, read_rows, resume_spec, ActionView, OperationView};
use crate::rows::RowView;
use crate::request::{OutputView, RequestView};
use crate::types::KeychainKind;

verus! {

/// Carries out the steps of an operation, from `step` on, against tables
/// `t`: each statement changes the tables and replies as `apply` says.  At
/// most `fuel` statements run.  The answer and the tables it leaves.
pub open spec fn drive(step: (OperationView, ActionView), t: Tables, fuel: nat) -> (
    Result<OutputView, ErrorKind>,
    Tables,
)
    decreases fuel,
{
    match step.1 {
        ActionView::Finish(r) => (r, t),
        ActionView::Execute(s) => if fuel == 0 {
            (Err(ErrorKind::UnexpectedReply), t)
        } else {
            drive(resume_spec(step.0, apply(t, s).1), apply(t, s).0, (fuel - 1) as nat)
        },
        ActionView::QueryFirst(s) => if fuel == 0 {
            (Err(ErrorKind::UnexpectedReply), t)
        } else {
            drive(resume_spec(step.0, apply(t, s).1), apply(t, s).0, (fuel - 1) as nat)
        },
        ActionView::QueryAll(s) => if fuel == 0 {
            (Err(ErrorKind::UnexpectedReply), t)
        } else {
            drive(resume_spec(step.0, apply(t, s).1), apply(t, s).0, (fuel - 1) as nat)
        },
    }
}

/// The answer of an operation run against tables `t`, and the tables it
/// leaves.  No operation issues more than four statements.
pub open spec fn run(req: RequestView, t: Tables) -> (Result<OutputView, ErrorKind>, Tables) {
    drive(begin_spec(req), t, 4)
}

/// Runs operations in order against tables `t`: their answers, in order,
/// and the tables they leave.
pub open spec fn run_all(reqs: Seq<RequestView>, t: Tables) -> (Seq<Result<OutputView, ErrorKind>>, Tables)
    decreases reqs.len(),
{
    if reqs.len() == 0 {
        (Seq::empty(), t)
    } else {
        let (answers, t1) = run_all(reqs.drop_last(), t);
        let (a, t2) = run(reqs.last(), t1);
        (answers.push(a), t2)
    }
}

/// Running operations one more at the end.
pub proof fn lemma_run_all_push(reqs: Seq<RequestView>, req: RequestView, t: Tables)
    ensures
        run_all(reqs.push(req), t) == (
            run_all(reqs, t).0.push(run(req, run_all(reqs, t).1).0),
            run(req, run_all(reqs, t).1).1,
        ),
{
    assert(reqs.push(req).drop_last() =~= reqs);
}

// ---------------------------------------------------------------------
// Facts about selecting rows.

/// Where `f` picks nothing, nothing is picked.
pub proof fn lemma_filter_map_none<A, B>(s: Seq<A>, f: spec_fn(A) -> Option<B>)
    requires
        forall|i: int| 0 <= i < s.len() ==> f(#[trigger] s[i]) is None,
    ensures
        s.filter_map(f) == Seq::<B>::empty(),
    decreases s.len(),
{
    if s.len() > 0 {
        lemma_filter_map_none(s.drop_last(), f);
    }
}

/// Picking from a sequence with one more element.
pub proof fn lemma_filter_map_push<A, B>(s: Seq<A>, x: A, f: spec_fn(A) -> Option<B>)
    ensures
        s.push(x).filter_map(f) == match f(x) {
            Some(y) => s.filter_map(f) + seq![y],
            None => s.filter_map(f),
        },
{
    assert(s.push(x).drop_last() =~= s);
}

/// Everything picked is picked from some element.
pub proof fn lemma_filter_map_from<A, B>(s: Seq<A>, f: spec_fn(A) -> Option<B>, j: int)
    requires
        0 <= j < s.filter_map(f).len(),
    ensures
        exists|i: int| 0 <= i < s.len() && f(s[i]) == Some(#[trigger] s.filter_map(f)[j]),
    decreases s.len(),
{
    if s.len() > 0 {
        let rest = s.drop_last();
        if j < rest.filter_map(f).len() {
            lemma_filter_map_from(rest, f, j);
            let i = choose|i: int| 0 <= i < rest.len() && f(rest[i]) == Some(rest.filter_map(f)[j]);
            assert(s[i] == rest[i]);
            assert(s.filter_map(f)[j] == rest.filter_map(f)[j]);
        } else {
            assert(f(s[s.len() - 1]) == Some(s.filter_map(f)[j]));
        }
    }
}

/// Where `f` picks something, something is picked.
pub proof fn lemma_filter_map_some<A, B>(s: Seq<A>, f: spec_fn(A) -> Option<B>, i: int)
    requires
        0 <= i < s.len(),
        f(s[i]) is Some,
    ensures
        s.filter_map(f).len() > 0,
    decreases s.len(),
{
    if i < s.len() - 1 {
        lemma_filter_map_some(s.drop_last(), f, i);
    }
}

/// Picking through `g`, where `g` is `f` followed by `h`, is picking
/// through `f`, then applying `h` to what was picked.
pub proof fn lemma_filter_map_then<A, B, C>(
    s: Seq<A>,
    f: spec_fn(A) -> Option<B>,
    h: spec_fn(B) -> C,
    g: spec_fn(A) -> Option<C>,
)
    requires
        forall|x: A| #[trigger] g(x) == match f(x) {
            Some(y) => Some(h(y)),
            None => None,
        },
    ensures
        s.filter_map(g) == s.filter_map(f).map_values(h),
    decreases s.len(),
{
    if s.len() > 0 {
        lemma_filter_map_then(s.drop_last(), f, h, g);
        assert(g(s.last()) == match f(s.last()) {
            Some(y) => Some(h(y)),
            None => None,
        });
    }
    assert(s.filter_map(g) =~= s.filter_map(f).map_values(h));
}

/// Picking from elements each changed by `m`, where `f` picks the same from
/// a changed element as from the element, picks what `f` picks.
pub proof fn lemma_filter_map_after_map<A, B>(s: Seq<A>, m: spec_fn(A) -> A, f: spec_fn(A) -> Option<B>)
    requires
        forall|x: A| #[trigger] f(m(x)) == f(x),
    ensures
        s.map_values(m).filter_map(f) == s.filter_map(f),
    decreases s.len(),
{
    if s.len() > 0 {
        lemma_filter_map_after_map(s.drop_last(), m, f);
        assert(s.map_values(m).drop_last() =~= s.drop_last().map_values(m));
        assert(f(m(s.last())) == f(s.last()));
    }
    assert(s.map_values(m).filter_map(f) =~= s.filter_map(f));
}

/// Picking after forgetting rows that `f` would not pick anyway picks what
/// picking from every row does.
pub proof fn lemma_filter_map_after_delete<A, B>(s: Seq<A>, gone: spec_fn(A) -> bool, f: spec_fn(A) -> Option<B>)
    requires
        forall|x: A| gone(x) ==> (#[trigger] f(x)) is None,
    ensures
        delete_where(s, gone).filter_map(f) == s.filter_map(f),
    decreases s.len(),
{
    if s.len() > 0 {
        let g = |r: A| if gone(r) {
            None
        } else {
            Some(r)
        };
        lemma_filter_map_after_delete(s.drop_last(), gone, f);
        let x = s.last();
        if !gone(x) {
            lemma_filter_map_push(delete_where(s.drop_last(), gone), x, f);
            assert(delete_where(s, gone) == delete_where(s.drop_last(), gone).push(x));
        } else {
            assert(f(x) is None);
        }
    }
}

/// Picking every element, each made into a row, gives the rows of every
/// element in order.
pub proof fn lemma_filter_map_all<A, B>(s: Seq<A>, row: spec_fn(A) -> B)
    ensures
        s.filter_map(|x: A| Some(row(x))) == s.map_values(row),
    decreases s.len(),
{
    if s.len() > 0 {
        lemma_filter_map_all(s.drop_last(), row);
    }
    assert(s.filter_map(|x: A| Some(row(x))) =~= s.map_values(row));
}

/// Where `f` picks at most one element, at most one is picked.
pub proof fn lemma_filter_map_at_most_one<A, B>(s: Seq<A>, f: spec_fn(A) -> Option<B>)
    requires
        forall|i: int, j: int|
            0 <= i < j < s.len() && (#[trigger] f(s[i])) is Some ==> (#[trigger] f(s[j])) is None,
    ensures
        s.filter_map(f).len() <= 1,
    decreases s.len(),
{
    if s.len() > 0 {
        let rest = s.drop_last();
        assert forall|i: int, j: int|
            0 <= i < j < rest.len() && (#[trigger] f(rest[i])) is Some implies (#[trigger] f(rest[j])) is None by {
            assert(rest[i] == s[i] && rest[j] == s[j]);
        }
        lemma_filter_map_at_most_one(rest, f);
        if f(s.last()) is Some {
            assert forall|i: int| 0 <= i < rest.len() implies f(#[trigger] rest[i]) is None by {
                assert(rest[i] == s[i]);
                assert(f(s[i]) is Some ==> f(s[s.len() - 1]) is None);
            }
            lemma_filter_map_none(rest, f);
        }
    }
}

/// Forgetting rows keeps the others in order, so no two rows left share a
/// key where no two rows did.
pub proof fn lemma_delete_where_keys_unique<A, K>(s: Seq<A>, gone: spec_fn(A) -> bool, key: spec_fn(A) -> K)
    requires
        forall|i: int, j: int| 0 <= i < j < s.len() ==> #[trigger] key(s[i]) != #[trigger] key(s[j]),
    ensures
        forall|i: int, j: int|
            0 <= i < j < delete_where(s, gone).len() ==> #[trigger] key(delete_where(s, gone)[i])
                != #[trigger] key(delete_where(s, gone)[j]),
    decreases s.len(),
{
    if s.len() > 0 {
        let rest = s.drop_last();
        let g = |r: A| if gone(r) {
            None
        } else {
            Some(r)
        };
        assert forall|i: int, j: int| 0 <= i < j < rest.len() implies #[trigger] key(rest[i])
            != #[trigger] key(rest[j]) by {
            assert(rest[i] == s[i] && rest[j] == s[j]);
        }
        lemma_delete_where_keys_unique(rest, gone, key);
        let kr = delete_where(rest, gone);
        let k = delete_where(s, gone);
        if !gone(s.last()) {
            assert(k == kr + seq![s.last()]);
            assert forall|i: int| 0 <= i < kr.len() implies key(#[trigger] kr[i]) != key(s.last()) by {
                lemma_filter_map_from(rest, g, i);
                let m = choose|m: int| 0 <= m < rest.len() && g(rest[m]) == Some(kr[i]);
                assert(rest[m] == s[m]);
                assert(key(s[m]) != key(s[s.len() - 1]));
            }
            assert forall|i: int, j: int| 0 <= i < j < k.len() implies #[trigger] key(k[i])
                != #[trigger] key(k[j]) by {
                assert(k[i] == kr[i]);
                if j < kr.len() {
                    assert(k[j] == kr[j]);
                } else {
                    assert(k[j] == s.last());
                }
            }
        } else {
            assert(k == kr);
        }
    }
}

/// A flush answers with nothing and changes nothing.
pub proof fn law_flush(t: Tables)
    ensures
        run(RequestView::Flush, t) == (Ok::<OutputView, ErrorKind>(OutputView::Unit), t),
{
}

/// Rows of which none is forgotten leave nothing to forget.
pub proof fn lemma_delete_where_none<A>(s: Seq<A>, gone: spec_fn(A) -> bool)
    requires
        forall|i: int| 0 <= i < s.len() ==> gone(#[trigger] s[i]),
    ensures
        delete_where(s, gone) == Seq::<A>::empty(),
{
    lemma_filter_map_none(s, |r: A| if gone(r) { None } else { Some(r) });
}

/// After the rows for which `gone` holds are forgotten, `f` picks nothing
/// where it picks only such rows.
pub proof fn lemma_pick_after_delete<A, B>(s: Seq<A>, gone: spec_fn(A) -> bool, f: spec_fn(A) -> Option<B>)
    requires
        forall|x: A| #[trigger] f(x) is Some ==> gone(x),
    ensures
        delete_where(s, gone).filter_map(f) == Seq::<B>::empty(),
{
    let g = |r: A| if gone(r) { None } else { Some(r) };
    let kept = delete_where(s, gone);
    assert forall|j: int| 0 <= j < kept.len() implies f(#[trigger] kept[j]) is None by {
        lemma_filter_map_from(s, g, j);
    }
    lemma_filter_map_none(kept, f);
}

/// After the rows for which `gone` holds are forgotten, forgetting those
/// for which `gone2` holds forgets every row left where `gone2` holds of
/// every row for which `gone` does not.
pub proof fn lemma_delete_twice<A>(s: Seq<A>, gone: spec_fn(A) -> bool, gone2: spec_fn(A) -> bool)
    requires
        forall|x: A| !gone(x) ==> #[trigger] gone2(x),
    ensures
        delete_where(delete_where(s, gone), gone2) == Seq::<A>::empty(),
{
    let g = |r: A| if gone(r) { None } else { Some(r) };
    let kept = delete_where(s, gone);
    assert forall|j: int| 0 <= j < kept.len() implies gone2(#[trigger] kept[j]) by {
        lemma_filter_map_from(s, g, j);
    }
    lemma_delete_where_none(kept, gone2);
}

/// A new store has nothing on record: lookups find nothing and listings
/// are empty.
pub proof fn law_new_store_is_empty(keychain: KeychainKind, child: u32)
    ensures
        run(RequestView::GetScriptPubkeyFromPath { keychain, child }, empty_tables()).0 == Ok::<
            OutputView,
            ErrorKind,
        >(OutputView::Script(None)),
        run(RequestView::IterScriptPubkeys { keychain: None }, empty_tables()).0 == Ok::<
            OutputView,
            ErrorKind,
        >(OutputView::Scripts(Seq::empty())),
        run(RequestView::IterUtxos, empty_tables()).0 == Ok::<OutputView, ErrorKind>(
            OutputView::Utxos(Seq::empty()),
        ),
        run(RequestView::IterRawTxs, empty_tables()).0 == Ok::<OutputView, ErrorKind>(
            OutputView::Transactions(Seq::empty()),
        ),
        run(RequestView::IterTxs { include_raw: false }, empty_tables()).0 == Ok::<
            OutputView,
            ErrorKind,
        >(OutputView::DetailsList(Seq::empty())),
        run(RequestView::GetLastIndex { keychain }, empty_tables()).0 == Ok::<OutputView, ErrorKind>(
            OutputView::Index(None),
        ),
        run(RequestView::GetSyncTime, empty_tables()).0 == Ok::<OutputView, ErrorKind>(
            OutputView::SyncTime(None),
        ),
{
    reveal_with_fuel(drive, 2);
}

/// Rows made from every element of a table, each of which reads back,
/// read back as the table's elements, in order.
pub proof fn lemma_read_every_row<A, T>(
    s: Seq<A>,
    row: spec_fn(A) -> RowView,
    f: spec_fn(RowView) -> Result<T, ErrorKind>,
    g: spec_fn(A) -> T,
)
    requires
        forall|i: int| 0 <= i < s.len() ==> f(row(#[trigger] s[i])) == Ok::<T, ErrorKind>(g(s[i])),
    ensures
        read_rows(s.filter_map(|x: A| Some(row(x))), f) == Ok::<Seq<T>, ErrorKind>(s.map_values(g)),
    decreases s.len(),
{
    let pick = |x: A| Some(row(x));
    if s.len() > 0 {
        let rest = s.drop_last();
        assert forall|i: int| 0 <= i < rest.len() implies f(row(#[trigger] rest[i])) == Ok::<T, ErrorKind>(g(rest[i])) by {
            assert(rest[i] == s[i]);
        }
        lemma_read_every_row(rest, row, f, g);
        assert(s.filter_map(pick).drop_last() =~= rest.filter_map(pick));
        assert(f(row(s[s.len() - 1])) == Ok::<T, ErrorKind>(g(s[s.len() - 1])));
        assert(s.map_values(g) =~= rest.map_values(g).push(g(s.last())));
    } else {
        assert(s.map_values(g) =~= Seq::<T>::empty());
    }
}

} // verus!
