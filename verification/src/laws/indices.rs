//! Laws of derivation indices, the sync time and descriptor checksums.
use vstd::prelude::*;
use crate::codec::{keychain_text, lemma_keychain_text_injective};
use crate::error::ErrorKind;
use crate::model::{ChecksumRecord, Tables};
use crate::request::{OutputView, RequestView};
use crate::rows::RowView;
use crate::types::{KeychainKind, SyncTime};
use crate::laws::drive::{
    drive, lemma_filter_map_none, lemma_filter_map_push, lemma_filter_map_then, run,
};

verus! {

/// The last derivation index recorded for a keychain is the one found for
/// it.
pub proof fn law_last_index_round_trip(t: Tables, keychain: KeychainKind, value: u32)
    ensures
        run(RequestView::SetLastIndex { keychain, value }, t).0 == Ok::<OutputView, ErrorKind>(OutputView::Unit),
        run(
            RequestView::GetLastIndex { keychain },
            run(RequestView::SetLastIndex { keychain, value }, t).1,
        ).0 == Ok::<OutputView, ErrorKind>(OutputView::Index(Some(value))),
{
    reveal_with_fuel(drive, 3);
}

/// An increment answers with 0 for a keychain without an index and with
/// the index plus one otherwise, and records what it answers; at the
/// largest index it fails and changes nothing.
#[verifier::spinoff_prover]
#[verifier::rlimit(40)]
pub proof fn law_increment_last_index(t: Tables, keychain: KeychainKind)
    ensures
        ({
            let before = run(RequestView::GetLastIndex { keychain }, t).0;
            let (answer, after) = run(RequestView::IncrementLastIndex { keychain }, t);
            match before {
                Ok(OutputView::Index(None)) => answer == Ok::<OutputView, ErrorKind>(OutputView::NextIndex(0))
                    && run(RequestView::GetLastIndex { keychain }, after).0 == Ok::<OutputView, ErrorKind>(
                    OutputView::Index(Some(0)),
                ),
                Ok(OutputView::Index(Some(v))) => if v == u32::MAX {
                    answer == Err::<OutputView, ErrorKind>(ErrorKind::IndexOverflow) && after == t
                } else {
                    answer == Ok::<OutputView, ErrorKind>(OutputView::NextIndex((v + 1) as u32))
                        && run(RequestView::GetLastIndex { keychain }, after).0 == Ok::<
                        OutputView,
                        ErrorKind,
                    >(OutputView::Index(Some((v + 1) as u32)))
                },
                _ => false,
            }
        }),
        forall|other: KeychainKind|
            other != keychain ==> #[trigger] run(
                RequestView::GetLastIndex { keychain: other },
                run(RequestView::IncrementLastIndex { keychain }, t).1,
            ).0 == run(RequestView::GetLastIndex { keychain: other }, t).0,
{
    reveal_with_fuel(drive, 3);
    let k = keychain_text(keychain);
    assert forall|other: KeychainKind| other != keychain implies #[trigger] run(
        RequestView::GetLastIndex { keychain: other },
        run(RequestView::IncrementLastIndex { keychain }, t).1,
    ).0 == run(RequestView::GetLastIndex { keychain: other }, t).0 by {
        lemma_keychain_text_injective(other, keychain);
        let o = keychain_text(other);
        if t.last_derivation_indices.contains_key(o) {
            assert(seq![RowView::Index { value: t.last_derivation_indices[o] }][0] == RowView::Index {
                value: t.last_derivation_indices[o],
            });
        }
        if t.last_derivation_indices.contains_key(k) {
            assert(seq![RowView::Index { value: t.last_derivation_indices[k] }][0] == RowView::Index {
                value: t.last_derivation_indices[k],
            });
        }
    }
    if t.last_derivation_indices.contains_key(k) {
        assert(seq![RowView::Index { value: t.last_derivation_indices[k] }][0] == RowView::Index {
            value: t.last_derivation_indices[k],
        });
    }
}

/// The sync time recorded is the one found.
pub proof fn law_sync_time_round_trip(t: Tables, sync_time: SyncTime)
    ensures
        run(RequestView::SetSyncTime { sync_time }, t).0 == Ok::<OutputView, ErrorKind>(OutputView::Unit),
        run(RequestView::GetSyncTime, run(RequestView::SetSyncTime { sync_time }, t).1).0 == Ok::<
            OutputView,
            ErrorKind,
        >(OutputView::SyncTime(Some(sync_time))),
{
    reveal_with_fuel(drive, 3);
}

/// No checksum is on record for the keychain.
pub open spec fn no_checksum_for(t: Tables, keychain: KeychainKind) -> bool {
    forall|i: int| 0 <= i < t.checksums.len() ==> #[trigger] t.checksums[i].keychain != keychain_text(keychain)
}

/// The first checksum on record for a keychain, if there is one.
pub open spec fn recorded_checksum(t: Tables, keychain: KeychainKind) -> Option<Seq<u8>> {
    let found = t.checksums.filter_map(
        |c: ChecksumRecord| if c.keychain == keychain_text(keychain) {
            Some(c.checksum)
        } else {
            None
        },
    );
    if found.len() > 0 {
        Some(found[0])
    } else {
        None
    }
}

/// A checked checksum, where none is on record for the keychain, passes
/// and is recorded, and the tables change in nothing else; where one is on
/// record, the check passes if it is the same and fails with a mismatch
/// otherwise, and nothing changes: a recorded checksum is never replaced.
pub proof fn law_descriptor_checksum_checked(t: Tables, keychain: KeychainKind, bytes: Seq<u8>)
    ensures
        ({
            let (answer, after) = run(RequestView::CheckDescriptorChecksum { keychain, bytes }, t);
            match recorded_checksum(t, keychain) {
                None => answer == Ok::<OutputView, ErrorKind>(OutputView::Unit) && after == Tables {
                    checksums: t.checksums.push(ChecksumRecord { keychain: keychain_text(keychain), checksum: bytes }),
                    ..t
                } && recorded_checksum(after, keychain) == Some(bytes),
                Some(c) => after == t && answer == if c == bytes {
                    Ok::<OutputView, ErrorKind>(OutputView::Unit)
                } else {
                    Err::<OutputView, ErrorKind>(ErrorKind::ChecksumMismatch)
                },
            }
        }),
{
    reveal_with_fuel(drive, 3);
    let k = keychain_text(keychain);
    let pick = |c: ChecksumRecord| if c.keychain == k {
        Some(c.checksum)
    } else {
        None
    };
    let f = |c: ChecksumRecord| if c.keychain == k {
        Some(RowView::Checksum { checksum: c.checksum })
    } else {
        None
    };
    lemma_filter_map_then(t.checksums, pick, |b: Seq<u8>| RowView::Checksum { checksum: b }, f);
    let rec = ChecksumRecord { keychain: k, checksum: bytes };
    lemma_filter_map_push(t.checksums, rec, pick);
}

/// The first checksum checked for a keychain is recorded and passes; a
/// later check passes with the same checksum and fails with any other.
pub proof fn law_descriptor_checksum(t: Tables, keychain: KeychainKind, first: Seq<u8>, second: Seq<u8>)
    requires
        no_checksum_for(t, keychain),
    ensures
        run(RequestView::CheckDescriptorChecksum { keychain, bytes: first }, t).0 == Ok::<OutputView, ErrorKind>(OutputView::Unit),
        run(
            RequestView::CheckDescriptorChecksum { keychain, bytes: second },
            run(RequestView::CheckDescriptorChecksum { keychain, bytes: first }, t).1,
        ).0 == if second == first {
            Ok::<OutputView, ErrorKind>(OutputView::Unit)
        } else {
            Err::<OutputView, ErrorKind>(ErrorKind::ChecksumMismatch)
        },
{
    reveal_with_fuel(drive, 3);
    let k = keychain_text(keychain);
    let f = |c: ChecksumRecord| if c.keychain == k {
        Some(RowView::Checksum { checksum: c.checksum })
    } else {
        None
    };
    lemma_filter_map_none(t.checksums, f);
    let t2 = run(RequestView::CheckDescriptorChecksum { keychain, bytes: first }, t).1;
    let rec = ChecksumRecord { keychain: k, checksum: first };
    assert(t2.checksums == t.checksums.push(rec));
    lemma_filter_map_push(t.checksums, rec, f);
    assert(t2.checksums.filter_map(f) =~= seq![RowView::Checksum { checksum: first }]);
}

/// Forgetting the last derivation index of a keychain answers with what a
/// lookup of it gives; afterwards the lookup finds nothing.
pub proof fn law_del_last_index(t: Tables, keychain: KeychainKind)
    ensures
        run(RequestView::DelLastIndex { keychain }, t).0 == run(RequestView::GetLastIndex { keychain }, t).0,
        run(RequestView::DelLastIndex { keychain }, t).0 is Ok ==> run(
            RequestView::GetLastIndex { keychain },
            run(RequestView::DelLastIndex { keychain }, t).1,
        ).0 == Ok::<OutputView, ErrorKind>(OutputView::Index(None)),
{
    reveal_with_fuel(drive, 3);
}

/// Forgetting the sync time answers with what a lookup of it gives;
/// afterwards the lookup finds nothing.
pub proof fn law_del_sync_time(t: Tables)
    ensures
        run(RequestView::DelSyncTime, t).0 == run(RequestView::GetSyncTime, t).0,
        run(RequestView::DelSyncTime, t).0 is Ok ==> run(
            RequestView::GetSyncTime,
            run(RequestView::DelSyncTime, t).1,
        ).0 == Ok::<OutputView, ErrorKind>(OutputView::SyncTime(None)),
{
    reveal_with_fuel(drive, 3);
}

} // verus!
