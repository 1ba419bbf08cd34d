//! Properties of reconciliation that hold for every store and every snapshot.

use vstd::prelude::*;
use crate::objects::{AffiliationObject, LiverObject};
use crate::record::{LatestEq, Version};
use crate::engine::{Decision, Tally, tally_add};
use crate::table::{
    has_key, lemma_lookup_after_write, lookup, table_decision, unique_keys, write_rows,
};
use crate::store::{
    Received, Snapshot, Tables, db_batch, db_step, lemma_step_keeps_wf, same_content, same_key,
    snapshot_version, stored_for, tables_wf,
};

verus! {

/// Versions only grow: after a snapshot is reconciled, every row that was
/// stored before and is stored after keeps its version, except the row under
/// the snapshot's key when it was updated; that row then carries the
/// snapshot's version, which is greater than the one it replaced.
pub proof fn law_version_monotone<R: LatestEq>(
    rows: Seq<R>,
    s: R,
    delete: bool,
    now: i64,
    k: R::KeyView,
)
    requires
        unique_keys(rows),
        lookup(rows, k) is Some,
        lookup(write_rows(rows, s, table_decision(rows, s, delete), now), k) is Some,
    ensures
        ({
            let d = table_decision(rows, s, delete);
            let o = lookup(rows, k)->Some_0;
            let n = lookup(write_rows(rows, s, d, now), k)->Some_0;
            &&& n.version_of() >= o.version_of()
            &&& (d is Update && k == s.key()) ==> n == s && s.version_of() > o.version_of()
            &&& !(d is Update && k == s.key()) ==> n == o
        }),
{
    lemma_lookup_after_write(rows, s, delete, now, k);
}

/// Versions only grow, over the whole store: a row of any kind that is stored
/// before and after a successful reconciliation step is unchanged, or it is
/// the updated row, with the snapshot's greater version.
pub proof fn law_store_version_monotone(t: Tables, item: Received, now: i64, probe: Snapshot)
    requires
        tables_wf(t),
        db_step(t, item, now) is Ok,
        stored_for(t, probe) is Some,
        stored_for(db_step(t, item, now)->Ok_0.0, probe) is Some,
    ensures
        ({
            let (t2, d) = db_step(t, item, now)->Ok_0;
            let o = stored_for(t, probe)->Some_0;
            let n = stored_for(t2, probe)->Some_0;
            &&& snapshot_version(n) >= snapshot_version(o)
            &&& n != o ==> d is Update && same_key(item.snapshot, probe) && n == item.snapshot
                && snapshot_version(n) > snapshot_version(o)
        }),
{
    let del = item.delete;
    match (item.snapshot, probe) {
        (Snapshot::Affiliation(a), Snapshot::Affiliation(p)) => {
            law_version_monotone(t.affiliations, a, del, now, p.key());
        },
        (Snapshot::Liver(a), Snapshot::Liver(p)) => {
            law_version_monotone(t.livers, a, del, now, p.key());
        },
        (Snapshot::Channel(a), Snapshot::Channel(p)) => {
            law_version_monotone(t.channels, a, del, now, p.key());
        },
        (Snapshot::Video(a), Snapshot::Video(p)) => {
            law_version_monotone(t.videos, a, del, now, p.key());
        },
        _ => {},
    }
}

/// A row stays stored through a step unless the step is a tombstone for it.
pub proof fn lemma_present_stays(t: Tables, item: Received, now: i64, probe: Snapshot)
    requires
        tables_wf(t),
        db_step(t, item, now) is Ok,
        stored_for(t, probe) is Some,
        !(item.delete && same_key(item.snapshot, probe)),
    ensures
        stored_for(db_step(t, item, now)->Ok_0.0, probe) is Some,
{
    let del = item.delete;
    match (item.snapshot, probe) {
        (Snapshot::Affiliation(a), Snapshot::Affiliation(p)) => {
            lemma_lookup_after_write(t.affiliations, a, del, now, p.key());
        },
        (Snapshot::Liver(a), Snapshot::Liver(p)) => {
            lemma_lookup_after_write(t.livers, a, del, now, p.key());
        },
        (Snapshot::Channel(a), Snapshot::Channel(p)) => {
            lemma_lookup_after_write(t.channels, a, del, now, p.key());
        },
        (Snapshot::Video(a), Snapshot::Video(p)) => {
            lemma_lookup_after_write(t.videos, a, del, now, p.key());
        },
        _ => {},
    }
}

pub proof fn lemma_batch_keeps_wf(t: Tables, items: Seq<Received>, now: i64)
    requires
        tables_wf(t),
        db_batch(t, items, now) is Ok,
    ensures
        tables_wf(db_batch(t, items, now)->Ok_0.0),
    decreases items.len(),
{
    if items.len() > 0 {
        lemma_batch_keeps_wf(t, items.drop_last(), now);
        let t1 = db_batch(t, items.drop_last(), now)->Ok_0.0;
        lemma_step_keeps_wf(t1, items.last(), now);
    }
}

/// Versions only grow over a whole batch: a row that is stored before a
/// successful batch, and for whose key the batch holds no tombstone, is
/// still stored afterwards, with a version at least as high as before.
pub proof fn law_batch_version_monotone(
    t: Tables,
    items: Seq<Received>,
    now: i64,
    probe: Snapshot,
)
    requires
        tables_wf(t),
        db_batch(t, items, now) is Ok,
        stored_for(t, probe) is Some,
        forall|i: int|
            0 <= i < items.len() ==> !(#[trigger] items[i].delete && same_key(
                items[i].snapshot,
                probe,
            )),
    ensures
        stored_for(db_batch(t, items, now)->Ok_0.0, probe) is Some,
        snapshot_version(stored_for(db_batch(t, items, now)->Ok_0.0, probe)->Some_0)
            >= snapshot_version(stored_for(t, probe)->Some_0),
    decreases items.len(),
{
    if items.len() > 0 {
        let prefix = items.drop_last();
        assert forall|i: int| 0 <= i < prefix.len() implies !(#[trigger] prefix[i].delete
            && same_key(prefix[i].snapshot, probe)) by {
            assert(prefix[i] == items[i]);
        }
        law_batch_version_monotone(t, prefix, now, probe);
        lemma_batch_keeps_wf(t, prefix, now);
        let t1 = db_batch(t, prefix, now)->Ok_0.0;
        assert(items.last() == items[items.len() - 1]);
        lemma_present_stays(t1, items.last(), now, probe);
        law_store_version_monotone(t1, items.last(), now, probe);
    }
}

/// The version stored under the key of `probe`, if a row is stored there.
pub open spec fn stored_version(t: Tables, probe: Snapshot) -> Option<int> {
    match stored_for(t, probe) {
        Some(s) => Some(snapshot_version(s) as int),
        None => None,
    }
}

/// The version that inserting `s` writes: its own, or the stamp `now` when
/// its own is irregular.
pub open spec fn inserted_version(s: Snapshot, now: i64) -> int {
    if snapshot_version(s) <= 1 {
        now as int
    } else {
        snapshot_version(s) as int
    }
}

/// The greatest version applied to the key of `probe` since its last
/// insertion, after `item` was reconciled with decision `d`; `prev` is that
/// greatest version before, or none when no row is stored.
pub open spec fn applied_step(
    prev: Option<int>,
    item: Received,
    d: Decision,
    now: i64,
    probe: Snapshot,
) -> Option<int> {
    if !same_key(item.snapshot, probe) {
        prev
    } else {
        match d {
            Decision::Insert => Some(inserted_version(item.snapshot, now)),
            Decision::Update => {
                let v = snapshot_version(item.snapshot) as int;
                Some(
                    match prev {
                        Some(p) => if v > p {
                            v
                        } else {
                            p
                        },
                        None => v,
                    },
                )
            },
            Decision::Delete => None,
            _ => prev,
        }
    }
}

/// The greatest version applied to the key of `probe` since its last
/// insertion, over the items of a batch reconciled from `t`, where `start`
/// is that greatest version before the batch.
pub open spec fn max_applied(
    start: Option<int>,
    t: Tables,
    items: Seq<Received>,
    now: i64,
    probe: Snapshot,
) -> Option<int>
    decreases items.len(),
{
    if items.len() == 0 {
        start
    } else {
        let prev = max_applied(start, t, items.drop_last(), now, probe);
        match db_batch(t, items.drop_last(), now) {
            Ok((t1, _)) => match db_step(t1, items.last(), now) {
                Ok((_, d)) => applied_step(prev, items.last(), d, now, probe),
                Err(_) => prev,
            },
            Err(_) => prev,
        }
    }
}

/// One call of batch ingestion: the batch and the stamp for irregular
/// inserts that the call was given.
pub struct IngestCall {
    pub items: Seq<Received>,
    pub now: i64,
}

/// The tables after a sequence of ingestion calls from `t`, when every call
/// succeeds; `Database::ingest` returns `Ok` exactly when its batch does.
pub open spec fn db_calls(t: Tables, calls: Seq<IngestCall>) -> Option<Tables>
    decreases calls.len(),
{
    if calls.len() == 0 {
        Some(t)
    } else {
        match db_calls(t, calls.drop_last()) {
            Some(t1) => match db_batch(t1, calls.last().items, calls.last().now) {
                Ok((t2, _)) => Some(t2),
                Err(_) => None,
            },
            None => None,
        }
    }
}

/// The greatest version applied to the key of `probe` since its last
/// insertion, over a whole sequence of ingestion calls from `t`, starting
/// from the version stored in `t`.
pub open spec fn max_applied_calls(t: Tables, calls: Seq<IngestCall>, probe: Snapshot) -> Option<
    int,
>
    decreases calls.len(),
{
    if calls.len() == 0 {
        stored_version(t, probe)
    } else {
        let prev = max_applied_calls(t, calls.drop_last(), probe);
        match db_calls(t, calls.drop_last()) {
            Some(t1) => max_applied(prev, t1, calls.last().items, calls.last().now, probe),
            None => prev,
        }
    }
}

pub proof fn lemma_step_stored_version(t: Tables, item: Received, now: i64, probe: Snapshot)
    requires
        tables_wf(t),
        db_step(t, item, now) is Ok,
    ensures
        ({
            let (t2, d) = db_step(t, item, now)->Ok_0;
            stored_version(t2, probe) == applied_step(stored_version(t, probe), item, d, now, probe)
        }),
{
    let del = item.delete;
    match (item.snapshot, probe) {
        (Snapshot::Affiliation(a), Snapshot::Affiliation(p)) => {
            lemma_lookup_after_write(t.affiliations, a, del, now, p.key());
            a.lemma_stamped(now);
        },
        (Snapshot::Liver(a), Snapshot::Liver(p)) => {
            lemma_lookup_after_write(t.livers, a, del, now, p.key());
            a.lemma_stamped(now);
        },
        (Snapshot::Channel(a), Snapshot::Channel(p)) => {
            lemma_lookup_after_write(t.channels, a, del, now, p.key());
            a.lemma_stamped(now);
        },
        (Snapshot::Video(a), Snapshot::Video(p)) => {
            lemma_lookup_after_write(t.videos, a, del, now, p.key());
            a.lemma_stamped(now);
        },
        _ => {},
    }
}

/// The stored version is the greatest version applied since insertion: after
/// a successful batch, the version stored under any key is the greatest
/// version that an insert (with its stamp, when irregular) or an update
/// applied to that key since its last insertion, counting the version stored
/// before the batch; no row is stored when the last write was a delete.
pub proof fn law_version_is_max_applied(t: Tables, items: Seq<Received>, now: i64, probe: Snapshot)
    requires
        tables_wf(t),
        db_batch(t, items, now) is Ok,
    ensures
        stored_version(db_batch(t, items, now)->Ok_0.0, probe) == max_applied(
            stored_version(t, probe),
            t,
            items,
            now,
            probe,
        ),
    decreases items.len(),
{
    if items.len() > 0 {
        let prefix = items.drop_last();
        law_version_is_max_applied(t, prefix, now, probe);
        lemma_batch_keeps_wf(t, prefix, now);
        let t1 = db_batch(t, prefix, now)->Ok_0.0;
        lemma_step_stored_version(t1, items.last(), now, probe);
    }
}

pub proof fn lemma_calls_keep_wf(t: Tables, calls: Seq<IngestCall>)
    requires
        tables_wf(t),
        db_calls(t, calls) is Some,
    ensures
        tables_wf(db_calls(t, calls)->Some_0),
    decreases calls.len(),
{
    if calls.len() > 0 {
        lemma_calls_keep_wf(t, calls.drop_last());
        let t1 = db_calls(t, calls.drop_last())->Some_0;
        lemma_batch_keeps_wf(t1, calls.last().items, calls.last().now);
    }
}

/// Over any sequence of successful ingestion calls, the version stored under
/// any key is the greatest version applied to it since its last insertion
/// by any of those calls (an irregular insert counting with its stamp);
/// from an empty store, that covers every snapshot ever applied to the key.
pub proof fn law_calls_version_is_max_applied(t: Tables, calls: Seq<IngestCall>, probe: Snapshot)
    requires
        tables_wf(t),
        db_calls(t, calls) is Some,
    ensures
        stored_version(db_calls(t, calls)->Some_0, probe) == max_applied_calls(t, calls, probe),
    decreases calls.len(),
{
    if calls.len() > 0 {
        let prefix = calls.drop_last();
        law_calls_version_is_max_applied(t, prefix, probe);
        lemma_calls_keep_wf(t, prefix);
        let t1 = db_calls(t, prefix)->Some_0;
        law_version_is_max_applied(t1, calls.last().items, calls.last().now, probe);
    }
}

/// A tombstone for a key that is not stored is a no-op, counted as a skip.
pub proof fn law_orphan_tombstone(t: Tables, s: Snapshot, now: i64)
    requires
        stored_for(t, s) is None,
    ensures
        db_step(t, Received { delete: true, snapshot: s }, now) == Ok::<
            (Tables, Decision),
            crate::store::StorageError,
        >((t, Decision::SkipOrphan)),
{
}

/// Ingesting a tombstone twice leaves the store as ingesting it once does;
/// the second one is an orphan.
pub proof fn law_tombstone_idempotent(t: Tables, s: Snapshot, now: i64)
    requires
        tables_wf(t),
        db_step(t, Received { delete: true, snapshot: s }, now) is Ok,
    ensures
        ({
            let tomb = Received { delete: true, snapshot: s };
            let t1 = db_step(t, tomb, now)->Ok_0.0;
            db_step(t1, tomb, now) == Ok::<(Tables, Decision), crate::store::StorageError>(
                (t1, Decision::SkipOrphan),
            )
        }),
{
    match s {
        Snapshot::Affiliation(a) => lemma_lookup_after_write(t.affiliations, a, true, now, a.key()),
        Snapshot::Liver(a) => lemma_lookup_after_write(t.livers, a, true, now, a.key()),
        Snapshot::Channel(a) => lemma_lookup_after_write(t.channels, a, true, now, a.key()),
        Snapshot::Video(a) => lemma_lookup_after_write(t.videos, a, true, now, a.key()),
    }
    let t1 = db_step(t, Received { delete: true, snapshot: s }, now)->Ok_0.0;
    law_orphan_tombstone(t1, s, now);
}

/// A snapshot with an irregular version and other content than a stored row
/// with a valid version does not change the store.
pub proof fn law_irregular_update_is_noop(t: Tables, s: Snapshot, now: i64)
    requires
        stored_for(t, s) is Some,
        snapshot_version(stored_for(t, s)->Some_0) >= 2,
        snapshot_version(s) <= 1,
        !same_content(s, stored_for(t, s)->Some_0),
    ensures
        db_step(t, Received { delete: false, snapshot: s }, now) == Ok::<
            (Tables, Decision),
            crate::store::StorageError,
        >((t, Decision::SkipStale)),
{
}

/// A snapshot equal to the stored row but for the version writes nothing and
/// counts one skip.
pub proof fn law_content_equal_is_skip(t: Tables, s: Snapshot, now: i64, before: Tally)
    requires
        stored_for(t, s) is Some,
        same_content(s, stored_for(t, s)->Some_0),
    ensures
        db_step(t, Received { delete: false, snapshot: s }, now) == Ok::<
            (Tables, Decision),
            crate::store::StorageError,
        >((t, Decision::SkipEqual)),
        tally_add(before, Decision::SkipEqual) == (Tally {
            received: before.received + 1,
            skipped: before.skipped + 1,
            ..before
        }),
{
}

/// Within one batch a later item sees the writes of earlier ones: a liver
/// that names an affiliation inserted earlier in the same batch is inserted.
pub proof fn law_read_your_writes(t: Tables, a: AffiliationObject, l: LiverObject, now: i64)
    requires
        tables_wf(t),
        !has_key(t.affiliations, a.key()),
        !has_key(t.livers, l.key()),
        l.affiliation_id == Some(a.affiliation_id),
    ensures
        ({
            let batch = seq![
                Received { delete: false, snapshot: Snapshot::Affiliation(a) },
                Received { delete: false, snapshot: Snapshot::Liver(l) },
            ];
            &&& db_batch(t, batch, now) is Ok
            &&& has_key(db_batch(t, batch, now)->Ok_0.0.affiliations, a.key())
            &&& has_key(db_batch(t, batch, now)->Ok_0.0.livers, l.key())
            &&& db_batch(t, batch, now)->Ok_0.1.inserted == 2
        }),
{
    let batch = seq![
        Received { delete: false, snapshot: Snapshot::Affiliation(a) },
        Received { delete: false, snapshot: Snapshot::Liver(l) },
    ];
    assert(batch.drop_last() =~= seq![batch[0]]);
    assert(seq![batch[0]].drop_last() =~= Seq::<Received>::empty());
    lemma_lookup_after_write(t.affiliations, a, false, now, a.key());
    assert(table_decision(t.affiliations, a, false) == Decision::Insert);
    assert(db_step(t, batch[0], now) is Ok);
    let (t1, d1) = db_step(t, batch[0], now)->Ok_0;
    assert(db_batch(t, Seq::<Received>::empty(), now) == Ok::<
        (Tables, Tally),
        (int, crate::store::StorageError),
    >((t, crate::engine::empty_tally())));
    assert(seq![batch[0]].last() == batch[0]);
    assert(db_batch(t, seq![batch[0]], now) == Ok::<(Tables, Tally), (int, crate::store::StorageError)>(
        (t1, tally_add(crate::engine::empty_tally(), d1)),
    ));
    lemma_step_keeps_wf(t, batch[0], now);
    assert(lookup(t1.affiliations, a.key()) is Some);
    assert(has_key(t1.affiliations, a.key()));
    assert(t1.livers == t.livers);
    lemma_lookup_after_write(t1.livers, l, false, now, l.key());
    assert(table_decision(t1.livers, l, false) == Decision::Insert);
    assert(db_step(t1, batch[1], now) is Ok);
    let (t2, d2) = db_step(t1, batch[1], now)->Ok_0;
    assert(batch.last() == batch[1]);
    assert(lookup(t2.livers, l.key()) is Some);
    assert(has_key(t2.livers, l.key()));
    assert(t2.affiliations == t1.affiliations);
}

} // verus!
