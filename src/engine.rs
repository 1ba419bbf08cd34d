//! The per-item reconciliation rule and the batch counters.

use vstd::prelude::*;
use crate::version::UpdateSignature;
use crate::record::{LatestEq, Version};

verus! {

/// What reconciliation does with one received snapshot.
#[derive(Debug, Clone, Copy, PartialEq, Eq, Structural)]
pub enum Decision {
    /// No stored row and no delete flag: the snapshot is inserted.
    Insert,
    /// A stored row with other content and an older version: it is replaced.
    Update,
    /// A stored row and the delete flag: it is removed.
    Delete,
    /// The delete flag for a key that is not stored.
    SkipOrphan,
    /// The snapshot equals the stored row but for the version.
    SkipEqual,
    /// The snapshot's version is irregular or not newer than the stored one.
    SkipStale,
}

impl Decision {
    pub open spec fn writes(self) -> bool {
        self is Insert || self is Update || self is Delete
    }
}

pub open spec fn opt_deref<R>(o: Option<&R>) -> Option<R> {
    match o {
        Some(r) => Some(*r),
        None => None,
    }
}

/// The reconciliation rule for a snapshot `incoming` with delete flag
/// `delete`, given the row stored under the same key, if any.
pub open spec fn decision_of<R: LatestEq>(stored: Option<R>, incoming: R, delete: bool) -> Decision {
    match stored {
        None => if delete {
            Decision::SkipOrphan
        } else {
            Decision::Insert
        },
        Some(s) => if delete {
            Decision::Delete
        } else if incoming.same_content(&s) {
            Decision::SkipEqual
        } else if incoming.version_of() >= 2 && incoming.version_of() > s.version_of() {
            Decision::Update
        } else {
            Decision::SkipStale
        },
    }
}

/// The row that an insert writes: the snapshot, stamped with `now` when
/// its own version is irregular.
pub open spec fn prepared<R: LatestEq>(incoming: R, now: i64) -> R {
    if incoming.version_of() <= 1 {
        incoming.stamped(now)
    } else {
        incoming
    }
}

/// Decides what to do with `incoming`, given the row stored under its key.
pub fn decide<R: LatestEq>(stored: Option<&R>, incoming: &R, delete: bool) -> (d: Decision)
    ensures
        d == decision_of(opt_deref(stored), *incoming, delete),
{
    match stored {
        None => if delete {
            Decision::SkipOrphan
        } else {
            Decision::Insert
        },
        Some(s) => {
            if delete {
                Decision::Delete
            } else if incoming.content_eq(s) {
                Decision::SkipEqual
            } else {
                let v = incoming.version();
                let sv = s.version();
                if v.is_valid() && v.0 > sv.0 {
                    Decision::Update
                } else {
                    Decision::SkipStale
                }
            }
        },
    }
}

/// The row to insert for `incoming`: stamped with `now` when its version is
/// irregular, else unchanged.
pub fn prepare_insert<R: LatestEq>(incoming: R, now: UpdateSignature) -> (r: R)
    ensures
        r == prepared(incoming, now.0),
        r.key() == incoming.key(),
        now.0 >= 2 ==> r.version_of() >= 2,
{
    let v = incoming.version();
    if v.is_irregular() {
        proof {
            incoming.lemma_stamped(now.0);
        }
        incoming.apply(now)
    } else {
        incoming
    }
}

/// The row that decision `d` writes for `incoming`: the prepared row for an
/// insert, the snapshot itself otherwise.
pub fn written_row<R: LatestEq>(incoming: &R, d: Decision, now: UpdateSignature) -> (r: R)
    ensures
        r == (if d is Insert {
            prepared(*incoming, now.0)
        } else {
            *incoming
        }),
{
    if d == Decision::Insert {
        prepare_insert(incoming.duplicate(), now)
    } else {
        incoming.duplicate()
    }
}

/// The counters of one batch.
#[derive(Debug, Clone, Copy, PartialEq, Eq, Structural, Default)]
pub struct ResultMsg {
    pub receive: u64,
    pub insert_count: u64,
    pub update_count: u64,
    pub delete_count: u64,
    pub skip_count: u64,
    pub receive_elapsed: u64,
    pub transaction_elapsed: u64,
}

/// The counters as integers.
pub struct Tally {
    pub received: int,
    pub inserted: int,
    pub updated: int,
    pub deleted: int,
    pub skipped: int,
}

pub open spec fn empty_tally() -> Tally {
    Tally { received: 0, inserted: 0, updated: 0, deleted: 0, skipped: 0 }
}

/// One more received item, counted under its decision.
pub open spec fn tally_add(t: Tally, d: Decision) -> Tally {
    Tally {
        received: t.received + 1,
        inserted: t.inserted + if d is Insert { 1int } else { 0 },
        updated: t.updated + if d is Update { 1int } else { 0 },
        deleted: t.deleted + if d is Delete { 1int } else { 0 },
        skipped: t.skipped + if d.writes() { 0int } else { 1 },
    }
}

impl ResultMsg {
    pub open spec fn tally(&self) -> Tally {
        Tally {
            received: self.receive as int,
            inserted: self.insert_count as int,
            updated: self.update_count as int,
            deleted: self.delete_count as int,
            skipped: self.skip_count as int,
        }
    }

    pub fn new() -> (r: ResultMsg)
        ensures
            r.tally() == empty_tally(),
            r.receive_elapsed == 0,
            r.transaction_elapsed == 0,
    {
        ResultMsg {
            receive: 0,
            insert_count: 0,
            update_count: 0,
            delete_count: 0,
            skip_count: 0,
            receive_elapsed: 0,
            transaction_elapsed: 0,
        }
    }

    /// Counts one received item under its decision.
    pub fn record(&mut self, d: Decision)
        requires
            old(self).receive < u64::MAX,
            old(self).insert_count < u64::MAX,
            old(self).update_count < u64::MAX,
            old(self).delete_count < u64::MAX,
            old(self).skip_count < u64::MAX,
        ensures
            final(self).tally() == tally_add(old(self).tally(), d),
            final(self).receive_elapsed == old(self).receive_elapsed,
            final(self).transaction_elapsed == old(self).transaction_elapsed,
    {
        self.receive = self.receive + 1;
        match d {
            Decision::Insert => self.insert_count = self.insert_count + 1,
            Decision::Update => self.update_count = self.update_count + 1,
            Decision::Delete => self.delete_count = self.delete_count + 1,
            _ => self.skip_count = self.skip_count + 1,
        }
    }

    /// Records the time spent receiving and in the transaction, in milliseconds.
    pub fn elapsed(&mut self, receive: u64, transaction: u64)
        ensures
            final(self).tally() == old(self).tally(),
            final(self).receive_elapsed == receive,
            final(self).transaction_elapsed == transaction,
    {
        self.receive_elapsed = receive;
        self.transaction_elapsed = transaction;
    }
}

} // verus!
