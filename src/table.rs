//! One table of the store: rows with unique primary keys.

use vstd::prelude::*;
use crate::version::UpdateSignature;
use crate::record::{LatestEq, Version};
use crate::engine::{Decision, decision_of, prepared, prepare_insert};

verus! {

pub open spec fn unique_keys<R: LatestEq>(rows: Seq<R>) -> bool {
    forall|i: int, j: int|
        0 <= i < rows.len() && 0 <= j < rows.len() && i != j ==> rows[i].key() != rows[j].key()
}

pub open spec fn has_key<R: LatestEq>(rows: Seq<R>, k: R::KeyView) -> bool {
    exists|i: int| 0 <= i < rows.len() && rows[i].key() == k
}

pub open spec fn index_of<R: LatestEq>(rows: Seq<R>, k: R::KeyView) -> int {
    choose|i: int| 0 <= i < rows.len() && rows[i].key() == k
}

/// The row stored under key `k`, if any.
pub open spec fn lookup<R: LatestEq>(rows: Seq<R>, k: R::KeyView) -> Option<R> {
    if has_key(rows, k) {
        Some(rows[index_of(rows, k)])
    } else {
        None
    }
}

/// The rows after the write that decision `d` calls for on snapshot `s`.
pub open spec fn write_rows<R: LatestEq>(rows: Seq<R>, s: R, d: Decision, now: i64) -> Seq<R> {
    match d {
        Decision::Insert => rows.push(prepared(s, now)),
        Decision::Update => rows.update(index_of(rows, s.key()), s),
        Decision::Delete => rows.remove(index_of(rows, s.key())),
        _ => rows,
    }
}

/// The decision that reconciliation takes on `rows` for snapshot `s`.
pub open spec fn table_decision<R: LatestEq>(rows: Seq<R>, s: R, delete: bool) -> Decision {
    decision_of(lookup(rows, s.key()), s, delete)
}

pub proof fn lemma_index_of<R: LatestEq>(rows: Seq<R>, i: int)
    requires
        unique_keys(rows),
        0 <= i < rows.len(),
    ensures
        has_key(rows, rows[i].key()),
        index_of(rows, rows[i].key()) == i,
        lookup(rows, rows[i].key()) == Some(rows[i]),
{
    let k = rows[i].key();
    assert(has_key(rows, k));
    let j = index_of(rows, k);
    assert(rows[j].key() == k);
}

pub proof fn lemma_write_keeps_unique<R: LatestEq>(rows: Seq<R>, s: R, d: Decision, now: i64)
    requires
        unique_keys(rows),
        d == table_decision(rows, s, false) || d == table_decision(rows, s, true),
    ensures
        unique_keys(write_rows(rows, s, d, now)),
{
    let k = s.key();
    if d is Insert {
        s.lemma_stamped(now);
        assert(!has_key(rows, k));
        let out = rows.push(prepared(s, now));
        assert forall|i: int, j: int|
            0 <= i < out.len() && 0 <= j < out.len() && i != j implies out[i].key()
            != out[j].key() by {
            if i < rows.len() && j < rows.len() {
            } else if i == rows.len() {
                assert(rows[j].key() != k);
            } else {
                assert(rows[i].key() != k);
            }
        }
    } else if d is Update {
        let idx = index_of(rows, k);
        let out = rows.update(idx, s);
        assert forall|i: int, j: int|
            0 <= i < out.len() && 0 <= j < out.len() && i != j implies out[i].key()
            != out[j].key() by {
            if i != idx && j != idx {
            } else if i == idx {
                assert(rows[idx].key() == k);
            } else {
                assert(rows[idx].key() == k);
            }
        }
    } else if d is Delete {
        let idx = index_of(rows, k);
        let out = rows.remove(idx);
        assert forall|i: int, j: int|
            0 <= i < out.len() && 0 <= j < out.len() && i != j implies out[i].key()
            != out[j].key() by {
            let oi = if i < idx { i } else { i + 1 };
            let oj = if j < idx { j } else { j + 1 };
            assert(out[i] == rows[oi]);
            assert(out[j] == rows[oj]);
        }
    }
}

/// Where a row of `rows` stands after the write that decision `d` calls for.
pub open spec fn moved_index<R: LatestEq>(rows: Seq<R>, s: R, d: Decision, i: int) -> int {
    if d is Delete && i > index_of(rows, s.key()) {
        i - 1
    } else {
        i
    }
}

/// The row under key `k` after reconciling `s`: the written row under the
/// snapshot's own key, the old row under every other key.
pub proof fn lemma_lookup_after_write<R: LatestEq>(
    rows: Seq<R>,
    s: R,
    delete: bool,
    now: i64,
    k: R::KeyView,
)
    requires
        unique_keys(rows),
    ensures
        ({
            let d = table_decision(rows, s, delete);
            let out = write_rows(rows, s, d, now);
            lookup(out, k) == if k != s.key() {
                lookup(rows, k)
            } else {
                match d {
                    Decision::Insert => Some(prepared(s, now)),
                    Decision::Update => Some(s),
                    Decision::Delete => None,
                    _ => lookup(rows, k),
                }
            }
        }),
{
    let d = table_decision(rows, s, delete);
    let out = write_rows(rows, s, d, now);
    lemma_write_keeps_unique(rows, s, d, now);
    s.lemma_stamped(now);
    if !d.writes() {
        return;
    }
    if k != s.key() {
        if has_key(rows, k) {
            let i = index_of(rows, k);
            lemma_index_of(rows, i);
            let j = moved_index(rows, s, d, i);
            if d is Update {
                lemma_index_of(rows, index_of(rows, s.key()));
            }
            if d is Delete {
                lemma_index_of(rows, index_of(rows, s.key()));
            }
            assert(out[j] == rows[i]);
            lemma_index_of(out, j);
        } else {
            if has_key(out, k) {
                let j = index_of(out, k);
                if d is Insert {
                    assert(rows[j].key() == k);
                } else if d is Update {
                    assert(rows[j].key() == k);
                } else {
                    let idx = index_of(rows, s.key());
                    if j < idx {
                        assert(rows[j].key() == k);
                    } else {
                        assert(rows[j + 1].key() == k);
                    }
                }
            }
        }
    } else {
        if d is Insert {
            lemma_index_of(out, rows.len() as int);
        } else if d is Update {
            let idx = index_of(rows, s.key());
            lemma_index_of(rows, idx);
            lemma_index_of(out, idx);
        } else {
            let idx = index_of(rows, s.key());
            lemma_index_of(rows, idx);
            if has_key(out, k) {
                let j = index_of(out, k);
                if j < idx {
                    assert(rows[j].key() == k);
                } else {
                    assert(rows[j + 1].key() == k);
                }
            }
        }
    }
}

/// Whether a key is stored after the write that reconciling `s` calls for.
pub proof fn lemma_keys_after_write<R: LatestEq>(
    rows: Seq<R>,
    s: R,
    delete: bool,
    now: i64,
    k: R::KeyView,
)
    requires
        unique_keys(rows),
    ensures
        ({
            let d = table_decision(rows, s, delete);
            has_key(write_rows(rows, s, d, now), k) == if k != s.key() {
                has_key(rows, k)
            } else {
                match d {
                    Decision::Insert => true,
                    Decision::Update => true,
                    Decision::Delete => false,
                    _ => has_key(rows, k),
                }
            }
        }),
{
    lemma_lookup_after_write(rows, s, delete, now, k);
}

/// Where the row at index `i` after a write comes from: the written row, or
/// the old row at the index it moved from.
pub proof fn lemma_rows_after_write<R: LatestEq>(
    rows: Seq<R>,
    s: R,
    delete: bool,
    now: i64,
    i: int,
)
    requires
        unique_keys(rows),
        0 <= i < write_rows(rows, s, table_decision(rows, s, delete), now).len(),
    ensures
        ({
            let d = table_decision(rows, s, delete);
            let out = write_rows(rows, s, d, now);
            let idx = index_of(rows, s.key());
            if d is Insert && i == rows.len() {
                out[i] == prepared(s, now)
            } else if d is Update && i == idx {
                out[i] == s
            } else {
                let j = if d is Delete && i >= idx { i + 1 } else { i };
                0 <= j < rows.len() && out[i] == rows[j]
            }
        }),
{
    let d = table_decision(rows, s, delete);
    if d is Update || d is Delete {
        lemma_index_of(rows, index_of(rows, s.key()));
    }
}

/// A table: rows with unique primary keys.
pub struct Table<R> {
    rows: Vec<R>,
}

impl<R: LatestEq> View for Table<R> {
    type V = Seq<R>;

    closed spec fn view(&self) -> Seq<R> {
        self.rows@
    }
}

impl<R: LatestEq> Table<R> {
    pub open spec fn wf(&self) -> bool {
        unique_keys(self@)
    }

    pub fn new() -> (r: Table<R>)
        ensures
            r@ == Seq::<R>::empty(),
            r.wf(),
    {
        Table { rows: Vec::new() }
    }

    pub fn len(&self) -> (r: usize)
        ensures
            r == self@.len(),
    {
        self.rows.len()
    }

    pub fn row(&self, i: usize) -> (r: &R)
        requires
            i < self@.len(),
        ensures
            *r == self@[i as int],
    {
        &self.rows[i]
    }

    /// The index of the row whose key is that of `probe`.
    pub fn position(&self, probe: &R) -> (r: Option<usize>)
        ensures
            match r {
                Some(i) => i < self@.len() && self@[i as int].key() == probe.key(),
                None => !has_key(self@, probe.key()),
            },
    {
        let mut i: usize = 0;
        while i < self.rows.len()
            invariant
                i <= self.rows@.len(),
                forall|j: int| 0 <= j < i ==> self.rows@[j].key() != probe.key(),
            decreases self.rows@.len() - i,
        {
            if self.rows[i].key_eq(probe) {
                return Some(i);
            }
            i = i + 1;
        }
        None
    }

    /// The stored row whose key is that of `probe`.
    pub fn fetch_by_key(&self, probe: &R) -> (r: Option<R>)
        requires
            self.wf(),
        ensures
            r == lookup(self@, probe.key()),
    {
        match self.position(probe) {
            Some(i) => {
                proof {
                    lemma_index_of(self@, i as int);
                }
                Some(self.rows[i].duplicate())
            },
            None => None,
        }
    }

    /// Every row, in storage order.
    pub fn fetch_all(&self) -> (r: Vec<R>)
        ensures
            r@ == self@,
    {
        let mut out: Vec<R> = Vec::new();
        let mut i: usize = 0;
        while i < self.rows.len()
            invariant
                i <= self.rows@.len(),
                out@ == self.rows@.subrange(0, i as int),
            decreases self.rows@.len() - i,
        {
            out.push(self.rows[i].duplicate());
            i = i + 1;
            assert(out@ =~= self.rows@.subrange(0, i as int));
        }
        assert(self.rows@.subrange(0, i as int) =~= self.rows@);
        out
    }

    /// A copy of the table.
    pub fn duplicate(&self) -> (r: Table<R>)
        ensures
            r@ == self@,
    {
        Table { rows: self.fetch_all() }
    }

    /// A row is stored under the key of `probe`.
    pub fn contains(&self, probe: &R) -> (r: bool)
        ensures
            r == has_key(self@, probe.key()),
    {
        self.position(probe).is_some()
    }

    /// The stored version under the key of `probe`.
    pub fn version_of(&self, probe: &R) -> (r: Option<UpdateSignature>)
        requires
            self.wf(),
        ensures
            match lookup(self@, probe.key()) {
                Some(o) => r == Some(UpdateSignature(o.version_of())),
                None => r is None,
            },
    {
        match self.position(probe) {
            Some(i) => {
                proof {
                    lemma_index_of(self@, i as int);
                }
                Some(self.rows[i].version())
            },
            None => None,
        }
    }

    /// Inserts `row`; refused when its key is taken.
    pub fn insert(&mut self, row: R) -> (r: bool)
        requires
            old(self).wf(),
        ensures
            final(self).wf(),
            r == !has_key(old(self)@, row.key()),
            r ==> final(self)@ == old(self)@.push(row),
            !r ==> final(self)@ == old(self)@,
    {
        if self.position(&row).is_some() {
            return false;
        }
        proof {
            let out = self@.push(row);
            assert forall|i: int, j: int|
                0 <= i < out.len() && 0 <= j < out.len() && i != j implies out[i].key()
                != out[j].key() by {
                if i < self@.len() && j < self@.len() {
                } else if i == self@.len() {
                    assert(self@[j].key() != row.key());
                } else {
                    assert(self@[i].key() != row.key());
                }
            }
        }
        self.rows.push(row);
        true
    }

    /// Replaces the row stored under the key of `row`, handing back the old one.
    pub fn update(&mut self, row: R) -> (r: Option<R>)
        requires
            old(self).wf(),
        ensures
            final(self).wf(),
            r == lookup(old(self)@, row.key()),
            r is Some ==> final(self)@ == old(self)@.update(index_of(old(self)@, row.key()), row),
            r is None ==> final(self)@ == old(self)@,
    {
        match self.position(&row) {
            Some(i) => {
                proof {
                    lemma_index_of(self@, i as int);
                    let out = self@.update(i as int, row);
                    assert forall|a: int, b: int|
                        0 <= a < out.len() && 0 <= b < out.len() && a != b implies out[a].key()
                        != out[b].key() by {
                        if a != i && b != i {
                        } else if a == i {
                            assert(self@[i as int].key() == row.key());
                        } else {
                            assert(self@[i as int].key() == row.key());
                        }
                    }
                }
                let old_row = self.rows[i].duplicate();
                self.rows.set(i, row);
                Some(old_row)
            },
            None => None,
        }
    }

    /// Removes the row stored under the key of `probe`, handing it back.
    pub fn delete(&mut self, probe: &R) -> (r: Option<R>)
        requires
            old(self).wf(),
        ensures
            final(self).wf(),
            r == lookup(old(self)@, probe.key()),
            r is Some ==> final(self)@ == old(self)@.remove(index_of(old(self)@, probe.key())),
            r is None ==> final(self)@ == old(self)@,
    {
        match self.position(probe) {
            Some(i) => {
                proof {
                    lemma_index_of(self@, i as int);
                    let out = self@.remove(i as int);
                    assert forall|a: int, b: int|
                        0 <= a < out.len() && 0 <= b < out.len() && a != b implies out[a].key()
                        != out[b].key() by {
                        let oa = if a < i { a } else { a + 1 };
                        let ob = if b < i { b } else { b + 1 };
                        assert(out[a] == self@[oa]);
                        assert(out[b] == self@[ob]);
                    }
                }
                let removed = self.rows.remove(i);
                Some(removed)
            },
            None => None,
        }
    }

    /// Looks up the stored counterpart of `s` and decides what to do with it.
    /// Also hands back where that counterpart stands.
    pub fn plan(&self, s: &R, delete: bool) -> (r: (Decision, Option<usize>))
        requires
            self.wf(),
        ensures
            r.0 == table_decision(self@, *s, delete),
            match r.1 {
                Some(i) => i < self@.len() && self@[i as int].key() == s.key() && i == index_of(
                    self@,
                    s.key(),
                ),
                None => !has_key(self@, s.key()),
            },
    {
        let pos = self.position(s);
        match pos {
            Some(i) => {
                proof {
                    lemma_index_of(self@, i as int);
                }
                let d = crate::engine::decide(Some(&self.rows[i]), s, delete);
                (d, pos)
            },
            None => {
                let d = crate::engine::decide(None, s, delete);
                (d, pos)
            },
        }
    }

    /// Performs the write that `plan` decided.
    pub fn perform(
        &mut self,
        s: R,
        delete: bool,
        planned: (Decision, Option<usize>),
        now: UpdateSignature,
    )
        requires
            old(self).wf(),
            planned.0 == table_decision(old(self)@, s, delete),
            match planned.1 {
                Some(i) => i < old(self)@.len() && i == index_of(old(self)@, s.key()),
                None => !has_key(old(self)@, s.key()),
            },
        ensures
            final(self)@ == write_rows(old(self)@, s, planned.0, now.0),
            final(self).wf(),
    {
        proof {
            lemma_write_keeps_unique(old(self)@, s, planned.0, now.0);
        }
        match planned.0 {
            Decision::Insert => {
                let row = prepare_insert(s, now);
                self.rows.push(row);
            },
            Decision::Update => {
                let i = planned.1.unwrap();
                self.rows.set(i, s);
            },
            Decision::Delete => {
                let i = planned.1.unwrap();
                self.rows.remove(i);
            },
            _ => {},
        }
    }
}

} // verus!
