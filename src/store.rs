//! The store of record: four tables under foreign-key constraints, and the
//! all-or-nothing ingestion of a batch of snapshots.

use vstd::prelude::*;
use vstd::string::StringExecFns;
use crate::version::UpdateSignature;
use crate::ids::{AffiliationId, ChannelId, LiverId};
use crate::objects::{AffiliationObject, ChannelObject, LiverObject, VideoObject};
use crate::engine::{Decision, ResultMsg, Tally, empty_tally, tally_add};
use crate::table::{
    Table, has_key, index_of, lemma_keys_after_write, lemma_rows_after_write,
    lemma_write_keeps_unique, lookup, table_decision, unique_keys, write_rows,
};
use crate::record::{LatestEq, Version, text_eq};
use crate::pattern::{chars_of, like, like_match};
use crate::entities::{AffiliationDto, CreateAffiliation, UpdateAffiliation};

verus! {

/// A snapshot of one entity, as received.
#[derive(Debug, Clone)]
pub enum Snapshot {
    Affiliation(AffiliationObject),
    Liver(LiverObject),
    Channel(ChannelObject),
    Video(VideoObject),
}

/// A received snapshot with its delete flag.
#[derive(Debug, Clone)]
pub struct Received {
    pub delete: bool,
    pub snapshot: Snapshot,
}

/// A write that the store's constraints refuse.
#[derive(Debug, Clone, Copy, PartialEq, Eq, Structural)]
pub enum StorageError {
    /// An insert or update names a parent key that is not stored.
    ForeignKey,
    /// A delete of a row that another row still refers to. The store
    /// refuses such a delete; it neither cascades nor clears the references.
    Restricted,
}

/// The item of a batch that failed, and why; nothing of the batch was applied.
#[derive(Debug, Clone, Copy, PartialEq, Eq, Structural)]
pub struct IngestFailure {
    pub position: usize,
    pub error: StorageError,
}

/// The contents of the four tables.
pub struct Tables {
    pub affiliations: Seq<AffiliationObject>,
    pub livers: Seq<LiverObject>,
    pub channels: Seq<ChannelObject>,
    pub videos: Seq<VideoObject>,
}

/// Every parent that a stored row names is stored.
pub open spec fn parents_present(t: Tables) -> bool {
    &&& forall|i: int|
        0 <= i < t.livers.len() ==> liver_parent_ok(t.affiliations, #[trigger] t.livers[i])
    &&& forall|i: int|
        0 <= i < t.channels.len() ==> channel_parent_ok(t.livers, #[trigger] t.channels[i])
    &&& forall|i: int|
        0 <= i < t.videos.len() ==> video_parent_ok(t.channels, #[trigger] t.videos[i])
}

/// Primary keys are unique in each table, and references are intact.
pub open spec fn tables_wf(t: Tables) -> bool {
    &&& unique_keys(t.affiliations)
    &&& unique_keys(t.livers)
    &&& unique_keys(t.channels)
    &&& unique_keys(t.videos)
    &&& parents_present(t)
}

pub open spec fn empty_tables() -> Tables {
    Tables {
        affiliations: Seq::empty(),
        livers: Seq::empty(),
        channels: Seq::empty(),
        videos: Seq::empty(),
    }
}

/// Some liver belongs to affiliation `id`.
pub open spec fn livers_refer(livers: Seq<LiverObject>, id: i64) -> bool {
    exists|i: int| 0 <= i < livers.len() && livers[i].affiliation_id == Some(AffiliationId(id))
}

/// Some channel belongs to liver `id`.
pub open spec fn channels_refer(channels: Seq<ChannelObject>, id: i64) -> bool {
    exists|i: int| 0 <= i < channels.len() && channels[i].liver_id == Some(LiverId(id))
}

/// Some video belongs to channel `id`.
pub open spec fn videos_refer(videos: Seq<VideoObject>, id: Seq<char>) -> bool {
    exists|i: int|
        0 <= i < videos.len() && match #[trigger] videos[i].channel_id {
            Some(c) => c.0@ == id,
            None => false,
        }
}

pub open spec fn liver_parent_ok(affiliations: Seq<AffiliationObject>, l: LiverObject) -> bool {
    match l.affiliation_id {
        Some(a) => has_key(affiliations, a.0),
        None => true,
    }
}

pub open spec fn channel_parent_ok(livers: Seq<LiverObject>, c: ChannelObject) -> bool {
    match c.liver_id {
        Some(l) => has_key(livers, l.0),
        None => true,
    }
}

pub open spec fn video_parent_ok(channels: Seq<ChannelObject>, v: VideoObject) -> bool {
    match v.channel_id {
        Some(c) => has_key(channels, c.0@),
        None => true,
    }
}

/// The stored row under the key of snapshot `s`, in the table of its kind.
pub open spec fn stored_for(t: Tables, s: Snapshot) -> Option<Snapshot> {
    match s {
        Snapshot::Affiliation(a) => match lookup(t.affiliations, a.key()) {
            Some(r) => Some(Snapshot::Affiliation(r)),
            None => None,
        },
        Snapshot::Liver(l) => match lookup(t.livers, l.key()) {
            Some(r) => Some(Snapshot::Liver(r)),
            None => None,
        },
        Snapshot::Channel(c) => match lookup(t.channels, c.key()) {
            Some(r) => Some(Snapshot::Channel(r)),
            None => None,
        },
        Snapshot::Video(v) => match lookup(t.videos, v.key()) {
            Some(r) => Some(Snapshot::Video(r)),
            None => None,
        },
    }
}

/// Two snapshots of one kind that are equal but for the version.
pub open spec fn same_content(a: Snapshot, b: Snapshot) -> bool {
    match (a, b) {
        (Snapshot::Affiliation(x), Snapshot::Affiliation(y)) => x.same_content(&y),
        (Snapshot::Liver(x), Snapshot::Liver(y)) => x.same_content(&y),
        (Snapshot::Channel(x), Snapshot::Channel(y)) => x.same_content(&y),
        (Snapshot::Video(x), Snapshot::Video(y)) => x.same_content(&y),
        _ => false,
    }
}

/// Two snapshots of one kind under the same primary key.
pub open spec fn same_key(a: Snapshot, b: Snapshot) -> bool {
    match (a, b) {
        (Snapshot::Affiliation(x), Snapshot::Affiliation(y)) => x.key() == y.key(),
        (Snapshot::Liver(x), Snapshot::Liver(y)) => x.key() == y.key(),
        (Snapshot::Channel(x), Snapshot::Channel(y)) => x.key() == y.key(),
        (Snapshot::Video(x), Snapshot::Video(y)) => x.key() == y.key(),
        _ => false,
    }
}

pub open spec fn snapshot_version(s: Snapshot) -> i64 {
    match s {
        Snapshot::Affiliation(a) => a.version_of(),
        Snapshot::Liver(l) => l.version_of(),
        Snapshot::Channel(c) => c.version_of(),
        Snapshot::Video(v) => v.version_of(),
    }
}

/// Reconciliation of one received snapshot: the tables afterwards and the
/// decision taken, or the constraint that refused the write.
pub open spec fn db_step(t: Tables, item: Received, now: i64) -> Result<(Tables, Decision), StorageError> {
    let del = item.delete;
    match item.snapshot {
        Snapshot::Affiliation(a) => {
            let d = table_decision(t.affiliations, a, del);
            if d is Delete && livers_refer(t.livers, a.affiliation_id.0) {
                Err(StorageError::Restricted)
            } else {
                Ok((Tables { affiliations: write_rows(t.affiliations, a, d, now), ..t }, d))
            }
        },
        Snapshot::Liver(l) => {
            let d = table_decision(t.livers, l, del);
            if (d is Insert || d is Update) && !liver_parent_ok(t.affiliations, l) {
                Err(StorageError::ForeignKey)
            } else if d is Delete && channels_refer(t.channels, l.liver_id.0) {
                Err(StorageError::Restricted)
            } else {
                Ok((Tables { livers: write_rows(t.livers, l, d, now), ..t }, d))
            }
        },
        Snapshot::Channel(c) => {
            let d = table_decision(t.channels, c, del);
            if (d is Insert || d is Update) && !channel_parent_ok(t.livers, c) {
                Err(StorageError::ForeignKey)
            } else if d is Delete && videos_refer(t.videos, c.channel_id.0@) {
                Err(StorageError::Restricted)
            } else {
                Ok((Tables { channels: write_rows(t.channels, c, d, now), ..t }, d))
            }
        },
        Snapshot::Video(v) => {
            let d = table_decision(t.videos, v, del);
            if (d is Insert || d is Update) && !video_parent_ok(t.channels, v) {
                Err(StorageError::ForeignKey)
            } else {
                Ok((Tables { videos: write_rows(t.videos, v, d, now), ..t }, d))
            }
        },
    }
}

/// Reconciliation of a batch in arrival order: the tables and counters after
/// the whole batch, or the position and error of the first item that failed.
pub open spec fn db_batch(t: Tables, items: Seq<Received>, now: i64) -> Result<
    (Tables, Tally),
    (int, StorageError),
>
    decreases items.len(),
{
    if items.len() == 0 {
        Ok((t, empty_tally()))
    } else {
        match db_batch(t, items.drop_last(), now) {
            Err(e) => Err(e),
            Ok((t1, tally)) => match db_step(t1, items.last(), now) {
                Err(e) => Err((items.len() - 1, e)),
                Ok((t2, d)) => Ok((t2, tally_add(tally, d))),
            },
        }
    }
}

pub proof fn lemma_step_keeps_wf(t: Tables, item: Received, now: i64)
    requires
        tables_wf(t),
    ensures
        db_step(t, item, now) matches Ok((t2, _)) ==> tables_wf(t2),
{
    let del = item.delete;
    if db_step(t, item, now) is Err {
        return;
    }
    let t2 = db_step(t, item, now)->Ok_0.0;
    match item.snapshot {
        Snapshot::Affiliation(a) => {
            let d = table_decision(t.affiliations, a, del);
            lemma_write_keeps_unique(t.affiliations, a, d, now);
            assert forall|i: int| 0 <= i < t2.livers.len() implies liver_parent_ok(
                t2.affiliations,
                #[trigger] t2.livers[i],
            ) by {
                assert(liver_parent_ok(t.affiliations, t.livers[i]));
                if let Some(p) = t.livers[i].affiliation_id {
                    lemma_keys_after_write(t.affiliations, a, del, now, p.0);
                }
            }
        },
        Snapshot::Liver(l) => {
            let d = table_decision(t.livers, l, del);
            lemma_write_keeps_unique(t.livers, l, d, now);
            assert forall|i: int| 0 <= i < t2.livers.len() implies liver_parent_ok(
                t2.affiliations,
                #[trigger] t2.livers[i],
            ) by {
                lemma_rows_after_write(t.livers, l, del, now, i);
                let idx = index_of(t.livers, l.key());
                if !(d is Insert && i == t.livers.len()) && !(d is Update && i == idx) {
                    let j = if d is Delete && i >= idx { i + 1 } else { i };
                    assert(liver_parent_ok(t.affiliations, t.livers[j]));
                }
            }
            assert forall|i: int| 0 <= i < t2.channels.len() implies channel_parent_ok(
                t2.livers,
                #[trigger] t2.channels[i],
            ) by {
                assert(channel_parent_ok(t.livers, t.channels[i]));
                if let Some(p) = t.channels[i].liver_id {
                    lemma_keys_after_write(t.livers, l, del, now, p.0);
                }
            }
        },
        Snapshot::Channel(c) => {
            let d = table_decision(t.channels, c, del);
            lemma_write_keeps_unique(t.channels, c, d, now);
            assert forall|i: int| 0 <= i < t2.channels.len() implies channel_parent_ok(
                t2.livers,
                #[trigger] t2.channels[i],
            ) by {
                lemma_rows_after_write(t.channels, c, del, now, i);
                let idx = index_of(t.channels, c.key());
                if !(d is Insert && i == t.channels.len()) && !(d is Update && i == idx) {
                    let j = if d is Delete && i >= idx { i + 1 } else { i };
                    assert(channel_parent_ok(t.livers, t.channels[j]));
                }
            }
            assert forall|i: int| 0 <= i < t2.videos.len() implies video_parent_ok(
                t2.channels,
                #[trigger] t2.videos[i],
            ) by {
                assert(video_parent_ok(t.channels, t.videos[i]));
                if let Some(p) = t.videos[i].channel_id {
                    lemma_keys_after_write(t.channels, c, del, now, p.0@);
                }
            }
        },
        Snapshot::Video(v) => {
            let d = table_decision(t.videos, v, del);
            lemma_write_keeps_unique(t.videos, v, d, now);
            assert forall|i: int| 0 <= i < t2.videos.len() implies video_parent_ok(
                t2.channels,
                #[trigger] t2.videos[i],
            ) by {
                lemma_rows_after_write(t.videos, v, del, now, i);
                let idx = index_of(t.videos, v.key());
                if !(d is Insert && i == t.videos.len()) && !(d is Update && i == idx) {
                    let j = if d is Delete && i >= idx { i + 1 } else { i };
                    assert(video_parent_ok(t.channels, t.videos[j]));
                }
            }
        },
    }
}

pub proof fn lemma_batch_err_sticks(t: Tables, items: Seq<Received>, n: int, m: int, now: i64)
    requires
        0 <= n <= m <= items.len(),
        db_batch(t, items.take(n), now) is Err,
    ensures
        db_batch(t, items.take(m), now) == db_batch(t, items.take(n), now),
    decreases m - n,
{
    if m > n {
        lemma_batch_err_sticks(t, items, n, m - 1, now);
        assert(items.take(m).drop_last() =~= items.take(m - 1));
    }
}

impl Table<AffiliationObject> {
    /// An affiliation is stored under the key of `probe`, or under a name that
    /// the name of `probe` matches as a `LIKE` pattern. This is the storage
    /// driver's existence test; reconciliation decides by the key alone.
    pub fn present(&self, probe: &AffiliationObject) -> (r: bool)
        ensures
            r == (has_key(self@, probe.key()) || exists|i: int|
                0 <= i < self@.len() && like_match(probe.name@, #[trigger] self@[i].name@)),
    {
        let pattern = chars_of(probe.name.as_str());
        let mut i: usize = 0;
        while i < self.len()
            invariant
                i <= self@.len(),
                pattern@ == probe.name@,
                forall|j: int| 0 <= j < i ==> #[trigger] self@[j].key() != probe.key(),
                forall|j: int| 0 <= j < i ==> !like_match(probe.name@, #[trigger] self@[j].name@),
            decreases self@.len() - i,
        {
            let row = self.row(i);
            if row.affiliation_id.0 == probe.affiliation_id.0 || like(&pattern, &chars_of(row.name.as_str())) {
                assert(self@[i as int].key() == probe.key() || like_match(
                    probe.name@,
                    self@[i as int].name@,
                ));
                return true;
            }
            i = i + 1;
        }
        false
    }

    pub fn has_id(&self, id: i64) -> (r: bool)
        ensures
            r == has_key(self@, id),
    {
        let mut i: usize = 0;
        while i < self.len()
            invariant
                i <= self@.len(),
                forall|j: int| 0 <= j < i ==> self@[j].affiliation_id.0 != id,
            decreases self@.len() - i,
        {
            if self.row(i).affiliation_id.0 == id {
                return true;
            }
            i = i + 1;
        }
        false
    }
}

impl Table<LiverObject> {
    /// A liver is stored under the key of `probe`, or under a name that
    /// the name of `probe` matches as a `LIKE` pattern. This is the storage
    /// driver's existence test; reconciliation decides by the key alone.
    pub fn present(&self, probe: &LiverObject) -> (r: bool)
        ensures
            r == (has_key(self@, probe.key()) || exists|i: int|
                0 <= i < self@.len() && like_match(probe.name@, #[trigger] self@[i].name@)),
    {
        let pattern = chars_of(probe.name.as_str());
        let mut i: usize = 0;
        while i < self.len()
            invariant
                i <= self@.len(),
                pattern@ == probe.name@,
                forall|j: int| 0 <= j < i ==> #[trigger] self@[j].key() != probe.key(),
                forall|j: int| 0 <= j < i ==> !like_match(probe.name@, #[trigger] self@[j].name@),
            decreases self@.len() - i,
        {
            let row = self.row(i);
            if row.liver_id.0 == probe.liver_id.0 || like(&pattern, &chars_of(row.name.as_str())) {
                assert(self@[i as int].key() == probe.key() || like_match(
                    probe.name@,
                    self@[i as int].name@,
                ));
                return true;
            }
            i = i + 1;
        }
        false
    }

    pub fn has_id(&self, id: i64) -> (r: bool)
        ensures
            r == has_key(self@, id),
    {
        let mut i: usize = 0;
        while i < self.len()
            invariant
                i <= self@.len(),
                forall|j: int| 0 <= j < i ==> self@[j].liver_id.0 != id,
            decreases self@.len() - i,
        {
            if self.row(i).liver_id.0 == id {
                return true;
            }
            i = i + 1;
        }
        false
    }

    /// Some liver belongs to affiliation `id`.
    pub fn refers_to(&self, id: i64) -> (r: bool)
        ensures
            r == livers_refer(self@, id),
    {
        let mut i: usize = 0;
        while i < self.len()
            invariant
                i <= self@.len(),
                forall|j: int| 0 <= j < i ==> self@[j].affiliation_id != Some(AffiliationId(id)),
            decreases self@.len() - i,
        {
            match self.row(i).affiliation_id {
                Some(a) => if a.0 == id {
                    return true;
                },
                None => {},
            }
            i = i + 1;
        }
        false
    }
}

impl Table<ChannelObject> {
    pub fn has_id(&self, id: &ChannelId) -> (r: bool)
        ensures
            r == has_key(self@, id.0@),
    {
        let mut i: usize = 0;
        while i < self.len()
            invariant
                i <= self@.len(),
                forall|j: int| 0 <= j < i ==> self@[j].channel_id.0@ != id.0@,
            decreases self@.len() - i,
        {
            if text_eq(&self.row(i).channel_id.0, &id.0) {
                return true;
            }
            i = i + 1;
        }
        false
    }

    /// Some channel belongs to liver `id`.
    pub fn refers_to(&self, id: i64) -> (r: bool)
        ensures
            r == channels_refer(self@, id),
    {
        let mut i: usize = 0;
        while i < self.len()
            invariant
                i <= self@.len(),
                forall|j: int| 0 <= j < i ==> self@[j].liver_id != Some(LiverId(id)),
            decreases self@.len() - i,
        {
            match self.row(i).liver_id {
                Some(l) => if l.0 == id {
                    return true;
                },
                None => {},
            }
            i = i + 1;
        }
        false
    }
}

impl Table<VideoObject> {
    /// Some video belongs to channel `id`.
    pub fn refers_to(&self, id: &ChannelId) -> (r: bool)
        ensures
            r == videos_refer(self@, id.0@),
    {
        let mut i: usize = 0;
        while i < self.len()
            invariant
                i <= self@.len(),
                forall|j: int|
                    0 <= j < i ==> match #[trigger] self@[j].channel_id {
                        Some(c) => c.0@ != id.0@,
                        None => true,
                    },
            decreases self@.len() - i,
        {
            match &self.row(i).channel_id {
                Some(c) => if text_eq(&c.0, &id.0) {
                    return true;
                },
                None => {},
            }
            i = i + 1;
        }
        false
    }
}

/// The kind of an entity.
#[derive(Debug, Clone, Copy, PartialEq, Eq, Structural)]
pub enum EntityKind {
    Affiliation,
    Liver,
    Channel,
    Video,
}

/// Why a repository call failed.
#[derive(Debug, Clone, Copy, PartialEq, Eq, Structural)]
pub enum RepositoryError {
    /// No row is stored under the key.
    NotFound { entity: EntityKind, id: i64 },
    /// A row is already stored under the key.
    AlreadyExists { entity: EntityKind, id: i64 },
    /// The store refused the write.
    External(StorageError),
}

/// The index of the first stored affiliation named exactly `name`. Names
/// match by equality; the argument is not read as a pattern.
pub open spec fn row_with_name(rows: Seq<AffiliationObject>, name: Seq<char>) -> Option<int> {
    if exists|i: int| 0 <= i < rows.len() && rows[i].name@ == name {
        Some(
            choose|i: int|
                0 <= i < rows.len() && rows[i].name@ == name && forall|j: int|
                    0 <= j < i ==> rows[j].name@ != name,
        )
    } else {
        None
    }
}

pub open spec fn in_affiliation(id: i64) -> spec_fn(LiverObject) -> bool {
    |l: LiverObject| l.affiliation_id == Some(AffiliationId(id))
}

pub fn affiliation_probe(id: i64) -> (r: AffiliationObject)
    ensures
        r.key() == id,
{
    AffiliationObject { affiliation_id: AffiliationId(id), name: String::new(), version: UpdateSignature(0) }
}

/// The store of record.
pub struct Database {
    affiliations: Table<AffiliationObject>,
    livers: Table<LiverObject>,
    channels: Table<ChannelObject>,
    videos: Table<VideoObject>,
}

impl View for Database {
    type V = Tables;

    closed spec fn view(&self) -> Tables {
        Tables {
            affiliations: self.affiliations@,
            livers: self.livers@,
            channels: self.channels@,
            videos: self.videos@,
        }
    }
}

impl Database {
    pub open spec fn wf(&self) -> bool {
        tables_wf(self@)
    }

    /// An empty store.
    pub fn new() -> (r: Database)
        ensures
            r@ == empty_tables(),
            r.wf(),
    {
        Database {
            affiliations: Table::new(),
            livers: Table::new(),
            channels: Table::new(),
            videos: Table::new(),
        }
    }

    pub fn affiliations(&self) -> (r: &Table<AffiliationObject>)
        ensures
            r@ == self@.affiliations,
    {
        &self.affiliations
    }

    pub fn livers(&self) -> (r: &Table<LiverObject>)
        ensures
            r@ == self@.livers,
    {
        &self.livers
    }

    pub fn channels(&self) -> (r: &Table<ChannelObject>)
        ensures
            r@ == self@.channels,
    {
        &self.channels
    }

    pub fn videos(&self) -> (r: &Table<VideoObject>)
        ensures
            r@ == self@.videos,
    {
        &self.videos
    }

    pub fn fetch_all_affiliations(&self) -> (r: Vec<AffiliationObject>)
        ensures
            r@ == self@.affiliations,
    {
        self.affiliations.fetch_all()
    }

    pub fn fetch_all_livers(&self) -> (r: Vec<LiverObject>)
        ensures
            r@ == self@.livers,
    {
        self.livers.fetch_all()
    }

    pub fn fetch_all_channels(&self) -> (r: Vec<ChannelObject>)
        ensures
            r@ == self@.channels,
    {
        self.channels.fetch_all()
    }

    pub fn fetch_all_videos(&self) -> (r: Vec<VideoObject>)
        ensures
            r@ == self@.videos,
    {
        self.videos.fetch_all()
    }

    /// The affiliation stored under `id`; none is no error.
    pub fn fetch_affiliation_by_id(&self, id: i64) -> (r: Option<AffiliationObject>)
        requires
            self.wf(),
        ensures
            r == lookup(self@.affiliations, id),
    {
        self.affiliations.fetch_by_key(&affiliation_probe(id))
    }

    /// The first stored affiliation named exactly `name`; the argument is not
    /// read as a pattern.
    pub fn fetch_affiliation_by_name(&self, name: &str) -> (r: Option<AffiliationObject>)
        ensures
            match row_with_name(self@.affiliations, name@) {
                Some(i) => r == Some(self@.affiliations[i]),
                None => r is None,
            },
    {
        let rows = &self.affiliations;
        let target = String::from_str(name);
        let mut i: usize = 0;
        while i < rows.len()
            invariant
                i <= rows@.len(),
                target@ == name@,
                rows@ == self@.affiliations,
                forall|j: int| 0 <= j < i ==> rows@[j].name@ != name@,
            decreases rows@.len() - i,
        {
            if text_eq(&rows.row(i).name, &target) {
                proof {
                    let s = rows@;
                    assert(0 <= i < s.len() && s[i as int].name@ == name@ && forall|j: int|
                        0 <= j < i ==> s[j].name@ != name@);
                    let c = row_with_name(s, name@)->Some_0;
                    if c < i {
                        assert(s[c].name@ != name@);
                    }
                    if c > i {
                        assert(s[i as int].name@ != name@);
                    }
                }
                return Some(rows.row(i).duplicate());
            }
            i = i + 1;
        }
        None
    }

    /// The livers that belong to affiliation `id`, in storage order.
    pub fn fetch_livers_filtered(&self, id: i64) -> (r: Vec<LiverObject>)
        ensures
            r@ == self@.livers.filter(in_affiliation(id)),
    {
        let rows = &self.livers;
        let mut out: Vec<LiverObject> = Vec::new();
        let mut i: usize = 0;
        assert(rows@.take(0) =~= Seq::<LiverObject>::empty());
        while i < rows.len()
            invariant
                i <= rows@.len(),
                out@ == rows@.take(i as int).filter(in_affiliation(id)),
            decreases rows@.len() - i,
        {
            let l = rows.row(i);
            assert(rows@.take(i + 1).drop_last() =~= rows@.take(i as int));
            assert(rows@.take(i + 1).last() == rows@[i as int]);
            let keep = match l.affiliation_id {
                Some(a) => a.0 == id,
                None => false,
            };
            let ghost pred = in_affiliation(id);
            proof {
                reveal_with_fuel(Seq::<LiverObject>::filter, 1);
            }
            assert(keep == pred(rows@[i as int]));
            assert(rows@.take(i + 1).filter(pred) == (if pred(rows@[i as int]) {
                rows@.take(i as int).filter(pred).push(rows@[i as int])
            } else {
                rows@.take(i as int).filter(pred)
            }));
            if keep {
                out.push(l.duplicate());
            }
            i = i + 1;
        }
        assert(rows@.take(i as int) =~= rows@);
        out
    }

    /// Creates an affiliation with the given version.
    pub fn create_affiliation(&mut self, create: CreateAffiliation, version: UpdateSignature) -> (r:
        Result<AffiliationDto, RepositoryError>)
        requires
            old(self).wf(),
        ensures
            final(self).wf(),
            has_key(old(self)@.affiliations, create.id) ==> r == Err::<
                AffiliationDto,
                RepositoryError,
            >(RepositoryError::AlreadyExists { entity: EntityKind::Affiliation, id: create.id })
                && final(self)@ == old(self)@,
            !has_key(old(self)@.affiliations, create.id) ==> (r matches Ok(dto) && dto.id
                == create.id && dto.name@ == create.name@ && final(self)@ == (Tables {
                affiliations: old(self)@.affiliations.push(
                    AffiliationObject {
                        affiliation_id: AffiliationId(create.id),
                        name: create.name,
                        version,
                    },
                ),
                ..old(self)@
            })),
    {
        let row = AffiliationObject {
            affiliation_id: AffiliationId(create.id),
            name: create.name.clone(),
            version,
        };
        if self.affiliations.insert(row) {
            proof {
                let before = old(self)@.affiliations;
                assert forall|i: int| 0 <= i < self@.livers.len() implies liver_parent_ok(
                    self@.affiliations,
                    #[trigger] self@.livers[i],
                ) by {
                    assert(liver_parent_ok(before, self@.livers[i]));
                    if let Some(p) = self@.livers[i].affiliation_id {
                        let j = index_of(before, p.0);
                        assert(self@.affiliations[j] == before[j]);
                    }
                }
            }
            Ok(AffiliationDto { id: create.id, name: create.name })
        } else {
            Err(RepositoryError::AlreadyExists { entity: EntityKind::Affiliation, id: create.id })
        }
    }

    /// Renames the affiliation stored under `update.id`; its version stays.
    pub fn update_affiliation(&mut self, update: UpdateAffiliation) -> (r: Result<
        AffiliationDto,
        RepositoryError,
    >)
        requires
            old(self).wf(),
        ensures
            final(self).wf(),
            !has_key(old(self)@.affiliations, update.id) ==> r == Err::<
                AffiliationDto,
                RepositoryError,
            >(RepositoryError::NotFound { entity: EntityKind::Affiliation, id: update.id })
                && final(self)@ == old(self)@,
            has_key(old(self)@.affiliations, update.id) ==> (r matches Ok(dto) && dto.id
                == update.id && dto.name@ == update.name@ && final(self)@ == (Tables {
                affiliations: old(self)@.affiliations.update(
                    index_of(old(self)@.affiliations, update.id),
                    AffiliationObject {
                        name: update.name,
                        ..old(self)@.affiliations[index_of(old(self)@.affiliations, update.id)]
                    },
                ),
                ..old(self)@
            })),
    {
        match self.affiliations.fetch_by_key(&affiliation_probe(update.id)) {
            None => Err(RepositoryError::NotFound { entity: EntityKind::Affiliation, id: update.id }),
            Some(stored) => {
                let row = AffiliationObject { name: update.name.clone(), ..stored };
                let _ = self.affiliations.update(row);
                proof {
                    let before = old(self)@.affiliations;
                    assert forall|i: int| 0 <= i < self@.livers.len() implies liver_parent_ok(
                        self@.affiliations,
                        #[trigger] self@.livers[i],
                    ) by {
                        assert(liver_parent_ok(before, self@.livers[i]));
                        if let Some(p) = self@.livers[i].affiliation_id {
                            let j = index_of(before, p.0);
                            assert(self@.affiliations[j].key() == p.0);
                        }
                    }
                }
                Ok(AffiliationDto { id: update.id, name: update.name })
            },
        }
    }

    /// Deletes the affiliation stored under `id`, unless a liver belongs to it.
    pub fn delete_affiliation(&mut self, id: i64) -> (r: Result<(), RepositoryError>)
        requires
            old(self).wf(),
        ensures
            final(self).wf(),
            !has_key(old(self)@.affiliations, id) ==> r == Err::<(), RepositoryError>(
                RepositoryError::NotFound { entity: EntityKind::Affiliation, id },
            ) && final(self)@ == old(self)@,
            has_key(old(self)@.affiliations, id) && livers_refer(old(self)@.livers, id) ==> r
                == Err::<(), RepositoryError>(RepositoryError::External(StorageError::Restricted))
                && final(self)@ == old(self)@,
            has_key(old(self)@.affiliations, id) && !livers_refer(old(self)@.livers, id) ==> r
                is Ok && final(self)@ == (Tables {
                affiliations: old(self)@.affiliations.remove(index_of(old(self)@.affiliations, id)),
                ..old(self)@
            }),
    {
        let probe = affiliation_probe(id);
        if !self.affiliations.contains(&probe) {
            return Err(RepositoryError::NotFound { entity: EntityKind::Affiliation, id });
        }
        if self.livers.refers_to(id) {
            return Err(RepositoryError::External(StorageError::Restricted));
        }
        let _ = self.affiliations.delete(&probe);
        proof {
            let before = old(self)@.affiliations;
            let idx = index_of(before, id);
            assert forall|i: int| 0 <= i < self@.livers.len() implies liver_parent_ok(
                self@.affiliations,
                #[trigger] self@.livers[i],
            ) by {
                assert(liver_parent_ok(before, self@.livers[i]));
                if let Some(p) = self@.livers[i].affiliation_id {
                    let j = index_of(before, p.0);
                    assert(p.0 != id);
                    let k = if j < idx { j } else { j - 1 };
                    assert(self@.affiliations[k] == before[j]);
                }
            }
        }
        Ok(())
    }

    /// A copy of the store: the working state of a transaction.
    pub fn duplicate(&self) -> (r: Database)
        ensures
            r@ == self@,
    {
        Database {
            affiliations: self.affiliations.duplicate(),
            livers: self.livers.duplicate(),
            channels: self.channels.duplicate(),
            videos: self.videos.duplicate(),
        }
    }

    /// Reconciles one received snapshot. On an error nothing is written.
    pub fn apply(&mut self, item: &Received, now: UpdateSignature) -> (r: Result<
        Decision,
        StorageError,
    >)
        requires
            old(self).wf(),
        ensures
            final(self).wf(),
            match db_step(old(self)@, *item, now.0) {
                Ok((t, d)) => r == Ok::<Decision, StorageError>(d) && final(self)@ == t,
                Err(e) => r == Err::<Decision, StorageError>(e) && final(self)@ == old(self)@,
            },
    {
        proof {
            lemma_step_keeps_wf(self@, *item, now.0);
        }
        let del = item.delete;
        match &item.snapshot {
            Snapshot::Affiliation(a) => {
                let planned = self.affiliations.plan(a, del);
                if planned.0 == Decision::Delete && self.livers.refers_to(a.affiliation_id.0) {
                    return Err(StorageError::Restricted);
                }
                self.affiliations.perform(a.duplicate(), del, planned, now);
                Ok(planned.0)
            },
            Snapshot::Liver(l) => {
                let planned = self.livers.plan(l, del);
                if planned.0 == Decision::Insert || planned.0 == Decision::Update {
                    let parent_ok = match l.affiliation_id {
                        Some(p) => self.affiliations.has_id(p.0),
                        None => true,
                    };
                    if !parent_ok {
                        return Err(StorageError::ForeignKey);
                    }
                }
                if planned.0 == Decision::Delete && self.channels.refers_to(l.liver_id.0) {
                    return Err(StorageError::Restricted);
                }
                self.livers.perform(l.duplicate(), del, planned, now);
                Ok(planned.0)
            },
            Snapshot::Channel(c) => {
                let planned = self.channels.plan(c, del);
                if planned.0 == Decision::Insert || planned.0 == Decision::Update {
                    let parent_ok = match c.liver_id {
                        Some(p) => self.livers.has_id(p.0),
                        None => true,
                    };
                    if !parent_ok {
                        return Err(StorageError::ForeignKey);
                    }
                }
                if planned.0 == Decision::Delete && self.videos.refers_to(&c.channel_id) {
                    return Err(StorageError::Restricted);
                }
                self.channels.perform(c.duplicate(), del, planned, now);
                Ok(planned.0)
            },
            Snapshot::Video(v) => {
                let planned = self.videos.plan(v, del);
                if planned.0 == Decision::Insert || planned.0 == Decision::Update {
                    let parent_ok = match &v.channel_id {
                        Some(p) => self.channels.has_id(p),
                        None => true,
                    };
                    if !parent_ok {
                        return Err(StorageError::ForeignKey);
                    }
                }
                self.videos.perform(v.duplicate(), del, planned, now);
                Ok(planned.0)
            },
        }
    }

    /// Reconciles a batch in arrival order under one transaction: either every
    /// item is applied and the counters are returned, or the first item that
    /// fails is reported and the store is left as it was.
    pub fn ingest(&mut self, batch: &Vec<Received>, now: UpdateSignature) -> (r: Result<
        ResultMsg,
        IngestFailure,
    >)
        requires
            old(self).wf(),
        ensures
            final(self).wf(),
            match r {
                Ok(msg) => db_batch(old(self)@, batch@, now.0) == Ok::<
                    (Tables, Tally),
                    (int, StorageError),
                >((final(self)@, msg.tally())),
                Err(f) => db_batch(old(self)@, batch@, now.0) == Err::<
                    (Tables, Tally),
                    (int, StorageError),
                >((f.position as int, f.error)) && final(self)@ == old(self)@,
            },
    {
        let mut work = self.duplicate();
        let mut msg = ResultMsg::new();
        let mut i: usize = 0;
        assert(batch@.take(0) =~= Seq::<Received>::empty());
        while i < batch.len()
            invariant
                i <= batch@.len(),
                self.wf(),
                work.wf(),
                db_batch(self@, batch@.take(i as int), now.0) == Ok::<
                    (Tables, Tally),
                    (int, StorageError),
                >((work@, msg.tally())),
                msg.receive == i,
                msg.insert_count <= i,
                msg.update_count <= i,
                msg.delete_count <= i,
                msg.skip_count <= i,
            decreases batch@.len() - i,
        {
            let ghost before = work@;
            assert(batch@.take(i + 1).drop_last() =~= batch@.take(i as int));
            match work.apply(&batch[i], now) {
                Ok(d) => {
                    msg.record(d);
                },
                Err(e) => {
                    proof {
                        assert(batch@.take(i + 1).last() == batch@[i as int]);
                        assert(db_batch(self@, batch@.take(i + 1), now.0) == Err::<
                            (Tables, Tally),
                            (int, StorageError),
                        >((i as int, e)));
                        lemma_batch_err_sticks(self@, batch@, i + 1, batch@.len() as int, now.0);
                        assert(batch@.take(batch@.len() as int) =~= batch@);
                    }
                    return Err(IngestFailure { position: i, error: e });
                },
            }
            i = i + 1;
        }
        assert(batch@.take(i as int) =~= batch@);
        *self = work;
        Ok(msg)
    }
}

} // verus!
