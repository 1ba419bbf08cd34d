use matatabi::engine::{decide, prepare_insert, Decision, ResultMsg};
use matatabi::store::{Database, IngestFailure, Received, Snapshot, StorageError};
use matatabi::wire::{AffiliationMsg, ChannelMsg, LiverMsg, VideoMsg};
use matatabi::{AffiliationObject, LiverObject, UpdateSignature};

fn aff(id: i64, name: &str, override_at: i64, delete: bool) -> Received {
    AffiliationMsg { id, name: name.to_string(), override_at, delete }.to_received()
}

fn liver(id: i64, affiliation_id: Option<i64>, name: &str, override_at: i64, delete: bool) -> Received {
    LiverMsg {
        id,
        affiliation_id,
        name: name.to_string(),
        localized_name: format!("{} (localized)", name),
        override_at,
        delete,
    }
    .to_received()
}

fn now() -> UpdateSignature {
    UpdateSignature::from_calendar(2024, 3, 4, 5, 6)
}

fn rows(db: &Database) -> Vec<(i64, String, i64)> {
    db.fetch_all_affiliations()
        .iter()
        .map(|a| (a.affiliation_id.0, a.name.clone(), a.version.0))
        .collect()
}

fn counts(msg: &ResultMsg) -> (u64, u64, u64, u64, u64) {
    (msg.receive, msg.insert_count, msg.update_count, msg.delete_count, msg.skip_count)
}

fn seeded(id: i64, name: &str, version: i64) -> Database {
    let mut db = Database::new();
    db.ingest(&vec![aff(id, name, version, false)], now()).unwrap();
    db
}

#[test]
fn fresh_insert() {
    let mut db = Database::new();
    let msg = db.ingest(&vec![aff(1, "Alpha", 202401010000, false)], now()).unwrap();
    assert_eq!(rows(&db), vec![(1, "Alpha".to_string(), 202401010000)]);
    assert_eq!(counts(&msg), (1, 1, 0, 0, 0));
}

#[test]
fn version_update_wins() {
    let mut db = seeded(1, "Alpha", 202401010000);
    let msg = db.ingest(&vec![aff(1, "Alpha2", 202401020000, false)], now()).unwrap();
    assert_eq!(rows(&db), vec![(1, "Alpha2".to_string(), 202401020000)]);
    assert_eq!(counts(&msg), (1, 0, 1, 0, 0));
}

#[test]
fn stale_version_ignored() {
    let mut db = seeded(1, "Alpha2", 202401020000);
    let msg = db.ingest(&vec![aff(1, "Alpha3", 202312310000, false)], now()).unwrap();
    assert_eq!(rows(&db), vec![(1, "Alpha2".to_string(), 202401020000)]);
    assert_eq!(counts(&msg), (1, 0, 0, 0, 1));
}

#[test]
fn irregular_stamp_on_insert() {
    let mut db = Database::new();
    let msg = db.ingest(&vec![aff(2, "Beta", 0, false)], now()).unwrap();
    assert_eq!(rows(&db), vec![(2, "Beta".to_string(), 202403040506)]);
    assert_eq!(counts(&msg), (1, 1, 0, 0, 0));
}

#[test]
fn tombstone_deletes() {
    let mut db = seeded(1, "Alpha2", 202401020000);
    let msg = db.ingest(&vec![aff(1, "Alpha2", 0, true)], now()).unwrap();
    assert!(rows(&db).is_empty());
    assert_eq!(counts(&msg), (1, 0, 0, 1, 0));
}

#[test]
fn orphan_tombstone() {
    let mut db = Database::new();
    let msg = db.ingest(&vec![aff(9, "", 0, true)], now()).unwrap();
    assert!(rows(&db).is_empty());
    assert_eq!(counts(&msg), (1, 0, 0, 0, 1));
}

#[test]
fn content_equal_skip() {
    let mut db = seeded(1, "Alpha", 202401010000);
    let msg = db.ingest(&vec![aff(1, "Alpha", 202401020000, false)], now()).unwrap();
    assert_eq!(rows(&db), vec![(1, "Alpha".to_string(), 202401010000)]);
    assert_eq!(counts(&msg), (1, 0, 0, 0, 1));
}

#[test]
fn equal_version_is_no_newer_information() {
    let mut db = seeded(1, "Alpha", 202401010000);
    let msg = db.ingest(&vec![aff(1, "Other", 202401010000, false)], now()).unwrap();
    assert_eq!(rows(&db), vec![(1, "Alpha".to_string(), 202401010000)]);
    assert_eq!(counts(&msg), (1, 0, 0, 0, 1));
}

#[test]
fn irregular_update_does_not_mutate() {
    let mut db = seeded(1, "Alpha", 202401010000);
    for v in [1, 0, -5] {
        let msg = db.ingest(&vec![aff(1, "Changed", v, false)], now()).unwrap();
        assert_eq!(counts(&msg), (1, 0, 0, 0, 1));
    }
    assert_eq!(rows(&db), vec![(1, "Alpha".to_string(), 202401010000)]);
}

#[test]
fn tombstone_twice_is_once() {
    let mut once = seeded(1, "Alpha", 202401010000);
    once.ingest(&vec![aff(1, "Alpha", 0, true)], now()).unwrap();
    let mut twice = seeded(1, "Alpha", 202401010000);
    let msg = twice
        .ingest(&vec![aff(1, "Alpha", 0, true), aff(1, "Alpha", 0, true)], now())
        .unwrap();
    assert_eq!(rows(&once), rows(&twice));
    assert_eq!(counts(&msg), (2, 0, 0, 1, 1));
}

#[test]
fn versions_only_grow_over_a_history() {
    let mut db = Database::new();
    let history = [202401010000, 202401050000, 202401030000, 202401070000, 202401060000];
    for (n, v) in history.iter().enumerate() {
        db.ingest(&vec![aff(1, &format!("name{}", n), *v, false)], now()).unwrap();
    }
    assert_eq!(rows(&db), vec![(1, "name3".to_string(), 202401070000)]);
}

#[test]
fn failed_batch_applies_nothing() {
    let mut db = seeded(1, "Alpha", 202401010000);
    let before = rows(&db);
    let batch = vec![
        aff(2, "Beta", 202401010000, false),
        aff(1, "Alpha2", 202401020000, false),
        liver(10, Some(77), "Orphan", 202401010000, false),
        aff(3, "Gamma", 202401010000, false),
    ];
    let r = db.ingest(&batch, now());
    assert_eq!(r.unwrap_err(), IngestFailure { position: 2, error: StorageError::ForeignKey });
    assert_eq!(rows(&db), before);
    assert!(db.fetch_all_livers().is_empty());
}

#[test]
fn read_your_writes_in_batch() {
    let mut db = Database::new();
    let batch = vec![aff(5, "A", 202401010000, false), liver(50, Some(5), "L", 202401010000, false)];
    let msg = db.ingest(&batch, now()).unwrap();
    assert_eq!(counts(&msg), (2, 2, 0, 0, 0));
    let livers = db.fetch_all_livers();
    assert_eq!(livers.len(), 1);
    assert_eq!(livers[0].liver_id.0, 50);
    assert_eq!(livers[0].affiliation_id.map(|a| a.0), Some(5));
}

#[test]
fn liver_without_its_affiliation_is_refused() {
    let mut db = Database::new();
    let r = db.ingest(&vec![liver(50, Some(5), "L", 202401010000, false)], now());
    assert_eq!(r.unwrap_err(), IngestFailure { position: 0, error: StorageError::ForeignKey });
}

#[test]
fn deleting_a_referenced_affiliation_is_refused() {
    let mut db = Database::new();
    db.ingest(&vec![aff(5, "A", 202401010000, false), liver(50, Some(5), "L", 202401010000, false)], now())
        .unwrap();
    let r = db.ingest(&vec![aff(5, "A", 0, true)], now());
    assert_eq!(r.unwrap_err(), IngestFailure { position: 0, error: StorageError::Restricted });
    assert_eq!(rows(&db).len(), 1);
}

#[test]
fn empty_batch_counts_nothing() {
    let mut db = Database::new();
    let msg = db.ingest(&vec![], now()).unwrap();
    assert_eq!(counts(&msg), (0, 0, 0, 0, 0));
}

#[test]
fn channels_and_videos_reconcile() {
    let mut db = Database::new();
    let channel = ChannelMsg {
        id: "UC1".to_string(),
        liver_id: None,
        logo_url: "logo".to_string(),
        published_at: None,
        description: "d".to_string(),
        override_at: 202401010000,
        delete: false,
    };
    let video = VideoMsg {
        id: "v1".to_string(),
        channel_id: Some("UC1".to_string()),
        title: "t".to_string(),
        override_at: 202401010000,
        ..Default::default()
    };
    let msg = db.ingest(&vec![channel.to_received(), video.to_received()], now()).unwrap();
    assert_eq!(counts(&msg), (2, 2, 0, 0, 0));
    let videos = db.fetch_all_videos();
    assert_eq!(videos[0].thumbnail_url, "https://img.youtube.com/vi/v1/maxresdefault.jpg");
    assert_eq!(db.fetch_all_channels()[0].published_at.seconds, 0);
    let mut newer = video.clone();
    newer.title = "t2".to_string();
    newer.override_at = 202401020000;
    let msg = db.ingest(&vec![newer.to_received()], now()).unwrap();
    assert_eq!(counts(&msg), (1, 0, 1, 0, 0));
    assert_eq!(db.fetch_all_videos()[0].title, "t2");
}

#[test]
fn decide_follows_the_rule() {
    let stored = AffiliationObject::new(1, "Alpha".to_string(), UpdateSignature(202401010000));
    let same = AffiliationObject::new(1, "Alpha".to_string(), UpdateSignature(202401020000));
    let newer = AffiliationObject::new(1, "Beta".to_string(), UpdateSignature(202401020000));
    let older = AffiliationObject::new(1, "Beta".to_string(), UpdateSignature(202301020000));
    assert_eq!(decide(None, &newer, false), Decision::Insert);
    assert_eq!(decide(None, &newer, true), Decision::SkipOrphan);
    assert_eq!(decide(Some(&stored), &newer, true), Decision::Delete);
    assert_eq!(decide(Some(&stored), &same, false), Decision::SkipEqual);
    assert_eq!(decide(Some(&stored), &newer, false), Decision::Update);
    assert_eq!(decide(Some(&stored), &older, false), Decision::SkipStale);
}

#[test]
fn prepare_insert_stamps_only_irregular_versions() {
    let irregular = LiverObject::new(1, None, "a".to_string(), "b".to_string(), UpdateSignature(1));
    assert_eq!(prepare_insert(irregular, now()).version.0, 202403040506);
    let valid = LiverObject::new(1, None, "a".to_string(), "b".to_string(), UpdateSignature(2));
    assert_eq!(prepare_insert(valid, now()).version.0, 2);
}

#[test]
fn snapshot_kinds_carry_their_flag() {
    let r = aff(1, "x", 3, true);
    assert!(r.delete);
    assert!(matches!(r.snapshot, Snapshot::Affiliation(_)));
}

#[test]
fn channel_needs_its_liver_and_video_its_channel() {
    let mut db = Database::new();
    let channel = ChannelMsg { id: "UC".to_string(), liver_id: Some(3), override_at: 5, ..Default::default() };
    let r = db.ingest(&vec![channel.to_received()], now());
    assert_eq!(r.unwrap_err(), IngestFailure { position: 0, error: StorageError::ForeignKey });
    let video = VideoMsg { id: "v".to_string(), channel_id: Some("UC".to_string()), override_at: 5, ..Default::default() };
    let r = db.ingest(&vec![video.to_received()], now());
    assert_eq!(r.unwrap_err(), IngestFailure { position: 0, error: StorageError::ForeignKey });
    let batch = vec![
        aff(1, "A", 5, false),
        liver(3, Some(1), "L", 5, false),
        channel.to_received(),
        video.to_received(),
    ];
    let msg = db.ingest(&batch, now()).unwrap();
    assert_eq!(counts(&msg), (4, 4, 0, 0, 0));
    let r = db.ingest(&vec![ChannelMsg { delete: true, ..channel.clone() }.to_received()], now());
    assert_eq!(r.unwrap_err(), IngestFailure { position: 0, error: StorageError::Restricted });
    let msg = db
        .ingest(
            &vec![
                VideoMsg { delete: true, ..video.clone() }.to_received(),
                ChannelMsg { delete: true, ..channel.clone() }.to_received(),
                liver(3, None, "L", 0, true),
                aff(1, "A", 0, true),
            ],
            now(),
        )
        .unwrap();
    assert_eq!(counts(&msg), (4, 0, 0, 4, 0));
    assert!(db.fetch_all_videos().is_empty() && db.fetch_all_channels().is_empty());
}

#[test]
fn apply_reports_each_decision() {
    let mut db = Database::new();
    assert_eq!(db.apply(&aff(1, "A", 202401010000, false), now()), Ok(Decision::Insert));
    assert_eq!(db.apply(&aff(1, "B", 202401020000, false), now()), Ok(Decision::Update));
    assert_eq!(db.apply(&aff(1, "B", 202401030000, false), now()), Ok(Decision::SkipEqual));
    assert_eq!(db.apply(&aff(1, "C", 202401010000, false), now()), Ok(Decision::SkipStale));
    assert_eq!(db.apply(&aff(1, "C", 0, true), now()), Ok(Decision::Delete));
    assert_eq!(db.apply(&aff(1, "C", 0, true), now()), Ok(Decision::SkipOrphan));
}

#[test]
fn version_is_the_max_since_the_last_insertion() {
    let mut db = Database::new();
    let batch = vec![
        aff(1, "a", 202401050000, false),
        aff(1, "b", 202401070000, false),
        aff(1, "c", 202401060000, false),
        aff(1, "c", 0, true),
        aff(1, "d", 202401020000, false),
        aff(1, "e", 202401030000, false),
    ];
    let msg = db.ingest(&batch, now()).unwrap();
    assert_eq!(counts(&msg), (6, 2, 2, 1, 1));
    assert_eq!(rows(&db), vec![(1, "e".to_string(), 202401030000)]);
}
