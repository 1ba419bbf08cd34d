use matatabi::entities::{Affiliation, AffiliationDto, CreateAffiliation, UpdateAffiliation};
use matatabi::bearer::{Bearer, ParseError};
use matatabi::models;
use matatabi::objects::{ChannelObjectBuilder, InitVideoObject};
use matatabi::pattern::{chars_of, like};
use matatabi::record::Timestamp;
use matatabi::repository::{AffiliationRepository, CreateInteractor, DeleteInteractor, UpdateInteractor};
use matatabi::table::Table;
use matatabi::store::{Database, EntityKind, RepositoryError, StorageError};
use matatabi::wire::{AffiliationMsg, ChannelMsg, DeleteFlag, LiverMsg, VideoMsg};
use matatabi::{AffiliationId, ChannelId, LiverObject, UpdateSignature, VideoId};

#[test]
fn signature_regions() {
    assert!(UpdateSignature::new(0).is_tombstone());
    assert!(UpdateSignature::new(-3).is_tombstone());
    assert!(!UpdateSignature::new(1).is_tombstone());
    assert!(UpdateSignature::new(1).is_irregular());
    assert!(UpdateSignature::new(0).is_irregular());
    assert!(!UpdateSignature::new(2).is_irregular());
    assert!(UpdateSignature::new(2).is_valid());
    assert_eq!(UpdateSignature::new(202401010000).as_i64(), 202401010000);
    assert!(UpdateSignature::new(3) > UpdateSignature::new(2));
}

#[test]
fn calendar_stamp_is_yyyymmddhhmm() {
    assert_eq!(UpdateSignature::from_calendar(2024, 3, 4, 5, 6).0, 202403040506);
    assert_eq!(UpdateSignature::from_calendar(1999, 12, 31, 23, 59).0, 199912312359);
}

#[test]
fn now_is_a_valid_recent_signature() {
    let now = UpdateSignature::now().unwrap();
    assert!(now.0 >= 202001010000);
    assert!(now.0 <= 999912312359);
    assert!(UpdateSignature::default().0 >= now.0);
}

#[test]
fn ids_keep_their_values() {
    assert_eq!(AffiliationId::new(4).as_i64(), 4);
    assert_eq!(ChannelId::new("c".to_string()).as_str(), "c");
    assert_eq!(VideoId::new("v".to_string()).as_str(), "v");
    assert!(ChannelId::new("c".to_string()) == ChannelId::new("c".to_string()));
    assert!(VideoId::new("a".to_string()) != VideoId::new("b".to_string()));
}

#[test]
fn wire_round_trip() {
    let msg = LiverMsg {
        id: 3,
        affiliation_id: Some(1),
        name: "n".to_string(),
        localized_name: "l".to_string(),
        override_at: 202401010000,
        delete: true,
    };
    assert!(msg.flagged());
    let obj = msg.to_object();
    assert_eq!(obj.liver_id().0, 3);
    assert_eq!(obj.affiliation_id(), Some(AffiliationId(1)));
    let back = LiverMsg::from_object(&obj);
    assert_eq!(back.id, 3);
    assert_eq!(back.affiliation_id, Some(1));
    assert_eq!(back.override_at, 202401010000);
    assert!(!back.delete);
}

#[test]
fn repository_create_update_delete() {
    let mut db = Database::new();
    let v = UpdateSignature(202401010000);
    let dto = db.create_affiliation(CreateAffiliation { id: 1, name: "A".to_string() }, v).unwrap();
    assert_eq!((dto.id, dto.name.as_str()), (1, "A"));
    assert_eq!(
        db.create_affiliation(CreateAffiliation { id: 1, name: "B".to_string() }, v).unwrap_err(),
        RepositoryError::AlreadyExists { entity: EntityKind::Affiliation, id: 1 }
    );
    let dto = db.update_affiliation(UpdateAffiliation { id: 1, name: "B".to_string() }).unwrap();
    assert_eq!(dto.name, "B");
    assert_eq!(db.fetch_affiliation_by_id(1).unwrap().version.0, 202401010000);
    assert_eq!(
        db.update_affiliation(UpdateAffiliation { id: 2, name: "C".to_string() }).unwrap_err(),
        RepositoryError::NotFound { entity: EntityKind::Affiliation, id: 2 }
    );
    assert_eq!(db.fetch_affiliation_by_name("B").unwrap().affiliation_id.0, 1);
    assert!(db.fetch_affiliation_by_name("A").is_none());
    db.ingest(
        &vec![LiverMsg { id: 7, affiliation_id: Some(1), override_at: 2, ..Default::default() }.to_received()],
        v,
    )
    .unwrap();
    assert_eq!(db.delete_affiliation(1).unwrap_err(), RepositoryError::External(StorageError::Restricted));
    assert_eq!(
        db.delete_affiliation(9).unwrap_err(),
        RepositoryError::NotFound { entity: EntityKind::Affiliation, id: 9 }
    );
}

#[test]
fn repository_reads() {
    let mut db = Database::new();
    let v = UpdateSignature(202401010000);
    let batch = vec![
        AffiliationMsg { id: 1, name: "A".to_string(), override_at: 2, delete: false }.to_received(),
        AffiliationMsg { id: 2, name: "A".to_string(), override_at: 2, delete: false }.to_received(),
        LiverMsg { id: 10, affiliation_id: Some(2), override_at: 2, ..Default::default() }.to_received(),
        LiverMsg { id: 11, affiliation_id: None, override_at: 2, ..Default::default() }.to_received(),
        LiverMsg { id: 12, affiliation_id: Some(2), override_at: 2, ..Default::default() }.to_received(),
    ];
    db.ingest(&batch, v).unwrap();
    assert_eq!(db.fetch_affiliation_by_name("A").unwrap().affiliation_id.0, 1);
    assert!(db.fetch_affiliation_by_id(3).is_none());
    let ids: Vec<i64> = db.fetch_livers_filtered(2).iter().map(|l| l.liver_id.0).collect();
    assert_eq!(ids, vec![10, 12]);
    assert!(db.fetch_livers_filtered(99).is_empty());
}

#[test]
fn entities_and_models() {
    let a = Affiliation::new(3, "x".to_string());
    assert_eq!(a.id().as_i64(), 3);
    assert_eq!(a.name(), "x");
    let dto = AffiliationDto::from_entity(a);
    assert_eq!((dto.id, dto.name.as_str()), (3, "x"));
    let liver = LiverObject::new(4, Some(3), "n".to_string(), "l".to_string(), UpdateSignature(2));
    let view = models::Liver::from_object(&liver);
    assert_eq!(view.liver_id.value, 4);
    assert_eq!(view.affiliation.map(|n| n.value), Some(3));
    let id: models::StringId<VideoId> = models::StringId::new("v".to_string());
    assert_eq!(id.as_ref(), "v");
}

#[test]
fn builders_fill_sentinels_and_build() {
    let before = UpdateSignature::now().unwrap();
    let channel = ChannelObjectBuilder { channel_id: ChannelId::new("UC".to_string()), ..Default::default() }.build();
    assert_eq!(channel.channel_id().as_str(), "UC");
    assert_eq!(channel.logo_url(), "none");
    assert_eq!(channel.description(), "none");
    assert!(channel.liver_id().is_none());
    assert!(channel.published_at().seconds > 1_600_000_000);
    assert!(channel.version.0 >= before.0);
    let video = InitVideoObject { video_id: VideoId::new("v".to_string()), ..Default::default() }.build();
    assert_eq!(video.title(), "none");
    assert_eq!(video.thumbnail_url(), "none");
    assert!(video.published_at().is_none() && video.started_at().is_none());
    let parts = video.decompose();
    assert_eq!(parts.video_id.as_str(), "v");
    let again = parts.build();
    assert_eq!(again.video_id().as_str(), "v");
    assert!(again.channel_id().is_none());
}

#[test]
fn clock_reading_is_recent() {
    let t = Timestamp::now().unwrap();
    assert!(t.seconds > 1_600_000_000);
    assert!(t.nanos >= 0);
}

#[test]
fn header_value_and_messages() {
    let b = Bearer::new("tok".to_string());
    assert_eq!(b.header_value(), "Bearer tok");
    assert_eq!(Bearer::parse(&b.header_value()).unwrap().get_token(), "tok");
    assert_eq!(ParseError::Invalid.message(), "Invalid header value.");
    assert_eq!(ParseError::MissingTokenSchemeName.message(), "Missing authenticate scheme.");
}

#[test]
fn read_api_projections() {
    let channel = ChannelMsg {
        id: "UC".to_string(),
        liver_id: Some(4),
        published_at: Some(Timestamp { seconds: 10, nanos: 5 }),
        ..Default::default()
    }
    .to_object();
    let view = models::Channel::from_object(&channel);
    assert_eq!(view.channel_id.as_ref(), "UC");
    assert_eq!(view.liver_id.map(|n| n.value), Some(4));
    assert_eq!(view.published_at, Timestamp { seconds: 10, nanos: 5 });
    let video = VideoMsg { id: "v".to_string(), channel_id: Some("UC".to_string()), ..Default::default() }.to_object();
    let view = models::Video::from_object(&video);
    assert_eq!(view.video_id.as_ref(), "v");
    assert_eq!(view.channel_id.map(|c| c.value), Some("UC".to_string()));
    assert_eq!(view.thumbnail_url, "https://img.youtube.com/vi/v/maxresdefault.jpg");
    let aff = matatabi::AffiliationObject::new(2, "A".to_string(), UpdateSignature(5));
    let view = models::Affiliation::from_object(&aff);
    assert_eq!((view.affiliation_id.value, view.name.as_str()), (2, "A"));
}

#[test]
fn table_driver_operations() {
    let mut t: Table<matatabi::AffiliationObject> = Table::new();
    let a = matatabi::AffiliationObject::new(1, "A".to_string(), UpdateSignature(5));
    assert!(t.insert(a.clone()));
    assert!(!t.insert(a.clone()));
    assert!(t.contains(&a));
    assert_eq!(t.version_of(&a), Some(UpdateSignature(5)));
    let b = matatabi::AffiliationObject::new(1, "B".to_string(), UpdateSignature(6));
    let old = t.update(b.clone()).unwrap();
    assert_eq!(old.name, "A");
    assert_eq!(t.fetch_by_key(&a).unwrap().name, "B");
    assert_eq!(t.delete(&a).unwrap().name, "B");
    assert!(t.delete(&a).is_none());
    assert!(t.update(b).is_none());
    assert_eq!(t.len(), 0);
}

#[test]
fn interactors_serve_requests_through_the_repository() {
    let mut create = CreateInteractor::new(Database::new());
    let dto = create.create(CreateAffiliation { id: 1, name: "A".to_string() }).unwrap();
    assert_eq!((dto.id, dto.name.as_str()), (1, "A"));
    assert_eq!(
        create.create(CreateAffiliation { id: 1, name: "A".to_string() }).unwrap_err(),
        RepositoryError::AlreadyExists { entity: EntityKind::Affiliation, id: 1 }
    );
    let stamped = create.affiliation_repo.fetch_affiliation_by_id(1).unwrap().version;
    assert!(stamped.is_valid());

    let mut update = UpdateInteractor::new(create.affiliation_repo);
    let dto = update.update(UpdateAffiliation { id: 1, name: "B".to_string() }).unwrap();
    assert_eq!(dto.name, "B");
    assert_eq!(update.affiliation_repo.fetch_from_name("B").unwrap().id.as_i64(), 1);
    assert!(update.affiliation_repo.fetch_from_name("A").is_none());
    assert_eq!(update.affiliation_repo.fetch_affiliation_by_id(1).unwrap().version, stamped);
    assert_eq!(
        update.update(UpdateAffiliation { id: 7, name: "B".to_string() }).unwrap_err(),
        RepositoryError::NotFound { entity: EntityKind::Affiliation, id: 7 }
    );

    let mut delete = DeleteInteractor::new(update.affiliation_repo);
    assert_eq!(delete.affiliation_repo.fetch_all().len(), 1);
    assert!(delete.delete(1).is_ok());
    assert!(delete.affiliation_repo.fetch_all().is_empty());
    assert_eq!(
        delete.delete(1).unwrap_err(),
        RepositoryError::NotFound { entity: EntityKind::Affiliation, id: 1 }
    );
    assert!(delete.affiliation_repo.fetch_from_id(&AffiliationId::new(1)).is_none());
}

#[test]
fn presence_by_key_or_name() {
    let mut db = Database::new();
    let batch = vec![
        AffiliationMsg { id: 1, name: "Alpha".to_string(), override_at: 2, delete: false }.to_received(),
        LiverMsg { id: 10, affiliation_id: None, name: "Mio".to_string(), override_at: 2, ..Default::default() }
            .to_received(),
    ];
    db.ingest(&batch, UpdateSignature(202401010000)).unwrap();
    let by_key = matatabi::AffiliationObject::new(1, "Other".to_string(), UpdateSignature(2));
    let by_name = matatabi::AffiliationObject::new(2, "Alpha".to_string(), UpdateSignature(2));
    let by_pattern = matatabi::AffiliationObject::new(2, "Al%".to_string(), UpdateSignature(2));
    let by_one = matatabi::AffiliationObject::new(2, "_lpha".to_string(), UpdateSignature(2));
    let too_short = matatabi::AffiliationObject::new(2, "Al".to_string(), UpdateSignature(2));
    assert!(db.affiliations().present(&by_pattern));
    assert!(db.affiliations().present(&by_one));
    assert!(!db.affiliations().present(&too_short));
    let neither = matatabi::AffiliationObject::new(3, "Beta".to_string(), UpdateSignature(2));
    assert!(db.affiliations().present(&by_key));
    assert!(db.affiliations().present(&by_name));
    assert!(!db.affiliations().present(&neither));
    assert!(!db.affiliations().contains(&by_name));
    let liver_by_name = LiverObject::new(11, None, "Mio".to_string(), "".to_string(), UpdateSignature(2));
    let liver_by_key = LiverObject::new(10, None, "X".to_string(), "".to_string(), UpdateSignature(2));
    let liver_neither = LiverObject::new(12, None, "X".to_string(), "".to_string(), UpdateSignature(2));
    assert!(db.livers().present(&liver_by_name));
    assert!(db.livers().present(&liver_by_key));
    assert!(!db.livers().present(&liver_neither));
}

#[test]
fn repository_delete_succeeds_when_nothing_refers() {
    let mut db = Database::new();
    db.create_affiliation(CreateAffiliation { id: 4, name: "D".to_string() }, UpdateSignature(2)).unwrap();
    assert!(AffiliationRepository::delete(&mut db, &AffiliationId::new(4)).is_ok());
    assert!(db.fetch_affiliation_by_id(4).is_none());
}

#[test]
fn written_row_stamps_only_inserts() {
    let irregular = LiverObject::new(1, None, "a".to_string(), "b".to_string(), UpdateSignature(0));
    let now = UpdateSignature::from_calendar(2024, 3, 4, 5, 6);
    let inserted = matatabi::engine::written_row(&irregular, matatabi::engine::Decision::Insert, now);
    assert_eq!(inserted.version.0, 202403040506);
    let deleted = matatabi::engine::written_row(&irregular, matatabi::engine::Decision::Delete, now);
    assert_eq!(deleted.version.0, 0);
    assert!(UpdateSignature::now().unwrap().is_valid());
    assert!(UpdateSignature::now_or_irregular().is_valid());
    assert!(Timestamp::now_or_epoch().seconds > 1_600_000_000);
}

#[test]
fn like_patterns() {
    let m = |p: &str, t: &str| like(&chars_of(p), &chars_of(t));
    assert!(m("Al%", "Alpha"));
    assert!(m("%pha", "Alpha"));
    assert!(m("%", ""));
    assert!(m("", ""));
    assert!(!m("", "a"));
    assert!(m("A_p%a", "Alpha"));
    assert!(!m("A_p", "Alpha"));
    assert!(m("%l%h%", "Alpha"));
    assert!(!m("%x%", "Alpha"));
    assert!(m("100\\%", "100%"));
    assert!(!m("100\\%", "1000"));
    assert!(m("a\\_b", "a_b"));
    assert!(!m("a\\_b", "axb"));
    assert!(m("Mio", "Mio"));
    assert!(!m("mio", "Mio"));
}
