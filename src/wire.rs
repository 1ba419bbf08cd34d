//! The messages of the ingestion RPC, and their conversion to and from
//! records. A message carries its delete flag inline; `override_at` is the
//! snapshot's version.

use vstd::prelude::*;
use vstd::string::StringExecFns;
use crate::version::UpdateSignature;
use crate::ids::{AffiliationId, ChannelId, LiverId, VideoId};
use crate::objects::{AffiliationObject, ChannelObject, LiverObject, VideoObject};
use crate::record::Timestamp;
use crate::store::{Received, Snapshot};

verus! {

#[derive(Debug, Clone, Default)]
pub struct AffiliationMsg {
    pub id: i64,
    pub name: String,
    pub override_at: i64,
    pub delete: bool,
}

#[derive(Debug, Clone, Default)]
pub struct LiverMsg {
    pub id: i64,
    pub affiliation_id: Option<i64>,
    pub name: String,
    pub localized_name: String,
    pub override_at: i64,
    pub delete: bool,
}

#[derive(Debug, Clone, Default)]
pub struct ChannelMsg {
    pub id: String,
    pub liver_id: Option<i64>,
    pub logo_url: String,
    pub published_at: Option<Timestamp>,
    pub description: String,
    pub override_at: i64,
    pub delete: bool,
}

#[derive(Debug, Clone, Default)]
pub struct VideoMsg {
    pub id: String,
    pub channel_id: Option<String>,
    pub title: String,
    pub description: String,
    pub published_at: Option<Timestamp>,
    pub updated_at: Option<Timestamp>,
    pub will_start_at: Option<Timestamp>,
    pub started_at: Option<Timestamp>,
    pub override_at: i64,
    pub delete: bool,
}

/// A wire message that may ask for its key to be deleted.
pub trait DeleteFlag {
    spec fn flag(&self) -> bool;

    fn flagged(&self) -> (r: bool)
        ensures
            r == self.flag(),
    ;
}

impl DeleteFlag for AffiliationMsg {
    open spec fn flag(&self) -> bool {
        self.delete
    }

    fn flagged(&self) -> (r: bool) {
        self.delete
    }
}

impl DeleteFlag for LiverMsg {
    open spec fn flag(&self) -> bool {
        self.delete
    }

    fn flagged(&self) -> (r: bool) {
        self.delete
    }
}

impl DeleteFlag for ChannelMsg {
    open spec fn flag(&self) -> bool {
        self.delete
    }

    fn flagged(&self) -> (r: bool) {
        self.delete
    }
}

impl DeleteFlag for VideoMsg {
    open spec fn flag(&self) -> bool {
        self.delete
    }

    fn flagged(&self) -> (r: bool) {
        self.delete
    }
}

/// The thumbnail address of a video, derived from its id.
pub open spec fn thumbnail_of(id: Seq<char>) -> Seq<char> {
    "https://img.youtube.com/vi/"@ + id + "/maxresdefault.jpg"@
}

pub fn thumbnail_url(id: &str) -> (r: String)
    ensures
        r@ == thumbnail_of(id@),
{
    let mut s = String::from_str("https://img.youtube.com/vi/");
    s.append(id);
    s.append("/maxresdefault.jpg");
    s
}

impl AffiliationMsg {
    /// The record that the message describes.
    pub fn to_object(&self) -> (r: AffiliationObject)
        ensures
            r.affiliation_id == AffiliationId(self.id),
            r.name@ == self.name@,
            r.version == UpdateSignature(self.override_at),
    {
        AffiliationObject {
            affiliation_id: AffiliationId(self.id),
            name: self.name.clone(),
            version: UpdateSignature(self.override_at),
        }
    }

    /// The snapshot and delete flag that the message carries.
    pub fn to_received(&self) -> (r: Received)
        ensures
            r.delete == self.delete,
            r.snapshot matches Snapshot::Affiliation(a) && a.affiliation_id == AffiliationId(self.id)
                && a.name@ == self.name@ && a.version == UpdateSignature(self.override_at),
    {
        Received { delete: self.delete, snapshot: Snapshot::Affiliation(self.to_object()) }
    }

    /// The message that publishes a stored record.
    pub fn from_object(obj: &AffiliationObject) -> (r: AffiliationMsg)
        ensures
            r.id == obj.affiliation_id.0,
            r.name@ == obj.name@,
            r.override_at == obj.version.0,
            !r.delete,
    {
        AffiliationMsg {
            id: obj.affiliation_id.0,
            name: obj.name.clone(),
            override_at: obj.version.0,
            delete: false,
        }
    }
}

impl LiverMsg {
    pub fn to_object(&self) -> (r: LiverObject)
        ensures
            r.liver_id == LiverId(self.id),
            r.affiliation_id == (match self.affiliation_id {
                Some(a) => Some(AffiliationId(a)),
                None => None,
            }),
            r.name@ == self.name@,
            r.localized_name@ == self.localized_name@,
            r.version == UpdateSignature(self.override_at),
    {
        LiverObject::new(
            self.id,
            self.affiliation_id,
            self.name.clone(),
            self.localized_name.clone(),
            UpdateSignature(self.override_at),
        )
    }

    pub fn to_received(&self) -> (r: Received)
        ensures
            r.delete == self.delete,
            r.snapshot matches Snapshot::Liver(l) && l.liver_id == LiverId(self.id)
                && l.affiliation_id == (match self.affiliation_id {
                Some(a) => Some(AffiliationId(a)),
                None => None,
            }) && l.name@ == self.name@ && l.localized_name@ == self.localized_name@ && l.version
                == UpdateSignature(self.override_at),
    {
        Received { delete: self.delete, snapshot: Snapshot::Liver(self.to_object()) }
    }

    pub fn from_object(obj: &LiverObject) -> (r: LiverMsg)
        ensures
            r.id == obj.liver_id.0,
            r.affiliation_id == (match obj.affiliation_id {
                Some(a) => Some(a.0),
                None => None,
            }),
            r.name@ == obj.name@,
            r.localized_name@ == obj.localized_name@,
            r.override_at == obj.version.0,
            !r.delete,
    {
        let affiliation_id = match obj.affiliation_id {
            Some(a) => Some(a.0),
            None => None,
        };
        LiverMsg {
            id: obj.liver_id.0,
            affiliation_id,
            name: obj.name.clone(),
            localized_name: obj.localized_name.clone(),
            override_at: obj.version.0,
            delete: false,
        }
    }
}

/// A missing publication time reads as the epoch.
pub open spec fn time_or_epoch(t: Option<Timestamp>) -> Timestamp {
    match t {
        Some(t) => t,
        None => Timestamp { seconds: 0, nanos: 0 },
    }
}

impl ChannelMsg {
    pub fn to_object(&self) -> (r: ChannelObject)
        ensures
            r.channel_id.0@ == self.id@,
            r.liver_id == (match self.liver_id {
                Some(l) => Some(LiverId(l)),
                None => None,
            }),
            r.logo_url@ == self.logo_url@,
            r.published_at == time_or_epoch(self.published_at),
            r.description@ == self.description@,
            r.version == UpdateSignature(self.override_at),
    {
        let published_at = match self.published_at {
            Some(t) => t,
            None => Timestamp { seconds: 0, nanos: 0 },
        };
        let liver_id = match self.liver_id {
            Some(l) => Some(LiverId(l)),
            None => None,
        };
        ChannelObject {
            channel_id: ChannelId(self.id.clone()),
            liver_id,
            logo_url: self.logo_url.clone(),
            published_at,
            description: self.description.clone(),
            version: UpdateSignature(self.override_at),
        }
    }

    pub fn to_received(&self) -> (r: Received)
        ensures
            r.delete == self.delete,
            r.snapshot matches Snapshot::Channel(c) && c.channel_id.0@ == self.id@ && c.liver_id
                == (match self.liver_id {
                Some(l) => Some(LiverId(l)),
                None => None,
            }) && c.logo_url@ == self.logo_url@ && c.published_at == time_or_epoch(
                self.published_at,
            ) && c.description@ == self.description@ && c.version == UpdateSignature(
                self.override_at,
            ),
    {
        Received { delete: self.delete, snapshot: Snapshot::Channel(self.to_object()) }
    }

    pub fn from_object(obj: &ChannelObject) -> (r: ChannelMsg)
        ensures
            r.id@ == obj.channel_id.0@,
            r.liver_id == (match obj.liver_id {
                Some(l) => Some(l.0),
                None => None,
            }),
            r.logo_url@ == obj.logo_url@,
            r.published_at == Some(obj.published_at),
            r.description@ == obj.description@,
            r.override_at == obj.version.0,
            !r.delete,
    {
        let liver_id = match obj.liver_id {
            Some(l) => Some(l.0),
            None => None,
        };
        ChannelMsg {
            id: obj.channel_id.0.clone(),
            liver_id,
            logo_url: obj.logo_url.clone(),
            published_at: Some(obj.published_at),
            description: obj.description.clone(),
            override_at: obj.version.0,
            delete: false,
        }
    }
}

pub open spec fn channel_of(c: Option<String>) -> Option<Seq<char>> {
    match c {
        Some(s) => Some(s@),
        None => None,
    }
}

pub open spec fn channel_id_of(c: Option<ChannelId>) -> Option<Seq<char>> {
    match c {
        Some(s) => Some(s.0@),
        None => None,
    }
}

impl VideoMsg {
    pub fn to_object(&self) -> (r: VideoObject)
        ensures
            r.video_id.0@ == self.id@,
            channel_id_of(r.channel_id) == channel_of(self.channel_id),
            r.title@ == self.title@,
            r.description@ == self.description@,
            r.published_at == self.published_at,
            r.updated_at == self.updated_at,
            r.will_start_at == self.will_start_at,
            r.started_at == self.started_at,
            r.thumbnail_url@ == thumbnail_of(self.id@),
            r.version == UpdateSignature(self.override_at),
    {
        let channel_id = match &self.channel_id {
            Some(c) => Some(ChannelId(c.clone())),
            None => None,
        };
        VideoObject {
            video_id: VideoId(self.id.clone()),
            channel_id,
            title: self.title.clone(),
            description: self.description.clone(),
            published_at: self.published_at,
            updated_at: self.updated_at,
            will_start_at: self.will_start_at,
            started_at: self.started_at,
            thumbnail_url: thumbnail_url(self.id.as_str()),
            version: UpdateSignature(self.override_at),
        }
    }

    pub fn to_received(&self) -> (r: Received)
        ensures
            r.delete == self.delete,
            r.snapshot matches Snapshot::Video(v) && v.video_id.0@ == self.id@ && channel_id_of(
                v.channel_id,
            ) == channel_of(self.channel_id) && v.title@ == self.title@ && v.description@
                == self.description@ && v.published_at == self.published_at && v.updated_at
                == self.updated_at && v.will_start_at == self.will_start_at && v.started_at
                == self.started_at && v.thumbnail_url@ == thumbnail_of(self.id@) && v.version
                == UpdateSignature(self.override_at),
    {
        Received { delete: self.delete, snapshot: Snapshot::Video(self.to_object()) }
    }

    pub fn from_object(obj: &VideoObject) -> (r: VideoMsg)
        ensures
            r.id@ == obj.video_id.0@,
            channel_of(r.channel_id) == channel_id_of(obj.channel_id),
            r.title@ == obj.title@,
            r.description@ == obj.description@,
            r.published_at == obj.published_at,
            r.updated_at == obj.updated_at,
            r.will_start_at == obj.will_start_at,
            r.started_at == obj.started_at,
            r.override_at == obj.version.0,
            !r.delete,
    {
        let channel_id = match &obj.channel_id {
            Some(c) => Some(c.0.clone()),
            None => None,
        };
        VideoMsg {
            id: obj.video_id.0.clone(),
            channel_id,
            title: obj.title.clone(),
            description: obj.description.clone(),
            published_at: obj.published_at,
            updated_at: obj.updated_at,
            will_start_at: obj.will_start_at,
            started_at: obj.started_at,
            override_at: obj.version.0,
            delete: false,
        }
    }
}

} // verus!
