//! The records as the read API presents them: typed ids that remember the
//! entity they belong to, and no version.

use vstd::prelude::*;
use std::marker::PhantomData;
use crate::objects::{AffiliationObject, ChannelObject, LiverObject, VideoObject};
use crate::record::{Timestamp, opt_channel_dup};
use crate::wire::{channel_id_of};

verus! {

/// A numeric id of an entity of type `T`.
#[derive(Debug)]
pub struct NumId<T> {
    pub value: i64,
    pub mark: PhantomData<T>,
}

/// A textual id of an entity of type `T`.
#[derive(Debug)]
pub struct StringId<T> {
    pub value: String,
    pub mark: PhantomData<T>,
}

impl<T> NumId<T> {
    pub fn new(id: i64) -> (r: NumId<T>)
        ensures
            r.value == id,
    {
        NumId { value: id, mark: PhantomData }
    }
}

impl<T> StringId<T> {
    pub fn new(id: String) -> (r: StringId<T>)
        ensures
            r.value@ == id@,
    {
        StringId { value: id, mark: PhantomData }
    }

    pub fn as_ref(&self) -> (r: &str)
        ensures
            r@ == self.value@,
    {
        self.value.as_str()
    }
}

/// An affiliation as the read API presents it.
#[derive(Debug)]
pub struct Affiliation {
    pub affiliation_id: NumId<AffiliationObject>,
    pub name: String,
}

/// A liver as the read API presents it.
#[derive(Debug)]
pub struct Liver {
    pub liver_id: NumId<LiverObject>,
    pub affiliation: Option<NumId<AffiliationObject>>,
    pub name: String,
    pub localized_name: String,
}

impl Affiliation {
    pub fn from_object(obj: &AffiliationObject) -> (r: Affiliation)
        ensures
            r.affiliation_id.value == obj.affiliation_id.0,
            r.name@ == obj.name@,
    {
        Affiliation { affiliation_id: NumId::new(obj.affiliation_id.0), name: obj.name.clone() }
    }
}

impl Liver {
    pub fn from_object(obj: &LiverObject) -> (r: Liver)
        ensures
            r.liver_id.value == obj.liver_id.0,
            match obj.affiliation_id {
                Some(a) => r.affiliation matches Some(n) && n.value == a.0,
                None => r.affiliation is None,
            },
            r.name@ == obj.name@,
            r.localized_name@ == obj.localized_name@,
    {
        let affiliation = match obj.affiliation_id {
            Some(a) => Some(NumId::new(a.0)),
            None => None,
        };
        Liver {
            liver_id: NumId::new(obj.liver_id.0),
            affiliation,
            name: obj.name.clone(),
            localized_name: obj.localized_name.clone(),
        }
    }
}

/// A channel as the read API presents it.
#[derive(Debug)]
pub struct Channel {
    pub channel_id: StringId<ChannelObject>,
    pub liver_id: Option<NumId<LiverObject>>,
    pub logo_url: String,
    pub published_at: Timestamp,
    pub description: String,
}

/// A video as the read API presents it.
#[derive(Debug)]
pub struct Video {
    pub video_id: StringId<VideoObject>,
    pub channel_id: Option<StringId<ChannelObject>>,
    pub title: String,
    pub description: String,
    pub published_at: Option<Timestamp>,
    pub updated_at: Option<Timestamp>,
    pub will_start_at: Option<Timestamp>,
    pub started_at: Option<Timestamp>,
    pub thumbnail_url: String,
}

impl Channel {
    pub fn from_object(obj: &ChannelObject) -> (r: Channel)
        ensures
            r.channel_id.value@ == obj.channel_id.0@,
            match obj.liver_id {
                Some(l) => r.liver_id matches Some(n) && n.value == l.0,
                None => r.liver_id is None,
            },
            r.logo_url@ == obj.logo_url@,
            r.published_at == obj.published_at,
            r.description@ == obj.description@,
    {
        let liver_id = match obj.liver_id {
            Some(l) => Some(NumId::new(l.0)),
            None => None,
        };
        Channel {
            channel_id: StringId::new(obj.channel_id.0.clone()),
            liver_id,
            logo_url: obj.logo_url.clone(),
            published_at: obj.published_at,
            description: obj.description.clone(),
        }
    }
}

impl Video {
    pub fn from_object(obj: &VideoObject) -> (r: Video)
        ensures
            r.video_id.value@ == obj.video_id.0@,
            match r.channel_id {
                Some(c) => channel_id_of(obj.channel_id) == Some(c.value@),
                None => obj.channel_id is None,
            },
            r.title@ == obj.title@,
            r.description@ == obj.description@,
            r.published_at == obj.published_at,
            r.updated_at == obj.updated_at,
            r.will_start_at == obj.will_start_at,
            r.started_at == obj.started_at,
            r.thumbnail_url@ == obj.thumbnail_url@,
    {
        let channel_id = match opt_channel_dup(&obj.channel_id) {
            Some(c) => Some(StringId::new(c.0)),
            None => None,
        };
        Video {
            video_id: StringId::new(obj.video_id.0.clone()),
            channel_id,
            title: obj.title.clone(),
            description: obj.description.clone(),
            published_at: obj.published_at,
            updated_at: obj.updated_at,
            will_start_at: obj.will_start_at,
            started_at: obj.started_at,
            thumbnail_url: obj.thumbnail_url.clone(),
        }
    }
}

} // verus!
