//! The four entity records: affiliation, liver, channel and video.

use vstd::prelude::*;
use vstd::string::StringExecFns;
use crate::version::{UpdateSignature, is_minute_stamp};
use crate::ids::{AffiliationId, ChannelId, LiverId, VideoId};
use crate::record::{
    LatestEq, Timestamp, Version, opt_channel_dup, opt_channel_eq, opt_time_eq, same_opt_channel,
    text_eq,
};

verus! {

/// An affiliation: `id`, `name`, `version`.
#[derive(Debug, Clone)]
pub struct AffiliationObject {
    pub affiliation_id: AffiliationId,
    pub name: String,
    pub version: UpdateSignature,
}

/// A liver: `id`, optional affiliation, `name`, `localized_name`, `version`.
#[derive(Debug, Clone)]
pub struct LiverObject {
    pub liver_id: LiverId,
    pub affiliation_id: Option<AffiliationId>,
    pub name: String,
    pub localized_name: String,
    pub version: UpdateSignature,
}

/// A channel: `id`, optional liver, logo, publication time, description, `version`.
#[derive(Debug, Clone)]
pub struct ChannelObject {
    pub channel_id: ChannelId,
    pub liver_id: Option<LiverId>,
    pub logo_url: String,
    pub published_at: Timestamp,
    pub description: String,
    pub version: UpdateSignature,
}

/// A video (a live or an upload) of a channel.
#[derive(Debug, Clone)]
pub struct VideoObject {
    pub video_id: VideoId,
    pub channel_id: Option<ChannelId>,
    pub title: String,
    pub description: String,
    pub published_at: Option<Timestamp>,
    pub updated_at: Option<Timestamp>,
    pub will_start_at: Option<Timestamp>,
    pub started_at: Option<Timestamp>,
    pub thumbnail_url: String,
    pub version: UpdateSignature,
}

impl AffiliationObject {
    pub fn new(id: i64, name: String, version: UpdateSignature) -> (r: AffiliationObject)
        ensures
            r.affiliation_id.0 == id,
            r.name@ == name@,
            r.version == version,
    {
        AffiliationObject { affiliation_id: AffiliationId(id), name, version }
    }

    pub fn affiliation_id(&self) -> (r: AffiliationId)
        ensures
            r == self.affiliation_id,
    {
        self.affiliation_id
    }

    pub fn name(&self) -> (r: &str)
        ensures
            r@ == self.name@,
    {
        self.name.as_str()
    }
}

impl Version for AffiliationObject {
    open spec fn version_of(&self) -> i64 {
        self.version.0
    }

    fn version(&self) -> (r: UpdateSignature) {
        self.version
    }
}

impl LatestEq for AffiliationObject {
    type KeyView = i64;

    open spec fn key(&self) -> i64 {
        self.affiliation_id.0
    }

    open spec fn same_content(&self, other: &Self) -> bool {
        self.affiliation_id == other.affiliation_id && self.name@ == other.name@
    }

    open spec fn stamped(&self, v: i64) -> Self {
        AffiliationObject { version: UpdateSignature(v), ..*self }
    }

    proof fn lemma_stamped(&self, v: i64) {
    }

    fn apply(self, sign: UpdateSignature) -> (r: Self) {
        AffiliationObject { version: sign, ..self }
    }

    fn key_eq(&self, other: &Self) -> (r: bool) {
        self.affiliation_id.0 == other.affiliation_id.0
    }

    fn content_eq(&self, other: &Self) -> (r: bool) {
        self.affiliation_id.0 == other.affiliation_id.0 && text_eq(&self.name, &other.name)
    }

    fn duplicate(&self) -> (r: Self) {
        AffiliationObject {
            affiliation_id: self.affiliation_id,
            name: self.name.clone(),
            version: self.version,
        }
    }
}

impl LiverObject {
    pub fn new(
        id: i64,
        affiliation_id: Option<i64>,
        name: String,
        localized_name: String,
        version: UpdateSignature,
    ) -> (r: LiverObject)
        ensures
            r.liver_id.0 == id,
            r.affiliation_id == (match affiliation_id {
                Some(a) => Some(AffiliationId(a)),
                None => None,
            }),
            r.name@ == name@,
            r.localized_name@ == localized_name@,
            r.version == version,
    {
        let affiliation_id = match affiliation_id {
            Some(a) => Some(AffiliationId(a)),
            None => None,
        };
        LiverObject { liver_id: LiverId(id), affiliation_id, name, localized_name, version }
    }

    pub fn name(&self) -> (r: &str)
        ensures
            r@ == self.name@,
    {
        self.name.as_str()
    }

    pub fn localized_name(&self) -> (r: &str)
        ensures
            r@ == self.localized_name@,
    {
        self.localized_name.as_str()
    }

    pub fn liver_id(&self) -> (r: LiverId)
        ensures
            r == self.liver_id,
    {
        self.liver_id
    }

    pub fn affiliation_id(&self) -> (r: Option<AffiliationId>)
        ensures
            r == self.affiliation_id,
    {
        self.affiliation_id
    }
}

impl Version for LiverObject {
    open spec fn version_of(&self) -> i64 {
        self.version.0
    }

    fn version(&self) -> (r: UpdateSignature) {
        self.version
    }
}

impl LatestEq for LiverObject {
    type KeyView = i64;

    open spec fn key(&self) -> i64 {
        self.liver_id.0
    }

    open spec fn same_content(&self, other: &Self) -> bool {
        &&& self.liver_id == other.liver_id
        &&& self.affiliation_id == other.affiliation_id
        &&& self.name@ == other.name@
        &&& self.localized_name@ == other.localized_name@
    }

    open spec fn stamped(&self, v: i64) -> Self {
        LiverObject { version: UpdateSignature(v), ..*self }
    }

    proof fn lemma_stamped(&self, v: i64) {
    }

    fn apply(self, sign: UpdateSignature) -> (r: Self) {
        LiverObject { version: sign, ..self }
    }

    fn key_eq(&self, other: &Self) -> (r: bool) {
        self.liver_id.0 == other.liver_id.0
    }

    fn content_eq(&self, other: &Self) -> (r: bool) {
        let same_affiliation = match (self.affiliation_id, other.affiliation_id) {
            (None, None) => true,
            (Some(a), Some(b)) => a.0 == b.0,
            _ => false,
        };
        self.liver_id.0 == other.liver_id.0 && same_affiliation && text_eq(&self.name, &other.name)
            && text_eq(&self.localized_name, &other.localized_name)
    }

    fn duplicate(&self) -> (r: Self) {
        LiverObject {
            liver_id: self.liver_id,
            affiliation_id: self.affiliation_id,
            name: self.name.clone(),
            localized_name: self.localized_name.clone(),
            version: self.version,
        }
    }
}

impl ChannelObject {
    pub fn channel_id(&self) -> (r: &ChannelId)
        ensures
            *r == self.channel_id,
    {
        &self.channel_id
    }

    pub fn liver_id(&self) -> (r: Option<LiverId>)
        ensures
            r == self.liver_id,
    {
        self.liver_id
    }

    pub fn logo_url(&self) -> (r: &str)
        ensures
            r@ == self.logo_url@,
    {
        self.logo_url.as_str()
    }

    pub fn published_at(&self) -> (r: Timestamp)
        ensures
            r == self.published_at,
    {
        self.published_at
    }

    pub fn description(&self) -> (r: &str)
        ensures
            r@ == self.description@,
    {
        self.description.as_str()
    }
}

impl Version for ChannelObject {
    open spec fn version_of(&self) -> i64 {
        self.version.0
    }

    fn version(&self) -> (r: UpdateSignature) {
        self.version
    }
}

impl LatestEq for ChannelObject {
    type KeyView = Seq<char>;

    open spec fn key(&self) -> Seq<char> {
        self.channel_id.0@
    }

    open spec fn same_content(&self, other: &Self) -> bool {
        &&& self.channel_id.0@ == other.channel_id.0@
        &&& self.liver_id == other.liver_id
        &&& self.logo_url@ == other.logo_url@
        &&& self.published_at == other.published_at
        &&& self.description@ == other.description@
    }

    open spec fn stamped(&self, v: i64) -> Self {
        ChannelObject { version: UpdateSignature(v), ..*self }
    }

    proof fn lemma_stamped(&self, v: i64) {
    }

    fn apply(self, sign: UpdateSignature) -> (r: Self) {
        ChannelObject { version: sign, ..self }
    }

    fn key_eq(&self, other: &Self) -> (r: bool) {
        text_eq(&self.channel_id.0, &other.channel_id.0)
    }

    fn content_eq(&self, other: &Self) -> (r: bool) {
        let same_liver = match (self.liver_id, other.liver_id) {
            (None, None) => true,
            (Some(a), Some(b)) => a.0 == b.0,
            _ => false,
        };
        text_eq(&self.channel_id.0, &other.channel_id.0) && same_liver && text_eq(
            &self.logo_url,
            &other.logo_url,
        ) && self.published_at.seconds == other.published_at.seconds
            && self.published_at.nanos == other.published_at.nanos && text_eq(
            &self.description,
            &other.description,
        )
    }

    fn duplicate(&self) -> (r: Self) {
        ChannelObject {
            channel_id: self.channel_id.duplicate(),
            liver_id: self.liver_id,
            logo_url: self.logo_url.clone(),
            published_at: self.published_at,
            description: self.description.clone(),
            version: self.version,
        }
    }
}

impl VideoObject {
    pub fn video_id(&self) -> (r: &VideoId)
        ensures
            *r == self.video_id,
    {
        &self.video_id
    }

    pub fn channel_id(&self) -> (r: Option<&ChannelId>)
        ensures
            r == (match self.channel_id {
                Some(c) => Some(&c),
                None => None,
            }),
    {
        match &self.channel_id {
            Some(c) => Some(c),
            None => None,
        }
    }

    pub fn title(&self) -> (r: &str)
        ensures
            r@ == self.title@,
    {
        self.title.as_str()
    }

    pub fn description(&self) -> (r: &str)
        ensures
            r@ == self.description@,
    {
        self.description.as_str()
    }

    pub fn published_at(&self) -> (r: Option<Timestamp>)
        ensures
            r == self.published_at,
    {
        self.published_at
    }

    pub fn updated_at(&self) -> (r: Option<Timestamp>)
        ensures
            r == self.updated_at,
    {
        self.updated_at
    }

    pub fn will_start_at(&self) -> (r: Option<Timestamp>)
        ensures
            r == self.will_start_at,
    {
        self.will_start_at
    }

    pub fn started_at(&self) -> (r: Option<Timestamp>)
        ensures
            r == self.started_at,
    {
        self.started_at
    }

    pub fn thumbnail_url(&self) -> (r: &str)
        ensures
            r@ == self.thumbnail_url@,
    {
        self.thumbnail_url.as_str()
    }
}

impl Version for VideoObject {
    open spec fn version_of(&self) -> i64 {
        self.version.0
    }

    fn version(&self) -> (r: UpdateSignature) {
        self.version
    }
}

impl LatestEq for VideoObject {
    type KeyView = Seq<char>;

    open spec fn key(&self) -> Seq<char> {
        self.video_id.0@
    }

    open spec fn same_content(&self, other: &Self) -> bool {
        &&& self.video_id.0@ == other.video_id.0@
        &&& same_opt_channel(self.channel_id, other.channel_id)
        &&& self.title@ == other.title@
        &&& self.description@ == other.description@
        &&& self.published_at == other.published_at
        &&& self.updated_at == other.updated_at
        &&& self.will_start_at == other.will_start_at
        &&& self.started_at == other.started_at
        &&& self.thumbnail_url@ == other.thumbnail_url@
    }

    open spec fn stamped(&self, v: i64) -> Self {
        VideoObject { version: UpdateSignature(v), ..*self }
    }

    proof fn lemma_stamped(&self, v: i64) {
    }

    fn apply(self, sign: UpdateSignature) -> (r: Self) {
        VideoObject { version: sign, ..self }
    }

    fn key_eq(&self, other: &Self) -> (r: bool) {
        text_eq(&self.video_id.0, &other.video_id.0)
    }

    fn content_eq(&self, other: &Self) -> (r: bool) {
        text_eq(&self.video_id.0, &other.video_id.0) && opt_channel_eq(
            &self.channel_id,
            &other.channel_id,
        ) && text_eq(&self.title, &other.title) && text_eq(&self.description, &other.description)
            && opt_time_eq(&self.published_at, &other.published_at) && opt_time_eq(
            &self.updated_at,
            &other.updated_at,
        ) && opt_time_eq(&self.will_start_at, &other.will_start_at) && opt_time_eq(
            &self.started_at,
            &other.started_at,
        ) && text_eq(&self.thumbnail_url, &other.thumbnail_url)
    }

    fn duplicate(&self) -> (r: Self) {
        VideoObject {
            video_id: self.video_id.duplicate(),
            channel_id: opt_channel_dup(&self.channel_id),
            title: self.title.clone(),
            description: self.description.clone(),
            published_at: self.published_at,
            updated_at: self.updated_at,
            will_start_at: self.will_start_at,
            started_at: self.started_at,
            thumbnail_url: self.thumbnail_url.clone(),
            version: self.version,
        }
    }
}

/// The fields of a channel, for building one.
pub struct ChannelObjectBuilder {
    pub channel_id: ChannelId,
    pub liver_id: Option<LiverId>,
    pub logo_url: String,
    pub published_at: Timestamp,
    pub description: String,
    pub version: UpdateSignature,
}

impl Default for ChannelObjectBuilder {
    /// An empty id, no liver, `"none"` for the texts, the current instant as
    /// publication time and the current minute as version. When the clock
    /// cannot be read, the epoch and the irregular version 1 stand in.
    fn default() -> (r: ChannelObjectBuilder)
        ensures
            r.channel_id.0@ == Seq::<char>::empty(),
            r.liver_id is None,
            r.logo_url@ == "none"@,
            r.description@ == "none"@,
            r.published_at.seconds >= 0,
            0 <= r.published_at.nanos < 1_000_000_000,
            r.version.0 == 1 || (r.version.0 >= 2 && is_minute_stamp(r.version.0)),
    {
        ChannelObjectBuilder {
            channel_id: ChannelId(String::new()),
            liver_id: None,
            logo_url: String::from_str("none"),
            published_at: Timestamp::now_or_epoch(),
            description: String::from_str("none"),
            version: UpdateSignature::now_or_irregular(),
        }
    }
}

impl ChannelObjectBuilder {
    pub fn build(self) -> (r: ChannelObject)
        ensures
            r.channel_id == self.channel_id,
            r.liver_id == self.liver_id,
            r.logo_url == self.logo_url,
            r.published_at == self.published_at,
            r.description == self.description,
            r.version == self.version,
    {
        ChannelObject {
            channel_id: self.channel_id,
            liver_id: self.liver_id,
            logo_url: self.logo_url,
            published_at: self.published_at,
            description: self.description,
            version: self.version,
        }
    }
}

/// The fields of a video, for building one.
pub struct InitVideoObject {
    pub video_id: VideoId,
    pub channel_id: Option<ChannelId>,
    pub title: String,
    pub description: String,
    pub published_at: Option<Timestamp>,
    pub updated_at: Option<Timestamp>,
    pub will_start_at: Option<Timestamp>,
    pub started_at: Option<Timestamp>,
    pub thumbnail_url: String,
    pub version: UpdateSignature,
}

impl Default for InitVideoObject {
    /// An empty id, no channel, `"none"` for the texts, no times, and the
    /// current minute as version, or the irregular version 1 when the clock
    /// cannot be read.
    fn default() -> (r: InitVideoObject)
        ensures
            r.video_id.0@ == Seq::<char>::empty(),
            r.channel_id is None,
            r.title@ == "none"@,
            r.description@ == "none"@,
            r.published_at is None,
            r.updated_at is None,
            r.will_start_at is None,
            r.started_at is None,
            r.thumbnail_url@ == "none"@,
            r.version.0 == 1 || (r.version.0 >= 2 && is_minute_stamp(r.version.0)),
    {
        InitVideoObject {
            video_id: VideoId(String::new()),
            channel_id: None,
            title: String::from_str("none"),
            description: String::from_str("none"),
            published_at: None,
            updated_at: None,
            will_start_at: None,
            started_at: None,
            thumbnail_url: String::from_str("none"),
            version: UpdateSignature::now_or_irregular(),
        }
    }
}

impl InitVideoObject {
    pub fn build(self) -> (r: VideoObject)
        ensures
            r == self.build_spec(),
    {
        VideoObject {
            video_id: self.video_id,
            channel_id: self.channel_id,
            title: self.title,
            description: self.description,
            published_at: self.published_at,
            updated_at: self.updated_at,
            will_start_at: self.will_start_at,
            started_at: self.started_at,
            thumbnail_url: self.thumbnail_url,
            version: self.version,
        }
    }
}

impl VideoObject {
    /// The fields of the video, for rebuilding it.
    pub fn decompose(self) -> (r: InitVideoObject)
        ensures
            r.build_spec() == self,
    {
        InitVideoObject {
            video_id: self.video_id,
            channel_id: self.channel_id,
            title: self.title,
            description: self.description,
            published_at: self.published_at,
            updated_at: self.updated_at,
            will_start_at: self.will_start_at,
            started_at: self.started_at,
            thumbnail_url: self.thumbnail_url,
            version: self.version,
        }
    }
}

impl InitVideoObject {
    pub open spec fn build_spec(self) -> VideoObject {
        VideoObject {
            video_id: self.video_id,
            channel_id: self.channel_id,
            title: self.title,
            description: self.description,
            published_at: self.published_at,
            updated_at: self.updated_at,
            will_start_at: self.will_start_at,
            started_at: self.started_at,
            thumbnail_url: self.thumbnail_url,
            version: self.version,
        }
    }
}

} // verus!
