//! Typed primary keys, one per entity kind.

use vstd::prelude::*;

verus! {

/// Primary key of an affiliation.
#[derive(Debug, Clone, Copy, PartialEq, Eq, Structural, PartialOrd, Ord, Hash, Default)]
pub struct AffiliationId(pub i64);

/// Primary key of a liver.
#[derive(Debug, Clone, Copy, PartialEq, Eq, Structural, PartialOrd, Ord, Hash, Default)]
pub struct LiverId(pub i64);

/// Primary key of a channel.
#[derive(Debug, Clone, Hash, Default)]
pub struct ChannelId(pub String);

/// Primary key of a video.
#[derive(Debug, Clone, Hash, Default)]
pub struct VideoId(pub String);

impl AffiliationId {
    pub fn new(id: i64) -> (r: AffiliationId)
        ensures
            r.0 == id,
    {
        AffiliationId(id)
    }

    pub fn as_i64(&self) -> (r: i64)
        ensures
            r == self.0,
    {
        self.0
    }
}

impl LiverId {
    pub fn new(id: i64) -> (r: LiverId)
        ensures
            r.0 == id,
    {
        LiverId(id)
    }

    pub fn as_i64(&self) -> (r: i64)
        ensures
            r == self.0,
    {
        self.0
    }
}

impl ChannelId {
    pub fn new(id: String) -> (r: ChannelId)
        ensures
            r.0@ == id@,
    {
        ChannelId(id)
    }

    pub fn as_str(&self) -> (r: &str)
        ensures
            r@ == self.0@,
    {
        self.0.as_str()
    }

    pub fn duplicate(&self) -> (r: ChannelId)
        ensures
            r == *self,
    {
        ChannelId(self.0.clone())
    }
}

impl VideoId {
    pub fn new(id: String) -> (r: VideoId)
        ensures
            r.0@ == id@,
    {
        VideoId(id)
    }

    pub fn as_str(&self) -> (r: &str)
        ensures
            r@ == self.0@,
    {
        self.0.as_str()
    }

    pub fn duplicate(&self) -> (r: VideoId)
        ensures
            r == *self,
    {
        VideoId(self.0.clone())
    }
}

impl PartialEq for ChannelId {
    fn eq(&self, other: &ChannelId) -> (r: bool) {
        self.0 == other.0
    }
}

impl vstd::std_specs::cmp::PartialEqSpecImpl for ChannelId {
    open spec fn obeys_eq_spec() -> bool {
        true
    }

    open spec fn eq_spec(&self, other: &ChannelId) -> bool {
        self.0@ == other.0@
    }
}

impl Eq for ChannelId {

}

impl PartialEq for VideoId {
    fn eq(&self, other: &VideoId) -> (r: bool) {
        self.0 == other.0
    }
}

impl vstd::std_specs::cmp::PartialEqSpecImpl for VideoId {
    open spec fn obeys_eq_spec() -> bool {
        true
    }

    open spec fn eq_spec(&self, other: &VideoId) -> bool {
        self.0@ == other.0@
    }
}

impl Eq for VideoId {

}

} // verus!
