//! What the engine needs of a versioned record, and the field comparisons
//! that content equality is built from.

use vstd::prelude::*;
use crate::version::UpdateSignature;
use crate::ids::ChannelId;
use crate::clock::read_utc_clock;

verus! {

/// A point in time at the precision that the wire carries.
#[derive(Debug, Clone, Copy, PartialEq, Eq, Structural, Hash, Default)]
pub struct Timestamp {
    pub seconds: i64,
    pub nanos: i32,
}

impl Timestamp {
    /// The current instant; none when the clock cannot be read.
    pub fn now() -> (r: Option<Timestamp>)
        ensures
            r matches Some(t) ==> t.seconds >= 0 && 0 <= t.nanos < 1_000_000_000,
    {
        match read_utc_clock() {
            Some(c) => Some(Timestamp { seconds: c.seconds, nanos: c.nanos as i32 }),
            None => None,
        }
    }

    /// The current instant, or the epoch when the clock cannot be read.
    pub fn now_or_epoch() -> (r: Timestamp)
        ensures
            r.seconds >= 0,
            0 <= r.nanos < 1_000_000_000,
    {
        match Timestamp::now() {
            Some(t) => t,
            None => Timestamp { seconds: 0, nanos: 0 },
        }
    }
}

/// A record that carries a version.
pub trait Version {
    spec fn version_of(&self) -> i64;

    fn version(&self) -> (r: UpdateSignature)
        ensures
            r.0 == self.version_of(),
    ;
}

/// A versioned record that can be compared with its stored counterpart:
/// by primary key, and by content, which is every field but the version.
pub trait LatestEq: Version + Sized {
    type KeyView;

    /// The primary key.
    spec fn key(&self) -> Self::KeyView;

    /// Every field but the version is equal.
    spec fn same_content(&self, other: &Self) -> bool;

    /// The record with its version replaced.
    spec fn stamped(&self, v: i64) -> Self;

    proof fn lemma_stamped(&self, v: i64)
        ensures
            self.stamped(v).key() == self.key(),
            self.stamped(v).version_of() == v,
    ;

    /// Replaces the version.
    fn apply(self, sign: UpdateSignature) -> (r: Self)
        ensures
            r == self.stamped(sign.0),
    ;

    fn key_eq(&self, other: &Self) -> (r: bool)
        ensures
            r == (self.key() == other.key()),
    ;

    fn content_eq(&self, other: &Self) -> (r: bool)
        ensures
            r == self.same_content(other),
    ;

    fn duplicate(&self) -> (r: Self)
        ensures
            r == *self,
    ;
}

pub open spec fn same_opt_channel(a: Option<ChannelId>, b: Option<ChannelId>) -> bool {
    match (a, b) {
        (None, None) => true,
        (Some(x), Some(y)) => x.0@ == y.0@,
        _ => false,
    }
}

pub fn text_eq(a: &String, b: &String) -> (r: bool)
    ensures
        r == (a@ == b@),
{
    *a == *b
}

pub fn opt_channel_eq(a: &Option<ChannelId>, b: &Option<ChannelId>) -> (r: bool)
    ensures
        r == same_opt_channel(*a, *b),
{
    match (a, b) {
        (None, None) => true,
        (Some(x), Some(y)) => x.0 == y.0,
        _ => false,
    }
}

pub fn opt_channel_dup(a: &Option<ChannelId>) -> (r: Option<ChannelId>)
    ensures
        r == *a,
{
    match a {
        None => None,
        Some(x) => Some(x.duplicate()),
    }
}

pub fn opt_time_eq(a: &Option<Timestamp>, b: &Option<Timestamp>) -> (r: bool)
    ensures
        r == (*a == *b),
{
    match (a, b) {
        (None, None) => true,
        (Some(x), Some(y)) => x.seconds == y.seconds && x.nanos == y.nanos,
        _ => false,
    }
}

} // verus!
