//! Reconciliation of streamed entity snapshots against a versioned store of
//! record.
//!
//! Upstream collectors send snapshots of affiliations, livers, channels and
//! videos, each with a delete flag and a version stamp. For every snapshot
//! the rule in [`engine`] decides whether to insert, update, delete or skip,
//! by the stored row under the same key, content equality and version order.
//! [`store`] holds four tables under foreign-key constraints and applies a
//! batch in arrival order, all or nothing; [`laws`] states and proves what
//! holds of every such run.

pub mod bearer;
pub mod clock;
pub mod engine;
pub mod entities;
pub mod ids;
pub mod laws;
pub mod models;
pub mod objects;
pub mod pattern;
pub mod record;
pub mod repository;
pub mod store;
pub mod table;
pub mod version;
pub mod wire;

pub use ids::{AffiliationId, ChannelId, LiverId, VideoId};
pub use objects::{AffiliationObject, ChannelObject, LiverObject, VideoObject};
pub use record::{LatestEq, Timestamp, Version};
pub use version::UpdateSignature;
