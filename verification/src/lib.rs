//! Incremental trail statistics: the verified core of a document-store
//! hook that folds each written trail record into a singleton aggregate.
//!
//! Floating-point quantities (distances, elevations) are carried through
//! this crate as their IEEE 754 bit patterns (`u64`): the crate never
//! computes with them, it only stores and moves them, so the aggregate's
//! counting logic can be verified while the host-side glue performs the
//! two float additions and two divisions of each update.

pub mod hook;
pub mod stats;

pub use stats::DifficultyBreakdown;
pub use stats::Trail;
pub use stats::TrailStats;
