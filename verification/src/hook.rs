//! The decisions of the document-write hook: which writes qualify, where
//! the aggregate lives, and how a missing aggregate is started.
//!
//! The hook itself runs in the host runtime and does the store round-trips
//! and the float arithmetic; every choice it makes comes from here.

use vstd::prelude::*;

use crate::stats::TrailStats;

verus! {

/// The version tag the aggregate document is written with.
pub const STATS_DOC_VERSION: u64 = 1;

/// A write qualifies exactly when it targeted the "trails" collection;
/// every other write is left alone and reported as a success.
pub fn should_process(collection: &String) -> (b: bool)
    ensures
        b == (collection@ == "trails"@),
{
    let trails: String = String::from_str("trails");
    *collection == trails
}

/// The fixed collection the aggregate document is kept in.
pub fn stats_collection() -> (s: String)
    ensures
        s@ == "stats"@,
{
    String::from_str("stats")
}

/// The fixed key of the singleton aggregate document.
pub fn stats_key() -> (s: String)
    ensures
        s@ == "trail-stats"@,
{
    String::from_str("trail-stats")
}

/// The fixed human-readable description the aggregate is written with.
pub fn stats_description() -> (s: String)
    ensures
        s@ == "Trail statistics"@,
{
    String::from_str("Trail statistics")
}

/// The aggregate to fold into: the stored one where it exists, else the
/// zero-valued aggregate the first qualifying write starts from.
pub fn stats_or_default(prior: Option<TrailStats>) -> (r: TrailStats)
    ensures
        prior is Some ==> r == prior->0,
        prior is None ==> {
            &&& r.total_trails == 0
            &&& r.total_distance == 0
            &&& r.total_elevation == 0
            &&& r.average_distance == 0
            &&& r.average_elevation == 0
            &&& r.difficulty_breakdown.easy == 0
            &&& r.difficulty_breakdown.moderate == 0
            &&& r.difficulty_breakdown.hard == 0
            &&& r.difficulty_breakdown.expert == 0
            &&& r.last_updated@ == Seq::<char>::empty()
            &&& r.wf()
        },
{
    match prior {
        Some(s) => s,
        None => TrailStats::new(),
    }
}

} // verus!
