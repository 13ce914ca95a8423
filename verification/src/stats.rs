//! The aggregate record and the pure update step that folds one trail
//! observation into it.
//!
//! `distance` and `elevation` quantities are IEEE 754 double-precision
//! values to the callers of this crate; here they are carried untouched as
//! their bit patterns (`u64`). Every update stores four such quantities
//! (the two running sums and the two averages) that the caller computed
//! from the previous sums, the new observation and the new count; the
//! counting logic around them is what this module verifies.

use vstd::prelude::*;

verus! {

/// One trail observation: the measured quantities as bit patterns, and the
/// difficulty tag exactly as it was written.
#[derive(Clone, Debug)]
pub struct Trail {
    pub distance: u64,
    pub elevation: u64,
    pub difficulty: String,
}

/// Counters of processed trail documents per recognized difficulty tag.
#[derive(Clone, Debug)]
pub struct DifficultyBreakdown {
    pub easy: u32,
    pub moderate: u32,
    pub hard: u32,
    pub expert: u32,
}

/// The singleton aggregate: a count of processed writes, running sums and
/// averages (bit patterns), the per-difficulty counters, and the textual
/// timestamp of the last update.
#[derive(Clone, Debug)]
pub struct TrailStats {
    pub total_trails: u32,
    pub total_distance: u64,
    pub total_elevation: u64,
    pub average_distance: u64,
    pub average_elevation: u64,
    pub difficulty_breakdown: DifficultyBreakdown,
    pub last_updated: String,
}

/// The sum of the four difficulty counters.
pub open spec fn breakdown_total(b: DifficultyBreakdown) -> int {
    b.easy + b.moderate + b.hard + b.expert
}

/// The four difficulty tags with a counter of their own; anything else is
/// counted in `total_trails` only.
pub open spec fn recognized(d: Seq<char>) -> bool {
    ||| d == "easy"@
    ||| d == "moderate"@
    ||| d == "hard"@
    ||| d == "expert"@
}

/// The breakdown after one observation tagged `d`: the matching counter is
/// incremented, an unrecognized tag changes nothing.
pub open spec fn spec_bump(b: DifficultyBreakdown, d: Seq<char>) -> DifficultyBreakdown {
    if d == "easy"@ {
        DifficultyBreakdown {
            easy: (b.easy + 1) as u32,
            moderate: b.moderate,
            hard: b.hard,
            expert: b.expert,
        }
    } else if d == "moderate"@ {
        DifficultyBreakdown {
            easy: b.easy,
            moderate: (b.moderate + 1) as u32,
            hard: b.hard,
            expert: b.expert,
        }
    } else if d == "hard"@ {
        DifficultyBreakdown {
            easy: b.easy,
            moderate: b.moderate,
            hard: (b.hard + 1) as u32,
            expert: b.expert,
        }
    } else if d == "expert"@ {
        DifficultyBreakdown {
            easy: b.easy,
            moderate: b.moderate,
            hard: b.hard,
            expert: (b.expert + 1) as u32,
        }
    } else {
        b
    }
}

/// The whole aggregate after folding in one trail: the count is incremented,
/// the caller-computed sums and averages replace the old ones, the breakdown
/// is bumped for the trail's tag, and the timestamp is replaced.
pub open spec fn spec_apply(
    s: TrailStats,
    trail: Trail,
    total_distance: u64,
    total_elevation: u64,
    average_distance: u64,
    average_elevation: u64,
    timestamp: String,
) -> TrailStats {
    TrailStats {
        total_trails: (s.total_trails + 1) as u32,
        total_distance: total_distance,
        total_elevation: total_elevation,
        average_distance: average_distance,
        average_elevation: average_elevation,
        difficulty_breakdown: spec_bump(s.difficulty_breakdown, trail.difficulty@),
        last_updated: timestamp,
    }
}

/// Folding one observation grows the counter sum by one exactly when its
/// tag is recognized, provided the sum has room to grow.
pub proof fn lemma_bump_total(b: DifficultyBreakdown, d: Seq<char>)
    requires
        breakdown_total(b) < u32::MAX,
    ensures
        recognized(d) ==> breakdown_total(spec_bump(b, d)) == breakdown_total(b) + 1,
        !recognized(d) ==> spec_bump(b, d) == b,
{
}

/// How many tags of a run have no counter of their own.
pub open spec fn count_unrecognized(ds: Seq<Seq<char>>) -> int
    decreases ds.len(),
{
    if ds.len() == 0 {
        0
    } else {
        (if recognized(ds.first()) {
            0int
        } else {
            1int
        }) + count_unrecognized(ds.drop_first())
    }
}

/// One fold of a run: the trail and the measurements stored with it (the
/// two sums, the two averages, the timestamp).
pub struct Fold {
    pub trail: Trail,
    pub total_distance: u64,
    pub total_elevation: u64,
    pub average_distance: u64,
    pub average_elevation: u64,
    pub timestamp: String,
}

/// The aggregate after a whole run of folds, applied in order.
pub open spec fn spec_apply_all(s: TrailStats, ws: Seq<Fold>) -> TrailStats
    decreases ws.len(),
{
    if ws.len() == 0 {
        s
    } else {
        spec_apply_all(
            spec_apply(
                s,
                ws.first().trail,
                ws.first().total_distance,
                ws.first().total_elevation,
                ws.first().average_distance,
                ws.first().average_elevation,
                ws.first().timestamp,
            ),
            ws.drop_first(),
        )
    }
}

/// The difficulty tags of a run, in order.
pub open spec fn tags_of(ws: Seq<Fold>) -> Seq<Seq<char>> {
    ws.map_values(|w: Fold| w.trail.difficulty@)
}

/// The aggregate's lifetime invariant: over any run of folds that the
/// counters have room for, the total count grows by the length of the run,
/// and the writes it does not attribute to a difficulty counter are exactly
/// those whose tag was unrecognized — so an aggregate grown from zero
/// always has `total_trails` equal to the counter sum plus the number of
/// unrecognized writes.
pub proof fn lemma_lifetime_accounting(s: TrailStats, ws: Seq<Fold>)
    requires
        s.wf(),
        s.total_trails + ws.len() <= u32::MAX,
    ensures
        spec_apply_all(s, ws).total_trails == s.total_trails + ws.len(),
        spec_apply_all(s, ws).wf(),
        spec_apply_all(s, ws).total_trails - breakdown_total(
            spec_apply_all(s, ws).difficulty_breakdown,
        ) == s.total_trails - breakdown_total(s.difficulty_breakdown) + count_unrecognized(
            tags_of(ws),
        ),
    decreases ws.len(),
{
    assert(tags_of(ws).len() == ws.len());
    if ws.len() == 0 {
    } else {
        let w = ws.first();
        let s1 = spec_apply(
            s,
            w.trail,
            w.total_distance,
            w.total_elevation,
            w.average_distance,
            w.average_elevation,
            w.timestamp,
        );
        lemma_bump_total(s.difficulty_breakdown, w.trail.difficulty@);
        assert(s1.wf());
        assert(tags_of(ws).first() == w.trail.difficulty@);
        assert(tags_of(ws).drop_first() =~= tags_of(ws.drop_first()));
        lemma_lifetime_accounting(s1, ws.drop_first());
    }
}

/// Two hook invocations that read the same prior aggregate each compute a
/// one-increment update; whichever of the two is written back second
/// replaces the other wholesale, so the stored aggregate counts a single
/// new trail and only the second trail's tag. This is the lost update that
/// the read-modify-write of the singleton admits, there being no
/// concurrency control around it.
pub proof fn lemma_same_snapshot_updates_overwrite(
    s: TrailStats,
    a: Trail,
    b: Trail,
    a_td: u64,
    a_te: u64,
    a_ad: u64,
    a_ae: u64,
    a_ts: String,
    b_td: u64,
    b_te: u64,
    b_ad: u64,
    b_ae: u64,
    b_ts: String,
)
    requires
        s.total_trails < u32::MAX,
    ensures
        spec_apply(s, a, a_td, a_te, a_ad, a_ae, a_ts).total_trails == s.total_trails + 1,
        spec_apply(s, b, b_td, b_te, b_ad, b_ae, b_ts).total_trails == s.total_trails + 1,
        spec_apply(s, b, b_td, b_te, b_ad, b_ae, b_ts).difficulty_breakdown == spec_bump(
            s.difficulty_breakdown,
            b.difficulty@,
        ),
{
}

impl DifficultyBreakdown {
    /// All four counters start at zero.
    pub fn new() -> (r: DifficultyBreakdown)
        ensures
            r.easy == 0,
            r.moderate == 0,
            r.hard == 0,
            r.expert == 0,
    {
        DifficultyBreakdown { easy: 0, moderate: 0, hard: 0, expert: 0 }
    }
}

impl Default for DifficultyBreakdown {
    fn default() -> (r: DifficultyBreakdown)
        ensures
            r.easy == 0,
            r.moderate == 0,
            r.hard == 0,
            r.expert == 0,
    {
        DifficultyBreakdown::new()
    }
}

impl TrailStats {
    /// The difficulty counters never exceed the total count: the difference
    /// is the number of processed writes whose tag was unrecognized.
    pub open spec fn wf(self) -> bool {
        breakdown_total(self.difficulty_breakdown) <= self.total_trails
    }

    /// The zero-valued aggregate that the first qualifying write starts
    /// from: every count and sum is zero and the timestamp is empty.
    pub fn new() -> (r: TrailStats)
        ensures
            r.total_trails == 0,
            r.total_distance == 0,
            r.total_elevation == 0,
            r.average_distance == 0,
            r.average_elevation == 0,
            r.difficulty_breakdown.easy == 0,
            r.difficulty_breakdown.moderate == 0,
            r.difficulty_breakdown.hard == 0,
            r.difficulty_breakdown.expert == 0,
            r.last_updated@ == Seq::<char>::empty(),
            r.wf(),
    {
        TrailStats {
            total_trails: 0,
            total_distance: 0,
            total_elevation: 0,
            average_distance: 0,
            average_elevation: 0,
            difficulty_breakdown: DifficultyBreakdown::new(),
            last_updated: String::new(),
        }
    }

    /// Folds one trail observation into the aggregate: the count grows by
    /// one, the caller-computed sums and averages are stored, the counter
    /// matching the trail's difficulty tag (exact, case-sensitive) grows by
    /// one, and the timestamp is replaced.
    pub fn apply(
        &mut self,
        trail: &Trail,
        total_distance: u64,
        total_elevation: u64,
        average_distance: u64,
        average_elevation: u64,
        timestamp: String,
    )
        requires
            old(self).wf(),
            old(self).total_trails < u32::MAX,
        ensures
            *final(self) == spec_apply(
                *old(self),
                *trail,
                total_distance,
                total_elevation,
                average_distance,
                average_elevation,
                timestamp,
            ),
            final(self).total_trails == old(self).total_trails + 1,
            recognized(trail.difficulty@) ==> breakdown_total(final(self).difficulty_breakdown)
                == breakdown_total(old(self).difficulty_breakdown) + 1,
            !recognized(trail.difficulty@) ==> final(self).difficulty_breakdown
                == old(self).difficulty_breakdown,
            final(self).wf(),
    {
        self.total_trails = self.total_trails + 1;
        self.total_distance = total_distance;
        self.total_elevation = total_elevation;
        self.average_distance = average_distance;
        self.average_elevation = average_elevation;

        let easy_tag: String = String::from_str("easy");
        let moderate_tag: String = String::from_str("moderate");
        let hard_tag: String = String::from_str("hard");
        let expert_tag: String = String::from_str("expert");
        if trail.difficulty == easy_tag {
            self.difficulty_breakdown.easy = self.difficulty_breakdown.easy + 1;
        } else if trail.difficulty == moderate_tag {
            self.difficulty_breakdown.moderate = self.difficulty_breakdown.moderate + 1;
        } else if trail.difficulty == hard_tag {
            self.difficulty_breakdown.hard = self.difficulty_breakdown.hard + 1;
        } else if trail.difficulty == expert_tag {
            self.difficulty_breakdown.expert = self.difficulty_breakdown.expert + 1;
        }

        self.last_updated = timestamp;
    }
}

impl Default for TrailStats {
    fn default() -> (r: TrailStats)
        ensures
            r.total_trails == 0,
            r.total_distance == 0,
            r.total_elevation == 0,
            r.average_distance == 0,
            r.average_elevation == 0,
            r.difficulty_breakdown.easy == 0,
            r.difficulty_breakdown.moderate == 0,
            r.difficulty_breakdown.hard == 0,
            r.difficulty_breakdown.expert == 0,
            r.last_updated@ == Seq::<char>::empty(),
            r.wf(),
    {
        TrailStats::new()
    }
}

} // verus!
