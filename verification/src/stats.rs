//! The statistics engine: a pure fold over the unit collection yielding
//! counts, weighted overall progress, time sums, the average score, the
//! per-stage completion table and the current stage.
//!
//! Percentages are carried as integer hundredths of a percent (10000 stands
//! for 100%), and the average score as integer hundredths of a point, so
//! every figure is exact.

use vstd::prelude::*;
use vstd::arithmetic::div_mod::{lemma_div_is_ordered, lemma_div_multiples_vanish};
use crate::domain::{
    weight_of, stage_order, type_order, LearningStage, LearningUnit, LearningUnitStatus,
    LearningUnitType, ProgressTracker,
};

verus! {

/// Sum of the weights of all units.
pub open spec fn total_weight(s: Seq<LearningUnit>) -> int
    decreases s.len(),
{
    if s.len() == 0 {
        0
    } else {
        total_weight(s.drop_last()) + weight_of(s.last().unit_type)
    }
}

/// Sum of the weights of the completed units.
pub open spec fn completed_weight(s: Seq<LearningUnit>) -> int
    decreases s.len(),
{
    if s.len() == 0 {
        0
    } else {
        completed_weight(s.drop_last()) + if s.last().status == LearningUnitStatus::Completed {
            weight_of(s.last().unit_type) as int
        } else {
            0
        }
    }
}

/// Number of completed units.
pub open spec fn completed_count(s: Seq<LearningUnit>) -> int
    decreases s.len(),
{
    if s.len() == 0 {
        0
    } else {
        completed_count(s.drop_last()) + if s.last().status == LearningUnitStatus::Completed {
            1int
        } else {
            0
        }
    }
}

/// Number of units currently in progress.
pub open spec fn in_progress_count(s: Seq<LearningUnit>) -> int
    decreases s.len(),
{
    if s.len() == 0 {
        0
    } else {
        in_progress_count(s.drop_last()) + if s.last().status == LearningUnitStatus::InProgress {
            1int
        } else {
            0
        }
    }
}

/// Number of skipped units.
pub open spec fn skipped_count(s: Seq<LearningUnit>) -> int
    decreases s.len(),
{
    if s.len() == 0 {
        0
    } else {
        skipped_count(s.drop_last()) + if s.last().status == LearningUnitStatus::Skipped {
            1int
        } else {
            0
        }
    }
}

/// Sum of the estimated minutes of all units.
pub open spec fn total_minutes(s: Seq<LearningUnit>) -> int
    decreases s.len(),
{
    if s.len() == 0 {
        0
    } else {
        total_minutes(s.drop_last()) + s.last().estimated_time_minutes
    }
}

/// Sum of the estimated minutes of the completed units.
pub open spec fn completed_minutes(s: Seq<LearningUnit>) -> int
    decreases s.len(),
{
    if s.len() == 0 {
        0
    } else {
        completed_minutes(s.drop_last()) + if s.last().status == LearningUnitStatus::Completed {
            s.last().estimated_time_minutes as int
        } else {
            0
        }
    }
}

/// Whether a unit counts into the score average: completed and scored.
pub open spec fn is_scored(u: LearningUnit) -> bool {
    u.status == LearningUnitStatus::Completed && u.score is Some
}

/// Sum of the scores of the completed-and-scored units.
pub open spec fn score_sum(s: Seq<LearningUnit>) -> int
    decreases s.len(),
{
    if s.len() == 0 {
        0
    } else {
        score_sum(s.drop_last()) + if is_scored(s.last()) {
            s.last().score->0 as int
        } else {
            0
        }
    }
}

/// Number of completed-and-scored units.
pub open spec fn scored_count(s: Seq<LearningUnit>) -> int
    decreases s.len(),
{
    if s.len() == 0 {
        0
    } else {
        scored_count(s.drop_last()) + if is_scored(s.last()) {
            1int
        } else {
            0
        }
    }
}

/// Number of units belonging to `st`.
pub open spec fn stage_total(s: Seq<LearningUnit>, st: LearningStage) -> int
    decreases s.len(),
{
    if s.len() == 0 {
        0
    } else {
        stage_total(s.drop_last(), st) + if s.last().stage == st {
            1int
        } else {
            0
        }
    }
}

/// Number of completed units belonging to `st`.
pub open spec fn stage_completed(s: Seq<LearningUnit>, st: LearningStage) -> int
    decreases s.len(),
{
    if s.len() == 0 {
        0
    } else {
        stage_completed(s.drop_last(), st) + if s.last().stage == st && s.last().status
            == LearningUnitStatus::Completed {
            1int
        } else {
            0
        }
    }
}

/// Weighted overall progress in hundredths of a percent; zero when there
/// are no units (never a division by zero).
pub open spec fn spec_overall_progress(s: Seq<LearningUnit>) -> int {
    if total_weight(s) > 0 {
        completed_weight(s) * 10000 / total_weight(s)
    } else {
        0
    }
}

/// Completion percentage of one stage, in hundredths of a percent.
pub open spec fn spec_stage_pct(s: Seq<LearningUnit>, st: LearningStage) -> int
    recommends
        stage_total(s, st) > 0,
{
    stage_completed(s, st) * 10000 / stage_total(s, st)
}

/// One row of the per-stage completion table.
#[derive(Debug, Clone, Copy, PartialEq, Eq, Structural)]
pub struct StageProgress {
    pub stage: LearningStage,
    pub percent_hundredths: u32,
}

/// The per-stage table over `stages`: one row per stage that has at least
/// one unit, in the given order; empty stages are omitted.
pub open spec fn stage_rows(s: Seq<LearningUnit>, stages: Seq<LearningStage>) -> Seq<StageProgress>
    decreases stages.len(),
{
    if stages.len() == 0 {
        Seq::empty()
    } else {
        let rest = stage_rows(s, stages.drop_last());
        let st = stages.last();
        if stage_total(s, st) > 0 {
            rest.push(
                StageProgress { stage: st, percent_hundredths: spec_stage_pct(s, st) as u32 },
            )
        } else {
            rest
        }
    }
}

/// A stage that has at least one unit and is not yet fully completed.
pub open spec fn stage_incomplete(s: Seq<LearningUnit>, st: LearningStage) -> bool {
    stage_total(s, st) > 0 && stage_completed(s, st) < stage_total(s, st)
}

/// The first incomplete stage of `stages`, or the last curriculum stage
/// when every stage is fully completed or empty.
pub open spec fn first_incomplete(s: Seq<LearningUnit>, stages: Seq<LearningStage>) -> LearningStage
    decreases stages.len(),
{
    if stages.len() == 0 {
        LearningStage::Stage5Projects
    } else if stage_incomplete(s, stages[0]) {
        stages[0]
    } else {
        first_incomplete(s, stages.drop_first())
    }
}

/// The inferred current stage.
pub open spec fn spec_current_stage(s: Seq<LearningUnit>) -> LearningStage {
    first_incomplete(s, stage_order())
}

/// The one machine limit the statistics fold needs: the sum of all
/// estimated minutes fits the 64-bit result field.
pub open spec fn minutes_bounded(s: Seq<LearningUnit>) -> bool {
    total_minutes(s) <= u64::MAX
}

/// Basic bounds of every fold: counts stay below the collection length,
/// completed sums stay below total sums, and each sum is bounded by the
/// largest per-unit contribution times the length.
pub proof fn lemma_unit_sums_bounds(s: Seq<LearningUnit>)
    ensures
        0 <= completed_count(s) <= s.len(),
        0 <= in_progress_count(s) <= s.len(),
        0 <= skipped_count(s) <= s.len(),
        0 <= completed_weight(s) <= total_weight(s) <= 30 * s.len(),
        0 <= completed_minutes(s) <= total_minutes(s) <= u32::MAX * s.len(),
        0 <= scored_count(s) <= completed_count(s),
        0 <= score_sum(s) <= u32::MAX * scored_count(s),
    decreases s.len(),
{
    if s.len() > 0 {
        lemma_unit_sums_bounds(s.drop_last());
    }
}

/// Bounds of the per-stage counters.
pub proof fn lemma_stage_bounds(s: Seq<LearningUnit>, st: LearningStage)
    ensures
        0 <= stage_completed(s, st) <= stage_total(s, st) <= s.len(),
    decreases s.len(),
{
    if s.len() > 0 {
        lemma_stage_bounds(s.drop_last(), st);
    }
}

/// The overall progress is a percentage: never above a whole.
pub proof fn lemma_overall_progress_in_range(s: Seq<LearningUnit>)
    ensures
        0 <= spec_overall_progress(s) <= 10000,
{
    lemma_unit_sums_bounds(s);
    let tw = total_weight(s);
    let cw = completed_weight(s);
    if tw > 0 {
        lemma_div_is_ordered(cw * 10000, tw * 10000, tw);
        lemma_div_multiples_vanish(10000, tw);
        vstd::arithmetic::div_mod::lemma_div_pos_is_pos(cw * 10000, tw);
    }
}

/// A stage percentage is never above a whole.
pub proof fn lemma_stage_pct_in_range(s: Seq<LearningUnit>, st: LearningStage)
    requires
        stage_total(s, st) > 0,
    ensures
        0 <= spec_stage_pct(s, st) <= 10000,
{
    lemma_stage_bounds(s, st);
    let t = stage_total(s, st);
    let c = stage_completed(s, st);
    lemma_div_is_ordered(c * 10000, t * 10000, t);
    lemma_div_multiples_vanish(10000, t);
    vstd::arithmetic::div_mod::lemma_div_pos_is_pos(c * 10000, t);
}

/// Replacing the unit at `i` changes `total_weight` by the weight
/// difference of the two units.
pub proof fn lemma_total_weight_update(s: Seq<LearningUnit>, i: int, v: LearningUnit)
    requires
        0 <= i < s.len(),
    ensures
        total_weight(s.update(i, v)) == total_weight(s) - weight_of(s[i].unit_type) + weight_of(
            v.unit_type,
        ),
    decreases s.len(),
{
    let s2 = s.update(i, v);
    if i == s.len() - 1 {
        assert(s2.drop_last() =~= s.drop_last());
    } else {
        assert(s2.drop_last() =~= s.drop_last().update(i, v));
        lemma_total_weight_update(s.drop_last(), i, v);
    }
}

/// The completed-weight contribution of a single unit.
pub open spec fn completed_weight_of(u: LearningUnit) -> int {
    if u.status == LearningUnitStatus::Completed {
        weight_of(u.unit_type) as int
    } else {
        0
    }
}

/// Replacing the unit at `i` changes `completed_weight` by the difference
/// of the two units' contributions.
pub proof fn lemma_completed_weight_update(s: Seq<LearningUnit>, i: int, v: LearningUnit)
    requires
        0 <= i < s.len(),
    ensures
        completed_weight(s.update(i, v)) == completed_weight(s) - completed_weight_of(s[i])
            + completed_weight_of(v),
    decreases s.len(),
{
    let s2 = s.update(i, v);
    if i == s.len() - 1 {
        assert(s2.drop_last() =~= s.drop_last());
    } else {
        assert(s2.drop_last() =~= s.drop_last().update(i, v));
        lemma_completed_weight_update(s.drop_last(), i, v);
    }
}

/// Completing a unit never decreases the weighted overall progress: if the
/// unit at `i` is replaced by a completed unit of the same kind, the
/// percentage stays or grows, whatever the unit's previous state was.
pub proof fn lemma_completion_never_decreases_progress(
    s: Seq<LearningUnit>,
    i: int,
    n: LearningUnit,
)
    requires
        0 <= i < s.len(),
        n.unit_type == s[i].unit_type,
        n.status == LearningUnitStatus::Completed,
    ensures
        spec_overall_progress(s.update(i, n)) >= spec_overall_progress(s),
{
    let s2 = s.update(i, n);
    lemma_total_weight_update(s, i, n);
    lemma_completed_weight_update(s, i, n);
    assert(total_weight(s2) == total_weight(s));
    assert(completed_weight(s2) >= completed_weight(s));
    if total_weight(s) > 0 {
        lemma_div_is_ordered(completed_weight(s) * 10000, completed_weight(s2) * 10000,
            total_weight(s));
    } else {
        lemma_unit_sums_bounds(s);
        lemma_unit_sums_bounds(s2);
    }
}

/// The same law phrased over the tracker's own transition: when the unit
/// at `i` goes through a `complete(score)` step, the weighted overall
/// progress never drops.
pub proof fn lemma_complete_transition_monotone(
    s: Seq<LearningUnit>,
    i: int,
    n: LearningUnit,
    score: Option<u32>,
)
    requires
        0 <= i < s.len(),
        crate::domain::like_completed(s[i], n, score),
    ensures
        spec_overall_progress(s.update(i, n)) >= spec_overall_progress(s),
{
    lemma_completion_never_decreases_progress(s, i, n);
}

/// Sum of the weights of a list of unit kinds.
pub open spec fn weights_total(ts: Seq<LearningUnitType>) -> int
    decreases ts.len(),
{
    if ts.len() == 0 {
        0
    } else {
        weights_total(ts.drop_last()) + weight_of(ts.last())
    }
}

/// The unit-kind weights sum to exactly one whole (100 hundredths).
pub proof fn lemma_weights_sum_to_whole()
    ensures
        weights_total(type_order()) == 100,
{
    let ts = type_order();
    let t4 = seq![
        LearningUnitType::ContentReading,
        LearningUnitType::CodeExample,
        LearningUnitType::Exercise,
        LearningUnitType::Project,
    ];
    let t3 = seq![
        LearningUnitType::ContentReading,
        LearningUnitType::CodeExample,
        LearningUnitType::Exercise,
    ];
    let t2 = seq![LearningUnitType::ContentReading, LearningUnitType::CodeExample];
    let t1 = seq![LearningUnitType::ContentReading];
    let t0 = Seq::<LearningUnitType>::empty();
    assert(ts.drop_last() =~= t4);
    assert(t4.drop_last() =~= t3);
    assert(t3.drop_last() =~= t2);
    assert(t2.drop_last() =~= t1);
    assert(t1.drop_last() =~= t0);
    assert(weights_total(t0) == 0);
    assert(weights_total(t1) == 15);
    assert(weights_total(t2) == 40);
    assert(weights_total(t3) == 70);
    assert(weights_total(t4) == 90);
    assert(weights_total(ts) == 100);
}

/// The derived statistics record. Percentages are in hundredths of a
/// percent; the average score is in hundredths of a point.
#[derive(Debug, Clone)]
pub struct ProgressStats {
    pub total_units: usize,
    pub completed_units: usize,
    pub in_progress_units: usize,
    pub skipped_units: usize,
    pub overall_progress: u32,
    pub total_time_minutes: u64,
    pub completed_time_minutes: u64,
    pub average_score: Option<u64>,
    pub current_stage: LearningStage,
    pub stage_progress: Vec<StageProgress>,
}

pub proof fn lemma_first_incomplete_at(s: Seq<LearningUnit>, stages: Seq<LearningStage>, k: int)
    requires
        0 <= k < stages.len(),
        stage_incomplete(s, stages[k]),
        forall|j: int| 0 <= j < k ==> !stage_incomplete(s, stages[j]),
    ensures
        first_incomplete(s, stages) == stages[k],
    decreases k,
{
    if k > 0 {
        assert(!stage_incomplete(s, stages[0]));
        assert(stages.drop_first()[k - 1] == stages[k]);
        assert forall|j: int| 0 <= j < k - 1 implies !stage_incomplete(
            s,
            stages.drop_first()[j],
        ) by {
            assert(stages.drop_first()[j] == stages[j + 1]);
        }
        lemma_first_incomplete_at(s, stages.drop_first(), k - 1);
    }
}

pub proof fn lemma_first_incomplete_none(s: Seq<LearningUnit>, stages: Seq<LearningStage>)
    requires
        forall|j: int| 0 <= j < stages.len() ==> !stage_incomplete(s, stages[j]),
    ensures
        first_incomplete(s, stages) == LearningStage::Stage5Projects,
    decreases stages.len(),
{
    if stages.len() > 0 {
        assert forall|j: int| 0 <= j < stages.drop_first().len() implies !stage_incomplete(
            s,
            stages.drop_first()[j],
        ) by {
            assert(stages.drop_first()[j] == stages[j + 1]);
        }
        lemma_first_incomplete_none(s, stages.drop_first());
    }
}

/// Counts the units of `stage`, and the completed ones among them.
pub(crate) fn stage_counts(units: &Vec<LearningUnit>, stage: LearningStage) -> (r: (usize, usize))
    ensures
        r.0 as int == stage_total(units@, stage),
        r.1 as int == stage_completed(units@, stage),
        r.1 <= r.0 <= units@.len(),
{
    let n = units.len();
    let mut total: usize = 0;
    let mut done: usize = 0;
    let mut i: usize = 0;
    while i < n
        invariant
            n == units@.len(),
            i <= n,
            total as int == stage_total(units@.take(i as int), stage),
            done as int == stage_completed(units@.take(i as int), stage),
            done <= total <= i,
        decreases n - i,
    {
        proof {
            assert(units@.take(i as int + 1).drop_last() =~= units@.take(i as int));
        }
        if units[i].stage == stage {
            total = total + 1;
            if units[i].status == LearningUnitStatus::Completed {
                done = done + 1;
            }
        }
        i = i + 1;
    }
    proof {
        assert(units@.take(n as int) =~= units@);
    }
    (total, done)
}

/// Sums the weights of all units and of the completed ones.
pub(crate) fn weight_sums(units: &Vec<LearningUnit>) -> (r: (u128, u128))
    ensures
        r.0 as int == total_weight(units@),
        r.1 as int == completed_weight(units@),
        r.1 <= r.0 <= 30 * units@.len(),
{
    let n = units.len();
    let mut tw: u128 = 0;
    let mut cw: u128 = 0;
    let mut i: usize = 0;
    while i < n
        invariant
            n == units@.len(),
            i <= n,
            tw as int == total_weight(units@.take(i as int)),
            cw as int == completed_weight(units@.take(i as int)),
            cw <= tw <= 30 * (i as int),
        decreases n - i,
    {
        proof {
            assert(units@.take(i as int + 1).drop_last() =~= units@.take(i as int));
        }
        let w = units[i].unit_type.weight();
        tw = tw + w as u128;
        if units[i].status == LearningUnitStatus::Completed {
            cw = cw + w as u128;
        }
        i = i + 1;
    }
    proof {
        assert(units@.take(n as int) =~= units@);
    }
    (tw, cw)
}

/// Counts the completed units.
pub(crate) fn count_completed(units: &Vec<LearningUnit>) -> (r: usize)
    ensures
        r as int == completed_count(units@),
        r <= units@.len(),
{
    let n = units.len();
    let mut count: usize = 0;
    let mut i: usize = 0;
    while i < n
        invariant
            n == units@.len(),
            i <= n,
            count as int == completed_count(units@.take(i as int)),
            count <= i,
        decreases n - i,
    {
        proof {
            assert(units@.take(i as int + 1).drop_last() =~= units@.take(i as int));
        }
        if units[i].status == LearningUnitStatus::Completed {
            count = count + 1;
        }
        i = i + 1;
    }
    proof {
        assert(units@.take(n as int) =~= units@);
    }
    count
}

/// The weighted overall progress in hundredths of a percent.
pub(crate) fn overall_progress_pct(units: &Vec<LearningUnit>) -> (r: u32)
    ensures
        r as int == spec_overall_progress(units@),
        r <= 10000,
{
    let n = units.len();
    proof {
        assert(units@.len() == n);
    }
    let (tw, cw) = weight_sums(units);
    if tw > 0 {
        proof {
            lemma_overall_progress_in_range(units@);
        }
        ((cw * 10000) / tw) as u32
    } else {
        0
    }
}

/// Counts the units currently in progress.
pub(crate) fn count_in_progress(units: &Vec<LearningUnit>) -> (r: usize)
    ensures
        r as int == in_progress_count(units@),
        r <= units@.len(),
{
    let n = units.len();
    let mut count: usize = 0;
    let mut i: usize = 0;
    while i < n
        invariant
            n == units@.len(),
            i <= n,
            count as int == in_progress_count(units@.take(i as int)),
            count <= i,
        decreases n - i,
    {
        proof {
            assert(units@.take(i as int + 1).drop_last() =~= units@.take(i as int));
        }
        if units[i].status == LearningUnitStatus::InProgress {
            count = count + 1;
        }
        i = i + 1;
    }
    proof {
        assert(units@.take(n as int) =~= units@);
    }
    count
}

/// The first stage, in curriculum order, that has at least one unit and is
/// not fully completed; the last stage when there is none.
pub(crate) fn compute_current_stage(units: &Vec<LearningUnit>) -> (r: LearningStage)
    ensures
        r == spec_current_stage(units@),
{
    let all = LearningStage::all_stages();
    let mut current: LearningStage = LearningStage::Stage5Projects;
    let mut found: bool = false;
    let mut c: usize = 0;
    while c < 5 && !found
        invariant
            all@ == stage_order(),
            c <= 5,
            !found ==> forall|j: int| 0 <= j < c ==> !stage_incomplete(units@, stage_order()[j]),
            !found ==> current == LearningStage::Stage5Projects,
            found ==> current == spec_current_stage(units@),
        decreases 5 - c + (if found {
            0int
        } else {
            1
        }),
    {
        let st = all[c];
        let (st_total, st_done) = stage_counts(units, st);
        if st_total > 0 && st_done < st_total {
            proof {
                lemma_first_incomplete_at(units@, stage_order(), c as int);
            }
            current = st;
            found = true;
        }
        c = c + 1;
    }
    if !found {
        proof {
            lemma_first_incomplete_none(units@, stage_order());
        }
    }
    current
}

impl ProgressTracker {
    /// Computes the full statistics record: counts, weighted overall
    /// progress, time sums, average score, the per-stage table and the
    /// current stage.
    pub fn get_progress_stats(&self) -> (r: ProgressStats)
        requires
            minutes_bounded(self.learning_units@),
        ensures
            ({
                let units = self.learning_units@;
                &&& r.total_units == units.len()
                &&& r.completed_units as int == completed_count(units)
                &&& r.in_progress_units as int == in_progress_count(units)
                &&& r.skipped_units as int == skipped_count(units)
                &&& r.overall_progress as int == spec_overall_progress(units)
                &&& r.overall_progress <= 10000
                &&& r.total_time_minutes as int == total_minutes(units)
                &&& r.completed_time_minutes as int == completed_minutes(units)
                &&& (scored_count(units) == 0 <==> r.average_score is None)
                &&& (scored_count(units) > 0 ==> (r.average_score matches Some(a) && a as int
                    == score_sum(units) * 100 / scored_count(units)))
                &&& r.current_stage == spec_current_stage(units)
                &&& r.stage_progress@ == stage_rows(units, stage_order())
            }),
    {
        let units = &self.learning_units;
        let n = units.len();
        let mut completed: usize = 0;
        let mut in_progress: usize = 0;
        let mut skipped: usize = 0;
        let mut tw: u128 = 0;
        let mut cw: u128 = 0;
        let mut tm: u128 = 0;
        let mut cm: u128 = 0;
        let mut ssum: u128 = 0;
        let mut scount: usize = 0;
        let mut i: usize = 0;
        while i < n
            invariant
                n == units@.len(),
                i <= n,
                completed as int == completed_count(units@.take(i as int)),
                in_progress as int == in_progress_count(units@.take(i as int)),
                skipped as int == skipped_count(units@.take(i as int)),
                tw as int == total_weight(units@.take(i as int)),
                cw as int == completed_weight(units@.take(i as int)),
                tm as int == total_minutes(units@.take(i as int)),
                cm as int == completed_minutes(units@.take(i as int)),
                ssum as int == score_sum(units@.take(i as int)),
                scount as int == scored_count(units@.take(i as int)),
                completed <= i,
                in_progress <= i,
                skipped <= i,
                scount <= completed,
                cw <= tw <= 30 * (i as int),
                cm <= tm <= u32::MAX * (i as int),
                ssum <= u32::MAX * (scount as int),
            decreases n - i,
        {
            proof {
                assert(units@.take(i as int + 1).drop_last() =~= units@.take(i as int));
            }
            let u = &units[i];
            let w = u.unit_type.weight();
            tw = tw + w as u128;
            tm = tm + u.estimated_time_minutes as u128;
            match u.status {
                LearningUnitStatus::Completed => {
                    completed = completed + 1;
                    cw = cw + w as u128;
                    cm = cm + u.estimated_time_minutes as u128;
                    match u.score {
                        Some(sc) => {
                            ssum = ssum + sc as u128;
                            scount = scount + 1;
                        },
                        None => {},
                    }
                },
                LearningUnitStatus::InProgress => {
                    in_progress = in_progress + 1;
                },
                LearningUnitStatus::Skipped => {
                    skipped = skipped + 1;
                },
                LearningUnitStatus::NotStarted => {},
            }
            i = i + 1;
        }
        proof {
            assert(units@.take(n as int) =~= units@);
        }
        let overall: u32 = if tw > 0 {
            proof {
                lemma_div_is_ordered(cw as int * 10000, tw as int * 10000, tw as int);
                lemma_div_multiples_vanish(10000, tw as int);
                vstd::arithmetic::div_mod::lemma_div_pos_is_pos(cw as int * 10000, tw as int);
            }
            ((cw * 10000) / tw) as u32
        } else {
            0
        };
        let average_score: Option<u64> = if scount > 0 {
            proof {
                lemma_div_is_ordered(
                    ssum as int * 100,
                    scount as int * (u32::MAX * 100),
                    scount as int,
                );
                lemma_div_multiples_vanish(u32::MAX * 100, scount as int);
                vstd::arithmetic::div_mod::lemma_div_pos_is_pos(ssum as int * 100, scount as int);
            }
            Some(((ssum * 100) / (scount as u128)) as u64)
        } else {
            None
        };

        let all = LearningStage::all_stages();
        let mut rows: Vec<StageProgress> = Vec::new();
        let mut k: usize = 0;
        while k < 5
            invariant
                all@ == stage_order(),
                k <= 5,
                self.learning_units@ == units@,
                rows@ == stage_rows(units@, stage_order().take(k as int)),
            decreases 5 - k,
        {
            proof {
                assert(stage_order().take(k as int + 1).drop_last() =~= stage_order().take(
                    k as int,
                ));
            }
            let st = all[k];
            let (st_total, st_done) = stage_counts(units, st);
            if st_total > 0 {
                proof {
                    lemma_stage_pct_in_range(units@, st);
                }
                let pct: u32 = ((st_done as u128 * 10000) / (st_total as u128)) as u32;
                rows.push(StageProgress { stage: st, percent_hundredths: pct });
            }
            k = k + 1;
        }
        proof {
            assert(stage_order().take(5) =~= stage_order());
        }

        let current = compute_current_stage(units);

        ProgressStats {
            total_units: n,
            completed_units: completed,
            in_progress_units: in_progress,
            skipped_units: skipped,
            overall_progress: overall,
            total_time_minutes: tm as u64,
            completed_time_minutes: cm as u64,
            average_score,
            current_stage: current,
            stage_progress: rows,
        }
    }
}

} // verus!
