//! The recommendation engine: selects the open units of the current stage,
//! ranks them (not-yet-started before in-progress, heavier-weighted kinds
//! first, original order within equal keys — a stable sort written out as a
//! concatenation of filtered groups), and proposes at most five of them
//! with a confidence figure and a rationale line.

use vstd::prelude::*;
use vstd::arithmetic::div_mod::{lemma_div_is_ordered, lemma_div_multiples_vanish};
use vstd::string::StringExecFns;
use crate::domain::{
    spec_stage_name, weight_of, LearningStage, LearningUnit, LearningUnitStatus, ProgressTracker,
};
use crate::stats;
use crate::stats::{
    completed_count, spec_current_stage, spec_stage_pct, stage_total, total_minutes,
};
use crate::strutil;
use crate::strutil::dec_str;

verus! {

/// A unit that belongs to the ranking group of (`stage`, `status`, weight
/// `w`): an open unit of the current stage whose kind carries that weight.
pub open spec fn in_group(
    u: LearningUnit,
    cur: LearningStage,
    st: LearningUnitStatus,
    w: u32,
) -> bool {
    u.stage == cur && u.status == st && weight_of(u.unit_type) == w
}

/// The units of one ranking group, in their original order.
pub open spec fn candidate_group(
    s: Seq<LearningUnit>,
    cur: LearningStage,
    st: LearningUnitStatus,
    w: u32,
) -> Seq<LearningUnit>
    decreases s.len(),
{
    if s.len() == 0 {
        Seq::empty()
    } else {
        let rest = candidate_group(s.drop_last(), cur, st, w);
        if in_group(s.last(), cur, st, w) {
            rest.push(s.last())
        } else {
            rest
        }
    }
}

/// All open units of the current stage in recommendation order: the
/// not-yet-started ones first, then the in-progress ones, each block by
/// descending kind weight, and the original order within equal keys.
pub open spec fn ranked_candidates(s: Seq<LearningUnit>, cur: LearningStage) -> Seq<LearningUnit> {
    candidate_group(s, cur, LearningUnitStatus::NotStarted, 30) + candidate_group(
        s,
        cur,
        LearningUnitStatus::NotStarted,
        25,
    ) + candidate_group(s, cur, LearningUnitStatus::NotStarted, 20) + candidate_group(
        s,
        cur,
        LearningUnitStatus::NotStarted,
        15,
    ) + candidate_group(s, cur, LearningUnitStatus::NotStarted, 10) + candidate_group(
        s,
        cur,
        LearningUnitStatus::InProgress,
        30,
    ) + candidate_group(s, cur, LearningUnitStatus::InProgress, 25) + candidate_group(
        s,
        cur,
        LearningUnitStatus::InProgress,
        20,
    ) + candidate_group(s, cur, LearningUnitStatus::InProgress, 15) + candidate_group(
        s,
        cur,
        LearningUnitStatus::InProgress,
        10,
    )
}

/// The proposed units: the first five ranked candidates (all of them when
/// there are fewer).
pub open spec fn spec_next_units(s: Seq<LearningUnit>, cur: LearningStage) -> Seq<LearningUnit> {
    let rc = ranked_candidates(s, cur);
    rc.take(
        if rc.len() < 5 {
            rc.len() as int
        } else {
            5
        },
    )
}

/// The confidence figure in basis points (10000 stands for 1.0): the mean
/// of the overall completion ratio and the current stage's completion
/// ratio; zero when nothing is proposed.
pub open spec fn spec_confidence(s: Seq<LearningUnit>, cur: LearningStage) -> int {
    if spec_next_units(s, cur).len() == 0 {
        0
    } else {
        (completed_count(s) * 10000 / s.len() as int + (if stage_total(s, cur) > 0 {
            spec_stage_pct(s, cur)
        } else {
            0
        })) / 2
    }
}

/// The rationale line accompanying the proposal.
pub open spec fn spec_reasoning(s: Seq<LearningUnit>, cur: LearningStage) -> Seq<char> {
    let next = spec_next_units(s, cur);
    if next.len() == 0 {
        "恭喜！您已完成所有学习单元。建议复习或开始实际项目练习。"@
    } else {
        "基于您的学习进度，推荐您接下来完成 "@ + spec_stage_name(cur) + " 的 "@ + dec_str(
            next.len() as int,
        ) + " 个学习单元，预计需要 "@ + dec_str(total_minutes(next)) + " 分钟。"@
    }
}

/// A ranked learning-path proposal.
#[derive(Debug, Clone)]
pub struct LearningPathRecommendation {
    pub next_units: Vec<LearningUnit>,
    pub recommended_stage: LearningStage,
    pub estimated_time_minutes: u64,
    pub confidence_score: u32,
    pub reasoning: String,
}

/// Appends copies of one ranking group's units to `dst`.
fn append_group(
    dst: &mut Vec<LearningUnit>,
    units: &Vec<LearningUnit>,
    cur: LearningStage,
    st: LearningUnitStatus,
    w: u32,
)
    ensures
        final(dst)@ == old(dst)@ + candidate_group(units@, cur, st, w),
{
    let n = units.len();
    let mut i: usize = 0;
    while i < n
        invariant
            n == units@.len(),
            i <= n,
            dst@ == old(dst)@ + candidate_group(units@.take(i as int), cur, st, w),
        decreases n - i,
    {
        proof {
            assert(units@.take(i as int + 1).drop_last() =~= units@.take(i as int));
        }
        let u = &units[i];
        if u.stage == cur && (u.status == st) && u.unit_type.weight() == w {
            dst.push(u.duplicate());
            proof {
                assert(dst@ =~= old(dst)@ + candidate_group(
                    units@.take(i as int + 1),
                    cur,
                    st,
                    w,
                ));
            }
        }
        i = i + 1;
    }
    proof {
        assert(units@.take(n as int) =~= units@);
    }
}

impl ProgressTracker {
    /// Computes the learning-path proposal for the tracker's present state.
    pub fn get_learning_path_recommendation(&self) -> (r: LearningPathRecommendation)
        ensures
            ({
                let units = self.learning_units@;
                let cur = spec_current_stage(units);
                &&& r.next_units@ == spec_next_units(units, cur)
                &&& r.recommended_stage == cur
                &&& r.estimated_time_minutes as int == total_minutes(spec_next_units(units, cur))
                &&& r.confidence_score as int == spec_confidence(units, cur)
                &&& r.confidence_score <= 10000
                &&& r.reasoning@ == spec_reasoning(units, cur)
            }),
    {
        let units = &self.learning_units;
        let cur = stats::compute_current_stage(units);

        let mut cands: Vec<LearningUnit> = Vec::new();
        append_group(&mut cands, units, cur, LearningUnitStatus::NotStarted, 30);
        append_group(&mut cands, units, cur, LearningUnitStatus::NotStarted, 25);
        append_group(&mut cands, units, cur, LearningUnitStatus::NotStarted, 20);
        append_group(&mut cands, units, cur, LearningUnitStatus::NotStarted, 15);
        append_group(&mut cands, units, cur, LearningUnitStatus::NotStarted, 10);
        append_group(&mut cands, units, cur, LearningUnitStatus::InProgress, 30);
        append_group(&mut cands, units, cur, LearningUnitStatus::InProgress, 25);
        append_group(&mut cands, units, cur, LearningUnitStatus::InProgress, 20);
        append_group(&mut cands, units, cur, LearningUnitStatus::InProgress, 15);
        append_group(&mut cands, units, cur, LearningUnitStatus::InProgress, 10);
        proof {
            assert(cands@ == ranked_candidates(units@, cur));
        }

        let take_n: usize = if cands.len() < 5 {
            cands.len()
        } else {
            5
        };
        let mut next: Vec<LearningUnit> = Vec::new();
        let mut i: usize = 0;
        while i < take_n
            invariant
                take_n <= cands@.len(),
                i <= take_n,
                next@ == cands@.take(i as int),
            decreases take_n - i,
        {
            next.push(cands[i].duplicate());
            proof {
                assert(next@ =~= cands@.take(i as int + 1));
            }
            i = i + 1;
        }
        proof {
            assert(next@ == spec_next_units(units@, cur));
        }

        let mut est: u64 = 0;
        let mut k: usize = 0;
        while k < take_n
            invariant
                take_n <= 5,
                next@.len() == take_n,
                k <= take_n,
                est as int == total_minutes(next@.take(k as int)),
                est <= u32::MAX * (k as int),
            decreases take_n - k,
        {
            proof {
                assert(next@.take(k as int + 1).drop_last() =~= next@.take(k as int));
            }
            est = est + next[k].estimated_time_minutes as u64;
            k = k + 1;
        }
        proof {
            assert(next@.take(take_n as int) =~= next@);
        }

        let confidence: u32 = if next.len() == 0 {
            0
        } else {
            let n = units.len();
            proof {
                if n == 0 {
                    assert(units@.len() == 0);
                    assert(ranked_candidates(units@, cur).len() == 0);
                }
            }
            let done = stats::count_completed(units);
            proof {
                lemma_div_is_ordered(done as int * 10000, n as int * 10000, n as int);
                lemma_div_multiples_vanish(10000, n as int);
                vstd::arithmetic::div_mod::lemma_div_pos_is_pos(done as int * 10000, n as int);
            }
            let ratio_bp: u128 = (done as u128 * 10000) / (n as u128);
            let (st_total, st_done) = stats::stage_counts(units, cur);
            let stage_bp: u128 = if st_total > 0 {
                proof {
                    stats::lemma_stage_pct_in_range(units@, cur);
                }
                (st_done as u128 * 10000) / (st_total as u128)
            } else {
                0
            };
            ((ratio_bp + stage_bp) / 2) as u32
        };

        let reasoning: String = if next.len() == 0 {
            "恭喜！您已完成所有学习单元。建议复习或开始实际项目练习。".to_owned()
        } else {
            let mut m = String::from_str("基于您的学习进度，推荐您接下来完成 ");
            m.append(cur.name());
            m.append(" 的 ");
            m.append(strutil::u64_string(next.len() as u64).as_str());
            m.append(" 个学习单元，预计需要 ");
            m.append(strutil::u64_string(est).as_str());
            m.append(" 分钟。");
            m
        };

        LearningPathRecommendation {
            next_units: next,
            recommended_stage: cur,
            estimated_time_minutes: est,
            confidence_score: confidence,
            reasoning,
        }
    }
}

} // verus!
