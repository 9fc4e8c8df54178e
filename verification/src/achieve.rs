//! The achievement evaluator: scans the locked achievements against the
//! current unit collection, unlocks the newly satisfied ones and reports
//! their ids in storage order.
//!
//! Unlocking is monotonic: a set `unlocked_at` is never cleared or changed,
//! and a second evaluation with no intervening unit mutation unlocks
//! nothing further.

use vstd::prelude::*;
use vstd::arithmetic::div_mod::lemma_div_is_ordered;
use crate::clock;
use crate::clock::valid_ts;
use crate::domain::{
    unit_times_valid, tracker_times_valid, Achievement, AchievementCondition, LearningStage,
    LearningUnit, LearningUnitStatus, LearningUnitType, ProgressTracker,
};
use crate::stats;
use crate::stats::{completed_minutes, scored_count, score_sum, stage_completed, stage_total};

verus! {

/// A completed unit matching the optional kind filter.
pub open spec fn is_typed_completed(u: LearningUnit, filter: Option<LearningUnitType>) -> bool {
    u.status == LearningUnitStatus::Completed && (filter matches Some(t) ==> u.unit_type == t)
}

/// Number of completed units, restricted to one kind when a filter is given.
pub open spec fn typed_completed_count(
    s: Seq<LearningUnit>,
    filter: Option<LearningUnitType>,
) -> int
    decreases s.len(),
{
    if s.len() == 0 {
        0
    } else {
        typed_completed_count(s.drop_last(), filter) + if is_typed_completed(s.last(), filter) {
            1int
        } else {
            0
        }
    }
}

/// Whether a completion timestamp lies within `days` whole days of `now`
/// (computed exactly as a truncating division of the second difference;
/// a completion recorded after `now` always counts).
pub open spec fn within_days(ts: i64, now: i64, days: u32) -> bool {
    if ts <= now {
        (now - ts) / 86400 <= days
    } else {
        true
    }
}

/// A unit completed within `days` of `now`.
pub open spec fn is_recent(u: LearningUnit, now: i64, days: u32) -> bool {
    u.status == LearningUnitStatus::Completed && (u.completed_at matches Some(ts) && within_days(
        ts,
        now,
        days,
    ))
}

/// Number of units completed within `days` of `now`.
pub open spec fn recent_completed_count(s: Seq<LearningUnit>, now: i64, days: u32) -> int
    decreases s.len(),
{
    if s.len() == 0 {
        0
    } else {
        recent_completed_count(s.drop_last(), now, days) + if is_recent(s.last(), now, days) {
            1int
        } else {
            0
        }
    }
}

/// The streak approximation asks for at least this many recent completions.
pub open spec fn streak_min_completions() -> int {
    3
}

/// Exact satisfaction of one unlock condition against the unit collection
/// at the given moment.
pub open spec fn condition_met(c: AchievementCondition, s: Seq<LearningUnit>, now: i64) -> bool {
    match c {
        AchievementCondition::CompleteUnits { count, unit_type } => typed_completed_count(
            s,
            unit_type,
        ) >= count,
        // the stage percentage is 100% exactly when the stage has units and
        // all of them are completed
        AchievementCondition::CompleteStage { stage } => stage_total(s, stage) > 0
            && stage_completed(s, stage) == stage_total(s, stage),
        AchievementCondition::ScoreAverage { min_score, unit_count } => scored_count(s) > 0
            && score_sum(s) * 100 / scored_count(s) >= min_score * 100 && scored_count(s)
            >= unit_count,
        AchievementCondition::StreakDays { days } => recent_completed_count(s, now, days)
            >= streak_min_completions(),
        AchievementCondition::TotalTime { hours } => completed_minutes(s) / 60 >= hours,
    }
}

/// A locked achievement whose condition holds.
pub open spec fn should_unlock(a: Achievement, s: Seq<LearningUnit>, now: i64) -> bool {
    a.unlocked_at is None && condition_met(a.condition, s, now)
}

/// The achievement with its unlock stamp set to `now`.
pub open spec fn stamped(a: Achievement, now: i64) -> Achievement {
    Achievement {
        id: a.id,
        name: a.name,
        description: a.description,
        icon: a.icon,
        condition: a.condition,
        unlocked_at: Some(now),
        rarity: a.rarity,
    }
}

/// All achievements after one evaluation pass at `now`.
pub open spec fn evaluate_all(
    achs: Seq<Achievement>,
    s: Seq<LearningUnit>,
    now: i64,
) -> Seq<Achievement> {
    achs.map_values(
        |a: Achievement|
            if should_unlock(a, s, now) {
                stamped(a, now)
            } else {
                a
            },
    )
}

/// Ids of the achievements that an evaluation pass at `now` unlocks, in
/// storage order.
pub open spec fn newly_unlocked_ids(
    achs: Seq<Achievement>,
    s: Seq<LearningUnit>,
    now: i64,
) -> Seq<Seq<char>>
    decreases achs.len(),
{
    if achs.len() == 0 {
        Seq::empty()
    } else {
        let rest = newly_unlocked_ids(achs.drop_last(), s, now);
        if should_unlock(achs.last(), s, now) {
            rest.push(achs.last().id@)
        } else {
            rest
        }
    }
}

/// Full description of one evaluator call: `post` and the id list `ids`
/// are what evaluating `pre` at `now` yields.
pub open spec fn evaluated_at(
    pre: ProgressTracker,
    post: ProgressTracker,
    ids: Seq<Seq<char>>,
    now: i64,
) -> bool {
    &&& post.achievements@ == evaluate_all(pre.achievements@, pre.learning_units@, now)
    &&& ids == newly_unlocked_ids(pre.achievements@, pre.learning_units@, now)
    &&& post.learning_units@ == pre.learning_units@
    &&& post.learner_id == pre.learner_id
    &&& post.learner_name == pre.learner_name
    &&& post.created_at == pre.created_at
    &&& (ids.len() == 0 ==> post.last_updated == pre.last_updated)
    &&& (ids.len() > 0 ==> post.last_updated == now)
}

/// Monotonic unlocking: an evaluator call never clears, changes or moves a
/// stamp that is already set; the whole record stays as it was.
pub proof fn lemma_unlock_monotonic(
    pre: ProgressTracker,
    post: ProgressTracker,
    ids: Seq<Seq<char>>,
    now: i64,
)
    requires
        evaluated_at(pre, post, ids, now),
    ensures
        forall|j: int|
            0 <= j < pre.achievements@.len() && pre.achievements@[j].unlocked_at is Some
                ==> post.achievements@[j] == pre.achievements@[j],
{
}

/// Being recent only gets harder as the clock advances.
pub proof fn lemma_recent_antitone(s: Seq<LearningUnit>, now1: i64, now2: i64, days: u32)
    requires
        now1 <= now2,
    ensures
        recent_completed_count(s, now2, days) <= recent_completed_count(s, now1, days),
    decreases s.len(),
{
    if s.len() > 0 {
        lemma_recent_antitone(s.drop_last(), now1, now2, days);
        let u = s.last();
        if is_recent(u, now2, days) {
            match u.completed_at {
                Some(ts) => {
                    if ts <= now1 {
                        lemma_div_is_ordered(now1 - ts, now2 - ts, 86400);
                    }
                },
                None => {},
            }
        }
    }
}

/// A condition that failed at `now1` still fails at any later `now2`, the
/// units being unchanged.
pub proof fn lemma_condition_antitone(
    c: AchievementCondition,
    s: Seq<LearningUnit>,
    now1: i64,
    now2: i64,
)
    requires
        now1 <= now2,
        !condition_met(c, s, now1),
    ensures
        !condition_met(c, s, now2),
{
    match c {
        AchievementCondition::StreakDays { days } => {
            lemma_recent_antitone(s, now1, now2, days);
        },
        _ => {},
    }
}

/// Idempotence of the evaluator: after one pass, a second pass at the same
/// or any later moment, with the units unchanged, unlocks nothing.
pub proof fn lemma_no_new_after_evaluation(
    achs: Seq<Achievement>,
    s: Seq<LearningUnit>,
    now1: i64,
    now2: i64,
)
    requires
        now1 <= now2,
    ensures
        newly_unlocked_ids(evaluate_all(achs, s, now1), s, now2).len() == 0,
    decreases achs.len(),
{
    let ev = evaluate_all(achs, s, now1);
    if achs.len() == 0 {
        assert(ev =~= Seq::<Achievement>::empty());
    } else {
        assert(ev.drop_last() =~= evaluate_all(achs.drop_last(), s, now1));
        lemma_no_new_after_evaluation(achs.drop_last(), s, now1, now2);
        let a = achs.last();
        assert(ev.last() == if should_unlock(a, s, now1) {
            stamped(a, now1)
        } else {
            a
        });
        if !should_unlock(a, s, now1) && a.unlocked_at is None {
            lemma_condition_antitone(a.condition, s, now1, now2);
        }
    }
}

/// Two consecutive evaluator calls with no unit mutation in between: the
/// second call returns an empty unlock list and changes nothing.
pub proof fn lemma_evaluator_idempotent(
    pre: ProgressTracker,
    mid: ProgressTracker,
    post: ProgressTracker,
    ids1: Seq<Seq<char>>,
    ids2: Seq<Seq<char>>,
    now1: i64,
    now2: i64,
)
    requires
        evaluated_at(pre, mid, ids1, now1),
        evaluated_at(mid, post, ids2, now2),
        now1 <= now2,
    ensures
        ids2.len() == 0,
        post.achievements@ == mid.achievements@,
        post.last_updated == mid.last_updated,
{
    lemma_no_new_after_evaluation(pre.achievements@, pre.learning_units@, now1, now2);
    let s = pre.learning_units@;
    let m = mid.achievements@;
    assert forall|j: int| 0 <= j < m.len() implies !should_unlock(m[j], s, now2) by {
        let a = pre.achievements@[j];
        if !should_unlock(a, s, now1) && a.unlocked_at is None {
            lemma_condition_antitone(a.condition, s, now1, now2);
        }
    }
    assert(evaluate_all(m, s, now2) =~= m);
}

fn count_typed_completed(units: &Vec<LearningUnit>, filter: Option<LearningUnitType>) -> (r: usize)
    ensures
        r as int == typed_completed_count(units@, filter),
{
    let n = units.len();
    let mut count: usize = 0;
    let mut i: usize = 0;
    while i < n
        invariant
            n == units@.len(),
            i <= n,
            count as int == typed_completed_count(units@.take(i as int), filter),
            count <= i,
        decreases n - i,
    {
        proof {
            assert(units@.take(i as int + 1).drop_last() =~= units@.take(i as int));
        }
        if units[i].status == LearningUnitStatus::Completed {
            let matches_filter = match filter {
                Some(t) => units[i].unit_type == t,
                None => true,
            };
            if matches_filter {
                count = count + 1;
            }
        }
        i = i + 1;
    }
    proof {
        assert(units@.take(n as int) =~= units@);
    }
    count
}

pub(crate) fn count_scored(units: &Vec<LearningUnit>) -> (r: (u128, usize))
    ensures
        r.0 as int == score_sum(units@),
        r.1 as int == scored_count(units@),
        r.0 <= u32::MAX * (r.1 as int),
        r.1 <= units@.len(),
{
    let n = units.len();
    let mut sum: u128 = 0;
    let mut count: usize = 0;
    let mut i: usize = 0;
    while i < n
        invariant
            n == units@.len(),
            i <= n,
            sum as int == score_sum(units@.take(i as int)),
            count as int == scored_count(units@.take(i as int)),
            count <= i,
            sum <= u32::MAX * (count as int),
        decreases n - i,
    {
        proof {
            assert(units@.take(i as int + 1).drop_last() =~= units@.take(i as int));
        }
        if units[i].status == LearningUnitStatus::Completed {
            match units[i].score {
                Some(sc) => {
                    sum = sum + sc as u128;
                    count = count + 1;
                },
                None => {},
            }
        }
        i = i + 1;
    }
    proof {
        assert(units@.take(n as int) =~= units@);
    }
    (sum, count)
}

pub(crate) fn sum_completed_minutes(units: &Vec<LearningUnit>) -> (r: u128)
    ensures
        r as int == completed_minutes(units@),
{
    let n = units.len();
    let mut sum: u128 = 0;
    let mut i: usize = 0;
    while i < n
        invariant
            n == units@.len(),
            i <= n,
            sum as int == completed_minutes(units@.take(i as int)),
            sum <= u32::MAX * (i as int),
        decreases n - i,
    {
        proof {
            assert(units@.take(i as int + 1).drop_last() =~= units@.take(i as int));
        }
        if units[i].status == LearningUnitStatus::Completed {
            sum = sum + units[i].estimated_time_minutes as u128;
        }
        i = i + 1;
    }
    proof {
        assert(units@.take(n as int) =~= units@);
    }
    sum
}

fn count_recent(units: &Vec<LearningUnit>, now: i64, days: u32) -> (r: usize)
    requires
        valid_ts(now),
        forall|i: int| 0 <= i < units@.len() ==> unit_times_valid(#[trigger] units@[i]),
    ensures
        r as int == recent_completed_count(units@, now, days),
{
    let n = units.len();
    let mut count: usize = 0;
    let mut i: usize = 0;
    while i < n
        invariant
            valid_ts(now),
            forall|k: int| 0 <= k < units@.len() ==> unit_times_valid(#[trigger] units@[k]),
            n == units@.len(),
            i <= n,
            count as int == recent_completed_count(units@.take(i as int), now, days),
            count <= i,
        decreases n - i,
    {
        proof {
            assert(units@.take(i as int + 1).drop_last() =~= units@.take(i as int));
        }
        if units[i].status == LearningUnitStatus::Completed {
            match units[i].completed_at {
                Some(ts) => {
                    let recent = if ts <= now {
                        ((now - ts) as u64) / 86400 <= days as u64
                    } else {
                        true
                    };
                    if recent {
                        count = count + 1;
                    }
                },
                None => {},
            }
        }
        i = i + 1;
    }
    proof {
        assert(units@.take(n as int) =~= units@);
    }
    count
}

/// Decides one condition against the unit collection at `now`.
fn eval_condition(units: &Vec<LearningUnit>, c: AchievementCondition, now: i64) -> (r: bool)
    requires
        valid_ts(now),
        forall|i: int| 0 <= i < units@.len() ==> unit_times_valid(#[trigger] units@[i]),
    ensures
        r == condition_met(c, units@, now),
{
    match c {
        AchievementCondition::CompleteUnits { count, unit_type } => {
            count_typed_completed(units, unit_type) >= count
        },
        AchievementCondition::CompleteStage { stage } => {
            let (total, done) = stats::stage_counts(units, stage);
            total > 0 && done == total
        },
        AchievementCondition::ScoreAverage { min_score, unit_count } => {
            let (sum, count) = count_scored(units);
            if count == 0 {
                false
            } else {
                (sum * 100) / (count as u128) >= (min_score as u128) * 100 && count >= unit_count
            }
        },
        AchievementCondition::StreakDays { days } => {
            count_recent(units, now, days) >= 3
        },
        AchievementCondition::TotalTime { hours } => {
            sum_completed_minutes(units) / 60 >= hours as u128
        },
    }
}

impl ProgressTracker {
    /// One evaluation pass at the given moment: every locked achievement
    /// whose condition holds is stamped with `now`, and the list of ids
    /// stamped by this very call is returned, in storage order.
    pub fn check_achievements_at(&mut self, now: i64) -> (r: Vec<String>)
        requires
            valid_ts(now),
            tracker_times_valid(*old(self)),
        ensures
            evaluated_at(*old(self), *final(self), r@.map_values(|x: String| x@), now),
            tracker_times_valid(*final(self)),
    {
        let ghost s = self.learning_units@;
        let ghost pre = self.achievements@;
        let mut ids: Vec<String> = Vec::new();
        let n = self.achievements.len();
        let mut j: usize = 0;
        while j < n
            invariant
                valid_ts(now),
                tracker_times_valid(*old(self)),
                s == old(self).learning_units@,
                pre == old(self).achievements@,
                n == pre.len(),
                j <= n,
                self.learning_units@ == s,
                self.learner_id == old(self).learner_id,
                self.learner_name == old(self).learner_name,
                self.created_at == old(self).created_at,
                self.last_updated == old(self).last_updated,
                self.achievements@.len() == n,
                forall|k: int|
                    0 <= k < j ==> #[trigger] self.achievements@[k] == (if should_unlock(
                        pre[k],
                        s,
                        now,
                    ) {
                        stamped(pre[k], now)
                    } else {
                        pre[k]
                    }),
                forall|k: int| j <= k < n ==> #[trigger] self.achievements@[k] == pre[k],
                ids@.map_values(|x: String| x@) == newly_unlocked_ids(
                    pre.take(j as int),
                    s,
                    now,
                ),
            decreases n - j,
        {
            proof {
                assert(pre.take(j as int + 1).drop_last() =~= pre.take(j as int));
            }
            let ghost ids_pre = ids@;
            if self.achievements[j].unlocked_at.is_none() {
                let met = eval_condition(&self.learning_units, self.achievements[j].condition, now);
                if met {
                    let id = self.achievements[j].id.clone();
                    ids.push(id);
                    let a = &mut self.achievements[j];
                    a.unlocked_at = Some(now);
                    proof {
                        assert(ids@.map_values(|x: String| x@) =~= ids_pre.map_values(
                            |x: String| x@,
                        ).push(pre[j as int].id@));
                    }
                }
            }
            j = j + 1;
        }
        proof {
            assert(pre.take(n as int) =~= pre);
            assert(self.achievements@ =~= evaluate_all(pre, s, now));
        }
        if ids.len() > 0 {
            self.last_updated = now;
        }
        ids
    }

    /// Evaluates the achievements against the clock's present moment.
    pub fn check_achievements(&mut self) -> (r: Vec<String>)
        requires
            tracker_times_valid(*old(self)),
        ensures
            exists|now: i64|
                valid_ts(now) && evaluated_at(
                    *old(self),
                    *final(self),
                    r@.map_values(|x: String| x@),
                    now,
                ),
            tracker_times_valid(*final(self)),
    {
        let now = clock::now_seconds();
        let r = self.check_achievements_at(now);
        proof {
            let ghost w = now;
            assert(valid_ts(w) && evaluated_at(
                *old(self),
                *self,
                r@.map_values(|x: String| x@),
                w,
            ));
        }
        r
    }
}

} // verus!
