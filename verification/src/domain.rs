//! The domain model: curriculum stages, learning-unit kinds and states, the
//! units themselves, achievements, and the `ProgressTracker` aggregate that
//! owns both collections.
//!
//! Every mutation of a unit goes through the tracker (or through the unit's
//! own transition methods), and each transition is pinned down by a
//! `like_*` predicate relating the old and the new record.

use vstd::prelude::*;
use vstd::string::StringExecFns;
use crate::clock;
use crate::clock::valid_ts;
use crate::strutil::str_eq;

verus! {

/// The ordered curriculum phases.
#[derive(Debug, Clone, Copy, PartialEq, Eq, Structural)]
pub enum LearningStage {
    Stage1Basics,
    Stage2Ownership,
    Stage3AdvancedConcepts,
    Stage4Ecosystem,
    Stage5Projects,
}

/// The five stages in curriculum order.
pub open spec fn stage_order() -> Seq<LearningStage> {
    seq![
        LearningStage::Stage1Basics,
        LearningStage::Stage2Ownership,
        LearningStage::Stage3AdvancedConcepts,
        LearningStage::Stage4Ecosystem,
        LearningStage::Stage5Projects,
    ]
}

pub open spec fn spec_stage_name(s: LearningStage) -> Seq<char> {
    match s {
        LearningStage::Stage1Basics => "阶段1: 基础入门"@,
        LearningStage::Stage2Ownership => "阶段2: 所有权系统"@,
        LearningStage::Stage3AdvancedConcepts => "阶段3: 高级概念"@,
        LearningStage::Stage4Ecosystem => "阶段4: 生态系统"@,
        LearningStage::Stage5Projects => "阶段5: 项目实战"@,
    }
}

pub open spec fn spec_stage_description(s: LearningStage) -> Seq<char> {
    match s {
        LearningStage::Stage1Basics => "Rust 基础语法、环境搭建、基本数据类型和控制流"@,
        LearningStage::Stage2Ownership => "Rust 的核心特性：所有权、借用、生命周期"@,
        LearningStage::Stage3AdvancedConcepts => "结构体、枚举、错误处理、泛型和特征"@,
        LearningStage::Stage4Ecosystem => "Cargo、常用库、异步编程、Web 框架"@,
        LearningStage::Stage5Projects => "实际项目开发：Web 应用、系统编程、区块链"@,
    }
}

pub open spec fn spec_stage_weeks(s: LearningStage) -> u32 {
    match s {
        LearningStage::Stage1Basics => 3,
        LearningStage::Stage2Ownership => 2,
        LearningStage::Stage3AdvancedConcepts => 2,
        LearningStage::Stage4Ecosystem => 2,
        LearningStage::Stage5Projects => 3,
    }
}

impl LearningStage {
    /// All stages, in curriculum order.
    pub fn all_stages() -> (r: Vec<LearningStage>)
        ensures
            r@ == stage_order(),
    {
        let mut v: Vec<LearningStage> = Vec::new();
        v.push(LearningStage::Stage1Basics);
        v.push(LearningStage::Stage2Ownership);
        v.push(LearningStage::Stage3AdvancedConcepts);
        v.push(LearningStage::Stage4Ecosystem);
        v.push(LearningStage::Stage5Projects);
        proof {
            assert(v@ =~= stage_order());
        }
        v
    }

    /// Display name of the stage.
    pub fn name(&self) -> (r: &'static str)
        ensures
            r@ == spec_stage_name(*self),
    {
        match self {
            LearningStage::Stage1Basics => "阶段1: 基础入门",
            LearningStage::Stage2Ownership => "阶段2: 所有权系统",
            LearningStage::Stage3AdvancedConcepts => "阶段3: 高级概念",
            LearningStage::Stage4Ecosystem => "阶段4: 生态系统",
            LearningStage::Stage5Projects => "阶段5: 项目实战",
        }
    }

    /// Short description of what the stage covers.
    pub fn description(&self) -> (r: &'static str)
        ensures
            r@ == spec_stage_description(*self),
    {
        match self {
            LearningStage::Stage1Basics => "Rust 基础语法、环境搭建、基本数据类型和控制流",
            LearningStage::Stage2Ownership => "Rust 的核心特性：所有权、借用、生命周期",
            LearningStage::Stage3AdvancedConcepts => "结构体、枚举、错误处理、泛型和特征",
            LearningStage::Stage4Ecosystem => "Cargo、常用库、异步编程、Web 框架",
            LearningStage::Stage5Projects => "实际项目开发：Web 应用、系统编程、区块链",
        }
    }

    /// Estimated number of weeks the stage takes.
    pub fn estimated_weeks(&self) -> (r: u32)
        ensures
            r == spec_stage_weeks(*self),
    {
        match self {
            LearningStage::Stage1Basics => 3,
            LearningStage::Stage2Ownership => 2,
            LearningStage::Stage3AdvancedConcepts => 2,
            LearningStage::Stage4Ecosystem => 2,
            LearningStage::Stage5Projects => 3,
        }
    }
}

/// The closed set of unit kinds.
#[derive(Debug, Clone, Copy, PartialEq, Eq, Structural)]
pub enum LearningUnitType {
    ContentReading,
    CodeExample,
    Exercise,
    Project,
    Assessment,
}

/// The five unit kinds, in declaration order.
pub open spec fn type_order() -> Seq<LearningUnitType> {
    seq![
        LearningUnitType::ContentReading,
        LearningUnitType::CodeExample,
        LearningUnitType::Exercise,
        LearningUnitType::Project,
        LearningUnitType::Assessment,
    ]
}

pub open spec fn spec_type_name(t: LearningUnitType) -> Seq<char> {
    match t {
        LearningUnitType::ContentReading => "内容阅读"@,
        LearningUnitType::CodeExample => "代码示例"@,
        LearningUnitType::Exercise => "练习题"@,
        LearningUnitType::Project => "项目实战"@,
        LearningUnitType::Assessment => "自我评估"@,
    }
}

/// Weight of a unit kind in hundredths: the contribution fraction of the kind
/// to the weighted overall progress, scaled by 100.
pub open spec fn weight_of(t: LearningUnitType) -> u32 {
    match t {
        LearningUnitType::ContentReading => 15,
        LearningUnitType::CodeExample => 25,
        LearningUnitType::Exercise => 30,
        LearningUnitType::Project => 20,
        LearningUnitType::Assessment => 10,
    }
}

impl LearningUnitType {
    /// Display name of the unit kind.
    pub fn name(&self) -> (r: &'static str)
        ensures
            r@ == spec_type_name(*self),
    {
        match self {
            LearningUnitType::ContentReading => "内容阅读",
            LearningUnitType::CodeExample => "代码示例",
            LearningUnitType::Exercise => "练习题",
            LearningUnitType::Project => "项目实战",
            LearningUnitType::Assessment => "自我评估",
        }
    }

    /// Weight of the kind in hundredths (the weights of all kinds sum to 100,
    /// i.e. to a whole).
    pub fn weight(&self) -> (r: u32)
        ensures
            r == weight_of(*self),
    {
        match self {
            LearningUnitType::ContentReading => 15,
            LearningUnitType::CodeExample => 25,
            LearningUnitType::Exercise => 30,
            LearningUnitType::Project => 20,
            LearningUnitType::Assessment => 10,
        }
    }
}

/// State machine of a unit. `Completed` and `Skipped` are terminal.
#[derive(Debug, Clone, Copy, PartialEq, Eq, Structural)]
pub enum LearningUnitStatus {
    NotStarted,
    InProgress,
    Completed,
    Skipped,
}

pub open spec fn spec_status_name(s: LearningUnitStatus) -> Seq<char> {
    match s {
        LearningUnitStatus::NotStarted => "未开始"@,
        LearningUnitStatus::InProgress => "进行中"@,
        LearningUnitStatus::Completed => "已完成"@,
        LearningUnitStatus::Skipped => "已跳过"@,
    }
}

impl LearningUnitStatus {
    /// Display name of the status.
    pub fn name(&self) -> (r: &'static str)
        ensures
            r@ == spec_status_name(*self),
    {
        match self {
            LearningUnitStatus::NotStarted => "未开始",
            LearningUnitStatus::InProgress => "进行中",
            LearningUnitStatus::Completed => "已完成",
            LearningUnitStatus::Skipped => "已跳过",
        }
    }

    /// Whether the status is `Completed`.
    pub fn is_completed(&self) -> (r: bool)
        ensures
            r == (*self == LearningUnitStatus::Completed),
    {
        matches!(self, LearningUnitStatus::Completed)
    }
}

/// A single learning unit: identity, classification, content locator,
/// estimated effort, current state and the optional outcome data.
///
/// Timestamps are seconds since the Unix epoch; the score, when present,
/// lies in 0..=100.
#[derive(Debug, Clone)]
pub struct LearningUnit {
    pub id: String,
    pub name: String,
    pub unit_type: LearningUnitType,
    pub stage: LearningStage,
    pub path: String,
    pub estimated_time_minutes: u32,
    pub status: LearningUnitStatus,
    pub started_at: Option<i64>,
    pub completed_at: Option<i64>,
    pub score: Option<u32>,
    pub notes: Option<String>,
}

/// Both optional timestamps of the unit, where present, are within the
/// range the clock can produce and format.
pub open spec fn unit_times_valid(u: LearningUnit) -> bool {
    &&& (u.started_at matches Some(t) ==> valid_ts(t))
    &&& (u.completed_at matches Some(t) ==> valid_ts(t))
}

/// `n` is `o` after a `start` transition: newly `InProgress`, with a fresh
/// valid start timestamp and every other field untouched.
pub open spec fn like_started(o: LearningUnit, n: LearningUnit) -> bool {
    &&& n.id == o.id
    &&& n.name == o.name
    &&& n.unit_type == o.unit_type
    &&& n.stage == o.stage
    &&& n.path == o.path
    &&& n.estimated_time_minutes == o.estimated_time_minutes
    &&& n.status == LearningUnitStatus::InProgress
    &&& (n.started_at matches Some(t) && valid_ts(t))
    &&& n.completed_at == o.completed_at
    &&& n.score == o.score
    &&& n.notes == o.notes
}

/// The score actually recorded for a completion: an out-of-range score is
/// treated as no score at all (soft validation), the unit completes anyway.
pub open spec fn accepted_score(score: Option<u32>) -> Option<u32> {
    if score matches Some(s) && s <= 100 {
        score
    } else {
        None
    }
}

/// `n` is `o` after a `complete(score)` transition.
pub open spec fn like_completed(o: LearningUnit, n: LearningUnit, score: Option<u32>) -> bool {
    &&& n.id == o.id
    &&& n.name == o.name
    &&& n.unit_type == o.unit_type
    &&& n.stage == o.stage
    &&& n.path == o.path
    &&& n.estimated_time_minutes == o.estimated_time_minutes
    &&& n.status == LearningUnitStatus::Completed
    &&& n.started_at == o.started_at
    &&& (n.completed_at matches Some(t) && valid_ts(t))
    &&& n.score == accepted_score(score)
    &&& n.notes == o.notes
}

/// `n` is `o` after a `skip` transition: only the status changes.
pub open spec fn like_skipped(o: LearningUnit, n: LearningUnit) -> bool {
    &&& n.id == o.id
    &&& n.name == o.name
    &&& n.unit_type == o.unit_type
    &&& n.stage == o.stage
    &&& n.path == o.path
    &&& n.estimated_time_minutes == o.estimated_time_minutes
    &&& n.status == LearningUnitStatus::Skipped
    &&& n.started_at == o.started_at
    &&& n.completed_at == o.completed_at
    &&& n.score == o.score
    &&& n.notes == o.notes
}

impl LearningUnit {
    /// A fresh, not yet started unit.
    pub fn new(
        id: String,
        name: String,
        unit_type: LearningUnitType,
        stage: LearningStage,
        path: String,
        estimated_time_minutes: u32,
    ) -> (r: LearningUnit)
        ensures
            r.id == id,
            r.name == name,
            r.unit_type == unit_type,
            r.stage == stage,
            r.path == path,
            r.estimated_time_minutes == estimated_time_minutes,
            r.status == LearningUnitStatus::NotStarted,
            r.started_at is None,
            r.completed_at is None,
            r.score is None,
            r.notes is None,
    {
        LearningUnit {
            id,
            name,
            unit_type,
            stage,
            path,
            estimated_time_minutes,
            status: LearningUnitStatus::NotStarted,
            started_at: None,
            completed_at: None,
            score: None,
            notes: None,
        }
    }

    /// Begin working on a not-yet-started unit.
    pub fn start(&mut self)
        requires
            old(self).status == LearningUnitStatus::NotStarted,
        ensures
            like_started(*old(self), *final(self)),
    {
        self.status = LearningUnitStatus::InProgress;
        self.started_at = Some(clock::now_seconds());
    }

    /// Complete a unit that is not in a terminal state; a score above 100 is
    /// discarded rather than stored.
    pub fn complete(&mut self, score: Option<u32>)
        requires
            old(self).status == LearningUnitStatus::NotStarted
                || old(self).status == LearningUnitStatus::InProgress,
        ensures
            like_completed(*old(self), *final(self), score),
    {
        self.status = LearningUnitStatus::Completed;
        self.completed_at = Some(clock::now_seconds());
        self.score = match score {
            Some(s) => if s <= 100 {
                Some(s)
            } else {
                None
            },
            None => None,
        };
    }

    /// Skip a unit that is not in a terminal state.
    pub fn skip(&mut self)
        requires
            old(self).status == LearningUnitStatus::NotStarted
                || old(self).status == LearningUnitStatus::InProgress,
        ensures
            like_skipped(*old(self), *final(self)),
    {
        self.status = LearningUnitStatus::Skipped;
    }

    /// Minutes that actually passed between start and completion, where both
    /// timestamps are present and ordered; `None` otherwise.
    pub fn actual_time_minutes(&self) -> (r: Option<u64>)
        requires
            unit_times_valid(*self),
        ensures
            r == (match (self.started_at, self.completed_at) {
                (Some(s), Some(e)) => if s <= e {
                    Some((((e - s) as u64) / 60) as u64)
                } else {
                    None::<u64>
                },
                _ => None::<u64>,
            }),
    {
        match (self.started_at, self.completed_at) {
            (Some(s), Some(e)) => if s <= e {
                Some(((e - s) as u64) / 60)
            } else {
                None
            },
            _ => None,
        }
    }

    /// A field-wise copy of the unit.
    pub fn duplicate(&self) -> (r: LearningUnit)
        ensures
            r == *self,
    {
        LearningUnit {
            id: self.id.clone(),
            name: self.name.clone(),
            unit_type: self.unit_type,
            stage: self.stage,
            path: self.path.clone(),
            estimated_time_minutes: self.estimated_time_minutes,
            status: self.status,
            started_at: self.started_at,
            completed_at: self.completed_at,
            score: self.score,
            notes: match &self.notes {
                Some(s) => Some(s.clone()),
                None => None,
            },
        }
    }
}

/// Rarity tier of an achievement.
#[derive(Debug, Clone, Copy, PartialEq, Eq, Structural)]
pub enum AchievementRarity {
    Common,
    Rare,
    Epic,
    Legendary,
}

pub open spec fn spec_rarity_name(r: AchievementRarity) -> Seq<char> {
    match r {
        AchievementRarity::Common => "普通"@,
        AchievementRarity::Rare => "稀有"@,
        AchievementRarity::Epic => "史诗"@,
        AchievementRarity::Legendary => "传说"@,
    }
}

pub open spec fn spec_rarity_color(r: AchievementRarity) -> Seq<char> {
    match r {
        AchievementRarity::Common => "#9CA3AF"@,
        AchievementRarity::Rare => "#3B82F6"@,
        AchievementRarity::Epic => "#8B5CF6"@,
        AchievementRarity::Legendary => "#F59E0B"@,
    }
}

impl AchievementRarity {
    /// Display name of the rarity tier.
    pub fn name(&self) -> (r: &'static str)
        ensures
            r@ == spec_rarity_name(*self),
    {
        match self {
            AchievementRarity::Common => "普通",
            AchievementRarity::Rare => "稀有",
            AchievementRarity::Epic => "史诗",
            AchievementRarity::Legendary => "传说",
        }
    }

    /// Hex color associated with the rarity tier.
    pub fn color(&self) -> (r: &'static str)
        ensures
            r@ == spec_rarity_color(*self),
    {
        match self {
            AchievementRarity::Common => "#9CA3AF",
            AchievementRarity::Rare => "#3B82F6",
            AchievementRarity::Epic => "#8B5CF6",
            AchievementRarity::Legendary => "#F59E0B",
        }
    }
}

/// Unlock condition of an achievement. The score threshold of
/// `ScoreAverage` is a whole-point value (e.g. 90 for "at least 90").
#[derive(Debug, Clone, Copy, PartialEq, Eq)]
pub enum AchievementCondition {
    CompleteUnits { count: usize, unit_type: Option<LearningUnitType> },
    CompleteStage { stage: LearningStage },
    ScoreAverage { min_score: u32, unit_count: usize },
    StreakDays { days: u32 },
    TotalTime { hours: u32 },
}

/// An achievement record. Once `unlocked_at` is set it is never cleared or
/// changed again (monotonic unlocking).
#[derive(Debug, Clone)]
pub struct Achievement {
    pub id: String,
    pub name: String,
    pub description: String,
    pub icon: String,
    pub condition: AchievementCondition,
    pub unlocked_at: Option<i64>,
    pub rarity: AchievementRarity,
}

/// The aggregate root: the learner, the ordered unit collection and the
/// achievement collection.
#[derive(Debug, Clone)]
pub struct ProgressTracker {
    pub learner_id: String,
    pub learner_name: String,
    pub learning_units: Vec<LearningUnit>,
    pub achievements: Vec<Achievement>,
    pub created_at: i64,
    pub last_updated: i64,
}

/// Index of the first unit carrying `id`, or -1 when there is none.
pub open spec fn find_unit_idx(s: Seq<LearningUnit>, id: Seq<char>) -> int
    decreases s.len(),
{
    if s.len() == 0 {
        -1
    } else if s[0].id@ == id {
        0
    } else {
        let r = find_unit_idx(s.drop_first(), id);
        if r < 0 {
            -1
        } else {
            r + 1
        }
    }
}

pub proof fn lemma_find_none(s: Seq<LearningUnit>, id: Seq<char>)
    requires
        forall|j: int| 0 <= j < s.len() ==> s[j].id@ != id,
    ensures
        find_unit_idx(s, id) == -1,
    decreases s.len(),
{
    if s.len() > 0 {
        assert forall|j: int| 0 <= j < s.drop_first().len() implies s.drop_first()[j].id@
            != id by {
            assert(s.drop_first()[j] == s[j + 1]);
        }
        lemma_find_none(s.drop_first(), id);
    }
}

pub proof fn lemma_find_at(s: Seq<LearningUnit>, id: Seq<char>, i: int)
    requires
        0 <= i < s.len(),
        s[i].id@ == id,
        forall|j: int| 0 <= j < i ==> s[j].id@ != id,
    ensures
        find_unit_idx(s, id) == i,
    decreases i,
{
    if i > 0 {
        assert(s[0].id@ != id);
        assert(s.drop_first()[i - 1] == s[i]);
        assert forall|j: int| 0 <= j < i - 1 implies s.drop_first()[j].id@ != id by {
            assert(s.drop_first()[j] == s[j + 1]);
        }
        lemma_find_at(s.drop_first(), id, i - 1);
    }
}

/// The tracker fields aside from the unit collection agree.
pub open spec fn same_aside_units(a: ProgressTracker, b: ProgressTracker) -> bool {
    &&& b.learner_id == a.learner_id
    &&& b.learner_name == a.learner_name
    &&& b.achievements@ == a.achievements@
    &&& b.created_at == a.created_at
    &&& b.last_updated == a.last_updated
}

/// Every timestamp the tracker stores is within the clock's range.
pub open spec fn tracker_times_valid(t: ProgressTracker) -> bool {
    &&& valid_ts(t.created_at)
    &&& valid_ts(t.last_updated)
    &&& forall|i: int| 0 <= i < t.learning_units@.len() ==> unit_times_valid(
        #[trigger] t.learning_units@[i],
    )
    &&& forall|i: int|
        0 <= i < t.achievements@.len() ==> (#[trigger] t.achievements@[i].unlocked_at matches Some(
            ts,
        ) ==> valid_ts(ts))
}

/// A unit that has never been touched: not started, no timestamps, no
/// score, no notes.
pub open spec fn fresh_unit(u: LearningUnit) -> bool {
    &&& u.status == LearningUnitStatus::NotStarted
    &&& u.started_at is None
    &&& u.completed_at is None
    &&& u.score is None
    &&& u.notes is None
}

/// The three units every new tracker is seeded with.
pub open spec fn is_default_units(s: Seq<LearningUnit>) -> bool {
    &&& s.len() == 3
    &&& s[0].id@ == "stage1-environment"@
    &&& s[0].name@ == "环境搭建与基础配置"@
    &&& s[0].unit_type == LearningUnitType::ContentReading
    &&& s[0].stage == LearningStage::Stage1Basics
    &&& s[0].path@ == "content/stage1-basics/01-environment"@
    &&& s[0].estimated_time_minutes == 60
    &&& fresh_unit(s[0])
    &&& s[1].id@ == "stage1-syntax"@
    &&& s[1].name@ == "基本语法与数据类型"@
    &&& s[1].unit_type == LearningUnitType::ContentReading
    &&& s[1].stage == LearningStage::Stage1Basics
    &&& s[1].path@ == "content/stage1-basics/02-syntax"@
    &&& s[1].estimated_time_minutes == 120
    &&& fresh_unit(s[1])
    &&& s[2].id@ == "stage1-syntax-demo"@
    &&& s[2].name@ == "语法演示代码"@
    &&& s[2].unit_type == LearningUnitType::CodeExample
    &&& s[2].stage == LearningStage::Stage1Basics
    &&& s[2].path@ == "examples/stage1-basics/02-syntax-demo"@
    &&& s[2].estimated_time_minutes == 45
    &&& fresh_unit(s[2])
}

/// The four achievements every new tracker is seeded with, all locked.
pub open spec fn is_default_achievements(s: Seq<Achievement>) -> bool {
    &&& s.len() == 4
    &&& s[0].id@ == "first_steps"@
    &&& s[0].name@ == "初次尝试"@
    &&& s[0].description@ == "完成第一个学习单元"@
    &&& s[0].icon@ == "🎯"@
    &&& s[0].condition == (AchievementCondition::CompleteUnits { count: 1, unit_type: None })
    &&& s[0].unlocked_at is None
    &&& s[0].rarity == AchievementRarity::Common
    &&& s[1].id@ == "stage1_master"@
    &&& s[1].name@ == "基础大师"@
    &&& s[1].description@ == "完成阶段1所有内容"@
    &&& s[1].icon@ == "🌟"@
    &&& s[1].condition == (AchievementCondition::CompleteStage {
        stage: LearningStage::Stage1Basics,
    })
    &&& s[1].unlocked_at is None
    &&& s[1].rarity == AchievementRarity::Rare
    &&& s[2].id@ == "code_warrior"@
    &&& s[2].name@ == "代码战士"@
    &&& s[2].description@ == "完成10个代码示例"@
    &&& s[2].icon@ == "⚔️"@
    &&& s[2].condition == (AchievementCondition::CompleteUnits {
        count: 10,
        unit_type: Some(LearningUnitType::CodeExample),
    })
    &&& s[2].unlocked_at is None
    &&& s[2].rarity == AchievementRarity::Epic
    &&& s[3].id@ == "perfect_student"@
    &&& s[3].name@ == "完美学生"@
    &&& s[3].description@ == "连续5个练习得分90分以上"@
    &&& s[3].icon@ == "🏆"@
    &&& s[3].condition == (AchievementCondition::ScoreAverage { min_score: 90, unit_count: 5 })
    &&& s[3].unlocked_at is None
    &&& s[3].rarity == AchievementRarity::Legendary
}

impl ProgressTracker {
    /// A new tracker for the given learner, seeded with the default units
    /// and achievements.
    pub fn new(learner_id: String, learner_name: String) -> (r: ProgressTracker)
        ensures
            r.learner_id == learner_id,
            r.learner_name == learner_name,
            is_default_units(r.learning_units@),
            is_default_achievements(r.achievements@),
            r.created_at == r.last_updated,
            tracker_times_valid(r),
            crate::stats::minutes_bounded(r.learning_units@),
    {
        let now = clock::now_seconds();
        let mut tracker = ProgressTracker {
            learner_id,
            learner_name,
            learning_units: Vec::new(),
            achievements: Vec::new(),
            created_at: now,
            last_updated: now,
        };
        tracker.initialize_default_units();
        tracker.initialize_default_achievements();
        proof {
            let s = tracker.learning_units@;
            let s2 = s.drop_last();
            let s1 = s2.drop_last();
            let s0 = s1.drop_last();
            assert(s0.len() == 0);
            assert(s1.last() == s[0]);
            assert(s2.last() == s[1]);
            assert(s.last() == s[2]);
            assert(crate::stats::total_minutes(s0) == 0);
            assert(crate::stats::total_minutes(s1) == 60);
            assert(crate::stats::total_minutes(s2) == 180);
            assert(crate::stats::total_minutes(s) == 225);
        }
        tracker
    }

    /// Seeds the default unit set.
    fn initialize_default_units(&mut self)
        requires
            old(self).learning_units@.len() == 0,
        ensures
            is_default_units(final(self).learning_units@),
            final(self).achievements@ == old(self).achievements@,
            final(self).learner_id == old(self).learner_id,
            final(self).learner_name == old(self).learner_name,
            final(self).created_at == old(self).created_at,
            final(self).last_updated == old(self).last_updated,
    {
        self.learning_units.push(
            LearningUnit::new(
                String::from_str("stage1-environment"),
                String::from_str("环境搭建与基础配置"),
                LearningUnitType::ContentReading,
                LearningStage::Stage1Basics,
                String::from_str("content/stage1-basics/01-environment"),
                60,
            ),
        );
        self.learning_units.push(
            LearningUnit::new(
                String::from_str("stage1-syntax"),
                String::from_str("基本语法与数据类型"),
                LearningUnitType::ContentReading,
                LearningStage::Stage1Basics,
                String::from_str("content/stage1-basics/02-syntax"),
                120,
            ),
        );
        self.learning_units.push(
            LearningUnit::new(
                String::from_str("stage1-syntax-demo"),
                String::from_str("语法演示代码"),
                LearningUnitType::CodeExample,
                LearningStage::Stage1Basics,
                String::from_str("examples/stage1-basics/02-syntax-demo"),
                45,
            ),
        );
    }

    /// Seeds the default achievement set.
    fn initialize_default_achievements(&mut self)
        requires
            old(self).achievements@.len() == 0,
        ensures
            is_default_achievements(final(self).achievements@),
            final(self).learning_units@ == old(self).learning_units@,
            final(self).learner_id == old(self).learner_id,
            final(self).learner_name == old(self).learner_name,
            final(self).created_at == old(self).created_at,
            final(self).last_updated == old(self).last_updated,
    {
        self.achievements.push(
            Achievement {
                id: String::from_str("first_steps"),
                name: String::from_str("初次尝试"),
                description: String::from_str("完成第一个学习单元"),
                icon: String::from_str("🎯"),
                condition: AchievementCondition::CompleteUnits { count: 1, unit_type: None },
                unlocked_at: None,
                rarity: AchievementRarity::Common,
            },
        );
        self.achievements.push(
            Achievement {
                id: String::from_str("stage1_master"),
                name: String::from_str("基础大师"),
                description: String::from_str("完成阶段1所有内容"),
                icon: String::from_str("🌟"),
                condition: AchievementCondition::CompleteStage {
                    stage: LearningStage::Stage1Basics,
                },
                unlocked_at: None,
                rarity: AchievementRarity::Rare,
            },
        );
        self.achievements.push(
            Achievement {
                id: String::from_str("code_warrior"),
                name: String::from_str("代码战士"),
                description: String::from_str("完成10个代码示例"),
                icon: String::from_str("⚔️"),
                condition: AchievementCondition::CompleteUnits {
                    count: 10,
                    unit_type: Some(LearningUnitType::CodeExample),
                },
                unlocked_at: None,
                rarity: AchievementRarity::Epic,
            },
        );
        self.achievements.push(
            Achievement {
                id: String::from_str("perfect_student"),
                name: String::from_str("完美学生"),
                description: String::from_str("连续5个练习得分90分以上"),
                icon: String::from_str("🏆"),
                condition: AchievementCondition::ScoreAverage { min_score: 90, unit_count: 5 },
                unlocked_at: None,
                rarity: AchievementRarity::Legendary,
            },
        );
    }

    /// Look a unit up by id; `None` when the id is absent.
    pub fn get_unit(&self, unit_id: &str) -> (r: Option<&LearningUnit>)
        ensures
            ({
                let fi = find_unit_idx(self.learning_units@, unit_id@);
                match r {
                    Some(u) => fi >= 0 && *u == self.learning_units@[fi],
                    None => fi == -1,
                }
            }),
    {
        let n = self.learning_units.len();
        let mut i: usize = 0;
        while i < n
            invariant
                n == self.learning_units@.len(),
                i <= n,
                forall|j: int| 0 <= j < i ==> self.learning_units@[j].id@ != unit_id@,
            decreases n - i,
        {
            if str_eq(self.learning_units[i].id.as_str(), unit_id) {
                proof {
                    lemma_find_at(self.learning_units@, unit_id@, i as int);
                }
                return Some(&self.learning_units[i]);
            }
            i = i + 1;
        }
        proof {
            lemma_find_none(self.learning_units@, unit_id@);
        }
        None
    }

    /// Look a unit up by id for in-place mutation; `None` when the id is
    /// absent. The caller's writes through the reference land at the
    /// found index, everything else stays.
    pub fn get_unit_mut(&mut self, unit_id: &str) -> (r: Option<&mut LearningUnit>)
        ensures
            ({
                let units = old(self).learning_units@;
                let fi = find_unit_idx(units, unit_id@);
                &&& (r is None ==> fi == -1 && *final(self) == *old(self))
                &&& (r matches Some(u) ==> {
                    &&& fi >= 0
                    &&& *u == units[fi]
                    &&& final(self).learning_units@ == units.update(fi, *final(u))
                    &&& same_aside_units(*old(self), *final(self))
                })
            }),
    {
        let n = self.learning_units.len();
        let mut i: usize = 0;
        while i < n
            invariant
                *self == *old(self),
                n == self.learning_units@.len(),
                i <= n,
                forall|j: int| 0 <= j < i ==> self.learning_units@[j].id@ != unit_id@,
            decreases n - i,
        {
            if str_eq(self.learning_units[i].id.as_str(), unit_id) {
                proof {
                    lemma_find_at(self.learning_units@, unit_id@, i as int);
                }
                return Some(&mut self.learning_units[i]);
            }
            i = i + 1;
        }
        proof {
            lemma_find_none(self.learning_units@, unit_id@);
        }
        None
    }

    /// Append a unit to the collection and refresh the update stamp.
    pub fn add_unit(&mut self, unit: LearningUnit)
        ensures
            final(self).learning_units@ == old(self).learning_units@.push(unit),
            final(self).achievements@ == old(self).achievements@,
            final(self).learner_id == old(self).learner_id,
            final(self).learner_name == old(self).learner_name,
            final(self).created_at == old(self).created_at,
            valid_ts(final(self).last_updated),
    {
        self.learning_units.push(unit);
        self.last_updated = clock::now_seconds();
    }

    /// Start the first unit carrying `unit_id`. Returns whether the
    /// transition was performed: it is not when the id is absent or the
    /// unit is not in the `NotStarted` state.
    pub fn start_unit(&mut self, unit_id: &str) -> (r: bool)
        ensures
            ({
                let units = old(self).learning_units@;
                let fi = find_unit_idx(units, unit_id@);
                &&& (fi < 0 ==> *final(self) == *old(self) && r == false)
                &&& (fi >= 0 && units[fi].status != LearningUnitStatus::NotStarted ==> *final(self)
                    == *old(self) && r == false)
                &&& (fi >= 0 && units[fi].status == LearningUnitStatus::NotStarted ==> {
                    &&& r == true
                    &&& final(self).learning_units@ == units.update(
                        fi,
                        final(self).learning_units@[fi],
                    )
                    &&& like_started(units[fi], final(self).learning_units@[fi])
                    &&& same_aside_units(*old(self), *final(self))
                })
            }),
    {
        let n = self.learning_units.len();
        let mut i: usize = 0;
        while i < n
            invariant
                *self == *old(self),
                n == self.learning_units@.len(),
                i <= n,
                forall|j: int| 0 <= j < i ==> self.learning_units@[j].id@ != unit_id@,
            decreases n - i,
        {
            if str_eq(self.learning_units[i].id.as_str(), unit_id) {
                proof {
                    lemma_find_at(self.learning_units@, unit_id@, i as int);
                }
                if matches!(self.learning_units[i].status, LearningUnitStatus::NotStarted) {
                    let u = &mut self.learning_units[i];
                    u.start();
                    return true;
                }
                return false;
            }
            i = i + 1;
        }
        proof {
            lemma_find_none(self.learning_units@, unit_id@);
        }
        false
    }

    /// Complete the first unit carrying `unit_id` with an optional score.
    /// Returns whether the transition was performed: it is not when the id
    /// is absent or the unit is already in a terminal state.
    pub fn complete_unit(&mut self, unit_id: &str, score: Option<u32>) -> (r: bool)
        ensures
            ({
                let units = old(self).learning_units@;
                let fi = find_unit_idx(units, unit_id@);
                let startable = fi >= 0 && (units[fi].status == LearningUnitStatus::NotStarted
                    || units[fi].status == LearningUnitStatus::InProgress);
                &&& (fi < 0 ==> *final(self) == *old(self) && r == false)
                &&& (fi >= 0 && !startable ==> *final(self) == *old(self) && r == false)
                &&& (startable ==> {
                    &&& r == true
                    &&& final(self).learning_units@ == units.update(
                        fi,
                        final(self).learning_units@[fi],
                    )
                    &&& like_completed(units[fi], final(self).learning_units@[fi], score)
                    &&& same_aside_units(*old(self), *final(self))
                })
            }),
    {
        let n = self.learning_units.len();
        let mut i: usize = 0;
        while i < n
            invariant
                *self == *old(self),
                n == self.learning_units@.len(),
                i <= n,
                forall|j: int| 0 <= j < i ==> self.learning_units@[j].id@ != unit_id@,
            decreases n - i,
        {
            if str_eq(self.learning_units[i].id.as_str(), unit_id) {
                proof {
                    lemma_find_at(self.learning_units@, unit_id@, i as int);
                }
                if matches!(
                    self.learning_units[i].status,
                    LearningUnitStatus::NotStarted | LearningUnitStatus::InProgress
                ) {
                    let u = &mut self.learning_units[i];
                    u.complete(score);
                    return true;
                }
                return false;
            }
            i = i + 1;
        }
        proof {
            lemma_find_none(self.learning_units@, unit_id@);
        }
        false
    }

    /// Skip the first unit carrying `unit_id`. Returns whether the
    /// transition was performed: it is not when the id is absent or the
    /// unit is already in a terminal state.
    pub fn skip_unit(&mut self, unit_id: &str) -> (r: bool)
        ensures
            ({
                let units = old(self).learning_units@;
                let fi = find_unit_idx(units, unit_id@);
                let skippable = fi >= 0 && (units[fi].status == LearningUnitStatus::NotStarted
                    || units[fi].status == LearningUnitStatus::InProgress);
                &&& (fi < 0 ==> *final(self) == *old(self) && r == false)
                &&& (fi >= 0 && !skippable ==> *final(self) == *old(self) && r == false)
                &&& (skippable ==> {
                    &&& r == true
                    &&& final(self).learning_units@ == units.update(
                        fi,
                        final(self).learning_units@[fi],
                    )
                    &&& like_skipped(units[fi], final(self).learning_units@[fi])
                    &&& same_aside_units(*old(self), *final(self))
                })
            }),
    {
        let n = self.learning_units.len();
        let mut i: usize = 0;
        while i < n
            invariant
                *self == *old(self),
                n == self.learning_units@.len(),
                i <= n,
                forall|j: int| 0 <= j < i ==> self.learning_units@[j].id@ != unit_id@,
            decreases n - i,
        {
            if str_eq(self.learning_units[i].id.as_str(), unit_id) {
                proof {
                    lemma_find_at(self.learning_units@, unit_id@, i as int);
                }
                if matches!(
                    self.learning_units[i].status,
                    LearningUnitStatus::NotStarted | LearningUnitStatus::InProgress
                ) {
                    let u = &mut self.learning_units[i];
                    u.skip();
                    return true;
                }
                return false;
            }
            i = i + 1;
        }
        proof {
            lemma_find_none(self.learning_units@, unit_id@);
        }
        false
    }
}

} // verus!
