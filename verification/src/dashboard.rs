//! The report renderer: composes the statistics, the achievements, the
//! recommendation and the suggestions into a plain-text report, honoring a
//! configuration of per-section toggles — a section switched off is absent
//! from the output, every other byte unchanged.

use vstd::prelude::*;
use vstd::arithmetic::div_mod::{
    lemma_div_is_ordered, lemma_div_multiples_vanish, lemma_div_multiples_vanish_fancy,
};
use vstd::string::StringExecFns;
use crate::achieve;
use crate::clock;
use crate::clock::{format_utc_of, valid_ts};
use crate::domain::{
    spec_stage_name, spec_type_name, stage_order, Achievement, AchievementRarity, LearningStage,
    LearningUnit, LearningUnitStatus, ProgressTracker,
};
use crate::recommend::{spec_confidence, spec_next_units, spec_reasoning};
use crate::stats;
use crate::stats::{
    completed_count, completed_minutes, in_progress_count, score_sum, scored_count,
    spec_current_stage, spec_overall_progress, spec_stage_pct, stage_total, total_minutes,
};
use crate::strutil;
use crate::strutil::{dec_str, pct_str, repeat_seq};
use crate::suggest::spec_suggestions;

verus! {

/// Per-section toggles of the report, the shown-recommendation cap, and
/// the (purely decorative) theme.
#[derive(Debug, Clone)]
pub struct DashboardConfig {
    pub show_progress_bars: bool,
    pub show_stage_breakdown: bool,
    pub show_achievements: bool,
    pub show_recommendations: bool,
    pub show_suggestions: bool,
    pub max_recommendations: usize,
    pub theme: DashboardTheme,
}

/// Color parameters of the markup output; opaque to all logic.
#[derive(Debug, Clone)]
pub struct DashboardTheme {
    pub primary_color: String,
    pub success_color: String,
    pub warning_color: String,
    pub danger_color: String,
    pub info_color: String,
    pub text_color: String,
    pub background_color: String,
}

pub open spec fn is_default_theme(th: DashboardTheme) -> bool {
    &&& th.primary_color@ == "#007bff"@
    &&& th.success_color@ == "#28a745"@
    &&& th.warning_color@ == "#ffc107"@
    &&& th.danger_color@ == "#dc3545"@
    &&& th.info_color@ == "#17a2b8"@
    &&& th.text_color@ == "#333333"@
    &&& th.background_color@ == "#ffffff"@
}

pub open spec fn is_default_config(c: DashboardConfig) -> bool {
    &&& c.show_progress_bars
    &&& c.show_stage_breakdown
    &&& c.show_achievements
    &&& c.show_recommendations
    &&& c.show_suggestions
    &&& c.max_recommendations == 5
    &&& is_default_theme(c.theme)
}

impl Default for DashboardTheme {
    /// The stock color set.
    fn default() -> (r: Self)
        ensures
            is_default_theme(r),
    {
        DashboardTheme {
            primary_color: String::from_str("#007bff"),
            success_color: String::from_str("#28a745"),
            warning_color: String::from_str("#ffc107"),
            danger_color: String::from_str("#dc3545"),
            info_color: String::from_str("#17a2b8"),
            text_color: String::from_str("#333333"),
            background_color: String::from_str("#ffffff"),
        }
    }
}

impl Default for DashboardConfig {
    /// Every section shown, at most five recommendations, stock theme.
    fn default() -> (r: Self)
        ensures
            is_default_config(r),
    {
        DashboardConfig {
            show_progress_bars: true,
            show_stage_breakdown: true,
            show_achievements: true,
            show_recommendations: true,
            show_suggestions: true,
            max_recommendations: 5,
            theme: DashboardTheme::default(),
        }
    }
}

/// An ASCII progress bar of `w` cells for a percentage in hundredths: the
/// filled cell count is the rounded fraction of the width.
pub open spec fn bar_str(pct: int, w: int) -> Seq<char> {
    let filled = (pct * w + 5000) / 10000;
    "["@ + repeat_seq("█"@, filled) + repeat_seq("░"@, w - filled) + "] "@ + pct_str(pct) + "%"@
}

/// Renders the progress bar.
fn create_progress_bar(pct: u32, width: usize) -> (r: String)
    requires
        pct <= 10000,
        width <= 10000,
    ensures
        r@ == bar_str(pct as int, width as int),
{
    proof {
        lemma_div_multiples_vanish_fancy(width as int, 5000, 10000);
        vstd::arithmetic::mul::lemma_mul_inequality(pct as int, 10000, width as int);
        lemma_div_is_ordered(
            pct as int * width as int + 5000,
            10000 * width as int + 5000,
            10000,
        );
        vstd::arithmetic::div_mod::lemma_div_pos_is_pos(pct as int * width as int + 5000, 10000);
    }
    let filled: usize = (((pct as u64) * (width as u64) + 5000) / 10000) as usize;
    let mut s = String::from_str("[");
    s.append(strutil::repeat_str("█", filled).as_str());
    s.append(strutil::repeat_str("░", width - filled).as_str());
    s.append("] ");
    s.append(strutil::pct_string(pct as u64).as_str());
    s.append("%");
    s
}

/// The report header: banner, learner name and last-updated stamp.
pub open spec fn sec_header(t: ProgressTracker) -> Seq<char> {
    "\n┏━━━━━━━━━━━━━━━━━━━━━━━━━━━━━━━━━━━━━━━━━━━━━━━━━━━━━━━━━━━━━━━━━━━━━━━━━━━━━━┓\n┃                           🦀 Rust 学习进度跟踪系统                           ┃\n┗━━━━━━━━━━━━━━━━━━━━━━━━━━━━━━━━━━━━━━━━━━━━━━━━━━━━━━━━━━━━━━━━━━━━━━━━━━━━━━┛\n\n👋 学习者: "@
        + t.learner_name@ + "\n📅 最后更新: "@ + format_utc_of(t.last_updated) + "\n"@
}

fn render_header(t: &ProgressTracker) -> (r: String)
    requires
        valid_ts(t.last_updated),
    ensures
        r@ == sec_header(*t),
{
    let mut s = String::from_str(
        "\n┏━━━━━━━━━━━━━━━━━━━━━━━━━━━━━━━━━━━━━━━━━━━━━━━━━━━━━━━━━━━━━━━━━━━━━━━━━━━━━━┓\n┃                           🦀 Rust 学习进度跟踪系统                           ┃\n┗━━━━━━━━━━━━━━━━━━━━━━━━━━━━━━━━━━━━━━━━━━━━━━━━━━━━━━━━━━━━━━━━━━━━━━━━━━━━━━┛\n\n👋 学习者: ",
    );
    s.append(t.learner_name.as_str());
    s.append("\n📅 最后更新: ");
    s.append(clock::format_timestamp(t.last_updated).as_str());
    s.append("\n");
    s
}

/// The average-score text: one decimal, or a dash word when no completed
/// unit carries a score.
pub open spec fn avg_text(s: Seq<LearningUnit>) -> Seq<char> {
    if scored_count(s) > 0 {
        pct_str(score_sum(s) * 100 / scored_count(s))
    } else {
        "无"@
    }
}

/// The overall-progress section: bar, unit counts, average score, time.
pub open spec fn sec_overall(t: ProgressTracker) -> Seq<char> {
    let s = t.learning_units@;
    "\n📊 总体学习进度\n━━━━━━━━━━━━━━━━━━━━━━━━━━━━━━━━━━━━━━━━━━━━━━━━━━━━━━━━━━━━━━━━━━━━━━━━━━━━━━━\n"@
        + bar_str(spec_overall_progress(s), 40) + "\n\n✅ 已完成: "@ + dec_str(completed_count(s))
        + " 个单元    🔄 进行中: "@ + dec_str(in_progress_count(s)) + " 个单元    📋 总计: "@
        + dec_str(s.len() as int) + " 个单元\n🎯 平均分数: "@ + avg_text(s)
        + "    ⏱️  总学习时间: "@ + dec_str(completed_minutes(s)) + " 分钟\n"@
}

fn render_overall(t: &ProgressTracker) -> (r: String)
    ensures
        r@ == sec_overall(*t),
{
    let units = &t.learning_units;
    let pct = stats::overall_progress_pct(units);
    let done = stats::count_completed(units);
    let in_prog = stats::count_in_progress(units);
    let n = units.len();
    let (ssum, scount) = achieve::count_scored(units);
    let cm = achieve::sum_completed_minutes(units);

    let avg_string: String = if scount > 0 {
        proof {
            lemma_div_is_ordered(
                ssum as int * 100,
                scount as int * (u32::MAX * 100),
                scount as int,
            );
            lemma_div_multiples_vanish(u32::MAX * 100, scount as int);
            vstd::arithmetic::div_mod::lemma_div_pos_is_pos(ssum as int * 100, scount as int);
        }
        strutil::pct_string(((ssum * 100) / (scount as u128)) as u64)
    } else {
        String::from_str("无")
    };

    let mut s = String::from_str(
        "\n📊 总体学习进度\n━━━━━━━━━━━━━━━━━━━━━━━━━━━━━━━━━━━━━━━━━━━━━━━━━━━━━━━━━━━━━━━━━━━━━━━━━━━━━━━\n",
    );
    s.append(create_progress_bar(pct, 40).as_str());
    s.append("\n\n✅ 已完成: ");
    s.append(strutil::u64_string(done as u64).as_str());
    s.append(" 个单元    🔄 进行中: ");
    s.append(strutil::u64_string(in_prog as u64).as_str());
    s.append(" 个单元    📋 总计: ");
    s.append(strutil::u64_string(n as u64).as_str());
    s.append(" 个单元\n🎯 平均分数: ");
    s.append(avg_string.as_str());
    s.append("    ⏱️  总学习时间: ");
    s.append(strutil::u128_string(cm).as_str());
    s.append(" 分钟\n");
    s
}

/// The status glyph of a unit.
pub open spec fn status_icon(st: LearningUnitStatus) -> Seq<char> {
    match st {
        LearningUnitStatus::NotStarted => "📋"@,
        LearningUnitStatus::InProgress => "🔄"@,
        LearningUnitStatus::Completed => "✅"@,
        LearningUnitStatus::Skipped => "⏭️"@,
    }
}

fn status_icon_str(st: LearningUnitStatus) -> (r: &'static str)
    ensures
        r@ == status_icon(st),
{
    match st {
        LearningUnitStatus::NotStarted => "📋",
        LearningUnitStatus::InProgress => "🔄",
        LearningUnitStatus::Completed => "✅",
        LearningUnitStatus::Skipped => "⏭️",
    }
}

/// The bracketed score note of a unit line; empty without a score.
pub open spec fn score_note(sc: Option<u32>) -> Seq<char> {
    match sc {
        Some(v) => " ["@ + dec_str(v as int) + "]"@,
        None => Seq::empty(),
    }
}

/// One per-unit line of the stage breakdown.
pub open spec fn unit_line(u: LearningUnit) -> Seq<char> {
    "  "@ + status_icon(u.status) + " "@ + u.name@ + score_note(u.score) + "\n"@
}

/// The per-unit lines of one stage, in storage order.
pub open spec fn unit_lines(s: Seq<LearningUnit>, st: LearningStage) -> Seq<char>
    decreases s.len(),
{
    if s.len() == 0 {
        Seq::empty()
    } else {
        let rest = unit_lines(s.drop_last(), st);
        if s.last().stage == st {
            rest + unit_line(s.last())
        } else {
            rest
        }
    }
}

/// The stage percentage shown: zero for a stage with no units.
pub open spec fn stage_pct_or_zero(s: Seq<LearningUnit>, st: LearningStage) -> int {
    if stage_total(s, st) > 0 {
        spec_stage_pct(s, st)
    } else {
        0
    }
}

/// One stage block: name, bar and the stage's unit lines.
pub open spec fn spec_stage_block(s: Seq<LearningUnit>, st: LearningStage) -> Seq<char> {
    spec_stage_name(st) + "\n"@ + bar_str(stage_pct_or_zero(s, st), 30) + "\n"@ + unit_lines(s, st)
        + "\n"@
}

/// The stage blocks of the given stages, in order.
pub open spec fn stage_blocks(s: Seq<LearningUnit>, stages: Seq<LearningStage>) -> Seq<char>
    decreases stages.len(),
{
    if stages.len() == 0 {
        Seq::empty()
    } else {
        stage_blocks(s, stages.drop_last()) + spec_stage_block(s, stages.last())
    }
}

/// The stage-breakdown section.
pub open spec fn sec_stages(t: ProgressTracker) -> Seq<char> {
    "\n📋 各阶段学习进度\n━━━━━━━━━━━━━━━━━━━━━━━━━━━━━━━━━━━━━━━━━━━━━━━━━━━━━━━━━━━━━━━━━━━━━━━━━━━━━━━\n"@
        + stage_blocks(t.learning_units@, stage_order())
}

fn render_stage_block(units: &Vec<LearningUnit>, st: LearningStage) -> (r: String)
    ensures
        r@ == spec_stage_block(units@, st),
{
    let (st_total, st_done) = stats::stage_counts(units, st);
    let pct: u32 = if st_total > 0 {
        proof {
            stats::lemma_stage_pct_in_range(units@, st);
        }
        ((st_done as u128 * 10000) / (st_total as u128)) as u32
    } else {
        0
    };
    let mut s = st.name().to_owned();
    s.append("\n");
    s.append(create_progress_bar(pct, 30).as_str());
    s.append("\n");
    let n = units.len();
    let mut i: usize = 0;
    while i < n
        invariant
            n == units@.len(),
            i <= n,
            s@ == spec_stage_name(st) + "\n"@ + bar_str(stage_pct_or_zero(units@, st), 30) + "\n"@
                + unit_lines(units@.take(i as int), st),
        decreases n - i,
    {
        proof {
            assert(units@.take(i as int + 1).drop_last() =~= units@.take(i as int));
        }
        let u = &units[i];
        if u.stage == st {
            s.append("  ");
            s.append(status_icon_str(u.status));
            s.append(" ");
            s.append(u.name.as_str());
            match u.score {
                Some(v) => {
                    s.append(" [");
                    s.append(strutil::u64_string(v as u64).as_str());
                    s.append("]");
                },
                None => {},
            }
            s.append("\n");
        }
        proof {
            assert(s@ =~= spec_stage_name(st) + "\n"@ + bar_str(
                stage_pct_or_zero(units@, st),
                30,
            ) + "\n"@ + unit_lines(units@.take(i as int + 1), st));
        }
        i = i + 1;
    }
    proof {
        assert(units@.take(n as int) =~= units@);
    }
    s.append("\n");
    s
}

fn render_stages(t: &ProgressTracker) -> (r: String)
    ensures
        r@ == sec_stages(*t),
{
    let units = &t.learning_units;
    let all = LearningStage::all_stages();
    let mut s = String::from_str(
        "\n📋 各阶段学习进度\n━━━━━━━━━━━━━━━━━━━━━━━━━━━━━━━━━━━━━━━━━━━━━━━━━━━━━━━━━━━━━━━━━━━━━━━━━━━━━━━\n",
    );
    let mut k: usize = 0;
    while k < 5
        invariant
            all@ == stage_order(),
            k <= 5,
            t.learning_units@ == units@,
            s@ == "\n📋 各阶段学习进度\n━━━━━━━━━━━━━━━━━━━━━━━━━━━━━━━━━━━━━━━━━━━━━━━━━━━━━━━━━━━━━━━━━━━━━━━━━━━━━━━\n"@
                + stage_blocks(units@, stage_order().take(k as int)),
        decreases 5 - k,
    {
        proof {
            assert(stage_order().take(k as int + 1).drop_last() =~= stage_order().take(k as int));
        }
        s.append(render_stage_block(units, all[k]).as_str());
        proof {
            assert(s@ =~= "\n📋 各阶段学习进度\n━━━━━━━━━━━━━━━━━━━━━━━━━━━━━━━━━━━━━━━━━━━━━━━━━━━━━━━━━━━━━━━━━━━━━━━━━━━━━━━\n"@
                + stage_blocks(units@, stage_order().take(k as int + 1)));
        }
        k = k + 1;
    }
    proof {
        assert(stage_order().take(5) =~= stage_order());
    }
    s
}

/// The glyph of a rarity tier in the achievement list.
pub open spec fn rarity_icon(r: AchievementRarity) -> Seq<char> {
    match r {
        AchievementRarity::Common => "🌟"@,
        AchievementRarity::Rare => "⭐"@,
        AchievementRarity::Epic => "🌟"@,
        AchievementRarity::Legendary => "💫"@,
    }
}

fn rarity_icon_str(r: AchievementRarity) -> (s: &'static str)
    ensures
        s@ == rarity_icon(r),
{
    match r {
        AchievementRarity::Common => "🌟",
        AchievementRarity::Rare => "⭐",
        AchievementRarity::Epic => "🌟",
        AchievementRarity::Legendary => "💫",
    }
}

/// Number of unlocked achievements.
pub open spec fn unlocked_count(a: Seq<Achievement>) -> int
    decreases a.len(),
{
    if a.len() == 0 {
        0
    } else {
        unlocked_count(a.drop_last()) + if a.last().unlocked_at is Some {
            1int
        } else {
            0
        }
    }
}

/// One line of the unlocked-achievement list.
pub open spec fn ach_line(a: Achievement) -> Seq<char> {
    "  "@ + rarity_icon(a.rarity) + " "@ + a.name@ + " - "@ + a.description@ + "\n"@
}

/// The lines of all unlocked achievements, in storage order.
pub open spec fn ach_lines(a: Seq<Achievement>) -> Seq<char>
    decreases a.len(),
{
    if a.len() == 0 {
        Seq::empty()
    } else {
        let rest = ach_lines(a.drop_last());
        if a.last().unlocked_at is Some {
            rest + ach_line(a.last())
        } else {
            rest
        }
    }
}

/// The achievements section: the unlocked list (when any) and the locked
/// count (when any).
pub open spec fn sec_achievements(t: ProgressTracker) -> Seq<char> {
    let a = t.achievements@;
    "\n🏆 成就系统\n━━━━━━━━━━━━━━━━━━━━━━━━━━━━━━━━━━━━━━━━━━━━━━━━━━━━━━━━━━━━━━━━━━━━━━━━━━━━━━━\n"@
        + (if unlocked_count(a) > 0 {
        "\n✨ 已解锁成就:\n"@ + ach_lines(a)
    } else {
        Seq::empty()
    }) + (if a.len() - unlocked_count(a) > 0 {
        "\n🔒 未解锁成就: "@ + dec_str(a.len() - unlocked_count(a)) + " 个\n"@
    } else {
        Seq::empty()
    })
}

fn render_achievements(t: &ProgressTracker) -> (r: String)
    ensures
        r@ == sec_achievements(*t),
{
    let achs = &t.achievements;
    let n = achs.len();
    let mut lines = String::new();
    let mut uc: usize = 0;
    let mut i: usize = 0;
    while i < n
        invariant
            n == achs@.len(),
            i <= n,
            uc as int == unlocked_count(achs@.take(i as int)),
            uc <= i,
            lines@ == ach_lines(achs@.take(i as int)),
        decreases n - i,
    {
        proof {
            assert(achs@.take(i as int + 1).drop_last() =~= achs@.take(i as int));
        }
        let a = &achs[i];
        if a.unlocked_at.is_some() {
            uc = uc + 1;
            lines.append("  ");
            lines.append(rarity_icon_str(a.rarity));
            lines.append(" ");
            lines.append(a.name.as_str());
            lines.append(" - ");
            lines.append(a.description.as_str());
            lines.append("\n");
        }
        proof {
            assert(lines@ =~= ach_lines(achs@.take(i as int + 1)));
        }
        i = i + 1;
    }
    proof {
        assert(achs@.take(n as int) =~= achs@);
        lemma_unlocked_count_bound(achs@);
    }
    let mut s = String::from_str(
        "\n🏆 成就系统\n━━━━━━━━━━━━━━━━━━━━━━━━━━━━━━━━━━━━━━━━━━━━━━━━━━━━━━━━━━━━━━━━━━━━━━━━━━━━━━━\n",
    );
    if uc > 0 {
        s.append("\n✨ 已解锁成就:\n");
        s.append(lines.as_str());
    }
    let locked = n - uc;
    if locked > 0 {
        s.append("\n🔒 未解锁成就: ");
        s.append(strutil::u64_string(locked as u64).as_str());
        s.append(" 个\n");
    }
    proof {
        assert(s@ =~= sec_achievements(*t));
    }
    s
}

pub proof fn lemma_unlocked_count_bound(a: Seq<Achievement>)
    ensures
        0 <= unlocked_count(a) <= a.len(),
    decreases a.len(),
{
    if a.len() > 0 {
        lemma_unlocked_count_bound(a.drop_last());
    }
}

/// One numbered line of the recommendation list; `no` is the 1-based rank.
pub open spec fn rec_line(u: LearningUnit, no: int) -> Seq<char> {
    "  "@ + dec_str(no) + ". "@ + u.name@ + " ("@ + spec_type_name(u.unit_type) + " - "@ + dec_str(
        u.estimated_time_minutes as int,
    ) + " 分钟)\n"@
}

/// The numbered lines of the proposed units.
pub open spec fn rec_lines(ns: Seq<LearningUnit>) -> Seq<char>
    decreases ns.len(),
{
    if ns.len() == 0 {
        Seq::empty()
    } else {
        rec_lines(ns.drop_last()) + rec_line(ns.last(), ns.len() as int)
    }
}

/// The proposed units actually shown: the proposal capped at the
/// configured maximum-recommendations-shown limit.
pub open spec fn shown_units(s: Seq<LearningUnit>, cur: LearningStage, maxr: usize) -> Seq<
    LearningUnit,
> {
    let next = spec_next_units(s, cur);
    next.take(
        if next.len() < maxr {
            next.len() as int
        } else {
            maxr as int
        },
    )
}

/// The recommendations section: a congratulation when nothing is open,
/// otherwise the rationale, the figures and the numbered unit list — the
/// list and its time sum capped at `maxr` entries.
pub open spec fn sec_recommendations(t: ProgressTracker, maxr: usize) -> Seq<char> {
    let s = t.learning_units@;
    let cur = spec_current_stage(s);
    let next = spec_next_units(s, cur);
    let shown = shown_units(s, cur, maxr);
    "\n🎯 学习路径推荐\n━━━━━━━━━━━━━━━━━━━━━━━━━━━━━━━━━━━━━━━━━━━━━━━━━━━━━━━━━━━━━━━━━━━━━━━━━━━━━━━\n"@
        + (if next.len() == 0 {
        "\n🎉 恭喜！您已完成所有学习单元。\n💡 建议开始实际项目练习或复习之前的内容。\n"@
    } else {
        "\n💡 "@ + spec_reasoning(s, cur) + "\n📅 预计学习时间: "@ + dec_str(total_minutes(shown))
            + " 分钟\n🎯 推荐置信度: "@ + dec_str((spec_confidence(s, cur) + 50) / 100)
            + "%\n\n📚 推荐学习单元:\n"@ + rec_lines(shown)
    })
}

fn render_recommendations(t: &ProgressTracker, max_recommendations: usize) -> (r: String)
    ensures
        r@ == sec_recommendations(*t, max_recommendations),
{
    let rec = t.get_learning_path_recommendation();
    let mut s = String::from_str(
        "\n🎯 学习路径推荐\n━━━━━━━━━━━━━━━━━━━━━━━━━━━━━━━━━━━━━━━━━━━━━━━━━━━━━━━━━━━━━━━━━━━━━━━━━━━━━━━\n",
    );
    if rec.next_units.len() == 0 {
        s.append("\n🎉 恭喜！您已完成所有学习单元。\n💡 建议开始实际项目练习或复习之前的内容。\n");
    } else {
        let m = rec.next_units.len();
        proof {
            assert(m <= 5);
        }
        let shown_n: usize = if m < max_recommendations {
            m
        } else {
            max_recommendations
        };
        let mut shown_est: u64 = 0;
        let mut k: usize = 0;
        while k < shown_n
            invariant
                shown_n <= rec.next_units@.len() <= 5,
                k <= shown_n,
                shown_est as int == total_minutes(rec.next_units@.take(k as int)),
                shown_est <= u32::MAX * (k as int),
            decreases shown_n - k,
        {
            proof {
                assert(rec.next_units@.take(k as int + 1).drop_last() =~= rec.next_units@.take(
                    k as int,
                ));
            }
            shown_est = shown_est + rec.next_units[k].estimated_time_minutes as u64;
            k = k + 1;
        }
        s.append("\n💡 ");
        s.append(rec.reasoning.as_str());
        s.append("\n📅 预计学习时间: ");
        s.append(strutil::u64_string(shown_est).as_str());
        s.append(" 分钟\n🎯 推荐置信度: ");
        s.append(strutil::u64_string(((rec.confidence_score + 50) / 100) as u64).as_str());
        s.append("%\n\n📚 推荐学习单元:\n");
        let ghost pre = s@;
        let mut i: usize = 0;
        while i < shown_n
            invariant
                shown_n <= rec.next_units@.len(),
                i <= shown_n,
                s@ == pre + rec_lines(rec.next_units@.take(i as int)),
            decreases shown_n - i,
        {
            proof {
                assert(rec.next_units@.take(i as int + 1).drop_last() =~= rec.next_units@.take(
                    i as int,
                ));
            }
            let u = &rec.next_units[i];
            s.append("  ");
            s.append(strutil::u64_string((i + 1) as u64).as_str());
            s.append(". ");
            s.append(u.name.as_str());
            s.append(" (");
            s.append(u.unit_type.name());
            s.append(" - ");
            s.append(strutil::u64_string(u.estimated_time_minutes as u64).as_str());
            s.append(" 分钟)\n");
            proof {
                assert(s@ =~= pre + rec_lines(rec.next_units@.take(i as int + 1)));
            }
            i = i + 1;
        }
    }
    proof {
        assert(s@ =~= sec_recommendations(*t, max_recommendations));
    }
    s
}

/// The numbered suggestion lines.
pub open spec fn sug_lines(ss: Seq<Seq<char>>) -> Seq<char>
    decreases ss.len(),
{
    if ss.len() == 0 {
        Seq::empty()
    } else {
        sug_lines(ss.drop_last()) + dec_str(ss.len() as int) + " "@ + ss.last() + "\n"@
    }
}

/// The suggestions section.
pub open spec fn sec_suggestions(t: ProgressTracker) -> Seq<char> {
    "\n💡 个性化学习建议\n━━━━━━━━━━━━━━━━━━━━━━━━━━━━━━━━━━━━━━━━━━━━━━━━━━━━━━━━━━━━━━━━━━━━━━━━━━━━━━━\n"@
        + sug_lines(spec_suggestions(t.learning_units@))
}

fn render_suggestions(t: &ProgressTracker) -> (r: String)
    ensures
        r@ == sec_suggestions(*t),
{
    let sugs = t.get_personalized_suggestions();
    let ghost model = spec_suggestions(t.learning_units@);
    let mut s = String::from_str(
        "\n💡 个性化学习建议\n━━━━━━━━━━━━━━━━━━━━━━━━━━━━━━━━━━━━━━━━━━━━━━━━━━━━━━━━━━━━━━━━━━━━━━━━━━━━━━━\n",
    );
    let ghost pre = s@;
    let m = sugs.len();
    let mut i: usize = 0;
    while i < m
        invariant
            m == sugs@.len(),
            sugs@.map_values(|x: String| x@) == model,
            i <= m,
            s@ == pre + sug_lines(model.take(i as int)),
        decreases m - i,
    {
        proof {
            assert(model.take(i as int + 1).drop_last() =~= model.take(i as int));
            assert(model[i as int] == sugs@[i as int]@);
        }
        s.append(strutil::u64_string((i + 1) as u64).as_str());
        s.append(" ");
        s.append(sugs[i].as_str());
        s.append("\n");
        proof {
            assert(s@ =~= pre + sug_lines(model.take(i as int + 1)));
        }
        i = i + 1;
    }
    proof {
        assert(model.take(m as int) =~= model);
    }
    s
}

/// The fixed report footer.
pub open spec fn sec_footer() -> Seq<char> {
    "\n━━━━━━━━━━━━━━━━━━━━━━━━━━━━━━━━━━━━━━━━━━━━━━━━━━━━━━━━━━━━━━━━━━━━━━━━━━━━━━━\n🦀 Rust 学习进度跟踪系统 - 让学习更高效，让进步看得见！\n"@
}

fn render_footer() -> (r: String)
    ensures
        r@ == sec_footer(),
{
    String::from_str(
        "\n━━━━━━━━━━━━━━━━━━━━━━━━━━━━━━━━━━━━━━━━━━━━━━━━━━━━━━━━━━━━━━━━━━━━━━━━━━━━━━━\n🦀 Rust 学习进度跟踪系统 - 让学习更高效，让进步看得见！\n",
    )
}

/// `body` when `on`, nothing otherwise.
pub open spec fn sec_if(on: bool, body: Seq<char>) -> Seq<char> {
    if on {
        body
    } else {
        Seq::empty()
    }
}

/// The whole text report: header, the five toggled sections in fixed
/// order, footer.
pub open spec fn spec_render(t: ProgressTracker, c: DashboardConfig) -> Seq<char> {
    sec_header(t) + sec_if(c.show_progress_bars, sec_overall(t)) + sec_if(
        c.show_stage_breakdown,
        sec_stages(t),
    ) + sec_if(c.show_achievements, sec_achievements(t)) + sec_if(
        c.show_recommendations,
        sec_recommendations(t, c.max_recommendations),
    ) + sec_if(c.show_suggestions, sec_suggestions(t)) + sec_footer()
}

/// Renders the text report for one configuration.
pub struct DashboardRenderer {
    pub config: DashboardConfig,
}

impl DashboardRenderer {
    /// A renderer holding the given configuration.
    pub fn new(config: DashboardConfig) -> (r: DashboardRenderer)
        ensures
            r.config == config,
    {
        DashboardRenderer { config }
    }

    /// Renders the full text report of the tracker, honoring the toggles:
    /// a section switched off is wholly absent, everything else is
    /// byte-identical to the fully enabled report's sections.
    pub fn render(&self, tracker: &ProgressTracker) -> (r: String)
        requires
            valid_ts(tracker.last_updated),
        ensures
            r@ == spec_render(*tracker, self.config),
    {
        let mut out = render_header(tracker);
        if self.config.show_progress_bars {
            out.append(render_overall(tracker).as_str());
        }
        if self.config.show_stage_breakdown {
            out.append(render_stages(tracker).as_str());
        }
        if self.config.show_achievements {
            out.append(render_achievements(tracker).as_str());
        }
        if self.config.show_recommendations {
            out.append(render_recommendations(tracker, self.config.max_recommendations).as_str());
        }
        if self.config.show_suggestions {
            out.append(render_suggestions(tracker).as_str());
        }
        out.append(render_footer().as_str());
        proof {
            assert(out@ =~= spec_render(*tracker, self.config));
        }
        out
    }
}

/// The fixed document head: doctype, meta, title and the stylesheet.
pub open spec fn html_head() -> Seq<char> {
    "<!DOCTYPE html>\n<html lang=\"zh-CN\">\n<head>\n<meta charset=\"UTF-8\">\n<meta name=\"viewport\" content=\"width=device-width, initial-scale=1.0\">\n<title>Rust 学习进度跟踪系统</title>\n<style>\nbody { font-family: sans-serif; line-height: 1.6; color: #333; }\n.container { max-width: 1200px; margin: 0 auto; padding: 20px; }\n.dashboard { background: white; border-radius: 15px; overflow: hidden; }\n.header { color: white; background: #667eea; padding: 30px; text-align: center; }\n.content { padding: 30px; }\n.section { margin-bottom: 40px; padding: 25px; background: #f8f9fa; border-radius: 10px; }\n.progress-bar { background: #e9ecef; border-radius: 10px; overflow: hidden; height: 30px; }\n.progress-fill { background: #28a745; height: 100%; border-radius: 10px; }\n.progress-text { color: white; font-weight: bold; text-align: center; }\n.stats-grid { display: grid; grid-template-columns: repeat(auto-fit, minmax(200px, 1fr)); gap: 20px; }\n.stat-card { background: white; padding: 20px; border-radius: 10px; text-align: center; }\n.stat-number { font-size: 2em; font-weight: bold; color: #667eea; }\n.stat-label { color: #666; font-size: 0.9em; }\n.stage-list { list-style: none; margin: 20px 0; }\n.achievement-grid { display: grid; grid-template-columns: repeat(auto-fit, minmax(250px, 1fr)); gap: 15px; }\n.achievement-card { background: white; padding: 20px; border-radius: 10px; }\n.achievement-title { font-weight: bold; color: #333; }\n.achievement-desc { color: #666; font-size: 0.9em; }\n.recommendation-list { list-style: none; margin: 20px 0; }\n.recommendation-item { background: white; margin: 10px 0; padding: 15px; border-radius: 8px; }\n.suggestion-list { list-style: none; margin: 20px 0; }\n.suggestion-item { background: white; margin: 10px 0; padding: 15px; border-radius: 8px; }\n.footer { background: #343a40; color: white; text-align: center; padding: 20px; }\n</style>\n</head>\n<body>\n<div class=\"container\">\n<div class=\"dashboard\">\n"@
}

/// The document header: banner, learner name and last-updated stamp, and
/// the opening of the content block.
pub open spec fn html_header(t: ProgressTracker) -> Seq<char> {
    "<div class=\"header\">\n<h1>🦀 Rust 学习进度跟踪系统</h1>\n<div class=\"learner-info\">👋 学习者: "@
        + t.learner_name@ + " | 📅 最后更新: "@ + format_utc_of(t.last_updated)
        + "</div>\n</div>\n<div class=\"content\">\n"@
}

fn render_html_header(t: &ProgressTracker) -> (r: String)
    requires
        valid_ts(t.last_updated),
    ensures
        r@ == html_header(*t),
{
    let mut s = String::from_str(
        "<div class=\"header\">\n<h1>🦀 Rust 学习进度跟踪系统</h1>\n<div class=\"learner-info\">👋 学习者: ",
    );
    s.append(t.learner_name.as_str());
    s.append(" | 📅 最后更新: ");
    s.append(clock::format_timestamp(t.last_updated).as_str());
    s.append("</div>\n</div>\n<div class=\"content\">\n");
    s
}

/// The overall-progress card: a fractional-width indicator of the same
/// percentage as the text bar, and the four figures.
pub open spec fn html_overall(t: ProgressTracker) -> Seq<char> {
    let s = t.learning_units@;
    let p = spec_overall_progress(s);
    "<div class=\"section\">\n<h2>📊 总体学习进度</h2>\n<div class=\"progress-bar\"><div class=\"progress-fill\" style=\"width: "@
        + pct_str(p) + "%\"><div class=\"progress-text\">"@ + pct_str(p)
        + "%</div></div></div>\n<div class=\"stats-grid\">\n<div class=\"stat-card\"><div class=\"stat-number\">"@
        + dec_str(completed_count(s))
        + "</div><div class=\"stat-label\">已完成单元</div></div>\n<div class=\"stat-card\"><div class=\"stat-number\">"@
        + dec_str(in_progress_count(s))
        + "</div><div class=\"stat-label\">进行中单元</div></div>\n<div class=\"stat-card\"><div class=\"stat-number\">"@
        + dec_str(s.len() as int)
        + "</div><div class=\"stat-label\">总单元数</div></div>\n<div class=\"stat-card\"><div class=\"stat-number\">"@
        + dec_str(completed_minutes(s))
        + "</div><div class=\"stat-label\">总学习时间 (分钟)</div></div>\n</div>\n</div>\n"@
}

fn render_html_overall(t: &ProgressTracker) -> (r: String)
    ensures
        r@ == html_overall(*t),
{
    let units = &t.learning_units;
    let pct = stats::overall_progress_pct(units);
    let done = stats::count_completed(units);
    let in_prog = stats::count_in_progress(units);
    let n = units.len();
    let cm = achieve::sum_completed_minutes(units);
    let pct_text = strutil::pct_string(pct as u64);
    let mut s = String::from_str(
        "<div class=\"section\">\n<h2>📊 总体学习进度</h2>\n<div class=\"progress-bar\"><div class=\"progress-fill\" style=\"width: ",
    );
    s.append(pct_text.as_str());
    s.append("%\"><div class=\"progress-text\">");
    s.append(pct_text.as_str());
    s.append("%</div></div></div>\n<div class=\"stats-grid\">\n<div class=\"stat-card\"><div class=\"stat-number\">");
    s.append(strutil::u64_string(done as u64).as_str());
    s.append("</div><div class=\"stat-label\">已完成单元</div></div>\n<div class=\"stat-card\"><div class=\"stat-number\">");
    s.append(strutil::u64_string(in_prog as u64).as_str());
    s.append("</div><div class=\"stat-label\">进行中单元</div></div>\n<div class=\"stat-card\"><div class=\"stat-number\">");
    s.append(strutil::u64_string(n as u64).as_str());
    s.append("</div><div class=\"stat-label\">总单元数</div></div>\n<div class=\"stat-card\"><div class=\"stat-number\">");
    s.append(strutil::u128_string(cm).as_str());
    s.append("</div><div class=\"stat-label\">总学习时间 (分钟)</div></div>\n</div>\n</div>\n");
    s
}

/// One stage row of the markup stage list.
pub open spec fn html_stage_item(s: Seq<LearningUnit>, st: LearningStage) -> Seq<char> {
    "<li>"@ + spec_stage_name(st) + ": "@ + pct_str(stage_pct_or_zero(s, st)) + "%</li>\n"@
}

/// The stage rows of the given stages, in order.
pub open spec fn html_stage_items(s: Seq<LearningUnit>, stages: Seq<LearningStage>) -> Seq<char>
    decreases stages.len(),
{
    if stages.len() == 0 {
        Seq::empty()
    } else {
        html_stage_items(s, stages.drop_last()) + html_stage_item(s, stages.last())
    }
}

/// The stage-breakdown card.
pub open spec fn html_stages(t: ProgressTracker) -> Seq<char> {
    "<div class=\"section\">\n<h2>📋 各阶段学习进度</h2>\n<ul class=\"stage-list\">\n"@
        + html_stage_items(t.learning_units@, stage_order()) + "</ul>\n</div>\n"@
}

fn render_html_stages(t: &ProgressTracker) -> (r: String)
    ensures
        r@ == html_stages(*t),
{
    let units = &t.learning_units;
    let all = LearningStage::all_stages();
    let mut s = String::from_str(
        "<div class=\"section\">\n<h2>📋 各阶段学习进度</h2>\n<ul class=\"stage-list\">\n",
    );
    let mut k: usize = 0;
    while k < 5
        invariant
            all@ == stage_order(),
            k <= 5,
            t.learning_units@ == units@,
            s@ == "<div class=\"section\">\n<h2>📋 各阶段学习进度</h2>\n<ul class=\"stage-list\">\n"@
                + html_stage_items(units@, stage_order().take(k as int)),
        decreases 5 - k,
    {
        proof {
            assert(stage_order().take(k as int + 1).drop_last() =~= stage_order().take(k as int));
        }
        let st = all[k];
        let (st_total, st_done) = stats::stage_counts(units, st);
        let pct: u32 = if st_total > 0 {
            proof {
                stats::lemma_stage_pct_in_range(units@, st);
            }
            ((st_done as u128 * 10000) / (st_total as u128)) as u32
        } else {
            0
        };
        s.append("<li>");
        s.append(st.name());
        s.append(": ");
        s.append(strutil::pct_string(pct as u64).as_str());
        s.append("%</li>\n");
        proof {
            assert(s@ =~= "<div class=\"section\">\n<h2>📋 各阶段学习进度</h2>\n<ul class=\"stage-list\">\n"@
                + html_stage_items(units@, stage_order().take(k as int + 1)));
        }
        k = k + 1;
    }
    proof {
        assert(stage_order().take(5) =~= stage_order());
    }
    s.append("</ul>\n</div>\n");
    s
}

/// One unlocked-achievement card.
pub open spec fn html_ach_card(a: Achievement) -> Seq<char> {
    "<div class=\"achievement-card\">\n<div class=\"achievement-title\">"@ + a.name@
        + "</div>\n<div class=\"achievement-desc\">"@ + a.description@ + "</div>\n</div>\n"@
}

/// Cards for all unlocked achievements, in storage order.
pub open spec fn html_ach_cards(a: Seq<Achievement>) -> Seq<char>
    decreases a.len(),
{
    if a.len() == 0 {
        Seq::empty()
    } else {
        let rest = html_ach_cards(a.drop_last());
        if a.last().unlocked_at is Some {
            rest + html_ach_card(a.last())
        } else {
            rest
        }
    }
}

/// The achievements card: unlocked cards, or a placeholder line.
pub open spec fn html_achievements(t: ProgressTracker) -> Seq<char> {
    let a = t.achievements@;
    "<div class=\"section\">\n<h2>🏆 已解锁成就</h2>\n<div class=\"achievement-grid\">\n"@ + (
    if unlocked_count(a) > 0 {
        html_ach_cards(a)
    } else {
        "<p>暂无已解锁成就</p>\n"@
    }) + "</div>\n</div>\n"@
}

fn render_html_achievements(t: &ProgressTracker) -> (r: String)
    ensures
        r@ == html_achievements(*t),
{
    let achs = &t.achievements;
    let n = achs.len();
    let mut cards = String::new();
    let mut uc: usize = 0;
    let mut i: usize = 0;
    while i < n
        invariant
            n == achs@.len(),
            i <= n,
            uc as int == unlocked_count(achs@.take(i as int)),
            uc <= i,
            cards@ == html_ach_cards(achs@.take(i as int)),
        decreases n - i,
    {
        proof {
            assert(achs@.take(i as int + 1).drop_last() =~= achs@.take(i as int));
        }
        let a = &achs[i];
        if a.unlocked_at.is_some() {
            uc = uc + 1;
            cards.append("<div class=\"achievement-card\">\n<div class=\"achievement-title\">");
            cards.append(a.name.as_str());
            cards.append("</div>\n<div class=\"achievement-desc\">");
            cards.append(a.description.as_str());
            cards.append("</div>\n</div>\n");
        }
        proof {
            assert(cards@ =~= html_ach_cards(achs@.take(i as int + 1)));
        }
        i = i + 1;
    }
    proof {
        assert(achs@.take(n as int) =~= achs@);
    }
    let mut s = String::from_str(
        "<div class=\"section\">\n<h2>🏆 已解锁成就</h2>\n<div class=\"achievement-grid\">\n",
    );
    if uc > 0 {
        s.append(cards.as_str());
    } else {
        s.append("<p>暂无已解锁成就</p>\n");
    }
    s.append("</div>\n</div>\n");
    proof {
        assert(s@ =~= html_achievements(*t));
    }
    s
}

/// One numbered recommendation row.
pub open spec fn html_rec_item(u: LearningUnit, no: int) -> Seq<char> {
    "<li class=\"recommendation-item\"><strong>"@ + dec_str(no) + ".</strong> "@ + u.name@ + " ("@
        + spec_type_name(u.unit_type) + " - "@ + dec_str(u.estimated_time_minutes as int)
        + " 分钟)</li>\n"@
}

/// The numbered rows of the proposed units.
pub open spec fn html_rec_items(ns: Seq<LearningUnit>) -> Seq<char>
    decreases ns.len(),
{
    if ns.len() == 0 {
        Seq::empty()
    } else {
        html_rec_items(ns.drop_last()) + html_rec_item(ns.last(), ns.len() as int)
    }
}

/// The recommendation card: stage, figures, rationale and the row list (a
/// placeholder row when nothing is proposed) — the list and its time sum
/// capped at `maxr` entries.
pub open spec fn html_recommendations(t: ProgressTracker, maxr: usize) -> Seq<char> {
    let s = t.learning_units@;
    let cur = spec_current_stage(s);
    let next = spec_next_units(s, cur);
    let shown = shown_units(s, cur, maxr);
    "<div class=\"section\">\n<h2>🎯 学习路径推荐</h2>\n<p><strong>推荐阶段:</strong> "@
        + spec_stage_name(cur) + "</p>\n<p><strong>预计学习时间:</strong> "@ + dec_str(
        total_minutes(shown),
    ) + " 分钟</p>\n<p><strong>推荐置信度:</strong> "@ + dec_str(
        (spec_confidence(s, cur) + 50) / 100,
    ) + "%</p>\n<p><strong>推荐理由:</strong> "@ + spec_reasoning(s, cur)
        + "</p>\n<ul class=\"recommendation-list\">\n"@ + (if next.len() == 0 {
        "<p>暂无推荐学习单元</p>\n"@
    } else {
        html_rec_items(shown)
    }) + "</ul>\n</div>\n"@
}

fn render_html_recommendations(t: &ProgressTracker, max_recommendations: usize) -> (r: String)
    ensures
        r@ == html_recommendations(*t, max_recommendations),
{
    let rec = t.get_learning_path_recommendation();
    let m = rec.next_units.len();
    proof {
        assert(m <= 5);
    }
    let shown_n: usize = if m < max_recommendations {
        m
    } else {
        max_recommendations
    };
    let mut shown_est: u64 = 0;
    let mut k: usize = 0;
    while k < shown_n
        invariant
            shown_n <= rec.next_units@.len() <= 5,
            k <= shown_n,
            shown_est as int == total_minutes(rec.next_units@.take(k as int)),
            shown_est <= u32::MAX * (k as int),
        decreases shown_n - k,
    {
        proof {
            assert(rec.next_units@.take(k as int + 1).drop_last() =~= rec.next_units@.take(
                k as int,
            ));
        }
        shown_est = shown_est + rec.next_units[k].estimated_time_minutes as u64;
        k = k + 1;
    }
    let mut s = String::from_str(
        "<div class=\"section\">\n<h2>🎯 学习路径推荐</h2>\n<p><strong>推荐阶段:</strong> ",
    );
    s.append(rec.recommended_stage.name());
    s.append("</p>\n<p><strong>预计学习时间:</strong> ");
    s.append(strutil::u64_string(shown_est).as_str());
    s.append(" 分钟</p>\n<p><strong>推荐置信度:</strong> ");
    s.append(strutil::u64_string(((rec.confidence_score + 50) / 100) as u64).as_str());
    s.append("%</p>\n<p><strong>推荐理由:</strong> ");
    s.append(rec.reasoning.as_str());
    s.append("</p>\n<ul class=\"recommendation-list\">\n");
    if rec.next_units.len() == 0 {
        s.append("<p>暂无推荐学习单元</p>\n");
    } else {
        let ghost pre = s@;
        let mut i: usize = 0;
        while i < shown_n
            invariant
                shown_n <= rec.next_units@.len(),
                i <= shown_n,
                s@ == pre + html_rec_items(rec.next_units@.take(i as int)),
            decreases shown_n - i,
        {
            proof {
                assert(rec.next_units@.take(i as int + 1).drop_last() =~= rec.next_units@.take(
                    i as int,
                ));
            }
            let u = &rec.next_units[i];
            s.append("<li class=\"recommendation-item\"><strong>");
            s.append(strutil::u64_string((i + 1) as u64).as_str());
            s.append(".</strong> ");
            s.append(u.name.as_str());
            s.append(" (");
            s.append(u.unit_type.name());
            s.append(" - ");
            s.append(strutil::u64_string(u.estimated_time_minutes as u64).as_str());
            s.append(" 分钟)</li>\n");
            proof {
                assert(s@ =~= pre + html_rec_items(rec.next_units@.take(i as int + 1)));
            }
            i = i + 1;
        }
    }
    s.append("</ul>\n</div>\n");
    proof {
        assert(s@ =~= html_recommendations(*t, max_recommendations));
    }
    s
}

/// The suggestion rows.
pub open spec fn html_sug_items(ss: Seq<Seq<char>>) -> Seq<char>
    decreases ss.len(),
{
    if ss.len() == 0 {
        Seq::empty()
    } else {
        html_sug_items(ss.drop_last()) + "<li class=\"suggestion-item\">"@ + ss.last()
            + "</li>\n"@
    }
}

/// The suggestions card.
pub open spec fn html_suggestions(t: ProgressTracker) -> Seq<char> {
    "<div class=\"section\">\n<h2>💡 个性化学习建议</h2>\n<ul class=\"suggestion-list\">\n"@
        + html_sug_items(spec_suggestions(t.learning_units@)) + "</ul>\n</div>\n"@
}

fn render_html_suggestions(t: &ProgressTracker) -> (r: String)
    ensures
        r@ == html_suggestions(*t),
{
    let sugs = t.get_personalized_suggestions();
    let ghost model = spec_suggestions(t.learning_units@);
    let mut s = String::from_str(
        "<div class=\"section\">\n<h2>💡 个性化学习建议</h2>\n<ul class=\"suggestion-list\">\n",
    );
    let ghost pre = s@;
    let m = sugs.len();
    let mut i: usize = 0;
    while i < m
        invariant
            m == sugs@.len(),
            sugs@.map_values(|x: String| x@) == model,
            i <= m,
            s@ == pre + html_sug_items(model.take(i as int)),
        decreases m - i,
    {
        proof {
            assert(model.take(i as int + 1).drop_last() =~= model.take(i as int));
            assert(model[i as int] == sugs@[i as int]@);
        }
        s.append("<li class=\"suggestion-item\">");
        s.append(sugs[i].as_str());
        s.append("</li>\n");
        proof {
            assert(s@ =~= pre + html_sug_items(model.take(i as int + 1)));
        }
        i = i + 1;
    }
    proof {
        assert(model.take(m as int) =~= model);
    }
    s.append("</ul>\n</div>\n");
    s
}

/// The fixed document tail: content close, footer, closing tags.
pub open spec fn html_footer() -> Seq<char> {
    "</div>\n<div class=\"footer\">🦀 Rust 学习进度跟踪系统 - 让学习更高效，让进步看得见！</div>\n</div>\n</div>\n</body>\n</html>"@
}

/// The whole markup report: the same logical sections as the text report,
/// from the same inputs, under the same toggles.
pub open spec fn spec_html(t: ProgressTracker, c: DashboardConfig) -> Seq<char> {
    html_head() + html_header(t) + sec_if(c.show_progress_bars, html_overall(t)) + sec_if(
        c.show_stage_breakdown,
        html_stages(t),
    ) + sec_if(c.show_achievements, html_achievements(t)) + sec_if(
        c.show_recommendations,
        html_recommendations(t, c.max_recommendations),
    ) + sec_if(c.show_suggestions, html_suggestions(t)) + html_footer()
}

/// Renders the markup report of the tracker under the given configuration.
pub fn generate_html_dashboard(tracker: &ProgressTracker, config: &DashboardConfig) -> (r: String)
    requires
        valid_ts(tracker.last_updated),
    ensures
        r@ == spec_html(*tracker, *config),
{
    let mut out = String::from_str(
        "<!DOCTYPE html>\n<html lang=\"zh-CN\">\n<head>\n<meta charset=\"UTF-8\">\n<meta name=\"viewport\" content=\"width=device-width, initial-scale=1.0\">\n<title>Rust 学习进度跟踪系统</title>\n<style>\nbody { font-family: sans-serif; line-height: 1.6; color: #333; }\n.container { max-width: 1200px; margin: 0 auto; padding: 20px; }\n.dashboard { background: white; border-radius: 15px; overflow: hidden; }\n.header { color: white; background: #667eea; padding: 30px; text-align: center; }\n.content { padding: 30px; }\n.section { margin-bottom: 40px; padding: 25px; background: #f8f9fa; border-radius: 10px; }\n.progress-bar { background: #e9ecef; border-radius: 10px; overflow: hidden; height: 30px; }\n.progress-fill { background: #28a745; height: 100%; border-radius: 10px; }\n.progress-text { color: white; font-weight: bold; text-align: center; }\n.stats-grid { display: grid; grid-template-columns: repeat(auto-fit, minmax(200px, 1fr)); gap: 20px; }\n.stat-card { background: white; padding: 20px; border-radius: 10px; text-align: center; }\n.stat-number { font-size: 2em; font-weight: bold; color: #667eea; }\n.stat-label { color: #666; font-size: 0.9em; }\n.stage-list { list-style: none; margin: 20px 0; }\n.achievement-grid { display: grid; grid-template-columns: repeat(auto-fit, minmax(250px, 1fr)); gap: 15px; }\n.achievement-card { background: white; padding: 20px; border-radius: 10px; }\n.achievement-title { font-weight: bold; color: #333; }\n.achievement-desc { color: #666; font-size: 0.9em; }\n.recommendation-list { list-style: none; margin: 20px 0; }\n.recommendation-item { background: white; margin: 10px 0; padding: 15px; border-radius: 8px; }\n.suggestion-list { list-style: none; margin: 20px 0; }\n.suggestion-item { background: white; margin: 10px 0; padding: 15px; border-radius: 8px; }\n.footer { background: #343a40; color: white; text-align: center; padding: 20px; }\n</style>\n</head>\n<body>\n<div class=\"container\">\n<div class=\"dashboard\">\n",
    );
    out.append(render_html_header(tracker).as_str());
    if config.show_progress_bars {
        out.append(render_html_overall(tracker).as_str());
    }
    if config.show_stage_breakdown {
        out.append(render_html_stages(tracker).as_str());
    }
    if config.show_achievements {
        out.append(render_html_achievements(tracker).as_str());
    }
    if config.show_recommendations {
        out.append(render_html_recommendations(tracker, config.max_recommendations).as_str());
    }
    if config.show_suggestions {
        out.append(render_html_suggestions(tracker).as_str());
    }
    out.append(
        "</div>\n<div class=\"footer\">🦀 Rust 学习进度跟踪系统 - 让学习更高效，让进步看得见！</div>\n</div>\n</div>\n</body>\n</html>",
    );
    proof {
        assert(out@ =~= spec_html(*tracker, *config));
    }
    out
}

/// One of the five toggleable report sections.
#[derive(Debug, Clone, Copy, PartialEq, Eq, Structural)]
pub enum ReportSection {
    OverallProgress,
    StageBreakdown,
    Achievements,
    Recommendations,
    Suggestions,
}

/// `c` with the five toggles replaced.
pub open spec fn set_flags(
    c: DashboardConfig,
    p: bool,
    sb: bool,
    a: bool,
    rc: bool,
    sg: bool,
) -> DashboardConfig {
    DashboardConfig {
        show_progress_bars: p,
        show_stage_breakdown: sb,
        show_achievements: a,
        show_recommendations: rc,
        show_suggestions: sg,
        max_recommendations: c.max_recommendations,
        theme: c.theme,
    }
}

/// `c` with the toggle of section `s` set to `on` and nothing else changed.
pub open spec fn with_section(c: DashboardConfig, s: ReportSection, on: bool) -> DashboardConfig {
    match s {
        ReportSection::OverallProgress => set_flags(
            c,
            on,
            c.show_stage_breakdown,
            c.show_achievements,
            c.show_recommendations,
            c.show_suggestions,
        ),
        ReportSection::StageBreakdown => set_flags(
            c,
            c.show_progress_bars,
            on,
            c.show_achievements,
            c.show_recommendations,
            c.show_suggestions,
        ),
        ReportSection::Achievements => set_flags(
            c,
            c.show_progress_bars,
            c.show_stage_breakdown,
            on,
            c.show_recommendations,
            c.show_suggestions,
        ),
        ReportSection::Recommendations => set_flags(
            c,
            c.show_progress_bars,
            c.show_stage_breakdown,
            c.show_achievements,
            on,
            c.show_suggestions,
        ),
        ReportSection::Suggestions => set_flags(
            c,
            c.show_progress_bars,
            c.show_stage_breakdown,
            c.show_achievements,
            c.show_recommendations,
            on,
        ),
    }
}

/// The text of one section of the text report. The configuration matters
/// only for the recommendations section's shown-limit; the toggles play no
/// part here.
pub open spec fn section_text(t: ProgressTracker, c: DashboardConfig, s: ReportSection) -> Seq<
    char,
> {
    match s {
        ReportSection::OverallProgress => sec_overall(t),
        ReportSection::StageBreakdown => sec_stages(t),
        ReportSection::Achievements => sec_achievements(t),
        ReportSection::Recommendations => sec_recommendations(t, c.max_recommendations),
        ReportSection::Suggestions => sec_suggestions(t),
    }
}

/// Everything of the text report strictly before section `s`: the header
/// and the enabled earlier sections. Independent of the toggle of `s`.
pub open spec fn render_before(t: ProgressTracker, c: DashboardConfig, s: ReportSection) -> Seq<
    char,
> {
    match s {
        ReportSection::OverallProgress => sec_header(t),
        ReportSection::StageBreakdown => sec_header(t) + sec_if(
            c.show_progress_bars,
            sec_overall(t),
        ),
        ReportSection::Achievements => sec_header(t) + sec_if(c.show_progress_bars, sec_overall(t))
            + sec_if(c.show_stage_breakdown, sec_stages(t)),
        ReportSection::Recommendations => sec_header(t) + sec_if(
            c.show_progress_bars,
            sec_overall(t),
        ) + sec_if(c.show_stage_breakdown, sec_stages(t)) + sec_if(
            c.show_achievements,
            sec_achievements(t),
        ),
        ReportSection::Suggestions => sec_header(t) + sec_if(c.show_progress_bars, sec_overall(t))
            + sec_if(c.show_stage_breakdown, sec_stages(t)) + sec_if(
            c.show_achievements,
            sec_achievements(t),
        ) + sec_if(c.show_recommendations, sec_recommendations(t, c.max_recommendations)),
    }
}

/// Everything of the text report strictly after section `s`: the enabled
/// later sections and the footer. Independent of the toggle of `s`.
pub open spec fn render_after(t: ProgressTracker, c: DashboardConfig, s: ReportSection) -> Seq<
    char,
> {
    match s {
        ReportSection::OverallProgress => sec_if(c.show_stage_breakdown, sec_stages(t)) + sec_if(
            c.show_achievements,
            sec_achievements(t),
        ) + sec_if(c.show_recommendations, sec_recommendations(t, c.max_recommendations)) + sec_if(
            c.show_suggestions,
            sec_suggestions(t),
        ) + sec_footer(),
        ReportSection::StageBreakdown => sec_if(c.show_achievements, sec_achievements(t)) + sec_if(
            c.show_recommendations,
            sec_recommendations(t, c.max_recommendations),
        ) + sec_if(c.show_suggestions, sec_suggestions(t)) + sec_footer(),
        ReportSection::Achievements => sec_if(
            c.show_recommendations,
            sec_recommendations(t, c.max_recommendations),
        ) + sec_if(c.show_suggestions, sec_suggestions(t)) + sec_footer(),
        ReportSection::Recommendations => sec_if(c.show_suggestions, sec_suggestions(t))
            + sec_footer(),
        ReportSection::Suggestions => sec_footer(),
    }
}

/// Toggling one section changes exactly that section's bytes of the text
/// report: with the section on, the output is the part before it, the
/// section's own text, and the part after it; with the section off, the
/// same two parts stand immediately together — and neither part depends on
/// the toggle.
#[verifier::rlimit(100)]
pub proof fn lemma_section_toggle_text(t: ProgressTracker, c: DashboardConfig, s: ReportSection)
    ensures
        spec_render(t, with_section(c, s, true)) == render_before(t, c, s) + section_text(t, c, s)
            + render_after(t, c, s),
        spec_render(t, with_section(c, s, false)) == render_before(t, c, s) + render_after(
            t,
            c,
            s,
        ),
{
    let h = sec_header(t);
    let a1 = sec_if(c.show_progress_bars, sec_overall(t));
    let a2 = sec_if(c.show_stage_breakdown, sec_stages(t));
    let a3 = sec_if(c.show_achievements, sec_achievements(t));
    let a4 = sec_if(c.show_recommendations, sec_recommendations(t, c.max_recommendations));
    let a5 = sec_if(c.show_suggestions, sec_suggestions(t));
    let f = sec_footer();
    match s {
        ReportSection::OverallProgress => {
            let x = h + sec_overall(t);
            strutil::lemma_concat_assoc(x, a2, a3);
            strutil::lemma_concat_assoc(x, a2 + a3, a4);
            strutil::lemma_concat_assoc(x, (a2 + a3) + a4, a5);
            strutil::lemma_concat_assoc(x, ((a2 + a3) + a4) + a5, f);
            strutil::lemma_concat_empty(h);
            strutil::lemma_concat_assoc(h, a2, a3);
            strutil::lemma_concat_assoc(h, a2 + a3, a4);
            strutil::lemma_concat_assoc(h, (a2 + a3) + a4, a5);
            strutil::lemma_concat_assoc(h, ((a2 + a3) + a4) + a5, f);
        },
        ReportSection::StageBreakdown => {
            let b = h + a1;
            let x = b + sec_stages(t);
            strutil::lemma_concat_assoc(x, a3, a4);
            strutil::lemma_concat_assoc(x, a3 + a4, a5);
            strutil::lemma_concat_assoc(x, (a3 + a4) + a5, f);
            strutil::lemma_concat_empty(b);
            strutil::lemma_concat_assoc(b, a3, a4);
            strutil::lemma_concat_assoc(b, a3 + a4, a5);
            strutil::lemma_concat_assoc(b, (a3 + a4) + a5, f);
        },
        ReportSection::Achievements => {
            let b = (h + a1) + a2;
            let x = b + sec_achievements(t);
            strutil::lemma_concat_assoc(x, a4, a5);
            strutil::lemma_concat_assoc(x, a4 + a5, f);
            strutil::lemma_concat_empty(b);
            strutil::lemma_concat_assoc(b, a4, a5);
            strutil::lemma_concat_assoc(b, a4 + a5, f);
        },
        ReportSection::Recommendations => {
            let b = ((h + a1) + a2) + a3;
            let x = b + sec_recommendations(t, c.max_recommendations);
            strutil::lemma_concat_assoc(x, a5, f);
            strutil::lemma_concat_empty(b);
            strutil::lemma_concat_assoc(b, a5, f);
        },
        ReportSection::Suggestions => {
            let b = (((h + a1) + a2) + a3) + a4;
            strutil::lemma_concat_empty(b);
        },
    }
}

/// The markup of one section of the markup report. The configuration
/// matters only for the recommendations card's shown-limit.
pub open spec fn section_html(t: ProgressTracker, c: DashboardConfig, s: ReportSection) -> Seq<
    char,
> {
    match s {
        ReportSection::OverallProgress => html_overall(t),
        ReportSection::StageBreakdown => html_stages(t),
        ReportSection::Achievements => html_achievements(t),
        ReportSection::Recommendations => html_recommendations(t, c.max_recommendations),
        ReportSection::Suggestions => html_suggestions(t),
    }
}

/// Everything of the markup report strictly before section `s`.
pub open spec fn html_before(t: ProgressTracker, c: DashboardConfig, s: ReportSection) -> Seq<
    char,
> {
    match s {
        ReportSection::OverallProgress => html_head() + html_header(t),
        ReportSection::StageBreakdown => html_head() + html_header(t) + sec_if(
            c.show_progress_bars,
            html_overall(t),
        ),
        ReportSection::Achievements => html_head() + html_header(t) + sec_if(
            c.show_progress_bars,
            html_overall(t),
        ) + sec_if(c.show_stage_breakdown, html_stages(t)),
        ReportSection::Recommendations => html_head() + html_header(t) + sec_if(
            c.show_progress_bars,
            html_overall(t),
        ) + sec_if(c.show_stage_breakdown, html_stages(t)) + sec_if(
            c.show_achievements,
            html_achievements(t),
        ),
        ReportSection::Suggestions => html_head() + html_header(t) + sec_if(
            c.show_progress_bars,
            html_overall(t),
        ) + sec_if(c.show_stage_breakdown, html_stages(t)) + sec_if(
            c.show_achievements,
            html_achievements(t),
        ) + sec_if(c.show_recommendations, html_recommendations(t, c.max_recommendations)),
    }
}

/// Everything of the markup report strictly after section `s`.
pub open spec fn html_after(t: ProgressTracker, c: DashboardConfig, s: ReportSection) -> Seq<
    char,
> {
    match s {
        ReportSection::OverallProgress => sec_if(c.show_stage_breakdown, html_stages(t)) + sec_if(
            c.show_achievements,
            html_achievements(t),
        ) + sec_if(c.show_recommendations, html_recommendations(t, c.max_recommendations)) + sec_if(
            c.show_suggestions,
            html_suggestions(t),
        ) + html_footer(),
        ReportSection::StageBreakdown => sec_if(c.show_achievements, html_achievements(t))
            + sec_if(c.show_recommendations, html_recommendations(t, c.max_recommendations)) + sec_if(
            c.show_suggestions,
            html_suggestions(t),
        ) + html_footer(),
        ReportSection::Achievements => sec_if(c.show_recommendations, html_recommendations(t, c.max_recommendations))
            + sec_if(c.show_suggestions, html_suggestions(t)) + html_footer(),
        ReportSection::Recommendations => sec_if(c.show_suggestions, html_suggestions(t))
            + html_footer(),
        ReportSection::Suggestions => html_footer(),
    }
}

/// The markup counterpart of the toggle law: switching one section off
/// removes exactly that section's markup, the surrounding bytes unchanged.
#[verifier::rlimit(100)]
pub proof fn lemma_section_toggle_html(t: ProgressTracker, c: DashboardConfig, s: ReportSection)
    ensures
        spec_html(t, with_section(c, s, true)) == html_before(t, c, s) + section_html(t, c, s)
            + html_after(t, c, s),
        spec_html(t, with_section(c, s, false)) == html_before(t, c, s) + html_after(t, c, s),
{
    let h = html_head() + html_header(t);
    let a1 = sec_if(c.show_progress_bars, html_overall(t));
    let a2 = sec_if(c.show_stage_breakdown, html_stages(t));
    let a3 = sec_if(c.show_achievements, html_achievements(t));
    let a4 = sec_if(c.show_recommendations, html_recommendations(t, c.max_recommendations));
    let a5 = sec_if(c.show_suggestions, html_suggestions(t));
    let f = html_footer();
    match s {
        ReportSection::OverallProgress => {
            let x = h + html_overall(t);
            strutil::lemma_concat_assoc(x, a2, a3);
            strutil::lemma_concat_assoc(x, a2 + a3, a4);
            strutil::lemma_concat_assoc(x, (a2 + a3) + a4, a5);
            strutil::lemma_concat_assoc(x, ((a2 + a3) + a4) + a5, f);
            strutil::lemma_concat_empty(h);
            strutil::lemma_concat_assoc(h, a2, a3);
            strutil::lemma_concat_assoc(h, a2 + a3, a4);
            strutil::lemma_concat_assoc(h, (a2 + a3) + a4, a5);
            strutil::lemma_concat_assoc(h, ((a2 + a3) + a4) + a5, f);
        },
        ReportSection::StageBreakdown => {
            let b = h + a1;
            let x = b + html_stages(t);
            strutil::lemma_concat_assoc(x, a3, a4);
            strutil::lemma_concat_assoc(x, a3 + a4, a5);
            strutil::lemma_concat_assoc(x, (a3 + a4) + a5, f);
            strutil::lemma_concat_empty(b);
            strutil::lemma_concat_assoc(b, a3, a4);
            strutil::lemma_concat_assoc(b, a3 + a4, a5);
            strutil::lemma_concat_assoc(b, (a3 + a4) + a5, f);
        },
        ReportSection::Achievements => {
            let b = (h + a1) + a2;
            let x = b + html_achievements(t);
            strutil::lemma_concat_assoc(x, a4, a5);
            strutil::lemma_concat_assoc(x, a4 + a5, f);
            strutil::lemma_concat_empty(b);
            strutil::lemma_concat_assoc(b, a4, a5);
            strutil::lemma_concat_assoc(b, a4 + a5, f);
        },
        ReportSection::Recommendations => {
            let b = ((h + a1) + a2) + a3;
            let x = b + html_recommendations(t, c.max_recommendations);
            strutil::lemma_concat_assoc(x, a5, f);
            strutil::lemma_concat_empty(b);
            strutil::lemma_concat_assoc(b, a5, f);
        },
        ReportSection::Suggestions => {
            let b = (((h + a1) + a2) + a3) + a4;
            strutil::lemma_concat_empty(b);
        },
    }
}

} // verus!
