//! The suggestion generator: a pure function of the statistics yielding an
//! ordered list of advisory lines — a progress band, an optional score
//! band, an optional study-time band, and a stage-specific tip, in that
//! order.

use vstd::prelude::*;
use vstd::arithmetic::div_mod::{lemma_div_is_ordered, lemma_div_multiples_vanish};
use crate::achieve;
use crate::domain::{LearningStage, LearningUnit, ProgressTracker};
use crate::stats;
use crate::stats::{
    completed_minutes, score_sum, scored_count, spec_current_stage, spec_overall_progress,
};

verus! {

/// The message of the overall-progress band (four tiers, percentages in
/// hundredths of a percent).
pub open spec fn progress_band_msg(p: int) -> Seq<char> {
    if p < 2000 {
        "🎯 刚开始学习 Rust，建议从基础语法开始，每天保持 30-60 分钟的学习时间。"@
    } else if p < 5000 {
        "📈 学习进展良好！建议继续深入理解所有权系统，这是 Rust 的核心概念。"@
    } else if p < 8000 {
        "🚀 已经掌握了 Rust 的基础知识，可以开始尝试一些实际项目来巩固所学内容。"@
    } else {
        "🏆 恭喜！您已经完成了大部分学习内容，建议开始贡献开源项目或开发个人项目。"@
    }
}

/// The optional message of the score band (the average is in hundredths of
/// a point; the middle range yields nothing).
pub open spec fn score_band(s: Seq<LearningUnit>) -> Seq<Seq<char>> {
    if scored_count(s) > 0 {
        let avg = score_sum(s) * 100 / scored_count(s);
        if avg < 7000 {
            seq!["📚 建议多复习之前的内容，确保对基础概念有深入理解。"@]
        } else if avg >= 9000 {
            seq!["⭐ 您的学习成绩非常优秀！可以考虑挑战更高级的内容或帮助他人学习。"@]
        } else {
            Seq::empty()
        }
    } else {
        Seq::empty()
    }
}

/// The optional message of the study-time band (whole completed hours).
pub open spec fn hours_band(s: Seq<LearningUnit>) -> Seq<Seq<char>> {
    let hours = completed_minutes(s) / 60;
    if hours < 10 {
        seq!["⏰ 建议增加学习时间，Rust 需要持续的练习才能掌握。"@]
    } else if hours > 100 {
        seq!["💪 您已经投入了大量时间学习，坚持下去一定会取得成功！"@]
    } else {
        Seq::empty()
    }
}

/// The fixed tip for the current stage.
pub open spec fn stage_tip(st: LearningStage) -> Seq<char> {
    match st {
        LearningStage::Stage1Basics => "🔧 重点掌握 Rust 的基础语法和开发环境配置。"@,
        LearningStage::Stage2Ownership => "🔑 所有权系统是 Rust 的核心，建议多做练习加深理解。"@,
        LearningStage::Stage3AdvancedConcepts => "🎨 学习如何使用 Rust 的高级特性构建更复杂的程序。"@,
        LearningStage::Stage4Ecosystem => "🌐 了解 Rust 生态系统，学习使用常用的第三方库。"@,
        LearningStage::Stage5Projects => "💼 通过实际项目来综合运用所学知识，提升实战能力。"@,
    }
}

/// The full advisory list: progress band, score band (when scored units
/// exist and the average is extreme), hours band (when extreme), stage tip.
pub open spec fn spec_suggestions(s: Seq<LearningUnit>) -> Seq<Seq<char>> {
    seq![progress_band_msg(spec_overall_progress(s))] + score_band(s) + hours_band(s) + seq![
        stage_tip(spec_current_stage(s)),
    ]
}

impl ProgressTracker {
    /// Generates the ordered advisory lines for the tracker's present state.
    pub fn get_personalized_suggestions(&self) -> (r: Vec<String>)
        ensures
            r@.map_values(|x: String| x@) == spec_suggestions(self.learning_units@),
    {
        let units = &self.learning_units;
        let mut out: Vec<String> = Vec::new();

        let n = units.len();
        proof {
            assert(units@.len() == n);
        }
        let (tw, cw) = stats::weight_sums(units);
        let progress: u128 = if tw > 0 {
            proof {
                lemma_div_is_ordered(cw as int * 10000, tw as int * 10000, tw as int);
                lemma_div_multiples_vanish(10000, tw as int);
                vstd::arithmetic::div_mod::lemma_div_pos_is_pos(cw as int * 10000, tw as int);
            }
            (cw * 10000) / tw
        } else {
            0
        };
        if progress < 2000 {
            out.push("🎯 刚开始学习 Rust，建议从基础语法开始，每天保持 30-60 分钟的学习时间。".to_owned());
        } else if progress < 5000 {
            out.push("📈 学习进展良好！建议继续深入理解所有权系统，这是 Rust 的核心概念。".to_owned());
        } else if progress < 8000 {
            out.push("🚀 已经掌握了 Rust 的基础知识，可以开始尝试一些实际项目来巩固所学内容。".to_owned());
        } else {
            out.push("🏆 恭喜！您已经完成了大部分学习内容，建议开始贡献开源项目或开发个人项目。".to_owned());
        }

        let (ssum, scount) = achieve::count_scored(units);
        if scount > 0 {
            let avg: u128 = (ssum * 100) / (scount as u128);
            if avg < 7000 {
                out.push("📚 建议多复习之前的内容，确保对基础概念有深入理解。".to_owned());
            } else if avg >= 9000 {
                out.push("⭐ 您的学习成绩非常优秀！可以考虑挑战更高级的内容或帮助他人学习。".to_owned());
            }
        }

        let cm = achieve::sum_completed_minutes(units);
        let hours: u128 = cm / 60;
        if hours < 10 {
            out.push("⏰ 建议增加学习时间，Rust 需要持续的练习才能掌握。".to_owned());
        } else if hours > 100 {
            out.push("💪 您已经投入了大量时间学习，坚持下去一定会取得成功！".to_owned());
        }

        let cur = stats::compute_current_stage(units);
        match cur {
            LearningStage::Stage1Basics => {
                out.push("🔧 重点掌握 Rust 的基础语法和开发环境配置。".to_owned());
            },
            LearningStage::Stage2Ownership => {
                out.push("🔑 所有权系统是 Rust 的核心，建议多做练习加深理解。".to_owned());
            },
            LearningStage::Stage3AdvancedConcepts => {
                out.push("🎨 学习如何使用 Rust 的高级特性构建更复杂的程序。".to_owned());
            },
            LearningStage::Stage4Ecosystem => {
                out.push("🌐 了解 Rust 生态系统，学习使用常用的第三方库。".to_owned());
            },
            LearningStage::Stage5Projects => {
                out.push("💼 通过实际项目来综合运用所学知识，提升实战能力。".to_owned());
            },
        }

        proof {
            assert(out@.map_values(|x: String| x@) =~= spec_suggestions(self.learning_units@));
        }
        out
    }
}

} // verus!
