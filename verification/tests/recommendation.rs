use progress_tracker::domain::{
    LearningStage, LearningUnit, LearningUnitType, ProgressTracker,
};

#[test]
fn test_recommendation_for_fresh_tracker() {
    let tracker = ProgressTracker::new("t".to_string(), "学习者".to_string());
    let rec = tracker.get_learning_path_recommendation();
    assert_eq!(rec.recommended_stage, LearningStage::Stage1Basics);
    assert_eq!(rec.next_units.len(), 3);
    // the heavier-weighted code example ranks before the two readings
    assert_eq!(rec.next_units[0].id, "stage1-syntax-demo");
    assert_eq!(rec.next_units[1].id, "stage1-environment");
    assert_eq!(rec.next_units[2].id, "stage1-syntax");
    assert_eq!(rec.estimated_time_minutes, 225);
    // nothing is completed yet: zero confidence even with candidates
    assert_eq!(rec.confidence_score, 0);
    assert!(!rec.reasoning.is_empty());
}

#[test]
fn test_recommendation_ranking() {
    let mut tracker = ProgressTracker::new("t".to_string(), "学习者".to_string());
    // an in-progress unit of a heavy kind still ranks behind every
    // not-yet-started one
    assert!(tracker.start_unit("stage1-syntax-demo"));
    let rec = tracker.get_learning_path_recommendation();
    assert_eq!(rec.next_units[0].id, "stage1-environment");
    assert_eq!(rec.next_units[1].id, "stage1-syntax");
    assert_eq!(rec.next_units[2].id, "stage1-syntax-demo");
}

#[test]
fn test_recommendation_cap() {
    let mut tracker = ProgressTracker::new("t".to_string(), "学习者".to_string());
    for i in 0..7 {
        tracker.add_unit(LearningUnit::new(
            format!("drill-{}", i),
            format!("练习 {}", i),
            LearningUnitType::Exercise,
            LearningStage::Stage1Basics,
            format!("exercises/drill-{}", i),
            25,
        ));
    }
    let rec = tracker.get_learning_path_recommendation();
    // at most five units are proposed, the exercises (weight 30) first,
    // in their original order
    assert_eq!(rec.next_units.len(), 5);
    assert_eq!(rec.next_units[0].id, "drill-0");
    assert_eq!(rec.next_units[4].id, "drill-4");
    assert_eq!(rec.estimated_time_minutes, 5 * 25);
}

#[test]
fn test_recommendation_when_stage_exhausted() {
    // every unit of the current stage completed or skipped: an empty,
    // zero-confidence proposal
    let mut tracker = ProgressTracker::new("t".to_string(), "学习者".to_string());
    assert!(tracker.complete_unit("stage1-environment", None));
    assert!(tracker.skip_unit("stage1-syntax"));
    assert!(tracker.skip_unit("stage1-syntax-demo"));
    let rec = tracker.get_learning_path_recommendation();
    assert_eq!(rec.next_units.len(), 0);
    assert_eq!(rec.confidence_score, 0);
    assert_eq!(rec.estimated_time_minutes, 0);
    assert_eq!(
        rec.reasoning,
        "恭喜！您已完成所有学习单元。建议复习或开始实际项目练习。"
    );
}

#[test]
fn test_recommendation_fully_completed() {
    let mut tracker = ProgressTracker::new("t".to_string(), "学习者".to_string());
    assert!(tracker.complete_unit("stage1-environment", None));
    assert!(tracker.complete_unit("stage1-syntax", None));
    assert!(tracker.complete_unit("stage1-syntax-demo", None));
    let rec = tracker.get_learning_path_recommendation();
    assert_eq!(rec.next_units.len(), 0);
    assert_eq!(rec.confidence_score, 0);
    assert_eq!(rec.recommended_stage, LearningStage::Stage5Projects);
}

#[test]
fn test_recommendation_confidence() {
    let mut tracker = ProgressTracker::new("t".to_string(), "学习者".to_string());
    assert!(tracker.complete_unit("stage1-environment", None));
    let rec = tracker.get_learning_path_recommendation();
    // completion ratio 1/3, stage completion 1/3: mean is a third
    assert_eq!(rec.confidence_score, 3333);
    assert!(rec.confidence_score <= 10000);
}

#[test]
fn test_suggestions_fresh_tracker() {
    let tracker = ProgressTracker::new("t".to_string(), "学习者".to_string());
    let suggestions = tracker.get_personalized_suggestions();
    assert_eq!(
        suggestions,
        vec![
            "🎯 刚开始学习 Rust，建议从基础语法开始，每天保持 30-60 分钟的学习时间。".to_string(),
            "⏰ 建议增加学习时间，Rust 需要持续的练习才能掌握。".to_string(),
            "🔧 重点掌握 Rust 的基础语法和开发环境配置。".to_string(),
        ]
    );
}

#[test]
fn test_suggestions_score_bands() {
    let mut tracker = ProgressTracker::new("t".to_string(), "学习者".to_string());
    assert!(tracker.complete_unit("stage1-environment", Some(60)));
    let low = tracker.get_personalized_suggestions();
    assert!(low.contains(&"📚 建议多复习之前的内容，确保对基础概念有深入理解。".to_string()));

    let mut tracker = ProgressTracker::new("t".to_string(), "学习者".to_string());
    assert!(tracker.complete_unit("stage1-environment", Some(95)));
    let high = tracker.get_personalized_suggestions();
    assert!(high.contains(
        &"⭐ 您的学习成绩非常优秀！可以考虑挑战更高级的内容或帮助他人学习。".to_string()
    ));

    let mut tracker = ProgressTracker::new("t".to_string(), "学习者".to_string());
    assert!(tracker.complete_unit("stage1-environment", Some(80)));
    let mid = tracker.get_personalized_suggestions();
    assert!(!mid.iter().any(|s| s.starts_with("📚") || s.starts_with("⭐")));
}

#[test]
fn test_suggestions_progress_bands() {
    let mut tracker = ProgressTracker::new("t".to_string(), "学习者".to_string());
    // 15/55 = 27.3%: the second band
    assert!(tracker.complete_unit("stage1-environment", None));
    let s = tracker.get_personalized_suggestions();
    assert!(s[0].starts_with("📈"));

    // 40/55 = 72.7%: the third band
    assert!(tracker.complete_unit("stage1-syntax-demo", None));
    let s = tracker.get_personalized_suggestions();
    assert!(s[0].starts_with("🚀"));

    // 100%: the final band
    assert!(tracker.complete_unit("stage1-syntax", None));
    let s = tracker.get_personalized_suggestions();
    assert!(s[0].starts_with("🏆"));
}

#[test]
fn test_suggestions_stage_tip_follows_stage() {
    let mut tracker = ProgressTracker::new("t".to_string(), "学习者".to_string());
    tracker.add_unit(LearningUnit::new(
        "own-1".to_string(),
        "所有权".to_string(),
        LearningUnitType::Exercise,
        LearningStage::Stage2Ownership,
        "exercises/own-1".to_string(),
        45,
    ));
    assert!(tracker.complete_unit("stage1-environment", None));
    assert!(tracker.complete_unit("stage1-syntax", None));
    assert!(tracker.complete_unit("stage1-syntax-demo", None));
    let s = tracker.get_personalized_suggestions();
    assert_eq!(
        s.last().unwrap(),
        "🔑 所有权系统是 Rust 的核心，建议多做练习加深理解。"
    );
}
