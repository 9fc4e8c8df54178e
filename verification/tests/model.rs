use progress_tracker::domain::{
    LearningStage, LearningUnit, LearningUnitStatus, LearningUnitType, ProgressTracker,
};
use progress_tracker::dashboard::DashboardConfig;

#[test]
fn test_learning_stage() {
    let stages = LearningStage::all_stages();
    assert_eq!(stages.len(), 5);
    assert_eq!(LearningStage::Stage1Basics.name(), "阶段1: 基础入门");
    assert_eq!(LearningStage::Stage1Basics.estimated_weeks(), 3);
}

#[test]
fn test_learning_stages() {
    let stages = LearningStage::all_stages();
    assert_eq!(stages.len(), 5);

    for stage in &stages {
        assert!(!stage.name().is_empty());
        assert!(!stage.description().is_empty());
        assert!(stage.estimated_weeks() > 0);
    }

    assert_eq!(LearningStage::Stage1Basics.name(), "阶段1: 基础入门");
    assert_eq!(LearningStage::Stage2Ownership.name(), "阶段2: 所有权系统");
    assert_eq!(LearningStage::Stage3AdvancedConcepts.name(), "阶段3: 高级概念");
    assert_eq!(LearningStage::Stage4Ecosystem.name(), "阶段4: 生态系统");
    assert_eq!(LearningStage::Stage5Projects.name(), "阶段5: 项目实战");
}

#[test]
fn test_learning_unit() {
    let mut unit = LearningUnit::new(
        "test-unit".to_string(),
        "测试单元".to_string(),
        LearningUnitType::ContentReading,
        LearningStage::Stage1Basics,
        "test/path".to_string(),
        60,
    );

    assert_eq!(unit.status, LearningUnitStatus::NotStarted);
    unit.start();
    assert_eq!(unit.status, LearningUnitStatus::InProgress);
    unit.complete(Some(85));
    assert_eq!(unit.status, LearningUnitStatus::Completed);
    assert_eq!(unit.score, Some(85));
}

#[test]
fn test_learning_unit_types() {
    let unit_types = vec![
        LearningUnitType::ContentReading,
        LearningUnitType::CodeExample,
        LearningUnitType::Exercise,
        LearningUnitType::Project,
        LearningUnitType::Assessment,
    ];

    for unit_type in &unit_types {
        assert!(!unit_type.name().is_empty());
        assert!(unit_type.weight() > 0);
    }

    // the weights, in hundredths, sum to exactly one whole
    let total_weight: u32 = unit_types.iter().map(|t| t.weight()).sum();
    assert_eq!(total_weight, 100);
}

#[test]
fn test_unit_type_weights_exact() {
    assert_eq!(LearningUnitType::ContentReading.weight(), 15);
    assert_eq!(LearningUnitType::CodeExample.weight(), 25);
    assert_eq!(LearningUnitType::Exercise.weight(), 30);
    assert_eq!(LearningUnitType::Project.weight(), 20);
    assert_eq!(LearningUnitType::Assessment.weight(), 10);
}

#[test]
fn test_dashboard_config() {
    let config = DashboardConfig::default();
    assert!(config.show_progress_bars);
    assert!(config.show_stage_breakdown);
    assert!(config.show_achievements);
    assert!(config.show_recommendations);
    assert!(config.show_suggestions);
    assert_eq!(config.max_recommendations, 5);

    let theme = &config.theme;
    assert!(!theme.primary_color.is_empty());
    assert!(!theme.success_color.is_empty());
    assert!(!theme.warning_color.is_empty());
    assert!(!theme.danger_color.is_empty());
    assert!(!theme.info_color.is_empty());
    assert!(!theme.text_color.is_empty());
    assert!(!theme.background_color.is_empty());
}

#[test]
fn test_error_handling() {
    let tracker = ProgressTracker::new("test-learner".to_string(), "测试学习者".to_string());
    let non_existent_unit = tracker.get_unit("non-existent-unit");
    assert!(non_existent_unit.is_none());
}

#[test]
fn test_status_names() {
    assert_eq!(LearningUnitStatus::NotStarted.name(), "未开始");
    assert_eq!(LearningUnitStatus::InProgress.name(), "进行中");
    assert_eq!(LearningUnitStatus::Completed.name(), "已完成");
    assert_eq!(LearningUnitStatus::Skipped.name(), "已跳过");
    assert!(LearningUnitStatus::Completed.is_completed());
    assert!(!LearningUnitStatus::Skipped.is_completed());
}

#[test]
fn test_out_of_range_score_is_dropped() {
    let mut unit = LearningUnit::new(
        "u".to_string(),
        "单元".to_string(),
        LearningUnitType::Exercise,
        LearningStage::Stage1Basics,
        "p".to_string(),
        30,
    );
    unit.complete(Some(101));
    assert_eq!(unit.status, LearningUnitStatus::Completed);
    assert_eq!(unit.score, None);
}

#[test]
fn test_actual_time_minutes() {
    let mut unit = LearningUnit::new(
        "u".to_string(),
        "单元".to_string(),
        LearningUnitType::Exercise,
        LearningStage::Stage1Basics,
        "p".to_string(),
        30,
    );
    assert_eq!(unit.actual_time_minutes(), None);
    unit.started_at = Some(1000);
    unit.completed_at = Some(1000 + 3600);
    assert_eq!(unit.actual_time_minutes(), Some(60));
    unit.completed_at = Some(500);
    assert_eq!(unit.actual_time_minutes(), None);
}

#[test]
fn test_terminal_states_are_final() {
    let mut tracker = ProgressTracker::new("t".to_string(), "学习者".to_string());
    assert!(tracker.complete_unit("stage1-environment", Some(80)));
    // a completed unit can neither be restarted, re-completed nor skipped
    assert!(!tracker.start_unit("stage1-environment"));
    assert!(!tracker.complete_unit("stage1-environment", Some(90)));
    assert!(!tracker.skip_unit("stage1-environment"));
    let unit = tracker.get_unit("stage1-environment").unwrap();
    assert_eq!(unit.status, LearningUnitStatus::Completed);
    assert_eq!(unit.score, Some(80));

    assert!(tracker.skip_unit("stage1-syntax"));
    assert!(!tracker.start_unit("stage1-syntax"));
    assert!(!tracker.complete_unit("stage1-syntax", None));
}

#[test]
fn test_get_unit_mut() {
    let mut tracker = ProgressTracker::new("t".to_string(), "学习者".to_string());
    assert!(tracker.get_unit_mut("missing").is_none());
    if let Some(unit) = tracker.get_unit_mut("stage1-environment") {
        unit.start();
    }
    assert_eq!(
        tracker.get_unit("stage1-environment").unwrap().status,
        LearningUnitStatus::InProgress
    );
}

#[test]
fn test_completion_stamps_wall_clock() {
    // the clock wrapper must hand back the present moment, not its input
    let mut tracker = ProgressTracker::new("t".to_string(), "学习者".to_string());
    assert!(tracker.complete_unit("stage1-environment", None));
    let unit = tracker.get_unit("stage1-environment").unwrap();
    let ts = unit.completed_at.expect("completion must be stamped");
    // well after 2020-01-01 and within chrono's range
    assert!(ts > 1_577_836_800);
    assert!(ts <= 8_210_266_876_799);
}
