use progress_tracker::domain::{
    LearningStage, LearningUnit, LearningUnitStatus, LearningUnitType, ProgressTracker,
};

#[test]
fn test_progress_tracker() {
    let mut tracker = ProgressTracker::new("test-learner".to_string(), "测试学习者".to_string());
    assert_eq!(tracker.learning_units.len(), 3);
    assert_eq!(tracker.achievements.len(), 4);

    let stats = tracker.get_progress_stats();
    assert_eq!(stats.total_units, 3);
    assert_eq!(stats.completed_units, 0);
    assert_eq!(stats.overall_progress, 0);

    if let Some(unit) = tracker.get_unit_mut("stage1-environment") {
        unit.start();
        unit.complete(Some(90));
    }

    let stats = tracker.get_progress_stats();
    assert_eq!(stats.completed_units, 1);
    assert!(stats.overall_progress > 0);
}

#[test]
fn test_update_progress() {
    let mut tracker = ProgressTracker::new("test-learner".to_string(), "测试学习者".to_string());

    if let Some(unit) = tracker.get_unit_mut("stage1-environment") {
        unit.start();
        assert_eq!(unit.status, LearningUnitStatus::InProgress);

        unit.complete(Some(85));
        assert_eq!(unit.status, LearningUnitStatus::Completed);
        assert_eq!(unit.score, Some(85));
    }

    let stats = tracker.get_progress_stats();
    assert_eq!(stats.completed_units, 1);
    assert!(stats.overall_progress > 0);
}

#[test]
fn test_progress_calculation() {
    let mut tracker = ProgressTracker::new("test-learner".to_string(), "测试学习者".to_string());

    let initial_stats = tracker.get_progress_stats();
    assert_eq!(initial_stats.overall_progress, 0);
    assert_eq!(initial_stats.completed_units, 0);

    let mut completed_weight: u64 = 0;
    let total_weight: u64 = tracker
        .learning_units
        .iter()
        .map(|u| u.unit_type.weight() as u64)
        .sum();

    if let Some(unit) = tracker.get_unit_mut("stage1-environment") {
        let weight = unit.unit_type.weight() as u64;
        unit.complete(Some(90));
        completed_weight += weight;
    }

    let stats = tracker.get_progress_stats();
    let expected_progress = (completed_weight * 10000 / total_weight) as u32;
    assert_eq!(stats.overall_progress, expected_progress);
    assert_eq!(stats.completed_units, 1);
}

#[test]
fn test_weighted_progress_scenario() {
    // three units: two readings (weight 15 each) and one code example
    // (weight 25); total weight 55
    let mut tracker = ProgressTracker::new("t".to_string(), "学习者".to_string());
    assert_eq!(
        tracker.get_unit("stage1-environment").unwrap().unit_type,
        LearningUnitType::ContentReading
    );
    assert_eq!(
        tracker.get_unit("stage1-syntax").unwrap().unit_type,
        LearningUnitType::ContentReading
    );
    assert_eq!(
        tracker.get_unit("stage1-syntax-demo").unwrap().unit_type,
        LearningUnitType::CodeExample
    );

    // completing only the first: 15 / 55 = 27.27%
    assert!(tracker.complete_unit("stage1-environment", None));
    assert_eq!(tracker.get_progress_stats().overall_progress, 2727);

    // completing the second as well: 30 / 55 = 54.54%
    assert!(tracker.complete_unit("stage1-syntax", None));
    assert_eq!(tracker.get_progress_stats().overall_progress, 5454);

    // completing all three: 100%
    assert!(tracker.complete_unit("stage1-syntax-demo", None));
    assert_eq!(tracker.get_progress_stats().overall_progress, 10000);
}

#[test]
fn test_completion_never_decreases_progress() {
    let mut tracker = ProgressTracker::new("t".to_string(), "学习者".to_string());
    tracker.add_unit(LearningUnit::new(
        "extra-exercise".to_string(),
        "附加练习".to_string(),
        LearningUnitType::Exercise,
        LearningStage::Stage2Ownership,
        "exercises/extra".to_string(),
        90,
    ));

    let ids = [
        "stage1-syntax-demo",
        "extra-exercise",
        "stage1-environment",
        "stage1-syntax",
    ];
    let mut last = tracker.get_progress_stats().overall_progress;
    for id in ids {
        assert!(tracker.complete_unit(id, None));
        let now = tracker.get_progress_stats().overall_progress;
        assert!(now >= last);
        last = now;
    }
    assert_eq!(last, 10000);
}

#[test]
fn test_average_score() {
    let mut tracker = ProgressTracker::new("t".to_string(), "学习者".to_string());
    assert_eq!(tracker.get_progress_stats().average_score, None);

    assert!(tracker.complete_unit("stage1-environment", Some(80)));
    assert!(tracker.complete_unit("stage1-syntax", Some(91)));
    // a skipped unit contributes no score
    assert!(tracker.skip_unit("stage1-syntax-demo"));

    let stats = tracker.get_progress_stats();
    // mean of 80 and 91 in hundredths of a point
    assert_eq!(stats.average_score, Some(8550));
    assert_eq!(stats.skipped_units, 1);
}

#[test]
fn test_time_sums() {
    let mut tracker = ProgressTracker::new("t".to_string(), "学习者".to_string());
    let stats = tracker.get_progress_stats();
    assert_eq!(stats.total_time_minutes, 225);
    assert_eq!(stats.completed_time_minutes, 0);

    assert!(tracker.complete_unit("stage1-syntax", None));
    let stats = tracker.get_progress_stats();
    assert_eq!(stats.total_time_minutes, 225);
    assert_eq!(stats.completed_time_minutes, 120);
}

#[test]
fn test_stage_progress_table() {
    let mut tracker = ProgressTracker::new("t".to_string(), "学习者".to_string());
    let stats = tracker.get_progress_stats();
    // only the first stage has units, so it is the only row
    assert_eq!(stats.stage_progress.len(), 1);
    assert_eq!(stats.stage_progress[0].stage, LearningStage::Stage1Basics);
    assert_eq!(stats.stage_progress[0].percent_hundredths, 0);
    assert_eq!(stats.current_stage, LearningStage::Stage1Basics);

    assert!(tracker.complete_unit("stage1-environment", None));
    let stats = tracker.get_progress_stats();
    // one of three stage-one units done: 33.33%
    assert_eq!(stats.stage_progress[0].percent_hundredths, 3333);

    tracker.add_unit(LearningUnit::new(
        "own-1".to_string(),
        "所有权练习".to_string(),
        LearningUnitType::Exercise,
        LearningStage::Stage2Ownership,
        "exercises/own-1".to_string(),
        45,
    ));
    let stats = tracker.get_progress_stats();
    assert_eq!(stats.stage_progress.len(), 2);
    assert_eq!(stats.stage_progress[1].stage, LearningStage::Stage2Ownership);
    assert_eq!(stats.current_stage, LearningStage::Stage1Basics);

    // finishing stage one moves the current stage forward
    assert!(tracker.complete_unit("stage1-syntax", None));
    assert!(tracker.complete_unit("stage1-syntax-demo", None));
    let stats = tracker.get_progress_stats();
    assert_eq!(stats.current_stage, LearningStage::Stage2Ownership);

    // when every stage is done, the last stage is current
    assert!(tracker.complete_unit("own-1", None));
    let stats = tracker.get_progress_stats();
    assert_eq!(stats.current_stage, LearningStage::Stage5Projects);
}
