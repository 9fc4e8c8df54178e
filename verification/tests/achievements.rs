use progress_tracker::domain::{
    Achievement, AchievementCondition, AchievementRarity, LearningStage, LearningUnit,
    LearningUnitType, ProgressTracker,
};

#[test]
fn test_achievement_system() {
    let mut tracker = ProgressTracker::new("test-learner".to_string(), "测试学习者".to_string());

    let initial_unlocked = tracker
        .achievements
        .iter()
        .filter(|a| a.unlocked_at.is_some())
        .count();
    assert_eq!(initial_unlocked, 0);

    if let Some(unit) = tracker.get_unit_mut("stage1-environment") {
        unit.complete(Some(85));
    }

    let newly_unlocked = tracker.check_achievements();
    assert_eq!(newly_unlocked.len(), 1);
    assert_eq!(newly_unlocked[0], "first_steps");

    let first_steps = tracker
        .achievements
        .iter()
        .find(|a| a.id == "first_steps")
        .unwrap();
    assert!(first_steps.unlocked_at.is_some());
}

#[test]
fn test_first_completion_unlocks_once() {
    let mut tracker = ProgressTracker::new("t".to_string(), "学习者".to_string());

    assert!(tracker.complete_unit("stage1-environment", None));
    let first = tracker.check_achievements();
    assert!(first.contains(&"first_steps".to_string()));

    // a second completion does not re-unlock the already granted one
    assert!(tracker.complete_unit("stage1-syntax", None));
    let second = tracker.check_achievements();
    assert!(!second.contains(&"first_steps".to_string()));
}

#[test]
fn test_evaluation_is_idempotent() {
    let mut tracker = ProgressTracker::new("t".to_string(), "学习者".to_string());
    assert!(tracker.complete_unit("stage1-environment", Some(95)));

    let first = tracker.check_achievements();
    assert!(!first.is_empty());
    // no unit was touched in between: the second call unlocks nothing
    let second = tracker.check_achievements();
    assert!(second.is_empty());
}

#[test]
fn test_unlock_is_monotonic() {
    let mut tracker = ProgressTracker::new("t".to_string(), "学习者".to_string());
    assert!(tracker.complete_unit("stage1-environment", None));
    tracker.check_achievements();
    let stamp = tracker
        .achievements
        .iter()
        .find(|a| a.id == "first_steps")
        .unwrap()
        .unlocked_at;
    assert!(stamp.is_some());

    // later mutations and evaluations never clear or change the stamp
    tracker.add_unit(LearningUnit::new(
        "later".to_string(),
        "后来添加".to_string(),
        LearningUnitType::Project,
        LearningStage::Stage5Projects,
        "projects/later".to_string(),
        600,
    ));
    assert!(tracker.complete_unit("later", None));
    tracker.check_achievements();
    let stamp_after = tracker
        .achievements
        .iter()
        .find(|a| a.id == "first_steps")
        .unwrap()
        .unlocked_at;
    assert_eq!(stamp_after, stamp);
}

#[test]
fn test_stage_completion_achievement() {
    let mut tracker = ProgressTracker::new("t".to_string(), "学习者".to_string());
    assert!(tracker.complete_unit("stage1-environment", None));
    assert!(tracker.complete_unit("stage1-syntax", None));
    let mid = tracker.check_achievements();
    assert!(!mid.contains(&"stage1_master".to_string()));

    assert!(tracker.complete_unit("stage1-syntax-demo", None));
    let done = tracker.check_achievements();
    assert!(done.contains(&"stage1_master".to_string()));
}

#[test]
fn test_score_average_achievement() {
    let mut tracker = ProgressTracker::new("t".to_string(), "学习者".to_string());
    // perfect_student asks for an average of at least 90 over at least
    // five scored completions
    for i in 0..5 {
        tracker.add_unit(LearningUnit::new(
            format!("exercise-{}", i),
            format!("练习 {}", i),
            LearningUnitType::Exercise,
            LearningStage::Stage1Basics,
            format!("exercises/{}", i),
            30,
        ));
    }
    for i in 0..4 {
        assert!(tracker.complete_unit(&format!("exercise-{}", i), Some(92)));
    }
    // four scored completions are not enough, whatever the average
    let early = tracker.check_achievements();
    assert!(!early.contains(&"perfect_student".to_string()));

    // the fifth brings the average to exactly 90: unlocked
    assert!(tracker.complete_unit("exercise-4", Some(82)));
    let late = tracker.check_achievements();
    assert!(late.contains(&"perfect_student".to_string()));
}

#[test]
fn test_score_average_below_threshold() {
    let mut tracker = ProgressTracker::new("t".to_string(), "学习者".to_string());
    for i in 0..5 {
        tracker.add_unit(LearningUnit::new(
            format!("ex-{}", i),
            format!("练习 {}", i),
            LearningUnitType::Exercise,
            LearningStage::Stage1Basics,
            format!("exercises/{}", i),
            30,
        ));
        assert!(tracker.complete_unit(&format!("ex-{}", i), Some(89)));
    }
    let unlocked = tracker.check_achievements();
    assert!(!unlocked.contains(&"perfect_student".to_string()));
}

#[test]
fn test_streak_days_condition() {
    let mut tracker = ProgressTracker::new("t".to_string(), "学习者".to_string());
    tracker.achievements.push(Achievement {
        id: "weekly_streak".to_string(),
        name: "坚持一周".to_string(),
        description: "最近7天内完成3个学习单元".to_string(),
        icon: "🔥".to_string(),
        condition: AchievementCondition::StreakDays { days: 7 },
        unlocked_at: None,
        rarity: AchievementRarity::Rare,
    });

    let now: i64 = 1_700_000_000;
    // two recent completions and one stale one: not enough
    tracker.learning_units[0].status =
        progress_tracker::domain::LearningUnitStatus::Completed;
    tracker.learning_units[0].completed_at = Some(now - 86_400);
    tracker.learning_units[1].status =
        progress_tracker::domain::LearningUnitStatus::Completed;
    tracker.learning_units[1].completed_at = Some(now - 2 * 86_400);
    tracker.learning_units[2].status =
        progress_tracker::domain::LearningUnitStatus::Completed;
    tracker.learning_units[2].completed_at = Some(now - 30 * 86_400);
    let unlocked = tracker.check_achievements_at(now);
    assert!(!unlocked.contains(&"weekly_streak".to_string()));

    // the third completion moves within the window: unlocked
    tracker.learning_units[2].completed_at = Some(now - 3 * 86_400);
    let unlocked = tracker.check_achievements_at(now);
    assert!(unlocked.contains(&"weekly_streak".to_string()));
}

#[test]
fn test_total_time_condition() {
    let mut tracker = ProgressTracker::new("t".to_string(), "学习者".to_string());
    tracker.achievements.push(Achievement {
        id: "three_hours".to_string(),
        name: "三小时".to_string(),
        description: "累计完成3小时的学习内容".to_string(),
        icon: "⏳".to_string(),
        condition: AchievementCondition::TotalTime { hours: 3 },
        unlocked_at: None,
        rarity: AchievementRarity::Common,
    });

    // 60 + 120 minutes completed: exactly 3 hours
    assert!(tracker.complete_unit("stage1-environment", None));
    let now: i64 = 1_700_000_000;
    let unlocked = tracker.check_achievements_at(now);
    assert!(!unlocked.contains(&"three_hours".to_string()));

    assert!(tracker.complete_unit("stage1-syntax", None));
    let unlocked = tracker.check_achievements_at(now + 1);
    assert!(unlocked.contains(&"three_hours".to_string()));
}

#[test]
fn test_typed_completion_achievement() {
    let mut tracker = ProgressTracker::new("t".to_string(), "学习者".to_string());
    // code_warrior wants ten completed code examples; readings do not count
    for i in 0..9 {
        tracker.add_unit(LearningUnit::new(
            format!("demo-{}", i),
            format!("示例 {}", i),
            LearningUnitType::CodeExample,
            LearningStage::Stage1Basics,
            format!("examples/{}", i),
            20,
        ));
        assert!(tracker.complete_unit(&format!("demo-{}", i), None));
    }
    assert!(tracker.complete_unit("stage1-environment", None));
    let unlocked = tracker.check_achievements();
    assert!(!unlocked.contains(&"code_warrior".to_string()));

    // the tenth code example unlocks it
    assert!(tracker.complete_unit("stage1-syntax-demo", None));
    let unlocked = tracker.check_achievements();
    assert!(unlocked.contains(&"code_warrior".to_string()));
}

#[test]
fn test_rarity_names_and_colors() {
    assert_eq!(AchievementRarity::Common.name(), "普通");
    assert_eq!(AchievementRarity::Rare.name(), "稀有");
    assert_eq!(AchievementRarity::Epic.name(), "史诗");
    assert_eq!(AchievementRarity::Legendary.name(), "传说");
    assert_eq!(AchievementRarity::Common.color(), "#9CA3AF");
    assert_eq!(AchievementRarity::Rare.color(), "#3B82F6");
    assert_eq!(AchievementRarity::Epic.color(), "#8B5CF6");
    assert_eq!(AchievementRarity::Legendary.color(), "#F59E0B");
}
