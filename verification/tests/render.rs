use progress_tracker::dashboard::{generate_html_dashboard, DashboardConfig, DashboardRenderer};
use progress_tracker::domain::ProgressTracker;

#[test]
fn test_dashboard_renderer() {
    let tracker = ProgressTracker::new("test-learner".to_string(), "测试学习者".to_string());
    let config = DashboardConfig::default();
    let renderer = DashboardRenderer::new(config);

    let dashboard = renderer.render(&tracker);

    assert!(dashboard.contains("Rust 学习进度跟踪系统"));
    assert!(dashboard.contains("测试学习者"));
    assert!(dashboard.contains("总体学习进度"));
    assert!(dashboard.contains("✨ 已解锁成就") || dashboard.contains("🏆 成就系统"));
    assert!(dashboard.contains("学习路径推荐"));
    assert!(dashboard.contains("个性化学习建议"));
}

#[test]
fn test_html_dashboard_generation() {
    let tracker = ProgressTracker::new("test-learner".to_string(), "测试学习者".to_string());

    let html = generate_html_dashboard(&tracker, &DashboardConfig::default());

    assert!(html.contains("<!DOCTYPE html>"));
    assert!(html.contains("Rust 学习进度跟踪系统"));
    assert!(html.contains("测试学习者"));
    assert!(html.contains("progress-fill"));
    assert!(html.contains("achievement-grid"));
    assert!(html.contains("recommendation-list"));
}

#[test]
fn test_timestamp_formatting_in_header() {
    let mut tracker = ProgressTracker::new("t".to_string(), "学习者".to_string());
    tracker.last_updated = 0;
    let renderer = DashboardRenderer::new(DashboardConfig::default());
    let out = renderer.render(&tracker);
    assert!(out.contains("📅 最后更新: 1970-01-01 00:00:00 UTC"));

    tracker.last_updated = 1431648000;
    let out = renderer.render(&tracker);
    assert!(out.contains("📅 最后更新: 2015-05-15 00:00:00 UTC"));
}

#[test]
fn test_progress_bar_rendering() {
    let mut tracker = ProgressTracker::new("t".to_string(), "学习者".to_string());
    assert!(tracker.complete_unit("stage1-environment", None));
    let renderer = DashboardRenderer::new(DashboardConfig::default());
    let out = renderer.render(&tracker);
    // 15/55 of the weight done: 27.27%, shown rounded to one decimal, and
    // round(0.2727 * 40) = 11 filled cells of 40
    assert!(out.contains("27.3%"));
    let bar: String = "█".repeat(11) + &"░".repeat(29);
    assert!(out.contains(&bar));
}

#[test]
fn test_text_section_toggle_removes_exactly_that_section() {
    let mut tracker = ProgressTracker::new("t".to_string(), "学习者".to_string());
    assert!(tracker.complete_unit("stage1-environment", Some(88)));
    tracker.check_achievements();

    let on = DashboardRenderer::new(DashboardConfig::default()).render(&tracker);

    let mut config_off = DashboardConfig::default();
    config_off.show_achievements = false;
    let off = DashboardRenderer::new(config_off).render(&tracker);

    // the achievements section spans from its heading to the next one
    let start = on.find("\n🏆 成就系统").unwrap();
    let end = on.find("\n🎯 学习路径推荐").unwrap();
    assert!(start < end);
    let expected = format!("{}{}", &on[..start], &on[end..]);
    assert_eq!(off, expected);
}

#[test]
fn test_text_toggle_each_section_shrinks_output() {
    let tracker = ProgressTracker::new("t".to_string(), "学习者".to_string());
    let full = DashboardRenderer::new(DashboardConfig::default()).render(&tracker);
    let markers = [
        "📊 总体学习进度",
        "📋 各阶段学习进度",
        "🏆 成就系统",
        "🎯 学习路径推荐",
        "💡 个性化学习建议",
    ];
    for (i, marker) in markers.iter().enumerate() {
        let mut c = DashboardConfig::default();
        match i {
            0 => c.show_progress_bars = false,
            1 => c.show_stage_breakdown = false,
            2 => c.show_achievements = false,
            3 => c.show_recommendations = false,
            _ => c.show_suggestions = false,
        }
        let out = DashboardRenderer::new(c).render(&tracker);
        assert!(full.contains(marker));
        assert!(!out.contains(marker));
        // all other sections stay
        for (j, other) in markers.iter().enumerate() {
            if j != i {
                assert!(out.contains(other));
            }
        }
    }
}

#[test]
fn test_html_section_toggle_removes_exactly_that_section() {
    let mut tracker = ProgressTracker::new("t".to_string(), "学习者".to_string());
    assert!(tracker.complete_unit("stage1-syntax", Some(77)));

    let on = generate_html_dashboard(&tracker, &DashboardConfig::default());

    let mut config_off = DashboardConfig::default();
    config_off.show_recommendations = false;
    let off = generate_html_dashboard(&tracker, &config_off);

    let start = on.find("<div class=\"section\">\n<h2>🎯 学习路径推荐</h2>").unwrap();
    let end = on.find("<div class=\"section\">\n<h2>💡 个性化学习建议</h2>").unwrap();
    assert!(start < end);
    let expected = format!("{}{}", &on[..start], &on[end..]);
    assert_eq!(off, expected);
}

#[test]
fn test_text_recommendation_limit() {
    // three open units, but only two may be shown
    let tracker = ProgressTracker::new("t".to_string(), "学习者".to_string());
    let mut config = DashboardConfig::default();
    config.max_recommendations = 2;
    let out = DashboardRenderer::new(config).render(&tracker);

    assert!(out.contains("  1. 语法演示代码"));
    assert!(out.contains("  2. 环境搭建与基础配置"));
    assert!(!out.contains("  3. "));
    // the shown time sum covers the two listed units (45 + 60 minutes)
    assert!(out.contains("📅 预计学习时间: 105 分钟"));
    // the engine's rationale still speaks of its full proposal
    assert!(out.contains("3 个学习单元，预计需要 225 分钟"));

    let full = DashboardRenderer::new(DashboardConfig::default()).render(&tracker);
    assert!(full.contains("  3. 基本语法与数据类型"));
    assert!(full.contains("📅 预计学习时间: 225 分钟"));
}

#[test]
fn test_html_recommendation_limit() {
    let tracker = ProgressTracker::new("t".to_string(), "学习者".to_string());
    let mut config = DashboardConfig::default();
    config.max_recommendations = 2;
    let html = generate_html_dashboard(&tracker, &config);

    let rows = html.matches("<li class=\"recommendation-item\">").count();
    assert_eq!(rows, 2);
    assert!(html.contains("<strong>预计学习时间:</strong> 105 分钟"));

    let full = generate_html_dashboard(&tracker, &DashboardConfig::default());
    let rows = full.matches("<li class=\"recommendation-item\">").count();
    assert_eq!(rows, 3);
}

#[test]
fn test_confidence_percent_is_rounded() {
    let mut tracker = ProgressTracker::new("t".to_string(), "学习者".to_string());
    assert!(tracker.complete_unit("stage1-environment", None));
    // confidence is 3333 basis points: 33.33% shows as a whole 33%
    let out = DashboardRenderer::new(DashboardConfig::default()).render(&tracker);
    assert!(out.contains("🎯 推荐置信度: 33%"));
}

#[test]
fn test_html_reflects_unlocked_achievements() {
    let mut tracker = ProgressTracker::new("t".to_string(), "学习者".to_string());
    let html = generate_html_dashboard(&tracker, &DashboardConfig::default());
    assert!(html.contains("暂无已解锁成就"));

    assert!(tracker.complete_unit("stage1-environment", None));
    tracker.check_achievements();
    let html = generate_html_dashboard(&tracker, &DashboardConfig::default());
    assert!(!html.contains("暂无已解锁成就"));
    assert!(html.contains("初次尝试"));
}

#[test]
fn test_text_report_reflects_scores_and_counts() {
    let mut tracker = ProgressTracker::new("t".to_string(), "学习者".to_string());
    assert!(tracker.complete_unit("stage1-environment", Some(90)));
    tracker.check_achievements();
    let out = DashboardRenderer::new(DashboardConfig::default()).render(&tracker);
    assert!(out.contains("🎯 平均分数: 90.0"));
    assert!(out.contains("✅ 已完成: 1 个单元"));
    assert!(out.contains(" [90]"));
    assert!(out.contains("✨ 已解锁成就:"));
    assert!(out.contains("🔒 未解锁成就: 3 个"));
}
