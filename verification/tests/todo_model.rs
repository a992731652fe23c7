use next_core::todo::{Changelog, ChangeEntry, Quadrant, Tab, Todo, MAX_CHANGELOG_SIZE};
use next_core::routine::Routine;

#[test]
fn test_todo_creation() {
    let todo = Todo::new("测试任务".to_string(), Tab::Today, Quadrant::ImportantUrgent);

    assert_eq!(todo.text, "测试任务");
    assert_eq!(todo.tab, Tab::Today);
    assert_eq!(todo.quadrant, Quadrant::ImportantUrgent);
    assert_eq!(todo.progress, 0);
    assert!(!todo.completed);
    assert_eq!(todo.id.len(), 8);
}

#[test]
fn test_progress_auto_complete() {
    let mut todo = Todo::new("任务".to_string(), Tab::Today, Quadrant::ImportantUrgent);

    todo.set_progress(100);

    assert!(todo.completed);
    assert!(todo.completed_at.is_some());
    assert_eq!(todo.changelog.len(), 2); // progress + completed
}

#[test]
fn test_changelog_limit() {
    let mut changelog = Changelog::new();

    for i in 0..60 {
        changelog.push(ChangeEntry::new("field", "label", &i.to_string(), &(i + 1).to_string()));
    }

    assert_eq!(changelog.len(), MAX_CHANGELOG_SIZE);
}

#[test]
fn test_changelog_eviction_keeps_newest() {
    let mut changelog = Changelog::new();
    for i in 0..60 {
        changelog.push(ChangeEntry::new("field", "label", &i.to_string(), &(i + 1).to_string()));
    }
    assert_eq!(changelog.len(), 50);
    let entries = changelog.entries();
    // entries 0..=9 are evicted; the survivors keep their order
    assert_eq!(entries[0].old_value, "10");
    assert_eq!(entries[49].old_value, "59");
    for (k, e) in entries.iter().enumerate() {
        assert_eq!(e.old_value, (k + 10).to_string());
    }
}

#[test]
fn test_progress_clamped() {
    let mut todo = Todo::new("t".to_string(), Tab::Week, Quadrant::NotImportantUrgent);
    todo.set_progress_at(250, "2026-01-02T00:00:00Z");
    assert_eq!(todo.progress, 100);
    assert!(todo.completed);
    assert_eq!(todo.completed_at.as_deref(), Some("2026-01-02T00:00:00Z"));
    assert_eq!(todo.changelog.len(), 2);
    let entries = todo.changelog.entries();
    assert_eq!(entries[0].field, "progress");
    assert_eq!(entries[0].old_value, "0");
    assert_eq!(entries[0].new_value, "100");
    assert_eq!(entries[1].field, "completed");
}

#[test]
fn test_progress_noop_keeps_changelog() {
    let mut todo = Todo::new("t".to_string(), Tab::Today, Quadrant::ImportantUrgent);
    todo.set_progress_at(0, "2026-01-02T00:00:00Z");
    assert_eq!(todo.changelog.len(), 0);
    assert_eq!(todo.progress, 0);
    assert!(!todo.completed);
}

#[test]
fn test_set_completed_idempotent() {
    let mut todo = Todo::new("t".to_string(), Tab::Today, Quadrant::ImportantUrgent);
    todo.set_completed(true);
    todo.set_completed(true);
    assert_eq!(todo.changelog.len(), 1);
    assert!(todo.completed);
    assert!(todo.completed_at.is_some());
    todo.set_completed(false);
    assert_eq!(todo.changelog.len(), 2);
    assert!(todo.completed_at.is_none());
}

#[test]
fn test_apply_update_due_date_always_recorded() {
    let mut todo = Todo::new("t".to_string(), Tab::Today, Quadrant::ImportantUrgent);
    let mut up = next_core::todo::TodoUpdate::default();
    up.due_date = Some("2026-03-01".to_string());
    todo.apply_update_at(up, "2026-01-02T00:00:00Z");
    assert_eq!(todo.changelog.len(), 1);
    // the same value again still appends an entry
    let mut up2 = next_core::todo::TodoUpdate::default();
    up2.due_date = Some("2026-03-01".to_string());
    todo.apply_update_at(up2, "2026-01-03T00:00:00Z");
    assert_eq!(todo.changelog.len(), 2);
    assert_eq!(todo.due_date.as_deref(), Some("2026-03-01"));
}

#[test]
fn test_apply_update_text_noop_guard() {
    let mut todo = Todo::new("same".to_string(), Tab::Today, Quadrant::ImportantUrgent);
    let mut up = next_core::todo::TodoUpdate::default();
    up.text = Some("same".to_string());
    todo.apply_update_at(up, "2026-01-02T00:00:00Z");
    assert_eq!(todo.changelog.len(), 0);
    assert_eq!(todo.updated_at, "2026-01-02T00:00:00Z");
}

#[test]
fn test_routine_creation() {
    let routine = Routine::new("每日锻炼".to_string());

    assert_eq!(routine.text, "每日锻炼");
    assert!(!routine.completed_today);
    assert!(routine.last_completed_date.is_none());
    assert_eq!(routine.id.len(), 8);
}

#[test]
fn test_routine_toggle() {
    let mut routine = Routine::new("每日阅读".to_string());

    routine.toggle();
    assert!(routine.completed_today);
    assert!(routine.last_completed_date.is_some());

    routine.toggle();
    assert!(!routine.completed_today);
}

#[test]
fn test_routine_daily_reset() {
    let mut routine = Routine::new("晨跑".to_string());
    routine.toggle_at("2026-10-10");
    assert!(routine.completed_today);
    routine.check_daily_reset_on("2026-10-11");
    assert!(!routine.completed_today);
    assert_eq!(routine.last_completed_date.as_deref(), Some("2026-10-10"));
    // idempotent
    routine.check_daily_reset_on("2026-10-11");
    assert!(!routine.completed_today);
    // same day: untouched
    let mut fresh = Routine::new("阅读".to_string());
    fresh.toggle_at("2026-10-11");
    fresh.check_daily_reset_on("2026-10-11");
    assert!(fresh.completed_today);
}

#[test]
fn test_quadrant_serialization() {
    let quadrant = Quadrant::ImportantUrgent;
    let value = serde_json::Value::String(quadrant.as_str().to_string());
    let json = serde_json::to_string(&value).unwrap();
    assert_eq!(json, "\"important-urgent\"");

    let parsed: serde_json::Value = serde_json::from_str(&json).unwrap();
    let name = parsed.as_str().unwrap();
    assert_eq!(next_core::todo::parse_quadrant(name), Quadrant::ImportantUrgent);
}

#[test]
fn test_tab_names() {
    assert_eq!(Tab::Today.as_str(), "today");
    assert_eq!(Tab::Week.as_str(), "week");
    assert_eq!(Tab::Month.as_str(), "month");
    assert_eq!(next_core::todo::parse_tab("week"), Tab::Week);
    assert_eq!(next_core::todo::parse_tab("anything"), Tab::Today);
    assert_eq!(
        next_core::todo::parse_quadrant("unknown"),
        Quadrant::NotImportantNotUrgent
    );
    assert_eq!(Quadrant::ImportantNotUrgent.as_str(), "important-not-urgent");
    assert_eq!(Quadrant::ImportantUrgent.label(), "优先处理");
}
