use ustats::tray::{session_stat_label, toggle_widget_label, weekly_stat_label};

#[test]
fn usage_labels() {
    assert_eq!(session_stat_label(Some(42)), "Session: 42%");
    assert_eq!(session_stat_label(Some(0)), "Session: 0%");
    assert_eq!(session_stat_label(None), "Session: --");
    assert_eq!(weekly_stat_label(Some(100)), "Week (all): 100%");
    assert_eq!(weekly_stat_label(None), "Week (all): --");
}

#[test]
fn toggle_labels() {
    assert_eq!(toggle_widget_label(true), "Hide Widget");
    assert_eq!(toggle_widget_label(false), "Show Widget");
}
