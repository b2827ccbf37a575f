use vimit::monitor::{WindowHistory, SPARKLINE_LEN};
use vimit::monitor::{
    bar_width, fit_text, monitor_interval, panel_bottom, panel_line, panel_top, MonitorKey,
    MonitorState, PanelState, DEFAULT_WATCH_INTERVAL,
};

#[test]
fn fit_text_truncates_with_tilde() {
    assert_eq!(fit_text("hello", 10), "hello");
    assert_eq!(fit_text("hello world", 8), "hello w~");
}

#[test]
fn panel_dimensions_are_correct() {
    let top = panel_top("test", 20);
    assert_eq!(top.len(), 20);
    assert!(top.starts_with('+'));
    assert!(top.ends_with('+'));

    let bottom = panel_bottom(20);
    assert_eq!(bottom.len(), 20);
}

#[test]
fn fit_text_edge_widths() {
    assert_eq!(fit_text("hello", 5), "hello");
    assert_eq!(fit_text("hello", 1), "h");
    assert_eq!(fit_text("hello", 0), "");
    assert_eq!(fit_text("hello", 2), "h~");
    assert_eq!(fit_text("привет мир", 7), "привет~");
}

#[test]
fn panel_line_pads_to_width() {
    let line = panel_line("abc", 12);
    assert_eq!(line, "| abc      |");
    assert_eq!(line.chars().count(), 12);
    let long = panel_line("abcdefghijklmnop", 12);
    assert_eq!(long, "| abcdefg~ |");
}

#[test]
fn panel_top_text_layout() {
    assert_eq!(panel_top("alerts", 20), "+ alerts ----------+");
    assert_eq!(panel_top("a very long title", 10), "+ a very long title +");
    assert_eq!(panel_bottom(1), "++");
}

#[test]
fn bar_width_steps() {
    assert_eq!(bar_width(80), 16);
    assert_eq!(bar_width(90), 22);
    assert_eq!(bar_width(119), 22);
    assert_eq!(bar_width(120), 28);
}

#[test]
fn monitor_interval_defaults() {
    assert_eq!(monitor_interval(0), DEFAULT_WATCH_INTERVAL);
    assert_eq!(monitor_interval(1), 1);
    assert_eq!(monitor_interval(30), 30);
}

#[test]
fn toggle_flips_one_panel() {
    let mut p = PanelState::default();
    p.toggle(3);
    assert!(!p.show_alerts);
    assert!(p.show_header && p.show_quota && p.show_agents && p.show_footer);
    p.toggle(3);
    assert_eq!(p, PanelState::default());
    p.toggle(9);
    assert_eq!(p, PanelState::default());
}

#[test]
fn monitor_keys_drive_state() {
    let mut s = MonitorState::new(3, 7);
    assert_eq!(s.current_account, 2);
    assert!(s.force_refresh);
    s.mark_refreshed(1_000, 10_000);
    assert!(!s.refresh_due(5_000));
    assert!(s.refresh_due(11_000));
    assert_eq!(s.secs_until_refresh(2_500), 8);
    assert_eq!(s.handle_key(MonitorKey::NextAccount), None);
    assert_eq!(s.current_account, 0);
    assert!(s.refresh_due(1_000));
    assert_eq!(s.handle_key(MonitorKey::Help), None);
    assert!(s.panels.show_help);
    assert_eq!(s.handle_key(MonitorKey::Panel(1)), None);
    assert!(!s.panels.show_header);
    assert_eq!(s.handle_key(MonitorKey::Quit), Some(0));
    assert_eq!(s.handle_key(MonitorKey::Interrupt), Some(130));
}

#[test]
fn single_account_ignores_tab() {
    let mut s = MonitorState::new(1, 0);
    s.mark_refreshed(0, 5_000);
    assert_eq!(s.handle_key(MonitorKey::NextAccount), None);
    assert_eq!(s.current_account, 0);
    assert!(!s.force_refresh);
    assert_eq!(s.selected_account(), None);
}

#[test]
fn window_history_sparkline() {
    let mut hist = WindowHistory::new();
    assert!(hist.sparkline_values().is_empty());

    hist.record(50);
    hist.record(75);
    assert_eq!(hist.sparkline_values(), vec![50, 75]);

    for i in 0..25 {
        hist.record(i);
    }
    assert_eq!(hist.sparkline_values().len(), SPARKLINE_LEN);
    assert_eq!(hist.sparkline_values()[SPARKLINE_LEN - 1], 24);
    assert_eq!(hist.sparkline_values()[0], 5);
}

#[test]
fn panel_lines_match_width() {
    for width in [4usize, 5, 12, 40] {
        for text in ["", "short", "a much longer line of text that will be cut", "квота"] {
            assert_eq!(panel_line(text, width).chars().count(), width);
            assert!(fit_text(text, width).chars().count() <= width);
        }
        assert_eq!(panel_bottom(width).chars().count(), width);
    }
}
