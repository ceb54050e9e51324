use chperf::app::{App, Key, KeyAction, KeyCode, RowCounts, Tab};

fn rows(compare: Option<usize>) -> RowCounts {
    RowCounts {
        event_stats: 7,
        scroll_tasks: 12,
        cpu_functions: 30,
        layout_entries: 9,
        compare_rows: compare,
    }
}

fn key(c: char) -> Key {
    Key { code: KeyCode::Char(c), ctrl: false }
}

fn ctrl(c: char) -> Key {
    Key { code: KeyCode::Char(c), ctrl: true }
}

fn code(code: KeyCode) -> Key {
    Key { code, ctrl: false }
}

#[test]
fn tabs_without_compare() {
    assert_eq!(
        Tab::all(false),
        vec![Tab::Summary, Tab::ScrollFrames, Tab::CpuProfile, Tab::LayoutDirty]
    );
}

#[test]
fn tabs_with_compare() {
    assert_eq!(
        Tab::all(true),
        vec![Tab::Summary, Tab::ScrollFrames, Tab::CpuProfile, Tab::LayoutDirty, Tab::Compare]
    );
}

#[test]
fn tab_labels() {
    assert_eq!(Tab::Summary.label(), "Summary");
    assert_eq!(Tab::ScrollFrames.label(), "Scroll Frames");
    assert_eq!(Tab::CpuProfile.label(), "CPU Profile");
    assert_eq!(Tab::LayoutDirty.label(), "Layout Dirty");
    assert_eq!(Tab::Compare.label(), "Compare");
}

#[test]
fn new_app_starts_on_summary() {
    let app = App::new(rows(None));
    assert_eq!(app.tab, Tab::Summary);
    assert_eq!(app.tabs.len(), 4);
    assert_eq!(app.scroll_offset, 0);
    assert!(!app.should_quit);
    assert!(app.status_message.is_none());
}

#[test]
fn next_tab_wraps_around() {
    let mut app = App::new(rows(None));
    app.next_tab();
    assert_eq!(app.tab, Tab::ScrollFrames);
    app.next_tab();
    app.next_tab();
    assert_eq!(app.tab, Tab::LayoutDirty);
    app.next_tab();
    assert_eq!(app.tab, Tab::Summary);
}

#[test]
fn prev_tab_wraps_around() {
    let mut app = App::new(rows(Some(3)));
    app.prev_tab();
    assert_eq!(app.tab, Tab::Compare);
    app.prev_tab();
    assert_eq!(app.tab, Tab::LayoutDirty);
}

#[test]
fn next_then_prev_returns_to_tab() {
    for compare in [None, Some(2)] {
        let mut app = App::new(rows(compare));
        for _ in 0..app.tabs.len() {
            let start = app.tab;
            app.next_tab();
            app.prev_tab();
            assert_eq!(app.tab, start);
            app.prev_tab();
            app.next_tab();
            assert_eq!(app.tab, start);
            app.next_tab();
        }
    }
}

#[test]
fn tab_presses_cycle_through_all_tabs() {
    let mut app = App::new(rows(Some(1)));
    app.next_tab();
    app.next_tab();
    let start = app.tab;
    for _ in 0..5 {
        app.next_tab();
    }
    assert_eq!(app.tab, start);
}

#[test]
fn switching_tab_resets_scroll() {
    let mut app = App::new(rows(None));
    app.scroll_down(5);
    assert_eq!(app.scroll_offset, 5);
    app.next_tab();
    assert_eq!(app.scroll_offset, 0);
    app.scroll_down(3);
    app.prev_tab();
    assert_eq!(app.scroll_offset, 0);
}

#[test]
fn scroll_saturates() {
    let mut app = App::new(rows(None));
    app.scroll_up(1);
    assert_eq!(app.scroll_offset, 0);
    app.scroll_down(usize::MAX);
    app.scroll_down(10);
    assert_eq!(app.scroll_offset, usize::MAX);
}

#[test]
fn scroll_down_then_up_restores() {
    let mut app = App::new(rows(None));
    app.scroll_down(7);
    app.scroll_down(20);
    app.scroll_up(20);
    assert_eq!(app.scroll_offset, 7);
}

#[test]
fn row_count_per_tab() {
    let mut app = App::new(rows(Some(6)));
    assert_eq!(app.row_count(), 7);
    app.next_tab();
    assert_eq!(app.row_count(), 12);
    app.next_tab();
    assert_eq!(app.row_count(), 30);
    app.next_tab();
    assert_eq!(app.row_count(), 9);
    app.next_tab();
    assert_eq!(app.row_count(), 6);
}

#[test]
fn quit_keys() {
    for k in [key('q'), code(KeyCode::Esc), ctrl('c')] {
        let mut app = App::new(rows(None));
        assert_eq!(app.handle_key(k), KeyAction::Nothing);
        assert!(app.should_quit);
    }
    let mut app = App::new(rows(None));
    app.handle_key(key('c'));
    assert!(!app.should_quit);
}

#[test]
fn action_keys() {
    let mut app = App::new(rows(None));
    assert_eq!(app.handle_key(key('e')), KeyAction::Export);
    assert_eq!(app.handle_key(key('t')), KeyAction::ToggleThrottle);
    assert_eq!(app.handle_key(key('x')), KeyAction::Nothing);
}

#[test]
fn digit_keys_select_tabs() {
    let mut app = App::new(rows(None));
    app.handle_key(key('3'));
    assert_eq!(app.tab, Tab::CpuProfile);
    app.handle_key(key('j'));
    assert_eq!(app.scroll_offset, 1);
    app.handle_key(key('5'));
    assert_eq!(app.tab, Tab::CpuProfile);
    assert_eq!(app.scroll_offset, 1);
    app.handle_key(key('1'));
    assert_eq!(app.tab, Tab::Summary);
    assert_eq!(app.scroll_offset, 0);

    let mut app = App::new(rows(Some(2)));
    app.handle_key(key('5'));
    assert_eq!(app.tab, Tab::Compare);
}

#[test]
fn tab_keys_move_between_tabs() {
    let mut app = App::new(rows(None));
    app.handle_key(code(KeyCode::Tab));
    assert_eq!(app.tab, Tab::ScrollFrames);
    app.handle_key(code(KeyCode::BackTab));
    app.handle_key(code(KeyCode::BackTab));
    assert_eq!(app.tab, Tab::LayoutDirty);
}

#[test]
fn scroll_keys() {
    let mut app = App::new(rows(None));
    app.handle_key(code(KeyCode::Down));
    app.handle_key(key('j'));
    assert_eq!(app.scroll_offset, 2);
    app.handle_key(ctrl('d'));
    assert_eq!(app.scroll_offset, 22);
    app.handle_key(key('k'));
    app.handle_key(code(KeyCode::Up));
    assert_eq!(app.scroll_offset, 20);
    app.handle_key(ctrl('u'));
    assert_eq!(app.scroll_offset, 0);
    app.handle_key(key('d'));
    assert_eq!(app.scroll_offset, 0);
    app.handle_key(key('G'));
    assert_eq!(app.scroll_offset, 6);
    app.handle_key(key('g'));
    assert_eq!(app.scroll_offset, 0);
}

#[test]
fn bottom_of_empty_tab_is_first_row() {
    let mut app = App::new(rows(Some(0)));
    app.handle_key(key('5'));
    app.handle_key(key('G'));
    assert_eq!(app.scroll_offset, 0);
}

#[test]
fn pending_message_swallows_key() {
    let mut app = App::new(rows(None));
    app.set_message("Exported to x.md".to_string());
    assert_eq!(app.status_message.as_deref(), Some("Exported to x.md"));
    assert_eq!(app.handle_key(key('q')), KeyAction::Nothing);
    assert!(!app.should_quit);
    assert!(app.status_message.is_none());
    assert_eq!(app.handle_key(key('q')), KeyAction::Nothing);
    assert!(app.should_quit);
}

#[test]
fn bottom_key_lands_on_last_table_row() {
    let mut app = App::new(RowCounts {
        event_stats: 1,
        scroll_tasks: 3,
        cpu_functions: 0,
        layout_entries: 2,
        compare_rows: None,
    });
    assert_eq!(app.row_count(), 1);
    app.handle_key(key('G'));
    assert_eq!(app.scroll_offset, 0);
    app.handle_key(key('2'));
    app.handle_key(key('G'));
    assert_eq!(app.scroll_offset, 2);
    app.handle_key(key('3'));
    app.handle_key(key('G'));
    assert_eq!(app.scroll_offset, 0);
}
