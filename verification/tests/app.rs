use flicker::app::{App, Key, KeyCode, Overlay, PalCmd, Slot};
use flicker::look::{slot_frame, FrameNote, Hue, SlotBody};
use flicker::mood::{mood, Mood};
use flicker::panel::{action, cell, AppEvent, Panel, RowItem, SourceCmd, Tone};

fn key(code: KeyCode) -> Key {
    Key { code, ctrl: false }
}

fn slot(name: &str, kind: &str, screen: usize, panel: Option<Panel>, wired: bool) -> Slot {
    Slot {
        name: name.into(),
        kind: kind.into(),
        screen,
        panel,
        error: None,
        updated: None,
        selected: 0,
        wired,
    }
}

fn demo_panel() -> Panel {
    let mut panel = Panel::empty();
    panel.rows = vec![
        RowItem {
            key: "r1".into(),
            cells: vec![cell("first row", Tone::Default)],
            actions: vec![action("zap", "zap it", true)],
        },
        RowItem {
            key: "r2".into(),
            cells: vec![cell("second row", Tone::Default)],
            actions: vec![action("boop", "boop it", false)],
        },
    ];
    panel.panel_actions = vec![action("sweep", "sweep the booth", false)];
    panel
}

fn demo_app() -> App {
    let slots = vec![
        slot("one", "tautulli", 0, Some(demo_panel()), false),
        slot("two", "ssh", 1, Some(Panel::empty()), false),
    ];
    App::new(vec!["A".into(), "B".into()], slots, true)
}

fn wired_app() -> App {
    let slots = vec![
        slot("one", "tautulli", 0, Some(demo_panel()), true),
        slot("two", "ssh", 1, Some(Panel::empty()), true),
    ];
    App::new(vec!["A".into(), "B".into()], slots, false)
}

#[test]
fn screen_navigation_wraps() {
    let mut app = demo_app();
    assert_eq!(app.screen_idx, 0);
    app.on_key(key(KeyCode::Char(']')), 0);
    assert_eq!(app.screen_idx, 1);
    app.on_key(key(KeyCode::Char(']')), 0);
    assert_eq!(app.screen_idx, 0);
    app.on_key(key(KeyCode::Char('[')), 0);
    assert_eq!(app.screen_idx, 1);
    app.on_key(key(KeyCode::Char('1')), 0);
    assert_eq!(app.screen_idx, 0);
    // out-of-range screen number is ignored
    app.on_key(key(KeyCode::Char('9')), 0);
    assert_eq!(app.screen_idx, 0);
}

#[test]
fn row_selection_wraps_within_focused_slot() {
    let mut app = demo_app();
    app.on_key(key(KeyCode::Char('j')), 0);
    assert_eq!(app.slots[0].selected, 1);
    app.on_key(key(KeyCode::Char('j')), 0);
    assert_eq!(app.slots[0].selected, 0);
    app.on_key(key(KeyCode::Char('k')), 0);
    assert_eq!(app.slots[0].selected, 1);
}

#[test]
fn danger_action_demands_confirmation() {
    let mut app = demo_app();
    // open menu: selected row r1 has danger action "zap"
    app.on_key(key(KeyCode::Enter), 0);
    assert!(matches!(app.overlay, Overlay::Menu { .. }));
    app.on_key(key(KeyCode::Enter), 0); // choose "zap it"
    match &app.overlay {
        Overlay::Confirm { action, row_key, .. } => {
            assert_eq!(action.id, "zap");
            assert_eq!(row_key, "r1");
        }
        _ => panic!("danger action must route through Confirm"),
    }
    // 'n' backs out without dispatching
    app.on_key(key(KeyCode::Char('n')), 0);
    assert!(matches!(app.overlay, Overlay::Nothing));
    let (msg, ok) = app.status_line(0).expect("cancel sets a status");
    assert!(ok);
    assert!(msg.contains("cancelled"));
}

#[test]
fn safe_action_dispatches_directly() {
    let mut app = demo_app();
    app.on_key(key(KeyCode::Char('j')), 0); // row r2: "boop" is safe
    app.on_key(key(KeyCode::Enter), 0);
    app.on_key(key(KeyCode::Enter), 0);
    assert!(matches!(app.overlay, Overlay::Nothing));
    let (msg, ok) = app.status_line(0).expect("demo dispatch sets a status");
    assert!(ok);
    assert!(msg.contains("boop"));
}

#[test]
fn palette_filters_by_substring() {
    let app = demo_app();
    let all = app.palette_items("");
    assert!(all.len() >= 5);
    let filtered = app.palette_items("jax");
    assert_eq!(filtered.len(), 1);
    assert_eq!(filtered[0].label, "toggle Jax");
    // slot actions appear with the slot name
    let zap = app.palette_items("zap");
    assert_eq!(zap.len(), 1);
    assert!(zap[0].label.contains('⚠'));
}

#[test]
fn panel_update_clamps_selection() {
    let mut app = demo_app();
    app.slots[0].selected = 1;
    let mut panel = Panel::empty();
    panel.rows = vec![RowItem {
        key: "only".into(),
        cells: vec![cell("lonely row", Tone::Default)],
        actions: vec![],
    }];
    app.on_app_event(AppEvent::Panel { id: 0, result: Ok(panel) }, 0);
    assert_eq!(app.slots[0].selected, 0);
    assert!(app.slots[0].error.is_none());
}

#[test]
fn poll_error_keeps_last_panel() {
    let mut app = demo_app();
    app.on_app_event(AppEvent::Panel { id: 0, result: Err("lamp burnt out".into()) }, 0);
    assert!(app.slots[0].panel.is_some(), "stale panel survives an error");
    assert_eq!(app.slots[0].error.as_deref(), Some("lamp burnt out"));
}

#[test]
fn quit_keys_quit() {
    let mut app = demo_app();
    app.on_key(key(KeyCode::Char('q')), 0);
    assert!(app.quit);
    let mut app = demo_app();
    app.on_key(Key { code: KeyCode::Char('c'), ctrl: true }, 0);
    assert!(app.quit);
}

// --- laws of the console, on concrete values ---

#[test]
fn confirm_enter_and_esc_take_the_default_no() {
    for k in [KeyCode::Enter, KeyCode::Esc] {
        let mut app = wired_app();
        app.on_key(key(KeyCode::Enter), 0);
        app.on_key(key(KeyCode::Enter), 0);
        assert!(matches!(app.overlay, Overlay::Confirm { .. }));
        let out = app.on_key(key(k), 0);
        assert!(out.is_empty(), "nothing fires but an explicit y");
        assert!(matches!(app.overlay, Overlay::Nothing));
    }
}

#[test]
fn confirm_y_sends_exactly_the_chosen_action() {
    let mut app = wired_app();
    app.on_key(key(KeyCode::Enter), 10);
    app.on_key(key(KeyCode::Enter), 10);
    let out = app.on_key(key(KeyCode::Char('y')), 10);
    assert_eq!(out.len(), 1);
    assert_eq!(out[0].slot, 0);
    match &out[0].cmd {
        SourceCmd::Execute { action_id, row_key } => {
            assert_eq!(action_id, "zap");
            assert_eq!(row_key, "r1");
        }
        SourceCmd::Refresh => panic!("y must execute the confirmed action"),
    }
}

#[test]
fn keys_without_an_overlay_never_execute() {
    let mut app = wired_app();
    for c in ['j', 'k', 'r', 'R', 'J', ']', '[', 'h', 'l', '2', '1', 'x'] {
        let out = app.on_key(key(KeyCode::Char(c)), 0);
        if !matches!(app.overlay, Overlay::Nothing) {
            break;
        }
        assert!(out.iter().all(|o| matches!(o.cmd, SourceCmd::Refresh)));
    }
}

#[test]
fn refresh_keys_ask_workers_for_a_poll() {
    let mut app = wired_app();
    let out = app.on_key(key(KeyCode::Char('r')), 0);
    assert_eq!(out.len(), 1);
    assert_eq!(out[0].slot, 0);
    assert!(matches!(out[0].cmd, SourceCmd::Refresh));
    let out = app.on_key(key(KeyCode::Char('R')), 0);
    assert_eq!(out.len(), 2);
}

#[test]
fn screen_steps_undo_each_other() {
    let mut app = demo_app();
    app.on_key(key(KeyCode::Char(']')), 0);
    app.on_key(key(KeyCode::Char('[')), 0);
    assert_eq!(app.screen_idx, 0);
    app.on_key(key(KeyCode::Char('j')), 0);
    app.on_key(key(KeyCode::Char('k')), 0);
    assert_eq!(app.slots[0].selected, 0);
}

#[test]
fn status_line_goes_dark_after_six_seconds() {
    let mut app = demo_app();
    app.set_status("rolling".into(), true, 1000);
    assert_eq!(app.status_line(1000), Some(("rolling", true)));
    assert_eq!(app.status_line(6999), Some(("rolling", true)));
    assert_eq!(app.status_line(7000), None);
}

#[test]
fn action_result_lands_in_the_status_line() {
    let mut app = wired_app();
    app.on_app_event(AppEvent::ActionDone { id: 0, result: Err("nope".into()) }, 5);
    let (msg, ok) = app.status_line(5).expect("a failed action is reported");
    assert!(!ok);
    assert!(msg.contains("nope"));
}

#[test]
fn palette_slot_entry_carries_its_row() {
    let mut app = demo_app();
    assert!(app.palette_items("boop").is_empty(), "only the selected row's actions are offered");
    app.on_key(key(KeyCode::Char('j')), 0);
    let items = app.palette_items("boop");
    assert_eq!(items.len(), 1);
    match &items[0].cmd {
        PalCmd::Slot { slot, action, row_key } => {
            assert_eq!(*slot, 0);
            assert_eq!(action.id, "boop");
            assert_eq!(row_key, "r2");
        }
        _ => panic!("a slot action runs on its row"),
    }
}

#[test]
fn mood_follows_the_lab() {
    let mut app = demo_app();
    // tautulli has rows: showtime
    assert_eq!(mood(&app, 0), Mood::Showtime);
    app.on_app_event(AppEvent::Panel { id: 1, result: Err("down".into()) }, 0);
    assert_eq!(mood(&app, 0), Mood::Alarm);
    app.set_status("done".into(), true, 100);
    assert_eq!(mood(&app, 200), Mood::Party);
    let empty = App::new(vec!["A".into()], vec![slot("q", "qbittorrent", 0, Some(Panel::empty()), false)], true);
    assert_eq!(mood(&empty, 0), Mood::Chill);
}

#[test]
fn slots_are_listed_per_screen() {
    let app = demo_app();
    assert_eq!(app.slots_in(0), vec![0]);
    assert_eq!(app.slots_in(1), vec![1]);
    assert_eq!(app.focused_slot(), Some(0));
    assert!(!app.any_loading());
}

#[test]
fn tab_and_backtab_undo_each_other() {
    let slots = vec![
        slot("one", "tautulli", 0, Some(demo_panel()), false),
        slot("two", "ssh", 0, Some(Panel::empty()), false),
        slot("three", "jax", 0, None, false),
    ];
    let mut app = App::new(vec!["A".into()], slots, true);
    app.on_key(key(KeyCode::Tab), 0);
    assert_eq!(app.focus[0], 1);
    assert_eq!(app.focused_slot(), Some(1));
    app.on_key(key(KeyCode::BackTab), 0);
    assert_eq!(app.focus[0], 0);
    app.on_key(key(KeyCode::BackTab), 0);
    assert_eq!(app.focus[0], 2, "focus wraps to the last panel");
    app.on_key(key(KeyCode::Tab), 0);
    assert_eq!(app.focus[0], 0);
    assert!(app.any_loading(), "a slot that never reported is still loading");
}

#[test]
fn help_and_palette_overlays_close_as_expected() {
    let mut app = demo_app();
    app.on_key(key(KeyCode::Char('?')), 0);
    assert!(matches!(app.overlay, Overlay::Help));
    app.on_key(key(KeyCode::Char('x')), 0);
    assert!(matches!(app.overlay, Overlay::Help));
    app.on_key(key(KeyCode::Esc), 0);
    assert!(matches!(app.overlay, Overlay::Nothing));
    app.on_key(key(KeyCode::Char(':')), 0);
    for c in "go to b".chars() {
        app.on_key(key(KeyCode::Char(c)), 0);
    }
    app.on_key(key(KeyCode::Enter), 0);
    assert!(matches!(app.overlay, Overlay::Nothing));
    assert_eq!(app.screen_idx, 1);
}

#[test]
fn palette_backspace_drops_the_last_character() {
    let mut app = demo_app();
    app.on_key(key(KeyCode::Char('p')), 0);
    app.on_key(key(KeyCode::Char('z')), 0);
    app.on_key(key(KeyCode::Char('y')), 0);
    app.on_key(key(KeyCode::Backspace), 0);
    match &app.overlay {
        Overlay::Palette { input, sel } => {
            assert_eq!(input, "z");
            assert_eq!(*sel, 0);
        }
        _ => panic!("the palette stays open while typing"),
    }
    app.on_key(key(KeyCode::Backspace), 0);
    app.on_key(key(KeyCode::Backspace), 0);
    assert!(matches!(&app.overlay, Overlay::Palette { input, .. } if input.is_empty()));
}

#[test]
fn a_slot_that_failed_before_its_first_panel_is_still_loading() {
    let slots = vec![slot("one", "tautulli", 0, None, false)];
    let mut app = App::new(vec!["A".into()], slots, true);
    app.on_app_event(AppEvent::Panel { id: 0, result: Err("connection refused".into()) }, 5);
    assert!(app.any_loading(), "an error is not a panel");
    app.on_app_event(AppEvent::Panel { id: 0, result: Ok(Panel::empty()) }, 6);
    assert!(!app.any_loading());
}

#[test]
fn confirm_context_is_the_first_meaty_cell() {
    let mut panel = Panel::empty();
    panel.rows = vec![RowItem {
        key: "k".into(),
        cells: vec![cell("▶", Tone::Good), cell("scott", Tone::Default), cell("Vertigo (1958)", Tone::Default)],
        actions: vec![action("terminate", "terminate", true)],
    }];
    let app = App::new(vec!["A".into()], vec![slot("one", "tautulli", 0, Some(panel), false)], true);
    assert_eq!(app.row_context(0), "scott");
    let bare = App::new(vec!["A".into()], vec![slot("one", "tautulli", 0, None, false)], true);
    assert_eq!(bare.row_context(0), "");
}

#[test]
fn empty_and_upper_case_filters() {
    let app = demo_app();
    let all = app.palette_items("");
    let labels: Vec<String> = all.iter().map(|i| i.label.clone()).collect();
    assert_eq!(&labels[..6], &["go to A", "go to B", "refresh everything", "toggle Jax", "help", "quit flicker"]);
    let lower: Vec<String> = app.palette_items("go to b").iter().map(|i| i.label.clone()).collect();
    let upper: Vec<String> = app.palette_items("GO TO B").iter().map(|i| i.label.clone()).collect();
    assert_eq!(lower, vec!["go to B".to_string()]);
    assert_eq!(lower, upper);
}

#[test]
fn slot_frames_follow_focus_error_and_age() {
    let mut s = slot("one", "tautulli", 0, None, false);
    let f = slot_frame(&s, true, 0, 40);
    assert_eq!(f.border, Hue::Accent);
    assert!(f.focused);
    assert_eq!(f.body, SlotBody::Threading);
    assert!(f.note.is_none());
    s.panel = Some(Panel::empty());
    s.updated = Some(1_000);
    let f = slot_frame(&s, false, 13_500, 40);
    assert_eq!(f.border, Hue::Muted);
    assert_eq!(f.body, SlotBody::Panel);
    assert!(matches!(f.note, Some(FrameNote::Age(ref t)) if t == " 12s "));
    s.error = Some("connection refused by the projector".into());
    let f = slot_frame(&s, true, 13_500, 16);
    assert_eq!(f.border, Hue::Bad);
    assert!(matches!(f.note, Some(FrameNote::Error(ref t)) if t == " ✗ connectio… "));
    s.kind = "jax".into();
    assert_eq!(slot_frame(&s, false, 0, 40).body, SlotBody::Booth);
}
