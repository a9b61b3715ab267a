use winresize::catalog::{default_preset, parse_resolution, presets, WindowResolution};
use winresize::control::Core;
use winresize::resize::{interpret_os_report, make_command, ResizeError};
use winresize::schedule::{due, RefreshGate, REFRESH_INTERVAL_MS};
use winresize::selection::SelectionTracker;
use winresize::window::{Snapshot, WindowHandle};

fn snapshot_of(entries: &[(u64, &str)]) -> Snapshot {
    let mut s = Snapshot::new();
    for (raw, title) in entries {
        s.offer(WindowHandle::new(*raw), String::from(*title));
    }
    s
}

#[test]
fn catalog_value_strings() {
    assert_eq!(WindowResolution::Preset320.value(), "320x240");
    assert_eq!(WindowResolution::Preset480.value(), "480x320");
    assert_eq!(WindowResolution::Preset720.value(), "1280x720");
    assert_eq!(WindowResolution::Preset1080.value(), "1920x1080");
    assert_eq!(WindowResolution::Preset1440.value(), "2560x1440");
}

#[test]
fn catalog_order_and_default() {
    let all = presets();
    assert_eq!(
        all,
        vec![
            WindowResolution::Preset320,
            WindowResolution::Preset480,
            WindowResolution::Preset720,
            WindowResolution::Preset1080,
            WindowResolution::Preset1440,
        ]
    );
    assert_eq!(default_preset(), WindowResolution::Preset720);
}

#[test]
fn every_preset_round_trips() {
    for p in presets() {
        let parsed = parse_resolution(p.value());
        assert_eq!(parsed, Some(p.parse()));
    }
    assert_eq!(parse_resolution("1280x720"), Some((1280, 720)));
    assert_eq!(parse_resolution("2560x1440"), Some((2560, 1440)));
    assert_eq!(WindowResolution::Preset480.parse(), (480, 320));
}

#[test]
fn parse_resolution_rejects_malformed() {
    assert_eq!(parse_resolution(""), None);
    assert_eq!(parse_resolution("x"), None);
    assert_eq!(parse_resolution("1280"), None);
    assert_eq!(parse_resolution("1280x"), None);
    assert_eq!(parse_resolution("x720"), None);
    assert_eq!(parse_resolution("a2x30"), None);
    assert_eq!(parse_resolution("12x3b"), None);
    assert_eq!(parse_resolution("12xx34"), None);
}

#[test]
fn parse_resolution_edges() {
    assert_eq!(parse_resolution("0x0"), Some((0, 0)));
    assert_eq!(parse_resolution("4294967295x1"), Some((4294967295, 1)));
    assert_eq!(parse_resolution("4294967296x1"), None);
    assert_eq!(parse_resolution("00720x00480"), Some((720, 480)));
}

#[test]
fn snapshot_deduplicates_by_title() {
    let s = snapshot_of(&[(1, "Notepad"), (2, "Notepad")]);
    assert_eq!(s.len(), 1);
    assert_eq!(s.handle_at(0), WindowHandle::new(1));
    assert_eq!(s.title_at(0), "Notepad");
}

#[test]
fn snapshot_keeps_distinct_titles_in_order() {
    let s = snapshot_of(&[(5, "Editor"), (6, "Browser"), (7, "Terminal")]);
    assert_eq!(s.len(), 3);
    assert_eq!(s.title_at(0), "Editor");
    assert_eq!(s.title_at(1), "Browser");
    assert_eq!(s.title_at(2), "Terminal");
}

#[test]
fn snapshot_excludes_short_titles() {
    let s = snapshot_of(&[(1, ""), (2, "a"), (3, "\u{e9}"), (4, "ok")]);
    assert_eq!(s.len(), 1);
    assert_eq!(s.handle_at(0), WindowHandle::new(4));
}

#[test]
fn snapshot_same_handle_two_titles_kept_twice() {
    let s = snapshot_of(&[(9, "One window"), (9, "Other name")]);
    assert_eq!(s.len(), 2);
    assert_eq!(s.handle_at(0), s.handle_at(1));
}

#[test]
fn snapshot_handle_lookup() {
    let s = snapshot_of(&[(1, "Editor"), (2, "Browser")]);
    assert!(s.contains_handle(WindowHandle::new(2)));
    assert!(!s.contains_handle(WindowHandle::new(3)));
    assert_eq!(s.index_of_handle(WindowHandle::new(2)), Some(1));
    assert_eq!(s.index_of_handle(WindowHandle::new(3)), None);
}

#[test]
fn reconcile_keeps_present_selection() {
    let mut t = SelectionTracker::new();
    t.select(WindowHandle::new(1));
    t.reconcile(&snapshot_of(&[(2, "Browser"), (1, "Editor")]));
    assert_eq!(t.current(), Some(WindowHandle::new(1)));
}

#[test]
fn reconcile_clears_absent_selection() {
    let mut t = SelectionTracker::new();
    t.select(WindowHandle::new(1));
    t.reconcile(&snapshot_of(&[(2, "Browser")]));
    assert_eq!(t.current(), None);
}

#[test]
fn reconcile_with_nothing_selected() {
    let mut t = SelectionTracker::new();
    t.reconcile(&snapshot_of(&[(2, "Browser")]));
    assert_eq!(t.current(), None);
}

#[test]
fn due_threshold() {
    assert!(!due(0, 0));
    assert!(!due(REFRESH_INTERVAL_MS, 0));
    assert!(due(REFRESH_INTERVAL_MS + 1, 0));
    assert!(!due(6000, 1000));
    assert!(due(6001, 1000));
    assert!(!due(3, 10));
    assert!(due(u64::MAX, 0));
}

#[test]
fn refresh_gate_records_ticks() {
    let mut g = RefreshGate::new(100);
    assert!(!g.due(5100));
    assert!(g.due(5101));
    g.tick(7000);
    assert!(!g.due(12000));
    assert!(g.due(12001));
}

#[test]
fn resize_with_no_selection_is_noop() {
    let core = Core::new(snapshot_of(&[(1, "Editor")]), 0);
    assert_eq!(core.current_selection(), None);
    assert!(core.on_resize_requested().is_none());
}

#[test]
fn resize_command_matches_preset() {
    let mut core = Core::new(snapshot_of(&[(1, "Editor")]), 0);
    core.set_selection(WindowHandle::new(1));
    core.set_preset(WindowResolution::Preset1080);
    let cmd = core.on_resize_requested().unwrap();
    assert_eq!(cmd.handle, WindowHandle::new(1));
    assert_eq!(cmd.width, 1920);
    assert_eq!(cmd.height, 1080);
    assert!(cmd.keep_position);
    assert!(cmd.keep_z_order);
}

#[test]
fn make_command_rejects_bad_geometry() {
    let h = WindowHandle::new(1);
    assert_eq!(make_command(h, 0, 100), Err(ResizeError::InvalidGeometry));
    assert_eq!(make_command(h, 100, 0), Err(ResizeError::InvalidGeometry));
    assert_eq!(
        make_command(h, 2147483648, 100),
        Err(ResizeError::InvalidGeometry)
    );
    let cmd = make_command(h, 640, 480).unwrap();
    assert_eq!((cmd.width, cmd.height), (640, 480));
    assert!(cmd.keep_position && cmd.keep_z_order);
}

#[test]
fn os_report_maps_to_error_taxonomy() {
    assert_eq!(interpret_os_report(true), Ok(()));
    assert_eq!(interpret_os_report(false), Err(ResizeError::TargetNotFound));
}

#[test]
fn core_refresh_cycle() {
    let mut core = Core::new(snapshot_of(&[(1, "Editor")]), 1000);
    assert!(!core.refresh_due(6000));
    assert!(core.refresh_due(6001));
    core.apply_snapshot(snapshot_of(&[(1, "Editor"), (2, "Browser")]), 6001);
    assert!(!core.refresh_due(11001));
    assert!(core.refresh_due(11002));
    assert_eq!(core.selected_preset(), WindowResolution::Preset720);
}

#[test]
fn selected_title_follows_selection() {
    let mut core = Core::new(snapshot_of(&[(1, "Editor"), (2, "Browser")]), 0);
    assert_eq!(core.selected_title(), None);
    core.set_selection(WindowHandle::new(2));
    assert_eq!(core.selected_title(), Some(String::from("Browser")));
}

#[test]
fn end_to_end_dedup_select_reconcile_resize() {
    // Two windows share the title "Notepad": only the first-seen entry stays.
    let snap = snapshot_of(&[(10, "Notepad"), (20, "Notepad")]);
    assert_eq!(snap.len(), 1);
    assert_eq!(snap.handle_at(0), WindowHandle::new(10));

    // Selecting h1 and then receiving a snapshot without h1 clears the selection.
    let mut core = Core::new(snap, 0);
    core.set_selection(WindowHandle::new(10));
    assert_eq!(core.current_selection(), Some(WindowHandle::new(10)));
    core.apply_snapshot(snapshot_of(&[(20, "Calculator")]), 6000);
    assert_eq!(core.current_selection(), None);

    // A resize request at "480x320" on a valid handle yields exactly one
    // geometry command with width 480, height 320 and no position change.
    core.apply_snapshot(snapshot_of(&[(30, "Calculator")]), 12000);
    core.set_selection(WindowHandle::new(30));
    core.set_preset(WindowResolution::Preset480);
    let cmd = core.on_resize_requested().unwrap();
    assert_eq!(cmd.handle.raw(), 30);
    assert_eq!((cmd.width, cmd.height), (480, 320));
    assert!(cmd.keep_position && cmd.keep_z_order);
}
