use clippy_core::window::{
    constrain_to_monitor, main_window_placement, toggle_main_window_plan, ClippyPosition,
    Placement, WindowAction, WindowAnchor,
};

#[test]
fn every_position_name_round_trips() {
    let all = ClippyPosition::all();
    assert_eq!(all.len(), 16);
    for p in all {
        assert_eq!(ClippyPosition::from_name(p.name()), Some(p));
    }
    assert_eq!(ClippyPosition::from_name("Cursor"), None);
    assert_eq!(ClippyPosition::from_name(""), None);
}

#[test]
fn placement_follows_the_setting() {
    assert_eq!(main_window_placement("cursor"), Placement::NearCursor);
    assert_eq!(main_window_placement("top_left"), Placement::Anchored(WindowAnchor::TopLeft));
    assert_eq!(
        main_window_placement("tray_bottom_center"),
        Placement::Anchored(WindowAnchor::TrayBottomCenter)
    );
    assert_eq!(main_window_placement("center"), Placement::Anchored(WindowAnchor::Center));
}

#[test]
fn unknown_setting_falls_back_to_bottom_right() {
    assert_eq!(main_window_placement("somewhere"), Placement::Anchored(WindowAnchor::BottomRight));
    assert_eq!(main_window_placement(""), Placement::Anchored(WindowAnchor::BottomRight));
}

#[test]
fn hiding_a_visible_window() {
    assert_eq!(
        toggle_main_window_plan(true),
        vec![
            WindowAction::StopWindowWatcher,
            WindowAction::Hide,
            WindowAction::UnregisterHotkeys(false),
            WindowAction::SetGlobalHotkeysEnabled(false),
        ]
    );
}

#[test]
fn showing_a_hidden_window() {
    assert_eq!(
        toggle_main_window_plan(false),
        vec![
            WindowAction::UpdatePosition,
            WindowAction::ResizeMainWindow,
            WindowAction::ShowRecentClipboards,
            WindowAction::Show,
            WindowAction::RegisterHotkeys(true),
            WindowAction::SetGlobalHotkeysEnabled(true),
            WindowAction::Focus,
        ]
    );
}

#[test]
fn window_is_kept_on_its_monitor() {
    assert_eq!(constrain_to_monitor(500, 0, 1920, 400), 500);
    assert_eq!(constrain_to_monitor(-50, 0, 1920, 400), 0);
    assert_eq!(constrain_to_monitor(1800, 0, 1920, 400), 1520);
    assert_eq!(constrain_to_monitor(100, 1920, 3840, 400), 1920);
    // A window wider than the monitor ends at the monitor's end minus its width.
    assert_eq!(constrain_to_monitor(10, 0, 300, 400), -100);
    // A length above i32::MAX wraps to a negative number, as `as i32` does.
    assert_eq!(constrain_to_monitor(10, 0, 300, u32::MAX), 10);
    assert_eq!(constrain_to_monitor(500, 0, 300, u32::MAX), 301);
}
