//! Decisions about the main window: where it is placed from the position
//! setting, what showing or hiding it involves, and how a window placed at
//! the cursor is kept on its monitor.

use vstd::prelude::*;

verus! {

/// The window positions a user can choose in the settings.
#[derive(Debug, Clone, Copy, PartialEq, Eq)]
pub enum ClippyPosition {
    Cursor,
    TopLeft,
    TopRight,
    BottomLeft,
    BottomRight,
    TopCenter,
    BottomCenter,
    LeftCenter,
    RightCenter,
    Center,
    TrayLeft,
    TrayBottomLeft,
    TrayRight,
    TrayBottomRight,
    TrayCenter,
    TrayBottomCenter,
}

/// The name under which a position is stored in the settings.
pub open spec fn position_name(p: ClippyPosition) -> Seq<char> {
    match p {
        ClippyPosition::Cursor => "cursor"@,
        ClippyPosition::TopLeft => "top_left"@,
        ClippyPosition::TopRight => "top_right"@,
        ClippyPosition::BottomLeft => "bottom_left"@,
        ClippyPosition::BottomRight => "bottom_right"@,
        ClippyPosition::TopCenter => "top_center"@,
        ClippyPosition::BottomCenter => "bottom_center"@,
        ClippyPosition::LeftCenter => "left_center"@,
        ClippyPosition::RightCenter => "right_center"@,
        ClippyPosition::Center => "center"@,
        ClippyPosition::TrayLeft => "tray_left"@,
        ClippyPosition::TrayBottomLeft => "tray_bottom_left"@,
        ClippyPosition::TrayRight => "tray_right"@,
        ClippyPosition::TrayBottomRight => "tray_bottom_right"@,
        ClippyPosition::TrayCenter => "tray_center"@,
        ClippyPosition::TrayBottomCenter => "tray_bottom_center"@,
    }
}

/// The position a stored name stands for, trying the positions in their
/// declared order.
pub open spec fn position_named(s: Seq<char>) -> Option<ClippyPosition> {
    if s == "cursor"@ {
        Some(ClippyPosition::Cursor)
    } else if s == "top_left"@ {
        Some(ClippyPosition::TopLeft)
    } else if s == "top_right"@ {
        Some(ClippyPosition::TopRight)
    } else if s == "bottom_left"@ {
        Some(ClippyPosition::BottomLeft)
    } else if s == "bottom_right"@ {
        Some(ClippyPosition::BottomRight)
    } else if s == "top_center"@ {
        Some(ClippyPosition::TopCenter)
    } else if s == "bottom_center"@ {
        Some(ClippyPosition::BottomCenter)
    } else if s == "left_center"@ {
        Some(ClippyPosition::LeftCenter)
    } else if s == "right_center"@ {
        Some(ClippyPosition::RightCenter)
    } else if s == "center"@ {
        Some(ClippyPosition::Center)
    } else if s == "tray_left"@ {
        Some(ClippyPosition::TrayLeft)
    } else if s == "tray_bottom_left"@ {
        Some(ClippyPosition::TrayBottomLeft)
    } else if s == "tray_right"@ {
        Some(ClippyPosition::TrayRight)
    } else if s == "tray_bottom_right"@ {
        Some(ClippyPosition::TrayBottomRight)
    } else if s == "tray_center"@ {
        Some(ClippyPosition::TrayCenter)
    } else if s == "tray_bottom_center"@ {
        Some(ClippyPosition::TrayBottomCenter)
    } else {
        None
    }
}

fn same_text(a: &str, b: &str) -> (r: bool)
    ensures
        r == (a@ == b@),
{
    a.to_owned() == b.to_owned()
}

impl ClippyPosition {
    /// The name under which the position is stored in the settings.
    pub fn name(&self) -> (s: &'static str)
        ensures
            s@ == position_name(*self),
    {
        match self {
            ClippyPosition::Cursor => "cursor",
            ClippyPosition::TopLeft => "top_left",
            ClippyPosition::TopRight => "top_right",
            ClippyPosition::BottomLeft => "bottom_left",
            ClippyPosition::BottomRight => "bottom_right",
            ClippyPosition::TopCenter => "top_center",
            ClippyPosition::BottomCenter => "bottom_center",
            ClippyPosition::LeftCenter => "left_center",
            ClippyPosition::RightCenter => "right_center",
            ClippyPosition::Center => "center",
            ClippyPosition::TrayLeft => "tray_left",
            ClippyPosition::TrayBottomLeft => "tray_bottom_left",
            ClippyPosition::TrayRight => "tray_right",
            ClippyPosition::TrayBottomRight => "tray_bottom_right",
            ClippyPosition::TrayCenter => "tray_center",
            ClippyPosition::TrayBottomCenter => "tray_bottom_center",
        }
    }

    /// The position stored under `name`, if any.
    pub fn from_name(name: &str) -> (p: Option<ClippyPosition>)
        ensures
            p == position_named(name@),
    {
        if same_text(name, "cursor") {
            Some(ClippyPosition::Cursor)
        } else if same_text(name, "top_left") {
            Some(ClippyPosition::TopLeft)
        } else if same_text(name, "top_right") {
            Some(ClippyPosition::TopRight)
        } else if same_text(name, "bottom_left") {
            Some(ClippyPosition::BottomLeft)
        } else if same_text(name, "bottom_right") {
            Some(ClippyPosition::BottomRight)
        } else if same_text(name, "top_center") {
            Some(ClippyPosition::TopCenter)
        } else if same_text(name, "bottom_center") {
            Some(ClippyPosition::BottomCenter)
        } else if same_text(name, "left_center") {
            Some(ClippyPosition::LeftCenter)
        } else if same_text(name, "right_center") {
            Some(ClippyPosition::RightCenter)
        } else if same_text(name, "center") {
            Some(ClippyPosition::Center)
        } else if same_text(name, "tray_left") {
            Some(ClippyPosition::TrayLeft)
        } else if same_text(name, "tray_bottom_left") {
            Some(ClippyPosition::TrayBottomLeft)
        } else if same_text(name, "tray_right") {
            Some(ClippyPosition::TrayRight)
        } else if same_text(name, "tray_bottom_right") {
            Some(ClippyPosition::TrayBottomRight)
        } else if same_text(name, "tray_center") {
            Some(ClippyPosition::TrayCenter)
        } else if same_text(name, "tray_bottom_center") {
            Some(ClippyPosition::TrayBottomCenter)
        } else {
            None
        }
    }
}

/// Every stored name leads back to its position, and no two positions share
/// a name: the names differ in length or in one of their first two letters.
pub proof fn lemma_position_name_round_trip(p: ClippyPosition)
    ensures
        position_named(position_name(p)) == Some(p),
{
    reveal_strlit("cursor");
    reveal_strlit("top_left");
    reveal_strlit("top_right");
    reveal_strlit("bottom_left");
    reveal_strlit("bottom_right");
    reveal_strlit("top_center");
    reveal_strlit("bottom_center");
    reveal_strlit("left_center");
    reveal_strlit("right_center");
    reveal_strlit("center");
    reveal_strlit("tray_left");
    reveal_strlit("tray_bottom_left");
    reveal_strlit("tray_right");
    reveal_strlit("tray_bottom_right");
    reveal_strlit("tray_center");
    reveal_strlit("tray_bottom_center");
    assert("cursor"@.len() == 6 && "cursor"@[0] == 'c' && "cursor"@[1] == 'u');
    assert("top_left"@.len() == 8 && "top_left"@[0] == 't' && "top_left"@[1] == 'o');
    assert("top_right"@.len() == 9 && "top_right"@[0] == 't' && "top_right"@[1] == 'o');
    assert("bottom_left"@.len() == 11 && "bottom_left"@[0] == 'b' && "bottom_left"@[1] == 'o');
    assert("bottom_right"@.len() == 12 && "bottom_right"@[0] == 'b' && "bottom_right"@[1] == 'o');
    assert("top_center"@.len() == 10 && "top_center"@[0] == 't' && "top_center"@[1] == 'o');
    assert("bottom_center"@.len() == 13 && "bottom_center"@[0] == 'b' && "bottom_center"@[1] == 'o');
    assert("left_center"@.len() == 11 && "left_center"@[0] == 'l' && "left_center"@[1] == 'e');
    assert("right_center"@.len() == 12 && "right_center"@[0] == 'r' && "right_center"@[1] == 'i');
    assert("center"@.len() == 6 && "center"@[0] == 'c' && "center"@[1] == 'e');
    assert("tray_left"@.len() == 9 && "tray_left"@[0] == 't' && "tray_left"@[1] == 'r');
    assert("tray_bottom_left"@.len() == 16 && "tray_bottom_left"@[0] == 't' && "tray_bottom_left"@[1] == 'r');
    assert("tray_right"@.len() == 10 && "tray_right"@[0] == 't' && "tray_right"@[1] == 'r');
    assert("tray_bottom_right"@.len() == 17 && "tray_bottom_right"@[0] == 't' && "tray_bottom_right"@[1] == 'r');
    assert("tray_center"@.len() == 11 && "tray_center"@[0] == 't' && "tray_center"@[1] == 'r');
    assert("tray_bottom_center"@.len() == 18 && "tray_bottom_center"@[0] == 't' && "tray_bottom_center"@[1] == 'r');
}


/// The screen anchors the window can be moved to (the positions of
/// `tauri_plugin_positioner` that the settings offer).
#[derive(Debug, Clone, Copy, PartialEq, Eq)]
pub enum WindowAnchor {
    TopLeft,
    TopRight,
    BottomLeft,
    BottomRight,
    TopCenter,
    BottomCenter,
    LeftCenter,
    RightCenter,
    Center,
    TrayLeft,
    TrayBottomLeft,
    TrayRight,
    TrayBottomRight,
    TrayCenter,
    TrayBottomCenter,
}

/// Where the main window goes when it is shown.
#[derive(Debug, Clone, Copy, PartialEq, Eq)]
pub enum Placement {
    /// Next to the mouse cursor.
    NearCursor,
    /// At a fixed anchor of the screen.
    Anchored(WindowAnchor),
}

/// The placement a position setting asks for.
pub open spec fn placement_of(p: ClippyPosition) -> Placement {
    match p {
        ClippyPosition::Cursor => Placement::NearCursor,
        ClippyPosition::TopLeft => Placement::Anchored(WindowAnchor::TopLeft),
        ClippyPosition::TopRight => Placement::Anchored(WindowAnchor::TopRight),
        ClippyPosition::BottomLeft => Placement::Anchored(WindowAnchor::BottomLeft),
        ClippyPosition::BottomRight => Placement::Anchored(WindowAnchor::BottomRight),
        ClippyPosition::TopCenter => Placement::Anchored(WindowAnchor::TopCenter),
        ClippyPosition::BottomCenter => Placement::Anchored(WindowAnchor::BottomCenter),
        ClippyPosition::LeftCenter => Placement::Anchored(WindowAnchor::LeftCenter),
        ClippyPosition::RightCenter => Placement::Anchored(WindowAnchor::RightCenter),
        ClippyPosition::Center => Placement::Anchored(WindowAnchor::Center),
        ClippyPosition::TrayLeft => Placement::Anchored(WindowAnchor::TrayLeft),
        ClippyPosition::TrayBottomLeft => Placement::Anchored(WindowAnchor::TrayBottomLeft),
        ClippyPosition::TrayRight => Placement::Anchored(WindowAnchor::TrayRight),
        ClippyPosition::TrayBottomRight => Placement::Anchored(WindowAnchor::TrayBottomRight),
        ClippyPosition::TrayCenter => Placement::Anchored(WindowAnchor::TrayCenter),
        ClippyPosition::TrayBottomCenter => Placement::Anchored(WindowAnchor::TrayBottomCenter),
    }
}

/// The placement for a stored position setting; a setting that names no
/// position falls back to the bottom right corner.
pub open spec fn placement_for_setting(setting: Seq<char>) -> Placement {
    match position_named(setting) {
        Some(p) => placement_of(p),
        None => Placement::Anchored(WindowAnchor::BottomRight),
    }
}

/// Decides where the main window goes from the stored position setting.
pub fn main_window_placement(setting: &str) -> (r: Placement)
    ensures
        r == placement_for_setting(setting@),
{
    match ClippyPosition::from_name(setting) {
        Some(ClippyPosition::Cursor) => Placement::NearCursor,
        Some(ClippyPosition::TopLeft) => Placement::Anchored(WindowAnchor::TopLeft),
        Some(ClippyPosition::TopRight) => Placement::Anchored(WindowAnchor::TopRight),
        Some(ClippyPosition::BottomLeft) => Placement::Anchored(WindowAnchor::BottomLeft),
        Some(ClippyPosition::BottomRight) => Placement::Anchored(WindowAnchor::BottomRight),
        Some(ClippyPosition::TopCenter) => Placement::Anchored(WindowAnchor::TopCenter),
        Some(ClippyPosition::BottomCenter) => Placement::Anchored(WindowAnchor::BottomCenter),
        Some(ClippyPosition::LeftCenter) => Placement::Anchored(WindowAnchor::LeftCenter),
        Some(ClippyPosition::RightCenter) => Placement::Anchored(WindowAnchor::RightCenter),
        Some(ClippyPosition::Center) => Placement::Anchored(WindowAnchor::Center),
        Some(ClippyPosition::TrayLeft) => Placement::Anchored(WindowAnchor::TrayLeft),
        Some(ClippyPosition::TrayBottomLeft) => Placement::Anchored(WindowAnchor::TrayBottomLeft),
        Some(ClippyPosition::TrayRight) => Placement::Anchored(WindowAnchor::TrayRight),
        Some(ClippyPosition::TrayBottomRight) => Placement::Anchored(WindowAnchor::TrayBottomRight),
        Some(ClippyPosition::TrayCenter) => Placement::Anchored(WindowAnchor::TrayCenter),
        Some(ClippyPosition::TrayBottomCenter) => Placement::Anchored(
            WindowAnchor::TrayBottomCenter,
        ),
        None => Placement::Anchored(WindowAnchor::BottomRight),
    }
}

/// The setting stored for a position places the window where that position
/// says.
pub proof fn lemma_stored_position_placement(p: ClippyPosition)
    ensures
        placement_for_setting(position_name(p)) == placement_of(p),
{
    lemma_position_name_round_trip(p);
}

/// One step of showing or hiding the main window.
#[derive(Debug, Clone, Copy, PartialEq, Eq)]
pub enum WindowAction {
    /// Stop the task that follows the window, if one runs.
    StopWindowWatcher,
    /// Hide the main window.
    Hide,
    /// Unregister the window's hotkeys, with the given flag.
    UnregisterHotkeys(bool),
    /// Tell the front end whether its global hotkeys are enabled.
    SetGlobalHotkeysEnabled(bool),
    /// Move the window where the position setting says.
    UpdatePosition,
    /// Resize the window to the main window's size.
    ResizeMainWindow,
    /// Switch the front end to the recent clipboards tab.
    ShowRecentClipboards,
    /// Show the main window.
    Show,
    /// Register the window's hotkeys, with the given flag.
    RegisterHotkeys(bool),
    /// Give the main window the focus.
    Focus,
}

/// The steps of toggling the main window, given whether it is visible.
pub open spec fn toggle_plan(visible: bool) -> Seq<WindowAction> {
    if visible {
        seq![
            WindowAction::StopWindowWatcher,
            WindowAction::Hide,
            WindowAction::UnregisterHotkeys(false),
            WindowAction::SetGlobalHotkeysEnabled(false),
        ]
    } else {
        seq![
            WindowAction::UpdatePosition,
            WindowAction::ResizeMainWindow,
            WindowAction::ShowRecentClipboards,
            WindowAction::Show,
            WindowAction::RegisterHotkeys(true),
            WindowAction::SetGlobalHotkeysEnabled(true),
            WindowAction::Focus,
        ]
    }
}

/// Decides the steps of toggling the main window: a visible window is
/// hidden and its hotkeys released; a hidden one is placed, sized, switched
/// to the recent clipboards, shown, given its hotkeys and focused.
pub fn toggle_main_window_plan(visible: bool) -> (plan: Vec<WindowAction>)
    ensures
        plan@ == toggle_plan(visible),
{
    let mut plan: Vec<WindowAction> = Vec::new();
    if visible {
        plan.push(WindowAction::StopWindowWatcher);
        plan.push(WindowAction::Hide);
        plan.push(WindowAction::UnregisterHotkeys(false));
        plan.push(WindowAction::SetGlobalHotkeysEnabled(false));
    } else {
        plan.push(WindowAction::UpdatePosition);
        plan.push(WindowAction::ResizeMainWindow);
        plan.push(WindowAction::ShowRecentClipboards);
        plan.push(WindowAction::Show);
        plan.push(WindowAction::RegisterHotkeys(true));
        plan.push(WindowAction::SetGlobalHotkeysEnabled(true));
        plan.push(WindowAction::Focus);
    }
    assert(plan@ =~= toggle_plan(visible));
    plan
}

/// Toggling hides a visible window and shows a hidden one, never both, and
/// the front end's global hotkeys end up enabled exactly when the window is
/// shown.
pub proof fn lemma_toggle_flips_visibility(visible: bool)
    ensures
        toggle_plan(visible).contains(WindowAction::Hide) == visible,
        toggle_plan(visible).contains(WindowAction::Show) == !visible,
        toggle_plan(visible).contains(WindowAction::SetGlobalHotkeysEnabled(!visible)),
        !toggle_plan(visible).contains(WindowAction::SetGlobalHotkeysEnabled(visible)),
{
    let plan = toggle_plan(visible);
    if visible {
        assert(plan[1] == WindowAction::Hide);
        assert(plan[3] == WindowAction::SetGlobalHotkeysEnabled(false));
    } else {
        assert(plan[3] == WindowAction::Show);
        assert(plan[5] == WindowAction::SetGlobalHotkeysEnabled(true));
    }
}

/// The coordinate a window of length `extent` gets on one axis of a monitor
/// spanning `start..end`: first pushed to at least `start`, then to at most
/// `end - extent`.
pub open spec fn constrained_coordinate(pos: int, start: int, end: int, extent: int) -> int {
    let low = if pos < start { start } else { pos };
    if low > end - extent { end - extent } else { low }
}

/// Keeps a window placed near the cursor on its monitor along one axis. The
/// window's length is taken as an `i32` the way `as` converts it, wrapping
/// lengths above `i32::MAX` to negative numbers.
pub fn constrain_to_monitor(pos: i32, start: i32, end: i32, extent: u32) -> (r: i32)
    requires
        i32::MIN <= end - (extent as i32) <= i32::MAX,
    ensures
        r == constrained_coordinate(pos as int, start as int, end as int, (extent as i32) as int),
        start <= end - (extent as i32) ==> start <= r <= end - (extent as i32),
        r <= end - (extent as i32),
{
    let low = if pos < start { start } else { pos };
    let signed_extent: i32 = #[verifier::truncate] (extent as i32);
    let high = end - signed_extent;
    if low > high { high } else { low }
}


/// Every position, in declaration order.
pub open spec fn all_positions() -> Seq<ClippyPosition> {
    seq![
        ClippyPosition::Cursor,
        ClippyPosition::TopLeft,
        ClippyPosition::TopRight,
        ClippyPosition::BottomLeft,
        ClippyPosition::BottomRight,
        ClippyPosition::TopCenter,
        ClippyPosition::BottomCenter,
        ClippyPosition::LeftCenter,
        ClippyPosition::RightCenter,
        ClippyPosition::Center,
        ClippyPosition::TrayLeft,
        ClippyPosition::TrayBottomLeft,
        ClippyPosition::TrayRight,
        ClippyPosition::TrayBottomRight,
        ClippyPosition::TrayCenter,
        ClippyPosition::TrayBottomCenter,
    ]
}

impl ClippyPosition {
    /// Every position, in declaration order.
    pub fn all() -> (v: Vec<ClippyPosition>)
        ensures
            v@ == all_positions(),
    {
        let mut v: Vec<ClippyPosition> = Vec::new();
        v.push(ClippyPosition::Cursor);
        v.push(ClippyPosition::TopLeft);
        v.push(ClippyPosition::TopRight);
        v.push(ClippyPosition::BottomLeft);
        v.push(ClippyPosition::BottomRight);
        v.push(ClippyPosition::TopCenter);
        v.push(ClippyPosition::BottomCenter);
        v.push(ClippyPosition::LeftCenter);
        v.push(ClippyPosition::RightCenter);
        v.push(ClippyPosition::Center);
        v.push(ClippyPosition::TrayLeft);
        v.push(ClippyPosition::TrayBottomLeft);
        v.push(ClippyPosition::TrayRight);
        v.push(ClippyPosition::TrayBottomRight);
        v.push(ClippyPosition::TrayCenter);
        v.push(ClippyPosition::TrayBottomCenter);
        assert(v@ =~= all_positions());
        v
    }
}

/// Every position is among all positions.
pub proof fn lemma_all_positions_complete(p: ClippyPosition)
    ensures
        all_positions().contains(p),
        all_positions().len() == 16,
{
    match p {
        ClippyPosition::Cursor => assert(all_positions()[0] == p),
        ClippyPosition::TopLeft => assert(all_positions()[1] == p),
        ClippyPosition::TopRight => assert(all_positions()[2] == p),
        ClippyPosition::BottomLeft => assert(all_positions()[3] == p),
        ClippyPosition::BottomRight => assert(all_positions()[4] == p),
        ClippyPosition::TopCenter => assert(all_positions()[5] == p),
        ClippyPosition::BottomCenter => assert(all_positions()[6] == p),
        ClippyPosition::LeftCenter => assert(all_positions()[7] == p),
        ClippyPosition::RightCenter => assert(all_positions()[8] == p),
        ClippyPosition::Center => assert(all_positions()[9] == p),
        ClippyPosition::TrayLeft => assert(all_positions()[10] == p),
        ClippyPosition::TrayBottomLeft => assert(all_positions()[11] == p),
        ClippyPosition::TrayRight => assert(all_positions()[12] == p),
        ClippyPosition::TrayBottomRight => assert(all_positions()[13] == p),
        ClippyPosition::TrayCenter => assert(all_positions()[14] == p),
        ClippyPosition::TrayBottomCenter => assert(all_positions()[15] == p),
    }
}

/// The name of a screen anchor, in the same spelling as the position
/// settings.
pub open spec fn anchor_name(a: WindowAnchor) -> Seq<char> {
    match a {
        WindowAnchor::TopLeft => "top_left"@,
        WindowAnchor::TopRight => "top_right"@,
        WindowAnchor::BottomLeft => "bottom_left"@,
        WindowAnchor::BottomRight => "bottom_right"@,
        WindowAnchor::TopCenter => "top_center"@,
        WindowAnchor::BottomCenter => "bottom_center"@,
        WindowAnchor::LeftCenter => "left_center"@,
        WindowAnchor::RightCenter => "right_center"@,
        WindowAnchor::Center => "center"@,
        WindowAnchor::TrayLeft => "tray_left"@,
        WindowAnchor::TrayBottomLeft => "tray_bottom_left"@,
        WindowAnchor::TrayRight => "tray_right"@,
        WindowAnchor::TrayBottomRight => "tray_bottom_right"@,
        WindowAnchor::TrayCenter => "tray_center"@,
        WindowAnchor::TrayBottomCenter => "tray_bottom_center"@,
    }
}

/// A stored position places the window at the anchor of the same name, or
/// next to the cursor for the cursor setting; a setting that names no
/// position places it at the bottom right.
pub proof fn lemma_placement_matches_setting_name(p: ClippyPosition, setting: Seq<char>)
    ensures
        p == ClippyPosition::Cursor ==> placement_for_setting(position_name(p))
            == Placement::NearCursor,
        p != ClippyPosition::Cursor ==> (placement_for_setting(position_name(p)) matches Placement::Anchored(a)
            && anchor_name(a) == position_name(p)),
        position_named(setting) is None ==> placement_for_setting(setting) == Placement::Anchored(
            WindowAnchor::BottomRight,
        ),
{
    lemma_position_name_round_trip(p);
}

/// A coordinate at which the window already lies wholly on the monitor is
/// kept; one before the monitor's start is moved to the start, one past its
/// end to the last place where the window still fits; and the result never
/// lets the window run past the monitor's end.
pub proof fn lemma_constrained_coordinate(pos: int, start: int, end: int, extent: int)
    ensures
        start <= pos <= end - extent ==> constrained_coordinate(pos, start, end, extent) == pos,
        pos < start <= end - extent ==> constrained_coordinate(pos, start, end, extent) == start,
        start <= end - extent < pos ==> constrained_coordinate(pos, start, end, extent) == end
            - extent,
        constrained_coordinate(pos, start, end, extent) <= end - extent,
        start <= end - extent ==> start <= constrained_coordinate(pos, start, end, extent),
{
}

/// Moving the cursor further along never moves the window back.
pub proof fn lemma_constrained_coordinate_monotonic(p: int, q: int, start: int, end: int, extent: int)
    requires
        p <= q,
    ensures
        constrained_coordinate(p, start, end, extent) <= constrained_coordinate(q, start, end, extent),
{
}

/// Hiding stops the window watcher before the window goes and releases the
/// hotkeys after it; showing places and sizes the window and switches it to
/// the recent clipboards before it appears, then registers the hotkeys and
/// gives it the focus last.
pub proof fn lemma_toggle_order(visible: bool)
    ensures
        visible ==> {
            let plan = toggle_plan(true);
            exists|w: int, h: int, u: int|
                #![trigger plan[w], plan[h], plan[u]]
                0 <= w < h < u < plan.len() && plan[w] == WindowAction::StopWindowWatcher && plan[h]
                    == WindowAction::Hide && plan[u] == WindowAction::UnregisterHotkeys(false)
        },
        !visible ==> {
            let plan = toggle_plan(false);
            &&& exists|p: int, z: int, r: int, s: int|
                #![trigger plan[p], plan[z], plan[r], plan[s]]
                0 <= p < s && 0 <= z < s && 0 <= r < s && s < plan.len() && plan[p]
                    == WindowAction::UpdatePosition && plan[z] == WindowAction::ResizeMainWindow
                    && plan[r] == WindowAction::ShowRecentClipboards && plan[s]
                    == WindowAction::Show
            &&& plan.last() == WindowAction::Focus
            &&& plan.contains(WindowAction::RegisterHotkeys(true))
        },
{
    let hide = toggle_plan(true);
    assert(hide[0] == WindowAction::StopWindowWatcher && hide[1] == WindowAction::Hide && hide[2]
        == WindowAction::UnregisterHotkeys(false));
    let show = toggle_plan(false);
    assert(show[0] == WindowAction::UpdatePosition && show[1] == WindowAction::ResizeMainWindow
        && show[2] == WindowAction::ShowRecentClipboards && show[3] == WindowAction::Show);
    assert(show[4] == WindowAction::RegisterHotkeys(true));
}

} // verus!
