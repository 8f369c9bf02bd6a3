//! Where the windows stand, how large they are, and when they show and hide.

use crate::settings::PopupMode;
use vstd::prelude::*;

verus! {

/// Label of the popup window.
pub const POPUP_LABEL: &'static str = "popup";

/// Label of the window where questions are answered.
pub const ASK_LABEL: &'static str = "ask";

/// Gap between the tray icon and the popup, in physical pixels.
pub const ANCHOR_GAP_PX: i32 = 6;

/// Width of the popup, in logical pixels.
pub const POPUP_W: u32 = 360;

/// Least height of the popup, in logical pixels.
pub const POPUP_MIN_H: u32 = 160;

/// Greatest height of the popup, in logical pixels.
pub const POPUP_MAX_H: u32 = 560;

/// Side of the lamp, in logical pixels.
pub const LAMP_SIZE: u32 = 56;

/// Width of the window for questions, in logical pixels.
pub const ASK_W: u32 = 420;

/// Least height of the window for questions, in logical pixels.
pub const ASK_MIN_H: u32 = 140;

/// Greatest height of the window for questions, in logical pixels.
pub const ASK_MAX_H: u32 = 640;

/// Least time between two writes of the popup's position, in milliseconds.
pub const POPUP_POS_PERSIST_GAP_MS: u64 = 250;

// ---------------------------------------------------------------------------
// Geometry, in physical pixels.
// ---------------------------------------------------------------------------

/// Whether `n` can be a coordinate.
pub open spec fn coordinate(n: int) -> bool {
    i32::MIN <= n <= i32::MAX
}

/// A size as a signed number: one that is too large for that turns negative.
pub open spec fn signed(n: u32) -> int {
    if n <= i32::MAX {
        n as int
    } else {
        n - 0x1_0000_0000
    }
}

fn signed_of(n: u32) -> (out: i32)
    ensures
        out == signed(n),
{
    if n <= 0x7fff_ffff {
        n as i32
    } else {
        -((u32::MAX - n) as i32) - 1
    }
}

/// Half of `n`, cut off towards zero.
pub open spec fn half(n: int) -> int {
    if n >= 0 {
        n / 2
    } else {
        -((-n) / 2)
    }
}

fn half_i32(n: i32) -> (out: i32)
    ensures
        out == half(n as int),
{
    if n >= 0 {
        n / 2
    } else if n == i32::MIN {
        -0x4000_0000
    } else {
        -((-n) / 2)
    }
}

/// The larger of two numbers.
pub open spec fn larger(a: int, b: int) -> int {
    if a >= b {
        a
    } else {
        b
    }
}

/// The smaller of two numbers.
pub open spec fn smaller(a: int, b: int) -> int {
    if a <= b {
        a
    } else {
        b
    }
}

/// `n` brought between `low` and `high`.
pub open spec fn between(n: int, low: int, high: int) -> int {
    if n < low {
        low
    } else if n > high {
        high
    } else {
        n
    }
}

/// The last place along one axis where something of this size fits into the
/// area, or the area's start where it does not fit at all.
pub open spec fn last_fit(start: int, extent: int, size: int) -> int {
    larger(start + extent - size, start)
}

/// Where something of this size stands along one axis of the area, when it is
/// moved there from `n` by as little as can be.
pub open spec fn fitted(n: int, size: int, start: int, extent: int) -> int {
    between(n, start, last_fit(start, extent, size))
}

/// Where the popup stands horizontally: centred on the tray icon, and within
/// the area.
pub open spec fn anchor_x(tray_x: int, tray_w: int, popup_w: int, work_x: int, work_w: int) -> int {
    fitted(tray_x + half(tray_w) - half(popup_w), popup_w, work_x, work_w)
}

/// Where the popup stands vertically: above a tray icon in the lower half of the
/// area, below one in the upper half.
pub open spec fn anchor_y(tray_y: int, tray_h: int, popup_h: int, work_y: int, work_h: int) -> int {
    if tray_y > work_y + half(work_h) {
        larger(tray_y - popup_h - ANCHOR_GAP_PX, work_y)
    } else {
        smaller(tray_y + tray_h + ANCHOR_GAP_PX, last_fit(work_y, work_h, popup_h))
    }
}

fn max_i32(a: i32, b: i32) -> (out: i32)
    ensures
        out == larger(a as int, b as int),
{
    if a >= b {
        a
    } else {
        b
    }
}

fn min_i32(a: i32, b: i32) -> (out: i32)
    ensures
        out == smaller(a as int, b as int),
{
    if a <= b {
        a
    } else {
        b
    }
}

fn clamp_i32(n: i32, low: i32, high: i32) -> (out: i32)
    ensures
        out == between(n as int, low as int, high as int),
{
    if n < low {
        low
    } else if n > high {
        high
    } else {
        n
    }
}

/// Where the popup stands beside the tray icon. All numbers on the way must be
/// coordinates.
pub fn compute_anchor_position(
    tray_pos: (i32, i32),
    tray_size: (u32, u32),
    popup_size: (u32, u32),
    work_area: ((i32, i32), (u32, u32)),
) -> (out: (i32, i32))
    requires
        coordinate(tray_pos.0 + half(signed(tray_size.0))),
        coordinate(tray_pos.0 + half(signed(tray_size.0)) - half(signed(popup_size.0))),
        coordinate(work_area.0.0 + signed(work_area.1.0)),
        coordinate(work_area.0.0 + signed(work_area.1.0) - signed(popup_size.0)),
        coordinate(work_area.0.1 + half(signed(work_area.1.1))),
        tray_pos.1 > work_area.0.1 + half(signed(work_area.1.1)) ==> coordinate(
            tray_pos.1 - signed(popup_size.1),
        ) && coordinate(tray_pos.1 - signed(popup_size.1) - ANCHOR_GAP_PX),
        tray_pos.1 <= work_area.0.1 + half(signed(work_area.1.1)) ==> coordinate(
            work_area.0.1 + signed(work_area.1.1),
        ) && coordinate(work_area.0.1 + signed(work_area.1.1) - signed(popup_size.1))
            && coordinate(tray_pos.1 + signed(tray_size.1)) && coordinate(
            tray_pos.1 + signed(tray_size.1) + ANCHOR_GAP_PX,
        ),
    ensures
        out.0 == anchor_x(
            tray_pos.0 as int,
            signed(tray_size.0),
            signed(popup_size.0),
            work_area.0.0 as int,
            signed(work_area.1.0),
        ),
        out.1 == anchor_y(
            tray_pos.1 as int,
            signed(tray_size.1),
            signed(popup_size.1),
            work_area.0.1 as int,
            signed(work_area.1.1),
        ),
{
    let tray_x: i32 = tray_pos.0;
    let tray_y: i32 = tray_pos.1;
    let tray_w: i32 = signed_of(tray_size.0);
    let tray_h: i32 = signed_of(tray_size.1);
    let popup_w: i32 = signed_of(popup_size.0);
    let popup_h: i32 = signed_of(popup_size.1);
    let work_x: i32 = work_area.0.0;
    let work_y: i32 = work_area.0.1;
    let work_w: i32 = signed_of(work_area.1.0);
    let work_h: i32 = signed_of(work_area.1.1);
    let tray_center_x: i32 = tray_x + half_i32(tray_w);
    let max_x: i32 = max_i32(work_x + work_w - popup_w, work_x);
    let x: i32 = clamp_i32(tray_center_x - half_i32(popup_w), work_x, max_x);
    let work_mid_y: i32 = work_y + half_i32(work_h);
    let y: i32 = if tray_y > work_mid_y {
        max_i32(tray_y - popup_h - ANCHOR_GAP_PX, work_y)
    } else {
        let max_y: i32 = max_i32(work_y + work_h - popup_h, work_y);
        min_i32(tray_y + tray_h + ANCHOR_GAP_PX, max_y)
    };
    (x, y)
}

/// Whether something of this size can be moved onto the area: all numbers on the
/// way are coordinates.
pub open spec fn can_fit(size: (u32, u32), work_area: ((i32, i32), (u32, u32))) -> bool {
    &&& coordinate(work_area.0.0 + signed(work_area.1.0))
    &&& coordinate(work_area.0.0 + signed(work_area.1.0) - signed(size.0))
    &&& coordinate(work_area.0.1 + signed(work_area.1.1))
    &&& coordinate(work_area.0.1 + signed(work_area.1.1) - signed(size.1))
}

/// Where a window stands once it is moved onto the area by as little as can be.
pub open spec fn fitted_onto(
    pos: (i32, i32),
    size: (u32, u32),
    work_area: ((i32, i32), (u32, u32)),
) -> (int, int) {
    (
        fitted(pos.0 as int, signed(size.0), work_area.0.0 as int, signed(work_area.1.0)),
        fitted(pos.1 as int, signed(size.1), work_area.0.1 as int, signed(work_area.1.1)),
    )
}

/// Where a window stands once it is moved onto the area by as little as can be.
pub fn clamp_rect_onto_work_area(
    pos: (i32, i32),
    size: (u32, u32),
    work_area: ((i32, i32), (u32, u32)),
) -> (out: (i32, i32))
    requires
        can_fit(size, work_area),
    ensures
        out.0 == fitted_onto(pos, size, work_area).0,
        out.1 == fitted_onto(pos, size, work_area).1,
{
    let work_x: i32 = work_area.0.0;
    let work_y: i32 = work_area.0.1;
    let max_x: i32 = max_i32(work_x + signed_of(work_area.1.0) - signed_of(size.0), work_x);
    let max_y: i32 = max_i32(work_y + signed_of(work_area.1.1) - signed_of(size.1), work_y);
    (clamp_i32(pos.0, work_x, max_x), clamp_i32(pos.1, work_y, max_y))
}

/// Where a window stands in the middle of the area.
pub fn compute_center_position(
    window_size: (u32, u32),
    work_area: ((i32, i32), (u32, u32)),
) -> (out: (i32, i32))
    requires
        coordinate(signed(work_area.1.0) - signed(window_size.0)),
        coordinate(signed(work_area.1.1) - signed(window_size.1)),
        coordinate(work_area.0.0 + half(signed(work_area.1.0) - signed(window_size.0))),
        coordinate(work_area.0.1 + half(signed(work_area.1.1) - signed(window_size.1))),
    ensures
        out.0 == work_area.0.0 + half(signed(work_area.1.0) - signed(window_size.0)),
        out.1 == work_area.0.1 + half(signed(work_area.1.1) - signed(window_size.1)),
{
    let x: i32 = work_area.0.0 + half_i32(signed_of(work_area.1.0) - signed_of(window_size.0));
    let y: i32 = work_area.0.1 + half_i32(signed_of(work_area.1.1) - signed_of(window_size.1));
    (x, y)
}

/// What is moved onto the area starts on it; where it fits, it lies on it whole.
pub proof fn law_fitted_is_on_the_area(n: int, size: int, start: int, extent: int)
    requires
        size >= 0,
        extent >= 0,
    ensures
        fitted(n, size, start, extent) >= start,
        size <= extent ==> fitted(n, size, start, extent) + size <= start + extent,
        size > extent ==> fitted(n, size, start, extent) == start,
{
}

/// What lies on the area stays where it is, and moving twice is moving once.
pub proof fn law_fitted_moves_no_further(n: int, size: int, start: int, extent: int)
    ensures
        start <= n && n + size <= start + extent ==> fitted(n, size, start, extent) == n,
        fitted(fitted(n, size, start, extent), size, start, extent) == fitted(
            n,
            size,
            start,
            extent,
        ),
{
}

/// The popup lies within the area from left to right, and neither above its top
/// nor, beside a tray icon on the area and where it fits, below its bottom.
pub proof fn law_anchored_popup_is_on_the_area(
    tray_y: int,
    tray_h: int,
    tray_x: int,
    tray_w: int,
    popup_w: int,
    popup_h: int,
    work_x: int,
    work_y: int,
    work_w: int,
    work_h: int,
)
    requires
        tray_w >= 0 && tray_h >= 0 && popup_w >= 0 && popup_h >= 0 && work_w >= 0 && work_h >= 0,
        popup_w <= work_w && popup_h <= work_h,
        work_y <= tray_y <= work_y + work_h,
    ensures
        work_x <= anchor_x(tray_x, tray_w, popup_w, work_x, work_w),
        anchor_x(tray_x, tray_w, popup_w, work_x, work_w) + popup_w <= work_x + work_w,
        work_y <= anchor_y(tray_y, tray_h, popup_h, work_y, work_h),
        anchor_y(tray_y, tray_h, popup_h, work_y, work_h) + popup_h <= work_y + work_h,
{
}

/// The margins on either side of a window in the middle differ by at most one.
pub proof fn law_centred(size: int, start: int, extent: int)
    ensures
        ({
            let before = half(extent - size);
            let after = extent - size - before;
            -1 <= after - before <= 1
        }),
{
}

// ---------------------------------------------------------------------------
// Decisions.
// ---------------------------------------------------------------------------

/// Whether a move that was seen is the user's: one that this program made itself
/// is taken off the moves it waits for.
pub fn is_user_initiated_move(pending: &mut u32) -> (out: bool)
    ensures
        out == (*old(pending) == 0),
        *final(pending) == if *old(pending) == 0 {
            0
        } else {
            (*old(pending) - 1) as u32
        },
{
    if *pending > 0 {
        *pending = *pending - 1;
        false
    } else {
        true
    }
}

/// Whether the popup hides when it loses the focus: not while it is pinned.
pub fn should_hide_on_blur(pinned: bool) -> (out: bool)
    ensures
        out == !pinned,
{
    !pinned
}

/// Whether the popup goes to the tray when it opens: not while it is pinned.
pub fn should_anchor_on_open(pinned: bool) -> (out: bool)
    ensures
        out == !pinned,
{
    !pinned
}

/// Whether the popup goes to the tray when its contents change its size: not
/// while it is pinned, nor once the user has moved it.
pub fn should_reanchor_on_resize(pinned: bool, user_moved: bool) -> (out: bool)
    ensures
        out == (!pinned && !user_moved),
{
    !pinned && !user_moved
}

/// Whether the popup's contents leave its size alone: they do while it is a lamp.
pub fn should_skip_content_resize(mode: PopupMode) -> (out: bool)
    ensures
        out == (mode == PopupMode::Lamp),
{
    mode == PopupMode::Lamp
}

/// Whether the popup becomes a list because it is not pinned: a lamp does.
pub fn should_force_list_on_unpin(pinned: bool, mode: PopupMode) -> (out: bool)
    ensures
        out == (!pinned && mode == PopupMode::Lamp),
{
    !pinned && mode == PopupMode::Lamp
}

/// The least and the greatest size of the popup in a mode.
pub open spec fn size_band(mode: PopupMode) -> ((u32, u32), (u32, u32)) {
    match mode {
        PopupMode::Lamp => ((LAMP_SIZE, LAMP_SIZE), (LAMP_SIZE, LAMP_SIZE)),
        PopupMode::List => ((POPUP_W, POPUP_MIN_H), (POPUP_W, POPUP_MAX_H)),
    }
}

/// The least and the greatest size of the popup in a mode, in logical pixels.
pub fn popup_size_band(mode: PopupMode) -> (out: ((u32, u32), (u32, u32)))
    ensures
        out == size_band(mode),
{
    match mode {
        PopupMode::Lamp => ((LAMP_SIZE, LAMP_SIZE), (LAMP_SIZE, LAMP_SIZE)),
        PopupMode::List => ((POPUP_W, POPUP_MIN_H), (POPUP_W, POPUP_MAX_H)),
    }
}

/// Whether to set the least size before the greatest: when the window shrinks.
pub fn min_before_max(current_max_w: u32, new_max_w: u32) -> (out: bool)
    ensures
        out == (new_max_w <= current_max_w),
{
    new_max_w <= current_max_w
}

/// Set in this order, the least size never exceeds the greatest in between,
/// whichever mode follows which.
pub proof fn law_sizes_never_cross(from: PopupMode, to: PopupMode)
    ensures
        ({
            let ((old_min_w, old_min_h), (old_max_w, old_max_h)) = size_band(from);
            let ((new_min_w, new_min_h), (new_max_w, new_max_h)) = size_band(to);
            if new_max_w <= old_max_w {
                new_min_w <= old_max_w && new_min_h <= old_max_h
            } else {
                old_min_w <= new_max_w && old_min_h <= new_max_h
            }
        }),
        ({
            let ((min_w, min_h), (max_w, max_h)) = size_band(to);
            min_w <= max_w && min_h <= max_h
        }),
{
}

/// Whether to write the popup's position down: not sooner than `gap` after the
/// last time.
pub open spec fn due(last: Option<u64>, now: u64, gap: u64) -> bool {
    match last {
        None => true,
        Some(t) => (if now >= t {
            now - t
        } else {
            0
        }) >= gap,
    }
}

/// Whether to write the popup's position down. All times are in milliseconds.
pub fn should_persist_popup_pos(last: Option<u64>, now: u64, gap: u64) -> (out: bool)
    ensures
        out == due(last, now, gap),
{
    match last {
        None => true,
        Some(t) => now.saturating_sub(t) >= gap,
    }
}

/// The key under which the position of a mode is stored.
pub open spec fn position_key(mode: PopupMode) -> Seq<char> {
    match mode {
        PopupMode::Lamp => "lampPos"@,
        PopupMode::List => "popupPos"@,
    }
}

/// The key under which the position of a mode is stored.
pub fn popup_pos_setting_key(mode: PopupMode) -> (out: &'static str)
    ensures
        out@ == position_key(mode),
{
    match mode {
        PopupMode::Lamp => "lampPos",
        PopupMode::List => "popupPos",
    }
}

/// The two modes store their positions apart.
pub proof fn law_positions_are_stored_apart()
    ensures
        position_key(PopupMode::Lamp) != position_key(PopupMode::List),
{
    reveal_strlit("lampPos");
    reveal_strlit("popupPos");
    assert("lampPos"@.len() != "popupPos"@.len());
}

/// The position to go back to in a mode: the mode's own, where it has one.
pub fn saved_pos_for_mode<P>(mode: PopupMode, list_pos: Option<P>, lamp_pos: Option<P>) -> (out:
    Option<P>)
    ensures
        out == match mode {
            PopupMode::Lamp => lamp_pos,
            PopupMode::List => list_pos,
        },
{
    match mode {
        PopupMode::Lamp => lamp_pos,
        PopupMode::List => list_pos,
    }
}

// ---------------------------------------------------------------------------
// The popup.
// ---------------------------------------------------------------------------

/// What is known of the popup.
#[derive(Clone, Copy, Debug)]
pub struct PopupState {
    pub pinned: bool,
    pub mode: PopupMode,
    /// Whether the user has moved it since it last went to the tray.
    pub user_moved: bool,
    /// Moves that this program made and has not seen yet.
    pub pending_moves: u32,
    /// When its position was last written down, in milliseconds.
    pub last_persist_ms: Option<u64>,
}

/// What a click on the tray icon does.
#[derive(Clone, Copy, Debug, PartialEq, Eq, Structural)]
pub enum ToggleStep {
    Hide,
    /// Show the popup, at the tray if `anchor`.
    Show { anchor: bool },
}

/// How the popup takes on another mode.
#[derive(Clone, Copy, Debug)]
pub struct ModePlan {
    pub min: (u32, u32),
    pub max: (u32, u32),
    /// Whether `min` is set before `max`.
    pub min_first: bool,
    /// The size to set at once, where it does not depend on the contents.
    pub size: Option<(u32, u32)>,
}

/// What follows when the popup's contents have changed its size.
#[derive(Clone, Copy, Debug, PartialEq, Eq, Structural)]
pub enum ResizeStep {
    /// Go to the tray.
    Anchor,
    /// Stay, as far as the screen allows.
    Clamp,
}

impl PopupState {
    /// The popup before anything is known of it.
    pub fn new() -> (out: Self)
        ensures
            !out.pinned,
            out.mode == PopupMode::List,
            !out.user_moved,
            out.pending_moves == 0,
            out.last_persist_ms is None,
    {
        PopupState {
            pinned: false,
            mode: PopupMode::List,
            user_moved: false,
            pending_moves: 0,
            last_persist_ms: None,
        }
    }

    /// Notes that this program is about to move the popup.
    pub fn note_programmatic_move(&mut self)
        requires
            old(self).pending_moves < u32::MAX,
        ensures
            *final(self) == (PopupState {
                pending_moves: (old(self).pending_moves + 1) as u32,
                ..*old(self)
            }),
    {
        self.pending_moves = self.pending_moves + 1;
    }

    /// Takes note of a move that was seen. The user's own are remembered; while
    /// the popup is pinned they are also written down, not too often, and the
    /// key to write under comes back.
    pub fn note_move_event(&mut self, now: u64) -> (out: Option<&'static str>)
        ensures
            ({
                let user = old(self).pending_moves == 0;
                let persist = user && old(self).pinned && due(
                    old(self).last_persist_ms,
                    now,
                    POPUP_POS_PERSIST_GAP_MS,
                );
                &&& *final(self) == (PopupState {
                    pending_moves: if user {
                        0
                    } else {
                        (old(self).pending_moves - 1) as u32
                    },
                    user_moved: old(self).user_moved || user,
                    last_persist_ms: if persist {
                        Some(now)
                    } else {
                        old(self).last_persist_ms
                    },
                    ..*old(self)
                })
                &&& match out {
                    Some(key) => persist && key@ == position_key(old(self).mode),
                    None => !persist,
                }
            }),
    {
        let mut pending: u32 = self.pending_moves;
        let user = is_user_initiated_move(&mut pending);
        self.pending_moves = pending;
        if !user {
            return None;
        }
        self.user_moved = true;
        if !self.pinned {
            return None;
        }
        if should_persist_popup_pos(self.last_persist_ms, now, POPUP_POS_PERSIST_GAP_MS) {
            self.last_persist_ms = Some(now);
            Some(popup_pos_setting_key(self.mode))
        } else {
            None
        }
    }

    /// What a click on the tray icon does to a popup that is visible or not.
    pub fn toggle_popup(&self, visible: bool) -> (out: ToggleStep)
        ensures
            out == if visible {
                ToggleStep::Hide
            } else {
                ToggleStep::Show { anchor: !self.pinned }
            },
    {
        if visible {
            ToggleStep::Hide
        } else {
            ToggleStep::Show { anchor: should_anchor_on_open(self.pinned) }
        }
    }

    /// Notes that the popup went to the tray.
    pub fn note_anchored(&mut self)
        ensures
            *final(self) == (PopupState { user_moved: false, ..*old(self) }),
    {
        self.user_moved = false;
    }

    /// Notes that the popup went back to a stored position: it then stays there
    /// as if the user had moved it.
    pub fn note_restored(&mut self)
        ensures
            *final(self) == (PopupState { user_moved: true, ..*old(self) }),
    {
        self.user_moved = true;
    }

    /// Takes on another mode, and says how the window follows.
    pub fn set_popup_mode(&mut self, mode: PopupMode) -> (out: ModePlan)
        ensures
            *final(self) == (PopupState { mode, ..*old(self) }),
            out.min == size_band(mode).0,
            out.max == size_band(mode).1,
            out.min_first == (size_band(mode).1.0 <= size_band(old(self).mode).1.0),
            out.size == if mode == PopupMode::Lamp {
                Some(size_band(mode).0)
            } else {
                None
            },
    {
        let previous = popup_size_band(self.mode);
        self.mode = mode;
        let (min, max) = popup_size_band(mode);
        ModePlan {
            min,
            max,
            min_first: min_before_max(previous.1.0, max.0),
            size: if mode == PopupMode::Lamp {
                Some(min)
            } else {
                None
            },
        }
    }

    /// What follows when the popup's contents have changed its size.
    pub fn after_resize(&self, visible: bool) -> (out: ResizeStep)
        ensures
            out == if visible && !self.pinned && !self.user_moved {
                ResizeStep::Anchor
            } else {
                ResizeStep::Clamp
            },
    {
        if visible && should_reanchor_on_resize(self.pinned, self.user_moved) {
            ResizeStep::Anchor
        } else {
            ResizeStep::Clamp
        }
    }

    /// Where the popup must go to be on the screen, where it is not; the move is
    /// then noted as this program's own.
    pub fn clamp_popup(
        &mut self,
        pos: (i32, i32),
        size: (u32, u32),
        work_area: ((i32, i32), (u32, u32)),
    ) -> (out: Option<(i32, i32)>)
        requires
            old(self).pending_moves < u32::MAX,
            can_fit(size, work_area),
        ensures
            ({
                let (x, y) = fitted_onto(pos, size, work_area);
                if x == pos.0 && y == pos.1 {
                    out is None && *final(self) == *old(self)
                } else {
                    &&& out == Some((x as i32, y as i32))
                    &&& *final(self) == (PopupState {
                        pending_moves: (old(self).pending_moves + 1) as u32,
                        ..*old(self)
                    })
                }
            }),
    {
        let (x, y): (i32, i32) = clamp_rect_onto_work_area(pos, size, work_area);
        if x == pos.0 && y == pos.1 {
            return None;
        }
        self.note_programmatic_move();
        Some((x, y))
    }
}

} // verus!
