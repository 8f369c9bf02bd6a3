//! What holds of where the windows stand, how large they are, and when they move.

use crate::settings::PopupMode;
use crate::windows::{
    clamp_rect_onto_work_area, compute_anchor_position, compute_center_position,
    is_user_initiated_move, min_before_max, popup_pos_setting_key, popup_size_band,
    saved_pos_for_mode, should_anchor_on_open, should_force_list_on_unpin, should_hide_on_blur,
    should_persist_popup_pos, should_reanchor_on_resize, should_skip_content_resize, ModePlan,
    PopupState, ResizeStep, ToggleStep,
};
use vstd::prelude::*;

verus! {

/// How far `a` is from `b`.
pub open spec fn distance(a: int, b: int) -> int {
    if a <= b {
        b - a
    } else {
        a - b
    }
}

/// Whether something of this size at `at` lies within the extent from `start`.
pub open spec fn lies_within(at: int, size: int, start: int, extent: int) -> bool {
    start <= at && at + size <= start + extent
}

/// A popup that fits lies on the area, and one that does not starts with it, beside the tray
/// icon with a gap of six pixels:
/// above an icon in the lower half and below one in the upper, as far as there is room,
/// and centred on it as nearly as the area allows.
pub proof fn law_the_popup_stands_by_the_tray(
    tray_pos: (i32, i32),
    tray_size: (u32, u32),
    popup_size: (u32, u32),
    area: ((i32, i32), (u32, u32)),
    out: (i32, i32),
    elsewhere: int,
)
    requires
        call_requires(compute_anchor_position, (tray_pos, tray_size, popup_size, area)),
        call_ensures(compute_anchor_position, (tray_pos, tray_size, popup_size, area), out),
        tray_size.0 < 0x8000_0000 && tray_size.1 < 0x8000_0000,
        area.1.0 < 0x8000_0000 && area.1.1 < 0x8000_0000,
        popup_size.0 < 0x8000_0000 && popup_size.1 < 0x8000_0000,
    ensures
        popup_size.0 <= area.1.0 ==> lies_within(
            out.0 as int,
            popup_size.0 as int,
            area.0.0 as int,
            area.1.0 as int,
        ),
        popup_size.0 > area.1.0 ==> out.0 == area.0.0,
        lies_within(elsewhere, popup_size.0 as int, area.0.0 as int, area.1.0 as int) ==> {
            let centred = tray_pos.0 + tray_size.0 as int / 2 - popup_size.0 as int / 2;
            distance(out.0 as int, centred) <= distance(elsewhere, centred)
        },
        tray_pos.1 > area.0.1 + area.1.1 as int / 2 ==> {
            let above = tray_pos.1 - 6 - popup_size.1;
            out.1 == if above >= area.0.1 {
                above
            } else {
                area.0.1 as int
            }
        },
        tray_pos.1 <= area.0.1 + area.1.1 as int / 2 ==> {
            let below = tray_pos.1 + tray_size.1 + 6;
            if popup_size.1 > area.1.1 {
                out.1 == if below <= area.0.1 {
                    below
                } else {
                    area.0.1 as int
                }
            } else if below + popup_size.1 <= area.0.1 + area.1.1 {
                out.1 == below
            } else {
                out.1 + popup_size.1 == area.0.1 + area.1.1
            }
        },
{
}

/// A window is moved onto the area by as little as can be: along each axis it lies on it
/// where it fits, nowhere nearer would do, and it starts with the area where it does not
/// fit.
pub proof fn law_a_window_moves_as_little_as_can_be(
    pos: (i32, i32),
    size: (u32, u32),
    area: ((i32, i32), (u32, u32)),
    out: (i32, i32),
    elsewhere: int,
)
    requires
        call_ensures(clamp_rect_onto_work_area, (pos, size, area), out),
        size.0 < 0x8000_0000 && size.1 < 0x8000_0000,
        area.1.0 < 0x8000_0000 && area.1.1 < 0x8000_0000,
    ensures
        size.0 <= area.1.0 ==> lies_within(
            out.0 as int,
            size.0 as int,
            area.0.0 as int,
            area.1.0 as int,
        ),
        size.1 <= area.1.1 ==> lies_within(
            out.1 as int,
            size.1 as int,
            area.0.1 as int,
            area.1.1 as int,
        ),
        lies_within(elsewhere, size.0 as int, area.0.0 as int, area.1.0 as int) ==> distance(
            out.0 as int,
            pos.0 as int,
        ) <= distance(elsewhere, pos.0 as int),
        lies_within(elsewhere, size.1 as int, area.0.1 as int, area.1.1 as int) ==> distance(
            out.1 as int,
            pos.1 as int,
        ) <= distance(elsewhere, pos.1 as int),
        size.0 > area.1.0 ==> out.0 == area.0.0,
        size.1 > area.1.1 ==> out.1 == area.0.1,
{
}

/// A window in the middle has margins on either side that are equal, or differ by one.
pub proof fn law_a_window_stands_in_the_middle(
    size: (u32, u32),
    area: ((i32, i32), (u32, u32)),
    out: (i32, i32),
)
    requires
        call_ensures(compute_center_position, (size, area), out),
        size.0 < 0x8000_0000 && size.1 < 0x8000_0000,
        area.1.0 < 0x8000_0000 && area.1.1 < 0x8000_0000,
    ensures
        distance(out.0 - area.0.0, (area.0.0 + area.1.0) - (out.0 + size.0)) <= 1,
        distance(out.1 - area.0.1, (area.0.1 + area.1.1) - (out.1 + size.1)) <= 1,
        size.0 <= area.1.0 ==> out.0 - area.0.0 <= (area.0.0 + area.1.0) - (out.0 + size.0),
        size.1 <= area.1.1 ==> out.1 - area.0.1 <= (area.0.1 + area.1.1) - (out.1 + size.1),
        size.0 > area.1.0 ==> out.0 - area.0.0 >= (area.0.0 + area.1.0) - (out.0 + size.0),
        size.1 > area.1.1 ==> out.1 - area.0.1 >= (area.0.1 + area.1.1) - (out.1 + size.1),
{
}

/// A pinned popup stays where it is and stays up; one that is not hides when it loses the
/// focus and goes to the tray, and is no lamp. A lamp keeps its size.
pub proof fn law_a_pinned_popup_stays(
    pinned: bool,
    user_moved: bool,
    mode: PopupMode,
    hides: bool,
    anchors: bool,
    reanchors: bool,
    skips: bool,
    forced: bool,
)
    requires
        call_ensures(should_hide_on_blur, (pinned,), hides),
        call_ensures(should_anchor_on_open, (pinned,), anchors),
        call_ensures(should_reanchor_on_resize, (pinned, user_moved), reanchors),
        call_ensures(should_skip_content_resize, (mode,), skips),
        call_ensures(should_force_list_on_unpin, (pinned, mode), forced),
    ensures
        pinned ==> !hides && !anchors && !reanchors && !forced,
        !pinned ==> hides && anchors,
        user_moved ==> !reanchors,
        !pinned && !user_moved ==> reanchors,
        mode == PopupMode::Lamp ==> skips,
        mode == PopupMode::List ==> !skips && !forced,
        !pinned && mode == PopupMode::Lamp ==> forced,
{
}

/// The list is 360 pixels wide and from 160 to 560 high, and the lamp is a square of 56.
pub proof fn law_sizes_go_with_the_mode(
    mode: PopupMode,
    out: ((u32, u32), (u32, u32)),
    current: u32,
    next: u32,
    min_first: bool,
)
    requires
        call_ensures(popup_size_band, (mode,), out),
        call_ensures(min_before_max, (current, next), min_first),
    ensures
        mode == PopupMode::List ==> out == ((360u32, 160u32), (360u32, 560u32)),
        mode == PopupMode::Lamp ==> out == ((56u32, 56u32), (56u32, 56u32)),
        next <= current ==> min_first,
        next > current ==> !min_first,
{
}

/// Each mode has a position of its own, stored under a key of its own, and is given back
/// that one and not the other.
pub proof fn law_each_mode_has_its_position<P>(
    mode: PopupMode,
    key: &'static str,
    list_pos: Option<P>,
    lamp_pos: Option<P>,
    out: Option<P>,
)
    requires
        call_ensures(popup_pos_setting_key, (mode,), key),
        call_ensures(saved_pos_for_mode::<P>, (mode, list_pos, lamp_pos), out),
    ensures
        mode == PopupMode::List ==> key@ == "popupPos"@ && out == list_pos,
        mode == PopupMode::Lamp ==> key@ == "lampPos"@ && out == lamp_pos,
{
}

/// A position is written down the first time, and then once the gap has passed.
pub proof fn law_positions_are_written_down_now_and_then(
    last: Option<u64>,
    now: u64,
    gap: u64,
    out: bool,
)
    requires
        call_ensures(should_persist_popup_pos, (last, now, gap), out),
    ensures
        last is None ==> out,
        last matches Some(t) ==> gap > 0 ==> out == (now >= t + gap),
        last is Some && gap == 0 ==> out,
{
}

/// A move that this program made is told from the user's, once for each that it made.
pub proof fn law_own_moves_are_told_apart(pending: &mut u32, out: bool)
    requires
        call_ensures(is_user_initiated_move, (pending,), out),
    ensures
        mut_ref_current(pending) == 0 ==> out && mut_ref_future(pending) == 0,
        mut_ref_current(pending) > 0 ==> !out && mut_ref_future(pending) + 1
            == mut_ref_current(pending),
{
}

/// A move that this program announced is not taken for the user's: after both, the popup is
/// as it was, and nothing is written down.
pub proof fn law_an_announced_move_changes_nothing(
    announced: &mut PopupState,
    seen: &mut PopupState,
    now: u64,
    out: Option<&'static str>,
)
    requires
        call_ensures(PopupState::note_programmatic_move, (announced,), ()),
        mut_ref_current(seen) == mut_ref_future(announced),
        call_ensures(PopupState::note_move_event, (seen, now), out),
        mut_ref_current(announced).pending_moves < u32::MAX,
    ensures
        out is None,
        mut_ref_future(seen) == mut_ref_current(announced),
{
}

/// A move of the user is remembered; while the popup is pinned, the key of its mode is
/// given to write its position under, unless that was done less than 250 milliseconds ago.
pub proof fn law_a_move_of_the_user_is_remembered(
    state: &mut PopupState,
    now: u64,
    out: Option<&'static str>,
)
    requires
        call_ensures(PopupState::note_move_event, (state, now), out),
        mut_ref_current(state).pending_moves == 0,
    ensures
        mut_ref_future(state).user_moved,
        mut_ref_future(state).pinned == mut_ref_current(state).pinned,
        mut_ref_future(state).mode == mut_ref_current(state).mode,
        mut_ref_future(state).pending_moves == 0,
        !mut_ref_current(state).pinned ==> out is None,
        mut_ref_current(state).pinned && (match mut_ref_current(state).last_persist_ms {
            Some(t) => now >= t + 250,
            None => true,
        }) ==> (out matches Some(key) && key@ == (if mut_ref_current(state).mode
            == PopupMode::Lamp {
            "lampPos"@
        } else {
            "popupPos"@
        })),
        mut_ref_current(state).last_persist_ms matches Some(t) ==> now < t + 250 ==> out is None,
        out is Some ==> mut_ref_future(state).last_persist_ms == Some(now),
        out is None ==> mut_ref_future(state).last_persist_ms == mut_ref_current(
            state,
        ).last_persist_ms,
{
}

/// A click on the tray hides a popup that is up, and otherwise shows it, at the tray unless
/// it is pinned.
pub proof fn law_a_click_hides_or_shows(state: &PopupState, visible: bool, out: ToggleStep)
    requires
        call_ensures(PopupState::toggle_popup, (state, visible), out),
    ensures
        visible ==> out is Hide,
        !visible && state.pinned ==> out == (ToggleStep::Show { anchor: false }),
        !visible && !state.pinned ==> out == (ToggleStep::Show { anchor: true }),
{
}

/// At the tray the user's move is forgotten, and at a stored position it counts as made;
/// nothing else changes.
pub proof fn law_the_popup_knows_how_it_came_there(
    anchored: &mut PopupState,
    restored: &mut PopupState,
)
    requires
        call_ensures(PopupState::note_anchored, (anchored,), ()),
        call_ensures(PopupState::note_restored, (restored,), ()),
    ensures
        !mut_ref_future(anchored).user_moved,
        mut_ref_future(anchored).pinned == mut_ref_current(anchored).pinned,
        mut_ref_future(anchored).mode == mut_ref_current(anchored).mode,
        mut_ref_future(anchored).pending_moves == mut_ref_current(anchored).pending_moves,
        mut_ref_future(anchored).last_persist_ms == mut_ref_current(anchored).last_persist_ms,
        mut_ref_future(restored).user_moved,
        mut_ref_future(restored).pinned == mut_ref_current(restored).pinned,
        mut_ref_future(restored).mode == mut_ref_current(restored).mode,
        mut_ref_future(restored).pending_moves == mut_ref_current(restored).pending_moves,
        mut_ref_future(restored).last_persist_ms == mut_ref_current(restored).last_persist_ms,
{
}

/// A change of mode takes the sizes of the new mode; the least size is set first exactly
/// where the popup becomes a lamp or keeps its mode, and the lamp has its size at once.
pub proof fn law_a_mode_brings_its_sizes(state: &mut PopupState, mode: PopupMode, out: ModePlan)
    requires
        call_ensures(PopupState::set_popup_mode, (state, mode), out),
    ensures
        mut_ref_future(state).mode == mode,
        mut_ref_future(state).pinned == mut_ref_current(state).pinned,
        mut_ref_future(state).user_moved == mut_ref_current(state).user_moved,
        mut_ref_future(state).pending_moves == mut_ref_current(state).pending_moves,
        mut_ref_future(state).last_persist_ms == mut_ref_current(state).last_persist_ms,
        mode == PopupMode::List ==> out.min == (360u32, 160u32) && out.max == (360u32, 560u32)
            && out.size is None,
        mode == PopupMode::Lamp ==> out.min == (56u32, 56u32) && out.max == (56u32, 56u32)
            && out.size == Some((56u32, 56u32)),
        mode == PopupMode::Lamp || mut_ref_current(state).mode == mode ==> out.min_first,
        mode == PopupMode::List && mut_ref_current(state).mode == PopupMode::Lamp
            ==> !out.min_first,
{
}

/// A popup whose size changed goes to the tray only where it is up, not pinned and not moved
/// by the user; otherwise it stays.
pub proof fn law_a_popup_that_grows_stays_or_goes_to_the_tray(
    state: &PopupState,
    visible: bool,
    out: ResizeStep,
)
    requires
        call_ensures(PopupState::after_resize, (state, visible), out),
    ensures
        !visible || state.pinned || state.user_moved ==> out is Clamp,
        visible && !state.pinned && !state.user_moved ==> out is Anchor,
{
}

/// A popup that is off the screen is moved onto it, and the move is announced; one that is
/// on it is left alone.
pub proof fn law_a_popup_off_the_screen_comes_back(
    state: &mut PopupState,
    pos: (i32, i32),
    size: (u32, u32),
    area: ((i32, i32), (u32, u32)),
    out: Option<(i32, i32)>,
    fitted: (i32, i32),
)
    requires
        call_ensures(PopupState::clamp_popup, (state, pos, size, area), out),
        call_ensures(clamp_rect_onto_work_area, (pos, size, area), fitted),
        mut_ref_current(state).pending_moves < u32::MAX,
    ensures
        fitted == pos ==> out is None && mut_ref_future(state) == mut_ref_current(state),
        fitted != pos ==> out == Some(fitted),
        fitted != pos ==> {
            &&& mut_ref_future(state).pending_moves == mut_ref_current(state).pending_moves + 1
            &&& mut_ref_future(state).pinned == mut_ref_current(state).pinned
            &&& mut_ref_future(state).mode == mut_ref_current(state).mode
            &&& mut_ref_future(state).user_moved == mut_ref_current(state).user_moved
            &&& mut_ref_future(state).last_persist_ms == mut_ref_current(state).last_persist_ms
        },
{
}

} // verus!
