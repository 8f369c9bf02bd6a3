use quarterdeck::settings::PopupMode;
use quarterdeck::util::CREATE_NO_WINDOW;
use quarterdeck::windows::{
    clamp_rect_onto_work_area, compute_anchor_position, compute_center_position,
    is_user_initiated_move, min_before_max, popup_pos_setting_key, popup_size_band,
    saved_pos_for_mode, should_anchor_on_open, should_force_list_on_unpin, should_hide_on_blur,
    should_persist_popup_pos, should_reanchor_on_resize, should_skip_content_resize, PopupState,
    ResizeStep, ToggleStep, ANCHOR_GAP_PX, LAMP_SIZE, POPUP_MAX_H, POPUP_MIN_H,
    POPUP_POS_PERSIST_GAP_MS, POPUP_W,
};

const WORK_AREA: ((i32, i32), (u32, u32)) = ((0, 0), (1920, 1040));
const POPUP_SIZE: (u32, u32) = (360, 460);

#[test]
fn anchors_above_a_tray_icon_in_the_windows_taskbar() {
    let tray_pos = (1880, 1020);
    let tray_size = (16, 16);
    let (x, y) = compute_anchor_position(tray_pos, tray_size, POPUP_SIZE, WORK_AREA);
    assert!(y < tray_pos.1, "popup should sit above the tray icon");
    assert_eq!(y, tray_pos.1 - POPUP_SIZE.1 as i32 - ANCHOR_GAP_PX);
    assert!(x >= 0 && x + POPUP_SIZE.0 as i32 <= WORK_AREA.1 .0 as i32);
}

#[test]
fn anchors_below_a_tray_icon_in_the_macos_menu_bar() {
    let tray_pos = (1200, 4);
    let tray_size = (22, 22);
    let (_, y) = compute_anchor_position(tray_pos, tray_size, POPUP_SIZE, WORK_AREA);
    assert!(y > tray_pos.1, "popup should sit below a menu-bar tray icon");
    assert_eq!(y, 4 + 22 + 6);
}

#[test]
fn clamps_horizontally_so_the_popup_never_overflows_the_right_edge() {
    let tray_pos = (1918, 1020);
    let (x, _) = compute_anchor_position(tray_pos, (16, 16), POPUP_SIZE, WORK_AREA);
    assert!(x + POPUP_SIZE.0 as i32 <= WORK_AREA.1 .0 as i32);
}

#[test]
fn clamps_horizontally_so_the_popup_never_overflows_the_left_edge() {
    let tray_pos = (2, 1020);
    let (x, _) = compute_anchor_position(tray_pos, (16, 16), POPUP_SIZE, WORK_AREA);
    assert!(x >= 0);
}

#[test]
fn centers_the_popup_on_the_tray_icon() {
    let (x, y) = compute_anchor_position((1000, 1000), (17, 16), POPUP_SIZE, WORK_AREA);
    assert_eq!((x, y), (1008 - 180, 1000 - 460 - 6));
    let tall = compute_anchor_position((1000, 530), (16, 16), (360, 2000), WORK_AREA);
    assert_eq!(tall.1, 0);
    let below = compute_anchor_position((1000, 500), (16, 16), (360, 1000), WORK_AREA);
    assert_eq!(below.1, 40);
}

#[test]
fn clamp_leaves_an_already_on_screen_window_untouched() {
    let pos = (200, 150);
    assert_eq!(
        clamp_rect_onto_work_area(pos, POPUP_SIZE, WORK_AREA),
        pos,
        "an on-screen rect must be returned unchanged"
    );
}

#[test]
fn clamp_pulls_a_bottom_right_overflow_back_on_screen() {
    let pos = (1900, 1030);
    let (x, y) = clamp_rect_onto_work_area(pos, POPUP_SIZE, WORK_AREA);
    assert!(
        x + POPUP_SIZE.0 as i32 <= WORK_AREA.1 .0 as i32,
        "right edge must be on-screen"
    );
    assert!(
        y + POPUP_SIZE.1 as i32 <= WORK_AREA.1 .1 as i32,
        "bottom edge must be on-screen"
    );
    assert_eq!(x, 1920 - 360, "flush to the right work-area edge");
    assert_eq!(y, 1040 - 460, "flush to the bottom work-area edge");
}

#[test]
fn clamp_pushes_a_top_left_overflow_back_on_screen() {
    let (x, y) = clamp_rect_onto_work_area((-40, -30), POPUP_SIZE, WORK_AREA);
    assert_eq!((x, y), (0, 0), "negative origin clamps to the work-area top-left");
}

#[test]
fn clamp_keeps_the_origin_reachable_for_an_oversized_window() {
    let oversized = (WORK_AREA.1 .0 + 200, WORK_AREA.1 .1 + 200);
    let (x, y) = clamp_rect_onto_work_area((500, 500), oversized, WORK_AREA);
    assert_eq!((x, y), (0, 0), "oversized window pins its origin to the work-area corner");
}

#[test]
fn sizes_beyond_the_signed_range_turn_negative() {
    let area = ((0, 0), (1920, 1040));
    assert_eq!(clamp_rect_onto_work_area((5_000, 10), (u32::MAX, 460), area), (1921, 10));
    assert_eq!(compute_center_position((u32::MAX - 2, 40), area), ((1920 + 3) / 2, 500));
}

#[test]
fn centers_within_the_work_area() {
    let (x, y) = compute_center_position((420, 260), WORK_AREA);
    assert_eq!(x, (1920 - 420) / 2);
    assert_eq!(y, (1040 - 260) / 2);
    assert_eq!(compute_center_position((1925, 1041), ((10, 20), (1920, 1040))), (8, 20));
}

#[test]
fn hide_on_blur_is_disabled_only_while_pinned() {
    assert!(should_hide_on_blur(false), "unpinned keeps v1.0 behavior");
    assert!(!should_hide_on_blur(true), "pinned disables hide-on-blur");
}

#[test]
fn anchor_on_open_is_skipped_only_while_pinned() {
    assert!(should_anchor_on_open(false));
    assert!(!should_anchor_on_open(true));
}

#[test]
fn reanchor_on_resize_requires_unpinned_and_not_user_moved() {
    assert!(should_reanchor_on_resize(false, false));
    assert!(!should_reanchor_on_resize(true, false), "pinned skips re-anchor");
    assert!(
        !should_reanchor_on_resize(false, true),
        "a popup that the user moved stays where it is"
    );
    assert!(!should_reanchor_on_resize(true, true));
}

#[test]
fn programmatic_moves_are_not_mistaken_for_a_user_drag() {
    let mut pending = 0u32;
    assert!(
        is_user_initiated_move(&mut pending),
        "with nothing pending, an observed move is the user's own drag"
    );

    pending = 1;
    assert!(
        !is_user_initiated_move(&mut pending),
        "a pending programmatic move consumes the flag instead of flagging a user drag"
    );
    assert_eq!(pending, 0, "the pending count is decremented once consumed");

    pending = 2;
    assert!(!is_user_initiated_move(&mut pending));
    assert!(!is_user_initiated_move(&mut pending));
    assert!(is_user_initiated_move(&mut pending));
}

#[test]
fn content_resize_is_skipped_only_in_lamp_mode() {
    assert!(!should_skip_content_resize(PopupMode::List));
    assert!(should_skip_content_resize(PopupMode::Lamp));
}

#[test]
fn unpin_forces_list_only_when_currently_in_lamp_mode() {
    assert!(
        !should_force_list_on_unpin(true, PopupMode::Lamp),
        "still pinned: no-op"
    );
    assert!(
        !should_force_list_on_unpin(false, PopupMode::List),
        "already list: no-op"
    );
    assert!(
        should_force_list_on_unpin(false, PopupMode::Lamp),
        "unpinned + lamp: force list"
    );
}

#[test]
fn popup_size_band_lamp_is_a_fixed_56_square() {
    assert_eq!(
        popup_size_band(PopupMode::Lamp),
        ((LAMP_SIZE, LAMP_SIZE), (LAMP_SIZE, LAMP_SIZE))
    );
    assert_eq!(LAMP_SIZE, 56);
}

#[test]
fn popup_size_band_list_matches_the_r14_3_band() {
    assert_eq!(
        popup_size_band(PopupMode::List),
        ((POPUP_W, POPUP_MIN_H), (POPUP_W, POPUP_MAX_H))
    );
    assert_eq!((POPUP_W, POPUP_MIN_H, POPUP_MAX_H), (360, 160, 560));
}

#[test]
fn min_before_max_when_shrinking_to_the_lamp() {
    assert!(min_before_max(POPUP_W, LAMP_SIZE));
}

#[test]
fn max_before_min_when_growing_back_to_the_list() {
    assert!(!min_before_max(LAMP_SIZE, POPUP_W));
}

#[test]
fn min_before_max_is_safe_on_a_no_op_transition() {
    assert!(min_before_max(POPUP_W, POPUP_W));
}

#[test]
fn popup_pos_setting_key_is_per_mode() {
    assert_eq!(popup_pos_setting_key(PopupMode::List), "popupPos");
    assert_eq!(popup_pos_setting_key(PopupMode::Lamp), "lampPos");
}

#[derive(Debug, Clone, Copy, PartialEq)]
struct PopupPos {
    x: f64,
    y: f64,
}

#[test]
fn saved_pos_for_mode_picks_the_target_modes_own_field() {
    let list = Some(PopupPos { x: 10.0, y: 20.0 });
    let lamp = Some(PopupPos { x: 700.0, y: 900.0 });

    assert_eq!(saved_pos_for_mode(PopupMode::List, list, lamp), list);
    assert_eq!(saved_pos_for_mode(PopupMode::Lamp, list, lamp), lamp);

    assert_eq!(saved_pos_for_mode(PopupMode::Lamp, list, None), None);
    assert_eq!(saved_pos_for_mode(PopupMode::List, None, lamp), None);
}

#[test]
fn popup_pos_persist_is_debounced_but_always_fires_on_the_first_move() {
    let t0 = 1_000_000u64;
    assert!(
        should_persist_popup_pos(None, t0, POPUP_POS_PERSIST_GAP_MS),
        "no prior write: always persist"
    );
    assert!(
        !should_persist_popup_pos(Some(t0), t0, POPUP_POS_PERSIST_GAP_MS),
        "immediately after a write: debounced"
    );
    let just_under = t0 + POPUP_POS_PERSIST_GAP_MS - 1;
    assert!(!should_persist_popup_pos(Some(t0), just_under, POPUP_POS_PERSIST_GAP_MS));
    let at_gap = t0 + POPUP_POS_PERSIST_GAP_MS;
    assert!(
        should_persist_popup_pos(Some(t0), at_gap, POPUP_POS_PERSIST_GAP_MS),
        "once the gap has fully elapsed, persist again"
    );
}

#[test]
fn create_no_window_flag_value() {
    assert_eq!(CREATE_NO_WINDOW, 0x0800_0000);
}

#[test]
fn a_users_drag_is_written_down_while_pinned() {
    let mut popup = PopupState::new();
    assert_eq!(popup.note_move_event(1_000), None);
    assert!(popup.user_moved);
    popup.pinned = true;
    assert_eq!(popup.note_move_event(2_000), Some("popupPos"));
    assert_eq!(popup.note_move_event(2_100), None);
    popup.set_popup_mode(PopupMode::Lamp);
    assert_eq!(popup.note_move_event(2_250), Some("lampPos"));
    popup.note_programmatic_move();
    assert_eq!(popup.note_move_event(9_000), None);
    assert_eq!(popup.pending_moves, 0);
}

#[test]
fn the_tray_icon_toggles_the_popup() {
    let mut popup = PopupState::new();
    assert_eq!(popup.toggle_popup(true), ToggleStep::Hide);
    assert_eq!(popup.toggle_popup(false), ToggleStep::Show { anchor: true });
    popup.pinned = true;
    assert_eq!(popup.toggle_popup(false), ToggleStep::Show { anchor: false });
}

#[test]
fn a_popup_grows_at_the_tray_until_it_is_moved() {
    let mut popup = PopupState::new();
    assert_eq!(popup.after_resize(true), ResizeStep::Anchor);
    assert_eq!(popup.after_resize(false), ResizeStep::Clamp);
    popup.note_restored();
    assert_eq!(popup.after_resize(true), ResizeStep::Clamp);
    popup.note_anchored();
    assert_eq!(popup.after_resize(true), ResizeStep::Anchor);
}

#[test]
fn changing_the_mode_sets_sizes_in_a_safe_order() {
    let mut popup = PopupState::new();
    let to_lamp = popup.set_popup_mode(PopupMode::Lamp);
    assert!(to_lamp.min_first);
    assert_eq!(to_lamp.size, Some((56, 56)));
    let to_list = popup.set_popup_mode(PopupMode::List);
    assert!(!to_list.min_first);
    assert_eq!(to_list.size, None);
    assert_eq!((to_list.min, to_list.max), ((360, 160), (360, 560)));
}

#[test]
fn clamping_counts_as_a_move_of_our_own() {
    let mut popup = PopupState::new();
    assert_eq!(popup.clamp_popup((200, 150), POPUP_SIZE, WORK_AREA), None);
    assert_eq!(popup.pending_moves, 0);
    assert_eq!(popup.clamp_popup((1900, 150), POPUP_SIZE, WORK_AREA), Some((1560, 150)));
    assert_eq!(popup.pending_moves, 1);
}
