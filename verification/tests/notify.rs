use quarterdeck::notify::{
    attention_sound, click_target, compose, idle_sound, is_alert, is_dev_dir, is_truthy,
    may_wait_for_click, sound_for, ClickTarget, Throttle, ThrottleClock, ToastKind, ToastRequest,
};
use quarterdeck::settings::Platform;
use std::cell::Cell;
use std::rc::Rc;

fn toast(kind: ToastKind, detail: &str) -> ToastRequest {
    ToastRequest {
        kind,
        session_id: "s1".into(),
        project: "quarterdeck".into(),
        detail: detail.into(),
        assistant_body: None,
    }
}

#[test]
fn idle_toast_copy_matches_r91() {
    let (title, body) = compose(&toast(ToastKind::Idle, "Refactor auth module"));
    assert_eq!(title, "quarterdeck finished");
    assert_eq!(body, "Refactor auth module Waiting for new instructions.");
}

#[test]
fn idle_toast_falls_back_to_no_title() {
    let (_, body) = compose(&toast(ToastKind::Idle, "   "));
    assert_eq!(body, "(no title) Waiting for new instructions.");
}

#[test]
fn idle_toast_carries_the_last_words() {
    let mut req = toast(ToastKind::Idle, "Refactor auth module");
    req.assistant_body = Some("All tests pass.".into());
    let (title, body) = compose(&req);
    assert_eq!(title, "quarterdeck finished");
    assert_eq!(body, "All tests pass.");
}

#[test]
fn attention_toast_copy_matches_r92() {
    let (title, body) = compose(&toast(ToastKind::Attention, "Allow Bash to run `rm -rf build`?"));
    assert_eq!(title, "quarterdeck needs you");
    assert_eq!(body, "Allow Bash to run `rm -rf build`?");
}

#[test]
fn ask_toast_copy_matches_r84_and_truncates() {
    let long_question = "a".repeat(120);
    let (title, body) = compose(&toast(ToastKind::Ask, &long_question));
    assert!(title.starts_with("quarterdeck asks: "));
    assert!(title.ends_with('\u{2026}'));
    assert!(title.chars().count() < long_question.chars().count());
    assert_eq!(body, long_question);
    assert_eq!(title, format!("quarterdeck asks: {}\u{2026}", "a".repeat(59)));
}

#[test]
fn ask_toast_truncation_never_severs_a_zwj_emoji_sequence() {
    let family = "\u{1F468}\u{200D}\u{1F469}\u{200D}\u{1F467}\u{200D}\u{1F466}";
    let detail = format!("{}{family} tail", "a".repeat(58));
    let (title, _) = compose(&toast(ToastKind::Ask, &detail));
    assert!(title.ends_with('\u{2026}'));
    assert!(
        !title.trim_end_matches('\u{2026}').ends_with('\u{200D}'),
        "no dangling ZWJ joiner in the toast title: {title:?}"
    );
    let whole = title.contains(family);
    let none = !title.contains('\u{1F468}')
        && !title.contains('\u{1F469}')
        && !title.contains('\u{1F467}')
        && !title.contains('\u{1F466}');
    assert!(whole || none, "family emoji whole or dropped, never split: {title:?}");
}

#[test]
fn ask_toast_short_question_not_truncated() {
    let (title, _) = compose(&toast(ToastKind::Ask, "Use Postgres or SQLite?"));
    assert_eq!(title, "quarterdeck asks: Use Postgres or SQLite?");
}

#[test]
fn reminder_toast_copy_matches_r23() {
    let (title, body) = compose(&toast(ToastKind::Reminder, "ignored for reminders"));
    assert_eq!(title, "quarterdeck still waiting");
    assert_eq!(body, "Still waiting for your instructions.");
}

#[test]
fn idle_and_attention_sounds_are_distinct() {
    for platform in [Platform::Windows, Platform::MacOs, Platform::Other] {
        assert_ne!(idle_sound(platform), attention_sound(platform));
        assert!(!idle_sound(platform).is_empty());
        assert!(!attention_sound(platform).is_empty());
    }
    assert_eq!(idle_sound(Platform::Windows), "Default");
    assert_eq!(attention_sound(Platform::Windows), "Reminder");
    assert_eq!(idle_sound(Platform::MacOs), "NSUserNotificationDefaultSoundName");
    assert_eq!(attention_sound(Platform::MacOs), "Basso");
    assert_eq!(idle_sound(Platform::Other), "message-new-instant");
    assert_eq!(attention_sound(Platform::Other), "dialog-warning");
}

#[test]
fn ask_reuses_attention_sound_channel() {
    for platform in [Platform::Windows, Platform::MacOs, Platform::Other] {
        assert_eq!(
            sound_for(ToastKind::Ask, platform),
            sound_for(ToastKind::Attention, platform)
        );
    }
}

#[test]
fn reminder_reuses_idle_sound_channel() {
    for platform in [Platform::Windows, Platform::MacOs, Platform::Other] {
        assert_eq!(
            sound_for(ToastKind::Reminder, platform),
            sound_for(ToastKind::Idle, platform)
        );
    }
}

#[test]
fn alerts_are_questions_and_calls_for_attention() {
    assert!(is_alert(ToastKind::Ask));
    assert!(is_alert(ToastKind::Attention));
    assert!(!is_alert(ToastKind::Idle));
    assert!(!is_alert(ToastKind::Reminder));
    assert_eq!(ToastKind::Attention.as_str(), "attention");
    assert_eq!(ToastKind::Reminder.as_str(), "reminder");
}

#[test]
fn a_click_opens_the_window_that_it_is_about() {
    assert_eq!(click_target(Some(ToastKind::Ask)), ClickTarget::AskWindow);
    assert_eq!(click_target(Some(ToastKind::Idle)), ClickTarget::Popup);
    assert_eq!(click_target(None), ClickTarget::Popup);
}

#[test]
fn few_threads_wait_for_clicks() {
    assert!(may_wait_for_click(0));
    assert!(may_wait_for_click(7));
    assert!(!may_wait_for_click(8));
}

#[test]
fn programs_that_were_built_here_are_told_apart() {
    assert!(is_dev_dir("C:\\src\\target\\debug", "\\"));
    assert!(is_dev_dir("/src/target/release", "/"));
    assert!(!is_dev_dir("/src/target/release/deps", "/"));
    assert!(!is_dev_dir("target/debug", "/"));
}

#[derive(Clone)]
struct FakeClock(Rc<Cell<u64>>);

impl FakeClock {
    fn new() -> Self {
        Self(Rc::new(Cell::new(5_000)))
    }

    fn advance(&self, ms: u64) {
        self.0.set(self.0.get() + ms);
    }
}

impl ThrottleClock for FakeClock {
    fn now(&self) -> u64 {
        self.0.get()
    }
}

#[test]
fn first_toast_for_session_always_fires() {
    let clock = FakeClock::new();
    let mut throttle = Throttle::with_clock(clock, 10_000);
    assert!(throttle.allow("s1", ToastKind::Idle, false));
}

#[test]
fn burst_within_window_collapses_to_one() {
    let clock = FakeClock::new();
    let mut throttle = Throttle::with_clock(clock.clone(), 10_000);
    assert!(throttle.allow("s1", ToastKind::Attention, false));
    clock.advance(1_000);
    assert!(!throttle.allow("s1", ToastKind::Attention, false));
    clock.advance(5_000);
    assert!(!throttle.allow("s1", ToastKind::Attention, false));
}

#[test]
fn fires_again_after_window_elapses() {
    let clock = FakeClock::new();
    let mut throttle = Throttle::with_clock(clock.clone(), 10_000);
    assert!(throttle.allow("s1", ToastKind::Idle, false));
    clock.advance(10_000);
    assert!(throttle.allow("s1", ToastKind::Idle, false));
}

#[test]
fn different_sessions_throttle_independently() {
    let clock = FakeClock::new();
    let mut throttle = Throttle::with_clock(clock, 10_000);
    assert!(throttle.allow("s1", ToastKind::Idle, false));
    assert!(throttle.allow("s2", ToastKind::Idle, false));
}

#[test]
fn different_kinds_for_same_session_throttle_independently() {
    let clock = FakeClock::new();
    let mut throttle = Throttle::with_clock(clock, 10_000);
    assert!(throttle.allow("s1", ToastKind::Idle, false));
    assert!(throttle.allow("s1", ToastKind::Attention, false));
}

#[test]
fn suppressed_when_popup_visible_and_focused() {
    let clock = FakeClock::new();
    let mut throttle = Throttle::with_clock(clock, 10_000);
    assert!(!throttle.allow("s1", ToastKind::Idle, true));
    assert!(!throttle.allow("s1", ToastKind::Attention, true));
    assert!(throttle.last_fired.is_empty());
}

#[test]
fn ask_toasts_never_suppressed_or_throttled() {
    let clock = FakeClock::new();
    let mut throttle = Throttle::new(clock.clone());
    assert!(throttle.allow("s1", ToastKind::Ask, true));
    assert!(throttle.allow("s1", ToastKind::Ask, true));
    assert!(throttle.allow("s1", ToastKind::Ask, false));
    assert_eq!(throttle.window_ms, 10_000);
}

#[test]
fn last_fired_map_stays_bounded_as_sessions_churn() {
    let clock = FakeClock::new();
    let mut throttle = Throttle::with_clock(clock.clone(), 10_000);
    for i in 0..1000 {
        let sid = format!("session-{i}");
        assert!(throttle.allow(&sid, ToastKind::Idle, false));
        clock.advance(11_000);
    }
    assert!(
        throttle.last_fired.len() <= 1,
        "expired throttle entries must be evicted, got {}",
        throttle.last_fired.len()
    );
}

#[test]
fn eviction_does_not_relax_an_active_throttle() {
    let clock = FakeClock::new();
    let mut throttle = Throttle::with_clock(clock.clone(), 10_000);
    assert!(throttle.allow("s1", ToastKind::Idle, false));
    clock.advance(3_000);
    assert!(throttle.allow("s2", ToastKind::Idle, false));
    assert!(!throttle.allow("s1", ToastKind::Idle, false));
}

#[test]
fn only_exact_string_one_enables_fake_mode() {
    assert!(is_truthy(Some("1")));
    assert!(!is_truthy(Some("true")));
    assert!(!is_truthy(Some("0")));
    assert!(!is_truthy(Some("")));
    assert!(!is_truthy(None));
}
