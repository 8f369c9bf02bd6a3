//! Toasts: what they say, how they sound, and when they are held back.

use crate::lists::{lemma_filtered_from, lemma_filtered_keeps, lemma_same_filter, take_where};
use crate::settings::Platform;
use crate::text::{
    grapheme_capped, joined, optional_text, same_text, strip_suffix, trim, trimmed,
    truncate_graphemes,
};
use vstd::prelude::*;
use vstd::string::*;

verus! {

/// Name of the event that tells of a click on a toast.
pub const TOAST_CLICKED_EVENT: &'static str = "deck://toast-clicked";

/// The id under which Windows knows this program.
pub const APP_USER_MODEL_ID: &'static str = "pro.philippgross.quarterdeck";

/// The variable that has toasts written to a file in place of being shown.
pub const FAKE_NOTIFIER_ENV: &'static str = "QUARTERDECK_FAKE_NOTIFIER";

/// The variable that sets the data root.
pub const DATA_DIR_ENV: &'static str = "QUARTERDECK_DATA_DIR";

/// What a toast is about.
#[derive(Clone, Copy, Debug, PartialEq, Eq, Structural)]
pub enum ToastKind {
    /// A session is done.
    Idle,
    /// A session needs the user.
    Attention,
    /// An agent asks a question.
    Ask,
    /// A session has waited for long.
    Reminder,
}

/// The name that a kind of toast has on the wire.
pub open spec fn toast_name(kind: ToastKind) -> Seq<char> {
    match kind {
        ToastKind::Idle => "idle"@,
        ToastKind::Attention => "attention"@,
        ToastKind::Ask => "ask"@,
        ToastKind::Reminder => "reminder"@,
    }
}

impl ToastKind {
    /// The name on the wire.
    pub fn as_str(self) -> (out: &'static str)
        ensures
            out@ == toast_name(self),
    {
        match self {
            ToastKind::Idle => "idle",
            ToastKind::Attention => "attention",
            ToastKind::Ask => "ask",
            ToastKind::Reminder => "reminder",
        }
    }
}

/// A toast to show.
#[derive(Clone, Debug)]
pub struct ToastRequest {
    pub kind: ToastKind,
    /// Whose toast it is: toasts are held back, and clicks routed, by it.
    pub session_id: String,
    pub project: String,
    /// The title of the session's task, the message or the question.
    pub detail: String,
    /// The last words of the agent, for a session that is done.
    pub assistant_body: Option<String>,
}

/// Which toast was clicked.
#[derive(Clone, Debug)]
pub struct ToastClickPayload {
    pub kind: ToastKind,
    pub session_id: String,
}

/// The windows that a click on a toast can open.
#[derive(Clone, Copy, Debug, PartialEq, Eq, Structural)]
pub enum ClickTarget {
    Popup,
    AskWindow,
}

/// The window that a click on a toast opens: for a question the one where it is
/// answered, else the popup. A click that cannot be told apart opens the popup.
pub fn click_target(clicked: Option<ToastKind>) -> (out: ClickTarget)
    ensures
        out == if clicked == Some(ToastKind::Ask) {
            ClickTarget::AskWindow
        } else {
            ClickTarget::Popup
        },
{
    match clicked {
        Some(ToastKind::Ask) => ClickTarget::AskWindow,
        _ => ClickTarget::Popup,
    }
}

// ---------------------------------------------------------------------------
// What a toast says.
// ---------------------------------------------------------------------------

/// Cap on the question in a toast's title, in grapheme clusters.
pub const TOAST_QUESTION_CHARS: usize = 60;

/// The title of a toast.
pub open spec fn toast_title(kind: ToastKind, project: Seq<char>, detail: Seq<char>) -> Seq<char> {
    match kind {
        ToastKind::Idle => project + " finished"@,
        ToastKind::Attention => project + " needs you"@,
        ToastKind::Ask => project + " asks: "@ + grapheme_capped(
            trimmed(detail),
            TOAST_QUESTION_CHARS as nat,
        ),
        ToastKind::Reminder => project + " still waiting"@,
    }
}

/// The body of a toast.
pub open spec fn toast_body(
    kind: ToastKind,
    detail: Seq<char>,
    last_words: Option<Seq<char>>,
) -> Seq<char> {
    match kind {
        ToastKind::Idle => match last_words {
            Some(words) => words,
            None => (if trimmed(detail).len() == 0 {
                "(no title)"@
            } else {
                trimmed(detail)
            }) + " Waiting for new instructions."@,
        },
        ToastKind::Attention => detail,
        ToastKind::Ask => detail,
        ToastKind::Reminder => "Still waiting for your instructions."@,
    }
}

/// The title and the body of a toast.
pub fn compose(req: &ToastRequest) -> (out: (String, String))
    ensures
        out.0@ == toast_title(req.kind, req.project@, req.detail@),
        out.1@ == toast_body(req.kind, req.detail@, optional_text(req.assistant_body)),
{
    match req.kind {
        ToastKind::Idle => {
            let title = joined(req.project.as_str(), " finished");
            match &req.assistant_body {
                Some(words) => (title, words.clone()),
                None => {
                    let task = trim(req.detail.as_str());
                    let shown: &str = if task.as_str().is_empty() {
                        "(no title)"
                    } else {
                        task.as_str()
                    };
                    (title, joined(shown, " Waiting for new instructions."))
                },
            }
        },
        ToastKind::Attention => (joined(req.project.as_str(), " needs you"), req.detail.clone()),
        ToastKind::Ask => {
            let mut title = joined(req.project.as_str(), " asks: ");
            title.append(truncate_ellipsis(req.detail.as_str(), TOAST_QUESTION_CHARS).as_str());
            (title, req.detail.clone())
        },
        ToastKind::Reminder => (
            joined(req.project.as_str(), " still waiting"),
            "Still waiting for your instructions.".to_owned(),
        ),
    }
}

/// `s` trimmed and cut to at most `max_chars` grapheme clusters.
pub fn truncate_ellipsis(s: &str, max_chars: usize) -> (out: String)
    requires
        max_chars > 0,
    ensures
        out@ == grapheme_capped(trimmed(s@), max_chars as nat),
{
    truncate_graphemes(trim(s).as_str(), max_chars)
}

// ---------------------------------------------------------------------------
// How a toast sounds and looks.
// ---------------------------------------------------------------------------

/// The sound of a toast that is no alert.
pub open spec fn quiet_sound(platform: Platform) -> Seq<char> {
    match platform {
        Platform::Windows => "Default"@,
        Platform::MacOs => "NSUserNotificationDefaultSoundName"@,
        Platform::Other => "message-new-instant"@,
    }
}

/// The sound of an alert.
pub open spec fn alert_sound(platform: Platform) -> Seq<char> {
    match platform {
        Platform::Windows => "Reminder"@,
        Platform::MacOs => "Basso"@,
        Platform::Other => "dialog-warning"@,
    }
}

/// The sound of a toast that is no alert.
pub fn idle_sound(platform: Platform) -> (out: &'static str)
    ensures
        out@ == quiet_sound(platform),
{
    match platform {
        Platform::Windows => "Default",
        Platform::MacOs => "NSUserNotificationDefaultSoundName",
        Platform::Other => "message-new-instant",
    }
}

/// The sound of an alert.
pub fn attention_sound(platform: Platform) -> (out: &'static str)
    ensures
        out@ == alert_sound(platform),
{
    match platform {
        Platform::Windows => "Reminder",
        Platform::MacOs => "Basso",
        Platform::Other => "dialog-warning",
    }
}

/// Whether a toast is an alert.
pub open spec fn alerting(kind: ToastKind) -> bool {
    kind == ToastKind::Attention || kind == ToastKind::Ask
}

/// Whether a toast is an alert: it then has a sound and an icon of its own.
pub fn is_alert(kind: ToastKind) -> (out: bool)
    ensures
        out == alerting(kind),
{
    match kind {
        ToastKind::Attention | ToastKind::Ask => true,
        ToastKind::Idle | ToastKind::Reminder => false,
    }
}

/// The sound of a toast.
pub fn sound_for(kind: ToastKind, platform: Platform) -> (out: &'static str)
    ensures
        out@ == if alerting(kind) {
            alert_sound(platform)
        } else {
            quiet_sound(platform)
        },
{
    match kind {
        ToastKind::Idle | ToastKind::Reminder => idle_sound(platform),
        ToastKind::Attention | ToastKind::Ask => attention_sound(platform),
    }
}

/// An alert sounds different from the rest, and every toast makes a sound.
pub proof fn law_alerts_sound_different(platform: Platform)
    ensures
        quiet_sound(platform) != alert_sound(platform),
        quiet_sound(platform).len() > 0,
        alert_sound(platform).len() > 0,
{
    reveal_strlit("Default");
    reveal_strlit("Reminder");
    reveal_strlit("NSUserNotificationDefaultSoundName");
    reveal_strlit("Basso");
    reveal_strlit("message-new-instant");
    reveal_strlit("dialog-warning");
    assert("Default"@.len() != "Reminder"@.len());
    assert("NSUserNotificationDefaultSoundName"@.len() != "Basso"@.len());
    assert("message-new-instant"@.len() != "dialog-warning"@.len());
}

/// Whether a variable switches something on: only the value `1` does.
pub fn is_truthy(v: Option<&str>) -> (out: bool)
    ensures
        out == (v matches Some(s) && s@ == "1"@),
{
    match v {
        Some(s) => same_text(s, "1"),
        None => false,
    }
}

/// Most threads that may wait for a click on a toast at one time.
pub const MAX_TOAST_WAITERS: usize = 8;

/// Whether one more thread may wait for a click on its toast.
pub fn may_wait_for_click(waiting: usize) -> (out: bool)
    ensures
        out == (waiting < MAX_TOAST_WAITERS),
{
    waiting < MAX_TOAST_WAITERS
}

/// Whether the program in `dir` was built here and not installed.
pub fn is_dev_dir(dir: &str, separator: &str) -> (out: bool)
    ensures
        out == (ends_with(dir@, separator@ + "target"@ + separator@ + "debug"@) || ends_with(
            dir@,
            separator@ + "target"@ + separator@ + "release"@,
        )),
{
    let mut debug = joined(separator, "target");
    debug.append(separator);
    let mut release = debug.clone();
    debug.append("debug");
    release.append("release");
    strip_suffix(dir, debug.as_str()).is_some() || strip_suffix(dir, release.as_str()).is_some()
}

/// Whether `s` ends with `suffix`.
pub open spec fn ends_with(s: Seq<char>, suffix: Seq<char>) -> bool {
    s.len() >= suffix.len() && s.skip(s.len() - suffix.len()) == suffix
}

// ---------------------------------------------------------------------------
// When a toast is held back.
// ---------------------------------------------------------------------------

/// Where the time comes from.
pub trait ThrottleClock {
    /// The time in milliseconds.
    fn now(&self) -> u64;
}

/// A toast that was shown.
#[derive(Clone, Debug)]
pub struct Fired {
    pub session_id: String,
    pub kind: ToastKind,
    pub at_ms: u64,
}

/// Whether `at` is less than `window` before `now`.
pub open spec fn recent(at: u64, now: u64, window: u64) -> bool {
    (if now >= at {
        now - at
    } else {
        0
    }) < window
}

/// Whether `fired` is a toast of this session and kind.
pub open spec fn of_key(fired: Fired, session_id: Seq<char>, kind: ToastKind) -> bool {
    fired.session_id@ == session_id && fired.kind == kind
}

/// Whether a toast of this session and kind was shown less than `window` before
/// `now`.
pub open spec fn held_back(
    fired: Seq<Fired>,
    session_id: Seq<char>,
    kind: ToastKind,
    now: u64,
    window: u64,
) -> bool {
    exists|i: int|
        0 <= i < fired.len() && of_key(#[trigger] fired[i], session_id, kind) && recent(
            fired[i].at_ms,
            now,
            window,
        )
}

/// Whether a toast may be shown: a question always, anything else unless the
/// user looks at the popup or saw such a toast just before.
pub open spec fn may_fire(
    fired: Seq<Fired>,
    session_id: Seq<char>,
    kind: ToastKind,
    popup_focused: bool,
    now: u64,
    window: u64,
) -> bool {
    kind == ToastKind::Ask || (!popup_focused && !held_back(fired, session_id, kind, now, window))
}

/// What is remembered after a toast was let through: what is still recent, and
/// the toast itself.
pub open spec fn fired_after(
    before: Seq<Fired>,
    after: Seq<Fired>,
    session_id: Seq<char>,
    kind: ToastKind,
    now: u64,
    window: u64,
) -> bool {
    let kept = before.filter(|f: Fired| recent(f.at_ms, now, window));
    &&& after.len() == kept.len() + 1
    &&& after.drop_last() == kept
    &&& of_key(after.last(), session_id, kind)
    &&& after.last().at_ms == now
}

/// What a decision at `now` does: whether the toast may be shown, and what is
/// remembered.
pub open spec fn throttle_step(
    before: Seq<Fired>,
    after: Seq<Fired>,
    session_id: Seq<char>,
    kind: ToastKind,
    popup_focused: bool,
    now: u64,
    window: u64,
    allowed: bool,
) -> bool {
    &&& allowed == may_fire(before, session_id, kind, popup_focused, now, window)
    &&& if allowed && kind != ToastKind::Ask {
        fired_after(before, after, session_id, kind, now, window)
    } else {
        after == before
    }
}

/// Holds back toasts that come too fast: of one session and kind at most one in
/// every `window_ms`. Questions are never held back.
pub struct Throttle<C: ThrottleClock> {
    pub clock: C,
    pub window_ms: u64,
    pub last_fired: Vec<Fired>,
}

/// Milliseconds in which toasts of one session and kind count as one.
pub const THROTTLE_WINDOW_MS: u64 = 10_000;

impl<C: ThrottleClock> Throttle<C> {
    /// A throttle with the usual window.
    pub fn new(clock: C) -> (out: Self)
        ensures
            out.clock == clock,
            out.window_ms == THROTTLE_WINDOW_MS,
            out.last_fired@ == Seq::<Fired>::empty(),
    {
        Self::with_clock(clock, THROTTLE_WINDOW_MS)
    }

    /// A throttle that has let nothing through yet.
    pub fn with_clock(clock: C, window_ms: u64) -> (out: Self)
        ensures
            out.clock == clock,
            out.window_ms == window_ms,
            out.last_fired@ == Seq::<Fired>::empty(),
    {
        Throttle { clock, window_ms, last_fired: Vec::new() }
    }

    /// Whether a toast may be shown now, by the clock; if so, it is remembered.
    pub fn allow(&mut self, session_id: &str, kind: ToastKind, popup_focused: bool) -> (out: bool)
        ensures
            exists|now: u64|
                call_ensures(C::now, (&old(self).clock,), now) && #[trigger] throttle_step(
                    old(self).last_fired@,
                    final(self).last_fired@,
                    session_id@,
                    kind,
                    popup_focused,
                    now,
                    old(self).window_ms,
                    out,
                ),
            kind == ToastKind::Ask ==> out,
            kind != ToastKind::Ask && popup_focused ==> !out,
            final(self).clock == old(self).clock,
            final(self).window_ms == old(self).window_ms,
    {
        let now: u64 = self.clock.now();
        let ghost before = self.last_fired@;
        let allowed = allow_at(
            &mut self.last_fired,
            self.window_ms,
            session_id,
            kind,
            popup_focused,
            now,
        );
        proof {
            assert(throttle_step(
                before,
                self.last_fired@,
                session_id@,
                kind,
                popup_focused,
                now,
                self.window_ms,
                allowed,
            ));
        }
        allowed
    }
}

/// Whether a toast may be shown at `now`; if so, it is remembered in `fired`.
pub fn allow_at(
    fired: &mut Vec<Fired>,
    window_ms: u64,
    session_id: &str,
    kind: ToastKind,
    popup_focused: bool,
    now: u64,
) -> (out: bool)
    ensures
        throttle_step(
            old(fired)@,
            final(fired)@,
            session_id@,
            kind,
            popup_focused,
            now,
            window_ms,
            out,
        ),
{
    if kind == ToastKind::Ask {
        return true;
    }
    if popup_focused {
        return false;
    }
    let mut i: usize = 0;
    while i < fired.len()
        invariant
            i <= fired@.len(),
            fired@ == old(fired)@,
            kind != ToastKind::Ask,
            !popup_focused,
            forall|j: int|
                0 <= j < i ==> !(of_key(#[trigger] fired@[j], session_id@, kind) && recent(
                    fired@[j].at_ms,
                    now,
                    window_ms,
                )),
        decreases fired.len() - i,
    {
        if fired[i].kind == kind && same_text(fired[i].session_id.as_str(), session_id)
            && now.saturating_sub(fired[i].at_ms) < window_ms {
            proof {
                assert(of_key(fired@[i as int], session_id@, kind));
            }
            return false;
        }
        i = i + 1;
    }
    let ghost stale = |f: Fired| !recent(f.at_ms, now, window_ms);
    let test = |f: &Fired| -> (b: bool)
        ensures
            b == !recent(f.at_ms, now, window_ms),
        { !(now.saturating_sub(f.at_ms) < window_ms) };
    let _gone = take_where(fired, test, Ghost(stale));
    let ghost kept = fired@;
    proof {
        assert(old(fired)@.filter(|f: Fired| !stale(f)) == old(fired)@.filter(
            |f: Fired| recent(f.at_ms, now, window_ms),
        )) by {
            lemma_same_filter(
                old(fired)@,
                |f: Fired| !stale(f),
                |f: Fired| recent(f.at_ms, now, window_ms),
            );
        }
    }
    fired.push(Fired { session_id: session_id.to_owned(), kind, at_ms: now });
    proof {
        assert(fired@.drop_last() =~= kept);
    }
    true
}

// ---------------------------------------------------------------------------
// Laws.
// ---------------------------------------------------------------------------

/// Whether no session and kind is remembered twice.
pub open spec fn one_each(fired: Seq<Fired>) -> bool {
    forall|i: int, j: int|
        0 <= i < j < fired.len() ==> !of_key(
            #[trigger] fired[j],
            (#[trigger] fired[i]).session_id@,
            fired[i].kind,
        )
}

proof fn lemma_one_each_filter(s: Seq<Fired>, p: spec_fn(Fired) -> bool)
    requires
        one_each(s),
    ensures
        one_each(s.filter(p)),
    decreases s.len(),
{
    reveal(Seq::filter);
    if s.len() > 0 {
        let front = s.drop_last();
        lemma_one_each_filter(front, p);
        let kept = s.filter(p);
        if p(s.last()) {
            assert forall|i: int, j: int| 0 <= i < j < kept.len() implies !of_key(
                #[trigger] kept[j],
                (#[trigger] kept[i]).session_id@,
                kept[i].kind,
            ) by {
                assert(front.filter(p)[i] == kept[i]);
                if j == kept.len() - 1 {
                    let k = lemma_filtered_from(front, p, i);
                    assert(s[k] == kept[i]);
                    assert(s[s.len() - 1] == kept[j]);
                } else {
                    assert(front.filter(p)[j] == kept[j]);
                }
            }
        }
    }
}

/// Nothing is ever remembered twice.
pub proof fn law_one_each_is_kept(
    before: Seq<Fired>,
    after: Seq<Fired>,
    session_id: Seq<char>,
    kind: ToastKind,
    popup_focused: bool,
    now: u64,
    window: u64,
    allowed: bool,
)
    requires
        one_each(before),
        throttle_step(before, after, session_id, kind, popup_focused, now, window, allowed),
    ensures
        one_each(after),
{
    if allowed && kind != ToastKind::Ask {
        let p = |f: Fired| recent(f.at_ms, now, window);
        let kept = before.filter(p);
        lemma_one_each_filter(before, p);
        assert forall|i: int, j: int| 0 <= i < j < after.len() implies !of_key(
            #[trigger] after[j],
            (#[trigger] after[i]).session_id@,
            after[i].kind,
        ) by {
            assert(after[i] == after.drop_last()[i]);
            if j == after.len() - 1 {
                let k = lemma_filtered_from(before, p, i);
                if of_key(after[j], after[i].session_id@, after[i].kind) {
                    assert(of_key(before[k], session_id, kind));
                    assert(held_back(before, session_id, kind, now, window));
                }
            } else {
                assert(after[j] == after.drop_last()[j]);
            }
        }
    }
}

/// What is remembered after a toast was let through is recent, all of it: what
/// is remembered grows with what goes on, not with what has gone on.
pub proof fn law_only_the_recent_is_remembered(
    before: Seq<Fired>,
    after: Seq<Fired>,
    session_id: Seq<char>,
    kind: ToastKind,
    popup_focused: bool,
    now: u64,
    window: u64,
)
    requires
        throttle_step(before, after, session_id, kind, popup_focused, now, window, true),
        kind != ToastKind::Ask,
        window > 0,
    ensures
        forall|i: int| 0 <= i < after.len() ==> recent((#[trigger] after[i]).at_ms, now, window),
        after.len() <= before.len() + 1,
{
    let p = |f: Fired| recent(f.at_ms, now, window);
    before.lemma_filter_len(p);
    assert forall|i: int| 0 <= i < after.len() implies recent(
        (#[trigger] after[i]).at_ms,
        now,
        window,
    ) by {
        if i < after.len() - 1 {
            assert(after[i] == after.drop_last()[i]);
            let k = lemma_filtered_from(before, p, i);
        }
    }
}

/// Forgetting what is no longer recent relaxes nothing: of another session or
/// kind, the same toasts are held back then and later.
pub proof fn law_forgetting_relaxes_nothing(
    before: Seq<Fired>,
    after: Seq<Fired>,
    session_id: Seq<char>,
    kind: ToastKind,
    popup_focused: bool,
    now: u64,
    window: u64,
    allowed: bool,
    other_id: Seq<char>,
    other_kind: ToastKind,
    later: u64,
)
    requires
        throttle_step(before, after, session_id, kind, popup_focused, now, window, allowed),
        other_id != session_id || other_kind != kind,
        now <= later,
    ensures
        held_back(after, other_id, other_kind, later, window) == held_back(
            before,
            other_id,
            other_kind,
            later,
            window,
        ),
{
    if allowed && kind != ToastKind::Ask {
        let p = |f: Fired| recent(f.at_ms, now, window);
        let kept = before.filter(p);
        if held_back(before, other_id, other_kind, later, window) {
            let i = choose|i: int|
                0 <= i < before.len() && of_key(#[trigger] before[i], other_id, other_kind)
                    && recent(before[i].at_ms, later, window);
            let k = lemma_filtered_keeps(before, p, i);
            assert(after[k] == after.drop_last()[k]);
            assert(of_key(after[k], other_id, other_kind));
        }
        if held_back(after, other_id, other_kind, later, window) {
            let i = choose|i: int|
                0 <= i < after.len() && of_key(#[trigger] after[i], other_id, other_kind)
                    && recent(after[i].at_ms, later, window);
            assert(i < after.len() - 1);
            assert(after[i] == after.drop_last()[i]);
            let k = lemma_filtered_from(before, p, i);
            assert(of_key(before[k], other_id, other_kind));
        }
    }
}

/// A toast that was let through holds back the next of its session and kind
/// until the window has passed, and no longer.
pub proof fn law_one_toast_a_window(
    before: Seq<Fired>,
    after: Seq<Fired>,
    session_id: Seq<char>,
    kind: ToastKind,
    now: u64,
    window: u64,
    later: u64,
)
    requires
        throttle_step(before, after, session_id, kind, false, now, window, true),
        kind != ToastKind::Ask,
        now <= later,
    ensures
        may_fire(after, session_id, kind, false, later, window) == (later - now >= window),
{
    let p = |f: Fired| recent(f.at_ms, now, window);
    let kept = before.filter(p);
    let last = after.len() - 1;
    if later - now < window {
        assert(of_key(after[last], session_id, kind));
    } else if held_back(after, session_id, kind, later, window) {
        let i = choose|i: int|
            0 <= i < after.len() && of_key(#[trigger] after[i], session_id, kind) && recent(
                after[i].at_ms,
                later,
                window,
            );
        if i < last {
            assert(after[i] == after.drop_last()[i]);
            let k = lemma_filtered_from(before, p, i);
            assert(of_key(before[k], session_id, kind));
            assert(held_back(before, session_id, kind, now, window));
        }
    }
}

// ---------------------------------------------------------------------------
// Many toasts, one after the other.
// ---------------------------------------------------------------------------

/// A toast that asks to be shown.
pub ghost struct ToastCall {
    pub session_id: Seq<char>,
    pub kind: ToastKind,
    pub popup_focused: bool,
    pub now: u64,
}

/// Whether the call is for this session and kind.
pub open spec fn call_of(call: ToastCall, session_id: Seq<char>, kind: ToastKind) -> bool {
    call.session_id == session_id && call.kind == kind
}

/// Whether a throttle that had let nothing through remembers `states` and gives
/// `answers` when it is called like this, at times that do not go back.
pub open spec fn throttle_run(
    calls: Seq<ToastCall>,
    states: Seq<Seq<Fired>>,
    answers: Seq<bool>,
    window: u64,
) -> bool {
    &&& states.len() == calls.len() + 1
    &&& answers.len() == calls.len()
    &&& states[0].len() == 0
    &&& forall|i: int|
        0 <= i < calls.len() ==> throttle_step(
            states[i],
            states[i + 1],
            (#[trigger] calls[i]).session_id,
            calls[i].kind,
            calls[i].popup_focused,
            calls[i].now,
            window,
            answers[i],
        )
    &&& forall|i: int, j: int|
        0 <= i <= j < calls.len() ==> (#[trigger] calls[i]).now <= (#[trigger] calls[j]).now
}

/// Whether one of the first `n` calls was for this session and kind, was let through,
/// and is recent at `now`.
pub open spec fn let_through(
    calls: Seq<ToastCall>,
    answers: Seq<bool>,
    n: int,
    session_id: Seq<char>,
    kind: ToastKind,
    now: u64,
    window: u64,
) -> bool {
    exists|j: int|
        0 <= j < n && call_of(#[trigger] calls[j], session_id, kind) && answers[j] && recent(
            calls[j].now,
            now,
            window,
        )
}

/// What is remembered after `n` calls holds back what those that were let through do.
proof fn lemma_remembered(
    calls: Seq<ToastCall>,
    states: Seq<Seq<Fired>>,
    answers: Seq<bool>,
    window: u64,
    n: int,
    session_id: Seq<char>,
    kind: ToastKind,
    now: u64,
)
    requires
        throttle_run(calls, states, answers, window),
        0 <= n <= calls.len(),
        kind != ToastKind::Ask,
        n > 0 ==> calls[n - 1].now <= now,
    ensures
        held_back(states[n], session_id, kind, now, window) == let_through(
            calls,
            answers,
            n,
            session_id,
            kind,
            now,
            window,
        ),
    decreases n,
{
    if n > 0 {
        let last = calls[n - 1];
        let before = states[n - 1];
        let after = states[n];
        assert(throttle_step(
            before,
            after,
            last.session_id,
            last.kind,
            last.popup_focused,
            last.now,
            window,
            answers[n - 1],
        ));
        if n > 1 {
            assert(calls[n - 2].now <= calls[n - 1].now);
        }
        lemma_remembered(calls, states, answers, window, n - 1, session_id, kind, now);
        if !call_of(last, session_id, kind) {
            law_forgetting_relaxes_nothing(
                before,
                after,
                last.session_id,
                last.kind,
                last.popup_focused,
                last.now,
                window,
                answers[n - 1],
                session_id,
                kind,
                now,
            );
        } else if answers[n - 1] {
            lemma_remembered(calls, states, answers, window, n - 1, session_id, kind, last.now);
            law_one_toast_a_window(before, after, session_id, kind, last.now, window, now);
            if let_through(calls, answers, n - 1, session_id, kind, now, window) {
                let j = choose|j: int|
                    0 <= j < n - 1 && call_of(#[trigger] calls[j], session_id, kind) && answers[j]
                        && recent(calls[j].now, now, window);
                assert(calls[j].now <= calls[n - 1].now);
                assert(recent(calls[j].now, last.now, window));
                assert(let_through(calls, answers, n - 1, session_id, kind, last.now, window));
            }
        }
        if let_through(calls, answers, n, session_id, kind, now, window) {
            let j = choose|j: int|
                0 <= j < n && call_of(#[trigger] calls[j], session_id, kind) && answers[j]
                    && recent(calls[j].now, now, window);
            if j < n - 1 {
                assert(let_through(calls, answers, n - 1, session_id, kind, now, window));
            }
        }
        if let_through(calls, answers, n - 1, session_id, kind, now, window) {
            let j = choose|j: int|
                0 <= j < n - 1 && call_of(#[trigger] calls[j], session_id, kind) && answers[j]
                    && recent(calls[j].now, now, window);
            assert(call_of(calls[j], session_id, kind));
            assert(let_through(calls, answers, n, session_id, kind, now, window));
        }
    }
}

/// What each of many calls is answered: a question is always shown; anything else is
/// not while the user looks at the popup, and otherwise is exactly where no toast of
/// its session and kind was let through just before.
pub proof fn law_answers_depend_on_the_key(
    calls: Seq<ToastCall>,
    states: Seq<Seq<Fired>>,
    answers: Seq<bool>,
    window: u64,
    i: int,
)
    requires
        throttle_run(calls, states, answers, window),
        0 <= i < calls.len(),
    ensures
        answers[i] == (calls[i].kind == ToastKind::Ask || (!calls[i].popup_focused && !let_through(
            calls,
            answers,
            i,
            calls[i].session_id,
            calls[i].kind,
            calls[i].now,
            window,
        ))),
{
    let call = calls[i];
    assert(throttle_step(
        states[i],
        states[i + 1],
        call.session_id,
        call.kind,
        call.popup_focused,
        call.now,
        window,
        answers[i],
    ));
    if call.kind != ToastKind::Ask {
        if i > 0 {
            assert(calls[i - 1].now <= calls[i].now);
        }
        lemma_remembered(
            calls,
            states,
            answers,
            window,
            i,
            call.session_id,
            call.kind,
            call.now,
        );
    }
}

/// Whether `kept` picks some of the first `n` calls, in their order.
pub open spec fn picks(kept: Seq<int>, n: int) -> bool {
    &&& forall|k: int| 0 <= k < kept.len() ==> 0 <= #[trigger] kept[k] < n
    &&& forall|k: int, m: int|
        0 <= k < m < kept.len() ==> (#[trigger] kept[k]) < (#[trigger] kept[m])
}

/// The answers for one session and kind stay the same when other calls are left out:
/// questions, calls while the user looks at the popup, calls that were held back, and
/// calls for other sessions or kinds. Only those of the same session and kind that were
/// let through must stay.
pub proof fn law_other_calls_make_no_difference(
    calls: Seq<ToastCall>,
    states: Seq<Seq<Fired>>,
    answers: Seq<bool>,
    kept: Seq<int>,
    kept_states: Seq<Seq<Fired>>,
    kept_answers: Seq<bool>,
    window: u64,
    session_id: Seq<char>,
    kind: ToastKind,
)
    requires
        throttle_run(calls, states, answers, window),
        picks(kept, calls.len() as int),
        forall|i: int|
            0 <= i < calls.len() && call_of(#[trigger] calls[i], session_id, kind) && answers[i]
                ==> kept.contains(i),
        throttle_run(
            Seq::new(kept.len(), |k: int| calls[kept[k]]),
            kept_states,
            kept_answers,
            window,
        ),
    ensures
        forall|k: int|
            0 <= k < kept.len() && call_of(calls[#[trigger] kept[k]], session_id, kind)
                ==> kept_answers[k] == answers[kept[k]],
{
    assert forall|k: int|
        0 <= k < kept.len() && call_of(calls[#[trigger] kept[k]], session_id, kind) implies kept_answers[k]
        == answers[kept[k]] by {
        lemma_same_answer(
            calls,
            states,
            answers,
            kept,
            kept_states,
            kept_answers,
            window,
            session_id,
            kind,
            k,
        );
    }
}

proof fn lemma_same_answer(
    calls: Seq<ToastCall>,
    states: Seq<Seq<Fired>>,
    answers: Seq<bool>,
    kept: Seq<int>,
    kept_states: Seq<Seq<Fired>>,
    kept_answers: Seq<bool>,
    window: u64,
    session_id: Seq<char>,
    kind: ToastKind,
    k: int,
)
    requires
        throttle_run(calls, states, answers, window),
        picks(kept, calls.len() as int),
        forall|i: int|
            0 <= i < calls.len() && call_of(#[trigger] calls[i], session_id, kind) && answers[i]
                ==> kept.contains(i),
        throttle_run(
            Seq::new(kept.len(), |m: int| calls[kept[m]]),
            kept_states,
            kept_answers,
            window,
        ),
        0 <= k < kept.len(),
        call_of(calls[kept[k]], session_id, kind),
    ensures
        kept_answers[k] == answers[kept[k]],
    decreases k,
{
    let fewer = Seq::new(kept.len(), |m: int| calls[kept[m]]);
    let i = kept[k];
    let now = calls[i].now;
    law_answers_depend_on_the_key(calls, states, answers, window, i);
    law_answers_depend_on_the_key(fewer, kept_states, kept_answers, window, k);
    assert(fewer[k] == calls[i]);
    if let_through(calls, answers, i, session_id, kind, now, window) {
        let j = choose|j: int|
            0 <= j < i && call_of(#[trigger] calls[j], session_id, kind) && answers[j] && recent(
                calls[j].now,
                now,
                window,
            );
        assert(kept.contains(j));
        let m = choose|m: int| 0 <= m < kept.len() && kept[m] == j;
        if m > k {
            assert(kept[k] < kept[m]);
        }
        assert(m < k);
        lemma_same_answer(
            calls,
            states,
            answers,
            kept,
            kept_states,
            kept_answers,
            window,
            session_id,
            kind,
            m,
        );
        assert(call_of(fewer[m], session_id, kind));
        assert(let_through(fewer, kept_answers, k, session_id, kind, now, window));
    }
    if let_through(fewer, kept_answers, k, session_id, kind, now, window) {
        let m = choose|m: int|
            0 <= m < k && call_of(#[trigger] fewer[m], session_id, kind) && kept_answers[m]
                && recent(fewer[m].now, now, window);
        assert(fewer[m] == calls[kept[m]]);
        assert(kept[m] < kept[k]);
        lemma_same_answer(
            calls,
            states,
            answers,
            kept,
            kept_states,
            kept_answers,
            window,
            session_id,
            kind,
            m,
        );
        assert(call_of(calls[kept[m]], session_id, kind));
        assert(let_through(calls, answers, i, session_id, kind, now, window));
    }
}

} // verus!
