//! What holds of toasts, of the window for questions, and of the rounds of the loop.

use crate::deck::{Deck, PendingAsk};
use crate::foreground::session_is_foreground;
use crate::lists::{lemma_filtered_from, lemma_filtered_keeps, lemma_first_where, lemma_is_first};
use crate::mcp_server::NotifyRequest;
use crate::notify::{
    allow_at, attention_sound, click_target, compose, idle_sound, is_alert, may_wait_for_click,
    sound_for, ClickTarget, Fired, Throttle, ThrottleClock, ToastKind, ToastRequest,
};
use crate::paths::base_name;
use crate::request_laws::{cut, lemma_undirected, undirected};
use crate::sessions::{
    cached_foreground, match_session, needs_foreground, session_foreground, session_in_front,
    ForegroundSample, SessionView, Terminal,
};
use crate::settings::{Platform, Settings};
use crate::shell::{
    gate_toast, idle_assistant_body, may_register_identity, maybe_surface_asks, notify_user,
    readable_transcripts, refund_toast, retain_present, sync_autostart, transcript_changed,
    DueRounds, LoopTimers, Notification, SeenTranscript, SessionTranscript, ToastGate, Transcript,
};
use crate::text::{collapsed, decimal, trimmed};
use vstd::prelude::*;

verus! {

/// Whether the user looks at the terminal of the session: whether the first terminal that
/// is known of it has a process that is in front.
pub open spec fn looked_at(
    id: Seq<char>,
    terminals: Seq<Terminal>,
    foreground: Seq<u32>,
) -> bool {
    exists|i: int, k: int, m: int|
        0 <= i < terminals.len() && terminals[i].session_id@ == id && (forall|j: int|
            0 <= j < i ==> (#[trigger] terminals[j]).session_id@ != id) && 0 <= k
            < terminals[i].pids@.len() && 0 <= m < foreground.len()
            && #[trigger] terminals[i].pids@[k] == #[trigger] foreground[m]
}

proof fn lemma_looked_at(id: Seq<char>, terminals: Seq<Terminal>, foreground: Seq<u32>)
    ensures
        looked_at(id, terminals, foreground) == session_in_front(Some(id), terminals, foreground),
{
    let of = |t: Terminal| crate::sessions::terminal_of(t, id);
    lemma_first_where(terminals, of);
    let pids = crate::sessions::pids_of(terminals, id);
    if looked_at(id, terminals, foreground) {
        let (i, k, m) = choose|i: int, k: int, m: int|
            0 <= i < terminals.len() && terminals[i].session_id@ == id && (forall|j: int|
                0 <= j < i ==> (#[trigger] terminals[j]).session_id@ != id) && 0 <= k
                < terminals[i].pids@.len() && 0 <= m < foreground.len()
                && #[trigger] terminals[i].pids@[k] == #[trigger] foreground[m];
        lemma_is_first(terminals, of, i);
        assert(pids == terminals[i].pids@);
        assert(foreground.contains(pids[k]));
    }
    if session_in_front(Some(id), terminals, foreground) {
        let k = choose|k: int| 0 <= k < pids.len() && foreground.contains(#[trigger] pids[k]);
        let m = choose|m: int| 0 <= m < foreground.len() && foreground[m] == pids[k];
        let i = crate::lists::first_where(terminals, of)->Some_0;
        assert(terminals[i].pids@[k] == foreground[m]);
    }
}

/// A toast that its switch in the settings turns off is not attempted, nor one of a
/// session that the user looks at; every other is. A question has no switch.
pub proof fn law_the_switches_hold_back_their_toasts(
    kind: ToastKind,
    session_id: &str,
    settings: &Settings,
    terminals: &Vec<Terminal>,
    foreground: &Vec<u32>,
    out: ToastGate,
)
    requires
        call_ensures(gate_toast, (kind, session_id, settings, terminals, foreground), out),
    ensures
        kind is Idle && !settings.notify_idle ==> !out.attempt,
        kind is Attention && !settings.notify_attention ==> !out.attempt,
        kind is Reminder && !settings.notify_reminder ==> !out.attempt,
        looked_at(session_id@, terminals@, foreground@) ==> !out.attempt,
        !looked_at(session_id@, terminals@, foreground@) ==> {
            &&& kind is Idle && settings.notify_idle ==> out.attempt
            &&& kind is Attention && settings.notify_attention ==> out.attempt
            &&& kind is Reminder && settings.notify_reminder ==> out.attempt
            &&& kind is Ask ==> out.attempt
        },
        out.last_words ==> out.attempt && kind is Idle,
        out.attempt && kind is Idle ==> out.last_words,
{
    lemma_looked_at(session_id@, terminals@, foreground@);
}

/// A switch holds back toasts of its own kind alone: two settings that agree on it are
/// answered alike.
pub proof fn law_other_switches_make_no_difference(
    kind: ToastKind,
    session_id: &str,
    one: &Settings,
    other: &Settings,
    terminals: &Vec<Terminal>,
    foreground: &Vec<u32>,
    out_one: ToastGate,
    out_other: ToastGate,
)
    requires
        call_ensures(gate_toast, (kind, session_id, one, terminals, foreground), out_one),
        call_ensures(gate_toast, (kind, session_id, other, terminals, foreground), out_other),
        kind is Idle ==> one.notify_idle == other.notify_idle,
        kind is Attention ==> one.notify_attention == other.notify_attention,
        kind is Reminder ==> one.notify_reminder == other.notify_reminder,
    ensures
        out_one == out_other,
{
}

/// What is not shown, for whatever reason, gives the engine its slot back.
pub proof fn law_what_is_not_shown_is_given_back(gate: ToastGate, sent: bool, out: bool)
    requires
        call_ensures(refund_toast, (gate, sent), out),
    ensures
        !gate.attempt ==> out,
        !sent ==> out,
        gate.attempt && sent ==> !out,
{
}

/// Whether the user looks at a session's terminal, by whichever way it is asked.
pub proof fn law_the_terminal_in_front_is_told(
    session_id: Option<&str>,
    terminals: &Vec<Terminal>,
    foreground: &Vec<u32>,
    out: bool,
    needed: bool,
)
    requires
        call_ensures(session_foreground, (session_id, terminals, foreground), out),
        call_ensures(needs_foreground, (session_id, terminals), needed),
    ensures
        session_id is None ==> !out && !needed,
        session_id matches Some(id) ==> out == looked_at(id@, terminals@, foreground@),
        out ==> needed,
        session_id matches Some(id) ==> (needed == exists|i: int|
            0 <= i < terminals@.len() && (#[trigger] terminals@[i]).session_id@ == id@
                && terminals@[i].pids@.len() > 0 && forall|j: int|
                0 <= j < i ==> (#[trigger] terminals@[j]).session_id@ != id@),
{
    if let Some(id) = session_id {
        lemma_looked_at(id@, terminals@, foreground@);
        let of = |t: Terminal| crate::sessions::terminal_of(t, id@);
        lemma_first_where(terminals@, of);
        if exists|i: int|
            0 <= i < terminals@.len() && (#[trigger] terminals@[i]).session_id@ == id@
                && terminals@[i].pids@.len() > 0 && forall|j: int|
                0 <= j < i ==> (#[trigger] terminals@[j]).session_id@ != id@ {
            let i = choose|i: int|
                0 <= i < terminals@.len() && (#[trigger] terminals@[i]).session_id@ == id@
                    && terminals@[i].pids@.len() > 0 && forall|j: int|
                    0 <= j < i ==> (#[trigger] terminals@[j]).session_id@ != id@;
            lemma_is_first(terminals@, of, i);
        }
    }
}

/// A terminal is in front exactly when one of its processes is.
pub proof fn law_one_process_in_front_is_enough(
    pids: &[u32],
    chain: &[u32],
    out: bool,
)
    requires
        call_ensures(session_is_foreground, (pids, chain), out),
    ensures
        out == exists|i: int, j: int|
            0 <= i < pids@.len() && 0 <= j < chain@.len() && #[trigger] pids@[i]
                == #[trigger] chain@[j],
{
    if out {
        let i = choose|i: int| 0 <= i < pids@.len() && chain@.contains(#[trigger] pids@[i]);
        let j = choose|j: int| 0 <= j < chain@.len() && chain@[j] == pids@[i];
        assert(pids@[i] == chain@[j]);
    }
    if exists|i: int, j: int|
        0 <= i < pids@.len() && 0 <= j < chain@.len() && #[trigger] pids@[i]
            == #[trigger] chain@[j] {
        let (i, j) = choose|i: int, j: int|
            0 <= i < pids@.len() && 0 <= j < chain@.len() && #[trigger] pids@[i]
                == #[trigger] chain@[j];
        assert(chain@.contains(pids@[i]));
    }
}

/// What was in front is remembered for as long as it may be, and not longer.
pub proof fn law_a_look_is_good_for_a_while(
    cache: &Option<ForegroundSample>,
    now: u64,
    max_age_ms: u64,
    out: Option<Vec<u32>>,
)
    requires
        call_ensures(cached_foreground, (cache, now, max_age_ms), out),
    ensures
        *cache is None ==> out is None,
        *cache matches Some(sample) ==> {
            &&& now <= sample.at_ms + max_age_ms ==> (out matches Some(pids) && pids@
                == sample.pids@)
            &&& now > sample.at_ms + max_age_ms ==> out is None
        },
{
}

/// Whether the question can be put before the user.
pub open spec fn can_be_put(
    ask: PendingAsk,
    terminals: Seq<Terminal>,
    foreground: Seq<u32>,
) -> bool {
    match ask.session_id {
        Some(id) => !looked_at(id@, terminals, foreground),
        None => true,
    }
}

/// The window comes up for a question of which the user does not look at the terminal,
/// unless it is up already; and for nothing else.
pub proof fn law_the_window_comes_up_for_questions(
    deck: &Deck,
    visible: bool,
    terminals: &Vec<Terminal>,
    foreground: &Vec<u32>,
    out: bool,
    i: int,
)
    requires
        call_ensures(maybe_surface_asks, (deck, visible, terminals, foreground), out),
    ensures
        visible ==> !out,
        !visible && 0 <= i < deck.asks@.len() && can_be_put(
            deck.asks@[i],
            terminals@,
            foreground@,
        ) ==> out,
        (forall|j: int|
            0 <= j < deck.asks@.len() ==> !can_be_put(
                #[trigger] deck.asks@[j],
                terminals@,
                foreground@,
            )) ==> !out,
{
    assert forall|j: int| 0 <= j < deck.asks@.len() implies can_be_put(
        #[trigger] deck.asks@[j],
        terminals@,
        foreground@,
    ) == crate::shell::surfaceable(deck.asks@[j], terminals@, foreground@) by {
        if let Some(id) = deck.asks@[j].session_id {
            lemma_looked_at(id@, terminals@, foreground@);
        }
    }
    if 0 <= i < deck.asks@.len() {
        assert(can_be_put(deck.asks@[i], terminals@, foreground@) == crate::shell::surfaceable(
            deck.asks@[i],
            terminals@,
            foreground@,
        ));
    }
}

/// A toast says whose it is and what it is about: that a session is done, with the last
/// words of the agent or else the title of the task; what is needed; the question, in the
/// title up to sixty grapheme clusters and in the body in full; or that the session still
/// waits.
pub proof fn law_a_toast_says_what_it_is_about(req: &ToastRequest, out: (String, String))
    requires
        call_ensures(compose, (req,), out),
    ensures
        req.kind is Idle ==> out.0@ == req.project@ + " finished"@,
        req.kind is Attention ==> out.0@ == req.project@ + " needs you"@,
        req.kind is Reminder ==> out.0@ == req.project@ + " still waiting"@,
        req.kind is Ask ==> out.0@ == req.project@ + " asks: "@ + cut(trimmed(req.detail@), 60),
        req.kind is Attention || req.kind is Ask ==> out.1@ == req.detail@,
        req.kind is Reminder ==> out.1@ == "Still waiting for your instructions."@,
        req.kind is Idle ==> match req.assistant_body {
            Some(words) => out.1@ == words@,
            None => if trimmed(req.detail@).len() == 0 {
                out.1@ == "(no title)"@ + " Waiting for new instructions."@
            } else {
                out.1@ == trimmed(req.detail@) + " Waiting for new instructions."@
            },
        },
{
}

/// What needs the user is an alert: it has the sound of alerts, and what merely tells them
/// something has the other.
pub proof fn law_what_needs_the_user_sounds_so(
    kind: ToastKind,
    platform: Platform,
    out: &'static str,
    alert: bool,
    loud: &'static str,
    quiet: &'static str,
)
    requires
        call_ensures(sound_for, (kind, platform), out),
        call_ensures(is_alert, (kind,), alert),
        call_ensures(attention_sound, (platform,), loud),
        call_ensures(idle_sound, (platform,), quiet),
    ensures
        kind is Attention || kind is Ask ==> alert && out@ == loud@,
        kind is Idle || kind is Reminder ==> !alert && out@ == quiet@,
        platform is Windows ==> loud@ == "Reminder"@ && quiet@ == "Default"@,
        platform is MacOs ==> loud@ == "Basso"@ && quiet@ == "NSUserNotificationDefaultSoundName"@,
        platform is Other ==> loud@ == "dialog-warning"@ && quiet@ == "message-new-instant"@,
{
}

/// A kind of toast has its name.
pub proof fn law_kinds_have_their_names(kind: ToastKind, out: &'static str)
    requires
        call_ensures(ToastKind::as_str, (kind,), out),
    ensures
        kind is Idle ==> out@ == "idle"@,
        kind is Attention ==> out@ == "attention"@,
        kind is Ask ==> out@ == "ask"@,
        kind is Reminder ==> out@ == "reminder"@,
{
}

/// A click on a question leads to where it is answered, and any other to the popup; and no
/// more than eight toasts wait for a click at one time.
pub proof fn law_clicks_lead_to_their_window(
    clicked: Option<ToastKind>,
    out: ClickTarget,
    waiting: usize,
    may_wait: bool,
)
    requires
        call_ensures(click_target, (clicked,), out),
        call_ensures(may_wait_for_click, (waiting,), may_wait),
    ensures
        clicked matches Some(kind) ==> (kind is Ask) == (out is AskWindow),
        clicked is None ==> out is Popup,
        waiting < 8 ==> may_wait,
        waiting >= 8 ==> !may_wait,
{
}

/// The last words of an agent are carried on one line and up to ninety grapheme clusters,
/// without characters that turn the direction of text; blank ones are not carried.
pub proof fn law_last_words_are_carried(said: &str, out: Option<String>)
    requires
        call_ensures(idle_assistant_body, (said,), out),
    ensures
        ({
            let words = cut(collapsed(undirected(said@)), 90);
            if trimmed(words).len() == 0 {
                out is None
            } else {
                out matches Some(w) && w@ == words
            }
        }),
        crate::text::single_spaced(said@) && undirected(said@) == said@ && said@.len() > 0
            && crate::text::grapheme_clusters(said@).len() <= 90 ==> (out matches Some(w) && w@
            == said@),
{
    lemma_undirected();
    crate::text::law_collapsing_leaves_the_words(said@);
    if crate::text::single_spaced(said@) && said@.len() > 0 {
        crate::text::lemma_trimmed_whole(said@);
    }
}

/// A notification is shown in its own words, exactly where toasts for attention are
/// wanted; it is shown as the session's that its place leads to.
pub proof fn law_a_notification_is_shown_in_its_own_words(
    req: &NotifyRequest,
    wanted: bool,
    views: &Vec<SessionView>,
    now: u64,
    seq: u64,
    ignore_case: bool,
    out: Notification,
    context: Option<&str>,
    found: (Option<String>, Option<String>),
)
    requires
        call_ensures(notify_user, (req, wanted, views, now, seq, ignore_case), out),
        call_ensures(match_session, (views, context, ignore_case), found),
        (context is Some) == (req.context is Some),
        context matches Some(c) ==> c@ == req.context->Some_0@,
    ensures
        out.record_id@ == "ntf-"@ + decimal(now as nat) + "-"@ + decimal(seq as nat),
        !wanted ==> out.toast is None,
        wanted ==> (out.toast matches Some(toast) && {
            &&& toast.kind == ToastKind::Attention
            &&& toast.detail@ == req.message@
            &&& toast.assistant_body is None
            &&& found.0 matches Some(id) ==> toast.session_id@ == "notify-"@ + id@
            &&& found.0 is None ==> match req.context {
                Some(c) => if trimmed(c@).len() == 0 {
                    toast.session_id@ == "notify-agent"@
                } else {
                    toast.session_id@ == "notify-"@ + trimmed(c@)
                },
                None => toast.session_id@ == "notify-agent"@,
            }
            &&& found.1 matches Some(p) ==> toast.project@ == p@
            &&& found.1 is None ==> match req.context {
                Some(c) => toast.project@ == base_name(c@),
                None => toast.project@ == "Agent"@,
            }
        }),
{
    lemma_first_where(
        views@,
        |v: SessionView| crate::sessions::runs_at(v, trimmed(req.context->Some_0@), ignore_case),
    );
    lemma_first_where(
        views@,
        |v: SessionView|
            crate::sessions::runs_in(v, base_name(trimmed(req.context->Some_0@)), ignore_case),
    );
}

// ---------------------------------------------------------------------------
// When a toast is held back.
// ---------------------------------------------------------------------------

/// Whether a toast of this session and kind was shown less than `window` ago.
pub open spec fn shown_lately(
    fired: Seq<Fired>,
    session_id: Seq<char>,
    kind: ToastKind,
    now: u64,
    window: u64,
) -> bool {
    exists|i: int|
        0 <= i < fired.len() && (#[trigger] fired[i]).session_id@ == session_id && fired[i].kind
            == kind && now < fired[i].at_ms + window
}

/// A toast comes through unless the user looks at the popup or one of its session and kind
/// came through less than a window ago; a question always does, and counts for nothing.
/// What came through is remembered at its time.
pub proof fn law_a_toast_holds_back_the_next(
    fired: &mut Vec<Fired>,
    window: u64,
    session_id: &str,
    kind: ToastKind,
    focused: bool,
    now: u64,
    out: bool,
    i: int,
)
    requires
        call_ensures(allow_at, (fired, window, session_id, kind, focused, now), out),
    ensures
        kind is Ask ==> out,
        !(kind is Ask) && focused ==> !out,
        !(kind is Ask) && !focused && window > 0 ==> out == !shown_lately(
            mut_ref_current(fired)@,
            session_id@,
            kind,
            now,
            window,
        ),
        !(kind is Ask) && !focused && window == 0 ==> out,
        !out || kind is Ask ==> mut_ref_future(fired)@ == mut_ref_current(fired)@,
        out && !(kind is Ask) ==> {
            let after = mut_ref_future(fired)@;
            &&& after.len() > 0
            &&& after.last().session_id@ == session_id@
            &&& after.last().kind == kind
            &&& after.last().at_ms == now
            &&& window > 0 && 0 <= i < mut_ref_current(fired)@.len() && now < mut_ref_current(
                fired,
            )@[i].at_ms + window ==> after.contains(mut_ref_current(fired)@[i])
            &&& 0 <= i < after.len() - 1 ==> mut_ref_current(fired)@.contains(after[i])
        },
{
    let before = mut_ref_current(fired)@;
    let after = mut_ref_future(fired)@;
    if !(kind is Ask) && window > 0 {
        if shown_lately(before, session_id@, kind, now, window) {
            let k = choose|k: int|
                0 <= k < before.len() && (#[trigger] before[k]).session_id@ == session_id@
                    && before[k].kind == kind && now < before[k].at_ms + window;
            assert(crate::notify::of_key(before[k], session_id@, kind));
        }
        if crate::notify::held_back(before, session_id@, kind, now, window) {
            let k = choose|k: int|
                0 <= k < before.len() && crate::notify::of_key(
                    #[trigger] before[k],
                    session_id@,
                    kind,
                ) && crate::notify::recent(before[k].at_ms, now, window);
            assert(before[k].session_id@ == session_id@);
        }
    }
    if out && !(kind is Ask) {
        let p = |f: Fired| crate::notify::recent(f.at_ms, now, window);
        let kept = before.filter(p);
        assert(after.drop_last() == kept);
        if window > 0 && 0 <= i < before.len() && now < before[i].at_ms + window {
            assert(p(before[i]));
            let k = lemma_filtered_keeps(before, p, i);
            assert(after[k] == kept[k]);
        }
        if 0 <= i < after.len() - 1 {
            let k = lemma_filtered_from(before, p, i);
            assert(after.drop_last()[i] == kept[i]);
            assert(before[k] == after[i]);
        }
    }
}

/// A throttle starts with nothing to hold back, and holds back for ten seconds.
pub proof fn law_a_throttle_starts_open<C: ThrottleClock>(
    clock: C,
    out: Throttle<C>,
    window: u64,
    chosen: Throttle<C>,
)
    requires
        call_ensures(Throttle::<C>::new, (clock,), out),
        call_ensures(Throttle::<C>::with_clock, (clock, window), chosen),
    ensures
        out.clock == clock && out.window_ms == 10_000 && out.last_fired@.len() == 0,
        chosen.clock == clock && chosen.window_ms == window && chosen.last_fired@.len() == 0,
{
}

/// By the clock, a toast comes through once a window has passed since the last of its
/// session and kind, and not before.
pub proof fn law_the_clock_decides<C: ThrottleClock>(
    throttle: &mut Throttle<C>,
    session_id: &str,
    kind: ToastKind,
    out: bool,
    i: int,
)
    requires
        call_ensures(Throttle::<C>::allow, (throttle, session_id, kind, false), out),
        !(kind is Ask),
    ensures
        ({
            let fired = mut_ref_current(throttle).last_fired@;
            let window = mut_ref_current(throttle).window_ms;
            let clock = mut_ref_current(throttle).clock;
            &&& 0 <= i < fired.len() && fired[i].session_id@ == session_id@ && fired[i].kind == kind
                && window > 0 && (forall|now: u64|
                call_ensures(C::now, (&clock,), now) ==> now < fired[i].at_ms + window) ==> !out
            &&& (forall|now: u64, j: int|
                #![trigger call_ensures(C::now, (&clock,), now), fired[j]]
                call_ensures(C::now, (&clock,), now) && 0 <= j < fired.len()
                    && fired[j].session_id@ == session_id@ && fired[j].kind == kind ==> now
                    >= fired[j].at_ms + window) && window > 0 ==> out
        }),
{
    let fired = mut_ref_current(throttle).last_fired@;
    let window = mut_ref_current(throttle).window_ms;
    let clock = mut_ref_current(throttle).clock;
    let now = choose|now: u64|
        call_ensures(C::now, (&clock,), now) && #[trigger] crate::notify::throttle_step(
            fired,
            mut_ref_future(throttle).last_fired@,
            session_id@,
            kind,
            false,
            now,
            window,
            out,
        );
    assert(call_ensures(C::now, (&clock,), now));
    if 0 <= i < fired.len() && fired[i].session_id@ == session_id@ && fired[i].kind == kind {
        assert(crate::notify::of_key(fired[i], session_id@, kind));
    }
    if crate::notify::held_back(fired, session_id@, kind, now, window) {
        let k = choose|k: int|
            0 <= k < fired.len() && crate::notify::of_key(#[trigger] fired[k], session_id@, kind)
                && crate::notify::recent(fired[k].at_ms, now, window);
        assert(fired[k].session_id@ == session_id@);
    }
}

// ---------------------------------------------------------------------------
// Transcripts, what happens at login, and the loop.
// ---------------------------------------------------------------------------

/// One more session adds its transcript behind the others, where it has one; no session
/// adds none.
pub proof fn law_each_transcript_is_read(
    all: &Vec<SessionTranscript>,
    out: Vec<Transcript>,
    more: &Vec<SessionTranscript>,
    one: SessionTranscript,
    out_more: Vec<Transcript>,
)
    requires
        call_ensures(readable_transcripts, (all,), out),
        call_ensures(readable_transcripts, (more,), out_more),
        more@ == all@.push(one),
    ensures
        all@.len() == 0 ==> out@.len() == 0,
        match one.path {
            Some(path) => if path@.len() > 0 {
                out_more@.len() == out@.len() + 1 && out_more@.last().session_id@
                    == one.session_id@ && out_more@.last().path@ == path@
            } else {
                out_more@.len() == out@.len()
            },
            None => out_more@.len() == out@.len(),
        },
        forall|i: int|
            0 <= i < out@.len() ==> (#[trigger] out_more@[i]).session_id@ == out@[i].session_id@
                && out_more@[i].path@ == out@[i].path@,
{
    let f = |t: SessionTranscript| crate::shell::readable_transcript(t);
    let a = crate::shell::transcripts_view(out@);
    let b = crate::shell::transcripts_view(out_more@);
    more@.lemma_filter_map_take_succ(f, all@.len() as int);
    assert(more@.take(all@.len() as int) =~= all@);
    assert(more@.take(all@.len() as int + 1) =~= more@);
    assert(a.len() == out@.len() && b.len() == out_more@.len());
    if all@.len() == 0 {
        assert(all@ =~= Seq::empty());
        reveal(Seq::filter_map);
    }
    assert forall|i: int| 0 <= i < out@.len() implies (#[trigger] out_more@[i]).session_id@
        == out@[i].session_id@ && out_more@[i].path@ == out@[i].path@ by {
        assert(b[i] == a[i]);
    }
    if b.len() > a.len() {
        assert(b.last() == (one.session_id@, one.path->Some_0@));
    }
}

/// Whether the session is one of those that are there.
pub open spec fn is_there(present: Seq<String>, id: Seq<char>) -> bool {
    exists|j: int| 0 <= j < present.len() && (#[trigger] present[j])@ == id
}

proof fn lemma_is_there(present: Seq<String>, id: Seq<char>)
    ensures
        is_there(present, id) == crate::shell::present_in(crate::text::texts(present), id),
{
    let all = crate::text::texts(present);
    if is_there(present, id) {
        let j = choose|j: int| 0 <= j < present.len() && (#[trigger] present[j])@ == id;
        assert(all[j] == id);
    }
    if all.contains(id) {
        let j = choose|j: int| 0 <= j < all.len() && all[j] == id;
        assert(present[j]@ == id);
    }
}

/// What was seen of a session is kept while the session is there, and forgotten when it is
/// not.
pub proof fn law_gone_sessions_are_forgotten(
    seen: &mut Vec<SeenTranscript>,
    present: &Vec<String>,
    i: int,
    k: int,
)
    requires
        call_ensures(retain_present, (seen, present), ()),
    ensures
        0 <= i < mut_ref_current(seen)@.len() && is_there(
            present@,
            mut_ref_current(seen)@[i].session_id@,
        ) ==> mut_ref_future(seen)@.contains(mut_ref_current(seen)@[i]),
        0 <= k < mut_ref_future(seen)@.len() ==> mut_ref_current(seen)@.contains(
            mut_ref_future(seen)@[k],
        ) && is_there(present@, mut_ref_future(seen)@[k].session_id@),
{
    let before = mut_ref_current(seen)@;
    let after = mut_ref_future(seen)@;
    let p = |s: SeenTranscript|
        crate::shell::present_in(crate::text::texts(present@), s.session_id@);
    assert(after == before.filter(p));
    if 0 <= i < before.len() && is_there(present@, before[i].session_id@) {
        lemma_is_there(present@, before[i].session_id@);
        let m = lemma_filtered_keeps(before, p, i);
        assert(after[m] == before[i]);
    }
    if 0 <= k < after.len() {
        let m = lemma_filtered_from(before, p, k);
        assert(before[m] == after[k]);
        lemma_is_there(present@, after[k].session_id@);
    }
}

/// A transcript is read when it is new or has changed, and then not again until it changes.
pub proof fn law_a_transcript_is_read_once(
    seen: &mut Vec<SeenTranscript>,
    session_id: &str,
    mtime: u64,
    out: bool,
    again: &mut Vec<SeenTranscript>,
    mtime_again: u64,
    out_again: bool,
    i: int,
)
    requires
        call_ensures(transcript_changed, (seen, session_id, mtime), out),
        call_ensures(transcript_changed, (again, session_id, mtime_again), out_again),
        mut_ref_current(again)@ == mut_ref_future(seen)@,
    ensures
        (forall|j: int|
            0 <= j < mut_ref_current(seen)@.len() ==> (#[trigger] mut_ref_current(
                seen,
            )@[j]).session_id@ != session_id@) ==> out,
        0 <= i < mut_ref_current(seen)@.len() && mut_ref_current(seen)@[i].session_id@
            == session_id@ && (forall|j: int|
            0 <= j < i ==> (#[trigger] mut_ref_current(seen)@[j]).session_id@ != session_id@)
            ==> out == (mut_ref_current(seen)@[i].mtime_ms != mtime),
        0 <= i < mut_ref_current(seen)@.len() && mut_ref_current(seen)@[i].session_id@
            != session_id@ ==> mut_ref_future(seen)@.len() > i && mut_ref_future(seen)@[i]
            == mut_ref_current(seen)@[i],
        out_again == (mtime_again != mtime),
{
    let before = mut_ref_current(seen)@;
    let after = mut_ref_future(seen)@;
    let p = |s: SeenTranscript| crate::shell::seen_of(s, session_id@);
    lemma_first_where(before, p);
    if 0 <= i < before.len() && before[i].session_id@ == session_id@ && (forall|j: int|
        0 <= j < i ==> (#[trigger] before[j]).session_id@ != session_id@) {
        lemma_is_first(before, p, i);
    }
    if forall|j: int| 0 <= j < before.len() ==> (#[trigger] before[j]).session_id@ != session_id@ {
        crate::lists::lemma_no_first(before, p);
    }
    match crate::shell::seen_at(before, session_id@) {
        Some(k) => {
            assert forall|j: int| 0 <= j < k implies !p(#[trigger] after[j]) by {
                assert(after[j] == before[j]);
                assert(!p(before[j]));
            }
            lemma_is_first(after, p, k);
        },
        None => {
            let k = after.len() - 1;
            assert forall|j: int| 0 <= j < k implies !p(#[trigger] after[j]) by {
                assert(after[j] == after.drop_last()[j]);
                assert(!p(before[j]));
            }
            lemma_is_first(after, p, k);
            if 0 <= i < before.len() {
                assert(after[i] == after.drop_last()[i]);
            }
        },
    }
}

/// What happens at login is changed to what is asked, where it is not that already, and
/// never for a test; nor is an identity registered for a test that has none of its own.
pub proof fn law_login_follows_the_setting(
    isolated: bool,
    enable: bool,
    current: bool,
    out: Option<bool>,
    own: bool,
    registers: bool,
)
    requires
        call_ensures(sync_autostart, (isolated, enable, current), out),
        call_ensures(may_register_identity, (isolated, own), registers),
    ensures
        isolated ==> out is None && registers == own,
        !isolated ==> registers,
        !isolated && enable && !current ==> out == Some(true),
        !isolated && !enable && current ==> out == Some(false),
        enable == current ==> out is None,
{
}

/// A round is due when its time has passed since it was last made, and only then counts as
/// made: ten seconds for the engine, one for files that were missed, two for the window in
/// front.
pub proof fn law_rounds_come_in_their_time(
    timers: &mut LoopTimers,
    now: u64,
    out: DueRounds,
    start: u64,
    fresh: LoopTimers,
)
    requires
        call_ensures(LoopTimers::poll, (timers, now), out),
        call_ensures(LoopTimers::started, (start,), fresh),
    ensures
        out.tick == (now >= mut_ref_current(timers).last_tick + 10_000),
        out.sweep == (now >= mut_ref_current(timers).last_sweep + 1_000),
        out.foreground == (now >= mut_ref_current(timers).last_foreground + 2_000),
        out.tick ==> mut_ref_future(timers).last_tick == now,
        out.sweep ==> mut_ref_future(timers).last_sweep == now,
        out.foreground ==> mut_ref_future(timers).last_foreground == now,
        !out.tick ==> mut_ref_future(timers).last_tick == mut_ref_current(timers).last_tick,
        !out.sweep ==> mut_ref_future(timers).last_sweep == mut_ref_current(timers).last_sweep,
        !out.foreground ==> mut_ref_future(timers).last_foreground == mut_ref_current(
            timers,
        ).last_foreground,
        fresh.last_tick == start && fresh.last_sweep == start && fresh.last_foreground == start,
{
}

} // verus!
