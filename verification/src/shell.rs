//! The shell around the deck: what the window shows, which toasts are shown, and
//! what follows from a change of the settings.

use crate::deck::{
    ask_to_row, perm_to_row, shows_ask, shows_perm, toast_project, toast_project_of, Deck,
    PendingAsk,
};
use crate::foreground::{in_front, session_is_foreground};
use crate::ipc::{AskRow, Counts, PermRow, SessionRow, SettingsState, StateSnapshot};
use crate::json::JsonView;
use crate::lists::{find_first, first_where};
use crate::mcp_server::{mcp_command, mcp_command_of, McpConfig, NotifyRequest};
use crate::notify::{ToastKind, ToastRequest};
use crate::sessions::{
    given, map_row, match_session, pids_of, session_at, session_in_front, session_terminal_pids,
    shows_no_tokens, shows_session, SessionView, Terminal,
};
use crate::settings::{flag_or, stored_mode, PopupMode, Settings, SettingsView};
use crate::text::{
    bidi_stripped, clean, collapse_white_space, collapsed, decimal, decimal_text, grapheme_capped,
    joined, law_stripped_is_clean, lemma_collapsed_is_clean, lemma_shortened_is_clean,
    optional_text, same_text, strip_bidi_controls, texts, trim, trimmed, truncate_graphemes,
};
use crate::windows::should_force_list_on_unpin;
use vstd::prelude::*;
use vstd::string::*;

verus! {

// ---------------------------------------------------------------------------
// What the window shows.
// ---------------------------------------------------------------------------

/// The tokens that a session used.
#[derive(Clone, Debug)]
pub struct SessionUsage {
    pub session_id: String,
    /// How full the context is, in percent.
    pub ctx_percent: Option<u32>,
    /// Tokens spent, and the same in compact form.
    pub spend: u64,
    pub spend_text: String,
    /// Whether `spend` is a lower bound.
    pub spend_approx: bool,
    /// Tokens that background agents spent, and the same in compact form.
    pub group_spend: u64,
    pub group_text: String,
}

/// What else the window shows beside sessions, questions and requests.
pub struct ShellFacts {
    pub counts: Counts,
    pub hooks_installed: bool,
    /// The name of the agent's program, and whether it was found.
    pub cli: String,
    pub mcp_cli_available: bool,
    /// Where the server listens, where it does.
    pub mcp_config: Option<McpConfig>,
    pub data_dir: String,
    pub version: String,
}

/// Whether `row` shows the tokens in `usage`: nothing of what is zero.
pub open spec fn shows_tokens(row: SessionRow, usage: SessionUsage) -> bool {
    &&& row.ctx_percent == usage.ctx_percent
    &&& optional_text(row.spend) == if usage.spend > 0 {
        Some(usage.spend_text@)
    } else {
        None
    }
    &&& row.spend_approx == (usage.spend > 0 && usage.spend_approx)
    &&& optional_text(row.subagent_spend) == if usage.group_spend > 0 {
        Some(usage.group_text@)
    } else {
        None
    }
}

/// Whether the usage is that of the session.
pub open spec fn usage_of(usage: SessionUsage, session_id: Seq<char>) -> bool {
    usage.session_id@ == session_id
}

/// Whether `row` is the row for `view`: with its tokens if they are to be shown
/// and known.
pub open spec fn session_row_of(
    row: SessionRow,
    view: SessionView,
    usage: Seq<SessionUsage>,
    show_tokens: bool,
) -> bool {
    &&& shows_session(row, view)
    &&& match first_where(usage, |u: SessionUsage| usage_of(u, view.id@)) {
        Some(i) => if show_tokens {
            shows_tokens(row, usage[i])
        } else {
            shows_no_tokens(row)
        },
        None => shows_no_tokens(row),
    }
}

fn session_row(view: &SessionView, usage: &Vec<SessionUsage>, show_tokens: bool) -> (row: SessionRow)
    ensures
        session_row_of(row, *view, usage@, show_tokens),
{
    let mut row = map_row(view);
    if !show_tokens {
        return row;
    }
    let test = |u: &SessionUsage| -> (b: bool)
        ensures
            b == usage_of(*u, view.id@),
        { same_text(u.session_id.as_str(), view.id.as_str()) };
    if let Some(i) = find_first(usage, test, Ghost(|u: SessionUsage| usage_of(u, view.id@))) {
        row.ctx_percent = usage[i].ctx_percent;
        if usage[i].spend > 0 {
            row.spend = Some(usage[i].spend_text.clone());
            row.spend_approx = usage[i].spend_approx;
        }
        if usage[i].group_spend > 0 {
            row.subagent_spend = Some(usage[i].group_text.clone());
        }
    }
    row
}

/// Whether `state` shows these settings and facts.
pub open spec fn shows_settings(state: SettingsState, s: SettingsView, facts: ShellFacts) -> bool {
    &&& state.notify_idle == s.notify_idle
    &&& state.notify_attention == s.notify_attention
    &&& state.notify_reminder == s.notify_reminder
    &&& state.launch_at_login == s.launch_at_login
    &&& state.onboarding_done == s.onboarding_done
    &&& state.popup_pinned == s.popup_pinned
    &&& state.takeover_permissions == flag_or(
        JsonView::Object(s.extra),
        "takeoverPermissions"@,
        true,
    )
    &&& state.show_token_stats == flag_or(JsonView::Object(s.extra), "showTokenStats"@, true)
    &&& state.popup_mode == stored_mode(s)
    &&& state.mcp_enabled == flag_or(JsonView::Object(s.extra), "mcpEnabled"@, false)
    &&& state.mcp_cli_available == facts.mcp_cli_available
    &&& optional_text(state.mcp_command) == match facts.mcp_config {
        Some(config) => Some(mcp_command_of(facts.cli@, config)),
        None => None,
    }
    &&& state.data_dir@ == facts.data_dir@
    &&& state.version@ == facts.version@
}

fn settings_state(settings: &Settings, facts: &ShellFacts) -> (out: SettingsState)
    ensures
        shows_settings(out, settings@, *facts),
{
    SettingsState {
        notify_idle: settings.notify_idle,
        notify_attention: settings.notify_attention,
        notify_reminder: settings.notify_reminder,
        launch_at_login: settings.launch_at_login,
        onboarding_done: settings.onboarding_done,
        popup_pinned: settings.popup_pinned,
        takeover_permissions: settings.takeover_permissions(),
        show_token_stats: settings.show_token_stats(),
        popup_mode: settings.popup_mode(),
        mcp_enabled: settings.mcp_enabled(),
        mcp_cli_available: facts.mcp_cli_available,
        mcp_command: match &facts.mcp_config {
            Some(config) => Some(mcp_command(facts.cli.as_str(), config)),
            None => None,
        },
        data_dir: facts.data_dir.clone(),
        version: facts.version.clone(),
    }
}

/// Everything that the window shows: a row for each session, question and
/// request, in their order, and the settings.
pub fn snapshot(
    views: &Vec<SessionView>,
    usage: &Vec<SessionUsage>,
    deck: &Deck,
    settings: &Settings,
    facts: &ShellFacts,
) -> (out: StateSnapshot)
    ensures
        out.sessions@.len() == views@.len(),
        forall|i: int|
            0 <= i < views@.len() ==> session_row_of(
                #[trigger] out.sessions@[i],
                views@[i],
                usage@,
                flag_or(JsonView::Object(settings@.extra), "showTokenStats"@, true),
            ),
        out.asks@.len() == deck.asks@.len(),
        forall|i: int|
            0 <= i < deck.asks@.len() ==> shows_ask(#[trigger] out.asks@[i], deck.asks@[i]),
        out.perms@.len() == deck.perms@.len(),
        forall|i: int|
            0 <= i < deck.perms@.len() ==> shows_perm(#[trigger] out.perms@[i], deck.perms@[i]),
        out.hooks_installed == facts.hooks_installed,
        out.counts == facts.counts,
        out.settings matches Some(state) && shows_settings(state, settings@, *facts),
{
    let show_tokens = settings.show_token_stats();
    let mut sessions: Vec<SessionRow> = Vec::new();
    let mut i: usize = 0;
    while i < views.len()
        invariant
            i <= views@.len(),
            sessions@.len() == i,
            forall|j: int|
                0 <= j < i ==> session_row_of(
                    #[trigger] sessions@[j],
                    views@[j],
                    usage@,
                    show_tokens,
                ),
        decreases views.len() - i,
    {
        sessions.push(session_row(&views[i], usage, show_tokens));
        i = i + 1;
    }
    let mut asks: Vec<AskRow> = Vec::new();
    let mut i: usize = 0;
    while i < deck.asks.len()
        invariant
            i <= deck.asks@.len(),
            asks@.len() == i,
            forall|j: int| 0 <= j < i ==> shows_ask(#[trigger] asks@[j], deck.asks@[j]),
        decreases deck.asks.len() - i,
    {
        asks.push(ask_to_row(&deck.asks[i]));
        i = i + 1;
    }
    let mut perms: Vec<PermRow> = Vec::new();
    let mut i: usize = 0;
    while i < deck.perms.len()
        invariant
            i <= deck.perms@.len(),
            perms@.len() == i,
            forall|j: int| 0 <= j < i ==> shows_perm(#[trigger] perms@[j], deck.perms@[j]),
        decreases deck.perms.len() - i,
    {
        perms.push(perm_to_row(&deck.perms[i]));
        i = i + 1;
    }
    StateSnapshot {
        sessions,
        asks,
        perms,
        hooks_installed: facts.hooks_installed,
        counts: facts.counts,
        settings: Some(settings_state(settings, facts)),
    }
}

// ---------------------------------------------------------------------------
// When the window for questions comes up.
// ---------------------------------------------------------------------------

/// Whether the question can be shown: not while the user looks at the terminal of
/// its session.
pub open spec fn surfaceable(ask: PendingAsk, terminals: Seq<Terminal>, foreground: Seq<u32>) -> bool {
    !session_in_front(optional_text(ask.session_id), terminals, foreground)
}

/// Whether one of the questions can be shown.
pub open spec fn any_surfaceable(
    asks: Seq<PendingAsk>,
    terminals: Seq<Terminal>,
    foreground: Seq<u32>,
) -> bool {
    exists|i: int|
        0 <= i < asks.len() && surfaceable(#[trigger] asks[i], terminals, foreground)
}

/// Whether the window for questions comes up: if it is hidden and there is a
/// question that can be shown.
pub fn maybe_surface_asks(
    deck: &Deck,
    ask_visible: bool,
    terminals: &Vec<Terminal>,
    foreground: &Vec<u32>,
) -> (out: bool)
    ensures
        out == (!ask_visible && any_surfaceable(deck.asks@, terminals@, foreground@)),
{
    if ask_visible {
        return false;
    }
    let mut i: usize = 0;
    while i < deck.asks.len()
        invariant
            !ask_visible,
            i <= deck.asks@.len(),
            forall|j: int|
                0 <= j < i ==> !surfaceable(#[trigger] deck.asks@[j], terminals@, foreground@),
        decreases deck.asks.len() - i,
    {
        let front: bool = match &deck.asks[i].session_id {
            Some(id) => {
                let pids = session_terminal_pids(terminals, id.as_str());
                session_is_foreground(pids.as_slice(), foreground.as_slice())
            },
            None => false,
        };
        if !front {
            proof {
                assert(surfaceable(deck.asks@[i as int], terminals@, foreground@));
            }
            return true;
        }
        i = i + 1;
    }
    false
}

// ---------------------------------------------------------------------------
// Toasts.
// ---------------------------------------------------------------------------

/// Whether the user wants toasts of this kind; questions are shown regardless.
pub open spec fn wanted(kind: ToastKind, s: SettingsView) -> bool {
    match kind {
        ToastKind::Idle => s.notify_idle,
        ToastKind::Attention => s.notify_attention,
        ToastKind::Reminder => s.notify_reminder,
        ToastKind::Ask => true,
    }
}

/// What to do about a toast that the engine calls for.
#[derive(Clone, Copy, Debug, PartialEq, Eq, Structural)]
pub struct ToastGate {
    /// Whether to try and show it.
    pub attempt: bool,
    /// Whether it is to carry the agent's last words.
    pub last_words: bool,
}

/// What to do about a toast that the engine calls for: it is held back if the
/// user does not want such toasts, or looks at the session's terminal.
pub fn gate_toast(
    kind: ToastKind,
    session_id: &str,
    settings: &Settings,
    terminals: &Vec<Terminal>,
    foreground: &Vec<u32>,
) -> (out: ToastGate)
    ensures
        out.attempt == (wanted(kind, settings@) && !session_in_front(
            Some(session_id@),
            terminals@,
            foreground@,
        )),
        out.last_words == (out.attempt && kind == ToastKind::Idle),
{
    let enabled: bool = match kind {
        ToastKind::Idle => settings.notify_idle,
        ToastKind::Attention => settings.notify_attention,
        ToastKind::Reminder => settings.notify_reminder,
        ToastKind::Ask => true,
    };
    let pids = session_terminal_pids(terminals, session_id);
    let front = session_is_foreground(pids.as_slice(), foreground.as_slice());
    let attempt: bool = enabled && !front;
    ToastGate { attempt, last_words: attempt && kind == ToastKind::Idle }
}

/// Whether the engine gets its slot back: when the toast was not shown, so that
/// it does not stand in the way of the next.
pub fn refund_toast(gate: ToastGate, sent: bool) -> (out: bool)
    ensures
        out == !(gate.attempt && sent),
{
    !(gate.attempt && sent)
}

/// Cap on the last words of an agent in a toast, in grapheme clusters.
pub const IDLE_BODY_MAX_CHARS: usize = 90;

/// The last words of an agent as a toast carries them: without bidi controls, on
/// one line, and capped; none where nothing is left.
pub open spec fn last_words_of(said: Seq<char>) -> Option<Seq<char>> {
    let words = grapheme_capped(collapsed(bidi_stripped(said)), IDLE_BODY_MAX_CHARS as nat);
    if trimmed(words).len() == 0 {
        None
    } else {
        Some(words)
    }
}

/// The last words of an agent as a toast carries them.
pub fn idle_assistant_body(said: &str) -> (out: Option<String>)
    ensures
        optional_text(out) == last_words_of(said@),
        out matches Some(words) ==> clean(words@),
{
    let stripped = strip_bidi_controls(said);
    let line = collapse_white_space(stripped.as_str());
    let words = truncate_graphemes(line.as_str(), IDLE_BODY_MAX_CHARS);
    proof {
        law_stripped_is_clean(said@);
        lemma_collapsed_is_clean(stripped@);
        lemma_shortened_is_clean(line@, words@);
    }
    if trim(words.as_str()).as_str().is_empty() {
        None
    } else {
        Some(words)
    }
}

/// The id of the notification with number `seq` that arrives at `now`.
pub open spec fn record_id_of(now: nat, seq: nat) -> Seq<char> {
    "ntf-"@ + decimal(now) + "-"@ + decimal(seq)
}

/// Whose toast a notification is: the session's or else the place's, and never
/// the one that tells of the session itself.
pub open spec fn notify_key(session_id: Option<Seq<char>>, context: Option<Seq<char>>) -> Seq<char> {
    match session_id {
        Some(id) => "notify-"@ + id,
        None => match given(context) {
            Some(place) => "notify-"@ + place,
            None => "notify-agent"@,
        },
    }
}

/// What comes of a notification.
pub struct Notification {
    pub record_id: String,
    /// What is shown; nothing where the user does not want such toasts.
    pub toast: Option<ToastRequest>,
}

/// Takes a notification. It gets an id whether it is shown or not.
pub fn notify_user(
    req: &NotifyRequest,
    notify_attention: bool,
    views: &Vec<SessionView>,
    now_ms: u64,
    seq: u64,
    ignore_case: bool,
) -> (out: Notification)
    ensures
        out.record_id@ == record_id_of(now_ms as nat, seq as nat),
        out.toast is Some <==> notify_attention,
        out.toast matches Some(toast) ==> {
            let found = session_at(views@, optional_text(req.context), ignore_case);
            &&& toast.kind == ToastKind::Attention
            &&& toast.detail@ == req.message@
            &&& toast.assistant_body is None
            &&& match found {
                Some(i) => {
                    &&& 0 <= i < views@.len()
                    &&& toast.session_id@ == notify_key(
                        Some(views@[i].id@),
                        optional_text(req.context),
                    )
                    &&& toast.project@ == toast_project_of(
                        Some(views@[i].project@),
                        optional_text(req.context),
                    )
                },
                None => {
                    &&& toast.session_id@ == notify_key(None, optional_text(req.context))
                    &&& toast.project@ == toast_project_of(None, optional_text(req.context))
                },
            }
        },
{
    let mut record_id = joined("ntf-", decimal_text(now_ms).as_str());
    record_id.append("-");
    record_id.append(decimal_text(seq).as_str());
    if !notify_attention {
        return Notification { record_id, toast: None };
    }
    let context: Option<&str> = match &req.context {
        Some(c) => Some(c.as_str()),
        None => None,
    };
    let (session_id, project) = match_session(views, context, ignore_case);
    let project = toast_project(&project, &req.context);
    let key: String = match &session_id {
        Some(sid) => joined("notify-", sid.as_str()),
        None => {
            let place: String = match &req.context {
                Some(c) => trim(c.as_str()),
                None => String::new(),
            };
            if place.as_str().is_empty() {
                "notify-agent".to_owned()
            } else {
                joined("notify-", place.as_str())
            }
        },
    };
    let toast = ToastRequest {
        kind: ToastKind::Attention,
        session_id: key,
        project,
        detail: req.message.clone(),
        assistant_body: None,
    };
    Notification { record_id, toast: Some(toast) }
}

// ---------------------------------------------------------------------------
// Transcripts.
// ---------------------------------------------------------------------------

/// A session and where its transcript lies, where that is known.
#[derive(Clone, Debug)]
pub struct SessionTranscript {
    pub session_id: String,
    pub path: Option<String>,
}

/// A transcript that can be read.
#[derive(Clone, Debug)]
pub struct Transcript {
    pub session_id: String,
    pub path: String,
}

/// The session and the path of a transcript that can be read: one with a path.
pub open spec fn readable_transcript(t: SessionTranscript) -> Option<(Seq<char>, Seq<char>)> {
    match t.path {
        Some(path) => if path@.len() == 0 {
            None
        } else {
            Some((t.session_id@, path@))
        },
        None => None,
    }
}

/// What several transcripts say.
pub open spec fn transcripts_view(s: Seq<Transcript>) -> Seq<(Seq<char>, Seq<char>)> {
    Seq::new(s.len(), |i: int| (s[i].session_id@, s[i].path@))
}

/// The transcripts that can be read, in their order.
pub fn readable_transcripts(all: &Vec<SessionTranscript>) -> (out: Vec<Transcript>)
    ensures
        transcripts_view(out@) == all@.filter_map(|t: SessionTranscript| readable_transcript(t)),
{
    let ghost f = |t: SessionTranscript| readable_transcript(t);
    let mut out: Vec<Transcript> = Vec::new();
    let mut i: usize = 0;
    proof {
        assert(transcripts_view(out@) =~= all@.take(0).filter_map(f));
    }
    while i < all.len()
        invariant
            i <= all@.len(),
            f == (|t: SessionTranscript| readable_transcript(t)),
            transcripts_view(out@) == all@.take(i as int).filter_map(f),
        decreases all.len() - i,
    {
        let ghost before = transcripts_view(out@);
        proof {
            all@.lemma_filter_map_take_succ(f, i as int);
            assert(before + Seq::<(Seq<char>, Seq<char>)>::empty() =~= before);
        }
        if let Some(path) = &all[i].path {
            if !path.as_str().is_empty() {
                let one = Transcript { session_id: all[i].session_id.clone(), path: path.clone() };
                out.push(one);
                proof {
                    assert(transcripts_view(out@) =~= before + seq![(one.session_id@, one.path@)]);
                }
            }
        }
        i = i + 1;
    }
    proof {
        assert(all@.take(all@.len() as int) =~= all@);
    }
    out
}

/// When the transcript of a session had changed when it was last read.
#[derive(Clone, Debug)]
pub struct SeenTranscript {
    pub session_id: String,
    pub mtime_ms: u64,
}

/// Whether the session is among `present`.
pub open spec fn present_in(present: Seq<Seq<char>>, session_id: Seq<char>) -> bool {
    present.contains(session_id)
}

/// Forgets the sessions that are no longer present.
pub fn retain_present(seen: &mut Vec<SeenTranscript>, present: &Vec<String>)
    ensures
        final(seen)@ == old(seen)@.filter(
            |s: SeenTranscript| present_in(texts(present@), s.session_id@),
        ),
{
    let ghost gone = |s: SeenTranscript| !present_in(texts(present@), s.session_id@);
    let test = |s: &SeenTranscript| -> (b: bool)
        ensures
            b == !present_in(texts(present@), s.session_id@),
        { !is_present(present, s.session_id.as_str()) };
    let _gone = crate::lists::take_where(seen, test, Ghost(gone));
    proof {
        crate::lists::lemma_same_filter(
            old(seen)@,
            |s: SeenTranscript| !gone(s),
            |s: SeenTranscript| present_in(texts(present@), s.session_id@),
        );
    }
}

fn is_present(present: &Vec<String>, session_id: &str) -> (out: bool)
    ensures
        out == present_in(texts(present@), session_id@),
{
    let mut i: usize = 0;
    while i < present.len()
        invariant
            i <= present@.len(),
            forall|j: int| 0 <= j < i ==> texts(present@)[j] != session_id@,
        decreases present.len() - i,
    {
        if same_text(present[i].as_str(), session_id) {
            proof {
                assert(texts(present@)[i as int] == session_id@);
            }
            return true;
        }
        i = i + 1;
    }
    false
}

/// Whether the entry is of the session.
pub open spec fn seen_of(seen: SeenTranscript, session_id: Seq<char>) -> bool {
    seen.session_id@ == session_id
}

/// The entry of a session.
pub open spec fn seen_at(seen: Seq<SeenTranscript>, session_id: Seq<char>) -> Option<int> {
    first_where(seen, |s: SeenTranscript| seen_of(s, session_id))
}

/// Whether a transcript is to be read: if it has changed since it last was. When
/// it changed is then remembered.
pub fn transcript_changed(seen: &mut Vec<SeenTranscript>, session_id: &str, mtime_ms: u64) -> (out:
    bool)
    ensures
        match seen_at(old(seen)@, session_id@) {
            Some(i) => if old(seen)@[i].mtime_ms == mtime_ms {
                !out && final(seen)@ == old(seen)@
            } else {
                &&& out
                &&& final(seen)@ == old(seen)@.update(i, final(seen)@[i])
                &&& final(seen)@[i].session_id@ == session_id@
                &&& final(seen)@[i].mtime_ms == mtime_ms
            },
            None => {
                &&& out
                &&& final(seen)@.len() == old(seen)@.len() + 1
                &&& final(seen)@.drop_last() == old(seen)@
                &&& final(seen)@.last().session_id@ == session_id@
                &&& final(seen)@.last().mtime_ms == mtime_ms
            },
        },
{
    let test = |s: &SeenTranscript| -> (b: bool)
        ensures
            b == seen_of(*s, session_id@),
        { same_text(s.session_id.as_str(), session_id) };
    match find_first(seen, test, Ghost(|s: SeenTranscript| seen_of(s, session_id@))) {
        Some(i) => {
            if seen[i].mtime_ms == mtime_ms {
                return false;
            }
            seen.set(i, SeenTranscript { session_id: session_id.to_owned(), mtime_ms });
            true
        },
        None => {
            seen.push(SeenTranscript { session_id: session_id.to_owned(), mtime_ms });
            proof {
                assert(seen@.drop_last() =~= old(seen)@);
            }
            true
        },
    }
}

// ---------------------------------------------------------------------------
// Settings that change something.
// ---------------------------------------------------------------------------

/// What follows from a change of the settings.
#[derive(Clone, Copy, Debug, PartialEq, Eq, Structural)]
pub enum SideEffect {
    Nothing,
    /// Start at login, or do not.
    Autostart { enable: bool },
    /// Pin the popup, or do not; and make a list of it.
    Pin { pinned: bool, force_list: bool },
    /// Show the popup in this mode.
    Mode { mode: PopupMode },
    /// Register the server with the agent's program, or have it forget the server.
    AgentQuestions { enable: bool },
    /// Take over permission prompts, or do not.
    Takeover { enable: bool },
    /// Read the tokens used again.
    RefreshUsage,
}

/// What follows when `key` was set, the settings now being `s`.
pub open spec fn side_effect_of(key: Seq<char>, s: SettingsView) -> SideEffect {
    if key == "launchAtLogin"@ {
        SideEffect::Autostart { enable: s.launch_at_login }
    } else if key == "popupPinned"@ {
        SideEffect::Pin {
            pinned: s.popup_pinned,
            force_list: !s.popup_pinned && stored_mode(s) == PopupMode::Lamp,
        }
    } else if key == "popupMode"@ {
        SideEffect::Mode { mode: stored_mode(s) }
    } else if key == "mcpEnabled"@ {
        SideEffect::AgentQuestions {
            enable: flag_or(JsonView::Object(s.extra), "mcpEnabled"@, false),
        }
    } else if key == "takeoverPermissions"@ {
        SideEffect::Takeover {
            enable: flag_or(JsonView::Object(s.extra), "takeoverPermissions"@, true),
        }
    } else if key == "showTokenStats"@ {
        SideEffect::RefreshUsage
    } else {
        SideEffect::Nothing
    }
}

/// What follows when `key` was set.
pub fn apply_setting_side_effect(key: &str, settings: &Settings) -> (out: SideEffect)
    ensures
        out == side_effect_of(key@, settings@),
{
    if same_text(key, "launchAtLogin") {
        SideEffect::Autostart { enable: settings.launch_at_login }
    } else if same_text(key, "popupPinned") {
        SideEffect::Pin {
            pinned: settings.popup_pinned,
            force_list: should_force_list_on_unpin(settings.popup_pinned, settings.popup_mode()),
        }
    } else if same_text(key, "popupMode") {
        SideEffect::Mode { mode: settings.popup_mode() }
    } else if same_text(key, "mcpEnabled") {
        SideEffect::AgentQuestions { enable: settings.mcp_enabled() }
    } else if same_text(key, "takeoverPermissions") {
        SideEffect::Takeover { enable: settings.takeover_permissions() }
    } else if same_text(key, "showTokenStats") {
        SideEffect::RefreshUsage
    } else {
        SideEffect::Nothing
    }
}

/// Whether to change what happens at login: nothing is changed while the data lie
/// elsewhere for a test, nor what is as it should be.
pub fn sync_autostart(isolated: bool, enable: bool, current: bool) -> (out: Option<bool>)
    ensures
        out == if isolated || enable == current {
            None
        } else {
            Some(enable)
        },
{
    if isolated || enable == current {
        None
    } else {
        Some(enable)
    }
}

/// Whether to register the toasts' identity with the system: not while the data
/// lie elsewhere for a test, unless the identity does too.
pub fn may_register_identity(isolated: bool, base_override: bool) -> (out: bool)
    ensures
        out == (!isolated || base_override),
{
    !isolated || base_override
}

// ---------------------------------------------------------------------------
// The engine's loop.
// ---------------------------------------------------------------------------

/// Milliseconds between two rounds of the engine.
pub const ENGINE_TICK_MS: u64 = 10_000;

/// Milliseconds for which the loop waits for a file.
pub const LOOP_SLICE_MS: u64 = 400;

/// Milliseconds between two searches for files that were missed.
pub const SPOOL_SWEEP_MS: u64 = 1_000;

/// Milliseconds between two looks at the window in front.
pub const FOREGROUND_POLL_MS: u64 = 2_000;

/// When each of the loop's rounds was last made, in milliseconds.
#[derive(Clone, Copy, Debug, PartialEq, Eq, Structural)]
pub struct LoopTimers {
    pub last_tick: u64,
    pub last_sweep: u64,
    pub last_foreground: u64,
}

/// Which of the loop's rounds are due.
#[derive(Clone, Copy, Debug, PartialEq, Eq, Structural)]
pub struct DueRounds {
    pub sweep: bool,
    pub tick: bool,
    pub foreground: bool,
}

/// Whether at least `gap` has passed since `last`.
pub open spec fn passed(last: u64, now: u64, gap: u64) -> bool {
    now - last >= gap
}

impl LoopTimers {
    /// All rounds were just made.
    pub fn started(now: u64) -> (out: Self)
        ensures
            out == (LoopTimers { last_tick: now, last_sweep: now, last_foreground: now }),
    {
        LoopTimers { last_tick: now, last_sweep: now, last_foreground: now }
    }

    /// Which rounds are due at `now`; they count as made.
    pub fn poll(&mut self, now: u64) -> (out: DueRounds)
        ensures
            out.sweep == passed(old(self).last_sweep, now, SPOOL_SWEEP_MS),
            out.tick == passed(old(self).last_tick, now, ENGINE_TICK_MS),
            out.foreground == passed(old(self).last_foreground, now, FOREGROUND_POLL_MS),
            final(self).last_sweep == if out.sweep {
                now
            } else {
                old(self).last_sweep
            },
            final(self).last_tick == if out.tick {
                now
            } else {
                old(self).last_tick
            },
            final(self).last_foreground == if out.foreground {
                now
            } else {
                old(self).last_foreground
            },
    {
        let sweep = now.saturating_sub(self.last_sweep) >= SPOOL_SWEEP_MS;
        let tick = now.saturating_sub(self.last_tick) >= ENGINE_TICK_MS;
        let foreground = now.saturating_sub(self.last_foreground) >= FOREGROUND_POLL_MS;
        if sweep {
            self.last_sweep = now;
        }
        if tick {
            self.last_tick = now;
        }
        if foreground {
            self.last_foreground = now;
        }
        DueRounds { sweep, tick, foreground }
    }
}

// ---------------------------------------------------------------------------
// Laws.
// ---------------------------------------------------------------------------

/// A notification of an agent is counted apart from the toasts that tell of its
/// session, so that it cannot hold them back.
pub proof fn law_notifications_are_counted_apart(session_id: Seq<char>, context: Option<Seq<char>>)
    ensures
        notify_key(Some(session_id), context) != session_id,
{
    reveal_strlit("notify-");
    assert(notify_key(Some(session_id), context).len() == session_id.len() + 7);
}

/// The user's settings hold no question back.
pub proof fn law_questions_are_always_wanted(s: SettingsView)
    ensures
        wanted(ToastKind::Ask, s),
{
}

/// A question that is held back because the user looks at its terminal can be
/// shown as soon as another window is in front.
pub proof fn law_held_back_only_while_in_front(
    ask: PendingAsk,
    terminals: Seq<Terminal>,
    foreground: Seq<u32>,
)
    requires
        ask.session_id matches Some(id) ==> !in_front(pids_of(terminals, id@), foreground),
    ensures
        surfaceable(ask, terminals, foreground),
{
}

/// Last words that are shown are not blank.
pub proof fn law_last_words_are_not_blank(said: Seq<char>)
    ensures
        last_words_of(said) matches Some(words) ==> trimmed(words).len() > 0,
{
}

} // verus!
