//! The state that the window shows, and the files that its answers become.

use crate::json::{Json, JsonView};
use crate::lists::{lemma_filtered_from, lemma_filtered_keeps, others, take_where};
use crate::settings::PopupMode;
use crate::text::{
    contains_char, copy_optional_text, copy_texts, grapheme_capped, joined, optional_str,
    optional_text, quote, quoted, same_text, texts, trim, trimmed, truncate_graphemes,
};
use vstd::prelude::*;

verus! {

/// Name of the event that carries the whole state to the window.
pub const STATE_EVENT: &'static str = "deck://state";

/// What a session is doing.
#[derive(Clone, Copy, Debug, PartialEq, Eq, Structural)]
pub enum SessionStatus {
    Working,
    /// The session itself is quiet while a workflow that it started runs on.
    WaitingWorkflow,
    Attention,
    Idle,
    Dead,
}

/// One session, as the popup shows it.
#[derive(Clone, Debug)]
pub struct SessionRow {
    pub id: String,
    pub project: String,
    pub title: String,
    pub branch: Option<String>,
    pub status: SessionStatus,
    /// Whether the row was inferred at start-up.
    pub inferred: bool,
    /// Milliseconds spent in the present status.
    pub since_ms: u64,
    pub cwd: String,
    /// Background agents at work for the session.
    pub subagents: u32,
    /// Age of the session in milliseconds, where it is known.
    pub age_ms: Option<u64>,
    /// When the present stretch of work began, where it is known.
    pub work_started_ms: Option<u64>,
    /// How long the last stretch of work took, where it is known.
    pub last_work_ms: Option<u64>,
    /// How full the context is, in percent.
    pub ctx_percent: Option<u32>,
    /// Tokens spent, in compact form.
    pub spend: Option<String>,
    /// Whether `spend` is a lower bound.
    pub spend_approx: bool,
    /// Tokens that background agents spent, in compact form.
    pub subagent_spend: Option<String>,
    /// Process that hosts the session, where it is known.
    pub pid: Option<u32>,
}

/// One question of a form.
#[derive(Clone, Debug)]
pub struct AskQuestion {
    pub header: Option<String>,
    pub question: String,
    pub multi_select: bool,
    pub options: Vec<String>,
}

/// What an [`AskQuestion`] says.
pub ghost struct QuestionView {
    pub header: Option<Seq<char>>,
    pub question: Seq<char>,
    pub multi_select: bool,
    pub options: Seq<Seq<char>>,
}

impl View for AskQuestion {
    type V = QuestionView;

    open spec fn view(&self) -> QuestionView {
        QuestionView {
            header: optional_text(self.header),
            question: self.question@,
            multi_select: self.multi_select,
            options: texts(self.options@),
        }
    }
}

/// What several questions say.
pub open spec fn form_view(questions: Seq<AskQuestion>) -> Seq<QuestionView> {
    Seq::new(questions.len(), |i: int| questions[i]@)
}

/// What a form says, where there is one.
pub open spec fn optional_form(questions: Option<Vec<AskQuestion>>) -> Option<Seq<QuestionView>> {
    match questions {
        Some(q) => Some(form_view(q@)),
        None => None,
    }
}

/// A copy of a form, where there is one.
pub fn copy_form(questions: &Option<Vec<AskQuestion>>) -> (out: Option<Vec<AskQuestion>>)
    ensures
        optional_form(out) == optional_form(*questions),
{
    match questions {
        Some(form) => {
            let mut out: Vec<AskQuestion> = Vec::new();
            let mut i: usize = 0;
            while i < form.len()
                invariant
                    i <= form@.len(),
                    out@.len() == i,
                    forall|j: int| 0 <= j < i ==> (#[trigger] out@[j])@ == form@[j]@,
                decreases form.len() - i,
            {
                let question = AskQuestion {
                    header: copy_optional_text(&form[i].header),
                    question: form[i].question.clone(),
                    multi_select: form[i].multi_select,
                    options: copy_texts(&form[i].options),
                };
                out.push(question);
                i = i + 1;
            }
            proof {
                assert(form_view(out@) =~= form_view(form@));
            }
            Some(out)
        },
        None => None,
    }
}

/// A question that waits for an answer, as the window shows it.
#[derive(Clone, Debug)]
pub struct AskRow {
    pub id: String,
    pub session_id: Option<String>,
    pub project: Option<String>,
    pub question: String,
    pub options: Option<Vec<String>>,
    /// The form, where the agent sent one.
    pub questions: Option<Vec<AskQuestion>>,
    pub detail: Option<String>,
    /// When the question expires (epoch milliseconds), unless it never does.
    pub timeout_at: Option<u64>,
    /// Where the agent runs; only for a question of no known session.
    pub context: Option<String>,
    /// Whether an earlier process was asked: nobody waits for the answer.
    pub orphaned: bool,
    /// When the question arrived (epoch milliseconds).
    pub queued_at: u64,
}

/// A permission request that waits for a decision, as the window shows it.
#[derive(Clone, Debug)]
pub struct PermRow {
    pub id: String,
    pub session_id: Option<String>,
    pub project: Option<String>,
    pub tool_name: String,
    pub tool_input: String,
    /// Where the agent runs; only for a request of no known session.
    pub context: Option<String>,
    /// When the request arrived (epoch milliseconds).
    pub queued_at: u64,
    /// When the request expires (epoch milliseconds).
    pub expires_at: Option<u64>,
}

/// How many sessions there are of each status.
#[derive(Clone, Copy, Debug, PartialEq, Eq, Structural)]
pub struct Counts {
    pub attention: u32,
    pub working: u32,
    pub waiting: u32,
    pub idle: u32,
    pub dead: u32,
}

/// The settings, and the facts that the settings pane shows beside them.
#[derive(Clone, Debug, PartialEq, Eq)]
pub struct SettingsState {
    pub notify_idle: bool,
    pub notify_attention: bool,
    pub notify_reminder: bool,
    pub launch_at_login: bool,
    pub onboarding_done: bool,
    pub popup_pinned: bool,
    pub takeover_permissions: bool,
    pub show_token_stats: bool,
    pub popup_mode: PopupMode,
    pub mcp_enabled: bool,
    pub mcp_cli_available: bool,
    pub mcp_command: Option<String>,
    pub data_dir: String,
    pub version: String,
}

/// The whole state that the window shows.
#[derive(Clone, Debug)]
pub struct StateSnapshot {
    pub sessions: Vec<SessionRow>,
    pub asks: Vec<AskRow>,
    pub perms: Vec<PermRow>,
    pub hooks_installed: bool,
    pub counts: Counts,
    pub settings: Option<SettingsState>,
}

/// How a question was settled.
#[derive(Clone, Copy, Debug, PartialEq, Eq, Structural)]
pub enum AskAnswerKind {
    Option,
    Text,
    Timeout,
    Dismissed,
    Cancelled,
    Form,
    /// The user will answer in the terminal.
    Terminal,
}

/// What was decided on a permission request. `Defer` leaves it to the terminal.
#[derive(Clone, Copy, Debug, PartialEq, Eq, Structural)]
pub enum PermDecision {
    Allow,
    Deny,
    Defer,
}

/// The value of a setting, as the window sends it.
#[derive(Clone, Debug, PartialEq, Eq)]
pub enum SettingValue {
    Bool(bool),
    Text(String),
}

impl Default for Counts {
    fn default() -> (out: Self)
        ensures
            out == (Counts { attention: 0, working: 0, waiting: 0, idle: 0, dead: 0 }),
    {
        Counts { attention: 0, working: 0, waiting: 0, idle: 0, dead: 0 }
    }
}

impl Default for StateSnapshot {
    fn default() -> (out: Self)
        ensures
            out.sessions@ == Seq::<SessionRow>::empty(),
            out.asks@ == Seq::<AskRow>::empty(),
            out.perms@ == Seq::<PermRow>::empty(),
            !out.hooks_installed,
            out.counts == (Counts { attention: 0, working: 0, waiting: 0, idle: 0, dead: 0 }),
            out.settings is None,
    {
        StateSnapshot {
            sessions: Vec::new(),
            asks: Vec::new(),
            perms: Vec::new(),
            hooks_installed: false,
            counts: Counts { attention: 0, working: 0, waiting: 0, idle: 0, dead: 0 },
            settings: None,
        }
    }
}

// ---------------------------------------------------------------------------
// Names on the wire.
// ---------------------------------------------------------------------------

/// The name that a status has on the wire.
pub open spec fn status_name(status: SessionStatus) -> Seq<char> {
    match status {
        SessionStatus::Working => "working"@,
        SessionStatus::WaitingWorkflow => "waitingworkflow"@,
        SessionStatus::Attention => "attention"@,
        SessionStatus::Idle => "idle"@,
        SessionStatus::Dead => "dead"@,
    }
}

/// The name that an answer's kind has on the wire.
pub open spec fn kind_name(kind: AskAnswerKind) -> Seq<char> {
    match kind {
        AskAnswerKind::Option => "option"@,
        AskAnswerKind::Text => "text"@,
        AskAnswerKind::Timeout => "timeout"@,
        AskAnswerKind::Dismissed => "dismissed"@,
        AskAnswerKind::Cancelled => "cancelled"@,
        AskAnswerKind::Form => "form"@,
        AskAnswerKind::Terminal => "terminal"@,
    }
}

/// The name that a decision has on the wire.
pub open spec fn decision_name(decision: PermDecision) -> Seq<char> {
    match decision {
        PermDecision::Allow => "allow"@,
        PermDecision::Deny => "deny"@,
        PermDecision::Defer => "defer"@,
    }
}

impl SessionStatus {
    /// The name on the wire.
    pub fn as_str(self) -> (out: &'static str)
        ensures
            out@ == status_name(self),
    {
        match self {
            SessionStatus::Working => "working",
            SessionStatus::WaitingWorkflow => "waitingworkflow",
            SessionStatus::Attention => "attention",
            SessionStatus::Idle => "idle",
            SessionStatus::Dead => "dead",
        }
    }
}

impl AskAnswerKind {
    /// The name on the wire.
    pub fn as_str(self) -> (out: &'static str)
        ensures
            out@ == kind_name(self),
    {
        match self {
            AskAnswerKind::Option => "option",
            AskAnswerKind::Text => "text",
            AskAnswerKind::Timeout => "timeout",
            AskAnswerKind::Dismissed => "dismissed",
            AskAnswerKind::Cancelled => "cancelled",
            AskAnswerKind::Form => "form",
            AskAnswerKind::Terminal => "terminal",
        }
    }

    /// The kind with this name on the wire, where there is one.
    pub fn from_name(name: &str) -> (out: Option<Self>)
        ensures
            match out {
                Some(kind) => name@ == kind_name(kind),
                None => forall|kind: AskAnswerKind|
                    #![trigger kind_name(kind)]
                    name@ != kind_name(kind),
            },
    {
        if same_text(name, "option") {
            Some(AskAnswerKind::Option)
        } else if same_text(name, "text") {
            Some(AskAnswerKind::Text)
        } else if same_text(name, "timeout") {
            Some(AskAnswerKind::Timeout)
        } else if same_text(name, "dismissed") {
            Some(AskAnswerKind::Dismissed)
        } else if same_text(name, "cancelled") {
            Some(AskAnswerKind::Cancelled)
        } else if same_text(name, "form") {
            Some(AskAnswerKind::Form)
        } else if same_text(name, "terminal") {
            Some(AskAnswerKind::Terminal)
        } else {
            None
        }
    }
}

impl PermDecision {
    /// The name on the wire.
    pub fn as_str(self) -> (out: &'static str)
        ensures
            out@ == decision_name(self),
    {
        match self {
            PermDecision::Allow => "allow",
            PermDecision::Deny => "deny",
            PermDecision::Defer => "defer",
        }
    }

    /// The decision with this name on the wire, where there is one.
    pub fn from_name(name: &str) -> (out: Option<Self>)
        ensures
            match out {
                Some(decision) => name@ == decision_name(decision),
                None => forall|decision: PermDecision|
                    #![trigger decision_name(decision)]
                    name@ != decision_name(decision),
            },
    {
        if same_text(name, "allow") {
            Some(PermDecision::Allow)
        } else if same_text(name, "deny") {
            Some(PermDecision::Deny)
        } else if same_text(name, "defer") {
            Some(PermDecision::Defer)
        } else {
            None
        }
    }
}

/// No two kinds of answer have the same name on the wire.
pub proof fn law_kind_names_differ(a: AskAnswerKind, b: AskAnswerKind)
    requires
        kind_name(a) == kind_name(b),
    ensures
        a == b,
{
    reveal_strlit("option");
    reveal_strlit("text");
    reveal_strlit("timeout");
    reveal_strlit("dismissed");
    reveal_strlit("cancelled");
    reveal_strlit("form");
    reveal_strlit("terminal");
    assert("option"@.len() == 6 && "text"@.len() == 4 && "timeout"@.len() == 7);
    assert("dismissed"@[0] == 'd' && "cancelled"@[0] == 'c' && "text"@[0] == 't');
    assert("form"@[0] == 'f' && "form"@.len() == 4 && "terminal"@.len() == 8);
    assert("dismissed"@.len() == 9 && "cancelled"@.len() == 9);
}

/// No two decisions have the same name on the wire.
pub proof fn law_decision_names_differ(a: PermDecision, b: PermDecision)
    requires
        decision_name(a) == decision_name(b),
    ensures
        a == b,
{
    reveal_strlit("allow");
    reveal_strlit("deny");
    reveal_strlit("defer");
    assert("allow"@[0] == 'a' && "deny"@[0] == 'd' && "defer"@[0] == 'd');
    assert("deny"@.len() == 4 && "defer"@.len() == 5);
}

// ---------------------------------------------------------------------------
// Setting values.
// ---------------------------------------------------------------------------

/// The truth value that a setting's value stands for: a string counts as true
/// where it is `true` or `1`.
pub open spec fn lossy_bool(value: SettingValue) -> bool {
    match value {
        SettingValue::Bool(b) => b,
        SettingValue::Text(s) => s@ == "true"@ || s@ == "1"@,
    }
}

/// The value as a JSON document.
pub open spec fn setting_json(value: SettingValue) -> JsonView {
    match value {
        SettingValue::Bool(b) => JsonView::Bool(b),
        SettingValue::Text(s) => JsonView::Str(s@),
    }
}

impl SettingValue {
    /// The truth value that this stands for.
    pub fn as_bool_lossy(&self) -> (out: bool)
        ensures
            out == lossy_bool(*self),
    {
        match self {
            SettingValue::Bool(b) => *b,
            SettingValue::Text(s) => same_text(s.as_str(), "true") || same_text(s.as_str(), "1"),
        }
    }

    /// This value as a JSON document: a bare truth value or string.
    pub fn into_json(self) -> (out: Json)
        ensures
            out@ == setting_json(self),
    {
        match self {
            SettingValue::Bool(b) => Json::Bool(b),
            SettingValue::Text(s) => Json::Str(s),
        }
    }

    /// The value that a JSON document stands for: only a bare truth value or
    /// string does.
    pub fn from_json(document: Json) -> (out: Option<Self>)
        ensures
            match out {
                Some(value) => setting_json(value) == document@,
                None => !(document@ is Bool) && !(document@ is Str),
            },
    {
        match document {
            Json::Bool(b) => Some(SettingValue::Bool(b)),
            Json::Str(s) => Some(SettingValue::Text(s)),
            _ => None,
        }
    }
}

// ---------------------------------------------------------------------------
// Counts and rows.
// ---------------------------------------------------------------------------

/// How many of `sessions` have this status.
pub open spec fn with_status(sessions: Seq<SessionRow>, status: SessionStatus) -> nat {
    sessions.filter(|row: SessionRow| row.status == status).len()
}

/// Whether `counts` says how many of `sessions` there are of each status.
pub open spec fn counts_of(counts: Counts, sessions: Seq<SessionRow>) -> bool {
    &&& counts.attention == with_status(sessions, SessionStatus::Attention)
    &&& counts.working == with_status(sessions, SessionStatus::Working)
    &&& counts.waiting == with_status(sessions, SessionStatus::WaitingWorkflow)
    &&& counts.idle == with_status(sessions, SessionStatus::Idle)
    &&& counts.dead == with_status(sessions, SessionStatus::Dead)
}

/// Every session is counted once.
pub proof fn law_counts_add_up(sessions: Seq<SessionRow>)
    ensures
        with_status(sessions, SessionStatus::Attention) + with_status(
            sessions,
            SessionStatus::Working,
        ) + with_status(sessions, SessionStatus::WaitingWorkflow) + with_status(
            sessions,
            SessionStatus::Idle,
        ) + with_status(sessions, SessionStatus::Dead) == sessions.len(),
    decreases sessions.len(),
{
    reveal(Seq::filter);
    if sessions.len() > 0 {
        law_counts_add_up(sessions.drop_last());
    }
}

/// Counts the sessions of each status.
pub fn recompute_counts(sessions: &[SessionRow]) -> (counts: Counts)
    requires
        sessions@.len() <= u32::MAX,
    ensures
        counts_of(counts, sessions@),
{
    let mut counts = Counts::default();
    let mut i: usize = 0;
    proof {
        reveal(Seq::filter);
        assert(sessions@.take(0) =~= Seq::<SessionRow>::empty());
    }
    while i < sessions.len()
        invariant
            i <= sessions@.len() <= u32::MAX,
            counts_of(counts, sessions@.take(i as int)),
        decreases sessions.len() - i,
    {
        let ghost seen = sessions@.take(i as int);
        let status = sessions[i].status;
        proof {
            assert(sessions@.take(i + 1).drop_last() =~= seen);
            assert(sessions@.take(i + 1).last() == sessions@[i as int]);
            reveal(Seq::filter);
            law_counts_add_up(seen);
        }
        match status {
            SessionStatus::Attention => {
                counts.attention = counts.attention + 1;
            },
            SessionStatus::Working => {
                counts.working = counts.working + 1;
            },
            SessionStatus::WaitingWorkflow => {
                counts.waiting = counts.waiting + 1;
            },
            SessionStatus::Idle => {
                counts.idle = counts.idle + 1;
            },
            SessionStatus::Dead => {
                counts.dead = counts.dead + 1;
            },
        }
        i = i + 1;
    }
    proof {
        assert(sessions@.take(sessions@.len() as int) =~= sessions@);
    }
    counts
}

/// How much a status matters: a session that needs the user before one that
/// works, that before one that is idle, and a dead one last. A session that waits
/// for background work counts as working.
pub open spec fn rank(status: SessionStatus) -> int {
    match status {
        SessionStatus::Attention => 3,
        SessionStatus::Working => 2,
        SessionStatus::WaitingWorkflow => 2,
        SessionStatus::Idle => 1,
        SessionStatus::Dead => 0,
    }
}

/// The status that matters most among those counted, for the tray icon.
pub open spec fn worst(counts: Counts) -> Option<SessionStatus> {
    if counts.attention > 0 {
        Some(SessionStatus::Attention)
    } else if counts.working > 0 || counts.waiting > 0 {
        Some(SessionStatus::Working)
    } else if counts.idle > 0 {
        Some(SessionStatus::Idle)
    } else if counts.dead > 0 {
        Some(SessionStatus::Dead)
    } else {
        None
    }
}

/// The status that matters most among those counted, for the tray icon.
pub fn worst_status(counts: &Counts) -> (out: Option<SessionStatus>)
    ensures
        out == worst(*counts),
{
    if counts.attention > 0 {
        Some(SessionStatus::Attention)
    } else if counts.working > 0 || counts.waiting > 0 {
        Some(SessionStatus::Working)
    } else if counts.idle > 0 {
        Some(SessionStatus::Idle)
    } else if counts.dead > 0 {
        Some(SessionStatus::Dead)
    } else {
        None
    }
}

/// The colour that stands for a status: red for a session that needs the user, yellow
/// for one that works, green for one that is idle, and grey for a dead one or none.
pub open spec fn color_of(status: Option<SessionStatus>) -> Seq<char> {
    match status {
        Some(SessionStatus::Attention) => "red"@,
        Some(SessionStatus::Working) => "yellow"@,
        Some(SessionStatus::WaitingWorkflow) => "yellow"@,
        Some(SessionStatus::Idle) => "green"@,
        Some(SessionStatus::Dead) => "gray"@,
        None => "gray"@,
    }
}

/// The colour of the tray icon for these counts.
pub fn tray_color(counts: &Counts) -> (out: &'static str)
    ensures
        out@ == color_of(worst(*counts)),
{
    match worst_status(counts) {
        Some(SessionStatus::Attention) => "red",
        Some(SessionStatus::Working) => "yellow",
        Some(SessionStatus::WaitingWorkflow) => "yellow",
        Some(SessionStatus::Idle) => "green",
        Some(SessionStatus::Dead) => "gray",
        None => "gray",
    }
}

/// The tray icon shows the worst status across all sessions: some session has it
/// or one that matters as much, and no session has one that matters more.
pub proof fn law_the_tray_shows_the_worst(counts: Counts, sessions: Seq<SessionRow>)
    requires
        counts_of(counts, sessions),
    ensures
        worst(counts) is None <==> sessions.len() == 0,
        worst(counts) matches Some(status) ==> {
            &&& exists|i: int|
                0 <= i < sessions.len() && rank((#[trigger] sessions[i]).status) == rank(status)
            &&& forall|i: int|
                0 <= i < sessions.len() ==> rank((#[trigger] sessions[i]).status) <= rank(status)
        },
{
    law_counts_add_up(sessions);
    assert forall|i: int| 0 <= i < sessions.len() implies with_status(
        sessions,
        (#[trigger] sessions[i]).status,
    ) > 0 by {
        let status = sessions[i].status;
        let k = lemma_filtered_keeps(sessions, |row: SessionRow| row.status == status, i);
    }
    if let Some(status) = worst(counts) {
        let shown = if with_status(sessions, status) > 0 {
            status
        } else {
            SessionStatus::WaitingWorkflow
        };
        let k = lemma_filtered_from(sessions, |row: SessionRow| row.status == shown, 0);
        assert(rank(sessions[k].status) == rank(status));
    }
}

/// Removes the row of a session and counts again.
pub fn apply_remove_row(state: &mut StateSnapshot, session_id: &str)
    requires
        old(state).sessions@.len() <= u32::MAX,
    ensures
        final(state).sessions@ == others(
            old(state).sessions@,
            |row: SessionRow| row.id@ == session_id@,
        ),
        counts_of(final(state).counts, final(state).sessions@),
        final(state).asks == old(state).asks,
        final(state).perms == old(state).perms,
        final(state).hooks_installed == old(state).hooks_installed,
        final(state).settings == old(state).settings,
{
    let ghost gone = |row: SessionRow| row.id@ == session_id@;
    let test = |row: &SessionRow| -> (b: bool)
        ensures
            b == (row.id@ == session_id@),
        { same_text(row.id.as_str(), session_id) };
    let _removed = take_where(&mut state.sessions, test, Ghost(gone));
    proof {
        old(state).sessions@.lemma_filter_len(|row: SessionRow| !gone(row));
    }
    state.counts = recompute_counts(state.sessions.as_slice());
}

/// Removes a question once its answer is on disk.
pub fn apply_remove_ask(state: &mut StateSnapshot, ask_id: &str)
    ensures
        final(state).asks@ == others(old(state).asks@, |row: AskRow| row.id@ == ask_id@),
        final(state).sessions == old(state).sessions,
        final(state).perms == old(state).perms,
        final(state).hooks_installed == old(state).hooks_installed,
        final(state).counts == old(state).counts,
        final(state).settings == old(state).settings,
{
    let ghost gone = |row: AskRow| row.id@ == ask_id@;
    let test = |row: &AskRow| -> (b: bool)
        ensures
            b == (row.id@ == ask_id@),
        { same_text(row.id.as_str(), ask_id) };
    let _removed = take_where(&mut state.asks, test, Ghost(gone));
}

/// Removes a permission request once its decision is on disk.
pub fn apply_remove_perm(state: &mut StateSnapshot, perm_id: &str)
    ensures
        final(state).perms@ == others(old(state).perms@, |row: PermRow| row.id@ == perm_id@),
        final(state).sessions == old(state).sessions,
        final(state).asks == old(state).asks,
        final(state).hooks_installed == old(state).hooks_installed,
        final(state).counts == old(state).counts,
        final(state).settings == old(state).settings,
{
    let ghost gone = |row: PermRow| row.id@ == perm_id@;
    let test = |row: &PermRow| -> (b: bool)
        ensures
            b == (row.id@ == perm_id@),
        { same_text(row.id.as_str(), perm_id) };
    let _removed = take_where(&mut state.perms, test, Ghost(gone));
}

// ---------------------------------------------------------------------------
// Answer files.
// ---------------------------------------------------------------------------

/// Whether a file can be named after `id` without leaving its directory.
pub open spec fn file_stem_ok(id: Seq<char>) -> bool {
    &&& id.len() > 0
    &&& !id.contains('/')
    &&& !id.contains('\\')
    &&& id != "."@
    &&& id != ".."@
}

/// What is said of an id that no file can be named after.
pub open spec fn bad_stem(id: Seq<char>) -> Seq<char> {
    "invalid id: "@ + quoted(id)
}

/// The stem of the file for `id`: the id itself, unless a file named after it
/// could lie outside its directory.
pub fn safe_file_stem(id: &str) -> (out: Result<&str, String>)
    ensures
        match out {
            Ok(stem) => file_stem_ok(id@) && stem@ == id@,
            Err(message) => !file_stem_ok(id@) && message@ == bad_stem(id@),
        },
{
    if id.is_empty() || contains_char(id, '/') || contains_char(id, '\\') || same_text(id, ".")
        || same_text(id, "..") {
        return Err(joined("invalid id: ", quote(id).as_str()));
    }
    Ok(id)
}

/// Cap on an answer, in grapheme clusters.
pub const ANSWER_MAX_CHARS: usize = 8192;

/// The answer to a question, as it goes to disk.
#[derive(Clone, Debug)]
pub struct AnswerRecord {
    pub id: String,
    pub answer: String,
    pub kind: AskAnswerKind,
    pub answered_at_ms: u64,
}

/// The decision on a permission request, as it goes to disk.
#[derive(Clone, Debug)]
pub struct PermAnswerRecord {
    pub decision: PermDecision,
    pub reason: Option<String>,
    pub answered_at_ms: u64,
}

/// Name of the file for `id`.
pub open spec fn json_file_name(id: Seq<char>) -> Seq<char> {
    id + ".json"@
}

/// Name and contents of the file that hands an answer to the waiting call.
pub fn answer_file(ask_id: &str, answer: &str, kind: AskAnswerKind, now_ms: u64) -> (out: Result<
    (String, AnswerRecord),
    String,
>)
    ensures
        match out {
            Ok((name, record)) => {
                &&& file_stem_ok(ask_id@)
                &&& name@ == json_file_name(ask_id@)
                &&& record.id@ == ask_id@
                &&& record.answer@ == grapheme_capped(answer@, ANSWER_MAX_CHARS as nat)
                &&& record.kind == kind
                &&& record.answered_at_ms == now_ms
            },
            Err(message) => !file_stem_ok(ask_id@) && message@ == bad_stem(ask_id@),
        },
{
    match safe_file_stem(ask_id) {
        Ok(stem) => Ok(
            (
                joined(stem, ".json"),
                AnswerRecord {
                    id: stem.to_owned(),
                    answer: truncate_graphemes(answer, ANSWER_MAX_CHARS),
                    kind,
                    answered_at_ms: now_ms,
                },
            ),
        ),
        Err(message) => Err(message),
    }
}

/// The reason that goes to disk: trimmed, and none where nothing is left.
pub open spec fn kept_reason(reason: Option<Seq<char>>) -> Option<Seq<char>> {
    match reason {
        Some(r) => if trimmed(r).len() == 0 {
            None
        } else {
            Some(trimmed(r))
        },
        None => None,
    }
}

/// Name and contents of the file that hands a decision to the waiting hook.
pub fn perm_answer_file(
    perm_id: &str,
    decision: PermDecision,
    reason: Option<&str>,
    now_ms: u64,
) -> (out: Result<(String, PermAnswerRecord), String>)
    ensures
        match out {
            Ok((name, record)) => {
                &&& file_stem_ok(perm_id@)
                &&& name@ == json_file_name(perm_id@)
                &&& record.decision == decision
                &&& optional_text(record.reason) == kept_reason(
                    optional_str(reason),
                )
                &&& record.answered_at_ms == now_ms
            },
            Err(message) => !file_stem_ok(perm_id@) && message@ == bad_stem(perm_id@),
        },
{
    match safe_file_stem(perm_id) {
        Ok(stem) => {
            let kept: Option<String> = match reason {
                Some(r) => {
                    let r = trim(r);
                    if r.as_str().is_empty() {
                        None
                    } else {
                        Some(r)
                    }
                },
                None => None,
            };
            Ok(
                (
                    joined(stem, ".json"),
                    PermAnswerRecord { decision, reason: kept, answered_at_ms: now_ms },
                ),
            )
        },
        Err(message) => Err(message),
    }
}

} // verus!
