//! The deck: the questions and permission requests that wait for the user, and
//! what becomes of them.

use crate::files::{json_stem, stem_of};
use crate::ipc::{
    copy_form, form_view, optional_form, AskAnswerKind, AskQuestion, AskRow, PermRow, QuestionView,
};
use crate::json::{
    array_view, lemma_object_field, lemma_plain_fields, lemma_raw_key, lemma_texts_are_plain,
    number, number_of, object, object_of, optional_text_json, optional_text_of, pairs, parsed_text,
    plain, pretty, pretty_text, text, texts_json, texts_of, Json, JsonView, DEPTH_LIMIT,
};
use crate::lists::{find_first, first_where, lemma_same_filter, others, take_where};
use crate::mcp_server::{AskAnswer, AskRequest, AskRequestView};
use crate::notify::{ToastKind, ToastRequest};
use crate::paths::{base_name, basename};
use crate::sessions::{match_session, names_session, session_at, SessionView};
use crate::text::{
    copy_optional_text, copy_optional_texts, decimal, decimal_text, joined, optional_text,
    optional_texts, same_optional_text, same_text, texts,
};
use vstd::prelude::*;
use vstd::string::*;

verus! {

/// A question that waits for an answer.
#[derive(Clone, Debug)]
pub struct PendingAsk {
    pub id: String,
    /// The session of the agent that asks, where it is known.
    pub session_id: Option<String>,
    pub project: Option<String>,
    pub question: String,
    pub options: Option<Vec<String>>,
    pub questions: Option<Vec<AskQuestion>>,
    pub detail: Option<String>,
    /// Where the agent runs.
    pub context: Option<String>,
    /// When the question arrived (epoch milliseconds).
    pub enqueued_ms: u64,
    /// When it expires (epoch milliseconds); 0 where it never does.
    pub timeout_at_ms: u64,
    /// Whether it never expires.
    pub persistent: bool,
    /// Whether an earlier process was asked: nobody waits for the answer.
    pub orphaned: bool,
}

/// A permission request that waits for a decision.
#[derive(Clone, Debug)]
pub struct ShellPerm {
    pub id: String,
    /// The session of the agent that asks, where it is known.
    pub session_id: Option<String>,
    pub project: Option<String>,
    pub tool_name: String,
    pub tool_input: String,
    /// Where the agent runs, where its session is not known.
    pub context: Option<String>,
    /// When the request arrived (epoch milliseconds).
    pub received_ms: u64,
}

/// Milliseconds for which the hook waits for a decision.
pub const PERM_DEADLINE_MS: u64 = 90_000;

/// Cap on the input of a tool, in grapheme clusters.
pub const PERM_INPUT_CAP: usize = 16384;

/// Cap on the name of a tool, in grapheme clusters.
pub const PERM_TOOL_NAME_CAP: usize = 200;

/// When a request that arrived at `received_ms` expires.
pub open spec fn deadline(received_ms: u64) -> u64 {
    if received_ms + PERM_DEADLINE_MS > u64::MAX {
        u64::MAX
    } else {
        (received_ms + PERM_DEADLINE_MS) as u64
    }
}

impl ShellPerm {
    /// When this request expires: its hook waits no longer.
    pub fn deadline_ms(&self) -> (out: u64)
        ensures
            out == deadline(self.received_ms),
    {
        self.received_ms.saturating_add(PERM_DEADLINE_MS)
    }
}

// ---------------------------------------------------------------------------
// Rows.
// ---------------------------------------------------------------------------

/// Whether `row` shows `ask`. A question that never expires shows no time, and
/// only one of no known session shows where it came from.
pub open spec fn shows_ask(row: AskRow, ask: PendingAsk) -> bool {
    &&& row.id@ == ask.id@
    &&& optional_text(row.session_id) == optional_text(ask.session_id)
    &&& optional_text(row.project) == optional_text(ask.project)
    &&& row.question@ == ask.question@
    &&& optional_texts(row.options) == optional_texts(ask.options)
    &&& optional_form(row.questions) == optional_form(ask.questions)
    &&& optional_text(row.detail) == optional_text(ask.detail)
    &&& row.timeout_at == if ask.persistent {
        None
    } else {
        Some(ask.timeout_at_ms)
    }
    &&& optional_text(row.context) == if ask.session_id is None {
        optional_text(ask.context)
    } else {
        None
    }
    &&& row.orphaned == ask.orphaned
    &&& row.queued_at == ask.enqueued_ms
}

/// Whether `row` shows `perm`.
pub open spec fn shows_perm(row: PermRow, perm: ShellPerm) -> bool {
    &&& row.id@ == perm.id@
    &&& optional_text(row.session_id) == optional_text(perm.session_id)
    &&& optional_text(row.project) == optional_text(perm.project)
    &&& row.tool_name@ == perm.tool_name@
    &&& row.tool_input@ == perm.tool_input@
    &&& optional_text(row.context) == optional_text(perm.context)
    &&& row.queued_at == perm.received_ms
    &&& row.expires_at == Some(deadline(perm.received_ms))
}

/// The row for a question.
pub fn ask_to_row(ask: &PendingAsk) -> (row: AskRow)
    ensures
        shows_ask(row, *ask),
{
    AskRow {
        id: ask.id.clone(),
        session_id: copy_optional_text(&ask.session_id),
        project: copy_optional_text(&ask.project),
        question: ask.question.clone(),
        options: copy_optional_texts(&ask.options),
        questions: copy_form(&ask.questions),
        detail: copy_optional_text(&ask.detail),
        timeout_at: if ask.persistent {
            None
        } else {
            Some(ask.timeout_at_ms)
        },
        context: if ask.session_id.is_none() {
            copy_optional_text(&ask.context)
        } else {
            None
        },
        orphaned: ask.orphaned,
        queued_at: ask.enqueued_ms,
    }
}

/// The row for a permission request.
pub fn perm_to_row(perm: &ShellPerm) -> (row: PermRow)
    ensures
        shows_perm(row, *perm),
{
    PermRow {
        id: perm.id.clone(),
        session_id: copy_optional_text(&perm.session_id),
        project: copy_optional_text(&perm.project),
        tool_name: perm.tool_name.clone(),
        tool_input: perm.tool_input.clone(),
        context: copy_optional_text(&perm.context),
        queued_at: perm.received_ms,
        expires_at: Some(perm.deadline_ms()),
    }
}

// ---------------------------------------------------------------------------
// What has run out.
// ---------------------------------------------------------------------------

/// Whether the request has expired at `now`.
pub open spec fn perm_expired(perm: ShellPerm, now: u64) -> bool {
    now >= deadline(perm.received_ms)
}

/// Whether the question has expired at `now`. One that never expires has not, and
/// neither has one that nobody waits for: the user dismisses it.
pub open spec fn ask_expired(ask: PendingAsk, now: u64) -> bool {
    !ask.persistent && !ask.orphaned && now >= ask.timeout_at_ms
}

/// Takes the requests out that have expired at `now`.
pub fn drain_expired_perms(perms: &mut Vec<ShellPerm>, now: u64) -> (out: Vec<ShellPerm>)
    ensures
        out@ == old(perms)@.filter(|p: ShellPerm| perm_expired(p, now)),
        final(perms)@ == others(old(perms)@, |p: ShellPerm| perm_expired(p, now)),
{
    let test = |p: &ShellPerm| -> (b: bool)
        ensures
            b == perm_expired(*p, now),
        { now >= p.deadline_ms() };
    take_where(perms, test, Ghost(|p: ShellPerm| perm_expired(p, now)))
}

/// Takes the questions out that have expired at `now`.
pub fn drain_expired_asks(asks: &mut Vec<PendingAsk>, now: u64) -> (out: Vec<PendingAsk>)
    ensures
        out@ == old(asks)@.filter(|a: PendingAsk| ask_expired(a, now)),
        final(asks)@ == others(old(asks)@, |a: PendingAsk| ask_expired(a, now)),
{
    let test = |a: &PendingAsk| -> (b: bool)
        ensures
            b == ask_expired(*a, now),
        { !a.persistent && !a.orphaned && now >= a.timeout_at_ms };
    take_where(asks, test, Ghost(|a: PendingAsk| ask_expired(a, now)))
}

// ---------------------------------------------------------------------------
// The deck.
// ---------------------------------------------------------------------------

/// The questions and permission requests that wait for the user, each in the
/// order in which they arrived.
pub struct Deck {
    pub asks: Vec<PendingAsk>,
    pub perms: Vec<ShellPerm>,
}

/// What the engine is told of a session.
#[derive(Clone, Debug)]
pub enum EngineNote {
    /// It waits for the user.
    Pending(String),
    /// The user answered it.
    Answered(String),
    /// It no longer waits for the user.
    Cleared(String),
}

/// What an [`EngineNote`] says.
pub ghost enum NoteView {
    Pending(Seq<char>),
    Answered(Seq<char>),
    Cleared(Seq<char>),
}

impl View for EngineNote {
    type V = NoteView;

    open spec fn view(&self) -> NoteView {
        match *self {
            EngineNote::Pending(id) => NoteView::Pending(id@),
            EngineNote::Answered(id) => NoteView::Answered(id@),
            EngineNote::Cleared(id) => NoteView::Cleared(id@),
        }
    }
}

/// What an optional note says.
pub open spec fn optional_note(note: Option<EngineNote>) -> Option<NoteView> {
    match note {
        Some(n) => Some(n@),
        None => None,
    }
}

/// Whether the question has this id.
pub open spec fn ask_named(ask: PendingAsk, id: Seq<char>) -> bool {
    ask.id@ == id
}

/// Whether the request has this id.
pub open spec fn perm_named(perm: ShellPerm, id: Seq<char>) -> bool {
    perm.id@ == id
}

/// The first question with this id.
pub open spec fn ask_at(asks: Seq<PendingAsk>, id: Seq<char>) -> Option<int> {
    first_where(asks, |a: PendingAsk| ask_named(a, id))
}

/// The first request with this id.
pub open spec fn perm_at(perms: Seq<ShellPerm>, id: Seq<char>) -> Option<int> {
    first_where(perms, |p: ShellPerm| perm_named(p, id))
}

/// The project that a toast names: the session's, or the name of the directory
/// where the agent runs, or nothing in particular.
pub open spec fn toast_project_of(
    project: Option<Seq<char>>,
    place: Option<Seq<char>>,
) -> Seq<char> {
    match project {
        Some(p) => p,
        None => match place {
            Some(c) => base_name(c),
            None => "Agent"@,
        },
    }
}

/// The project that a toast names.
pub fn toast_project(project: &Option<String>, place: &Option<String>) -> (out: String)
    ensures
        out@ == toast_project_of(optional_text(*project), optional_text(*place)),
{
    match project {
        Some(p) => p.clone(),
        None => match place {
            Some(c) => basename(c.as_str()),
            None => "Agent".to_owned(),
        },
    }
}

/// The id of the question with number `seq` that arrives at `now`.
pub open spec fn ask_id_of(now: nat, seq: nat) -> Seq<char> {
    "ask-"@ + decimal(now) + "-"@ + decimal(seq)
}

/// The id of the question with number `seq` that arrives at `now`.
pub fn ask_id(now_ms: u64, seq: u64) -> (out: String)
    ensures
        out@ == ask_id_of(now_ms as nat, seq as nat),
{
    let mut out = joined("ask-", decimal_text(now_ms).as_str());
    out.append("-");
    out.append(decimal_text(seq).as_str());
    out
}

/// What comes of a question that was put.
pub struct Submission {
    pub ask_id: String,
    /// The session of the agent that asks, where it is known.
    pub session_id: Option<String>,
    /// What the engine is told.
    pub note: Option<EngineNote>,
    /// What is shown, unless the user looks at the session's terminal.
    pub toast: ToastRequest,
}

/// Milliseconds in `secs` seconds, or as many as there can be.
pub open spec fn millis(secs: u64) -> int {
    if secs * 1000 > u64::MAX {
        u64::MAX as int
    } else {
        secs * 1000
    }
}

fn millis_of(secs: u64) -> (out: u64)
    ensures
        out == millis(secs),
{
    if secs > u64::MAX / 1000 {
        u64::MAX
    } else {
        secs * 1000
    }
}

/// Whether `ask` is the question `request`, put at `now`. Without a time limit it
/// never expires.
pub open spec fn puts(ask: PendingAsk, request: AskRequestView, id: Seq<char>, now: u64) -> bool {
    &&& ask.id@ == id
    &&& ask.question@ == request.question
    &&& optional_texts(ask.options) == request.options
    &&& optional_form(ask.questions) == request.questions
    &&& optional_text(ask.detail) == request.detail
    &&& optional_text(ask.context) == request.context
    &&& ask.enqueued_ms == now
    &&& ask.persistent == (request.timeout_seconds is None)
    &&& ask.timeout_at_ms == match request.timeout_seconds {
        Some(secs) => now + millis(secs),
        None => 0,
    }
    &&& !ask.orphaned
}

/// Whether `after` is `before` revised: a question without text, and whatever is
/// not given, changes nothing; empty options or an empty detail are taken away.
pub open spec fn revised(
    before: PendingAsk,
    after: PendingAsk,
    question: Option<Seq<char>>,
    options: Option<Seq<Seq<char>>>,
    detail: Option<Seq<char>>,
) -> bool {
    &&& after.id == before.id
    &&& after.session_id == before.session_id
    &&& after.project == before.project
    &&& after.questions == before.questions
    &&& after.context == before.context
    &&& after.enqueued_ms == before.enqueued_ms
    &&& after.timeout_at_ms == before.timeout_at_ms
    &&& after.persistent == before.persistent
    &&& after.orphaned == before.orphaned
    &&& after.question@ == match question {
        Some(q) => if q.len() == 0 {
            before.question@
        } else {
            q
        },
        None => before.question@,
    }
    &&& optional_texts(after.options) == match options {
        Some(o) => if o.len() == 0 {
            None
        } else {
            Some(o)
        },
        None => optional_texts(before.options),
    }
    &&& optional_text(after.detail) == match detail {
        Some(d) => if d.len() == 0 {
            None
        } else {
            Some(d)
        },
        None => optional_text(before.detail),
    }
}

/// What the engine is told of a session that waited, once it no longer does.
pub open spec fn cleared(session_id: Option<Seq<char>>) -> Option<NoteView> {
    match session_id {
        Some(id) => Some(NoteView::Cleared(id)),
        None => None,
    }
}

/// What the engine is told when a question is settled: that it was answered only
/// where an answer reached the agent.
pub open spec fn settled_note(
    session_id: Option<Seq<char>>,
    kind: AskAnswerKind,
    delivered: bool,
) -> Option<NoteView> {
    match session_id {
        Some(id) => if delivered && (kind == AskAnswerKind::Option || kind == AskAnswerKind::Text
            || kind == AskAnswerKind::Form) {
            Some(NoteView::Answered(id))
        } else {
            Some(NoteView::Cleared(id))
        },
        None => None,
    }
}

/// What the engine is told of a session that waited, once it no longer does.
pub fn clear_note(session_id: &Option<String>) -> (out: Option<EngineNote>)
    ensures
        optional_note(out) == cleared(optional_text(*session_id)),
{
    match session_id {
        Some(id) => Some(EngineNote::Cleared(id.clone())),
        None => None,
    }
}

/// What the engine is told when a question is settled.
pub fn settle(session_id: &Option<String>, kind: AskAnswerKind, delivered: bool) -> (out: Option<
    EngineNote,
>)
    ensures
        optional_note(out) == settled_note(optional_text(*session_id), kind, delivered),
{
    match session_id {
        Some(id) => {
            let answered: bool = delivered && match kind {
                AskAnswerKind::Option | AskAnswerKind::Text | AskAnswerKind::Form => true,
                AskAnswerKind::Timeout
                | AskAnswerKind::Dismissed
                | AskAnswerKind::Cancelled
                | AskAnswerKind::Terminal => false,
            };
            if answered {
                Some(EngineNote::Answered(id.clone()))
            } else {
                Some(EngineNote::Cleared(id.clone()))
            }
        },
        None => None,
    }
}

/// An answer, as it was read from its file.
#[derive(Clone, Debug)]
pub struct AnswerFile {
    pub answer: String,
    pub kind: AskAnswerKind,
}

/// What came of reading a file.
pub enum FileRead<T> {
    Unreadable,
    Malformed,
    Parsed(T),
}

/// What becomes of an answer's file.
pub enum AnswerStep {
    /// It is none.
    Ignore,
    /// It is put aside.
    Quarantine,
    /// It is removed: nobody asked, or no longer.
    Discard,
    /// It is handed on to whoever asked, and removed.
    Deliver { ask: PendingAsk, answer: AskAnswer },
}

impl Deck {
    /// Nothing waits.
    pub fn new() -> (out: Self)
        ensures
            out.asks@.len() == 0,
            out.perms@.len() == 0,
    {
        Deck { asks: Vec::new(), perms: Vec::new() }
    }

    /// Whether nothing waits, so that the window for it can hide.
    pub fn ask_window_idle(&self) -> (out: bool)
        ensures
            out == (self.asks@.len() == 0 && self.perms@.len() == 0),
    {
        self.asks.len() == 0 && self.perms.len() == 0
    }

    /// Puts a question behind all others.
    pub fn submit_ask(
        &mut self,
        req: AskRequest,
        views: &Vec<SessionView>,
        now_ms: u64,
        seq: u64,
        ignore_case: bool,
    ) -> (out: Submission)
        requires
            req.timeout_seconds matches Some(secs) ==> now_ms + millis(secs) <= u64::MAX,
        ensures
            final(self).perms == old(self).perms,
            final(self).asks@.len() == old(self).asks@.len() + 1,
            final(self).asks@.drop_last() == old(self).asks@,
            puts(final(self).asks@.last(), req@, ask_id_of(now_ms as nat, seq as nat), now_ms),
            names_session(
                views@,
                session_at(views@, req@.context, ignore_case),
                optional_text(final(self).asks@.last().session_id),
                optional_text(final(self).asks@.last().project),
            ),
            out.ask_id@ == ask_id_of(now_ms as nat, seq as nat),
            optional_text(out.session_id) == optional_text(final(self).asks@.last().session_id),
            optional_note(out.note) == match optional_text(out.session_id) {
                Some(id) => Some(NoteView::Pending(id)),
                None => None,
            },
            out.toast.kind == ToastKind::Ask,
            out.toast.session_id@ == out.ask_id@,
            out.toast.project@ == toast_project_of(
                optional_text(final(self).asks@.last().project),
                req@.context,
            ),
            out.toast.detail@ == req@.question,
            out.toast.assistant_body is None,
    {
        let id = ask_id(now_ms, seq);
        let context: Option<&str> = match &req.context {
            Some(c) => Some(c.as_str()),
            None => None,
        };
        let (session_id, project) = match_session(views, context, ignore_case);
        let timeout_at_ms: u64 = match req.timeout_seconds {
            Some(secs) => now_ms + millis_of(secs),
            None => 0,
        };
        let toast = ToastRequest {
            kind: ToastKind::Ask,
            session_id: id.clone(),
            project: toast_project(&project, &req.context),
            detail: req.question.clone(),
            assistant_body: None,
        };
        let note: Option<EngineNote> = match &session_id {
            Some(sid) => Some(EngineNote::Pending(sid.clone())),
            None => None,
        };
        let out = Submission {
            ask_id: id.clone(),
            session_id: copy_optional_text(&session_id),
            note,
            toast,
        };
        let ask = PendingAsk {
            id,
            session_id,
            project,
            question: req.question,
            options: req.options,
            questions: req.questions,
            detail: req.detail,
            context: req.context,
            enqueued_ms: now_ms,
            timeout_at_ms,
            persistent: req.timeout_seconds.is_none(),
            orphaned: false,
        };
        self.asks.push(ask);
        proof {
            assert(self.asks@.drop_last() =~= old(self).asks@);
        }
        out
    }

    /// Where the first question with this id stands.
    fn find_ask(&self, id: &str) -> (out: Option<usize>)
        ensures
            match out {
                Some(i) => ask_at(self.asks@, id@) == Some(i as int) && i < self.asks@.len(),
                None => ask_at(self.asks@, id@) is None,
            },
    {
        let test = |a: &PendingAsk| -> (b: bool)
            ensures
                b == ask_named(*a, id@),
            { same_text(a.id.as_str(), id) };
        find_first(&self.asks, test, Ghost(|a: PendingAsk| ask_named(a, id@)))
    }

    /// Where the first request with this id stands.
    fn find_perm(&self, id: &str) -> (out: Option<usize>)
        ensures
            match out {
                Some(i) => perm_at(self.perms@, id@) == Some(i as int) && i < self.perms@.len(),
                None => perm_at(self.perms@, id@) is None,
            },
    {
        let test = |p: &ShellPerm| -> (b: bool)
            ensures
                b == perm_named(*p, id@),
            { same_text(p.id.as_str(), id) };
        find_first(&self.perms, test, Ghost(|p: ShellPerm| perm_named(p, id@)))
    }

    /// Revises a question, which keeps its place. One that is not there, or that
    /// nobody waits for, cannot be revised.
    pub fn update_ask(
        &mut self,
        ask_id: &str,
        question: Option<String>,
        options: Option<Vec<String>>,
        detail: Option<String>,
    ) -> (out: bool)
        ensures
            match ask_at(old(self).asks@, ask_id@) {
                Some(i) => if old(self).asks@[i].orphaned {
                    !out && *final(self) == *old(self)
                } else {
                    &&& out
                    &&& final(self).perms == old(self).perms
                    &&& final(self).asks@ == old(self).asks@.update(i, final(self).asks@[i])
                    &&& revised(
                        old(self).asks@[i],
                        final(self).asks@[i],
                        optional_text(question),
                        optional_texts(options),
                        optional_text(detail),
                    )
                },
                None => !out && *final(self) == *old(self),
            },
    {
        let i: usize = match self.find_ask(ask_id) {
            Some(i) => i,
            None => {
                return false;
            },
        };
        if self.asks[i].orphaned {
            return false;
        }
        let mut ask = self.asks.remove(i);
        let ghost before = ask;
        let ghost rest = self.asks@;
        if let Some(q) = question {
            if !q.as_str().is_empty() {
                ask.question = q;
            }
        }
        if let Some(o) = options {
            proof {
                assert(texts(o@).len() == o@.len());
            }
            ask.options = if o.len() == 0 {
                None
            } else {
                Some(o)
            };
        }
        if let Some(d) = detail {
            ask.detail = if d.as_str().is_empty() {
                None
            } else {
                Some(d)
            };
        }
        self.asks.insert(i, ask);
        proof {
            assert(self.asks@ =~= old(self).asks@.update(i as int, ask));
        }
        true
    }

    /// Takes a question out.
    pub fn take_ask(&mut self, id: &str) -> (out: Option<PendingAsk>)
        ensures
            final(self).perms == old(self).perms,
            match ask_at(old(self).asks@, id@) {
                Some(i) => out == Some(old(self).asks@[i]) && final(self).asks@
                    == old(self).asks@.remove(i),
                None => out is None && *final(self) == *old(self),
            },
    {
        match self.find_ask(id) {
            Some(i) => Some(self.asks.remove(i)),
            None => None,
        }
    }

    /// Takes a request out.
    pub fn take_perm(&mut self, id: &str) -> (out: Option<ShellPerm>)
        ensures
            final(self).asks == old(self).asks,
            match perm_at(old(self).perms@, id@) {
                Some(i) => out == Some(old(self).perms@[i]) && final(self).perms@
                    == old(self).perms@.remove(i),
                None => out is None && *final(self) == *old(self),
            },
    {
        match self.find_perm(id) {
            Some(i) => Some(self.perms.remove(i)),
            None => None,
        }
    }

    /// Whether a request with this id is on the deck.
    pub fn has_perm(&self, id: &str) -> (out: bool)
        ensures
            out == (perm_at(self.perms@, id@) is Some),
    {
        self.find_perm(id).is_some()
    }

    /// Takes a question back: it is to be answered as cancelled, and the engine
    /// told what comes back with it.
    pub fn cancel_ask(&mut self, ask_id: &str) -> (out: Option<(PendingAsk, Option<EngineNote>)>)
        ensures
            final(self).perms == old(self).perms,
            match ask_at(old(self).asks@, ask_id@) {
                Some(i) => {
                    &&& out matches Some((ask, note)) && ask == old(self).asks@[i]
                        && optional_note(note) == cleared(optional_text(ask.session_id))
                    &&& final(self).asks@ == old(self).asks@.remove(i)
                },
                None => out is None && *final(self) == *old(self),
            },
    {
        match self.take_ask(ask_id) {
            Some(ask) => {
                let note = clear_note(&ask.session_id);
                Some((ask, note))
            },
            None => None,
        }
    }

    /// Decides on a file that may hold an answer. The question is taken out when
    /// its answer is handed on, so that no second answer can be.
    pub fn resolve_answer(&mut self, file_name: &str, read: FileRead<AnswerFile>) -> (out:
        AnswerStep)
        ensures
            final(self).perms == old(self).perms,
            match stem_of(file_name@) {
                None => out is Ignore && *final(self) == *old(self),
                Some(id) => match read {
                    FileRead::Unreadable => out is Quarantine && *final(self) == *old(self),
                    FileRead::Malformed => out is Quarantine && *final(self) == *old(self),
                    FileRead::Parsed(file) => match ask_at(old(self).asks@, id) {
                        None => out is Discard && *final(self) == *old(self),
                        Some(i) => {
                            &&& final(self).asks@ == old(self).asks@.remove(i)
                            &&& out matches AnswerStep::Deliver { ask, answer } && ask
                                == old(self).asks@[i] && answer.answer@ == file.answer@
                                && answer.kind == file.kind
                        },
                    },
                },
            },
    {
        let id: String = match json_stem(file_name) {
            Some(id) => id,
            None => {
                return AnswerStep::Ignore;
            },
        };
        match read {
            FileRead::Unreadable => AnswerStep::Quarantine,
            FileRead::Malformed => AnswerStep::Quarantine,
            FileRead::Parsed(file) => match self.take_ask(id.as_str()) {
                Some(ask) => AnswerStep::Deliver {
                    ask,
                    answer: AskAnswer { answer: file.answer, kind: file.kind },
                },
                None => AnswerStep::Discard,
            },
        }
    }

    /// Takes the questions out that have expired at `now`.
    pub fn sweep_expired_asks(&mut self, now: u64) -> (out: Vec<PendingAsk>)
        ensures
            out@ == old(self).asks@.filter(|a: PendingAsk| ask_expired(a, now)),
            final(self).asks@ == others(old(self).asks@, |a: PendingAsk| ask_expired(a, now)),
            final(self).perms == old(self).perms,
    {
        drain_expired_asks(&mut self.asks, now)
    }

    /// Takes the requests out that have expired at `now`.
    pub fn sweep_expired_perms(&mut self, now: u64) -> (out: Vec<ShellPerm>)
        ensures
            out@ == old(self).perms@.filter(|p: ShellPerm| perm_expired(p, now)),
            final(self).perms@ == others(old(self).perms@, |p: ShellPerm| perm_expired(p, now)),
            final(self).asks == old(self).asks,
    {
        drain_expired_perms(&mut self.perms, now)
    }
}

// ---------------------------------------------------------------------------
// Sessions that are gone.
// ---------------------------------------------------------------------------

/// What is left of `items` when those of each session in `gone` are taken away.
pub open spec fn left_of<T>(
    items: Seq<T>,
    gone: Seq<Seq<char>>,
    of: spec_fn(T, Seq<char>) -> bool,
) -> Seq<T>
    decreases gone.len(),
{
    if gone.len() == 0 {
        items
    } else {
        others(left_of(items, gone.drop_last(), of), |x: T| of(x, gone.last()))
    }
}

/// What is taken away of `items`, session by session in the order of `gone`.
pub open spec fn taken_of<T>(
    items: Seq<T>,
    gone: Seq<Seq<char>>,
    of: spec_fn(T, Seq<char>) -> bool,
) -> Seq<T>
    decreases gone.len(),
{
    if gone.len() == 0 {
        Seq::empty()
    } else {
        taken_of(items, gone.drop_last(), of) + left_of(items, gone.drop_last(), of).filter(
            |x: T| of(x, gone.last()),
        )
    }
}

/// Whether the question belongs to the session.
pub open spec fn ask_of(ask: PendingAsk, session_id: Seq<char>) -> bool {
    ask.session_id matches Some(id) && id@ == session_id
}

/// Whether the request belongs to the session.
pub open spec fn perm_of(perm: ShellPerm, session_id: Seq<char>) -> bool {
    perm.session_id matches Some(id) && id@ == session_id
}

/// Which session a question belongs to.
pub open spec fn by_ask() -> spec_fn(PendingAsk, Seq<char>) -> bool {
    |a: PendingAsk, id: Seq<char>| ask_of(a, id)
}

/// Which session a request belongs to.
pub open spec fn by_perm() -> spec_fn(ShellPerm, Seq<char>) -> bool {
    |p: ShellPerm, id: Seq<char>| perm_of(p, id)
}

/// What was taken off the deck.
pub struct Dismissed {
    /// The questions, which are to be answered as cancelled.
    pub asks: Vec<PendingAsk>,
    pub perms: Vec<ShellPerm>,
}

impl Deck {
    /// Takes everything off the deck that belongs to sessions that are gone.
    pub fn dismiss_gone_sessions(&mut self, gone: &Vec<String>) -> (out: Dismissed)
        ensures
            final(self).asks@ == left_of(old(self).asks@, texts(gone@), by_ask()),
            final(self).perms@ == left_of(old(self).perms@, texts(gone@), by_perm()),
            out.asks@ == taken_of(old(self).asks@, texts(gone@), by_ask()),
            out.perms@ == taken_of(old(self).perms@, texts(gone@), by_perm()),
    {
        let ghost ids = texts(gone@);
        let mut asks: Vec<PendingAsk> = Vec::new();
        let mut perms: Vec<ShellPerm> = Vec::new();
        let mut i: usize = 0;
        while i < gone.len()
            invariant
                i <= gone@.len(),
                ids == texts(gone@),
                self.asks@ == left_of(old(self).asks@, ids.take(i as int), by_ask()),
                self.perms@ == left_of(old(self).perms@, ids.take(i as int), by_perm()),
                asks@ == taken_of(old(self).asks@, ids.take(i as int), by_ask()),
                perms@ == taken_of(old(self).perms@, ids.take(i as int), by_perm()),
            decreases gone.len() - i,
        {
            let sid: &str = gone[i].as_str();
            let ghost before_asks = self.asks@;
            let ghost before_perms = self.perms@;
            proof {
                assert(ids.take(i + 1).drop_last() =~= ids.take(i as int));
                assert(ids.take(i + 1).last() == sid@);
            }
            let ask_test = |a: &PendingAsk| -> (b: bool)
                ensures
                    b == by_ask()(*a, sid@),
                { same_optional_text(&a.session_id, sid) };
            let ghost ask_gone = |a: PendingAsk| by_ask()(a, sid@);
            let mut some_asks = take_where(&mut self.asks, ask_test, Ghost(ask_gone));
            let perm_test = |p: &ShellPerm| -> (b: bool)
                ensures
                    b == by_perm()(*p, sid@),
                { same_optional_text(&p.session_id, sid) };
            let ghost perm_gone = |p: ShellPerm| by_perm()(p, sid@);
            let mut some_perms = take_where(&mut self.perms, perm_test, Ghost(perm_gone));
            proof {
                let last = ids.take(i + 1).last();
                lemma_same_filter(before_asks, ask_gone, |x: PendingAsk| by_ask()(x, last));
                lemma_same_filter(
                    before_asks,
                    |x: PendingAsk| !ask_gone(x),
                    |x: PendingAsk| !(|y: PendingAsk| by_ask()(y, last))(x),
                );
                lemma_same_filter(before_perms, perm_gone, |x: ShellPerm| by_perm()(x, last));
                lemma_same_filter(
                    before_perms,
                    |x: ShellPerm| !perm_gone(x),
                    |x: ShellPerm| !(|y: ShellPerm| by_perm()(y, last))(x),
                );
            }
            asks.append(&mut some_asks);
            perms.append(&mut some_perms);
            i = i + 1;
        }
        proof {
            assert(ids.take(ids.len() as int) =~= ids);
        }
        Dismissed { asks, perms }
    }
}

// ---------------------------------------------------------------------------
// Questions on disk.
// ---------------------------------------------------------------------------

/// A question, as it was read from its file.
#[derive(Clone, Debug)]
pub struct AskFileRecord {
    pub id: String,
    pub session_id: Option<String>,
    pub project: Option<String>,
    pub question: String,
    pub options: Option<Vec<String>>,
    pub questions: Option<Vec<AskQuestion>>,
    pub detail: Option<String>,
    pub context: Option<String>,
}

/// What becomes of a file in the directory of questions at start-up.
pub enum RecoverStep {
    /// It is none.
    Ignore,
    /// It is put aside.
    Quarantine,
    /// It is removed, and the question shown as one that nobody waits for.
    Recover(AskFileRecord),
}

/// Decides on a file that may hold a question of an earlier process.
pub fn recover_ask_file(file_name: &str, read: FileRead<AskFileRecord>) -> (out: RecoverStep)
    ensures
        match stem_of(file_name@) {
            None => out is Ignore,
            Some(_) => match read {
                FileRead::Parsed(rec) => if rec.id@.len() == 0 {
                    out is Quarantine
                } else {
                    out == RecoverStep::Recover(rec)
                },
                _ => out is Quarantine,
            },
        },
{
    if json_stem(file_name).is_none() {
        return RecoverStep::Ignore;
    }
    match read {
        FileRead::Parsed(rec) => if rec.id.as_str().is_empty() {
            RecoverStep::Quarantine
        } else {
            RecoverStep::Recover(rec)
        },
        FileRead::Unreadable => RecoverStep::Quarantine,
        FileRead::Malformed => RecoverStep::Quarantine,
    }
}

/// Whether `ask` shows a question of an earlier process: it arrived before
/// anything else, and nobody waits for the answer.
pub open spec fn orphan_of(ask: PendingAsk, rec: AskFileRecord) -> bool {
    &&& ask.id == rec.id
    &&& ask.session_id == rec.session_id
    &&& ask.project == rec.project
    &&& ask.question == rec.question
    &&& ask.options == rec.options
    &&& ask.questions == rec.questions
    &&& ask.detail == rec.detail
    &&& ask.context == rec.context
    &&& ask.enqueued_ms == 0
    &&& ask.timeout_at_ms == 0
    &&& !ask.persistent
    &&& ask.orphaned
}

impl Deck {
    /// Puts a question of an earlier process on the deck.
    pub fn orphan_stale_ask(&mut self, rec: AskFileRecord)
        ensures
            final(self).perms == old(self).perms,
            final(self).asks@.len() == old(self).asks@.len() + 1,
            final(self).asks@.drop_last() == old(self).asks@,
            orphan_of(final(self).asks@.last(), rec),
    {
        self.asks.push(
            PendingAsk {
                id: rec.id,
                session_id: rec.session_id,
                project: rec.project,
                question: rec.question,
                options: rec.options,
                questions: rec.questions,
                detail: rec.detail,
                context: rec.context,
                enqueued_ms: 0,
                timeout_at_ms: 0,
                persistent: false,
                orphaned: true,
            },
        );
        proof {
            assert(self.asks@.drop_last() =~= old(self).asks@);
        }
    }
}

/// The fields that are written down of one question of a form.
pub open spec fn question_fields(q: QuestionView) -> Seq<(Seq<char>, JsonView)> {
    seq![
        ("header"@, optional_text_of(q.header)),
        ("question"@, JsonView::Str(q.question)),
        ("multiSelect"@, JsonView::Bool(q.multi_select)),
        ("options"@, texts_of(q.options)),
    ]
}

/// One question of a form as a document.
pub open spec fn question_document(q: QuestionView) -> JsonView {
    object_of(question_fields(q))
}

/// A form as a document; `null` where there is none.
pub open spec fn form_document(form: Option<Seq<QuestionView>>) -> JsonView {
    match form {
        Some(q) => JsonView::Array(Seq::new(q.len(), |i: int| question_document(q[i]))),
        None => JsonView::Null,
    }
}

/// Options as a document; `null` where there are none.
pub open spec fn options_document(options: Option<Seq<Seq<char>>>) -> JsonView {
    match options {
        Some(o) => texts_of(o),
        None => JsonView::Null,
    }
}

/// The fields that are written down of a question.
pub open spec fn ask_fields(ask: PendingAsk, created_at_ms: u64) -> Seq<(Seq<char>, JsonView)> {
    seq![
        ("id"@, JsonView::Str(ask.id@)),
        ("sessionId"@, optional_text_of(optional_text(ask.session_id))),
        ("project"@, optional_text_of(optional_text(ask.project))),
        ("question"@, JsonView::Str(ask.question@)),
        ("options"@, options_document(optional_texts(ask.options))),
        ("questions"@, form_document(optional_form(ask.questions))),
        ("detail"@, optional_text_of(optional_text(ask.detail))),
        ("context"@, optional_text_of(optional_text(ask.context))),
        ("persistent"@, JsonView::Bool(ask.persistent)),
        ("timeoutAtMs"@, number_of(ask.timeout_at_ms as int)),
        ("createdAtMs"@, number_of(created_at_ms as int)),
    ]
}

/// A question as a document.
pub open spec fn ask_document(ask: PendingAsk, created_at_ms: u64) -> JsonView {
    object_of(ask_fields(ask, created_at_ms))
}

/// The names of what is written down of a question are short.
proof fn lemma_ask_names(ask: PendingAsk, created_at_ms: u64)
    ensures
        forall|i: int|
            0 <= i < 11 ==> (#[trigger] ask_fields(ask, created_at_ms)[i]).0.len() <= 11,
{
    reveal_strlit("id");
    reveal_strlit("sessionId");
    reveal_strlit("project");
    reveal_strlit("question");
    reveal_strlit("options");
    reveal_strlit("questions");
    reveal_strlit("detail");
    reveal_strlit("context");
    reveal_strlit("persistent");
    reveal_strlit("timeoutAtMs");
    reveal_strlit("createdAtMs");
}

/// The names of what is written down of one question of a form are short.
proof fn lemma_question_names(q: QuestionView)
    ensures
        forall|i: int| 0 <= i < 4 ==> (#[trigger] question_fields(q)[i]).0.len() <= 11,
{
    reveal_strlit("header");
    reveal_strlit("question");
    reveal_strlit("multiSelect");
    reveal_strlit("options");
}

/// What is written down of a question is a document that can be read.
pub proof fn lemma_ask_document_is_plain(ask: PendingAsk, created_at_ms: u64)
    ensures
        plain(ask_document(ask, created_at_ms), DEPTH_LIMIT as nat),
{
    let depth = (DEPTH_LIMIT - 1) as nat;
    let fields = ask_fields(ask, created_at_ms);
    lemma_raw_key();
    lemma_ask_names(ask, created_at_ms);
    assert(number_of(ask.timeout_at_ms as int) == fields[9].1);
    assert(number_of(created_at_ms as int) == fields[10].1);
    if let Some(options) = optional_texts(ask.options) {
        lemma_texts_are_plain(options, depth);
    }
    if let Some(form) = optional_form(ask.questions) {
        let document = form_document(Some(form));
        assert forall|i: int| 0 <= i < document->Array_0.len() implies plain(
            #[trigger] document->Array_0[i],
            (depth - 1) as nat,
        ) by {
            let parts = question_fields(form[i]);
            lemma_question_names(form[i]);
            lemma_texts_are_plain(form[i].options, (depth - 2) as nat);
            assert forall|k: int| 0 <= k < parts.len() implies plain(
                (#[trigger] parts[k]).1,
                (depth - 2) as nat,
            ) by {
                if k == 0 {
                    assert(parts[k].1 is Str || parts[k].1 is Null);
                } else if k < 3 {
                    assert(parts[k].1 is Str || parts[k].1 is Bool);
                }
            }
            lemma_plain_fields(parts, (depth - 2) as nat);
        }
    }
    assert forall|k: int| 0 <= k < fields.len() implies plain((#[trigger] fields[k]).1, depth) by {
        if k != 4 && k != 5 && k < 9 {
            assert(fields[k].1 is Str || fields[k].1 is Null || fields[k].1 is Bool);
        }
    }
    lemma_plain_fields(fields, depth);
}

/// The fields of what is written down of a question.
pub proof fn lemma_ask_document_fields(ask: PendingAsk, created_at_ms: u64)
    ensures
        forall|i: int|
            0 <= i < 11 ==> ask_document(ask, created_at_ms).field(
                (#[trigger] ask_fields(ask, created_at_ms)[i]).0,
            ) == Some(ask_fields(ask, created_at_ms)[i].1),
{
    let fields = ask_fields(ask, created_at_ms);
    reveal_strlit("id");
    reveal_strlit("sessionId");
    reveal_strlit("project");
    reveal_strlit("question");
    reveal_strlit("options");
    reveal_strlit("questions");
    reveal_strlit("detail");
    reveal_strlit("context");
    reveal_strlit("persistent");
    reveal_strlit("timeoutAtMs");
    reveal_strlit("createdAtMs");
    assert forall|i: int, j: int| 0 <= j < i < 11 implies (#[trigger] fields[i]).0 != (
    #[trigger] fields[j]).0 by {
        assert(fields[i].0.len() != fields[j].0.len() || fields[i].0[0] != fields[j].0[0]);
    }
    assert forall|i: int| 0 <= i < 11 implies ask_document(ask, created_at_ms).field(
        (#[trigger] fields[i]).0,
    ) == Some(fields[i].1) by {
        lemma_object_field(fields, i);
    }
}

fn question_document_of(q: &AskQuestion) -> (out: Json)
    ensures
        out@ == question_document(q@),
{
    let mut fields: Vec<(String, Json)> = Vec::new();
    fields.push(("header".to_owned(), optional_text_json(&q.header)));
    fields.push(("question".to_owned(), text(q.question.as_str())));
    fields.push(("multiSelect".to_owned(), Json::Bool(q.multi_select)));
    fields.push(("options".to_owned(), texts_json(&q.options)));
    proof {
        assert(pairs(fields@) =~= question_fields(q@));
    }
    object(fields)
}

fn form_document_of(form: &Option<Vec<AskQuestion>>) -> (out: Json)
    ensures
        out@ == form_document(optional_form(*form)),
{
    match form {
        Some(q) => {
            let mut items: Vec<Json> = Vec::new();
            let mut i: usize = 0;
            while i < q.len()
                invariant
                    i <= q@.len(),
                    items@.len() == i,
                    forall|j: int| 0 <= j < i ==> (#[trigger] items@[j])@ == question_document(q@[j]@),
                decreases q.len() - i,
            {
                items.push(question_document_of(&q[i]));
                i = i + 1;
            }
            proof {
                let shown = form_view(q@);
                assert(array_view(items@) =~= Seq::new(
                    shown.len(),
                    |j: int| question_document(shown[j]),
                ));
            }
            Json::Array(items)
        },
        None => Json::Null,
    }
}

fn options_document_of(options: &Option<Vec<String>>) -> (out: Json)
    ensures
        out@ == options_document(optional_texts(*options)),
{
    match options {
        Some(o) => texts_json(o),
        None => Json::Null,
    }
}

/// A question as a document.
pub fn ask_to_document(ask: &PendingAsk, created_at_ms: u64) -> (out: Json)
    ensures
        out@ == ask_document(*ask, created_at_ms),
{
    let mut fields: Vec<(String, Json)> = Vec::new();
    fields.push(("id".to_owned(), text(ask.id.as_str())));
    fields.push(("sessionId".to_owned(), optional_text_json(&ask.session_id)));
    fields.push(("project".to_owned(), optional_text_json(&ask.project)));
    fields.push(("question".to_owned(), text(ask.question.as_str())));
    fields.push(("options".to_owned(), options_document_of(&ask.options)));
    fields.push(("questions".to_owned(), form_document_of(&ask.questions)));
    fields.push(("detail".to_owned(), optional_text_json(&ask.detail)));
    fields.push(("context".to_owned(), optional_text_json(&ask.context)));
    fields.push(("persistent".to_owned(), Json::Bool(ask.persistent)));
    fields.push(("timeoutAtMs".to_owned(), number(ask.timeout_at_ms)));
    fields.push(("createdAtMs".to_owned(), number(created_at_ms)));
    proof {
        assert(pairs(fields@) =~= ask_fields(*ask, created_at_ms));
    }
    object(fields)
}

/// The text of a question's file, which reads back as the question's document.
pub fn ask_file_text(ask: &PendingAsk, created_at_ms: u64) -> (out: String)
    ensures
        out@ == pretty_text(ask_document(*ask, created_at_ms)),
        parsed_text(out@) == Some(ask_document(*ask, created_at_ms)),
{
    proof {
        lemma_ask_document_is_plain(*ask, created_at_ms);
    }
    pretty(&ask_to_document(ask, created_at_ms))
}

} // verus!
