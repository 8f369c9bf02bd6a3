//! The sessions as the engine sees them: which one an agent belongs to, and
//! whether the user is looking at it.

use crate::foreground::{in_front, session_is_foreground};
use crate::ipc::{SessionRow, SessionStatus};
use crate::lists::{find_first, first_where};
use crate::paths::{base_name, basename, paths_eq, same_place};
use crate::text::{copy_optional_text, optional_str, optional_text, same_text, trim, trimmed};
use vstd::prelude::*;

verus! {

/// What the engine holds a session to be doing.
#[derive(Clone, Copy, Debug, PartialEq, Eq, Structural)]
pub enum EngineStatus {
    Working,
    WaitingWorkflow,
    Attention,
    Idle,
    Dead,
}

/// A session as the engine sees it.
#[derive(Clone, Debug)]
pub struct SessionView {
    pub id: String,
    pub project: String,
    pub title: String,
    pub branch: Option<String>,
    pub status: EngineStatus,
    pub inferred: bool,
    pub since_ms: u64,
    pub cwd: String,
    pub subagents: u32,
    pub age_ms: Option<u64>,
    pub work_started_ms: Option<u64>,
    pub last_work_ms: Option<u64>,
    pub pid: Option<u32>,
}

/// The status that is shown for what the engine holds.
pub open spec fn shown_status(status: EngineStatus) -> SessionStatus {
    match status {
        EngineStatus::Working => SessionStatus::Working,
        EngineStatus::WaitingWorkflow => SessionStatus::WaitingWorkflow,
        EngineStatus::Attention => SessionStatus::Attention,
        EngineStatus::Idle => SessionStatus::Idle,
        EngineStatus::Dead => SessionStatus::Dead,
    }
}

/// The status that is shown for what the engine holds.
pub fn map_status(status: EngineStatus) -> (out: SessionStatus)
    ensures
        out == shown_status(status),
{
    match status {
        EngineStatus::Working => SessionStatus::Working,
        EngineStatus::WaitingWorkflow => SessionStatus::WaitingWorkflow,
        EngineStatus::Attention => SessionStatus::Attention,
        EngineStatus::Idle => SessionStatus::Idle,
        EngineStatus::Dead => SessionStatus::Dead,
    }
}

/// Whether `row` shows the session `view`, the tokens that it used left aside.
pub open spec fn shows_session(row: SessionRow, view: SessionView) -> bool {
    &&& row.id@ == view.id@
    &&& row.project@ == view.project@
    &&& row.title@ == view.title@
    &&& optional_text(row.branch) == optional_text(view.branch)
    &&& row.status == shown_status(view.status)
    &&& row.inferred == view.inferred
    &&& row.since_ms == view.since_ms
    &&& row.cwd@ == view.cwd@
    &&& row.subagents == view.subagents
    &&& row.age_ms == view.age_ms
    &&& row.work_started_ms == view.work_started_ms
    &&& row.last_work_ms == view.last_work_ms
    &&& row.pid == view.pid
}

/// Whether `row` shows no tokens.
pub open spec fn shows_no_tokens(row: SessionRow) -> bool {
    row.ctx_percent is None && row.spend is None && !row.spend_approx && row.subagent_spend is None
}

/// The row for a session, without the tokens that it used.
pub fn map_row(view: &SessionView) -> (row: SessionRow)
    ensures
        shows_session(row, *view),
        shows_no_tokens(row),
{
    SessionRow {
        id: view.id.clone(),
        project: view.project.clone(),
        title: view.title.clone(),
        branch: copy_optional_text(&view.branch),
        status: map_status(view.status),
        inferred: view.inferred,
        since_ms: view.since_ms,
        cwd: view.cwd.clone(),
        subagents: view.subagents,
        age_ms: view.age_ms,
        work_started_ms: view.work_started_ms,
        last_work_ms: view.last_work_ms,
        ctx_percent: None,
        spend: None,
        spend_approx: false,
        subagent_spend: None,
        pid: view.pid,
    }
}

// ---------------------------------------------------------------------------
// Which session an agent belongs to.
// ---------------------------------------------------------------------------

/// Whether the session runs at `place`.
pub open spec fn runs_at(view: SessionView, place: Seq<char>, ignore_case: bool) -> bool {
    view.cwd@.len() > 0 && same_place(view.cwd@, place, ignore_case)
}

/// Whether the session runs in a directory of this name.
pub open spec fn runs_in(view: SessionView, name: Seq<char>, ignore_case: bool) -> bool {
    view.cwd@.len() > 0 && same_place(base_name(view.cwd@), name, ignore_case)
}

/// The session of an agent that runs at `context`: the first that runs there, or
/// else the first that runs in a directory of the same name.
pub open spec fn session_at(
    views: Seq<SessionView>,
    context: Option<Seq<char>>,
    ignore_case: bool,
) -> Option<int> {
    match context {
        Some(c) => {
            let place = trimmed(c);
            if place.len() == 0 {
                None
            } else {
                match first_where(views, |v: SessionView| runs_at(v, place, ignore_case)) {
                    Some(i) => Some(i),
                    None => first_where(
                        views,
                        |v: SessionView| runs_in(v, base_name(place), ignore_case),
                    ),
                }
            }
        },
        None => None,
    }
}

/// Whether `id` and `project` are those of the session at `found`, or both
/// missing where there is none.
pub open spec fn names_session(
    views: Seq<SessionView>,
    found: Option<int>,
    id: Option<Seq<char>>,
    project: Option<Seq<char>>,
) -> bool {
    match found {
        Some(i) => 0 <= i < views.len() && id == Some(views[i].id@) && project == Some(
            views[i].project@,
        ),
        None => id is None && project is None,
    }
}

/// The id and the project of the session of an agent that runs at `context`.
pub fn match_session(views: &Vec<SessionView>, context: Option<&str>, ignore_case: bool) -> (out: (
    Option<String>,
    Option<String>,
))
    ensures
        names_session(
            views@,
            session_at(
                views@,
                optional_str(context),
                ignore_case,
            ),
            optional_text(out.0),
            optional_text(out.1),
        ),
{
    let place: String = match context {
        Some(c) => trim(c),
        None => {
            return (None, None);
        },
    };
    if place.as_str().is_empty() {
        return (None, None);
    }
    let at = |v: &SessionView| -> (b: bool)
        ensures
            b == runs_at(*v, place@, ignore_case),
        { !v.cwd.as_str().is_empty() && paths_eq(v.cwd.as_str(), place.as_str(), ignore_case) };
    if let Some(i) = find_first(
        views,
        at,
        Ghost(|v: SessionView| runs_at(v, place@, ignore_case)),
    ) {
        return (Some(views[i].id.clone()), Some(views[i].project.clone()));
    }
    let base = basename(place.as_str());
    let within = |v: &SessionView| -> (b: bool)
        ensures
            b == runs_in(*v, base@, ignore_case),
        {
            !v.cwd.as_str().is_empty() && paths_eq(
                basename(v.cwd.as_str()).as_str(),
                base.as_str(),
                ignore_case,
            )
        };
    match find_first(
        views,
        within,
        Ghost(|v: SessionView| runs_in(v, base_name(place@), ignore_case)),
    ) {
        Some(i) => (Some(views[i].id.clone()), Some(views[i].project.clone())),
        None => (None, None),
    }
}

/// What the hook says of a permission request.
#[derive(Clone, Debug)]
pub struct PermFileRecord {
    pub tool_name: String,
    pub tool_input: String,
    pub session_id: Option<String>,
    pub cwd: Option<String>,
}

/// The trimmed text, where something is left of it.
pub open spec fn given(s: Option<Seq<char>>) -> Option<Seq<char>> {
    match s {
        Some(x) => if trimmed(x).len() == 0 {
            None
        } else {
            Some(trimmed(x))
        },
        None => None,
    }
}

fn given_of(s: &Option<String>) -> (out: Option<String>)
    ensures
        optional_text(out) == given(optional_text(*s)),
{
    match s {
        Some(x) => {
            let t = trim(x.as_str());
            if t.as_str().is_empty() {
                None
            } else {
                Some(t)
            }
        },
        None => None,
    }
}

/// Whether the session has this id.
pub open spec fn has_id(view: SessionView, id: Seq<char>) -> bool {
    view.id@ == id
}

/// The session with this id.
pub open spec fn session_with_id(views: Seq<SessionView>, id: Option<Seq<char>>) -> Option<int> {
    match id {
        Some(x) => first_where(views, |v: SessionView| has_id(v, x)),
        None => None,
    }
}

/// The first session that runs at this place.
pub open spec fn session_running_at(
    views: Seq<SessionView>,
    place: Option<Seq<char>>,
    ignore_case: bool,
) -> Option<int> {
    match place {
        Some(x) => first_where(views, |v: SessionView| runs_at(v, x, ignore_case)),
        None => None,
    }
}

/// The session of a permission request: the one with the id that it names, or
/// else the first that runs where it came from.
pub open spec fn perm_session(
    views: Seq<SessionView>,
    rec: PermFileRecord,
    ignore_case: bool,
) -> Option<int> {
    match session_with_id(views, given(optional_text(rec.session_id))) {
        Some(i) => Some(i),
        None => session_running_at(views, given(optional_text(rec.cwd)), ignore_case),
    }
}

/// The id and the project of the session of a permission request; and, where it
/// has none, the place that it came from.
pub fn match_perm_session(
    views: &Vec<SessionView>,
    rec: &PermFileRecord,
    ignore_case: bool,
) -> (out: (Option<String>, Option<String>, Option<String>))
    ensures
        names_session(
            views@,
            perm_session(views@, *rec, ignore_case),
            optional_text(out.0),
            optional_text(out.1),
        ),
        optional_text(out.2) == if perm_session(views@, *rec, ignore_case) is Some {
            None
        } else {
            given(optional_text(rec.cwd))
        },
{
    if let Some(sid) = given_of(&rec.session_id) {
        let named = |v: &SessionView| -> (b: bool)
            ensures
                b == has_id(*v, sid@),
            { same_text(v.id.as_str(), sid.as_str()) };
        if let Some(i) = find_first(views, named, Ghost(|v: SessionView| has_id(v, sid@))) {
            return (Some(views[i].id.clone()), Some(views[i].project.clone()), None);
        }
    }
    if let Some(cwd) = given_of(&rec.cwd) {
        let at = |v: &SessionView| -> (b: bool)
            ensures
                b == runs_at(*v, cwd@, ignore_case),
            { !v.cwd.as_str().is_empty() && paths_eq(v.cwd.as_str(), cwd.as_str(), ignore_case) };
        if let Some(i) = find_first(
            views,
            at,
            Ghost(|v: SessionView| runs_at(v, cwd@, ignore_case)),
        ) {
            return (Some(views[i].id.clone()), Some(views[i].project.clone()), None);
        }
        return (None, None, Some(cwd));
    }
    (None, None, None)
}

/// A session that runs exactly where an agent says it is wins over every session
/// that merely runs in a directory of the same name.
pub proof fn law_exact_place_wins(
    views: Seq<SessionView>,
    context: Seq<char>,
    ignore_case: bool,
    i: int,
)
    requires
        0 <= i < views.len(),
        trimmed(context).len() > 0,
        runs_at(views[i], trimmed(context), ignore_case),
    ensures
        session_at(views, Some(context), ignore_case) matches Some(k) && 0 <= k <= i && runs_at(
            views[k],
            trimmed(context),
            ignore_case,
        ),
{
    crate::lists::lemma_first_where(
        views,
        |v: SessionView| runs_at(v, trimmed(context), ignore_case),
    );
}

// ---------------------------------------------------------------------------
// Whether the user looks at a session's terminal.
// ---------------------------------------------------------------------------

/// The processes of a session's terminal.
#[derive(Clone, Debug)]
pub struct Terminal {
    pub session_id: String,
    pub pids: Vec<u32>,
}

/// Whether the terminal is that of the session.
pub open spec fn terminal_of(t: Terminal, session_id: Seq<char>) -> bool {
    t.session_id@ == session_id
}

/// The processes of the terminal of the session `session_id`; none where it is
/// not known.
pub open spec fn pids_of(terminals: Seq<Terminal>, session_id: Seq<char>) -> Seq<u32> {
    match first_where(terminals, |t: Terminal| terminal_of(t, session_id)) {
        Some(i) => terminals[i].pids@,
        None => Seq::empty(),
    }
}

/// The processes of the terminal of the session `session_id`.
pub fn session_terminal_pids(terminals: &Vec<Terminal>, session_id: &str) -> (out: Vec<u32>)
    ensures
        out@ == pids_of(terminals@, session_id@),
{
    let same = |t: &Terminal| -> (b: bool)
        ensures
            b == terminal_of(*t, session_id@),
        { same_text(t.session_id.as_str(), session_id) };
    match find_first(terminals, same, Ghost(|t: Terminal| terminal_of(t, session_id@))) {
        Some(i) => copy_pids(&terminals[i].pids),
        None => Vec::new(),
    }
}

/// A copy of some process ids.
pub fn copy_pids(pids: &Vec<u32>) -> (out: Vec<u32>)
    ensures
        out@ == pids@,
{
    let mut out: Vec<u32> = Vec::new();
    let mut i: usize = 0;
    while i < pids.len()
        invariant
            i <= pids@.len(),
            out@ == pids@.take(i as int),
        decreases pids.len() - i,
    {
        out.push(pids[i]);
        i = i + 1;
        proof {
            assert(pids@.take(i as int) =~= pids@.take(i - 1).push(pids@[i - 1]));
        }
    }
    proof {
        assert(pids@.take(pids@.len() as int) =~= pids@);
    }
    out
}

/// Whether the terminal of a session is in front. Without a session there is no
/// terminal.
pub open spec fn session_in_front(
    session_id: Option<Seq<char>>,
    terminals: Seq<Terminal>,
    foreground: Seq<u32>,
) -> bool {
    match session_id {
        Some(id) => in_front(pids_of(terminals, id), foreground),
        None => false,
    }
}

/// Whether it takes a look at the window in front to tell if a session's
/// terminal is it: only where a process of the terminal is known.
pub fn needs_foreground(session_id: Option<&str>, terminals: &Vec<Terminal>) -> (out: bool)
    ensures
        out == (session_id matches Some(id) && pids_of(terminals@, id@).len() > 0),
{
    match session_id {
        Some(id) => session_terminal_pids(terminals, id).len() > 0,
        None => false,
    }
}

/// A session without a known process is not in front, whatever is.
pub proof fn law_unknown_terminal_is_not_in_front(
    session_id: Seq<char>,
    terminals: Seq<Terminal>,
    foreground: Seq<u32>,
)
    requires
        pids_of(terminals, session_id).len() == 0,
    ensures
        !session_in_front(Some(session_id), terminals, foreground),
        !session_in_front(None, terminals, foreground),
{
}

/// Whether the terminal of a session is in front.
pub fn session_foreground(
    session_id: Option<&str>,
    terminals: &Vec<Terminal>,
    foreground: &Vec<u32>,
) -> (out: bool)
    ensures
        out == session_in_front(
            optional_str(session_id),
            terminals@,
            foreground@,
        ),
{
    match session_id {
        Some(id) => {
            let pids = session_terminal_pids(terminals, id);
            session_is_foreground(pids.as_slice(), foreground.as_slice())
        },
        None => false,
    }
}

/// The processes that were in front when last looked, and when that was.
#[derive(Clone, Debug)]
pub struct ForegroundSample {
    pub at_ms: u64,
    pub pids: Vec<u32>,
}

/// The processes that were in front when last looked, unless that was longer ago
/// than `max_age_ms`.
pub fn cached_foreground(cache: &Option<ForegroundSample>, now: u64, max_age_ms: u64) -> (out:
    Option<Vec<u32>>)
    ensures
        match out {
            Some(pids) => cache matches Some(sample) && now - sample.at_ms <= max_age_ms && pids@
                == sample.pids@,
            None => cache is None || now - cache->Some_0.at_ms > max_age_ms,
        },
{
    match cache {
        Some(sample) => if now.saturating_sub(sample.at_ms) <= max_age_ms {
            Some(copy_pids(&sample.pids))
        } else {
            None
        },
        None => None,
    }
}

} // verus!
