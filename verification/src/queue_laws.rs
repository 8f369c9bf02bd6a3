//! What each operation does to the questions that wait, call by call.

use crate::deck::{
    ask_file_text, ask_named, ask_to_row, clear_note, lemma_ask_document_fields, recover_ask_file,
    settle, toast_project, AnswerFile, AnswerStep, AskFileRecord, Deck, Dismissed, EngineNote,
    FileRead, PendingAsk, RecoverStep, ShellPerm, Submission,
};
use crate::deck_laws::{law_gone_sessions_leave_no_asks, law_gone_sessions_leave_no_perms};
use crate::files::law_stem_names_the_file;
use crate::ipc::{optional_form, AskAnswerKind, AskRow};
use crate::json::{number_of, parsed_text, JsonView};
use crate::lists::{lemma_filtered_from, lemma_filtered_keeps, lemma_first_where, lemma_is_first};
use crate::mcp_server::AskRequest;
use crate::notify::ToastKind;
use crate::paths::base_name;
use crate::sessions::{match_session, SessionView};
use crate::text::{decimal, optional_text, optional_texts, texts};
use vstd::prelude::*;

verus! {

/// Whether the question at `i` is the first with this id.
pub open spec fn first_with(asks: Seq<PendingAsk>, id: Seq<char>, i: int) -> bool {
    &&& 0 <= i < asks.len()
    &&& asks[i].id@ == id
    &&& forall|j: int| 0 <= j < i ==> (#[trigger] asks[j]).id@ != id
}

/// Whether no question has this id.
pub open spec fn none_with(asks: Seq<PendingAsk>, id: Seq<char>) -> bool {
    forall|j: int| 0 <= j < asks.len() ==> (#[trigger] asks[j]).id@ != id
}

proof fn lemma_first_with(asks: Seq<PendingAsk>, id: Seq<char>, i: int)
    ensures
        first_with(asks, id, i) ==> crate::deck::ask_at(asks, id) == Some(i),
        none_with(asks, id) ==> crate::deck::ask_at(asks, id) is None,
{
    let named = |a: PendingAsk| ask_named(a, id);
    if first_with(asks, id, i) {
        lemma_is_first(asks, named, i);
    }
    if none_with(asks, id) {
        lemma_first_where(asks, named);
    }
}

/// A question that was put stands behind all others, as it was put, and is shown so: the
/// same text, options, form and details, the time at which it came, and the time at which
/// it expires, which is its time limit later, or none without a limit. Where it came from
/// is shown only where its session is not known.
pub proof fn law_a_question_is_shown_as_it_was_put(
    deck: &mut Deck,
    req: AskRequest,
    views: &Vec<SessionView>,
    now: u64,
    seq: u64,
    ignore_case: bool,
    out: Submission,
    ask: &PendingAsk,
    row: AskRow,
)
    requires
        call_ensures(Deck::submit_ask, (deck, req, views, now, seq, ignore_case), out),
        mut_ref_future(deck).asks@.len() > 0,
        *ask == mut_ref_future(deck).asks@.last(),
        call_ensures(ask_to_row, (ask,), row),
    ensures
        mut_ref_future(deck).asks@.drop_last() == mut_ref_current(deck).asks@,
        mut_ref_future(deck).perms == mut_ref_current(deck).perms,
        row.id@ == "ask-"@ + decimal(now as nat) + "-"@ + decimal(seq as nat),
        out.ask_id@ == row.id@,
        row.question@ == req.question@,
        optional_texts(row.options) == optional_texts(req.options),
        optional_form(row.questions) == optional_form(req.questions),
        optional_text(row.detail) == optional_text(req.detail),
        row.queued_at == now,
        !row.orphaned,
        req.timeout_seconds is None ==> row.timeout_at is None,
        req.timeout_seconds matches Some(secs) ==> now + secs * 1000 <= u64::MAX ==> (
        row.timeout_at matches Some(t) && t == now + secs * 1000),
        optional_text(ask.context) == optional_text(req.context),
        optional_text(row.context) == if row.session_id is None {
            optional_text(req.context)
        } else {
            None
        },
        optional_text(row.session_id) == optional_text(out.session_id),
{
}

/// A question is put down to the session that its context leads to, which is then told
/// that it waits; the toast speaks of the session's project, or else of the place, and
/// shows the question.
pub proof fn law_a_question_belongs_to_its_session(
    deck: &mut Deck,
    req: AskRequest,
    views: &Vec<SessionView>,
    now: u64,
    seq: u64,
    ignore_case: bool,
    out: Submission,
    context: Option<&str>,
    found: (Option<String>, Option<String>),
)
    requires
        call_ensures(Deck::submit_ask, (deck, req, views, now, seq, ignore_case), out),
        optional_text(req.context) == match context {
            Some(c) => Some(c@),
            None => None,
        },
        call_ensures(match_session, (views, context, ignore_case), found),
    ensures
        optional_text(out.session_id) == optional_text(found.0),
        optional_text(mut_ref_future(deck).asks@.last().session_id) == optional_text(found.0),
        optional_text(mut_ref_future(deck).asks@.last().project) == optional_text(found.1),
        found.0 matches Some(id) ==> (out.note matches Some(EngineNote::Pending(i)) && i@ == id@),
        found.0 is None ==> out.note is None,
        out.toast.kind == ToastKind::Ask,
        out.toast.session_id@ == out.ask_id@,
        out.toast.detail@ == req.question@,
        out.toast.assistant_body is None,
        found.1 matches Some(p) ==> out.toast.project@ == p@,
        found.1 is None ==> (req.context matches Some(c) ==> out.toast.project@ == base_name(c@)),
        found.1 is None && req.context is None ==> out.toast.project@ == "Agent"@,
{
}

/// After a revision the question has the text, the options and the details that were
/// given, each where something was given; an empty list of options or empty details take
/// them away; what was not given stays, as does all else of it, its place, and every
/// other question. Where there is no such question, or nobody waits for it, nothing
/// changes.
pub proof fn law_a_revision_is_taken(
    deck: &mut Deck,
    ask_id: &str,
    question: Option<String>,
    options: Option<Vec<String>>,
    detail: Option<String>,
    out: bool,
    i: int,
)
    requires
        call_ensures(Deck::update_ask, (deck, ask_id, question, options, detail), out),
    ensures
        none_with(mut_ref_current(deck).asks@, ask_id@) ==> !out && mut_ref_future(deck).asks@
            == mut_ref_current(deck).asks@,
        mut_ref_future(deck).perms == mut_ref_current(deck).perms,
        first_with(mut_ref_current(deck).asks@, ask_id@, i) ==> {
            let before = mut_ref_current(deck).asks@;
            let after = mut_ref_future(deck).asks@;
            if before[i].orphaned {
                !out && after == before
            } else {
                &&& out
                &&& after.len() == before.len()
                &&& forall|k: int| 0 <= k < before.len() && k != i ==> #[trigger] after[k] == before[k]
                &&& match question {
                    Some(q) => after[i].question@ == if q@.len() > 0 {
                        q@
                    } else {
                        before[i].question@
                    },
                    None => after[i].question@ == before[i].question@,
                }
                &&& match options {
                    Some(o) => if o@.len() > 0 {
                        after[i].options matches Some(p) && texts(p@) == texts(o@)
                    } else {
                        after[i].options is None
                    },
                    None => optional_texts(after[i].options) == optional_texts(before[i].options),
                }
                &&& match detail {
                    Some(d) => if d@.len() > 0 {
                        after[i].detail matches Some(e) && e@ == d@
                    } else {
                        after[i].detail is None
                    },
                    None => optional_text(after[i].detail) == optional_text(before[i].detail),
                }
                &&& after[i].id == before[i].id
                &&& after[i].session_id == before[i].session_id
                &&& after[i].project == before[i].project
                &&& after[i].questions == before[i].questions
                &&& after[i].context == before[i].context
                &&& after[i].enqueued_ms == before[i].enqueued_ms
                &&& after[i].timeout_at_ms == before[i].timeout_at_ms
                &&& after[i].persistent == before[i].persistent
                &&& !after[i].orphaned
            }
        },
{
    lemma_first_with(mut_ref_current(deck).asks@, ask_id@, i);
    if let Some(o) = options {
        assert(texts(o@).len() == o@.len());
    }
}

/// After a revision the row of the question shows what was given.
pub proof fn law_a_revision_is_shown(
    deck: &mut Deck,
    ask_id: &str,
    question: Option<String>,
    options: Option<Vec<String>>,
    detail: Option<String>,
    i: int,
    ask: &PendingAsk,
    row: AskRow,
)
    requires
        call_ensures(Deck::update_ask, (deck, ask_id, question, options, detail), true),
        first_with(mut_ref_current(deck).asks@, ask_id@, i),
        *ask == mut_ref_future(deck).asks@[i],
        call_ensures(ask_to_row, (ask,), row),
    ensures
        row.id@ == ask_id@,
        question matches Some(q) ==> q@.len() > 0 ==> row.question@ == q@,
        options matches Some(o) ==> o@.len() > 0 ==> (row.options matches Some(p) && texts(p@)
            == texts(o@)),
        options matches Some(o) ==> o@.len() == 0 ==> row.options is None,
        detail matches Some(d) ==> d@.len() > 0 ==> (row.detail matches Some(e) && e@ == d@),
        detail matches Some(d) ==> d@.len() == 0 ==> row.detail is None,
{
    law_a_revision_is_taken(deck, ask_id, question, options, detail, true, i);
}

/// Taking a question back takes out the question with that id, which is handed back with
/// the word that its session waits no longer; all others stay. Without such a question
/// nothing changes.
pub proof fn law_a_cancelled_question_is_out(
    deck: &mut Deck,
    ask_id: &str,
    out: Option<(PendingAsk, Option<EngineNote>)>,
    i: int,
)
    requires
        call_ensures(Deck::cancel_ask, (deck, ask_id), out),
    ensures
        none_with(mut_ref_current(deck).asks@, ask_id@) ==> out is None && mut_ref_future(deck).asks@
            == mut_ref_current(deck).asks@,
        mut_ref_future(deck).perms == mut_ref_current(deck).perms,
        first_with(mut_ref_current(deck).asks@, ask_id@, i) ==> {
            &&& out matches Some((ask, note)) && ask == mut_ref_current(deck).asks@[i] && match ask.session_id {
                Some(s) => note matches Some(EngineNote::Cleared(t)) && t@ == s@,
                None => note is None,
            }
            &&& mut_ref_future(deck).asks@ == mut_ref_current(deck).asks@.remove(i)
        },
{
    lemma_first_with(mut_ref_current(deck).asks@, ask_id@, i);
}

/// An answer in the file named after a question is handed on to that question, with the
/// user's words and how they were given, and the question is out; an answer to no question
/// is thrown away; what cannot be read is put aside; and other files are left alone. In
/// all but the first case nothing changes.
pub proof fn law_an_answer_goes_to_its_question(
    deck: &mut Deck,
    file_name: &str,
    read: FileRead<AnswerFile>,
    out: AnswerStep,
    id: Seq<char>,
    i: int,
)
    requires
        call_ensures(Deck::resolve_answer, (deck, file_name, read), out),
        id.len() > 0,
        file_name@ == id + ".json"@,
    ensures
        mut_ref_future(deck).perms == mut_ref_current(deck).perms,
        !(read is Parsed) ==> out is Quarantine && mut_ref_future(deck).asks@ == mut_ref_current(
            deck,
        ).asks@,
        read is Parsed && none_with(mut_ref_current(deck).asks@, id) ==> out is Discard
            && mut_ref_future(deck).asks@ == mut_ref_current(deck).asks@,
        read matches FileRead::Parsed(file) ==> first_with(mut_ref_current(deck).asks@, id, i) ==> {
            &&& out matches AnswerStep::Deliver { ask, answer } && ask == mut_ref_current(deck).asks@[i]
                && answer.answer@ == file.answer@ && answer.kind == file.kind
            &&& mut_ref_future(deck).asks@ == mut_ref_current(deck).asks@.remove(i)
        },
{
    law_stem_names_the_file(id);
    lemma_first_with(mut_ref_current(deck).asks@, id, i);
}

/// A file whose name does not end in `.json`, or is nothing else, is no answer.
pub proof fn law_other_files_are_no_answers(
    deck: &mut Deck,
    file_name: &str,
    read: FileRead<AnswerFile>,
    out: AnswerStep,
)
    requires
        call_ensures(Deck::resolve_answer, (deck, file_name, read), out),
        file_name@ == ".json"@ || file_name@.len() < 5 || file_name@.skip(file_name@.len() - 5)
            != ".json"@,
    ensures
        out is Ignore,
        mut_ref_future(deck).asks@ == mut_ref_current(deck).asks@,
{
    reveal_strlit(".json");
    assert(".json"@.len() == 5);
    assert(".json"@.take(0) =~= Seq::empty());
}

/// A session that was answered is told so only where an answer reached its agent; in all
/// other cases it is told that it waits no longer; and where there is no session nobody is
/// told anything.
pub proof fn law_only_delivered_answers_count(
    session_id: &Option<String>,
    kind: AskAnswerKind,
    delivered: bool,
    out: Option<EngineNote>,
    cleared: Option<EngineNote>,
)
    requires
        call_ensures(settle, (session_id, kind, delivered), out),
        call_ensures(clear_note, (session_id,), cleared),
    ensures
        *session_id is None ==> out is None && cleared is None,
        *session_id matches Some(id) ==> (cleared matches Some(EngineNote::Cleared(c)) && c@ == id@),
        *session_id matches Some(id) ==> if delivered && (kind == AskAnswerKind::Option || kind
            == AskAnswerKind::Text || kind == AskAnswerKind::Form) {
            out matches Some(EngineNote::Answered(a)) && a@ == id@
        } else {
            out matches Some(EngineNote::Cleared(c)) && c@ == id@
        },
{
}

/// A sweep takes out the questions whose time is over, and leaves those that never expire,
/// those that nobody waits for, and those whose time is not over.
pub proof fn law_a_sweep_takes_what_is_over(
    deck: &mut Deck,
    now: u64,
    out: Vec<PendingAsk>,
    i: int,
)
    requires
        call_ensures(Deck::sweep_expired_asks, (deck, now), out),
        0 <= i < mut_ref_current(deck).asks@.len(),
    ensures
        mut_ref_future(deck).perms == mut_ref_current(deck).perms,
        ({
            let ask = mut_ref_current(deck).asks@[i];
            if ask.persistent || ask.orphaned || now < ask.timeout_at_ms {
                mut_ref_future(deck).asks@.contains(ask)
            } else {
                out@.contains(ask)
            }
        }),
        forall|k: int|
            0 <= k < out@.len() ==> !(#[trigger] out@[k]).persistent && !out@[k].orphaned && now
                >= out@[k].timeout_at_ms,
        forall|k: int|
            0 <= k < mut_ref_future(deck).asks@.len() ==> ({
                let ask = #[trigger] mut_ref_future(deck).asks@[k];
                ask.persistent || ask.orphaned || now < ask.timeout_at_ms
            }),
        out@.len() + mut_ref_future(deck).asks@.len() == mut_ref_current(deck).asks@.len(),
        out@ == mut_ref_current(deck).asks@.filter(
            |a: PendingAsk| !(a.persistent || a.orphaned || now < a.timeout_at_ms),
        ),
        mut_ref_future(deck).asks@ == mut_ref_current(deck).asks@.filter(
            |a: PendingAsk| a.persistent || a.orphaned || now < a.timeout_at_ms,
        ),
{
    let asks = mut_ref_current(deck).asks@;
    let over = |a: PendingAsk| crate::deck::ask_expired(a, now);
    crate::lists::lemma_same_filter(
        asks,
        over,
        |a: PendingAsk| !(a.persistent || a.orphaned || now < a.timeout_at_ms),
    );
    crate::lists::lemma_same_filter(
        asks,
        |a: PendingAsk| !over(a),
        |a: PendingAsk| a.persistent || a.orphaned || now < a.timeout_at_ms,
    );
    let kept = |a: PendingAsk| !over(a);
    crate::deck_laws::law_sweep_is_exact(asks, now, out@, mut_ref_future(deck).asks@);
    if over(asks[i]) {
        let k = lemma_filtered_keeps(asks, over, i);
    } else {
        let k = lemma_filtered_keeps(asks, kept, i);
    }
    assert forall|k: int| 0 <= k < out@.len() implies !(#[trigger] out@[k]).persistent
        && !out@[k].orphaned && now >= out@[k].timeout_at_ms by {
        assert(crate::deck::ask_expired(out@[k], now));
    }
    assert forall|k: int| 0 <= k < mut_ref_future(deck).asks@.len() implies ({
        let ask = #[trigger] mut_ref_future(deck).asks@[k];
        ask.persistent || ask.orphaned || now < ask.timeout_at_ms
    }) by {
        assert(!crate::deck::ask_expired(mut_ref_future(deck).asks@[k], now));
    }
}

/// A sweep of permission requests takes out those that came ninety seconds ago or more,
/// and leaves the others.
pub proof fn law_prompts_live_for_ninety_seconds(
    deck: &mut Deck,
    now: u64,
    out: Vec<ShellPerm>,
    i: int,
)
    requires
        call_ensures(Deck::sweep_expired_perms, (deck, now), out),
        0 <= i < mut_ref_current(deck).perms@.len(),
    ensures
        mut_ref_future(deck).asks == mut_ref_current(deck).asks,
        ({
            let perm = mut_ref_current(deck).perms@[i];
            if perm.received_ms + 90_000 <= now {
                out@.contains(perm)
            } else {
                now < u64::MAX ==> mut_ref_future(deck).perms@.contains(perm)
            }
        }),
        forall|k: int|
            0 <= k < out@.len() ==> now == u64::MAX || (#[trigger] out@[k]).received_ms + 90_000
                <= now,
        out@ == mut_ref_current(deck).perms@.filter(
            |p: ShellPerm| p.received_ms + 90_000 <= now || now == u64::MAX,
        ),
        mut_ref_future(deck).perms@ == mut_ref_current(deck).perms@.filter(
            |p: ShellPerm| !(p.received_ms + 90_000 <= now || now == u64::MAX),
        ),
{
    let perms = mut_ref_current(deck).perms@;
    let over = |p: ShellPerm| crate::deck::perm_expired(p, now);
    crate::lists::lemma_same_filter(
        perms,
        over,
        |p: ShellPerm| p.received_ms + 90_000 <= now || now == u64::MAX,
    );
    crate::lists::lemma_same_filter(
        perms,
        |p: ShellPerm| !over(p),
        |p: ShellPerm| !(p.received_ms + 90_000 <= now || now == u64::MAX),
    );
    let kept = |p: ShellPerm| !over(p);
    if over(perms[i]) {
        let k = lemma_filtered_keeps(perms, over, i);
    } else {
        let k = lemma_filtered_keeps(perms, kept, i);
    }
    assert forall|k: int| 0 <= k < out@.len() implies now == u64::MAX || (
    #[trigger] out@[k]).received_ms + 90_000 <= now by {
        let source = lemma_filtered_from(perms, over, k);
    }
}

proof fn lemma_taken_or_left<T>(
    items: Seq<T>,
    gone: Seq<Seq<char>>,
    of: spec_fn(T, Seq<char>) -> bool,
    i: int,
)
    requires
        0 <= i < items.len(),
    ensures
        crate::deck::taken_of(items, gone, of).contains(items[i]) || crate::deck::left_of(
            items,
            gone,
            of,
        ).contains(items[i]),
    decreases gone.len(),
{
    if gone.len() > 0 {
        let before = crate::deck::left_of(items, gone.drop_last(), of);
        let earlier = crate::deck::taken_of(items, gone.drop_last(), of);
        let now = crate::deck::taken_of(items, gone, of);
        let p = |x: T| of(x, gone.last());
        lemma_taken_or_left(items, gone.drop_last(), of, i);
        if earlier.contains(items[i]) {
            let k = choose|k: int| 0 <= k < earlier.len() && earlier[k] == items[i];
            assert(now[k] == items[i]);
        } else {
            let k = choose|k: int| 0 <= k < before.len() && before[k] == items[i];
            if p(before[k]) {
                let m = lemma_filtered_keeps(before, p, k);
                assert(now[earlier.len() + m] == items[i]);
            } else {
                let q = |x: T| !p(x);
                let m = lemma_filtered_keeps(before, q, k);
                assert(crate::deck::left_of(items, gone, of)[m] == items[i]);
            }
        }
    } else {
        assert(crate::deck::left_of(items, gone, of)[i] == items[i]);
    }
}

proof fn lemma_taken_is_gone<T>(
    items: Seq<T>,
    gone: Seq<Seq<char>>,
    of: spec_fn(T, Seq<char>) -> bool,
    k: int,
) -> (g: int)
    requires
        0 <= k < crate::deck::taken_of(items, gone, of).len(),
    ensures
        0 <= g < gone.len(),
        of(crate::deck::taken_of(items, gone, of)[k], gone[g]),
    decreases gone.len(),
{
    let before = crate::deck::left_of(items, gone.drop_last(), of);
    let earlier = crate::deck::taken_of(items, gone.drop_last(), of);
    if gone.len() > 0 && k < earlier.len() {
        let g = lemma_taken_is_gone(items, gone.drop_last(), of, k);
        assert(gone.drop_last()[g] == gone[g]);
        g
    } else if gone.len() > 0 {
        let p = |x: T| of(x, gone.last());
        let m = lemma_filtered_from(before, p, k - earlier.len());
        gone.len() - 1
    } else {
        0
    }
}

/// When sessions are gone, their questions and requests leave the deck and are handed out,
/// and no others are.
pub proof fn law_gone_sessions_take_theirs_along(
    deck: &mut Deck,
    gone: &Vec<String>,
    out: Dismissed,
    i: int,
)
    requires
        call_ensures(Deck::dismiss_gone_sessions, (deck, gone), out),
    ensures
        0 <= i < mut_ref_current(deck).asks@.len() ==> ({
            let ask = mut_ref_current(deck).asks@[i];
            if ask.session_id matches Some(s) && texts(gone@).contains(s@) {
                !mut_ref_future(deck).asks@.contains(ask)
            } else {
                mut_ref_future(deck).asks@.contains(ask)
            }
        }),
        0 <= i < mut_ref_current(deck).perms@.len() ==> ({
            let perm = mut_ref_current(deck).perms@[i];
            if perm.session_id matches Some(s) && texts(gone@).contains(s@) {
                !mut_ref_future(deck).perms@.contains(perm)
            } else {
                mut_ref_future(deck).perms@.contains(perm)
            }
        }),
        out.asks@.len() + mut_ref_future(deck).asks@.len() == mut_ref_current(deck).asks@.len(),
        out.perms@.len() + mut_ref_future(deck).perms@.len() == mut_ref_current(deck).perms@.len(),
        0 <= i < mut_ref_current(deck).asks@.len() ==> (mut_ref_current(
            deck,
        ).asks@[i].session_id matches Some(s) && texts(gone@).contains(s@) ==> out.asks@.contains(
            mut_ref_current(deck).asks@[i],
        )),
        0 <= i < mut_ref_current(deck).perms@.len() ==> (mut_ref_current(
            deck,
        ).perms@[i].session_id matches Some(s) && texts(gone@).contains(s@) ==> out.perms@.contains(
            mut_ref_current(deck).perms@[i],
        )),
        0 <= i < out.asks@.len() ==> (out.asks@[i].session_id matches Some(s) && texts(
            gone@,
        ).contains(s@)),
        0 <= i < out.perms@.len() ==> (out.perms@[i].session_id matches Some(s) && texts(
            gone@,
        ).contains(s@)),
{
    if 0 <= i < mut_ref_current(deck).asks@.len() {
        lemma_taken_or_left(
            mut_ref_current(deck).asks@,
            texts(gone@),
            crate::deck::by_ask(),
            i,
        );
    }
    if 0 <= i < mut_ref_current(deck).perms@.len() {
        lemma_taken_or_left(
            mut_ref_current(deck).perms@,
            texts(gone@),
            crate::deck::by_perm(),
            i,
        );
    }
    if 0 <= i < out.asks@.len() {
        let g = lemma_taken_is_gone(
            mut_ref_current(deck).asks@,
            texts(gone@),
            crate::deck::by_ask(),
            i,
        );
    }
    if 0 <= i < out.perms@.len() {
        let g = lemma_taken_is_gone(
            mut_ref_current(deck).perms@,
            texts(gone@),
            crate::deck::by_perm(),
            i,
        );
    }
    let ids = texts(gone@);
    let asks = mut_ref_current(deck).asks@;
    let perms = mut_ref_current(deck).perms@;
    let left = mut_ref_future(deck).asks@;
    let left_perms = mut_ref_future(deck).perms@;
    law_gone_sessions_leave_no_asks(asks, ids);
    law_gone_sessions_leave_no_perms(perms, ids);
    crate::deck_laws::law_nothing_is_lost(asks, ids, crate::deck::by_ask());
    crate::deck_laws::law_nothing_is_lost(perms, ids, crate::deck::by_perm());
    if 0 <= i < asks.len() {
        let ask = asks[i];
        if ask.session_id matches Some(s) && ids.contains(s@) {
            let g = choose|g: int| 0 <= g < ids.len() && ids[g] == ask.session_id->Some_0@;
            assert(crate::deck::ask_of(ask, ids[g]));
        }
    }
    if 0 <= i < perms.len() {
        let perm = perms[i];
        if perm.session_id matches Some(s) && ids.contains(s@) {
            let g = choose|g: int| 0 <= g < ids.len() && ids[g] == perm.session_id->Some_0@;
            assert(crate::deck::perm_of(perm, ids[g]));
        }
    }
}

/// A question of an earlier process comes back with all that its file says, as one that
/// nobody waits for; a file that cannot be read, or names no question, is put aside; and
/// other files are left alone.
pub proof fn law_earlier_questions_come_back(
    file_name: &str,
    read: FileRead<AskFileRecord>,
    step: RecoverStep,
    stem: Seq<char>,
)
    requires
        call_ensures(recover_ask_file, (file_name, read), step),
        file_name@ == stem + ".json"@ || !crate::notify::ends_with(file_name@, ".json"@),
    ensures
        stem.len() > 0 && file_name@ == stem + ".json"@ ==> match read {
            FileRead::Parsed(rec) => if rec.id@.len() == 0 {
                step is Quarantine
            } else {
                step == RecoverStep::Recover(rec)
            },
            _ => step is Quarantine,
        },
        stem.len() == 0 || file_name@ != stem + ".json"@ ==> step is Ignore,
{
    reveal_strlit(".json");
    assert(".json"@.len() == 5);
    if stem.len() > 0 {
        law_stem_names_the_file(stem);
    } else if file_name@ == stem + ".json"@ {
        assert(file_name@.take(0) =~= Seq::empty());
    }
}

/// A question that came back stands behind all others and says what its file said; it is
/// shown as one that cannot be answered.
pub proof fn law_earlier_questions_are_shown_as_such(
    deck: &mut Deck,
    rec: AskFileRecord,
    ask: &PendingAsk,
    row: AskRow,
)
    requires
        call_ensures(Deck::orphan_stale_ask, (deck, rec), ()),
        mut_ref_future(deck).asks@.len() > 0,
        *ask == mut_ref_future(deck).asks@.last(),
        call_ensures(ask_to_row, (ask,), row),
    ensures
        mut_ref_future(deck).asks@.drop_last() == mut_ref_current(deck).asks@,
        mut_ref_future(deck).perms == mut_ref_current(deck).perms,
        row.orphaned,
        row.timeout_at == Some(0u64),
        optional_text(ask.context) == optional_text(rec.context),
        row.id@ == rec.id@,
        row.question@ == rec.question@,
        optional_texts(row.options) == optional_texts(rec.options),
        optional_form(row.questions) == optional_form(rec.questions),
        optional_text(row.detail) == optional_text(rec.detail),
        optional_text(row.session_id) == optional_text(rec.session_id),
        optional_text(row.project) == optional_text(rec.project),
        row.queued_at == 0,
{
}

/// What is on disk of a question says what the question says.
pub proof fn law_a_question_is_written_down_whole(ask: &PendingAsk, at: u64, out: String)
    requires
        call_ensures(ask_file_text, (ask, at), out),
    ensures
        parsed_text(out@) matches Some(d) && {
            &&& d.field_text("id"@) == Some(ask.id@)
            &&& d.field_text("question"@) == Some(ask.question@)
            &&& d.field_flag("persistent"@) == Some(ask.persistent)
            &&& d.field("timeoutAtMs"@) == Some(number_of(ask.timeout_at_ms as int))
            &&& d.field("createdAtMs"@) == Some(number_of(at as int))
            &&& match ask.session_id {
                Some(s) => d.field_text("sessionId"@) == Some(s@),
                None => d.field("sessionId"@) == Some(JsonView::Null),
            }
            &&& match ask.project {
                Some(s) => d.field_text("project"@) == Some(s@),
                None => d.field("project"@) == Some(JsonView::Null),
            }
            &&& match ask.detail {
                Some(s) => d.field_text("detail"@) == Some(s@),
                None => d.field("detail"@) == Some(JsonView::Null),
            }
            &&& match ask.context {
                Some(s) => d.field_text("context"@) == Some(s@),
                None => d.field("context"@) == Some(JsonView::Null),
            }
            &&& match ask.options {
                Some(o) => d.field("options"@) matches Some(JsonView::Array(items)) && items.len()
                    == o@.len() && forall|k: int|
                    0 <= k < o@.len() ==> items[k] == JsonView::Str((#[trigger] o@[k])@),
                None => d.field("options"@) == Some(JsonView::Null),
            }
            &&& match ask.questions {
                Some(q) => d.field("questions"@) matches Some(JsonView::Array(items)) && items.len()
                    == q@.len(),
                None => d.field("questions"@) == Some(JsonView::Null),
            }
        },
{
    lemma_ask_document_fields(*ask, at);
    let fields = crate::deck::ask_fields(*ask, at);
    assert(fields[0].0 == "id"@ && fields[1].0 == "sessionId"@ && fields[2].0 == "project"@
        && fields[3].0 == "question"@ && fields[4].0 == "options"@ && fields[5].0 == "questions"@
        && fields[6].0 == "detail"@ && fields[7].0 == "context"@ && fields[8].0 == "persistent"@
        && fields[9].0 == "timeoutAtMs"@ && fields[10].0 == "createdAtMs"@);
}

/// The window for questions can hide exactly where neither a question nor a request
/// waits.
pub proof fn law_the_window_hides_when_nothing_waits(deck: &Deck, out: bool)
    requires
        call_ensures(Deck::ask_window_idle, (deck,), out),
    ensures
        out == (deck.asks@.len() == 0 && deck.perms@.len() == 0),
{
}

/// A toast speaks of the project that is known, or else of the place, or else of an agent.
pub proof fn law_toasts_name_a_project(
    project: &Option<String>,
    place: &Option<String>,
    out: String,
)
    requires
        call_ensures(toast_project, (project, place), out),
    ensures
        *project matches Some(p) ==> out@ == p@,
        *project is None ==> (*place matches Some(c) ==> out@ == base_name(c@)),
        *project is None && *place is None ==> out@ == "Agent"@,
{
}

} // verus!
