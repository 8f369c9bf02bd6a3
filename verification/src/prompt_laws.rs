//! What holds of permission requests, of what is written down for their hooks and for
//! agents that wait, and of the sessions that they belong to.

use crate::deck::{Deck, EngineNote, FileRead, ShellPerm};
use crate::files::law_stem_names_the_file;
use crate::ipc::{
    answer_file, perm_answer_file, AnswerRecord, AskAnswerKind, PermAnswerRecord, PermDecision,
};
use crate::json::{parsed_text, plain, pretty_text, DEPTH_LIMIT};
use crate::lists::{lemma_first_where, lemma_is_first};
use crate::notify::ToastKind;
use crate::paths::{base_name, basename, last_part, normal_path, paths_eq, separator};
use crate::perms::{Admission, PermStep, PreparedPerm};
use crate::request_laws::{cut, lemma_undirected, undirected};
use crate::server_laws::word_for;
use crate::sessions::{match_perm_session, match_session, PermFileRecord, SessionView};
use crate::text::{lemma_trimmed_whole, optional_text, quoted, trim_end_by, trimmed, white_space};
use crate::tool_input::{decode_printable_ascii_escapes, decoded, pretty_tool_input};
use vstd::prelude::*;

verus! {

/// Whether a request with this id waits.
pub open spec fn waits(perms: Seq<ShellPerm>, id: Seq<char>) -> bool {
    exists|i: int| 0 <= i < perms.len() && (#[trigger] perms[i]).id@ == id
}

proof fn lemma_waits(perms: Seq<ShellPerm>, id: Seq<char>)
    ensures
        waits(perms, id) == (crate::deck::perm_at(perms, id) is Some),
{
    lemma_first_where(perms, |p: ShellPerm| crate::deck::perm_named(p, id));
}

/// A permission request is read from its file once: where it waits already the file goes,
/// and what cannot be read is put aside.
pub proof fn law_a_prompt_is_read_once(
    deck: &Deck,
    file_name: &str,
    read: FileRead<PermFileRecord>,
    views: &Vec<SessionView>,
    ignore_case: bool,
    out: PermStep,
    id: Seq<char>,
)
    requires
        call_ensures(Deck::ingest_perm, (deck, file_name, read, views, ignore_case), out),
        id.len() > 0,
        file_name@ == id + ".json"@,
    ensures
        waits(deck.perms@, id) ==> out is Discard,
        !waits(deck.perms@, id) && !(read is Parsed) ==> out is Quarantine,
        !waits(deck.perms@, id) && read is Parsed ==> (out matches PermStep::Ready(perm) && perm.id@
            == id),
{
    law_stem_names_the_file(id);
    lemma_waits(deck.perms@, id);
}

/// A file whose name does not end in `.json`, or is nothing else, is no request.
pub proof fn law_other_files_are_no_prompts(
    deck: &Deck,
    file_name: &str,
    read: FileRead<PermFileRecord>,
    views: &Vec<SessionView>,
    ignore_case: bool,
    out: PermStep,
)
    requires
        call_ensures(Deck::ingest_perm, (deck, file_name, read, views, ignore_case), out),
        file_name@ == ".json"@ || !crate::notify::ends_with(file_name@, ".json"@),
    ensures
        out is Ignore,
{
    reveal_strlit(".json");
    assert(".json"@.len() == 5);
    assert(".json"@.take(0) =~= Seq::empty());
}

/// The tool is shown by its name without white space around it and without characters
/// that turn the direction of text, cut to two hundred grapheme clusters; and a tool
/// without a name as an unknown one.
pub proof fn law_the_tool_is_named(
    deck: &Deck,
    file_name: &str,
    rec: PermFileRecord,
    views: &Vec<SessionView>,
    ignore_case: bool,
    perm: PreparedPerm,
)
    requires
        call_ensures(
            Deck::ingest_perm,
            (deck, file_name, FileRead::Parsed(rec), views, ignore_case),
            PermStep::Ready(perm),
        ),
    ensures
        ({
            let name = cut(trimmed(undirected(trimmed(rec.tool_name@))), 200);
            perm.tool_name@ == if name.len() == 0 {
                "(unknown tool)"@
            } else {
                name
            }
        }),
{
    lemma_undirected();
}

/// The input of the tool is shown whole: in its readable form without characters that
/// turn the direction of text, and cut only beyond 16384 grapheme clusters. An input that
/// is a document, and has no such characters, reads back as that document.
pub proof fn law_the_input_is_shown_whole(
    deck: &Deck,
    file_name: &str,
    rec: PermFileRecord,
    views: &Vec<SessionView>,
    ignore_case: bool,
    perm: PreparedPerm,
    input: &str,
    readable: String,
)
    requires
        call_ensures(
            Deck::ingest_perm,
            (deck, file_name, FileRead::Parsed(rec), views, ignore_case),
            PermStep::Ready(perm),
        ),
        input@ == rec.tool_input@,
        call_ensures(pretty_tool_input, (input,), readable),
    ensures
        perm.tool_input@ == cut(undirected(readable@), 16384),
        crate::text::grapheme_clusters(undirected(readable@)).len() <= 16384 ==> perm.tool_input@
            == undirected(readable@),
        parsed_text(trimmed(rec.tool_input@)) matches Some(d) ==> plain(d, DEPTH_LIMIT as nat)
            && undirected(readable@) == readable@ && crate::text::grapheme_clusters(readable@).len()
            <= 16384 ==> parsed_text(perm.tool_input@) == Some(d),
{
    lemma_undirected();
}

/// A request is put down to the session that its record leads to, and shows where it came
/// from only where that leads to none; its toast speaks of the session's project, or else
/// of the place.
pub proof fn law_a_prompt_belongs_to_its_session(
    deck: &Deck,
    file_name: &str,
    rec: PermFileRecord,
    views: &Vec<SessionView>,
    ignore_case: bool,
    perm: PreparedPerm,
    found: (Option<String>, Option<String>, Option<String>),
)
    requires
        call_ensures(
            Deck::ingest_perm,
            (deck, file_name, FileRead::Parsed(rec), views, ignore_case),
            PermStep::Ready(perm),
        ),
        call_ensures(match_perm_session, (views, &rec, ignore_case), found),
    ensures
        optional_text(perm.session_id) == optional_text(found.0),
        optional_text(perm.project) == optional_text(found.1),
        optional_text(perm.context) == optional_text(found.2),
        found.1 matches Some(p) ==> perm.toast_project@ == p@,
        found.1 is None ==> (rec.cwd matches Some(c) ==> perm.toast_project@ == base_name(c@)),
        found.1 is None && rec.cwd is None ==> perm.toast_project@ == "Agent"@,
{
}

/// A request is left to the terminal where the user looks at it, and then nothing changes;
/// otherwise it stands behind all others as it was read, its session is told that it
/// waits, and the toast names the tool.
pub proof fn law_a_prompt_waits_unless_its_terminal_is_in_front(
    deck: &mut Deck,
    perm: PreparedPerm,
    in_front: bool,
    now: u64,
    out: Admission,
)
    requires
        call_ensures(Deck::admit_perm, (deck, perm, in_front, now), out),
    ensures
        mut_ref_future(deck).asks == mut_ref_current(deck).asks,
        in_front ==> out is Deferred && mut_ref_future(deck).perms == mut_ref_current(deck).perms,
        !in_front ==> {
            let after = mut_ref_future(deck).perms@;
            &&& after.len() == mut_ref_current(deck).perms@.len() + 1
            &&& after.drop_last() == mut_ref_current(deck).perms@
            &&& after.last().id@ == perm.id@
            &&& after.last().tool_name@ == perm.tool_name@
            &&& after.last().tool_input@ == perm.tool_input@
            &&& optional_text(after.last().session_id) == optional_text(perm.session_id)
            &&& optional_text(after.last().project) == optional_text(perm.project)
            &&& optional_text(after.last().context) == optional_text(perm.context)
            &&& after.last().received_ms == now
            &&& out matches Admission::Admitted { note, toast } && {
                &&& match perm.session_id {
                    Some(s) => note matches Some(EngineNote::Pending(t)) && t@ == s@,
                    None => note is None,
                }
                &&& toast.kind == ToastKind::Attention
                &&& toast.session_id@ == "perm-"@ + perm.id@
                &&& toast.project@ == perm.toast_project@
                &&& toast.detail@ == "requests permission to run "@ + perm.tool_name@
                &&& toast.assistant_body is None
            }
        },
{
}

/// A request that is decided is out, and no other.
pub proof fn law_a_decided_prompt_is_out(
    deck: &mut Deck,
    id: &str,
    out: Option<ShellPerm>,
    i: int,
)
    requires
        call_ensures(Deck::take_perm, (deck, id), out),
    ensures
        mut_ref_future(deck).asks == mut_ref_current(deck).asks,
        !waits(mut_ref_current(deck).perms@, id@) ==> out is None && mut_ref_future(deck).perms
            == mut_ref_current(deck).perms,
        0 <= i < mut_ref_current(deck).perms@.len() && mut_ref_current(deck).perms@[i].id@ == id@ && (
        forall|j: int| 0 <= j < i ==> (#[trigger] mut_ref_current(deck).perms@[j]).id@ != id@)
            ==> out == Some(mut_ref_current(deck).perms@[i]) && mut_ref_future(deck).perms@
            == mut_ref_current(deck).perms@.remove(i),
{
    let perms = mut_ref_current(deck).perms@;
    lemma_waits(perms, id@);
    if 0 <= i < perms.len() && perms[i].id@ == id@ && (forall|j: int|
        0 <= j < i ==> (#[trigger] perms[j]).id@ != id@) {
        lemma_is_first(perms, |p: ShellPerm| crate::deck::perm_named(p, id@), i);
    }
}

/// Whether a file can be named after `id` without leaving its directory.
pub open spec fn harmless(id: Seq<char>) -> bool {
    id.len() > 0 && !id.contains('/') && !id.contains('\\') && id != "."@ && id != ".."@
}

/// A decision is written down as it was made, in the file that the hook waits for, with
/// the user's reason where one is left; and only an id that no file can be named after is
/// refused.
pub proof fn law_a_decision_is_written_down(
    perm_id: &str,
    decision: PermDecision,
    reason: Option<&str>,
    now: u64,
    out: Result<(String, PermAnswerRecord), String>,
)
    requires
        call_ensures(perm_answer_file, (perm_id, decision, reason, now), out),
    ensures
        (out is Ok) == harmless(perm_id@),
        out matches Ok((name, record)) ==> {
            &&& name@ == perm_id@ + ".json"@
            &&& record.decision == decision
            &&& record.answered_at_ms == now
            &&& match reason {
                Some(r) => if trimmed(r@).len() == 0 {
                    record.reason is None
                } else {
                    record.reason matches Some(s) && s@ == trimmed(r@)
                },
                None => record.reason is None,
            }
        },
        out matches Err(message) ==> message@ == "invalid id: "@ + quoted(perm_id@),
{
}

/// An answer is written down in the user's words, cut only beyond 8192 grapheme clusters,
/// in the file that is named after the question; and only an id that no file can be named
/// after is refused.
pub proof fn law_an_answer_is_written_down(
    ask_id: &str,
    answer: &str,
    kind: AskAnswerKind,
    now: u64,
    out: Result<(String, AnswerRecord), String>,
)
    requires
        call_ensures(answer_file, (ask_id, answer, kind, now), out),
    ensures
        (out is Ok) == harmless(ask_id@),
        out matches Ok((name, record)) ==> {
            &&& name@ == ask_id@ + ".json"@
            &&& record.id@ == ask_id@
            &&& record.answer@ == cut(answer@, 8192)
            &&& record.kind == kind
            &&& record.answered_at_ms == now
        },
        out matches Err(message) ==> message@ == "invalid id: "@ + quoted(ask_id@),
{
}

/// The word for a decision.
pub open spec fn word_for_decision(decision: PermDecision) -> Seq<char> {
    match decision {
        PermDecision::Allow => "allow"@,
        PermDecision::Deny => "deny"@,
        PermDecision::Defer => "defer"@,
    }
}

/// Decisions and kinds of answers go by their words, and each word stands for one of them.
pub proof fn law_words_stand_for_what_they_say(
    decision: PermDecision,
    word: &'static str,
    name: &str,
    read: Option<PermDecision>,
    kind: AskAnswerKind,
    kind_word: &'static str,
    kind_read: Option<AskAnswerKind>,
)
    requires
        call_ensures(PermDecision::as_str, (decision,), word),
        call_ensures(PermDecision::from_name, (name,), read),
        call_ensures(AskAnswerKind::as_str, (kind,), kind_word),
        call_ensures(AskAnswerKind::from_name, (name,), kind_read),
    ensures
        word@ == word_for_decision(decision),
        name@ == word_for_decision(decision) ==> read == Some(decision),
        read matches Some(d) ==> name@ == word_for_decision(d),
        kind_word@ == word_for(kind),
        name@ == word_for(kind) ==> kind_read == Some(kind),
        kind_read matches Some(k) ==> name@ == word_for(k),
{
    if name@ == word_for_decision(decision) {
        assert(name@ == crate::ipc::decision_name(decision));
        if let Some(d) = read {
            crate::ipc::law_decision_names_differ(d, decision);
        }
    }
    if name@ == word_for(kind) {
        assert(name@ == crate::ipc::kind_name(kind));
        if let Some(k) = kind_read {
            crate::ipc::law_kind_names_differ(k, kind);
        }
    }
}

// ---------------------------------------------------------------------------
// The input of a tool.
// ---------------------------------------------------------------------------

/// A blank input is shown as nothing, a document as what it says, indented, and anything
/// else as it is with its escapes undone.
pub proof fn law_an_input_is_made_readable(raw: &str, out: String, undone: String)
    requires
        call_ensures(pretty_tool_input, (raw,), out),
        call_ensures(decode_printable_ascii_escapes, (raw,), undone),
    ensures
        trimmed(raw@).len() == 0 ==> out@.len() == 0,
        parsed_text(trimmed(raw@)) matches Some(d) ==> out@ == pretty_text(d),
        parsed_text(trimmed(raw@)) is None && trimmed(raw@).len() > 0 ==> out@ == undone@,
{
}

/// The value of a hexadecimal digit.
pub open spec fn hex_digit_value(c: char) -> Option<int> {
    if '0' <= c <= '9' {
        Some(c as int - '0' as int)
    } else if 'a' <= c <= 'f' {
        Some(c as int - 'a' as int + 10)
    } else if 'A' <= c <= 'F' {
        Some(c as int - 'A' as int + 10)
    } else {
        None
    }
}

/// Whether an escape of one character stands at `i`, and of which.
pub open spec fn escaped(s: Seq<char>, i: int) -> Option<int> {
    if 0 <= i && i + 6 <= s.len() && s[i] == '\\' && s[i + 1] == 'u' {
        match (
            hex_digit_value(s[i + 2]),
            hex_digit_value(s[i + 3]),
            hex_digit_value(s[i + 4]),
            hex_digit_value(s[i + 5]),
        ) {
            (Some(a), Some(b), Some(c), Some(d)) => Some(((a * 16 + b) * 16 + c) * 16 + d),
            _ => None,
        }
    } else {
        None
    }
}

/// Whether an escape of a printable ASCII character stands at `i`.
pub open spec fn printable_escape(s: Seq<char>, i: int) -> bool {
    escaped(s, i) matches Some(code) && 0x20 <= code <= 0x7e
}

/// The first escape of a printable character is undone, with all before it left alone and
/// all behind it undone in the same way; a text without one is left alone.
pub proof fn law_escapes_are_undone_one_by_one(
    raw: &str,
    out: String,
    rest: &str,
    rest_out: String,
    i: int,
)
    requires
        call_ensures(decode_printable_ascii_escapes, (raw,), out),
        call_ensures(decode_printable_ascii_escapes, (rest,), rest_out),
        0 <= i <= raw@.len(),
        forall|j: int| 0 <= j < i ==> !(#[trigger] printable_escape(raw@, j)),
    ensures
        i == raw@.len() ==> out@ == raw@,
        printable_escape(raw@, i) && rest@ == raw@.skip(i + 6) ==> out@ == raw@.take(i)
            + seq![escaped(raw@, i)->Some_0 as char] + rest_out@,
{
    let s = raw@;
    assert forall|j: int| printable_escape(s, j) == #[trigger] crate::tool_input::printable_escape_at(
        s,
        j,
    ) by {
        if crate::tool_input::escape_at(s, j) {
            assert(escaped(s, j) is Some);
        }
    }
    assert forall|j: int| 0 <= j < i implies !(
    #[trigger] crate::tool_input::printable_escape_at(s, j)) by {
        assert(!printable_escape(s, j));
    }
    lemma_decoded_up_to(s, 0, i);
    if i == s.len() {
        assert(s.subrange(0, i) =~= s);
        assert(crate::tool_input::decoded_from(s, i) =~= Seq::empty());
        assert(s + Seq::<char>::empty() =~= s);
    } else if printable_escape(s, i) && rest@ == s.skip(i + 6) {
        assert(crate::tool_input::printable_escape_at(s, i));
        lemma_decoded_shift(s, i + 6, 0);
        assert(s.subrange(0, i) =~= s.take(i));
        let c = crate::tool_input::escape_code(s, i);
        assert(c == escaped(s, i)->Some_0);
        assert(s.take(i) + (seq![c as char] + crate::tool_input::decoded_from(s, i + 6)) =~= s.take(
            i,
        ) + seq![c as char] + decoded(rest@));
    }
}

proof fn lemma_decoded_up_to(s: Seq<char>, from: int, i: int)
    requires
        0 <= from <= i <= s.len(),
        forall|j: int| from <= j < i ==> !(#[trigger] crate::tool_input::printable_escape_at(s, j)),
    ensures
        crate::tool_input::decoded_from(s, from) == s.subrange(from, i)
            + crate::tool_input::decoded_from(s, i),
    decreases i - from,
{
    if from < i {
        assert(!crate::tool_input::printable_escape_at(s, from));
        lemma_decoded_up_to(s, from + 1, i);
        assert(seq![s[from]] + (s.subrange(from + 1, i) + crate::tool_input::decoded_from(s, i))
            =~= s.subrange(from, i) + crate::tool_input::decoded_from(s, i));
    } else {
        assert(s.subrange(from, i) =~= Seq::empty());
        assert(Seq::<char>::empty() + crate::tool_input::decoded_from(s, i)
            =~= crate::tool_input::decoded_from(s, i));
    }
}

proof fn lemma_decoded_shift(s: Seq<char>, n: int, i: int)
    requires
        0 <= n <= s.len(),
        0 <= i,
    ensures
        crate::tool_input::decoded_from(s, n + i) == crate::tool_input::decoded_from(s.skip(n), i),
    decreases s.len() - n - i,
{
    let t = s.skip(n);
    if n + i < s.len() {
        assert(t[i] == s[n + i]);
        if i + 6 <= t.len() {
            assert(t[i + 1] == s[n + i + 1] && t[i + 2] == s[n + i + 2] && t[i + 3] == s[n + i + 3]
                && t[i + 4] == s[n + i + 4] && t[i + 5] == s[n + i + 5]);
        }
        assert(crate::tool_input::printable_escape_at(s, n + i)
            == crate::tool_input::printable_escape_at(t, i));
        if crate::tool_input::printable_escape_at(t, i) {
            lemma_decoded_shift(s, n, i + 6);
        } else {
            lemma_decoded_shift(s, n, i + 1);
        }
    }
}

// ---------------------------------------------------------------------------
// Sessions and places.
// ---------------------------------------------------------------------------

/// Whether the session runs at a place.
pub open spec fn at_place(view: SessionView, place: Seq<char>, ignore_case: bool) -> bool {
    view.cwd@.len() > 0 && crate::paths::same_place(view.cwd@, place, ignore_case)
}

/// A place leads to the first session that runs there; where none does, to the first that
/// runs in a directory of the same name; and otherwise to none. No place leads to none.
pub proof fn law_a_place_leads_to_its_session(
    views: &Vec<SessionView>,
    context: Option<&str>,
    ignore_case: bool,
    out: (Option<String>, Option<String>),
    i: int,
)
    requires
        call_ensures(match_session, (views, context, ignore_case), out),
    ensures
        context is None ==> out.0 is None && out.1 is None,
        context matches Some(c) ==> trimmed(c@).len() == 0 ==> out.0 is None && out.1 is None,
        context matches Some(c) ==> trimmed(c@).len() > 0 ==> {
            let place = trimmed(c@);
            let none_there = forall|j: int|
                0 <= j < views@.len() ==> !at_place(#[trigger] views@[j], place, ignore_case);
            &&& 0 <= i < views@.len() && at_place(views@[i], place, ignore_case) && (forall|j: int|
                0 <= j < i ==> !at_place(#[trigger] views@[j], place, ignore_case)) ==> (
            out.0 matches Some(id) && id@ == views@[i].id@) && (out.1 matches Some(p) && p@
                == views@[i].project@)
            &&& none_there && 0 <= i < views@.len() && named_alike(views@[i], place, ignore_case) && (
            forall|j: int| 0 <= j < i ==> !named_alike(#[trigger] views@[j], place, ignore_case))
                ==> (out.0 matches Some(id) && id@ == views@[i].id@) && (out.1 matches Some(p) && p@
                == views@[i].project@)
            &&& none_there && (forall|j: int|
                0 <= j < views@.len() ==> !named_alike(#[trigger] views@[j], place, ignore_case))
                ==> out.0 is None && out.1 is None
        },
{
    if let Some(c) = context {
        let place = trimmed(c@);
        let at = |v: SessionView| crate::sessions::runs_at(v, place, ignore_case);
        let like = |v: SessionView| crate::sessions::runs_in(v, base_name(place), ignore_case);
        lemma_first_where(views@, at);
        lemma_first_where(views@, like);
        if 0 <= i < views@.len() && at_place(views@[i], place, ignore_case) && (forall|j: int|
            0 <= j < i ==> !at_place(#[trigger] views@[j], place, ignore_case)) {
            assert forall|j: int| 0 <= j < i implies !at(#[trigger] views@[j]) by {
                assert(!at_place(views@[j], place, ignore_case));
            }
            lemma_is_first(views@, at, i);
        }
        let none_there = forall|j: int|
            0 <= j < views@.len() ==> !at_place(#[trigger] views@[j], place, ignore_case);
        if none_there {
            assert forall|j: int| 0 <= j < views@.len() implies !at(#[trigger] views@[j]) by {
                assert(!at_place(views@[j], place, ignore_case));
            }
            crate::lists::lemma_no_first(views@, at);
            if 0 <= i < views@.len() && named_alike(views@[i], place, ignore_case) && (forall|j: int|
                0 <= j < i ==> !named_alike(#[trigger] views@[j], place, ignore_case)) {
                assert forall|j: int| 0 <= j < i implies !like(#[trigger] views@[j]) by {
                    assert(!named_alike(views@[j], place, ignore_case));
                }
                lemma_is_first(views@, like, i);
            }
            if forall|j: int|
                0 <= j < views@.len() ==> !named_alike(#[trigger] views@[j], place, ignore_case) {
                assert forall|j: int| 0 <= j < views@.len() implies !like(#[trigger] views@[j]) by {
                    assert(!named_alike(views@[j], place, ignore_case));
                }
                crate::lists::lemma_no_first(views@, like);
            }
        }
    }
}

/// Whether the session runs in a directory that has the name of the place.
pub open spec fn named_alike(view: SessionView, place: Seq<char>, ignore_case: bool) -> bool {
    view.cwd@.len() > 0 && crate::paths::same_place(
        base_name(view.cwd@),
        base_name(place),
        ignore_case,
    )
}

/// A request leads to the session that it names, where that is known; otherwise to the
/// first that runs where it came from; and otherwise to none, and then it shows where it
/// came from.
pub proof fn law_a_prompt_leads_to_its_session(
    views: &Vec<SessionView>,
    rec: &PermFileRecord,
    ignore_case: bool,
    out: (Option<String>, Option<String>, Option<String>),
    i: int,
)
    requires
        call_ensures(match_perm_session, (views, rec, ignore_case), out),
    ensures
        rec.session_id matches Some(s) ==> trimmed(s@).len() > 0 && 0 <= i < views@.len()
            && views@[i].id@ == trimmed(s@) && (forall|j: int|
            0 <= j < i ==> (#[trigger] views@[j]).id@ != trimmed(s@)) ==> (out.0 matches Some(id)
            && id@ == trimmed(s@)) && (out.1 matches Some(p) && p@ == views@[i].project@)
            && out.2 is None,
        (match rec.session_id {
            Some(s) => trimmed(s@).len() == 0 || forall|j: int|
                0 <= j < views@.len() ==> (#[trigger] views@[j]).id@ != trimmed(s@),
            None => true,
        }) ==> match rec.cwd {
            Some(c) => {
                let place = trimmed(c@);
                &&& place.len() == 0 ==> out.0 is None && out.1 is None && out.2 is None
                &&& place.len() > 0 && 0 <= i < views@.len() && at_place(
                    views@[i],
                    place,
                    ignore_case,
                ) && (forall|j: int|
                    0 <= j < i ==> !at_place(#[trigger] views@[j], place, ignore_case)) ==> (
                out.0 matches Some(id) && id@ == views@[i].id@) && (out.1 matches Some(p) && p@
                    == views@[i].project@) && out.2 is None
                &&& place.len() > 0 && (forall|j: int|
                    0 <= j < views@.len() ==> !at_place(#[trigger] views@[j], place, ignore_case))
                    ==> out.0 is None && out.1 is None && (out.2 matches Some(d) && d@ == place)
            },
            None => out.0 is None && out.1 is None && out.2 is None,
        },
{
    if let Some(s) = rec.session_id {
        let x = trimmed(s@);
        let named = |v: SessionView| crate::sessions::has_id(v, x);
        lemma_first_where(views@, named);
        if 0 <= i < views@.len() && views@[i].id@ == x && (forall|j: int|
            0 <= j < i ==> (#[trigger] views@[j]).id@ != x) {
            lemma_is_first(views@, named, i);
        }
    }
    if let Some(c) = rec.cwd {
        let place = trimmed(c@);
        let at = |v: SessionView| crate::sessions::runs_at(v, place, ignore_case);
        lemma_first_where(views@, at);
        if 0 <= i < views@.len() && at_place(views@[i], place, ignore_case) && (forall|j: int|
            0 <= j < i ==> !at_place(#[trigger] views@[j], place, ignore_case)) {
            assert forall|j: int| 0 <= j < i implies !at(#[trigger] views@[j]) by {
                assert(!at_place(views@[j], place, ignore_case));
            }
            lemma_is_first(views@, at, i);
        }
        if forall|j: int|
            0 <= j < views@.len() ==> !at_place(#[trigger] views@[j], place, ignore_case) {
            assert forall|j: int| 0 <= j < views@.len() implies !at(#[trigger] views@[j]) by {
                assert(!at_place(views@[j], place, ignore_case));
            }
            crate::lists::lemma_no_first(views@, at);
        }
    }
}

/// Whether a path has no white space at its ends.
pub open spec fn tight(p: Seq<char>) -> bool {
    p.len() > 0 && !white_space(p[0]) && !white_space(p.last())
}

/// Paths that differ only in their separators, or in separators at their ends, name the
/// same place; and paths that are written alike otherwise name the same place only where
/// they are the same.
pub proof fn law_separators_make_no_difference(
    a: &str,
    b: &str,
    ignore_case: bool,
    out: bool,
)
    requires
        call_ensures(paths_eq, (a, b, ignore_case), out),
        tight(a@),
        tight(b@),
    ensures
        b@ == a@.push('/') || b@ == a@.push('\\') ==> out,
        a@.len() == b@.len() && (forall|i: int|
            0 <= i < a@.len() ==> ((#[trigger] a@[i]) == b@[i] || (separator(a@[i]) && separator(
                b@[i],
            )))) ==> out,
        !ignore_case && !a@.contains('\\') && !b@.contains('\\') && a@.last() != '/' && b@.last()
            != '/' ==> out == (a@ == b@),
{
    lemma_trimmed_whole(a@);
    lemma_trimmed_whole(b@);
    let f = |c: char| crate::paths::forward(c);
    let slash = |c: char| c == '/';
    let ma = a@.map_values(f);
    let mb = b@.map_values(f);
    if b@ == a@.push('/') || b@ == a@.push('\\') {
        assert(mb.drop_last() =~= ma);
        assert(slash(mb.last()));
        assert(trim_end_by(mb, slash) == trim_end_by(ma, slash));
    }
    if a@.len() == b@.len() && (forall|i: int|
        0 <= i < a@.len() ==> ((#[trigger] a@[i]) == b@[i] || (separator(a@[i]) && separator(b@[i])))) {
        assert(ma =~= mb);
    }
    if !a@.contains('\\') && !b@.contains('\\') && a@.last() != '/' && b@.last() != '/' {
        assert forall|i: int| 0 <= i < a@.len() implies #[trigger] ma[i] == a@[i] by {
            assert(a@.contains(a@[i]));
        }
        assert forall|i: int| 0 <= i < b@.len() implies #[trigger] mb[i] == b@[i] by {
            assert(b@.contains(b@[i]));
        }
        assert(ma =~= a@ && mb =~= b@);
        assert(!slash(ma.last()) && !slash(mb.last()));
        assert(normal_path(a@) == a@ && normal_path(b@) == b@);
    }
}

/// The name of a directory is what stands behind its last separator.
pub proof fn law_the_name_is_the_last_part(p: &str, out: String, dir: Seq<char>, name: Seq<char>)
    requires
        call_ensures(basename, (p,), out),
        tight(p@),
        name.len() > 0,
        forall|i: int| 0 <= i < name.len() ==> !separator(#[trigger] name[i]),
    ensures
        p@ == name ==> out@ == name,
        p@ == dir + seq!['/'] + name || p@ == dir + seq!['\\'] + name ==> out@ == name,
{
    lemma_trimmed_whole(p@);
    let sep = |c: char| separator(c);
    if p@ == name || p@ == dir + seq!['/'] + name || p@ == dir + seq!['\\'] + name {
        assert(p@.last() == name.last());
        assert(name.last() == name[name.len() - 1]);
        assert(!sep(p@.last()));
        assert(trim_end_by(p@, sep) == p@);
        let front = p@.take(p@.len() - name.len());
        assert(front + name =~= p@);
        assert(front.len() > 0 ==> separator(front.last()));
        lemma_last_part(front, name);
    }
}

proof fn lemma_last_part(front: Seq<char>, name: Seq<char>)
    requires
        front.len() > 0 ==> separator(front.last()),
        forall|i: int| 0 <= i < name.len() ==> !separator(#[trigger] name[i]),
    ensures
        last_part(front + name) == name,
    decreases name.len(),
{
    let p = front + name;
    if name.len() > 0 {
        let less = name.drop_last();
        assert forall|i: int| 0 <= i < less.len() implies !separator(#[trigger] less[i]) by {
            assert(less[i] == name[i]);
        }
        lemma_last_part(front, less);
        assert(p.drop_last() =~= front + less);
        assert(p.last() == name[name.len() - 1]);
        assert(less.push(name.last()) =~= name);
    } else {
        assert(p =~= front);
        assert(last_part(p) =~= Seq::empty());
    }
}

} // verus!
