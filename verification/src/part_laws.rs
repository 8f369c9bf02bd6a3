//! What holds of the parts that the rest is made of: texts, documents, replies, ids and
//! tokens.

use crate::deck::{
    ask_file_text, ask_id, ask_to_document, drain_expired_asks, drain_expired_perms, Deck,
    PendingAsk, ShellPerm,
};
use crate::ipc::{copy_form, optional_form, safe_file_stem, AskQuestion};
use crate::json::{
    compact, field_of, lemma_object_field, number_of, object_of, parse, parsed_text, plain, pretty,
    set_field, set_fields, Json, JsonView, DEPTH_LIMIT,
};
use crate::mcp_server::{
    constant_time_eq, hex, hex_words, json_response, law_replies_carry_the_id, orphaned_content,
    parse_ask_request, parse_questions, progress_token, rpc_error, rpc_result, token_of,
    tool_error_content, tool_name, unauthorized, AskAnswer, AskRequest, HttpReply,
};
use crate::notify::{is_dev_dir, is_truthy, truncate_ellipsis};
use crate::paths::{basename, norm_path, paths_eq};
use crate::prompt_laws::{harmless, tight, waits};
use crate::queue_laws::{first_with, none_with};
use crate::request_laws::{cut, lemma_error_says, lemma_undirected, undirected};
use crate::server_laws::{refuses, results, says};
use crate::sessions::{session_terminal_pids, Terminal};
use crate::text::{
    ascii_lower, collapse_white_space, contains_text, decimal, decimal_text, is_white_space, joined,
    parse_u32, parse_u64, quoted, signed_decimal_text, single_spaced, split, strip_bidi_controls,
    strip_prefix, strip_suffix, texts, trim, trimmed, truncate_graphemes, white_space,
};
use crate::tool_input::{pretty_tool_input, show_input};
use vstd::prelude::*;

verus! {

// ---------------------------------------------------------------------------
// Texts.
// ---------------------------------------------------------------------------

/// Trimming leaves what stands between the white space at the ends.
pub proof fn law_trimming_leaves_what_is_between(
    s: &str,
    out: String,
    before: Seq<char>,
    core: Seq<char>,
    behind: Seq<char>,
)
    requires
        call_ensures(trim, (s,), out),
        s@ == before + core + behind,
        forall|i: int| 0 <= i < before.len() ==> white_space(#[trigger] before[i]),
        forall|i: int| 0 <= i < behind.len() ==> white_space(#[trigger] behind[i]),
        core.len() == 0 || tight(core),
    ensures
        out@ == core,
{
    let (i, j) = crate::text::law_trimming_cuts_white_space_alone(s@);
    let t = trimmed(s@);
    crate::text::law_trimmed_ends(s@);
    if core.len() > 0 {
        assert(s@[before.len() as int] == core[0]);
        assert(s@[before.len() + core.len() - 1] == core.last());
        if i > before.len() {
            assert(white_space(s@[before.len() as int]));
        }
        if j < before.len() + core.len() {
            assert(white_space(s@[before.len() + core.len() - 1]));
        }
        if i < before.len() {
            assert(t[0] == s@[i]);
            assert(before[i] == s@[i]);
        }
        if j > before.len() + core.len() {
            assert(t.last() == s@[j - 1]);
            assert(behind[j - 1 - before.len() - core.len()] == s@[j - 1]);
        }
        assert(t =~= core);
    } else if t.len() > 0 {
        assert(t[0] == s@[i]);
        if i < before.len() {
            assert(before[i] == s@[i]);
        } else {
            assert(behind[i - before.len()] == s@[i]);
        }
    } else {
        assert(t =~= core);
    }
}

/// Blanks, tabs and line ends are white space, and nothing that is printed in ASCII is.
pub proof fn law_blanks_are_white_space(c: char, out: bool)
    requires
        call_ensures(is_white_space, (c,), out),
    ensures
        c == ' ' || c == '\t' || c == '\n' || c == '\r' || c == '\u{a0}' || c == '\u{3000}' ==> out,
        '!' <= c <= '~' ==> !out,
        out == white_space(c),
{
}

/// A text is cut to a number of grapheme clusters, the last of which is then an ellipsis.
pub proof fn law_texts_are_cut(s: &str, max: usize, out: String, trimmed_out: String)
    requires
        max > 0,
        call_ensures(truncate_graphemes, (s, max), out),
        call_ensures(truncate_ellipsis, (s, max), trimmed_out),
    ensures
        out@ == cut(s@, max as int),
        s@.len() <= max ==> out@ == s@,
        trimmed_out@ == cut(trimmed(s@), max as int),
{
}

/// Characters that turn the direction of text go, and all others stay in their order; white
/// space becomes single blanks between words.
pub proof fn law_texts_are_cleaned(s: &str, out: String, line: String)
    requires
        call_ensures(strip_bidi_controls, (s,), out),
        call_ensures(collapse_white_space, (s,), line),
    ensures
        out@ == undirected(s@),
        line@.filter(|c: char| !white_space(c)) == s@.filter(|c: char| !white_space(c)),
        single_spaced(line@),
        single_spaced(s@) ==> line@ == s@,
{
    lemma_undirected();
    crate::text::law_collapsing_leaves_the_words(s@);
    crate::text::law_collapsed_is_single_spaced(s@);
}

/// Texts are put together and taken apart.
pub proof fn law_texts_come_apart_where_they_were_put_together(
    a: &str,
    b: &str,
    both: String,
    whole: &str,
    front: Option<String>,
    back: Option<String>,
    found: bool,
)
    requires
        call_ensures(joined, (a, b), both),
        whole@ == both@,
        call_ensures(strip_suffix, (whole, b), front),
        call_ensures(strip_prefix, (whole, a), back),
        call_ensures(contains_text, (whole, b), found),
    ensures
        both@ == a@ + b@,
        front matches Some(s) && s@ == a@,
        back matches Some(s) && s@ == b@,
        found,
{
    assert(whole@.skip(a@.len() as int) =~= b@);
    assert(whole@.take(a@.len() as int) =~= a@);
    assert(whole@.subrange(a@.len() as int, (a@.len() + b@.len()) as int) =~= b@);
    assert(crate::text::stands_at(whole@, b@, a@.len() as int));
}

/// What is no beginning, no end or no part of a text is not found there.
pub proof fn law_what_is_not_there_is_not_found(
    s: &str,
    part: &str,
    front: Option<String>,
    back: Option<String>,
    found: bool,
)
    requires
        call_ensures(strip_suffix, (s, part), front),
        call_ensures(strip_prefix, (s, part), back),
        call_ensures(contains_text, (s, part), found),
    ensures
        front matches Some(f) ==> s@ == f@ + part@,
        back matches Some(b) ==> s@ == part@ + b@,
        found ==> exists|i: int|
            0 <= i && i + part@.len() <= s@.len() && #[trigger] s@.subrange(i, i + part@.len())
                == part@,
{
    if let Some(f) = front {
        assert(s@ =~= f@ + part@);
    }
    if let Some(b) = back {
        assert(s@ =~= part@ + b@);
    }
    if found {
        let i = choose|i: int| #[trigger] crate::text::stands_at(s@, part@, i);
        assert(s@.subrange(i, i + part@.len()) == part@);
    }
}

/// Splitting loses nothing, and no part holds the separator.
pub proof fn law_parts_make_up_the_text(s: &str, sep: char, out: Vec<String>, i: int)
    requires
        call_ensures(split, (s, sep), out),
    ensures
        out@.len() > 0,
        crate::text::rejoined(texts(out@), sep) == s@,
        0 <= i < out@.len() ==> !out@[i]@.contains(sep),
{
    crate::text::law_splitting_loses_nothing(s@, sep);
    let parts = texts(out@);
    assert(parts.len() == out@.len());
    if 0 <= i < out@.len() && out@[i]@.contains(sep) {
        assert(parts[i] == out@[i]@);
        let j = choose|j: int| 0 <= j < out@[i]@.len() && out@[i]@[j] == sep;
        assert(parts[i][j] == sep);
    }
}

/// Lower case changes capital ASCII letters alone, each to its small one.
pub proof fn law_capitals_become_small(s: &str, out: String, i: int)
    requires
        call_ensures(ascii_lower, (s,), out),
        0 <= i < s@.len(),
    ensures
        out@.len() == s@.len(),
        !('A' <= s@[i] <= 'Z') ==> out@[i] == s@[i],
        'A' <= s@[i] <= 'Z' ==> out@[i] as int - 'a' as int == s@[i] as int - 'A' as int,
{
}

/// Numbers are read back from what is written of them; a sign of minus is none of a number
/// without sign.
pub proof fn law_numbers_are_read_back(
    n: u64,
    out: String,
    text: &str,
    back: Option<u64>,
    small: Option<u32>,
    m: i64,
    signed: String,
)
    requires
        call_ensures(decimal_text, (n,), out),
        text@ == out@,
        call_ensures(parse_u64, (text,), back),
        call_ensures(parse_u32, (text,), small),
        call_ensures(signed_decimal_text, (m,), signed),
    ensures
        back == Some(n),
        n <= u32::MAX ==> small == Some(n as u32),
        n > u32::MAX ==> small is None,
        m == n ==> signed@ == out@,
        m + n == 0 && n > 0 ==> signed@ == seq!['-'] + out@,
{
    crate::text::law_decimal_is_read_back(n as nat, u64::MAX as nat);
    crate::text::lemma_decimal_value(n as nat);
    assert(crate::text::is_digit(decimal(n as nat)[0]));
    if n <= u32::MAX {
        crate::text::law_decimal_is_read_back(n as nat, u32::MAX as nat);
    }
}

/// A path is compared without white space around it and separators at its end.
pub proof fn law_a_path_is_made_plain(p: &str, out: String)
    requires
        call_ensures(norm_path, (p,), out),
        tight(p@),
        p@.last() != '/' && p@.last() != '\\',
    ensures
        out@.len() == p@.len(),
        forall|i: int|
            0 <= i < p@.len() ==> #[trigger] out@[i] == if p@[i] == '\\' {
                '/'
            } else {
                p@[i]
            },
{
    crate::text::lemma_trimmed_whole(p@);
}

/// White space around a path and a separator at its end make no difference to what it is
/// compared as; and paths are the same where that is, or is but for upper and lower case
/// where case is ignored.
pub proof fn law_paths_are_compared_plain(
    p: &str,
    out: String,
    q: &str,
    other: String,
    ignore_case: bool,
    same: bool,
)
    requires
        call_ensures(norm_path, (p,), out),
        call_ensures(norm_path, (q,), other),
        call_ensures(paths_eq, (p, q, ignore_case), same),
    ensures
        trimmed(p@) == trimmed(q@) ==> out@ == other@,
        trimmed(q@) == trimmed(p@).push('/') || trimmed(q@) == trimmed(p@).push('\\') ==> out@
            == other@,
        trimmed(p@).len() == 0 ==> out@.len() == 0,
        !ignore_case ==> same == (out@ == other@),
        ignore_case ==> same == (crate::paths::lowercase(out@) == crate::paths::lowercase(other@)),
{
    let f = |c: char| crate::paths::forward(c);
    let slash = |c: char| c == '/';
    let a = trimmed(p@).map_values(f);
    let b = trimmed(q@).map_values(f);
    if trimmed(q@) == trimmed(p@).push('/') || trimmed(q@) == trimmed(p@).push('\\') {
        assert(b.drop_last() =~= a);
        assert(slash(b.last()));
        assert(crate::text::trim_end_by(b, slash) == crate::text::trim_end_by(a, slash));
    }
}

/// White space around a path and a separator at its end make no difference to its name.
pub proof fn law_names_are_told_plain(p: &str, out: String, q: &str, other: String)
    requires
        call_ensures(basename, (p,), out),
        call_ensures(basename, (q,), other),
    ensures
        trimmed(p@) == trimmed(q@) ==> out@ == other@,
        trimmed(q@) == trimmed(p@).push('/') || trimmed(q@) == trimmed(p@).push('\\') ==> out@
            == other@,
        trimmed(p@).len() == 0 ==> out@.len() == 0,
{
    let sep = |c: char| crate::paths::separator(c);
    let a = trimmed(p@);
    let b = trimmed(q@);
    if b == a.push('/') || b == a.push('\\') {
        assert(b.drop_last() =~= a);
        assert(sep(b.last()));
        assert(crate::text::trim_end_by(b, sep) == crate::text::trim_end_by(a, sep));
    }
}

/// A number is written without a zero in front.
pub proof fn law_numbers_have_no_zero_in_front(n: u64, out: String)
    requires
        call_ensures(decimal_text, (n,), out),
    ensures
        out@.len() > 0,
        n == 0 ==> out@ == "0"@,
        n > 0 ==> out@[0] != '0',
{
    reveal_strlit("0");
    assert("0"@ =~= seq!['0']);
    lemma_no_zero(n as nat);
}

proof fn lemma_no_zero(n: nat)
    ensures
        decimal(n).len() > 0,
        n > 0 ==> decimal(n)[0] != '0',
        n == 0 ==> decimal(n) == seq!['0'],
    decreases n,
{
    if n >= 10 {
        lemma_no_zero(n / 10);
        assert(decimal(n)[0] == decimal(n / 10)[0]);
    }
}

/// A variable switches something on with `1` alone, and what was built here lies where
/// builds are put.
pub proof fn law_builds_and_switches_are_known(
    v: Option<&str>,
    on: bool,
    dir: &str,
    sep: &str,
    dev: bool,
    front: Seq<char>,
)
    requires
        call_ensures(is_truthy, (v,), on),
        call_ensures(is_dev_dir, (dir, sep), dev),
    ensures
        on == (v is Some && v->Some_0@ == "1"@),
        dir@ == front + sep@ + "target"@ + sep@ + "debug"@ ==> dev,
        dir@ == front + sep@ + "target"@ + sep@ + "release"@ ==> dev,
        dev ==> crate::notify::ends_with(dir@, sep@ + "target"@ + sep@ + "debug"@)
            || crate::notify::ends_with(dir@, sep@ + "target"@ + sep@ + "release"@),
{
    let debug = sep@ + "target"@ + sep@ + "debug"@;
    let release = sep@ + "target"@ + sep@ + "release"@;
    if dir@ == front + sep@ + "target"@ + sep@ + "debug"@ {
        assert(dir@.skip(dir@.len() - debug.len()) =~= debug);
    }
    if dir@ == front + sep@ + "target"@ + sep@ + "release"@ {
        assert(dir@.skip(dir@.len() - release.len()) =~= release);
    }
}

// ---------------------------------------------------------------------------
// Documents.
// ---------------------------------------------------------------------------

/// What is written of a document is read back, in either form; equal documents are told
/// equal, and a copy is one.
pub proof fn law_documents_are_read_back(
    json: &Json,
    short: String,
    long: String,
    short_text: &str,
    long_text: &str,
    short_back: Option<Json>,
    long_back: Option<Json>,
    twin: Json,
    other: &Json,
    same: bool,
)
    requires
        call_ensures(compact, (json,), short),
        call_ensures(pretty, (json,), long),
        short_text@ == short@,
        long_text@ == long@,
        call_ensures(parse, (short_text,), short_back),
        call_ensures(parse, (long_text,), long_back),
        call_ensures(Json::copy, (json,), twin),
        call_ensures(Json::same, (json, other), same),
    ensures
        plain(json@, DEPTH_LIMIT as nat) ==> (short_back matches Some(d) && d@ == json@),
        plain(json@, DEPTH_LIMIT as nat) ==> (long_back matches Some(d) && d@ == json@),
        twin@ == json@,
        same == (json@ == other@),
{
}

/// A field that is set is found with its value, and every other as before.
pub proof fn law_a_field_that_is_set_is_found(
    fields: &mut Vec<(String, Json)>,
    name: &str,
    value: Json,
    after: &Vec<(String, Json)>,
    found: Option<&Json>,
    before: &Vec<(String, Json)>,
    other: &str,
    was: Option<&Json>,
    is: Option<&Json>,
)
    requires
        call_ensures(set_field, (fields, name, value), ()),
        before@ == mut_ref_current(fields)@,
        after@ == mut_ref_future(fields)@,
        call_ensures(field_of, (after, name), found),
        call_ensures(field_of, (before, other), was),
        call_ensures(field_of, (after, other), is),
        other@ != name@,
    ensures
        found matches Some(v) && v@ == value@,
        (was is Some) == (is is Some),
        was matches Some(v) ==> is->Some_0@ == v@,
{
}

/// A field of an object is the first of its name; what is no object has none.
pub proof fn law_the_first_field_counts(fields: Vec<(String, Json)>, json: &Json, key: &str, out:
    Option<&Json>, i: int)
    requires
        call_ensures(Json::get, (json, key), out),
    ensures
        *json == Json::Object(fields) && crate::json::first_field(fields@, key@, i) ==> (
        out matches Some(v) && v@ == fields@[i].1@),
        *json == Json::Object(fields) && (forall|j: int|
            0 <= j < fields@.len() ==> (#[trigger] fields@[j]).0@ != key@) ==> out is None,
        !(json@ is Object) ==> out is None,
{
    if *json == Json::Object(fields) {
        if crate::json::first_field(fields@, key@, i) {
            crate::json::lemma_first_field(fields@, key@, i);
        }
        if forall|j: int| 0 <= j < fields@.len() ==> (#[trigger] fields@[j]).0@ != key@ {
            crate::json::lemma_no_field(fields@, key@);
        }
    }
}

/// A document is told for what it is.
pub proof fn law_documents_are_what_they_are(
    json: &Json,
    key: &str,
    field: Option<&Json>,
    flag: Option<bool>,
    text: Option<&str>,
    own_flag: Option<bool>,
    null: bool,
    object: bool,
)
    requires
        call_ensures(Json::get, (json, key), field),
        call_ensures(Json::get_bool, (json, key), flag),
        call_ensures(Json::get_str, (json, key), text),
        call_ensures(Json::as_bool, (json,), own_flag),
        call_ensures(Json::is_null, (json,), null),
        call_ensures(Json::is_object, (json,), object),
    ensures
        field is None ==> flag is None && text is None,
        field matches Some(v) ==> (v@ matches JsonView::Bool(b) ==> flag == Some(b)),
        field matches Some(v) ==> !(v@ is Bool) ==> flag is None,
        field matches Some(v) ==> (v@ matches JsonView::Str(s) ==> (text matches Some(t) && t@
            == s)),
        field matches Some(v) ==> !(v@ is Str) ==> text is None,
        json@ matches JsonView::Bool(b) ==> own_flag == Some(b),
        !(json@ is Bool) ==> own_flag is None,
        null == (json@ is Null),
        object == (json@ is Object),
{
}

/// A list is told with all its items, and a whole number as it is.
pub proof fn law_lists_and_numbers_are_told(
    json: &Json,
    items: Option<&Vec<Json>>,
    whole: Option<u64>,
    holder: &Json,
    key: &str,
    field: Option<&Json>,
    inner: Option<&Vec<Json>>,
)
    requires
        call_ensures(Json::as_array, (json,), items),
        call_ensures(Json::as_whole, (json,), whole),
        call_ensures(Json::get, (holder, key), field),
        call_ensures(Json::get_array, (holder, key), inner),
    ensures
        (items is Some) == (json@ is Array),
        json@ matches JsonView::Array(views) ==> crate::json::array_view(items->Some_0@) == views,
        json@ matches JsonView::Number(n) ==> whole == n.whole,
        !(json@ is Number) ==> whole is None,
        field is None ==> inner is None,
        field matches Some(v) ==> (inner is Some) == (v@ is Array),
        field matches Some(v) ==> (v@ matches JsonView::Array(views) ==> crate::json::array_view(
            inner->Some_0@,
        ) == views),
{
}

/// Fields that are set over others win, and the others stay.
pub proof fn law_fields_set_over_others_win(
    fields: &mut Vec<(String, Json)>,
    over: &Vec<(String, Json)>,
    key: &str,
    before: &Vec<(String, Json)>,
    after: &Vec<(String, Json)>,
    was: Option<&Json>,
    set: Option<&Json>,
    is: Option<&Json>,
)
    requires
        call_ensures(set_fields, (fields, over), ()),
        before@ == mut_ref_current(fields)@,
        after@ == mut_ref_future(fields)@,
        call_ensures(field_of, (before, key), was),
        call_ensures(field_of, (over, key), set),
        call_ensures(field_of, (after, key), is),
    ensures
        set matches Some(v) ==> (is matches Some(w) && w@ == v@),
        set is None ==> (is is Some) == (was is Some),
        set is None && was is Some ==> is->Some_0@ == was->Some_0@,
{
}

// ---------------------------------------------------------------------------
// Replies and answers.
// ---------------------------------------------------------------------------

/// A reply speaks the second version of the protocol, carries the id of its request, and
/// either the result or the error.
pub proof fn law_replies_are_what_they_say(
    id: Json,
    result: Json,
    out: Json,
    code: i64,
    message: &str,
    error: Json,
    failed: Json,
)
    requires
        call_ensures(rpc_result, (id, result), out),
        call_ensures(rpc_error, (id, code, message), error),
        call_ensures(tool_error_content, (message,), failed),
    ensures
        results(out@, id@, result@),
        out@.field_text("jsonrpc"@) == Some("2.0"@),
        refuses(error@, id@, code as int, message@),
        error@.field_text("jsonrpc"@) == Some("2.0"@),
        says(failed@, message@),
        failed@.field_flag("isError"@) == Some(true),
{
    law_replies_carry_the_id(id@, result@, code as int, message@);
    lemma_error_says(id@, code as int, message@);
    reveal_strlit("jsonrpc");
    let good = seq![("jsonrpc"@, JsonView::Str("2.0"@)), ("id"@, id@), ("result"@, result@)];
    lemma_object_field(good, 0);
    let inner = object_of(
        seq![("code"@, number_of(code as int)), ("message"@, JsonView::Str(message@))],
    );
    let bad = seq![("jsonrpc"@, JsonView::Str("2.0"@)), ("id"@, id@), ("error"@, inner)];
    lemma_object_field(bad, 0);
    lemma_failed(message@);
}

proof fn lemma_failed(message: Seq<char>)
    ensures
        says(crate::mcp_server::tool_error_of(message), message),
        crate::mcp_server::tool_error_of(message).field_flag("isError"@) == Some(true),
{
    reveal_strlit("content");
    reveal_strlit("isError");
    reveal_strlit("type");
    reveal_strlit("text");
    assert("content"@.len() == 7 && "isError"@.len() == 7);
    assert("content"@[0] == 'c' && "isError"@[0] == 'i');
    assert("type"@[1] == 'y' && "text"@[1] == 'e');
    let block = seq![("type"@, JsonView::Str("text"@)), ("text"@, JsonView::Str(message))];
    lemma_object_field(block, 0);
    lemma_object_field(block, 1);
    let content = JsonView::Array(seq![object_of(block)]);
    let bad = seq![("content"@, content), ("isError"@, JsonView::Bool(true))];
    lemma_object_field(bad, 0);
    lemma_object_field(bad, 1);
}

/// Where the answer can no longer come the agent is told so.
pub proof fn law_lost_questions_are_told(out: Json)
    requires
        call_ensures(orphaned_content, (), out),
    ensures
        says(
            out@,
            "The ask was orphaned: Quarterdeck was closed or restarted while the question was pending."@,
        ),
        out@.field_flag("isError"@) == Some(true),
{
    lemma_failed(
        "The ask was orphaned: Quarterdeck was closed or restarted while the question was pending."@,
    );
}

/// An answer holds what the user said, and how; a question that ended without one holds
/// nothing.
pub proof fn law_answers_hold_what_was_said(
    words: &str,
    picked: AskAnswer,
    typed: AskAnswer,
    filled: AskAnswer,
    late: AskAnswer,
    declined: AskAnswer,
    withdrawn: AskAnswer,
)
    requires
        call_ensures(AskAnswer::option, (words,), picked),
        call_ensures(AskAnswer::text, (words,), typed),
        call_ensures(AskAnswer::form, (words,), filled),
        call_ensures(AskAnswer::timeout, (), late),
        call_ensures(AskAnswer::dismissed, (), declined),
        call_ensures(AskAnswer::cancelled, (), withdrawn),
    ensures
        picked.answer@ == words@ && picked.kind is Option,
        typed.answer@ == words@ && typed.kind is Text,
        filled.answer@ == words@ && filled.kind is Form,
        late.answer@.len() == 0 && late.kind is Timeout,
        declined.answer@.len() == 0 && declined.kind is Dismissed,
        withdrawn.answer@.len() == 0 && withdrawn.kind is Cancelled,
{
}

/// Two texts are the same exactly where they are, however long it takes to tell.
pub proof fn law_secrets_are_compared(a: &str, b: &str, out: bool)
    requires
        call_ensures(constant_time_eq, (a, b), out),
    ensures
        a@ == b@ ==> out,
        a@ != b@ ==> !out,
{
}

/// Who has no token is told so; a document is sent as JSON.
pub proof fn law_replies_have_their_status(
    refused: HttpReply,
    status: u16,
    document: &Json,
    out: HttpReply,
    body: String,
)
    requires
        call_ensures(unauthorized, (), refused),
        call_ensures(json_response, (status, document), out),
        call_ensures(compact, (document,), body),
    ensures
        refused.status == 401,
        refused.authenticate matches Some(a) && a@ == "Bearer"@,
        refused.content_type matches Some(t) && t@ == "application/json"@,
        refused.body@
            == "{\"error\":\"unauthorized\",\"message\":\"Missing or invalid bearer token\"}"@,
        out.status == status,
        out.authenticate is None,
        out.content_type matches Some(t) && t@ == "application/json"@,
        out.body@ == body@,
{
}

/// The tool and the token for signs of life are read from the request.
pub proof fn law_requests_name_their_tool(
    params: &Json,
    name: String,
    token: Option<Json>,
    meta: JsonView,
    value: JsonView,
)
    requires
        call_ensures(tool_name, (params,), name),
        call_ensures(progress_token, (params,), token),
    ensures
        params@.field("name"@) matches Some(JsonView::Str(s)) ==> name@ == s,
        !(params@.field("name"@) matches Some(JsonView::Str(_))) ==> name@.len() == 0,
        params@.field("_meta"@) == Some(meta) && meta.field("progressToken"@) == Some(value) && !(
        value is Null) ==> (token matches Some(t) && t@ == value),
        params@.field("_meta"@) == Some(meta) && meta.field("progressToken"@) == Some(value)
            && value is Null ==> token is None,
        params@.field("_meta"@) == Some(meta) && meta.field("progressToken"@) is None
            ==> token is None,
        params@.field("_meta"@) is None ==> token is None,
{
}

/// The questions of a form are read alone as they are with everything else.
pub proof fn law_a_form_is_read_as_part_of_the_request(
    args: &Json,
    id: &Json,
    out: Option<Vec<AskQuestion>>,
    request: AskRequest,
)
    requires
        call_ensures(parse_questions, (args,), out),
        call_ensures(parse_ask_request, (id, args), Ok(request)),
    ensures
        optional_form(request.questions) == optional_form(out),
{
}

// ---------------------------------------------------------------------------
// Ids and tokens.
// ---------------------------------------------------------------------------

/// An id tells when a question came and which it was; a file is named after an id that
/// leads out of no directory.
pub proof fn law_ids_tell_the_time(
    now: u64,
    seq: u64,
    out: String,
    id: &str,
    stem: Result<&str, String>,
)
    requires
        call_ensures(ask_id, (now, seq), out),
        call_ensures(safe_file_stem, (id,), stem),
    ensures
        out@ == "ask-"@ + decimal(now as nat) + "-"@ + decimal(seq as nat),
        harmless(id@) ==> (stem matches Ok(s) && s@ == id@),
        !harmless(id@) ==> (stem matches Err(message) && message@ == "invalid id: "@ + quoted(
            id@,
        )),
{
}

/// What is left of a number when its last `width` hexadecimal digits are taken off.
pub open spec fn hex_rest(n: nat, width: nat) -> nat
    decreases width,
{
    if width == 0 {
        n
    } else {
        hex_rest(n / 16, (width - 1) as nat)
    }
}

proof fn lemma_hex_tells(a: nat, b: nat, width: nat)
    requires
        hex(a, width) == hex(b, width),
        hex_rest(a, width) == hex_rest(b, width),
    ensures
        a == b,
    decreases width,
{
    if width > 0 {
        let x = hex(a, width);
        let y = hex(b, width);
        assert(x.last() == y.last());
        assert(x.drop_last() =~= hex(a / 16, (width - 1) as nat));
        assert(y.drop_last() =~= hex(b / 16, (width - 1) as nat));
        lemma_hex_tells(a / 16, b / 16, (width - 1) as nat);
        assert(a % 16 == b % 16);
    }
}

proof fn lemma_hex_rest(n: u64)
    ensures
        hex_rest(n as nat, 16) == 0,
{
    reveal_with_fuel(hex_rest, 17);
}

proof fn lemma_hex_width(n: nat, width: nat)
    ensures
        hex(n, width).len() == width,
    decreases width,
{
    if width > 0 {
        lemma_hex_width(n / 16, (width - 1) as nat);
    }
}

proof fn lemma_hex_words_at(words: Seq<u64>, i: int)
    requires
        0 <= i < words.len(),
    ensures
        hex_words(words).len() == 16 * words.len(),
        hex_words(words).subrange(16 * i, 16 * i + 16) == hex(words[i] as nat, 16),
    decreases words.len(),
{
    let front = words.drop_last();
    lemma_hex_width(words.last() as nat, 16);
    if front.len() > 0 {
        lemma_hex_words_at(front, if i < front.len() {
            i
        } else {
            0
        });
    } else {
        assert(hex_words(front).len() == 0);
    }
    let all = hex_words(words);
    if i < front.len() {
        assert(all.subrange(16 * i, 16 * i + 16) =~= hex_words(front).subrange(
            16 * i,
            16 * i + 16,
        ));
        assert(front[i] == words[i]);
    } else {
        assert(all.subrange(16 * i, 16 * i + 16) =~= hex(words[i] as nat, 16));
    }
}

/// A token is 48 small hexadecimal digits, and tells its first three words apart: other
/// words give another token.
pub proof fn law_tokens_tell_their_words_apart(
    words: &Vec<u64>,
    token: String,
    other_words: &Vec<u64>,
    other: String,
    i: int,
)
    requires
        words@.len() >= 3,
        other_words@.len() >= 3,
        call_ensures(token_of, (words,), token),
        call_ensures(token_of, (other_words,), other),
    ensures
        token@.len() == 48,
        0 <= i < 48 ==> '0' <= token@[i] <= '9' || 'a' <= token@[i] <= 'f',
        0 <= i < 3 && words@[i] != other_words@[i] ==> token@ != other@,
{
    assert(token@.len() == 48);
    if 0 <= i < 48 {
        assert(crate::mcp_server::hex_letter(token@[i]));
    }
    if 0 <= i < 3 && token@ == other@ {
        lemma_hex_words_at(words@, i);
        lemma_hex_words_at(other_words@, i);
        assert(token@.subrange(16 * i, 16 * i + 16) =~= hex_words(words@).subrange(
            16 * i,
            16 * i + 16,
        ));
        assert(other@.subrange(16 * i, 16 * i + 16) =~= hex_words(other_words@).subrange(
            16 * i,
            16 * i + 16,
        ));
        lemma_hex_rest(words@[i]);
        lemma_hex_rest(other_words@[i]);
        lemma_hex_tells(words@[i] as nat, other_words@[i] as nat, 16);
    }
}

// ---------------------------------------------------------------------------
// The queue.
// ---------------------------------------------------------------------------

/// A permission request lives for ninety seconds.
pub proof fn law_a_prompt_has_a_deadline(perm: &ShellPerm, out: u64)
    requires
        call_ensures(ShellPerm::deadline_ms, (perm,), out),
    ensures
        perm.received_ms + 90_000 <= u64::MAX ==> out == perm.received_ms + 90_000,
        perm.received_ms + 90_000 > u64::MAX ==> out == u64::MAX,
{
}

/// What expires is taken out and what does not stays, whether the deck is swept or a list
/// of its own.
pub proof fn law_lists_are_swept_as_the_deck_is(
    deck: &mut Deck,
    asks: &mut Vec<PendingAsk>,
    now: u64,
    out: Vec<PendingAsk>,
    taken: Vec<PendingAsk>,
    perm_deck: &mut Deck,
    perms: &mut Vec<ShellPerm>,
    perm_out: Vec<ShellPerm>,
    perm_taken: Vec<ShellPerm>,
)
    requires
        call_ensures(Deck::sweep_expired_asks, (deck, now), out),
        call_ensures(drain_expired_asks, (asks, now), taken),
        mut_ref_current(asks)@ == mut_ref_current(deck).asks@,
        call_ensures(Deck::sweep_expired_perms, (perm_deck, now), perm_out),
        call_ensures(drain_expired_perms, (perms, now), perm_taken),
        mut_ref_current(perms)@ == mut_ref_current(perm_deck).perms@,
    ensures
        taken@ == out@,
        mut_ref_future(asks)@ == mut_ref_future(deck).asks@,
        perm_taken@ == perm_out@,
        mut_ref_future(perms)@ == mut_ref_future(perm_deck).perms@,
{
}

/// The first question of an id is taken out, and no other; and whether a request waits is
/// told.
pub proof fn law_a_question_is_taken_by_its_id(
    deck: &mut Deck,
    id: &str,
    out: Option<PendingAsk>,
    i: int,
    other: &Deck,
    there: bool,
)
    requires
        call_ensures(Deck::take_ask, (deck, id), out),
        call_ensures(Deck::has_perm, (other, id), there),
    ensures
        mut_ref_future(deck).perms == mut_ref_current(deck).perms,
        first_with(mut_ref_current(deck).asks@, id@, i) ==> out == Some(
            mut_ref_current(deck).asks@[i],
        ) && mut_ref_future(deck).asks@ == mut_ref_current(deck).asks@.remove(i),
        none_with(mut_ref_current(deck).asks@, id@) ==> out is None && mut_ref_future(deck).asks
            == mut_ref_current(deck).asks,
        there == waits(other.perms@, id@),
{
    let asks = mut_ref_current(deck).asks@;
    let named = |a: PendingAsk| crate::deck::ask_named(a, id@);
    if first_with(asks, id@, i) {
        crate::lists::lemma_is_first(asks, named, i);
    }
    crate::lists::lemma_first_where(asks, named);
    crate::lists::lemma_first_where(
        other.perms@,
        |p: ShellPerm| crate::deck::perm_named(p, id@),
    );
}

/// The file of a question holds its document, and each question of a form stands there with
/// its label, its text, its options and how many may be picked.
pub proof fn law_a_form_is_written_down_whole(
    ask: &PendingAsk,
    at: u64,
    out: Json,
    text: String,
    form: Vec<AskQuestion>,
    k: int,
)
    requires
        call_ensures(ask_to_document, (ask, at), out),
        call_ensures(ask_file_text, (ask, at), text),
        ask.questions == Some(form),
        0 <= k < form@.len(),
    ensures
        parsed_text(text@) == Some(out@),
        out@.field("questions"@) matches Some(JsonView::Array(items)) && items.len() == form@.len()
            && {
            &&& items[k].field_text("question"@) == Some(form@[k].question@)
            &&& items[k].field_flag("multiSelect"@) == Some(form@[k].multi_select)
            &&& match form@[k].header {
                Some(h) => items[k].field_text("header"@) == Some(h@),
                None => items[k].field("header"@) == Some(JsonView::Null),
            }
            &&& items[k].field("options"@) matches Some(JsonView::Array(options)) && options.len()
                == form@[k].options@.len() && forall|j: int|
                0 <= j < options.len() ==> #[trigger] options[j] == JsonView::Str(
                    form@[k].options@[j]@,
                )
        },
{
    crate::deck::lemma_ask_document_fields(*ask, at);
    let fields = crate::deck::ask_fields(*ask, at);
    assert(fields[5].0 == "questions"@);
    let view = crate::ipc::form_view(form@);
    assert(view[k] == form@[k]@);
    let one = crate::deck::question_fields(view[k]);
    reveal_strlit("header");
    reveal_strlit("question");
    reveal_strlit("multiSelect");
    reveal_strlit("options");
    assert("header"@.len() == 6 && "question"@.len() == 8 && "multiSelect"@.len() == 11
        && "options"@.len() == 7);
    lemma_object_field(one, 0);
    lemma_object_field(one, 1);
    lemma_object_field(one, 2);
    lemma_object_field(one, 3);
    let options = texts(form@[k].options@);
    assert(options.len() == form@[k].options@.len());
    assert(forall|j: int| 0 <= j < options.len() ==> #[trigger] options[j] == form@[k].options@[j]@);
    let items = fields[5].1->Array_0;
    assert(items[k] == crate::deck::question_document(view[k]));
}

/// A copy of a form is the form.
pub proof fn law_a_copied_form_is_the_form(
    form: &Option<Vec<AskQuestion>>,
    out: Option<Vec<AskQuestion>>,
    i: int,
)
    requires
        call_ensures(copy_form, (form,), out),
    ensures
        (out is Some) == (*form is Some),
        *form matches Some(f) ==> out->Some_0@.len() == f@.len(),
        *form matches Some(f) ==> 0 <= i < f@.len() ==> out->Some_0@[i]@ == f@[i]@,
{
    if let Some(f) = form {
        let a = crate::ipc::form_view(f@);
        let b = crate::ipc::form_view(out->Some_0@);
        assert(a.len() == f@.len() && b.len() == out->Some_0@.len());
        if 0 <= i < f@.len() {
            assert(a[i] == b[i]);
        }
    }
}

/// A terminal's processes are those of the first that is known of the session.
pub proof fn law_the_first_terminal_counts(
    terminals: &Vec<Terminal>,
    id: &str,
    out: Vec<u32>,
    i: int,
)
    requires
        call_ensures(session_terminal_pids, (terminals, id), out),
    ensures
        0 <= i < terminals@.len() && terminals@[i].session_id@ == id@ && (forall|j: int|
            0 <= j < i ==> (#[trigger] terminals@[j]).session_id@ != id@) ==> out@
            == terminals@[i].pids@,
        (forall|j: int| 0 <= j < terminals@.len() ==> (#[trigger] terminals@[j]).session_id@ != id@)
            ==> out@.len() == 0,
{
    let of = |t: Terminal| crate::sessions::terminal_of(t, id@);
    crate::lists::lemma_first_where(terminals@, of);
    if 0 <= i < terminals@.len() && terminals@[i].session_id@ == id@ && (forall|j: int|
        0 <= j < i ==> (#[trigger] terminals@[j]).session_id@ != id@) {
        crate::lists::lemma_is_first(terminals@, of, i);
    }
}

/// An input is shown as its document, where it is one; and as itself, with its escapes
/// undone, where it is none.
pub proof fn law_inputs_are_shown_by_what_they_are(
    raw: &str,
    document: Option<Json>,
    out: String,
    readable: String,
    d: JsonView,
)
    requires
        call_ensures(show_input, (raw, document), out),
        call_ensures(pretty_tool_input, (raw,), readable),
    ensures
        trimmed(raw@).len() == 0 ==> out@.len() == 0,
        document is Some && document->Some_0@ == d && parsed_text(trimmed(raw@)) == Some(d)
            ==> out@ == readable@,
        document is None && parsed_text(trimmed(raw@)) is None ==> out@ == readable@,
{
}

} // verus!
