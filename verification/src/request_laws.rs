//! What holds of requests from agents: how arguments come through, and what is
//! answered.

use crate::ipc::form_view;
use crate::json::{lemma_object_field, number_of, object_of, Json, JsonView};
use crate::lists::{
    lemma_all_mapped, lemma_filter_map_prefix, lemma_same_filter, lemma_same_filter_map,
    lemma_unmapped,
};
use crate::mcp_server::{
    form_option, form_question, law_replies_carry_the_id, no_question, parse_ask_request,
    rpc_error_of, stripped_text, AskRequest,
};
use crate::text::{bidi_control, bidi_stripped, grapheme_clusters, law_trimmed_ends, texts, trimmed};
use vstd::prelude::*;

verus! {

/// `s` without the characters that turn the direction of text.
pub open spec fn undirected(s: Seq<char>) -> Seq<char> {
    s.filter(|c: char| !('\u{202a}' <= c <= '\u{202e}' || '\u{2066}' <= c <= '\u{2069}'))
}

pub proof fn lemma_undirected()
    ensures
        forall|s: Seq<char>| #[trigger] bidi_stripped(s) == undirected(s),
        bidi_stripped(trimmed(Seq::empty())).len() == 0,
{
    assert forall|s: Seq<char>| #[trigger] bidi_stripped(s) == undirected(s) by {
        lemma_same_filter(
            s,
            |c: char| !bidi_control(c),
            |c: char| !('\u{202a}' <= c <= '\u{202e}' || '\u{2066}' <= c <= '\u{2069}'),
        );
    }
    law_trimmed_ends(Seq::empty());
    reveal(Seq::filter);
}

/// The time limit that is asked for is the time limit that is given, form or not: a
/// number of whole seconds from 1 to 3600 as it is, more as 3600, a fraction of a second
/// as one second; zero, a negative number, anything that is no number, and nothing at
/// all give none.
pub proof fn law_the_asked_time_limit_is_given(id: &Json, args: &Json, req: AskRequest)
    requires
        call_ensures(parse_ask_request, (id, args), Ok(req)),
    ensures
        args@.field("timeout_seconds"@) matches Some(JsonView::Number(n)) ==> (n.whole matches Some(
            k,
        ) ==> {
            &&& 1 <= k <= 3600 ==> req.timeout_seconds == Some(k)
            &&& k > 3600 ==> req.timeout_seconds == Some(3600u64)
            &&& k == 0 && (n.text == "0"@ || n.text == "0.0"@) ==> req.timeout_seconds is None
            &&& k == 0 && n.text.len() > 0 && n.text[0] == '-' ==> req.timeout_seconds is None
            &&& k == 0 && n.text.len() > 0 && n.text[0] != '-' && n.text != "0"@ && n.text != "0.0"@
                ==> req.timeout_seconds == Some(1u64)
        }),
        args@.field("timeout_seconds"@) is None ==> req.timeout_seconds is None,
        args@.field("timeout_seconds"@) matches Some(v) ==> !(v is Number)
            ==> req.timeout_seconds is None,
{
}

/// A request's time limit does not depend on what is asked: two sets of arguments with
/// the same `timeout_seconds` get the same limit.
pub proof fn law_the_limit_does_not_depend_on_the_question(
    id: &Json,
    args: &Json,
    req: AskRequest,
    other_id: &Json,
    other: &Json,
    other_req: AskRequest,
)
    requires
        call_ensures(parse_ask_request, (id, args), Ok(req)),
        call_ensures(parse_ask_request, (other_id, other), Ok(other_req)),
        args@.field("timeout_seconds"@) == other@.field("timeout_seconds"@),
    ensures
        req.timeout_seconds == other_req.timeout_seconds,
{
}

/// What the agent says beside the question comes through: its details without white
/// space around them, and where it runs, both without characters that turn the
/// direction of text, whether it sends a form or not.
pub proof fn law_detail_and_context_come_through(id: &Json, args: &Json, req: AskRequest)
    requires
        call_ensures(parse_ask_request, (id, args), Ok(req)),
    ensures
        match args@.field("context"@) {
            Some(JsonView::Str(s)) => req.context matches Some(c) && c@ == undirected(s),
            _ => req.context is None,
        },
        match args@.field("detail"@) {
            Some(JsonView::Str(s)) => if undirected(trimmed(s)).len() == 0 {
                req.detail is None
            } else {
                req.detail matches Some(d) && d@ == undirected(trimmed(s))
            },
            _ => req.detail is None,
        },
{
    lemma_undirected();
}

/// Whether the arguments hold no form: no list of questions.
pub open spec fn no_form(args: JsonView) -> bool {
    match args.field("questions"@) {
        Some(JsonView::Array(items)) => items.len() == 0,
        _ => true,
    }
}

/// A plain question comes through as it was put, without white space around it and
/// without characters that turn the direction of text; so do all its options that are
/// strings, in their order.
pub proof fn law_a_plain_question_comes_through(id: &Json, args: &Json, req: AskRequest)
    requires
        call_ensures(parse_ask_request, (id, args), Ok(req)),
        no_form(args@),
    ensures
        req.questions is None,
        args@.field("question"@) matches Some(JsonView::Str(s)) && req.question@ == undirected(
            trimmed(s),
        ) && req.question@.len() > 0,
        match args@.field("options"@) {
            Some(JsonView::Array(items)) => {
                let strings = items.filter_map(
                    |v: JsonView|
                        match v {
                            JsonView::Str(s) => Some(undirected(s)),
                            _ => None,
                        },
                );
                if strings.len() == 0 {
                    req.options is None
                } else {
                    req.options matches Some(o) && texts(o@) == strings
                }
            },
            _ => req.options is None,
        },
{
    let raw = |v: JsonView|
        match v {
            JsonView::Str(s) => Some(undirected(s)),
            _ => None,
        };
    lemma_undirected();
    if let Some(JsonView::Array(items)) = args@.field("questions"@) {
        let f = |v: JsonView| form_question(v);
        assert(items =~= Seq::empty());
        assert(items.filter_map(f) =~= Seq::empty());
    }
    if let Some(JsonView::Array(items)) = args@.field("options"@) {
        lemma_same_filter_map(items, |v: JsonView| stripped_text(v), raw);
    }
}

/// `s`, where it has no more than `n` grapheme clusters, and otherwise its first `n - 1`
/// and an ellipsis.
pub open spec fn cut(s: Seq<char>, n: int) -> Seq<char> {
    if grapheme_clusters(s).len() <= n {
        s
    } else {
        grapheme_clusters(s).take(n - 1).flatten().push('\u{2026}')
    }
}

/// The string field `key` without white space around it and without characters that
/// turn the direction of text; empty where there is none.
pub open spec fn tidied(v: JsonView, key: Seq<char>) -> Seq<char> {
    match v.field(key) {
        Some(JsonView::Str(s)) => undirected(trimmed(s)),
        _ => Seq::empty(),
    }
}

/// The questions of a form come through in their order, the first eight of them, each
/// with its text, header and options, and whether several may be picked.
pub proof fn law_a_form_comes_through(
    id: &Json,
    args: &Json,
    req: AskRequest,
    items: Seq<JsonView>,
)
    requires
        call_ensures(parse_ask_request, (id, args), Ok(req)),
        args@.field("questions"@) == Some(JsonView::Array(items)),
        items.len() > 0,
        forall|i: int| 0 <= i < items.len() ==> tidied(#[trigger] items[i], "question"@).len() > 0,
    ensures
        req.questions matches Some(q) && {
            &&& q@.len() == if items.len() <= 8 {
                items.len()
            } else {
                8
            }
            &&& forall|i: int|
                0 <= i < q@.len() ==> {
                    &&& (#[trigger] q@[i]).question@ == cut(tidied(items[i], "question"@), 200)
                    &&& q@[i].multi_select == (items[i].field("multiSelect"@) == Some(
                        JsonView::Bool(true),
                    ))
                    &&& if tidied(items[i], "header"@).len() == 0 {
                        q@[i].header is None
                    } else {
                        q@[i].header matches Some(h) && h@ == cut(tidied(items[i], "header"@), 60)
                    }
                }
        },
{
    lemma_undirected();
    let f = |v: JsonView| form_question(v);
    assert forall|i: int| 0 <= i < items.len() implies f(#[trigger] items[i]) is Some by {
        assert(tidied(items[i], "question"@).len() > 0);
    }
    lemma_all_mapped(items, f);
    let all = items.filter_map(f);
    let q = req.questions->Some_0;
    assert forall|i: int| 0 <= i < q@.len() implies {
        &&& (#[trigger] q@[i]).question@ == cut(tidied(items[i], "question"@), 200)
        &&& q@[i].multi_select == (items[i].field("multiSelect"@) == Some(JsonView::Bool(true)))
        &&& if tidied(items[i], "header"@).len() == 0 {
            q@[i].header is None
        } else {
            q@[i].header matches Some(h) && h@ == cut(tidied(items[i], "header"@), 60)
        }
    } by {
        assert(form_view(q@)[i] == q@[i]@);
        assert(all[i] == q@[i]@);
        assert(Some(all[i]) == f(items[i]));
        assert(items[i].field_text("question"@) is Some);
    }
}

/// The options of a question of a form come through in their order, the first twelve of
/// them: every string of which something is left, cut to a hundred grapheme clusters.
pub proof fn law_form_options_come_through(
    id: &Json,
    args: &Json,
    req: AskRequest,
    items: Seq<JsonView>,
    i: int,
)
    requires
        call_ensures(parse_ask_request, (id, args), Ok(req)),
        args@.field("questions"@) == Some(JsonView::Array(items)),
        forall|k: int| 0 <= k < items.len() ==> tidied(#[trigger] items[k], "question"@).len() > 0,
        0 <= i < items.len(),
        i < 8,
    ensures
        req.questions matches Some(q) && i < q@.len() && match items[i].field("options"@) {
            Some(JsonView::Array(options)) => {
                let left = options.filter_map(
                    |v: JsonView|
                        match v {
                            JsonView::Str(s) => if cut(undirected(trimmed(s)), 100).len() == 0 {
                                None
                            } else {
                                Some(cut(undirected(trimmed(s)), 100))
                            },
                            _ => None,
                        },
                );
                if left.len() <= 12 {
                    texts(q@[i].options@) == left
                } else {
                    texts(q@[i].options@) == left.take(12)
                }
            },
            _ => q@[i].options@.len() == 0,
        },
{
    law_a_form_comes_through(id, args, req, items);
    lemma_undirected();
    let f = |v: JsonView| form_question(v);
    assert forall|k: int| 0 <= k < items.len() implies f(#[trigger] items[k]) is Some by {
        assert(tidied(items[k], "question"@).len() > 0);
    }
    lemma_all_mapped(items, f);
    let q = req.questions->Some_0;
    assert(form_view(q@)[i] == q@[i]@);
    assert(Some(items.filter_map(f)[i]) == f(items[i]));
    assert(texts(q@[i].options@).len() == q@[i].options@.len());
    if let Some(JsonView::Array(options)) = items[i].field("options"@) {
        lemma_same_filter_map(
            options,
            |v: JsonView| form_option(v),
            |v: JsonView|
                match v {
                    JsonView::Str(s) => if cut(undirected(trimmed(s)), 100).len() == 0 {
                        None
                    } else {
                        Some(cut(undirected(trimmed(s)), 100))
                    },
                    _ => None,
                },
        );
    }
}

/// A question of a form without text makes no difference: without it, the request is the
/// same.
pub proof fn law_blank_form_questions_make_no_difference(
    id: &Json,
    args: &Json,
    req: AskRequest,
    other: &Json,
    other_req: AskRequest,
    items: Seq<JsonView>,
    n: int,
)
    requires
        call_ensures(parse_ask_request, (id, args), Ok(req)),
        call_ensures(parse_ask_request, (id, other), Ok(other_req)),
        args@.field("questions"@) == Some(JsonView::Array(items)),
        0 <= n < items.len(),
        tidied(items[n], "question"@).len() == 0,
        other@.field("questions"@) == Some(JsonView::Array(items.remove(n))),
        forall|key: Seq<char>|
            key != "questions"@ ==> #[trigger] other@.field(key) == args@.field(key),
    ensures
        other_req@ == req@,
{
    lemma_undirected();
    let f = |v: JsonView| form_question(v);
    assert(f(items[n]) is None);
    lemma_unmapped(items, f, n);
    lemma_keys_of_a_request();
    assert(other@.field("question"@) == args@.field("question"@));
    assert(other@.field("options"@) == args@.field("options"@));
    assert(other@.field("detail"@) == args@.field("detail"@));
    assert(other@.field("context"@) == args@.field("context"@));
    assert(other@.field("timeout_seconds"@) == args@.field("timeout_seconds"@));
}

proof fn lemma_keys_of_a_request()
    ensures
        "questions"@.len() == 9,
        "question"@.len() == 8,
        "options"@.len() == 7 && "options"@[0] == 'o',
        "detail"@.len() == 6,
        "context"@.len() == 7 && "context"@[0] == 'c',
        "timeout_seconds"@.len() == 15,
{
    reveal_strlit("questions");
    reveal_strlit("question");
    reveal_strlit("options");
    reveal_strlit("detail");
    reveal_strlit("context");
    reveal_strlit("timeout_seconds");
}

/// A form stands in front of a plain question: what the arguments say of `question` and
/// `options` beside it makes no difference, and the request repeats the form's first
/// question with its options.
pub proof fn law_a_form_stands_in_front(
    id: &Json,
    args: &Json,
    req: AskRequest,
    other: &Json,
    other_req: AskRequest,
)
    requires
        call_ensures(parse_ask_request, (id, args), Ok(req)),
        call_ensures(parse_ask_request, (id, other), Ok(other_req)),
        req.questions is Some,
        forall|key: Seq<char>|
            key != "question"@ && key != "options"@ ==> #[trigger] other@.field(key) == args@.field(
                key,
            ),
    ensures
        other_req@ == req@,
        req.questions matches Some(q) && q@.len() > 0 && req.question@ == q@[0].question@ && if q@[0].options@.len()
            == 0 {
            req.options is None
        } else {
            req.options matches Some(o) && texts(o@) == texts(q@[0].options@)
        },
{
    lemma_keys_of_a_request();
    assert(other@.field("questions"@) == args@.field("questions"@));
    assert(other@.field("detail"@) == args@.field("detail"@));
    assert(other@.field("context"@) == args@.field("context"@));
    assert(other@.field("timeout_seconds"@) == args@.field("timeout_seconds"@));
    let q = req.questions->Some_0;
    assert(form_view(q@)[0] == q@[0]@);
    assert(texts(q@[0].options@).len() == q@[0].options@.len());
}

/// Arguments that put a question are never refused, and those that put none are refused
/// with an error that carries the id of the request.
pub proof fn law_only_what_asks_nothing_is_refused(
    id: &Json,
    args: &Json,
    out: Result<AskRequest, Json>,
)
    requires
        call_ensures(parse_ask_request, (id, args), out),
    ensures
        tidied(args@, "question"@).len() > 0 ==> out is Ok,
        tidied(args@, "question"@).len() == 0 && no_form(args@) ==> out is Err,
        args@.field("questions"@) matches Some(JsonView::Array(items)) ==> items.len() > 0 && tidied(
            items[0],
            "question"@,
        ).len() > 0 ==> out is Ok,
        out matches Err(reply) ==> reply@.field("id"@) == Some(id@) && reply@.field("result"@) is None
            && (reply@.field("error"@) matches Some(e) && e.field("code"@) == Some(number_of(-32602))
            && e.field_text("message"@) == Some(
            "ask_user requires a non-empty `question` (or a non-empty `questions` array)"@,
        )),
{
    lemma_undirected();
    if let Some(JsonView::Array(items)) = args@.field("questions"@) {
        let f = |v: JsonView| form_question(v);
        if items.len() == 0 {
            assert(items.filter_map(f) =~= Seq::empty());
        } else if tidied(items[0], "question"@).len() > 0 {
            items.lemma_filter_map_take_succ(f, 0);
            lemma_filter_map_prefix(items, f, 1);
            assert(items.take(0) =~= Seq::empty());
            assert(f(items[0]) is Some);
            assert(items.take(1).filter_map(f).len() == 1);
        }
    }
    if out is Err {
        let message = no_question();
        law_replies_carry_the_id(id@, JsonView::Null, -32602, message);
        lemma_error_says(id@, -32602, message);
    }
}

/// What an error says.
pub proof fn lemma_error_says(id: JsonView, code: int, message: Seq<char>)
    ensures
        rpc_error_of(id, code, message).field("error"@) matches Some(e) && e.field_text("message"@)
            == Some(message) && e.field("code"@) == Some(number_of(code)),
{
    reveal_strlit("jsonrpc");
    reveal_strlit("id");
    reveal_strlit("error");
    reveal_strlit("code");
    reveal_strlit("message");
    assert("jsonrpc"@.len() == 7 && "id"@.len() == 2 && "error"@.len() == 5 && "code"@.len() == 4
        && "message"@.len() == 7);
    let inner = seq![("code"@, number_of(code)), ("message"@, JsonView::Str(message))];
    lemma_object_field(inner, 0);
    lemma_object_field(inner, 1);
    let outer = seq![
        ("jsonrpc"@, JsonView::Str("2.0"@)),
        ("id"@, id),
        ("error"@, object_of(inner)),
    ];
    lemma_object_field(outer, 2);
}

} // verus!
