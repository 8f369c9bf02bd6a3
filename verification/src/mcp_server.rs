//! The server through which agents reach the human: which requests it takes,
//! what it makes of their arguments, and what it answers.

pub use crate::catalog::{initialize_result, tools_list_result, PROTOCOL_VERSION};
use crate::catalog::{server_facts, tool_list};
use crate::ipc::{form_view, kind_name, optional_form, AskAnswerKind, AskQuestion, QuestionView};
use crate::json::{
    array_view, compact, compact_text, lemma_object_field, lemma_object_no_field,
    lemma_plain_fields, lemma_raw_key, number, number_of, object, object_of, pairs, parse_bytes,
    parsed_bytes, parsed_text, plain, signed_number, text, Json, JsonView, DEPTH_LIMIT,
};
use crate::lists::{at_most, lemma_filter_map_prefix};
use crate::text::{
    after_prefix, bidi_stripped, clean, copy_texts, decimal, decimal_text, grapheme_capped, joined,
    law_stripped_is_clean, lemma_shortened_is_clean, optional_str, optional_text, optional_texts,
    parse_u64, parsed_unsigned, quote, quoted, same_text, slice_of, strip_bidi_controls,
    strip_prefix, texts, trim, trimmed, truncate_graphemes,
};
use std::collections::hash_map::{DefaultHasher, RandomState};
use std::hash::{BuildHasher, Hasher};
use vstd::prelude::*;
use vstd::string::*;

verus! {

/// Path of the endpoint.
pub const MCP_PATH: &'static str = "/mcp";

/// Longest time that a question can be given to expire, in seconds.
pub const MAX_TIMEOUT_SECONDS: u64 = 3600;

/// Most questions in one form.
pub const MAX_QUESTIONS: usize = 8;

/// Most options for one question.
pub const MAX_OPTIONS_PER_QUESTION: usize = 12;

/// Cap on a question's header, in grapheme clusters.
pub const MAX_HEADER_CHARS: usize = 60;

/// Cap on a question's text, in grapheme clusters.
pub const MAX_QUESTION_CHARS: usize = 200;

/// Cap on an option's text, in grapheme clusters.
pub const MAX_OPTION_CHARS: usize = 100;

/// A question from an agent to the human.
#[derive(Clone, Debug)]
pub struct AskRequest {
    pub question: String,
    pub options: Option<Vec<String>>,
    /// The form, where the agent sent one; `question` and `options` then repeat
    /// its first question.
    pub questions: Option<Vec<AskQuestion>>,
    pub detail: Option<String>,
    /// Where the agent runs.
    pub context: Option<String>,
    /// Seconds until the question expires, unless it never does.
    pub timeout_seconds: Option<u64>,
}

/// What an [`AskRequest`] says.
pub ghost struct AskRequestView {
    pub question: Seq<char>,
    pub options: Option<Seq<Seq<char>>>,
    pub questions: Option<Seq<QuestionView>>,
    pub detail: Option<Seq<char>>,
    pub context: Option<Seq<char>>,
    pub timeout_seconds: Option<u64>,
}

impl View for AskRequest {
    type V = AskRequestView;

    open spec fn view(&self) -> AskRequestView {
        AskRequestView {
            question: self.question@,
            options: optional_texts(self.options),
            questions: optional_form(self.questions),
            detail: optional_text(self.detail),
            context: optional_text(self.context),
            timeout_seconds: self.timeout_seconds,
        }
    }
}

/// Whether no text holds a bidi control.
pub open spec fn all_clean(s: Seq<Seq<char>>) -> bool {
    forall|i: int| 0 <= i < s.len() ==> clean(#[trigger] s[i])
}

/// Whether a text, where there is one, holds no bidi control.
pub open spec fn optional_clean(s: Option<Seq<char>>) -> bool {
    s matches Some(x) ==> clean(x)
}

/// Whether nothing in a question of a form holds a bidi control.
pub open spec fn question_clean(q: QuestionView) -> bool {
    optional_clean(q.header) && clean(q.question) && all_clean(q.options)
}

/// Whether nothing that a human will read in a request holds a bidi control.
pub open spec fn request_clean(r: AskRequestView) -> bool {
    &&& clean(r.question)
    &&& r.options matches Some(o) ==> all_clean(o)
    &&& r.questions matches Some(q) ==> forall|i: int|
        0 <= i < q.len() ==> question_clean(#[trigger] q[i])
    &&& optional_clean(r.detail)
    &&& optional_clean(r.context)
}

// ---------------------------------------------------------------------------
// Arguments.
// ---------------------------------------------------------------------------

/// The string field `key` of `args`, trimmed and without bidi controls; empty
/// where there is no such field.
pub open spec fn clean_field(args: JsonView, key: Seq<char>) -> Seq<char> {
    bidi_stripped(
        trimmed(
            match args.field_text(key) {
                Some(s) => s,
                None => Seq::empty(),
            },
        ),
    )
}

fn clean_field_of(args: &Json, key: &str) -> (out: String)
    ensures
        out@ == clean_field(args@, key@),
        clean(out@),
{
    proof {
        law_stripped_is_clean(
            trimmed(
                match args@.field_text(key@) {
                    Some(s) => s,
                    None => Seq::empty(),
                },
            ),
        );
    }
    match args.get_str(key) {
        Some(s) => strip_bidi_controls(trim(s).as_str()),
        None => {
            let none = String::new();
            strip_bidi_controls(trim(none.as_str()).as_str())
        },
    }
}

/// The string field `key` of `args`, trimmed and without bidi controls; none
/// where there is no such field.
pub open spec fn clean_optional(args: JsonView, key: Seq<char>) -> Option<Seq<char>> {
    match args.field_text(key) {
        Some(s) => Some(bidi_stripped(trimmed(s))),
        None => None,
    }
}

fn clean_optional_of(args: &Json, key: &str) -> (out: Option<String>)
    ensures
        optional_text(out) == clean_optional(args@, key@),
        optional_clean(optional_text(out)),
{
    match args.get_str(key) {
        Some(s) => {
            proof {
                law_stripped_is_clean(trimmed(s@));
            }
            Some(strip_bidi_controls(trim(s).as_str()))
        },
        None => None,
    }
}

/// The string field `key` of `args` without bidi controls.
pub open spec fn stripped_optional(args: JsonView, key: Seq<char>) -> Option<Seq<char>> {
    match args.field_text(key) {
        Some(s) => Some(bidi_stripped(s)),
        None => None,
    }
}

fn stripped_optional_of(args: &Json, key: &str) -> (out: Option<String>)
    ensures
        optional_text(out) == stripped_optional(args@, key@),
        optional_clean(optional_text(out)),
{
    match args.get_str(key) {
        Some(s) => {
            proof {
                law_stripped_is_clean(s@);
            }
            Some(strip_bidi_controls(s))
        },
        None => None,
    }
}

/// `s`, unless it is empty.
pub open spec fn non_empty(s: Option<Seq<char>>) -> Option<Seq<char>> {
    match s {
        Some(x) => if x.len() == 0 {
            None
        } else {
            Some(x)
        },
        None => None,
    }
}

fn non_empty_of(s: Option<String>) -> (out: Option<String>)
    ensures
        optional_text(out) == non_empty(optional_text(s)),
        optional_clean(optional_text(s)) ==> optional_clean(optional_text(out)),
{
    match s {
        Some(x) => if x.as_str().is_empty() {
            None
        } else {
            Some(x)
        },
        None => None,
    }
}

/// An element of a list of strings, without bidi controls; an element that is
/// no string is left out.
pub open spec fn stripped_text(v: JsonView) -> Option<Seq<char>> {
    match v.text() {
        Some(s) => Some(bidi_stripped(s)),
        None => None,
    }
}

/// The strings among `items`, without bidi controls.
pub open spec fn stripped_texts(items: Seq<JsonView>) -> Seq<Seq<char>> {
    items.filter_map(|v: JsonView| stripped_text(v))
}

proof fn lemma_all_clean_push(s: Seq<Seq<char>>, x: Seq<char>)
    requires
        all_clean(s),
        clean(x),
    ensures
        all_clean(s + seq![x]),
{
    let longer = s + seq![x];
    assert forall|i: int| 0 <= i < longer.len() implies clean(#[trigger] longer[i]) by {
        if i < s.len() {
            assert(longer[i] == s[i]);
        }
    }
}

fn stripped_texts_of(items: &Vec<Json>) -> (out: Vec<String>)
    ensures
        texts(out@) == stripped_texts(array_view(items@)),
        all_clean(texts(out@)),
{
    let ghost all = array_view(items@);
    let ghost f = |v: JsonView| stripped_text(v);
    let mut out: Vec<String> = Vec::new();
    let mut i: usize = 0;
    proof {
        assert(texts(out@) =~= all.take(0).filter_map(f));
    }
    while i < items.len()
        invariant
            i <= items@.len(),
            all == array_view(items@),
            f == (|v: JsonView| stripped_text(v)),
            texts(out@) == all.take(i as int).filter_map(f),
            all_clean(texts(out@)),
        decreases items.len() - i,
    {
        proof {
            all.lemma_filter_map_take_succ(f, i as int);
            assert(all[i as int] == items@[i as int]@);
        }
        let ghost before = texts(out@);
        match items[i].as_str() {
            Some(s) => {
                let stripped = strip_bidi_controls(s);
                out.push(stripped);
                proof {
                    law_stripped_is_clean(s@);
                    assert(texts(out@) =~= before + seq![stripped@]);
                    lemma_all_clean_push(before, stripped@);
                }
            },
            None => {
                proof {
                    assert(before + Seq::<Seq<char>>::empty() =~= before);
                }
            },
        }
        i = i + 1;
    }
    proof {
        assert(all.take(all.len() as int) =~= all);
    }
    out
}

/// The option that an element of an option list stands for: trimmed, without
/// bidi controls and capped. An element that is no string, or of which nothing
/// is left, stands for none.
pub open spec fn form_option(v: JsonView) -> Option<Seq<char>> {
    match v.text() {
        Some(s) => non_empty(
            Some(grapheme_capped(bidi_stripped(trimmed(s)), MAX_OPTION_CHARS as nat)),
        ),
        None => None,
    }
}

/// The options of one question of a form.
pub open spec fn form_options(item: JsonView) -> Seq<Seq<char>> {
    match item.field_items("options"@) {
        Some(items) => at_most(
            items.filter_map(|v: JsonView| form_option(v)),
            MAX_OPTIONS_PER_QUESTION as nat,
        ),
        None => Seq::empty(),
    }
}

fn form_options_of(item: &Json) -> (out: Vec<String>)
    ensures
        texts(out@) == form_options(item@),
        all_clean(texts(out@)),
{
    let mut out: Vec<String> = Vec::new();
    match item.get_array("options") {
        Some(items) => {
            let ghost all = array_view(items@);
            let ghost f = |v: JsonView| form_option(v);
            let mut i: usize = 0;
            proof {
                assert(texts(out@) =~= all.take(0).filter_map(f));
            }
            while i < items.len() && out.len() < MAX_OPTIONS_PER_QUESTION
                invariant
                    i <= items@.len(),
                    out@.len() <= MAX_OPTIONS_PER_QUESTION,
                    all == array_view(items@),
                    f == (|v: JsonView| form_option(v)),
                    texts(out@) == all.take(i as int).filter_map(f),
                    all_clean(texts(out@)),
                decreases items.len() - i,
            {
                proof {
                    all.lemma_filter_map_take_succ(f, i as int);
                    assert(all[i as int] == items@[i as int]@);
                }
                let ghost before = texts(out@);
                match items[i].as_str() {
                    Some(s) => {
                        let stripped = strip_bidi_controls(trim(s).as_str());
                        let option = truncate_graphemes(stripped.as_str(), MAX_OPTION_CHARS);
                        proof {
                            law_stripped_is_clean(trimmed(s@));
                            lemma_shortened_is_clean(stripped@, option@);
                        }
                        if !option.as_str().is_empty() {
                            out.push(option);
                            proof {
                                assert(texts(out@) =~= before + seq![option@]);
                                lemma_all_clean_push(before, option@);
                            }
                        } else {
                            proof {
                                assert(before + Seq::<Seq<char>>::empty() =~= before);
                            }
                        }
                    },
                    None => {
                        proof {
                            assert(before + Seq::<Seq<char>>::empty() =~= before);
                        }
                    },
                }
                i = i + 1;
            }
            proof {
                lemma_filter_map_prefix(all, f, i as int);
                if i == items@.len() {
                    assert(all.take(i as int) =~= all);
                }
                assert(texts(out@) =~= at_most(
                    all.filter_map(f),
                    MAX_OPTIONS_PER_QUESTION as nat,
                ));
            }
        },
        None => {
            proof {
                assert(texts(out@) =~= Seq::<Seq<char>>::empty());
            }
        },
    }
    out
}

/// The question that an element of a form stands for; none where it has no text.
pub open spec fn form_question(item: JsonView) -> Option<QuestionView> {
    let question = clean_field(item, "question"@);
    if question.len() == 0 {
        None
    } else {
        Some(
            QuestionView {
                header: match non_empty(clean_optional(item, "header"@)) {
                    Some(h) => Some(grapheme_capped(h, MAX_HEADER_CHARS as nat)),
                    None => None,
                },
                question: grapheme_capped(question, MAX_QUESTION_CHARS as nat),
                multi_select: item.field_flag("multiSelect"@) == Some(true),
                options: form_options(item),
            },
        )
    }
}

/// The questions of the form in `args`, where it holds any.
pub open spec fn form_questions(args: JsonView) -> Option<Seq<QuestionView>> {
    match args.field_items("questions"@) {
        Some(items) => {
            let questions = at_most(
                items.filter_map(|v: JsonView| form_question(v)),
                MAX_QUESTIONS as nat,
            );
            if questions.len() == 0 {
                None
            } else {
                Some(questions)
            }
        },
        None => None,
    }
}

fn form_question_of(item: &Json) -> (out: Option<AskQuestion>)
    ensures
        match out {
            Some(q) => form_question(item@) == Some(q@) && question_clean(q@),
            None => form_question(item@) is None,
        },
{
    let question = clean_field_of(item, "question");
    if question.as_str().is_empty() {
        return None;
    }
    let header: Option<String> = match non_empty_of(clean_optional_of(item, "header")) {
        Some(h) => {
            let capped = truncate_graphemes(h.as_str(), MAX_HEADER_CHARS);
            proof {
                lemma_shortened_is_clean(h@, capped@);
            }
            Some(capped)
        },
        None => None,
    };
    let capped = truncate_graphemes(question.as_str(), MAX_QUESTION_CHARS);
    proof {
        lemma_shortened_is_clean(question@, capped@);
    }
    let multi_select = match item.get_bool("multiSelect") {
        Some(b) => b,
        None => false,
    };
    let options = form_options_of(item);
    Some(
        AskQuestion {
            header,
            question: capped,
            multi_select,
            options,
        },
    )
}

/// Reads the form in `args`: at most [`MAX_QUESTIONS`] questions, each with at
/// most [`MAX_OPTIONS_PER_QUESTION`] options. Nothing comes back where `args`
/// holds no form, or none of its questions has a text.
pub fn parse_questions(args: &Json) -> (out: Option<Vec<AskQuestion>>)
    ensures
        optional_form(out) == form_questions(args@),
        out matches Some(q) ==> 0 < q@.len() <= MAX_QUESTIONS,
        out matches Some(q) ==> forall|i: int|
            0 <= i < q@.len() ==> question_clean((#[trigger] q@[i])@),
{
    match args.get_array("questions") {
        Some(items) => {
            let ghost all = array_view(items@);
            let ghost f = |v: JsonView| form_question(v);
            let mut out: Vec<AskQuestion> = Vec::new();
            let mut i: usize = 0;
            proof {
                assert(form_view(out@) =~= all.take(0).filter_map(f));
            }
            while i < items.len() && out.len() < MAX_QUESTIONS
                invariant
                    i <= items@.len(),
                    out@.len() <= MAX_QUESTIONS,
                    all == array_view(items@),
                    f == (|v: JsonView| form_question(v)),
                    form_view(out@) == all.take(i as int).filter_map(f),
                    forall|j: int| 0 <= j < out@.len() ==> question_clean((#[trigger] out@[j])@),
                decreases items.len() - i,
            {
                proof {
                    all.lemma_filter_map_take_succ(f, i as int);
                    assert(all[i as int] == items@[i as int]@);
                }
                let ghost before = form_view(out@);
                match form_question_of(&items[i]) {
                    Some(question) => {
                        out.push(question);
                        proof {
                            assert(form_view(out@) =~= before + seq![question@]);
                        }
                    },
                    None => {
                        proof {
                            assert(before + Seq::<QuestionView>::empty() =~= before);
                        }
                    },
                }
                i = i + 1;
            }
            proof {
                lemma_filter_map_prefix(all, f, i as int);
                if i == items@.len() {
                    assert(all.take(i as int) =~= all);
                }
                assert(form_view(out@) =~= at_most(all.filter_map(f), MAX_QUESTIONS as nat));
            }
            if out.len() == 0 {
                None
            } else {
                Some(out)
            }
        },
        None => None,
    }
}

/// The options of a plain question, where there are any.
pub open spec fn plain_options(args: JsonView) -> Option<Seq<Seq<char>>> {
    match args.field_items("options"@) {
        Some(items) => if stripped_texts(items).len() == 0 {
            None
        } else {
            Some(stripped_texts(items))
        },
        None => None,
    }
}

/// The seconds after which the question in `args` expires: none where nothing
/// above zero was asked for, and otherwise as many as were asked for, but at least one
/// and at most [`MAX_TIMEOUT_SECONDS`].
pub open spec fn asked_timeout(args: JsonView) -> Option<u64> {
    match args.field("timeout_seconds"@) {
        Some(v) => match v.whole() {
            Some(s) => if s == 0 {
                if v.above_zero() {
                    Some(1)
                } else {
                    None
                }
            } else if s > MAX_TIMEOUT_SECONDS {
                Some(MAX_TIMEOUT_SECONDS)
            } else {
                Some(s)
            },
            None => None,
        },
        None => None,
    }
}

/// The question that `args` put; none where they hold neither a question nor a
/// form with a question in it.
pub open spec fn asked(args: JsonView) -> Option<AskRequestView> {
    let form = form_questions(args);
    let plain_question = clean_field(args, "question"@);
    if form is None && plain_question.len() == 0 {
        None
    } else {
        Some(
            AskRequestView {
                question: match form {
                    Some(questions) => questions[0].question,
                    None => plain_question,
                },
                options: match form {
                    Some(questions) => if questions[0].options.len() == 0 {
                        None
                    } else {
                        Some(questions[0].options)
                    },
                    None => plain_options(args),
                },
                questions: form,
                detail: non_empty(clean_optional(args, "detail"@)),
                context: stripped_optional(args, "context"@),
                timeout_seconds: asked_timeout(args),
            },
        )
    }
}

/// What is said of arguments that put no question.
pub open spec fn no_question() -> Seq<char> {
    "ask_user requires a non-empty `question` (or a non-empty `questions` array)"@
}

fn plain_options_of(args: &Json) -> (out: Option<Vec<String>>)
    ensures
        optional_texts(out) == plain_options(args@),
        optional_texts(out) matches Some(o) ==> all_clean(o),
{
    match args.get_array("options") {
        Some(items) => {
            let options = stripped_texts_of(items);
            proof {
                assert(texts(options@).len() == options@.len());
            }
            if options.len() == 0 {
                None
            } else {
                Some(options)
            }
        },
        None => None,
    }
}

fn asked_timeout_of(args: &Json) -> (out: Option<u64>)
    ensures
        out == asked_timeout(args@),
{
    match args.get("timeout_seconds") {
        Some(v) => match v.as_whole() {
            Some(s) => if s == 0 {
                if v.is_above_zero() {
                    Some(1)
                } else {
                    None
                }
            } else if s > MAX_TIMEOUT_SECONDS {
                Some(MAX_TIMEOUT_SECONDS)
            } else {
                Some(s)
            },
            None => None,
        },
        None => None,
    }
}

/// Reads the arguments of `ask_user`, or says what is wrong with them. Every
/// string that a human will read comes out without bidi controls, and a form
/// comes out within its caps.
pub fn parse_ask_request(id: &Json, args: &Json) -> (out: Result<AskRequest, Json>)
    ensures
        match out {
            Ok(request) => asked(args@) == Some(request@) && request_clean(request@),
            Err(reply) => asked(args@) is None && reply@ == rpc_error_of(
                id@,
                -32602,
                no_question(),
            ),
        },
{
    let questions = parse_questions(args);
    let plain_question = clean_field_of(args, "question");
    let question: String;
    let options: Option<Vec<String>>;
    match &questions {
        Some(form) => {
            proof {
                assert(form_view(form@)[0] == form@[0]@);
            }
            question = form[0].question.clone();
            proof {
                assert(texts(form@[0].options@).len() == form@[0].options@.len());
            }
            options = if form[0].options.len() == 0 {
                None
            } else {
                Some(copy_texts(&form[0].options))
            };
        },
        None => {
            if plain_question.as_str().is_empty() {
                return Err(
                    rpc_error(
                        id.copy(),
                        -32602,
                        "ask_user requires a non-empty `question` (or a non-empty `questions` array)",
                    ),
                );
            }
            question = plain_question;
            options = plain_options_of(args);
        },
    }
    let detail = non_empty_of(clean_optional_of(args, "detail"));
    let context = stripped_optional_of(args, "context");
    let timeout_seconds = asked_timeout_of(args);
    Ok(AskRequest { question, options, questions, detail, context, timeout_seconds })
}

// ---------------------------------------------------------------------------
// Replies.
// ---------------------------------------------------------------------------

/// The reply that carries `result`.
pub open spec fn rpc_result_of(id: JsonView, result: JsonView) -> JsonView {
    object_of(seq![("jsonrpc"@, JsonView::Str("2.0"@)), ("id"@, id), ("result"@, result)])
}

/// The reply that refuses a request.
pub open spec fn rpc_error_of(id: JsonView, code: int, message: Seq<char>) -> JsonView {
    object_of(
        seq![
            ("jsonrpc"@, JsonView::Str("2.0"@)),
            ("id"@, id),
            (
                "error"@,
                object_of(
                    seq![("code"@, number_of(code)), ("message"@, JsonView::Str(message))],
                ),
            ),
        ],
    )
}

/// The reply that carries `result`.
pub fn rpc_result(id: Json, result: Json) -> (out: Json)
    ensures
        out@ == rpc_result_of(id@, result@),
{
    let mut fields: Vec<(String, Json)> = Vec::new();
    fields.push(("jsonrpc".to_owned(), text("2.0")));
    fields.push(("id".to_owned(), id));
    fields.push(("result".to_owned(), result));
    proof {
        assert(pairs(fields@) =~= seq![
            ("jsonrpc"@, JsonView::Str("2.0"@)),
            ("id"@, id@),
            ("result"@, result@),
        ]);
    }
    object(fields)
}

/// The reply that refuses a request.
pub fn rpc_error(id: Json, code: i64, message: &str) -> (out: Json)
    ensures
        out@ == rpc_error_of(id@, code as int, message@),
{
    let mut error: Vec<(String, Json)> = Vec::new();
    error.push(("code".to_owned(), signed_number(code)));
    error.push(("message".to_owned(), text(message)));
    proof {
        assert(pairs(error@) =~= seq![
            ("code"@, number_of(code as int)),
            ("message"@, JsonView::Str(message@)),
        ]);
    }
    let error = object(error);
    let mut fields: Vec<(String, Json)> = Vec::new();
    fields.push(("jsonrpc".to_owned(), text("2.0")));
    fields.push(("id".to_owned(), id));
    fields.push(("error".to_owned(), error));
    proof {
        assert(pairs(fields@) =~= seq![
            ("jsonrpc"@, JsonView::Str("2.0"@)),
            ("id"@, id@),
            ("error"@, error@),
        ]);
    }
    object(fields)
}

/// A list with one block of text.
pub open spec fn text_block(message: Seq<char>) -> JsonView {
    JsonView::Array(
        seq![object_of(seq![("type"@, JsonView::Str("text"@)), ("text"@, JsonView::Str(message))])],
    )
}

/// The result of a tool that did its work.
pub open spec fn tool_content_of(message: Seq<char>, structured: JsonView) -> JsonView {
    object_of(
        seq![
            ("content"@, text_block(message)),
            ("structuredContent"@, structured),
            ("isError"@, JsonView::Bool(false)),
        ],
    )
}

/// The result of a tool that could not do its work.
pub open spec fn tool_error_of(message: Seq<char>) -> JsonView {
    object_of(seq![("content"@, text_block(message)), ("isError"@, JsonView::Bool(true))])
}

fn text_block_json(message: &str) -> (out: Json)
    ensures
        out@ == text_block(message@),
{
    let mut block: Vec<(String, Json)> = Vec::new();
    block.push(("type".to_owned(), text("text")));
    block.push(("text".to_owned(), text(message)));
    proof {
        assert(pairs(block@) =~= seq![
            ("type"@, JsonView::Str("text"@)),
            ("text"@, JsonView::Str(message@)),
        ]);
    }
    let block = object(block);
    let mut items: Vec<Json> = Vec::new();
    items.push(block);
    proof {
        assert(array_view(items@) =~= seq![block@]);
    }
    Json::Array(items)
}

fn tool_content(message: &str, structured: Json) -> (out: Json)
    ensures
        out@ == tool_content_of(message@, structured@),
{
    let mut fields: Vec<(String, Json)> = Vec::new();
    fields.push(("content".to_owned(), text_block_json(message)));
    fields.push(("structuredContent".to_owned(), structured));
    fields.push(("isError".to_owned(), Json::Bool(false)));
    proof {
        assert(pairs(fields@) =~= seq![
            ("content"@, text_block(message@)),
            ("structuredContent"@, structured@),
            ("isError"@, JsonView::Bool(false)),
        ]);
    }
    object(fields)
}

/// The result of a tool that could not do its work.
pub fn tool_error_content(message: &str) -> (out: Json)
    ensures
        out@ == tool_error_of(message@),
{
    let mut fields: Vec<(String, Json)> = Vec::new();
    fields.push(("content".to_owned(), text_block_json(message)));
    fields.push(("isError".to_owned(), Json::Bool(true)));
    proof {
        assert(pairs(fields@) =~= seq![
            ("content"@, text_block(message@)),
            ("isError"@, JsonView::Bool(true)),
        ]);
    }
    object(fields)
}

// ---------------------------------------------------------------------------
// Answers.
// ---------------------------------------------------------------------------

/// The answer to an [`AskRequest`].
#[derive(Clone, Debug)]
pub struct AskAnswer {
    pub answer: String,
    pub kind: AskAnswerKind,
}

impl AskAnswer {
    /// The user picked one of the options.
    pub fn option(answer: &str) -> (out: Self)
        ensures
            out.answer@ == answer@,
            out.kind == AskAnswerKind::Option,
    {
        AskAnswer { answer: answer.to_owned(), kind: AskAnswerKind::Option }
    }

    /// The user typed an answer.
    pub fn text(answer: &str) -> (out: Self)
        ensures
            out.answer@ == answer@,
            out.kind == AskAnswerKind::Text,
    {
        AskAnswer { answer: answer.to_owned(), kind: AskAnswerKind::Text }
    }

    /// Nobody answered in time.
    pub fn timeout() -> (out: Self)
        ensures
            out.answer@ == Seq::<char>::empty(),
            out.kind == AskAnswerKind::Timeout,
    {
        AskAnswer { answer: String::new(), kind: AskAnswerKind::Timeout }
    }

    /// The user dismissed the question.
    pub fn dismissed() -> (out: Self)
        ensures
            out.answer@ == Seq::<char>::empty(),
            out.kind == AskAnswerKind::Dismissed,
    {
        AskAnswer { answer: String::new(), kind: AskAnswerKind::Dismissed }
    }

    /// An agent took the question back.
    pub fn cancelled() -> (out: Self)
        ensures
            out.answer@ == Seq::<char>::empty(),
            out.kind == AskAnswerKind::Cancelled,
    {
        AskAnswer { answer: String::new(), kind: AskAnswerKind::Cancelled }
    }

    /// The user filled in a form; `answer` is a document of answers.
    pub fn form(answer: &str) -> (out: Self)
        ensures
            out.answer@ == answer@,
            out.kind == AskAnswerKind::Form,
    {
        AskAnswer { answer: answer.to_owned(), kind: AskAnswerKind::Form }
    }
}

/// What the agent learns of an answer.
pub open spec fn answer_of(ask_id: Seq<char>, answer: Seq<char>, kind: AskAnswerKind) -> JsonView {
    object_of(
        seq![
            ("answer"@, JsonView::Str(answer)),
            ("kind"@, JsonView::Str(kind_name(kind))),
            ("ask_id"@, JsonView::Str(ask_id)),
        ],
    )
}

/// The result of `ask_user` for an answer: the answer as a value, and the same
/// value written out as text.
pub open spec fn answer_content_of(
    ask_id: Seq<char>,
    answer: Seq<char>,
    kind: AskAnswerKind,
) -> JsonView {
    tool_content_of(compact_text(answer_of(ask_id, answer, kind)), answer_of(ask_id, answer, kind))
}

/// Three string fields make a document that can be read back.
proof fn lemma_answer_is_plain(ask_id: Seq<char>, answer: Seq<char>, kind: AskAnswerKind)
    ensures
        plain(answer_of(ask_id, answer, kind), DEPTH_LIMIT as nat),
{
    let fields = seq![
        ("answer"@, JsonView::Str(answer)),
        ("kind"@, JsonView::Str(kind_name(kind))),
        ("ask_id"@, JsonView::Str(ask_id)),
    ];
    reveal_strlit("answer");
    reveal_strlit("kind");
    reveal_strlit("ask_id");
    lemma_raw_key();
    assert("answer"@.len() == 6 && "kind"@.len() == 4 && "ask_id"@.len() == 6);
    lemma_plain_fields(fields, 126);
}

/// The result of `ask_user` for an answer. The text in it reads back as the
/// value beside it, so that a client can take either.
pub fn ask_answer_content(ask_id: &str, answer: &AskAnswer) -> (out: Json)
    ensures
        out@ == answer_content_of(ask_id@, answer.answer@, answer.kind),
        parsed_text(compact_text(answer_of(ask_id@, answer.answer@, answer.kind))) == Some(
            answer_of(ask_id@, answer.answer@, answer.kind),
        ),
{
    let mut fields: Vec<(String, Json)> = Vec::new();
    fields.push(("answer".to_owned(), text(answer.answer.as_str())));
    fields.push(("kind".to_owned(), text(answer.kind.as_str())));
    fields.push(("ask_id".to_owned(), text(ask_id)));
    proof {
        assert(pairs(fields@) =~= seq![
            ("answer"@, JsonView::Str(answer.answer@)),
            ("kind"@, JsonView::Str(kind_name(answer.kind))),
            ("ask_id"@, JsonView::Str(ask_id@)),
        ]);
        lemma_answer_is_plain(ask_id@, answer.answer@, answer.kind);
    }
    let structured = object(fields);
    let message = compact(&structured);
    tool_content(message.as_str(), structured)
}

/// What is said of a question whose answer can no longer come.
pub open spec fn orphaned_text() -> Seq<char> {
    "The ask was orphaned: Quarterdeck was closed or restarted while the question was pending."@
}

/// The result of `ask_user` where the answer can no longer come.
pub fn orphaned_content() -> (out: Json)
    ensures
        out@ == tool_error_of(orphaned_text()),
{
    tool_error_content(
        "The ask was orphaned: Quarterdeck was closed or restarted while the question was pending.",
    )
}

// ---------------------------------------------------------------------------
// Authentication.
// ---------------------------------------------------------------------------

/// Two texts with the same bytes are the same.
proof fn lemma_bytes_tell_texts_apart(a: Seq<char>, b: Seq<char>)
    requires
        vstd::utf8::encode_utf8(a) == vstd::utf8::encode_utf8(b),
    ensures
        a == b,
{
    vstd::utf8::encode_utf8_decode_utf8(a);
    vstd::utf8::encode_utf8_decode_utf8(b);
}

/// Whether the two texts are the same. The time it takes depends on their
/// lengths alone, not on where they differ.
pub fn constant_time_eq(a: &str, b: &str) -> (same: bool)
    ensures
        same == (a@ == b@),
{
    let x = a.as_bytes();
    let y = b.as_bytes();
    if x.len() != y.len() {
        return false;
    }
    let mut diff: u8 = 0;
    let mut i: usize = 0;
    while i < x.len()
        invariant
            i <= x@.len(),
            x@.len() == y@.len(),
            (diff == 0) == (forall|j: int| 0 <= j < i ==> x@[j] == y@[j]),
        decreases x.len() - i,
    {
        let p: u8 = x[i];
        let q: u8 = y[i];
        let before: u8 = diff;
        diff = before | (p ^ q);
        proof {
            assert((before | (p ^ q)) == 0 <==> before == 0 && p == q) by (bit_vector);
        }
        i = i + 1;
    }
    proof {
        if diff == 0 {
            assert(x@ =~= y@);
            lemma_bytes_tell_texts_apart(a@, b@);
        } else {
            assert(x@ != y@);
        }
    }
    diff == 0
}

/// Whether the `Authorization` header presents the token.
pub open spec fn presents_token(header: Option<Seq<char>>, token: Seq<char>) -> bool {
    match header {
        Some(h) => match after_prefix(h, "Bearer "@) {
            Some(presented) => trimmed(presented) == token,
            None => false,
        },
        None => false,
    }
}

/// Whether the `Authorization` header presents the token.
pub fn authorized(header: Option<&str>, token: &str) -> (out: bool)
    ensures
        out == presents_token(
            optional_str(header),
            token@,
        ),
{
    match header {
        Some(h) => match strip_prefix(h, "Bearer ") {
            Some(presented) => constant_time_eq(trim(presented.as_str()).as_str(), token),
            None => false,
        },
        None => false,
    }
}

// ---------------------------------------------------------------------------
// HTTP replies.
// ---------------------------------------------------------------------------

/// A reply to an HTTP request.
#[derive(Clone, Debug)]
pub struct HttpReply {
    pub status: u16,
    /// Value of the `WWW-Authenticate` header, where there is one.
    pub authenticate: Option<&'static str>,
    /// Value of the `Content-Type` header, where there is one.
    pub content_type: Option<&'static str>,
    pub body: String,
}

/// What an [`HttpReply`] says.
pub ghost struct HttpReplyView {
    pub status: u16,
    pub authenticate: Option<Seq<char>>,
    pub content_type: Option<Seq<char>>,
    pub body: Seq<char>,
}

impl View for HttpReply {
    type V = HttpReplyView;

    open spec fn view(&self) -> HttpReplyView {
        HttpReplyView {
            status: self.status,
            authenticate: match self.authenticate {
                Some(s) => Some(s@),
                None => None,
            },
            content_type: match self.content_type {
                Some(s) => Some(s@),
                None => None,
            },
            body: self.body@,
        }
    }
}

/// The reply to a request without the token.
pub open spec fn unauthorized_reply() -> HttpReplyView {
    HttpReplyView {
        status: 401,
        authenticate: Some("Bearer"@),
        content_type: Some("application/json"@),
        body: "{\"error\":\"unauthorized\",\"message\":\"Missing or invalid bearer token\"}"@,
    }
}

/// The reply that carries a document.
pub open spec fn json_reply(status: u16, document: JsonView) -> HttpReplyView {
    HttpReplyView {
        status,
        authenticate: None,
        content_type: Some("application/json"@),
        body: compact_text(document),
    }
}

/// The reply to a request for a stream of the server's own messages.
pub open spec fn no_stream_reply() -> HttpReplyView {
    HttpReplyView {
        status: 405,
        authenticate: None,
        content_type: Some("text/plain; charset=utf-8"@),
        body: "SSE stream not supported"@,
    }
}

/// The reply to a request without the token.
pub fn unauthorized() -> (out: HttpReply)
    ensures
        out@ == unauthorized_reply(),
{
    HttpReply {
        status: 401,
        authenticate: Some("Bearer"),
        content_type: Some("application/json"),
        body: "{\"error\":\"unauthorized\",\"message\":\"Missing or invalid bearer token\"}".to_owned(),
    }
}

/// The reply that carries a document.
pub fn json_response(status: u16, document: &Json) -> (out: HttpReply)
    ensures
        out@ == json_reply(status, document@),
{
    HttpReply {
        status,
        authenticate: None,
        content_type: Some("application/json"),
        body: compact(document),
    }
}

/// Answers a GET: the server sends nothing of its own accord, so there is no
/// stream to open. Without the token nothing else is looked at.
pub fn handle_get(header: Option<&str>, token: &str) -> (out: HttpReply)
    ensures
        out@ == if presents_token(
            optional_str(header),
            token@,
        ) {
            no_stream_reply()
        } else {
            unauthorized_reply()
        },
{
    if !authorized(header, token) {
        return unauthorized();
    }
    HttpReply {
        status: 405,
        authenticate: None,
        content_type: Some("text/plain; charset=utf-8"),
        body: "SSE stream not supported".to_owned(),
    }
}

// ---------------------------------------------------------------------------
// Requests.
// ---------------------------------------------------------------------------

/// A notification from an agent.
#[derive(Clone, Debug)]
pub struct NotifyRequest {
    pub message: String,
    /// Where the agent runs.
    pub context: Option<String>,
}

/// What a request asks of the deck.
#[allow(inconsistent_fields)]
pub enum Call {
    /// Nothing: this is the reply.
    Reply(Json),
    /// To put a question.
    Ask { id: Json, request: AskRequest },
    /// To revise a question.
    Update {
        id: Json,
        ask_id: String,
        question: Option<String>,
        options: Option<Vec<String>>,
        detail: Option<String>,
    },
    /// To take a question back.
    Cancel { id: Json, ask_id: String },
    /// To show a notification.
    Notify { id: Json, request: NotifyRequest },
}

/// What a [`Call`] says.
pub ghost enum CallView {
    Reply(JsonView),
    Ask { id: JsonView, request: AskRequestView },
    Update {
        id: JsonView,
        ask_id: Seq<char>,
        question: Option<Seq<char>>,
        options: Option<Seq<Seq<char>>>,
        detail: Option<Seq<char>>,
    },
    Cancel { id: JsonView, ask_id: Seq<char> },
    Notify { id: JsonView, message: Seq<char>, context: Option<Seq<char>> },
}

impl View for Call {
    type V = CallView;

    open spec fn view(&self) -> CallView {
        match *self {
            Call::Reply(reply) => CallView::Reply(reply@),
            Call::Ask { id, request } => CallView::Ask { id: id@, request: request@ },
            Call::Update { id, ask_id, question, options, detail } => CallView::Update {
                id: id@,
                ask_id: ask_id@,
                question: optional_text(question),
                options: optional_texts(options),
                detail: optional_text(detail),
            },
            Call::Cancel { id, ask_id } => CallView::Cancel { id: id@, ask_id: ask_id@ },
            Call::Notify { id, request } => CallView::Notify {
                id: id@,
                message: request.message@,
                context: optional_text(request.context),
            },
        }
    }
}

/// Whether nothing that a human will read in a call holds a bidi control.
pub open spec fn call_clean(call: CallView) -> bool {
    match call {
        CallView::Reply(_) => true,
        CallView::Ask { id, request } => request_clean(request),
        CallView::Update { id, ask_id, question, options, detail } => {
            &&& optional_clean(question)
            &&& options matches Some(o) ==> all_clean(o)
            &&& optional_clean(detail)
        },
        CallView::Cancel { id, ask_id } => true,
        CallView::Notify { id, message, context } => clean(message) && optional_clean(context),
    }
}

/// The id of the question that `args` speak of; empty where they name none.
pub open spec fn named_ask(args: JsonView) -> Seq<char> {
    match args.field_text("ask_id"@) {
        Some(s) => trimmed(s),
        None => Seq::empty(),
    }
}

fn named_ask_of(args: &Json) -> (out: String)
    ensures
        out@ == named_ask(args@),
{
    match args.get_str("ask_id") {
        Some(s) => trim(s),
        None => String::new(),
    }
}

/// The reply that refuses the arguments of a tool.
pub open spec fn bad_arguments(id: JsonView, message: Seq<char>) -> CallView {
    CallView::Reply(rpc_error_of(id, -32602, message))
}

/// What `ask_user` asks of the deck.
pub open spec fn ask_call(id: JsonView, args: JsonView) -> CallView {
    match asked(args) {
        Some(request) => CallView::Ask { id, request },
        None => bad_arguments(id, no_question()),
    }
}

/// What `update_ask` asks of the deck. A question without text changes nothing;
/// an empty list of options, or an empty detail, is passed on and clears it.
pub open spec fn update_call(id: JsonView, args: JsonView) -> CallView {
    if named_ask(args).len() == 0 {
        bad_arguments(id, "update_ask requires a non-empty `ask_id`"@)
    } else {
        CallView::Update {
            id,
            ask_id: named_ask(args),
            question: non_empty(clean_optional(args, "question"@)),
            options: match args.field_items("options"@) {
                Some(items) => Some(stripped_texts(items)),
                None => None,
            },
            detail: clean_optional(args, "detail"@),
        }
    }
}

/// What `cancel_ask` asks of the deck.
pub open spec fn cancel_call(id: JsonView, args: JsonView) -> CallView {
    if named_ask(args).len() == 0 {
        bad_arguments(id, "cancel_ask requires a non-empty `ask_id`"@)
    } else {
        CallView::Cancel { id, ask_id: named_ask(args) }
    }
}

/// What `notify_user` asks of the deck.
pub open spec fn notify_call(id: JsonView, args: JsonView) -> CallView {
    if clean_field(args, "message"@).len() == 0 {
        bad_arguments(id, "notify_user requires a non-empty `message`"@)
    } else {
        CallView::Notify {
            id,
            message: clean_field(args, "message"@),
            context: stripped_optional(args, "context"@),
        }
    }
}

/// The name of the tool that `params` call; empty where they name none.
pub open spec fn named_tool(params: JsonView) -> Seq<char> {
    match params.field_text("name"@) {
        Some(s) => s,
        None => Seq::empty(),
    }
}

/// The arguments in `params`.
pub open spec fn tool_arguments(params: JsonView) -> JsonView {
    match params.field("arguments"@) {
        Some(v) => v,
        None => JsonView::Null,
    }
}

/// What `tools/call` asks of the deck.
pub open spec fn tool_call(id: JsonView, params: JsonView) -> CallView {
    let name = named_tool(params);
    let args = tool_arguments(params);
    if name == "ask_user"@ {
        ask_call(id, args)
    } else if name == "update_ask"@ {
        update_call(id, args)
    } else if name == "cancel_ask"@ {
        cancel_call(id, args)
    } else if name == "notify_user"@ {
        notify_call(id, args)
    } else {
        bad_arguments(id, "Unknown tool: "@ + name)
    }
}

/// What a request asks of the deck.
pub open spec fn dispatched(method: Seq<char>, id: JsonView, params: JsonView) -> CallView {
    if method == "initialize"@ {
        CallView::Reply(rpc_result_of(id, server_facts()))
    } else if method == "ping"@ {
        CallView::Reply(rpc_result_of(id, object_of(seq![])))
    } else if method == "tools/list"@ {
        CallView::Reply(rpc_result_of(id, tool_list()))
    } else if method == "tools/call"@ {
        tool_call(id, params)
    } else if method.len() == 0 {
        CallView::Reply(rpc_error_of(id, -32600, "Invalid Request"@))
    } else {
        CallView::Reply(rpc_error_of(id, -32601, "Method not found: "@ + method))
    }
}

/// `ask_user`: puts a question.
pub fn ask_user(id: Json, args: &Json) -> (out: Call)
    ensures
        out@ == ask_call(id@, args@),
        call_clean(out@),
{
    match parse_ask_request(&id, args) {
        Ok(request) => Call::Ask { id, request },
        Err(reply) => Call::Reply(reply),
    }
}

/// `update_ask`: revises a question.
pub fn update_ask(id: Json, args: &Json) -> (out: Call)
    ensures
        out@ == update_call(id@, args@),
        call_clean(out@),
{
    let ask_id = named_ask_of(args);
    if ask_id.as_str().is_empty() {
        return Call::Reply(rpc_error(id, -32602, "update_ask requires a non-empty `ask_id`"));
    }
    let question = non_empty_of(clean_optional_of(args, "question"));
    let options: Option<Vec<String>> = match args.get_array("options") {
        Some(items) => Some(stripped_texts_of(items)),
        None => None,
    };
    let detail = clean_optional_of(args, "detail");
    Call::Update { id, ask_id, question, options, detail }
}

/// `cancel_ask`: takes a question back.
pub fn cancel_ask(id: Json, args: &Json) -> (out: Call)
    ensures
        out@ == cancel_call(id@, args@),
        call_clean(out@),
{
    let ask_id = named_ask_of(args);
    if ask_id.as_str().is_empty() {
        return Call::Reply(rpc_error(id, -32602, "cancel_ask requires a non-empty `ask_id`"));
    }
    Call::Cancel { id, ask_id }
}

/// `notify_user`: shows a notification.
pub fn notify_user(id: Json, args: &Json) -> (out: Call)
    ensures
        out@ == notify_call(id@, args@),
        call_clean(out@),
{
    let message = clean_field_of(args, "message");
    if message.as_str().is_empty() {
        return Call::Reply(rpc_error(id, -32602, "notify_user requires a non-empty `message`"));
    }
    let context = stripped_optional_of(args, "context");
    Call::Notify { id, request: NotifyRequest { message, context } }
}

/// The name of the tool that `params` call; empty where they name none.
pub fn tool_name(params: &Json) -> (out: String)
    ensures
        out@ == named_tool(params@),
{
    match params.get_str("name") {
        Some(s) => s.to_owned(),
        None => String::new(),
    }
}

fn tool_arguments_of(params: &Json) -> (out: Json)
    ensures
        out@ == tool_arguments(params@),
{
    match params.get("arguments") {
        Some(v) => v.copy(),
        None => Json::Null,
    }
}

/// Answers `tools/call`.
pub fn call_tool(id: Json, params: &Json) -> (out: Call)
    ensures
        out@ == tool_call(id@, params@),
        call_clean(out@),
{
    let name = tool_name(params);
    let args = tool_arguments_of(params);
    if same_text(name.as_str(), "ask_user") {
        ask_user(id, &args)
    } else if same_text(name.as_str(), "update_ask") {
        update_ask(id, &args)
    } else if same_text(name.as_str(), "cancel_ask") {
        cancel_ask(id, &args)
    } else if same_text(name.as_str(), "notify_user") {
        notify_user(id, &args)
    } else {
        Call::Reply(rpc_error(id, -32602, joined("Unknown tool: ", name.as_str()).as_str()))
    }
}

/// Answers a request, or says what it asks of the deck.
pub fn dispatch(method: &str, id: Json, params: &Json) -> (out: Call)
    ensures
        out@ == dispatched(method@, id@, params@),
        call_clean(out@),
{
    if same_text(method, "initialize") {
        Call::Reply(rpc_result(id, initialize_result()))
    } else if same_text(method, "ping") {
        let fields: Vec<(String, Json)> = Vec::new();
        proof {
            assert(pairs(fields@) =~= seq![]);
        }
        Call::Reply(rpc_result(id, object(fields)))
    } else if same_text(method, "tools/list") {
        Call::Reply(rpc_result(id, tools_list_result()))
    } else if same_text(method, "tools/call") {
        call_tool(id, params)
    } else if method.is_empty() {
        Call::Reply(rpc_error(id, -32600, "Invalid Request"))
    } else {
        Call::Reply(rpc_error(id, -32601, joined("Method not found: ", method).as_str()))
    }
}

// ---------------------------------------------------------------------------
// Messages.
// ---------------------------------------------------------------------------

/// What becomes of a POST.
pub enum Post {
    /// It is answered at once.
    Reply(HttpReply),
    /// It is a notification and gets no answer but its acknowledgement (202).
    Accepted,
    /// It is a request; the reply to it goes back as one document.
    Call(Call),
    /// It puts a question, and the reply goes back over a stream that tells of
    /// the progress meanwhile.
    Stream { id: Json, request: AskRequest, token: Json },
    /// It is answered at once, over a stream of one message.
    StreamReply(Json),
}

/// What a [`Post`] says.
pub ghost enum PostView {
    Reply(HttpReplyView),
    Accepted,
    Call(CallView),
    Stream { id: JsonView, request: AskRequestView, token: JsonView },
    StreamReply(JsonView),
}

impl View for Post {
    type V = PostView;

    open spec fn view(&self) -> PostView {
        match *self {
            Post::Reply(reply) => PostView::Reply(reply@),
            Post::Accepted => PostView::Accepted,
            Post::Call(call) => PostView::Call(call@),
            Post::Stream { id, request, token } => PostView::Stream {
                id: id@,
                request: request@,
                token: token@,
            },
            Post::StreamReply(reply) => PostView::StreamReply(reply@),
        }
    }
}

/// Whether nothing that a human will read in a POST holds a bidi control.
pub open spec fn post_clean(post: PostView) -> bool {
    match post {
        PostView::Call(call) => call_clean(call),
        PostView::Stream { id, request, token } => request_clean(request),
        _ => true,
    }
}

/// The token under which the caller wants to hear of progress, where there is
/// one.
pub open spec fn progress_token_of(params: JsonView) -> Option<JsonView> {
    match params.field("_meta"@) {
        Some(meta) => match meta.field("progressToken"@) {
            Some(token) => if token is Null {
                None
            } else {
                Some(token)
            },
            None => None,
        },
        None => None,
    }
}

/// The method that a message names; empty where it names none.
pub open spec fn named_method(message: JsonView) -> Seq<char> {
    match message.field_text("method"@) {
        Some(s) => s,
        None => Seq::empty(),
    }
}

/// The parameters in a message.
pub open spec fn message_params(message: JsonView) -> JsonView {
    match message.field("params"@) {
        Some(v) => v,
        None => JsonView::Null,
    }
}

/// What becomes of a request with this id.
pub open spec fn request_post(method: Seq<char>, id: JsonView, params: JsonView) -> PostView {
    if method == "tools/call"@ && named_tool(params) == "ask_user"@ && progress_token_of(
        params,
    ) is Some {
        match asked(tool_arguments(params)) {
            Some(request) => PostView::Stream {
                id,
                request,
                token: progress_token_of(params)->Some_0,
            },
            None => PostView::StreamReply(rpc_error_of(id, -32602, no_question())),
        }
    } else {
        PostView::Call(dispatched(method, id, params))
    }
}

/// What becomes of a POST whose body holds `message`, or no document at all.
pub open spec fn message_post(message: Option<JsonView>) -> PostView {
    match message {
        None => PostView::Reply(
            json_reply(400, rpc_error_of(JsonView::Null, -32700, "Parse error"@)),
        ),
        Some(m) => if !(m is Object) {
            PostView::Reply(
                json_reply(
                    400,
                    rpc_error_of(
                        JsonView::Null,
                        -32600,
                        "Invalid Request (batching is not supported)"@,
                    ),
                ),
            )
        } else {
            match m.field("id"@) {
                Some(id) => request_post(named_method(m), id, message_params(m)),
                None => PostView::Accepted,
            }
        },
    }
}

/// The token under which the caller wants to hear of progress, where there is
/// one.
pub fn progress_token(params: &Json) -> (out: Option<Json>)
    ensures
        match out {
            Some(token) => progress_token_of(params@) == Some(token@),
            None => progress_token_of(params@) is None,
        },
{
    match params.get("_meta") {
        Some(meta) => match meta.get("progressToken") {
            Some(token) => if token.is_null() {
                None
            } else {
                Some(token.copy())
            },
            None => None,
        },
        None => None,
    }
}

fn handle_request(method: &str, id: Json, params: &Json) -> (out: Post)
    ensures
        out@ == request_post(method@, id@, params@),
        post_clean(out@),
{
    if same_text(method, "tools/call") && same_text(tool_name(params).as_str(), "ask_user") {
        if let Some(token) = progress_token(params) {
            let args = tool_arguments_of(params);
            return match parse_ask_request(&id, &args) {
                Ok(request) => Post::Stream { id, request, token },
                Err(reply) => Post::StreamReply(reply),
            };
        }
    }
    Post::Call(dispatch(method, id, params))
}

/// What becomes of a POST whose body holds `message`, or no document at all.
pub fn handle_message(message: Option<Json>) -> (out: Post)
    ensures
        out@ == message_post(
            match message {
                Some(m) => Some(m@),
                None => None,
            },
        ),
        post_clean(out@),
{
    match message {
        None => Post::Reply(
            json_response(400, &rpc_error(Json::Null, -32700, "Parse error")),
        ),
        Some(m) => {
            if !m.is_object() {
                return Post::Reply(
                    json_response(
                        400,
                        &rpc_error(
                            Json::Null,
                            -32600,
                            "Invalid Request (batching is not supported)",
                        ),
                    ),
                );
            }
            let id: Json = match m.get("id") {
                Some(id) => id.copy(),
                None => {
                    return Post::Accepted;
                },
            };
            let method: String = match m.get_str("method") {
                Some(s) => s.to_owned(),
                None => String::new(),
            };
            let params: Json = match m.get("params") {
                Some(v) => v.copy(),
                None => Json::Null,
            };
            handle_request(method.as_str(), id, &params)
        },
    }
}

/// Answers a POST, or says what it asks of the deck. Without the token the body
/// is not looked at.
pub fn handle_post(header: Option<&str>, token: &str, body: &[u8]) -> (out: Post)
    ensures
        out@ == if presents_token(
            optional_str(header),
            token@,
        ) {
            message_post(parsed_bytes(body@))
        } else {
            PostView::Reply(unauthorized_reply())
        },
        post_clean(out@),
{
    if !authorized(header, token) {
        return Post::Reply(unauthorized());
    }
    handle_message(parse_bytes(body))
}

// ---------------------------------------------------------------------------
// Replies once the deck has done its part.
// ---------------------------------------------------------------------------

/// What is said of a question that can no longer be revised.
pub open spec fn nothing_to_update(ask_id: Seq<char>) -> Seq<char> {
    "No pending ask with id "@ + quoted(ask_id)
        + " \u{2014} it may have been answered, dismissed, cancelled, or timed out."@
}

/// What is said of a question that can no longer be taken back.
pub open spec fn nothing_to_cancel(ask_id: Seq<char>) -> Seq<char> {
    "No pending ask with id "@ + quoted(ask_id)
        + " \u{2014} it may have already been answered, dismissed, cancelled, or timed out."@
}

/// The reply to `update_ask`.
pub open spec fn update_reply_of(id: JsonView, ask_id: Seq<char>, updated: bool) -> JsonView {
    rpc_result_of(
        id,
        if updated {
            tool_content_of(
                "Ask updated."@,
                object_of(seq![("ask_id"@, JsonView::Str(ask_id)), ("updated"@, JsonView::Bool(true))]),
            )
        } else {
            tool_error_of(nothing_to_update(ask_id))
        },
    )
}

/// The reply to `cancel_ask`.
pub open spec fn cancel_reply_of(id: JsonView, ask_id: Seq<char>, cancelled: bool) -> JsonView {
    rpc_result_of(
        id,
        if cancelled {
            tool_content_of(
                "Ask cancelled."@,
                object_of(
                    seq![("ask_id"@, JsonView::Str(ask_id)), ("cancelled"@, JsonView::Bool(true))],
                ),
            )
        } else {
            tool_error_of(nothing_to_cancel(ask_id))
        },
    )
}

/// The reply to `notify_user`.
pub open spec fn notify_reply_of(id: JsonView, record_id: Seq<char>) -> JsonView {
    rpc_result_of(
        id,
        tool_content_of(
            "Notification delivered."@,
            object_of(seq![("delivered"@, JsonView::Bool(true)), ("id"@, JsonView::Str(record_id))]),
        ),
    )
}

fn two_fields(name: &str, value: Json, other: &str, more: Json) -> (out: Json)
    ensures
        out@ == object_of(seq![(name@, value@), (other@, more@)]),
{
    let mut fields: Vec<(String, Json)> = Vec::new();
    fields.push((name.to_owned(), value));
    fields.push((other.to_owned(), more));
    proof {
        assert(pairs(fields@) =~= seq![(name@, value@), (other@, more@)]);
    }
    object(fields)
}

/// The reply to `update_ask`: whether the question was still there to revise.
pub fn update_reply(id: Json, ask_id: &str, updated: bool) -> (out: Json)
    ensures
        out@ == update_reply_of(id@, ask_id@, updated),
{
    let result = if updated {
        tool_content(
            "Ask updated.",
            two_fields("ask_id", text(ask_id), "updated", Json::Bool(true)),
        )
    } else {
        let mut message = joined("No pending ask with id ", quote(ask_id).as_str());
        message.append(
            " \u{2014} it may have been answered, dismissed, cancelled, or timed out.",
        );
        tool_error_content(message.as_str())
    };
    rpc_result(id, result)
}

/// The reply to `cancel_ask`: whether the question was still there to take back.
pub fn cancel_reply(id: Json, ask_id: &str, cancelled: bool) -> (out: Json)
    ensures
        out@ == cancel_reply_of(id@, ask_id@, cancelled),
{
    let result = if cancelled {
        tool_content(
            "Ask cancelled.",
            two_fields("ask_id", text(ask_id), "cancelled", Json::Bool(true)),
        )
    } else {
        let mut message = joined("No pending ask with id ", quote(ask_id).as_str());
        message.append(
            " \u{2014} it may have already been answered, dismissed, cancelled, or timed out.",
        );
        tool_error_content(message.as_str())
    };
    rpc_result(id, result)
}

/// The reply to `notify_user`.
pub fn notify_reply(id: Json, record_id: &str) -> (out: Json)
    ensures
        out@ == notify_reply_of(id@, record_id@),
{
    let structured = two_fields("delivered", Json::Bool(true), "id", text(record_id));
    rpc_result(id, tool_content("Notification delivered.", structured))
}

/// How waiting for an answer ended.
pub enum AskOutcome {
    /// The deck answered.
    Answered(AskAnswer),
    /// The deck can no longer answer.
    Orphaned,
    /// The time that the caller gave ran out.
    TimedOut,
}

/// The reply to `ask_user`.
pub open spec fn ask_reply_of(id: JsonView, ask_id: Seq<char>, outcome: AskOutcome) -> JsonView {
    rpc_result_of(
        id,
        match outcome {
            AskOutcome::Answered(answer) => answer_content_of(ask_id, answer.answer@, answer.kind),
            AskOutcome::Orphaned => tool_error_of(orphaned_text()),
            AskOutcome::TimedOut => answer_content_of(
                ask_id,
                Seq::empty(),
                AskAnswerKind::Timeout,
            ),
        },
    )
}

/// The reply to `ask_user`.
pub fn ask_reply(id: Json, ask_id: &str, outcome: &AskOutcome) -> (out: Json)
    ensures
        out@ == ask_reply_of(id@, ask_id@, *outcome),
{
    let result = match outcome {
        AskOutcome::Answered(answer) => ask_answer_content(ask_id, answer),
        AskOutcome::Orphaned => orphaned_content(),
        AskOutcome::TimedOut => ask_answer_content(ask_id, &AskAnswer::timeout()),
    };
    rpc_result(id, result)
}

// ---------------------------------------------------------------------------
// Waiting for an answer over a stream.
// ---------------------------------------------------------------------------

/// What can happen while a caller waits for an answer over a stream.
pub enum WaitEvent {
    /// The wait is over.
    Ended(AskOutcome),
    /// It is time for another sign of life.
    Tick,
    /// The last sign of life did not reach the caller, who is gone.
    CallerGone,
}

/// What to do next for a caller who waits over a stream.
pub enum WaitStep {
    /// Send this and wait on.
    Progress(Json),
    /// Send this as the last message.
    Finish(Json),
    /// Take the question back; this is the last message, which nobody will read.
    Abandon(Json),
}

/// The sign of life with this number.
pub open spec fn progress_note(token: JsonView, progress: int) -> JsonView {
    object_of(
        seq![
            ("jsonrpc"@, JsonView::Str("2.0"@)),
            ("method"@, JsonView::Str("notifications/progress"@)),
            (
                "params"@,
                object_of(
                    seq![
                        ("progressToken"@, token),
                        ("progress"@, number_of(progress)),
                        ("message"@, JsonView::Str("waiting for the human to answer"@)),
                    ],
                ),
            ),
        ],
    )
}

fn progress_note_json(token: &Json, progress: u64) -> (out: Json)
    ensures
        out@ == progress_note(token@, progress as int),
{
    let mut params: Vec<(String, Json)> = Vec::new();
    params.push(("progressToken".to_owned(), token.copy()));
    params.push(("progress".to_owned(), number(progress)));
    params.push(("message".to_owned(), text("waiting for the human to answer")));
    proof {
        assert(pairs(params@) =~= seq![
            ("progressToken"@, token@),
            ("progress"@, number_of(progress as int)),
            ("message"@, JsonView::Str("waiting for the human to answer"@)),
        ]);
    }
    let params = object(params);
    let mut fields: Vec<(String, Json)> = Vec::new();
    fields.push(("jsonrpc".to_owned(), text("2.0")));
    fields.push(("method".to_owned(), text("notifications/progress")));
    fields.push(("params".to_owned(), params));
    proof {
        assert(pairs(fields@) =~= seq![
            ("jsonrpc"@, JsonView::Str("2.0"@)),
            ("method"@, JsonView::Str("notifications/progress"@)),
            ("params"@, params@),
        ]);
    }
    object(fields)
}

/// A caller who waits for an answer over a stream.
pub struct Waiting {
    pub id: Json,
    pub ask_id: String,
    pub token: Json,
    /// Signs of life sent so far.
    pub progress: u64,
}

impl Waiting {
    /// A caller who begins to wait.
    pub fn new(id: Json, ask_id: String, token: Json) -> (out: Self)
        ensures
            out.id == id,
            out.ask_id == ask_id,
            out.token == token,
            out.progress == 0,
    {
        Waiting { id, ask_id, token, progress: 0 }
    }

    /// Decides what to do on an event. Signs of life are numbered from 1; when
    /// one cannot be sent the question is taken back, since nobody is left to
    /// hear the answer.
    pub fn drive_ask(&mut self, event: &WaitEvent) -> (out: WaitStep)
        requires
            *event is Tick ==> old(self).progress < u64::MAX,
        ensures
            final(self).id@ == old(self).id@,
            final(self).ask_id@ == old(self).ask_id@,
            final(self).token@ == old(self).token@,
            final(self).progress == old(self).progress + if *event is Tick {
                1int
            } else {
                0int
            },
            match *event {
                WaitEvent::Ended(outcome) => out matches WaitStep::Finish(reply) && reply@
                    == ask_reply_of(old(self).id@, old(self).ask_id@, outcome),
                WaitEvent::Tick => out matches WaitStep::Progress(note) && note@ == progress_note(
                    old(self).token@,
                    old(self).progress + 1,
                ),
                WaitEvent::CallerGone => out matches WaitStep::Abandon(reply) && reply@
                    == ask_reply_of(old(self).id@, old(self).ask_id@, AskOutcome::TimedOut),
            },
    {
        match event {
            WaitEvent::Ended(outcome) => WaitStep::Finish(
                ask_reply(self.id.copy(), self.ask_id.as_str(), outcome),
            ),
            WaitEvent::Tick => {
                self.progress = self.progress + 1;
                WaitStep::Progress(progress_note_json(&self.token, self.progress))
            },
            WaitEvent::CallerGone => WaitStep::Abandon(
                ask_reply(self.id.copy(), self.ask_id.as_str(), &AskOutcome::TimedOut),
            ),
        }
    }
}

/// Milliseconds between two signs of life, unless it is set otherwise.
pub const DEFAULT_KEEPALIVE_MS: u64 = 30_000;

/// Milliseconds between two signs of life: what is set, where that is a number
/// above zero.
pub fn keepalive_interval(set: Option<&str>) -> (out: u64)
    ensures
        out == match set {
            Some(s) => match parsed_unsigned(trimmed(s@), u64::MAX as nat) {
                Some(ms) => if ms > 0 {
                    ms as u64
                } else {
                    DEFAULT_KEEPALIVE_MS
                },
                None => DEFAULT_KEEPALIVE_MS,
            },
            None => DEFAULT_KEEPALIVE_MS,
        },
        out > 0,
{
    match set {
        Some(s) => match parse_u64(trim(s).as_str()) {
            Some(ms) => if ms > 0 {
                ms
            } else {
                DEFAULT_KEEPALIVE_MS
            },
            None => DEFAULT_KEEPALIVE_MS,
        },
        None => DEFAULT_KEEPALIVE_MS,
    }
}

// ---------------------------------------------------------------------------
// The server's address.
// ---------------------------------------------------------------------------

/// The port and the token of the server, which outlast a restart.
#[derive(Clone, Debug)]
pub struct McpConfig {
    pub port: u16,
    pub token: String,
}

/// Whether a stored configuration can be used.
pub open spec fn usable(config: McpConfig) -> bool {
    config.port != 0 && config.token@.len() > 0
}

/// The stored configuration, where there is one that can be used.
pub fn load_config(stored: Option<McpConfig>) -> (out: Option<McpConfig>)
    ensures
        out == match stored {
            Some(config) => if usable(config) {
                stored
            } else {
                None
            },
            None => None,
        },
{
    match stored {
        Some(config) => if config.token.as_str().is_empty() || config.port == 0 {
            None
        } else {
            Some(config)
        },
        None => None,
    }
}

/// The port to try first: the one of the last run, or any (0).
pub fn first_port(existing: &Option<McpConfig>) -> (port: u16)
    ensures
        port == match existing {
            Some(config) => config.port,
            None => 0,
        },
{
    match existing {
        Some(config) => config.port,
        None => 0,
    }
}

/// The port to try when `tried` was not free: any (0), unless that was tried.
pub fn next_port(tried: u16) -> (port: Option<u16>)
    ensures
        port == if tried == 0 {
            None
        } else {
            Some(0u16)
        },
{
    if tried == 0 {
        None
    } else {
        Some(0)
    }
}

/// The token of the server: that of the last run, or `fresh` where there was none.
pub open spec fn served_token(existing: Option<McpConfig>, fresh: Seq<char>) -> Seq<char> {
    match existing {
        Some(config) => config.token@,
        None => fresh,
    }
}

/// The configuration to store once the server listens on `port`: the token of
/// the last run is kept, and `fresh` is used where there was none.
pub fn served_config(existing: Option<McpConfig>, fresh: String, port: u16) -> (out: McpConfig)
    ensures
        out.port == port,
        out.token@ == served_token(existing, fresh@),
{
    match existing {
        Some(config) => McpConfig { port, token: config.token },
        None => McpConfig { port, token: fresh },
    }
}

/// The hexadecimal digit for `d`.
pub open spec fn hex_digit(d: nat) -> char {
    if d < 10 {
        (48 + d) as char
    } else {
        (87 + d) as char
    }
}

/// The last `width` hexadecimal digits of `n`.
pub open spec fn hex(n: nat, width: nat) -> Seq<char>
    decreases width,
{
    if width == 0 {
        Seq::empty()
    } else {
        hex(n / 16, (width - 1) as nat).push(hex_digit(n % 16))
    }
}

/// `words` in hexadecimal, 16 digits each.
pub open spec fn hex_words(words: Seq<u64>) -> Seq<char>
    decreases words.len(),
{
    if words.len() == 0 {
        Seq::empty()
    } else {
        hex_words(words.drop_last()) + hex(words.last() as nat, 16)
    }
}

proof fn lemma_hex_len(n: nat, width: nat)
    ensures
        hex(n, width).len() == width,
    decreases width,
{
    if width > 0 {
        lemma_hex_len(n / 16, (width - 1) as nat);
    }
}

proof fn lemma_hex_words_len(words: Seq<u64>)
    ensures
        hex_words(words).len() == 16 * words.len(),
    decreases words.len(),
{
    if words.len() > 0 {
        lemma_hex_words_len(words.drop_last());
        lemma_hex_len(words.last() as nat, 16);
    }
}

proof fn lemma_hex_digits(n: nat, width: nat)
    ensures
        forall|i: int| 0 <= i < hex(n, width).len() ==> hex_letter(#[trigger] hex(n, width)[i]),
    decreases width,
{
    if width > 0 {
        lemma_hex_digits(n / 16, (width - 1) as nat);
        let front = hex(n / 16, (width - 1) as nat);
        assert forall|i: int| 0 <= i < hex(n, width).len() implies hex_letter(
            #[trigger] hex(n, width)[i],
        ) by {
            if i < front.len() {
                assert(hex(n, width)[i] == front[i]);
            }
        }
    }
}

proof fn lemma_hex_words_digits(words: Seq<u64>)
    ensures
        forall|i: int|
            0 <= i < hex_words(words).len() ==> hex_letter(#[trigger] hex_words(words)[i]),
    decreases words.len(),
{
    if words.len() > 0 {
        lemma_hex_words_digits(words.drop_last());
        lemma_hex_digits(words.last() as nat, 16);
        let front = hex_words(words.drop_last());
        let back = hex(words.last() as nat, 16);
        assert forall|i: int| 0 <= i < hex_words(words).len() implies hex_letter(
            #[trigger] hex_words(words)[i],
        ) by {
            if i < front.len() {
                assert(hex_words(words)[i] == front[i]);
            } else {
                assert(hex_words(words)[i] == back[i - front.len()]);
            }
        }
    }
}

/// Whether `c` is one of `0` to `9` and `a` to `f`.
pub open spec fn hex_letter(c: char) -> bool {
    '0' <= c <= '9' || 'a' <= c <= 'f'
}

fn hex_chars(n: u64, width: usize) -> (out: Vec<char>)
    ensures
        out@ == hex(n as nat, width as nat),
    decreases width,
{
    if width == 0 {
        return Vec::new();
    }
    let mut out = hex_chars(n / 16, width - 1);
    let d: u8 = (n % 16) as u8;
    let c: char = if d < 10 {
        (48 + d) as char
    } else {
        (87 + d) as char
    };
    out.push(c);
    out
}

/// Length of a token.
pub const TOKEN_CHARS: usize = 48;

/// Whether `token` is as long as a token is, and made of hexadecimal digits.
pub open spec fn is_token(token: Seq<char>) -> bool {
    &&& token.len() == TOKEN_CHARS
    &&& forall|i: int| 0 <= i < token.len() ==> hex_letter(#[trigger] token[i])
}

/// The token made of random `words`: their hexadecimal digits, as many as a
/// token has.
pub fn token_of(words: &Vec<u64>) -> (token: String)
    requires
        words@.len() >= 3,
    ensures
        token@ == hex_words(words@).take(TOKEN_CHARS as int),
        is_token(token@),
{
    let mut chars: Vec<char> = Vec::new();
    let mut i: usize = 0;
    while i < words.len()
        invariant
            i <= words@.len(),
            chars@ == hex_words(words@.take(i as int)),
        decreases words.len() - i,
    {
        proof {
            assert(words@.take(i + 1).drop_last() =~= words@.take(i as int));
        }
        let mut digits = hex_chars(words[i], 16);
        chars.append(&mut digits);
        i = i + 1;
    }
    proof {
        assert(words@.take(words@.len() as int) =~= words@);
        lemma_hex_words_len(words@);
        lemma_hex_words_digits(words@);
        assert(hex_words(words@).take(TOKEN_CHARS as int) =~= hex_words(words@).subrange(
            0,
            TOKEN_CHARS as int,
        ));
    }
    slice_of(&chars, 0, TOKEN_CHARS)
}

/// Calls `RandomState::new`, which picks the keys of a new hasher at random:
/// nothing is claimed of them.
#[verifier::external_body]
fn random_state() -> RandomState {
    RandomState::new()
}

/// Calls `RandomState::build_hasher`. Nothing is claimed of the hasher.
#[verifier::external_body]
fn hasher_of(state: &RandomState) -> DefaultHasher {
    state.build_hasher()
}

/// Calls `Hasher::write_u64`. Nothing is claimed of the hasher.
#[verifier::external_body]
fn mix_u64(hasher: &mut DefaultHasher, n: u64) {
    hasher.write_u64(n)
}

/// Calls `Hasher::write_u128`. Nothing is claimed of the hasher.
#[verifier::external_body]
fn mix_u128(hasher: &mut DefaultHasher, n: u128) {
    hasher.write_u128(n)
}

/// Calls `Hasher::write_u32`. Nothing is claimed of the hasher.
#[verifier::external_body]
fn mix_u32(hasher: &mut DefaultHasher, n: u32) {
    hasher.write_u32(n)
}

/// Makes a new token at random. The time and the process id go into it as well.
pub fn generate_token(nanos: u128, pid: u32) -> (token: String)
    ensures
        is_token(token@),
{
    let mut words: Vec<u64> = Vec::new();
    let mut i: u64 = 0;
    while i < 4
        invariant
            i <= 4,
            words@.len() == 2 * i,
        decreases 4 - i,
    {
        let mut first = hasher_of(&random_state());
        mix_u64(&mut first, i);
        mix_u128(&mut first, nanos);
        mix_u32(&mut first, pid);
        let a = first.finish();
        let mut second = hasher_of(&random_state());
        mix_u64(&mut second, a);
        mix_u64(&mut second, i.wrapping_mul(0x9E37_79B9_7F4A_7C15));
        let b = second.finish();
        words.push(a);
        words.push(b);
        i = i + 1;
    }
    token_of(&words)
}

/// The address of the server on `port`.
pub open spec fn url_of(port: u16) -> Seq<char> {
    "http://127.0.0.1:"@ + decimal(port as nat) + MCP_PATH@
}

/// The address of the server on `port`.
pub fn url(port: u16) -> (out: String)
    ensures
        out@ == url_of(port),
{
    let mut out = joined("http://127.0.0.1:", decimal_text(port as u64).as_str());
    out.append(MCP_PATH);
    out
}

/// The header that presents a token.
pub open spec fn token_header(token: Seq<char>) -> Seq<char> {
    "Authorization: Bearer "@ + token
}

/// The arguments with which the agent's program registers the server.
pub open spec fn add_args_of(config: McpConfig) -> Seq<Seq<char>> {
    seq![
        "mcp"@,
        "add"@,
        "--transport"@,
        "http"@,
        "--scope"@,
        "user"@,
        "quarterdeck"@,
        url_of(config.port),
        "--header"@,
        token_header(config.token@),
    ]
}

/// The arguments with which the agent's program registers the server.
pub fn mcp_add_args(config: &McpConfig) -> (out: Vec<String>)
    ensures
        texts(out@) == add_args_of(*config),
{
    let mut out: Vec<String> = Vec::new();
    out.push("mcp".to_owned());
    out.push("add".to_owned());
    out.push("--transport".to_owned());
    out.push("http".to_owned());
    out.push("--scope".to_owned());
    out.push("user".to_owned());
    out.push("quarterdeck".to_owned());
    out.push(url(config.port));
    out.push("--header".to_owned());
    out.push(joined("Authorization: Bearer ", config.token.as_str()));
    proof {
        assert(texts(out@) =~= add_args_of(*config));
    }
    out
}

/// The arguments with which the agent's program forgets the server.
pub fn mcp_remove_args() -> (out: Vec<String>)
    ensures
        texts(out@) == seq!["mcp"@, "remove"@, "--scope"@, "user"@, "quarterdeck"@],
{
    let mut out: Vec<String> = Vec::new();
    out.push("mcp".to_owned());
    out.push("remove".to_owned());
    out.push("--scope".to_owned());
    out.push("user".to_owned());
    out.push("quarterdeck".to_owned());
    proof {
        assert(texts(out@) =~= seq!["mcp"@, "remove"@, "--scope"@, "user"@, "quarterdeck"@]);
    }
    out
}

/// The command line that registers the server by hand, for the program `cli`.
pub open spec fn mcp_command_of(cli: Seq<char>, config: McpConfig) -> Seq<char> {
    cli + " mcp add --transport http --scope user quarterdeck "@ + url_of(config.port)
        + " --header \""@ + token_header(config.token@) + "\""@
}

/// The command line that registers the server by hand, for the program `cli`.
pub fn mcp_command(cli: &str, config: &McpConfig) -> (out: String)
    ensures
        out@ == mcp_command_of(cli@, *config),
{
    let mut out = joined(cli, " mcp add --transport http --scope user quarterdeck ");
    out.append(url(config.port).as_str());
    out.append(" --header \"");
    out.append(joined("Authorization: Bearer ", config.token.as_str()).as_str());
    out.append("\"");
    out
}

// ---------------------------------------------------------------------------
// Laws.
// ---------------------------------------------------------------------------

/// A form is within its caps: it has between one and [`MAX_QUESTIONS`] questions,
/// each with at most [`MAX_OPTIONS_PER_QUESTION`] options, none of them empty.
pub proof fn law_forms_are_within_their_caps(args: JsonView)
    ensures
        form_questions(args) matches Some(questions) ==> {
            &&& 0 < questions.len() <= MAX_QUESTIONS
            &&& forall|i: int|
                0 <= i < questions.len() ==> (#[trigger] questions[i]).options.len()
                    <= MAX_OPTIONS_PER_QUESTION && forall|j: int|
                    0 <= j < questions[i].options.len() ==> (#[trigger] questions[i].options[j]).len()
                        > 0
        },
{
    if let Some(items) = args.field_items("questions"@) {
        let f = |v: JsonView| form_question(v);
        let all = items.filter_map(f);
        assert forall|i: int| 0 <= i < all.len() implies (#[trigger] all[i]).options.len()
            <= MAX_OPTIONS_PER_QUESTION && forall|j: int|
            0 <= j < all[i].options.len() ==> (#[trigger] all[i].options[j]).len() > 0 by {
            items.lemma_filter_map_contains(f, all[i]);
            let item = choose|v: JsonView| items.contains(v) && f(v) == Some(all[i]);
            lemma_form_options_are_not_empty(item);
        }
    }
}

proof fn lemma_form_options_are_not_empty(item: JsonView)
    ensures
        form_options(item).len() <= MAX_OPTIONS_PER_QUESTION,
        forall|j: int|
            0 <= j < form_options(item).len() ==> (#[trigger] form_options(item)[j]).len() > 0,
{
    if let Some(items) = item.field_items("options"@) {
        let f = |v: JsonView| form_option(v);
        let all = items.filter_map(f);
        assert forall|j: int| 0 <= j < form_options(item).len() implies (
        #[trigger] form_options(item)[j]).len() > 0 by {
            assert(form_options(item)[j] == all[j]);
            items.lemma_filter_map_contains(f, all[j]);
        }
    }
}

/// A question that is put has a form or a text, and expires after one second at
/// least and [`MAX_TIMEOUT_SECONDS`] at most, or never.
pub proof fn law_questions_can_be_answered(args: JsonView)
    ensures
        asked(args) matches Some(request) ==> {
            &&& request.questions is Some || request.question.len() > 0
            &&& request.timeout_seconds matches Some(secs) ==> 1 <= secs <= MAX_TIMEOUT_SECONDS
        },
{
}

/// A form takes the place of a plain question: what the arguments say of
/// `question` and `options` beside it makes no difference, and the request repeats the
/// first question of the form and its options.
pub proof fn law_a_form_wins(args: JsonView, other: JsonView)
    requires
        form_questions(args) is Some,
        forall|key: Seq<char>|
            key != "question"@ && key != "options"@ ==> #[trigger] other.field(key) == args.field(
                key,
            ),
    ensures
        asked(other) == asked(args),
        asked(args) matches Some(request) && request.questions matches Some(questions) && {
            &&& request.questions == form_questions(args)
            &&& questions.len() > 0
            &&& request.question == questions[0].question
            &&& request.options == if questions[0].options.len() == 0 {
                None
            } else {
                Some(questions[0].options)
            }
        },
{
    reveal_strlit("question");
    reveal_strlit("options");
    reveal_strlit("questions");
    reveal_strlit("detail");
    reveal_strlit("context");
    reveal_strlit("timeout_seconds");
    assert("question"@.len() == 8 && "options"@.len() == 7);
    assert("context"@[0] == 'c' && "options"@[0] == 'o');
    assert(other.field("questions"@) == args.field("questions"@));
    assert(other.field("detail"@) == args.field("detail"@));
    assert(other.field("context"@) == args.field("context"@));
    assert(other.field("timeout_seconds"@) == args.field("timeout_seconds"@));
}

/// A question that is given time above zero gets at least one second and at most
/// [`MAX_TIMEOUT_SECONDS`]; one that is given no such time never expires.
pub proof fn law_time_limits_are_within_bounds(args: JsonView)
    ensures
        asked_timeout(args) matches Some(secs) ==> 1 <= secs <= MAX_TIMEOUT_SECONDS,
        args.field("timeout_seconds"@) matches Some(v) ==> v.above_zero() && v.whole() is Some
            ==> asked_timeout(args) is Some,
        args.field("timeout_seconds"@) matches Some(v) ==> !v.above_zero() && v.whole() == Some(
            0u64,
        ) ==> asked_timeout(args) is None,
        args.field("timeout_seconds"@) is None ==> asked_timeout(args) is None,
{
}

/// A reply carries the id of its request, and either a result or an error.
pub proof fn law_replies_carry_the_id(id: JsonView, result: JsonView, code: int, message: Seq<char>)
    ensures
        rpc_result_of(id, result).field("id"@) == Some(id),
        rpc_result_of(id, result).field("result"@) == Some(result),
        rpc_error_of(id, code, message).field("id"@) == Some(id),
        rpc_error_of(id, code, message).field("result"@) is None,
        rpc_error_of(id, code, message).field("error"@) is Some,
{
    reveal_strlit("jsonrpc");
    reveal_strlit("id");
    reveal_strlit("result");
    reveal_strlit("error");
    assert("jsonrpc"@.len() == 7 && "id"@.len() == 2 && "result"@.len() == 6 && "error"@.len() == 5);
    let good = seq![("jsonrpc"@, JsonView::Str("2.0"@)), ("id"@, id), ("result"@, result)];
    lemma_object_field(good, 1);
    lemma_object_field(good, 2);
    let error = object_of(seq![("code"@, number_of(code)), ("message"@, JsonView::Str(message))]);
    let bad = seq![("jsonrpc"@, JsonView::Str("2.0"@)), ("id"@, id), ("error"@, error)];
    lemma_object_field(bad, 1);
    lemma_object_field(bad, 2);
    lemma_object_no_field(bad, "result"@);
}

/// A token is made once: what is stored of a server with a token can be used after a
/// restart, and whatever token is made then, the stored one is kept.
pub proof fn law_the_token_outlasts_restarts(
    existing: Option<McpConfig>,
    fresh: Seq<char>,
    stored: McpConfig,
    next_fresh: Seq<char>,
)
    requires
        existing matches Some(config) ==> usable(config),
        is_token(fresh),
        stored.port != 0,
        stored.token@ == served_token(existing, fresh),
    ensures
        usable(stored),
        served_token(Some(stored), next_fresh) == stored.token@,
{
}

/// The part of a reply to `ask_user` that the agent reads.
pub open spec fn told(reply: JsonView) -> Option<JsonView> {
    match reply.field("result"@) {
        Some(result) => result.field("structuredContent"@),
        None => None,
    }
}

/// What the user answered is what the agent is told, with how it was answered and
/// the id of the question. Where nobody answered in time, the agent is told so; where
/// the answer can no longer come, it is told of no answer.
pub proof fn law_the_answer_arrives(id: JsonView, ask_id: Seq<char>, outcome: AskOutcome)
    ensures
        match outcome {
            AskOutcome::Answered(answer) => told(ask_reply_of(id, ask_id, outcome)) matches Some(t)
                && t.field_text("answer"@) == Some(answer.answer@) && t.field_text("kind"@) == Some(
                kind_name(answer.kind),
            ) && t.field_text("ask_id"@) == Some(ask_id),
            AskOutcome::TimedOut => told(ask_reply_of(id, ask_id, outcome)) matches Some(t)
                && t.field_text("answer"@) == Some(Seq::<char>::empty()) && t.field_text("kind"@)
                == Some(kind_name(AskAnswerKind::Timeout)) && t.field_text("ask_id"@) == Some(
                ask_id,
            ),
            AskOutcome::Orphaned => told(ask_reply_of(id, ask_id, outcome)) is None,
        },
{
    reveal_strlit("content");
    reveal_strlit("structuredContent");
    reveal_strlit("isError");
    match outcome {
        AskOutcome::Answered(answer) => {
            lemma_answer_is_told(id, ask_id, answer.answer@, answer.kind);
        },
        AskOutcome::TimedOut => {
            lemma_answer_is_told(id, ask_id, Seq::empty(), AskAnswerKind::Timeout);
        },
        AskOutcome::Orphaned => {
            let error = tool_error_of(orphaned_text());
            law_replies_carry_the_id(id, error, 0, Seq::empty());
            let fields = seq![
                ("content"@, text_block(orphaned_text())),
                ("isError"@, JsonView::Bool(true)),
            ];
            assert("structuredContent"@.len() == 17);
            lemma_object_no_field(fields, "structuredContent"@);
        },
    }
}

proof fn lemma_answer_is_told(
    id: JsonView,
    ask_id: Seq<char>,
    answer: Seq<char>,
    kind: AskAnswerKind,
)
    ensures
        told(rpc_result_of(id, answer_content_of(ask_id, answer, kind))) == Some(
            answer_of(ask_id, answer, kind),
        ),
        answer_of(ask_id, answer, kind).field_text("answer"@) == Some(answer),
        answer_of(ask_id, answer, kind).field_text("kind"@) == Some(kind_name(kind)),
        answer_of(ask_id, answer, kind).field_text("ask_id"@) == Some(ask_id),
{
    reveal_strlit("content");
    reveal_strlit("structuredContent");
    reveal_strlit("answer");
    reveal_strlit("kind");
    reveal_strlit("ask_id");
    let value = answer_of(ask_id, answer, kind);
    let result = answer_content_of(ask_id, answer, kind);
    law_replies_carry_the_id(id, result, 0, Seq::empty());
    let outer = seq![
        ("content"@, text_block(compact_text(value))),
        ("structuredContent"@, value),
        ("isError"@, JsonView::Bool(false)),
    ];
    assert("content"@.len() == 7 && "structuredContent"@.len() == 17);
    lemma_object_field(outer, 1);
    let inner = seq![
        ("answer"@, JsonView::Str(answer)),
        ("kind"@, JsonView::Str(kind_name(kind))),
        ("ask_id"@, JsonView::Str(ask_id)),
    ];
    assert("answer"@.len() == 6 && "kind"@.len() == 4 && "ask_id"@.len() == 6);
    assert("answer"@[1] == 'n' && "ask_id"@[1] == 's');
    lemma_object_field(inner, 0);
    lemma_object_field(inner, 1);
    lemma_object_field(inner, 2);
}

/// A request that presents the token never gets the reply of one that does not,
/// whatever it holds.
pub proof fn law_the_token_is_enough(message: Option<JsonView>)
    ensures
        message_post(message) != PostView::Reply(unauthorized_reply()),
{
}

/// Every request gets a reply of its own or is handed to the deck; only a
/// message without an id gets none.
pub proof fn law_only_notifications_go_unanswered(message: JsonView)
    requires
        message is Object,
    ensures
        message_post(Some(message)) == PostView::Accepted <==> message.field("id"@) is None,
{
}

} // verus!
