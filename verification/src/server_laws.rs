//! What holds of the server: who is let in, what a message leads to, and what is
//! answered.

use crate::ipc::AskAnswerKind;
use crate::json::{
    lemma_object_field, lemma_object_no_field, number_of, object_of, parsed_bytes, parsed_text,
    Json, JsonView,
};
use crate::lists::lemma_same_filter_map;
use crate::mcp_server::{
    ask_answer_content, ask_reply, ask_user, authorized, call_tool, cancel_ask, cancel_reply,
    dispatch, first_port, handle_get, handle_message, handle_post, initialize_result, json_response,
    keepalive_interval, law_replies_carry_the_id, load_config, mcp_add_args, mcp_command,
    mcp_remove_args, next_port, notify_reply, notify_user, parse_ask_request, rpc_error,
    served_config, stripped_text, tool_content_of, tool_error_of, tools_list_result, update_ask,
    update_reply, url, AskAnswer, AskOutcome, AskRequest, Call, HttpReply, McpConfig, Post,
    WaitEvent, WaitStep, Waiting,
};
use crate::request_laws::{lemma_error_says, lemma_undirected, tidied, undirected};
use crate::text::{decimal, quoted, texts, trimmed};
use vstd::prelude::*;

verus! {

/// Whether `reply` refuses the request with this id, for this reason.
pub open spec fn refuses(reply: JsonView, id: JsonView, code: int, message: Seq<char>) -> bool {
    &&& reply.field("id"@) == Some(id)
    &&& reply.field("result"@) is None
    &&& reply.field("error"@) matches Some(e) && e.field("code"@) == Some(number_of(code))
        && e.field_text("message"@) == Some(message)
}

/// Whether `reply` answers the request with this id with a result, and which.
pub open spec fn results(reply: JsonView, id: JsonView, result: JsonView) -> bool {
    reply.field("id"@) == Some(id) && reply.field("result"@) == Some(result)
}

/// Whether a tool's result tells this value, and this text beside it.
pub open spec fn tells(result: JsonView, value: JsonView, message: Seq<char>) -> bool {
    &&& result.field("structuredContent"@) == Some(value)
    &&& result.field("isError"@) == Some(JsonView::Bool(false))
    &&& says(result, message)
}

/// Whether a tool's result shows this text, in one block.
pub open spec fn says(result: JsonView, message: Seq<char>) -> bool {
    result.field("content"@) matches Some(JsonView::Array(blocks)) && blocks.len() == 1
        && blocks[0].field_text("type"@) == Some("text"@) && blocks[0].field_text("text"@) == Some(
        message,
    )
}

proof fn lemma_refuses(id: JsonView, code: int, message: Seq<char>)
    ensures
        refuses(crate::mcp_server::rpc_error_of(id, code, message), id, code, message),
{
    law_replies_carry_the_id(id, JsonView::Null, code, message);
    lemma_error_says(id, code, message);
}

proof fn lemma_tells(value: JsonView, message: Seq<char>)
    ensures
        tells(tool_content_of(message, value), value, message),
        says(tool_error_of(message), message),
        tool_error_of(message).field("isError"@) == Some(JsonView::Bool(true)),
        tool_error_of(message).field("structuredContent"@) is None,
{
    reveal_strlit("content");
    reveal_strlit("structuredContent");
    reveal_strlit("isError");
    reveal_strlit("type");
    reveal_strlit("text");
    assert("content"@.len() == 7 && "structuredContent"@.len() == 17 && "isError"@.len() == 7);
    assert("content"@[0] == 'c' && "isError"@[0] == 'i');
    assert("type"@[1] == 'y' && "text"@[1] == 'e');
    let block = seq![("type"@, JsonView::Str("text"@)), ("text"@, JsonView::Str(message))];
    lemma_object_field(block, 0);
    lemma_object_field(block, 1);
    let content = JsonView::Array(seq![object_of(block)]);
    let good = seq![
        ("content"@, content),
        ("structuredContent"@, value),
        ("isError"@, JsonView::Bool(false)),
    ];
    lemma_object_field(good, 0);
    lemma_object_field(good, 1);
    lemma_object_field(good, 2);
    let bad = seq![("content"@, content), ("isError"@, JsonView::Bool(true))];
    lemma_object_field(bad, 0);
    lemma_object_field(bad, 1);
    lemma_object_no_field(bad, "structuredContent"@);
}

// ---------------------------------------------------------------------------
// Who is let in.
// ---------------------------------------------------------------------------

/// A request is let in exactly where its header is `Bearer ` and the token, with or
/// without white space around the token.
pub proof fn law_the_token_lets_in(header: Option<&str>, token: &str, out: bool, given: Seq<char>)
    requires
        call_ensures(authorized, (header, token), out),
    ensures
        header is None ==> !out,
        header matches Some(h) ==> h@ == "Bearer "@ + given ==> out == (trimmed(given) == token@),
        header matches Some(h) ==> h@.len() < 7 ==> !out,
        header matches Some(h) ==> h@.len() >= 7 && h@.take(7) != "Bearer "@ ==> !out,
{
    reveal_strlit("Bearer ");
    let prefix = "Bearer "@;
    if let Some(h) = header {
        if h@ == prefix + given {
            assert(h@.take(7) =~= prefix);
            assert(h@.skip(7) =~= given);
        }
    }
}

/// Without the token a request is answered with 401 and nothing else is done, whatever it
/// holds; with it, what is done depends on the message alone.
pub proof fn law_nothing_is_done_without_the_token(
    header: Option<&str>,
    token: &str,
    body: &[u8],
    out: Post,
    let_in: bool,
    message: Option<Json>,
    done: Post,
)
    requires
        call_ensures(handle_post, (header, token, body), out),
        call_ensures(authorized, (header, token), let_in),
        call_ensures(handle_message, (message,), done),
        parsed_bytes(body@) == match message {
            Some(m) => Some(m@),
            None => None,
        },
    ensures
        !let_in ==> (out matches Post::Reply(r) && r.status == 401 && (r.authenticate matches Some(a)
            && a@ == "Bearer"@)),
        let_in ==> out@ == done@,
{
}

/// A stream from the server is declined with 405, and without the token with 401.
pub proof fn law_a_get_is_declined(header: Option<&str>, token: &str, out: HttpReply, let_in: bool)
    requires
        call_ensures(handle_get, (header, token), out),
        call_ensures(authorized, (header, token), let_in),
    ensures
        !let_in ==> out.status == 401 && (out.authenticate matches Some(a) && a@ == "Bearer"@),
        let_in ==> out.status == 405 && out.authenticate is None && out.body@
            == "SSE stream not supported"@ && (out.content_type matches Some(t) && t@
            == "text/plain; charset=utf-8"@),
{
}

// ---------------------------------------------------------------------------
// What a message leads to.
// ---------------------------------------------------------------------------

/// What cannot be read, and what is no object, is refused with 400 and an error that says
/// so, under no id; a message without an id is taken without an answer.
pub proof fn law_messages_are_taken_or_refused(
    message: Option<Json>,
    out: Post,
    nobody: Json,
    code: i64,
    why: &str,
    error: Json,
    refusal: HttpReply,
)
    requires
        call_ensures(handle_message, (message,), out),
        nobody@ is Null,
        call_ensures(rpc_error, (nobody, code, why), error),
        call_ensures(json_response, (400u16, &error), refusal),
    ensures
        message is None && code == -32700 && why@ == "Parse error"@ ==> (out matches Post::Reply(r)
            && r.status == 400 && r@ == refusal@),
        message matches Some(m) ==> !(m@ is Object) && code == -32600 && why@
            == "Invalid Request (batching is not supported)"@ ==> (out matches Post::Reply(r)
            && r.status == 400 && r@ == refusal@),
        message matches Some(m) ==> m@ is Object && m@.field("id"@) is None ==> out is Accepted,
        message matches Some(m) ==> m@.field("id"@) is Some ==> !(out is Accepted) && !(out is Reply),
{
}

/// A request is handed on with its own id and parameters, which are null where it has none,
/// and with no method where it names none. Only a question of an agent
/// that wants to hear of its progress is answered by a stream, with the token that the
/// agent gave.
pub proof fn law_requests_are_handed_on(
    message: Json,
    out: Post,
    id: Json,
    method: &str,
    params: &Json,
    handed: Call,
)
    requires
        call_ensures(handle_message, (Some(message),), out),
        message@.field("id"@) == Some(id@),
        message@.field("method"@) == Some(JsonView::Str(method@)) || (!(message@.field(
            "method"@,
        ) matches Some(JsonView::Str(_))) && method@.len() == 0),
        message@.field("params"@) == Some(params@) || (message@.field("params"@) is None
            && params@ is Null),
        call_ensures(dispatch, (method, id, params), handed),
    ensures
        method@ != "tools/call"@ ==> (out matches Post::Call(c) && c@ == handed@),
        params@.field("name"@) != Some(JsonView::Str("ask_user"@)) ==> (out matches Post::Call(c)
            && c@ == handed@),
        params@.field("_meta"@) is None ==> (out matches Post::Call(c) && c@ == handed@),
        params@.field("_meta"@) matches Some(meta) ==> (meta.field("progressToken"@) is None
            || meta.field("progressToken"@) == Some(JsonView::Null)) ==> (out matches Post::Call(c)
            && c@ == handed@),
        method@ == "tools/call"@ && params@.field("name"@) == Some(JsonView::Str("ask_user"@)) ==> (
        params@.field("_meta"@) matches Some(meta) ==> (meta.field("progressToken"@) matches Some(
            token,
        ) ==> token != JsonView::Null ==> match handed {
            Call::Ask { id: asked_id, request } => out matches Post::Stream {
                id: i,
                request: r,
                token: t,
            } && i@ == id@ && r@ == request@ && t@ == token,
            Call::Reply(reply) => out matches Post::StreamReply(r) && r@ == reply@,
            _ => false,
        })),
{
    lemma_methods_differ();
    reveal_strlit("ask_user");
    assert("ask_user"@.len() == 8);
}

proof fn lemma_methods_differ()
    ensures
        "initialize"@.len() == 10 && "initialize"@[0] == 'i',
        "tools/list"@.len() == 10 && "tools/list"@[0] == 't' && "tools/list"@[6] == 'l',
        "tools/call"@.len() == 10 && "tools/call"@[0] == 't' && "tools/call"@[6] == 'c',
        "ping"@.len() == 4,
{
    reveal_strlit("initialize");
    reveal_strlit("tools/list");
    reveal_strlit("ping");
    reveal_strlit("tools/call");
}

/// Each method leads to what it is for: the first three are answered at once, tools are
/// called, and anything else is refused.
pub proof fn law_methods_lead_to_what_they_are_for(
    method: &str,
    id: Json,
    params: &Json,
    out: Call,
    facts: Json,
    tools: Json,
    called: Call,
)
    requires
        call_ensures(dispatch, (method, id, params), out),
        call_ensures(initialize_result, (), facts),
        call_ensures(tools_list_result, (), tools),
        call_ensures(call_tool, (id, params), called),
    ensures
        method@ == "initialize"@ ==> (out matches Call::Reply(r) && results(r@, id@, facts@)),
        method@ == "tools/list"@ ==> (out matches Call::Reply(r) && results(r@, id@, tools@)),
        method@ == "ping"@ ==> (out matches Call::Reply(r) && r@.field("id"@) == Some(id@)
            && r@.field("error"@) is None && r@.field("result"@) is Some),
        method@ == "tools/call"@ ==> out@ == called@,
        method@.len() == 0 ==> (out matches Call::Reply(r) && refuses(
            r@,
            id@,
            -32600,
            "Invalid Request"@,
        )),
        method@.len() > 0 && method@ != "initialize"@ && method@ != "tools/list"@ && method@
            != "ping"@ && method@ != "tools/call"@ ==> (out matches Call::Reply(r) && refuses(
            r@,
            id@,
            -32601,
            "Method not found: "@ + method@,
        )),
{
    lemma_methods_differ();
    lemma_refuses(id@, -32600, "Invalid Request"@);
    lemma_refuses(id@, -32601, "Method not found: "@ + method@);
    law_replies_carry_the_id(id@, facts@, 0, Seq::empty());
    law_replies_carry_the_id(id@, tools@, 0, Seq::empty());
    let nothing = object_of(Seq::<(Seq<char>, JsonView)>::empty());
    law_replies_carry_the_id(id@, nothing, 0, Seq::empty());
    assert(seq![] =~= Seq::<(Seq<char>, JsonView)>::empty());
    lemma_no_error(id@, nothing);
}

proof fn lemma_no_error(id: JsonView, result: JsonView)
    ensures
        crate::mcp_server::rpc_result_of(id, result).field("error"@) is None,
{
    reveal_strlit("jsonrpc");
    reveal_strlit("id");
    reveal_strlit("result");
    reveal_strlit("error");
    assert("jsonrpc"@.len() == 7 && "id"@.len() == 2 && "result"@.len() == 6 && "error"@.len() == 5);
    let fields = seq![("jsonrpc"@, JsonView::Str("2.0"@)), ("id"@, id), ("result"@, result)];
    lemma_object_no_field(fields, "error"@);
}

/// Each tool is called by its name, with the arguments that were given; a name that is
/// none is refused.
pub proof fn law_tools_are_called_by_name(
    id: Json,
    params: &Json,
    out: Call,
    name: Seq<char>,
    args: &Json,
    asking: Call,
    updating: Call,
    cancelling: Call,
    notifying: Call,
)
    requires
        call_ensures(call_tool, (id, params), out),
        params@.field("name"@) == Some(JsonView::Str(name)),
        params@.field("arguments"@) == Some(args@),
        call_ensures(ask_user, (id, args), asking),
        call_ensures(update_ask, (id, args), updating),
        call_ensures(cancel_ask, (id, args), cancelling),
        call_ensures(notify_user, (id, args), notifying),
    ensures
        name == "ask_user"@ ==> out@ == asking@,
        name == "update_ask"@ ==> out@ == updating@,
        name == "cancel_ask"@ ==> out@ == cancelling@,
        name == "notify_user"@ ==> out@ == notifying@,
        name != "ask_user"@ && name != "update_ask"@ && name != "cancel_ask"@ && name
            != "notify_user"@ ==> (out matches Call::Reply(r) && refuses(
            r@,
            id@,
            -32602,
            "Unknown tool: "@ + name,
        )),
{
    reveal_strlit("ask_user");
    reveal_strlit("update_ask");
    reveal_strlit("cancel_ask");
    reveal_strlit("notify_user");
    assert("ask_user"@.len() == 8 && "update_ask"@.len() == 10 && "cancel_ask"@.len() == 10
        && "notify_user"@.len() == 11);
    assert("update_ask"@[0] == 'u' && "cancel_ask"@[0] == 'c');
    lemma_refuses(id@, -32602, "Unknown tool: "@ + name);
}

/// A question is put exactly as its arguments read, and refused where they put none.
pub proof fn law_a_question_is_put_as_it_reads(
    id: Json,
    args: &Json,
    out: Call,
    read: Result<AskRequest, Json>,
)
    requires
        call_ensures(ask_user, (id, args), out),
        call_ensures(parse_ask_request, (&id, args), read),
    ensures
        match read {
            Ok(req) => out matches Call::Ask { id: i, request } && i@ == id@ && request@ == req@,
            Err(reply) => out matches Call::Reply(r) && r@ == reply@,
        },
{
}

/// A revision names the question that it is for, and holds what the arguments give: a new
/// text, where something is left of it; all the strings among the new options; and new
/// details, which may be empty. Without a name it is refused.
pub proof fn law_a_revision_holds_what_is_given(id: Json, args: &Json, out: Call)
    requires
        call_ensures(update_ask, (id, args), out),
    ensures
        ({
            let name = match args@.field("ask_id"@) {
                Some(JsonView::Str(s)) => trimmed(s),
                _ => Seq::empty(),
            };
            if name.len() == 0 {
                out matches Call::Reply(r) && refuses(
                    r@,
                    id@,
                    -32602,
                    "update_ask requires a non-empty `ask_id`"@,
                )
            } else {
                out matches Call::Update { id: i, ask_id, question, options, detail } && {
                    &&& i@ == id@
                    &&& ask_id@ == name
                    &&& if tidied(args@, "question"@).len() == 0 {
                        question is None
                    } else {
                        question matches Some(q) && q@ == tidied(args@, "question"@)
                    }
                    &&& match args@.field("options"@) {
                        Some(JsonView::Array(items)) => options matches Some(o) && texts(o@)
                            == items.filter_map(
                            |v: JsonView|
                                match v {
                                    JsonView::Str(s) => Some(undirected(s)),
                                    _ => None,
                                },
                        ),
                        _ => options is None,
                    }
                    &&& match args@.field("detail"@) {
                        Some(JsonView::Str(s)) => detail matches Some(d) && d@ == undirected(
                            trimmed(s),
                        ),
                        _ => detail is None,
                    }
                }
            }
        }),
{
    lemma_undirected();
    lemma_refuses(id@, -32602, "update_ask requires a non-empty `ask_id`"@);
    if let Some(JsonView::Array(items)) = args@.field("options"@) {
        lemma_same_filter_map(
            items,
            |v: JsonView| stripped_text(v),
            |v: JsonView|
                match v {
                    JsonView::Str(s) => Some(undirected(s)),
                    _ => None,
                },
        );
    }
}

/// Taking a question back names it; without a name it is refused.
pub proof fn law_a_cancellation_names_its_question(id: Json, args: &Json, out: Call)
    requires
        call_ensures(cancel_ask, (id, args), out),
    ensures
        match args@.field("ask_id"@) {
            Some(JsonView::Str(s)) => if trimmed(s).len() == 0 {
                out matches Call::Reply(r) && refuses(
                    r@,
                    id@,
                    -32602,
                    "cancel_ask requires a non-empty `ask_id`"@,
                )
            } else {
                out matches Call::Cancel { id: i, ask_id } && i@ == id@ && ask_id@ == trimmed(s)
            },
            _ => out matches Call::Reply(r) && refuses(
                r@,
                id@,
                -32602,
                "cancel_ask requires a non-empty `ask_id`"@,
            ),
        },
{
    lemma_refuses(id@, -32602, "cancel_ask requires a non-empty `ask_id`"@);
}

/// A notification holds its message and where the agent runs; without a message it is
/// refused.
pub proof fn law_a_notification_holds_its_message(id: Json, args: &Json, out: Call)
    requires
        call_ensures(notify_user, (id, args), out),
    ensures
        if tidied(args@, "message"@).len() == 0 {
            out matches Call::Reply(r) && refuses(
                r@,
                id@,
                -32602,
                "notify_user requires a non-empty `message`"@,
            )
        } else {
            out matches Call::Notify { id: i, request } && i@ == id@ && request.message@ == tidied(
                args@,
                "message"@,
            ) && match args@.field("context"@) {
                Some(JsonView::Str(s)) => request.context matches Some(c) && c@ == undirected(s),
                _ => request.context is None,
            }
        },
{
    lemma_undirected();
    lemma_refuses(id@, -32602, "notify_user requires a non-empty `message`"@);
}

// ---------------------------------------------------------------------------
// What is answered.
// ---------------------------------------------------------------------------

/// The word for a kind of answer.
pub open spec fn word_for(kind: AskAnswerKind) -> Seq<char> {
    match kind {
        AskAnswerKind::Option => "option"@,
        AskAnswerKind::Text => "text"@,
        AskAnswerKind::Timeout => "timeout"@,
        AskAnswerKind::Dismissed => "dismissed"@,
        AskAnswerKind::Cancelled => "cancelled"@,
        AskAnswerKind::Form => "form"@,
        AskAnswerKind::Terminal => "terminal"@,
    }
}

/// Whether `value` tells an agent this answer to this question, and nothing else.
pub open spec fn tells_answer(
    value: JsonView,
    ask_id: Seq<char>,
    answer: Seq<char>,
    kind: AskAnswerKind,
) -> bool {
    &&& value.field_text("answer"@) == Some(answer)
    &&& value.field_text("kind"@) == Some(word_for(kind))
    &&& value.field_text("ask_id"@) == Some(ask_id)
}

/// The agent is told the user's own words, how they were given and for which question,
/// as a value and as a text that reads back as that value; it is told of a timeout where
/// nobody answered in time; and it gets an error where no answer can come.
pub proof fn law_the_agent_is_told(id: Json, ask_id: &str, outcome: &AskOutcome, out: Json)
    requires
        call_ensures(ask_reply, (id, ask_id, outcome), out),
    ensures
        out@.field("id"@) == Some(id@),
        out@.field("result"@) matches Some(result) && match *outcome {
            AskOutcome::Answered(a) => {
                &&& result.field("isError"@) == Some(JsonView::Bool(false))
                &&& result.field("structuredContent"@) matches Some(v) && tells_answer(
                    v,
                    ask_id@,
                    a.answer@,
                    a.kind,
                )
            },
            AskOutcome::TimedOut => {
                &&& result.field("isError"@) == Some(JsonView::Bool(false))
                &&& result.field("structuredContent"@) matches Some(v) && tells_answer(
                    v,
                    ask_id@,
                    Seq::empty(),
                    AskAnswerKind::Timeout,
                )
            },
            AskOutcome::Orphaned => {
                &&& result.field("isError"@) == Some(JsonView::Bool(true))
                &&& result.field("structuredContent"@) is None
            },
        },
{
    let result = match *outcome {
        AskOutcome::Answered(a) => crate::mcp_server::answer_content_of(ask_id@, a.answer@, a.kind),
        AskOutcome::Orphaned => tool_error_of(crate::mcp_server::orphaned_text()),
        AskOutcome::TimedOut => crate::mcp_server::answer_content_of(
            ask_id@,
            Seq::empty(),
            AskAnswerKind::Timeout,
        ),
    };
    law_replies_carry_the_id(id@, result, 0, Seq::empty());
    match *outcome {
        AskOutcome::Answered(a) => {
            lemma_told(ask_id@, a.answer@, a.kind);
        },
        AskOutcome::TimedOut => {
            lemma_told(ask_id@, Seq::empty(), AskAnswerKind::Timeout);
        },
        AskOutcome::Orphaned => {
            lemma_tells(JsonView::Null, crate::mcp_server::orphaned_text());
        },
    }
}

proof fn lemma_told(ask_id: Seq<char>, answer: Seq<char>, kind: AskAnswerKind)
    ensures
        ({
            let value = crate::mcp_server::answer_of(ask_id, answer, kind);
            &&& tells_answer(value, ask_id, answer, kind)
            &&& tells(
                crate::mcp_server::answer_content_of(ask_id, answer, kind),
                value,
                crate::json::compact_text(value),
            )
        }),
{
    reveal_strlit("answer");
    reveal_strlit("kind");
    reveal_strlit("ask_id");
    assert("answer"@.len() == 6 && "kind"@.len() == 4 && "ask_id"@.len() == 6);
    assert("answer"@[1] == 'n' && "ask_id"@[1] == 's');
    let inner = seq![
        ("answer"@, JsonView::Str(answer)),
        ("kind"@, JsonView::Str(crate::ipc::kind_name(kind))),
        ("ask_id"@, JsonView::Str(ask_id)),
    ];
    lemma_object_field(inner, 0);
    lemma_object_field(inner, 1);
    lemma_object_field(inner, 2);
    let value = crate::mcp_server::answer_of(ask_id, answer, kind);
    lemma_tells(value, crate::json::compact_text(value));
}

/// The text of an answer says what the value beside it says.
pub proof fn law_text_and_value_agree(ask_id: &str, answer: &AskAnswer, out: Json)
    requires
        call_ensures(ask_answer_content, (ask_id, answer), out),
    ensures
        exists|message: Seq<char>| #[trigger]
            says(out@, message) && out@.field("structuredContent"@) == parsed_text(message),
{
    let value = crate::mcp_server::answer_of(ask_id@, answer.answer@, answer.kind);
    lemma_told(ask_id@, answer.answer@, answer.kind);
    assert(says(out@, crate::json::compact_text(value)));
}

/// The answer to a revision says whether there was a question to revise, and which.
pub proof fn law_revisions_are_answered(id: Json, ask_id: &str, updated: bool, out: Json)
    requires
        call_ensures(update_reply, (id, ask_id, updated), out),
    ensures
        out@.field("id"@) == Some(id@),
        out@.field("result"@) matches Some(result) && if updated {
            result.field("isError"@) == Some(JsonView::Bool(false)) && (result.field(
                "structuredContent"@,
            ) matches Some(v) && v.field_text("ask_id"@) == Some(ask_id@) && v.field_flag("updated"@)
                == Some(true))
        } else {
            result.field("isError"@) == Some(JsonView::Bool(true)) && says(
                result,
                "No pending ask with id "@ + quoted(ask_id@)
                    + " \u{2014} it may have been answered, dismissed, cancelled, or timed out."@,
            )
        },
{
    reveal_strlit("ask_id");
    reveal_strlit("updated");
    assert("ask_id"@.len() == 6 && "updated"@.len() == 7);
    let fields = seq![("ask_id"@, JsonView::Str(ask_id@)), ("updated"@, JsonView::Bool(true))];
    lemma_object_field(fields, 0);
    lemma_object_field(fields, 1);
    lemma_tells(object_of(fields), "Ask updated."@);
    lemma_tells(JsonView::Null, crate::mcp_server::nothing_to_update(ask_id@));
    law_replies_carry_the_id(
        id@,
        if updated {
            tool_content_of("Ask updated."@, object_of(fields))
        } else {
            tool_error_of(crate::mcp_server::nothing_to_update(ask_id@))
        },
        0,
        Seq::empty(),
    );
}

/// The answer to taking a question back says whether there was one, and which.
pub proof fn law_cancellations_are_answered(id: Json, ask_id: &str, cancelled: bool, out: Json)
    requires
        call_ensures(cancel_reply, (id, ask_id, cancelled), out),
    ensures
        out@.field("id"@) == Some(id@),
        out@.field("result"@) matches Some(result) && if cancelled {
            result.field("isError"@) == Some(JsonView::Bool(false)) && (result.field(
                "structuredContent"@,
            ) matches Some(v) && v.field_text("ask_id"@) == Some(ask_id@) && v.field_flag(
                "cancelled"@,
            ) == Some(true))
        } else {
            result.field("isError"@) == Some(JsonView::Bool(true)) && says(
                result,
                "No pending ask with id "@ + quoted(ask_id@)
                    + " \u{2014} it may have already been answered, dismissed, cancelled, or timed out."@,
            )
        },
{
    reveal_strlit("ask_id");
    reveal_strlit("cancelled");
    assert("ask_id"@.len() == 6 && "cancelled"@.len() == 9);
    let fields = seq![("ask_id"@, JsonView::Str(ask_id@)), ("cancelled"@, JsonView::Bool(true))];
    lemma_object_field(fields, 0);
    lemma_object_field(fields, 1);
    lemma_tells(object_of(fields), "Ask cancelled."@);
    lemma_tells(JsonView::Null, crate::mcp_server::nothing_to_cancel(ask_id@));
    law_replies_carry_the_id(
        id@,
        if cancelled {
            tool_content_of("Ask cancelled."@, object_of(fields))
        } else {
            tool_error_of(crate::mcp_server::nothing_to_cancel(ask_id@))
        },
        0,
        Seq::empty(),
    );
}

/// The answer to a notification says that it was delivered, and under which id.
pub proof fn law_notifications_are_answered(id: Json, record_id: &str, out: Json)
    requires
        call_ensures(notify_reply, (id, record_id), out),
    ensures
        out@.field("id"@) == Some(id@),
        out@.field("result"@) matches Some(result) && result.field("isError"@) == Some(
            JsonView::Bool(false),
        ) && (result.field("structuredContent"@) matches Some(v) && v.field_flag("delivered"@)
            == Some(true) && v.field_text("id"@) == Some(record_id@)),
{
    reveal_strlit("delivered");
    reveal_strlit("id");
    assert("delivered"@.len() == 9 && "id"@.len() == 2);
    let fields = seq![("delivered"@, JsonView::Bool(true)), ("id"@, JsonView::Str(record_id@))];
    lemma_object_field(fields, 0);
    lemma_object_field(fields, 1);
    lemma_tells(object_of(fields), "Notification delivered."@);
    law_replies_carry_the_id(
        id@,
        tool_content_of("Notification delivered."@, object_of(fields)),
        0,
        Seq::empty(),
    );
}

/// While an agent waits it gets signs of life, numbered from one, with its own token;
/// when the question ends it gets the reply that it would get without them; and when it
/// is gone the question is given up as timed out.
pub proof fn law_waiting_ends_with_the_reply(
    waiting: &mut Waiting,
    event: &WaitEvent,
    out: WaitStep,
    outcome: &AskOutcome,
    id: Json,
    ask_id: &str,
    reply: Json,
)
    requires
        call_ensures(Waiting::drive_ask, (waiting, event), out),
        mut_ref_current(waiting).id@ == id@,
        mut_ref_current(waiting).ask_id@ == ask_id@,
        call_ensures(ask_reply, (id, ask_id, outcome), reply),
    ensures
        *event == WaitEvent::Ended(*outcome) ==> (out matches WaitStep::Finish(r) && r@ == reply@),
        *event is CallerGone && *outcome is TimedOut ==> (out matches WaitStep::Abandon(r) && r@
            == reply@),
        *event is Tick ==> {
            &&& mut_ref_future(waiting).progress == mut_ref_current(waiting).progress + 1
            &&& out matches WaitStep::Progress(note) && note@.field_text("method"@) == Some(
                "notifications/progress"@,
            ) && (note@.field("params"@) matches Some(p) && p.field("progressToken"@) == Some(
                mut_ref_current(waiting).token@,
            ) && p.field("progress"@) == Some(
                number_of(mut_ref_current(waiting).progress + 1),
            ) && p.field_text("message"@) == Some("waiting for the human to answer"@))
                && note@.field_text("jsonrpc"@) == Some("2.0"@)
        },
        mut_ref_future(waiting).ask_id@ == ask_id@,
        mut_ref_future(waiting).id@ == id@,
        mut_ref_future(waiting).token@ == mut_ref_current(waiting).token@,
{
    reveal_strlit("jsonrpc");
    reveal_strlit("method");
    reveal_strlit("params");
    reveal_strlit("progressToken");
    reveal_strlit("progress");
    assert("jsonrpc"@.len() == 7 && "method"@.len() == 6 && "params"@.len() == 6);
    assert("method"@[0] == 'm' && "params"@[0] == 'p');
    assert("progressToken"@.len() == 13 && "progress"@.len() == 8);
    let token = mut_ref_current(waiting).token@;
    let n = mut_ref_current(waiting).progress + 1;
    let inner = seq![
        ("progressToken"@, token),
        ("progress"@, number_of(n)),
        ("message"@, JsonView::Str("waiting for the human to answer"@)),
    ];
    reveal_strlit("message");
    assert("message"@.len() == 7);
    lemma_object_field(inner, 0);
    lemma_object_field(inner, 1);
    lemma_object_field(inner, 2);
    let outer = seq![
        ("jsonrpc"@, JsonView::Str("2.0"@)),
        ("method"@, JsonView::Str("notifications/progress"@)),
        ("params"@, object_of(inner)),
    ];
    lemma_object_field(outer, 0);
    lemma_object_field(outer, 1);
    lemma_object_field(outer, 2);
}

// ---------------------------------------------------------------------------
// The server's address.
// ---------------------------------------------------------------------------

/// Without a setting there is a sign of life every thirty seconds; a number above zero
/// that is set is taken as milliseconds.
pub proof fn law_signs_of_life_are_set(set: Option<&str>, out: u64, n: nat)
    requires
        call_ensures(keepalive_interval, (set,), out),
    ensures
        set is None ==> out == 30_000,
        set matches Some(s) ==> s@ == decimal(n) && 0 < n <= u64::MAX ==> out == n,
        set matches Some(s) ==> s@ == decimal(0) ==> out == 30_000,
{
    lemma_decimal_is_trimmed(n);
    lemma_decimal_is_trimmed(0);
    if n <= u64::MAX {
        crate::text::law_decimal_is_read_back(n, u64::MAX as nat);
    }
    crate::text::law_decimal_is_read_back(0, u64::MAX as nat);
}

proof fn lemma_decimal_is_trimmed(n: nat)
    ensures
        trimmed(decimal(n)) == decimal(n),
{
    crate::text::lemma_decimal_value(n);
    let s = decimal(n);
    assert(crate::text::is_digit(s[0]) && crate::text::is_digit(s.last()));
    assert(crate::text::trim_end_by(s, crate::text::white()) == s);
    assert(crate::text::trim_start_by(s, crate::text::white()) == s);
}

/// Port and token are those of the last run as long as its port is free: a stored
/// configuration with a port and a token is used, its port is tried first, any other only
/// where it is taken, and its token is kept.
pub proof fn law_port_and_token_are_kept(
    stored: Option<McpConfig>,
    existing: Option<McpConfig>,
    first: u16,
    next: Option<u16>,
    fresh: String,
    port: u16,
    served: McpConfig,
)
    requires
        call_ensures(load_config, (stored,), existing),
        call_ensures(first_port, (&existing,), first),
        call_ensures(next_port, (first,), next),
        call_ensures(served_config, (existing, fresh, port), served),
    ensures
        served.port == port,
        stored matches Some(c) ==> c.port != 0 && c.token@.len() > 0 ==> first == c.port && next
            == Some(0u16) && served.token@ == c.token@,
        stored matches Some(c) ==> c.port == 0 || c.token@.len() == 0 ==> existing is None,
        stored is None ==> existing is None,
        existing is None ==> first == 0 && next is None && served.token@ == fresh@,
{
}

/// The server is registered under its own address and with its own token, by hand as well
/// as by program.
pub proof fn law_the_server_is_registered_as_it_is(
    cli: &str,
    config: &McpConfig,
    address: String,
    command: String,
    add: Vec<String>,
    remove: Vec<String>,
)
    requires
        call_ensures(url, (config.port,), address),
        call_ensures(mcp_command, (cli, config), command),
        call_ensures(mcp_add_args, (config,), add),
        call_ensures(mcp_remove_args, (), remove),
    ensures
        address@ == "http://127.0.0.1:"@ + decimal(config.port as nat) + "/mcp"@,
        command@ == cli@ + " mcp add --transport http --scope user quarterdeck "@ + address@
            + " --header \""@ + ("Authorization: Bearer "@ + config.token@) + "\""@,
        add@.len() == 10,
        add@[0]@ == "mcp"@ && add@[1]@ == "add"@ && add@[6]@ == "quarterdeck"@ && add@[7]@ == address@
            && add@[8]@ == "--header"@ && add@[9]@ == "Authorization: Bearer "@ + config.token@,
        add@[2]@ == "--transport"@ && add@[3]@ == "http"@ && add@[4]@ == "--scope"@ && add@[5]@
            == "user"@,
        remove@.len() == 5,
        remove@[0]@ == "mcp"@ && remove@[1]@ == "remove"@ && remove@[2]@ == "--scope"@ && remove@[3]@
            == "user"@ && remove@[4]@ == "quarterdeck"@,
{
    assert(texts(add@).len() == add@.len() && texts(remove@).len() == remove@.len());
    assert(texts(add@)[0] == add@[0]@ && texts(add@)[1] == add@[1]@ && texts(add@)[2] == add@[2]@
        && texts(add@)[3] == add@[3]@ && texts(add@)[4] == add@[4]@ && texts(add@)[5] == add@[5]@
        && texts(add@)[6] == add@[6]@ && texts(add@)[7] == add@[7]@ && texts(add@)[8] == add@[8]@
        && texts(add@)[9] == add@[9]@);
    assert(texts(remove@)[0] == remove@[0]@ && texts(remove@)[1] == remove@[1]@ && texts(remove@)[2]
        == remove@[2]@ && texts(remove@)[3] == remove@[3]@ && texts(remove@)[4] == remove@[4]@);
}

} // verus!
