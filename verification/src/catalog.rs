//! What the server says of itself and of its tools.

use crate::json::{array_view, number, number_of, object, object_of, pairs, text, Json, JsonView};
use vstd::prelude::*;

verus! {

/// Revision of the protocol that the server speaks.
pub const PROTOCOL_VERSION: &'static str = "2025-06-18";

/// Version of this program.
pub const VERSION: &'static str = "0.1.0";

/// What the server says of itself.
pub open spec fn server_facts() -> JsonView {
    object_of(
        seq![
            ("protocolVersion"@, JsonView::Str(PROTOCOL_VERSION@)),
            (
                "capabilities"@,
                object_of(
                    seq![("tools"@, object_of(seq![("listChanged"@, JsonView::Bool(false))]))],
                ),
            ),
            (
                "serverInfo"@,
                object_of(
                    seq![
                        ("name"@, JsonView::Str("quarterdeck"@)),
                        ("version"@, JsonView::Str(VERSION@)),
                    ],
                ),
            ),
        ],
    )
}

fn one(name: &str, value: Json) -> (out: Json)
    ensures
        out@ == object_of(seq![(name@, value@)]),
{
    let mut fields: Vec<(String, Json)> = Vec::new();
    fields.push((name.to_owned(), value));
    proof {
        assert(pairs(fields@) =~= seq![(name@, value@)]);
    }
    object(fields)
}

fn two(name: &str, value: Json, other: &str, more: Json) -> (out: Json)
    ensures
        out@ == object_of(seq![(name@, value@), (other@, more@)]),
{
    let mut fields: Vec<(String, Json)> = Vec::new();
    fields.push((name.to_owned(), value));
    fields.push((other.to_owned(), more));
    proof {
        assert(pairs(fields@) =~= seq![(name@, value@), (other@, more@)]);
    }
    object(fields)
}

/// What the server says of itself.
pub fn initialize_result() -> (out: Json)
    ensures
        out@ == server_facts(),
{
    let capabilities = one("tools", one("listChanged", Json::Bool(false)));
    let info = two("name", text("quarterdeck"), "version", text(VERSION));
    let mut fields: Vec<(String, Json)> = Vec::new();
    fields.push(("protocolVersion".to_owned(), text(PROTOCOL_VERSION)));
    fields.push(("capabilities".to_owned(), capabilities));
    fields.push(("serverInfo".to_owned(), info));
    proof {
        assert(pairs(fields@) =~= seq![
            ("protocolVersion"@, JsonView::Str(PROTOCOL_VERSION@)),
            ("capabilities"@, capabilities@),
            ("serverInfo"@, info@),
        ]);
    }
    object(fields)
}

// ---------------------------------------------------------------------------
// The tools.
// ---------------------------------------------------------------------------

pub const ASK_USER: &'static str = "Ask the human operating this machine a question and BLOCK until they answer. Use during long autonomous runs when you hit a decision only a human can make. Pass your current working directory as `context` so Quarterdeck attributes the question to your session. Provide EITHER a single `question` (+ optional `options`) OR a `questions` array for a multi-question / multi-select form; when `questions` is present, `question`/`options` are ignored. Keep `question` short; put the reasoning/body in `detail`. Prefer `options` for multiple-choice decisions. Omit `timeout_seconds` (or pass 0) to wait indefinitely (persistent). Returns {answer, kind, ask_id} where kind is option|text|timeout|dismissed|cancelled|form; a form answer is a JSON string {\"answers\":[{header,question,selected:[...],text?}, ...]}. On timeout/dismissal, proceed on your best judgment. Keep the returned `ask_id` if a parallel task may need to update_ask/cancel_ask it.";

pub const ASK_QUESTION: &'static str = "The question to put to the user. One short, specific decision. Use this (with `options`) for a single question; omit it when sending `questions`.";

pub const ASK_OPTIONS: &'static str = "Optional multiple-choice answers for the single-question form; the user may still type a free-text reply.";

pub const ASK_QUESTIONS: &'static str = "Multi-question / multi-select form (max 8 questions). When present, `question`/`options` are ignored. Each item is one question block.";

pub const FORM_HEADER: &'static str = "Optional short label/category shown above the question.";

pub const FORM_QUESTION: &'static str = "The question text for this block (required).";

pub const FORM_MULTI_SELECT: &'static str = "true \u{2192} the user may pick several options (checkboxes); false/omitted \u{2192} exactly one (radio).";

pub const FORM_OPTIONS: &'static str = "Choices for this question (max 12); the user may still add free text.";

pub const ASK_DETAIL: &'static str = "Optional long-form rationale/body shown under the question in muted, smaller type. Put the context the user needs to decide here, not in `question`.";

pub const ASK_CONTEXT: &'static str = "Your current working directory (cwd), used to attribute the question to the right session.";

pub const ASK_TIMEOUT: &'static str = "Seconds to wait before giving up (max 3600). Omit or pass 0 to wait indefinitely (persistent).";

pub const UPDATE_ASK: &'static str = "Revise a still-pending ask_user question in place (its situation changed). Pass the `ask_id` returned by ask_user and any of question/options/detail to replace. Typically called from a PARALLEL tool call or a different session \u{2014} the blocked ask_user call cannot update itself. Errors if the ask is no longer pending (already answered/dismissed/cancelled/timed out).";

pub const UPDATE_ASK_ID: &'static str = "The id returned by the ask_user call to revise.";

pub const UPDATE_QUESTION: &'static str = "New question text (optional).";

pub const UPDATE_OPTIONS: &'static str = "New option list (optional; pass [] to clear).";

pub const UPDATE_DETAIL: &'static str = "New detail/body (optional; pass \"\" to clear).";

pub const CANCEL_ASK: &'static str = "Cancel a still-pending ask_user question (the decision is no longer needed). Pass the `ask_id` returned by ask_user; the blocked ask_user call returns with kind:\"cancelled\". Call from a PARALLEL tool call or a different session \u{2014} the blocked call cannot cancel itself. Errors if the ask is no longer pending.";

pub const CANCEL_ASK_ID: &'static str = "The id returned by the ask_user call to cancel.";

pub const NOTIFY_USER: &'static str = "Send the human a fire-and-forget notification (toast) and return immediately. Use for progress FYIs that need no answer. Returns {delivered, id}.";

pub const NOTIFY_MESSAGE: &'static str = "The message to show.";

pub const NOTIFY_CONTEXT: &'static str = "Your current working directory (cwd), used to attribute the notification.";

/// A described property of some type.
pub open spec fn property(kind: Seq<char>, description: Seq<char>) -> JsonView {
    object_of(seq![("type"@, JsonView::Str(kind)), ("description"@, JsonView::Str(description))])
}

/// A described list of strings.
pub open spec fn strings_property(description: Seq<char>) -> JsonView {
    object_of(
        seq![
            ("type"@, JsonView::Str("array"@)),
            ("items"@, object_of(seq![("type"@, JsonView::Str("string"@))])),
            ("description"@, JsonView::Str(description)),
        ],
    )
}

/// An object with these properties, of which one is required.
pub open spec fn schema(properties: JsonView, required: Seq<char>) -> JsonView {
    object_of(
        seq![
            ("type"@, JsonView::Str("object"@)),
            ("properties"@, properties),
            ("required"@, JsonView::Array(seq![JsonView::Str(required)])),
        ],
    )
}

/// A tool.
pub open spec fn tool(name: Seq<char>, description: Seq<char>, input: JsonView) -> JsonView {
    object_of(
        seq![
            ("name"@, JsonView::Str(name)),
            ("description"@, JsonView::Str(description)),
            ("inputSchema"@, input),
        ],
    )
}

/// One question of a form.
pub open spec fn form_schema() -> JsonView {
    schema(
        object_of(
            seq![
                ("header"@, property("string"@, FORM_HEADER@)),
                ("question"@, property("string"@, FORM_QUESTION@)),
                ("multiSelect"@, property("boolean"@, FORM_MULTI_SELECT@)),
                ("options"@, strings_property(FORM_OPTIONS@)),
            ],
        ),
        "question"@,
    )
}

/// What `ask_user` takes.
pub open spec fn ask_properties() -> JsonView {
    object_of(
        seq![
            ("question"@, property("string"@, ASK_QUESTION@)),
            ("options"@, strings_property(ASK_OPTIONS@)),
            (
                "questions"@,
                object_of(
                    seq![
                        ("type"@, JsonView::Str("array"@)),
                        ("description"@, JsonView::Str(ASK_QUESTIONS@)),
                        ("items"@, form_schema()),
                    ],
                ),
            ),
            ("detail"@, property("string"@, ASK_DETAIL@)),
            ("context"@, property("string"@, ASK_CONTEXT@)),
            (
                "timeout_seconds"@,
                object_of(
                    seq![
                        ("type"@, JsonView::Str("number"@)),
                        ("maximum"@, number_of(3600)),
                        ("description"@, JsonView::Str(ASK_TIMEOUT@)),
                    ],
                ),
            ),
        ],
    )
}

/// The tool that puts a question.
pub open spec fn ask_tool() -> JsonView {
    tool(
        "ask_user"@,
        ASK_USER@,
        object_of(seq![("type"@, JsonView::Str("object"@)), ("properties"@, ask_properties())]),
    )
}

/// The tool that revises a question.
pub open spec fn update_tool() -> JsonView {
    tool(
        "update_ask"@,
        UPDATE_ASK@,
        schema(
            object_of(
                seq![
                    ("ask_id"@, property("string"@, UPDATE_ASK_ID@)),
                    ("question"@, property("string"@, UPDATE_QUESTION@)),
                    ("options"@, strings_property(UPDATE_OPTIONS@)),
                    ("detail"@, property("string"@, UPDATE_DETAIL@)),
                ],
            ),
            "ask_id"@,
        ),
    )
}

/// The tool that takes a question back.
pub open spec fn cancel_tool() -> JsonView {
    tool(
        "cancel_ask"@,
        CANCEL_ASK@,
        schema(object_of(seq![("ask_id"@, property("string"@, CANCEL_ASK_ID@))]), "ask_id"@),
    )
}

/// The tool that shows a notification.
pub open spec fn notify_tool() -> JsonView {
    tool(
        "notify_user"@,
        NOTIFY_USER@,
        schema(
            object_of(
                seq![
                    ("message"@, property("string"@, NOTIFY_MESSAGE@)),
                    ("context"@, property("string"@, NOTIFY_CONTEXT@)),
                ],
            ),
            "message"@,
        ),
    )
}

/// The four tools.
pub open spec fn tool_list() -> JsonView {
    object_of(
        seq![
            (
                "tools"@,
                JsonView::Array(seq![ask_tool(), update_tool(), cancel_tool(), notify_tool()]),
            ),
        ],
    )
}

fn property_json(kind: &str, description: &str) -> (out: Json)
    ensures
        out@ == property(kind@, description@),
{
    two("type", text(kind), "description", text(description))
}

fn three(name: &str, value: Json, other: &str, more: Json, last: &str, rest: Json) -> (out: Json)
    ensures
        out@ == object_of(seq![(name@, value@), (other@, more@), (last@, rest@)]),
{
    let mut fields: Vec<(String, Json)> = Vec::new();
    fields.push((name.to_owned(), value));
    fields.push((other.to_owned(), more));
    fields.push((last.to_owned(), rest));
    proof {
        assert(pairs(fields@) =~= seq![(name@, value@), (other@, more@), (last@, rest@)]);
    }
    object(fields)
}

fn strings_property_json(description: &str) -> (out: Json)
    ensures
        out@ == strings_property(description@),
{
    three(
        "type",
        text("array"),
        "items",
        one("type", text("string")),
        "description",
        text(description),
    )
}

fn schema_json(properties: Json, required: &str) -> (out: Json)
    ensures
        out@ == schema(properties@, required@),
{
    let mut names: Vec<Json> = Vec::new();
    names.push(text(required));
    proof {
        assert(array_view(names@) =~= seq![JsonView::Str(required@)]);
    }
    three("type", text("object"), "properties", properties, "required", Json::Array(names))
}

fn tool_json(name: &str, description: &str, input: Json) -> (out: Json)
    ensures
        out@ == tool(name@, description@, input@),
{
    three("name", text(name), "description", text(description), "inputSchema", input)
}

fn form_schema_json() -> (out: Json)
    ensures
        out@ == form_schema(),
{
    let mut fields: Vec<(String, Json)> = Vec::new();
    fields.push(("header".to_owned(), property_json("string", FORM_HEADER)));
    fields.push(("question".to_owned(), property_json("string", FORM_QUESTION)));
    fields.push(("multiSelect".to_owned(), property_json("boolean", FORM_MULTI_SELECT)));
    fields.push(("options".to_owned(), strings_property_json(FORM_OPTIONS)));
    proof {
        assert(pairs(fields@) =~= seq![
            ("header"@, property("string"@, FORM_HEADER@)),
            ("question"@, property("string"@, FORM_QUESTION@)),
            ("multiSelect"@, property("boolean"@, FORM_MULTI_SELECT@)),
            ("options"@, strings_property(FORM_OPTIONS@)),
        ]);
    }
    schema_json(object(fields), "question")
}

fn ask_properties_json() -> (out: Json)
    ensures
        out@ == ask_properties(),
{
    let questions = three(
        "type",
        text("array"),
        "description",
        text(ASK_QUESTIONS),
        "items",
        form_schema_json(),
    );
    let timeout = three(
        "type",
        text("number"),
        "maximum",
        number(3600),
        "description",
        text(ASK_TIMEOUT),
    );
    let mut fields: Vec<(String, Json)> = Vec::new();
    fields.push(("question".to_owned(), property_json("string", ASK_QUESTION)));
    fields.push(("options".to_owned(), strings_property_json(ASK_OPTIONS)));
    fields.push(("questions".to_owned(), questions));
    fields.push(("detail".to_owned(), property_json("string", ASK_DETAIL)));
    fields.push(("context".to_owned(), property_json("string", ASK_CONTEXT)));
    fields.push(("timeout_seconds".to_owned(), timeout));
    proof {
        assert(pairs(fields@) =~= seq![
            ("question"@, property("string"@, ASK_QUESTION@)),
            ("options"@, strings_property(ASK_OPTIONS@)),
            ("questions"@, questions@),
            ("detail"@, property("string"@, ASK_DETAIL@)),
            ("context"@, property("string"@, ASK_CONTEXT@)),
            ("timeout_seconds"@, timeout@),
        ]);
    }
    object(fields)
}

fn ask_tool_json() -> (out: Json)
    ensures
        out@ == ask_tool(),
{
    let input = two("type", text("object"), "properties", ask_properties_json());
    tool_json("ask_user", ASK_USER, input)
}

fn update_tool_json() -> (out: Json)
    ensures
        out@ == update_tool(),
{
    let mut fields: Vec<(String, Json)> = Vec::new();
    fields.push(("ask_id".to_owned(), property_json("string", UPDATE_ASK_ID)));
    fields.push(("question".to_owned(), property_json("string", UPDATE_QUESTION)));
    fields.push(("options".to_owned(), strings_property_json(UPDATE_OPTIONS)));
    fields.push(("detail".to_owned(), property_json("string", UPDATE_DETAIL)));
    proof {
        assert(pairs(fields@) =~= seq![
            ("ask_id"@, property("string"@, UPDATE_ASK_ID@)),
            ("question"@, property("string"@, UPDATE_QUESTION@)),
            ("options"@, strings_property(UPDATE_OPTIONS@)),
            ("detail"@, property("string"@, UPDATE_DETAIL@)),
        ]);
    }
    tool_json("update_ask", UPDATE_ASK, schema_json(object(fields), "ask_id"))
}

fn cancel_tool_json() -> (out: Json)
    ensures
        out@ == cancel_tool(),
{
    let properties = one("ask_id", property_json("string", CANCEL_ASK_ID));
    tool_json("cancel_ask", CANCEL_ASK, schema_json(properties, "ask_id"))
}

fn notify_tool_json() -> (out: Json)
    ensures
        out@ == notify_tool(),
{
    let properties = two(
        "message",
        property_json("string", NOTIFY_MESSAGE),
        "context",
        property_json("string", NOTIFY_CONTEXT),
    );
    tool_json("notify_user", NOTIFY_USER, schema_json(properties, "message"))
}

/// The four tools, as `tools/list` names them.
pub fn tools_list_result() -> (out: Json)
    ensures
        out@ == tool_list(),
{
    let mut tools: Vec<Json> = Vec::new();
    tools.push(ask_tool_json());
    tools.push(update_tool_json());
    tools.push(cancel_tool_json());
    tools.push(notify_tool_json());
    proof {
        assert(array_view(tools@) =~= seq![
            ask_tool(),
            update_tool(),
            cancel_tool(),
            notify_tool(),
        ]);
    }
    one("tools", Json::Array(tools))
}

} // verus!
