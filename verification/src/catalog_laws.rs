//! What holds of what the server says of itself and of its tools.

use crate::catalog::{
    ask_tool, cancel_tool, form_schema, initialize_result, notify_tool, property, schema,
    strings_property, tool, tools_list_result, update_tool, ASK_CONTEXT, ASK_DETAIL, ASK_OPTIONS,
    ASK_QUESTION, ASK_QUESTIONS, ASK_TIMEOUT, ASK_USER, CANCEL_ASK, CANCEL_ASK_ID, FORM_HEADER,
    FORM_MULTI_SELECT, FORM_OPTIONS, FORM_QUESTION, NOTIFY_CONTEXT, NOTIFY_MESSAGE, NOTIFY_USER,
    PROTOCOL_VERSION, UPDATE_ASK, UPDATE_ASK_ID, UPDATE_DETAIL, UPDATE_OPTIONS, UPDATE_QUESTION,
    VERSION,
};
use crate::json::{lemma_object_field, number_of, object_of, Json, JsonView};
use vstd::prelude::*;

verus! {

/// Whether `object` has a field `key` that `holds` of.
pub open spec fn with_field(
    object: JsonView,
    key: Seq<char>,
    holds: spec_fn(JsonView) -> bool,
) -> bool {
    object.field(key) matches Some(v) && holds(v)
}

/// Whether `v` describes a value of this type, in these words.
pub open spec fn of_type(v: JsonView, kind: Seq<char>, words: Seq<char>) -> bool {
    v.field_text("type"@) == Some(kind) && v.field_text("description"@) == Some(words)
}

/// Whether `v` describes a list of texts, in these words.
pub open spec fn of_texts(v: JsonView, words: Seq<char>) -> bool {
    of_type(v, "array"@, words) && (v.field("items"@) matches Some(items) && items.field_text("type"@)
        == Some("string"@))
}

/// Whether the object that `v` describes has a property of this type.
pub open spec fn takes(v: JsonView, key: Seq<char>, kind: Seq<char>, words: Seq<char>) -> bool {
    v.field("properties"@) matches Some(p) && (p.field(key) matches Some(one) && of_type(
        one,
        kind,
        words,
    ))
}

/// Whether the object that `v` describes has a property that is a list of texts.
pub open spec fn takes_texts(v: JsonView, key: Seq<char>, words: Seq<char>) -> bool {
    v.field("properties"@) matches Some(p) && (p.field(key) matches Some(one) && of_texts(
        one,
        words,
    ))
}

/// Whether the object that `v` describes must have this property, and no other.
pub open spec fn needs(v: JsonView, key: Seq<char>) -> bool {
    v.field_items("required"@) == Some(seq![JsonView::Str(key)])
}

/// Whether `v` is a tool of this name that takes an object.
pub open spec fn is_tool(v: JsonView, name: Seq<char>, words: Seq<char>) -> bool {
    &&& v.field_text("name"@) == Some(name)
    &&& v.field_text("description"@) == Some(words)
    &&& v.field("inputSchema"@) matches Some(input) && input.field_text("type"@) == Some("object"@)
}

proof fn lemma_words()
    ensures
        "type"@.len() == 4,
        "description"@.len() == 11 && "description"@[0] == 'd',
        "items"@.len() == 5,
        "properties"@.len() == 10,
        "required"@.len() == 8 && "required"@[0] == 'r',
        "name"@.len() == 4,
        "inputSchema"@.len() == 11 && "inputSchema"@[0] == 'i',
        "maximum"@.len() == 7,
{
    reveal_strlit("type");
    reveal_strlit("description");
    reveal_strlit("items");
    reveal_strlit("properties");
    reveal_strlit("required");
    reveal_strlit("name");
    reveal_strlit("inputSchema");
    reveal_strlit("maximum");
}

proof fn lemma_property(kind: Seq<char>, description: Seq<char>)
    ensures
        of_type(property(kind, description), kind, description),
{
    lemma_words();
    let f = seq![
        ("type"@, JsonView::Str(kind)),
        ("description"@, JsonView::Str(description)),
    ];
    lemma_object_field(f, 0);
    lemma_object_field(f, 1);
}

proof fn lemma_strings(description: Seq<char>)
    ensures
        of_texts(strings_property(description), description),
{
    lemma_words();
    let item = seq![("type"@, JsonView::Str("string"@))];
    lemma_object_field(item, 0);
    let f = seq![
        ("type"@, JsonView::Str("array"@)),
        ("items"@, object_of(item)),
        ("description"@, JsonView::Str(description)),
    ];
    lemma_object_field(f, 0);
    lemma_object_field(f, 1);
    lemma_object_field(f, 2);
}

proof fn lemma_schema(properties: JsonView, required: Seq<char>)
    ensures
        schema(properties, required).field_text("type"@) == Some("object"@),
        schema(properties, required).field("properties"@) == Some(properties),
        needs(schema(properties, required), required),
{
    lemma_words();
    let f = seq![
        ("type"@, JsonView::Str("object"@)),
        ("properties"@, properties),
        ("required"@, JsonView::Array(seq![JsonView::Str(required)])),
    ];
    lemma_object_field(f, 0);
    lemma_object_field(f, 1);
    lemma_object_field(f, 2);
}

proof fn lemma_tool(name: Seq<char>, description: Seq<char>, input: JsonView)
    ensures
        tool(name, description, input).field_text("name"@) == Some(name),
        tool(name, description, input).field_text("description"@) == Some(description),
        tool(name, description, input).field("inputSchema"@) == Some(input),
{
    lemma_words();
    let f = seq![
        ("name"@, JsonView::Str(name)),
        ("description"@, JsonView::Str(description)),
        ("inputSchema"@, input),
    ];
    lemma_object_field(f, 0);
    lemma_object_field(f, 1);
    lemma_object_field(f, 2);
}

/// The server says which protocol it speaks, what it is called and in which version, and
/// that its tools do not change.
pub proof fn law_the_server_says_what_it_is(out: Json)
    requires
        call_ensures(initialize_result, (), out),
    ensures
        out@.field_text("protocolVersion"@) == Some("2025-06-18"@),
        out@.field("serverInfo"@) matches Some(info) && info.field_text("name"@) == Some(
            "quarterdeck"@,
        ) && info.field_text("version"@) == Some("0.1.0"@),
        out@.field("capabilities"@) matches Some(c) && (c.field("tools"@) matches Some(t)
            && t.field_flag("listChanged"@) == Some(false)),
{
    lemma_words();
    reveal_strlit("protocolVersion");
    reveal_strlit("capabilities");
    reveal_strlit("serverInfo");
    reveal_strlit("version");
    assert("protocolVersion"@.len() == 15);
    assert("capabilities"@.len() == 12);
    assert("serverInfo"@.len() == 10);
    assert("version"@.len() == 7);
    let changed = seq![("listChanged"@, JsonView::Bool(false))];
    let tools = seq![("tools"@, object_of(changed))];
    let info = seq![
        ("name"@, JsonView::Str("quarterdeck"@)),
        ("version"@, JsonView::Str(VERSION@)),
    ];
    let all = seq![
        ("protocolVersion"@, JsonView::Str(PROTOCOL_VERSION@)),
        ("capabilities"@, object_of(tools)),
        ("serverInfo"@, object_of(info)),
    ];
    lemma_object_field(changed, 0);
    lemma_object_field(tools, 0);
    lemma_object_field(info, 0);
    lemma_object_field(info, 1);
    lemma_object_field(all, 0);
    lemma_object_field(all, 1);
    lemma_object_field(all, 2);
}

/// The server has four tools. The one for questions takes a question and its options or a
/// form, a detail, a place and a time limit of at most an hour; the one that revises takes
/// the id of a question, and a question, options and a detail; the one that takes a question
/// back takes its id; and the one that notifies takes a message and a place. The id and the
/// message are needed, and each question of a form needs its text.
pub proof fn law_the_tools_take_what_they_need(out: Json)
    requires
        call_ensures(tools_list_result, (), out),
    ensures
        out@.field_items("tools"@) matches Some(tools) && {
            &&& tools.len() == 4
            &&& is_tool(tools[0], "ask_user"@, ASK_USER@)
            &&& is_tool(tools[1], "update_ask"@, UPDATE_ASK@)
            &&& is_tool(tools[2], "cancel_ask"@, CANCEL_ASK@)
            &&& is_tool(tools[3], "notify_user"@, NOTIFY_USER@)
            &&& with_field(
                tools[0],
                "inputSchema"@,
                |v: JsonView|
                    {
                        &&& takes(v, "question"@, "string"@, ASK_QUESTION@)
                        &&& takes_texts(v, "options"@, ASK_OPTIONS@)
                        &&& takes(v, "questions"@, "array"@, ASK_QUESTIONS@)
                        &&& takes(v, "detail"@, "string"@, ASK_DETAIL@)
                        &&& takes(v, "context"@, "string"@, ASK_CONTEXT@)
                        &&& takes(v, "timeout_seconds"@, "number"@, ASK_TIMEOUT@)
                        &&& v.field("properties"@)->Some_0.field("timeout_seconds"@)->Some_0.field(
                            "maximum"@,
                        ) matches Some(JsonView::Number(n)) && n.whole == Some(3600u64)
                        &&& v.field("properties"@)->Some_0.field("questions"@)->Some_0.field(
                            "items"@,
                        ) matches Some(one) && {
                            &&& takes(one, "header"@, "string"@, FORM_HEADER@)
                            &&& takes(one, "question"@, "string"@, FORM_QUESTION@)
                            &&& takes(one, "multiSelect"@, "boolean"@, FORM_MULTI_SELECT@)
                            &&& takes_texts(one, "options"@, FORM_OPTIONS@)
                            &&& needs(one, "question"@)
                        }
                    },
            )
            &&& with_field(
                tools[1],
                "inputSchema"@,
                |v: JsonView|
                    {
                        &&& takes(v, "ask_id"@, "string"@, UPDATE_ASK_ID@)
                        &&& takes(v, "question"@, "string"@, UPDATE_QUESTION@)
                        &&& takes_texts(v, "options"@, UPDATE_OPTIONS@)
                        &&& takes(v, "detail"@, "string"@, UPDATE_DETAIL@)
                        &&& needs(v, "ask_id"@)
                    },
            )
            &&& with_field(
                tools[2],
                "inputSchema"@,
                |v: JsonView|
                    takes(v, "ask_id"@, "string"@, CANCEL_ASK_ID@) && needs(v, "ask_id"@),
            )
            &&& with_field(
                tools[3],
                "inputSchema"@,
                |v: JsonView|
                    {
                        &&& takes(v, "message"@, "string"@, NOTIFY_MESSAGE@)
                        &&& takes(v, "context"@, "string"@, NOTIFY_CONTEXT@)
                        &&& needs(v, "message"@)
                    },
            )
        },
{
    lemma_the_ask_tool();
    lemma_the_update_tool();
    lemma_the_cancel_tool();
    lemma_the_notify_tool();
    let all = seq![
        (
            "tools"@,
            JsonView::Array(
                seq![
                    ask_tool(),
                    update_tool(),
                    cancel_tool(),
                    notify_tool(),
                ],
            ),
        ),
    ];
    lemma_object_field(all, 0);
}

proof fn lemma_the_form()
    ensures
        ({
            let one = form_schema();
            &&& takes(one, "header"@, "string"@, FORM_HEADER@)
            &&& takes(one, "question"@, "string"@, FORM_QUESTION@)
            &&& takes(one, "multiSelect"@, "boolean"@, FORM_MULTI_SELECT@)
            &&& takes_texts(one, "options"@, FORM_OPTIONS@)
            &&& needs(one, "question"@)
        }),
{
    reveal_strlit("header");
    reveal_strlit("question");
    reveal_strlit("multiSelect");
    reveal_strlit("options");
    assert("header"@.len() == 6 && "question"@.len() == 8 && "multiSelect"@.len() == 11
        && "options"@.len() == 7);
    let f = seq![
        ("header"@, property("string"@, FORM_HEADER@)),
        ("question"@, property("string"@, FORM_QUESTION@)),
        ("multiSelect"@, property("boolean"@, FORM_MULTI_SELECT@)),
        ("options"@, strings_property(FORM_OPTIONS@)),
    ];
    lemma_object_field(f, 0);
    lemma_object_field(f, 1);
    lemma_object_field(f, 2);
    lemma_object_field(f, 3);
    lemma_property("string"@, FORM_HEADER@);
    lemma_property("string"@, FORM_QUESTION@);
    lemma_property("boolean"@, FORM_MULTI_SELECT@);
    lemma_strings(FORM_OPTIONS@);
    lemma_schema(object_of(f), "question"@);
}

proof fn lemma_the_ask_tool()
    ensures
        ({
            let t = ask_tool();
            let v = t.field("inputSchema"@)->Some_0;
            &&& is_tool(t, "ask_user"@, ASK_USER@)
            &&& takes(v, "question"@, "string"@, ASK_QUESTION@)
            &&& takes_texts(v, "options"@, ASK_OPTIONS@)
            &&& takes(v, "questions"@, "array"@, ASK_QUESTIONS@)
            &&& takes(v, "detail"@, "string"@, ASK_DETAIL@)
            &&& takes(v, "context"@, "string"@, ASK_CONTEXT@)
            &&& takes(v, "timeout_seconds"@, "number"@, ASK_TIMEOUT@)
            &&& v.field("properties"@)->Some_0.field("timeout_seconds"@)->Some_0.field(
                "maximum"@,
            ) matches Some(JsonView::Number(n)) && n.whole == Some(3600u64)
            &&& v.field("properties"@)->Some_0.field("questions"@)->Some_0.field("items"@) == Some(
                form_schema(),
            )
            &&& takes(form_schema(), "header"@, "string"@, FORM_HEADER@)
            &&& takes(form_schema(), "question"@, "string"@, FORM_QUESTION@)
            &&& takes(form_schema(), "multiSelect"@, "boolean"@, FORM_MULTI_SELECT@)
            &&& takes_texts(form_schema(), "options"@, FORM_OPTIONS@)
            &&& needs(form_schema(), "question"@)
        }),
{
    lemma_words();
    lemma_the_form();
    reveal_strlit("question");
    reveal_strlit("options");
    reveal_strlit("questions");
    reveal_strlit("detail");
    reveal_strlit("context");
    reveal_strlit("timeout_seconds");
    assert("question"@.len() == 8 && "options"@.len() == 7 && "options"@[0] == 'o');
    assert("questions"@.len() == 9 && "detail"@.len() == 6);
    assert("context"@.len() == 7 && "context"@[0] == 'c' && "timeout_seconds"@.len() == 15);
    let form = seq![
        ("type"@, JsonView::Str("array"@)),
        ("description"@, JsonView::Str(ASK_QUESTIONS@)),
        ("items"@, form_schema()),
    ];
    lemma_object_field(form, 0);
    lemma_object_field(form, 1);
    lemma_object_field(form, 2);
    let limit = seq![
        ("type"@, JsonView::Str("number"@)),
        ("maximum"@, number_of(3600)),
        ("description"@, JsonView::Str(ASK_TIMEOUT@)),
    ];
    lemma_object_field(limit, 0);
    lemma_object_field(limit, 1);
    lemma_object_field(limit, 2);
    let f = seq![
        ("question"@, property("string"@, ASK_QUESTION@)),
        ("options"@, strings_property(ASK_OPTIONS@)),
        ("questions"@, object_of(form)),
        ("detail"@, property("string"@, ASK_DETAIL@)),
        ("context"@, property("string"@, ASK_CONTEXT@)),
        ("timeout_seconds"@, object_of(limit)),
    ];
    lemma_object_field(f, 0);
    lemma_object_field(f, 1);
    lemma_object_field(f, 2);
    lemma_object_field(f, 3);
    lemma_object_field(f, 4);
    lemma_object_field(f, 5);
    lemma_property("string"@, ASK_QUESTION@);
    lemma_strings(ASK_OPTIONS@);
    lemma_property("string"@, ASK_DETAIL@);
    lemma_property("string"@, ASK_CONTEXT@);
    let input = seq![
        ("type"@, JsonView::Str("object"@)),
        ("properties"@, object_of(f)),
    ];
    lemma_object_field(input, 0);
    lemma_object_field(input, 1);
    lemma_tool("ask_user"@, ASK_USER@, object_of(input));
}

proof fn lemma_the_update_tool()
    ensures
        ({
            let t = update_tool();
            let v = t.field("inputSchema"@)->Some_0;
            &&& is_tool(t, "update_ask"@, UPDATE_ASK@)
            &&& takes(v, "ask_id"@, "string"@, UPDATE_ASK_ID@)
            &&& takes(v, "question"@, "string"@, UPDATE_QUESTION@)
            &&& takes_texts(v, "options"@, UPDATE_OPTIONS@)
            &&& takes(v, "detail"@, "string"@, UPDATE_DETAIL@)
            &&& needs(v, "ask_id"@)
        }),
{
    reveal_strlit("ask_id");
    reveal_strlit("question");
    reveal_strlit("options");
    reveal_strlit("detail");
    assert("ask_id"@.len() == 6 && "ask_id"@[0] == 'a' && "question"@.len() == 8);
    assert("options"@.len() == 7 && "detail"@.len() == 6 && "detail"@[0] == 'd');
    let f = seq![
        ("ask_id"@, property("string"@, UPDATE_ASK_ID@)),
        ("question"@, property("string"@, UPDATE_QUESTION@)),
        ("options"@, strings_property(UPDATE_OPTIONS@)),
        ("detail"@, property("string"@, UPDATE_DETAIL@)),
    ];
    lemma_object_field(f, 0);
    lemma_object_field(f, 1);
    lemma_object_field(f, 2);
    lemma_object_field(f, 3);
    lemma_property("string"@, UPDATE_ASK_ID@);
    lemma_property("string"@, UPDATE_QUESTION@);
    lemma_strings(UPDATE_OPTIONS@);
    lemma_property("string"@, UPDATE_DETAIL@);
    let input = schema(object_of(f), "ask_id"@);
    lemma_schema(object_of(f), "ask_id"@);
    lemma_tool("update_ask"@, UPDATE_ASK@, input);
}

proof fn lemma_the_cancel_tool()
    ensures
        ({
            let t = cancel_tool();
            let v = t.field("inputSchema"@)->Some_0;
            &&& is_tool(t, "cancel_ask"@, CANCEL_ASK@)
            &&& takes(v, "ask_id"@, "string"@, CANCEL_ASK_ID@)
            &&& needs(v, "ask_id"@)
        }),
{
    let f = seq![("ask_id"@, property("string"@, CANCEL_ASK_ID@))];
    lemma_object_field(f, 0);
    lemma_property("string"@, CANCEL_ASK_ID@);
    lemma_schema(object_of(f), "ask_id"@);
    let input = schema(object_of(f), "ask_id"@);
    lemma_tool("cancel_ask"@, CANCEL_ASK@, input);
}

proof fn lemma_the_notify_tool()
    ensures
        ({
            let t = notify_tool();
            let v = t.field("inputSchema"@)->Some_0;
            &&& is_tool(t, "notify_user"@, NOTIFY_USER@)
            &&& takes(v, "message"@, "string"@, NOTIFY_MESSAGE@)
            &&& takes(v, "context"@, "string"@, NOTIFY_CONTEXT@)
            &&& needs(v, "message"@)
        }),
{
    reveal_strlit("message");
    reveal_strlit("context");
    assert("message"@.len() == 7 && "message"@[0] == 'm');
    assert("context"@.len() == 7 && "context"@[0] == 'c');
    let f = seq![
        ("message"@, property("string"@, NOTIFY_MESSAGE@)),
        ("context"@, property("string"@, NOTIFY_CONTEXT@)),
    ];
    lemma_object_field(f, 0);
    lemma_object_field(f, 1);
    lemma_property("string"@, NOTIFY_MESSAGE@);
    lemma_property("string"@, NOTIFY_CONTEXT@);
    lemma_schema(object_of(f), "message"@);
    let input = schema(object_of(f), "message"@);
    lemma_tool("notify_user"@, NOTIFY_USER@, input);
}

} // verus!
