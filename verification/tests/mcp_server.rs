use quarterdeck::ipc::AskAnswerKind;
use quarterdeck::json::{compact, number, parse, text, Json};
use quarterdeck::mcp_server::{
    ask_answer_content, ask_reply, authorized, cancel_reply, constant_time_eq, first_port,
    generate_token, handle_get, handle_message, handle_post, json_response, keepalive_interval,
    load_config, mcp_add_args, mcp_command, mcp_remove_args, next_port, notify_reply,
    parse_ask_request, served_config, token_of, update_reply, url, AskAnswer, AskOutcome, AskRequest, Call,
    McpConfig, Post, WaitEvent, WaitStep, Waiting, DEFAULT_KEEPALIVE_MS, MAX_OPTIONS_PER_QUESTION,
    MAX_QUESTIONS, MAX_QUESTION_CHARS, MAX_TIMEOUT_SECONDS, PROTOCOL_VERSION,
};

fn json(s: &str) -> Json {
    parse(s).expect("a document")
}

fn at<'a>(v: &'a Json, path: &[&str]) -> &'a Json {
    let mut here = v;
    for key in path {
        here = match here.as_array() {
            Some(items) => &items[key.parse::<usize>().unwrap()],
            None => here.get(key).expect(key),
        };
    }
    here
}

fn str_at<'a>(v: &'a Json, path: &[&str]) -> &'a str {
    at(v, path).as_str().expect("a string")
}

fn post(token: &str, body: &str) -> Post {
    handle_post(Some(&format!("Bearer {token}")), token, body.as_bytes())
}

fn asked(body: &str) -> (Json, AskRequest) {
    match post("t", body) {
        Post::Call(Call::Ask { id, request }) => (id, request),
        _ => panic!("a question"),
    }
}

#[test]
fn parse_ask_request_legacy_single_question_is_unchanged() {
    let args = json(r#"{"question":"Deploy now?","options":["yes","no"],"context":"C:/proj"}"#);
    let req = parse_ask_request(&number(1), &args).expect("valid legacy ask");
    assert_eq!(req.question, "Deploy now?");
    assert_eq!(req.options.as_deref().unwrap(), &["yes", "no"]);
    assert!(req.questions.is_none(), "no form for a legacy ask");
}

#[test]
fn parse_ask_request_parses_questions_and_synthesizes_fallback() {
    let args = json(
        r#"{
            "question": "ignored when questions present",
            "options": ["ignored"],
            "questions": [
                { "header": "Env", "question": "Which environment?", "options": ["prod", "staging"] },
                { "question": "Extra flags?", "multiSelect": true, "options": ["--fast", "--safe", "--verbose"] }
            ]
        }"#,
    );
    let req = parse_ask_request(&number(1), &args).expect("valid form");
    let qs = req.questions.as_ref().expect("questions parsed");
    assert_eq!(qs.len(), 2);
    assert_eq!(qs[0].header.as_deref(), Some("Env"));
    assert_eq!(qs[0].question, "Which environment?");
    assert!(!qs[0].multi_select, "multiSelect defaults false");
    assert_eq!(qs[0].options, ["prod", "staging"]);
    assert!(qs[1].multi_select);
    assert_eq!(qs[1].options.len(), 3);
    assert_eq!(req.question, "Which environment?");
    assert_eq!(req.options.as_deref().unwrap(), &["prod", "staging"]);
}

fn object(fields: Vec<(&str, Json)>) -> Json {
    Json::Object(fields.into_iter().map(|(k, v)| (k.to_string(), v)).collect())
}

fn strings(items: Vec<String>) -> Json {
    Json::Array(items.iter().map(|s| text(s)).collect())
}

#[test]
fn parse_ask_request_enforces_form_caps_and_sanitizes() {
    let mut questions: Vec<Json> = Vec::new();
    // 10 questions are cut to 8.
    for i in 0..10 {
        questions.push(object(vec![("question", text(&format!("Q{i}?")))]));
    }
    // A question with 20 options and an empty one.
    let many_opts: Vec<String> = (0..20).map(|i| format!("opt{i}")).collect();
    let mut opts_with_blank = many_opts.clone();
    opts_with_blank.push(String::new());
    questions.push(object(vec![
        ("question", text("Too many opts?")),
        ("options", strings(opts_with_blank)),
    ]));
    // A question without text is dropped.
    questions.push(object(vec![("question", text("   "))]));
    // Bidi controls are stripped.
    questions.push(object(vec![
        ("header", text("H\u{202E}dr")),
        ("question", text("Run \u{202E}cod.exe\u{202C}?")),
        ("options", strings(vec!["\u{202E}yes\u{202C}".to_string()])),
    ]));
    // A question that is too long is cut.
    let long_q = "x".repeat(400);
    questions.push(object(vec![("question", text(&long_q))]));

    let args = object(vec![("questions", Json::Array(questions))]);
    let req = parse_ask_request(&number(1), &args).expect("valid form");
    let qs = req.questions.as_ref().unwrap();
    assert_eq!(qs.len(), MAX_QUESTIONS, "questions clamped to 8");
    assert_eq!(qs[0].question, "Q0?");
    assert_eq!(qs[7].question, "Q7?");

    let args2 = object(vec![(
        "questions",
        Json::Array(vec![
            object(vec![
                ("question", text("opts?")),
                ("options", strings((0..20).map(|i| format!("o{i}")).collect::<Vec<_>>())),
            ]),
            object(vec![
                ("header", text("H\u{202E}")),
                ("question", text("\u{202E}spoof\u{202C}?")),
                (
                    "options",
                    strings(vec!["\u{202E}a\u{202C}".to_string(), String::new()]),
                ),
            ]),
            object(vec![("question", text(&"y".repeat(400)))]),
        ]),
    )]);
    let req2 = parse_ask_request(&number(2), &args2).unwrap();
    let qs2 = req2.questions.as_ref().unwrap();
    assert_eq!(qs2[0].options.len(), MAX_OPTIONS_PER_QUESTION, "options clamped to 12");
    assert_eq!(qs2[1].header.as_deref(), Some("H"), "bidi stripped from header");
    assert_eq!(qs2[1].question, "spoof?", "bidi stripped from question");
    assert_eq!(qs2[1].options, ["a"], "bidi stripped + blank option dropped");
    assert_eq!(qs2[2].question.chars().count(), MAX_QUESTION_CHARS);
    assert!(qs2[2].question.ends_with('\u{2026}'));
}

#[test]
fn parse_ask_request_rejects_when_neither_question_nor_valid_questions() {
    assert!(parse_ask_request(&number(1), &json("{}")).is_err());
    assert!(parse_ask_request(&number(1), &json(r#"{ "questions": [] }"#)).is_err());
    assert!(
        parse_ask_request(&number(1), &json(r#"{ "questions": [{ "question": "  " }] }"#)).is_err()
    );
    assert!(parse_ask_request(
        &number(1),
        &json(r#"{ "question": "", "questions": [{ "question": "ok?" }] }"#)
    )
    .is_ok());
}

#[test]
fn a_question_that_is_refused_gets_an_error_with_its_id() {
    let err = parse_ask_request(&text("req-1"), &json("{}")).unwrap_err();
    assert_eq!(
        compact(&err),
        "{\"error\":{\"code\":-32602,\"message\":\"ask_user requires a non-empty `question` (or a non-empty `questions` array)\"},\"id\":\"req-1\",\"jsonrpc\":\"2.0\"}"
    );
}

#[test]
fn timeouts_are_read_as_whole_seconds() {
    let timeout = |t: &str| {
        let args = json(&format!(r#"{{"question":"q","timeout_seconds":{t}}}"#));
        parse_ask_request(&number(1), &args).unwrap().timeout_seconds
    };
    assert_eq!(timeout("1"), Some(1));
    assert_eq!(timeout("3600"), Some(3600));
    assert_eq!(timeout("3601"), Some(3600));
    assert_eq!(timeout("2.9"), Some(2));
    assert_eq!(timeout("0.5"), Some(1));
    assert_eq!(timeout("1e-9"), Some(1));
    assert_eq!(timeout("-0.5"), None);
    assert_eq!(timeout("0.0"), None);
    assert_eq!(timeout("-0"), None);
    assert_eq!(timeout("0e5"), None);
    assert_eq!(timeout("0"), None);
    assert_eq!(timeout("-5"), None);
    assert_eq!(timeout("1e30"), Some(3600));
    assert_eq!(timeout("\"30\""), None);
    assert_eq!(timeout("null"), None);
}

#[test]
fn plain_options_keep_strings_only() {
    let args = json(r#"{"question":" q ","options":["a",1,"",null,"b"],"detail":"  ","context":" c "}"#);
    let req = parse_ask_request(&number(1), &args).unwrap();
    assert_eq!(req.question, "q");
    assert_eq!(req.options.as_deref().unwrap(), &["a", "", "b"]);
    assert_eq!(req.detail, None);
    assert_eq!(req.context.as_deref(), Some(" c "));
    let none = json(r#"{"question":"q","options":[1,2]}"#);
    assert_eq!(parse_ask_request(&number(1), &none).unwrap().options, None);
}

#[test]
fn ask_answer_form_serializes_kind_form() {
    let doc = r#"{"answers":[{"question":"Which?","selected":["prod"]}]}"#;
    let content = ask_answer_content("ask-1", &AskAnswer::form(doc));
    assert_eq!(str_at(&content, &["structuredContent", "kind"]), "form");
    assert_eq!(str_at(&content, &["structuredContent", "answer"]), doc);
    assert_eq!(str_at(&content, &["structuredContent", "ask_id"]), "ask-1");
    assert_eq!(at(&content, &["isError"]).as_bool(), Some(false));
}

#[test]
fn the_text_of_an_answer_reads_back_as_its_value() {
    let content = ask_answer_content("ask-\u{1F600}", &AskAnswer::text("a \"b\"\n\u{2028}"));
    let text = str_at(&content, &["content", "0", "text"]);
    assert_eq!(&json(text), at(&content, &["structuredContent"]));
}

#[test]
fn rejects_requests_without_a_valid_bearer_token() {
    let body = r#"{"jsonrpc":"2.0","id":1,"method":"initialize","params":{}}"#;
    for header in [None, Some("Bearer wrong"), Some("sekret"), Some("bearer sekret")] {
        match handle_post(header, "sekret", body.as_bytes()) {
            Post::Reply(reply) => {
                assert_eq!(reply.status, 401);
                assert_eq!(reply.authenticate, Some("Bearer"));
                assert_eq!(reply.content_type, Some("application/json"));
                assert_eq!(
                    reply.body,
                    r#"{"error":"unauthorized","message":"Missing or invalid bearer token"}"#
                );
            }
            _ => panic!("401"),
        }
    }
    assert!(authorized(Some("Bearer  sekret "), "sekret"));
    assert!(!authorized(Some("Bearer sekret"), "sekre"));
}

#[test]
fn a_get_is_declined() {
    let without = handle_get(None, "k");
    assert_eq!(without.status, 401);
    let with = handle_get(Some("Bearer k"), "k");
    assert_eq!(with.status, 405);
    assert_eq!(with.body, "SSE stream not supported");
    assert_eq!(with.authenticate, None);
}

#[test]
fn tokens_are_told_apart() {
    assert!(constant_time_eq("abc", "abc"));
    assert!(!constant_time_eq("abc", "abd"));
    assert!(!constant_time_eq("abc", "abcd"));
    assert!(constant_time_eq("", ""));
    assert!(!constant_time_eq("\u{e9}", "e\u{301}"));
}

#[test]
fn initialize_and_list_tools() {
    let first = post(
        "k",
        r#"{"jsonrpc":"2.0","id":1,"method":"initialize","params":{"protocolVersion":"2025-06-18","capabilities":{}}}"#,
    );
    let v1 = match first {
        Post::Call(Call::Reply(v)) => v,
        _ => panic!("a reply"),
    };
    assert_eq!(str_at(&v1, &["result", "protocolVersion"]), PROTOCOL_VERSION);
    assert_eq!(str_at(&v1, &["result", "serverInfo", "name"]), "quarterdeck");
    assert_eq!(at(&v1, &["id"]).as_whole(), Some(1));

    let second = post("k", r#"{"jsonrpc":"2.0","id":2,"method":"tools/list","params":{}}"#);
    let v2 = match second {
        Post::Call(Call::Reply(v)) => v,
        _ => panic!("a reply"),
    };
    let names: Vec<&str> = at(&v2, &["result", "tools"])
        .as_array()
        .unwrap()
        .iter()
        .map(|t| str_at(t, &["name"]))
        .collect();
    assert!(names.contains(&"ask_user"));
    assert!(names.contains(&"notify_user"));
    assert_eq!(names, ["ask_user", "update_ask", "cancel_ask", "notify_user"]);
}

#[test]
fn the_tools_say_what_they_take() {
    let v = match post("k", r#"{"jsonrpc":"2.0","id":2,"method":"tools/list"}"#) {
        Post::Call(Call::Reply(v)) => v,
        _ => panic!("a reply"),
    };
    let tools = at(&v, &["result", "tools"]);
    let ask = at(tools, &["0", "inputSchema", "properties"]);
    assert_eq!(at(ask, &["timeout_seconds", "maximum"]).as_whole(), Some(3600));
    assert_eq!(str_at(ask, &["options", "items", "type"]), "string");
    assert_eq!(str_at(ask, &["questions", "items", "required", "0"]), "question");
    assert_eq!(
        str_at(ask, &["questions", "items", "properties", "multiSelect", "description"]),
        "true \u{2192} the user may pick several options (checkboxes); false/omitted \u{2192} exactly one (radio)."
    );
    assert!(at(tools, &["0", "inputSchema"]).get("required").is_none());
    assert_eq!(str_at(tools, &["1", "inputSchema", "required", "0"]), "ask_id");
    assert_eq!(str_at(tools, &["2", "inputSchema", "required", "0"]), "ask_id");
    assert_eq!(str_at(tools, &["3", "inputSchema", "required", "0"]), "message");
    assert_eq!(
        str_at(tools, &["1", "inputSchema", "properties", "detail", "description"]),
        "New detail/body (optional; pass \"\" to clear)."
    );
}

#[test]
fn notification_is_accepted_with_202() {
    let out = post("k", r#"{"jsonrpc":"2.0","method":"notifications/initialized"}"#);
    assert!(matches!(out, Post::Accepted));
}

#[test]
fn bad_messages_are_refused() {
    match post("k", "{ not json") {
        Post::Reply(reply) => {
            assert_eq!(reply.status, 400);
            assert_eq!(
                reply.body,
                r#"{"error":{"code":-32700,"message":"Parse error"},"id":null,"jsonrpc":"2.0"}"#
            );
        }
        _ => panic!("400"),
    }
    match post("k", "[1]") {
        Post::Reply(reply) => {
            assert_eq!(reply.status, 400);
            assert_eq!(
                reply.body,
                r#"{"error":{"code":-32600,"message":"Invalid Request (batching is not supported)"},"id":null,"jsonrpc":"2.0"}"#
            );
        }
        _ => panic!("400"),
    }
    assert!(matches!(handle_post(Some("Bearer k"), "k", &[0xff, 0xfe]), Post::Reply(_)));
}

fn reply_to(body: &str) -> Json {
    match handle_message(parse(body)) {
        Post::Call(Call::Reply(v)) => v,
        _ => panic!("a reply"),
    }
}

#[test]
fn unknown_requests_get_an_error() {
    let v = reply_to(r#"{"id":1,"method":"nope"}"#);
    assert_eq!(str_at(&v, &["error", "message"]), "Method not found: nope");
    assert_eq!(compact(at(&v, &["error", "code"])), "-32601");
    let v = reply_to(r#"{"id":null}"#);
    assert_eq!(str_at(&v, &["error", "message"]), "Invalid Request");
    assert_eq!(compact(at(&v, &["error", "code"])), "-32600");
    assert!(at(&v, &["id"]).is_null());
    let v = reply_to(r#"{"id":"x","method":"tools/call","params":{"name":"zap"}}"#);
    assert_eq!(str_at(&v, &["error", "message"]), "Unknown tool: zap");
    assert_eq!(compact(at(&v, &["error", "code"])), "-32602");
    let v = reply_to(r#"{"id":1,"method":"ping"}"#);
    assert_eq!(compact(&v), r#"{"id":1,"jsonrpc":"2.0","result":{}}"#);
}

#[test]
fn tools_refuse_missing_arguments() {
    let call = |name: &str| {
        reply_to(&format!(
            r#"{{"id":1,"method":"tools/call","params":{{"name":"{name}","arguments":{{"ask_id":"  ","message":" "}}}}}}"#
        ))
    };
    assert_eq!(
        str_at(&call("update_ask"), &["error", "message"]),
        "update_ask requires a non-empty `ask_id`"
    );
    assert_eq!(
        str_at(&call("cancel_ask"), &["error", "message"]),
        "cancel_ask requires a non-empty `ask_id`"
    );
    assert_eq!(
        str_at(&call("notify_user"), &["error", "message"]),
        "notify_user requires a non-empty `message`"
    );
}

#[test]
fn ask_user_round_trip_via_test_channel() {
    let (id, ask) = asked(
        r#"{"jsonrpc":"2.0","id":3,"method":"tools/call","params":{"name":"ask_user","arguments":{"question":"Deploy to prod?","options":["yes","no"],"context":"C:/proj","timeout_seconds":30}}}"#,
    );
    assert_eq!(ask.question, "Deploy to prod?");
    assert_eq!(ask.options.as_ref().unwrap(), &["yes", "no"]);
    assert_eq!(ask.context.as_deref(), Some("C:/proj"));
    assert_eq!(ask.timeout_seconds, Some(30));

    let v = ask_reply(id, "ask-7", &AskOutcome::Answered(AskAnswer::option("yes")));
    let http = json_response(200, &v);
    assert_eq!(http.status, 200);
    let v = json(&http.body);
    assert_eq!(at(&v, &["id"]).as_whole(), Some(3));
    assert_eq!(at(&v, &["result", "isError"]).as_bool(), Some(false));
    assert_eq!(str_at(&v, &["result", "structuredContent", "answer"]), "yes");
    assert_eq!(str_at(&v, &["result", "structuredContent", "kind"]), "option");
    assert_eq!(str_at(&v, &["result", "structuredContent", "ask_id"]), "ask-7");
    let parsed = json(str_at(&v, &["result", "content", "0", "text"]));
    assert_eq!(str_at(&parsed, &["kind"]), "option");
    assert_eq!(str_at(&parsed, &["ask_id"]), "ask-7");
}

#[test]
fn ask_user_strips_bidi_override_controls_from_agent_text() {
    let body = "{\"jsonrpc\":\"2.0\",\"id\":13,\"method\":\"tools/call\",\"params\":{\"name\":\"ask_user\",\"arguments\":{\"question\":\"OK to run \u{202E}cod.exe\u{202C} now\",\"options\":[\"\u{202E}yes\u{202C}\"],\"context\":\"C:/\u{202E}jorp\u{202C}\"}}}";
    let (_, ask) = asked(body);
    assert_eq!(ask.question, "OK to run cod.exe now");
    assert_eq!(ask.options.as_ref().unwrap(), &["yes"]);
    assert_eq!(ask.context.as_deref(), Some("C:/jorp"));
}

#[test]
fn ask_user_times_out_when_unanswered() {
    let (id, ask) = asked(
        r#"{"jsonrpc":"2.0","id":9,"method":"tools/call","params":{"name":"ask_user","arguments":{"question":"q","timeout_seconds":1}}}"#,
    );
    assert_eq!(ask.timeout_seconds, Some(1));
    let v = ask_reply(id, "ask-1", &AskOutcome::TimedOut);
    assert_eq!(at(&v, &["result", "isError"]).as_bool(), Some(false));
    assert_eq!(str_at(&v, &["result", "structuredContent", "kind"]), "timeout");
}

#[test]
fn ask_user_clamps_timeout_to_3600() {
    let (_, ask) = asked(
        r#"{"jsonrpc":"2.0","id":7,"method":"tools/call","params":{"name":"ask_user","arguments":{"question":"q","timeout_seconds":99999}}}"#,
    );
    assert_eq!(ask.timeout_seconds, Some(MAX_TIMEOUT_SECONDS));
}

#[test]
fn ask_user_omitted_timeout_is_persistent() {
    let (id, ask) = asked(
        r#"{"jsonrpc":"2.0","id":8,"method":"tools/call","params":{"name":"ask_user","arguments":{"question":"forever?","detail":"the long rationale"}}}"#,
    );
    assert_eq!(ask.timeout_seconds, None, "persistent");
    assert_eq!(ask.detail.as_deref(), Some("the long rationale"));
    let v = ask_reply(id, "ask-1", &AskOutcome::Answered(AskAnswer::text("done")));
    assert_eq!(str_at(&v, &["result", "structuredContent", "kind"]), "text");
}

#[test]
fn cancel_ask_resolves_blocked_call_as_cancelled() {
    match post(
        "t",
        r#"{"jsonrpc":"2.0","id":21,"method":"tools/call","params":{"name":"cancel_ask","arguments":{"ask_id":"ask-1"}}}"#,
    ) {
        Post::Call(Call::Cancel { id, ask_id }) => {
            assert_eq!(ask_id, "ask-1");
            let cv = cancel_reply(id, &ask_id, true);
            assert_eq!(at(&cv, &["result", "isError"]).as_bool(), Some(false));
            assert_eq!(
                at(&cv, &["result", "structuredContent", "cancelled"]).as_bool(),
                Some(true)
            );
        }
        _ => panic!("a cancellation"),
    }
    let v = ask_reply(number(20), "ask-1", &AskOutcome::Answered(AskAnswer::cancelled()));
    assert_eq!(str_at(&v, &["result", "structuredContent", "kind"]), "cancelled");
}

#[test]
fn update_ask_mutates_pending_and_errors_on_unknown_id() {
    match post(
        "t",
        r#"{"jsonrpc":"2.0","id":31,"method":"tools/call","params":{"name":"update_ask","arguments":{"ask_id":" ask-1 ","question":"new?","detail":"why"}}}"#,
    ) {
        Post::Call(Call::Update { id, ask_id, question, options, detail }) => {
            assert_eq!(ask_id, "ask-1");
            assert_eq!(question.as_deref(), Some("new?"));
            assert_eq!(options, None);
            assert_eq!(detail.as_deref(), Some("why"));
            let uv = update_reply(id, &ask_id, true);
            assert_eq!(at(&uv, &["result", "isError"]).as_bool(), Some(false));
            assert_eq!(
                at(&uv, &["result", "structuredContent", "updated"]).as_bool(),
                Some(true)
            );
        }
        _ => panic!("a revision"),
    }
    let bv = update_reply(number(32), "nope", false);
    assert_eq!(at(&bv, &["result", "isError"]).as_bool(), Some(true));
    assert_eq!(
        str_at(&bv, &["result", "content", "0", "text"]),
        "No pending ask with id \"nope\" \u{2014} it may have been answered, dismissed, cancelled, or timed out."
    );
}

#[test]
fn empty_revisions_clear_or_change_nothing() {
    match post(
        "t",
        r#"{"id":31,"method":"tools/call","params":{"name":"update_ask","arguments":{"ask_id":"a","question":"  ","options":[],"detail":" "}}}"#,
    ) {
        Post::Call(Call::Update { question, options, detail, .. }) => {
            assert_eq!(question, None);
            assert_eq!(options, Some(Vec::new()));
            assert_eq!(detail.as_deref(), Some(""));
        }
        _ => panic!("a revision"),
    }
}

#[test]
fn cancel_ask_unknown_id_is_error_result() {
    let v = cancel_reply(number(40), "missing", false);
    assert_eq!(at(&v, &["result", "isError"]).as_bool(), Some(true));
    assert_eq!(
        str_at(&v, &["result", "content", "0", "text"]),
        "No pending ask with id \"missing\" \u{2014} it may have already been answered, dismissed, cancelled, or timed out."
    );
}

fn waiting(body: &str) -> Waiting {
    match post("t", body) {
        Post::Stream { id, request: _, token } => Waiting::new(id, "ask-9".to_string(), token),
        _ => panic!("a stream"),
    }
}

#[test]
fn ask_user_progress_notifications_stream_over_sse() {
    let mut wait = waiting(
        r#"{"jsonrpc":"2.0","id":50,"method":"tools/call","params":{"name":"ask_user","arguments":{"question":"slow?"},"_meta":{"progressToken":"tok-1"}}}"#,
    );
    for n in 1..=3 {
        match wait.drive_ask(&WaitEvent::Tick) {
            WaitStep::Progress(note) => {
                assert_eq!(str_at(&note, &["method"]), "notifications/progress");
                assert_eq!(str_at(&note, &["params", "progressToken"]), "tok-1");
                assert_eq!(at(&note, &["params", "progress"]).as_whole(), Some(n));
                assert_eq!(
                    str_at(&note, &["params", "message"]),
                    "waiting for the human to answer"
                );
            }
            _ => panic!("a sign of life"),
        }
    }
    match wait.drive_ask(&WaitEvent::Ended(AskOutcome::Answered(AskAnswer::text("ok")))) {
        WaitStep::Finish(last) => {
            assert_eq!(at(&last, &["id"]).as_whole(), Some(50));
            assert_eq!(str_at(&last, &["result", "structuredContent", "kind"]), "text");
        }
        _ => panic!("the end"),
    }
}

#[test]
fn dismiss_resolves_blocked_call_over_sse_not_a_timeout() {
    let mut wait = waiting(
        r#"{"jsonrpc":"2.0","id":60,"method":"tools/call","params":{"name":"ask_user","arguments":{"question":"dismiss me"},"_meta":{"progressToken":9}}}"#,
    );
    match wait.drive_ask(&WaitEvent::Ended(AskOutcome::Answered(AskAnswer::dismissed()))) {
        WaitStep::Finish(last) => {
            assert_eq!(str_at(&last, &["result", "structuredContent", "kind"]), "dismissed")
        }
        _ => panic!("the end"),
    }
}

#[test]
fn a_caller_who_is_gone_gives_the_question_up() {
    let mut wait = waiting(
        r#"{"id":61,"method":"tools/call","params":{"name":"ask_user","arguments":{"question":"q"},"_meta":{"progressToken":9}}}"#,
    );
    match wait.drive_ask(&WaitEvent::CallerGone) {
        WaitStep::Abandon(last) => {
            assert_eq!(str_at(&last, &["result", "structuredContent", "kind"]), "timeout")
        }
        _ => panic!("given up"),
    }
}

#[test]
fn a_stream_needs_a_progress_token() {
    let body = |meta: &str| {
        format!(
            r#"{{"id":1,"method":"tools/call","params":{{"name":"ask_user","arguments":{{"question":"q"}},"_meta":{meta}}}}}"#
        )
    };
    assert!(matches!(post("t", &body("{\"progressToken\":0}")), Post::Stream { .. }));
    assert!(matches!(post("t", &body("{\"progressToken\":null}")), Post::Call(Call::Ask { .. })));
    assert!(matches!(post("t", &body("{}")), Post::Call(Call::Ask { .. })));
    let bad = r#"{"id":1,"method":"tools/call","params":{"name":"ask_user","arguments":{},"_meta":{"progressToken":1}}}"#;
    match post("t", bad) {
        Post::StreamReply(v) => assert_eq!(compact(at(&v, &["error", "code"])), "-32602"),
        _ => panic!("one message"),
    }
}

#[test]
fn ask_user_orphaned_when_answer_channel_dropped() {
    let (id, _) = asked(
        r#"{"jsonrpc":"2.0","id":11,"method":"tools/call","params":{"name":"ask_user","arguments":{"question":"q","timeout_seconds":30}}}"#,
    );
    let v = ask_reply(id, "ask-1", &AskOutcome::Orphaned);
    assert_eq!(at(&v, &["result", "isError"]).as_bool(), Some(true));
    assert_eq!(
        str_at(&v, &["result", "content", "0", "text"]),
        "The ask was orphaned: Quarterdeck was closed or restarted while the question was pending."
    );
}

#[test]
fn notify_user_records_and_returns_immediately() {
    match post(
        "k",
        r#"{"jsonrpc":"2.0","id":5,"method":"tools/call","params":{"name":"notify_user","arguments":{"message":"build done","context":"C:/x"}}}"#,
    ) {
        Post::Call(Call::Notify { id, request }) => {
            assert_eq!(request.message, "build done");
            assert_eq!(request.context.as_deref(), Some("C:/x"));
            let v = notify_reply(id, "ntf-1-0");
            assert_eq!(at(&v, &["result", "isError"]).as_bool(), Some(false));
            assert_eq!(
                at(&v, &["result", "structuredContent", "delivered"]).as_bool(),
                Some(true)
            );
            assert_eq!(str_at(&v, &["result", "structuredContent", "id"]), "ntf-1-0");
        }
        _ => panic!("a notification"),
    }
}

#[test]
fn ask_user_form_round_trip_returns_kind_form() {
    let (id, ask) = asked(
        r#"{"jsonrpc":"2.0","id":70,"method":"tools/call","params":{"name":"ask_user","arguments":{"questions":[{"header":"Env","question":"Which environment?","options":["prod","staging"]},{"question":"Flags?","multiSelect":true,"options":["--fast","--safe"]}]}}}"#,
    );
    let qs = ask.questions.as_ref().expect("form carried on");
    assert_eq!(qs.len(), 2);
    assert_eq!(qs[0].question, "Which environment?");
    assert_eq!(ask.question, "Which environment?");

    let doc = r#"{"answers":[{"header":"Env","question":"Which environment?","selected":["prod"]},{"question":"Flags?","selected":["--fast","--safe"],"text":"go"}]}"#;
    let v = ask_reply(id, "ask-3", &AskOutcome::Answered(AskAnswer::form(doc)));
    let http = json_response(200, &v);
    assert_eq!(http.status, 200);
    let v = json(&http.body);
    assert_eq!(str_at(&v, &["result", "structuredContent", "kind"]), "form");
    assert_eq!(str_at(&v, &["result", "structuredContent", "answer"]), doc);
}

#[test]
fn answers_have_their_kinds() {
    assert_eq!(AskAnswer::option("a").kind, AskAnswerKind::Option);
    assert_eq!(AskAnswer::text("a").answer, "a");
    assert_eq!(AskAnswer::timeout().kind, AskAnswerKind::Timeout);
    assert_eq!(AskAnswer::timeout().answer, "");
    assert_eq!(AskAnswer::dismissed().kind, AskAnswerKind::Dismissed);
    assert_eq!(AskAnswer::cancelled().kind, AskAnswerKind::Cancelled);
}

#[test]
fn keepalive_is_what_is_set_if_it_is_a_number() {
    assert_eq!(keepalive_interval(None), DEFAULT_KEEPALIVE_MS);
    assert_eq!(keepalive_interval(Some(" 80 ")), 80);
    assert_eq!(keepalive_interval(Some("0")), 30_000);
    assert_eq!(keepalive_interval(Some("soon")), 30_000);
    assert_eq!(keepalive_interval(Some("-1")), 30_000);
    assert_eq!(keepalive_interval(Some("18446744073709551616")), 30_000);
}

fn config(port: u16, token: &str) -> McpConfig {
    McpConfig { port, token: token.to_string() }
}

#[test]
fn a_stored_configuration_is_used_if_it_is_whole() {
    assert!(load_config(None).is_none());
    assert!(load_config(Some(config(0, "t"))).is_none());
    assert!(load_config(Some(config(9, ""))).is_none());
    let kept = load_config(Some(config(9, "t"))).unwrap();
    assert_eq!((kept.port, kept.token.as_str()), (9, "t"));
}

#[test]
fn port_and_token_outlast_a_restart() {
    let existing = Some(config(4711, "old"));
    assert_eq!(first_port(&existing), 4711);
    assert_eq!(first_port(&None), 0);
    assert_eq!(next_port(4711), Some(0));
    assert_eq!(next_port(0), None);
    let again = served_config(existing, "new".to_string(), 4711);
    assert_eq!((again.port, again.token.as_str()), (4711, "old"));
    let fresh = served_config(None, "new".to_string(), 80);
    assert_eq!((fresh.port, fresh.token.as_str()), (80, "new"));
}

#[test]
fn a_token_is_48_hexadecimal_digits() {
    let token = token_of(&vec![0x0123456789abcdef, u64::MAX, 1, 5]);
    assert_eq!(token, "0123456789abcdefffffffffffffffff0000000000000001");
    let first = generate_token(17, 4);
    let second = generate_token(17, 4);
    assert_eq!(first.len(), 48);
    assert!(first.chars().all(|c| c.is_ascii_digit() || ('a'..='f').contains(&c)));
    assert_ne!(first, second);
}

#[test]
fn the_server_is_registered_with_its_address_and_token() {
    let cfg = config(8123, "abc");
    assert_eq!(url(8123), "http://127.0.0.1:8123/mcp");
    assert_eq!(
        mcp_command("agent", &cfg),
        "agent mcp add --transport http --scope user quarterdeck http://127.0.0.1:8123/mcp --header \"Authorization: Bearer abc\""
    );
    assert_eq!(
        mcp_add_args(&cfg),
        [
            "mcp", "add", "--transport", "http", "--scope", "user", "quarterdeck",
            "http://127.0.0.1:8123/mcp", "--header", "Authorization: Bearer abc"
        ]
    );
    assert_eq!(mcp_remove_args(), ["mcp", "remove", "--scope", "user", "quarterdeck"]);
}
