use quarterdeck::deck::{
    ask_file_text, ask_to_row, drain_expired_perms, perm_to_row, recover_ask_file, settle,
    AnswerFile, AnswerStep, AskFileRecord, Deck, EngineNote, FileRead, PendingAsk, RecoverStep,
    ShellPerm, PERM_DEADLINE_MS, PERM_TOOL_NAME_CAP,
};
use quarterdeck::ipc::{AskAnswerKind, AskQuestion};
use quarterdeck::json::parse;
use quarterdeck::mcp_server::AskRequest;
use quarterdeck::notify::ToastKind;
use quarterdeck::perms::{Admission, PermStep};
use quarterdeck::sessions::{EngineStatus, PermFileRecord, SessionView};
use quarterdeck::tool_input::pretty_tool_input;

fn shell_perm(id: &str, session: Option<&str>, received_ms: u64) -> ShellPerm {
    ShellPerm {
        id: id.to_string(),
        session_id: session.map(ToString::to_string),
        project: None,
        tool_name: "Bash".to_string(),
        tool_input: "{}".to_string(),
        context: None,
        received_ms,
    }
}

#[test]
fn perm_deadline_is_received_plus_ninety_seconds() {
    let perm = shell_perm("p1", Some("s1"), 1_000_000);
    assert_eq!(perm.deadline_ms(), 1_000_000 + PERM_DEADLINE_MS);
    let row = perm_to_row(&perm);
    assert_eq!(row.expires_at, Some(1_000_000 + PERM_DEADLINE_MS));
    assert_eq!(row.queued_at, 1_000_000);
    assert_eq!(shell_perm("p", None, u64::MAX - 1).deadline_ms(), u64::MAX);
}

#[test]
fn drain_expired_perms_sweeps_only_past_deadline() {
    let mut perms = vec![
        shell_perm("stale", Some("s1"), 1_000),
        shell_perm("fresh", Some("s2"), 50_000),
    ];

    assert!(drain_expired_perms(&mut perms, 1_000).is_empty());
    assert_eq!(perms.len(), 2);

    let expired = drain_expired_perms(&mut perms, 1_000 + PERM_DEADLINE_MS);
    assert_eq!(expired.len(), 1);
    assert_eq!(expired[0].id, "stale");
    assert_eq!(perms.len(), 1);
    assert_eq!(perms[0].id, "fresh");

    let expired = drain_expired_perms(&mut perms, 1_000_000);
    assert_eq!(expired.len(), 1);
    assert_eq!(expired[0].id, "fresh");
    assert!(perms.is_empty());
}

#[test]
fn pretty_tool_input_indents_parseable_json() {
    let out = pretty_tool_input(r#"{"command":"rm -rf x","timeout":120000}"#);
    assert!(out.contains('\n'), "pretty output is multi-line: {out:?}");
    assert!(
        out.contains("  \"command\": \"rm -rf x\""),
        "indented keys: {out:?}"
    );
    let v = parse(&out).unwrap();
    assert_eq!(v.get_str("command"), Some("rm -rf x"));
    assert_eq!(v.get("timeout").unwrap().as_whole(), Some(120000));
    let spaced = pretty_tool_input(" { \"timeout\" : 120000, \"command\":\"rm -rf x\" } ");
    assert_eq!(spaced, out);
}

#[test]
fn pretty_tool_input_keeps_truncated_fragment_verbatim() {
    let fragment = "{\n  \"content\": \"aaaaaaaaaa";
    assert_eq!(pretty_tool_input(fragment), fragment);
    assert_eq!(pretty_tool_input("   "), "");
}

#[test]
fn pretty_tool_input_decodes_powershell_escapes_on_truncated_fallback() {
    let truncated = "{\"question\":\"Ship it \\u0026 tag \\u003crelease\\u003e? It\\u0027s ready";
    let out = pretty_tool_input(truncated);
    assert!(
        out.contains("Ship it & tag <release>? It's ready"),
        "printable escapes decoded: {out:?}"
    );
    assert!(!out.contains("\\u"), "no raw escapes remain: {out:?}");

    let partial = "{\"a\":\"x\\u00";
    assert_eq!(pretty_tool_input(partial), partial);

    let control = "{\"a\":\"x\\u0007";
    assert_eq!(pretty_tool_input(control), control);

    let valid = pretty_tool_input("{\"question\":\"It\\u0027s fine\"}");
    let v = parse(&valid).unwrap();
    assert_eq!(v.get_str("question"), Some("It's fine"));
    assert!(valid.contains('\n'), "valid input pretty-printed: {valid:?}");
}

#[test]
fn only_printable_escapes_are_decoded() {
    assert_eq!(pretty_tool_input("x \\u0041\\u007e\\u007f\\u00E9\\u4E2d\\uD83D"), "x A~\\u007f\\u00E9\\u4E2d\\uD83D");
    assert_eq!(pretty_tool_input("\\\\u0041 \u{e9}\\u005Cu0041"), "\\A \u{e9}\\u0041");
    assert_eq!(pretty_tool_input("\\uU041\\u004"), "\\uU041\\u004");
}

fn view(id: &str, project: &str, cwd: &str) -> SessionView {
    SessionView {
        id: id.to_string(),
        project: project.to_string(),
        title: "t".to_string(),
        branch: None,
        status: EngineStatus::Working,
        inferred: false,
        since_ms: 0,
        cwd: cwd.to_string(),
        subagents: 0,
        age_ms: None,
        work_started_ms: None,
        last_work_ms: None,
        pid: None,
    }
}

fn request(question: &str, context: Option<&str>, timeout: Option<u64>) -> AskRequest {
    AskRequest {
        question: question.to_string(),
        options: Some(vec!["yes".to_string()]),
        questions: None,
        detail: Some("why".to_string()),
        context: context.map(ToString::to_string),
        timeout_seconds: timeout,
    }
}

#[test]
fn a_question_goes_behind_the_others_and_names_its_session() {
    let views = vec![view("s1", "repo", "C:/work/repo"), view("s2", "other", "/o")];
    let mut deck = Deck::new();
    assert!(deck.ask_window_idle());
    let first = deck.submit_ask(request("one?", Some("C:\\work\\repo\\"), Some(30)), &views, 1000, 0, false);
    assert_eq!(first.ask_id, "ask-1000-0");
    assert_eq!(first.session_id.as_deref(), Some("s1"));
    assert!(matches!(first.note, Some(EngineNote::Pending(ref id)) if id == "s1"));
    assert_eq!(first.toast.kind, ToastKind::Ask);
    assert_eq!(first.toast.session_id, "ask-1000-0");
    assert_eq!(first.toast.project, "repo");
    assert_eq!(first.toast.detail, "one?");
    let second = deck.submit_ask(request("two?", Some("/elsewhere/thing"), None), &views, 1001, 1, false);
    assert!(second.session_id.is_none());
    assert!(second.note.is_none());
    assert_eq!(second.toast.project, "thing");
    let third = deck.submit_ask(request("three?", None, None), &views, 1002, 2, false);
    assert_eq!(third.toast.project, "Agent");

    assert_eq!(deck.asks.len(), 3);
    assert_eq!(deck.asks[0].timeout_at_ms, 31_000);
    assert!(!deck.asks[0].persistent);
    assert!(deck.asks[1].persistent);
    assert_eq!(deck.asks[1].timeout_at_ms, 0);
    assert!(!deck.ask_window_idle());

    let row = ask_to_row(&deck.asks[0]);
    assert_eq!(row.timeout_at, Some(31_000));
    assert_eq!(row.context, None);
    assert_eq!(row.queued_at, 1000);
    let row = ask_to_row(&deck.asks[1]);
    assert_eq!(row.timeout_at, None);
    assert_eq!(row.context.as_deref(), Some("/elsewhere/thing"));
}

fn deck_of_three() -> Deck {
    let views = vec![view("s1", "repo", "/repo"), view("s2", "two", "/two")];
    let mut deck = Deck::new();
    deck.submit_ask(request("a?", Some("/repo"), Some(10)), &views, 1000, 0, false);
    deck.submit_ask(request("b?", Some("/two"), None), &views, 1000, 1, false);
    deck.submit_ask(request("c?", Some("/repo"), None), &views, 1000, 2, false);
    deck
}

#[test]
fn a_revision_changes_what_it_gives_and_keeps_the_place() {
    let mut deck = deck_of_three();
    assert!(deck.update_ask("ask-1000-1", Some("new?".to_string()), Some(Vec::new()), Some(String::new())));
    assert_eq!(deck.asks[1].id, "ask-1000-1");
    assert_eq!(deck.asks[1].question, "new?");
    assert_eq!(deck.asks[1].options, None);
    assert_eq!(deck.asks[1].detail, None);
    assert_eq!(deck.asks[0].question, "a?");
    assert!(deck.update_ask("ask-1000-1", Some(String::new()), Some(vec!["x".to_string()]), None));
    assert_eq!(deck.asks[1].question, "new?");
    assert_eq!(deck.asks[1].options.as_deref().unwrap(), &["x"]);
    assert!(!deck.update_ask("ask-9", Some("q".to_string()), None, None));
    deck.asks[0].orphaned = true;
    assert!(!deck.update_ask("ask-1000-0", Some("q".to_string()), None, None));
    assert_eq!(deck.asks[0].question, "a?");
}

#[test]
fn a_question_is_cancelled_once() {
    let mut deck = deck_of_three();
    let (ask, note) = deck.cancel_ask("ask-1000-1").unwrap();
    assert_eq!(ask.question, "b?");
    assert!(matches!(note, Some(EngineNote::Cleared(ref id)) if id == "s2"));
    assert_eq!(deck.asks.len(), 2);
    assert!(deck.cancel_ask("ask-1000-1").is_none());
}

fn answer(kind: AskAnswerKind) -> FileRead<AnswerFile> {
    FileRead::Parsed(AnswerFile { answer: "Yes".to_string(), kind })
}

#[test]
fn answers_are_handed_on_once() {
    let mut deck = deck_of_three();
    assert!(matches!(
        deck.resolve_answer("ask-1000-0.txt", answer(AskAnswerKind::Option)),
        AnswerStep::Ignore
    ));
    assert!(matches!(
        deck.resolve_answer(".json", answer(AskAnswerKind::Option)),
        AnswerStep::Ignore
    ));
    assert!(matches!(
        deck.resolve_answer("ask-1000-0.json", FileRead::Malformed),
        AnswerStep::Quarantine
    ));
    assert!(matches!(
        deck.resolve_answer("ask-1000-0.json", FileRead::Unreadable),
        AnswerStep::Quarantine
    ));
    assert_eq!(deck.asks.len(), 3);
    match deck.resolve_answer("ask-1000-0.json", answer(AskAnswerKind::Option)) {
        AnswerStep::Deliver { ask, answer } => {
            assert_eq!(ask.id, "ask-1000-0");
            assert_eq!(answer.answer, "Yes");
            assert_eq!(answer.kind, AskAnswerKind::Option);
        }
        _ => panic!("handed on"),
    }
    assert!(matches!(
        deck.resolve_answer("ask-1000-0.json", answer(AskAnswerKind::Option)),
        AnswerStep::Discard
    ));
    assert_eq!(deck.asks.len(), 2);
}

#[test]
fn the_engine_hears_of_answers_that_arrived() {
    let session = Some("s1".to_string());
    for kind in [AskAnswerKind::Option, AskAnswerKind::Text, AskAnswerKind::Form] {
        assert!(matches!(settle(&session, kind, true), Some(EngineNote::Answered(_))));
        assert!(matches!(settle(&session, kind, false), Some(EngineNote::Cleared(_))));
    }
    for kind in [
        AskAnswerKind::Timeout,
        AskAnswerKind::Dismissed,
        AskAnswerKind::Cancelled,
        AskAnswerKind::Terminal,
    ] {
        assert!(matches!(settle(&session, kind, true), Some(EngineNote::Cleared(_))));
    }
    assert!(settle(&None, AskAnswerKind::Text, true).is_none());
}

#[test]
fn only_questions_with_a_limit_expire() {
    let mut deck = deck_of_three();
    assert!(deck.sweep_expired_asks(10_999).is_empty());
    let gone = deck.sweep_expired_asks(11_000);
    assert_eq!(gone.len(), 1);
    assert_eq!(gone[0].id, "ask-1000-0");
    assert!(deck.sweep_expired_asks(u64::MAX).is_empty());
    assert_eq!(deck.asks.len(), 2);
}

#[test]
fn gone_sessions_take_their_questions_and_requests_along() {
    let mut deck = deck_of_three();
    deck.perms.push(shell_perm("p1", Some("s1"), 0));
    deck.perms.push(shell_perm("p2", None, 0));
    let gone = deck.dismiss_gone_sessions(&vec!["s9".to_string(), "s1".to_string()]);
    let asks: Vec<&str> = gone.asks.iter().map(|a| a.question.as_str()).collect();
    assert_eq!(asks, ["a?", "c?"]);
    assert_eq!(gone.perms.len(), 1);
    assert_eq!(gone.perms[0].id, "p1");
    assert_eq!(deck.asks.len(), 1);
    assert_eq!(deck.asks[0].question, "b?");
    assert_eq!(deck.perms[0].id, "p2");
}

fn record(id: &str) -> AskFileRecord {
    AskFileRecord {
        id: id.to_string(),
        session_id: None,
        project: Some("quarterdeck".to_string()),
        question: "Tabs or spaces?".to_string(),
        options: None,
        questions: None,
        detail: None,
        context: None,
    }
}

#[test]
fn questions_of_an_earlier_process_are_shown_as_such() {
    let mut deck = Deck::new();
    match recover_ask_file("ask-good.json", FileRead::Parsed(record("ask-good"))) {
        RecoverStep::Recover(rec) => deck.orphan_stale_ask(rec),
        _ => panic!("recovered"),
    }
    assert!(matches!(
        recover_ask_file("ask-empty.json", FileRead::Parsed(record(""))),
        RecoverStep::Quarantine
    ));
    assert!(matches!(
        recover_ask_file("ask-bad.json", FileRead::Malformed),
        RecoverStep::Quarantine
    ));
    assert!(matches!(
        recover_ask_file("notes.txt", FileRead::Malformed),
        RecoverStep::Ignore
    ));
    let row = ask_to_row(&deck.asks[0]);
    assert_eq!(row.id, "ask-good");
    assert_eq!(row.question, "Tabs or spaces?");
    assert!(row.orphaned);
    assert_eq!(row.queued_at, 0);
    assert_eq!(row.timeout_at, Some(0));
    assert!(deck.sweep_expired_asks(u64::MAX).is_empty());
}

#[test]
fn a_question_is_written_down_whole() {
    let ask = PendingAsk {
        id: "ask-form".to_string(),
        session_id: None,
        project: None,
        question: "Which environment?".to_string(),
        options: Some(vec!["prod".to_string()]),
        questions: Some(vec![AskQuestion {
            header: Some("Env".to_string()),
            question: "Which environment?".to_string(),
            multi_select: true,
            options: vec!["prod".to_string(), "staging".to_string()],
        }]),
        detail: None,
        context: Some("/x".to_string()),
        enqueued_ms: 1,
        timeout_at_ms: 99,
        persistent: false,
        orphaned: false,
    };
    let v = parse(&ask_file_text(&ask, 7)).unwrap();
    assert_eq!(v.get_str("id"), Some("ask-form"));
    assert!(v.get("sessionId").unwrap().is_null());
    assert_eq!(v.get("timeoutAtMs").unwrap().as_whole(), Some(99));
    assert_eq!(v.get("createdAtMs").unwrap().as_whole(), Some(7));
    assert_eq!(v.get_bool("persistent"), Some(false));
    assert_eq!(v.get_str("context"), Some("/x"));
    let q = &v.get_array("questions").unwrap()[0];
    assert_eq!(q.get_str("header"), Some("Env"));
    assert_eq!(q.get_bool("multiSelect"), Some(true));
    assert_eq!(q.get_array("options").unwrap()[1].as_str(), Some("staging"));
}

fn perm_record(tool: &str, input: &str, session: Option<&str>, cwd: Option<&str>) -> FileRead<PermFileRecord> {
    FileRead::Parsed(PermFileRecord {
        tool_name: tool.to_string(),
        tool_input: input.to_string(),
        session_id: session.map(ToString::to_string),
        cwd: cwd.map(ToString::to_string),
    })
}

#[test]
fn a_permission_request_goes_onto_the_deck() {
    let views = vec![view("s1", "repo", "/work/repo")];
    let mut deck = Deck::new();
    let step = deck.ingest_perm(
        "perm-1.json",
        perm_record(" Ba\u{202E}sh ", "{\"command\":\"ls\"}", Some(" s1 "), Some("/nowhere")),
        &views,
        false,
    );
    let perm = match step {
        PermStep::Ready(perm) => perm,
        _ => panic!("ready"),
    };
    assert_eq!(perm.session_id.as_deref(), Some("s1"));
    assert_eq!(perm.tool_name, "Bash");
    assert_eq!(perm.tool_input, "{\n  \"command\": \"ls\"\n}");
    assert_eq!(perm.context, None);
    match deck.admit_perm(perm, false, 50) {
        Admission::Admitted { note, toast } => {
            assert!(matches!(note, Some(EngineNote::Pending(ref id)) if id == "s1"));
            assert_eq!(toast.kind, ToastKind::Attention);
            assert_eq!(toast.session_id, "perm-perm-1");
            assert_eq!(toast.project, "repo");
            assert_eq!(toast.detail, "requests permission to run Bash");
        }
        Admission::Deferred => panic!("on the deck"),
    }
    assert_eq!(deck.perms.len(), 1);
    assert_eq!(deck.perms[0].received_ms, 50);
    assert!(matches!(
        deck.ingest_perm("perm-1.json", FileRead::Malformed, &views, false),
        PermStep::Discard
    ));
    assert_eq!(deck.take_perm("perm-1").unwrap().id, "perm-1");
    assert!(deck.take_perm("perm-1").is_none());
    assert!(deck.ask_window_idle());
}

#[test]
fn a_permission_request_without_a_session_says_where_it_came_from() {
    let views = vec![view("s1", "repo", "/work/repo")];
    let mut deck = Deck::new();
    let long = "n".repeat(300);
    match deck.ingest_perm("p.json", perm_record(&long, "", None, Some(" /else/where ")), &views, false) {
        PermStep::Ready(perm) => {
            assert_eq!(perm.session_id, None);
            assert_eq!(perm.context.as_deref(), Some("/else/where"));
            assert_eq!(perm.toast_project, "where");
            assert_eq!(perm.tool_name.chars().count(), PERM_TOOL_NAME_CAP);
            assert_eq!(perm.tool_input, "");
            assert!(matches!(deck.admit_perm(perm, true, 1), Admission::Deferred));
        }
        _ => panic!("ready"),
    }
    assert!(deck.perms.is_empty());
    match deck.ingest_perm("p.json", perm_record(" \u{202E} ", "", None, None), &views, false) {
        PermStep::Ready(perm) => {
            assert_eq!(perm.tool_name, "(unknown tool)");
            assert_eq!(perm.toast_project, "Agent");
        }
        _ => panic!("ready"),
    }
    match deck.ingest_perm("p.json", perm_record("x", "", Some("s9"), Some("/work/repo/")), &views, false) {
        PermStep::Ready(perm) => assert_eq!(perm.session_id.as_deref(), Some("s1")),
        _ => panic!("ready"),
    }
    assert!(matches!(
        deck.ingest_perm("p.json", FileRead::Unreadable, &views, false),
        PermStep::Quarantine
    ));
    assert!(matches!(
        deck.ingest_perm("p.tmp", FileRead::Unreadable, &views, false),
        PermStep::Ignore
    ));
}
