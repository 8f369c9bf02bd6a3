use quarterdeck::ipc::{
    answer_file, apply_remove_ask, apply_remove_perm, apply_remove_row, perm_answer_file,
    recompute_counts, safe_file_stem, tray_color, worst_status, AskAnswerKind, AskRow, PermDecision, PermRow, SessionRow,
    SessionStatus, SettingValue, StateSnapshot, ANSWER_MAX_CHARS,
};
use quarterdeck::json::{compact, parse, text};

fn sample_session(id: &str, status: SessionStatus) -> SessionRow {
    SessionRow {
        id: id.to_string(),
        project: "quarterdeck".to_string(),
        title: "test session".to_string(),
        branch: None,
        status,
        inferred: false,
        since_ms: 0,
        cwd: "C:/repo".to_string(),
        subagents: 0,
        age_ms: None,
        work_started_ms: None,
        last_work_ms: None,
        ctx_percent: None,
        spend: None,
        spend_approx: false,
        subagent_spend: None,
        pid: None,
    }
}

fn sample_ask(id: &str, question: &str) -> AskRow {
    AskRow {
        id: id.to_string(),
        session_id: None,
        project: None,
        question: question.to_string(),
        options: None,
        questions: None,
        detail: None,
        timeout_at: None,
        context: None,
        orphaned: false,
        queued_at: 0,
    }
}

#[test]
fn recompute_counts_tallies_each_status() {
    let sessions = vec![
        sample_session("a", SessionStatus::Attention),
        sample_session("b", SessionStatus::Working),
        sample_session("c", SessionStatus::Working),
        sample_session("d", SessionStatus::Idle),
        sample_session("e", SessionStatus::Dead),
    ];
    let counts = recompute_counts(&sessions);
    assert_eq!(counts.attention, 1);
    assert_eq!(counts.working, 2);
    assert_eq!(counts.idle, 1);
    assert_eq!(counts.dead, 1);
}

#[test]
fn sessions_that_wait_for_a_workflow_are_counted_apart() {
    let sessions = vec![
        sample_session("a", SessionStatus::WaitingWorkflow),
        sample_session("b", SessionStatus::Working),
    ];
    let counts = recompute_counts(&sessions);
    assert_eq!(counts.waiting, 1);
    assert_eq!(counts.working, 1);
    assert_eq!(counts.attention + counts.idle + counts.dead, 0);
}

#[test]
fn the_tray_shows_the_worst_status() {
    let worst = |statuses: &[SessionStatus]| {
        let rows: Vec<SessionRow> = statuses.iter().map(|s| sample_session("x", *s)).collect();
        worst_status(&recompute_counts(&rows))
    };
    let (a, w, b, i, d) = (
        SessionStatus::Attention,
        SessionStatus::Working,
        SessionStatus::WaitingWorkflow,
        SessionStatus::Idle,
        SessionStatus::Dead,
    );
    assert_eq!(worst(&[d, i, w, a, b]), Some(a));
    assert_eq!(worst(&[d, i, b]), Some(w));
    assert_eq!(worst(&[d, i]), Some(i));
    assert_eq!(worst(&[d]), Some(d));
    assert_eq!(worst(&[]), None);
    let color = |s: SessionStatus| tray_color(&recompute_counts(&[sample_session("x", s)]));
    assert_eq!([a, w, b, i, d].map(color), ["red", "yellow", "yellow", "green", "gray"]);
    assert_eq!(tray_color(&recompute_counts(&[])), "gray");
}

#[test]
fn apply_remove_row_drops_the_matching_row_and_recomputes_counts() {
    let sessions = vec![
        sample_session("a", SessionStatus::Attention),
        sample_session("b", SessionStatus::Idle),
    ];
    let counts = recompute_counts(&sessions);
    let mut state = StateSnapshot {
        sessions,
        counts,
        ..Default::default()
    };

    apply_remove_row(&mut state, "a");

    assert_eq!(state.sessions.len(), 1);
    assert_eq!(state.sessions[0].id, "b");
    assert_eq!(state.counts.attention, 0);
    assert_eq!(state.counts.idle, 1);
}

#[test]
fn apply_remove_row_is_a_no_op_for_unknown_ids() {
    let mut state = StateSnapshot {
        sessions: vec![sample_session("a", SessionStatus::Idle)],
        ..Default::default()
    };
    apply_remove_row(&mut state, "does-not-exist");
    assert_eq!(state.sessions.len(), 1);
}

#[test]
fn apply_remove_ask_drops_the_matching_ask() {
    let mut state = StateSnapshot {
        asks: vec![
            sample_ask("ask-1", "Proceed?"),
            sample_ask("ask-2", "Also proceed?"),
        ],
        ..Default::default()
    };
    apply_remove_ask(&mut state, "ask-1");
    assert_eq!(state.asks.len(), 1);
    assert_eq!(state.asks[0].id, "ask-2");
}

#[test]
fn apply_remove_perm_drops_the_matching_perm() {
    let mut state = StateSnapshot {
        perms: vec![
            PermRow {
                id: "p1".to_string(),
                session_id: Some("s1".to_string()),
                project: Some("quarterdeck".to_string()),
                tool_name: "Bash".to_string(),
                tool_input: "{}".to_string(),
                context: None,
                queued_at: 0,
                expires_at: None,
            },
            PermRow {
                id: "p2".to_string(),
                session_id: None,
                project: None,
                tool_name: "Write".to_string(),
                tool_input: "{}".to_string(),
                context: Some("C:/x".to_string()),
                queued_at: 0,
                expires_at: None,
            },
        ],
        ..Default::default()
    };
    apply_remove_perm(&mut state, "p1");
    assert_eq!(state.perms.len(), 1);
    assert_eq!(state.perms[0].id, "p2");
}

#[test]
fn setting_value_round_trips_as_a_bare_json_scalar() {
    let bool_json = compact(&SettingValue::Bool(true).into_json());
    assert_eq!(bool_json, "true");
    let text_json = compact(&SettingValue::Text("x".to_string()).into_json());
    assert_eq!(text_json, "\"x\"");

    let parsed = SettingValue::from_json(parse("false").unwrap()).unwrap();
    assert_eq!(parsed, SettingValue::Bool(false));
    let parsed = SettingValue::from_json(parse("\"hello\"").unwrap()).unwrap();
    assert_eq!(parsed, SettingValue::Text("hello".to_string()));
    assert!(SettingValue::from_json(parse("3").unwrap()).is_none());
}

#[test]
fn setting_value_as_bool_lossy() {
    assert!(SettingValue::Bool(true).as_bool_lossy());
    assert!(SettingValue::Text("true".to_string()).as_bool_lossy());
    assert!(!SettingValue::Text("nope".to_string()).as_bool_lossy());
    assert!(SettingValue::Text("1".to_string()).as_bool_lossy());
    assert!(!SettingValue::Bool(false).as_bool_lossy());
}

#[test]
fn safe_file_stem_rejects_path_traversal() {
    assert!(safe_file_stem("ask-123").is_ok());
    assert!(safe_file_stem("../escape").is_err());
    assert!(safe_file_stem("a/b").is_err());
    assert!(safe_file_stem("a\\b").is_err());
    assert!(safe_file_stem("").is_err());
    assert!(safe_file_stem(".").is_err());
    assert!(safe_file_stem("..").is_err());
}

#[test]
fn a_bad_id_is_quoted_in_the_message() {
    assert_eq!(safe_file_stem("a/\"b").unwrap_err(), "invalid id: \"a/\\\"b\"");
    assert_eq!(safe_file_stem("").unwrap_err(), "invalid id: \"\"");
}

#[test]
fn perm_decision_serializes_lowercase() {
    assert_eq!(compact(&text(PermDecision::Allow.as_str())), "\"allow\"");
    assert_eq!(compact(&text(PermDecision::Deny.as_str())), "\"deny\"");
    assert_eq!(compact(&text(PermDecision::Defer.as_str())), "\"defer\"");
    let d = PermDecision::from_name(parse("\"deny\"").unwrap().as_str().unwrap()).unwrap();
    assert_eq!(d, PermDecision::Deny);
    assert_eq!(PermDecision::from_name("maybe"), None);
}

#[test]
fn ask_answer_kind_form_serializes_lowercase() {
    assert_eq!(compact(&text(AskAnswerKind::Form.as_str())), "\"form\"");
    let k = AskAnswerKind::from_name(parse("\"form\"").unwrap().as_str().unwrap()).unwrap();
    assert_eq!(k, AskAnswerKind::Form);
    for kind in [
        AskAnswerKind::Option,
        AskAnswerKind::Text,
        AskAnswerKind::Timeout,
        AskAnswerKind::Dismissed,
        AskAnswerKind::Cancelled,
        AskAnswerKind::Form,
        AskAnswerKind::Terminal,
    ] {
        assert_eq!(AskAnswerKind::from_name(kind.as_str()), Some(kind));
    }
    assert_eq!(AskAnswerKind::from_name("Form"), None);
}

#[test]
fn status_names_are_lowercase() {
    assert_eq!(SessionStatus::Working.as_str(), "working");
    assert_eq!(SessionStatus::WaitingWorkflow.as_str(), "waitingworkflow");
    assert_eq!(SessionStatus::Attention.as_str(), "attention");
    assert_eq!(SessionStatus::Idle.as_str(), "idle");
    assert_eq!(SessionStatus::Dead.as_str(), "dead");
}

#[test]
fn an_answer_becomes_a_file_named_after_its_question() {
    let (name, record) = answer_file("ask-42", "yes please", AskAnswerKind::Option, 17).unwrap();
    assert_eq!(name, "ask-42.json");
    assert_eq!(record.id, "ask-42");
    assert_eq!(record.answer, "yes please");
    assert_eq!(record.kind, AskAnswerKind::Option);
    assert_eq!(record.answered_at_ms, 17);
    assert!(answer_file("../escape", "x", AskAnswerKind::Text, 0).is_err());
}

#[test]
fn a_huge_answer_is_capped() {
    let huge = "z".repeat(50_000);
    let (_, record) = answer_file("ask-big", &huge, AskAnswerKind::Form, 1).unwrap();
    assert!(record.answer.chars().count() <= ANSWER_MAX_CHARS);
    assert_eq!(record.answer.chars().count(), ANSWER_MAX_CHARS);
    assert!(record.answer.ends_with('\u{2026}'));
}

#[test]
fn a_decision_becomes_a_file_and_a_blank_reason_is_dropped() {
    let (name, record) =
        perm_answer_file("perm-1", PermDecision::Deny, Some(" too risky "), 5).unwrap();
    assert_eq!(name, "perm-1.json");
    assert_eq!(record.decision, PermDecision::Deny);
    assert_eq!(record.reason.as_deref(), Some("too risky"));
    assert_eq!(record.answered_at_ms, 5);

    let (_, blank) = perm_answer_file("perm-2", PermDecision::Allow, Some("   "), 6).unwrap();
    assert!(blank.reason.is_none());
    let (_, none) = perm_answer_file("perm-3", PermDecision::Defer, None, 6).unwrap();
    assert!(none.reason.is_none());
    assert!(perm_answer_file("../escape", PermDecision::Defer, None, 0).is_err());
}
