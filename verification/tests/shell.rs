use quarterdeck::deck::Deck;
use quarterdeck::files::{is_stale, json_stem, quarantine_name, tail_start, tmp_file_name};
use quarterdeck::install::{
    claude_cli_names, claude_settings_path, has_hook_scripts, hook_script, hooks_installed,
    install_hooks_to, source_dirs, HooksChange,
};
use quarterdeck::ipc::{Counts, SessionStatus, SettingValue};
use quarterdeck::logging::{log_file_name, must_rotate, rotate, LogState, RotateStep, KEEP, MAX_BYTES};
use quarterdeck::mcp_server::{AskRequest, McpConfig, NotifyRequest};
use quarterdeck::notify::ToastKind;
use quarterdeck::paths::{basename, norm_path, paths_eq};
use quarterdeck::sessions::{
    cached_foreground, map_status, match_session, needs_foreground, session_foreground,
    session_terminal_pids, EngineStatus, ForegroundSample, SessionView, Terminal,
};
use quarterdeck::settings::{Platform, PopupMode, Settings};
use quarterdeck::shell::{
    apply_setting_side_effect, gate_toast, idle_assistant_body, maybe_surface_asks, notify_user,
    may_register_identity, readable_transcripts, refund_toast, retain_present, snapshot,
    sync_autostart, transcript_changed, LoopTimers, SessionTranscript, SessionUsage, ShellFacts,
    SideEffect,
};
use quarterdeck::watcher::{is_relevant, Debouncer, FileEventKind, WatchEvent, WatchStep};

#[test]
fn basename_and_paths_eq_handle_mixed_separators() {
    assert_eq!(basename("C:/Users/phil/repo"), "repo");
    assert_eq!(basename("C:\\Users\\phil\\repo\\"), "repo");
    assert_eq!(basename("/home/phil/proj/"), "proj");
    assert!(paths_eq("C:/Users/phil/repo", "C:\\Users\\phil\\repo\\", false));
    assert!(!paths_eq("C:/a/b", "C:/a/c", false));
}

#[test]
fn paths_are_compared_in_their_normal_form() {
    assert_eq!(norm_path("  C:\\a\\b\\\\ "), "C:/a/b");
    assert_eq!(norm_path("///"), "");
    assert_eq!(basename(""), "");
    assert_eq!(basename("/"), "");
    assert_eq!(basename("plain"), "plain");
    assert!(!paths_eq("/a/\u{41c}\u{43e}\u{439}", "/A/\u{41c}\u{41e}\u{419}", false));
    assert!(paths_eq("/a/\u{41c}\u{43e}\u{439}", "/A/\u{41c}\u{41e}\u{419}", true));
    assert!(!paths_eq("/a/b", "/a/c", true));
}

#[test]
fn map_status_covers_every_variant() {
    assert_eq!(map_status(EngineStatus::Working), SessionStatus::Working);
    assert_eq!(
        map_status(EngineStatus::WaitingWorkflow),
        SessionStatus::WaitingWorkflow
    );
    assert_eq!(map_status(EngineStatus::Attention), SessionStatus::Attention);
    assert_eq!(map_status(EngineStatus::Idle), SessionStatus::Idle);
    assert_eq!(map_status(EngineStatus::Dead), SessionStatus::Dead);
}

fn terminal(id: &str, pids: Vec<u32>) -> Terminal {
    Terminal { session_id: id.to_string(), pids }
}

#[test]
fn foreground_suppression_composition_matches_a_session_terminal_pid() {
    let terminals = vec![terminal("other", vec![7]), terminal("s-fg", vec![4242])];
    let pids = session_terminal_pids(&terminals, "s-fg");
    assert!(pids.contains(&4242));

    assert!(
        session_foreground(Some("s-fg"), &terminals, &vec![999, 4242, 7]),
        "a session whose terminal pid is foreground must match"
    );
    assert!(
        !session_foreground(Some("s-fg"), &terminals, &vec![999, 7]),
        "a foreground window that isn't the session's terminal must not suppress"
    );
    assert!(!session_foreground(Some("nobody"), &terminals, &vec![4242]));
    assert!(!session_foreground(None, &terminals, &vec![4242]));
    assert!(needs_foreground(Some("s-fg"), &terminals));
    assert!(!needs_foreground(Some("nobody"), &terminals));
    assert!(!needs_foreground(None, &terminals));
}

#[test]
fn is_relevant_ignores_access_and_remove_events() {
    assert!(!is_relevant(FileEventKind::Access));
    assert!(!is_relevant(FileEventKind::Remove));
    assert!(is_relevant(FileEventKind::Create));
    assert!(is_relevant(FileEventKind::Modify));
    assert!(is_relevant(FileEventKind::Any));
}

#[test]
fn changes_are_gathered_until_it_is_quiet() {
    let mut d = Debouncer::new(50);
    assert_eq!(d.wait_ms(0), 3_600_000);
    let changed = |s: &str| WatchEvent::Changed(s.to_string());
    assert!(matches!(d.debounce(changed("a"), 100), WatchStep::Wait));
    assert!(matches!(d.debounce(changed("b"), 120), WatchStep::Wait));
    assert!(matches!(d.debounce(changed("a"), 140), WatchStep::Wait));
    assert_eq!(d.wait_ms(150), 40);
    assert_eq!(d.wait_ms(190), 1);
    assert_eq!(d.wait_ms(500), 1);
    assert!(matches!(d.debounce(WatchEvent::Quiet, 189), WatchStep::Wait));
    match d.debounce(WatchEvent::Quiet, 190) {
        WatchStep::Pass(paths) => assert_eq!(paths, ["a", "b"]),
        _ => panic!("passed on"),
    }
    assert!(matches!(d.debounce(WatchEvent::Quiet, 900), WatchStep::Wait));
    d.debounce(changed("c"), 1_000);
    match d.debounce(WatchEvent::Closed, 1_001) {
        WatchStep::End(paths) => assert_eq!(paths, ["c"]),
        _ => panic!("the end"),
    }
}

#[test]
fn a_full_log_file_makes_room() {
    assert!(!must_rotate(0, 5_000_000));
    assert!(!must_rotate(1, MAX_BYTES - 1));
    assert!(must_rotate(1, MAX_BYTES));
    assert!(must_rotate(MAX_BYTES + 1, 0));
    assert!(must_rotate(1, u64::MAX));
    assert_eq!(log_file_name(0), "quarterdeck.log");
    assert_eq!(log_file_name(1), "quarterdeck.log.1");
    assert_eq!(
        rotate(),
        [
            RotateStep::Remove(2),
            RotateStep::Rename { from: 1, to: 2 },
            RotateStep::Rename { from: 0, to: 1 }
        ]
    );
}

#[test]
fn three_log_files_are_kept() {
    // About 2.5 MB in pieces of 64 KiB make room twice.
    let mut files: Vec<Option<u64>> = vec![None; 4];
    let mut log = LogState { written: None };
    for _ in 0..40 {
        let len = 64 * 1024;
        if log.written.is_none() {
            log.opened(0);
        }
        if log.before_write(len) {
            for step in rotate() {
                match step {
                    RotateStep::Remove(n) => files[n] = None,
                    RotateStep::Rename { from, to } => {
                        if files[from].is_some() {
                            files[to] = files[from].take();
                        }
                    }
                }
            }
            log.opened(0);
        }
        log.wrote(len);
        files[0] = log.written;
    }
    assert!(files[0].is_some() && files[1].is_some() && files[2].is_some());
    assert!(files[KEEP].is_none());
    for len in files.iter().flatten() {
        assert!(*len <= MAX_BYTES);
    }
}

#[test]
fn files_have_their_names() {
    assert_eq!(json_stem("a.b.json").as_deref(), Some("a.b"));
    assert_eq!(json_stem(".json"), None);
    assert_eq!(json_stem("a.jsonl"), None);
    assert_eq!(json_stem("a.JSON"), None);
    assert_eq!(quarantine_name("x.json", 0), "x.json");
    assert_eq!(quarantine_name("x.json", 12), "x.json.12");
    assert_eq!(tmp_file_name("settings.json", 42, 7), ".settings.json.tmp-42-7");
    assert!(!is_stale(179_999));
    assert!(is_stale(180_000));
    assert_eq!(tail_start(100, 30), 70);
    assert_eq!(tail_start(30, 30), 0);
    assert_eq!(tail_start(3, 30), 0);
}

fn view(id: &str, project: &str, cwd: &str) -> SessionView {
    SessionView {
        id: id.to_string(),
        project: project.to_string(),
        title: "t".to_string(),
        branch: Some("main".to_string()),
        status: EngineStatus::Idle,
        inferred: true,
        since_ms: 5,
        cwd: cwd.to_string(),
        subagents: 2,
        age_ms: Some(9),
        work_started_ms: Some(1),
        last_work_ms: None,
        pid: Some(77),
    }
}

#[test]
fn an_exact_place_wins_over_a_name() {
    let views = vec![view("s0", "none", ""), view("s1", "one", "/a/repo"), view("s2", "two", "/b/repo")];
    let found = |c: Option<&str>| match_session(&views, c, false);
    assert_eq!(found(Some("/b/repo/")), (Some("s2".to_string()), Some("two".to_string())));
    assert_eq!(found(Some("/c/repo")), (Some("s1".to_string()), Some("one".to_string())));
    assert_eq!(found(Some("/c/other")), (None, None));
    assert_eq!(found(Some("  ")), (None, None));
    assert_eq!(found(None), (None, None));
    assert_eq!(match_session(&views, Some("/B/REPO"), false), (None, None));
    assert_eq!(match_session(&views, Some("/B/REPO"), true).0.as_deref(), Some("s2"));
}

#[test]
fn a_sample_is_used_while_it_is_fresh() {
    let cache = Some(ForegroundSample { at_ms: 1_000, pids: vec![1, 2] });
    assert_eq!(cached_foreground(&cache, 3_000, 2_000), Some(vec![1, 2]));
    assert_eq!(cached_foreground(&cache, 3_001, 2_000), None);
    assert_eq!(cached_foreground(&cache, 10, 0), Some(vec![1, 2]));
    assert_eq!(cached_foreground(&None, 0, 2_000), None);
}

fn usage(id: &str, spend: u64, group: u64) -> SessionUsage {
    SessionUsage {
        session_id: id.to_string(),
        ctx_percent: Some(42),
        spend,
        spend_text: "1.4M".to_string(),
        spend_approx: true,
        group_spend: group,
        group_text: "2.1M".to_string(),
    }
}

fn facts() -> ShellFacts {
    ShellFacts {
        counts: Counts { attention: 1, working: 2, waiting: 3, idle: 4, dead: 5 },
        hooks_installed: true,
        cli: "agent".to_string(),
        mcp_cli_available: false,
        mcp_config: Some(McpConfig { port: 1, token: "t".to_string() }),
        data_dir: "/data".to_string(),
        version: "0.1.0".to_string(),
    }
}

fn ask(deck: &mut Deck, views: &Vec<SessionView>, context: Option<&str>, seq: u64) {
    let req = AskRequest {
        question: "q?".to_string(),
        options: None,
        questions: None,
        detail: None,
        context: context.map(ToString::to_string),
        timeout_seconds: None,
    };
    deck.submit_ask(req, views, 10, seq, false);
}

#[test]
fn the_window_shows_everything_in_order() {
    let views = vec![view("s1", "one", "/a"), view("s2", "two", "/b")];
    let mut deck = Deck::new();
    ask(&mut deck, &views, Some("/a"), 0);
    ask(&mut deck, &views, None, 1);
    let mut settings = Settings::default();
    let shown = snapshot(&views, &vec![usage("s2", 5, 0)], &deck, &settings, &facts());
    assert_eq!(shown.sessions.len(), 2);
    assert_eq!(shown.sessions[0].id, "s1");
    assert_eq!(shown.sessions[0].branch.as_deref(), Some("main"));
    assert_eq!(shown.sessions[0].status, SessionStatus::Idle);
    assert_eq!(shown.sessions[0].pid, Some(77));
    assert_eq!(shown.sessions[0].ctx_percent, None);
    assert_eq!(shown.sessions[1].ctx_percent, Some(42));
    assert_eq!(shown.sessions[1].spend.as_deref(), Some("1.4M"));
    assert!(shown.sessions[1].spend_approx);
    assert_eq!(shown.sessions[1].subagent_spend, None);
    assert_eq!(shown.asks.len(), 2);
    assert_eq!(shown.asks[0].session_id.as_deref(), Some("s1"));
    assert_eq!(shown.counts.waiting, 3);
    assert!(shown.hooks_installed);
    let state = shown.settings.unwrap();
    assert!(state.takeover_permissions && state.show_token_stats && !state.mcp_enabled);
    assert_eq!(
        state.mcp_command.as_deref(),
        Some("agent mcp add --transport http --scope user quarterdeck http://127.0.0.1:1/mcp --header \"Authorization: Bearer t\"")
    );
    assert_eq!(state.data_dir, "/data");

    settings.apply("showTokenStats", SettingValue::Bool(false));
    let hidden = snapshot(&views, &vec![usage("s2", 5, 5)], &deck, &settings, &facts());
    assert_eq!(hidden.sessions[1].ctx_percent, None);
    assert_eq!(hidden.sessions[1].subagent_spend, None);
}

#[test]
fn questions_come_up_once_their_terminal_is_not_in_front() {
    let views = vec![view("s1", "one", "/a")];
    let terminals = vec![terminal("s1", vec![5])];
    let mut deck = Deck::new();
    assert!(!maybe_surface_asks(&deck, false, &terminals, &vec![]));
    ask(&mut deck, &views, Some("/a"), 0);
    assert!(!maybe_surface_asks(&deck, false, &terminals, &vec![5]));
    assert!(maybe_surface_asks(&deck, false, &terminals, &vec![6]));
    assert!(!maybe_surface_asks(&deck, true, &terminals, &vec![6]));
    ask(&mut deck, &views, None, 1);
    assert!(maybe_surface_asks(&deck, false, &terminals, &vec![5]));
}

#[test]
fn toasts_are_held_back_by_settings_and_focus() {
    let mut settings = Settings::default();
    let terminals = vec![terminal("s1", vec![5])];
    let gate = gate_toast(ToastKind::Idle, "s1", &settings, &terminals, &vec![6]);
    assert!(gate.attempt && gate.last_words);
    assert!(!refund_toast(gate, true));
    assert!(refund_toast(gate, false));
    let front = gate_toast(ToastKind::Idle, "s1", &settings, &terminals, &vec![5]);
    assert!(!front.attempt && !front.last_words);
    assert!(refund_toast(front, true));
    assert!(!gate_toast(ToastKind::Reminder, "s1", &settings, &terminals, &vec![]).attempt);
    let call = gate_toast(ToastKind::Attention, "s2", &settings, &terminals, &vec![5]);
    assert!(call.attempt && !call.last_words);
    settings.notify_attention = false;
    assert!(!gate_toast(ToastKind::Attention, "s2", &settings, &terminals, &vec![5]).attempt);
    assert!(gate_toast(ToastKind::Ask, "s2", &settings, &terminals, &vec![5]).attempt);
}

#[test]
fn last_words_are_one_capped_line() {
    assert_eq!(
        idle_assistant_body("  All\n\n done\u{202E}.\t").as_deref(),
        Some("All done.")
    );
    assert_eq!(idle_assistant_body(" \n\u{202E} "), None);
    let long = idle_assistant_body(&"w ".repeat(100)).unwrap();
    assert_eq!(long.chars().count(), 90);
    assert!(long.ends_with('\u{2026}'));
}

#[test]
fn notifications_have_a_slot_of_their_own() {
    let views = vec![view("s1", "one", "/a")];
    let req = |c: Option<&str>| NotifyRequest {
        message: "done".to_string(),
        context: c.map(ToString::to_string),
    };
    let known = notify_user(&req(Some("/a")), true, &views, 5, 6, false);
    assert_eq!(known.record_id, "ntf-5-6");
    let toast = known.toast.unwrap();
    assert_eq!(toast.session_id, "notify-s1");
    assert_eq!(toast.project, "one");
    assert_eq!(toast.detail, "done");
    assert_eq!(toast.kind, ToastKind::Attention);
    let place = notify_user(&req(Some(" /x/y ")), true, &views, 5, 7, false).toast.unwrap();
    assert_eq!(place.session_id, "notify-/x/y");
    assert_eq!(place.project, "y");
    let agent = notify_user(&req(None), true, &views, 5, 8, false).toast.unwrap();
    assert_eq!(agent.session_id, "notify-agent");
    assert_eq!(agent.project, "Agent");
    let off = notify_user(&req(None), false, &views, 5, 9, false);
    assert_eq!(off.record_id, "ntf-5-9");
    assert!(off.toast.is_none());
}

#[test]
fn transcripts_are_read_when_they_change() {
    let mut seen = Vec::new();
    assert!(transcript_changed(&mut seen, "a", 1));
    assert!(!transcript_changed(&mut seen, "a", 1));
    assert!(transcript_changed(&mut seen, "b", 1));
    assert!(transcript_changed(&mut seen, "a", 2));
    assert_eq!(seen.len(), 2);
    retain_present(&mut seen, &vec!["b".to_string(), "c".to_string()]);
    assert_eq!(seen.len(), 1);
    assert_eq!(seen[0].session_id, "b");
    let entry = |id: &str, path: Option<&str>| SessionTranscript {
        session_id: id.to_string(),
        path: path.map(ToString::to_string),
    };
    let readable = readable_transcripts(&vec![
        entry("a", None),
        entry("b", Some("")),
        entry("c", Some("/t.jsonl")),
    ]);
    assert_eq!(readable.len(), 1);
    assert_eq!((readable[0].session_id.as_str(), readable[0].path.as_str()), ("c", "/t.jsonl"));
}

#[test]
fn settings_have_their_effects() {
    let mut settings = Settings::default();
    settings.apply("launchAtLogin", SettingValue::Bool(true));
    assert_eq!(
        apply_setting_side_effect("launchAtLogin", &settings),
        SideEffect::Autostart { enable: true }
    );
    settings.apply("popupMode", SettingValue::Text("lamp".to_string()));
    assert_eq!(
        apply_setting_side_effect("popupMode", &settings),
        SideEffect::Mode { mode: PopupMode::Lamp }
    );
    assert_eq!(
        apply_setting_side_effect("popupPinned", &settings),
        SideEffect::Pin { pinned: false, force_list: true }
    );
    settings.apply("popupPinned", SettingValue::Bool(true));
    assert_eq!(
        apply_setting_side_effect("popupPinned", &settings),
        SideEffect::Pin { pinned: true, force_list: false }
    );
    assert_eq!(
        apply_setting_side_effect("mcpEnabled", &settings),
        SideEffect::AgentQuestions { enable: false }
    );
    assert_eq!(
        apply_setting_side_effect("takeoverPermissions", &settings),
        SideEffect::Takeover { enable: true }
    );
    assert_eq!(apply_setting_side_effect("showTokenStats", &settings), SideEffect::RefreshUsage);
    assert_eq!(apply_setting_side_effect("notifyIdle", &settings), SideEffect::Nothing);
    assert_eq!(sync_autostart(false, true, false), Some(true));
    assert_eq!(sync_autostart(false, false, true), Some(false));
    assert_eq!(sync_autostart(false, true, true), None);
    assert_eq!(sync_autostart(true, true, false), None);
    assert!(may_register_identity(false, false));
    assert!(!may_register_identity(true, false));
    assert!(may_register_identity(true, true));
}

fn change(changed: bool, backup: Option<&str>, events: Vec<&str>) -> HooksChange {
    HooksChange {
        changed,
        backup: backup.map(ToString::to_string),
        events_added: events.into_iter().map(ToString::to_string).collect(),
        entries_removed: 3,
    }
}

#[test]
fn installing_adds_up() {
    let both = install_hooks_to(
        change(true, None, vec!["Stop", "SessionEnd"]),
        Some(change(true, Some("b"), vec!["PermissionRequest"])),
    );
    assert!(both.changed);
    assert_eq!(both.backup.as_deref(), Some("b"));
    assert_eq!(both.events_added, ["Stop", "SessionEnd", "PermissionRequest"]);
    assert_eq!(both.entries_removed, 0);
    let first = install_hooks_to(change(true, Some("a"), vec![]), Some(change(true, Some("b"), vec![])));
    assert_eq!(first.backup.as_deref(), Some("a"));
    let alone = install_hooks_to(change(true, None, vec!["Stop"]), None);
    assert_eq!(alone.events_added, ["Stop"]);
    let again = install_hooks_to(change(false, None, vec![]), Some(change(false, None, vec!["x"])));
    assert!(!again.changed);
    assert!(again.events_added.is_empty());
}

#[test]
fn what_comes_along_is_looked_for_in_order() {
    let above = vec!["/opt/qd/bin".to_string(), "/".to_string()];
    assert_eq!(
        source_dirs(Platform::Other, Some("/set"), Some("/res"), &above, "hooks"),
        ["/set", "/res/hooks", "/opt/qd/bin/hooks", "/hooks"]
    );
    assert_eq!(source_dirs(Platform::Other, Some(""), None, &above[..1].to_vec(), "hooks"), ["/opt/qd/bin/hooks"]);
    assert!(has_hook_scripts(true, false) && has_hook_scripts(false, true));
    assert!(!has_hook_scripts(false, false));
    assert_eq!(hook_script(Platform::Windows), "quarterdeck-hook.ps1");
    assert_eq!(hook_script(Platform::MacOs), "quarterdeck-hook.sh");
    assert!(hooks_installed(Some("{\"command\":\"x/quarterdeck-hook.sh\"}")));
    assert!(!hooks_installed(Some("{}")));
    assert!(!hooks_installed(None));
    assert_eq!(claude_settings_path(Platform::Other, Some("/home/p/.agent"), ".agent"), "/home/p/.agent/settings.json");
    assert_eq!(claude_settings_path(Platform::Other, None, ".agent"), ".agent/settings.json");
    assert_eq!(
        claude_cli_names(Platform::Windows, "agent"),
        ["agent.exe", "agent.cmd", "agent.bat", "agent"]
    );
    assert_eq!(claude_cli_names(Platform::Other, "agent"), ["agent"]);
}

#[test]
fn rounds_are_due_in_their_time() {
    let mut timers = LoopTimers::started(0);
    let due = timers.poll(999);
    assert!(!due.sweep && !due.tick && !due.foreground);
    let due = timers.poll(1_000);
    assert!(due.sweep && !due.tick && !due.foreground);
    let due = timers.poll(1_999);
    assert!(!due.sweep);
    let due = timers.poll(10_000);
    assert!(due.sweep && due.tick && due.foreground);
    assert_eq!(timers, LoopTimers::started(10_000));
}
