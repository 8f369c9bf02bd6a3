use quarterdeck::focus::{
    build_focus_script, focus_terminal, macos_bundle_id, ps_single_quote, script_succeeded,
    Ancestor, FocusPlan,
};
use quarterdeck::foreground::{
    fake_foreground_override, sample_foreground_pids, sampled_lines, sampled_one,
    session_is_foreground,
};
use quarterdeck::settings::Platform;

#[test]
fn script_embeds_handle_pid_and_escaped_needle() {
    let s = build_focus_script(Some(197486), Some(12960), "my'proj");
    assert!(s.contains("SetForegroundWindow"));
    assert!(s.contains("GetWindowThreadProcessId"));
    assert!(s.contains("GetForegroundWindow"));
    assert!(s.contains("AttachThreadInput"));
    assert!(s.contains("BringWindowToTop"));
    assert!(s.contains("keybd_event"));
    assert!(s.contains("[IntPtr]197486"));
    assert!(s.contains("[uint32]12960"));
    assert!(s.contains("$needle = 'my''proj'"));
}

#[test]
fn script_defaults_zero_when_no_ancestor() {
    let s = build_focus_script(None, None, "proj");
    assert!(s.contains("[IntPtr]0"));
    assert!(s.contains("[uint32]0"));
}

#[test]
fn script_is_written_out_whole() {
    let s = build_focus_script(Some(-5), None, "p");
    assert!(s.starts_with("$ErrorActionPreference = 'Stop'\n$sig = @'\nusing System;\n"));
    assert!(s.contains("public static class QdFocus {\n"));
    assert!(s.contains("$target = [IntPtr]-5\n$expectPid = [uint32]0\n$needle = 'p'\n"));
    assert!(s.contains("if (Focus-Hwnd $target) { Write-Output 'ok'; exit 0 }"));
    assert!(s.ends_with("Write-Output 'notfound'\nexit 0\n"));
    assert!(!s.contains("{{"));
    assert!(!s.contains("{hwnd}"));
}

#[test]
fn bundle_id_mapping() {
    assert_eq!(macos_bundle_id("Apple_Terminal"), Some("com.apple.Terminal"));
    assert_eq!(macos_bundle_id("iTerm.app"), Some("com.googlecode.iterm2"));
    assert_eq!(macos_bundle_id("vscode"), Some("com.microsoft.VSCode"));
    assert_eq!(macos_bundle_id("WezTerm"), Some("com.github.wez.wezterm"));
    assert_eq!(macos_bundle_id("unknown-term"), None);
    assert_eq!(macos_bundle_id(""), None);
}

#[test]
fn every_known_terminal_is_found() {
    assert_eq!(macos_bundle_id(" Terminal "), Some("com.apple.Terminal"));
    assert_eq!(macos_bundle_id("iterm2"), Some("com.googlecode.iterm2"));
    assert_eq!(macos_bundle_id("Visual Studio Code.app"), Some("com.microsoft.VSCode"));
    assert_eq!(macos_bundle_id("CODE"), Some("com.microsoft.VSCode"));
    assert_eq!(macos_bundle_id("Hyper"), Some("co.zeit.hyper"));
    assert_eq!(macos_bundle_id("kitty"), Some("net.kovidgoyal.kitty"));
    assert_eq!(macos_bundle_id("Alacritty.app"), Some("org.alacritty"));
    assert_eq!(macos_bundle_id("iterm.app.app"), Some("com.googlecode.iterm2"));
}

#[test]
fn quotes_are_doubled_and_nothing_else() {
    assert_eq!(ps_single_quote("a'b''c\"d"), "a''b''''c\"d");
    assert_eq!(ps_single_quote(""), "");
    assert_eq!(ps_single_quote("'"), "''");
}

#[test]
fn focus_plan_depends_on_the_platform() {
    let host = Some(Ancestor {
        pid: Some(7),
        hwnd: Some(42),
        exe: Some("iTerm.app".to_string()),
    });
    match focus_terminal(Platform::Windows, &host, "repo") {
        FocusPlan::PowerShell(script) => {
            assert_eq!(script, build_focus_script(Some(42), Some(7), "repo"))
        }
        _ => panic!("a script for PowerShell"),
    }
    match focus_terminal(Platform::MacOs, &host, "repo") {
        FocusPlan::AppleScript(script) => {
            assert_eq!(script, "tell application id \"com.googlecode.iterm2\" to activate")
        }
        _ => panic!("a script for osascript"),
    }
    assert!(matches!(focus_terminal(Platform::Other, &host, "repo"), FocusPlan::NotFound));
    assert!(matches!(focus_terminal(Platform::MacOs, &None, "repo"), FocusPlan::NotFound));
}

#[test]
fn script_output_tells_success() {
    assert!(script_succeeded("ok\r\n"));
    assert!(!script_succeeded("notfound\r\n"));
    assert!(!script_succeeded(""));
    assert!(!script_succeeded("o k"));
}

#[test]
fn session_is_foreground_is_pid_intersection() {
    assert!(session_is_foreground(&[100, 200], &[50, 200, 9]));
    assert!(!session_is_foreground(&[100, 200], &[50, 9]));
    assert!(!session_is_foreground(&[], &[100]));
    assert!(!session_is_foreground(&[100], &[]));
}

#[test]
fn fake_override_parses_pid_list() {
    let pids = fake_foreground_override(Some("111, 222,notanumber, 333")).unwrap();
    assert_eq!(pids, vec![111, 222, 333]);
    assert_eq!(fake_foreground_override(Some("")), Some(Vec::new()));
    assert!(fake_foreground_override(None).is_none());
}

#[test]
fn the_variable_wins_over_the_sample() {
    assert_eq!(sample_foreground_pids(Some("1,2"), vec![9]), vec![1, 2]);
    assert_eq!(sample_foreground_pids(Some(""), vec![9]), Vec::<u32>::new());
    assert_eq!(sample_foreground_pids(None, vec![9]), vec![9]);
}

#[test]
fn samples_are_read_line_by_line() {
    assert_eq!(sampled_lines("12\r\n 34 \nfoo\n4294967296\n+5\n"), vec![12, 34, 5]);
    assert_eq!(sampled_one(" 77\n"), vec![77]);
    assert_eq!(sampled_one("none"), Vec::<u32>::new());
}
