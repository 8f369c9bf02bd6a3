//! What holds of bringing terminals to the front, of the processes in front, and of what is
//! installed.

use crate::focus::{
    build_focus_script, focus_terminal, law_quoted_is_read_back, macos_bundle_id, ps_single_quote,
    read_between_quotes, script_succeeded, Ancestor, FocusPlan, SCRIPT_END, SCRIPT_TO_HANDLE,
    SCRIPT_TO_PROCESS, SCRIPT_TO_TITLE,
};
use crate::foreground::{
    fake_foreground_override, parse_pids, pid_in, sample_foreground_pids, sampled_lines,
    sampled_one,
};
use crate::install::{
    claude_cli_names, claude_settings_path, has_hook_scripts, hook_script, hooks_installed,
    install_hooks_to, source_dirs, HooksChange,
};
use crate::settings::{join_path, Platform};
use crate::text::{
    all_digits, ascii_lowered, before_suffix, decimal, law_decimal_is_read_back, signed_decimal,
    split_on, stands_at, texts, trimmed,
};
use vstd::prelude::*;

verus! {

// ---------------------------------------------------------------------------
// Bringing a terminal to the front.
// ---------------------------------------------------------------------------

/// Between single quotes a quoted text is read as it was, and a text without quotes stands
/// there as it is.
pub proof fn law_quotes_hold_the_text(s: &str, out: String)
    requires
        call_ensures(ps_single_quote, (s,), out),
    ensures
        read_between_quotes(out@) == Some(s@),
        !s@.contains('\'') ==> out@ == s@,
{
    law_quoted_is_read_back(s@);
    if !s@.contains('\'') {
        lemma_nothing_doubled(s@);
    }
}

proof fn lemma_nothing_doubled(s: Seq<char>)
    requires
        !s.contains('\''),
    ensures
        crate::focus::quotes_doubled(s) == s,
    decreases s.len(),
{
    if s.len() > 0 {
        assert(s.contains(s[s.len() - 1]));
        let front = s.drop_last();
        if front.contains('\'') {
            let i = choose|i: int| 0 <= i < front.len() && front[i] == '\'';
            assert(s[i] == '\'');
        }
        lemma_nothing_doubled(front);
        assert(front.push(s.last()) =~= s);
    } else {
        assert(crate::focus::quotes_doubled(s) =~= s);
    }
}

/// The script holds the handle, the process and the title to look for, each in its place.
pub proof fn law_the_script_looks_for_what_is_given(
    hwnd: Option<i64>,
    pid: Option<u32>,
    needle: &str,
    out: String,
    quoted: String,
)
    requires
        call_ensures(build_focus_script, (hwnd, pid, needle), out),
        call_ensures(ps_single_quote, (needle,), quoted),
    ensures
        ({
            let handle = if hwnd is Some {
                signed_decimal(hwnd->Some_0 as int)
            } else {
                signed_decimal(0)
            };
            let process = if pid is Some {
                decimal(pid->Some_0 as nat)
            } else {
                decimal(0)
            };
            out@ == SCRIPT_TO_HANDLE@ + handle + SCRIPT_TO_PROCESS@ + process + SCRIPT_TO_TITLE@
                + quoted@ + SCRIPT_END@
        }),
{
}

/// Whether a terminal goes by `name`, in whichever case, with or without its ending.
pub open spec fn goes_by(program: Seq<char>, name: Seq<char>) -> bool {
    ascii_lowered(trimmed(program)) == name || ascii_lowered(trimmed(program)) == name + ".app"@
}

proof fn lemma_goes_by(program: Seq<char>, name: Seq<char>)
    requires
        before_suffix(name, ".app"@) is None,
    ensures
        goes_by(program, name) == (crate::focus::terminal_name(program) == name),
{
    let lower = ascii_lowered(trimmed(program));
    let long = name + ".app"@;
    assert(long.skip(long.len() - ".app"@.len()) =~= ".app"@);
    assert(long.take(long.len() - ".app"@.len()) =~= name);
    if before_suffix(lower, ".app"@) is Some {
        assert(lower.take(lower.len() - ".app"@.len()) + lower.skip(lower.len() - ".app"@.len())
            =~= lower);
    }
}

proof fn lemma_no_ending(name: Seq<char>)
    requires
        name.len() > 0,
        name.last() != 'p',
    ensures
        before_suffix(name, ".app"@) is None,
{
    reveal_strlit(".app");
    assert(".app"@.len() == 4 && ".app"@[3] == 'p');
    if before_suffix(name, ".app"@) is Some {
        assert(name.skip(name.len() - 4)[3] == name.last());
    }
}

/// A terminal is activated by the id that its program goes by.
pub proof fn law_terminals_have_their_ids(program: &str, out: Option<&'static str>)
    requires
        call_ensures(macos_bundle_id, (program,), out),
    ensures
        goes_by(program@, "apple_terminal"@) || goes_by(program@, "terminal"@) ==> (
        out matches Some(id) && id@ == "com.apple.Terminal"@),
        goes_by(program@, "iterm"@) || goes_by(program@, "iterm2"@) ==> (out matches Some(id) && id@
            == "com.googlecode.iterm2"@),
        goes_by(program@, "vscode"@) || goes_by(program@, "visual studio code"@) || goes_by(
            program@,
            "code"@,
        ) ==> (out matches Some(id) && id@ == "com.microsoft.VSCode"@),
        goes_by(program@, "hyper"@) ==> (out matches Some(id) && id@ == "co.zeit.hyper"@),
        goes_by(program@, "wezterm"@) ==> (out matches Some(id) && id@ == "com.github.wez.wezterm"@),
        goes_by(program@, "kitty"@) ==> (out matches Some(id) && id@ == "net.kovidgoyal.kitty"@),
        goes_by(program@, "alacritty"@) ==> (out matches Some(id) && id@ == "org.alacritty"@),
        out is Some ==> goes_by(program@, "apple_terminal"@) || goes_by(program@, "terminal"@)
            || goes_by(program@, "iterm"@) || goes_by(program@, "iterm2"@) || goes_by(
            program@,
            "vscode"@,
        ) || goes_by(program@, "visual studio code"@) || goes_by(program@, "code"@) || goes_by(
            program@,
            "hyper"@,
        ) || goes_by(program@, "wezterm"@) || goes_by(program@, "kitty"@) || goes_by(
            program@,
            "alacritty"@,
        ) || goes_by(program@, "iterm.app"@),
{
    reveal_strlit("apple_terminal");
    reveal_strlit("terminal");
    reveal_strlit("iterm");
    reveal_strlit("iterm2");
    reveal_strlit("iterm.app");
    reveal_strlit("vscode");
    reveal_strlit("visual studio code");
    reveal_strlit("code");
    reveal_strlit("hyper");
    reveal_strlit("wezterm");
    reveal_strlit("kitty");
    reveal_strlit("alacritty");
    assert("apple_terminal"@.len() == 14 && "apple_terminal"@[13] == 'l');
    assert("terminal"@.len() == 8 && "terminal"@[7] == 'l');
    assert("iterm"@.len() == 5 && "iterm"@[0] == 'i' && "iterm"@[4] == 'm');
    assert("iterm2"@.len() == 6 && "iterm2"@[0] == 'i' && "iterm2"@[5] == '2');
    assert("iterm.app"@.len() == 9 && "iterm.app"@[0] == 'i');
    assert("vscode"@.len() == 6 && "vscode"@[0] == 'v' && "vscode"@[5] == 'e');
    assert("visual studio code"@.len() == 18 && "visual studio code"@[17] == 'e');
    assert("code"@.len() == 4 && "code"@[3] == 'e');
    assert("hyper"@.len() == 5 && "hyper"@[0] == 'h' && "hyper"@[4] == 'r');
    assert("wezterm"@.len() == 7 && "wezterm"@[6] == 'm');
    assert("kitty"@.len() == 5 && "kitty"@[0] == 'k' && "kitty"@[4] == 'y');
    assert("alacritty"@.len() == 9 && "alacritty"@[0] == 'a' && "alacritty"@[8] == 'y');
    lemma_no_ending("apple_terminal"@);
    lemma_no_ending("terminal"@);
    lemma_no_ending("iterm"@);
    lemma_no_ending("iterm2"@);
    lemma_no_ending("vscode"@);
    lemma_no_ending("visual studio code"@);
    lemma_no_ending("code"@);
    lemma_no_ending("hyper"@);
    lemma_no_ending("wezterm"@);
    lemma_no_ending("kitty"@);
    lemma_no_ending("alacritty"@);
    lemma_goes_by(program@, "apple_terminal"@);
    lemma_goes_by(program@, "terminal"@);
    lemma_goes_by(program@, "iterm"@);
    lemma_goes_by(program@, "iterm2"@);
    lemma_goes_by(program@, "vscode"@);
    lemma_goes_by(program@, "visual studio code"@);
    lemma_goes_by(program@, "code"@);
    lemma_goes_by(program@, "hyper"@);
    lemma_goes_by(program@, "wezterm"@);
    lemma_goes_by(program@, "kitty"@);
    lemma_goes_by(program@, "alacritty"@);
    let lower = ascii_lowered(trimmed(program@));
    if crate::focus::terminal_name(program@) == "iterm.app"@ {
        if before_suffix(lower, ".app"@) is Some {
            assert(lower.take(lower.len() - ".app"@.len()) + lower.skip(
                lower.len() - ".app"@.len(),
            ) =~= lower);
        }
    }
}

/// On Windows the script looks for what is known of the terminal's host and for the
/// project; on macOS the host is activated where it has an id; elsewhere, and where it has
/// none, there is nothing to run.
pub proof fn law_a_terminal_is_brought_to_the_front(
    platform: Platform,
    ancestor: &Option<Ancestor>,
    project: &str,
    out: FocusPlan,
    hwnd: Option<i64>,
    pid: Option<u32>,
    script: String,
    program: &str,
    id: Option<&'static str>,
)
    requires
        call_ensures(focus_terminal, (platform, ancestor, project), out),
        call_ensures(build_focus_script, (hwnd, pid, project), script),
        *ancestor matches Some(a) ==> hwnd == a.hwnd && pid == a.pid,
        *ancestor is None ==> hwnd is None && pid is None,
        call_ensures(macos_bundle_id, (program,), id),
    ensures
        platform == Platform::Windows ==> (out matches FocusPlan::PowerShell(s) && s@ == script@),
        platform == Platform::Other ==> out is NotFound,
        platform == Platform::MacOs && *ancestor is None ==> out is NotFound,
        platform == Platform::MacOs ==> (*ancestor matches Some(a) ==> {
            &&& a.exe is None ==> out is NotFound
            &&& a.exe matches Some(exe) ==> exe@ == program@ ==> {
                &&& id is None ==> out is NotFound
                &&& id matches Some(i) ==> (out matches FocusPlan::AppleScript(s) && s@
                    == "tell application id \""@ + i@ + "\" to activate"@)
            }
        }),
{
}

/// The script did what it should exactly where it says so somewhere.
pub proof fn law_the_script_says_ok(stdout: &str, out: bool, before: Seq<char>, behind: Seq<char>)
    requires
        call_ensures(script_succeeded, (stdout,), out),
    ensures
        stdout@ == before + "ok"@ + behind ==> out,
        out ==> exists|i: int|
            0 <= i < stdout@.len() - 1 && #[trigger] stdout@[i] == 'o' && stdout@[i + 1] == 'k',
{
    reveal_strlit("ok");
    assert("ok"@.len() == 2 && "ok"@[0] == 'o' && "ok"@[1] == 'k');
    if stdout@ == before + "ok"@ + behind {
        let i = before.len() as int;
        assert(stdout@.subrange(i, i + 2) =~= "ok"@);
        assert(stands_at(stdout@, "ok"@, i));
    }
    if out {
        let i = choose|i: int| #[trigger] stands_at(stdout@, "ok"@, i);
        assert(stdout@.subrange(i, i + 2)[0] == stdout@[i]);
        assert(stdout@.subrange(i, i + 2)[1] == stdout@[i + 1]);
    }
}

// ---------------------------------------------------------------------------
// The processes in front.
// ---------------------------------------------------------------------------

proof fn lemma_split_both(a: Seq<char>, b: Seq<char>, sep: char)
    ensures
        split_on(a.push(sep) + b, sep) == split_on(a, sep) + split_on(b, sep),
        split_on(b, sep).len() > 0,
    decreases b.len(),
{
    let s = a.push(sep) + b;
    if b.len() == 0 {
        assert(s.drop_last() =~= a);
        assert(split_on(s, sep) =~= split_on(a, sep) + split_on(b, sep));
    } else {
        lemma_split_both(a, b.drop_last(), sep);
        assert(s.drop_last() =~= a.push(sep) + b.drop_last());
        assert(split_on(s, sep) =~= split_on(a, sep) + split_on(b, sep));
    }
}

proof fn lemma_filter_map_both<A, B>(a: Seq<A>, b: Seq<A>, f: spec_fn(A) -> Option<B>)
    ensures
        (a + b).filter_map(f) == a.filter_map(f) + b.filter_map(f),
    decreases b.len(),
{
    let s = a + b;
    if b.len() == 0 {
        assert(s =~= a);
        reveal(Seq::filter_map);
        assert(a.filter_map(f) + b.filter_map(f) =~= a.filter_map(f));
    } else {
        let n = b.len() - 1;
        lemma_filter_map_both(a, b.drop_last(), f);
        b.lemma_filter_map_take_succ(f, n as int);
        s.lemma_filter_map_take_succ(f, (a.len() + n) as int);
        assert(b.take(n as int) =~= b.drop_last());
        assert(b.take(n + 1) =~= b);
        assert(s.take((a.len() + n) as int) =~= a + b.drop_last());
        assert(s.take((a.len() + n) as int + 1) =~= s);
        assert(s.filter_map(f) =~= a.filter_map(f) + b.filter_map(f));
    }
}

/// What stands before a separator and what stands behind it are read apart, and come one
/// after the other.
pub proof fn law_parts_are_read_apart(
    s: &str,
    sep: char,
    out: Vec<u32>,
    a: &str,
    b: &str,
    out_a: Vec<u32>,
    out_b: Vec<u32>,
)
    requires
        call_ensures(parse_pids, (s, sep), out),
        call_ensures(parse_pids, (a, sep), out_a),
        call_ensures(parse_pids, (b, sep), out_b),
        s@ == a@.push(sep) + b@,
    ensures
        out@ == out_a@ + out_b@,
{
    lemma_split_both(a@, b@, sep);
    lemma_filter_map_both(split_on(a@, sep), split_on(b@, sep), |part: Seq<char>| pid_in(part));
}

proof fn lemma_one_part(s: Seq<char>, sep: char)
    requires
        !s.contains(sep),
    ensures
        split_on(s, sep) == seq![s],
    decreases s.len(),
{
    if s.len() > 0 {
        let front = s.drop_last();
        if front.contains(sep) {
            let i = choose|i: int| 0 <= i < front.len() && front[i] == sep;
            assert(s[i] == sep);
        }
        lemma_one_part(front, sep);
        assert(s.contains(s[s.len() - 1]));
        assert(front.push(s.last()) =~= s);
        assert(split_on(s, sep) =~= seq![s]);
    } else {
        assert(s =~= Seq::empty());
        assert(split_on(s, sep) =~= seq![s]);
    }
}

/// A part that is a number, white space around it aside, is that process; a part that holds
/// anything else, or nothing, is none.
pub proof fn law_a_number_is_a_process(s: &str, sep: char, out: Vec<u32>, pid: u32)
    requires
        call_ensures(parse_pids, (s, sep), out),
        !s@.contains(sep),
    ensures
        trimmed(s@) == decimal(pid as nat) ==> out@ == seq![pid],
        trimmed(s@).len() == 0 ==> out@.len() == 0,
        (exists|i: int|
            0 <= i < trimmed(s@).len() && #[trigger] trimmed(s@)[i] != '+' && !('0'
                <= trimmed(s@)[i] <= '9')) ==> out@.len() == 0,
{
    let f = |part: Seq<char>| pid_in(part);
    let t = trimmed(s@);
    lemma_one_part(s@, sep);
    let parts = seq![s@];
    parts.lemma_filter_map_take_succ(f, 0);
    assert(parts.take(1) =~= parts);
    assert(parts.take(0) =~= Seq::empty());
    reveal(Seq::filter_map);
    if t == decimal(pid as nat) {
        law_decimal_is_read_back(pid as nat, u32::MAX as nat);
        assert(out@ =~= seq![pid]);
    }
    if exists|i: int| 0 <= i < t.len() && #[trigger] t[i] != '+' && !('0' <= t[i] <= '9') {
        let i = choose|i: int| 0 <= i < t.len() && #[trigger] t[i] != '+' && !('0' <= t[i] <= '9');
        let digits = crate::text::unsigned_digits(t);
        if t[0] == '+' {
            assert(digits[i - 1] == t[i]);
        }
        assert(!all_digits(digits));
        assert(out@ =~= Seq::empty());
    }
    if t.len() == 0 {
        assert(out@ =~= Seq::empty());
    }
}

/// What the variable sets is in front in place of what was sampled; a sampler prints one
/// process on a line, or one alone.
pub proof fn law_the_variable_goes_first(
    raw: Option<&str>,
    sampled: Vec<u32>,
    out: Vec<u32>,
    set: Option<Vec<u32>>,
    text: &str,
    by_comma: Vec<u32>,
    by_line: Vec<u32>,
    lines: Vec<u32>,
    one: Vec<u32>,
)
    requires
        call_ensures(sample_foreground_pids, (raw, sampled), out),
        call_ensures(fake_foreground_override, (raw,), set),
        call_ensures(parse_pids, (text, ','), by_comma),
        call_ensures(parse_pids, (text, '\n'), by_line),
        call_ensures(sampled_lines, (text,), lines),
        call_ensures(sampled_one, (text,), one),
    ensures
        raw is None ==> out@ == sampled@ && set is None,
        raw matches Some(s) ==> s@ == text@ ==> out@ == by_comma@ && (set matches Some(pids)
            && pids@ == by_comma@),
        lines@ == by_line@,
        !text@.contains('\n') ==> one@ == by_line@,
        one@.len() <= 1,
{
    if !text@.contains('\n') {
        let f = |part: Seq<char>| pid_in(part);
        lemma_one_part(text@, '\n');
        let parts = seq![text@];
        parts.lemma_filter_map_take_succ(f, 0);
        assert(parts.take(1) =~= parts);
        assert(parts.take(0) =~= Seq::empty());
        reveal(Seq::filter_map);
        assert(one@ =~= by_line@);
    }
}

// ---------------------------------------------------------------------------
// What is installed.
// ---------------------------------------------------------------------------

/// Hooks are there where the settings hold their mark, and the scripts where one of them
/// is there; each platform runs its own.
pub proof fn law_hooks_are_known_by_their_mark(
    text: Option<&str>,
    out: bool,
    before: Seq<char>,
    behind: Seq<char>,
    has_ps1: bool,
    has_sh: bool,
    found: bool,
    platform: Platform,
    script: &'static str,
)
    requires
        call_ensures(hooks_installed, (text,), out),
        call_ensures(has_hook_scripts, (has_ps1, has_sh), found),
        call_ensures(hook_script, (platform,), script),
    ensures
        text is None ==> !out,
        text matches Some(t) ==> t@ == before + "quarterdeck"@ + behind ==> out,
        text matches Some(t) ==> out ==> exists|i: int|
            0 <= i && i + 11 <= t@.len() && #[trigger] t@.subrange(i, i + 11) == "quarterdeck"@,
        has_ps1 || has_sh ==> found,
        !has_ps1 && !has_sh ==> !found,
        platform == Platform::Windows ==> script@ == "quarterdeck-hook.ps1"@,
        platform != Platform::Windows ==> script@ == "quarterdeck-hook.sh"@,
{
    reveal_strlit("quarterdeck");
    assert("quarterdeck"@.len() == 11);
    if let Some(t) = text {
        if t@ == before + "quarterdeck"@ + behind {
            let i = before.len() as int;
            assert(t@.subrange(i, i + 11) =~= "quarterdeck"@);
            assert(stands_at(t@, "quarterdeck"@, i));
        }
        if out {
            let i = choose|i: int| #[trigger] stands_at(t@, "quarterdeck"@, i);
            assert(t@.subrange(i, i + 11) == "quarterdeck"@);
        }
    }
}

/// The agent program's settings lie in its directory where that is known, and else in the
/// other; the program is looked for under its name, and on Windows first under that with
/// each of the endings of programs.
pub proof fn law_the_agent_is_looked_for(
    platform: Platform,
    agent_dir: Option<&str>,
    fallback: &str,
    out: String,
    dir: &str,
    name: &str,
    at_name: String,
    cli: &str,
    names: Vec<String>,
)
    requires
        call_ensures(claude_settings_path, (platform, agent_dir, fallback), out),
        call_ensures(join_path, (platform, dir, name), at_name),
        call_ensures(claude_cli_names, (platform, cli), names),
    ensures
        name@ == "settings.json"@ && agent_dir is Some && dir@ == agent_dir->Some_0@ ==> out@
            == at_name@,
        name@ == "settings.json"@ && agent_dir is None && dir@ == fallback@ ==> out@ == at_name@,
        platform == Platform::Windows ==> names@.len() == 4 && names@[0]@ == cli@ + ".exe"@
            && names@[1]@ == cli@ + ".cmd"@ && names@[2]@ == cli@ + ".bat"@ && names@[3]@ == cli@,
        platform != Platform::Windows ==> names@.len() == 1 && names@[0]@ == cli@,
{
    let shown = texts(names@);
    assert(shown.len() == names@.len());
    if platform == Platform::Windows {
        assert(shown[0] == cli@ + ".exe"@ && shown[1] == cli@ + ".cmd"@ && shown[2] == cli@
            + ".bat"@ && shown[3] == cli@);
    } else {
        assert(shown[0] == cli@);
    }
}

/// What comes with the program is looked for in the directory that is set, then among the
/// resources, then in each directory above the program, in their order.
pub proof fn law_sources_are_tried_in_order(
    platform: Platform,
    set: Option<&str>,
    resources: Option<&str>,
    above: &Vec<String>,
    name: &str,
    out: Vec<String>,
    dir: &str,
    at_name: String,
    i: int,
)
    requires
        call_ensures(source_dirs, (platform, set, resources, above, name), out),
        call_ensures(join_path, (platform, dir, name), at_name),
    ensures
        ({
            let first: int = if set is Some && set->Some_0@.len() > 0 {
                1
            } else {
                0
            };
            let second: int = if resources is Some {
                1
            } else {
                0
            };
            &&& out@.len() == first + second + above@.len()
            &&& first == 1 ==> out@[0]@ == set->Some_0@
            &&& second == 1 && dir@ == resources->Some_0@ ==> out@[first]@ == at_name@
            &&& 0 <= i < above@.len() && dir@ == above@[i]@ ==> out@[first + second + i]@
                == at_name@
        }),
{
    let shown = texts(out@);
    assert(shown.len() == out@.len());
    assert(forall|k: int| 0 <= k < out@.len() ==> #[trigger] shown[k] == out@[k]@);
    let first: int = if set is Some && set->Some_0@.len() > 0 {
        1
    } else {
        0
    };
    let second: int = if resources is Some {
        1
    } else {
        0
    };
    if first == 1 {
        assert(shown[0] == set->Some_0@);
    }
    if second == 1 {
        assert(shown[first] == crate::settings::path_in(platform, resources->Some_0@, name@));
    }
    if 0 <= i < above@.len() {
        assert(texts(above@)[i] == above@[i]@);
        assert(shown[first + second + i] == crate::settings::path_in(
            platform,
            above@[i]@,
            name@,
        ));
    }
}

/// What was changed in all is what either step changed: the events of both, the first copy
/// that was made; and what the second step left alone is what the first changed.
pub proof fn law_both_steps_are_told(
    change: HooksChange,
    perm: Option<HooksChange>,
    out: HooksChange,
)
    requires
        call_ensures(install_hooks_to, (change, perm), out),
    ensures
        perm is None ==> out == change,
        perm matches Some(p) ==> !p.changed ==> out == change,
        perm matches Some(p) ==> p.changed ==> {
            &&& out.changed
            &&& out.events_added@ == change.events_added@ + p.events_added@
            &&& change.backup is Some ==> out.backup == change.backup
            &&& change.backup is None ==> out.backup == p.backup
            &&& out.entries_removed == 0
        },
{
}

} // verus!
