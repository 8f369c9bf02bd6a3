//! Bringing the terminal window of a session to the front.

use crate::settings::Platform;
use crate::text::{
    ascii_lower, ascii_lowered, before_suffix, chars_of, contains_text, decimal, decimal_text,
    holds, joined, same_text, signed_decimal, signed_decimal_text, string_of, strip_suffix, trim,
    trimmed,
};
use vstd::prelude::*;
use vstd::string::*;

verus! {

/// What the user is told where no window could be brought to the front.
pub const NOT_FOUND_MSG: &'static str = "Couldn't find the terminal window";

/// The script up to the window handle.
pub const SCRIPT_TO_HANDLE: &'static str = r#"$ErrorActionPreference = 'Stop'
$sig = @'
using System;
using System.Text;
using System.Runtime.InteropServices;
public static class QdFocus {
  [DllImport("user32.dll")] public static extern bool IsWindow(IntPtr h);
  [DllImport("user32.dll")] public static extern bool IsWindowVisible(IntPtr h);
  [DllImport("user32.dll")] public static extern bool SetForegroundWindow(IntPtr h);
  [DllImport("user32.dll")] public static extern bool BringWindowToTop(IntPtr h);
  [DllImport("user32.dll")] public static extern IntPtr GetForegroundWindow();
  [DllImport("user32.dll")] public static extern bool AttachThreadInput(uint idAttach, uint idAttachTo, bool fAttach);
  [DllImport("user32.dll")] public static extern void keybd_event(byte vk, byte scan, uint flags, UIntPtr extra);
  [DllImport("user32.dll")] public static extern bool ShowWindow(IntPtr h, int n);
  [DllImport("user32.dll")] public static extern uint GetWindowThreadProcessId(IntPtr h, out uint pid);
  [DllImport("user32.dll")] public static extern int GetWindowTextLength(IntPtr h);
  [DllImport("user32.dll")] public static extern int GetWindowText(IntPtr h, StringBuilder s, int n);
  [DllImport("user32.dll")] public static extern bool EnumWindows(EnumProc cb, IntPtr p);
  public delegate bool EnumProc(IntPtr h, IntPtr p);
  public static string Title(IntPtr h) {
    int len = GetWindowTextLength(h);
    if (len <= 0) return "";
    StringBuilder sb = new StringBuilder(len + 1);
    GetWindowText(h, sb, sb.Capacity);
    return sb.ToString();
  }
}
'@
Add-Type -TypeDefinition $sig -ErrorAction Stop | Out-Null

$SW_RESTORE = 9
$target = [IntPtr]"#;

/// The script between the window handle and the process id.
pub const SCRIPT_TO_PROCESS: &'static str = r#"
$expectPid = [uint32]"#;

/// The script between the process id and the title to look for.
pub const SCRIPT_TO_TITLE: &'static str = r#"
$needle = '"#;

/// The script behind the title to look for.
pub const SCRIPT_END: &'static str = r#"'

function Focus-Hwnd($h) {
  # Foreground-unlock: Windows only lets the current foreground thread call
  # SetForegroundWindow, so briefly attach our input queue to it (via the
  # foreground window's thread) and keep the ALT keydown/up as a fallback nudge.
  $fg = [QdFocus]::GetForegroundWindow()
  $curThread = [uint32]0
  if ($fg -ne [IntPtr]::Zero) {
    $fgpid = [uint32]0
    $curThread = [QdFocus]::GetWindowThreadProcessId($fg, [ref]$fgpid)
  }
  $tpid = [uint32]0
  $targetThread = [QdFocus]::GetWindowThreadProcessId($h, [ref]$tpid)
  $attached = $false
  if ($curThread -ne 0 -and $targetThread -ne 0 -and $curThread -ne $targetThread) {
    $attached = [QdFocus]::AttachThreadInput($curThread, $targetThread, $true)
  }
  # ALT keydown/up fallback around the call (0x12 = VK_MENU, 0x2 = KEYEVENTF_KEYUP).
  [QdFocus]::keybd_event(0x12, 0, 0, [UIntPtr]::Zero)
  [QdFocus]::ShowWindow($h, $SW_RESTORE) | Out-Null
  [QdFocus]::BringWindowToTop($h) | Out-Null
  $ok = [QdFocus]::SetForegroundWindow($h)
  [QdFocus]::keybd_event(0x12, 0, 0x2, [UIntPtr]::Zero)
  if ($attached) {
    [QdFocus]::AttachThreadInput($curThread, $targetThread, $false) | Out-Null
  }
  return $ok
}

# 1) Validate the captured HWND still belongs to the expected pid, then focus it.
if ($target -ne [IntPtr]::Zero -and [QdFocus]::IsWindow($target)) {
  $owner = [uint32]0
  [QdFocus]::GetWindowThreadProcessId($target, [ref]$owner) | Out-Null
  if ($expectPid -eq 0 -or $owner -eq $expectPid) {
    if (Focus-Hwnd $target) { Write-Output 'ok'; exit 0 }
  }
}

# 2) Fallback: first visible top-level window whose title contains the project.
if ($needle.Length -gt 0) {
  $found = [IntPtr]::Zero
  $cb = [QdFocus+EnumProc]{
    param($h, $p)
    if ($found -ne [IntPtr]::Zero) { return $true }
    if (-not [QdFocus]::IsWindowVisible($h)) { return $true }
    $t = [QdFocus]::Title($h)
    if ($t -and $t.ToLowerInvariant().Contains($needle.ToLowerInvariant())) {
      $script:found = $h
      return $false
    }
    return $true
  }
  [QdFocus]::EnumWindows($cb, [IntPtr]::Zero) | Out-Null
  if ($found -ne [IntPtr]::Zero) {
    if (Focus-Hwnd $found) { Write-Output 'ok'; exit 0 }
  }
}

Write-Output 'notfound'
exit 0
"#;

/// The program that hosts a session's terminal, as far as it is known.
#[derive(Clone, Debug)]
pub struct Ancestor {
    pub pid: Option<u32>,
    /// Handle of its window.
    pub hwnd: Option<i64>,
    /// Name of the program.
    pub exe: Option<String>,
}

/// `s` with each single quote doubled.
pub open spec fn quotes_doubled(s: Seq<char>) -> Seq<char>
    decreases s.len(),
{
    if s.len() == 0 {
        Seq::empty()
    } else if s.last() == '\'' {
        quotes_doubled(s.drop_last()).push('\'').push('\'')
    } else {
        quotes_doubled(s.drop_last()).push(s.last())
    }
}

/// `s` in the form in which it stands between single quotes: each single quote
/// in it doubled.
pub fn ps_single_quote(s: &str) -> (out: String)
    ensures
        out@ == quotes_doubled(s@),
{
    let chars = chars_of(s);
    let mut out: Vec<char> = Vec::new();
    let mut i: usize = 0;
    while i < chars.len()
        invariant
            i <= chars@.len(),
            chars@ == s@,
            out@ == quotes_doubled(s@.take(i as int)),
        decreases chars.len() - i,
    {
        proof {
            assert(s@.take(i + 1).drop_last() =~= s@.take(i as int));
        }
        out.push(chars[i]);
        if chars[i] == '\'' {
            out.push('\'');
        }
        i = i + 1;
    }
    proof {
        assert(s@.take(s@.len() as int) =~= s@);
    }
    string_of(&out)
}

/// The script that brings a window to the front: the one with this handle, if it
/// belongs to this process, or else the first whose title holds `needle`.
pub open spec fn focus_script(hwnd: int, pid: nat, needle: Seq<char>) -> Seq<char> {
    SCRIPT_TO_HANDLE@ + signed_decimal(hwnd) + SCRIPT_TO_PROCESS@ + decimal(pid) + SCRIPT_TO_TITLE@
        + quotes_doubled(needle) + SCRIPT_END@
}

/// The script that brings a window to the front. An unknown handle or process
/// counts as 0.
pub fn build_focus_script(hwnd: Option<i64>, pid: Option<u32>, needle: &str) -> (out: String)
    ensures
        out@ == focus_script(
            match hwnd {
                Some(h) => h as int,
                None => 0,
            },
            match pid {
                Some(p) => p as nat,
                None => 0,
            },
            needle@,
        ),
{
    let handle: i64 = match hwnd {
        Some(h) => h,
        None => 0,
    };
    let process: u64 = match pid {
        Some(p) => p as u64,
        None => 0,
    };
    let mut out = joined(SCRIPT_TO_HANDLE, signed_decimal_text(handle).as_str());
    out.append(SCRIPT_TO_PROCESS);
    out.append(decimal_text(process).as_str());
    out.append(SCRIPT_TO_TITLE);
    out.append(ps_single_quote(needle).as_str());
    out.append(SCRIPT_END);
    out
}

/// The name of a terminal program as it is looked up: trimmed, in lower case,
/// and without `.app` at the end.
pub open spec fn terminal_name(term_program: Seq<char>) -> Seq<char> {
    let name = ascii_lowered(trimmed(term_program));
    match before_suffix(name, ".app"@) {
        Some(stem) => stem,
        None => name,
    }
}

/// The bundle id of a terminal program, where it is known.
pub open spec fn bundle_id(term_program: Seq<char>) -> Option<Seq<char>> {
    let name = terminal_name(term_program);
    if name == "apple_terminal"@ || name == "terminal"@ {
        Some("com.apple.Terminal"@)
    } else if name == "iterm"@ || name == "iterm2"@ || name == "iterm.app"@ {
        Some("com.googlecode.iterm2"@)
    } else if name == "vscode"@ || name == "visual studio code"@ || name == "code"@ {
        Some("com.microsoft.VSCode"@)
    } else if name == "hyper"@ {
        Some("co.zeit.hyper"@)
    } else if name == "wezterm"@ {
        Some("com.github.wez.wezterm"@)
    } else if name == "kitty"@ {
        Some("net.kovidgoyal.kitty"@)
    } else if name == "alacritty"@ {
        Some("org.alacritty"@)
    } else {
        None
    }
}

/// The bundle id of a terminal program, where it is known.
pub fn macos_bundle_id(term_program: &str) -> (out: Option<&'static str>)
    ensures
        match out {
            Some(id) => bundle_id(term_program@) == Some(id@),
            None => bundle_id(term_program@) is None,
        },
{
    let lower = ascii_lower(trim(term_program).as_str());
    let name: String = match strip_suffix(lower.as_str(), ".app") {
        Some(stem) => stem,
        None => lower,
    };
    let t = name.as_str();
    if same_text(t, "apple_terminal") || same_text(t, "terminal") {
        Some("com.apple.Terminal")
    } else if same_text(t, "iterm") || same_text(t, "iterm2") || same_text(t, "iterm.app") {
        Some("com.googlecode.iterm2")
    } else if same_text(t, "vscode") || same_text(t, "visual studio code") || same_text(t, "code") {
        Some("com.microsoft.VSCode")
    } else if same_text(t, "hyper") {
        Some("co.zeit.hyper")
    } else if same_text(t, "wezterm") {
        Some("com.github.wez.wezterm")
    } else if same_text(t, "kitty") {
        Some("net.kovidgoyal.kitty")
    } else if same_text(t, "alacritty") {
        Some("org.alacritty")
    } else {
        None
    }
}

/// What to run to bring a session's terminal to the front.
pub enum FocusPlan {
    /// A script for PowerShell.
    PowerShell(String),
    /// A script for `osascript`.
    AppleScript(String),
    /// Nothing: there is no window to look for.
    NotFound,
}

/// What a [`FocusPlan`] says.
pub ghost enum FocusPlanView {
    PowerShell(Seq<char>),
    AppleScript(Seq<char>),
    NotFound,
}

impl View for FocusPlan {
    type V = FocusPlanView;

    open spec fn view(&self) -> FocusPlanView {
        match *self {
            FocusPlan::PowerShell(s) => FocusPlanView::PowerShell(s@),
            FocusPlan::AppleScript(s) => FocusPlanView::AppleScript(s@),
            FocusPlan::NotFound => FocusPlanView::NotFound,
        }
    }
}

/// The program that hosts the terminal, where it is known.
pub open spec fn host_program(ancestor: Option<Ancestor>) -> Option<Seq<char>> {
    match ancestor {
        Some(a) => match a.exe {
            Some(exe) => Some(exe@),
            None => None,
        },
        None => None,
    }
}

/// What to run to bring a session's terminal to the front.
pub open spec fn focus_plan(
    platform: Platform,
    ancestor: Option<Ancestor>,
    project: Seq<char>,
) -> FocusPlanView {
    match platform {
        Platform::Windows => FocusPlanView::PowerShell(
            focus_script(
                match ancestor {
                    Some(a) => match a.hwnd {
                        Some(h) => h as int,
                        None => 0,
                    },
                    None => 0,
                },
                match ancestor {
                    Some(a) => match a.pid {
                        Some(p) => p as nat,
                        None => 0,
                    },
                    None => 0,
                },
                project,
            ),
        ),
        Platform::MacOs => match host_program(ancestor) {
            Some(exe) => match bundle_id(exe) {
                Some(id) => FocusPlanView::AppleScript(
                    "tell application id \""@ + id + "\" to activate"@,
                ),
                None => FocusPlanView::NotFound,
            },
            None => FocusPlanView::NotFound,
        },
        Platform::Other => FocusPlanView::NotFound,
    }
}

/// What to run to bring a session's terminal to the front.
pub fn focus_terminal(platform: Platform, ancestor: &Option<Ancestor>, project: &str) -> (out:
    FocusPlan)
    ensures
        out@ == focus_plan(platform, *ancestor, project@),
{
    match platform {
        Platform::Windows => {
            let (hwnd, pid): (Option<i64>, Option<u32>) = match ancestor {
                Some(a) => (a.hwnd, a.pid),
                None => (None, None),
            };
            FocusPlan::PowerShell(build_focus_script(hwnd, pid, project))
        },
        Platform::MacOs => match ancestor {
            Some(a) => match &a.exe {
                Some(exe) => match macos_bundle_id(exe.as_str()) {
                    Some(id) => {
                        let mut script = joined("tell application id \"", id);
                        script.append("\" to activate");
                        FocusPlan::AppleScript(script)
                    },
                    None => FocusPlan::NotFound,
                },
                None => FocusPlan::NotFound,
            },
            None => FocusPlan::NotFound,
        },
        Platform::Other => FocusPlan::NotFound,
    }
}

/// Whether the script said that it brought a window to the front.
pub fn script_succeeded(stdout: &str) -> (out: bool)
    ensures
        out == holds(stdout@, "ok"@),
{
    contains_text(stdout, "ok")
}

// ---------------------------------------------------------------------------
// Laws.
// ---------------------------------------------------------------------------

/// What is read between single quotes, where a doubled quote stands for one:
/// nothing where a single one ends the text early.
pub open spec fn read_between_quotes(s: Seq<char>) -> Option<Seq<char>>
    decreases s.len(),
{
    if s.len() == 0 {
        Some(Seq::empty())
    } else if s[0] != '\'' {
        match read_between_quotes(s.skip(1)) {
            Some(rest) => Some(seq![s[0]] + rest),
            None => None,
        }
    } else if s.len() >= 2 && s[1] == '\'' {
        match read_between_quotes(s.skip(2)) {
            Some(rest) => Some(seq!['\''] + rest),
            None => None,
        }
    } else {
        None
    }
}

proof fn lemma_read_both(a: Seq<char>, b: Seq<char>)
    requires
        read_between_quotes(a) is Some,
        read_between_quotes(b) is Some,
    ensures
        read_between_quotes(a + b) == Some(
            read_between_quotes(a)->Some_0 + read_between_quotes(b)->Some_0,
        ),
    decreases a.len(),
{
    let whole = read_between_quotes(b)->Some_0;
    if a.len() == 0 {
        assert(a + b =~= b);
        assert(Seq::<char>::empty() + whole =~= whole);
    } else {
        let n: int = if a[0] != '\'' {
            1
        } else {
            2
        };
        lemma_read_both(a.skip(n), b);
        assert((a + b).skip(n) =~= a.skip(n) + b);
        let rest = read_between_quotes(a.skip(n))->Some_0;
        assert(seq![a[0]] + (rest + whole) =~= (seq![a[0]] + rest) + whole);
    }
}

/// What is quoted is read back as it was: nothing in it can end the quotes.
pub proof fn law_quoted_is_read_back(s: Seq<char>)
    ensures
        read_between_quotes(quotes_doubled(s)) == Some(s),
    decreases s.len(),
{
    if s.len() > 0 {
        let front = quotes_doubled(s.drop_last());
        let last = s.last();
        law_quoted_is_read_back(s.drop_last());
        let tail: Seq<char> = if last == '\'' {
            seq!['\'', '\'']
        } else {
            seq![last]
        };
        assert(quotes_doubled(s) =~= front + tail);
        assert(read_between_quotes(tail) == Some(seq![last])) by {
            reveal_with_fuel(read_between_quotes, 3);
            if last == '\'' {
                assert(tail.skip(2) =~= Seq::<char>::empty());
            } else {
                assert(tail.skip(1) =~= Seq::<char>::empty());
            }
            assert(seq![last] + Seq::<char>::empty() =~= seq![last]);
        }
        lemma_read_both(front, tail);
        assert(s.drop_last() + seq![last] =~= s);
    }
}

} // verus!
