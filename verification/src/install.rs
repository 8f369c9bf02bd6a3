//! Installing the hooks and the skill: where they come from and what changed.

use crate::settings::{join_path, path_in, Platform};
use crate::text::{contains_text, holds, joined, optional_str, texts};
use vstd::prelude::*;

verus! {

/// The word that marks the hooks of this program.
pub const MARKER: &'static str = "quarterdeck";

/// The hook's script for PowerShell.
pub const HOOK_PS1: &'static str = "quarterdeck-hook.ps1";

/// The hook's script for other shells.
pub const HOOK_SH: &'static str = "quarterdeck-hook.sh";

/// The script that the hooks run.
pub fn hook_script(platform: Platform) -> (out: &'static str)
    ensures
        out@ == if platform == Platform::Windows {
            HOOK_PS1@
        } else {
            HOOK_SH@
        },
{
    match platform {
        Platform::Windows => HOOK_PS1,
        _ => HOOK_SH,
    }
}

/// Whether a directory with these files holds the hook's scripts: one is enough.
pub fn has_hook_scripts(has_ps1: bool, has_sh: bool) -> (out: bool)
    ensures
        out == (has_ps1 || has_sh),
{
    has_ps1 || has_sh
}

/// Whether the hooks are installed: whether the settings that are there, if any,
/// hold the mark.
pub fn hooks_installed(settings_text: Option<&str>) -> (out: bool)
    ensures
        out == (settings_text matches Some(t) && holds(t@, MARKER@)),
{
    match settings_text {
        Some(t) => contains_text(t, MARKER),
        None => false,
    }
}

/// The agent program's settings file: in its directory, or in `fallback` where that
/// directory is not known.
pub fn claude_settings_path(platform: Platform, agent_dir: Option<&str>, fallback: &str) -> (out:
    String)
    ensures
        out@ == path_in(
            platform,
            match optional_str(agent_dir) {
                Some(dir) => dir,
                None => fallback@,
            },
            "settings.json"@,
        ),
{
    match agent_dir {
        Some(dir) => join_path(platform, dir, "settings.json"),
        None => join_path(platform, fallback, "settings.json"),
    }
}

/// The names of the files in which the program `cli` may be found.
pub open spec fn cli_names(platform: Platform, cli: Seq<char>) -> Seq<Seq<char>> {
    if platform == Platform::Windows {
        seq![cli + ".exe"@, cli + ".cmd"@, cli + ".bat"@, cli]
    } else {
        seq![cli]
    }
}

/// The names of the files in which the program `cli` may be found, in the order in
/// which they are tried.
pub fn claude_cli_names(platform: Platform, cli: &str) -> (out: Vec<String>)
    ensures
        texts(out@) == cli_names(platform, cli@),
{
    let mut out: Vec<String> = Vec::new();
    if platform == Platform::Windows {
        out.push(joined(cli, ".exe"));
        out.push(joined(cli, ".cmd"));
        out.push(joined(cli, ".bat"));
    }
    out.push(cli.to_owned());
    proof {
        assert(texts(out@) =~= cli_names(platform, cli@));
    }
    out
}

/// The directories in which something that comes with the program is looked for,
/// in this order: the one that is set, the one among the program's resources, and
/// those beside the program and above it.
pub open spec fn sources(
    platform: Platform,
    set: Option<Seq<char>>,
    resources: Option<Seq<char>>,
    above: Seq<Seq<char>>,
    name: Seq<char>,
) -> Seq<Seq<char>> {
    let first = match set {
        Some(dir) => if dir.len() == 0 {
            Seq::empty()
        } else {
            seq![dir]
        },
        None => Seq::empty(),
    };
    let second = match resources {
        Some(dir) => seq![path_in(platform, dir, name)],
        None => Seq::empty(),
    };
    first + second + Seq::new(above.len(), |i: int| path_in(platform, above[i], name))
}

/// The directories in which something that comes with the program is looked for,
/// in this order.
pub fn source_dirs(
    platform: Platform,
    set: Option<&str>,
    resources: Option<&str>,
    above: &Vec<String>,
    name: &str,
) -> (out: Vec<String>)
    ensures
        texts(out@) == sources(
            platform,
            optional_str(set),
            optional_str(resources),
            texts(above@),
            name@,
        ),
{
    let mut out: Vec<String> = Vec::new();
    if let Some(dir) = set {
        if !dir.is_empty() {
            out.push(dir.to_owned());
        }
    }
    if let Some(dir) = resources {
        out.push(join_path(platform, dir, name));
    }
    let ghost before = texts(out@);
    let ghost rest = Seq::new(above@.len(), |i: int| path_in(platform, texts(above@)[i], name@));
    proof {
        assert(before + rest =~= sources(
            platform,
            optional_str(set),
            optional_str(resources),
            texts(above@),
            name@,
        ));
        assert(before + rest.take(0) =~= before);
    }
    let mut i: usize = 0;
    while i < above.len()
        invariant
            i <= above@.len(),
            rest == Seq::new(above@.len(), |k: int| path_in(platform, texts(above@)[k], name@)),
            texts(out@) == before + rest.take(i as int),
        decreases above.len() - i,
    {
        let ghost shown = texts(out@);
        let dir = join_path(platform, above[i].as_str(), name);
        out.push(dir);
        proof {
            assert(texts(out@) =~= shown.push(dir@));
            assert(before + rest.take(i + 1) =~= (before + rest.take(i as int)).push(
                rest[i as int],
            ));
        }
        i = i + 1;
    }
    proof {
        assert(rest.take(rest.len() as int) =~= rest);
    }
    out
}

/// What installing hooks changed.
#[derive(Clone, Debug)]
pub struct HooksChange {
    pub changed: bool,
    /// The copy that was made of the file before.
    pub backup: Option<String>,
    pub events_added: Vec<String>,
    pub entries_removed: u64,
}

/// Whether `out` is what was changed in all: both changes, where the second is
/// one.
pub open spec fn installed(
    change: HooksChange,
    perm_change: Option<HooksChange>,
    out: HooksChange,
) -> bool {
    match perm_change {
        Some(perm) => if perm.changed {
            &&& out.changed
            &&& out.backup == if change.backup is Some {
                change.backup
            } else {
                perm.backup
            }
            &&& out.events_added@ == change.events_added@ + perm.events_added@
            &&& out.entries_removed == 0
        } else {
            out == change
        },
        None => out == change,
    }
}

/// What installing the hooks changed in all, when `perm_change` is what adding
/// the one for permission requests changed, where that was done.
pub fn install_hooks_to(change: HooksChange, perm_change: Option<HooksChange>) -> (out: HooksChange)
    ensures
        installed(change, perm_change, out),
        out.changed == (change.changed || (perm_change matches Some(perm) && perm.changed)),
{
    match perm_change {
        Some(perm) => {
            if !perm.changed {
                return change;
            }
            let mut events_added = change.events_added;
            let mut more = perm.events_added;
            events_added.append(&mut more);
            HooksChange {
                changed: true,
                backup: if change.backup.is_some() {
                    change.backup
                } else {
                    perm.backup
                },
                events_added,
                entries_removed: 0,
            }
        },
        None => change,
    }
}

/// Installing anew what is installed changes nothing.
pub proof fn law_unchanged_stays_unchanged(change: HooksChange, perm: HooksChange)
    requires
        !change.changed,
        !perm.changed,
    ensures
        installed(change, Some(perm), change),
{
}

} // verus!
