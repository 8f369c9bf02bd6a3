//! Whether the window that the user looks at is a session's terminal.

use crate::text::{parse_u32, parsed_unsigned, split, split_on, texts, trim, trimmed};
use vstd::prelude::*;

verus! {

/// The variable that sets which processes count as being in front.
pub const FAKE_FOREGROUND_ENV: &'static str = "QUARTERDECK_FAKE_FOREGROUND";

/// Whether the two lists have a process in common.
pub open spec fn in_front(terminal_pids: Seq<u32>, foreground_chain: Seq<u32>) -> bool {
    exists|i: int|
        0 <= i < terminal_pids.len() && foreground_chain.contains(#[trigger] terminal_pids[i])
}

/// Whether a session's terminal is in front: whether one of its processes is
/// among those of the window that is.
pub fn session_is_foreground(terminal_pids: &[u32], foreground_chain: &[u32]) -> (out: bool)
    ensures
        out == in_front(terminal_pids@, foreground_chain@),
{
    let mut i: usize = 0;
    while i < terminal_pids.len()
        invariant
            i <= terminal_pids@.len(),
            forall|k: int|
                0 <= k < i ==> !foreground_chain@.contains(#[trigger] terminal_pids@[k]),
        decreases terminal_pids.len() - i,
    {
        let pid: u32 = terminal_pids[i];
        let mut j: usize = 0;
        while j < foreground_chain.len()
            invariant
                i < terminal_pids@.len(),
                pid == terminal_pids@[i as int],
                j <= foreground_chain@.len(),
                forall|k: int| 0 <= k < j ==> foreground_chain@[k] != pid,
            decreases foreground_chain.len() - j,
        {
            if foreground_chain[j] == pid {
                proof {
                    assert(foreground_chain@.contains(terminal_pids@[i as int]));
                }
                return true;
            }
            j = j + 1;
        }
        i = i + 1;
    }
    false
}

/// The process id that a piece of text holds, where it holds one.
pub open spec fn pid_in(part: Seq<char>) -> Option<u32> {
    match parsed_unsigned(trimmed(part), u32::MAX as nat) {
        Some(n) => Some(n as u32),
        None => None,
    }
}

/// The process ids in `s`, between its occurrences of `sep`; a part that is no
/// number is left out.
pub open spec fn pids_in(s: Seq<char>, sep: char) -> Seq<u32> {
    split_on(s, sep).filter_map(|part: Seq<char>| pid_in(part))
}

/// The process ids in `s`, between its occurrences of `sep`.
pub fn parse_pids(s: &str, sep: char) -> (out: Vec<u32>)
    ensures
        out@ == pids_in(s@, sep),
{
    let parts = split(s, sep);
    let ghost all = split_on(s@, sep);
    let ghost f = |part: Seq<char>| pid_in(part);
    let mut out: Vec<u32> = Vec::new();
    let mut i: usize = 0;
    proof {
        assert(out@ =~= all.take(0).filter_map(f));
    }
    while i < parts.len()
        invariant
            i <= parts@.len(),
            all == texts(parts@),
            f == (|part: Seq<char>| pid_in(part)),
            out@ == all.take(i as int).filter_map(f),
        decreases parts.len() - i,
    {
        let ghost before = out@;
        proof {
            all.lemma_filter_map_take_succ(f, i as int);
        }
        match parse_u32(trim(parts[i].as_str()).as_str()) {
            Some(pid) => {
                out.push(pid);
                proof {
                    assert(out@ =~= before + seq![pid]);
                }
            },
            None => {
                proof {
                    assert(before + Seq::<u32>::empty() =~= before);
                }
            },
        }
        i = i + 1;
    }
    proof {
        assert(all.take(all.len() as int) =~= all);
    }
    out
}

/// The processes that the variable sets as being in front, where it is set; an
/// empty value sets that none is.
pub fn fake_foreground_override(raw: Option<&str>) -> (out: Option<Vec<u32>>)
    ensures
        match raw {
            Some(s) => out matches Some(pids) && pids@ == pids_in(s@, ','),
            None => out is None,
        },
{
    match raw {
        Some(s) => Some(parse_pids(s, ',')),
        None => None,
    }
}

/// The processes of the window in front: those that the variable sets, where it
/// is set, or else those that were sampled.
pub fn sample_foreground_pids(raw: Option<&str>, sampled: Vec<u32>) -> (out: Vec<u32>)
    ensures
        out@ == match raw {
            Some(s) => pids_in(s@, ','),
            None => sampled@,
        },
{
    match fake_foreground_override(raw) {
        Some(pids) => pids,
        None => sampled,
    }
}

/// The processes that a sampler printed, one on each line.
pub fn sampled_lines(stdout: &str) -> (out: Vec<u32>)
    ensures
        out@ == pids_in(stdout@, '\n'),
{
    parse_pids(stdout, '\n')
}

/// The process that a sampler printed.
pub fn sampled_one(stdout: &str) -> (out: Vec<u32>)
    ensures
        out@ == match pid_in(stdout@) {
            Some(pid) => seq![pid],
            None => Seq::empty(),
        },
{
    let mut out: Vec<u32> = Vec::new();
    if let Some(pid) = parse_u32(trim(stdout).as_str()) {
        out.push(pid);
        proof {
            assert(out@ =~= seq![pid]);
        }
    }
    out
}

/// Being in front is having a process in common, whichever list comes first.
pub proof fn law_in_front_is_symmetric(a: Seq<u32>, b: Seq<u32>)
    ensures
        in_front(a, b) == in_front(b, a),
{
    if in_front(a, b) {
        let i = choose|i: int| 0 <= i < a.len() && b.contains(#[trigger] a[i]);
        let j = choose|j: int| 0 <= j < b.len() && b[j] == a[i];
        assert(a.contains(b[j]));
    }
    if in_front(b, a) {
        let i = choose|i: int| 0 <= i < b.len() && a.contains(#[trigger] b[i]);
        let j = choose|j: int| 0 <= j < a.len() && a[j] == b[i];
        assert(b.contains(a[j]));
    }
}

/// A session without a known process is never in front, and nothing is while no
/// window is.
pub proof fn law_nothing_known_is_not_in_front(pids: Seq<u32>)
    ensures
        !in_front(Seq::empty(), pids),
        !in_front(pids, Seq::empty()),
{
}

} // verus!
