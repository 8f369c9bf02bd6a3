//! Names and ages of the files that programs leave for one another.

use crate::text::{
    before_suffix, decimal, decimal_text, joined, lemma_dash_splits, lemma_decimal_value,
    optional_text, strip_suffix,
};
use vstd::prelude::*;
use vstd::string::*;

verus! {

/// The stem of a `.json` file; none for any other file, nor for one that is
/// called nothing else.
pub open spec fn stem_of(name: Seq<char>) -> Option<Seq<char>> {
    match before_suffix(name, ".json"@) {
        Some(stem) => if stem.len() == 0 {
            None
        } else {
            Some(stem)
        },
        None => None,
    }
}

/// The stem of a `.json` file.
pub fn json_stem(name: &str) -> (out: Option<String>)
    ensures
        optional_text(out) == stem_of(name@),
{
    match strip_suffix(name, ".json") {
        Some(stem) => if stem.as_str().is_empty() {
            None
        } else {
            Some(stem)
        },
        None => None,
    }
}

/// A file is named after its stem, and no other file has that stem.
pub proof fn law_stem_names_the_file(id: Seq<char>)
    requires
        id.len() > 0,
    ensures
        stem_of(id + ".json"@) == Some(id),
        forall|name: Seq<char>| #[trigger] stem_of(name) == Some(id) ==> name == id + ".json"@,
{
    reveal_strlit(".json");
    let name = id + ".json"@;
    assert(name.take(id.len() as int) =~= id);
    assert(name.skip(id.len() as int) =~= ".json"@);
    assert(stem_of(name) == Some(id));
    assert forall|n: Seq<char>| #[trigger] stem_of(n) == Some(id) implies n == name by {
        assert(n =~= id + ".json"@);
    }
}

/// The name that a file gets among those that could not be read, when `n` names
/// were tried before and taken.
pub open spec fn candidate(name: Seq<char>, n: nat) -> Seq<char> {
    if n == 0 {
        name
    } else {
        name + "."@ + decimal(n)
    }
}

/// The name that a file gets among those that could not be read, when `n` names
/// were tried before and taken.
pub fn quarantine_name(name: &str, n: u32) -> (out: String)
    ensures
        out@ == candidate(name@, n as nat),
{
    if n == 0 {
        name.to_owned()
    } else {
        let mut out = joined(name, ".");
        out.append(decimal_text(n as u64).as_str());
        out
    }
}

/// Every try is for another name.
pub proof fn law_candidates_differ(name: Seq<char>, m: nat, n: nat)
    requires
        m != n,
    ensures
        candidate(name, m) != candidate(name, n),
{
    reveal_strlit(".");
    lemma_decimal_value(m);
    lemma_decimal_value(n);
    let a = candidate(name, m);
    let b = candidate(name, n);
    if a == b {
        let k = (name.len() + 1) as int;
        if m == 0 || n == 0 {
            assert(a.len() == b.len());
        } else {
            assert(a.skip(k) =~= decimal(m));
            assert(b.skip(k) =~= decimal(n));
        }
    }
}

/// The name of the file that is written before it takes the place of `name`.
pub open spec fn temporary(name: Seq<char>, pid: nat, seq: nat) -> Seq<char> {
    "."@ + name + ".tmp-"@ + decimal(pid) + "-"@ + decimal(seq)
}

/// The name of the file that is written before it takes the place of `name`.
pub fn tmp_file_name(name: &str, pid: u32, seq: u64) -> (out: String)
    ensures
        out@ == temporary(name@, pid as nat, seq as nat),
{
    let mut out = joined(".", name);
    out.append(".tmp-");
    out.append(decimal_text(pid as u64).as_str());
    out.append("-");
    out.append(decimal_text(seq).as_str());
    out
}

/// Two writers never write the same file on the way: another process, or another
/// number, makes another name.
pub proof fn law_temporaries_differ(
    name: Seq<char>,
    pid: nat,
    seq: nat,
    other_pid: nat,
    other_seq: nat,
)
    requires
        pid != other_pid || seq != other_seq,
    ensures
        temporary(name, pid, seq) != temporary(name, other_pid, other_seq),
{
    reveal_strlit(".");
    reveal_strlit(".tmp-");
    reveal_strlit("-");
    assert("-"@ =~= seq!['-']);
    lemma_decimal_value(pid);
    lemma_decimal_value(seq);
    lemma_decimal_value(other_pid);
    lemma_decimal_value(other_seq);
    let k = (name.len() + 6) as int;
    let a = temporary(name, pid, seq);
    let b = temporary(name, other_pid, other_seq);
    if a == b {
        assert(a.skip(k) =~= decimal(pid) + seq!['-'] + decimal(seq));
        assert(b.skip(k) =~= decimal(other_pid) + seq!['-'] + decimal(other_seq));
        lemma_dash_splits(decimal(pid), decimal(seq), decimal(other_pid), decimal(other_seq));
    }
}

/// Milliseconds after which the hook that would read a decision is long gone.
pub const PERM_ANSWER_STALE_MS: u64 = 180_000;

/// Whether a decision of this age will no longer be read.
pub fn is_stale(age_ms: u64) -> (out: bool)
    ensures
        out == (age_ms >= PERM_ANSWER_STALE_MS),
{
    age_ms >= PERM_ANSWER_STALE_MS
}

/// Bytes at the end of a transcript in which its title is looked for.
pub const AI_TITLE_TAIL_BYTES: u64 = 131_072;

/// Where the last `max_bytes` of a file of `len` bytes begin.
pub fn tail_start(len: u64, max_bytes: u64) -> (out: u64)
    ensures
        out == if len > max_bytes {
            len - max_bytes
        } else {
            0
        },
        len - out <= max_bytes,
        len - out == max_bytes || out == 0,
{
    len.saturating_sub(max_bytes)
}

} // verus!
