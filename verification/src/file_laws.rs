//! What holds of the files that programs leave for one another, of how changes among them
//! are gathered, and of the log.

use crate::files::{
    is_stale, json_stem, law_stem_names_the_file, quarantine_name, tail_start, tmp_file_name,
};
use crate::logging::{
    after_steps, law_three_files_are_kept, log_file_name, must_rotate, rotate, LogState, RotateStep,
};
use crate::text::decimal;
use crate::watcher::{is_relevant, Debouncer, FileEventKind, WatchEvent, WatchStep};
use vstd::prelude::*;

verus! {

// ---------------------------------------------------------------------------
// Names and ages.
// ---------------------------------------------------------------------------

/// A file has a stem exactly where its name is one with `.json` behind it.
pub proof fn law_a_stem_is_what_stands_before_the_ending(
    name: &str,
    out: Option<String>,
    stem: Seq<char>,
)
    requires
        call_ensures(json_stem, (name,), out),
    ensures
        stem.len() > 0 && name@ == stem + ".json"@ ==> (out matches Some(s) && s@ == stem),
        out matches Some(s) ==> s@.len() > 0 && name@ == s@ + ".json"@,
{
    if stem.len() > 0 {
        law_stem_names_the_file(stem);
    }
    if let Some(s) = out {
        law_stem_names_the_file(s@);
    }
}

/// The first name that a file gets among those that could not be read is its own, and every
/// further one has a number behind it; what is written first has a name of its own, that
/// tells the writer.
pub proof fn law_files_are_named_after_what_they_hold(
    name: &str,
    n: u32,
    out: String,
    pid: u32,
    seq: u64,
    tmp: String,
)
    requires
        call_ensures(quarantine_name, (name, n), out),
        call_ensures(tmp_file_name, (name, pid, seq), tmp),
    ensures
        n == 0 ==> out@ == name@,
        n > 0 ==> out@ == name@ + "."@ + decimal(n as nat),
        tmp@ == "."@ + name@ + ".tmp-"@ + decimal(pid as nat) + "-"@ + decimal(seq as nat),
{
}

/// A decision goes stale after three minutes.
pub proof fn law_decisions_go_stale(age_ms: u64, out: bool)
    requires
        call_ensures(is_stale, (age_ms,), out),
    ensures
        age_ms >= 180_000 ==> out,
        age_ms < 180_000 ==> !out,
{
}

/// The tail of a file is all of it, or as much as may be read.
pub proof fn law_the_tail_is_as_long_as_it_may_be(len: u64, max: u64, out: u64)
    requires
        call_ensures(tail_start, (len, max), out),
    ensures
        len <= max ==> out == 0,
        len > max ==> len - out == max,
{
}

// ---------------------------------------------------------------------------
// Gathering changes.
// ---------------------------------------------------------------------------

/// What leaves a file to read counts, and what does not, does not.
pub proof fn law_only_what_leaves_a_file_counts(kind: FileEventKind, out: bool)
    requires
        call_ensures(is_relevant, (kind,), out),
    ensures
        kind is Access || kind is Remove ==> !out,
        kind is Create || kind is Modify || kind is Any || kind is Other ==> out,
{
}

/// A change waits for the quiet that was asked for, from now on; no change that waits is
/// lost or moved, and the file that changed waits too, once.
pub proof fn law_a_change_waits_for_quiet(
    gathered: &mut Debouncer,
    path: String,
    now: u64,
    out: WatchStep,
    i: int,
)
    requires
        call_ensures(Debouncer::debounce, (gathered, WatchEvent::Changed(path), now), out),
        now + mut_ref_current(gathered).debounce_ms <= u64::MAX,
    ensures
        out is Wait,
        mut_ref_future(gathered).debounce_ms == mut_ref_current(gathered).debounce_ms,
        mut_ref_future(gathered).deadline matches Some(d) && d == now + mut_ref_current(
            gathered,
        ).debounce_ms,
        0 <= i < mut_ref_current(gathered).pending@.len() ==> i < mut_ref_future(
            gathered,
        ).pending@.len() && mut_ref_future(gathered).pending@[i] == mut_ref_current(
            gathered,
        ).pending@[i],
        (exists|k: int|
            0 <= k < mut_ref_current(gathered).pending@.len() && (#[trigger] mut_ref_current(
                gathered,
            ).pending@[k])@ == path@) ==> mut_ref_future(gathered).pending@.len()
            == mut_ref_current(gathered).pending@.len(),
        (forall|k: int|
            0 <= k < mut_ref_current(gathered).pending@.len() ==> (#[trigger] mut_ref_current(
                gathered,
            ).pending@[k])@ != path@) ==> mut_ref_future(gathered).pending@.len()
            == mut_ref_current(gathered).pending@.len() + 1 && mut_ref_future(
            gathered,
        ).pending@.last()@ == path@,
{
    let before = mut_ref_current(gathered).pending@;
    if exists|k: int| 0 <= k < before.len() && (#[trigger] before[k])@ == path@ {
        let k = choose|k: int| 0 <= k < before.len() && (#[trigger] before[k])@ == path@;
        assert(crate::watcher::among(before, path@));
    }
    if forall|k: int| 0 <= k < before.len() ==> (#[trigger] before[k])@ != path@ {
        assert(!crate::watcher::among(before, path@));
    }
}

/// When it has been quiet for long enough everything that waits is passed on, and nothing
/// waits any longer; before that nothing is, and nothing changes.
pub proof fn law_quiet_passes_everything_on(
    gathered: &mut Debouncer,
    now: u64,
    out: WatchStep,
)
    requires
        call_ensures(Debouncer::debounce, (gathered, WatchEvent::Quiet, now), out),
    ensures
        mut_ref_current(gathered).deadline matches Some(d) ==> now >= d ==> (
        out matches WatchStep::Pass(paths) && paths@ == mut_ref_current(gathered).pending@)
            && mut_ref_future(gathered).pending@.len() == 0 && mut_ref_future(
            gathered,
        ).deadline is None,
        mut_ref_current(gathered).deadline matches Some(d) ==> now < d ==> out is Wait
            && mut_ref_future(gathered) == mut_ref_current(gathered),
        mut_ref_current(gathered).deadline is None ==> out is Wait && mut_ref_future(gathered)
            == mut_ref_current(gathered),
{
}

/// At the end everything that waits is passed on; and so it is whenever it is asked for.
pub proof fn law_the_end_passes_everything_on(
    gathered: &mut Debouncer,
    now: u64,
    out: WatchStep,
    other: &mut Debouncer,
    flushed: Vec<String>,
)
    requires
        call_ensures(Debouncer::debounce, (gathered, WatchEvent::Closed, now), out),
        call_ensures(Debouncer::flush, (other,), flushed),
    ensures
        out matches WatchStep::End(paths) && paths@ == mut_ref_current(gathered).pending@,
        mut_ref_future(gathered).pending@.len() == 0,
        flushed@ == mut_ref_current(other).pending@,
        mut_ref_future(other).pending@.len() == 0,
        mut_ref_future(other).deadline is None,
        mut_ref_future(other).debounce_ms == mut_ref_current(other).debounce_ms,
{
}

/// The wait ends when the changes are due, and is never none; without a change it is an
/// hour. Nothing waits at first.
pub proof fn law_the_wait_ends_when_changes_are_due(
    gathered: &Debouncer,
    now: u64,
    out: u64,
    quiet: u64,
    fresh: Debouncer,
)
    requires
        call_ensures(Debouncer::wait_ms, (gathered, now), out),
        call_ensures(Debouncer::new, (quiet,), fresh),
    ensures
        out >= 1,
        gathered.deadline matches Some(d) ==> now < d ==> now + out == d,
        gathered.deadline matches Some(d) ==> now >= d ==> out == 1,
        gathered.deadline is None ==> out == 3_600_000,
        fresh.pending@.len() == 0 && fresh.deadline is None && fresh.debounce_ms == quiet,
{
}

// ---------------------------------------------------------------------------
// The log.
// ---------------------------------------------------------------------------

/// The log in use has the plain name, and older ones their number behind it.
pub proof fn law_older_logs_are_numbered(n: usize, out: String)
    requires
        call_ensures(log_file_name, (n,), out),
    ensures
        n == 0 ==> out@ == "quarterdeck.log"@,
        n > 0 ==> out@ == "quarterdeck.log"@ + "."@ + decimal(n as nat),
{
}

/// A file is left for a new one exactly when it holds something and would come to hold more
/// than a mebibyte.
pub proof fn law_a_full_file_is_left(
    written: u64,
    len: u64,
    out: bool,
    log: &LogState,
    needs: bool,
)
    requires
        call_ensures(must_rotate, (written, len), out),
        call_ensures(LogState::before_write, (log, len), needs),
        log.written matches Some(w) ==> w == written,
    ensures
        written == 0 ==> !out,
        written > 0 && written + len > 1_048_576 ==> out,
        written + len <= 1_048_576 ==> !out,
        log.written is Some ==> needs == out,
        log.written is None ==> !needs,
{
}

/// What was written is counted on top of what the file held when it was opened.
pub proof fn law_what_was_written_is_counted(
    log: &mut LogState,
    held: u64,
    then: &mut LogState,
    len: u64,
)
    requires
        call_ensures(LogState::opened, (log, held), ()),
        mut_ref_current(then) == mut_ref_future(log),
        call_ensures(LogState::wrote, (then, len), ()),
        held + len <= u64::MAX,
    ensures
        mut_ref_future(log).written == Some(held),
        mut_ref_future(then).written matches Some(w) && w == held + len,
{
}

/// Making room drops the oldest of three files and gives the other two the next number, so
/// that the file in use is free.
pub proof fn law_room_is_made_for_a_new_file<C>(steps: Vec<RotateStep>, files: Map<int, C>)
    requires
        call_ensures(rotate, (), steps),
        forall|n: int| #[trigger] files.dom().contains(n) ==> 0 <= n < 3,
    ensures
        ({
            let after = after_steps(files, steps@);
            &&& !after.dom().contains(0)
            &&& after.dom().contains(1) == files.dom().contains(0)
            &&& files.dom().contains(0) ==> after[1] == files[0]
            &&& after.dom().contains(2) == files.dom().contains(1)
            &&& files.dom().contains(1) ==> after[2] == files[1]
            &&& forall|n: int| #[trigger] after.dom().contains(n) ==> n == 1 || n == 2
        }),
{
    law_three_files_are_kept(files);
}

} // verus!
