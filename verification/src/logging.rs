//! The log: when a file is full, and what becomes of the old ones.

use crate::text::{decimal, decimal_text, joined};
use vstd::prelude::*;
use vstd::string::*;

verus! {

/// Bytes after which a log file is full.
pub const MAX_BYTES: u64 = 1_048_576;

/// Log files that are kept, the one in use among them.
pub const KEEP: usize = 3;

/// Name of the log file in use.
pub const LOG_NAME: &'static str = "quarterdeck.log";

/// Name of the log file with this number; the one in use has number 0.
pub open spec fn numbered(n: nat) -> Seq<char> {
    if n == 0 {
        LOG_NAME@
    } else {
        LOG_NAME@ + "."@ + decimal(n)
    }
}

/// Name of the log file with this number.
pub fn log_file_name(n: usize) -> (out: String)
    ensures
        out@ == numbered(n as nat),
{
    if n == 0 {
        LOG_NAME.to_owned()
    } else {
        let mut out = joined(LOG_NAME, ".");
        out.append(decimal_text(n as u64).as_str());
        out
    }
}

/// Whether another `len` bytes go to a new file: when they would overfill one
/// that holds something.
pub open spec fn overfull(written: int, len: int) -> bool {
    written > 0 && written + len > MAX_BYTES
}

/// Whether another `len` bytes go to a new file.
pub fn must_rotate(written: u64, len: u64) -> (out: bool)
    ensures
        out == overfull(written as int, len as int),
{
    written > 0 && (written > MAX_BYTES || len > MAX_BYTES - written)
}

/// One step of making room for a new log file. A rename is left out where there
/// is no such file.
#[derive(Clone, Copy, Debug, PartialEq, Eq, Structural)]
pub enum RotateStep {
    Remove(usize),
    Rename { from: usize, to: usize },
}

/// The log files after a step.
pub open spec fn after_step<C>(files: Map<int, C>, step: RotateStep) -> Map<int, C> {
    match step {
        RotateStep::Remove(n) => files.remove(n as int),
        RotateStep::Rename { from, to } => if files.dom().contains(from as int) {
            files.remove(from as int).insert(to as int, files[from as int])
        } else {
            files
        },
    }
}

/// The log files after some steps.
pub open spec fn after_steps<C>(files: Map<int, C>, steps: Seq<RotateStep>) -> Map<int, C>
    decreases steps.len(),
{
    if steps.len() == 0 {
        files
    } else {
        after_step(after_steps(files, steps.drop_last()), steps.last())
    }
}

/// The steps that make room for a new log file.
pub open spec fn rotation() -> Seq<RotateStep> {
    seq![
        RotateStep::Remove(2),
        RotateStep::Rename { from: 1, to: 2 },
        RotateStep::Rename { from: 0, to: 1 },
    ]
}

/// The steps that make room for a new log file: the oldest goes, and every other
/// takes on the next number.
pub fn rotate() -> (out: Vec<RotateStep>)
    ensures
        out@ == rotation(),
{
    let last: usize = KEEP - 1;
    let mut out: Vec<RotateStep> = Vec::new();
    out.push(RotateStep::Remove(last));
    let mut n: usize = last;
    while n > 0
        invariant
            n <= last == 2,
            out@.len() == 3 - n,
            out@[0] == RotateStep::Remove(2),
            forall|i: int|
                1 <= i < out@.len() ==> #[trigger] out@[i] == (RotateStep::Rename {
                    from: (2 - i) as usize,
                    to: (3 - i) as usize,
                }),
        decreases n,
    {
        out.push(RotateStep::Rename { from: n - 1, to: n });
        n = n - 1;
    }
    proof {
        assert(out@ =~= rotation());
    }
    out
}

/// The log while it is written.
pub struct LogState {
    /// Bytes in the file in use, where one is open.
    pub written: Option<u64>,
}

impl LogState {
    /// Whether `len` bytes need a new file, given how many the file in use holds.
    pub fn before_write(&self, len: u64) -> (out: bool)
        ensures
            out == (self.written matches Some(w) && overfull(w as int, len as int)),
    {
        match self.written {
            Some(w) => must_rotate(w, len),
            None => false,
        }
    }

    /// Notes that a file was opened that holds `len` bytes.
    pub fn opened(&mut self, len: u64)
        ensures
            final(self).written == Some(len),
    {
        self.written = Some(len);
    }

    /// Notes that `len` bytes were written.
    pub fn wrote(&mut self, len: u64)
        requires
            old(self).written matches Some(w) && w + len <= u64::MAX,
        ensures
            final(self).written == Some((old(self).written->Some_0 + len) as u64),
    {
        if let Some(w) = self.written {
            self.written = Some(w + len);
        }
    }
}

/// Making room drops the oldest of the three files, and the other two take on
/// the next number; there is never a fourth.
pub proof fn law_three_files_are_kept<C>(files: Map<int, C>)
    requires
        forall|n: int| #[trigger] files.dom().contains(n) ==> 0 <= n < KEEP,
    ensures
        ({
            let after = after_steps(files, rotation());
            &&& !after.dom().contains(0)
            &&& after.dom().contains(1) == files.dom().contains(0)
            &&& files.dom().contains(0) ==> after[1] == files[0]
            &&& after.dom().contains(2) == files.dom().contains(1)
            &&& files.dom().contains(1) ==> after[2] == files[1]
            &&& forall|n: int| #[trigger] after.dom().contains(n) ==> 1 <= n < KEEP
        }),
{
    reveal_with_fuel(after_steps, 4);
    let steps = rotation();
    assert(steps.drop_last() =~= seq![
        RotateStep::Remove(2),
        RotateStep::Rename { from: 1, to: 2 },
    ]);
    assert(steps.drop_last().drop_last() =~= seq![RotateStep::Remove(2)]);
    assert(steps.drop_last().drop_last().drop_last() =~= Seq::<RotateStep>::empty());
}

/// A file that began within the limit stays within it, or within what was
/// written to it at once.
pub proof fn law_files_stay_within_the_limit(written: int, len: int)
    requires
        written >= 0,
        len >= 0,
    ensures
        ({
            let held = if overfull(written, len) {
                len
            } else {
                written + len
            };
            held <= MAX_BYTES || held == len
        }),
{
}

} // verus!
