//! Gathering the changes in a directory until it is quiet.

use crate::text::same_text;
use vstd::prelude::*;

verus! {

/// Milliseconds of quiet after which changes are passed on.
pub const DEFAULT_DEBOUNCE_MS: u64 = 250;

/// Milliseconds to wait for a change while none is pending.
pub const IDLE_WAIT_MS: u64 = 3_600_000;

/// What can happen to a file.
#[derive(Clone, Copy, Debug, PartialEq, Eq, Structural)]
pub enum FileEventKind {
    Any,
    Access,
    Create,
    Modify,
    Remove,
    Other,
}

/// Whether something happened that can leave a file to read. Reading a file does
/// not; nor does removing one, which this program does itself with every file
/// that it has read.
pub fn is_relevant(kind: FileEventKind) -> (out: bool)
    ensures
        out == (kind != FileEventKind::Access && kind != FileEventKind::Remove),
{
    match kind {
        FileEventKind::Access | FileEventKind::Remove => false,
        _ => true,
    }
}

/// What can happen while changes are gathered.
pub enum WatchEvent {
    /// A file changed.
    Changed(String),
    /// Nothing happened for as long as was waited.
    Quiet,
    /// No more changes will come.
    Closed,
}

/// What to do next.
pub enum WatchStep {
    /// Wait on.
    Wait,
    /// Pass these files on, and wait on.
    Pass(Vec<String>),
    /// Pass these files on, and end.
    End(Vec<String>),
}

/// Changes that are gathered until the directory is quiet.
pub struct Debouncer {
    /// The files that changed, in the order in which they first did.
    pub pending: Vec<String>,
    /// When they are passed on, in milliseconds.
    pub deadline: Option<u64>,
    /// Milliseconds of quiet that it takes.
    pub debounce_ms: u64,
}

/// Whether `path` is among `paths`.
pub open spec fn among(paths: Seq<String>, path: Seq<char>) -> bool {
    exists|i: int| 0 <= i < paths.len() && (#[trigger] paths[i])@ == path
}

/// Whether no path is listed twice.
pub open spec fn each_once(paths: Seq<String>) -> bool {
    forall|i: int, j: int| 0 <= i < j < paths.len() ==> (#[trigger] paths[i])@ != (#[trigger] paths[j])@
}

impl Debouncer {
    /// No file is listed twice, and there is a time to pass them on if and only
    /// if there are any.
    pub open spec fn wf(self) -> bool {
        each_once(self.pending@) && (self.deadline is Some <==> self.pending@.len() > 0)
    }

    /// Nothing gathered yet.
    pub fn new(debounce_ms: u64) -> (out: Self)
        ensures
            out.wf(),
            out.pending@.len() == 0,
            out.debounce_ms == debounce_ms,
    {
        Debouncer { pending: Vec::new(), deadline: None, debounce_ms }
    }

    /// How long to wait for the next change, in milliseconds: until the files are
    /// passed on, and at least one.
    pub fn wait_ms(&self, now: u64) -> (out: u64)
        ensures
            out == match self.deadline {
                Some(d) => if d > now + 1 {
                    (d - now) as u64
                } else {
                    1
                },
                None => IDLE_WAIT_MS,
            },
    {
        match self.deadline {
            Some(d) => {
                let left: u64 = d.saturating_sub(now);
                if left > 1 {
                    left
                } else {
                    1
                }
            },
            None => IDLE_WAIT_MS,
        }
    }

    /// Takes note of what happened at `now`, and says what to do next. A file
    /// that changes is listed once, and every change puts off the time to pass
    /// the files on.
    pub fn debounce(&mut self, event: WatchEvent, now: u64) -> (out: WatchStep)
        requires
            old(self).wf(),
            now + old(self).debounce_ms <= u64::MAX,
        ensures
            final(self).wf(),
            final(self).debounce_ms == old(self).debounce_ms,
            match event {
                WatchEvent::Changed(path) => {
                    &&& out is Wait
                    &&& final(self).deadline == Some((now + old(self).debounce_ms) as u64)
                    &&& if among(old(self).pending@, path@) {
                        final(self).pending == old(self).pending
                    } else {
                        final(self).pending@ == old(self).pending@.push(path)
                    }
                },
                WatchEvent::Quiet => if old(self).deadline matches Some(d) && now >= d {
                    &&& out matches WatchStep::Pass(paths) && paths == old(self).pending
                    &&& final(self).pending@.len() == 0
                } else {
                    out is Wait && *final(self) == *old(self)
                },
                WatchEvent::Closed => {
                    &&& out matches WatchStep::End(paths) && paths == old(self).pending
                    &&& final(self).pending@.len() == 0
                },
            },
    {
        match event {
            WatchEvent::Changed(path) => {
                let mut i: usize = 0;
                let mut found: bool = false;
                while i < self.pending.len()
                    invariant
                        i <= self.pending@.len(),
                        *self == *old(self),
                        found == exists|k: int| 0 <= k < i && (#[trigger] self.pending@[k])@ == path@,
                    decreases self.pending.len() - i,
                {
                    if same_text(self.pending[i].as_str(), path.as_str()) {
                        found = true;
                    }
                    i = i + 1;
                }
                if !found {
                    self.pending.push(path);
                }
                self.deadline = Some(now + self.debounce_ms);
                WatchStep::Wait
            },
            WatchEvent::Quiet => {
                let ready: bool = match self.deadline {
                    Some(d) => now >= d,
                    None => false,
                };
                if ready {
                    WatchStep::Pass(self.flush())
                } else {
                    WatchStep::Wait
                }
            },
            WatchEvent::Closed => WatchStep::End(self.flush()),
        }
    }

    /// Hands out all that is gathered.
    pub fn flush(&mut self) -> (out: Vec<String>)
        ensures
            out == old(self).pending,
            final(self).wf(),
            final(self).pending@.len() == 0,
            final(self).debounce_ms == old(self).debounce_ms,
    {
        let mut out: Vec<String> = Vec::new();
        core::mem::swap(&mut out, &mut self.pending);
        self.deadline = None;
        out
    }
}

} // verus!
