//! Aggregate outcome counters for one run.

use vstd::prelude::*;

verus! {

/// Counts how many requests ended in transport success and how many in
/// transport failure. Exactly one of the two counters is incremented per
/// finished request, via `record`.
pub struct Stats {
    success: usize,
    error: usize,
}

impl Stats {
    /// Number of transport successes recorded so far.
    pub closed spec fn spec_success(self) -> int {
        self.success as int
    }

    /// Number of transport failures recorded so far.
    pub closed spec fn spec_error(self) -> int {
        self.error as int
    }

    /// Number of outcomes recorded so far, of either kind.
    pub open spec fn spec_recorded(self) -> int {
        self.spec_success() + self.spec_error()
    }

    /// Fresh counters: nothing recorded yet.
    pub fn new() -> (s: Stats)
        ensures
            s.spec_success() == 0,
            s.spec_error() == 0,
    {
        Stats { success: 0, error: 0 }
    }

    /// Records one request outcome: a transport success when `ok` is true,
    /// a transport failure otherwise. Exactly one counter grows by one.
    pub fn record(&mut self, ok: bool)
        requires
            old(self).spec_recorded() < usize::MAX,
        ensures
            ok ==> final(self).spec_success() == old(self).spec_success() + 1
                && final(self).spec_error() == old(self).spec_error(),
            !ok ==> final(self).spec_error() == old(self).spec_error() + 1
                && final(self).spec_success() == old(self).spec_success(),
    {
        if ok {
            self.success = self.success + 1;
        } else {
            self.error = self.error + 1;
        }
    }

    /// The success count.
    pub fn success(&self) -> (n: usize)
        ensures
            n == self.spec_success(),
    {
        self.success
    }

    /// The error count.
    pub fn error(&self) -> (n: usize)
        ensures
            n == self.spec_error(),
    {
        self.error
    }
}

} // verus!
