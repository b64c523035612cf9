use vstd::prelude::*;

verus! {

/// Every this many accumulated samples, a progress report is due.
pub const SAMPLE_LOG_INTERVAL: u32 = 100;

/// The count of samples accumulated for the current camera pose. The GPU
/// holds a mirror of it; the functions here return the value the caller must
/// push there, so the mirror never diverges from the count.
#[derive(Clone, Copy, Debug, PartialEq, Eq, Structural)]
pub struct SampleCounter {
    pub count: u32,
}

/// The count after `n` single increments from `start`.
pub open spec fn counted(start: nat, n: nat) -> nat
    decreases n,
{
    if n == 0 { start } else { counted(start, (n - 1) as nat) + 1 }
}

impl SampleCounter {
    pub fn new() -> (c: SampleCounter)
        ensures
            c.count == 0,
    {
        SampleCounter { count: 0 }
    }

    /// Sets the count back to zero; the returned value — always zero — is
    /// what the caller pushes to the GPU mirror.
    pub fn reset(&mut self) -> (pushed: u32)
        ensures
            final(self).count == 0,
            pushed == 0,
    {
        self.count = 0;
        0
    }

    /// Counts one more sample. Returns the new count, to be pushed to the GPU
    /// mirror, and whether a progress report is due — true on every
    /// `SAMPLE_LOG_INTERVAL`-th sample.
    pub fn increment(&mut self) -> (r: (u32, bool))
        requires
            old(self).count < u32::MAX,
        ensures
            final(self).count == old(self).count + 1,
            r.0 == final(self).count,
            r.1 == (final(self).count % SAMPLE_LOG_INTERVAL == 0),
    {
        self.count = self.count + 1;
        (self.count, self.count % SAMPLE_LOG_INTERVAL == 0)
    }

    /// The current count.
    pub fn current(&self) -> (n: u32)
        ensures
            n == self.count,
    {
        self.count
    }
}

/// Incrementing `n` times in a row adds exactly `n`: from a reset counter the
/// count is then exactly `n`.
pub proof fn lemma_counted_run(start: nat, n: nat)
    ensures
        counted(start, n) == start + n,
    decreases n,
{
    if n > 0 {
        lemma_counted_run(start, (n - 1) as nat);
    }
}

} // verus!
