use vstd::prelude::*;

verus! {

/// The ping-pong pair of accumulation images.
///
/// The two GPU images themselves live with the GPU resources; the library
/// holds the one bit of shared state that decides their roles. Each frame,
/// the image at `current_write()` is the compute kernel's write target and
/// the image at `current_read()` is its read source; the display pass samples
/// the freshly written one. `advance()` flips the assignment after a frame is
/// issued, so an image is never read and written within one frame.
pub struct AccumulationBufferSet {
    /// When set, the first image is this frame's write target.
    pub buffer_switch: bool,
}

/// Index of the write-target image for a given flag value.
pub open spec fn write_index(switch: bool) -> usize {
    if switch { 0 } else { 1 }
}

/// Index of the read-source image for a given flag value.
pub open spec fn read_index(switch: bool) -> usize {
    if switch { 1 } else { 0 }
}

/// The flag after `n` calls to `advance`, starting from `switch`.
pub open spec fn advanced(switch: bool, n: nat) -> bool
    decreases n,
{
    if n == 0 { switch } else { !advanced(switch, (n - 1) as nat) }
}

impl AccumulationBufferSet {
    /// Initial assignment: the first image is written first.
    pub fn new() -> (s: AccumulationBufferSet)
        ensures
            s.buffer_switch,
    {
        AccumulationBufferSet { buffer_switch: true }
    }

    /// Index of the image the compute kernel writes this frame.
    pub fn current_write(&self) -> (i: usize)
        ensures
            i == write_index(self.buffer_switch),
    {
        if self.buffer_switch { 0 } else { 1 }
    }

    /// Index of the image the compute kernel reads this frame; always the
    /// other image than `current_write()`.
    pub fn current_read(&self) -> (i: usize)
        ensures
            i == read_index(self.buffer_switch),
            i != write_index(self.buffer_switch),
    {
        if self.buffer_switch { 1 } else { 0 }
    }

    /// Swaps the two roles; called exactly once per completed frame.
    pub fn advance(&mut self)
        ensures
            final(self).buffer_switch == !old(self).buffer_switch,
    {
        self.buffer_switch = !self.buffer_switch;
    }
}

/// The hazard-avoidance invariant: whatever the flag says, the write target
/// and the read source are different images.
pub proof fn lemma_roles_disjoint(switch: bool)
    ensures
        write_index(switch) != read_index(switch),
{
}

/// Advancing strictly alternates the write and read identities: after an even
/// number of calls the assignment equals the initial one, after an odd number
/// the two identities are exactly swapped, for every starting flag and every
/// count.
pub proof fn lemma_advance_alternates(switch: bool, k: nat)
    ensures
        advanced(switch, 2 * k) == switch,
        advanced(switch, 2 * k + 1) == !switch,
        write_index(advanced(switch, 2 * k)) == write_index(switch),
        read_index(advanced(switch, 2 * k)) == read_index(switch),
        write_index(advanced(switch, 2 * k + 1)) == read_index(switch),
        read_index(advanced(switch, 2 * k + 1)) == write_index(switch),
    decreases k,
{
    if k > 0 {
        lemma_advance_alternates(switch, (k - 1) as nat);
        assert(2 * k - 1 == 2 * (k - 1) + 1);
        assert(advanced(switch, 2 * k) == !advanced(switch, (2 * k - 1) as nat));
    }
}

} // verus!
