use vstd::prelude::*;

use vstd::arithmetic::div_mod::{lemma_add_mod_noop, lemma_small_mod};

verus! {

/// The position of an echo buffer of `size` samples: each sample is read
/// and written back at the same position, which then moves on by one plus
/// the step, around the buffer.
#[derive(Clone, Copy, Debug)]
pub struct EchoCursor {
    size: usize,
    pos: usize,
    step: usize,
}

impl EchoCursor {
    #[verifier::type_invariant]
    closed spec fn in_buffer(self) -> bool {
        0 < self.size && self.pos < self.size
    }

    /// The number of samples of the buffer.
    pub closed spec fn len(self) -> nat {
        self.size as nat
    }

    /// The position of the next sample.
    pub closed spec fn at(self) -> nat {
        self.pos as nat
    }

    /// How many samples each move skips.
    pub closed spec fn stride(self) -> nat {
        self.step as nat
    }

    /// A cursor at the start of a buffer of `size` samples, skipping none.
    pub fn new(size: usize) -> (c: EchoCursor)
        requires
            size > 0,
        ensures
            c.len() == size,
            c.at() == 0,
            c.stride() == 0,
    {
        EchoCursor { size, pos: 0, step: 0 }
    }

    /// The position of the next sample, which lies inside the buffer.
    pub fn position(&self) -> (p: usize)
        ensures
            p == self.at(),
            p < self.len(),
    {
        proof {
            use_type_invariant(self);
        }
        self.pos
    }

    /// Sets how many samples each move skips.
    pub fn set_step(&mut self, step: usize)
        ensures
            final(self).stride() == step,
            final(self).at() == old(self).at(),
            final(self).len() == old(self).len(),
    {
        proof {
            use_type_invariant(&*self);
        }
        *self = EchoCursor { size: self.size, pos: self.pos, step };
    }

    /// Whether the next move can be computed in a machine word.
    pub fn can_advance(&self) -> (r: bool)
        ensures
            r == (self.at() + 1 + self.stride() <= usize::MAX),
    {
        proof {
            use_type_invariant(self);
        }
        self.step < usize::MAX - self.pos
    }

    /// Moves on by one plus the step, around the buffer.
    pub fn advance(&mut self)
        requires
            old(self).at() + 1 + old(self).stride() <= usize::MAX,
        ensures
            final(self).at() == (old(self).at() + 1 + old(self).stride()) % old(self).len(),
            final(self).stride() == old(self).stride(),
            final(self).len() == old(self).len(),
    {
        proof {
            use_type_invariant(&*self);
        }
        let pos = (self.pos + 1 + self.step) % self.size;
        *self = EchoCursor { size: self.size, pos, step: self.step };
    }
}

/// The positions of a delay buffer of `size` samples: each sample is read
/// at the read position and written `step` samples ahead of it; the read
/// position then moves on by one, around the buffer.
#[derive(Clone, Copy, Debug)]
pub struct DelayCursor {
    size: usize,
    pos: usize,
    step: usize,
}

impl DelayCursor {
    #[verifier::type_invariant]
    closed spec fn in_buffer(self) -> bool {
        0 < self.size && self.pos < self.size
    }

    /// The number of samples of the buffer.
    pub closed spec fn len(self) -> nat {
        self.size as nat
    }

    /// The read position.
    pub closed spec fn at(self) -> nat {
        self.pos as nat
    }

    /// How far ahead of the read position samples are written.
    pub closed spec fn lag(self) -> nat {
        self.step as nat
    }

    /// A cursor at the start of a buffer of `size` samples, writing where it reads.
    pub fn new(size: usize) -> (c: DelayCursor)
        requires
            size > 0,
        ensures
            c.len() == size,
            c.at() == 0,
            c.lag() == 0,
    {
        DelayCursor { size, pos: 0, step: 0 }
    }

    /// The read position, which lies inside the buffer.
    pub fn read_position(&self) -> (p: usize)
        ensures
            p == self.at(),
            p < self.len(),
    {
        proof {
            use_type_invariant(self);
        }
        self.pos
    }

    /// Whether the write position can be computed in a machine word.
    pub fn can_write(&self) -> (r: bool)
        ensures
            r == (self.at() + self.lag() <= usize::MAX),
    {
        proof {
            use_type_invariant(self);
        }
        self.step <= usize::MAX - self.pos
    }

    /// The write position: `lag` samples ahead of the read position, around
    /// the buffer.
    pub fn write_position(&self) -> (p: usize)
        requires
            self.at() + self.lag() <= usize::MAX,
        ensures
            p == (self.at() + self.lag()) % self.len(),
            p < self.len(),
    {
        proof {
            use_type_invariant(self);
        }
        (self.pos + self.step) % self.size
    }

    /// Sets how far ahead of the read position samples are written.
    pub fn set_step(&mut self, step: usize)
        ensures
            final(self).lag() == step,
            final(self).at() == old(self).at(),
            final(self).len() == old(self).len(),
    {
        proof {
            use_type_invariant(&*self);
        }
        *self = DelayCursor { size: self.size, pos: self.pos, step };
    }

    /// Moves the read position on by one, around the buffer.
    pub fn advance(&mut self)
        ensures
            final(self).at() == (old(self).at() + 1) % old(self).len(),
            final(self).lag() == old(self).lag(),
            final(self).len() == old(self).len(),
    {
        proof {
            use_type_invariant(&*self);
        }
        let pos = (self.pos + 1) % self.size;
        *self = DelayCursor { size: self.size, pos, step: self.step };
    }
}

/// The read position of a delay buffer of `n` samples after `k` moves from `pos`.
pub open spec fn delay_read_after(pos: nat, n: nat, k: nat) -> nat
    decreases k,
{
    if k == 0 {
        pos
    } else {
        ((delay_read_after(pos, n, (k - 1) as nat) + 1) % n) as nat
    }
}

proof fn lemma_delay_read_after(pos: nat, n: nat, k: nat)
    requires
        0 < n,
        pos < n,
    ensures
        delay_read_after(pos, n, k) == (pos + k) % n,
    decreases k,
{
    if k == 0 {
        lemma_small_mod(pos, n);
    } else {
        lemma_delay_read_after(pos, n, (k - 1) as nat);
        lemma_add_mod_noop(pos + k - 1, 1, n as int);
        if n > 1 {
            lemma_small_mod(1, n);
        } else {
            lemma_add_mod_noop(delay_read_after(pos, n, (k - 1) as nat) as int, 1, 1);
        }
    }
}

/// A delay reads back what it wrote: the sample written `lag` samples ahead
/// of the read position is read after exactly `lag` moves.
pub proof fn law_delay_reads_back_what_it_wrote(pos: nat, n: nat, lag: nat)
    requires
        0 < n,
        pos < n,
    ensures
        delay_read_after(pos, n, lag) == (pos + lag) % n,
{
    lemma_delay_read_after(pos, n, lag);
}

} // verus!
