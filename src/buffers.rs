//! The double-buffer coordinator: two device buffers whose roles of
//! "current" (read, displayed) and "next" (written) swap every generation.
use vstd::prelude::*;

verus! {

/// One of the two device buffers.
#[derive(Debug, Clone, Copy, PartialEq, Eq, Structural)]
pub enum BufferId {
    A,
    B,
}

impl BufferId {
    /// The other buffer.
    pub open spec fn flip(self) -> BufferId {
        match self {
            BufferId::A => BufferId::B,
            BufferId::B => BufferId::A,
        }
    }

    /// Returns the other buffer.
    pub fn other(self) -> (r: BufferId)
        ensures
            r == self.flip(),
            r != self,
    {
        match self {
            BufferId::A => BufferId::B,
            BufferId::B => BufferId::A,
        }
    }
}

/// The buffer that holds the current generation after `generation` steps.
pub open spec fn role_for(generation: int) -> BufferId {
    if generation % 2 == 0 {
        BufferId::A
    } else {
        BufferId::B
    }
}

/// The current buffer after `k` generations, following the transition that
/// `DoubleBuffer::advance` performs from a fresh coordinator.
pub open spec fn current_after(k: nat) -> BufferId
    decreases k,
{
    if k == 0 {
        BufferId::A
    } else {
        current_after((k - 1) as nat).flip()
    }
}

/// Counts generations; the parity of the count names the current buffer.
pub struct DoubleBuffer {
    pub generation: u64,
}

impl DoubleBuffer {
    /// The buffer that currently holds the generation to read and display.
    pub open spec fn current_spec(&self) -> BufferId {
        role_for(self.generation as int)
    }

    /// A coordinator before the first generation: A is current.
    pub fn new() -> (r: DoubleBuffer)
        ensures
            r.generation == 0,
            r.current_spec() == BufferId::A,
    {
        DoubleBuffer { generation: 0 }
    }

    /// The generation counter, modulo 2^64.
    pub fn generation(&self) -> (r: u64)
        ensures
            r == self.generation,
    {
        self.generation
    }

    /// The buffer to read from and to display.
    pub fn current(&self) -> (r: BufferId)
        ensures
            r == self.current_spec(),
    {
        if self.generation % 2 == 0 {
            BufferId::A
        } else {
            BufferId::B
        }
    }

    /// The buffer that receives the next generation; never the current one.
    pub fn next(&self) -> (r: BufferId)
        ensures
            r == self.current_spec().flip(),
            r != self.current_spec(),
    {
        self.current().other()
    }

    /// Ends a generation: the buffer just written becomes current. The counter
    /// wraps at 2^64, an even number, so the parity stays exact.
    pub fn advance(&mut self)
        ensures
            final(self).generation == (old(self).generation + 1) % 0x1_0000_0000_0000_0000,
            final(self).current_spec() == old(self).current_spec().flip(),
    {
        self.generation = self.generation.wrapping_add(1);
    }
}

/// After `k` generations from a fresh coordinator the current buffer is A
/// when `k` is even and B when it is odd, and within every generation the
/// buffer written is not the buffer read.
pub proof fn lemma_buffer_parity(k: nat)
    ensures
        current_after(k) == role_for(k as int),
        current_after(k).flip() != current_after(k),
    decreases k,
{
    if k > 0 {
        lemma_buffer_parity((k - 1) as nat);
    }
}

} // verus!
