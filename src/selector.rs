//! The execution selector: per frame, decides which kernel supplies the next
//! generation and keeps the host copy and the device buffers consistent.
use vstd::prelude::*;
use crate::buffers::{BufferId, DoubleBuffer};
use crate::dispatch::{dispatch_groups, groups_for};
use crate::grid::{Grid, GridError, is_binary, is_square, step_seq};
use crate::kernel::step;

verus! {

/// Which kernel produces the next generation.
#[derive(Debug, Clone, Copy, PartialEq, Eq, Structural)]
pub enum Mode {
    Cpu,
    Accelerator,
}

/// What the device side must do for one frame.
#[derive(Debug, Clone, Copy, PartialEq, Eq, Structural)]
pub enum FramePlan {
    /// Run the accelerator kernel with `read` bound read-only and `write`
    /// bound read-write, `groups` workgroups along each axis; then display `write`.
    Compute { read: BufferId, write: BufferId, groups: u32 },
    /// Upload the host generation, just computed, into `target`; then display `target`.
    Upload { target: BufferId },
    /// The host copy is stale: read `source` back and hand it to
    /// `Simulation::sync_host` before the next frame.
    ReadBack { source: BufferId },
}

/// The whole simulation core: the host copy of the grid, the double-buffer
/// coordinator, the active mode and whether the host copy matches the
/// current device buffer. `shown` is what the current device buffer holds
/// when every plan handed out has been carried out.
pub struct Simulation {
    pub host: Grid,
    pub buffers: DoubleBuffer,
    pub mode: Mode,
    pub host_synced: bool,
    pub tile: u32,
    pub shown: Ghost<Seq<u32>>,
}

/// Stepping keeps a square binary grid square and binary.
proof fn lemma_step_keeps_grid(cells: Seq<u32>, n: int)
    requires
        is_square(cells, n),
        is_binary(cells),
    ensures
        is_square(step_seq(cells, n), n),
        is_binary(step_seq(cells, n)),
{
    assert forall|i: int| 0 <= i < cells.len() implies #[trigger] step_seq(cells, n)[i] <= 1 by {
        assert(cells[i] <= 1);
    }
}

impl Simulation {
    /// The host grid is well formed, the tile size is positive, the current
    /// device buffer holds a grid of the same side, and a synced host copy
    /// equals it.
    pub open spec fn wf(&self) -> bool {
        &&& self.host.wf()
        &&& self.tile > 0
        &&& is_square(self.shown@, self.host.side as int)
        &&& is_binary(self.shown@)
        &&& self.host_synced ==> self.host.cells@ == self.shown@
    }

    /// Starts in accelerator mode with `initial` as generation 0, held both on
    /// the host and in buffer A.
    pub fn new(initial: Grid, tile: u32) -> (r: Simulation)
        requires
            initial.wf(),
            tile > 0,
        ensures
            r.wf(),
            r.host == initial,
            r.buffers.generation == 0,
            r.mode == Mode::Accelerator,
            r.host_synced,
            r.tile == tile,
            r.shown@ == initial.cells@,
    {
        let ghost shown = initial.cells@;
        Simulation {
            host: initial,
            buffers: DoubleBuffer::new(),
            mode: Mode::Accelerator,
            host_synced: true,
            tile,
            shown: Ghost(shown),
        }
    }

    /// The active mode.
    pub fn mode(&self) -> (r: Mode)
        ensures
            r == self.mode,
    {
        self.mode
    }

    /// The host copy of the grid.
    pub fn host(&self) -> (r: &Grid)
        ensures
            r == self.host,
    {
        &self.host
    }

    /// The buffer that holds the generation on display.
    pub fn current_buffer(&self) -> (r: BufferId)
        ensures
            r == self.buffers.current_spec(),
    {
        self.buffers.current()
    }

    /// Switches between CPU and accelerator mode. On a switch to CPU mode the
    /// host copy may be stale, since the accelerator never writes it back: it
    /// is marked so, and the buffer to read back is returned.
    pub fn toggle_mode(&mut self) -> (r: Option<BufferId>)
        requires
            old(self).wf(),
        ensures
            final(self).wf(),
            final(self).shown == old(self).shown,
            final(self).host == old(self).host,
            final(self).buffers == old(self).buffers,
            final(self).tile == old(self).tile,
            old(self).mode == Mode::Accelerator ==> final(self).mode == Mode::Cpu
                && !final(self).host_synced && r == Some(old(self).buffers.current_spec()),
            old(self).mode == Mode::Cpu ==> final(self).mode == Mode::Accelerator
                && final(self).host_synced == old(self).host_synced && r.is_none(),
    {
        match self.mode {
            Mode::Accelerator => {
                self.mode = Mode::Cpu;
                self.host_synced = false;
                Some(self.buffers.current())
            },
            Mode::Cpu => {
                self.mode = Mode::Accelerator;
                None
            },
        }
    }

    /// Replaces the host copy with cells read back from the current device
    /// buffer, which are then taken as what that buffer holds. Cells of the
    /// wrong count or with values other than 0 and 1 are refused and change
    /// nothing.
    pub fn sync_host(&mut self, cells: Vec<u32>) -> (r: Result<(), GridError>)
        requires
            old(self).wf(),
        ensures
            final(self).wf(),
            final(self).buffers == old(self).buffers,
            final(self).mode == old(self).mode,
            final(self).tile == old(self).tile,
            r.is_ok() <==> (is_square(cells@, old(self).host.side as int) && is_binary(cells@)),
            r.is_ok() ==> final(self).host.side == old(self).host.side && final(self).host.cells@
                == cells@ && final(self).shown@ == cells@ && final(self).host_synced,
            r.is_err() ==> final(self).host == old(self).host
                && final(self).host_synced == old(self).host_synced
                && final(self).shown == old(self).shown,
            r matches Err(e) ==> (e == GridError::LengthMismatch <==> cells@.len()
                != old(self).host.side * old(self).host.side),
    {
        match Grid::new(self.host.side, cells) {
            Ok(g) => {
                self.shown = Ghost(g.cells@);
                self.host = g;
                self.host_synced = true;
                Ok(())
            },
            Err(e) => Err(e),
        }
    }

    /// Replaces the host copy with its next generation, computed on the CPU.
    /// The device buffers are not touched, so the host copy is then ahead of
    /// them and no longer counts as synced.
    pub fn compute_cpu(&mut self)
        requires
            old(self).wf(),
        ensures
            final(self).wf(),
            final(self).host.side == old(self).host.side,
            final(self).host.cells@ == step_seq(old(self).host.cells@, old(self).host.side as int),
            final(self).buffers == old(self).buffers,
            final(self).mode == old(self).mode,
            !final(self).host_synced,
            final(self).tile == old(self).tile,
            final(self).shown == old(self).shown,
    {
        self.host = step(&self.host);
        self.host_synced = false;
    }

    /// Plans one frame. In accelerator mode the kernel reads the current
    /// buffer and writes the other, which leaves the host copy behind. In CPU
    /// mode the host generation is stepped first and uploaded into the buffer
    /// that is not current. Either way the written buffer is displayed and
    /// becomes current, and it holds the next generation of the one that was
    /// current. In CPU mode with a stale host copy nothing is stepped: the
    /// current buffer must be read back first.
    pub fn frame(&mut self) -> (r: FramePlan)
        requires
            old(self).wf(),
        ensures
            final(self).wf(),
            final(self).host.side == old(self).host.side,
            !(r is ReadBack) ==> final(self).shown@ == step_seq(
                old(self).shown@,
                old(self).host.side as int,
            ),
            r is ReadBack ==> final(self).shown == old(self).shown,
            final(self).mode == old(self).mode,
            final(self).tile == old(self).tile,
            old(self).mode == Mode::Cpu ==> final(self).host_synced == old(self).host_synced,
            old(self).mode == Mode::Accelerator ==> {
                &&& !final(self).host_synced
                &&& r == (FramePlan::Compute {
                    read: old(self).buffers.current_spec(),
                    write: old(self).buffers.current_spec().flip(),
                    groups: groups_for(old(self).host.side as int, old(self).tile as int) as u32,
                })
                &&& final(self).host == old(self).host
                &&& final(self).buffers.current_spec() == old(self).buffers.current_spec().flip()
                &&& final(self).buffers.generation == (old(self).buffers.generation + 1)
                    % 0x1_0000_0000_0000_0000
            },
            old(self).mode == Mode::Cpu && old(self).host_synced ==> {
                &&& r == (FramePlan::Upload { target: old(self).buffers.current_spec().flip() })
                &&& final(self).host.side == old(self).host.side
                &&& final(self).host.cells@ == step_seq(
                    old(self).host.cells@,
                    old(self).host.side as int,
                )
                &&& final(self).buffers.current_spec() == old(self).buffers.current_spec().flip()
                &&& final(self).buffers.generation == (old(self).buffers.generation + 1)
                    % 0x1_0000_0000_0000_0000
            },
            old(self).mode == Mode::Cpu && !old(self).host_synced ==> {
                &&& r == (FramePlan::ReadBack { source: old(self).buffers.current_spec() })
                &&& final(self).host == old(self).host
                &&& final(self).buffers == old(self).buffers
            },
    {
        match self.mode {
            Mode::Accelerator => {
                let read = self.buffers.current();
                let write = self.buffers.next();
                let groups = dispatch_groups(self.host.side, self.tile);
                self.buffers.advance();
                proof {
                    lemma_step_keeps_grid(self.shown@, self.host.side as int);
                }
                self.shown = Ghost(step_seq(self.shown@, self.host.side as int));
                self.host_synced = false;
                FramePlan::Compute { read, write, groups }
            },
            Mode::Cpu => {
                if !self.host_synced {
                    return FramePlan::ReadBack { source: self.buffers.current() };
                }
                self.host = step(&self.host);
                self.shown = Ghost(self.host.cells@);
                let target = self.buffers.next();
                self.buffers.advance();
                FramePlan::Upload { target }
            },
        }
    }
}

} // verus!
