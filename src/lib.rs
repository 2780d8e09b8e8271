//! A toroidal Game of Life simulation core: grid state, the step kernel,
//! a model of the accelerator dispatch, double buffering and mode selection.
use vstd::prelude::*;

pub mod grid;
pub mod kernel;
pub mod dispatch;
pub mod buffers;
pub mod seed;
pub mod selector;

verus! {

/// Side length of the simulated grid.
pub const GRID_SIZE: u32 = 4096;

/// Side length of one square workgroup of the accelerator kernel.
pub const WORKGROUP_SIZE: u32 = 8;

/// Probability, in thousandths, that a cell of the first generation is alive.
pub const LIVE_PER_MILLE: u32 = 200;

} // verus!
