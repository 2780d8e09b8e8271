//! The CPU step kernel: every cell of the next generation computed
//! independently from the frozen current generation, in parallel.
use vstd::prelude::*;
use rayon::iter::{IntoParallelIterator, ParallelIterator};
use crate::grid::{Grid, is_binary, is_square, next_cell_at, step_seq};

verus! {

/// Relies on rayon: `(0..len).into_par_iter().map(f).collect::<Vec<_>>()` holds
/// `f(i)` at position `i` for every `i < len`, whatever the scheduling; here `f`
/// is the verified `next_cell_at` on the frozen input.
#[verifier::external_body]
fn par_next_cells(cells: &Vec<u32>, n: u32) -> (r: Vec<u32>)
    requires
        is_square(cells@, n as int),
        is_binary(cells@),
    ensures
        r@ == step_seq(cells@, n as int),
{
    (0..cells.len()).into_par_iter().map(|i| next_cell_at(cells, n, i)).collect()
}

/// Computes the next generation of `grid` on all CPU cores.
pub fn step(grid: &Grid) -> (r: Grid)
    requires
        grid.wf(),
    ensures
        r.wf(),
        r.side == grid.side,
        r.cells@ == step_seq(grid.cells@, grid.side as int),
{
    let cells = par_next_cells(&grid.cells, grid.side);
    proof {
        assert forall|i: int| 0 <= i < cells@.len() implies #[trigger] cells@[i] <= 1 by {
            assert(grid.cells@[i] <= 1);
        }
    }
    Grid { side: grid.side, cells }
}

/// The step kernel is a function of its input alone: any two results that it
/// may hand back for the same grid, however the work was scheduled, are equal.
pub proof fn lemma_step_deterministic(input: Grid, first: Grid, second: Grid)
    requires
        input.wf(),
        first.cells@ == step_seq(input.cells@, input.side as int),
        second.cells@ == step_seq(input.cells@, input.side as int),
    ensures
        first.cells@ == second.cells@,
{
}

} // verus!
