//! The first generation: each cell alive independently with a fixed probability.
use vstd::prelude::*;
use crate::grid::{Grid, is_binary, is_square};

verus! {

/// Relies on rand 0.8's `random`: a value drawn from the thread-local
/// generator. Nothing is promised of the value.
pub assume_specification<T>[ rand::random::<T> ]() -> (r: T)
    where
        rand::distributions::Standard: rand::distributions::Distribution<T>,
;

/// A uniform 32-bit draw makes a cell alive with probability
/// `per_mille / 1000`: exactly when `draw / 2^32 < per_mille / 1000`.
pub open spec fn alive_from_draw(draw: u32, per_mille: u32) -> bool {
    draw as int * 1000 < per_mille as int * 0x1_0000_0000
}

/// The cell state that a draw gives.
pub open spec fn cell_from_draw(draw: u32, per_mille: u32) -> u32 {
    if alive_from_draw(draw, per_mille) {
        1
    } else {
        0
    }
}

/// The cells that a sequence of draws gives, one cell per draw.
pub open spec fn cells_of_draws(draws: Seq<u32>, per_mille: u32) -> Seq<u32> {
    Seq::new(draws.len(), |i: int| cell_from_draw(draws[i], per_mille))
}

/// Turns one draw into a cell state.
pub fn cell_for_draw(draw: u32, per_mille: u32) -> (r: u32)
    ensures
        r == cell_from_draw(draw, per_mille),
{
    if (draw as u128) * 1000 < (per_mille as u128) * 0x1_0000_0000 {
        1
    } else {
        0
    }
}

/// Turns uniform 32-bit draws into cells, each alive with probability `per_mille / 1000`.
pub fn cells_from_draws(draws: &Vec<u32>, per_mille: u32) -> (r: Vec<u32>)
    ensures
        r@ == cells_of_draws(draws@, per_mille),
        is_binary(r@),
{
    let mut cells: Vec<u32> = Vec::with_capacity(draws.len());
    let mut i: usize = 0;
    while i < draws.len()
        invariant
            i <= draws.len(),
            cells@ == cells_of_draws(draws@.take(i as int), per_mille),
        decreases draws.len() - i,
    {
        let c = cell_for_draw(draws[i], per_mille);
        cells.push(c);
        i += 1;
        proof {
            assert(cells@ =~= cells_of_draws(draws@.take(i as int), per_mille));
        }
    }
    proof {
        assert(draws@.take(i as int) =~= draws@);
    }
    cells
}

/// A grid of side `side` whose cells are each alive with probability
/// `per_mille / 1000`, drawn from the thread-local random generator.
pub fn random_grid(side: u32, per_mille: u32) -> (r: Grid)
    requires
        side > 0,
        side * side <= usize::MAX,
    ensures
        r.wf(),
        r.side == side,
        exists|draws: Seq<u32>|
            draws.len() == side * side && r.cells@ == cells_of_draws(draws, per_mille),
{
    let area = side as usize * side as usize;
    let mut draws: Vec<u32> = Vec::with_capacity(area);
    let mut i: usize = 0;
    while i < area
        invariant
            i <= area,
            draws@.len() == i,
        decreases area - i,
    {
        let d: u32 = rand::random::<u32>();
        draws.push(d);
        i += 1;
    }
    let cells = cells_from_draws(&draws, per_mille);
    proof {
        assert(is_square(cells@, side as int));
    }
    Grid { side, cells }
}

} // verus!
