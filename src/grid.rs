//! Grid state and toroidal addressing.
use vstd::prelude::*;
use vstd::arithmetic::div_mod::{lemma_fundamental_div_mod, lemma_fundamental_div_mod_converse};

verus! {

/// Maps a coordinate into `[0, n)` by wrapping around, so the grid is a torus.
pub open spec fn wrap(v: int, n: int) -> int {
    ((v % n) + n) % n
}

/// The wrapped coordinate is the remainder of `v` modulo `n`, and lies in `[0, n)`.
pub proof fn lemma_wrap_is_mod(v: int, n: int)
    requires
        n > 0,
    ensures
        wrap(v, n) == v % n,
        0 <= v % n < n,
{
    lemma_fundamental_div_mod(v, n);
    lemma_fundamental_div_mod_converse(v % n + n, n, 1, v % n);
}

/// Wraps a possibly out-of-range coordinate into `[0, n)`.
pub fn wrap_coord(v: i64, n: u32) -> (r: u32)
    requires
        n > 0,
    ensures
        r as int == wrap(v as int, n as int),
        r < n,
{
    proof {
        lemma_wrap_is_mod(v as int, n as int);
    }
    let m = n as i64;
    if v >= 0 {
        (v % m) as u32
    } else {
        let k: i64 = -(v + 1);
        let q: i64 = k % m;
        proof {
            lemma_fundamental_div_mod(k as int, m as int);
            let d = k as int / m as int;
            assert((-d - 1) * m == -(m * d) - m) by (nonlinear_arith);
            lemma_fundamental_div_mod_converse(
                v as int,
                m as int,
                -d - 1,
                m - 1 - q,
            );
        }
        (m - 1 - q) as u32
    }
}


/// Cell `(x, y)` of a flat row-major grid of side `n`, both coordinates wrapped.
pub open spec fn cell_at(cells: Seq<u32>, n: int, x: int, y: int) -> u32 {
    cells[wrap(y, n) * n + wrap(x, n)]
}

/// Sum of the states of the eight toroidal neighbours of `(x, y)`.
pub open spec fn live_neighbors(cells: Seq<u32>, n: int, x: int, y: int) -> int {
    cell_at(cells, n, x - 1, y - 1) + cell_at(cells, n, x, y - 1) + cell_at(cells, n, x + 1, y - 1)
        + cell_at(cells, n, x - 1, y) + cell_at(cells, n, x + 1, y)
        + cell_at(cells, n, x - 1, y + 1) + cell_at(cells, n, x, y + 1) + cell_at(cells, n, x + 1, y + 1)
}

/// The birth/survival rule: a live cell with fewer than two or more than three
/// live neighbours dies, a dead cell with exactly three becomes alive, and every
/// other cell keeps its state.
pub open spec fn rule(status: u32, neighbors: int) -> u32 {
    if status == 1 && (neighbors < 2 || neighbors > 3) {
        0
    } else if status == 0 && neighbors == 3 {
        1
    } else {
        status
    }
}

/// The next state of the cell at flat index `i`.
pub open spec fn next_cell(cells: Seq<u32>, n: int, i: int) -> u32 {
    rule(cells[i], live_neighbors(cells, n, i % n, i / n))
}

/// The next generation of a whole grid.
pub open spec fn step_seq(cells: Seq<u32>, n: int) -> Seq<u32> {
    Seq::new(cells.len(), |i: int| next_cell(cells, n, i))
}

/// Every cell is 0 (dead) or 1 (alive).
pub open spec fn is_binary(cells: Seq<u32>) -> bool {
    forall|i: int| 0 <= i < cells.len() ==> #[trigger] cells[i] <= 1
}

/// A flat sequence of cells that is a square grid of side `n`.
pub open spec fn is_square(cells: Seq<u32>, n: int) -> bool {
    n > 0 && cells.len() == n * n
}

/// A flat index `y * n + x` with both coordinates in `[0, n)` lies in the grid.
pub proof fn lemma_index_in_grid(n: int, x: int, y: int)
    requires
        0 <= x < n,
        0 <= y < n,
    ensures
        0 <= y * n + x < n * n,
{
    assert(y * n <= (n - 1) * n) by (nonlinear_arith)
        requires
            0 <= y <= n - 1,
            n > 0,
    ;
    assert((n - 1) * n == n * n - n) by (nonlinear_arith);
    assert(0 <= y * n) by (nonlinear_arith)
        requires
            0 <= y,
            n > 0,
    ;
}

/// Reads the cell at `(x, y)`, wrapping both coordinates around the torus.
pub fn cell_wrapped(cells: &Vec<u32>, n: u32, x: i64, y: i64) -> (r: u32)
    requires
        is_square(cells@, n as int),
    ensures
        r == cell_at(cells@, n as int, x as int, y as int),
{
    let wx = wrap_coord(x, n);
    let wy = wrap_coord(y, n);
    let len = cells.len();
    proof {
        lemma_index_in_grid(n as int, wx as int, wy as int);
        assert(wy as int * n as int <= wy as int * n as int + wx as int);
    }
    let idx = wy as usize * n as usize + wx as usize;
    cells[idx]
}

/// Counts the live toroidal neighbours of `(x, y)`.
pub fn count_neighbors(cells: &Vec<u32>, n: u32, x: i64, y: i64) -> (r: u32)
    requires
        is_square(cells@, n as int),
        is_binary(cells@),
        i64::MIN < x < i64::MAX,
        i64::MIN < y < i64::MAX,
    ensures
        r as int == live_neighbors(cells@, n as int, x as int, y as int),
        r <= 8,
{
    let c0 = cell_wrapped(cells, n, x - 1, y - 1);
    let c1 = cell_wrapped(cells, n, x, y - 1);
    let c2 = cell_wrapped(cells, n, x + 1, y - 1);
    let c3 = cell_wrapped(cells, n, x - 1, y);
    let c4 = cell_wrapped(cells, n, x + 1, y);
    let c5 = cell_wrapped(cells, n, x - 1, y + 1);
    let c6 = cell_wrapped(cells, n, x, y + 1);
    let c7 = cell_wrapped(cells, n, x + 1, y + 1);
    proof {
        let nn = n as int;
        assert forall|a: int, b: int| #![auto] cell_at(cells@, nn, a, b) <= 1 by {
            lemma_wrap_is_mod(a, nn);
            lemma_wrap_is_mod(b, nn);
            lemma_index_in_grid(nn, wrap(a, nn), wrap(b, nn));
        }
    }
    c0 + c1 + c2 + c3 + c4 + c5 + c6 + c7
}

/// Applies the birth/survival rule to one cell.
pub fn apply_rule(status: u32, neighbors: u32) -> (r: u32)
    ensures
        r == rule(status, neighbors as int),
{
    if status == 1 && (neighbors < 2 || neighbors > 3) {
        0
    } else if status == 0 && neighbors == 3 {
        1
    } else {
        status
    }
}

/// Computes the next state of the cell at flat index `index`.
pub fn next_cell_at(cells: &Vec<u32>, n: u32, index: usize) -> (r: u32)
    requires
        is_square(cells@, n as int),
        is_binary(cells@),
        index < cells.len(),
    ensures
        r == next_cell(cells@, n as int, index as int),
        r <= 1,
{
    let size = n as usize;
    let x = index % size;
    let y = index / size;
    proof {
        assert(y < size) by (nonlinear_arith)
            requires
                y == index / size,
                index < size * size,
                size > 0,
        ;
    }
    let neighbors = count_neighbors(cells, n, x as i64, y as i64);
    apply_rule(cells[index], neighbors)
}


/// Shifting a coordinate by a whole side length lands on the same cell, in
/// either direction, for every grid: the grid is a torus.
pub proof fn lemma_torus(cells: Seq<u32>, n: int, x: int, y: int)
    requires
        n > 0,
    ensures
        cell_at(cells, n, x + n, y) == cell_at(cells, n, x, y),
        cell_at(cells, n, x, y + n) == cell_at(cells, n, x, y),
        live_neighbors(cells, n, x + n, y) == live_neighbors(cells, n, x, y),
        live_neighbors(cells, n, x, y + n) == live_neighbors(cells, n, x, y),
{
    assert forall|v: int| #[trigger] wrap(v + n, n) == wrap(v, n) by {
        lemma_wrap_is_mod(v, n);
        lemma_wrap_is_mod(v + n, n);
        lemma_fundamental_div_mod(v, n);
        assert((v / n + 1) * n == n * (v / n) + n) by (nonlinear_arith);
        lemma_fundamental_div_mod_converse(v + n, n, v / n + 1, v % n);
    }
    assert(wrap(x - 1 + n, n) == wrap(x - 1, n));
    assert(wrap(x + 1 + n, n) == wrap(x + 1, n));
    assert(wrap(y - 1 + n, n) == wrap(y - 1, n));
    assert(wrap(y + 1 + n, n) == wrap(y + 1, n));
    assert(x + n - 1 == x - 1 + n);
    assert(x + n + 1 == x + 1 + n);
    assert(y + n - 1 == y - 1 + n);
    assert(y + n + 1 == y + 1 + n);
}

/// Why a grid could not be built from the values given.
#[derive(Debug, Clone, Copy, PartialEq, Eq, Structural)]
pub enum GridError {
    /// The side length is zero.
    ZeroSide,
    /// The number of cells is not the side length squared.
    LengthMismatch,
    /// Some cell is neither 0 nor 1.
    NonBinaryCell,
}

/// One generation: a square grid of `side * side` cells in row-major order,
/// each 0 (dead) or 1 (alive).
pub struct Grid {
    pub side: u32,
    pub cells: Vec<u32>,
}

impl Grid {
    /// The grid is square and every cell is 0 or 1.
    pub open spec fn wf(&self) -> bool {
        is_square(self.cells@, self.side as int) && is_binary(self.cells@)
    }

    /// Builds a grid, checking its shape and its values.
    pub fn new(side: u32, cells: Vec<u32>) -> (r: Result<Grid, GridError>)
        ensures
            side == 0 <==> r matches Err(GridError::ZeroSide),
            (side > 0 && cells@.len() != side * side) <==> r matches Err(GridError::LengthMismatch),
            (is_square(cells@, side as int) && !is_binary(cells@)) <==> r matches Err(
                GridError::NonBinaryCell,
            ),
            r.is_ok() <==> (is_square(cells@, side as int) && is_binary(cells@)),
            r matches Ok(g) ==> g.side == side && g.cells@ == cells@ && g.wf(),
    {
        if side == 0 {
            return Err(GridError::ZeroSide);
        }
        proof {
            assert(side as int * side as int <= u32::MAX as int * u32::MAX as int) by (nonlinear_arith)
                requires
                    side <= u32::MAX,
            ;
        }
        let area: u64 = side as u64 * side as u64;
        if cells.len() as u64 != area {
            return Err(GridError::LengthMismatch);
        }
        let mut i: usize = 0;
        while i < cells.len()
            invariant
                i <= cells.len(),
                side > 0,
                cells@.len() == side * side,
                forall|j: int| 0 <= j < i ==> #[trigger] cells@[j] <= 1,
            decreases cells.len() - i,
        {
            if cells[i] > 1 {
                return Err(GridError::NonBinaryCell);
            }
            i += 1;
        }
        Ok(Grid { side, cells })
    }

    /// A grid of the given side with every cell dead.
    pub fn empty(side: u32) -> (r: Grid)
        requires
            side > 0,
            side * side <= usize::MAX,
        ensures
            r.wf(),
            r.side == side,
            r.cells@ == Seq::new((side * side) as nat, |i: int| 0u32),
    {
        let area = side as usize * side as usize;
        let cells: Vec<u32> = vec![0u32; area];
        proof {
            assert(cells@ =~= Seq::new((side * side) as nat, |i: int| 0u32));
        }
        Grid { side, cells }
    }

    /// The side length.
    pub fn side(&self) -> (r: u32)
        ensures
            r == self.side,
    {
        self.side
    }

    /// The cells in row-major order.
    pub fn cells(&self) -> (r: &Vec<u32>)
        ensures
            r@ == self.cells@,
    {
        &self.cells
    }

    /// The state of the cell at `(x, y)`, both coordinates wrapped around the torus.
    pub fn get(&self, x: i64, y: i64) -> (r: u32)
        requires
            self.wf(),
        ensures
            r == cell_at(self.cells@, self.side as int, x as int, y as int),
    {
        cell_wrapped(&self.cells, self.side, x, y)
    }
}

} // verus!
