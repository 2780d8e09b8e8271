//! The accelerator kernel: one invocation per cell, tiled in square
//! workgroups, reading one buffer and writing the other.
use vstd::prelude::*;
use vstd::arithmetic::div_mod::{lemma_fundamental_div_mod, lemma_fundamental_div_mod_converse};
use crate::grid::{Grid, is_binary, is_square, lemma_index_in_grid, next_cell, next_cell_at, step_seq};

verus! {

/// Workgroups needed along one axis so that `groups * tile >= n`: `n / tile` rounded up.
pub open spec fn groups_for(n: int, tile: int) -> int {
    if n % tile == 0 {
        n / tile
    } else {
        n / tile + 1
    }
}

/// The write that the invocation with global id `(gx, gy)` performs: the next
/// state of its own cell, or nothing when the id lies beyond the grid.
pub open spec fn invocation_write(read: Seq<u32>, n: int, gx: int, gy: int) -> Option<(int, u32)> {
    if 0 <= gx < n && 0 <= gy < n {
        Some((gy * n + gx, next_cell(read, n, gy * n + gx)))
    } else {
        None
    }
}

/// A write that lands inside the grid and stores the next state of its cell.
pub open spec fn agrees_with_step(read: Seq<u32>, n: int, w: Option<(int, u32)>) -> bool {
    match w {
        Some((i, v)) => 0 <= i < read.len() && v == step_seq(read, n)[i],
        None => true,
    }
}

/// The number of workgroups along one axis, rounded up so that every cell is covered.
pub fn dispatch_groups(n: u32, tile: u32) -> (r: u32)
    requires
        tile > 0,
    ensures
        r as int == groups_for(n as int, tile as int),
        r * tile >= n,
        r == 0 || (r - 1) * tile < n,
{
    let q = n / tile;
    proof {
        assert(n % tile != 0 ==> q < u32::MAX) by (nonlinear_arith)
            requires
                q == n / tile,
                tile > 0,
                n <= u32::MAX,
        {
            if n % tile != 0 {
                assert(tile != 1);
                assert(q * tile <= n);
                assert(q * 2 <= q * tile);
            }
        }
    }
    let r = if n % tile == 0 { q } else { q + 1 };
    proof {
        let (ni, ti, qi) = (n as int, tile as int, q as int);
        assert(ni == qi * ti + ni % ti) by (nonlinear_arith)
            requires
                qi == ni / ti,
                ti > 0,
        ;
        assert((qi + 1) * ti == qi * ti + ti) by (nonlinear_arith);
        assert((qi - 1) * ti == qi * ti - ti) by (nonlinear_arith);
    }
    r
}

/// One invocation of the kernel at global id `(gx, gy)`: it reads only `read`
/// and writes at most its own cell of `write`.
pub fn kernel_invocation(read: &Vec<u32>, write: &mut Vec<u32>, n: u32, gx: u64, gy: u64)
    requires
        is_square(read@, n as int),
        is_binary(read@),
        old(write)@.len() == read@.len(),
    ensures
        final(write)@.len() == old(write)@.len(),
        final(write)@ == match invocation_write(read@, n as int, gx as int, gy as int) {
            Some((i, v)) => old(write)@.update(i, v),
            None => old(write)@,
        },
{
    if gx < n as u64 && gy < n as u64 {
        proof {
            lemma_index_in_grid(n as int, gx as int, gy as int);
            assert(gy as int * n as int <= gy as int * n as int + gx as int);
        }
        let len = read.len();
        let index = gy as usize * n as usize + gx as usize;
        let v = next_cell_at(read, n, index);
        write.set(index, v);
    }
}

/// Every invocation writes either nothing or the next state of its own cell,
/// and the rounded-up dispatch holds, for each cell, an invocation that writes
/// it. So in whatever order the invocations run, the written buffer ends equal,
/// cell for cell, to what the CPU kernel computes from the same input.
pub proof fn lemma_accelerator_matches_cpu(read: Seq<u32>, n: int, tile: int)
    requires
        is_square(read, n),
        tile > 0,
    ensures
        forall|gx: int, gy: int|
            #[trigger] agrees_with_step(read, n, invocation_write(read, n, gx, gy)),
        forall|i: int|
            0 <= i < read.len() ==> {
                let span = groups_for(n, tile) * tile;
                &&& 0 <= i % n < span
                &&& 0 <= i / n < span
                &&& invocation_write(read, n, i % n, i / n) == Some((i, #[trigger] step_seq(read, n)[i]))
            },
{
    let g = groups_for(n, tile);
    assert(n <= g * tile) by (nonlinear_arith)
        requires
            n > 0,
            tile > 0,
            g == (if n % tile == 0 { n / tile } else { n / tile + 1 }),
    {
        assert(n == (n / tile) * tile + n % tile);
        assert((n / tile + 1) * tile == (n / tile) * tile + tile);
    }
    assert forall|gx: int, gy: int|
        #[trigger] agrees_with_step(read, n, invocation_write(read, n, gx, gy)) by {
        if 0 <= gx < n && 0 <= gy < n {
            lemma_index_in_grid(n, gx, gy);
        }
    }
    assert forall|i: int| 0 <= i < read.len() implies {
        let span = groups_for(n, tile) * tile;
        &&& 0 <= i % n < span
        &&& 0 <= i / n < span
        &&& invocation_write(read, n, i % n, i / n) == Some((i, #[trigger] step_seq(read, n)[i]))
    } by {
        assert(i == (i / n) * n + i % n && 0 <= i % n < n && 0 <= i / n < n) by (nonlinear_arith)
            requires
                0 <= i < n * n,
                n > 0,
        ;
    }
}


/// Runs the whole dispatch: `dispatch_groups(n, tile)` workgroups of
/// `tile * tile` invocations along each axis, each reading `read` and writing
/// its own cell of `write`. Afterwards `write` holds the next generation.
pub fn run_dispatch(read: &Vec<u32>, write: &mut Vec<u32>, n: u32, tile: u32)
    requires
        is_square(read@, n as int),
        is_binary(read@),
        old(write)@.len() == read@.len(),
        tile > 0,
    ensures
        final(write)@ == step_seq(read@, n as int),
{
    let groups = dispatch_groups(n, tile);
    proof {
        assert(groups as int * tile as int <= u32::MAX as int * u32::MAX as int) by (nonlinear_arith)
            requires
                groups <= u32::MAX,
                tile <= u32::MAX,
        ;
    }
    let span: u64 = groups as u64 * tile as u64;
    let ghost ni = n as int;
    let ghost next = step_seq(read@, ni);
    let mut gy: u64 = 0;
    while gy < span
        invariant
            write@.len() == read@.len(),
            is_square(read@, ni),
            is_binary(read@),
            ni == n,
            next == step_seq(read@, ni),
            span >= n,
            gy <= span,
            forall|i: int| 0 <= i < read@.len() && i / ni < gy ==> #[trigger] write@[i] == next[i],
        decreases span - gy,
    {
        let mut gx: u64 = 0;
        while gx < span
            invariant
                write@.len() == read@.len(),
                is_square(read@, ni),
                is_binary(read@),
                ni == n,
                next == step_seq(read@, ni),
                span >= n,
                gy < span,
                gx <= span,
                forall|i: int|
                    0 <= i < read@.len() && (i / ni < gy || (i / ni == gy && i % ni < gx))
                        ==> #[trigger] write@[i] == next[i],
            decreases span - gx,
        {
            let ghost before = write@;
            kernel_invocation(read, write, n, gx, gy);
            proof {
                assert forall|i: int|
                    0 <= i < read@.len() && (i / ni < gy || (i / ni == gy && i % ni < gx + 1))
                        implies #[trigger] write@[i] == next[i] by {
                    lemma_fundamental_div_mod(i, ni);
                    assert(0 <= i / ni < ni && 0 <= i % ni < ni) by (nonlinear_arith)
                        requires
                            0 <= i < ni * ni,
                            ni > 0,
                    ;
                    if gx < ni && gy < ni {
                        let j = gy * ni + gx;
                        lemma_index_in_grid(ni, gx as int, gy as int);
                        lemma_fundamental_div_mod_converse(j, ni, gy as int, gx as int);
                        if i == j {
                            assert(write@[j] == next_cell(read@, ni, j));
                        } else {
                            assert(write@[i] == before[i]);
                            if i / ni == gy && i % ni == gx {
                                assert(i == ni * (i / ni) + i % ni);
                                assert(ni * gy == gy * ni) by (nonlinear_arith);
                            }
                        }
                    }
                }
            }
            gx += 1;
        }
        gy += 1;
    }
    proof {
        assert forall|i: int| 0 <= i < read@.len() implies #[trigger] write@[i] == next[i] by {
            assert(i / ni < ni) by (nonlinear_arith)
                requires
                    0 <= i < ni * ni,
                    ni > 0,
            ;
        }
        assert(write@ =~= next);
    }
}

/// Computes the next generation the way the accelerator does: the current
/// generation is the read buffer, a fresh buffer of the same size is written.
pub fn accelerator_step(grid: &Grid, tile: u32) -> (r: Grid)
    requires
        grid.wf(),
        tile > 0,
    ensures
        r.wf(),
        r.side == grid.side,
        r.cells@ == step_seq(grid.cells@, grid.side as int),
{
    let mut write: Vec<u32> = vec![0u32; grid.cells.len()];
    run_dispatch(&grid.cells, &mut write, grid.side, tile);
    proof {
        assert forall|i: int| 0 <= i < write@.len() implies #[trigger] write@[i] <= 1 by {
            assert(grid.cells@[i] <= 1);
        }
    }
    Grid { side: grid.side, cells: write }
}

} // verus!
