use life_sim::buffers::{BufferId, DoubleBuffer};
use life_sim::dispatch::{accelerator_step, dispatch_groups, run_dispatch};
use life_sim::grid::{apply_rule, count_neighbors, wrap_coord, Grid, GridError};
use life_sim::kernel::step;
use life_sim::seed::{cell_for_draw, cells_from_draws, random_grid};
use life_sim::selector::{FramePlan, Mode, Simulation};
use life_sim::{GRID_SIZE, LIVE_PER_MILLE, WORKGROUP_SIZE};

fn grid_with(side: u32, live: &[(u32, u32)]) -> Grid {
    let mut cells = vec![0u32; (side * side) as usize];
    for &(x, y) in live {
        cells[(y * side + x) as usize] = 1;
    }
    Grid::new(side, cells).unwrap()
}

fn live_cells(g: &Grid) -> Vec<(u32, u32)> {
    let mut out = Vec::new();
    for (i, &c) in g.cells().iter().enumerate() {
        if c == 1 {
            out.push((i as u32 % g.side(), i as u32 / g.side()));
        }
    }
    out
}

/// The next state of the centre of a 5x5 grid whose only live cells are given.
fn centre_after(centre_alive: bool, neighbours: &[(u32, u32)]) -> u32 {
    let mut live: Vec<(u32, u32)> = neighbours.to_vec();
    if centre_alive {
        live.push((2, 2));
    }
    let g = step(&grid_with(5, &live));
    g.get(2, 2)
}

#[test]
fn wrap_maps_into_range() {
    assert_eq!(wrap_coord(-1, 5), 4);
    assert_eq!(wrap_coord(5, 5), 0);
    assert_eq!(wrap_coord(12, 5), 2);
    assert_eq!(wrap_coord(-12, 5), 3);
    assert_eq!(wrap_coord(0, 1), 0);
    assert_eq!(wrap_coord(i64::MIN, 7), i64::MIN.rem_euclid(7) as u32);
    assert_eq!(wrap_coord(i64::MAX, 7), i64::MAX.rem_euclid(7) as u32);
}

#[test]
fn lookup_is_toroidal() {
    let g = random_grid(7, 500);
    for y in -8i64..8 {
        for x in -8i64..8 {
            assert_eq!(g.get(x + 7, y), g.get(x, y));
            assert_eq!(g.get(x, y + 7), g.get(x, y));
            assert_eq!(
                count_neighbors(g.cells(), 7, x + 7, y),
                count_neighbors(g.cells(), 7, x, y)
            );
        }
    }
    let corner = grid_with(4, &[(3, 3)]);
    assert_eq!(corner.get(-1, -1), 1);
    assert_eq!(count_neighbors(corner.cells(), 4, 0, 0), 1);
}

#[test]
fn isolated_live_cell_dies() {
    assert_eq!(centre_after(true, &[]), 0);
}

#[test]
fn live_cell_with_two_survives() {
    assert_eq!(centre_after(true, &[(1, 1), (3, 3)]), 1);
}

#[test]
fn live_cell_with_three_survives() {
    assert_eq!(centre_after(true, &[(1, 1), (2, 1), (3, 3)]), 1);
}

#[test]
fn live_cell_with_four_dies() {
    assert_eq!(centre_after(true, &[(1, 1), (2, 1), (3, 1), (3, 3)]), 0);
}

#[test]
fn dead_cell_with_three_is_born() {
    assert_eq!(centre_after(false, &[(1, 1), (3, 2), (2, 3)]), 1);
}

#[test]
fn dead_cell_with_two_or_four_stays_dead() {
    assert_eq!(centre_after(false, &[(1, 1), (3, 3)]), 0);
    assert_eq!(centre_after(false, &[(1, 1), (2, 1), (3, 1), (3, 3)]), 0);
}

#[test]
fn rule_table() {
    for n in 0..=8u32 {
        let alive = apply_rule(1, n);
        let born = apply_rule(0, n);
        assert_eq!(alive, if n == 2 || n == 3 { 1 } else { 0 });
        assert_eq!(born, if n == 3 { 1 } else { 0 });
    }
}

#[test]
fn block_is_still_life() {
    let block = grid_with(6, &[(2, 2), (3, 2), (2, 3), (3, 3)]);
    let next = step(&block);
    assert_eq!(next.cells(), block.cells());
    let across_edge = grid_with(6, &[(5, 5), (0, 5), (5, 0), (0, 0)]);
    assert_eq!(step(&across_edge).cells(), across_edge.cells());
}

#[test]
fn blinker_oscillates() {
    let horizontal = grid_with(5, &[(1, 2), (2, 2), (3, 2)]);
    let vertical = step(&horizontal);
    assert_eq!(live_cells(&vertical), vec![(2, 1), (2, 2), (2, 3)]);
    let back = step(&vertical);
    assert_eq!(back.cells(), horizontal.cells());
}

#[test]
fn cpu_and_accelerator_agree() {
    for _ in 0..8 {
        let g = random_grid(16, 350);
        let cpu = step(&g);
        assert_eq!(accelerator_step(&g, 8).cells(), cpu.cells());
        assert_eq!(accelerator_step(&g, 5).cells(), cpu.cells());
        assert_eq!(accelerator_step(&g, 32).cells(), cpu.cells());
    }
}

#[test]
fn dispatch_overwrites_every_cell() {
    let g = random_grid(10, 300);
    let mut write = vec![7u32; 100];
    run_dispatch(g.cells(), &mut write, 10, 3);
    assert_eq!(&write, step(&g).cells());
}

#[test]
fn cpu_step_is_deterministic() {
    let g = random_grid(64, LIVE_PER_MILLE);
    let first = step(&g);
    for _ in 0..10 {
        assert_eq!(step(&g).cells(), first.cells());
    }
}

#[test]
fn buffer_parity_follows_generation() {
    let mut b = DoubleBuffer::new();
    for k in 0..9u64 {
        assert_eq!(b.generation(), k);
        assert_eq!(b.current(), if k % 2 == 0 { BufferId::A } else { BufferId::B });
        assert_ne!(b.current(), b.next());
        b.advance();
    }
    let mut top = DoubleBuffer { generation: u64::MAX };
    assert_eq!(top.current(), BufferId::B);
    top.advance();
    assert_eq!(top.generation(), 0);
    assert_eq!(top.current(), BufferId::A);
}

#[test]
fn initial_fraction_is_near_probability() {
    let g = random_grid(1000, 200);
    let live = g.cells().iter().filter(|&&c| c == 1).count();
    let fraction = live as f64 / 1_000_000.0;
    assert!((fraction - 0.2).abs() < 0.01, "fraction {}", fraction);
    assert!(g.cells().iter().all(|&c| c <= 1));
}

#[test]
fn draws_map_to_cells() {
    assert_eq!(cell_for_draw(0, 200), 1);
    assert_eq!(cell_for_draw(858_993_459, 200), 1);
    assert_eq!(cell_for_draw(858_993_460, 200), 0);
    assert_eq!(cell_for_draw(u32::MAX, 200), 0);
    assert_eq!(cell_for_draw(0, 0), 0);
    assert_eq!(cell_for_draw(u32::MAX, 1000), 1);
    assert_eq!(cells_from_draws(&vec![5, u32::MAX, 100, 4_000_000_000], 500), vec![1, 0, 1, 0]);
    assert!(cells_from_draws(&vec![], 500).is_empty());
}

#[test]
fn grid_new_checks_shape_and_values() {
    assert_eq!(Grid::new(0, vec![]).err(), Some(GridError::ZeroSide));
    assert_eq!(Grid::new(2, vec![0, 1, 0]).err(), Some(GridError::LengthMismatch));
    assert_eq!(Grid::new(2, vec![0, 1, 2, 0]).err(), Some(GridError::NonBinaryCell));
    let g = Grid::new(2, vec![0, 1, 1, 0]).unwrap();
    assert_eq!(g.side(), 2);
    assert_eq!(g.cells(), &vec![0, 1, 1, 0]);
    let e = Grid::empty(3);
    assert_eq!(e.cells(), &vec![0u32; 9]);
}

#[test]
fn dispatch_rounds_up() {
    assert_eq!(dispatch_groups(GRID_SIZE, WORKGROUP_SIZE), 512);
    assert_eq!(dispatch_groups(10, 4), 3);
    assert_eq!(dispatch_groups(16, 8), 2);
    assert_eq!(dispatch_groups(0, 8), 0);
    assert_eq!(dispatch_groups(u32::MAX, 2), 2_147_483_648);
    assert_eq!(dispatch_groups(u32::MAX, 1), u32::MAX);
}

#[test]
fn simulation_frames_and_mode_switches() {
    let horizontal = grid_with(5, &[(1, 2), (2, 2), (3, 2)]);
    let mut sim = Simulation::new(horizontal, 4);
    assert_eq!(sim.mode(), Mode::Accelerator);
    assert_eq!(
        sim.frame(),
        FramePlan::Compute { read: BufferId::A, write: BufferId::B, groups: 2 }
    );
    assert_eq!(sim.current_buffer(), BufferId::B);
    assert_eq!(sim.toggle_mode(), Some(BufferId::B));
    assert_eq!(sim.mode(), Mode::Cpu);
    assert_eq!(sim.frame(), FramePlan::ReadBack { source: BufferId::B });
    assert_eq!(sim.current_buffer(), BufferId::B);
    assert_eq!(sim.sync_host(vec![0; 24]), Err(GridError::LengthMismatch));
    assert_eq!(sim.sync_host(vec![3; 25]), Err(GridError::NonBinaryCell));
    assert_eq!(sim.frame(), FramePlan::ReadBack { source: BufferId::B });
    let vertical = grid_with(5, &[(2, 1), (2, 2), (2, 3)]);
    assert_eq!(sim.sync_host(vertical.cells().clone()), Ok(()));
    assert_eq!(sim.frame(), FramePlan::Upload { target: BufferId::A });
    assert_eq!(live_cells(sim.host()), vec![(1, 2), (2, 2), (3, 2)]);
    assert_eq!(sim.current_buffer(), BufferId::A);
    assert_eq!(sim.frame(), FramePlan::Upload { target: BufferId::B });
    assert_eq!(live_cells(sim.host()), vec![(2, 1), (2, 2), (2, 3)]);
    assert_eq!(sim.toggle_mode(), None);
    assert_eq!(
        sim.frame(),
        FramePlan::Compute { read: BufferId::B, write: BufferId::A, groups: 2 }
    );
}

#[test]
fn compute_cpu_steps_host() {
    let mut sim = Simulation::new(grid_with(5, &[(1, 2), (2, 2), (3, 2)]), WORKGROUP_SIZE);
    sim.compute_cpu();
    assert_eq!(live_cells(sim.host()), vec![(2, 1), (2, 2), (2, 3)]);
    assert_eq!(sim.current_buffer(), BufferId::A);
    assert!(!sim.host_synced);
}
