use piping_grid::cursor::CursorMode;
use piping_grid::equipment::{
    define_budget, flag_equipment, update_budget, Budget, Equipment, Intent,
};
use piping_grid::grid::{create_grid, create_grid_index};
use piping_grid::spatial::CursorGridIdx;

fn fresh_grid() -> piping_grid::grid::Grid {
    let (settings, _) = create_grid_index(50, 50, 200, 200).unwrap();
    create_grid(&settings)
}

#[test]
fn placing_over_an_empty_cell_spawns_once() {
    let mut grid = fresh_grid();
    let cursor = CursorGridIdx { index: Some(0) };
    // First tick: the cell becomes occupied and one Spawn is emitted.
    let intent = flag_equipment(&mut grid, &cursor, CursorMode::Placing, 100);
    assert_eq!(intent, Some(Intent::Spawn { cell: 0 }));
    assert!(grid.cells[0].occupied);
    assert_eq!(grid.cells[0].occupied_by, Some(100));
    // Further ticks with the pointer held still are intent-free.
    for tick in 0..5 {
        let repeat = flag_equipment(&mut grid, &cursor, CursorMode::Placing, 100 + tick);
        assert_eq!(repeat, None);
        assert!(grid.cells[0].occupied);
        assert_eq!(grid.cells[0].occupied_by, Some(100));
    }
}

#[test]
fn deleting_over_an_occupied_cell_despawns_once() {
    let mut grid = fresh_grid();
    let cursor = CursorGridIdx { index: Some(3) };
    flag_equipment(&mut grid, &cursor, CursorMode::Placing, 7);
    let intent = flag_equipment(&mut grid, &cursor, CursorMode::Deleting, 8);
    assert_eq!(intent, Some(Intent::Despawn { cell: 3, occupant: Some(7) }));
    assert!(!grid.cells[3].occupied);
    assert_eq!(grid.cells[3].occupied_by, None);
    let repeat = flag_equipment(&mut grid, &cursor, CursorMode::Deleting, 9);
    assert_eq!(repeat, None);
}

#[test]
fn idle_mode_and_absent_cursor_change_nothing() {
    let mut grid = fresh_grid();
    let over_cell = CursorGridIdx { index: Some(2) };
    assert_eq!(flag_equipment(&mut grid, &over_cell, CursorMode::Idle, 1), None);
    assert!(!grid.cells[2].occupied);
    let nowhere = CursorGridIdx { index: None };
    assert_eq!(flag_equipment(&mut grid, &nowhere, CursorMode::Placing, 1), None);
    assert_eq!(flag_equipment(&mut grid, &nowhere, CursorMode::Deleting, 1), None);
    for cell in &grid.cells {
        assert!(!cell.occupied);
    }
}

#[test]
fn deleting_an_empty_cell_emits_nothing() {
    let mut grid = fresh_grid();
    let cursor = CursorGridIdx { index: Some(5) };
    assert_eq!(flag_equipment(&mut grid, &cursor, CursorMode::Deleting, 1), None);
    assert!(!grid.cells[5].occupied);
}

#[test]
fn equipment_is_created_unpriced() {
    let mut equipment = Equipment::new(6);
    assert_eq!(equipment.cell_idx, 6);
    assert_eq!(equipment.cost, None);
    equipment.assign_cost(10);
    assert_eq!(equipment.cell_idx, 6);
    assert_eq!(equipment.cost, Some(10));
}

#[test]
fn budget_charges_and_refunds_exactly_once() {
    let mut budget = Budget(0);
    define_budget(&mut budget, 500);
    assert_eq!(budget.0, 500);
    let mut a = Equipment::new(0);
    a.assign_cost(10);
    let mut b = Equipment::new(1);
    b.assign_cost(20);
    let mut c = Equipment::new(2);
    c.assign_cost(5);
    update_budget(&mut budget, &vec![a, b], &vec![c]);
    assert_eq!(budget.0, 500 - 10 - 20 + 5);
}

#[test]
fn unpriced_equipment_does_not_move_the_budget() {
    let mut budget = Budget(100);
    let unpriced = Equipment::new(4);
    update_budget(&mut budget, &vec![unpriced], &vec![unpriced]);
    assert_eq!(budget.0, 100);
}

#[test]
fn budget_can_go_negative() {
    let mut budget = Budget(5);
    let mut dear = Equipment::new(0);
    dear.assign_cost(10);
    update_budget(&mut budget, &vec![dear], &vec![]);
    assert_eq!(budget.0, -5);
}
