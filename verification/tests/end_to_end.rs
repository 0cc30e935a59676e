use piping_grid::cursor::{handle_mouse_click, CursorMode};
use piping_grid::equipment::{flag_equipment, Intent};
use piping_grid::grid::{
    create_grid, create_grid_index, fill_all_cell_neighbours, CellCentre, Grid, GridSettings,
};
use piping_grid::spatial::{create_xy_index, update_cursor_idx, CursorGridIdx, XYIndex};

struct Session {
    settings: GridSettings,
    grid: Grid,
    xy: XYIndex,
    mode: CursorMode,
    cursor_idx: CursorGridIdx,
    spawns: Vec<usize>,
    despawns: Vec<usize>,
    next_occupant: usize,
}

impl Session {
    fn start() -> Self {
        let (settings, index) = create_grid_index(50, 50, 200, 200).unwrap();
        let mut grid = create_grid(&settings);
        fill_all_cell_neighbours(&mut grid, &settings, &index);
        let xy = create_xy_index(&index, &settings);
        Session {
            settings,
            grid,
            xy,
            mode: CursorMode::default(),
            cursor_idx: CursorGridIdx { index: None },
            spawns: Vec::new(),
            despawns: Vec::new(),
            next_occupant: 0,
        }
    }

    /// One tick: resolve the pointer, apply button edges, reconcile.
    fn tick(&mut self, pointer: Option<(i32, i32)>, left: bool, right: bool) {
        update_cursor_idx(&mut self.cursor_idx, &self.settings, &self.xy, pointer);
        handle_mouse_click(&mut self.mode, left, right);
        let intent = flag_equipment(&mut self.grid, &self.cursor_idx, self.mode, self.next_occupant);
        match intent {
            Some(Intent::Spawn { cell }) => {
                self.next_occupant += 1;
                self.spawns.push(cell);
            }
            Some(Intent::Despawn { cell, occupant: _ }) => {
                self.despawns.push(cell);
            }
            None => {}
        }
    }
}

#[test]
fn sixteen_cells_with_the_expected_centres() {
    let session = Session::start();
    assert_eq!(session.grid.cells.len(), 16);
    let expected = [25, 75, 125, 175];
    for cell in &session.grid.cells {
        assert!(expected.contains(&cell.centre.x));
        assert!(expected.contains(&cell.centre.y));
    }
}

#[test]
fn placement_sweep_then_single_deletion() {
    let mut session = Session::start();
    let cell_a = session.xy.get(40, 40).unwrap();
    let cell_b = session.xy.get(60, 40).unwrap();
    assert_eq!(session.grid.cells[cell_a].centre, CellCentre::new(25, 25));
    assert_eq!(session.grid.cells[cell_b].centre, CellCentre::new(75, 25));

    // Left edge starts placement; the pointer visits (40,40) then (60,40);
    // a second left edge toggles placement off.
    session.tick(Some((40, 40)), true, false);
    session.tick(Some((40, 40)), false, false);
    session.tick(Some((60, 40)), false, false);
    session.tick(Some((60, 40)), true, false);
    assert_eq!(session.mode, CursorMode::Idle);
    assert_eq!(session.spawns, vec![cell_a, cell_b]);
    assert_eq!(session.despawns, Vec::<usize>::new());

    // A right edge starts deletion and the pointer revisits (40,40).
    session.tick(Some((60, 60)), false, true);
    assert_eq!(session.mode, CursorMode::Deleting);
    session.tick(Some((40, 40)), false, false);
    assert_eq!(session.despawns, vec![cell_a]);
    assert_eq!(session.spawns, vec![cell_a, cell_b]);
    assert!(!session.grid.cells[cell_a].occupied);
    assert!(session.grid.cells[cell_b].occupied);
}
