use piping_grid::grid::{create_grid, create_grid_index};
use piping_grid::spatial::{create_xy_index, update_cursor_idx, CursorGridIdx};

#[test]
fn xy_index_resolves_pixels_to_cells() {
    let (settings, index) = create_grid_index(50, 50, 200, 200).unwrap();
    let xy = create_xy_index(&index, &settings);
    assert_eq!(xy.index.len(), 200 * 200);
    // (40, 40) is nearest the centre (25, 25): cell 0.
    assert_eq!(xy.get(40, 40), Some(0));
    // (60, 40) is nearest the centre (75, 25): cell 4.
    assert_eq!(xy.get(60, 40), Some(4));
    assert_eq!(xy.get(0, 0), Some(0));
    assert_eq!(xy.get(199, 199), Some(15));
    // Half-distance ties resolve to the lower centre on each axis.
    assert_eq!(xy.get(50, 50), Some(0));
}

#[test]
fn xy_index_rejects_pixels_outside_the_grid() {
    let (settings, index) = create_grid_index(50, 50, 200, 200).unwrap();
    let xy = create_xy_index(&index, &settings);
    assert_eq!(xy.get(-1, 0), None);
    assert_eq!(xy.get(0, -1), None);
    assert_eq!(xy.get(200, 10), None);
    assert_eq!(xy.get(10, 200), None);
}

#[test]
fn resolved_cell_bounds_contain_the_pixel() {
    let (settings, index) = create_grid_index(5, 5, 17, 13).unwrap();
    let grid = create_grid(&settings);
    let xy = create_xy_index(&index, &settings);
    // Every pixel in the span covered by whole cells lies inside the
    // bounds of the cell it resolves to.
    let covered_w = settings.number_of_horizontal_cells * settings.cell_width;
    let covered_h = settings.number_of_vertical_cells * settings.cell_height;
    for x in 0..covered_w {
        for y in 0..covered_h {
            let id = xy.get(x, y).unwrap();
            let (left, right, top, bottom) = grid.cells[id].bounds;
            assert!(left <= x && x <= right);
            assert!(top <= y && y <= bottom);
        }
    }
}

#[test]
fn cursor_resolution_follows_the_pointer() {
    let (settings, index) = create_grid_index(50, 50, 200, 200).unwrap();
    let xy = create_xy_index(&index, &settings);
    let mut cursor_idx = CursorGridIdx { index: None };
    update_cursor_idx(&mut cursor_idx, &settings, &xy, Some((40, 40)));
    assert_eq!(cursor_idx.index, Some(0));
    update_cursor_idx(&mut cursor_idx, &settings, &xy, Some((60, 40)));
    assert_eq!(cursor_idx.index, Some(4));
    // An out-of-window position resolves to no cell.
    update_cursor_idx(&mut cursor_idx, &settings, &xy, Some((250, 40)));
    assert_eq!(cursor_idx.index, None);
    update_cursor_idx(&mut cursor_idx, &settings, &xy, Some((40, -2)));
    assert_eq!(cursor_idx.index, None);
    // An absent pointer resolves to no cell.
    update_cursor_idx(&mut cursor_idx, &settings, &xy, Some((10, 10)));
    update_cursor_idx(&mut cursor_idx, &settings, &xy, None);
    assert_eq!(cursor_idx.index, None);
}
