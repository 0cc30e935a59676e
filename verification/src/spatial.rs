//! The spatial lookup table: a precomputed mapping from every pixel
//! coordinate inside the grid to the id of the cell whose centre is
//! nearest, and the per-tick cursor resolution that consults it.

use vstd::prelude::*;

use crate::grid::{
    cell_geometry_wf,
    lemma_cell_id_bounds,
    lemma_settings_centres_increasing,
    lemma_settings_counts_positive,
    CellCentre,
    Grid,
    GridIndex,
    GridSettings,
};
use crate::lookup::{dist, find_closest_value, is_closest, strictly_increasing};

verus! {

use vstd::arithmetic::div_mod::{
    lemma_fundamental_div_mod,
    lemma_fundamental_div_mod_converse,
    lemma_mod_bound,
};
use vstd::arithmetic::mul::lemma_mul_upper_bound;

/// The cell with dense id `id` is the one whose centre is nearest to the
/// pixel `(x, y)`, resolving each axis independently.
pub open spec fn resolves_to(s: GridSettings, id: int, x: int, y: int) -> bool {
    exists|xi: int, yi: int|
        #![auto]
        0 <= xi < s.x_centers_vec@.len() && 0 <= yi < s.y_centers_vec@.len() && is_closest(
            s.x_centers_vec@,
            x,
            s.x_centers_vec@[xi],
        ) && is_closest(s.y_centers_vec@, y, s.y_centers_vec@[yi]) && id == s.cell_id(xi, yi)
}

/// Every entry of the flattened table resolves its pixel: the entry for
/// pixel `(x, y)` sits at offset `x * grid_height + y`.
pub open spec fn table_wf(s: GridSettings, t: Seq<usize>) -> bool {
    forall|k: int|
        0 <= k < t.len() ==> resolves_to(
            s,
            (#[trigger] t[k]) as int,
            k / s.grid_height as int,
            k % s.grid_height as int,
        )
}

/// Lookup from every pixel coordinate pair inside the grid to the owning
/// cell id; built once, immutable afterward.
#[derive(Clone, Debug, Default, PartialEq)]
pub struct XYIndex {
    pub grid_width: i32,
    pub grid_height: i32,
    pub index: Vec<usize>,
}

impl XYIndex {
    /// One entry per pixel, flattened column by column.
    pub open spec fn internal_wf(self) -> bool {
        &&& self.grid_width >= 0
        &&& self.grid_height >= 0
        &&& self.index@.len() == self.grid_width as int * self.grid_height as int
        &&& self.index@.len() <= usize::MAX
    }

    /// The table matches the given settings: same dimensions, and every
    /// entry resolves its pixel.
    pub open spec fn wf(self, s: GridSettings) -> bool {
        &&& self.internal_wf()
        &&& self.grid_width == s.grid_width
        &&& self.grid_height == s.grid_height
        &&& table_wf(s, self.index@)
    }

    /// The table entry for pixel `(x, y)`, or `None` for a pixel outside
    /// the grid.
    pub fn get(&self, x: i32, y: i32) -> (r: Option<usize>)
        requires
            self.internal_wf(),
        ensures
            r is Some <==> 0 <= x < self.grid_width && 0 <= y < self.grid_height,
            r matches Some(id) ==> id == self.index@[x as int * self.grid_height as int + y as int],
    {
        if 0 <= x && x < self.grid_width && 0 <= y && y < self.grid_height {
            proof {
                lemma_cell_id_bounds(
                    self.grid_width as int,
                    self.grid_height as int,
                    x as int,
                    y as int,
                );
            }
            let k = (x as usize) * (self.grid_height as usize) + (y as usize);
            Some(self.index[k])
        } else {
            None
        }
    }
}

/// Builds the full pixel-to-cell table from the centre tables and the
/// centre-to-id index, one nearest-centre resolution per pixel.
pub fn create_xy_index(grid_index: &GridIndex, grid_settings: &GridSettings) -> (xy: XYIndex)
    requires
        grid_settings.wf(),
        grid_index.wf(*grid_settings),
        grid_settings.grid_width as int * grid_settings.grid_height as int <= usize::MAX,
    ensures
        xy.wf(*grid_settings),
{
    let ghost s = *grid_settings;
    proof {
        lemma_settings_centres_increasing(*grid_settings);
        lemma_settings_counts_positive(*grid_settings);
        lemma_fundamental_div_mod(s.grid_width as int, s.cell_width as int);
        lemma_mod_bound(s.grid_width as int, s.cell_width as int);
        lemma_fundamental_div_mod(s.grid_height as int, s.cell_height as int);
        lemma_mod_bound(s.grid_height as int, s.cell_height as int);
        let hc = s.number_of_horizontal_cells as int;
        let vc = s.number_of_vertical_cells as int;
        let w = s.grid_width as int;
        let h = s.grid_height as int;
        assert(hc <= w) by (nonlinear_arith)
            requires
                s.cell_width as int * hc <= w,
                hc >= 0,
                s.cell_width as int >= 1,
        ;
        assert(vc <= h) by (nonlinear_arith)
            requires
                s.cell_height as int * vc <= h,
                vc >= 0,
                s.cell_height as int >= 1,
        ;
        lemma_mul_upper_bound(hc, w, vc, h);
    }
    let w = grid_settings.grid_width;
    let h = grid_settings.grid_height;
    let mut index: Vec<usize> = Vec::new();
    let mut x: i32 = 0;
    while x < w
        invariant
            s == *grid_settings,
            grid_settings.wf(),
            grid_index.wf(*grid_settings),
            strictly_increasing(s.x_centers_vec@),
            strictly_increasing(s.y_centers_vec@),
            s.number_of_horizontal_cells >= 1,
            s.number_of_vertical_cells >= 1,
            s.number_of_horizontal_cells as int * s.number_of_vertical_cells as int <= usize::MAX,
            w == s.grid_width,
            h == s.grid_height,
            0 <= x <= w,
            index@.len() == x as int * h as int,
            table_wf(s, index@),
        decreases w - x,
    {
        let mut y: i32 = 0;
        while y < h
            invariant
                s == *grid_settings,
                grid_settings.wf(),
                grid_index.wf(*grid_settings),
                strictly_increasing(s.x_centers_vec@),
                strictly_increasing(s.y_centers_vec@),
                s.number_of_horizontal_cells >= 1,
                s.number_of_vertical_cells >= 1,
                s.number_of_horizontal_cells as int * s.number_of_vertical_cells as int
                    <= usize::MAX,
                w == s.grid_width,
                h == s.grid_height,
                0 <= x < w,
                0 <= y <= h,
                index@.len() == x as int * h as int + y as int,
                table_wf(s, index@),
            decreases h - y,
        {
            let closest_x_centre = find_closest_value(&grid_settings.x_centers_vec, x);
            let closest_y_centre = find_closest_value(&grid_settings.y_centers_vec, y);
            let id_opt = grid_index.get(CellCentre::new(closest_x_centre, closest_y_centre));
            proof {
                let xi = choose|i: int|
                    0 <= i < s.x_centers_vec@.len() && s.x_centers_vec@[i] == closest_x_centre;
                let yi = choose|i: int|
                    0 <= i < s.y_centers_vec@.len() && s.y_centers_vec@[i] == closest_y_centre;
                assert(s.x_centers_vec@[xi] == closest_x_centre);
                assert(s.y_centers_vec@[yi] == closest_y_centre);
                assert(id_opt is Some && id_opt.unwrap() as int == s.cell_id(xi, yi));
                lemma_fundamental_div_mod_converse(
                    x as int * h as int + y as int,
                    h as int,
                    x as int,
                    y as int,
                );
                assert(resolves_to(s, id_opt.unwrap() as int, x as int, y as int));
            }
            index.push(id_opt.unwrap());
            y = y + 1;
        }
        proof {
            assert(x as int * h as int + h as int == (x as int + 1) * h as int)
                by (nonlinear_arith);
        }
        x = x + 1;
    }
    XYIndex { grid_width: w, grid_height: h, index }
}

/// Identifies the cell currently under the cursor, if any.
#[derive(Clone, Copy, Debug, Default, PartialEq, Eq, Structural)]
pub struct CursorGridIdx {
    pub index: Option<usize>,
}

/// Resolves the current pointer position to the cell under it: the table
/// entry for a position inside the grid, and no cell for an absent or
/// out-of-bounds position.
pub fn update_cursor_idx(
    cursor_idx: &mut CursorGridIdx,
    grid_settings: &GridSettings,
    xy_index: &XYIndex,
    cursor_position: Option<(i32, i32)>,
)
    requires
        grid_settings.wf(),
        xy_index.wf(*grid_settings),
    ensures
        final(cursor_idx).index is Some <==> (cursor_position is Some && {
            let p = cursor_position.unwrap();
            0 <= p.0 < grid_settings.grid_width && 0 <= p.1 < grid_settings.grid_height
        }),
        (cursor_position is Some && {
            let p = cursor_position.unwrap();
            0 <= p.0 < grid_settings.grid_width && 0 <= p.1 < grid_settings.grid_height
        }) ==> resolves_to(
            *grid_settings,
            final(cursor_idx).index.unwrap() as int,
            cursor_position.unwrap().0 as int,
            cursor_position.unwrap().1 as int,
        ),
{
    match cursor_position {
        Some(world_position) => {
            let r = xy_index.get(world_position.0, world_position.1);
            proof {
                let x = world_position.0 as int;
                let y = world_position.1 as int;
                let h = grid_settings.grid_height as int;
                if 0 <= x < grid_settings.grid_width as int && 0 <= y < h {
                    lemma_cell_id_bounds(grid_settings.grid_width as int, h, x, y);
                    lemma_fundamental_div_mod_converse(x * h + y, h, x, y);
                }
            }
            cursor_idx.index = r;
        },
        None => {
            cursor_idx.index = None;
        },
    }
}

/// Resolution is deterministic: a pixel resolves to exactly one cell id,
/// so the resolved cell is the sole authority for "which cell is under
/// the pointer".
pub proof fn lemma_resolves_to_unique(s: GridSettings, id1: int, id2: int, x: int, y: int)
    requires
        s.wf(),
        resolves_to(s, id1, x, y),
        resolves_to(s, id2, x, y),
    ensures
        id1 == id2,
{
    lemma_settings_centres_increasing(s);
    let (xi1, yi1) = choose|xi: int, yi: int|
        #![auto]
        0 <= xi < s.x_centers_vec@.len() && 0 <= yi < s.y_centers_vec@.len() && is_closest(
            s.x_centers_vec@,
            x,
            s.x_centers_vec@[xi],
        ) && is_closest(s.y_centers_vec@, y, s.y_centers_vec@[yi]) && id1 == s.cell_id(xi, yi);
    let (xi2, yi2) = choose|xi: int, yi: int|
        #![auto]
        0 <= xi < s.x_centers_vec@.len() && 0 <= yi < s.y_centers_vec@.len() && is_closest(
            s.x_centers_vec@,
            x,
            s.x_centers_vec@[xi],
        ) && is_closest(s.y_centers_vec@, y, s.y_centers_vec@[yi]) && id2 == s.cell_id(xi, yi);
    crate::lookup::lemma_closest_unique(
        s.x_centers_vec@,
        x,
        s.x_centers_vec@[xi1],
        s.x_centers_vec@[xi2],
    );
    crate::lookup::lemma_closest_unique(
        s.y_centers_vec@,
        y,
        s.y_centers_vec@[yi1],
        s.y_centers_vec@[yi2],
    );
    assert(xi1 == xi2);
    assert(yi1 == yi2);
}

/// The nearest centre to a coordinate inside the covered span of an axis
/// lies within half a cell of it.
proof fn lemma_closest_within_half_cell(s: Seq<i32>, cell_size: int, t: int, r: i32)
    requires
        0 < cell_size,
        s.len() >= 1,
        forall|k: int|
            0 <= k < s.len() ==> (#[trigger] s[k]) as int == cell_size / 2 + k * cell_size,
        0 <= t < s.len() * cell_size,
        is_closest(s, t, r),
    ensures
        dist(t, r as int) <= cell_size / 2,
{
    let q = t / cell_size;
    lemma_fundamental_div_mod(t, cell_size);
    lemma_mod_bound(t, cell_size);
    assert(0 <= q < s.len()) by (nonlinear_arith)
        requires
            cell_size * q + t % cell_size == t,
            0 <= t % cell_size,
            t % cell_size < cell_size,
            0 <= t,
            t < s.len() * cell_size,
            0 < cell_size,
    ;
    lemma_fundamental_div_mod(cell_size, 2);
    lemma_mod_bound(cell_size, 2);
    assert(s[q] as int == cell_size / 2 + q * cell_size);
    assert(q * cell_size == cell_size * q) by (nonlinear_arith);
    assert(dist(t, s[q] as int) <= cell_size / 2);
    assert(dist(t, r as int) <= dist(t, s[q] as int));
}

/// Any pixel inside the span covered by whole cells is contained in the
/// bounds of the cell it resolves to: the resolved id is a live cell and
/// the pixel lies between that cell's left/right and top/bottom bounds.
pub proof fn lemma_resolved_cell_contains_point(s: GridSettings, grid: Grid, id: int, x: int, y: int)
    requires
        s.wf(),
        grid.wf(s),
        resolves_to(s, id, x, y),
        0 <= x < s.number_of_horizontal_cells as int * s.cell_width as int,
        0 <= y < s.number_of_vertical_cells as int * s.cell_height as int,
    ensures
        0 <= id < grid.cells@.len(),
        grid.cells@[id].bounds.0 as int <= x <= grid.cells@[id].bounds.1 as int,
        grid.cells@[id].bounds.2 as int <= y <= grid.cells@[id].bounds.3 as int,
{
    let hc = s.number_of_horizontal_cells as int;
    let vc = s.number_of_vertical_cells as int;
    let (xi, yi) = choose|xi: int, yi: int|
        #![auto]
        0 <= xi < s.x_centers_vec@.len() && 0 <= yi < s.y_centers_vec@.len() && is_closest(
            s.x_centers_vec@,
            x,
            s.x_centers_vec@[xi],
        ) && is_closest(s.y_centers_vec@, y, s.y_centers_vec@[yi]) && id == s.cell_id(xi, yi);
    lemma_cell_id_bounds(hc, vc, xi, yi);
    lemma_fundamental_div_mod_converse(id, vc, xi, yi);
    lemma_closest_within_half_cell(s.x_centers_vec@, s.cell_width as int, x, s.x_centers_vec@[xi]);
    lemma_closest_within_half_cell(s.y_centers_vec@, s.cell_height as int, y, s.y_centers_vec@[yi]);
    assert(cell_geometry_wf(grid.cells@[id], s, id));
}

} // verus!
