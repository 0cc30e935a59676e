//! The grid: cell geometry derived from configuration, the centre-to-cell
//! index, the cell records themselves, and the neighbour links.

use vstd::prelude::*;

use crate::lookup::{binary_search_index, strictly_increasing};

verus! {

use vstd::arithmetic::div_mod::{lemma_fundamental_div_mod, lemma_mod_bound};
use vstd::arithmetic::mul::{
    lemma_mul_inequality,
    lemma_mul_nonnegative,
    lemma_mul_strict_inequality,
};

/// Rejected grid configuration: dimensions must be positive and a cell
/// must fit inside the grid.
#[derive(Clone, Copy, Debug, PartialEq, Eq, Structural)]
pub enum ConfigurationError {
    NonPositiveDimension,
    CellLargerThanGrid,
}

/// A configuration is accepted exactly when every dimension is positive
/// and the cell fits inside the grid on both axes.
pub open spec fn valid_configuration(
    cell_width: i32,
    cell_height: i32,
    grid_width: i32,
    grid_height: i32,
) -> bool {
    &&& 0 < cell_width <= grid_width
    &&& 0 < cell_height <= grid_height
}

/// The x,y position of a cell's geometric centre; used as an exact
/// integer key, with no tolerance.
#[derive(Clone, Copy, Debug, Default, PartialEq, Eq, Hash, Structural)]
pub struct CellCentre {
    pub x: i32,
    pub y: i32,
}

impl CellCentre {
    pub fn new(x: i32, y: i32) -> (r: Self)
        ensures
            r.x == x,
            r.y == y,
    {
        Self { x, y }
    }
}

/// Cell geometry derived once from configuration: dimensions, cell counts,
/// and the sorted per-axis centre tables.
#[derive(Clone, Debug, Default, PartialEq)]
pub struct GridSettings {
    pub cell_width: i32,
    pub cell_height: i32,
    pub grid_width: i32,
    pub grid_height: i32,
    pub number_of_horizontal_cells: i32,
    pub number_of_vertical_cells: i32,
    /// All cell centre points along the x axis, strictly ascending.
    pub x_centers_vec: Vec<i32>,
    /// All cell centre points along the y axis, strictly ascending.
    pub y_centers_vec: Vec<i32>,
}

impl GridSettings {
    /// The settings are internally consistent: counts are the quotients of
    /// the grid dimensions by the cell dimensions, and each centre table
    /// holds the arithmetic sequence starting at half a cell.
    pub open spec fn wf(self) -> bool {
        &&& valid_configuration(self.cell_width, self.cell_height, self.grid_width,
        self.grid_height)
        &&& self.number_of_horizontal_cells as int == self.grid_width as int
            / self.cell_width as int
        &&& self.number_of_vertical_cells as int == self.grid_height as int
            / self.cell_height as int
        &&& self.x_centers_vec@.len() == self.number_of_horizontal_cells as int
        &&& self.y_centers_vec@.len() == self.number_of_vertical_cells as int
        &&& forall|k: int|
            0 <= k < self.x_centers_vec@.len() ==> (#[trigger] self.x_centers_vec@[k]) as int
                == self.cell_width as int / 2 + k * self.cell_width as int
        &&& forall|k: int|
            0 <= k < self.y_centers_vec@.len() ==> (#[trigger] self.y_centers_vec@[k]) as int
                == self.cell_height as int / 2 + k * self.cell_height as int
    }

    /// The dense id of the cell at per-axis indices `(xi, yi)`: cells are
    /// numbered column by column.
    pub open spec fn cell_id(self, xi: int, yi: int) -> int {
        xi * self.number_of_vertical_cells as int + yi
    }
}

/// Maps a cell centre to the dense id of its cell; built once, immutable
/// afterward.  Every centre in `x_centers_vec x y_centers_vec` has exactly
/// one entry.
#[derive(Clone, Debug, Default, PartialEq)]
pub struct GridIndex {
    pub x_centers_vec: Vec<i32>,
    pub y_centers_vec: Vec<i32>,
}

impl GridIndex {
    /// The index agrees with the given settings.
    pub open spec fn wf(self, settings: GridSettings) -> bool {
        &&& self.x_centers_vec@ == settings.x_centers_vec@
        &&& self.y_centers_vec@ == settings.y_centers_vec@
    }

    /// Some cell centre of the grid has exactly these coordinates.
    pub open spec fn contains_centre(self, centre: CellCentre) -> bool {
        exists|xi: int, yi: int|
            #![auto]
            0 <= xi < self.x_centers_vec@.len() && 0 <= yi < self.y_centers_vec@.len()
                && self.x_centers_vec@[xi] == centre.x && self.y_centers_vec@[yi] == centre.y
    }

    /// Looks up the dense cell id of a centre, or `None` if no cell has
    /// that centre.
    pub fn get(&self, centre: CellCentre) -> (r: Option<usize>)
        requires
            strictly_increasing(self.x_centers_vec@),
            strictly_increasing(self.y_centers_vec@),
            self.x_centers_vec@.len() * self.y_centers_vec@.len() <= usize::MAX,
        ensures
            r.is_some() <==> self.contains_centre(centre),
            forall|xi: int, yi: int|
                0 <= xi < self.x_centers_vec@.len() && 0 <= yi < self.y_centers_vec@.len()
                    && (#[trigger] self.x_centers_vec@[xi]) == centre.x && (
                #[trigger] self.y_centers_vec@[yi]) == centre.y ==> r.is_some()
                    && r.unwrap() as int == xi * self.y_centers_vec@.len() + yi,
    {
        let xi_opt = binary_search_index(&self.x_centers_vec, centre.x);
        let yi_opt = binary_search_index(&self.y_centers_vec, centre.y);
        match (xi_opt, yi_opt) {
            (Some(xi), Some(yi)) => {
                proof {
                    let xii = xi as int;
                    let yii = yi as int;
                    let xlen = self.x_centers_vec@.len() as int;
                    let ylen = self.y_centers_vec@.len() as int;
                    assert(xii * ylen + yii < xlen * ylen) by (nonlinear_arith)
                        requires
                            0 <= xii < xlen,
                            0 <= yii < ylen,
                    ;
                    assert forall|a: int, b: int|
                        0 <= a < self.x_centers_vec@.len() && 0 <= b
                            < self.y_centers_vec@.len() && (#[trigger] self.x_centers_vec@[a])
                            == centre.x && (#[trigger] self.y_centers_vec@[b])
                            == centre.y implies a == xi as int && b == yi as int by {
                        assert(self.x_centers_vec@[xi as int] == centre.x);
                        assert(self.y_centers_vec@[yi as int] == centre.y);
                    }
                }
                Some(xi * self.y_centers_vec.len() + yi)
            },
            _ => None,
        }
    }
}

/// The dense ids of the four axis-aligned neighbours of a cell, where
/// present.  Increasing y is "down": `top` is the smaller y index.
#[derive(Clone, Copy, Debug, Default, PartialEq, Eq, Structural)]
pub struct CellNeighbours {
    pub left: Option<usize>,
    pub right: Option<usize>,
    pub top: Option<usize>,
    pub bottom: Option<usize>,
}

/// One fixed-size rectangular region of the grid.  Its geometry is fully
/// determined by its centre and the configured cell dimensions and never
/// changes after construction.
#[derive(Clone, Copy, Debug, PartialEq)]
pub struct Cell {
    pub id: usize,
    /// The x,y position of the cell's centre in the grid.
    pub centre: CellCentre,
    /// The bounds of the cell (left, right, top, bottom).
    pub bounds: (i32, i32, i32, i32),
    /// Whether the cell is occupied by a piece of equipment.
    pub occupied: bool,
    /// The id of the occupant, when occupied.
    pub occupied_by: Option<usize>,
    /// The ids of the neighbour cells.
    pub neighbours: CellNeighbours,
}

/// Owns every cell record, indexed by dense cell id.
#[derive(Clone, Debug, Default, PartialEq)]
pub struct Grid {
    pub cells: Vec<Cell>,
}

/// The cell at dense id `id` carries the geometry the settings prescribe
/// for it: its centre comes from the centre tables and its bounds are the
/// centre plus or minus half a cell.
pub open spec fn cell_geometry_wf(c: Cell, s: GridSettings, id: int) -> bool {
    &&& c.id == id
    &&& c.centre.x == s.x_centers_vec@[s.xi_of(id)]
    &&& c.centre.y == s.y_centers_vec@[s.yi_of(id)]
    &&& c.bounds.0 as int == c.centre.x as int - s.cell_width as int / 2
    &&& c.bounds.1 as int == c.centre.x as int + s.cell_width as int / 2
    &&& c.bounds.2 as int == c.centre.y as int - s.cell_height as int / 2
    &&& c.bounds.3 as int == c.centre.y as int + s.cell_height as int / 2
}

impl GridSettings {
    /// The per-axis x index of the cell with dense id `id`.
    pub open spec fn xi_of(self, id: int) -> int {
        id / (self.number_of_vertical_cells as int)
    }

    /// The per-axis y index of the cell with dense id `id`.
    pub open spec fn yi_of(self, id: int) -> int {
        id % (self.number_of_vertical_cells as int)
    }
}

impl Grid {
    /// One cell per centre, in dense id order, each with the geometry the
    /// settings prescribe.
    pub open spec fn wf(self, s: GridSettings) -> bool {
        &&& self.cells@.len() == s.number_of_horizontal_cells as int
            * s.number_of_vertical_cells as int
        &&& self.cells@.len() <= usize::MAX
        &&& forall|id: int|
            0 <= id < self.cells@.len() ==> cell_geometry_wf(
                #[trigger] self.cells@[id],
                s,
                id,
            )
    }

    /// A cell is flagged occupied exactly when it records an occupant.
    pub open spec fn occupancy_consistent(self) -> bool {
        forall|id: int|
            0 <= id < self.cells@.len() ==> ((#[trigger] self.cells@[id]).occupied
                <==> self.cells@[id].occupied_by is Some)
    }
}

/// The centre tables of well-formed settings are strictly increasing.
pub proof fn lemma_settings_centres_increasing(s: GridSettings)
    requires
        s.wf(),
    ensures
        strictly_increasing(s.x_centers_vec@),
        strictly_increasing(s.y_centers_vec@),
{
    assert forall|i: int, j: int|
        0 <= i < j < s.x_centers_vec@.len() implies (#[trigger] s.x_centers_vec@[i]) < (
    #[trigger] s.x_centers_vec@[j]) by {
        lemma_mul_strict_inequality(i, j, s.cell_width as int);
    }
    assert forall|i: int, j: int|
        0 <= i < j < s.y_centers_vec@.len() implies (#[trigger] s.y_centers_vec@[i]) < (
    #[trigger] s.y_centers_vec@[j]) by {
        lemma_mul_strict_inequality(i, j, s.cell_height as int);
    }
}

/// Well-formed settings have at least one cell on each axis.
pub proof fn lemma_settings_counts_positive(s: GridSettings)
    requires
        s.wf(),
    ensures
        s.number_of_horizontal_cells >= 1,
        s.number_of_vertical_cells >= 1,
{
    lemma_fundamental_div_mod(s.grid_width as int, s.cell_width as int);
    lemma_mod_bound(s.grid_width as int, s.cell_width as int);
    lemma_fundamental_div_mod(s.grid_height as int, s.cell_height as int);
    lemma_mod_bound(s.grid_height as int, s.cell_height as int);
    let hc = s.number_of_horizontal_cells as int;
    let vc = s.number_of_vertical_cells as int;
    let cw = s.cell_width as int;
    let ch = s.cell_height as int;
    let w = s.grid_width as int;
    let h = s.grid_height as int;
    assert(hc >= 1) by (nonlinear_arith)
        requires
            cw * hc + w % cw == w,
            0 <= w % cw,
            w % cw < cw,
            0 < cw,
            cw <= w,
    ;
    assert(vc >= 1) by (nonlinear_arith)
        requires
            ch * vc + h % ch == h,
            0 <= h % ch,
            h % ch < ch,
            0 < ch,
            ch <= h,
    ;
}

/// The dense id of the cell at per-axis indices inside a grid of
/// `hc` by `vc` cells stays inside `[0, hc * vc)`.
pub proof fn lemma_cell_id_bounds(hc: int, vc: int, xi: int, yi: int)
    by (nonlinear_arith)
    requires
        0 <= xi < hc,
        0 <= yi < vc,
    ensures
        0 <= xi * vc + yi < hc * vc,
{
}

/// Builds one Cell record for every centre in the index, in dense id
/// order, all unoccupied and with no neighbour links yet.
pub fn create_grid(grid_settings: &GridSettings) -> (grid: Grid)
    requires
        grid_settings.wf(),
    ensures
        grid.wf(*grid_settings),
        grid.occupancy_consistent(),
        forall|id: int|
            0 <= id < grid.cells@.len() ==> {
                let c = #[trigger] grid.cells@[id];
                c.occupied == false && c.occupied_by is None && c.neighbours
                    == (CellNeighbours { left: None, right: None, top: None, bottom: None })
            },
{
    let vc = grid_settings.y_centers_vec.len();
    let hc = grid_settings.x_centers_vec.len();
    let mut cells: Vec<Cell> = Vec::new();
    let mut xi: usize = 0;
    while xi < hc
        invariant
            grid_settings.wf(),
            hc == grid_settings.x_centers_vec@.len(),
            vc == grid_settings.y_centers_vec@.len(),
            xi <= hc,
            cells@.len() == xi as int * vc as int,
            forall|id: int|
                0 <= id < cells@.len() ==> cell_geometry_wf(#[trigger] cells@[id], *grid_settings, id),
            forall|id: int|
                0 <= id < cells@.len() ==> {
                    let c = #[trigger] cells@[id];
                    c.occupied == false && c.occupied_by is None && c.neighbours
                        == (CellNeighbours { left: None, right: None, top: None, bottom: None })
                },
        decreases hc - xi,
    {
        let mut yi: usize = 0;
        while yi < vc
            invariant
                grid_settings.wf(),
                hc == grid_settings.x_centers_vec@.len(),
                vc == grid_settings.y_centers_vec@.len(),
                xi < hc,
                yi <= vc,
                cells@.len() == xi as int * vc as int + yi as int,
                forall|id: int|
                    0 <= id < cells@.len() ==> cell_geometry_wf(
                        #[trigger] cells@[id],
                        *grid_settings,
                        id,
                    ),
                forall|id: int|
                    0 <= id < cells@.len() ==> {
                        let c = #[trigger] cells@[id];
                        c.occupied == false && c.occupied_by is None && c.neighbours
                            == (CellNeighbours { left: None, right: None, top: None, bottom: None })
                    },
            decreases vc - yi,
        {
            let centre_x = grid_settings.x_centers_vec[xi];
            let centre_y = grid_settings.y_centers_vec[yi];
            proof {
                lemma_mul_nonnegative(xi as int, grid_settings.cell_width as int);
                lemma_mul_nonnegative(yi as int, grid_settings.cell_height as int);
                lemma_fundamental_div_mod(
                    grid_settings.grid_width as int,
                    grid_settings.cell_width as int,
                );
                lemma_mod_bound(grid_settings.grid_width as int, grid_settings.cell_width as int);
                lemma_fundamental_div_mod(
                    grid_settings.grid_height as int,
                    grid_settings.cell_height as int,
                );
                lemma_mod_bound(grid_settings.grid_height as int, grid_settings.cell_height as int);
                lemma_mul_inequality(
                    xi as int + 1,
                    grid_settings.number_of_horizontal_cells as int,
                    grid_settings.cell_width as int,
                );
                lemma_mul_inequality(
                    yi as int + 1,
                    grid_settings.number_of_vertical_cells as int,
                    grid_settings.cell_height as int,
                );
                assert((xi as int + 1) * grid_settings.cell_width as int == xi as int
                    * grid_settings.cell_width as int + grid_settings.cell_width as int)
                    by (nonlinear_arith);
                assert((yi as int + 1) * grid_settings.cell_height as int == yi as int
                    * grid_settings.cell_height as int + grid_settings.cell_height as int)
                    by (nonlinear_arith);
            }
            let left = centre_x - grid_settings.cell_width / 2;
            let right = centre_x + grid_settings.cell_width / 2;
            let top = centre_y - grid_settings.cell_height / 2;
            let bottom = centre_y + grid_settings.cell_height / 2;
            let id = cells.len();
            proof {
                vstd::arithmetic::div_mod::lemma_fundamental_div_mod_converse(
                    id as int,
                    vc as int,
                    xi as int,
                    yi as int,
                );
            }
            cells.push(
                Cell {
                    id,
                    centre: CellCentre::new(centre_x, centre_y),
                    bounds: (left, right, top, bottom),
                    occupied: false,
                    occupied_by: None,
                    neighbours: CellNeighbours { left: None, right: None, top: None, bottom: None },
                },
            );
            yi = yi + 1;
        }
        proof {
            assert(xi as int * vc as int + vc as int == (xi as int + 1) * vc as int)
                by (nonlinear_arith);
        }
        xi = xi + 1;
    }
    let grid = Grid { cells };
    proof {
        assert(grid.cells@.len() <= usize::MAX) by {
            vstd::std_specs::vec::axiom_spec_len(&grid.cells);
        }
    }
    grid
}

/// Builds one axis's centre table: the arithmetic sequence
/// `cell_size / 2 + k * cell_size` for `k` in `[0, total_size / cell_size)`.
fn build_centres(cell_size: i32, total_size: i32) -> (v: Vec<i32>)
    requires
        0 < cell_size <= total_size,
    ensures
        v@.len() == total_size as int / cell_size as int,
        v@.len() >= 1,
        forall|k: int|
            0 <= k < v@.len() ==> (#[trigger] v@[k]) as int == cell_size as int / 2 + k
                * cell_size as int,
        strictly_increasing(v@),
{
    let count = total_size / cell_size;
    proof {
        lemma_fundamental_div_mod(total_size as int, cell_size as int);
        lemma_mod_bound(total_size as int, cell_size as int);
        let c = count as int;
        let cs = cell_size as int;
        let ts = total_size as int;
        assert(c >= 1) by (nonlinear_arith)
            requires
                cs * c + ts % cs == ts,
                0 <= ts % cs,
                ts % cs < cs,
                0 < cs,
                cs <= ts,
        ;
    }
    let mut centres: Vec<i32> = Vec::new();
    let mut i: i32 = 0;
    while i < count
        invariant
            0 <= i <= count,
            count as int >= 1,
            0 < cell_size as int <= total_size as int,
            cell_size as int * count as int <= total_size as int,
            centres@.len() == i as int,
            forall|k: int|
                0 <= k < i as int ==> (#[trigger] centres@[k]) as int == cell_size as int / 2 + k
                    * cell_size as int,
        decreases count - i,
    {
        proof {
            lemma_mul_nonnegative(i as int, cell_size as int);
            lemma_mul_inequality(i as int + 1, count as int, cell_size as int);
            assert((i as int + 1) * cell_size as int == i as int * cell_size as int
                + cell_size as int) by (nonlinear_arith);
        }
        let left = i * cell_size;
        let x = left + cell_size / 2;
        centres.push(x);
        i = i + 1;
    }
    proof {
        assert forall|a: int, b: int|
            0 <= a < b < centres@.len() implies (#[trigger] centres@[a]) < (
        #[trigger] centres@[b]) by {
            lemma_mul_strict_inequality(a, b, cell_size as int);
        }
    }
    centres
}

/// Derives the cell geometry from configuration: computes the cell counts,
/// fills both per-axis centre tables, and produces the centre-to-cell-id
/// index.  Fails fast on an invalid configuration, before anything is
/// built.
pub fn create_grid_index(
    cell_width: i32,
    cell_height: i32,
    grid_width: i32,
    grid_height: i32,
) -> (r: Result<(GridSettings, GridIndex), ConfigurationError>)
    ensures
        r.is_ok() <==> valid_configuration(cell_width, cell_height, grid_width, grid_height),
        !(cell_width > 0 && cell_height > 0 && grid_width > 0 && grid_height > 0) ==> r == Err::<
            (GridSettings, GridIndex),
            ConfigurationError,
        >(ConfigurationError::NonPositiveDimension),
        cell_width > 0 && cell_height > 0 && grid_width > 0 && grid_height > 0 && (cell_width
            > grid_width || cell_height > grid_height) ==> r == Err::<
            (GridSettings, GridIndex),
            ConfigurationError,
        >(ConfigurationError::CellLargerThanGrid),
        r matches Ok(p) ==> p.0.wf() && p.1.wf(p.0) && p.0.cell_width == cell_width
            && p.0.cell_height == cell_height && p.0.grid_width == grid_width && p.0.grid_height
            == grid_height,
        r matches Ok(p) ==> p.0.x_centers_vec@.len() == grid_width as int / cell_width as int
            && p.0.y_centers_vec@.len() == grid_height as int / cell_height as int,
        r matches Ok(p) ==> strictly_increasing(p.0.x_centers_vec@) && strictly_increasing(
            p.0.y_centers_vec@,
        ),
        r matches Ok(p) ==> p.0.x_centers_vec@[0] as int == cell_width as int / 2
            && p.0.y_centers_vec@[0] as int == cell_height as int / 2,
{
    if cell_width <= 0 || cell_height <= 0 || grid_width <= 0 || grid_height <= 0 {
        return Err(ConfigurationError::NonPositiveDimension);
    }
    if cell_width > grid_width || cell_height > grid_height {
        return Err(ConfigurationError::CellLargerThanGrid);
    }
    let number_of_horizontal_cells = grid_width / cell_width;
    let number_of_vertical_cells = grid_height / cell_height;
    let x_centers_vec = build_centres(cell_width, grid_width);
    let y_centers_vec = build_centres(cell_height, grid_height);
    let grid_index = GridIndex {
        x_centers_vec: x_centers_vec.clone(),
        y_centers_vec: y_centers_vec.clone(),
    };
    let grid_settings = GridSettings {
        cell_width,
        cell_height,
        grid_width,
        grid_height,
        number_of_horizontal_cells,
        number_of_vertical_cells,
        x_centers_vec,
        y_centers_vec,
    };
    Ok((grid_settings, grid_index))
}

/// The neighbour links the settings prescribe for the cell with dense id
/// `id`: the adjacent per-axis index in each direction, or `None` at a
/// grid boundary.
pub open spec fn neighbours_of(s: GridSettings, id: int) -> CellNeighbours {
    let hc = s.number_of_horizontal_cells as int;
    let vc = s.number_of_vertical_cells as int;
    let xi = s.xi_of(id);
    let yi = s.yi_of(id);
    CellNeighbours {
        left: if xi > 0 {
            Some((s.cell_id(xi - 1, yi)) as usize)
        } else {
            None
        },
        right: if xi < hc - 1 {
            Some((s.cell_id(xi + 1, yi)) as usize)
        } else {
            None
        },
        top: if yi > 0 {
            Some((s.cell_id(xi, yi - 1)) as usize)
        } else {
            None
        },
        bottom: if yi < vc - 1 {
            Some((s.cell_id(xi, yi + 1)) as usize)
        } else {
            None
        },
    }
}

impl Grid {
    /// Every cell carries exactly the neighbour links the settings
    /// prescribe for its id.
    pub open spec fn neighbours_linked(self, s: GridSettings) -> bool {
        forall|id: int|
            0 <= id < self.cells@.len() ==> (#[trigger] self.cells@[id]).neighbours
                == neighbours_of(s, id)
    }
}

/// Resolves per-axis indices to the dense id of the cell there, through
/// the centre tables and the centre-to-id index.
pub fn get_cell_id_from_x_y_index(
    x_index: usize,
    y_index: usize,
    grid_settings: &GridSettings,
    grid_index: &GridIndex,
) -> (r: Option<usize>)
    requires
        grid_settings.wf(),
        grid_index.wf(*grid_settings),
        x_index < grid_settings.x_centers_vec@.len(),
        y_index < grid_settings.y_centers_vec@.len(),
        grid_settings.x_centers_vec@.len() * grid_settings.y_centers_vec@.len() <= usize::MAX,
    ensures
        r is Some,
        r.unwrap() as int == grid_settings.cell_id(x_index as int, y_index as int),
{
    proof {
        lemma_settings_centres_increasing(*grid_settings);
    }
    let x_centre = grid_settings.x_centers_vec[x_index];
    let y_centre = grid_settings.y_centers_vec[y_index];
    grid_index.get(CellCentre::new(x_centre, y_centre))
}

/// One-shot pass filling each cell's four neighbour ids from the per-axis
/// centre tables and the centre-to-id index; geometry and occupancy are
/// left untouched.
pub fn fill_all_cell_neighbours(
    grid: &mut Grid,
    grid_settings: &GridSettings,
    grid_index: &GridIndex,
)
    requires
        old(grid).wf(*grid_settings),
        grid_settings.wf(),
        grid_index.wf(*grid_settings),
    ensures
        final(grid).wf(*grid_settings),
        final(grid).neighbours_linked(*grid_settings),
        final(grid).cells@.len() == old(grid).cells@.len(),
        forall|id: int|
            0 <= id < old(grid).cells@.len() ==> {
                let c0 = old(grid).cells@[id];
                let c1 = #[trigger] final(grid).cells@[id];
                c1.id == c0.id && c1.centre == c0.centre && c1.bounds == c0.bounds && c1.occupied
                    == c0.occupied && c1.occupied_by == c0.occupied_by
            },
{
    let ghost cells0 = grid.cells@;
    let ghost s = *grid_settings;
    proof {
        lemma_settings_centres_increasing(*grid_settings);
        lemma_settings_counts_positive(*grid_settings);
    }
    let hc = grid_settings.x_centers_vec.len();
    let vc = grid_settings.y_centers_vec.len();
    let n = grid.cells.len();
    let mut id: usize = 0;
    while id < n
        invariant
            s == *grid_settings,
            grid_settings.wf(),
            grid_index.wf(*grid_settings),
            strictly_increasing(s.x_centers_vec@),
            strictly_increasing(s.y_centers_vec@),
            hc == s.x_centers_vec@.len(),
            vc == s.y_centers_vec@.len(),
            vc >= 1,
            n == grid.cells@.len(),
            grid.cells@.len() == cells0.len(),
            grid.cells@.len() == hc as int * vc as int,
            grid.cells@.len() <= usize::MAX,
            id <= n,
            forall|k: int| 0 <= k < n ==> cell_geometry_wf(#[trigger] cells0[k], s, k),
            forall|k: int| id <= k < n ==> (#[trigger] grid.cells@[k]) == cells0[k],
            forall|k: int|
                0 <= k < id ==> {
                    let c0 = cells0[k];
                    let c1 = #[trigger] grid.cells@[k];
                    c1.id == c0.id && c1.centre == c0.centre && c1.bounds == c0.bounds
                        && c1.occupied == c0.occupied && c1.occupied_by == c0.occupied_by
                        && c1.neighbours == neighbours_of(s, k)
                },
        decreases n - id,
    {
        proof {
            lemma_fundamental_div_mod(id as int, vc as int);
            lemma_mod_bound(id as int, vc as int);
            let xio = s.xi_of(id as int);
            let yio = s.yi_of(id as int);
            assert(xio < hc as int) by (nonlinear_arith)
                requires
                    vc as int * xio + yio == id as int,
                    0 <= yio,
                    yio < vc as int,
                    0 <= (id as int),
                    (id as int) < hc as int * vc as int,
                    0 < vc as int,
            ;
        }
        let centre_x = grid.cells[id].centre.x;
        let centre_y = grid.cells[id].centre.y;
        let xi_opt = binary_search_index(&grid_settings.x_centers_vec, centre_x);
        let yi_opt = binary_search_index(&grid_settings.y_centers_vec, centre_y);
        proof {
            assert(s.x_centers_vec@[s.xi_of(id as int)] == centre_x);
            assert(s.y_centers_vec@[s.yi_of(id as int)] == centre_y);
        }
        let xi = xi_opt.unwrap();
        let yi = yi_opt.unwrap();
        proof {
            assert(xi as int == s.xi_of(id as int)) by {
                assert(s.x_centers_vec@[xi as int] == centre_x);
                assert(s.x_centers_vec@[s.xi_of(id as int)] == centre_x);
            }
            assert(yi as int == s.yi_of(id as int)) by {
                assert(s.y_centers_vec@[yi as int] == centre_y);
                assert(s.y_centers_vec@[s.yi_of(id as int)] == centre_y);
            }
            if xi as int > 0 {
                lemma_cell_id_bounds(hc as int, vc as int, xi as int - 1, yi as int);
            }
            if (xi as int) < hc as int - 1 {
                lemma_cell_id_bounds(hc as int, vc as int, xi as int + 1, yi as int);
            }
            if yi as int > 0 {
                lemma_cell_id_bounds(hc as int, vc as int, xi as int, yi as int - 1);
            }
            if (yi as int) < vc as int - 1 {
                lemma_cell_id_bounds(hc as int, vc as int, xi as int, yi as int + 1);
            }
        }
        let left = if xi == 0 {
            None
        } else {
            get_cell_id_from_x_y_index(xi - 1, yi, grid_settings, grid_index)
        };
        let right = if xi == hc - 1 {
            None
        } else {
            get_cell_id_from_x_y_index(xi + 1, yi, grid_settings, grid_index)
        };
        let top = if yi == 0 {
            None
        } else {
            get_cell_id_from_x_y_index(xi, yi - 1, grid_settings, grid_index)
        };
        let bottom = if yi == vc - 1 {
            None
        } else {
            get_cell_id_from_x_y_index(xi, yi + 1, grid_settings, grid_index)
        };
        let c = grid.cells[id];
        grid.cells[id] = Cell { neighbours: CellNeighbours { left, right, top, bottom }, ..c };
        proof {
            assert(grid.cells@[id as int].neighbours == neighbours_of(s, id as int));
        }
        id = id + 1;
    }
}

/// Neighbour linking is symmetric: an interior cell's link in one
/// direction is mirrored by its neighbour's link in the opposite
/// direction, and a boundary cell has no link on its outward side.
pub proof fn lemma_neighbours_symmetric(grid: Grid, s: GridSettings, a: int, b: int)
    requires
        s.wf(),
        grid.wf(s),
        grid.neighbours_linked(s),
        0 <= a < grid.cells@.len(),
        0 <= b < grid.cells@.len(),
    ensures
        grid.cells@[a].neighbours.right == Some(b as usize) ==> grid.cells@[b].neighbours.left
            == Some(a as usize),
        grid.cells@[a].neighbours.left == Some(b as usize) ==> grid.cells@[b].neighbours.right
            == Some(a as usize),
        grid.cells@[a].neighbours.bottom == Some(b as usize) ==> grid.cells@[b].neighbours.top
            == Some(a as usize),
        grid.cells@[a].neighbours.top == Some(b as usize) ==> grid.cells@[b].neighbours.bottom
            == Some(a as usize),
        s.xi_of(a) == 0 ==> grid.cells@[a].neighbours.left is None,
        s.xi_of(a) == s.number_of_horizontal_cells as int - 1 ==> grid.cells@[a].neighbours.right
            is None,
        s.yi_of(a) == 0 ==> grid.cells@[a].neighbours.top is None,
        s.yi_of(a) == s.number_of_vertical_cells as int - 1 ==> grid.cells@[a].neighbours.bottom
            is None,
{
    let hc = s.number_of_horizontal_cells as int;
    let vc = s.number_of_vertical_cells as int;
    lemma_settings_counts_positive(s);
    lemma_fundamental_div_mod(a, vc);
    lemma_mod_bound(a, vc);
    let xa = s.xi_of(a);
    let ya = s.yi_of(a);
    assert(xa < hc) by (nonlinear_arith)
        requires
            vc * xa + ya == a,
            0 <= ya,
            ya < vc,
            0 <= a,
            a < hc * vc,
            0 < vc,
    ;
    assert(0 <= xa) by (nonlinear_arith)
        requires
            vc * xa + ya == a,
            0 <= ya,
            ya < vc,
            0 <= a,
            0 < vc,
    ;
    lemma_cell_id_bounds(hc, vc, xa, ya);
    assert(grid.cells@[a].neighbours == neighbours_of(s, a));
    assert(grid.cells@[b].neighbours == neighbours_of(s, b));
    if grid.cells@[a].neighbours.right == Some(b as usize) {
        lemma_cell_id_bounds(hc, vc, xa + 1, ya);
        assert(b == s.cell_id(xa + 1, ya));
        vstd::arithmetic::div_mod::lemma_fundamental_div_mod_converse(b, vc, xa + 1, ya);
    }
    if grid.cells@[a].neighbours.left == Some(b as usize) {
        lemma_cell_id_bounds(hc, vc, xa - 1, ya);
        assert(b == s.cell_id(xa - 1, ya));
        vstd::arithmetic::div_mod::lemma_fundamental_div_mod_converse(b, vc, xa - 1, ya);
    }
    if grid.cells@[a].neighbours.bottom == Some(b as usize) {
        lemma_cell_id_bounds(hc, vc, xa, ya + 1);
        assert(b == s.cell_id(xa, ya + 1));
        vstd::arithmetic::div_mod::lemma_fundamental_div_mod_converse(b, vc, xa, ya + 1);
    }
    if grid.cells@[a].neighbours.top == Some(b as usize) {
        lemma_cell_id_bounds(hc, vc, xa, ya - 1);
        assert(b == s.cell_id(xa, ya - 1));
        vstd::arithmetic::div_mod::lemma_fundamental_div_mod_converse(b, vc, xa, ya - 1);
    }
}

} // verus!
