//! The configuration the surrounding system loads at startup: window and
//! grid dimensions, the starting budget, and asset metadata.  The library
//! does not parse file formats; it only holds the values and checks the
//! numeric ranges the grid needs.

use vstd::prelude::*;

use crate::grid::valid_configuration;

verus! {

/// Everything the settings loader provides.
#[derive(Clone, Debug, PartialEq)]
pub struct GameSettings {
    pub window: WindowGameSettings,
    pub grid: GridGameSettings,
    pub gameplay: GameplaySettings,
    pub assets: AssetSettings,
}

#[derive(Clone, Debug, PartialEq)]
pub struct WindowGameSettings {
    pub resolution: ResolutionGameSettings,
    pub resizable: bool,
}

#[derive(Clone, Copy, Debug, PartialEq, Eq, Structural)]
pub struct ResolutionGameSettings {
    pub width: i32,
    pub height: i32,
}

#[derive(Clone, Copy, Debug, PartialEq, Eq, Structural)]
pub struct GridGameSettings {
    pub cell_width: i32,
    pub cell_height: i32,
}

#[derive(Clone, Copy, Debug, PartialEq, Eq, Structural)]
pub struct GameplaySettings {
    pub budget: i32,
}

#[derive(Clone, Debug, PartialEq)]
pub struct AssetSettings {
    pub straight_pipe: AssetMeta,
    pub bend: AssetMeta,
    pub tee: AssetMeta,
    pub quad: AssetMeta,
    pub pump: AssetMeta,
    pub pump_station: AssetMeta,
    pub home: AssetMeta,
    pub business: AssetMeta,
}

#[derive(Clone, Debug, PartialEq)]
pub struct AssetMeta {
    pub name: String,
    pub path: String,
    pub cost: i32,
}

impl GameSettings {
    /// Whether the loaded dimensions form a valid grid configuration.
    pub fn validate(&self) -> (r: bool)
        ensures
            r == valid_configuration(
                self.grid.cell_width,
                self.grid.cell_height,
                self.window.resolution.width,
                self.window.resolution.height,
            ),
    {
        0 < self.grid.cell_width && self.grid.cell_width <= self.window.resolution.width && 0
            < self.grid.cell_height && self.grid.cell_height <= self.window.resolution.height
    }
}

} // verus!
