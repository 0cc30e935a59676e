//! Core logic for a grid-based equipment placement game.
//!
//! The library owns the spatial indexing that maps pointer coordinates to
//! grid cells, the neighbour links between cells, the cursor mode state
//! machine, and the occupancy/budget reconciliation that turns pointer input
//! into spawn/despawn intents.  Windowing, rendering and file loading live
//! outside the library and talk to it through plain values.

pub mod assets;
pub mod colours;
pub mod cursor;
pub mod equipment;
pub mod game_settings;
pub mod grid;
pub mod lookup;
pub mod spatial;
