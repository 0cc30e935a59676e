//! The kinds of equipment the game can place, each with a fallback hex
//! colour used until a real sprite is drawn for it.

use vstd::prelude::*;

verus! {

/// A kind of placeable equipment.
#[derive(Clone, Copy, Debug, PartialEq, Eq, Structural)]
pub enum AssetType {
    StraightPipe,
    Bend,
    Tee,
    Quad,
    Pump,
    PumpStation,
    Home,
    Business,
}

/// The six-digit hex code standing in for each asset's sprite.
pub open spec fn asset_hex(asset: AssetType) -> Seq<char> {
    match asset {
        AssetType::StraightPipe => "bbb094"@,
        AssetType::Bend => "807665"@,
        AssetType::Tee => "595246"@,
        AssetType::Quad => "333333"@,
        AssetType::Pump => "191f22"@,
        AssetType::PumpStation => "2f4443"@,
        AssetType::Home => "3b5e58"@,
        AssetType::Business => "5a8c6c"@,
    }
}

/// The hex code standing in for an asset's sprite.
pub fn get_asset(color: AssetType) -> (r: &'static str)
    ensures
        r@ == asset_hex(color),
{
    match color {
        AssetType::StraightPipe => "bbb094",
        AssetType::Bend => "807665",
        AssetType::Tee => "595246",
        AssetType::Quad => "333333",
        AssetType::Pump => "191f22",
        AssetType::PumpStation => "2f4443",
        AssetType::Home => "3b5e58",
        AssetType::Business => "5a8c6c",
    }
}

} // verus!
