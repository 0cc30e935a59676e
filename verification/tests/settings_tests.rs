use piping_grid::assets::{get_asset, AssetType};
use piping_grid::colours::{get_colour, GamePallete};
use piping_grid::game_settings::{
    AssetMeta, AssetSettings, GameSettings, GameplaySettings, GridGameSettings,
    ResolutionGameSettings, WindowGameSettings,
};

fn meta(name: &str, path: &str, cost: i32) -> AssetMeta {
    AssetMeta {
        name: name.to_string(),
        path: path.to_string(),
        cost,
    }
}

fn sample_settings(cell_width: i32, cell_height: i32, width: i32, height: i32) -> GameSettings {
    GameSettings {
        window: WindowGameSettings {
            resolution: ResolutionGameSettings { width, height },
            resizable: false,
        },
        grid: GridGameSettings {
            cell_width,
            cell_height,
        },
        gameplay: GameplaySettings { budget: 500 },
        assets: AssetSettings {
            straight_pipe: meta("straight pipe", "sprites/straight_pipe.png", 10),
            bend: meta("bend", "sprites/bend.png", 10),
            tee: meta("tee", "sprites/tee.png", 15),
            quad: meta("quad", "sprites/quad.png", 20),
            pump: meta("pump", "sprites/pump.png", 50),
            pump_station: meta("pump station", "sprites/pump_station.png", 100),
            home: meta("home", "sprites/home.png", 0),
            business: meta("business", "sprites/business.png", 0),
        },
    }
}

#[test]
fn settings_validate_numeric_ranges() {
    assert!(sample_settings(50, 50, 200, 200).validate());
    assert!(sample_settings(200, 200, 200, 200).validate());
    assert!(!sample_settings(0, 50, 200, 200).validate());
    assert!(!sample_settings(50, -1, 200, 200).validate());
    assert!(!sample_settings(201, 50, 200, 200).validate());
    assert!(!sample_settings(50, 50, 200, 0).validate());
}

#[test]
fn palette_hex_codes() {
    assert_eq!(get_colour(GamePallete::Khaki), "bbb094");
    assert_eq!(get_colour(GamePallete::Feldgrau), "3b5e58");
    assert_eq!(get_colour(GamePallete::JapaneseIndigo), "2f4443");
    assert_eq!(get_colour(GamePallete::Bistro), "44271f");
}

#[test]
fn asset_hex_codes() {
    assert_eq!(get_asset(AssetType::StraightPipe), "bbb094");
    assert_eq!(get_asset(AssetType::Pump), "191f22");
    assert_eq!(get_asset(AssetType::Business), "5a8c6c");
}
