use piping_grid::cursor::{
    cursor_mode_label, handle_mouse_click, toggle_simulation, CursorMode, SimulationState,
};

#[test]
fn left_edges_toggle_placing() {
    // [left, left] from Idle ends in Idle: Placing, then back.
    let mut mode = CursorMode::Idle;
    handle_mouse_click(&mut mode, true, false);
    assert_eq!(mode, CursorMode::Placing);
    handle_mouse_click(&mut mode, true, false);
    assert_eq!(mode, CursorMode::Idle);
}

#[test]
fn right_edge_is_swallowed_while_placing() {
    // [left, right] from Idle ends in Placing: the right edge is ignored.
    let mut mode = CursorMode::Idle;
    handle_mouse_click(&mut mode, true, false);
    handle_mouse_click(&mut mode, false, true);
    assert_eq!(mode, CursorMode::Placing);
}

#[test]
fn left_edge_is_swallowed_while_deleting() {
    // [right, left] from Idle ends in Deleting: the left edge is ignored.
    let mut mode = CursorMode::Idle;
    handle_mouse_click(&mut mode, false, true);
    assert_eq!(mode, CursorMode::Deleting);
    handle_mouse_click(&mut mode, true, false);
    assert_eq!(mode, CursorMode::Deleting);
}

#[test]
fn right_edges_toggle_deleting() {
    let mut mode = CursorMode::Idle;
    handle_mouse_click(&mut mode, false, true);
    assert_eq!(mode, CursorMode::Deleting);
    handle_mouse_click(&mut mode, false, true);
    assert_eq!(mode, CursorMode::Idle);
}

#[test]
fn no_edge_means_no_transition() {
    let mut mode = CursorMode::Placing;
    handle_mouse_click(&mut mode, false, false);
    assert_eq!(mode, CursorMode::Placing);
}

#[test]
fn left_edge_takes_precedence_in_one_tick() {
    let mut mode = CursorMode::Idle;
    handle_mouse_click(&mut mode, true, true);
    assert_eq!(mode, CursorMode::Placing);
}

#[test]
fn cursor_mode_starts_idle() {
    assert_eq!(CursorMode::default(), CursorMode::Idle);
}

#[test]
fn mode_labels() {
    assert_eq!(cursor_mode_label(CursorMode::Idle), "None");
    assert_eq!(cursor_mode_label(CursorMode::Placing), "Placing");
    assert_eq!(cursor_mode_label(CursorMode::Deleting), "Deleting");
}

#[test]
fn simulation_toggle_flips_on_space() {
    let mut state = SimulationState::default();
    assert_eq!(state, SimulationState::Paused);
    toggle_simulation(&mut state, false);
    assert_eq!(state, SimulationState::Paused);
    toggle_simulation(&mut state, true);
    assert_eq!(state, SimulationState::Running);
    toggle_simulation(&mut state, true);
    assert_eq!(state, SimulationState::Paused);
}
