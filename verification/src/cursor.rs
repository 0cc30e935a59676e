//! The cursor mode state machine: a strict toggle between placement and
//! deletion with mutual exclusion, driven by button edges.

use vstd::prelude::*;

verus! {

/// The mutually exclusive mode controlling what pointer movement does to
/// cell occupancy.  Starts `Idle`; toggled by button edges.
#[derive(Clone, Copy, Debug, Default, PartialEq, Eq, Structural)]
pub enum CursorMode {
    #[default]
    Idle,
    Placing,
    Deleting,
}

/// The mode after one tick of button edges.  A left edge toggles Placing,
/// a right edge toggles Deleting; the inactive mode's edges are swallowed
/// while the other mode is active, and a left edge takes precedence when
/// both arrive in one tick.
pub open spec fn next_mode(mode: CursorMode, left_edge: bool, right_edge: bool) -> CursorMode {
    if left_edge {
        match mode {
            CursorMode::Idle => CursorMode::Placing,
            CursorMode::Placing => CursorMode::Idle,
            CursorMode::Deleting => CursorMode::Deleting,
        }
    } else if right_edge {
        match mode {
            CursorMode::Idle => CursorMode::Deleting,
            CursorMode::Deleting => CursorMode::Idle,
            CursorMode::Placing => CursorMode::Placing,
        }
    } else {
        mode
    }
}

/// Start or end placement/deletion mode when the mouse is clicked.
/// Placement mode is controlled with the left mouse button, deletion mode
/// with the right; only a single mode can be active at a time.
pub fn handle_mouse_click(
    mode: &mut CursorMode,
    left_button_pressed: bool,
    right_button_pressed: bool,
)
    ensures
        *final(mode) == next_mode(*old(mode), left_button_pressed, right_button_pressed),
{
    if left_button_pressed {
        match *mode {
            CursorMode::Idle => {
                *mode = CursorMode::Placing;
            },
            CursorMode::Placing => {
                *mode = CursorMode::Idle;
            },
            CursorMode::Deleting => {},
        }
    } else if right_button_pressed {
        match *mode {
            CursorMode::Idle => {
                *mode = CursorMode::Deleting;
            },
            CursorMode::Deleting => {
                *mode = CursorMode::Idle;
            },
            CursorMode::Placing => {},
        }
    }
}

/// The label shown for a cursor mode.
pub open spec fn mode_label(mode: CursorMode) -> Seq<char> {
    match mode {
        CursorMode::Idle => "None"@,
        CursorMode::Placing => "Placing"@,
        CursorMode::Deleting => "Deleting"@,
    }
}

/// The on-screen text for the current cursor mode.
pub fn cursor_mode_label(mode: CursorMode) -> (r: &'static str)
    ensures
        r@ == mode_label(mode),
{
    match mode {
        CursorMode::Idle => "None",
        CursorMode::Placing => "Placing",
        CursorMode::Deleting => "Deleting",
    }
}

/// Whether the simulation advances.  Starts paused.
#[derive(Clone, Copy, Debug, Default, PartialEq, Eq, Structural)]
pub enum SimulationState {
    Running,
    #[default]
    Paused,
}

/// The simulation state after one tick: the space key flips it.
pub open spec fn toggled_simulation(state: SimulationState, space_pressed: bool) -> SimulationState {
    if space_pressed {
        match state {
            SimulationState::Running => SimulationState::Paused,
            SimulationState::Paused => SimulationState::Running,
        }
    } else {
        state
    }
}

/// Pauses a running simulation, or resumes a paused one, when the space
/// key is pressed.
pub fn toggle_simulation(simulation_state: &mut SimulationState, space_pressed: bool)
    ensures
        *final(simulation_state) == toggled_simulation(*old(simulation_state), space_pressed),
{
    if space_pressed {
        match *simulation_state {
            SimulationState::Running => {
                *simulation_state = SimulationState::Paused;
            },
            SimulationState::Paused => {
                *simulation_state = SimulationState::Running;
            },
        }
    }
}

} // verus!
