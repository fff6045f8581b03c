//! The run state machine and the input action set.
//!
//! The run is always in exactly one of four states. Systems never switch
//! the state mid-frame: they record a requested next state, and one
//! designated step applies it at a defined point of the frame.

use vstd::prelude::*;

verus! {

/// The global run state: Startup (world setup), Running (all gameplay
/// systems active), Pause (gameplay suspended, simulation time frozen) and
/// Over (end screen, waiting for a restart).
#[derive(Clone, Copy, Debug, PartialEq, Eq, Structural)]
pub enum GameState {
    Startup,
    Running,
    Pause,
    Over,
}

/// The run-level happenings a frame can emit.
#[derive(Clone, Copy, Debug, PartialEq, Eq, Structural)]
pub enum GameEvent {
    /// A restart was requested: tear the world down and set up anew.
    Start,
    /// The player was destroyed or left behind: the run is over.
    GameOver,
}

/// The discrete action set the input collaborator delivers.
#[derive(Clone, Copy, Debug, PartialEq, Eq, Structural)]
pub enum PlayerAction {
    Move,
    SwapScale,
    Pause,
    Start,
}

/// One frame's edge-triggered action snapshot, with the movement axis in
/// fixed-point milli-units.
#[derive(Clone, Copy, Debug, PartialEq, Eq, Structural)]
pub struct ActionState {
    pub move_x: i64,
    pub move_y: i64,
    pub just_pressed_swap: bool,
    pub just_pressed_pause: bool,
    pub just_released_start: bool,
}

impl ActionState {
    /// A frame with no input.
    pub fn idle() -> (r: ActionState)
        ensures
            r == (ActionState {
                move_x: 0i64,
                move_y: 0i64,
                just_pressed_swap: false,
                just_pressed_pause: false,
                just_released_start: false,
            }),
    {
        ActionState {
            move_x: 0,
            move_y: 0,
            just_pressed_swap: false,
            just_pressed_pause: false,
            just_released_start: false,
        }
    }

    /// Whether the edge-triggered `action` fired this frame (`Move` fires
    /// when the axis is pushed off center).
    pub fn just_active(&self, action: PlayerAction) -> (r: bool)
        ensures
            r == match action {
                PlayerAction::Move => self.move_x != 0 || self.move_y != 0,
                PlayerAction::SwapScale => self.just_pressed_swap,
                PlayerAction::Pause => self.just_pressed_pause,
                PlayerAction::Start => self.just_released_start,
            },
    {
        match action {
            PlayerAction::Move => self.move_x != 0 || self.move_y != 0,
            PlayerAction::SwapScale => self.just_pressed_swap,
            PlayerAction::Pause => self.just_pressed_pause,
            PlayerAction::Start => self.just_released_start,
        }
    }
}

} // verus!
