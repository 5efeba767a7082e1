//! The key-to-command lookup table.
//!
//! A pure table from a recognized key plus the held-modifier flag to exactly
//! one controller command; the dispatcher's only state is the current
//! modifier flag, tracked as the windowing system reports changes. Keys the
//! table does not know never reach it — the host drops them, which is the
//! no-op the table owes them.

use vstd::prelude::*;
use crate::controller::Command;
use crate::controller::VisualizationMode;
use crate::waterfall::BinSelection;
use crate::waterfall::ScrollDirection;

verus! {

/// The recognized keys.
#[derive(Clone, Copy, Debug, PartialEq, Eq, Structural)]
pub enum Key {
    KeyQ,
    KeyA,
    KeyS,
    KeyD,
    KeyK,
    KeyW,
    Num0,
    Num1,
}

/// The full command table: Q quits, A stops, S plays or resumes, D pauses,
/// K and W pick the visualization mode, 0 picks the bin selection and 1 the
/// scroll direction — for those two the shift modifier picks which of the two
/// named values.
pub open spec fn command_for(key: Key, shift: bool) -> Command {
    match key {
        Key::KeyQ => Command::Quit,
        Key::KeyA => Command::Stop,
        Key::KeyS => Command::Play,
        Key::KeyD => Command::Pause,
        Key::KeyK => Command::SetMode(VisualizationMode::Kaleidoscope),
        Key::KeyW => Command::SetMode(VisualizationMode::Waterfall),
        Key::Num0 => if shift {
            Command::SetBinSelection(BinSelection::Normal)
        } else {
            Command::SetBinSelection(BinSelection::Mirrored)
        },
        Key::Num1 => if shift {
            Command::SetScrollDirection(ScrollDirection::Downward)
        } else {
            Command::SetScrollDirection(ScrollDirection::Upward)
        },
    }
}

/// Maps key events to commands; holds nothing but the modifier flag.
#[derive(Clone, Copy, Debug, PartialEq, Eq, Structural)]
pub struct InputDispatcher {
    pub shift_held: bool,
}

impl InputDispatcher {
    /// A dispatcher with no modifier held.
    pub fn new() -> (d: InputDispatcher)
        ensures
            !d.shift_held,
    {
        InputDispatcher { shift_held: false }
    }

    /// Records a modifier-state change from the windowing system.
    pub fn modifiers_changed(&mut self, shift: bool)
        ensures
            final(self).shift_held == shift,
    {
        self.shift_held = shift;
    }

    /// The command for a pressed key under the current modifier flag.
    pub fn key_down(&self, key: Key) -> (c: Command)
        ensures
            c == command_for(key, self.shift_held),
    {
        match key {
            Key::KeyQ => Command::Quit,
            Key::KeyA => Command::Stop,
            Key::KeyS => Command::Play,
            Key::KeyD => Command::Pause,
            Key::KeyK => Command::SetMode(VisualizationMode::Kaleidoscope),
            Key::KeyW => Command::SetMode(VisualizationMode::Waterfall),
            Key::Num0 => if self.shift_held {
                Command::SetBinSelection(BinSelection::Normal)
            } else {
                Command::SetBinSelection(BinSelection::Mirrored)
            },
            Key::Num1 => if self.shift_held {
                Command::SetScrollDirection(ScrollDirection::Downward)
            } else {
                Command::SetScrollDirection(ScrollDirection::Upward)
            },
        }
    }
}

} // verus!
