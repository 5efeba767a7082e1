//! The playback/visualization state machine.
//!
//! Exactly one decode/analysis pipeline exists while playback is not stopped,
//! and none while it is. The controller never touches the pipeline itself: a
//! command yields the action the host must perform on the decode engine, and
//! the engine's reported outcome drives the state transition. Illegal
//! combinations ("playing with no pipeline") are unrepresentable: the state
//! alone says whether a pipeline exists. The visualization mode and the
//! render toggles are orthogonal selectors that never affect playback.

use vstd::prelude::*;
use crate::waterfall::BinSelection;
use crate::waterfall::RenderOptions;
use crate::waterfall::ScrollDirection;

verus! {

/// Playback lifecycle. A pipeline instance exists exactly when the state is
/// not `Stopped`.
#[derive(Clone, Copy, Debug, PartialEq, Eq, Structural)]
pub enum PlaybackState {
    Stopped,
    Playing,
    Paused,
}

/// Which presentation path the renderer takes; independent of playback.
#[derive(Clone, Copy, Debug, PartialEq, Eq, Structural)]
pub enum VisualizationMode {
    Waterfall,
    Kaleidoscope,
}

impl Default for VisualizationMode {
    /// The startup presentation path.
    fn default() -> (m: VisualizationMode)
        ensures
            m == VisualizationMode::Kaleidoscope,
    {
        VisualizationMode::Kaleidoscope
    }
}

/// One user command, as the input dispatcher hands it over.
#[derive(Clone, Copy, Debug, PartialEq, Eq, Structural)]
pub enum Command {
    Play,
    Pause,
    Stop,
    Quit,
    SetMode(VisualizationMode),
    SetBinSelection(BinSelection),
    SetScrollDirection(ScrollDirection),
}

/// What the host must do to the decode engine in response to a command.
#[derive(Clone, Copy, Debug, PartialEq, Eq, Structural)]
pub enum Action {
    /// Nothing: the command is not valid for the current state, or it only
    /// changed a render selector.
    Idle,
    /// Construct a new pipeline bound to the target file and start it.
    StartSource,
    /// Resume the existing, paused pipeline.
    ResumeSource,
    /// Pause the existing, playing pipeline.
    PauseSource,
    /// Destroy the existing pipeline.
    StopSource,
    /// End the render loop, whatever the playback state.
    Quit,
}

/// The action a command demands in a given state; commands not valid for the
/// state demand nothing.
pub open spec fn next_action(state: PlaybackState, cmd: Command) -> Action {
    match cmd {
        Command::Play => match state {
            PlaybackState::Stopped => Action::StartSource,
            PlaybackState::Paused => Action::ResumeSource,
            PlaybackState::Playing => Action::Idle,
        },
        Command::Pause => match state {
            PlaybackState::Playing => Action::PauseSource,
            _ => Action::Idle,
        },
        Command::Stop => match state {
            PlaybackState::Stopped => Action::Idle,
            _ => Action::StopSource,
        },
        Command::Quit => Action::Quit,
        _ => Action::Idle,
    }
}

/// How a command changes the controller itself: only the render selectors
/// move; the playback state waits for the engine's outcome.
pub open spec fn next_controller(c: PlaybackController, cmd: Command) -> PlaybackController {
    match cmd {
        Command::SetMode(m) => (PlaybackController { mode: m, ..c }),
        Command::SetBinSelection(b) => (PlaybackController {
            options: (RenderOptions { bin_selection: b, ..c.options }),
            ..c
        }),
        Command::SetScrollDirection(d) => (PlaybackController {
            options: (RenderOptions { scroll_direction: d, ..c.options }),
            ..c
        }),
        _ => c,
    }
}

/// The playback state after the engine reports an action's outcome. A failed
/// lifecycle call always falls back to `Stopped`: the controller does not
/// retain a pipeline it cannot trust. Destruction failure still stops.
pub open spec fn result_state(state: PlaybackState, action: Action, ok: bool) -> PlaybackState {
    match action {
        Action::StartSource => if ok {
            PlaybackState::Playing
        } else {
            PlaybackState::Stopped
        },
        Action::ResumeSource => if ok {
            PlaybackState::Playing
        } else {
            PlaybackState::Stopped
        },
        Action::PauseSource => if ok {
            PlaybackState::Paused
        } else {
            PlaybackState::Stopped
        },
        Action::StopSource => PlaybackState::Stopped,
        Action::Idle => state,
        Action::Quit => state,
    }
}

/// The state machine over {Stopped, Playing, Paused}, the visualization mode,
/// and the render toggles.
#[derive(Clone, Copy, Debug, PartialEq, Eq, Structural)]
pub struct PlaybackController {
    pub state: PlaybackState,
    pub mode: VisualizationMode,
    pub options: RenderOptions,
}

impl PlaybackController {
    /// The startup controller: stopped, with the default mode and toggles.
    pub fn new() -> (c: PlaybackController)
        ensures
            c.state == PlaybackState::Stopped,
            c.mode == VisualizationMode::Kaleidoscope,
            c.options.bin_selection == BinSelection::Normal,
            c.options.scroll_direction == ScrollDirection::Downward,
    {
        PlaybackController {
            state: PlaybackState::Stopped,
            mode: VisualizationMode::Kaleidoscope,
            options: RenderOptions::new(),
        }
    }

    /// Applies one command: updates the render selectors and returns the
    /// engine action the command demands. Commands not valid for the current
    /// state are no-ops — nothing changes and no action is demanded.
    pub fn on_command(&mut self, cmd: Command) -> (a: Action)
        ensures
            *final(self) == next_controller(*old(self), cmd),
            a == next_action(old(self).state, cmd),
    {
        match cmd {
            Command::SetMode(m) => {
                self.mode = m;
            },
            Command::SetBinSelection(b) => {
                self.options.bin_selection = b;
            },
            Command::SetScrollDirection(d) => {
                self.options.scroll_direction = d;
            },
            _ => {},
        }
        match cmd {
            Command::Play => match self.state {
                PlaybackState::Stopped => Action::StartSource,
                PlaybackState::Paused => Action::ResumeSource,
                PlaybackState::Playing => Action::Idle,
            },
            Command::Pause => match self.state {
                PlaybackState::Playing => Action::PauseSource,
                _ => Action::Idle,
            },
            Command::Stop => match self.state {
                PlaybackState::Stopped => Action::Idle,
                _ => Action::StopSource,
            },
            Command::Quit => Action::Quit,
            _ => Action::Idle,
        }
    }

    /// Records the engine's outcome for a performed action. Success moves to
    /// the state the action aimed at; failure falls back to `Stopped`;
    /// stopping reaches `Stopped` even when destruction failed. The render
    /// selectors never move here.
    pub fn on_action_result(&mut self, action: Action, ok: bool)
        ensures
            final(self).state == result_state(old(self).state, action, ok),
            final(self).mode == old(self).mode,
            final(self).options == old(self).options,
    {
        match action {
            Action::StartSource => {
                self.state = if ok {
                    PlaybackState::Playing
                } else {
                    PlaybackState::Stopped
                };
            },
            Action::ResumeSource => {
                self.state = if ok {
                    PlaybackState::Playing
                } else {
                    PlaybackState::Stopped
                };
            },
            Action::PauseSource => {
                self.state = if ok {
                    PlaybackState::Paused
                } else {
                    PlaybackState::Stopped
                };
            },
            Action::StopSource => {
                self.state = PlaybackState::Stopped;
            },
            Action::Idle => {},
            Action::Quit => {},
        }
    }
}

/// The transition laws of the playback machine: pause while stopped is a
/// no-op; play from stopped starts a source and reaches `Playing` exactly
/// when construction succeeds, else it stays `Stopped`; stop while playing or
/// paused always reaches `Stopped`, even when destruction fails; repeated
/// stop while stopped is a no-op; no command moves the playback state by
/// itself, and mode and toggle commands never demand an engine action.
pub proof fn lemma_playback_transitions(c: PlaybackController, ok: bool)
    ensures
        next_action(PlaybackState::Stopped, Command::Pause) == Action::Idle,
        next_action(PlaybackState::Stopped, Command::Play) == Action::StartSource,
        result_state(PlaybackState::Stopped, Action::StartSource, true) == PlaybackState::Playing,
        result_state(PlaybackState::Stopped, Action::StartSource, false)
            == PlaybackState::Stopped,
        next_action(PlaybackState::Playing, Command::Stop) == Action::StopSource,
        next_action(PlaybackState::Paused, Command::Stop) == Action::StopSource,
        result_state(c.state, Action::StopSource, ok) == PlaybackState::Stopped,
        next_action(PlaybackState::Stopped, Command::Stop) == Action::Idle,
        forall|cmd: Command| (#[trigger] next_controller(c, cmd)).state == c.state,
        forall|st: PlaybackState| result_state(st, Action::Idle, ok) == st,
        forall|m: VisualizationMode|
            next_action(c.state, Command::SetMode(m)) == Action::Idle && next_controller(
                c,
                Command::SetMode(m),
            ).mode == m,
{
}

} // verus!
