//! The playback controller: a two-state toggle (Paused/Playing) driven by a
//! single external trigger. It gates whether the playback buffer and the
//! particle field advance at all, and is mirrored to the audio device as a
//! play or pause command every control step.

use vstd::prelude::*;

verus! {

/// Whether playback is running. The system starts Paused.
#[derive(Clone, Copy, Debug, PartialEq, Eq, Structural)]
pub enum State {
    Paused,
    Playing,
}

/// The command mirrored to the audio device each control step. The device
/// treats both as idempotent.
#[derive(Clone, Copy, Debug, PartialEq, Eq, Structural)]
pub enum AudioCommand {
    Play,
    Pause,
}

/// The state reached from `s` by one toggle event.
pub open spec fn spec_toggled(s: State) -> State {
    match s {
        State::Paused => State::Playing,
        State::Playing => State::Paused,
    }
}

pub open spec fn spec_is_playing(s: State) -> bool {
    s is Playing
}

/// The audio command owed in state `s`.
pub open spec fn spec_audio_command(s: State) -> AudioCommand {
    match s {
        State::Playing => AudioCommand::Play,
        State::Paused => AudioCommand::Pause,
    }
}

pub fn is_playing(state: &State) -> (r: bool)
    ensures
        r == spec_is_playing(*state),
{
    matches!(*state, State::Playing)
}

/// Flips the state when the external trigger fired this step; otherwise
/// leaves it unchanged.
pub fn set_state(state: &mut State, toggle: bool)
    ensures
        toggle ==> *final(state) == spec_toggled(*old(state)),
        !toggle ==> *final(state) == *old(state),
{
    if toggle {
        *state = match *state {
            State::Playing => State::Paused,
            State::Paused => State::Playing,
        };
    }
}

/// The command to issue to the audio device for the current state; the
/// caller forwards it every control step.
pub fn audio_command(state: &State) -> (r: AudioCommand)
    ensures
        r == spec_audio_command(*state),
{
    match *state {
        State::Playing => AudioCommand::Play,
        State::Paused => AudioCommand::Pause,
    }
}

/// Toggling twice returns any state to itself, so the audio command owed
/// after two toggles is the one owed before them.
pub proof fn lemma_toggle_twice(s: State)
    ensures
        spec_toggled(spec_toggled(s)) == s,
        spec_audio_command(spec_toggled(spec_toggled(s))) == spec_audio_command(s),
{
}

} // verus!
