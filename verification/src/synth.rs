//! The tone gate: whether the square wave is sounding.
use vstd::prelude::*;

verus! {

/// What the host has to tell the audio device after a timer tick.
#[derive(Clone, Copy, Debug, PartialEq, Eq, Structural)]
pub enum ToneCommand {
    /// Start the tone.
    On,
    /// Stop the tone.
    Off,
    /// Leave the device as it is.
    Hold,
}

/// The command that brings a gate in state `playing` in line with a sound
/// timer that reads `st`: the tone sounds exactly while the timer is not zero.
pub open spec fn gate_command(playing: bool, st: u8) -> ToneCommand {
    if st > 0 && !playing {
        ToneCommand::On
    } else if st == 0 && playing {
        ToneCommand::Off
    } else {
        ToneCommand::Hold
    }
}

/// Whether the audio device was last told to sound the tone.
pub struct Synth {
    pub is_playing: bool,
}

impl Synth {
    /// Creates a gate that is silent.
    pub fn new() -> (s: Synth)
        ensures
            !s.is_playing,
    {
        Synth { is_playing: false }
    }

    /// Records that the tone is on.
    pub fn play(&mut self)
        ensures
            final(self).is_playing,
        no_unwind
    {
        self.is_playing = true;
    }

    /// Records that the tone is off.
    pub fn pause(&mut self)
        ensures
            !final(self).is_playing,
        no_unwind
    {
        self.is_playing = false;
    }

    /// Brings the tone in line with a sound timer that reads `st` and returns
    /// the command for the device: `On` or `Off` when the tone changes,
    /// `Hold` when it already is as the timer asks.
    pub fn gate(&mut self, st: u8) -> (command: ToneCommand)
        ensures
            command == gate_command(old(self).is_playing, st),
            final(self).is_playing == (st > 0),
        no_unwind
    {
        if st > 0 && !self.is_playing {
            self.play();
            ToneCommand::On
        } else if st == 0 && self.is_playing {
            self.pause();
            ToneCommand::Off
        } else {
            ToneCommand::Hold
        }
    }
}

} // verus!
