//! What the host loop decides: how events change the machine, how many
//! instructions a frame runs, and what a frame reports back.
use vstd::prelude::*;
use crate::instruction::Instruction;
use crate::keypad::{with_host_key, HostKey};
use crate::state::{
    reset_spec, step_outcome, step_spec, tick_command, tick_spec, word_at, State, StepOutcome,
};
use crate::synth::ToneCommand;

verus! {

/// Frames per second at which the timers count.
pub const TIMER_HZ: u32 = 60;

/// Instructions per second that the machine runs at unless told otherwise.
pub const DEFAULT_CPU_HZ: u32 = 600;

/// Instructions per frame where the host names a frame rate and no
/// instruction rate: as many as the default rates give.
pub const STEPS_PER_FRAME: u32 = 10;

/// An event of the host's window.
#[derive(Clone, Copy, Debug, PartialEq, Eq, Structural)]
pub enum HostEvent {
    /// The window was closed.
    Quit,
    /// A key went down.
    KeyDown(HostKey),
    /// A key went up.
    KeyUp(HostKey),
}

/// One executed instruction, for the host to print.
#[derive(Clone, Copy, Debug, PartialEq, Eq, Structural)]
pub struct TraceRecord {
    /// Address of the instruction.
    pub pc: u16,
    /// The instruction word.
    pub word: u16,
    /// What the word decodes to.
    pub instruction: Instruction,
}

/// What the host has to do after an event.
#[derive(Clone, Copy, Debug, PartialEq, Eq)]
pub enum HostAction {
    /// Leave the loop.
    Quit,
    /// The machine was reset: clear the window.
    Reset,
    /// One instruction was executed while paused.
    Stepped { outcome: StepOutcome, record: Option<TraceRecord> },
    /// Execution is now paused.
    Paused,
    /// Execution goes on.
    Resumed,
    /// A key event was handed to the keypad.
    Key,
}

/// What one frame hands to the host.
pub struct FrameReport {
    /// The command for the audio device.
    pub tone: ToneCommand,
    /// The instructions to print, in the order in which they ran.
    pub trace: Vec<TraceRecord>,
}

/// Whether the next step draws a random byte: the processor runs and the
/// program counter points at a `CXNN`.
pub open spec fn draws(s: State) -> bool {
    s.halted is None && s.current() is Rnd
}

/// Whether the next step is to be printed: the processor runs, and either
/// the host asked for a trace or the word is no instruction.
pub open spec fn traced(s: State) -> bool {
    s.halted is None && (s.debug_level > 0 || s.current() is Unknown)
}

/// The record of the instruction that the next step executes.
pub open spec fn record_of(s: State) -> TraceRecord {
    TraceRecord { pc: s.pc, word: word_at(s.ram, s.pc), instruction: s.current() }
}

/// The record to print for the next step, if there is one.
pub open spec fn trace_of(s: State) -> Option<TraceRecord> {
    if traced(s) {
        Some(record_of(s))
    } else {
        None
    }
}

/// The state in which a single step requested by the host starts: paused.
pub open spec fn held(s: State) -> State {
    State { paused: true, ..s }
}

/// What an event makes of the machine. `Escape` and closing the window
/// change nothing; `F5` resets; `F6` pauses and executes one instruction;
/// `Space` toggles the pause; every other key goes to the keypad.
pub open spec fn event_spec(s: State, event: HostEvent, random: u8) -> State {
    match event {
        HostEvent::Quit => s,
        HostEvent::KeyDown(key) => match key {
            HostKey::Escape => s,
            HostKey::F5 => reset_spec(s),
            HostKey::F6 => step_spec(held(s), random),
            HostKey::Space => State { paused: !s.paused, ..s },
            _ => State { keys: with_host_key(s.keys, key, true), ..s },
        },
        HostEvent::KeyUp(key) => State { keys: with_host_key(s.keys, key, false), ..s },
    }
}

/// What the host has to do after an event.
pub open spec fn action_spec(s: State, event: HostEvent) -> HostAction {
    match event {
        HostEvent::Quit => HostAction::Quit,
        HostEvent::KeyDown(key) => match key {
            HostKey::Escape => HostAction::Quit,
            HostKey::F5 => HostAction::Reset,
            HostKey::F6 => HostAction::Stepped {
                outcome: step_outcome(held(s)),
                record: trace_of(held(s)),
            },
            HostKey::Space => if s.paused {
                HostAction::Resumed
            } else {
                HostAction::Paused
            },
            _ => HostAction::Key,
        },
        HostEvent::KeyUp(_) => HostAction::Key,
    }
}

/// Whether handling an event draws a random byte.
pub open spec fn event_draws(s: State, event: HostEvent) -> bool {
    event == HostEvent::KeyDown(HostKey::F6) && draws(held(s))
}

/// The state after one step for each byte of `randoms`, in order.
pub open spec fn run_spec(s: State, randoms: Seq<u8>) -> State
    decreases randoms.len(),
{
    if randoms.len() == 0 {
        s
    } else {
        step_spec(run_spec(s, randoms.drop_last()), randoms.last())
    }
}

/// The records to print for one step for each byte of `randoms`.
pub open spec fn trace_spec(s: State, randoms: Seq<u8>) -> Seq<TraceRecord>
    decreases randoms.len(),
{
    if randoms.len() == 0 {
        Seq::empty()
    } else {
        let before = run_spec(s, randoms.drop_last());
        let earlier = trace_spec(s, randoms.drop_last());
        if traced(before) {
            earlier.push(record_of(before))
        } else {
            earlier
        }
    }
}

/// The state at the end of the instruction phase of a frame: unchanged
/// while paused, and otherwise after one step for each byte of `randoms`.
pub open spec fn frame_steps(s: State, randoms: Seq<u8>) -> State {
    if s.paused {
        s
    } else {
        run_spec(s, randoms)
    }
}

/// The state after a frame: the instruction phase, then one timer tick.
pub open spec fn frame_spec(s: State, randoms: Seq<u8>) -> State {
    tick_spec(frame_steps(s, randoms))
}

/// The command for the audio device at the end of a frame.
pub open spec fn frame_tone(s: State, randoms: Seq<u8>) -> ToneCommand {
    tick_command(frame_steps(s, randoms))
}

/// The records to print for a frame.
pub open spec fn frame_trace(s: State, randoms: Seq<u8>) -> Seq<TraceRecord> {
    if s.paused {
        Seq::empty()
    } else {
        trace_spec(s, randoms)
    }
}

/// The cadence of a pacer: instructions per second, frames per second, and
/// the instructions owed from earlier frames, counted in units of
/// `1 / frame_hz` of an instruction.
pub struct Pace {
    pub cpu_hz: int,
    pub frame_hz: int,
    pub carry: int,
}

/// Instructions run in the first `frames` frames: `frames * cpu_hz /
/// frame_hz`, rounded to the nearest whole number, halves upwards.
pub open spec fn steps_after(cpu_hz: int, frame_hz: int, frames: int) -> int {
    (frames * cpu_hz + frame_hz / 2) / frame_hz
}

/// What a pacer carries over after `frames` frames.
pub open spec fn carry_after(cpu_hz: int, frame_hz: int, frames: int) -> int {
    (frames * cpu_hz + frame_hz / 2) % frame_hz
}

/// Spreads `cpu_hz` instructions per second over `frame_hz` frames per
/// second without drift.
pub struct Pacer {
    cpu_hz: u32,
    frame_hz: u32,
    carry: u32,
}

impl View for Pacer {
    type V = Pace;

    closed spec fn view(&self) -> Pace {
        Pace {
            cpu_hz: self.cpu_hz as int,
            frame_hz: self.frame_hz as int,
            carry: self.carry as int,
        }
    }
}

impl Pacer {
    #[verifier::type_invariant]
    spec fn inv(&self) -> bool {
        self.frame_hz > 0 && self.carry < self.frame_hz
    }

    /// Creates a pacer, or none where `frame_hz` is zero. It starts half a
    /// frame ahead, so that the number of instructions run is always the
    /// nearest whole number to what is due.
    pub fn new(cpu_hz: u32, frame_hz: u32) -> (pacer: Option<Pacer>)
        ensures
            frame_hz == 0 ==> pacer is None,
            frame_hz > 0 ==> pacer is Some && pacer->0@ == (Pace {
                cpu_hz: cpu_hz as int,
                frame_hz: frame_hz as int,
                carry: frame_hz as int / 2,
            }),
    {
        if frame_hz == 0 {
            None
        } else {
            Some(Pacer { cpu_hz, frame_hz, carry: frame_hz / 2 })
        }
    }

    /// Creates a pacer for `fps` frames per second that runs
    /// `STEPS_PER_FRAME` instructions in each frame, or none where `fps` is
    /// zero. An instruction rate that does not fit 32 bits is cut to the
    /// largest that does.
    pub fn with_frame_rate(fps: u32) -> (pacer: Option<Pacer>)
        ensures
            fps == 0 ==> pacer is None,
            fps > 0 ==> pacer is Some && pacer->0@ == (Pace {
                cpu_hz: if fps * 10 <= u32::MAX {
                    fps * 10
                } else {
                    u32::MAX as int
                },
                frame_hz: fps as int,
                carry: fps as int / 2,
            }),
    {
        let cpu_hz = if fps > u32::MAX / STEPS_PER_FRAME {
            u32::MAX
        } else {
            fps * STEPS_PER_FRAME
        };
        Pacer::new(cpu_hz, fps)
    }

    /// Number of instructions to run in the next frame.
    pub fn steps_due(&mut self) -> (steps: u32)
        ensures
            old(self)@.frame_hz > 0,
            steps == (old(self)@.carry + old(self)@.cpu_hz) / old(self)@.frame_hz,
            final(self)@ == (Pace {
                carry: (old(self)@.carry + old(self)@.cpu_hz) % old(self)@.frame_hz,
                ..old(self)@
            }),
    {
        proof {
            use_type_invariant(&*self);
        }
        let owed = self.carry as u64 + self.cpu_hz as u64;
        let frame = self.frame_hz as u64;
        proof {
            lemma_steps_fit(self.carry as int, self.cpu_hz as int, self.frame_hz as int);
        }
        let steps = (owed / frame) as u32;
        self.carry = (owed % frame) as u32;
        steps
    }

    /// How long to sleep, in nanoseconds, at the end of a frame whose work
    /// took `worked` nanoseconds: what is left of the frame, and nothing
    /// where the work took longer than a frame.
    pub fn remaining_nanos(&self, worked: u64) -> (nanos: u32)
        ensures
            self@.frame_hz > 0,
            nanos == if worked < 1_000_000_000int / self@.frame_hz {
                1_000_000_000int / self@.frame_hz - worked
            } else {
                0
            },
    {
        let frame = self.frame_nanos();
        if worked < frame as u64 {
            frame - worked as u32
        } else {
            0
        }
    }

    /// Length of a frame in nanoseconds.
    pub fn frame_nanos(&self) -> (nanos: u32)
        ensures
            self@.frame_hz > 0,
            nanos == 1_000_000_000int / self@.frame_hz,
    {
        proof {
            use_type_invariant(self);
        }
        1_000_000_000u32 / self.frame_hz
    }
}

/// A frame never runs more instructions than a second holds.
proof fn lemma_steps_fit(carry: int, cpu_hz: int, frame_hz: int)
    requires
        0 <= carry < frame_hz,
        0 <= cpu_hz,
    ensures
        0 <= (carry + cpu_hz) / frame_hz <= cpu_hz,
        0 <= (carry + cpu_hz) % frame_hz < frame_hz,
{
    assert(0 <= (carry + cpu_hz) / frame_hz <= cpu_hz) by (nonlinear_arith)
        requires
            0 <= carry < frame_hz,
            0 <= cpu_hz,
    ;
    assert(0 <= (carry + cpu_hz) % frame_hz < frame_hz) by (nonlinear_arith)
        requires
            0 <= carry < frame_hz,
            0 <= cpu_hz,
    ;
}

} // verus!
