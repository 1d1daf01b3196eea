//! The machine as a mathematical value, and what each operation makes of it.
use vstd::prelude::*;
use crate::instruction::{decode_spec, Instruction};
use crate::keypad::{key_down, lowest_pressed, NO_KEY};
use crate::screen::{blank, collides, drawn};
use crate::synth::{gate_command, ToneCommand};

verus! {

/// Address at which programs are loaded and at which execution starts.
pub const PROGRAM_ADDRESS: usize = 0x200;

/// Address of the first glyph of the built-in font.
pub const FONT_ADDRESS: usize = 0x50;

/// Bytes per glyph of the built-in font.
pub const GLYPH_SIZE: usize = 5;

/// Entries of the call stack.
pub const STACK_SIZE: usize = 16;

/// The largest program that fits between `PROGRAM_ADDRESS` and the end of
/// memory.
pub const MAX_PROGRAM_SIZE: usize = 3584;

/// The built-in font: sixteen glyphs of five rows each, four pixels wide, for
/// the digits `0` to `F`.
pub const FONT: [u8; 80] = [
    0xF0, 0x90, 0x90, 0x90, 0xF0,
    0x20, 0x60, 0x20, 0x20, 0x70,
    0xF0, 0x10, 0xF0, 0x80, 0xF0,
    0xF0, 0x10, 0xF0, 0x10, 0xF0,
    0x90, 0x90, 0xF0, 0x10, 0x10,
    0xF0, 0x80, 0xF0, 0x10, 0xF0,
    0xF0, 0x80, 0xF0, 0x90, 0xF0,
    0xF0, 0x10, 0x20, 0x40, 0x40,
    0xF0, 0x90, 0xF0, 0x90, 0xF0,
    0xF0, 0x90, 0xF0, 0x10, 0xF0,
    0xF0, 0x90, 0xF0, 0x90, 0x90,
    0xE0, 0x90, 0xE0, 0x90, 0xE0,
    0xF0, 0x80, 0x80, 0x80, 0xF0,
    0xE0, 0x90, 0x90, 0x90, 0xE0,
    0xF0, 0x80, 0xF0, 0x80, 0xF0,
    0xF0, 0x80, 0xF0, 0x80, 0x80,
];

/// Why the processor stopped.
#[derive(Clone, Copy, Debug, PartialEq, Eq, Structural)]
pub enum Fault {
    /// A call with sixteen return addresses already on the stack.
    StackOverflow,
    /// A return with no return address on the stack.
    StackUnderflow,
    /// A store or load that would pass the end of memory.
    AddressOutOfRange,
}

/// How one step ended.
#[derive(Clone, Copy, Debug, PartialEq, Eq, Structural)]
pub enum StepOutcome {
    /// An instruction was executed.
    Ran,
    /// The processor is stopped and nothing was executed, or the instruction
    /// stopped it.
    Halted(Fault),
    /// The instruction waits for a key and will be executed again.
    WaitingForKey,
}

/// The whole machine as a value.
pub struct State {
    /// Memory, `0x1000` bytes.
    pub ram: Seq<u8>,
    /// Frame buffer, 64x32 pixels row by row.
    pub pixels: Seq<bool>,
    /// Address of the next instruction.
    pub pc: u16,
    /// The index register.
    pub i: u16,
    /// The registers `V0..=VF`.
    pub v: Seq<u8>,
    /// The call stack; entries below `sp` are return addresses.
    pub stack: Seq<u16>,
    /// Number of return addresses on the stack.
    pub sp: nat,
    /// The delay timer.
    pub dt: u8,
    /// The sound timer.
    pub st: u8,
    /// The keypad: which keys are down.
    pub keys: Seq<bool>,
    /// The fault that stopped the processor, if one did.
    pub halted: Option<Fault>,
    /// Whether the tone gate is open.
    pub playing: bool,
    /// Whether the host has paused execution.
    pub paused: bool,
    /// How much the host wants traced.
    pub debug_level: u32,
}

/// The address two bytes after `pc`, wrapping at the end of memory.
pub open spec fn next_pc(pc: u16) -> u16 {
    ((pc + 2) % 0x1000) as u16
}

/// The address two bytes before `pc`, wrapping at the start of memory.
pub open spec fn prev_pc(pc: u16) -> u16 {
    ((pc + 0x1000 - 2) % 0x1000) as u16
}

/// The big-endian word at `pc` and the byte after it, which is byte 0 where
/// `pc` is the last address.
pub open spec fn word_at(ram: Seq<u8>, pc: u16) -> u16 {
    (ram[pc as int] * 256 + ram[(pc + 1) % 0x1000]) as u16
}

/// A flag as a register value.
pub open spec fn flag(on: bool) -> u8 {
    if on {
        1
    } else {
        0
    }
}

/// Sixteen zeros.
pub open spec fn zeros<T>(zero: T) -> Seq<T> {
    Seq::new(16, |k: int| zero)
}

/// Memory with the font written over `FONT_ADDRESS..FONT_ADDRESS + 80`.
pub open spec fn with_font(ram: Seq<u8>) -> Seq<u8> {
    Seq::new(
        0x1000,
        |a: int|
            if 0x50 <= a < 0xA0 {
                FONT@[a - 0x50]
            } else {
                ram[a]
            },
    )
}

/// Memory with `program` written from `base` on.
pub open spec fn with_program(ram: Seq<u8>, program: Seq<u8>, base: int) -> Seq<u8> {
    Seq::new(
        0x1000,
        |a: int|
            if base <= a < base + program.len() {
                program[a - base]
            } else {
                ram[a]
            },
    )
}

impl State {
    /// The invariant of the machine: the collections have their sizes, the
    /// program counter and the index register are addresses, the stack holds
    /// at most sixteen entries and each of them is an address.
    pub open spec fn wf(self) -> bool {
        &&& self.ram.len() == 0x1000
        &&& self.pixels.len() == 2048
        &&& self.v.len() == 16
        &&& self.stack.len() == 16
        &&& self.keys.len() == 16
        &&& self.pc < 0x1000
        &&& self.i < 0x1000
        &&& self.sp <= 16
        &&& forall|k: int| 0 <= k < 16 ==> #[trigger] self.stack[k] < 0x1000
    }

    /// The state with `value` in register `x`.
    pub open spec fn with_v(self, x: u8, value: u8) -> State {
        State { v: self.v.update(x as int, value), ..self }
    }

    /// The state with `VF` set to a flag.
    pub open spec fn with_flag(self, on: bool) -> State {
        self.with_v(0xF, flag(on))
    }

    /// The state with the next instruction skipped if `cond` holds.
    pub open spec fn skip_if(self, cond: bool) -> State {
        if cond {
            State { pc: next_pc(self.pc), ..self }
        } else {
            self
        }
    }

    /// The state after the instruction word has been fetched.
    pub open spec fn fetched(self) -> State {
        State { pc: next_pc(self.pc), ..self }
    }

    /// The instruction that the program counter points at.
    pub open spec fn current(self) -> Instruction {
        decode_spec(word_at(self.ram, self.pc))
    }
}

/// A machine that has just been switched on.
pub open spec fn power_on(debug_level: u32) -> State {
    State {
        ram: with_font(crate::memory::zeroed()),
        pixels: blank(),
        pc: 0x200,
        i: 0,
        v: zeros(0u8),
        stack: zeros(0u16),
        sp: 0,
        dt: 0,
        st: 0,
        keys: crate::keypad::all_up(),
        halted: None,
        playing: false,
        paused: false,
        debug_level,
    }
}

/// The state after a reset: registers, stack, timers and display are
/// cleared, the font is written again, a fault is forgotten, and execution
/// starts over at `PROGRAM_ADDRESS`. The rest of memory, and with it the
/// loaded program, is kept, as are the keypad and the host's settings.
pub open spec fn reset_spec(s: State) -> State {
    State {
        ram: with_font(s.ram),
        pixels: blank(),
        pc: 0x200,
        i: 0,
        v: zeros(0u8),
        stack: zeros(0u16),
        sp: 0,
        dt: 0,
        st: 0,
        halted: None,
        ..s
    }
}

/// The fault that an instruction runs into in state `s`, if it does.
pub open spec fn fault_of(s: State, ins: Instruction) -> Option<Fault> {
    match ins {
        Instruction::Ret => if s.sp == 0 {
            Some(Fault::StackUnderflow)
        } else {
            None
        },
        Instruction::Call { .. } => if s.sp >= 16 {
            Some(Fault::StackOverflow)
        } else {
            None
        },
        Instruction::Bcd { .. } => if s.i + 2 >= 0x1000 {
            Some(Fault::AddressOutOfRange)
        } else {
            None
        },
        Instruction::Store { x } | Instruction::Load { x } => if s.i + x >= 0x1000 {
            Some(Fault::AddressOutOfRange)
        } else {
            None
        },
        _ => None,
    }
}

/// What an instruction that runs into no fault makes of state `s`, in which
/// the program counter already points past the instruction. `random` is the
/// byte drawn for `Rnd`.
pub open spec fn apply(s: State, ins: Instruction, random: u8) -> State {
    match ins {
        Instruction::Cls => State { pixels: blank(), ..s },
        Instruction::Ret => State { sp: (s.sp - 1) as nat, pc: s.stack[s.sp - 1], ..s },
        Instruction::Jp { addr } => State { pc: addr, ..s },
        Instruction::Call { addr } => State {
            stack: s.stack.update(s.sp as int, s.pc),
            sp: s.sp + 1,
            pc: addr,
            ..s
        },
        Instruction::SeByte { x, byte } => s.skip_if(s.v[x as int] == byte),
        Instruction::SneByte { x, byte } => s.skip_if(s.v[x as int] != byte),
        Instruction::SeReg { x, y } => s.skip_if(s.v[x as int] == s.v[y as int]),
        Instruction::LdByte { x, byte } => s.with_v(x, byte),
        Instruction::AddByte { x, byte } => s.with_v(x, ((s.v[x as int] + byte) % 256) as u8),
        Instruction::LdReg { x, y } => s.with_v(x, s.v[y as int]),
        Instruction::Or { x, y } => s.with_v(x, s.v[x as int] | s.v[y as int]),
        Instruction::And { x, y } => s.with_v(x, s.v[x as int] & s.v[y as int]),
        Instruction::Xor { x, y } => s.with_v(x, s.v[x as int] ^ s.v[y as int]),
        Instruction::AddReg { x, y } => s.with_v(
            x,
            ((s.v[x as int] + s.v[y as int]) % 256) as u8,
        ).with_flag(s.v[x as int] + s.v[y as int] > 255),
        Instruction::SubReg { x, y } => s.with_v(
            x,
            ((s.v[x as int] - s.v[y as int]) % 256) as u8,
        ).with_flag(s.v[x as int] >= s.v[y as int]),
        Instruction::Shr { x } => s.with_v(x, s.v[x as int] / 2).with_flag(s.v[x as int] % 2 == 1),
        Instruction::SubnReg { x, y } => s.with_v(
            x,
            ((s.v[y as int] - s.v[x as int]) % 256) as u8,
        ).with_flag(s.v[y as int] >= s.v[x as int]),
        Instruction::Shl { x } => s.with_v(x, ((s.v[x as int] * 2) % 256) as u8).with_flag(
            s.v[x as int] >= 128,
        ),
        Instruction::SneReg { x, y } => s.skip_if(s.v[x as int] != s.v[y as int]),
        Instruction::LdI { addr } => State { i: addr, ..s },
        Instruction::JpV0 { addr } => State { pc: ((addr + s.v[0]) % 0x1000) as u16, ..s },
        Instruction::Rnd { x, byte } => s.with_v(x, random & byte),
        Instruction::Drw { x, y, n } => State {
            pixels: drawn(
                s.pixels,
                s.ram,
                s.i,
                n as int,
                s.v[x as int] as int % 64,
                s.v[y as int] as int % 32,
            ),
            ..s
        }.with_flag(
            collides(
                s.pixels,
                s.ram,
                s.i,
                n as int,
                s.v[x as int] as int % 64,
                s.v[y as int] as int % 32,
            ),
        ),
        Instruction::Skp { x } => s.skip_if(key_down(s.keys, s.v[x as int])),
        Instruction::Sknp { x } => s.skip_if(!key_down(s.keys, s.v[x as int])),
        Instruction::LdVxDt { x } => s.with_v(x, s.dt),
        Instruction::LdVxKey { x } => if lowest_pressed(s.keys) == NO_KEY {
            State { pc: prev_pc(s.pc), ..s }
        } else {
            s.with_v(x, lowest_pressed(s.keys))
        },
        Instruction::LdDtVx { x } => State { dt: s.v[x as int], ..s },
        Instruction::LdStVx { x } => State { st: s.v[x as int], ..s },
        Instruction::AddI { x } => {
            let sum = s.i + s.v[x as int];
            let flagged = if sum >= 0x1000 {
                s.with_flag(true)
            } else {
                s
            };
            State { i: (sum % 0x1000) as u16, ..flagged }
        },
        Instruction::LdFont { x } => State { i: (0x50 + 5 * (s.v[x as int] % 16)) as u16, ..s },
        Instruction::Bcd { x } => State {
            ram: s.ram.update(s.i as int, s.v[x as int] / 100).update(
                s.i + 1,
                s.v[x as int] / 10 % 10,
            ).update(s.i + 2, s.v[x as int] % 10),
            ..s
        },
        Instruction::Store { x } => State {
            ram: Seq::new(
                0x1000,
                |a: int|
                    if s.i <= a <= s.i + x {
                        s.v[a - s.i]
                    } else {
                        s.ram[a]
                    },
            ),
            ..s
        },
        Instruction::Load { x } => State {
            v: Seq::new(
                16,
                |k: int|
                    if k <= x {
                        s.ram[s.i + k]
                    } else {
                        s.v[k]
                    },
            ),
            ..s
        },
        Instruction::Unknown { .. } => s,
    }
}

/// What an instruction makes of state `s`, in which the program counter
/// already points past the instruction: the processor stops on a fault, with
/// nothing else changed, and otherwise the instruction takes effect.
pub open spec fn execute_spec(s: State, ins: Instruction, random: u8) -> State {
    match fault_of(s, ins) {
        Some(fault) => State { halted: Some(fault), ..s },
        None => apply(s, ins, random),
    }
}

/// How executing an instruction in state `s` ends.
pub open spec fn outcome_spec(s: State, ins: Instruction) -> StepOutcome {
    match fault_of(s, ins) {
        Some(fault) => StepOutcome::Halted(fault),
        None => if ins is LdVxKey && lowest_pressed(s.keys) == NO_KEY {
            StepOutcome::WaitingForKey
        } else {
            StepOutcome::Ran
        },
    }
}

/// One step of the machine: nothing while the processor is stopped, and
/// otherwise fetch, decode and execute of the instruction at the program
/// counter.
pub open spec fn step_spec(s: State, random: u8) -> State {
    if s.halted is Some {
        s
    } else {
        execute_spec(s.fetched(), s.current(), random)
    }
}

/// How one step of the machine ends.
pub open spec fn step_outcome(s: State) -> StepOutcome {
    match s.halted {
        Some(fault) => StepOutcome::Halted(fault),
        None => outcome_spec(s.fetched(), s.current()),
    }
}

/// A timer after one tick: one less, unless it is at zero.
pub open spec fn ticked(timer: u8) -> u8 {
    if timer > 0 {
        (timer - 1) as u8
    } else {
        0
    }
}

/// The state after one 60 Hz tick: both timers have counted down and the
/// tone gate is open exactly if the sound timer has not run out.
pub open spec fn tick_spec(s: State) -> State {
    State { dt: ticked(s.dt), st: ticked(s.st), playing: ticked(s.st) > 0, ..s }
}

/// The command for the audio device that goes with one 60 Hz tick.
pub open spec fn tick_command(s: State) -> ToneCommand {
    gate_command(s.playing, ticked(s.st))
}

} // verus!
