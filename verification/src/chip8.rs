//! The machine itself: registers, stack, timers, memory, display and keypad,
//! and the fetch-decode-execute step.
use rand::Rng;
use vstd::prelude::*;
use crate::host::{
    action_spec, draws, event_draws, event_spec, frame_spec, frame_tone, frame_trace, record_of,
    run_spec, trace_of, trace_spec, FrameReport, HostAction, HostEvent, TraceRecord,
};
use crate::instruction::{decode, Instruction};
use crate::keypad::{with_key, HostKey, KeyState, NO_KEY};
use crate::memory::{Memory, MAX_MEM};
use crate::screen::Screen;
use crate::state::{
    apply, execute_spec, outcome_spec, power_on, reset_spec, step_outcome, step_spec, tick_command,
    tick_spec, with_font, with_program, word_at, Fault, State, StepOutcome, FONT, FONT_ADDRESS,
    MAX_PROGRAM_SIZE, PROGRAM_ADDRESS,
};
use crate::synth::{Synth, ToneCommand};

verus! {

/// Why a program was not loaded.
#[derive(Clone, Copy, Debug, PartialEq, Eq, Structural)]
pub enum LoadError {
    /// The load would start below `PROGRAM_ADDRESS`, in the reserved area.
    Reserved,
    /// The program would pass the end of memory.
    TooLarge,
}

/// Why a program of `len` bytes cannot be loaded at `base`, if it cannot.
pub open spec fn load_error(len: nat, base: int) -> Option<LoadError> {
    if base < 0x200 {
        Some(LoadError::Reserved)
    } else if base + len > 0x1000 {
        Some(LoadError::TooLarge)
    } else {
        None
    }
}

/// A CHIP-8 machine.
#[allow(non_camel_case_types)]
pub struct CHIP8 {
    ram: Memory,
    display: Screen,
    pc: u16,
    i: u16,
    v: [u8; 16],
    stack: [u16; 16],
    sp: usize,
    dt: u8,
    st: u8,
    key_state: KeyState,
    synth: Synth,
    debug_level: u32,
    paused: bool,
    halted: Option<Fault>,
}

impl View for CHIP8 {
    type V = State;

    closed spec fn view(&self) -> State {
        State {
            ram: self.ram@,
            pixels: self.display@,
            pc: self.pc,
            i: self.i,
            v: self.v@,
            stack: self.stack@,
            sp: self.sp as nat,
            dt: self.dt,
            st: self.st,
            keys: self.key_state@,
            halted: self.halted,
            playing: self.synth.is_playing,
            paused: self.paused,
            debug_level: self.debug_level,
        }
    }
}

/// `a - b` modulo 256.
fn difference(a: u8, b: u8) -> (d: u8)
    ensures
        d == (a - b) % 256,
{
    if a >= b {
        a - b
    } else {
        (256 - (b - a) as u16) as u8
    }
}

/// Writes the font over `FONT_ADDRESS..FONT_ADDRESS + 80`.
fn install_font(ram: &mut Memory)
    ensures
        final(ram)@ == with_font(old(ram)@),
    no_unwind
{
    let ghost before = ram@;
    proof {
        ram.lemma_len();
    }
    let mut k: usize = 0;
    while k < 80
        invariant
            k <= 80,
            before.len() == 0x1000,
            ram@ =~= Seq::new(
                0x1000,
                |a: int|
                    if 0x50 <= a < 0x50 + k {
                        FONT@[a - 0x50]
                    } else {
                        before[a]
                    },
            ),
        decreases 80 - k,
    {
        ram.write(FONT_ADDRESS + k, FONT[k]);
        k += 1;
    }
    assert(ram@ =~= with_font(before));
}

impl CHIP8 {
    #[verifier::type_invariant]
    spec fn inv(&self) -> bool {
        self@.wf()
    }

    /// Switches a machine on: memory holds the font and is zero elsewhere,
    /// everything else is cleared, and execution will start at
    /// `PROGRAM_ADDRESS`.
    pub fn new(debug_level: u32) -> (chip8: CHIP8)
        ensures
            chip8@ == power_on(debug_level),
            chip8@.wf(),
    {
        let mut ram = Memory::new();
        install_font(&mut ram);
        let chip8 = CHIP8 {
            ram,
            display: Screen::new(),
            pc: PROGRAM_ADDRESS as u16,
            i: 0,
            v: [0; 16],
            stack: [0; 16],
            sp: 0,
            dt: 0,
            st: 0,
            key_state: KeyState::new(),
            synth: Synth::new(),
            debug_level,
            paused: false,
            halted: None,
        };
        assert(chip8@.v =~= power_on(debug_level).v);
        assert(chip8@.stack =~= power_on(debug_level).stack);
        chip8
    }

    /// Clears registers, stack, timers and display, writes the font again,
    /// forgets a fault and sets the program counter to `PROGRAM_ADDRESS`.
    /// The loaded program stays in memory.
    pub fn reset(&mut self)
        ensures
            final(self)@ == reset_spec(old(self)@),
            final(self)@.wf(),
    {
        proof {
            use_type_invariant(&*self);
        }
        self.display.clear_screen();
        install_font(&mut self.ram);
        self.pc = PROGRAM_ADDRESS as u16;
        self.i = 0;
        self.stack = [0; 16];
        self.sp = 0;
        self.v = [0; 16];
        self.dt = 0;
        self.st = 0;
        self.halted = None;
        assert(self@.v =~= reset_spec(old(self)@).v);
        assert(self@.stack =~= reset_spec(old(self)@).stack);
    }

    /// Stops execution until `resume`.
    pub fn pause(&mut self)
        ensures
            final(self)@ == (State { paused: true, ..old(self)@ }),
            final(self)@.wf(),
    {
        proof {
            use_type_invariant(&*self);
        }
        self.paused = true;
    }

    /// Lets execution go on.
    pub fn resume(&mut self)
        ensures
            final(self)@ == (State { paused: false, ..old(self)@ }),
            final(self)@.wf(),
    {
        proof {
            use_type_invariant(&*self);
        }
        self.paused = false;
    }

    /// Sets how much the host wants traced.
    pub fn set_debug_level(&mut self, debug_level: u32)
        ensures
            final(self)@ == (State { debug_level, ..old(self)@ }),
            final(self)@.wf(),
    {
        proof {
            use_type_invariant(&*self);
        }
        self.debug_level = debug_level;
    }

    /// Loads a program at `PROGRAM_ADDRESS`.
    ///
    /// A program of more than `MAX_PROGRAM_SIZE` bytes is refused and the
    /// machine is left as it was. Otherwise memory holds the program from
    /// `PROGRAM_ADDRESS` on and is unchanged everywhere else.
    pub fn load_program(&mut self, program: &[u8]) -> (loaded: Result<(), LoadError>)
        ensures
            final(self)@.wf(),
            program@.len() <= MAX_PROGRAM_SIZE ==> loaded is Ok && final(self)@ == (State {
                ram: with_program(old(self)@.ram, program@, 0x200),
                ..old(self)@
            }),
            program@.len() > MAX_PROGRAM_SIZE ==> loaded == Err::<(), LoadError>(
                LoadError::TooLarge,
            ) && final(self)@ == old(self)@,
    {
        self.load_program_at(program, PROGRAM_ADDRESS as u16)
    }

    /// Loads a program at `base`.
    ///
    /// A load that would start in the reserved area below `PROGRAM_ADDRESS`
    /// or pass the end of memory is refused and the machine is left as it
    /// was. Otherwise memory holds the program from `base` on and is
    /// unchanged everywhere else.
    pub fn load_program_at(&mut self, program: &[u8], base: u16) -> (loaded: Result<
        (),
        LoadError,
    >)
        ensures
            final(self)@.wf(),
            match load_error(program@.len(), base as int) {
                Some(e) => loaded == Err::<(), LoadError>(e) && final(self)@ == old(self)@,
                None => loaded is Ok && final(self)@ == (State {
                    ram: with_program(old(self)@.ram, program@, base as int),
                    ..old(self)@
                }),
            },
    {
        proof {
            use_type_invariant(&*self);
        }
        let base = base as usize;
        if base < PROGRAM_ADDRESS {
            return Err(LoadError::Reserved);
        }
        if program.len() > MAX_MEM || base > MAX_MEM - program.len() {
            return Err(LoadError::TooLarge);
        }
        let ghost before = self@;
        let mut k: usize = 0;
        assert(before.ram =~= with_program(before.ram, program@.take(0), base as int));
        while k < program.len()
            invariant
                k <= program@.len(),
                base + program@.len() <= 0x1000,
                before.wf(),
                self@ == (State {
                    ram: with_program(before.ram, program@.take(k as int), base as int),
                    ..before
                }),
            decreases program@.len() - k,
        {
            proof {
                use_type_invariant(&*self);
            }
            self.ram.write(base + k, program[k]);
            assert(self@.ram =~= with_program(
                before.ram,
                program@.take(k + 1),
                base as int,
            ));
            k += 1;
        }
        assert(program@.take(k as int) =~= program@);
        Ok(())
    }

    /// Address of the next instruction.
    pub fn pc(&self) -> (pc: u16)
        ensures
            pc == self@.pc,
            pc < 0x1000,
    {
        proof {
            use_type_invariant(self);
        }
        self.pc
    }

    /// The index register.
    pub fn i(&self) -> (i: u16)
        ensures
            i == self@.i,
            i < 0x1000,
    {
        proof {
            use_type_invariant(self);
        }
        self.i
    }

    /// Number of return addresses on the stack.
    pub fn sp(&self) -> (sp: usize)
        ensures
            sp == self@.sp,
            sp <= 16,
    {
        proof {
            use_type_invariant(self);
        }
        self.sp
    }

    /// The delay timer.
    pub fn dt(&self) -> (dt: u8)
        ensures
            dt == self@.dt,
    {
        self.dt
    }

    /// The sound timer.
    pub fn st(&self) -> (st: u8)
        ensures
            st == self@.st,
    {
        self.st
    }

    /// The registers `V0..=VF`.
    pub fn v(&self) -> (v: [u8; 16])
        ensures
            v@ == self@.v,
    {
        self.v
    }

    /// The call stack; its first `sp` entries are return addresses.
    pub fn stack(&self) -> (stack: [u16; 16])
        ensures
            stack@ == self@.stack,
    {
        self.stack
    }

    /// The memory.
    pub fn ram(&self) -> (ram: &Memory)
        ensures
            ram@ == self@.ram,
    {
        &self.ram
    }

    /// The display.
    pub fn display(&self) -> (display: &Screen)
        ensures
            display@ == self@.pixels,
    {
        &self.display
    }

    /// The keypad.
    pub fn key_state(&self) -> (keys: &KeyState)
        ensures
            keys@ == self@.keys,
    {
        &self.key_state
    }

    /// The fault that stopped the processor, if one did.
    pub fn fault(&self) -> (fault: Option<Fault>)
        ensures
            fault == self@.halted,
    {
        self.halted
    }

    /// Whether execution is paused.
    pub fn is_paused(&self) -> (paused: bool)
        ensures
            paused == self@.paused,
    {
        self.paused
    }

    /// Whether the tone is sounding.
    pub fn is_playing(&self) -> (playing: bool)
        ensures
            playing == self@.playing,
    {
        self.synth.is_playing
    }

    /// How much the host wants traced.
    pub fn debug_level(&self) -> (level: u32)
        ensures
            level == self@.debug_level,
    {
        self.debug_level
    }

    /// Records that keypad key `key` went down; a number above `0xF` is
    /// ignored.
    pub fn press(&mut self, key: u8)
        ensures
            final(self)@ == (State { keys: with_key(old(self)@.keys, key, true), ..old(self)@ }),
            final(self)@.wf(),
    {
        proof {
            use_type_invariant(&*self);
        }
        self.key_state.set_key(key, true);
    }

    /// Records that keypad key `key` went up; a number above `0xF` is
    /// ignored.
    pub fn release(&mut self, key: u8)
        ensures
            final(self)@ == (State { keys: with_key(old(self)@.keys, key, false), ..old(self)@ }),
            final(self)@.wf(),
    {
        proof {
            use_type_invariant(&*self);
        }
        self.key_state.set_key(key, false);
    }

    /// Reads the byte at the program counter and moves the program counter
    /// one byte on, wrapping at the end of memory.
    fn fetch_byte(&mut self) -> (byte: u8)
        ensures
            byte == old(self)@.ram[old(self)@.pc as int],
            final(self)@ == (State { pc: ((old(self)@.pc + 1) % 0x1000) as u16, ..old(self)@ }),
    {
        proof {
            use_type_invariant(&*self);
        }
        let byte = self.ram.read(self.pc as usize);
        self.pc = (self.pc + 1) % (MAX_MEM as u16);
        byte
    }

    /// Reads the big-endian word at the program counter and moves the
    /// program counter two bytes on.
    fn fetch_word(&mut self) -> (word: u16)
        ensures
            word == word_at(old(self)@.ram, old(self)@.pc),
            final(self)@ == old(self)@.fetched(),
    {
        proof {
            use_type_invariant(&*self);
        }
        let high = self.fetch_byte();
        let low = self.fetch_byte();
        assert((high as u16) << 8 | (low as u16) == high * 256 + low) by (bit_vector);
        (high as u16) << 8 | (low as u16)
    }

    /// Moves the program counter past the next instruction.
    fn skip(&mut self)
        ensures
            final(self)@ == old(self)@.skip_if(true),
    {
        proof {
            use_type_invariant(&*self);
        }
        self.pc = (self.pc + 2) % (MAX_MEM as u16);
    }

    /// Stops the processor on `fault`.
    fn halt(&mut self, fault: Fault) -> (outcome: StepOutcome)
        ensures
            final(self)@ == (State { halted: Some(fault), ..old(self)@ }),
            outcome == StepOutcome::Halted(fault),
    {
        proof {
            use_type_invariant(&*self);
        }
        self.halted = Some(fault);
        StepOutcome::Halted(fault)
    }

    /// `00E0`: clears the display.
    fn op_00e0(&mut self)
        ensures
            final(self)@ == apply(old(self)@, Instruction::Cls, 0),
    {
        proof {
            use_type_invariant(&*self);
        }
        self.display.clear_screen();
    }

    /// `00EE`: pops the return address into the program counter, or stops
    /// the processor if the stack is empty.
    fn op_00ee(&mut self) -> (outcome: StepOutcome)
        ensures
            final(self)@ == execute_spec(old(self)@, Instruction::Ret, 0),
            outcome == outcome_spec(old(self)@, Instruction::Ret),
    {
        proof {
            use_type_invariant(&*self);
        }
        if self.sp == 0 {
            return self.halt(Fault::StackUnderflow);
        }
        self.sp -= 1;
        self.pc = self.stack[self.sp];
        StepOutcome::Ran
    }

    /// `1NNN`: jumps to `addr`.
    fn op_1nnn(&mut self, addr: u16)
        requires
            addr < 0x1000,
        ensures
            final(self)@ == apply(old(self)@, Instruction::Jp { addr }, 0),
    {
        proof {
            use_type_invariant(&*self);
        }
        self.pc = addr;
    }

    /// `2NNN`: pushes the program counter and jumps to `addr`, or stops the
    /// processor if the stack is full.
    fn op_2nnn(&mut self, addr: u16) -> (outcome: StepOutcome)
        requires
            addr < 0x1000,
        ensures
            final(self)@ == execute_spec(old(self)@, Instruction::Call { addr }, 0),
            outcome == outcome_spec(old(self)@, Instruction::Call { addr }),
    {
        proof {
            use_type_invariant(&*self);
        }
        if self.sp >= 16 {
            return self.halt(Fault::StackOverflow);
        }
        self.stack[self.sp] = self.pc;
        self.sp += 1;
        self.pc = addr;
        StepOutcome::Ran
    }

    /// `3XNN`: skips the next instruction if `V[x] == byte`.
    fn op_3xnn(&mut self, x: u8, byte: u8)
        requires
            x < 16,
        ensures
            final(self)@ == apply(old(self)@, Instruction::SeByte { x, byte }, 0),
    {
        if self.v[x as usize] == byte {
            self.skip();
        }
    }

    /// `4XNN`: skips the next instruction if `V[x] != byte`.
    fn op_4xnn(&mut self, x: u8, byte: u8)
        requires
            x < 16,
        ensures
            final(self)@ == apply(old(self)@, Instruction::SneByte { x, byte }, 0),
    {
        if self.v[x as usize] != byte {
            self.skip();
        }
    }

    /// `5XY0`: skips the next instruction if `V[x] == V[y]`.
    fn op_5xy0(&mut self, x: u8, y: u8)
        requires
            x < 16,
            y < 16,
        ensures
            final(self)@ == apply(old(self)@, Instruction::SeReg { x, y }, 0),
    {
        if self.v[x as usize] == self.v[y as usize] {
            self.skip();
        }
    }

    /// `6XNN`: `V[x] = byte`.
    fn op_6xnn(&mut self, x: u8, byte: u8)
        requires
            x < 16,
        ensures
            final(self)@ == apply(old(self)@, Instruction::LdByte { x, byte }, 0),
    {
        proof {
            use_type_invariant(&*self);
        }
        self.v[x as usize] = byte;
    }

    /// `7XNN`: `V[x] = (V[x] + byte) mod 256`; no flag is written.
    fn op_7xnn(&mut self, x: u8, byte: u8)
        requires
            x < 16,
        ensures
            final(self)@ == apply(old(self)@, Instruction::AddByte { x, byte }, 0),
    {
        proof {
            use_type_invariant(&*self);
        }
        let sum = self.v[x as usize] as u16 + byte as u16;
        self.v[x as usize] = (sum % 256) as u8;
    }

    /// `8XY0`: `V[x] = V[y]`.
    fn op_8xy0(&mut self, x: u8, y: u8)
        requires
            x < 16,
            y < 16,
        ensures
            final(self)@ == apply(old(self)@, Instruction::LdReg { x, y }, 0),
    {
        proof {
            use_type_invariant(&*self);
        }
        self.v[x as usize] = self.v[y as usize];
    }

    /// `8XY1`: `V[x] = V[x] | V[y]`.
    fn op_8xy1(&mut self, x: u8, y: u8)
        requires
            x < 16,
            y < 16,
        ensures
            final(self)@ == apply(old(self)@, Instruction::Or { x, y }, 0),
    {
        proof {
            use_type_invariant(&*self);
        }
        self.v[x as usize] = self.v[x as usize] | self.v[y as usize];
    }

    /// `8XY2`: `V[x] = V[x] & V[y]`.
    fn op_8xy2(&mut self, x: u8, y: u8)
        requires
            x < 16,
            y < 16,
        ensures
            final(self)@ == apply(old(self)@, Instruction::And { x, y }, 0),
    {
        proof {
            use_type_invariant(&*self);
        }
        self.v[x as usize] = self.v[x as usize] & self.v[y as usize];
    }

    /// `8XY3`: `V[x] = V[x] ^ V[y]`.
    fn op_8xy3(&mut self, x: u8, y: u8)
        requires
            x < 16,
            y < 16,
        ensures
            final(self)@ == apply(old(self)@, Instruction::Xor { x, y }, 0),
    {
        proof {
            use_type_invariant(&*self);
        }
        self.v[x as usize] = self.v[x as usize] ^ self.v[y as usize];
    }

    /// `8XY4`: `V[x] = (V[x] + V[y]) mod 256`, then `VF` = 1 if the sum passed
    /// 255 and 0 if not.
    fn op_8xy4(&mut self, x: u8, y: u8)
        requires
            x < 16,
            y < 16,
        ensures
            final(self)@ == apply(old(self)@, Instruction::AddReg { x, y }, 0),
    {
        proof {
            use_type_invariant(&*self);
        }
        let sum = self.v[x as usize] as u16 + self.v[y as usize] as u16;
        self.v[x as usize] = (sum % 256) as u8;
        self.v[0xF] = if sum > 255 {
            1
        } else {
            0
        };
    }

    /// `8XY5`: `V[x] = (V[x] - V[y]) mod 256`, then `VF` = 1 if nothing was
    /// borrowed and 0 if something was.
    fn op_8xy5(&mut self, x: u8, y: u8)
        requires
            x < 16,
            y < 16,
        ensures
            final(self)@ == apply(old(self)@, Instruction::SubReg { x, y }, 0),
    {
        proof {
            use_type_invariant(&*self);
        }
        let minuend = self.v[x as usize];
        let subtrahend = self.v[y as usize];
        self.v[x as usize] = difference(minuend, subtrahend);
        self.v[0xF] = if minuend >= subtrahend {
            1
        } else {
            0
        };
    }

    /// `8XY6`: `V[x] = V[x] >> 1`, then `VF` = the bit that was shifted out.
    fn op_8xy6(&mut self, x: u8)
        requires
            x < 16,
        ensures
            final(self)@ == apply(old(self)@, Instruction::Shr { x }, 0),
    {
        proof {
            use_type_invariant(&*self);
        }
        let value = self.v[x as usize];
        assert(value >> 1 == value / 2 && value & 1 == value % 2) by (bit_vector);
        self.v[x as usize] = value >> 1;
        self.v[0xF] = value & 1;
    }

    /// `8XY7`: `V[x] = (V[y] - V[x]) mod 256`, then `VF` = 1 if nothing was
    /// borrowed and 0 if something was.
    fn op_8xy7(&mut self, x: u8, y: u8)
        requires
            x < 16,
            y < 16,
        ensures
            final(self)@ == apply(old(self)@, Instruction::SubnReg { x, y }, 0),
    {
        proof {
            use_type_invariant(&*self);
        }
        let minuend = self.v[y as usize];
        let subtrahend = self.v[x as usize];
        self.v[x as usize] = difference(minuend, subtrahend);
        self.v[0xF] = if minuend >= subtrahend {
            1
        } else {
            0
        };
    }

    /// `8XYE`: `V[x] = (V[x] << 1) mod 256`, then `VF` = the bit that was
    /// shifted out.
    fn op_8xye(&mut self, x: u8)
        requires
            x < 16,
        ensures
            final(self)@ == apply(old(self)@, Instruction::Shl { x }, 0),
    {
        proof {
            use_type_invariant(&*self);
        }
        let value = self.v[x as usize];
        assert((value >> 7) & 1 == (if value >= 128 { 1u8 } else { 0u8 })) by (bit_vector);
        self.v[x as usize] = ((value as u16 * 2) % 256) as u8;
        self.v[0xF] = (value >> 7) & 1;
    }

    /// `9XY0`: skips the next instruction if `V[x] != V[y]`.
    fn op_9xy0(&mut self, x: u8, y: u8)
        requires
            x < 16,
            y < 16,
        ensures
            final(self)@ == apply(old(self)@, Instruction::SneReg { x, y }, 0),
    {
        if self.v[x as usize] != self.v[y as usize] {
            self.skip();
        }
    }

    /// `ANNN`: `I = addr`.
    fn op_annn(&mut self, addr: u16)
        requires
            addr < 0x1000,
        ensures
            final(self)@ == apply(old(self)@, Instruction::LdI { addr }, 0),
    {
        proof {
            use_type_invariant(&*self);
        }
        self.i = addr;
    }

    /// `BNNN`: jumps to `addr + V[0]`, wrapping at the end of memory.
    fn op_bnnn(&mut self, addr: u16)
        requires
            addr < 0x1000,
        ensures
            final(self)@ == apply(old(self)@, Instruction::JpV0 { addr }, 0),
    {
        proof {
            use_type_invariant(&*self);
        }
        self.pc = (self.v[0] as u16 + addr) % (MAX_MEM as u16);
    }

    /// `CXNN`: `V[x] = random & byte`.
    fn op_cxnn(&mut self, x: u8, byte: u8, random: u8)
        requires
            x < 16,
        ensures
            final(self)@ == apply(old(self)@, Instruction::Rnd { x, byte }, random),
    {
        proof {
            use_type_invariant(&*self);
        }
        self.v[x as usize] = random & byte;
    }

    /// `DXYN`: draws the sprite of `n` rows at `I` on column `V[x]` and row
    /// `V[y]`, then `VF` = 1 if a pixel went off and 0 if none did.
    fn op_dxyn(&mut self, x: u8, y: u8, n: u8)
        requires
            x < 16,
            y < 16,
        ensures
            final(self)@ == apply(old(self)@, Instruction::Drw { x, y, n }, 0),
    {
        proof {
            use_type_invariant(&*self);
        }
        let vx = self.v[x as usize];
        let vy = self.v[y as usize];
        let collision = self.display.buffer_graphics(&self.ram, vx, vy, n, self.i);
        self.v[0xF] = if collision {
            1
        } else {
            0
        };
    }

    /// `EX9E`: skips the next instruction if key `V[x]` is down.
    fn op_ex9e(&mut self, x: u8)
        requires
            x < 16,
        ensures
            final(self)@ == apply(old(self)@, Instruction::Skp { x }, 0),
    {
        if self.key_state.check_key(self.v[x as usize]) {
            self.skip();
        }
    }

    /// `EXA1`: skips the next instruction if key `V[x]` is up.
    fn op_exa1(&mut self, x: u8)
        requires
            x < 16,
        ensures
            final(self)@ == apply(old(self)@, Instruction::Sknp { x }, 0),
    {
        if !self.key_state.check_key(self.v[x as usize]) {
            self.skip();
        }
    }

    /// `FX07`: `V[x] = DT`.
    fn op_fx07(&mut self, x: u8)
        requires
            x < 16,
        ensures
            final(self)@ == apply(old(self)@, Instruction::LdVxDt { x }, 0),
    {
        proof {
            use_type_invariant(&*self);
        }
        self.v[x as usize] = self.dt;
    }

    /// `FX0A`: stores the lowest key that is down in `V[x]`; while no key is
    /// down, moves the program counter back onto this instruction instead.
    fn op_fx0a(&mut self, x: u8) -> (outcome: StepOutcome)
        requires
            x < 16,
        ensures
            final(self)@ == apply(old(self)@, Instruction::LdVxKey { x }, 0),
            outcome == outcome_spec(old(self)@, Instruction::LdVxKey { x }),
    {
        proof {
            use_type_invariant(&*self);
        }
        let key = self.key_state.get_pressed_key();
        if key != NO_KEY {
            self.v[x as usize] = key;
            StepOutcome::Ran
        } else {
            self.pc = (self.pc + (MAX_MEM as u16 - 2)) % (MAX_MEM as u16);
            StepOutcome::WaitingForKey
        }
    }

    /// `FX15`: `DT = V[x]`.
    fn op_fx15(&mut self, x: u8)
        requires
            x < 16,
        ensures
            final(self)@ == apply(old(self)@, Instruction::LdDtVx { x }, 0),
    {
        proof {
            use_type_invariant(&*self);
        }
        self.dt = self.v[x as usize];
    }

    /// `FX18`: `ST = V[x]`.
    fn op_fx18(&mut self, x: u8)
        requires
            x < 16,
        ensures
            final(self)@ == apply(old(self)@, Instruction::LdStVx { x }, 0),
    {
        proof {
            use_type_invariant(&*self);
        }
        self.st = self.v[x as usize];
    }

    /// `FX1E`: `I = (I + V[x]) mod 0x1000`, with `VF` = 1 if the sum passed
    /// the end of memory.
    fn op_fx1e(&mut self, x: u8)
        requires
            x < 16,
        ensures
            final(self)@ == apply(old(self)@, Instruction::AddI { x }, 0),
    {
        proof {
            use_type_invariant(&*self);
        }
        let sum = self.i + self.v[x as usize] as u16;
        if sum > 0x0FFF {
            self.v[0xF] = 1;
        }
        self.i = sum % (MAX_MEM as u16);
    }

    /// `FX29`: `I` = address of the glyph for the low digit of `V[x]`.
    fn op_fx29(&mut self, x: u8)
        requires
            x < 16,
        ensures
            final(self)@ == apply(old(self)@, Instruction::LdFont { x }, 0),
    {
        proof {
            use_type_invariant(&*self);
        }
        self.i = FONT_ADDRESS as u16 + 5 * (self.v[x as usize] % 16) as u16;
    }

    /// `FX33`: stores the hundreds, tens and ones of `V[x]` at `I`, `I+1`
    /// and `I+2`, or stops the processor if that would pass the end of
    /// memory.
    fn op_fx33(&mut self, x: u8) -> (outcome: StepOutcome)
        requires
            x < 16,
        ensures
            final(self)@ == execute_spec(old(self)@, Instruction::Bcd { x }, 0),
            outcome == outcome_spec(old(self)@, Instruction::Bcd { x }),
    {
        proof {
            use_type_invariant(&*self);
        }
        let at = self.i as usize;
        if at + 2 >= MAX_MEM {
            return self.halt(Fault::AddressOutOfRange);
        }
        let value = self.v[x as usize];
        self.ram.write(at, value / 100);
        self.ram.write(at + 1, value / 10 % 10);
        self.ram.write(at + 2, value % 10);
        StepOutcome::Ran
    }

    /// `FX55`: stores `V[0]..=V[x]` at `I..=I+x`, or stops the processor if
    /// that would pass the end of memory. `I` is left as it is.
    fn op_fx55(&mut self, x: u8) -> (outcome: StepOutcome)
        requires
            x < 16,
        ensures
            final(self)@ == execute_spec(old(self)@, Instruction::Store { x }, 0),
            outcome == outcome_spec(old(self)@, Instruction::Store { x }),
    {
        proof {
            use_type_invariant(&*self);
        }
        let at = self.i as usize;
        let last = x as usize;
        if at + last >= MAX_MEM {
            return self.halt(Fault::AddressOutOfRange);
        }
        let ghost before = self@;
        let mut k: usize = 0;
        assert(before.ram =~= Seq::new(
            0x1000,
            |a: int|
                if at <= a < at + 0 {
                    before.v[a - at]
                } else {
                    before.ram[a]
                },
        ));
        while k <= last
            invariant
                k <= last + 1,
                last < 16,
                at == before.i,
                at + last < 0x1000,
                before.wf(),
                self@ == (State {
                    ram: Seq::new(
                        0x1000,
                        |a: int|
                            if at <= a < at + k {
                                before.v[a - at]
                            } else {
                                before.ram[a]
                            },
                    ),
                    ..before
                }),
            decreases last + 1 - k,
        {
            proof {
                use_type_invariant(&*self);
            }
            self.ram.write(at + k, self.v[k]);
            assert(self@.ram =~= Seq::new(
                0x1000,
                |a: int|
                    if at <= a < at + k + 1 {
                        before.v[a - at]
                    } else {
                        before.ram[a]
                    },
            ));
            k += 1;
        }
        assert(self@.ram =~= apply(before, Instruction::Store { x }, 0).ram);
        StepOutcome::Ran
    }

    /// `FX65`: loads `V[0]..=V[x]` from `I..=I+x`, or stops the processor if
    /// that would pass the end of memory. `I` is left as it is.
    fn op_fx65(&mut self, x: u8) -> (outcome: StepOutcome)
        requires
            x < 16,
        ensures
            final(self)@ == execute_spec(old(self)@, Instruction::Load { x }, 0),
            outcome == outcome_spec(old(self)@, Instruction::Load { x }),
    {
        proof {
            use_type_invariant(&*self);
        }
        let at = self.i as usize;
        let last = x as usize;
        if at + last >= MAX_MEM {
            return self.halt(Fault::AddressOutOfRange);
        }
        let ghost before = self@;
        let mut k: usize = 0;
        assert(before.v =~= Seq::new(
            16,
            |j: int|
                if j < 0 {
                    before.ram[at + j]
                } else {
                    before.v[j]
                },
        ));
        while k <= last
            invariant
                k <= last + 1,
                last < 16,
                at == before.i,
                at + last < 0x1000,
                before.wf(),
                self@ == (State {
                    v: Seq::new(
                        16,
                        |j: int|
                            if j < k {
                                before.ram[at + j]
                            } else {
                                before.v[j]
                            },
                    ),
                    ..before
                }),
            decreases last + 1 - k,
        {
            proof {
                use_type_invariant(&*self);
            }
            self.v[k] = self.ram.read(at + k);
            assert(self@.v =~= Seq::new(
                16,
                |j: int|
                    if j < k + 1 {
                        before.ram[at + j]
                    } else {
                        before.v[j]
                    },
            ));
            k += 1;
        }
        assert(self@.v =~= apply(before, Instruction::Load { x }, 0).v);
        StepOutcome::Ran
    }

    /// Executes a decoded instruction on a machine whose program counter
    /// already points past it. `random` is used by `Rnd` alone.
    fn execute(&mut self, ins: Instruction, random: u8) -> (outcome: StepOutcome)
        requires
            ins.wf(),
        ensures
            final(self)@ == execute_spec(old(self)@, ins, random),
            outcome == outcome_spec(old(self)@, ins),
    {
        match ins {
            Instruction::Cls => {
                self.op_00e0();
                StepOutcome::Ran
            },
            Instruction::Ret => self.op_00ee(),
            Instruction::Jp { addr } => {
                self.op_1nnn(addr);
                StepOutcome::Ran
            },
            Instruction::Call { addr } => self.op_2nnn(addr),
            Instruction::SeByte { x, byte } => {
                self.op_3xnn(x, byte);
                StepOutcome::Ran
            },
            Instruction::SneByte { x, byte } => {
                self.op_4xnn(x, byte);
                StepOutcome::Ran
            },
            Instruction::SeReg { x, y } => {
                self.op_5xy0(x, y);
                StepOutcome::Ran
            },
            Instruction::LdByte { x, byte } => {
                self.op_6xnn(x, byte);
                StepOutcome::Ran
            },
            Instruction::AddByte { x, byte } => {
                self.op_7xnn(x, byte);
                StepOutcome::Ran
            },
            Instruction::LdReg { x, y } => {
                self.op_8xy0(x, y);
                StepOutcome::Ran
            },
            Instruction::Or { x, y } => {
                self.op_8xy1(x, y);
                StepOutcome::Ran
            },
            Instruction::And { x, y } => {
                self.op_8xy2(x, y);
                StepOutcome::Ran
            },
            Instruction::Xor { x, y } => {
                self.op_8xy3(x, y);
                StepOutcome::Ran
            },
            Instruction::AddReg { x, y } => {
                self.op_8xy4(x, y);
                StepOutcome::Ran
            },
            Instruction::SubReg { x, y } => {
                self.op_8xy5(x, y);
                StepOutcome::Ran
            },
            Instruction::Shr { x } => {
                self.op_8xy6(x);
                StepOutcome::Ran
            },
            Instruction::SubnReg { x, y } => {
                self.op_8xy7(x, y);
                StepOutcome::Ran
            },
            Instruction::Shl { x } => {
                self.op_8xye(x);
                StepOutcome::Ran
            },
            Instruction::SneReg { x, y } => {
                self.op_9xy0(x, y);
                StepOutcome::Ran
            },
            Instruction::LdI { addr } => {
                self.op_annn(addr);
                StepOutcome::Ran
            },
            Instruction::JpV0 { addr } => {
                self.op_bnnn(addr);
                StepOutcome::Ran
            },
            Instruction::Rnd { x, byte } => {
                self.op_cxnn(x, byte, random);
                StepOutcome::Ran
            },
            Instruction::Drw { x, y, n } => {
                self.op_dxyn(x, y, n);
                StepOutcome::Ran
            },
            Instruction::Skp { x } => {
                self.op_ex9e(x);
                StepOutcome::Ran
            },
            Instruction::Sknp { x } => {
                self.op_exa1(x);
                StepOutcome::Ran
            },
            Instruction::LdVxDt { x } => {
                self.op_fx07(x);
                StepOutcome::Ran
            },
            Instruction::LdVxKey { x } => self.op_fx0a(x),
            Instruction::LdDtVx { x } => {
                self.op_fx15(x);
                StepOutcome::Ran
            },
            Instruction::LdStVx { x } => {
                self.op_fx18(x);
                StepOutcome::Ran
            },
            Instruction::AddI { x } => {
                self.op_fx1e(x);
                StepOutcome::Ran
            },
            Instruction::LdFont { x } => {
                self.op_fx29(x);
                StepOutcome::Ran
            },
            Instruction::Bcd { x } => self.op_fx33(x),
            Instruction::Store { x } => self.op_fx55(x),
            Instruction::Load { x } => self.op_fx65(x),
            Instruction::Unknown { .. } => StepOutcome::Ran,
        }
    }

    /// Executes one instruction, with `random` as the byte that `CXNN`
    /// draws: fetches the word at the program counter, moves the program
    /// counter past it, decodes the word and carries the instruction out. A
    /// word that is no instruction changes nothing further. A stopped
    /// processor stays as it is.
    pub fn step_with(&mut self, random: u8) -> (outcome: StepOutcome)
        ensures
            final(self)@ == step_spec(old(self)@, random),
            outcome == step_outcome(old(self)@),
            final(self)@.wf(),
    {
        proof {
            use_type_invariant(&*self);
        }
        match self.halted {
            Some(fault) => {
                return StepOutcome::Halted(fault);
            },
            None => {},
        }
        let word = self.fetch_word();
        let ins = decode(word);
        let outcome = self.execute(ins, random);
        proof {
            use_type_invariant(&*self);
        }
        outcome
    }

    /// Whether the next step will draw a random byte: the processor runs
    /// and the program counter points at a `CXNN`.
    pub fn wants_random(&self) -> (wanted: bool)
        ensures
            wanted == draws(self@),
    {
        proof {
            use_type_invariant(self);
        }
        let ins = decode(self.peek_word());
        self.halted.is_none() && matches!(ins, Instruction::Rnd { .. })
    }

    /// The instruction word at the program counter.
    pub fn peek_word(&self) -> (word: u16)
        ensures
            word == word_at(self@.ram, self@.pc),
    {
        proof {
            use_type_invariant(self);
        }
        let high = self.ram.read(self.pc as usize);
        let low = self.ram.read((self.pc as usize + 1) % MAX_MEM);
        assert((high as u16) << 8 | (low as u16) == high * 256 + low) by (bit_vector);
        (high as u16) << 8 | (low as u16)
    }

    /// Executes one instruction, drawing the byte for `CXNN` from the
    /// thread's random number generator.
    ///
    /// The step is `step_with` for the byte that was drawn; where the
    /// instruction is no `CXNN`, no byte is drawn and the step is the same
    /// for every byte.
    pub fn step(&mut self) -> (outcome: StepOutcome)
        ensures
            exists|random: u8| final(self)@ == #[trigger] step_spec(old(self)@, random),
            !draws(old(self)@) ==> final(self)@ == step_spec(old(self)@, 0),
            outcome == step_outcome(old(self)@),
            final(self)@.wf(),
    {
        let random = if self.wants_random() {
            random_byte()
        } else {
            0
        };
        self.step_with(random)
    }

    /// Counts both timers down by one, unless they are at zero, and brings
    /// the tone gate in line with the sound timer. Returns what the host has
    /// to tell the audio device: `On` when the tone starts, `Off` when it
    /// stops, `Hold` otherwise.
    pub fn tick_timers(&mut self) -> (command: ToneCommand)
        ensures
            final(self)@ == tick_spec(old(self)@),
            command == tick_command(old(self)@),
            final(self)@.wf(),
    {
        proof {
            use_type_invariant(&*self);
        }
        if self.dt > 0 {
            self.dt -= 1;
        }
        if self.st > 0 {
            self.st -= 1;
        }
        self.synth.gate(self.st)
    }

    /// The record that the host is to print for the next step, if any: every
    /// instruction while the debug level is above zero, and at any level a
    /// word that is no instruction. A stopped processor executes nothing and
    /// has nothing printed.
    pub fn trace_record(&self) -> (record: Option<TraceRecord>)
        ensures
            record == trace_of(self@),
    {
        proof {
            use_type_invariant(self);
        }
        if self.halted.is_some() {
            return None;
        }
        let word = self.peek_word();
        let instruction = decode(word);
        if self.debug_level > 0 || matches!(instruction, Instruction::Unknown { .. }) {
            Some(TraceRecord { pc: self.pc, word, instruction })
        } else {
            None
        }
    }

    /// Handles one event of the host's window and says what the host has to
    /// do. Closing the window and `Escape` ask the host to quit; `F5` resets
    /// the machine; `F6` pauses it and executes exactly one instruction;
    /// `Space` pauses or resumes; any other key goes to the keypad, which
    /// ignores the keys that stand for none of its own.
    pub fn handle_event(&mut self, event: HostEvent) -> (action: HostAction)
        ensures
            exists|random: u8| final(self)@ == #[trigger] event_spec(old(self)@, event, random),
            !event_draws(old(self)@, event) ==> final(self)@ == event_spec(old(self)@, event, 0),
            action == action_spec(old(self)@, event),
            final(self)@.wf(),
    {
        proof {
            use_type_invariant(&*self);
        }
        let ghost before = self@;
        match event {
            HostEvent::Quit => {
                assert(self@ == event_spec(before, event, 0));
                HostAction::Quit
            },
            HostEvent::KeyDown(key) => match key {
                HostKey::Escape => {
                    assert(self@ == event_spec(before, event, 0));
                    HostAction::Quit
                },
                HostKey::F5 => {
                    self.reset();
                    assert(self@ == event_spec(before, event, 0));
                    HostAction::Reset
                },
                HostKey::F6 => {
                    self.pause();
                    let record = self.trace_record();
                    let outcome = self.step();
                    proof {
                        let random = choose|random: u8|
                            self@ == #[trigger] step_spec(crate::host::held(before), random);
                        assert(self@ == event_spec(before, event, random));
                    }
                    HostAction::Stepped { outcome, record }
                },
                HostKey::Space => {
                    if self.paused {
                        self.resume();
                        assert(self@ == event_spec(before, event, 0));
                        HostAction::Resumed
                    } else {
                        self.pause();
                        assert(self@ == event_spec(before, event, 0));
                        HostAction::Paused
                    }
                },
                _ => {
                    self.key_state.set_key_state(key, true);
                    assert(self@ == event_spec(before, event, 0));
                    HostAction::Key
                },
            },
            HostEvent::KeyUp(key) => {
                self.key_state.set_key_state(key, false);
                assert(self@ == event_spec(before, event, 0));
                HostAction::Key
            },
        }
    }

    /// Runs one frame: unless execution is paused, `steps` instructions;
    /// then one tick of the timers. The report holds the command for the
    /// audio device and the records to print.
    ///
    /// The frame is `frame_spec` for the bytes that the `CXNN` instructions
    /// among the steps drew.
    pub fn run_frame(&mut self, steps: u32) -> (report: FrameReport)
        ensures
            exists|randoms: Seq<u8>|
                randoms.len() == steps && final(self)@ == #[trigger] frame_spec(
                    old(self)@,
                    randoms,
                ) && report.tone == frame_tone(old(self)@, randoms) && report.trace@
                    == frame_trace(old(self)@, randoms),
            final(self)@.wf(),
    {
        proof {
            use_type_invariant(&*self);
        }
        let ghost before = self@;
        let ghost mut randoms: Seq<u8> = Seq::empty();
        let mut trace: Vec<TraceRecord> = Vec::new();
        let mut done: u32 = 0;
        if !self.paused {
            while done < steps
                invariant
                    done <= steps,
                    randoms.len() == done,
                    self@ == run_spec(before, randoms),
                    trace@ == trace_spec(before, randoms),
                decreases steps - done,
            {
                let ghost previous = self@;
                match self.trace_record() {
                    Some(record) => trace.push(record),
                    None => {},
                }
                self.step();
                proof {
                    let random = choose|random: u8| self@ == #[trigger] step_spec(previous, random);
                    let longer = randoms.push(random);
                    assert(longer.drop_last() =~= randoms);
                    assert(longer.last() == random);
                    randoms = longer;
                }
                done += 1;
            }
        } else {
            proof {
                randoms = Seq::new(steps as nat, |k: int| 0u8);
            }
        }
        assert(self@ == crate::host::frame_steps(before, randoms));
        assert(trace@ == frame_trace(before, randoms));
        let tone = self.tick_timers();
        assert(self@ == frame_spec(before, randoms));
        FrameReport { tone, trace }
    }
}

/// Draws one byte from `rand::thread_rng()` with `Rng::gen_range(0..=255)`.
///
/// Nothing is claimed of the byte: every value of the type can come back.
/// `rand` seeds the generator from the operating system when a thread first
/// uses it, and gives up with a panic where the system has no entropy to
/// offer; the range is never empty, so `gen_range` itself does not panic.
#[verifier::external_body]
fn random_byte() -> (byte: u8) {
    rand::thread_rng().gen_range(0..=255u8)
}

} // verus!
