//! Laws of the machine, proved of the model that every operation is held to.
use vstd::prelude::*;
use crate::host::{carry_after, event_spec, frame_spec, run_spec, steps_after, HostEvent};
use crate::instruction::Instruction;
use crate::keypad::{lemma_lowest_pressed_from, lowest_pressed, with_key, NO_KEY};
use crate::screen::{collides, drawn, lit, sprite_covers};
use crate::state::{
    execute_spec, flag, outcome_spec, power_on, prev_pc, reset_spec, step_outcome, step_spec,
    tick_command, tick_spec, with_program, State, StepOutcome,
};
use crate::synth::{gate_command, ToneCommand};

verus! {

/// The invariant bounds the machine: the program counter and the index
/// register stay below `0x1000`, the stack pointer is at most 16, and both
/// timers are bytes.
pub proof fn law_invariant_bounds(s: State)
    requires
        s.wf(),
    ensures
        0 <= s.pc < 0x1000,
        0 <= s.i < 0x1000,
        0 <= s.sp <= 16,
        0 <= s.dt < 256,
        0 <= s.st < 256,
{
}

/// Executing any instruction whose operands are in range keeps the
/// invariant.
pub proof fn law_execute_keeps_invariant(s: State, ins: Instruction, random: u8)
    requires
        s.wf(),
        ins.wf(),
    ensures
        execute_spec(s, ins, random).wf(),
{
}

/// Every step keeps the invariant.
pub proof fn law_step_keeps_invariant(s: State, random: u8)
    requires
        s.wf(),
    ensures
        step_spec(s, random).wf(),
{
    crate::instruction::lemma_decode_wf(crate::state::word_at(s.ram, s.pc));
    law_execute_keeps_invariant(s.fetched(), s.current(), random);
}

/// A machine that has just been switched on meets the invariant.
pub proof fn law_power_on_meets_invariant(debug_level: u32)
    ensures
        power_on(debug_level).wf(),
{
}

/// A timer tick, a reset, every event of the host, a key going down or up
/// and the loading of a program that fits keep the invariant.
pub proof fn law_host_keeps_invariant(
    s: State,
    event: HostEvent,
    random: u8,
    key: u8,
    down: bool,
    program: Seq<u8>,
    base: int,
)
    requires
        s.wf(),
    ensures
        tick_spec(s).wf(),
        reset_spec(s).wf(),
        event_spec(s, event, random).wf(),
        (State { keys: with_key(s.keys, key, down), ..s }).wf(),
        (State { ram: with_program(s.ram, program, base), ..s }).wf(),
{
    law_step_keeps_invariant(crate::host::held(s), random);
}

/// Any number of steps, and a whole frame, keep the invariant.
pub proof fn law_frame_keeps_invariant(s: State, randoms: Seq<u8>)
    requires
        s.wf(),
    ensures
        run_spec(s, randoms).wf(),
        frame_spec(s, randoms).wf(),
    decreases randoms.len(),
{
    if randoms.len() > 0 {
        law_frame_keeps_invariant(s, randoms.drop_last());
        law_step_keeps_invariant(run_spec(s, randoms.drop_last()), randoms.last());
    }
}

/// After `00E0` every pixel is off.
pub proof fn law_clear_blanks_display(s: State, random: u8)
    ensures
        forall|k: int|
            0 <= k < 2048 ==> !(#[trigger] execute_spec(s, Instruction::Cls, random).pixels[k]),
{
}

/// After `DXYN`, `VF` is 0 or 1, and it is 1 exactly if a set bit of the
/// sprite fell on a pixel that was on.
pub proof fn law_draw_sets_collision_flag(s: State, x: u8, y: u8, n: u8, random: u8)
    requires
        s.wf(),
        x < 16,
        y < 16,
    ensures
        ({
            let after = execute_spec(s, Instruction::Drw { x, y, n }, random);
            let x0 = s.v[x as int] as int % 64;
            let y0 = s.v[y as int] as int % 32;
            &&& after.v[0xF] == 0 || after.v[0xF] == 1
            &&& after.v[0xF] == 1 <==> exists|px: int, py: int|
                0 <= px < 64 && 0 <= py < 32 && lit(s.pixels, px, py) && #[trigger] sprite_covers(
                    s.ram,
                    s.i,
                    n as int,
                    x0,
                    y0,
                    px,
                    py,
                )
        }),
{
}

/// Loading a program of at most 3584 bytes puts it at `0x200` and changes
/// no byte outside it: neither the reserved area below `0x200`, which holds
/// the font, nor what lies behind the program.
pub proof fn law_load_keeps_the_rest(ram: Seq<u8>, program: Seq<u8>)
    requires
        ram.len() == 0x1000,
        program.len() <= 3584,
    ensures
        with_program(ram, program, 0x200).len() == 0x1000,
        with_program(ram, program, 0x200).subrange(0x200, 0x200 + program.len() as int) == program,
        forall|a: int|
            0 <= a < 0x200 || 0x200 + program.len() <= a < 0x1000 ==> #[trigger] with_program(
                ram,
                program,
                0x200,
            )[a] == ram[a],
{
    assert(with_program(ram, program, 0x200).subrange(0x200, 0x200 + program.len() as int) =~= program);
}

/// `FX33` writes the hundreds, tens and ones of `V[x]` to `I`, `I+1` and
/// `I+2`, and nothing else.
pub proof fn law_bcd_digits(s: State, x: u8, random: u8)
    requires
        s.wf(),
        x < 16,
        s.i + 2 < 0x1000,
    ensures
        ({
            let after = execute_spec(s, Instruction::Bcd { x }, random);
            let value = s.v[x as int];
            &&& after.ram[s.i as int] == value / 100
            &&& after.ram[s.i + 1] == (value / 10) % 10
            &&& after.ram[s.i + 2] == value % 10
            &&& 100 * after.ram[s.i as int] + 10 * after.ram[s.i + 1] + after.ram[s.i + 2]
                == value
            &&& forall|a: int|
                0 <= a < 0x1000 && !(s.i <= a <= s.i + 2) ==> #[trigger] after.ram[a] == s.ram[a]
            &&& after == State { ram: after.ram, ..s }
        }),
{
    let value = s.v[x as int];
    let ram = s.ram.update(s.i as int, value / 100).update(s.i + 1, value / 10 % 10).update(
        s.i + 2,
        value % 10,
    );
    assert(execute_spec(s, Instruction::Bcd { x }, random) == State { ram, ..s });
    lemma_decimal_digits(value);
}

/// The three decimal digits of a byte make up the byte.
proof fn lemma_decimal_digits(value: u8)
    ensures
        100 * (value / 100) + 10 * (value / 10 % 10) + value % 10 == value,
        value / 100 < 3,
{
}

/// `7XNN` writes no flag: `VF` stays as it is, unless `VF` is the register
/// that a byte other than zero is added to.
pub proof fn law_add_byte_keeps_flag(s: State, x: u8, byte: u8, random: u8)
    requires
        s.wf(),
        x < 16,
        x != 0xF || byte == 0,
    ensures
        execute_spec(s, Instruction::AddByte { x, byte }, random).v[0xF] == s.v[0xF],
{
}

/// The arithmetic and shift instructions that set a flag leave the flag in
/// `VF` whatever register they compute into: where that register is `VF`
/// itself, `VF` holds the flag and not the result.
pub proof fn law_flag_is_written_last(s: State, x: u8, y: u8, random: u8)
    requires
        s.wf(),
        x < 16,
        y < 16,
    ensures
        execute_spec(s, Instruction::AddReg { x, y }, random).v[0xF] == flag(
            s.v[x as int] + s.v[y as int] > 255,
        ),
        execute_spec(s, Instruction::SubReg { x, y }, random).v[0xF] == flag(
            s.v[x as int] >= s.v[y as int],
        ),
        execute_spec(s, Instruction::SubnReg { x, y }, random).v[0xF] == flag(
            s.v[y as int] >= s.v[x as int],
        ),
        execute_spec(s, Instruction::Shr { x }, random).v[0xF] == flag(s.v[x as int] % 2 == 1),
        execute_spec(s, Instruction::Shl { x }, random).v[0xF] == flag(s.v[x as int] >= 128),
{
}

/// `FX55` followed by `FX65` with the same `x` leaves every register, and
/// `I`, as they were.
pub proof fn law_store_then_load(s: State, x: u8, first: u8, second: u8)
    requires
        s.wf(),
        x < 16,
    ensures
        ({
            let stored = execute_spec(s, Instruction::Store { x }, first);
            let loaded = execute_spec(stored, Instruction::Load { x }, second);
            loaded.v == s.v && loaded.i == s.i
        }),
{
    let stored = execute_spec(s, Instruction::Store { x }, first);
    let loaded = execute_spec(stored, Instruction::Load { x }, second);
    assert(loaded.v =~= s.v);
}

/// Drawing the same sprite twice on the same place gives back the frame
/// buffer, and the second drawing collides exactly if the sprite has a set
/// bit, on the display, over a pixel that was off before the first.
pub proof fn law_draw_twice(pixels: Seq<bool>, ram: Seq<u8>, i: u16, n: int, x0: int, y0: int)
    requires
        pixels.len() == 2048,
    ensures
        drawn(drawn(pixels, ram, i, n, x0, y0), ram, i, n, x0, y0) == pixels,
        collides(drawn(pixels, ram, i, n, x0, y0), ram, i, n, x0, y0) <==> exists|x: int, y: int|
            0 <= x < 64 && 0 <= y < 32 && !lit(pixels, x, y) && #[trigger] sprite_covers(
                ram,
                i,
                n,
                x0,
                y0,
                x,
                y,
            ),
{
    let once = drawn(pixels, ram, i, n, x0, y0);
    assert(drawn(once, ram, i, n, x0, y0) =~= pixels);
    assert forall|x: int, y: int| 0 <= x < 64 && 0 <= y < 32 implies lit(once, x, y) == (lit(
        pixels,
        x,
        y,
    ) != #[trigger] sprite_covers(ram, i, n, x0, y0, x, y)) by {
        assert((y * 64 + x) % 64 == x && (y * 64 + x) / 64 == y);
    }
    if collides(once, ram, i, n, x0, y0) {
        let (x, y) = choose|x: int, y: int|
            0 <= x < 64 && 0 <= y < 32 && lit(once, x, y) && #[trigger] sprite_covers(
                ram,
                i,
                n,
                x0,
                y0,
                x,
                y,
            );
        assert(!lit(pixels, x, y) && sprite_covers(ram, i, n, x0, y0, x, y));
    }
    if exists|x: int, y: int|
        0 <= x < 64 && 0 <= y < 32 && !lit(pixels, x, y) && #[trigger] sprite_covers(
            ram,
            i,
            n,
            x0,
            y0,
            x,
            y,
        ) {
        let (x, y) = choose|x: int, y: int|
            0 <= x < 64 && 0 <= y < 32 && !lit(pixels, x, y) && #[trigger] sprite_covers(
                ram,
                i,
                n,
                x0,
                y0,
                x,
                y,
            );
        assert(lit(once, x, y) && sprite_covers(ram, i, n, x0, y0, x, y));
    }
}

/// Two `DXYN` in a row with the same operands leave the frame buffer as it
/// was, provided that the flag which the first writes to `VF` does not move
/// the place of the second, as it can where `V[x]` or `V[y]` is `VF` itself.
/// The first sets `VF` to 0 exactly if the sprite hit only pixels that were
/// off; the second sets it to 1 exactly if the sprite has a set bit, on the
/// display, over a pixel that was off at first.
pub proof fn law_draw_twice_on_machine(s: State, x: u8, y: u8, n: u8, first: u8, second: u8)
    requires
        s.wf(),
        x < 16,
        y < 16,
        ({
            let once = execute_spec(s, Instruction::Drw { x, y, n }, first);
            once.v[x as int] % 64 == s.v[x as int] % 64 && once.v[y as int] % 32 == s.v[y as int]
                % 32
        }),
    ensures
        ({
            let once = execute_spec(s, Instruction::Drw { x, y, n }, first);
            let twice = execute_spec(once, Instruction::Drw { x, y, n }, second);
            let x0 = s.v[x as int] as int % 64;
            let y0 = s.v[y as int] as int % 32;
            &&& twice.pixels == s.pixels
            &&& once.v[0xF] == flag(collides(s.pixels, s.ram, s.i, n as int, x0, y0))
            &&& twice.v[0xF] == flag(
                exists|px: int, py: int|
                    0 <= px < 64 && 0 <= py < 32 && !lit(s.pixels, px, py)
                        && #[trigger] sprite_covers(s.ram, s.i, n as int, x0, y0, px, py),
            )
        }),
{
    let x0 = s.v[x as int] as int % 64;
    let y0 = s.v[y as int] as int % 32;
    law_draw_twice(s.pixels, s.ram, s.i, n as int, x0, y0);
}

/// Operands other than `VF` are not moved by a drawing, so that two `DXYN`
/// in a row with such operands draw on the same place.
pub proof fn law_draw_keeps_its_place(s: State, x: u8, y: u8, n: u8, random: u8)
    requires
        s.wf(),
        x < 0xF,
        y < 0xF,
    ensures
        execute_spec(s, Instruction::Drw { x, y, n }, random).v[x as int] == s.v[x as int],
        execute_spec(s, Instruction::Drw { x, y, n }, random).v[y as int] == s.v[y as int],
{
}

/// No tone command is issued twice in a row: once the tone has been brought
/// in line with a timer value, doing so again asks the device for nothing,
/// and a tick that switches the tone on or off is never followed by a tick
/// that does the same. A tick switches the tone on exactly if it was off and
/// the sound timer outlasts the tick, and off exactly if it was on and the
/// sound timer does not.
pub proof fn law_tone_commands_are_not_repeated(s: State, playing: bool, st: u8)
    ensures
        gate_command(st > 0, st) == ToneCommand::Hold,
        gate_command(playing, st) != ToneCommand::Hold ==> gate_command(playing, st)
            == gate_command(!(st > 0), st),
        tick_command(s) == ToneCommand::On ==> tick_command(tick_spec(s)) != ToneCommand::On,
        tick_command(s) == ToneCommand::Off ==> tick_command(tick_spec(s)) != ToneCommand::Off,
        tick_command(s) == ToneCommand::On <==> !s.playing && s.st > 1,
        tick_command(s) == ToneCommand::Off <==> s.playing && s.st <= 1,
{
}

/// `FX0A` with no key down changes nothing at all, so that the program
/// counter stays on the instruction; with a key down it stores the lowest
/// such key and moves on.
pub proof fn law_wait_for_key(s: State, random: u8)
    requires
        s.wf(),
        s.halted is None,
        s.current() is LdVxKey,
    ensures
        lowest_pressed(s.keys) == NO_KEY ==> step_spec(s, random) == s && step_outcome(s)
            == StepOutcome::WaitingForKey,
        lowest_pressed(s.keys) != NO_KEY ==> step_outcome(s) == StepOutcome::Ran && step_spec(
            s,
            random,
        ) == s.fetched().with_v(s.current()->LdVxKey_x, lowest_pressed(s.keys)),
        lowest_pressed(s.keys) != NO_KEY ==> lowest_pressed(s.keys) < 16 && s.keys[lowest_pressed(
            s.keys,
        ) as int],
{
    let ins = s.current();
    lemma_step_executes(s, ins, random);
    lemma_wait_for_key(s.fetched(), ins, random);
    lemma_fetch_and_back(s);
    lemma_lowest_pressed_from(s.keys, 0);
}

/// A step of a running processor executes the instruction at the program
/// counter on the state in which that instruction has been fetched.
proof fn lemma_step_executes(s: State, ins: Instruction, random: u8)
    requires
        s.halted is None,
        ins == s.current(),
    ensures
        step_spec(s, random) == execute_spec(s.fetched(), ins, random),
        step_outcome(s) == outcome_spec(s.fetched(), ins),
{
}

/// What `FX0A` makes of a state whose program counter points past it.
proof fn lemma_wait_for_key(s: State, ins: Instruction, random: u8)
    requires
        ins is LdVxKey,
    ensures
        lowest_pressed(s.keys) == NO_KEY ==> execute_spec(s, ins, random) == (State {
            pc: prev_pc(s.pc),
            ..s
        }) && outcome_spec(s, ins) == StepOutcome::WaitingForKey,
        lowest_pressed(s.keys) != NO_KEY ==> execute_spec(s, ins, random) == s.with_v(
            ins->LdVxKey_x,
            lowest_pressed(s.keys),
        ) && outcome_spec(s, ins) == StepOutcome::Ran,
{
}

/// Moving the program counter back after a fetch gives the state before the
/// fetch.
proof fn lemma_fetch_and_back(s: State)
    requires
        s.pc < 0x1000,
    ensures
        (State { pc: prev_pc(s.fetched().pc), ..s.fetched() }) == s,
{
}

/// A pacer runs, frame after frame, the instructions that are due: after
/// any number of frames the total is `frames * cpu_hz / frame_hz` rounded
/// to the nearest whole number.
pub proof fn law_pacer_has_no_drift(cpu_hz: int, frame_hz: int, frames: int)
    requires
        0 <= cpu_hz,
        0 < frame_hz,
        0 <= frames,
    ensures
        steps_after(cpu_hz, frame_hz, 0) == 0,
        carry_after(cpu_hz, frame_hz, 0) == frame_hz / 2,
        (carry_after(cpu_hz, frame_hz, frames) + cpu_hz) / frame_hz == steps_after(
            cpu_hz,
            frame_hz,
            frames + 1,
        ) - steps_after(cpu_hz, frame_hz, frames),
        (carry_after(cpu_hz, frame_hz, frames) + cpu_hz) % frame_hz == carry_after(
            cpu_hz,
            frame_hz,
            frames + 1,
        ),
{
    let total = frames * cpu_hz + frame_hz / 2;
    let carry = total % frame_hz;
    let whole = total / frame_hz;
    assert((frames + 1) * cpu_hz == frames * cpu_hz + cpu_hz) by (nonlinear_arith);
    vstd::arithmetic::div_mod::lemma_fundamental_div_mod(total, frame_hz);
    vstd::arithmetic::div_mod::lemma_hoist_over_denominator(carry + cpu_hz, whole, frame_hz as nat);
    vstd::arithmetic::div_mod::lemma_mod_multiples_vanish(whole, carry + cpu_hz, frame_hz);
    assert(whole * frame_hz == frame_hz * whole) by (nonlinear_arith);
    vstd::arithmetic::div_mod::lemma_small_mod((frame_hz / 2) as nat, frame_hz as nat);
    vstd::arithmetic::div_mod::lemma_basic_div(frame_hz / 2, frame_hz);
}

} // verus!
