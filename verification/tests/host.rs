use chip8::chip8::CHIP8;
use chip8::host::{HostAction, HostEvent, Pacer, TraceRecord, DEFAULT_CPU_HZ, TIMER_HZ};
use chip8::instruction::Instruction;
use chip8::keypad::HostKey;
use chip8::program::get_demo_program;
use chip8::state::{Fault, StepOutcome};
use chip8::synth::ToneCommand;

fn loaded(program: &[u8], debug_level: u32) -> CHIP8 {
    let mut machine = CHIP8::new(debug_level);
    assert_eq!(machine.load_program(program), Ok(()));
    machine
}

#[test]
fn quit_events_ask_the_host_to_quit() {
    let mut machine = loaded(&[0x60, 0x01], 0);
    assert_eq!(machine.handle_event(HostEvent::Quit), HostAction::Quit);
    assert_eq!(machine.handle_event(HostEvent::KeyDown(HostKey::Escape)), HostAction::Quit);
    assert_eq!(machine.pc(), 0x200);
    assert_eq!(machine.key_state().get_pressed_key(), 0xFF);
    assert!(!machine.is_paused());
}

#[test]
fn space_toggles_the_pause() {
    let mut machine = loaded(&[0x60, 0x01], 0);
    assert_eq!(machine.handle_event(HostEvent::KeyDown(HostKey::Space)), HostAction::Paused);
    assert!(machine.is_paused());
    assert_eq!(machine.handle_event(HostEvent::KeyUp(HostKey::Space)), HostAction::Key);
    assert!(machine.is_paused());
    assert_eq!(machine.handle_event(HostEvent::KeyDown(HostKey::Space)), HostAction::Resumed);
    assert!(!machine.is_paused());
}

#[test]
fn pause_and_resume() {
    let mut machine = CHIP8::new(0);
    machine.pause();
    assert!(machine.is_paused());
    machine.pause();
    assert!(machine.is_paused());
    machine.resume();
    assert!(!machine.is_paused());
    machine.set_debug_level(2);
    assert_eq!(machine.debug_level(), 2);
}

#[test]
fn reset_key_resets() {
    let mut machine = loaded(&[0x60, 0x01, 0x61, 0x02], 0);
    machine.step();
    machine.step();
    assert_eq!(machine.handle_event(HostEvent::KeyDown(HostKey::F5)), HostAction::Reset);
    assert_eq!(machine.pc(), 0x200);
    assert_eq!(machine.v(), [0u8; 16]);
    assert_eq!(machine.ram().read(0x200), 0x60);
}

#[test]
fn step_key_pauses_and_runs_one_instruction() {
    let mut machine = loaded(&[0x60, 0x01, 0x61, 0x02, 0x62, 0x03], 0);
    assert_eq!(
        machine.handle_event(HostEvent::KeyDown(HostKey::F6)),
        HostAction::Stepped { outcome: StepOutcome::Ran, record: None }
    );
    assert!(machine.is_paused());
    assert_eq!(machine.pc(), 0x202);
    assert_eq!(machine.v()[0], 1);
    // paused: a frame runs no instruction
    machine.run_frame(10);
    assert_eq!(machine.pc(), 0x202);
    assert_eq!(
        machine.handle_event(HostEvent::KeyDown(HostKey::F6)),
        HostAction::Stepped { outcome: StepOutcome::Ran, record: None }
    );
    assert_eq!(machine.pc(), 0x204);
    assert_eq!(machine.v()[1], 2);
}

#[test]
fn step_key_reports_the_instruction_when_tracing() {
    let mut machine = loaded(&[0x6A, 0x07], 1);
    assert_eq!(
        machine.handle_event(HostEvent::KeyDown(HostKey::F6)),
        HostAction::Stepped {
            outcome: StepOutcome::Ran,
            record: Some(TraceRecord {
                pc: 0x200,
                word: 0x6A07,
                instruction: Instruction::LdByte { x: 0xA, byte: 7 },
            }),
        }
    );
}

#[test]
fn step_key_on_a_stopped_processor() {
    let mut machine = loaded(&[0x00, 0xEE], 1);
    machine.step();
    assert_eq!(
        machine.handle_event(HostEvent::KeyDown(HostKey::F6)),
        HostAction::Stepped { outcome: StepOutcome::Halted(Fault::StackUnderflow), record: None }
    );
}

#[test]
fn other_keys_go_to_the_keypad() {
    let mut machine = loaded(&[0x60, 0x01], 0);
    assert_eq!(machine.handle_event(HostEvent::KeyDown(HostKey::W)), HostAction::Key);
    assert!(machine.key_state().check_key(5));
    assert_eq!(machine.handle_event(HostEvent::KeyDown(HostKey::X)), HostAction::Key);
    assert_eq!(machine.key_state().get_pressed_key(), 0);
    assert_eq!(machine.handle_event(HostEvent::KeyUp(HostKey::X)), HostAction::Key);
    assert_eq!(machine.key_state().get_pressed_key(), 5);
    assert_eq!(machine.handle_event(HostEvent::KeyDown(HostKey::Other)), HostAction::Key);
    assert_eq!(machine.handle_event(HostEvent::KeyUp(HostKey::Escape)), HostAction::Key);
    assert_eq!(machine.handle_event(HostEvent::KeyUp(HostKey::F5)), HostAction::Key);
    assert_eq!(machine.key_state().get_pressed_key(), 5);
    assert_eq!(machine.pc(), 0x200);
}

#[test]
fn a_frame_runs_its_steps_then_ticks_once() {
    // V0 = 3, DT = V0, ST = V0, then V1 += 1 for ever
    let mut machine = loaded(&[0x60, 0x03, 0xF0, 0x15, 0xF0, 0x18, 0x71, 0x01, 0x12, 0x06], 0);
    let report = machine.run_frame(3);
    assert_eq!(machine.pc(), 0x206);
    assert_eq!(machine.dt(), 2);
    assert_eq!(machine.st(), 2);
    assert_eq!(report.tone, ToneCommand::On);
    assert!(report.trace.is_empty());
    let report = machine.run_frame(10);
    assert_eq!(machine.v()[1], 5);
    assert_eq!(machine.dt(), 1);
    assert_eq!(report.tone, ToneCommand::Hold);
    let report = machine.run_frame(0);
    assert_eq!(machine.v()[1], 5);
    assert_eq!(machine.st(), 0);
    assert_eq!(report.tone, ToneCommand::Off);
    let report = machine.run_frame(1);
    assert_eq!(report.tone, ToneCommand::Hold);
    assert_eq!(machine.dt(), 0);
}

#[test]
fn timers_tick_while_paused() {
    let mut machine = loaded(&[0x60, 0x02, 0xF0, 0x18, 0x71, 0x01], 0);
    machine.run_frame(2);
    assert_eq!(machine.st(), 1);
    machine.pause();
    let report = machine.run_frame(5);
    assert_eq!(machine.pc(), 0x204);
    assert_eq!(machine.st(), 0);
    assert_eq!(report.tone, ToneCommand::Off);
    assert!(report.trace.is_empty());
}

#[test]
fn a_frame_traces_every_instruction_at_debug_level_one() {
    let mut machine = loaded(&[0x60, 0x03, 0x00, 0x00, 0x12, 0x00], 1);
    let report = machine.run_frame(4);
    assert_eq!(
        report.trace,
        vec![
            TraceRecord { pc: 0x200, word: 0x6003, instruction: Instruction::LdByte { x: 0, byte: 3 } },
            TraceRecord { pc: 0x202, word: 0x0000, instruction: Instruction::Unknown { word: 0 } },
            TraceRecord { pc: 0x204, word: 0x1200, instruction: Instruction::Jp { addr: 0x200 } },
            TraceRecord { pc: 0x200, word: 0x6003, instruction: Instruction::LdByte { x: 0, byte: 3 } },
        ]
    );
}

#[test]
fn a_frame_traces_unknown_words_at_debug_level_zero() {
    let mut machine = loaded(&[0x60, 0x03, 0x51, 0x23, 0x12, 0x00], 0);
    let report = machine.run_frame(6);
    assert_eq!(
        report.trace,
        vec![
            TraceRecord { pc: 0x202, word: 0x5123, instruction: Instruction::Unknown { word: 0x5123 } },
            TraceRecord { pc: 0x202, word: 0x5123, instruction: Instruction::Unknown { word: 0x5123 } },
        ]
    );
}

#[test]
fn a_stopped_processor_is_not_traced() {
    let mut machine = loaded(&[0x60, 0x03, 0x00, 0xEE], 1);
    let report = machine.run_frame(5);
    assert_eq!(report.trace.len(), 2);
    assert_eq!(report.trace[1].instruction, Instruction::Ret);
    assert_eq!(machine.fault(), Some(Fault::StackUnderflow));
    assert_eq!(machine.trace_record(), None);
    let report = machine.run_frame(5);
    assert!(report.trace.is_empty());
}

#[test]
fn trace_record_of_the_next_step() {
    let machine = loaded(&[0xD1, 0x25], 2);
    assert_eq!(
        machine.trace_record(),
        Some(TraceRecord {
            pc: 0x200,
            word: 0xD125,
            instruction: Instruction::Drw { x: 1, y: 2, n: 5 },
        })
    );
    let machine = loaded(&[0xD1, 0x25], 0);
    assert_eq!(machine.trace_record(), None);
    assert_eq!(machine.peek_word(), 0xD125);
}

#[test]
fn demo_program_runs_frames() {
    let mut machine = CHIP8::new(0);
    assert_eq!(machine.load_program(&get_demo_program()), Ok(()));
    let report = machine.run_frame(10);
    assert_eq!(report.tone, ToneCommand::On);
    assert_eq!(machine.st(), 254);
    assert!(report.trace.is_empty());
    // the sprite is drawn at (0, 0) and the program waits for a key
    assert_eq!(machine.fault(), None);
    for _ in 0..5 {
        machine.run_frame(10);
    }
    assert_eq!(machine.pc(), 0x226);
    let lit = machine.display().render().len();
    // 0xBA 0x7C 0xD6 0xFE 0x54 0xAA hold 5 + 5 + 5 + 7 + 3 + 4 set bits
    assert_eq!(lit, 29);
    // key 9 moves the sprite one column to the right
    machine.handle_event(HostEvent::KeyDown(HostKey::D));
    machine.run_frame(6);
    assert_eq!(machine.v()[0xA], 1);
    assert_eq!(machine.v()[8], 9);
    machine.handle_event(HostEvent::KeyUp(HostKey::D));
    machine.run_frame(20);
    assert_eq!(machine.pc(), 0x226);
    assert_eq!(machine.v()[0xA], 1);
    // the first row of the sprite, 0xBA, now starts at column 1
    let lit = machine.display().render();
    assert_eq!(&lit[..5], &[(1, 0), (3, 0), (4, 0), (5, 0), (7, 0)]);
}

#[test]
fn pacer_refuses_a_frame_rate_of_zero() {
    assert!(Pacer::new(600, 0).is_none());
    assert!(Pacer::new(0, 0).is_none());
    assert!(Pacer::new(0, 1).is_some());
}

#[test]
fn pacer_default_rates_give_ten_steps_a_frame() {
    assert_eq!(DEFAULT_CPU_HZ, 600);
    assert_eq!(TIMER_HZ, 60);
    let mut pacer = Pacer::new(DEFAULT_CPU_HZ, TIMER_HZ).unwrap();
    for _ in 0..120 {
        assert_eq!(pacer.steps_due(), 10);
    }
    assert_eq!(pacer.frame_nanos(), 16_666_666);
}

#[test]
fn pacer_for_a_frame_rate_runs_ten_steps_a_frame() {
    assert!(Pacer::with_frame_rate(0).is_none());
    for fps in [1u32, 30, 60, 144, 429_496_729] {
        let mut pacer = Pacer::with_frame_rate(fps).unwrap();
        for _ in 0..50 {
            assert_eq!(pacer.steps_due(), 10);
        }
        assert_eq!(pacer.frame_nanos(), 1_000_000_000 / fps);
    }
    // 10 * 429_496_730 does not fit: the instruction rate is u32::MAX
    let mut pacer = Pacer::with_frame_rate(429_496_730).unwrap();
    let total: u64 = (0..429_496_730u64 / 1000).map(|_| pacer.steps_due() as u64).sum();
    assert_eq!(total, ((429_496_730u64 / 1000) * 4_294_967_295 + 214_748_365) / 429_496_730);
}

#[test]
fn pacer_rounds_to_nearest_without_drift() {
    // 100 instructions a second over 60 frames: 1.67 a frame
    let mut pacer = Pacer::new(100, 60).unwrap();
    let first: Vec<u32> = (0..6).map(|_| pacer.steps_due()).collect();
    // totals 1.67, 3.33, 5, 6.67, 8.33, 10 round to 2, 3, 5, 7, 8, 10
    assert_eq!(first, vec![2, 1, 2, 2, 1, 2]);
    let mut total: u64 = first.iter().map(|s| *s as u64).sum();
    for frame in 7..=600u64 {
        total += pacer.steps_due() as u64;
        assert_eq!(total, (frame * 100 + 30) / 60);
    }
    assert_eq!(total, 1000);
}

#[test]
fn pacer_with_less_than_one_step_a_frame() {
    let mut pacer = Pacer::new(20, 60).unwrap();
    let steps: Vec<u32> = (0..9).map(|_| pacer.steps_due()).collect();
    assert_eq!(steps, vec![0, 1, 0, 0, 1, 0, 0, 1, 0]);
    let mut idle = Pacer::new(0, 60).unwrap();
    for _ in 0..100 {
        assert_eq!(idle.steps_due(), 0);
    }
}

#[test]
fn pacer_at_the_largest_rates() {
    let mut pacer = Pacer::new(u32::MAX, 1).unwrap();
    assert_eq!(pacer.steps_due(), u32::MAX);
    assert_eq!(pacer.steps_due(), u32::MAX);
    assert_eq!(pacer.frame_nanos(), 1_000_000_000);
    let mut pacer = Pacer::new(u32::MAX, u32::MAX).unwrap();
    assert_eq!(pacer.steps_due(), 1);
    assert_eq!(pacer.steps_due(), 1);
    assert_eq!(pacer.frame_nanos(), 0);
}

#[test]
fn pacer_sleeps_for_what_is_left_of_the_frame() {
    let pacer = Pacer::new(600, 60).unwrap();
    assert_eq!(pacer.remaining_nanos(0), 16_666_666);
    assert_eq!(pacer.remaining_nanos(6_666_666), 10_000_000);
    assert_eq!(pacer.remaining_nanos(16_666_665), 1);
    assert_eq!(pacer.remaining_nanos(16_666_666), 0);
    assert_eq!(pacer.remaining_nanos(16_666_667), 0);
    assert_eq!(pacer.remaining_nanos(u64::MAX), 0);
    let slow = Pacer::new(10, 1).unwrap();
    assert_eq!(slow.remaining_nanos(999_999_999), 1);
}
