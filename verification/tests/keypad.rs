use chip8::keypad::{hex_key, HostKey, KeyState, NO_KEY};
use chip8::synth::{Synth, ToneCommand};

#[test]
fn no_key_is_down_at_first() {
    let keys = KeyState::new();
    assert_eq!(keys.get_pressed_key(), 0xFF);
    assert_eq!(NO_KEY, 0xFF);
    for key in 0..=255u8 {
        assert!(!keys.check_key(key));
    }
}

#[test]
fn lowest_key_wins() {
    let mut keys = KeyState::new();
    keys.set_key(0xF, true);
    assert_eq!(keys.get_pressed_key(), 0xF);
    keys.set_key(0x9, true);
    keys.set_key(0xC, true);
    assert_eq!(keys.get_pressed_key(), 0x9);
    keys.set_key(0x0, true);
    assert_eq!(keys.get_pressed_key(), 0x0);
    keys.set_key(0x0, false);
    keys.set_key(0x9, false);
    assert_eq!(keys.get_pressed_key(), 0xC);
    keys.set_key(0xC, false);
    keys.set_key(0xF, false);
    assert_eq!(keys.get_pressed_key(), NO_KEY);
}

#[test]
fn check_key_reads_one_key() {
    let mut keys = KeyState::new();
    keys.set_key(0xA, true);
    for key in 0..16u8 {
        assert_eq!(keys.check_key(key), key == 0xA);
    }
    assert!(!keys.check_key(16));
    assert!(!keys.check_key(0x1A));
    assert!(!keys.check_key(255));
}

#[test]
fn numbers_that_name_no_key_are_ignored() {
    let mut keys = KeyState::new();
    keys.set_key(16, true);
    keys.set_key(0x15, true);
    keys.set_key(255, true);
    assert_eq!(keys.get_pressed_key(), NO_KEY);
}

#[test]
fn host_keys_stand_for_keypad_keys() {
    let map = [
        (HostKey::Num1, 0x1),
        (HostKey::Num2, 0x2),
        (HostKey::Num3, 0x3),
        (HostKey::Num4, 0xC),
        (HostKey::Q, 0x4),
        (HostKey::W, 0x5),
        (HostKey::E, 0x6),
        (HostKey::R, 0xD),
        (HostKey::A, 0x7),
        (HostKey::S, 0x8),
        (HostKey::D, 0x9),
        (HostKey::F, 0xE),
        (HostKey::Z, 0xA),
        (HostKey::X, 0x0),
        (HostKey::C, 0xB),
        (HostKey::V, 0xF),
    ];
    for (host, key) in map {
        assert_eq!(hex_key(host), Some(key));
        let mut keys = KeyState::new();
        keys.set_key_state(host, true);
        assert_eq!(keys.get_pressed_key(), key);
        assert!(keys.check_key(key));
        keys.set_key_state(host, false);
        assert_eq!(keys.get_pressed_key(), NO_KEY);
    }
}

#[test]
fn host_keys_outside_the_map_are_ignored() {
    for host in [HostKey::Escape, HostKey::Space, HostKey::F5, HostKey::F6, HostKey::Other] {
        assert_eq!(hex_key(host), None);
        let mut keys = KeyState::new();
        keys.set_key_state(host, true);
        assert_eq!(keys.get_pressed_key(), NO_KEY);
        keys.set_key(3, true);
        keys.set_key_state(host, false);
        assert_eq!(keys.get_pressed_key(), 3);
    }
}

#[test]
fn tone_on_and_off_are_idempotent() {
    let mut synth = Synth::new();
    assert!(!synth.is_playing);
    synth.play();
    assert!(synth.is_playing);
    synth.play();
    assert!(synth.is_playing);
    synth.pause();
    assert!(!synth.is_playing);
    synth.pause();
    assert!(!synth.is_playing);
}

#[test]
fn tone_follows_the_sound_timer() {
    let mut synth = Synth::new();
    assert_eq!(synth.gate(0), ToneCommand::Hold);
    assert!(!synth.is_playing);
    assert_eq!(synth.gate(3), ToneCommand::On);
    assert!(synth.is_playing);
    assert_eq!(synth.gate(3), ToneCommand::Hold);
    assert_eq!(synth.gate(255), ToneCommand::Hold);
    assert_eq!(synth.gate(1), ToneCommand::Hold);
    assert!(synth.is_playing);
    assert_eq!(synth.gate(0), ToneCommand::Off);
    assert!(!synth.is_playing);
    assert_eq!(synth.gate(0), ToneCommand::Hold);
}
