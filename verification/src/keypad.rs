//! The sixteen-key hexadecimal keypad and the host keys that stand for it.
use vstd::prelude::*;

verus! {

/// Number of keys on the keypad.
pub const KEY_COUNT: usize = 16;

/// What `KeyState::get_pressed_key` returns while no key is down.
pub const NO_KEY: u8 = 0xFF;

/// A key of the host keyboard, as far as the machine tells keys apart.
#[derive(Clone, Copy, Debug, PartialEq, Eq, Structural)]
pub enum HostKey {
    Num1,
    Num2,
    Num3,
    Num4,
    Q,
    W,
    E,
    R,
    A,
    S,
    D,
    F,
    Z,
    X,
    C,
    V,
    Escape,
    Space,
    F5,
    F6,
    Other,
}

/// The keypad key that a host key stands for:
///
/// ```text
/// 1 2 3 4      1 2 3 C
/// Q W E R  ->  4 5 6 D
/// A S D F      7 8 9 E
/// Z X C V      A 0 B F
/// ```
pub open spec fn keypad_index(key: HostKey) -> Option<u8> {
    match key {
        HostKey::Num1 => Some(0x1u8),
        HostKey::Num2 => Some(0x2u8),
        HostKey::Num3 => Some(0x3u8),
        HostKey::Num4 => Some(0xCu8),
        HostKey::Q => Some(0x4u8),
        HostKey::W => Some(0x5u8),
        HostKey::E => Some(0x6u8),
        HostKey::R => Some(0xDu8),
        HostKey::A => Some(0x7u8),
        HostKey::S => Some(0x8u8),
        HostKey::D => Some(0x9u8),
        HostKey::F => Some(0xEu8),
        HostKey::Z => Some(0xAu8),
        HostKey::X => Some(0x0u8),
        HostKey::C => Some(0xBu8),
        HostKey::V => Some(0xFu8),
        _ => None,
    }
}

/// The lowest index at or after `from` whose key is down, or `NO_KEY`.
pub open spec fn lowest_pressed_from(keys: Seq<bool>, from: int) -> u8
    decreases 16 - from,
{
    if from < 0 || from >= 16 {
        NO_KEY
    } else if keys[from] {
        from as u8
    } else {
        lowest_pressed_from(keys, from + 1)
    }
}

/// The lowest index whose key is down, or `NO_KEY` while none is.
pub open spec fn lowest_pressed(keys: Seq<bool>) -> u8 {
    lowest_pressed_from(keys, 0)
}

/// Whether key `key` is down; a number that names no key counts as up.
pub open spec fn key_down(keys: Seq<bool>, key: u8) -> bool {
    key < 16 && keys[key as int]
}

/// The keys after key `key` has gone down or up; a number that names no key
/// changes nothing.
pub open spec fn with_key(keys: Seq<bool>, key: u8, down: bool) -> Seq<bool> {
    if key < 16 {
        keys.update(key as int, down)
    } else {
        keys
    }
}

/// The keys after a host key has gone down or up; a host key outside the
/// map changes nothing.
pub open spec fn with_host_key(keys: Seq<bool>, key: HostKey, down: bool) -> Seq<bool> {
    match keypad_index(key) {
        Some(k) => with_key(keys, k, down),
        None => keys,
    }
}

/// `lowest_pressed_from` names a key that is down and has no key that is
/// down between `from` and it, or is `NO_KEY` where none is down from `from`
/// on.
pub proof fn lemma_lowest_pressed_from(keys: Seq<bool>, from: int)
    requires
        0 <= from <= 16,
    ensures
        lowest_pressed_from(keys, from) == NO_KEY || from <= lowest_pressed_from(keys, from) < 16,
        lowest_pressed_from(keys, from) == NO_KEY <==> (forall|k: int| from <= k < 16 ==> !keys[k]),
        lowest_pressed_from(keys, from) != NO_KEY ==> keys[lowest_pressed_from(keys, from) as int],
        forall|k: int| from <= k < lowest_pressed_from(keys, from) && k < 16 ==> !keys[k],
    decreases 16 - from,
{
    if from < 16 && !keys[from] {
        lemma_lowest_pressed_from(keys, from + 1);
    }
}

/// Which keys of the keypad are down.
pub struct KeyState {
    keys: [bool; 16],
}

impl View for KeyState {
    type V = Seq<bool>;

    closed spec fn view(&self) -> Seq<bool> {
        self.keys@
    }
}

/// A keypad with no key down.
pub open spec fn all_up() -> Seq<bool> {
    Seq::new(KEY_COUNT as nat, |k: int| false)
}

/// The keypad key that a host key stands for, if it stands for one.
pub fn hex_key(key: HostKey) -> (index: Option<u8>)
    ensures
        index == keypad_index(key),
    no_unwind
{
    match key {
        HostKey::Num1 => Some(0x1),
        HostKey::Num2 => Some(0x2),
        HostKey::Num3 => Some(0x3),
        HostKey::Num4 => Some(0xC),
        HostKey::Q => Some(0x4),
        HostKey::W => Some(0x5),
        HostKey::E => Some(0x6),
        HostKey::R => Some(0xD),
        HostKey::A => Some(0x7),
        HostKey::S => Some(0x8),
        HostKey::D => Some(0x9),
        HostKey::F => Some(0xE),
        HostKey::Z => Some(0xA),
        HostKey::X => Some(0x0),
        HostKey::C => Some(0xB),
        HostKey::V => Some(0xF),
        _ => None,
    }
}

impl KeyState {
    /// Every value of the type holds exactly `KEY_COUNT` keys.
    pub proof fn lemma_len(&self)
        ensures
            self@.len() == KEY_COUNT,
    {
    }

    /// Creates a keypad with no key down.
    pub fn new() -> (k: KeyState)
        ensures
            k@ == all_up(),
    {
        let k = KeyState { keys: [false; 16] };
        assert(k@ =~= all_up());
        k
    }

    /// The lowest key that is down, or `NO_KEY` while none is.
    pub fn get_pressed_key(&self) -> (key: u8)
        ensures
            key == lowest_pressed(self@),
            key == NO_KEY <==> (forall|k: int| 0 <= k < 16 ==> !self@[k]),
            key != NO_KEY ==> key < 16 && self@[key as int] && (forall|k: int|
                0 <= k < key ==> !self@[k]),
    {
        let mut k: u8 = 0;
        while k < 16
            invariant
                k <= 16,
                lowest_pressed_from(self@, k as int) == lowest_pressed(self@),
            decreases 16 - k,
        {
            if self.keys[k as usize] {
                proof {
                    lemma_lowest_pressed_from(self@, 0);
                }
                return k;
            }
            k += 1;
        }
        proof {
            lemma_lowest_pressed_from(self@, 0);
        }
        NO_KEY
    }

    /// Whether key `key` is down; a number that names no key counts as up.
    pub fn check_key(&self, key: u8) -> (down: bool)
        ensures
            down == key_down(self@, key),
    {
        key < 16 && self.keys[key as usize]
    }

    /// Records that key `key` went down or up; a number that names no key is
    /// ignored.
    pub fn set_key(&mut self, key: u8, down: bool)
        ensures
            final(self)@ == with_key(old(self)@, key, down),
        no_unwind
    {
        if key < 16 {
            self.keys[key as usize] = down;
        }
    }

    /// Records that a host key went down or up; a host key outside the map is
    /// ignored.
    pub fn set_key_state(&mut self, key_code: HostKey, state: bool)
        ensures
            final(self)@ == with_host_key(old(self)@, key_code, state),
        no_unwind
    {
        match hex_key(key_code) {
            Some(k) => self.set_key(k, state),
            None => {},
        }
    }
}

} // verus!
