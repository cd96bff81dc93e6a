//! The keypad: sixteen keys, named by the hexadecimal digits `0x0` to `0xF`.

use vstd::prelude::*;

verus! {

/// Number of keys on the keypad.
pub const KEY_COUNT: usize = 16;

/// A key of the host keyboard. Keys that the keypad does not use are all
/// `Other`.
#[derive(Clone, Copy, Debug, PartialEq, Eq, Structural)]
pub enum Keycode {
    Num1,
    Num2,
    Num3,
    Num4,
    Q,
    W,
    E,
    R,
    A,
    S,
    D,
    F,
    Y,
    Z,
    X,
    C,
    V,
    Other,
}

/// The keypad key that a key of the host keyboard stands for, if any. The
/// four by four block `1234 / QWER / ASDF / YXCV` is laid out like the keypad
/// `123C / 456D / 789E / A0BF`; `Z` is a second `Y`.
pub open spec fn key_of(keycode: Keycode) -> Option<u8> {
    match keycode {
        Keycode::Num1 => Some(0x1u8),
        Keycode::Num2 => Some(0x2u8),
        Keycode::Num3 => Some(0x3u8),
        Keycode::Num4 => Some(0xCu8),
        Keycode::Q => Some(0x4u8),
        Keycode::W => Some(0x5u8),
        Keycode::E => Some(0x6u8),
        Keycode::R => Some(0xDu8),
        Keycode::A => Some(0x7u8),
        Keycode::S => Some(0x8u8),
        Keycode::D => Some(0x9u8),
        Keycode::F => Some(0xEu8),
        Keycode::Y => Some(0xAu8),
        Keycode::Z => Some(0xAu8),
        Keycode::X => Some(0x0u8),
        Keycode::C => Some(0xBu8),
        Keycode::V => Some(0xFu8),
        Keycode::Other => None,
    }
}

/// The key states after the host key `keycode` went down (`pressed`) or up.
pub open spec fn with_key(keys: Seq<bool>, keycode: Keycode, pressed: bool) -> Seq<bool> {
    match key_of(keycode) {
        Some(key) => keys.update(key as int, pressed),
        None => keys,
    }
}

/// No key held.
pub open spec fn all_released() -> Seq<bool> {
    Seq::new(KEY_COUNT as nat, |key: int| false)
}

/// The interface the processor and the driver use to reach the keypad.
///
/// The view of a keypad is the state of its keys: `keys[k]` holds while key
/// `k` is held down.
pub trait KeypadTrait: View<V = Seq<bool>> {
    /// Whether key `key` is held down.
    fn get_key(&mut self, key: u8) -> (pressed: bool)
        requires
            key < KEY_COUNT,
        ensures
            pressed == old(self)@[key as int],
            final(self)@ == old(self)@,
    ;

    /// Records that a key of the host keyboard went down.
    fn key_down(&mut self, keycode: Keycode)
        ensures
            final(self)@ == with_key(old(self)@, keycode, true),
    ;

    /// Records that a key of the host keyboard went up.
    fn key_up(&mut self, keycode: Keycode)
        ensures
            final(self)@ == with_key(old(self)@, keycode, false),
    ;

    /// Releases every key.
    fn reset(&mut self)
        ensures
            final(self)@ == all_released(),
    ;
}

/// The keypad of the machine: for each key whether it is held down.
pub struct Keypad {
    keys: [bool; KEY_COUNT],
}

impl View for Keypad {
    type V = Seq<bool>;

    closed spec fn view(&self) -> Seq<bool> {
        self.keys@
    }
}

impl KeypadTrait for Keypad {
    fn get_key(&mut self, key: u8) -> (pressed: bool) {
        self.keys[key as usize]
    }

    fn key_down(&mut self, keycode: Keycode) {
        let key = Keypad::map_key(keycode);
        if key.is_some() {
            self.keys[key.unwrap() as usize] = true;
        }
    }

    fn key_up(&mut self, keycode: Keycode) {
        let key = Keypad::map_key(keycode);
        if key.is_some() {
            self.keys[key.unwrap() as usize] = false;
        }
    }

    fn reset(&mut self) {
        self.keys = [false; KEY_COUNT];
    }
}

impl Keypad {
    /// A keypad with no key held.
    pub fn new() -> (keypad: Keypad)
        ensures
            keypad@ == all_released(),
    {
        Keypad { keys: [false; KEY_COUNT] }
    }

    /// Every `Keypad` has exactly `KEY_COUNT` keys.
    pub proof fn lemma_key_count(&self)
        ensures
            self@.len() == KEY_COUNT,
    {
    }

    /// The keypad key that a key of the host keyboard stands for.
    pub fn map_key(keycode: Keycode) -> (key: Option<u8>)
        ensures
            key == key_of(keycode),
            key matches Some(k) ==> k < KEY_COUNT,
    {
        match keycode {
            Keycode::Num1 => Some(0x1),
            Keycode::Num2 => Some(0x2),
            Keycode::Num3 => Some(0x3),
            Keycode::Num4 => Some(0xC),
            Keycode::Q => Some(0x4),
            Keycode::W => Some(0x5),
            Keycode::E => Some(0x6),
            Keycode::R => Some(0xD),
            Keycode::A => Some(0x7),
            Keycode::S => Some(0x8),
            Keycode::D => Some(0x9),
            Keycode::F => Some(0xE),
            Keycode::Y | Keycode::Z => Some(0xA),
            Keycode::X => Some(0x0),
            Keycode::C => Some(0xB),
            Keycode::V => Some(0xF),
            Keycode::Other => None,
        }
    }
}

} // verus!
