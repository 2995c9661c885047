//! The 16-key keypad: a set of "pressed this frame" flags, reset at the
//! start of every frame, with the hexadecimal layout mapped onto a
//! QWERTY-like 4x4 block of characters.

use vstd::prelude::*;

verus! {

/// The key index a recognized input character maps to, case-insensitively;
/// `None` for every other character.
pub open spec fn key_of_char(chr: char) -> Option<u8> {
    match chr {
        'x' | 'X' => Some(0x0u8),
        '1' => Some(0x1u8),
        '2' => Some(0x2u8),
        '3' => Some(0x3u8),
        'q' | 'Q' => Some(0x4u8),
        'w' | 'W' => Some(0x5u8),
        'e' | 'E' => Some(0x6u8),
        'a' | 'A' => Some(0x7u8),
        's' | 'S' => Some(0x8u8),
        'd' | 'D' => Some(0x9u8),
        'z' | 'Z' => Some(0xAu8),
        'c' | 'C' => Some(0xBu8),
        '4' => Some(0xCu8),
        'r' | 'R' => Some(0xDu8),
        'f' | 'F' => Some(0xEu8),
        'v' | 'V' => Some(0xFu8),
        _ => None,
    }
}

/// The simulated 16-key keypad. Each flag says whether its key was pressed
/// during the current frame; no key-release events are modeled.
pub struct Keypad {
    /// One "pressed this frame" flag per key, indexed by key value 0..=15.
    pub keys: Vec<bool>,
}

impl Keypad {
    /// Well-formedness: one flag per key.
    pub open spec fn wf(&self) -> bool {
        self.keys@.len() == 16
    }

    /// Whether the key with the given value is pressed; false for values
    /// outside the keypad.
    pub open spec fn pressed(&self, key: u8) -> bool {
        key < 16 && self.keys@[key as int]
    }

    /// Create a keypad with every key unpressed.
    pub fn new() -> (kp: Keypad)
        ensures
            kp.wf(),
            forall|k: int| 0 <= k < 16 ==> !kp.keys@[k],
    {
        let mut keys: Vec<bool> = Vec::new();
        let mut i: usize = 0;
        while i < 16
            invariant
                i <= 16,
                keys@.len() == i,
                forall|k: int| 0 <= k < i ==> !keys@[k],
            decreases 16 - i,
        {
            keys.push(false);
            i = i + 1;
        }
        Keypad { keys }
    }

    /// Reset every key to the not-pressed state.
    pub fn reset_all(&mut self)
        requires
            old(self).wf(),
        ensures
            final(self).wf(),
            forall|k: int| 0 <= k < 16 ==> !final(self).keys@[k],
    {
        let mut i: usize = 0;
        while i < 16
            invariant
                i <= 16,
                self.keys@.len() == 16,
                forall|k: int| 0 <= k < i ==> !self.keys@[k],
            decreases 16 - i,
        {
            self.keys.set(i, false);
            i = i + 1;
        }
    }

    /// Set the key matching the given character, case-insensitively, to the
    /// pressed state and return its value; an unrecognized character is a
    /// no-op.
    pub fn set_press(&mut self, chr: char) -> (r: Option<u8>)
        requires
            old(self).wf(),
        ensures
            final(self).wf(),
            r == key_of_char(chr),
            match key_of_char(chr) {
                Some(k) => final(self).keys@ == old(self).keys@.update(k as int, true),
                None => final(self).keys@ == old(self).keys@,
            },
    {
        let key: Option<u8> = match chr {
            'x' | 'X' => Some(0x0u8),
            '1' => Some(0x1u8),
            '2' => Some(0x2u8),
            '3' => Some(0x3u8),
            'q' | 'Q' => Some(0x4u8),
            'w' | 'W' => Some(0x5u8),
            'e' | 'E' => Some(0x6u8),
            'a' | 'A' => Some(0x7u8),
            's' | 'S' => Some(0x8u8),
            'd' | 'D' => Some(0x9u8),
            'z' | 'Z' => Some(0xAu8),
            'c' | 'C' => Some(0xBu8),
            '4' => Some(0xCu8),
            'r' | 'R' => Some(0xDu8),
            'f' | 'F' => Some(0xEu8),
            'v' | 'V' => Some(0xFu8),
            _ => None,
        };
        match key {
            Some(k) => {
                self.keys.set(k as usize, true);
                Some(k)
            },
            None => None,
        }
    }

    /// Whether the key with the given value is pressed this frame.
    pub fn is_pressed(&self, key: u8) -> (r: bool)
        requires
            self.wf(),
        ensures
            r == self.pressed(key),
    {
        key < 16 && self.keys[key as usize]
    }
}

} // verus!
