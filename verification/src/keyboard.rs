//! The default keypad driver: a plain 16-entry key-state table.

use vstd::prelude::*;

use crate::hardware::KeyboardDriver;

verus! {

/// Key state for the 16-key keypad, indexed by key value `0x0..=0xF`.
pub struct Keyboard {
    /// One entry per key, true while the key is held down.
    pub keys: Vec<bool>,
}

impl Keyboard {
    /// A keypad with every key up.
    pub fn new() -> (k: Keyboard)
        ensures
            k.wf(),
            forall|j: u8| !k.pressed(j),
    {
        Keyboard { keys: vec![false; 16] }
    }
}

impl KeyboardDriver for Keyboard {
    open spec fn wf(&self) -> bool {
        self.keys@.len() == 16
    }

    open spec fn pressed(&self, key: u8) -> bool {
        key < 16 && self.keys@[key as int]
    }

    fn is_key_pressed(&self, key: u8) -> (r: bool) {
        self.keys[key as usize]
    }

    fn get_key(&self) -> (r: Option<u8>) {
        let mut i: usize = 0;
        while i < 16
            invariant
                self.wf(),
                i <= 16,
                forall|j: int| 0 <= j < i ==> !self.keys@[j],
            decreases 16 - i,
        {
            if self.keys[i] {
                return Some(i as u8);
            }
            i = i + 1;
        }
        None
    }

    fn press(&mut self, key: u8) {
        self.keys[key as usize] = true;
    }

    fn release(&mut self, key: u8) {
        self.keys[key as usize] = false;
    }
}

} // verus!
