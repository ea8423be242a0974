//! Capability traits for the machine's collaborators. The engine only reads
//! key state (`is_key_pressed`, `get_key`); an input adapter drives the
//! write side (`press`, `release`).

use vstd::prelude::*;

verus! {

/// A sound backend. The core never initiates audio itself, so the
/// capability set is empty; embeddings react to the sound timer.
pub trait AudioDriver {

}

/// A 16-key keypad backend.
///
/// `pressed` is the abstract key state a driver exposes: it holds only for
/// key indices below 16.
pub trait KeyboardDriver {
    /// The driver's structural invariant.
    spec fn wf(&self) -> bool;

    /// Whether the driver currently reports key `key` as held down.
    spec fn pressed(&self, key: u8) -> bool;

    /// Reads the state of one key.
    fn is_key_pressed(&self, key: u8) -> (r: bool)
        requires
            self.wf(),
            key < 16,
        ensures
            r == self.pressed(key),
    ;

    /// Reports some currently pressed key, or `None` when no key is down.
    fn get_key(&self) -> (r: Option<u8>)
        requires
            self.wf(),
        ensures
            match r {
                Some(k) => k < 16 && self.pressed(k),
                None => forall|k: u8| !self.pressed(k),
            },
    ;

    /// Marks a key as held down.
    fn press(&mut self, key: u8)
        requires
            old(self).wf(),
            key < 16,
        ensures
            final(self).wf(),
            forall|k: u8| final(self).pressed(k) == (k == key || old(self).pressed(k)),
    ;

    /// Marks a key as released.
    fn release(&mut self, key: u8)
        requires
            old(self).wf(),
            key < 16,
        ensures
            final(self).wf(),
            forall|k: u8| final(self).pressed(k) == (k != key && old(self).pressed(k)),
    ;
}

} // verus!
