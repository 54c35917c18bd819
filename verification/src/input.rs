//! What the player is doing with the keyboard during one tick.

use vstd::prelude::*;

verus! {

/// A directional key. The four of them are both movement keys and the
/// symbols that trick sequences are written in.
#[derive(Clone, Copy, Debug, PartialEq, Eq, Hash, Structural)]
pub enum Key {
    Up,
    Left,
    Down,
    Right,
}

/// The directional keys that went down during this tick.
#[derive(Clone, Copy, Debug, PartialEq, Eq, Structural)]
pub struct PressedKeys {
    pub up: bool,
    pub left: bool,
    pub down: bool,
    pub right: bool,
}

impl PressedKeys {
    /// The one key that counts when several went down in the same tick:
    /// `Right` before `Down` before `Left` before `Up`.
    pub open spec fn chosen(self) -> Option<Key> {
        if self.right {
            Some(Key::Right)
        } else if self.down {
            Some(Key::Down)
        } else if self.left {
            Some(Key::Left)
        } else if self.up {
            Some(Key::Up)
        } else {
            None
        }
    }

    /// No key went down.
    pub fn none() -> (pressed: PressedKeys)
        ensures
            pressed == (PressedKeys { up: false, left: false, down: false, right: false }),
            pressed.chosen() is None,
    {
        PressedKeys { up: false, left: false, down: false, right: false }
    }

    /// Exactly `key` went down.
    pub fn only(key: Key) -> (pressed: PressedKeys)
        ensures
            pressed.chosen() == Some(key),
            pressed.up == (key == Key::Up),
            pressed.left == (key == Key::Left),
            pressed.down == (key == Key::Down),
            pressed.right == (key == Key::Right),
    {
        PressedKeys {
            up: key == Key::Up,
            left: key == Key::Left,
            down: key == Key::Down,
            right: key == Key::Right,
        }
    }

    /// Picks the key that counts for this tick.
    pub fn pick(&self) -> (key: Option<Key>)
        ensures
            key == self.chosen(),
    {
        if self.right {
            Some(Key::Right)
        } else if self.down {
            Some(Key::Down)
        } else if self.left {
            Some(Key::Left)
        } else if self.up {
            Some(Key::Up)
        } else {
            None
        }
    }
}

/// The keys that are being held down during this tick.
#[derive(Clone, Copy, Debug, PartialEq, Eq, Structural)]
pub struct HeldKeys {
    pub left: bool,
    pub right: bool,
    pub jump: bool,
}

} // verus!
