//! Key input: the key register holds one bit per key, clear while the key is
//! held down.
use vstd::prelude::*;

verus! {

/// A value read from the key input register.
#[derive(Clone, Copy, Debug, PartialEq, Eq, Structural)]
pub struct InputState(pub u16);

/// A set of keys, one bit per key.
#[derive(Clone, Copy, Debug, PartialEq, Eq, Structural)]
pub struct KeySet(pub u16);

/// Every key's bit.
pub const ALL_KEYS: u16 = 0x03FF;

/// The keys of the console, each with its bit in the key register.
#[derive(Clone, Copy, Debug, PartialEq, Eq, Structural)]
pub enum Key {
    A,
    B,
    Select,
    Start,
    Right,
    Left,
    Up,
    Down,
    R,
    L,
}

impl Key {
    pub open spec fn value(self) -> u16 {
        match self {
            Key::A => 0x0001,
            Key::B => 0x0002,
            Key::Select => 0x0004,
            Key::Start => 0x0008,
            Key::Right => 0x0010,
            Key::Left => 0x0020,
            Key::Up => 0x0040,
            Key::Down => 0x0080,
            Key::R => 0x0100,
            Key::L => 0x0200,
        }
    }

    /// This key's bit.
    pub fn bits(self) -> (r: u16)
        ensures
            r == self.value(),
    {
        match self {
            Key::A => 0x0001,
            Key::B => 0x0002,
            Key::Select => 0x0004,
            Key::Start => 0x0008,
            Key::Right => 0x0010,
            Key::Left => 0x0020,
            Key::Up => 0x0040,
            Key::Down => 0x0080,
            Key::R => 0x0100,
            Key::L => 0x0200,
        }
    }
}

impl From<Key> for KeySet {
    /// The set of just this key.
    fn from(key: Key) -> (r: KeySet)
        ensures
            r.0 == key.value(),
    {
        KeySet(key.bits())
    }
}

impl vstd::std_specs::convert::FromSpecImpl<Key> for KeySet {
    open spec fn obeys_from_spec() -> bool {
        true
    }

    open spec fn from_spec(key: Key) -> KeySet {
        KeySet(key.value())
    }
}

impl InputState {
    /// Every key of `keys` is held down.
    pub fn all_keys_down(self, keys: KeySet) -> (r: bool)
        ensures
            r == (!self.0 & keys.0 == keys.0),
    {
        !self.0 & keys.0 == keys.0
    }

    /// Some key of `keys` is held down.
    pub fn any_keys_down(self, keys: KeySet) -> (r: bool)
        ensures
            r == (!self.0 & keys.0 != 0),
    {
        !self.0 & keys.0 != 0
    }

    /// The keys held down.
    pub fn pressed_keys(self) -> (r: KeySet)
        ensures
            r.0 == !self.0,
    {
        KeySet(!self.0)
    }

    /// `key` is held down.
    pub fn key_down(self, key: Key) -> (r: bool)
        ensures
            r == (!self.0 & key.value() == key.value()),
    {
        !self.0 & key.bits() == key.bits()
    }
}

impl KeySet {
    /// No key.
    pub fn empty() -> (r: KeySet)
        ensures
            r.0 == 0,
    {
        KeySet(0)
    }

    /// All ten keys.
    pub fn all() -> (r: KeySet)
        ensures
            r.0 == ALL_KEYS,
    {
        KeySet(ALL_KEYS)
    }

    /// `key` is in the set.
    pub fn contains(self, key: Key) -> (r: bool)
        ensures
            r == (self.0 & key.value() != 0),
    {
        self.0 & key.bits() != 0
    }

    /// The set with `key` added.
    pub fn add(self, key: Key) -> (r: KeySet)
        ensures
            r.0 == self.0 | key.value(),
    {
        KeySet(self.0 | key.bits())
    }
}

} // verus!
