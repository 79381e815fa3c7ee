//! The input capability the CPU polls: a 16-key pad. The CPU owns only a
//! handle; the host supplies the implementation, and a scripted double
//! stands in for it under test.

use vstd::prelude::*;

verus! {

/// An input source of sixteen keys, `0x0` through `0xF`. The two spec
/// functions are each implementation's model of its key state; the methods
/// answer exactly according to that model.
pub trait Keypad {
    /// Whether `key` is currently down.
    spec fn spec_is_key_down(&self, key: u8) -> bool;

    /// The key currently pressed, if any.
    spec fn spec_pressed_key(&self) -> Option<u8>;

    fn is_key_down(&self, key: u8) -> (r: bool)
        ensures
            r == self.spec_is_key_down(key),
    ;

    fn get_pressed_key(&self) -> (r: Option<u8>)
        ensures
            r == self.spec_pressed_key(),
    ;
}

/// A scripted keypad reporting at most one pressed key, set directly by the
/// host or by a test.
#[derive(Debug)]
pub struct MockKeypad {
    pub value: Option<u8>,
}

impl MockKeypad {
    pub fn from_value(value: u8) -> (r: Self)
        ensures
            r.value == Some(value),
    {
        Self { value: Some(value) }
    }
}

impl Default for MockKeypad {
    /// A keypad with no key pressed.
    fn default() -> (r: Self)
        ensures
            r.value is None,
    {
        Self { value: None }
    }
}

impl Keypad for MockKeypad {
    open spec fn spec_is_key_down(&self, key: u8) -> bool {
        self.value == Some(key)
    }

    open spec fn spec_pressed_key(&self) -> Option<u8> {
        self.value
    }

    fn is_key_down(&self, key: u8) -> (r: bool) {
        match self.value {
            Some(value) => value == key,
            None => false,
        }
    }

    fn get_pressed_key(&self) -> (r: Option<u8>) {
        self.value
    }
}

} // verus!
