//! The keyboard input that the manager reacts to.
use vstd::prelude::*;

verus! {

/// The keys the manager tells apart.
#[derive(Clone, Copy, PartialEq, Eq, Debug)]
pub enum Key {
    Tab,
    Backspace,
    Enter,
    Other,
}

/// The modifier keys held during a key press.
#[derive(Clone, Copy, PartialEq, Eq, Debug)]
pub struct Modifiers {
    pub shift: bool,
    pub control: bool,
    pub alt: bool,
    pub logo: bool,
}

impl Modifiers {
    pub open spec fn none_held(self) -> bool {
        !self.shift && !self.control && !self.alt && !self.logo
    }

    pub open spec fn shift_only(self) -> bool {
        self.shift && !self.control && !self.alt && !self.logo
    }
}

/// An input event, as far as the manager looks at it.
#[derive(Clone, Copy, PartialEq, Eq, Debug)]
pub enum Event {
    KeyPressed { key: Key, modifiers: Modifiers },
    Other,
}

} // verus!
