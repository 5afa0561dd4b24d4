//! Keys, as the program understands them.

use vstd::prelude::*;

verus! {

/// A key. All the keys that mean nothing to the program are one.
#[derive(Debug, Clone, Copy, PartialEq, Eq, Structural)]
pub enum KeyCode {
    Backspace,
    Enter,
    Esc,
    Up,
    Down,
    Char(char),
    Other,
}

/// The modifiers held down with a key.
#[derive(Debug, Clone, Copy, PartialEq, Eq, Structural)]
pub struct KeyModifiers {
    pub shift: bool,
    pub control: bool,
    pub alt: bool,
    pub super_key: bool,
    pub hyper: bool,
    pub meta: bool,
}

/// A key pressed.
#[derive(Debug, Clone, Copy, PartialEq, Eq, Structural)]
pub struct KeyEvent {
    pub code: KeyCode,
    pub modifiers: KeyModifiers,
}

impl KeyModifiers {
    /// No modifier is held down.
    pub open spec fn bare(self) -> bool {
        !(self.shift || self.control || self.alt || self.super_key || self.hyper || self.meta)
    }

    /// Control is held down, and nothing else.
    pub open spec fn just_control(self) -> bool {
        self.control && !(self.shift || self.alt || self.super_key || self.hyper || self.meta)
    }

    /// No modifier.
    pub fn none() -> (r: Self)
        ensures
            r.bare(),
    {
        KeyModifiers {
            shift: false,
            control: false,
            alt: false,
            super_key: false,
            hyper: false,
            meta: false,
        }
    }

    /// Control alone.
    pub fn control() -> (r: Self)
        ensures
            r.just_control(),
    {
        KeyModifiers {
            shift: false,
            control: true,
            alt: false,
            super_key: false,
            hyper: false,
            meta: false,
        }
    }

    /// Whether no modifier is held down.
    pub fn is_none(&self) -> (r: bool)
        ensures
            r == self.bare(),
    {
        !(self.shift || self.control || self.alt || self.super_key || self.hyper || self.meta)
    }

    /// Whether control is held down, and nothing else.
    pub fn is_control(&self) -> (r: bool)
        ensures
            r == self.just_control(),
    {
        self.control && !(self.shift || self.alt || self.super_key || self.hyper || self.meta)
    }
}

impl KeyEvent {
    /// A key with modifiers.
    pub fn new(code: KeyCode, modifiers: KeyModifiers) -> (r: Self)
        ensures
            r.code == code,
            r.modifiers == modifiers,
    {
        KeyEvent { code, modifiers }
    }

    /// The key is this character, with no modifier.
    pub open spec fn is_bare(self, c: char) -> bool {
        self.code == KeyCode::Char(c) && self.modifiers.bare()
    }

    /// The key is this character, with control and nothing else.
    pub open spec fn is_ctrl(self, c: char) -> bool {
        self.code == KeyCode::Char(c) && self.modifiers.just_control()
    }

    /// The key is this character, whatever is held down with it.
    pub open spec fn is_char(self, c: char) -> bool {
        self.code == KeyCode::Char(c)
    }

    /// The character that the key types: any, unless control or alt is held down.
    pub open spec fn types(self) -> Option<char> {
        match self.code {
            KeyCode::Char(c) => if self.modifiers.control || self.modifiers.alt {
                None
            } else {
                Some(c)
            },
            _ => None,
        }
    }

    /// Whether the key is this character, with no modifier.
    pub fn bare(&self, c: char) -> (r: bool)
        ensures
            r == self.is_bare(c),
    {
        self.code == KeyCode::Char(c) && self.modifiers.is_none()
    }

    /// Whether the key is this character, with control and nothing else.
    pub fn ctrl(&self, c: char) -> (r: bool)
        ensures
            r == self.is_ctrl(c),
    {
        self.code == KeyCode::Char(c) && self.modifiers.is_control()
    }

    /// Whether the key is this character, whatever is held down with it.
    pub fn is(&self, c: char) -> (r: bool)
        ensures
            r == self.is_char(c),
    {
        self.code == KeyCode::Char(c)
    }

    /// The character that the key types: any, unless control or alt is held down.
    pub fn typed(&self) -> (r: Option<char>)
        ensures
            r == self.types(),
    {
        match self.code {
            KeyCode::Char(c) => if self.modifiers.control || self.modifiers.alt {
                None
            } else {
                Some(c)
            },
            _ => None,
        }
    }
}

} // verus!
