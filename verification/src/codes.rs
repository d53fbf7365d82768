//! Named virtual keys and their numeric codes.

use vstd::prelude::*;

verus! {

/// A key that is named by what it does and not by a character it prints.
#[derive(Debug, Clone, Copy, PartialEq, Eq, Structural)]
pub enum VirtualKey {
    Backspace,
    Tab,
    Enter,
    Shift,
    Control,
    Alt,
    Escape,
    Space,
    PageUp,
    PageDown,
    End,
    Home,
    Left,
    Up,
    Right,
    Down,
    Insert,
    Delete,
}

impl VirtualKey {
    /// The numeric code of the key.
    pub open spec fn spec_code(self) -> u16 {
        match self {
            VirtualKey::Backspace => 0x08,
            VirtualKey::Tab => 0x09,
            VirtualKey::Enter => 0x0D,
            VirtualKey::Shift => 0x10,
            VirtualKey::Control => 0x11,
            VirtualKey::Alt => 0x12,
            VirtualKey::Escape => 0x1B,
            VirtualKey::Space => 0x20,
            VirtualKey::PageUp => 0x21,
            VirtualKey::PageDown => 0x22,
            VirtualKey::End => 0x23,
            VirtualKey::Home => 0x24,
            VirtualKey::Left => 0x25,
            VirtualKey::Up => 0x26,
            VirtualKey::Right => 0x27,
            VirtualKey::Down => 0x28,
            VirtualKey::Insert => 0x2D,
            VirtualKey::Delete => 0x2E,
        }
    }

    /// Looks up the numeric code of the key.
    #[verifier::when_used_as_spec(spec_code)]
    pub fn code(self) -> (c: u16)
        ensures
            c == self.spec_code(),
    {
        match self {
            VirtualKey::Backspace => 0x08,
            VirtualKey::Tab => 0x09,
            VirtualKey::Enter => 0x0D,
            VirtualKey::Shift => 0x10,
            VirtualKey::Control => 0x11,
            VirtualKey::Alt => 0x12,
            VirtualKey::Escape => 0x1B,
            VirtualKey::Space => 0x20,
            VirtualKey::PageUp => 0x21,
            VirtualKey::PageDown => 0x22,
            VirtualKey::End => 0x23,
            VirtualKey::Home => 0x24,
            VirtualKey::Left => 0x25,
            VirtualKey::Up => 0x26,
            VirtualKey::Right => 0x27,
            VirtualKey::Down => 0x28,
            VirtualKey::Insert => 0x2D,
            VirtualKey::Delete => 0x2E,
        }
    }
}

} // verus!
