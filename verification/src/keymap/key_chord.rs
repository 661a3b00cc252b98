//! Keys and the modifiers held with them.

use crate::chars::ascii_upper;
use crate::parse::{decimal_text, push_decimal};
use vstd::prelude::*;

verus! {

/// The modifier keys held while a key is pressed.
#[derive(Debug, Clone, Copy, PartialEq, Eq, Structural, Hash)]
pub struct KeyModifiers {
    pub shift: bool,
    pub alt: bool,
    pub super_key: bool,
    pub control: bool,
}

impl KeyModifiers {
    /// No modifier held.
    pub fn none() -> (modifiers: KeyModifiers)
        ensures
            modifiers == (KeyModifiers { shift: false, alt: false, super_key: false, control: false }),
    {
        KeyModifiers { shift: false, alt: false, super_key: false, control: false }
    }

    /// Alt alone.
    pub fn alt() -> (modifiers: KeyModifiers)
        ensures
            modifiers == (KeyModifiers { shift: false, alt: true, super_key: false, control: false }),
    {
        KeyModifiers { shift: false, alt: true, super_key: false, control: false }
    }

    /// Control alone.
    pub fn ctrl() -> (modifiers: KeyModifiers)
        ensures
            modifiers == (KeyModifiers { shift: false, alt: false, super_key: false, control: true }),
    {
        KeyModifiers { shift: false, alt: false, super_key: false, control: true }
    }

    /// Shift alone.
    pub fn shift() -> (modifiers: KeyModifiers)
        ensures
            modifiers == (KeyModifiers { shift: true, alt: false, super_key: false, control: false }),
    {
        KeyModifiers { shift: true, alt: false, super_key: false, control: false }
    }

    /// Super alone.
    pub fn super_key() -> (modifiers: KeyModifiers)
        ensures
            modifiers == (KeyModifiers { shift: false, alt: false, super_key: true, control: false }),
    {
        KeyModifiers { shift: false, alt: false, super_key: true, control: false }
    }

    /// The modifiers of a key event, given one by one.
    pub fn from_parts(shift: bool, control: bool, alt: bool, super_key: bool) -> (modifiers:
        KeyModifiers)
        ensures
            modifiers == (KeyModifiers { shift, alt, super_key, control }),
    {
        KeyModifiers { shift, alt, super_key, control }
    }
}

/// A modifier key pressed on its own.
#[derive(Debug, PartialEq, Eq, Structural, Clone, Copy, Hash)]
pub enum ModifierKeyCode {
    LeftShift,
    LeftControl,
    LeftAlt,
    LeftSuper,
    LeftHyper,
    LeftMeta,
    RightShift,
    RightControl,
    RightAlt,
    RightSuper,
    RightHyper,
    RightMeta,
    IsoLevel3Shift,
    IsoLevel5Shift,
}

/// A key.
#[derive(Debug, PartialEq, Eq, Structural, Clone, Copy, Hash)]
pub enum KeyCode {
    Backspace,
    Enter,
    Left,
    Right,
    Up,
    Down,
    Home,
    End,
    PageUp,
    PageDown,
    Tab,
    BackTab,
    Delete,
    Insert,
    F(u8),
    Char(char),
    Null,
    Esc,
    CapsLock,
    ScrollLock,
    NumLock,
    PrintScreen,
    Pause,
    Modifier(ModifierKeyCode),
}

impl KeyCode {
    pub fn is_function_key(&self, n: u8) -> (b: bool)
        ensures
            b == (*self == KeyCode::F(n)),
    {
        match self {
            KeyCode::F(m) => *m == n,
            _ => false,
        }
    }

    pub fn is_char(&self, c: char) -> (b: bool)
        ensures
            b == (*self == KeyCode::Char(c)),
    {
        match self {
            KeyCode::Char(m) => *m == c,
            _ => false,
        }
    }

    pub fn as_char(&self) -> (c: Option<char>)
        ensures
            c == match *self {
                KeyCode::Char(ch) => Some(ch),
                _ => None,
            },
    {
        match self {
            KeyCode::Char(c) => Some(*c),
            _ => None,
        }
    }

    pub fn is_modifier(&self, modifier: ModifierKeyCode) -> (b: bool)
        ensures
            b == (*self == KeyCode::Modifier(modifier)),
    {
        match self {
            KeyCode::Modifier(m) => *m == modifier,
            _ => false,
        }
    }

    /// The name by which a key is written in a key sequence.
    pub open spec fn name(self) -> Seq<char> {
        match self {
            KeyCode::Backspace => "backspace"@,
            KeyCode::Enter => "enter"@,
            KeyCode::Left => "left"@,
            KeyCode::Right => "right"@,
            KeyCode::Up => "up"@,
            KeyCode::Down => "down"@,
            KeyCode::Home => "home"@,
            KeyCode::End => "end"@,
            KeyCode::PageUp => "pageup"@,
            KeyCode::PageDown => "pagedown"@,
            KeyCode::Tab => "tab"@,
            KeyCode::BackTab => "backtab"@,
            KeyCode::Delete => "delete"@,
            KeyCode::Insert => "insert"@,
            KeyCode::F(n) => "f"@ + decimal_text(n as nat),
            KeyCode::Char(c) => seq![c],
            KeyCode::Null => "null"@,
            KeyCode::Esc => "esc"@,
            KeyCode::CapsLock => "capslock"@,
            KeyCode::ScrollLock => "scrolllock"@,
            KeyCode::NumLock => "numlock"@,
            KeyCode::PrintScreen => "printscreen"@,
            KeyCode::Pause => "pause"@,
            KeyCode::Modifier(_) => "modifier"@,
        }
    }

    /// Appends the name of the key to `text`.
    pub fn push_name(&self, text: &mut String)
        ensures
            final(text)@ == old(text)@ + self.name(),
    {
        match self {
            KeyCode::Backspace => text.append("backspace"),
            KeyCode::Enter => text.append("enter"),
            KeyCode::Left => text.append("left"),
            KeyCode::Right => text.append("right"),
            KeyCode::Up => text.append("up"),
            KeyCode::Down => text.append("down"),
            KeyCode::Home => text.append("home"),
            KeyCode::End => text.append("end"),
            KeyCode::PageUp => text.append("pageup"),
            KeyCode::PageDown => text.append("pagedown"),
            KeyCode::Tab => text.append("tab"),
            KeyCode::BackTab => text.append("backtab"),
            KeyCode::Delete => text.append("delete"),
            KeyCode::Insert => text.append("insert"),
            KeyCode::F(n) => {
                text.append("f");
                push_decimal(text, *n as u64);
                assert(final(text)@ =~= old(text)@ + self.name());
            },
            KeyCode::Char(c) => {
                text.push(*c);
                assert(final(text)@ =~= old(text)@ + self.name());
            },
            KeyCode::Null => text.append("null"),
            KeyCode::Esc => text.append("esc"),
            KeyCode::CapsLock => text.append("capslock"),
            KeyCode::ScrollLock => text.append("scrolllock"),
            KeyCode::NumLock => text.append("numlock"),
            KeyCode::PrintScreen => text.append("printscreen"),
            KeyCode::Pause => text.append("pause"),
            KeyCode::Modifier(_) => text.append("modifier"),
        }
    }
}

/// One key press: a key and the modifiers held with it.
#[derive(Debug, Clone, Copy, PartialEq, Eq, Structural, Hash)]
pub struct KeyChord {
    pub code: KeyCode,
    pub modifiers: KeyModifiers,
}

impl KeyChord {
    /// The character that the chord types: that of a character key, in upper
    /// case where shift is held.
    pub open spec fn spec_as_char(self) -> Option<char> {
        match self.code {
            KeyCode::Char(c) => if self.modifiers.shift {
                Some(ascii_upper(c))
            } else {
                Some(c)
            },
            _ => None,
        }
    }

    pub fn as_char(&self) -> (c: Option<char>)
        ensures
            c == self.spec_as_char(),
    {
        match self.code {
            KeyCode::Char(c) => {
                if self.modifiers.shift {
                    Some(c.to_ascii_uppercase())
                } else {
                    Some(c)
                }
            },
            _ => None,
        }
    }

    /// The letters that stand for the held modifiers, each with a hyphen.
    pub open spec fn modifier_prefix(self) -> Seq<char> {
        (if self.modifiers.control {
            "C-"@
        } else {
            Seq::empty()
        }) + (if self.modifiers.alt {
            "A-"@
        } else {
            Seq::empty()
        }) + (if self.modifiers.shift {
            "S-"@
        } else {
            Seq::empty()
        }) + (if self.modifiers.super_key {
            "D-"@
        } else {
            Seq::empty()
        })
    }

    /// The chord as it is written: its modifiers, then the name of its key.
    pub open spec fn text(self) -> Seq<char> {
        self.modifier_prefix() + self.code.name()
    }

    /// Appends the chord, as it is written, to `text`.
    pub fn push_text(&self, text: &mut String)
        ensures
            final(text)@ == old(text)@ + self.text(),
    {
        if self.modifiers.control {
            text.append("C-");
        }
        if self.modifiers.alt {
            text.append("A-");
        }
        if self.modifiers.shift {
            text.append("S-");
        }
        if self.modifiers.super_key {
            text.append("D-");
        }
        assert(text@ =~= old(text)@ + self.modifier_prefix());
        self.code.push_name(text);
        assert(final(text)@ =~= old(text)@ + self.text());
    }

    pub fn to_string(&self) -> (text: String)
        ensures
            text@ == self.text(),
    {
        let mut text = String::new();
        self.push_text(&mut text);
        assert(text@ =~= self.text());
        text
    }
}

} // verus!
