//! What comes in from the terminal.

use crate::types::ProgramTypes;
use vstd::prelude::*;

verus! {

/// Which key was pressed.
pub enum KeyCode<P: ProgramTypes> {
    /// The key of a character.
    Char(char),
    /// Any other key.
    Named(P::NamedKey),
}

/// A press of a key, with a bit for each modifier key that was held. The lowest bit is the
/// shift key.
pub struct KeyEvent<P: ProgramTypes> {
    pub code: KeyCode<P>,
    pub modifiers: u8,
}

/// A key as the keybindings know it.
pub struct TerminalKey<P: ProgramTypes> {
    pub code: KeyCode<P>,
    pub modifiers: u8,
}

/// Something that happened at the terminal.
pub enum TerminalEvent<P: ProgramTypes> {
    /// A key was pressed.
    Key(KeyEvent<P>),
    /// The mouse was used.
    Mouse,
    /// The terminal got the focus.
    FocusGained,
    /// The terminal lost the focus.
    FocusLost,
    /// The terminal has a new width and height.
    Resize(u16, u16),
    /// Text was pasted.
    Paste(String),
}

/// The modifiers without the shift key.
pub open spec fn without_shift(modifiers: u8) -> int {
    modifiers - modifiers % 2
}

impl<P: ProgramTypes> KeyEvent<P> {
    /// The key that was pressed. The shift key counts as part of a character, and is no
    /// modifier of it.
    pub open spec fn key(self) -> TerminalKey<P> {
        let modifiers = match self.code {
            KeyCode::Char(_) => without_shift(self.modifiers) as u8,
            KeyCode::Named(_) => self.modifiers,
        };
        TerminalKey { code: self.code, modifiers }
    }

    /// The key that was pressed: see `key`.
    pub fn into_key(self) -> (key: TerminalKey<P>)
        ensures
            key == self.key(),
    {
        let modifiers = self.modifiers;
        match self.code {
            KeyCode::Char(c) => {
                assert(modifiers & 0xfe == modifiers - modifiers % 2) by (bit_vector);
                TerminalKey { code: KeyCode::Char(c), modifiers: modifiers & 0xfe }
            },
            KeyCode::Named(name) => TerminalKey { code: KeyCode::Named(name), modifiers },
        }
    }
}

/// The key is the one that was pressed, whichever it is. A key that stands for no character
/// keeps all its modifiers; a character keeps all but the shift key, which is taken off.
pub proof fn law_key_is_the_one_pressed<P: ProgramTypes>(press: KeyEvent<P>)
    ensures
        press.key().code == press.code,
        press.code is Named ==> press.key().modifiers == press.modifiers,
        press.code is Char ==> {
            &&& press.key().modifiers % 2 == 0
            &&& press.key().modifiers / 2 == press.modifiers / 2
        },
{
}

} // verus!
