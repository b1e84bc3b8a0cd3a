//! Plain models of the raw terminal key data the session logic reads: a key
//! code, a modifier flag, and their pairing as one key event. The terminal
//! driver (outside the library) converts its own event type into these.

use vstd::prelude::*;

verus! {

/// A key code as the session logic distinguishes them: a printable character,
/// one of the named keys the classifier reacts to, or anything else.
#[derive(Clone, Copy, Debug, PartialEq, Eq, Structural)]
pub enum KeyCode {
    Char(char),
    Enter,
    Esc,
    Backspace,
    Other,
}

/// The modifier held while a key was pressed, reduced to what the classifier
/// tests: no modifier, shift, control, or some other combination.
#[derive(Clone, Copy, Debug, PartialEq, Eq, Structural)]
pub enum KeyModifier {
    NoModifier,
    Shift,
    Control,
    OtherModifier,
}

/// One raw keystroke: a key code together with its modifier.
#[derive(Clone, Copy, Debug, PartialEq, Eq, Structural)]
pub struct KeyEvent {
    pub code: KeyCode,
    pub modifiers: KeyModifier,
}

impl KeyEvent {
    /// Pair a code with a modifier.
    pub fn new(code: KeyCode, modifiers: KeyModifier) -> (r: KeyEvent)
        ensures
            r == (KeyEvent { code, modifiers }),
    {
        KeyEvent { code, modifiers }
    }

    /// A keystroke of the given code with no modifier held.
    pub fn from_code(code: KeyCode) -> (r: KeyEvent)
        ensures
            r == (KeyEvent { code, modifiers: KeyModifier::NoModifier }),
    {
        KeyEvent { code, modifiers: KeyModifier::NoModifier }
    }
}

/// How many cells wide a key cap is drawn, relative to the shortest one.
#[derive(Clone, Copy, Debug, PartialEq, Eq, Hash, Structural)]
pub enum KeyLength {
    SHORT,
    MEDIUM,
    LONG,
}

/// The width ratio a key cap of the given length takes in its keyboard row,
/// as a (numerator, denominator) pair of a tenth.
pub fn key_ratio(length: KeyLength) -> (r: (u32, u32))
    ensures
        length == KeyLength::SHORT ==> r == (1u32, 10u32),
        length == KeyLength::MEDIUM ==> r == (2u32, 10u32),
        length == KeyLength::LONG ==> r == (3u32, 10u32),
{
    match length {
        KeyLength::SHORT => (1, 10),
        KeyLength::MEDIUM => (2, 10),
        KeyLength::LONG => (3, 10),
    }
}

} // verus!
