//! Keyboard events as the event loop sees them, and what each one asks for.

use vstd::prelude::*;

verus! {

/// The key of a keyboard event.
#[derive(Debug, Clone, Copy, PartialEq, Eq, Structural)]
pub enum KeyCode {
    /// A key that stands for a character.
    Char(char),
    Enter,
    Backspace,
    Left,
    Right,
    /// Any key that the client has no use for.
    Other,
}

/// Whether a key went down, came up, or is being held.
#[derive(Debug, Clone, Copy, PartialEq, Eq, Structural)]
pub enum KeyKind {
    Press,
    Release,
    Repeat,
}

/// The modifier keys held during a keyboard event.
#[derive(Debug, Clone, Copy, PartialEq, Eq, Structural)]
pub struct Modifiers {
    pub shift: bool,
    pub control: bool,
    pub alt: bool,
    /// Any modifier other than the three above.
    pub other: bool,
}

impl Modifiers {
    /// Control is held and nothing else.
    pub open spec fn is_control_only(self) -> bool {
        self.control && !self.shift && !self.alt && !self.other
    }

}

/// One keyboard event.
#[derive(Debug, Clone, Copy, PartialEq, Eq, Structural)]
pub struct KeyEvent {
    pub code: KeyCode,
    pub modifiers: Modifiers,
    pub kind: KeyKind,
}

/// What a keyboard event asks the client to do.
#[derive(Debug, Clone, Copy, PartialEq, Eq, Structural)]
pub enum Intent {
    /// End the session.
    Quit,
    /// Put a character in at the cursor.
    Insert(char),
    /// Send the typed text.
    Submit,
    /// Take out the character before the cursor.
    Erase,
    /// Move the cursor one to the left.
    Left,
    /// Move the cursor one to the right.
    Right,
    /// Nothing.
    Nothing,
}

/// The quit combination: the key `c` going down with control alone held.
pub open spec fn is_quit(key: KeyEvent) -> bool {
    key.kind == KeyKind::Press && key.code == KeyCode::Char('c')
        && key.modifiers.is_control_only()
}

/// What `key` asks for. Only a key going down asks for anything; the quit
/// combination is taken out before a character can reach the text.
pub open spec fn intent_of(key: KeyEvent) -> Intent {
    if key.kind != KeyKind::Press {
        Intent::Nothing
    } else if is_quit(key) {
        Intent::Quit
    } else {
        match key.code {
            KeyCode::Char(c) => Intent::Insert(c),
            KeyCode::Enter => Intent::Submit,
            KeyCode::Backspace => Intent::Erase,
            KeyCode::Left => Intent::Left,
            KeyCode::Right => Intent::Right,
            KeyCode::Other => Intent::Nothing,
        }
    }
}

/// Tells what `key` asks for.
pub fn classify(key: KeyEvent) -> (intent: Intent)
    ensures
        intent == intent_of(key),
{
    match key.kind {
        KeyKind::Press => {},
        _ => {
            return Intent::Nothing;
        },
    }
    let control_only = key.modifiers.control && !key.modifiers.shift && !key.modifiers.alt
        && !key.modifiers.other;
    match key.code {
        KeyCode::Char(c) => {
            if c == 'c' && control_only {
                Intent::Quit
            } else {
                Intent::Insert(c)
            }
        },
        KeyCode::Enter => Intent::Submit,
        KeyCode::Backspace => Intent::Erase,
        KeyCode::Left => Intent::Left,
        KeyCode::Right => Intent::Right,
        KeyCode::Other => Intent::Nothing,
    }
}

} // verus!
