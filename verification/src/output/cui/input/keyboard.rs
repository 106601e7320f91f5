//! Key presses and what they lead to.

use vstd::prelude::*;

verus! {

/// The key of a key press, as far as the display tells keys apart.
#[derive(Clone, Copy, PartialEq, Eq, Debug, Structural)]
pub enum KeyCode {
    Enter,
    Backspace,
    Char(char),
    Other,
}

/// One key press.
#[derive(Debug)]
pub struct KeyEvent {
    /// The key.
    pub code: KeyCode,
    /// Whether no modifier key was held, or the shift key alone.
    pub plain: bool,
    /// How the key is named in messages.
    pub label: String,
}

/// What the display does after a key press has been handled.
#[derive(Debug)]
pub enum KeyboardAction {
    /// Show a message.
    Message(String),
    /// Show a message as an error.
    ErrorMessage(String),
    /// Nothing.
    NoOp,
    /// Leave the display, giving the reason.
    Exit(String),
}

/// The position that a key selects: `0` to `9` select the first ten cells,
/// `a` to `p` the next sixteen.
pub open spec fn char_index(c: char) -> Option<int> {
    if '0' <= c <= '9' {
        Some(c as int - 48)
    } else if 'a' <= c <= 'p' {
        Some(c as int - 97 + 10)
    } else {
        None
    }
}

/// The key that selects position `index`, for the first 26 positions.
pub open spec fn index_char(index: int) -> Option<char> {
    if 0 <= index < 10 {
        Some((48 + index) as char)
    } else if 10 <= index < 26 {
        Some((97 + index - 10) as char)
    } else {
        None
    }
}

/// Keys and positions correspond one to one: the key of a position selects
/// that position, and the position of a key is shown by that key.
pub proof fn lemma_index_char_round_trip(index: int, c: char)
    ensures
        index_char(index) matches Some(key) ==> char_index(key) == Some(index),
        char_index(c) matches Some(position) ==> index_char(position) == Some(c),
{
}

/// The position that the key `ch` selects.
pub fn char_to_index(ch: char) -> (index: Option<usize>)
    ensures
        match index {
            Some(i) => char_index(ch) == Some(i as int),
            None => char_index(ch) is None,
        },
{
    let code = ch as u32;
    if 48 <= code && code <= 57 {
        Some((code - 48) as usize)
    } else if 97 <= code && code <= 112 {
        Some((code - 97 + 10) as usize)
    } else {
        None
    }
}

/// The key that selects position `index`.
pub fn index_to_char(index: u8) -> (key: Option<char>)
    ensures
        key == index_char(index as int),
{
    if index < 10 {
        Some((48 + index) as char)
    } else if index < 26 {
        Some((97 + (index - 10)) as char)
    } else {
        None
    }
}

/// The character of a key press, if the key is a character key.
pub fn keyevent_to_char(key_event: &KeyEvent) -> (c: Option<char>)
    ensures
        c == match key_event.code {
            KeyCode::Char(c) => Some(c),
            _ => None,
        },
{
    match key_event.code {
        KeyCode::Char(c) => Some(c),
        _ => None,
    }
}

} // verus!
