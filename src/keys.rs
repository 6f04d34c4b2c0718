//! Key inputs that make up a chord.
use crate::message::Message;
use vstd::prelude::*;

verus! {

/// One discrete key input.
#[derive(Debug, Clone, Copy, PartialEq, Eq, Structural, Hash)]
pub enum Key {
    Backspace,
    Enter,
    Left,
    Right,
    Up,
    Down,
    Home,
    End,
    PageUp,
    PageDown,
    Tab,
    BackTab,
    Delete,
    Insert,
    Char(char),
    Null,
    Esc,
}

/// The label of a key in help listings, as crossterm prints the key code
/// (its non-macOS names): a character as itself, the space bar as `Space`.
pub open spec fn key_label_of(k: Key) -> Seq<char> {
    match k {
        Key::Backspace => "Backspace"@,
        Key::Enter => "Enter"@,
        Key::Left => "Left"@,
        Key::Right => "Right"@,
        Key::Up => "Up"@,
        Key::Down => "Down"@,
        Key::Home => "Home"@,
        Key::End => "End"@,
        Key::PageUp => "Page Up"@,
        Key::PageDown => "Page Down"@,
        Key::Tab => "Tab"@,
        Key::BackTab => "Back Tab"@,
        Key::Delete => "Del"@,
        Key::Insert => "Insert"@,
        Key::Null => "Null"@,
        Key::Esc => "Esc"@,
        Key::Char(c) => if c == ' ' {
            "Space"@
        } else {
            seq![c]
        },
    }
}

/// Relies on `char::to_string`: the string of that one character.
#[verifier::external_body]
fn char_string(c: char) -> (r: String)
    ensures
        r@ == seq![c],
{
    c.to_string()
}

pub fn key_label(k: Key) -> (r: String)
    ensures
        r@ == key_label_of(k),
{
    let name = match k {
        Key::Backspace => "Backspace",
        Key::Enter => "Enter",
        Key::Left => "Left",
        Key::Right => "Right",
        Key::Up => "Up",
        Key::Down => "Down",
        Key::Home => "Home",
        Key::End => "End",
        Key::PageUp => "Page Up",
        Key::PageDown => "Page Down",
        Key::Tab => "Tab",
        Key::BackTab => "Back Tab",
        Key::Delete => "Del",
        Key::Insert => "Insert",
        Key::Null => "Null",
        Key::Esc => "Esc",
        Key::Char(c) => {
            if c == ' ' {
                "Space"
            } else {
                return char_string(c);
            }
        },
    };
    String::from_str(name)
}


/// The keys that act outside of chords: quitting, moving, refreshing and
/// other general actions. `ctrl` tells whether Control is held.
pub open spec fn global_binding(key: Key, ctrl: bool) -> Option<Message> {
    match key {
        Key::Char('q') => Some(Message::Quit),
        Key::Char('c') if ctrl => Some(Message::Quit),
        Key::Down | Key::Char('j') => Some(Message::SelectNextNode),
        Key::Up | Key::Char('k') => Some(Message::SelectPrevNode),
        Key::PageDown => Some(Message::ScrollDownPage),
        Key::PageUp => Some(Message::ScrollUpPage),
        Key::Left | Key::Char('h') => Some(Message::SelectPrevSiblingNode),
        Key::Right | Key::Char('l') => Some(Message::SelectNextSiblingNode),
        Key::Char('K') => Some(Message::SelectParentNode),
        Key::Char(' ') => Some(Message::Refresh),
        Key::Char('r') if ctrl => Some(Message::Refresh),
        Key::Tab => Some(Message::ToggleLogListFold),
        Key::Esc => Some(Message::Clear),
        Key::Char('@') => Some(Message::SelectCurrentWorkingCopy),
        Key::Char('L') => Some(Message::SetRevset),
        Key::Char('I') => Some(Message::ToggleIgnoreImmutable),
        Key::Char('?') => Some(Message::ShowHelp),
        _ => None,
    }
}

/// The message of a key outside of chords; `None` sends the key to the chord.
pub fn global_key_message(key: Key, ctrl: bool) -> (r: Option<Message>)
    ensures
        r == global_binding(key, ctrl),
{
    match key {
        Key::Char('q') => Some(Message::Quit),
        Key::Char('c') if ctrl => Some(Message::Quit),
        Key::Down | Key::Char('j') => Some(Message::SelectNextNode),
        Key::Up | Key::Char('k') => Some(Message::SelectPrevNode),
        Key::PageDown => Some(Message::ScrollDownPage),
        Key::PageUp => Some(Message::ScrollUpPage),
        Key::Left | Key::Char('h') => Some(Message::SelectPrevSiblingNode),
        Key::Right | Key::Char('l') => Some(Message::SelectNextSiblingNode),
        Key::Char('K') => Some(Message::SelectParentNode),
        Key::Char(' ') => Some(Message::Refresh),
        Key::Char('r') if ctrl => Some(Message::Refresh),
        Key::Tab => Some(Message::ToggleLogListFold),
        Key::Esc => Some(Message::Clear),
        Key::Char('@') => Some(Message::SelectCurrentWorkingCopy),
        Key::Char('L') => Some(Message::SetRevset),
        Key::Char('I') => Some(Message::ToggleIgnoreImmutable),
        Key::Char('?') => Some(Message::ShowHelp),
        _ => None,
    }
}

} // verus!
