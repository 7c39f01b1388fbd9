//! Key presses and single-line text inputs for the terminal editors.

use vstd::prelude::*;
use crate::text::chars_of;
use ratatui::crossterm::event::{Event, KeyCode as CtCode, KeyEvent, KeyEventKind, KeyEventState, KeyModifiers};
use tui_input::backend::crossterm::EventHandler;

verus! {

/// The keys the editors tell apart.
#[derive(Clone, Copy, Debug, PartialEq, Eq, Structural)]
pub enum Key {
    Char(char),
    Enter,
    Esc,
    Tab,
    BackTab,
    Up,
    Down,
    Left,
    Right,
    Backspace,
    Delete,
    Home,
    End,
    Other,
}

/// Whether the key went down, repeats, or went up.
#[derive(Clone, Copy, Debug, PartialEq, Eq, Structural)]
pub enum KeyKind {
    Press,
    Repeat,
    Release,
}

/// Modifier bits, as crossterm numbers them.
pub const SHIFT: u8 = 1;
pub const CONTROL: u8 = 2;
pub const ALT: u8 = 4;
pub const META: u8 = 32;

/// One key event.
#[derive(Clone, Copy, Debug, PartialEq, Eq, Structural)]
pub struct KeyPress {
    pub code: Key,
    pub modifiers: u8,
    pub kind: KeyKind,
}

impl KeyPress {
    /// A plain press of a key, with no modifier.
    pub fn from_code(code: Key) -> (r: KeyPress)
        ensures
            r.code == code,
            r.modifiers == 0,
            r.kind == KeyKind::Press,
    {
        KeyPress { code, modifiers: 0, kind: KeyKind::Press }
    }
}

/// The character a key types into a text input: a pressed (or repeated)
/// character key with no modifier but shift.
pub open spec fn typed_char(k: KeyPress) -> Option<char> {
    match k.code {
        Key::Char(c) => if k.kind != KeyKind::Release && (k.modifiers == 0 || k.modifiers == SHIFT) {
            Some(c)
        } else {
            None
        },
        _ => None,
    }
}

/// Ctrl+U, pressed or repeated, with no other modifier.
pub open spec fn clears_line(k: KeyPress) -> bool {
    k.code == Key::Char('u') && k.modifiers == CONTROL && k.kind != KeyKind::Release
}

/// What `tui_input::Input::handle_event` makes of a text and cursor
/// (in characters) for a key.
pub uninterp spec fn spec_input_key(value: Seq<char>, cursor: nat, key: KeyPress) -> (Seq<char>, nat);

/// crossterm's key code, carried through to the text input.
#[verifier::external_type_specification]
#[verifier::external_body]
pub struct ExCtKeyCode(ratatui::crossterm::event::KeyCode);

/// crossterm's key event, carried through to the text input.
#[verifier::external_type_specification]
#[verifier::external_body]
pub struct ExCtKeyEvent(ratatui::crossterm::event::KeyEvent);

/// The crossterm key code for a key, variant for variant; `Other` (a key
/// the editor does not use) is crossterm's `Null`.
#[verifier::external_body]
fn crossterm_code(code: Key) -> CtCode {
    match code {
        Key::Char(c) => CtCode::Char(c),
        Key::Enter => CtCode::Enter,
        Key::Esc => CtCode::Esc,
        Key::Tab => CtCode::Tab,
        Key::BackTab => CtCode::BackTab,
        Key::Up => CtCode::Up, Key::Down => CtCode::Down,
        Key::Left => CtCode::Left, Key::Right => CtCode::Right,
        Key::Backspace => CtCode::Backspace,
        Key::Delete => CtCode::Delete,
        Key::Home => CtCode::Home,
        Key::End => CtCode::End,
        Key::Other => CtCode::Null,
    }
}

/// The crossterm key event for a key.
#[verifier::external_body]
fn crossterm_key(key: KeyPress) -> KeyEvent {
    let kind = match key.kind {
        KeyKind::Press => KeyEventKind::Press,
        KeyKind::Repeat => KeyEventKind::Repeat,
        KeyKind::Release => KeyEventKind::Release,
    };
    let modifiers = KeyModifiers::from_bits_truncate(key.modifiers);
    KeyEvent { code: crossterm_code(key.code), modifiers, kind, state: KeyEventState::NONE }
}

/// Applies a key to a text and cursor with `tui_input::Input`
/// (`Input::new(value).with_cursor(cursor)`, then `handle_event`). The
/// contract claims the outcome `spec_input_key` names, that the cursor
/// stays within the text, and what the crate's source shows for a typed
/// character (it is inserted at the cursor, which moves past it) and for
/// Ctrl+U (`DeleteLine`: a text that is not empty is cleared and the
/// cursor goes to its start).
#[verifier::external_body]
fn input_handle_key(value: &str, cursor: usize, key: KeyPress) -> (r: (String, usize))
    ensures
        (r.0@, r.1 as nat) == spec_input_key(value@, cursor as nat, key),
        r.1 <= r.0@.len(),
        typed_char(key) is Some && cursor <= value@.len() ==> r.0@ == value@.take(cursor as int) + seq![typed_char(key)->0]
            + value@.skip(cursor as int) && r.1 == cursor + 1,
        clears_line(key) && value@.len() > 0 ==> r.0@.len() == 0 && r.1 == 0,
{
    let mut input = tui_input::Input::new(value.to_owned()).with_cursor(cursor);
    input.handle_event(&Event::Key(crossterm_key(key)));
    (input.value().to_owned(), input.cursor())
}

/// A single-line text input: its text and the cursor, in characters.
pub struct TextInput {
    pub value: String,
    pub cursor: usize,
}

impl TextInput {
    pub open spec fn wf(&self) -> bool {
        self.cursor <= self.value@.len()
    }

    /// An input holding `value`, the cursor at its end.
    pub fn new(value: String) -> (r: TextInput)
        ensures
            r.value@ == value@,
            r.cursor == value@.len(),
            r.wf(),
    {
        let n = chars_of(value.as_str()).len();
        TextInput { value, cursor: n }
    }

    /// An empty input.
    pub fn empty() -> (r: TextInput)
        ensures
            r.value@.len() == 0,
            r.cursor == 0,
            r.wf(),
    {
        TextInput { value: String::new(), cursor: 0 }
    }

    pub fn value(&self) -> (r: &str)
        ensures
            r@ == self.value@,
    {
        self.value.as_str()
    }

    /// The input after a key.
    pub fn with_key(&self, key: KeyPress) -> (r: TextInput)
        ensures
            r.wf(),
            (r.value@, r.cursor as nat) == spec_input_key(self.value@, self.cursor as nat, key),
            self.wf() && typed_char(key) is Some ==> r.value@ == self.value@.take(self.cursor as int)
                + seq![typed_char(key)->0] + self.value@.skip(self.cursor as int),
            clears_line(key) && self.value@.len() > 0 ==> r.value@.len() == 0 && r.cursor == 0,
    {
        let (value, cursor) = input_handle_key(self.value.as_str(), self.cursor, key);
        TextInput { value, cursor }
    }

    /// Edits the text with a key.
    pub fn handle(&mut self, key: KeyPress)
        ensures
            final(self).wf(),
            (final(self).value@, final(self).cursor as nat) == spec_input_key(old(self).value@, old(self).cursor as nat, key),
            old(self).wf() && typed_char(key) is Some ==> final(self).value@ == old(self).value@.take(old(self).cursor as int)
                + seq![typed_char(key)->0] + old(self).value@.skip(old(self).cursor as int),
            clears_line(key) && old(self).value@.len() > 0 ==> final(self).value@.len() == 0 && final(self).cursor == 0,
    {
        let (v, c) = input_handle_key(self.value.as_str(), self.cursor, key);
        self.value = v;
        self.cursor = c;
    }
}

} // verus!
