//! The keyboard and the mouse: what each event of the host terminal becomes.

use vstd::prelude::*;
use vstd::string::*;
use vstd::utf8::encode_utf8;
use crate::position::Position;
use crate::text::push_char;
use crate::ui_command::UICommand;

verus! {

/// A key of the keyboard.
#[derive(Debug, Clone, Copy, PartialEq, Eq, Structural)]
pub enum Key {
    /// A function key, by its number.
    F(u8),
    /// A key that gives a character.
    Char(char),
    Tab,
    Delete,
    Up,
    Down,
    Left,
    Right,
    Enter,
    Backspace,
    Esc,
    /// Any other key.
    Other,
}

/// The modifier keys held with a key.
#[derive(Debug, Clone, Copy, PartialEq, Eq, Structural)]
pub enum Modifiers {
    /// Alt and nothing else.
    Alt,
    /// Control and nothing else.
    Control,
    /// None, or any other combination.
    Other,
}

/// Whether a key went down, is held, or came up.
#[derive(Debug, Clone, Copy, PartialEq, Eq, Structural)]
pub enum KeyKind {
    Press,
    Repeat,
    Release,
}

/// What the mouse did.
#[derive(Debug, Clone, Copy, PartialEq, Eq, Structural)]
pub enum MouseKind {
    ScrollUp,
    ScrollDown,
    /// A button went down.
    Down,
    /// The mouse moved with a button down.
    Drag,
    /// A button came up.
    Up,
    /// Anything else.
    Other,
}

/// An event of the host terminal.
#[derive(Debug, Clone, PartialEq, Eq)]
pub enum HostEvent {
    Key { code: Key, modifiers: Modifiers, kind: KeyKind },
    Mouse { kind: MouseKind, column: u16, row: u16 },
    /// Text pasted into the terminal.
    Paste(String),
    /// Anything else.
    Other,
}

/// What a [`HostEvent`] is in specifications.
pub enum HostEventView {
    Key { code: Key, modifiers: Modifiers, kind: KeyKind },
    Mouse { kind: MouseKind, column: u16, row: u16 },
    Paste(Seq<char>),
    Other,
}

impl View for HostEvent {
    type V = HostEventView;

    open spec fn view(&self) -> HostEventView {
        match self {
            HostEvent::Key { code, modifiers, kind } => HostEventView::Key {
                code: *code,
                modifiers: *modifiers,
                kind: *kind,
            },
            HostEvent::Mouse { kind, column, row } => HostEventView::Mouse {
                kind: *kind,
                column: *column,
                row: *row,
            },
            HostEvent::Paste(text) => HostEventView::Paste(text@),
            HostEvent::Other => HostEventView::Other,
        }
    }
}

/// What the input task does with an event.
#[derive(Debug, Clone, PartialEq, Eq)]
pub enum InputAction {
    /// Hand a command to the screen buffer.
    Ui(UICommand),
    /// Send these bytes to the port.
    Send(Vec<u8>),
    /// Ask the actor for a break.
    Break,
    /// Ask the actor to shut down, and end the input task.
    Shutdown,
    /// Nothing.
    Nothing,
}

/// What an [`InputAction`] is in specifications.
pub enum InputActionView {
    Ui(UICommand),
    Send(Seq<u8>),
    Break,
    Shutdown,
    Nothing,
}

impl View for InputAction {
    type V = InputActionView;

    open spec fn view(&self) -> InputActionView {
        match self {
            InputAction::Ui(c) => InputActionView::Ui(*c),
            InputAction::Send(bytes) => InputActionView::Send(bytes@),
            InputAction::Break => InputActionView::Break,
            InputAction::Shutdown => InputActionView::Shutdown,
            InputAction::Nothing => InputActionView::Nothing,
        }
    }
}

/// The bytes that a key without Alt or Control sends to the port, if it sends any.
pub open spec fn key_bytes(code: Key) -> Option<Seq<u8>> {
    match code {
        Key::Tab => Some(seq![0x09u8]),
        Key::Delete => Some(seq![0x7Fu8]),
        Key::Up => Some(seq![0x1Bu8, 0x5Bu8, 0x41u8]),
        Key::Down => Some(seq![0x1Bu8, 0x5Bu8, 0x42u8]),
        Key::Right => Some(seq![0x1Bu8, 0x5Bu8, 0x43u8]),
        Key::Left => Some(seq![0x1Bu8, 0x5Bu8, 0x44u8]),
        Key::Enter => Some(seq![0x0Du8]),
        Key::Backspace => Some(seq![0x08u8]),
        Key::Esc => Some(seq![0x1Bu8]),
        Key::Char(c) => Some(encode_utf8(seq![c])),
        Key::F(_) => None,
        Key::Other => None,
    }
}

/// What a key that went down becomes. F1 and F2 scroll to the top and to the
/// bottom; Alt-b asks for a break; Control-c sends the byte 3, Control-l
/// clears the buffer, Control-q shuts down; every other key sends its bytes.
pub open spec fn key_action(code: Key, modifiers: Modifiers) -> InputActionView {
    match code {
        Key::F(n) => if n == 1 {
            InputActionView::Ui(UICommand::ScrollTop)
        } else if n == 2 {
            InputActionView::Ui(UICommand::ScrollBottom)
        } else {
            InputActionView::Nothing
        },
        _ => match modifiers {
            Modifiers::Alt => if code == Key::Char('b') {
                InputActionView::Break
            } else {
                InputActionView::Nothing
            },
            Modifiers::Control => if code == Key::Char('c') {
                InputActionView::Send(seq![0x03u8])
            } else if code == Key::Char('l') {
                InputActionView::Ui(UICommand::ClearBuffer)
            } else if code == Key::Char('q') {
                InputActionView::Shutdown
            } else {
                InputActionView::Nothing
            },
            Modifiers::Other => match key_bytes(code) {
                Some(bytes) => InputActionView::Send(bytes),
                None => InputActionView::Nothing,
            },
        },
    }
}

/// What an event of the mouse becomes: the wheel scrolls by one line, a
/// button down starts a selection, a drag extends it, a button up copies it.
pub open spec fn mouse_action(kind: MouseKind, column: u16, row: u16) -> InputActionView {
    match kind {
        MouseKind::ScrollUp => InputActionView::Ui(UICommand::ScrollUp(1)),
        MouseKind::ScrollDown => InputActionView::Ui(UICommand::ScrollDown(1)),
        MouseKind::Down => InputActionView::Ui(
            UICommand::StartSelection(Position { x: column, y: row }),
        ),
        MouseKind::Drag => InputActionView::Ui(
            UICommand::UpdateSelection(Position { x: column, y: row }),
        ),
        MouseKind::Up => InputActionView::Ui(UICommand::CopySelection),
        MouseKind::Other => InputActionView::Nothing,
    }
}

/// What an event of the host terminal becomes. Only keys that went down
/// act; pasted text is sent to the port as it is.
pub open spec fn action_for(event: HostEventView) -> InputActionView {
    match event {
        HostEventView::Key { code, modifiers, kind } => if kind == KeyKind::Press {
            key_action(code, modifiers)
        } else {
            InputActionView::Nothing
        },
        HostEventView::Mouse { kind, column, row } => mouse_action(kind, column, row),
        HostEventView::Paste(text) => InputActionView::Send(encode_utf8(text)),
        HostEventView::Other => InputActionView::Nothing,
    }
}

/// The bytes of one character.
fn char_bytes(c: char) -> (bytes: Vec<u8>)
    ensures
        bytes@ == encode_utf8(seq![c]),
{
    let mut s = String::new();
    push_char(&mut s, c);
    s.as_str().as_bytes_vec()
}

/// Finds the bytes that a key without Alt or Control sends.
fn bytes_of_key(code: Key) -> (r: Option<Vec<u8>>)
    ensures
        match r {
            Some(bytes) => key_bytes(code) == Some(bytes@),
            None => key_bytes(code) is None,
        },
{
    match code {
        Key::Tab => Some(vec![0x09u8]),
        Key::Delete => Some(vec![0x7Fu8]),
        Key::Up => Some(vec![0x1Bu8, 0x5Bu8, 0x41u8]),
        Key::Down => Some(vec![0x1Bu8, 0x5Bu8, 0x42u8]),
        Key::Right => Some(vec![0x1Bu8, 0x5Bu8, 0x43u8]),
        Key::Left => Some(vec![0x1Bu8, 0x5Bu8, 0x44u8]),
        Key::Enter => Some(vec![0x0Du8]),
        Key::Backspace => Some(vec![0x08u8]),
        Key::Esc => Some(vec![0x1Bu8]),
        Key::Char(c) => Some(char_bytes(c)),
        Key::F(_) => None,
        Key::Other => None,
    }
}

/// Decides what an event of the host terminal becomes.
pub fn map_event(event: HostEvent) -> (action: InputAction)
    ensures
        action@ == action_for(event@),
{
    match event {
        HostEvent::Key { code, modifiers, kind } => {
            if kind != KeyKind::Press {
                return InputAction::Nothing;
            }
            match code {
                Key::F(n) => {
                    if n == 1 {
                        InputAction::Ui(UICommand::ScrollTop)
                    } else if n == 2 {
                        InputAction::Ui(UICommand::ScrollBottom)
                    } else {
                        InputAction::Nothing
                    }
                },
                _ => match modifiers {
                    Modifiers::Alt => {
                        if code == Key::Char('b') {
                            InputAction::Break
                        } else {
                            InputAction::Nothing
                        }
                    },
                    Modifiers::Control => {
                        if code == Key::Char('c') {
                            let bytes = vec![0x03u8];
                            assert(bytes@ =~= seq![0x03u8]);
                            InputAction::Send(bytes)
                        } else if code == Key::Char('l') {
                            InputAction::Ui(UICommand::ClearBuffer)
                        } else if code == Key::Char('q') {
                            InputAction::Shutdown
                        } else {
                            InputAction::Nothing
                        }
                    },
                    Modifiers::Other => match bytes_of_key(code) {
                        Some(bytes) => InputAction::Send(bytes),
                        None => InputAction::Nothing,
                    },
                },
            }
        },
        HostEvent::Mouse { kind, column, row } => match kind {
            MouseKind::ScrollUp => InputAction::Ui(UICommand::ScrollUp(1)),
            MouseKind::ScrollDown => InputAction::Ui(UICommand::ScrollDown(1)),
            MouseKind::Down => InputAction::Ui(
                UICommand::StartSelection(Position { x: column, y: row }),
            ),
            MouseKind::Drag => InputAction::Ui(
                UICommand::UpdateSelection(Position { x: column, y: row }),
            ),
            MouseKind::Up => InputAction::Ui(UICommand::CopySelection),
            MouseKind::Other => InputAction::Nothing,
        },
        HostEvent::Paste(text) => InputAction::Send(text.as_str().as_bytes_vec()),
        HostEvent::Other => InputAction::Nothing,
    }
}

} // verus!
