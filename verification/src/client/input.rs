//! What a key press does to the client.
//!
//! The program reads the terminal's events and hands each one in as an
//! `InputEvent`; `handle_input` edits the input line and says what else is
//! to be done.

use vstd::prelude::*;
use vstd::string::*;

use crate::client::ui::{AppState, AppStateView};

verus! {

/// What the program is to do after an event.
#[derive(Debug)]
pub enum KeyAction {
    /// Leave the program.
    Exit,
    /// Empty the chat.
    ClearChat,
    /// Send this line as a chat message.
    SendMessage(String),
    /// Send this line as the user's nickname.
    SendNickname(String),
    /// Ask the server how many clients are connected.
    InfoRequest,
    /// Nothing.
    Nothing,
}

/// A `KeyAction` with its line as a sequence of characters.
pub enum KeyActionView {
    Exit,
    ClearChat,
    SendMessage(Seq<char>),
    SendNickname(Seq<char>),
    InfoRequest,
    Nothing,
}

impl View for KeyAction {
    type V = KeyActionView;

    open spec fn view(&self) -> KeyActionView {
        match self {
            KeyAction::Exit => KeyActionView::Exit,
            KeyAction::ClearChat => KeyActionView::ClearChat,
            KeyAction::SendMessage(line) => KeyActionView::SendMessage(line@),
            KeyAction::SendNickname(line) => KeyActionView::SendNickname(line@),
            KeyAction::InfoRequest => KeyActionView::InfoRequest,
            KeyAction::Nothing => KeyActionView::Nothing,
        }
    }
}

/// A key of the keyboard, as far as the client tells keys apart.
#[derive(Debug, Clone, Copy, PartialEq, Eq, Structural)]
pub enum Key {
    Char(char),
    Esc,
    Left,
    Right,
    Backspace,
    Enter,
    Tab,
    Other,
}

/// An event of the terminal.
#[derive(Debug, Clone, Copy, PartialEq, Eq, Structural)]
pub enum InputEvent {
    /// Something happened to a key. `control` says that Control, and no
    /// other modifier, was held; `press` says that the key went down.
    Key { key: Key, control: bool, press: bool },
    /// The terminal has this many columns and rows now.
    Resize(u16, u16),
    /// Anything else.
    Other,
}

/// What one step of `handle_input` leaves: the screen's state and what is to
/// be done.
pub struct InputStep {
    pub state: AppStateView,
    pub action: KeyActionView,
}

/// The step on a key that went down.
///
/// Control and `c`, or Escape, leave the program; Control and `l` empties
/// the chat. The arrow keys move the cursor, Backspace deletes before it,
/// and any other character is put in at it. Enter takes the input line: it
/// is the nickname if none is known yet, a message otherwise. Tab asks the
/// server for information. Any other key does nothing.
pub open spec fn key_step(state: AppStateView, key: Key, control: bool) -> InputStep {
    match key {
        Key::Char(c) => if control && c == 'c' {
            InputStep { state, action: KeyActionView::Exit }
        } else if control && c == 'l' {
            InputStep { state, action: KeyActionView::ClearChat }
        } else {
            InputStep {
                state: AppStateView {
                    input: state.input.insert(state.cursor as int, c),
                    cursor: state.cursor + 1,
                    ..state
                },
                action: KeyActionView::Nothing,
            }
        },
        Key::Esc => InputStep { state, action: KeyActionView::Exit },
        Key::Left => InputStep {
            state: AppStateView {
                cursor: if state.cursor > 0 {
                    (state.cursor - 1) as nat
                } else {
                    0
                },
                ..state
            },
            action: KeyActionView::Nothing,
        },
        Key::Right => InputStep {
            state: AppStateView {
                cursor: if state.cursor < state.input.len() {
                    state.cursor + 1
                } else {
                    state.cursor
                },
                ..state
            },
            action: KeyActionView::Nothing,
        },
        Key::Backspace => InputStep {
            state: if state.cursor > 0 {
                AppStateView {
                    input: state.input.remove(state.cursor - 1),
                    cursor: (state.cursor - 1) as nat,
                    ..state
                }
            } else {
                state
            },
            action: KeyActionView::Nothing,
        },
        Key::Enter => if state.nickname is None {
            InputStep {
                state: AppStateView {
                    input: Seq::empty(),
                    cursor: 0,
                    nickname: Some(state.input),
                    ..state
                },
                action: KeyActionView::SendNickname(state.input),
            }
        } else {
            InputStep {
                state: AppStateView { input: Seq::empty(), cursor: 0, ..state },
                action: KeyActionView::SendMessage(state.input),
            }
        },
        Key::Tab => InputStep { state, action: KeyActionView::InfoRequest },
        Key::Other => InputStep { state, action: KeyActionView::Nothing },
    }
}

/// The step on an event: a key that went down does what `key_step` says, a
/// new size of the terminal is taken note of, and nothing else has any
/// effect.
pub open spec fn input_step(state: AppStateView, event: InputEvent) -> InputStep {
    match event {
        InputEvent::Key { key, control, press } => if press {
            key_step(state, key, control)
        } else {
            InputStep { state, action: KeyActionView::Nothing }
        },
        InputEvent::Resize(cols, rows) => InputStep {
            state: AppStateView { cols, rows, ..state },
            action: KeyActionView::Nothing,
        },
        InputEvent::Other => InputStep { state, action: KeyActionView::Nothing },
    }
}

/// Turns the terminal's events into edits of the input line and actions.
#[derive(Debug)]
pub struct InputHandler;

impl InputHandler {
    pub fn new() -> Self {
        Self
    }

    /// Handles one event of the terminal.
    pub fn handle_input(&self, state: &mut AppState, event: InputEvent) -> (action: KeyAction)
        requires
            old(state).well_formed(),
        ensures
            input_step(old(state)@, event) == (InputStep { state: final(state)@, action: action@ }),
            final(state).well_formed(),
    {
        match event {
            InputEvent::Key { key, control, press } => {
                if !press {
                    return KeyAction::Nothing;
                }
                match key {
                    Key::Char(c) => {
                        if control && c == 'c' {
                            KeyAction::Exit
                        } else if control && c == 'l' {
                            KeyAction::ClearChat
                        } else {
                            state.insert_char(c);
                            KeyAction::Nothing
                        }
                    },
                    Key::Esc => KeyAction::Exit,
                    Key::Left => {
                        state.move_cursor_left();
                        KeyAction::Nothing
                    },
                    Key::Right => {
                        state.move_cursor_right();
                        KeyAction::Nothing
                    },
                    Key::Backspace => {
                        state.backspace();
                        KeyAction::Nothing
                    },
                    Key::Enter => {
                        let input = state.take_input();
                        if state.nickname.is_none() {
                            state.nickname = Some(input.clone());
                            KeyAction::SendNickname(input)
                        } else {
                            KeyAction::SendMessage(input)
                        }
                    },
                    Key::Tab => KeyAction::InfoRequest,
                    Key::Other => KeyAction::Nothing,
                }
            },
            InputEvent::Resize(cols, rows) => {
                state.update_size(cols, rows);
                KeyAction::Nothing
            },
            InputEvent::Other => KeyAction::Nothing,
        }
    }
}

} // verus!
