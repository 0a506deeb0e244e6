//! What the client shows: the lines of the chat, the line being typed and
//! the cursor in it, and where each of them goes on the screen.
//!
//! The cursor counts characters: it stands before the character of that
//! number, or behind the last one.

use vstd::prelude::*;
use vstd::string::*;

use crate::text::{byte_len, insert_at, remove_at, trim_end, trim_trailing};

verus! {

/// The state of the client's screen.
#[derive(Debug)]
pub struct AppState {
    /// The lines of the chat, the oldest first.
    pub chat_lines: Vec<String>,
    /// The line being typed.
    pub input: String,
    /// The cursor's place in `input`, in characters.
    pub cursor: usize,
    /// The user's nickname, once it has been entered.
    pub nickname: Option<String>,
    /// The width of the terminal.
    pub cols: u16,
    /// The height of the terminal.
    pub rows: u16,
}

/// An `AppState` with its texts as sequences of characters.
pub struct AppStateView {
    pub chat_lines: Seq<Seq<char>>,
    pub input: Seq<char>,
    pub cursor: nat,
    pub nickname: Option<Seq<char>>,
    pub cols: u16,
    pub rows: u16,
}

/// The texts of a sequence of strings.
pub open spec fn line_views(lines: Seq<String>) -> Seq<Seq<char>> {
    lines.map_values(|line: String| line@)
}

impl View for AppState {
    type V = AppStateView;

    open spec fn view(&self) -> AppStateView {
        AppStateView {
            chat_lines: line_views(self.chat_lines@),
            input: self.input@,
            cursor: self.cursor as nat,
            nickname: match self.nickname {
                Some(n) => Some(n@),
                None => None,
            },
            cols: self.cols,
            rows: self.rows,
        }
    }
}

/// The number of chat lines that fit on a screen of `rows` rows: all rows
/// but the one of the input line.
pub open spec fn chat_height(rows: u16) -> nat {
    if rows > 0 {
        (rows - 1) as nat
    } else {
        0
    }
}

/// The last `limit` of `lines`; all of them where there are no more.
pub open spec fn last_lines(lines: Seq<Seq<char>>, limit: nat) -> Seq<Seq<char>> {
    if lines.len() > limit {
        lines.skip(lines.len() - limit)
    } else {
        lines
    }
}

impl AppStateView {
    /// Whether the cursor stands in the input line or at its end.
    pub open spec fn well_formed(self) -> bool {
        self.cursor <= self.input.len()
    }
}

impl AppState {
    /// Whether the cursor stands in the input line or at its end.
    pub open spec fn well_formed(self) -> bool {
        self@.well_formed()
    }

    /// An empty screen of the given size, before the nickname is known.
    pub fn new(cols: u16, rows: u16) -> (r: Self)
        ensures
            r@ == (AppStateView {
                chat_lines: Seq::empty(),
                input: Seq::empty(),
                cursor: 0,
                nickname: None,
                cols,
                rows,
            }),
            r.well_formed(),
    {
        let r = Self {
            chat_lines: Vec::new(),
            input: String::new(),
            cursor: 0,
            nickname: None,
            cols,
            rows,
        };
        assert(r@.chat_lines =~= Seq::<Seq<char>>::empty());
        r
    }

    /// Adds a line to the chat and drops the oldest lines that no longer fit
    /// on the screen.
    pub fn add_message(&mut self, message: String)
        ensures
            final(self)@ == (AppStateView {
                chat_lines: last_lines(
                    old(self)@.chat_lines.push(message@),
                    chat_height(old(self).rows),
                ),
                ..old(self)@
            }),
    {
        let ghost pushed = self@.chat_lines.push(message@);
        self.chat_lines.push(message);
        assert(self@.chat_lines =~= pushed);
        let limit: usize = if self.rows > 0 {
            (self.rows - 1) as usize
        } else {
            0
        };
        if self.chat_lines.len() > limit {
            let excess = self.chat_lines.len() - limit;
            let kept = self.chat_lines.split_off(excess);
            self.chat_lines = kept;
            assert(self@.chat_lines =~= pushed.skip(pushed.len() - limit));
        }
    }

    /// Takes note of the terminal's new size.
    pub fn update_size(&mut self, cols: u16, rows: u16)
        ensures
            final(self)@ == (AppStateView { cols, rows, ..old(self)@ }),
    {
        self.cols = cols;
        self.rows = rows;
    }

    /// Empties the chat.
    pub fn clear_chat(&mut self)
        ensures
            final(self)@ == (AppStateView { chat_lines: Seq::empty(), ..old(self)@ }),
    {
        self.chat_lines.clear();
        assert(self@.chat_lines =~= Seq::<Seq<char>>::empty());
    }

    /// Puts a character in at the cursor and moves the cursor behind it.
    pub fn insert_char(&mut self, c: char)
        requires
            old(self).well_formed(),
        ensures
            final(self)@ == (AppStateView {
                input: old(self)@.input.insert(old(self).cursor as int, c),
                cursor: old(self)@.cursor + 1,
                ..old(self)@
            }),
            final(self).well_formed(),
    {
        self.input = insert_at(self.input.as_str(), self.cursor, c);
        // The line is no shorter in bytes than in characters, and its bytes
        // are counted in a `usize`: the cursor has room to move on.
        let bytes = byte_len(self.input.as_str());
        assert(self.cursor < bytes);
        self.cursor += 1;
    }

    /// Deletes the character before the cursor, if there is one, and moves
    /// the cursor back onto its place.
    pub fn backspace(&mut self)
        requires
            old(self).well_formed(),
        ensures
            final(self)@ == if old(self).cursor > 0 {
                AppStateView {
                    input: old(self)@.input.remove(old(self).cursor - 1),
                    cursor: (old(self).cursor - 1) as nat,
                    ..old(self)@
                }
            } else {
                old(self)@
            },
            final(self).well_formed(),
    {
        if self.cursor > 0 {
            self.cursor -= 1;
            self.input = remove_at(self.input.as_str(), self.cursor);
        }
    }

    /// Moves the cursor one character to the left, unless it stands at the
    /// start.
    pub fn move_cursor_left(&mut self)
        ensures
            final(self)@ == (AppStateView {
                cursor: if old(self).cursor > 0 {
                    (old(self).cursor - 1) as nat
                } else {
                    0
                },
                ..old(self)@
            }),
            old(self).well_formed() ==> final(self).well_formed(),
    {
        if self.cursor > 0 {
            self.cursor -= 1;
        }
    }

    /// Moves the cursor one character to the right, unless it stands at the
    /// end of the input line or behind it.
    pub fn move_cursor_right(&mut self)
        ensures
            final(self)@ == (AppStateView {
                cursor: if old(self).cursor < old(self)@.input.len() {
                    old(self)@.cursor + 1
                } else {
                    old(self)@.cursor
                },
                ..old(self)@
            }),
            old(self).well_formed() ==> final(self).well_formed(),
    {
        if self.cursor < self.input.as_str().unicode_len() {
            self.cursor += 1;
        }
    }

    /// Hands out the input line and starts a new, empty one.
    pub fn take_input(&mut self) -> (input: String)
        ensures
            input@ == old(self)@.input,
            final(self)@ == (AppStateView { input: Seq::empty(), cursor: 0, ..old(self)@ }),
            final(self).well_formed(),
    {
        let input = self.input.clone();
        self.input = String::new();
        self.cursor = 0;
        input
    }
}

/// One step of drawing the screen.
#[derive(Debug)]
pub enum DrawCommand {
    /// Clear the whole screen.
    Clear,
    /// Move the cursor to this column and row.
    MoveTo(u16, u16),
    /// Print this text at the cursor.
    Print(String),
}

/// A drawing step with its text as a sequence of characters.
pub enum DrawCommandView {
    Clear,
    MoveTo(u16, u16),
    Print(Seq<char>),
}

impl View for DrawCommand {
    type V = DrawCommandView;

    open spec fn view(&self) -> DrawCommandView {
        match self {
            DrawCommand::Clear => DrawCommandView::Clear,
            DrawCommand::MoveTo(x, y) => DrawCommandView::MoveTo(*x, *y),
            DrawCommand::Print(text) => DrawCommandView::Print(text@),
        }
    }
}

/// The views of a sequence of drawing steps.
pub open spec fn command_views(commands: Seq<DrawCommand>) -> Seq<DrawCommandView> {
    commands.map_values(|c: DrawCommand| c@)
}

/// The number of chat lines that are drawn: as many as there are, but no
/// more than fit.
pub open spec fn shown_lines(state: AppStateView) -> nat {
    if state.chat_lines.len() < chat_height(state.rows) {
        state.chat_lines.len()
    } else {
        chat_height(state.rows)
    }
}

/// The steps that draw the chat: the newest line on the row above the input
/// line, each older one a row higher, every line without its trailing white
/// space. Two steps for each line, the first `n` lines from the newest.
pub open spec fn chat_commands(state: AppStateView, n: nat) -> Seq<DrawCommandView>
    recommends
        n <= shown_lines(state),
    decreases n,
{
    if n == 0 {
        Seq::empty()
    } else {
        let i = (n - 1) as nat;
        chat_commands(state, i).push(
            DrawCommandView::MoveTo(0, (chat_height(state.rows) - 1 - i) as u16),
        ).push(DrawCommandView::Print(trim_end(state.chat_lines[state.chat_lines.len() - 1 - i])))
    }
}

/// The steps that draw the input line on the last row, behind the prompt,
/// and put the cursor on its place in it.
pub open spec fn input_commands(state: AppStateView) -> Seq<DrawCommandView> {
    seq![
        DrawCommandView::MoveTo(0, (state.rows - 1) as u16),
        DrawCommandView::Print("> "@ + state.input),
        DrawCommandView::MoveTo((2 + state.cursor) as u16, (state.rows - 1) as u16),
    ]
}

/// The steps that draw the whole screen.
pub open spec fn screen_commands(state: AppStateView) -> Seq<DrawCommandView> {
    seq![DrawCommandView::Clear] + chat_commands(state, shown_lines(state)) + input_commands(state)
}

/// The steps that draw the screen, in the order in which to carry them out.
/// The screen has at least the row of the input line, and the cursor's
/// column fits in sixteen bits.
pub fn render(state: &AppState) -> (commands: Vec<DrawCommand>)
    requires
        state.rows > 0,
        state.cursor + 2 <= u16::MAX,
    ensures
        command_views(commands@) == screen_commands(state@),
{
    let mut commands: Vec<DrawCommand> = Vec::new();
    commands.push(DrawCommand::Clear);
    let height: u16 = state.rows - 1;
    let count = state.chat_lines.len();
    let ghost shown = shown_lines(state@);
    let mut i: u16 = 0;
    assert(command_views(commands@) =~= seq![DrawCommandView::Clear] + chat_commands(state@, 0));
    while i < height && (i as usize) < count
        invariant
            i <= height,
            i <= count,
            height == state.rows - 1,
            count == state.chat_lines.len(),
            shown == shown_lines(state@),
            command_views(commands@) == seq![DrawCommandView::Clear] + chat_commands(
                state@,
                i as nat,
            ),
        decreases height - i,
    {
        let ghost before = commands@;
        let line = trim_trailing(state.chat_lines[count - 1 - i as usize].as_str());
        let text = String::from_str(line);
        commands.push(DrawCommand::MoveTo(0, height - 1 - i));
        commands.push(DrawCommand::Print(text));
        proof {
            assert(state@.chat_lines[count - 1 - i] == state.chat_lines@[count - 1 - i]@);
            assert(command_views(commands@) =~= command_views(before).push(
                DrawCommandView::MoveTo(0, (height - 1 - i) as u16),
            ).push(DrawCommandView::Print(text@)));
            assert(command_views(commands@) =~= seq![DrawCommandView::Clear] + chat_commands(
                state@,
                (i + 1) as nat,
            ));
        }
        i += 1;
    }
    assert(i as nat == shown);
    let ghost before = commands@;
    let row: u16 = state.rows - 1;
    let mut text = String::from_str("> ");
    text.append(state.input.as_str());
    commands.push(DrawCommand::MoveTo(0, row));
    commands.push(DrawCommand::Print(text));
    commands.push(DrawCommand::MoveTo(2 + state.cursor as u16, row));
    assert(command_views(commands@) =~= command_views(before) + input_commands(state@));
    commands
}

} // verus!
