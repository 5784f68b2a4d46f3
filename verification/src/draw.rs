//! Draw commands: what a prompt asks the terminal to do for one frame.
//!
//! A frame is a `Vec<Command>`. It is meant to be queued in order and sent
//! to the terminal as one batch; its last command is always `Flush`.

use vstd::prelude::*;

verus! {

/// The colours that prompts use.
#[derive(Debug, Clone, Copy, PartialEq, Eq)]
pub enum Color {
    Red,
    Green,
    Magenta,
    Grey,
    DarkGrey,
    Cyan,
    Yellow,
}

/// A piece of text with the attributes it is printed with.
#[derive(Debug, Clone, PartialEq, Eq)]
pub struct Styled {
    pub text: String,
    pub color: Option<Color>,
    pub bold: bool,
    pub italic: bool,
}

/// What a `Styled` says, with its text as a sequence of characters.
pub struct StyledView {
    pub text: Seq<char>,
    pub color: Option<Color>,
    pub bold: bool,
    pub italic: bool,
}

impl View for Styled {
    type V = StyledView;

    open spec fn view(&self) -> StyledView {
        StyledView { text: self.text@, color: self.color, bold: self.bold, italic: self.italic }
    }
}

/// Text without any attribute.
pub open spec fn plain_text(text: Seq<char>) -> StyledView {
    StyledView { text, color: None, bold: false, italic: false }
}

/// Text in a colour.
pub open spec fn colored_text(text: Seq<char>, color: Color) -> StyledView {
    StyledView { text, color: Some(color), bold: false, italic: false }
}

/// Text in bold, in a colour or in none.
pub open spec fn bold_text(text: Seq<char>, color: Option<Color>) -> StyledView {
    StyledView { text, color, bold: true, italic: false }
}

/// Text in italics and in a colour.
pub open spec fn italic_text(text: Seq<char>, color: Color) -> StyledView {
    StyledView { text, color: Some(color), bold: false, italic: true }
}

impl Styled {
    /// Text in italics and in a colour.
    pub fn italic(text: String, color: Color) -> (s: Styled)
        ensures
            s@ == italic_text(text@, color),
    {
        Styled { text, color: Some(color), bold: false, italic: true }
    }

    /// Text without any attribute.
    pub fn plain(text: String) -> (s: Styled)
        ensures
            s@ == plain_text(text@),
    {
        Styled { text, color: None, bold: false, italic: false }
    }

    /// Text in a colour.
    pub fn colored(text: String, color: Color) -> (s: Styled)
        ensures
            s@ == colored_text(text@, color),
    {
        Styled { text, color: Some(color), bold: false, italic: false }
    }

    /// Text in bold, in a colour or in none.
    pub fn bold(text: String, color: Option<Color>) -> (s: Styled)
        ensures
            s@ == bold_text(text@, color),
    {
        Styled { text, color, bold: true, italic: false }
    }
}

/// One instruction to the terminal.
#[derive(Debug, Clone, PartialEq, Eq)]
pub enum Command {
    /// Move the cursor up by so many rows.
    MoveUp(u16),
    /// Move the cursor to a column of the current row, counted from 0.
    MoveToColumn(u16),
    /// Move the cursor to the start of the row so many rows above.
    MoveToPreviousLine(u16),
    /// Clear from the cursor to the end of the screen.
    ClearFromCursorDown,
    /// Print text as it is.
    Print(String),
    /// Print text with attributes.
    PrintStyled(Styled),
    /// Remember where the cursor is.
    SavePosition,
    /// Put the cursor back where it was remembered.
    RestorePosition,
    /// Hide the caret.
    Hide,
    /// Show the caret.
    Show,
    /// Send everything queued so far.
    Flush,
}

/// What a `Command` says, with its text as a sequence of characters.
pub enum CommandView {
    MoveUp(u16),
    MoveToColumn(u16),
    MoveToPreviousLine(u16),
    ClearFromCursorDown,
    Print(Seq<char>),
    PrintStyled(StyledView),
    SavePosition,
    RestorePosition,
    Hide,
    Show,
    Flush,
}

impl View for Command {
    type V = CommandView;

    open spec fn view(&self) -> CommandView {
        match *self {
            Command::MoveUp(n) => CommandView::MoveUp(n),
            Command::MoveToColumn(n) => CommandView::MoveToColumn(n),
            Command::MoveToPreviousLine(n) => CommandView::MoveToPreviousLine(n),
            Command::ClearFromCursorDown => CommandView::ClearFromCursorDown,
            Command::Print(s) => CommandView::Print(s@),
            Command::PrintStyled(s) => CommandView::PrintStyled(s@),
            Command::SavePosition => CommandView::SavePosition,
            Command::RestorePosition => CommandView::RestorePosition,
            Command::Hide => CommandView::Hide,
            Command::Show => CommandView::Show,
            Command::Flush => CommandView::Flush,
        }
    }
}

/// A frame as the sequence of what its commands say.
pub open spec fn frame_view(frame: Seq<Command>) -> Seq<CommandView> {
    frame.map_values(|c: Command| c@)
}

/// Adds a command to the end of a frame.
pub fn emit(frame: &mut Vec<Command>, command: Command)
    ensures
        final(frame)@ == old(frame)@.push(command),
        frame_view(final(frame)@) == frame_view(old(frame)@).push(command@),
{
    frame.push(command);
    assert(frame_view(frame@) =~= frame_view(old(frame)@).push(command@));
}

/// Adds a command that prints the given text as it is.
pub fn emit_text(frame: &mut Vec<Command>, text: &str)
    ensures
        frame_view(final(frame)@) == frame_view(old(frame)@).push(CommandView::Print(text@)),
{
    emit(frame, Command::Print(text.to_owned()));
}

/// The text that is printed to start a new row.
pub open spec fn line_break() -> Seq<char> {
    "\n\r"@
}

} // verus!
