//! The pieces that frames are made of: the erasing of the last frame, the
//! header, the rows of the visible window, the echo of the input and the
//! end of a frame.

use crate::chars::string_of;
use crate::draw::{
    bold_text, colored_text, emit, emit_text, frame_view, line_break, Color, Command, CommandView,
    Styled, StyledView,
};
use crate::figures::{FigureSet, Figures};
use crate::utils::{
    input_icon, print_input_icon_in, print_state_icon_in, state_icon, PromptState,
};
use vstd::utf8::encode_utf8;
use vstd::prelude::*;
use vstd::string::*;

verus! {

/// The number of rows that a list may take on a terminal of the given
/// height: the configured limit, or one less than the height if that is
/// smaller.
pub open spec fn visible_limit(limit: int, terminal_rows: int) -> int {
    let room = if terminal_rows >= 1 { terminal_rows - 1 } else { 0 };
    if limit <= room { limit } else { room }
}

/// The number of rows that a list may take on a terminal of the given height.
pub fn visible_rows(limit: usize, terminal_rows: u16) -> (n: usize)
    ensures
        n == visible_limit(limit as int, terminal_rows as int),
        n <= limit,
        n < 0x10000,
{
    let room: u16 = if terminal_rows >= 1 { terminal_rows - 1 } else { 0 };
    if limit <= room as usize { limit } else { room as usize }
}

/// The mark between the pointer and the label of a row: an arrow up on the
/// first visible row when items lie above it, an arrow down on the last
/// when items lie below it, a blank otherwise.
pub open spec fn boundary(row: int, start: int, end: int, total: int, figures: FigureSet) -> Seq<
    char,
> {
    if row == start && start > 0 {
        Figures::ArrowUp.glyph_in(figures)
    } else if row == end - 1 && end < total {
        Figures::ArrowDown.glyph_in(figures)
    } else {
        " "@
    }
}

/// The mark between the pointer and the label of a row.
pub fn boundary_mark(
    row: usize,
    start: usize,
    end: usize,
    total: usize,
    figures: FigureSet,
) -> (mark: &'static str)
    ensures
        mark@ == boundary(row as int, start as int, end as int, total as int, figures),
{
    if row == start && start > 0 {
        Figures::ArrowUp.as_str_in(figures)
    } else if end > 0 && row == end - 1 && end < total {
        Figures::ArrowDown.as_str_in(figures)
    } else {
        " "
    }
}

/// What is drawn before a frame: nothing on the first frame but `first`,
/// and on every later one the way back over the rows that the last frame
/// drew and the clearing of all that follows.
pub open spec fn erase(state: PromptState, drawn: int, first: Seq<CommandView>) -> Seq<
    CommandView,
> {
    if state == PromptState::Created {
        first
    } else {
        seq![
            CommandView::MoveUp(drawn as u16),
            CommandView::MoveToColumn(0),
            CommandView::ClearFromCursorDown,
        ]
    }
}

/// What is drawn before a frame of a prompt that takes one line: nothing
/// on the first frame, and on every later one the way back to the start of
/// the line and the clearing of all that follows.
pub open spec fn erase_line(state: PromptState) -> Seq<CommandView> {
    if state == PromptState::Created {
        Seq::empty()
    } else {
        seq![CommandView::MoveToColumn(0), CommandView::ClearFromCursorDown]
    }
}

/// Queues the way back to the start of the line and the clearing.
pub fn emit_erase_line(frame: &mut Vec<Command>)
    ensures
        frame_view(final(frame)@) == frame_view(old(frame)@) + erase_line(PromptState::Running),
{
    emit(frame, Command::MoveToColumn(0));
    emit(frame, Command::ClearFromCursorDown);
    assert(frame_view(frame@) =~= frame_view(old(frame)@) + erase_line(PromptState::Running));
}

/// Queues the way back over the rows of the last frame and the clearing.
pub fn emit_erase(frame: &mut Vec<Command>, drawn: u16)
    ensures
        frame_view(final(frame)@) == frame_view(old(frame)@) + erase(
            PromptState::Running,
            drawn as int,
            Seq::empty(),
        ),
{
    emit(frame, Command::MoveUp(drawn));
    emit(frame, Command::MoveToColumn(0));
    emit(frame, Command::ClearFromCursorDown);
    assert(frame_view(frame@) =~= frame_view(old(frame)@) + erase(
        PromptState::Running,
        drawn as int,
        Seq::empty(),
    ));
}

/// The start of every frame: the icon of the state, a blank and the
/// message in bold.
pub open spec fn header(state: PromptState, message: Seq<char>, figures: FigureSet) -> Seq<
    CommandView,
> {
    seq![
        CommandView::PrintStyled(state_icon(state, figures)),
        CommandView::Print(" "@),
        CommandView::PrintStyled(bold_text(message, None)),
    ]
}

/// Queues the icon of the state, a blank and the message in bold.
pub fn emit_header(
    frame: &mut Vec<Command>,
    state: &PromptState,
    message: &String,
    figures: FigureSet,
)
    ensures
        frame_view(final(frame)@) == frame_view(old(frame)@) + header(*state, message@, figures),
{
    emit(frame, Command::PrintStyled(print_state_icon_in(state, figures)));
    emit_text(frame, " ");
    emit(frame, Command::PrintStyled(Styled::bold(message.clone(), None)));
    assert(frame_view(frame@) =~= frame_view(old(frame)@) + header(*state, message@, figures));
}

/// One row of a list: a line break, the marker of the row, the boundary
/// mark between two blanks, and the label.
pub open spec fn row(marker: StyledView, mark: Seq<char>, label: StyledView) -> Seq<CommandView> {
    seq![
        CommandView::Print(line_break()),
        CommandView::PrintStyled(marker),
        CommandView::Print(" "@ + mark + " "@),
        CommandView::PrintStyled(label),
    ]
}

/// Queues one row of a list.
pub fn emit_row(frame: &mut Vec<Command>, marker: Styled, mark: &str, label: Styled)
    ensures
        frame_view(final(frame)@) == frame_view(old(frame)@) + row(marker@, mark@, label@),
{
    emit_text(frame, "\n\r");
    emit(frame, Command::PrintStyled(marker));
    let mut between = " ".to_owned();
    between.append(mark);
    between.append(" ");
    emit(frame, Command::Print(between));
    emit(frame, Command::PrintStyled(label));
    assert(frame_view(frame@) =~= frame_view(old(frame)@) + row(marker@, mark@, label@));
}

/// The rows from `start` up to `end`, one after the other, where `row_of`
/// gives the commands of each.
pub open spec fn rows(row_of: spec_fn(int) -> Seq<CommandView>, start: int, end: int) -> Seq<
    CommandView,
>
    decreases end - start,
{
    if end <= start {
        Seq::empty()
    } else {
        rows(row_of, start, end - 1) + row_of(end - 1)
    }
}

/// The cursor of a list that has `shown` entries, kept on an entry: where
/// it was if that is still one, else on the last, and on 0 if there is none.
pub open spec fn clamped(current: int, shown: int) -> int {
    if shown <= 0 {
        0
    } else if current >= shown {
        shown - 1
    } else {
        current
    }
}

/// The cursor of a list that has `shown` entries, kept on an entry.
pub fn clamp(current: usize, shown: usize) -> (at: usize)
    ensures
        at == clamped(current as int, shown as int),
{
    if shown == 0 {
        0
    } else if current >= shown {
        shown - 1
    } else {
        current
    }
}

/// The echo of what was typed, behind the header: a blank, the input icon,
/// the text, and a mark of where the cursor then stands.
pub open spec fn input_echo(state: PromptState, text: Seq<char>, figures: FigureSet) -> Seq<
    CommandView,
> {
    seq![
        CommandView::Print(" "@),
        CommandView::PrintStyled(input_icon(state, figures)),
        CommandView::Print(text),
        CommandView::SavePosition,
    ]
}

/// Queues the echo of what was typed.
pub fn emit_input_echo(
    frame: &mut Vec<Command>,
    state: &PromptState,
    text: &Vec<char>,
    figures: FigureSet,
)
    ensures
        frame_view(final(frame)@) == frame_view(old(frame)@) + input_echo(
            *state,
            text@,
            figures,
        ),
{
    emit_text(frame, " ");
    emit(frame, Command::PrintStyled(print_input_icon_in(state, figures)));
    emit(frame, Command::Print(string_of(text)));
    emit(frame, Command::SavePosition);
    assert(frame_view(frame@) =~= frame_view(old(frame)@) + input_echo(*state, text@, figures));
}

/// The row that stands for the list when nothing matches the query.
pub open spec fn placeholder() -> Seq<CommandView> {
    seq![
        CommandView::Print(line_break()),
        CommandView::PrintStyled(colored_text("Nothing matched your search"@, Color::DarkGrey)),
    ]
}

/// Queues the row that stands for the list when nothing matches the query.
pub fn emit_placeholder(frame: &mut Vec<Command>)
    ensures
        frame_view(final(frame)@) == frame_view(old(frame)@) + placeholder(),
{
    emit_text(frame, "\n\r");
    emit(
        frame,
        Command::PrintStyled(
            Styled::colored("Nothing matched your search".to_owned(), Color::DarkGrey),
        ),
    );
    assert(frame_view(frame@) =~= frame_view(old(frame)@) + placeholder());
}

/// The length of a text in bytes, as `str::len` counts it.
pub open spec fn byte_len(text: Seq<char>) -> usize {
    encode_utf8(text).len() as usize
}

/// The column of the caret in the input: `lead` columns of icons and
/// blanks, the message by its length in bytes, and the `offset` of the
/// caret in the input, cut to sixteen bits.
pub open spec fn input_column(lead: int, message: Seq<char>, offset: int) -> u16 {
    ((lead + byte_len(message) + offset) % 0x10000) as u16
}

/// The column of the caret in the input.
pub fn column_of(lead: u8, message: &String, offset: usize) -> (column: u16)
    ensures
        column == input_column(lead as int, message@, offset as int),
{
    let width: usize = message.as_str().len();
    let sum: u128 = lead as u128 + width as u128 + offset as u128;
    (sum % 0x10000) as u16
}

/// The way back to the input after the list was drawn.
pub open spec fn back_to_input(column: u16) -> Seq<CommandView> {
    seq![CommandView::RestorePosition, CommandView::MoveToColumn(column)]
}

/// Queues the way back to the input.
pub fn emit_back_to_input(frame: &mut Vec<Command>, column: u16)
    ensures
        frame_view(final(frame)@) == frame_view(old(frame)@) + back_to_input(column),
{
    emit(frame, Command::RestorePosition);
    emit(frame, Command::MoveToColumn(column));
    assert(frame_view(frame@) =~= frame_view(old(frame)@) + back_to_input(column));
}

/// The answer shown behind the header once one was given: a blank, the
/// input icon and the label of what was chosen.
pub open spec fn summary(state: PromptState, label: Seq<char>, figures: FigureSet) -> Seq<
    CommandView,
> {
    seq![
        CommandView::Print(" "@),
        CommandView::PrintStyled(input_icon(state, figures)),
        CommandView::Print(label),
    ]
}

/// Queues the answer shown behind the header.
pub fn emit_summary(
    frame: &mut Vec<Command>,
    state: &PromptState,
    label: &Vec<char>,
    figures: FigureSet,
)
    ensures
        frame_view(final(frame)@) == frame_view(old(frame)@) + summary(*state, label@, figures),
{
    emit_text(frame, " ");
    emit(frame, Command::PrintStyled(print_input_icon_in(state, figures)));
    emit(frame, Command::Print(string_of(label)));
    assert(frame_view(frame@) =~= frame_view(old(frame)@) + summary(*state, label@, figures));
}

/// The end of the last frame of a prompt: a line break.
pub open spec fn closing() -> Seq<CommandView> {
    seq![CommandView::Print(line_break())]
}

} // verus!
