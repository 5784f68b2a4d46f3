//! What the prompts share: the lifecycle state, the abort keys, the icons
//! and the window over a long list.

use crate::draw::{colored_text, Color, Styled, StyledView};
use crate::event::{KeyCode, KeyEvent};
pub use crate::figures::{FigureSet, Figures};
use vstd::prelude::*;
use vstd::string::*;

verus! {

/// Internal state of a prompt
#[derive(Debug, Clone, Copy, PartialEq, Eq, Structural)]
pub enum PromptState {
    /// Prompt was just created (and has not yet been displayed for the first time)
    Created,
    /// Prompt is running/displaying
    Running,
    /// Prompt input needs validation
    Validate,
    /// The prompt was aborted by the user
    Aborted,
    /// The prompt completed successfully
    Success,
}

impl Default for PromptState {
    fn default() -> (s: PromptState)
        ensures
            s == PromptState::Created,
    {
        PromptState::Created
    }
}

impl PromptState {
    /// A prompt in this state takes no more input.
    pub open spec fn done(self) -> bool {
        self == PromptState::Aborted || self == PromptState::Success
    }

    /// The state after a frame has been drawn in this one: the first frame
    /// starts the prompt, every other leaves the state as it is.
    pub open spec fn after_render(self) -> PromptState {
        if self == PromptState::Created {
            PromptState::Running
        } else {
            self
        }
    }

    /// Whether the prompt has ended, by an answer or by an abort.
    pub fn is_done(&self) -> (b: bool)
        ensures
            b == self.done(),
    {
        match self {
            PromptState::Aborted => true,
            PromptState::Success => true,
            _ => false,
        }
    }
}

/// The key presses that abort a prompt: control with `c`, control with `d`,
/// and escape with no modifier.
pub open spec fn is_abort(event: KeyEvent) -> bool {
    ||| event.modifiers.is_control() && event.code == KeyCode::Char('c')
    ||| event.modifiers.is_control() && event.code == KeyCode::Char('d')
    ||| event.modifiers.is_none() && event.code == KeyCode::Esc
}

/// Should we abort on this event
pub fn is_abort_event(event: KeyEvent) -> (b: bool)
    ensures
        b == is_abort(event),
{
    match event.code {
        KeyCode::Char(c) => event.modifiers.is_control_only() && (c == 'c' || c == 'd'),
        KeyCode::Esc => event.modifiers.is_empty(),
        _ => false,
    }
}

/// The icon that stands before the message: a cross after an abort, a tick
/// after an answer, a question mark until then.
pub open spec fn state_icon(state: PromptState, figures: FigureSet) -> StyledView {
    match state {
        PromptState::Aborted => colored_text(Figures::Cross.glyph_in(figures), Color::Red),
        PromptState::Success => colored_text(Figures::Tick.glyph_in(figures), Color::Green),
        _ => colored_text("?"@, Color::Magenta),
    }
}

/// Prints a cross, a tick or a question mark depending on prompt state
pub fn print_state_icon(state: &PromptState) -> (icon: Styled)
    ensures
        icon@ == state_icon(*state, FigureSet::Standard),
{
    print_state_icon_in(state, FigureSet::Standard)
}

/// The icon of the state, with its figure from the given table.
pub fn print_state_icon_in(state: &PromptState, figures: FigureSet) -> (icon: Styled)
    ensures
        icon@ == state_icon(*state, figures),
{
    match state {
        PromptState::Aborted => Styled::colored(
            Figures::Cross.as_str_in(figures).to_owned(),
            Color::Red,
        ),
        PromptState::Success => Styled::colored(
            Figures::Tick.as_str_in(figures).to_owned(),
            Color::Green,
        ),
        _ => Styled::colored("?".to_owned(), Color::Magenta),
    }
}

/// The icon that stands before the input: nothing after an abort, an
/// ellipsis after an answer, a small pointer until then, each but the first
/// followed by a space.
pub open spec fn input_icon(state: PromptState, figures: FigureSet) -> StyledView {
    match state {
        PromptState::Aborted => colored_text(Seq::empty(), Color::Grey),
        PromptState::Success => colored_text(
            Figures::Ellipsis.glyph_in(figures) + " "@,
            Color::Grey,
        ),
        _ => colored_text(Figures::PointerSmall.glyph_in(figures) + " "@, Color::Grey),
    }
}

/// Prints a pointer or ellipsis depending on prompt state
pub fn print_input_icon(state: &PromptState) -> (icon: Styled)
    ensures
        icon@ == input_icon(*state, FigureSet::Standard),
{
    print_input_icon_in(state, FigureSet::Standard)
}

/// The icon before the input, with its figure from the given table.
pub fn print_input_icon_in(state: &PromptState, figures: FigureSet) -> (icon: Styled)
    ensures
        icon@ == input_icon(*state, figures),
{
    let text = match state {
        PromptState::Aborted => String::new(),
        PromptState::Success => {
            let mut t = Figures::Ellipsis.as_str_in(figures).to_owned();
            t.append(" ");
            t
        },
        _ => {
            let mut t = Figures::PointerSmall.as_str_in(figures).to_owned();
            t.append(" ");
            t
        },
    };
    Styled::colored(text, Color::Grey)
}

/// Where the window over a list starts: half a window before the cursor,
/// but no further down than where a full window still fits, and not before
/// the first item.
pub open spec fn window_start(current: int, total: int, limit: int) -> int {
    let fit = if total >= limit { total - limit } else { 0 };
    let centered = if current >= limit / 2 { current - limit / 2 } else { 0 };
    if fit <= centered { fit } else { centered }
}

/// Where the window over a list ends: a window's length after its start, or
/// at the end of the list if that comes first.
pub open spec fn window_end(current: int, total: int, limit: int) -> int {
    let start = window_start(current, total, limit);
    if start + limit <= total { start + limit } else { total }
}

/// The number of rows that the window shows.
pub open spec fn window_len(current: int, total: int, limit: int) -> int {
    window_end(current, total, limit) - window_start(current, total, limit)
}

/// Returns start and end-index for showing a limited amount of items
///
/// The window `[start, end)` lies within the list and is never longer than
/// `limit`. Whenever the cursor points at an item and `limit` is not zero,
/// the window holds the cursor.
pub fn calc_entries(current: usize, total: usize, limit: usize) -> (r: (usize, usize))
    ensures
        r.0 == window_start(current as int, total as int, limit as int),
        r.1 == window_end(current as int, total as int, limit as int),
        r.0 <= r.1 <= total,
        r.1 - r.0 <= limit,
        total == 0 ==> r.0 == 0 && r.1 == 0,
        current < total && limit > 0 ==> r.0 <= current < r.1,
{
    let fit: usize = if total >= limit { total - limit } else { 0 };
    let half: usize = limit / 2;
    let centered: usize = if current >= half { current - half } else { 0 };
    let start_index: usize = if fit <= centered { fit } else { centered };
    let end_index: usize = if limit <= total - start_index { start_index + limit } else { total };
    (start_index, end_index)
}

/// The window holds the cursor: whenever the cursor points at an item and
/// the limit is not zero, the window starts at or before the cursor, ends
/// behind it and within the list, and is as long as the limit allows, or as
/// the whole list if that is shorter.
pub proof fn lemma_window_holds_cursor(current: int, total: int, limit: int)
    requires
        0 <= current < total,
        0 < limit,
    ensures
        0 <= window_start(current, total, limit) <= current,
        current < window_end(current, total, limit) <= total,
        window_len(current, total, limit) == if limit <= total { limit } else { total },
{
}

} // verus!
