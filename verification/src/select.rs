//! Interactive prompt where the user chooses from a list of options

use crate::chars::{is_label_of, labels_of, string_of};
use crate::draw::{
    bold_text, colored_text, emit, emit_text, frame_view, plain_text, Color, Command,
    CommandView, Styled,
};
use crate::event::{Event, KeyCode, KeyEvent};
use crate::figures::{FigureSet, Figures};
use crate::filter::label_views;
use crate::render::{
    boundary, boundary_mark, closing, emit_erase, emit_header, emit_row, emit_summary, erase,
    header, row, rows, summary, visible_limit, visible_rows,
};
use crate::utils::{
    calc_entries, is_abort, is_abort_event, window_end, window_start, PromptState,
};
use vstd::prelude::*;

verus! {

/// What a `SelectPrompt` holds, as plain mathematical values.
pub struct SelectView<T> {
    /// The message shown before the list.
    pub message: Seq<char>,
    /// Where the prompt is in its life.
    pub state: PromptState,
    /// The table that the figures of the frames are taken from.
    pub figures: FigureSet,
    /// The choices, in the order in which they were given.
    pub choices: Seq<T>,
    /// The label of each choice.
    pub labels: Seq<Seq<char>>,
    /// The position of the highlighted choice.
    pub current: int,
    /// The most rows that the list may take.
    pub limit: int,
    /// The number of rows of the list that the last frame drew.
    pub drawn: int,
}

impl<T> SelectView<T> {
    /// Every choice has a label, the cursor points at a choice unless there
    /// is none, and an answer was given only if there is a choice to give.
    pub open spec fn wf(self) -> bool {
        &&& self.labels.len() == self.choices.len()
        &&& 0 <= self.current
        &&& self.current < self.choices.len() || (self.choices.len() == 0 && self.current == 0)
        &&& 0 <= self.limit
        &&& 0 <= self.drawn < 0x10000
        &&& self.state == PromptState::Success ==> self.choices.len() > 0
    }

    /// The position of the last choice, or 0 if there is none.
    pub open spec fn last(self) -> int {
        if self.choices.len() > 0 { self.choices.len() - 1 } else { 0 }
    }

    /// The prompt after a key press. Once the prompt has ended no key
    /// changes it. Until then an abort key aborts it, whatever else the key
    /// may mean, and of the other keys only unmodified ones count:
    /// enter answers with the highlighted choice, if there is any choice;
    /// home and end jump to the first and the last choice; up or `k`, and
    /// down or `j`, move the highlight by one and stop at either end.
    pub open spec fn after_key(self, event: KeyEvent) -> SelectView<T> {
        if self.state.done() {
            self
        } else if is_abort(event) {
            SelectView { state: PromptState::Aborted, ..self }
        } else {
            match event.plain_code() {
                Some(KeyCode::Enter) => if self.choices.len() > 0 {
                    SelectView { state: PromptState::Success, ..self }
                } else {
                    self
                },
                Some(KeyCode::Home) => SelectView { current: 0, ..self },
                Some(KeyCode::End) => SelectView { current: self.last(), ..self },
                Some(KeyCode::Up) | Some(KeyCode::Char('k')) => SelectView {
                    current: if self.current > 0 { self.current - 1 } else { 0 },
                    ..self
                },
                Some(KeyCode::Down) | Some(KeyCode::Char('j')) => SelectView {
                    current: if self.current < self.last() { self.current + 1 } else {
                        self.last()
                    },
                    ..self
                },
                _ => self,
            }
        }
    }

    /// The prompt after an event: a key press is taken as such, and nothing
    /// else changes the prompt.
    pub open spec fn after_event(self, event: Event) -> SelectView<T> {
        match event {
            Event::Key(key) => self.after_key(key),
            _ => self,
        }
    }

    /// Where the visible window starts on a terminal of the given height.
    pub open spec fn start(self, terminal_rows: int) -> int {
        window_start(
            self.current,
            self.choices.len() as int,
            visible_limit(self.limit, terminal_rows),
        )
    }

    /// Where the visible window ends on a terminal of the given height.
    pub open spec fn end(self, terminal_rows: int) -> int {
        window_end(
            self.current,
            self.choices.len() as int,
            visible_limit(self.limit, terminal_rows),
        )
    }

    /// The number of rows of the list that a frame shows: those of the
    /// visible window while the prompt goes on, none once it has ended.
    pub open spec fn list_rows(self, terminal_rows: int) -> int {
        if self.state.done() {
            0
        } else {
            self.end(terminal_rows) - self.start(terminal_rows)
        }
    }

    /// The row of the choice at position `at`: a pointer before the
    /// highlighted one, the boundary mark, and the label, bold and coloured
    /// if it is highlighted.
    pub open spec fn row_at(self, at: int, terminal_rows: int) -> Seq<CommandView> {
        let mark = boundary(
            at,
            self.start(terminal_rows),
            self.end(terminal_rows),
            self.choices.len() as int,
            self.figures,
        );
        if at == self.current {
            row(
                colored_text(Figures::Pointer.glyph_in(self.figures), Color::Cyan),
                mark,
                bold_text(self.labels[at], Some(Color::Cyan)),
            )
        } else {
            row(plain_text(" "@), mark, plain_text(self.labels[at]))
        }
    }

    /// The frame that shows the prompt on a terminal of the given height.
    ///
    /// The first frame hides the caret; every other first goes back over
    /// the rows that the frame before it drew and clears them. Then come
    /// the header and, while the prompt goes on, the rows of the visible
    /// window. After an answer the chosen label follows the header. The
    /// last frame of a prompt ends the line and shows the caret again.
    pub open spec fn frame(self, terminal_rows: int) -> Seq<CommandView> {
        let state = self.state.after_render();
        let before = erase(self.state, self.drawn, seq![CommandView::Hide]);
        let list = if state.done() {
            Seq::empty()
        } else {
            rows(
                |at: int| self.row_at(at, terminal_rows),
                self.start(terminal_rows),
                self.end(terminal_rows),
            )
        };
        let answer = if state == PromptState::Success {
            summary(state, self.labels[self.current], self.figures)
        } else {
            Seq::empty()
        };
        let end = if state.done() {
            closing() + seq![CommandView::Show]
        } else {
            Seq::empty()
        };
        before + header(state, self.message, self.figures) + list + answer + end + seq![
            CommandView::Flush,
        ]
    }

    /// The prompt after a frame was drawn: a new prompt is now running, and
    /// the number of rows drawn is remembered for the next frame.
    pub open spec fn rendered(self, terminal_rows: int) -> SelectView<T> {
        SelectView {
            state: self.state.after_render(),
            drawn: self.list_rows(terminal_rows),
            ..self
        }
    }

    /// The answer of the prompt: the highlighted choice once the user has
    /// chosen, nothing before that or after an abort.
    pub open spec fn answer(self) -> Option<T> {
        if self.state == PromptState::Success {
            Some(self.choices[self.current])
        } else {
            None
        }
    }
}

/// Interactive prompt where the user chooses from a list of options
///
/// Shows a list of options. Up and down (or `k` and `j`) move the
/// highlight, enter submits the highlighted option.
pub struct SelectPrompt<T> {
    message: String,
    state: PromptState,
    figures: FigureSet,
    choices: Vec<T>,
    labels: Vec<Vec<char>>,
    current: usize,
    limit: usize,
    drawn: u16,
}

impl<T> View for SelectPrompt<T> {
    type V = SelectView<T>;

    closed spec fn view(&self) -> SelectView<T> {
        SelectView {
            message: self.message@,
            state: self.state,
            figures: self.figures,
            choices: self.choices@,
            labels: label_views(self.labels@),
            current: self.current as int,
            limit: self.limit as int,
            drawn: self.drawn as int,
        }
    }
}

impl<T: core::fmt::Display> SelectPrompt<T> {
    /// Returns a SelectPrompt ready to be run
    ///
    /// # Arguments
    ///
    /// * `message` - The message to display to the user before the prompt
    /// * `choices` - A vector of options that the user can choose from
    pub fn new(message: &str, choices: Vec<T>) -> (prompt: SelectPrompt<T>)
        ensures
            prompt@.wf(),
            prompt@.message == message@,
            prompt@.state == PromptState::Created,
            prompt@.figures == FigureSet::Standard,
            prompt@.choices == choices@,
            prompt@.current == 0,
            prompt@.limit == 10,
            prompt@.drawn == 0,
            forall|i: int|
                0 <= i < choices.len() ==> is_label_of(&choices[i], #[trigger] prompt@.labels[i]),
    {
        let labels = labels_of(&choices);
        SelectPrompt {
            message: message.to_owned(),
            state: PromptState::Created,
            figures: FigureSet::Standard,
            choices,
            labels,
            current: 0,
            limit: 10,
            drawn: 0,
        }
    }
}

impl<T> SelectPrompt<T> {
    /// Sets the table that the figures of the frames are taken from.
    pub fn with_figures(self, figures: FigureSet) -> (prompt: SelectPrompt<T>)
        requires
            self@.wf(),
        ensures
            prompt@ == (SelectView { figures, ..self@ }),
            prompt@.wf(),
    {
        let mut prompt = self;
        prompt.figures = figures;
        prompt
    }

    /// Sets the most rows that the list may take.
    pub fn with_limit(self, limit: usize) -> (prompt: SelectPrompt<T>)
        requires
            self@.wf(),
        ensures
            prompt@ == (SelectView { limit: limit as int, ..self@ }),
            prompt@.wf(),
    {
        let mut prompt = self;
        prompt.limit = limit;
        prompt
    }

    /// The message shown to the user.
    pub fn message(&self) -> (message: &String)
        ensures
            message@ == self@.message,
    {
        &self.message
    }

    /// The choices, in the order in which they were given.
    pub fn choices(&self) -> (choices: &Vec<T>)
        ensures
            choices@ == self@.choices,
    {
        &self.choices
    }

    /// Where the prompt is in its life.
    pub fn state(&self) -> (state: PromptState)
        ensures
            state == self@.state,
    {
        self.state
    }

    /// The position of the highlighted choice.
    pub fn current(&self) -> (current: usize)
        ensures
            current == self@.current,
    {
        self.current
    }

    /// The answer: the highlighted choice once the user has chosen, nothing
    /// before that or after an abort.
    pub fn answer(&self) -> (answer: Option<&T>)
        requires
            self@.wf(),
        ensures
            answer == match self@.answer() {
                Some(choice) => Some(&choice),
                None => None,
            },
    {
        match self.state {
            PromptState::Success => Some(&self.choices[self.current]),
            _ => None,
        }
    }

    /// Takes one key press.
    pub fn handle_key_event(&mut self, event: KeyEvent)
        requires
            old(self)@.wf(),
        ensures
            final(self)@ == old(self)@.after_key(event),
            final(self)@.wf(),
            old(self)@.state.done() ==> final(self)@ == old(self)@,
            is_abort(event) && !old(self)@.state.done() ==> final(self)@.state
                == PromptState::Aborted,
            is_abort(event) && !old(self)@.state.done() ==> final(self)@.answer().is_none(),
    {
        if self.state.is_done() {
            return ;
        }
        if is_abort_event(event) {
            self.state = PromptState::Aborted;
            return ;
        }
        if event.modifiers.is_empty() {
            let last: usize = if self.choices.len() > 0 { self.choices.len() - 1 } else { 0 };
            match event.code {
                KeyCode::Enter => {
                    if self.choices.len() > 0 {
                        self.state = PromptState::Success;
                    }
                },
                KeyCode::Home => {
                    self.current = 0;
                },
                KeyCode::End => {
                    self.current = last;
                },
                KeyCode::Up | KeyCode::Char('k') => {
                    if self.current > 0 {
                        self.current = self.current - 1;
                    }
                },
                KeyCode::Down | KeyCode::Char('j') => {
                    if self.current < last {
                        self.current = self.current + 1;
                    } else {
                        self.current = last;
                    }
                },
                _ => {},
            }
        }
    }

    /// Draws the prompt for a terminal of the given height: returns the
    /// frame and remembers what the next frame has to erase.
    pub fn display(&mut self, terminal_rows: u16) -> (frame: Vec<Command>)
        requires
            old(self)@.wf(),
        ensures
            frame_view(frame@) == old(self)@.frame(terminal_rows as int),
            final(self)@ == old(self)@.rendered(terminal_rows as int),
            final(self)@.wf(),
    {
        let ghost view = self@;
        let ghost height = terminal_rows as int;
        let ghost row_of = |at: int| view.row_at(at, height);
        let mut frame: Vec<Command> = Vec::new();
        let total = self.choices.len();
        let (start, end) = calc_entries(
            self.current,
            total,
            visible_rows(self.limit, terminal_rows),
        );
        if self.state == PromptState::Created {
            emit(&mut frame, Command::Hide);
            self.state = PromptState::Running;
        } else {
            emit_erase(&mut frame, self.drawn);
        }
        assert(frame_view(frame@) =~= erase(view.state, view.drawn, seq![CommandView::Hide]));
        emit_header(&mut frame, &self.state, &self.message, self.figures);
        let ghost base = frame_view(frame@);
        let done = self.state.is_done();
        if !done {
            let mut at: usize = start;
            while at < end
                invariant
                    start <= at <= end <= total,
                    total == self.choices.len(),
                    self@ == (SelectView { state: view.state.after_render(), ..view }),
                    view.wf(),
                    start == view.start(height),
                    end == view.end(height),
                    row_of == |at: int| view.row_at(at, height),
                    frame_view(frame@) == base + rows(row_of, start as int, at as int),
                decreases end - at,
            {
                let ghost before = frame_view(frame@);
                let mark = boundary_mark(at, start, end, total, self.figures);
                let label = string_of(&self.labels[at]);
                if at == self.current {
                    emit_row(
                        &mut frame,
                        Styled::colored(
                            Figures::Pointer.as_str_in(self.figures).to_owned(),
                            Color::Cyan,
                        ),
                        mark,
                        Styled::bold(label, Some(Color::Cyan)),
                    );
                } else {
                    emit_row(&mut frame, Styled::plain(" ".to_owned()), mark, Styled::plain(label));
                }
                assert(frame_view(frame@) == before + row_of(at as int));
                at = at + 1;
                assert(frame_view(frame@) =~= base + rows(row_of, start as int, at as int));
            }
            self.drawn = (end - start) as u16;
        } else {
            self.drawn = 0;
        }
        if self.state == PromptState::Success {
            emit_summary(&mut frame, &self.state, &self.labels[self.current], self.figures);
        }
        if done {
            emit_text(&mut frame, "\n\r");
            emit(&mut frame, Command::Show);
        }
        emit(&mut frame, Command::Flush);
        assert(frame_view(frame@) =~= view.frame(height));
        frame
    }

    /// Takes one event and draws the prompt anew: one turn of the loop that
    /// runs a prompt. The prompt has ended when its state says so after
    /// the turn; the frame returned is then its last.
    pub fn advance(&mut self, event: Event, terminal_rows: u16) -> (frame: Vec<Command>)
        requires
            old(self)@.wf(),
        ensures
            frame_view(frame@) == old(self)@.after_event(event).frame(terminal_rows as int),
            final(self)@ == old(self)@.after_event(event).rendered(terminal_rows as int),
            final(self)@.wf(),
    {
        match event {
            Event::Key(key) => self.handle_key_event(key),
            _ => {},
        }
        self.display(terminal_rows)
    }
}

/// A frame erases what the frame before it drew: after any frame and any
/// event, the next frame starts by going up over as many rows as the
/// list took in the frame before, back to the first column, and by
/// clearing from there on.
pub proof fn lemma_redraw_erases_last_frame<T>(
    prompt: SelectView<T>,
    event: Event,
    rows_before: int,
    rows_now: int,
)
    requires
        prompt.wf(),
        0 <= rows_before <= u16::MAX,
    ensures
        prompt.rendered(rows_before).after_event(event).frame(rows_now).take(3) == seq![
            CommandView::MoveUp(prompt.list_rows(rows_before) as u16),
            CommandView::MoveToColumn(0),
            CommandView::ClearFromCursorDown,
        ],
        0 <= prompt.list_rows(rows_before) < 0x10000,
{
    let next = prompt.rendered(rows_before).after_event(event);
    assert(next.state != PromptState::Created);
    assert(next.drawn == prompt.list_rows(rows_before));
    assert(next.frame(rows_now).take(3) =~= erase(next.state, next.drawn, Seq::empty()));
}

} // verus!
