//! Interactive prompt where the user chooses from a filterable list of options

use crate::chars::{is_label_of, labels_of, string_of};
use crate::draw::{
    bold_text, colored_text, emit, emit_text, frame_view, plain_text, Color, Command,
    CommandView, Styled,
};
use crate::event::{Event, KeyCode, KeyEvent};
use crate::figures::{FigureSet, Figures};
use crate::filter::{filter_positions, filtered, label_views, positions, FilterPolicy};
use crate::input::{InputBuffer, Line};
use crate::render::{
    back_to_input, boundary, boundary_mark, clamp, clamped, closing, column_of, emit_back_to_input,
    emit_erase, emit_header, emit_input_echo, emit_placeholder, emit_row, emit_summary, erase,
    header, input_column, input_echo, placeholder, row, rows, summary, visible_limit,
    visible_rows,
};
use crate::utils::{
    calc_entries, is_abort, is_abort_event, window_end, window_start, PromptState,
};
use vstd::prelude::*;

verus! {

/// What an `AutocompletePrompt` holds, as plain mathematical values.
pub struct AutocompleteView<T> {
    /// The message shown before the input.
    pub message: Seq<char>,
    /// Where the prompt is in its life.
    pub state: PromptState,
    /// The table that the figures of the frames are taken from.
    pub figures: FigureSet,
    /// The choices, in the order in which they were given.
    pub choices: Seq<T>,
    /// The label of each choice.
    pub labels: Seq<Seq<char>>,
    /// The position of the highlight among the choices that are shown.
    pub current: int,
    /// The most rows that the list may take.
    pub limit: int,
    /// The number of rows that the last frame drew below the input.
    pub drawn: int,
    /// What the user has typed.
    pub input: Line,
    /// How the typed text is held against the labels.
    pub policy: FilterPolicy,
}

impl<T> AutocompleteView<T> {
    /// The positions of the choices that are shown: those whose label
    /// matches what was typed, in the order of the list.
    pub open spec fn shown(self) -> Seq<int> {
        filtered(self.policy, self.input.text, self.labels)
    }

    /// Every choice has a label, the highlight lies on a shown choice
    /// unless none is shown, and an answer was given only if a choice is
    /// shown.
    pub open spec fn wf(self) -> bool {
        &&& self.labels.len() == self.choices.len()
        &&& self.input.wf()
        &&& 0 <= self.current
        &&& self.current == clamped(self.current, self.shown().len() as int)
        &&& 0 <= self.limit
        &&& 0 <= self.drawn < 0x10000
        &&& self.state == PromptState::Success ==> self.shown().len() > 0
    }

    /// The prompt with another text typed in, the highlight kept on a
    /// shown choice.
    pub open spec fn with_input(self, input: Line) -> AutocompleteView<T> {
        let typed = AutocompleteView { input, ..self };
        AutocompleteView { current: clamped(self.current, typed.shown().len() as int), ..typed }
    }

    /// The prompt after a key press. Once the prompt has ended no key
    /// changes it. Until then an abort key aborts it, whatever else the key
    /// may mean, and of the other keys only unmodified ones count:
    /// enter answers with the highlighted choice, if any is shown; home and
    /// end jump to the first and the last shown choice; up and down move
    /// the highlight by one and stop at either end; left, right, backspace
    /// and the characters edit what is typed.
    pub open spec fn after_key(self, event: KeyEvent) -> AutocompleteView<T> {
        let last = clamped(self.shown().len() as int, self.shown().len() as int);
        if self.state.done() {
            self
        } else if is_abort(event) {
            AutocompleteView { state: PromptState::Aborted, ..self }
        } else {
            match event.plain_code() {
                Some(KeyCode::Enter) => if self.shown().len() > 0 {
                    AutocompleteView { state: PromptState::Success, ..self }
                } else {
                    self
                },
                Some(KeyCode::Home) => AutocompleteView { current: 0, ..self },
                Some(KeyCode::End) => AutocompleteView { current: last, ..self },
                Some(KeyCode::Up) => AutocompleteView {
                    current: if self.current > 0 { self.current - 1 } else { 0 },
                    ..self
                },
                Some(KeyCode::Down) => AutocompleteView {
                    current: clamped(self.current + 1, self.shown().len() as int),
                    ..self
                },
                Some(KeyCode::Backspace) => self.with_input(self.input.erased()),
                Some(KeyCode::Left) => AutocompleteView { input: self.input.moved_left(), ..self },
                Some(KeyCode::Right) => AutocompleteView {
                    input: self.input.moved_right(),
                    ..self
                },
                Some(KeyCode::Char(c)) => self.with_input(self.input.inserted(c)),
                _ => self,
            }
        }
    }

    /// The prompt after an event: a key press is taken as such, and nothing
    /// else changes the prompt.
    pub open spec fn after_event(self, event: Event) -> AutocompleteView<T> {
        match event {
            Event::Key(key) => self.after_key(key),
            _ => self,
        }
    }

    /// Where the visible window starts on a terminal of the given height.
    pub open spec fn start(self, terminal_rows: int) -> int {
        window_start(
            self.current,
            self.shown().len() as int,
            visible_limit(self.limit, terminal_rows),
        )
    }

    /// Where the visible window ends on a terminal of the given height.
    pub open spec fn end(self, terminal_rows: int) -> int {
        window_end(
            self.current,
            self.shown().len() as int,
            visible_limit(self.limit, terminal_rows),
        )
    }

    /// The number of rows that a frame draws below the input: those of the
    /// visible window while the prompt goes on, one where the window is
    /// empty and a single row says that nothing matched, and none once the
    /// prompt has ended.
    pub open spec fn list_rows(self, terminal_rows: int) -> int {
        if self.state.done() {
            0
        } else if self.start(terminal_rows) == self.end(terminal_rows) {
            1
        } else {
            self.end(terminal_rows) - self.start(terminal_rows)
        }
    }

    /// The row of the shown choice at position `at` of the filtered view.
    pub open spec fn row_at(self, at: int, terminal_rows: int) -> Seq<CommandView> {
        let mark = boundary(
            at,
            self.start(terminal_rows),
            self.end(terminal_rows),
            self.shown().len() as int,
            self.figures,
        );
        let label = self.labels[self.shown()[at]];
        if at == self.current {
            row(
                colored_text(Figures::Pointer.glyph_in(self.figures), Color::Cyan),
                mark,
                bold_text(label, Some(Color::Cyan)),
            )
        } else {
            row(plain_text(" "@), mark, plain_text(label))
        }
    }

    /// What a frame shows while the prompt goes on: the echo of what was
    /// typed, then the rows of the visible window, or one row that says
    /// that nothing matched, then the way back to the input.
    pub open spec fn body(self, terminal_rows: int) -> Seq<CommandView> {
        let start = self.start(terminal_rows);
        let end = self.end(terminal_rows);
        let list = if start == end {
            placeholder()
        } else {
            rows(|at: int| self.row_at(at, terminal_rows), start, end)
        };
        input_echo(self.state.after_render(), self.input.text, self.figures) + list + back_to_input(
            input_column(6, self.message, self.input.cursor),
        )
    }

    /// The frame that shows the prompt on a terminal of the given height.
    ///
    /// Every frame but the first goes back over the rows that the frame
    /// before it drew and clears them. Then come the header and, while the
    /// prompt goes on, the input and the list. After an answer the chosen
    /// label follows the header. The last frame of a prompt ends the line.
    pub open spec fn frame(self, terminal_rows: int) -> Seq<CommandView> {
        let state = self.state.after_render();
        let before = erase(self.state, self.drawn, Seq::empty());
        let list = if state.done() {
            Seq::empty()
        } else {
            self.body(terminal_rows)
        };
        let answer = if state == PromptState::Success {
            summary(state, self.labels[self.shown()[self.current]], self.figures)
        } else {
            Seq::empty()
        };
        let end = if state.done() {
            closing()
        } else {
            Seq::empty()
        };
        before + header(state, self.message, self.figures) + list + answer + end + seq![
            CommandView::Flush,
        ]
    }

    /// The prompt after a frame was drawn: a new prompt is now running, and
    /// the number of rows drawn is remembered for the next frame.
    pub open spec fn rendered(self, terminal_rows: int) -> AutocompleteView<T> {
        AutocompleteView {
            state: self.state.after_render(),
            drawn: self.list_rows(terminal_rows),
            ..self
        }
    }

    /// The answer of the prompt: the highlighted choice once the user has
    /// chosen, nothing before that or after an abort.
    pub open spec fn answer(self) -> Option<T> {
        if self.state == PromptState::Success {
            Some(self.choices[self.shown()[self.current]])
        } else {
            None
        }
    }
}

/// Interactive prompt where the user chooses from a list of options
///
/// Shows a list of options. Up and down move the highlight, enter submits
/// the highlighted option, and typing narrows the list to the options that
/// start with what was typed.
pub struct AutocompletePrompt<T> {
    message: String,
    state: PromptState,
    figures: FigureSet,
    choices: Vec<T>,
    labels: Vec<Vec<char>>,
    current: usize,
    limit: usize,
    drawn: u16,
    input: InputBuffer,
    policy: FilterPolicy,
}

impl<T> View for AutocompletePrompt<T> {
    type V = AutocompleteView<T>;

    closed spec fn view(&self) -> AutocompleteView<T> {
        AutocompleteView {
            message: self.message@,
            state: self.state,
            figures: self.figures,
            choices: self.choices@,
            labels: label_views(self.labels@),
            current: self.current as int,
            limit: self.limit as int,
            drawn: self.drawn as int,
            input: self.input@,
            policy: self.policy,
        }
    }
}

impl<T: core::fmt::Display> AutocompletePrompt<T> {
    /// Returns a AutocompletePrompt ready to be run
    ///
    /// # Arguments
    ///
    /// * `message` - The message to display to the user before the prompt
    /// * `choices` - A vector of options that the user can choose from
    pub fn new(message: &str, choices: Vec<T>) -> (prompt: AutocompletePrompt<T>)
        ensures
            prompt@.wf(),
            prompt@.message == message@,
            prompt@.state == PromptState::Created,
            prompt@.figures == FigureSet::Standard,
            prompt@.choices == choices@,
            prompt@.current == 0,
            prompt@.limit == 10,
            prompt@.drawn == 0,
            prompt@.input == Line::empty(),
            prompt@.policy == FilterPolicy::Prefix,
            forall|i: int|
                0 <= i < choices.len() ==> is_label_of(&choices[i], #[trigger] prompt@.labels[i]),
    {
        let labels = labels_of(&choices);
        AutocompletePrompt {
            message: message.to_owned(),
            state: PromptState::Created,
            figures: FigureSet::Standard,
            choices,
            labels,
            current: 0,
            limit: 10,
            drawn: 0,
            input: InputBuffer::new(),
            policy: FilterPolicy::Prefix,
        }
    }
}

impl<T> AutocompletePrompt<T> {
    /// Sets the table that the figures of the frames are taken from.
    pub fn with_figures(self, figures: FigureSet) -> (prompt: AutocompletePrompt<T>)
        requires
            self@.wf(),
        ensures
            prompt@ == (AutocompleteView { figures, ..self@ }),
            prompt@.wf(),
    {
        let mut prompt = self;
        prompt.figures = figures;
        prompt
    }

    /// Sets the most rows that the list may take.
    pub fn with_limit(self, limit: usize) -> (prompt: AutocompletePrompt<T>)
        requires
            self@.wf(),
        ensures
            prompt@ == (AutocompleteView { limit: limit as int, ..self@ }),
            prompt@.wf(),
    {
        let mut prompt = self;
        prompt.limit = limit;
        prompt
    }

    /// The message shown to the user.
    pub fn message(&self) -> (message: &String)
        ensures
            message@ == self@.message,
    {
        &self.message
    }

    /// The choices, in the order in which they were given.
    pub fn choices(&self) -> (choices: &Vec<T>)
        ensures
            choices@ == self@.choices,
    {
        &self.choices
    }

    /// Where the prompt is in its life.
    pub fn state(&self) -> (state: PromptState)
        ensures
            state == self@.state,
    {
        self.state
    }

    /// The position of the highlight among the choices that are shown.
    pub fn current(&self) -> (current: usize)
        ensures
            current == self@.current,
    {
        self.current
    }

    /// The positions of the choices that are shown, in the order of the list.
    pub fn shown(&self) -> (shown: Vec<usize>)
        requires
            self@.wf(),
        ensures
            positions(shown@) == self@.shown(),
            forall|k: int| 0 <= k < shown.len() ==> shown[k] < self@.choices.len(),
    {
        filter_positions(self.policy, self.input.chars(), &self.labels)
    }

    /// The answer: the highlighted choice once the user has chosen, nothing
    /// before that or after an abort.
    pub fn answer(&self) -> (answer: Option<&T>)
        requires
            self@.wf(),
        ensures
            answer == match self@.answer() {
                Some(choice) => Some(&choice),
                None => None,
            },
    {
        match self.state {
            PromptState::Success => {
                let shown = self.shown();
                assert(positions(shown@)[self.current as int] == shown[self.current as int]);
                Some(&self.choices[shown[self.current]])
            },
            _ => None,
        }
    }

    /// Puts the highlight back on a shown choice after the input changed.
    fn settle(&mut self, Ghost(before): Ghost<AutocompleteView<T>>)
        requires
            before.wf(),
            !before.state.done(),
            old(self)@ == (AutocompleteView { input: old(self)@.input, ..before }),
            old(self)@.input.wf(),
        ensures
            final(self)@ == before.with_input(old(self)@.input),
            final(self)@.wf(),
    {
        let shown = filter_positions(self.policy, self.input.chars(), &self.labels);
        assert(positions(shown@).len() == shown@.len());
        self.current = clamp(self.current, shown.len());
    }

    /// Takes one key press.
    pub fn handle_key_event(&mut self, event: KeyEvent)
        requires
            old(self)@.wf(),
        ensures
            final(self)@ == old(self)@.after_key(event),
            final(self)@.wf(),
            old(self)@.state.done() ==> final(self)@ == old(self)@,
            is_abort(event) && !old(self)@.state.done() ==> final(self)@.state
                == PromptState::Aborted,
            is_abort(event) && !old(self)@.state.done() ==> final(self)@.answer().is_none(),
    {
        let ghost before = self@;
        if self.state.is_done() {
            return ;
        }
        if is_abort_event(event) {
            self.state = PromptState::Aborted;
            return ;
        }
        if event.modifiers.is_empty() {
            match event.code {
                KeyCode::Enter => {
                    let shown = self.shown();
                    assert(positions(shown@).len() == shown@.len());
                    if shown.len() > 0 {
                        self.state = PromptState::Success;
                    }
                },
                KeyCode::Home => {
                    self.current = 0;
                },
                KeyCode::End => {
                    let shown = self.shown();
                    assert(positions(shown@).len() == shown@.len());
                    self.current = clamp(shown.len(), shown.len());
                },
                KeyCode::Up => {
                    if self.current > 0 {
                        self.current = self.current - 1;
                    }
                },
                KeyCode::Down => {
                    let shown = self.shown();
                    assert(positions(shown@).len() == shown@.len());
                    if self.current < shown.len() {
                        self.current = clamp(self.current + 1, shown.len());
                    }
                },
                KeyCode::Backspace => {
                    self.input.backspace();
                    self.settle(Ghost(before));
                },
                KeyCode::Left => {
                    self.input.left();
                },
                KeyCode::Right => {
                    self.input.right();
                },
                KeyCode::Char(c) => {
                    self.input.insert(c);
                    self.settle(Ghost(before));
                },
                _ => {},
            }
        }
    }

    /// Draws the prompt for a terminal of the given height: returns the
    /// frame and remembers what the next frame has to erase.
    pub fn display(&mut self, terminal_rows: u16) -> (frame: Vec<Command>)
        requires
            old(self)@.wf(),
        ensures
            frame_view(frame@) == old(self)@.frame(terminal_rows as int),
            final(self)@ == old(self)@.rendered(terminal_rows as int),
            final(self)@.wf(),
    {
        let ghost view = self@;
        let ghost height = terminal_rows as int;
        let ghost row_of = |at: int| view.row_at(at, height);
        let mut frame: Vec<Command> = Vec::new();
        let shown = self.shown();
        assert(positions(shown@).len() == shown@.len());
        let total = shown.len();
        let (start, end) = calc_entries(
            self.current,
            total,
            visible_rows(self.limit, terminal_rows),
        );
        if self.state == PromptState::Created {
            self.state = PromptState::Running;
        } else {
            emit_erase(&mut frame, self.drawn);
        }
        assert(frame_view(frame@) =~= erase(view.state, view.drawn, Seq::empty()));
        emit_header(&mut frame, &self.state, &self.message, self.figures);
        let ghost top = frame_view(frame@);
        let done = self.state.is_done();
        if !done {
            emit_input_echo(&mut frame, &self.state, self.input.chars(), self.figures);
            let ghost base = frame_view(frame@);
            if start == end {
                emit_placeholder(&mut frame);
            } else {
                let mut at: usize = start;
                while at < end
                    invariant
                        start <= at <= end <= total,
                        total == shown.len(),
                        positions(shown@) == view.shown(),
                        forall|k: int| 0 <= k < shown.len() ==> shown[k] < self.labels.len(),
                        self@ == (AutocompleteView { state: view.state.after_render(), ..view }),
                        view.wf(),
                        start == view.start(height),
                        end == view.end(height),
                        row_of == |at: int| view.row_at(at, height),
                        frame_view(frame@) == base + rows(row_of, start as int, at as int),
                    decreases end - at,
                {
                    let ghost before = frame_view(frame@);
                    let mark = boundary_mark(at, start, end, total, self.figures);
                    assert(positions(shown@)[at as int] == shown[at as int]);
                    let label = string_of(&self.labels[shown[at]]);
                    if at == self.current {
                        emit_row(
                            &mut frame,
                            Styled::colored(
                                Figures::Pointer.as_str_in(self.figures).to_owned(),
                                Color::Cyan,
                            ),
                            mark,
                            Styled::bold(label, Some(Color::Cyan)),
                        );
                    } else {
                        emit_row(
                            &mut frame,
                            Styled::plain(" ".to_owned()),
                            mark,
                            Styled::plain(label),
                        );
                    }
                    assert(frame_view(frame@) == before + row_of(at as int));
                    at = at + 1;
                    assert(frame_view(frame@) =~= base + rows(row_of, start as int, at as int));
                }
            }
            emit_back_to_input(&mut frame, column_of(6, &self.message, self.input.cursor()));
            assert(frame_view(frame@) =~= top + view.body(height));
            self.drawn = if start == end { 1 } else { (end - start) as u16 };
        } else {
            self.drawn = 0;
        }
        if self.state == PromptState::Success {
            assert(positions(shown@)[self.current as int] == shown[self.current as int]);
            emit_summary(&mut frame, &self.state, &self.labels[shown[self.current]], self.figures);
        }
        if done {
            emit_text(&mut frame, "\n\r");
        }
        emit(&mut frame, Command::Flush);
        assert(frame_view(frame@) =~= view.frame(height));
        frame
    }

    /// Takes one event and draws the prompt anew: one turn of the loop that
    /// runs a prompt. The prompt has ended when its state says so after
    /// the turn; the frame returned is then its last.
    pub fn advance(&mut self, event: Event, terminal_rows: u16) -> (frame: Vec<Command>)
        requires
            old(self)@.wf(),
        ensures
            frame_view(frame@) == old(self)@.after_event(event).frame(terminal_rows as int),
            final(self)@ == old(self)@.after_event(event).rendered(terminal_rows as int),
            final(self)@.wf(),
    {
        match event {
            Event::Key(key) => self.handle_key_event(key),
            _ => {},
        }
        self.display(terminal_rows)
    }
}

/// A frame erases what the frame before it drew: after any frame and any
/// event, the next frame starts by going up over as many rows as the frame
/// before drew below the input, be they rows of the list or the one row
/// that says that nothing matched, back to the first column, and by
/// clearing from there on.
pub proof fn lemma_redraw_erases_last_frame<T>(
    prompt: AutocompleteView<T>,
    event: Event,
    rows_before: int,
    rows_now: int,
)
    requires
        prompt.wf(),
        0 <= rows_before <= u16::MAX,
    ensures
        prompt.rendered(rows_before).after_event(event).frame(rows_now).take(3) == seq![
            CommandView::MoveUp(prompt.list_rows(rows_before) as u16),
            CommandView::MoveToColumn(0),
            CommandView::ClearFromCursorDown,
        ],
        0 <= prompt.list_rows(rows_before) < 0x10000,
{
    let next = prompt.rendered(rows_before).after_event(event);
    assert(next.state != PromptState::Created);
    assert(next.drawn == prompt.list_rows(rows_before));
    assert(next.frame(rows_now).take(3) =~= erase(next.state, next.drawn, Seq::empty()));
}

} // verus!
