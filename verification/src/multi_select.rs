//! Interactive prompt where the user can select multiple options from a list

use crate::chars::{is_label_of, labels_of, string_of};
use crate::draw::{
    bold_text, colored_text, emit, emit_text, frame_view, plain_text, Color, Command,
    CommandView, Styled,
};
use crate::event::{Event, KeyCode, KeyEvent, KeyModifiers};
use crate::figures::{FigureSet, Figures};
use crate::filter::{filter_positions, filtered, label_views, positions, FilterPolicy};
use crate::input::{InputBuffer, Line};
use crate::render::{
    back_to_input, boundary, boundary_mark, clamp, clamped, closing, column_of, emit_back_to_input,
    emit_erase, emit_header, emit_input_echo, emit_placeholder, emit_row, emit_summary, erase,
    header, input_column, input_echo, placeholder, row, rows, summary, visible_limit,
    visible_rows,
};
use crate::utils::{
    calc_entries, is_abort, is_abort_event, window_end, window_start, PromptState,
};
use vstd::prelude::*;

verus! {

/// The selection after the choice at position `at` was toggled.
pub open spec fn toggled(selected: Seq<bool>, at: int) -> Seq<bool> {
    selected.update(at, !selected[at])
}

/// Those of the first `upto` choices that are selected, in the order of
/// the list.
pub open spec fn chosen_upto<T>(choices: Seq<T>, selected: Seq<bool>, upto: int) -> Seq<T>
    decreases upto,
{
    if upto <= 0 {
        Seq::empty()
    } else {
        let before = chosen_upto(choices, selected, upto - 1);
        if selected[upto - 1] {
            before.push(choices[upto - 1])
        } else {
            before
        }
    }
}

/// The choices that are selected, in the order of the list.
pub open spec fn chosen<T>(choices: Seq<T>, selected: Seq<bool>) -> Seq<T> {
    chosen_upto(choices, selected, choices.len() as int)
}

/// The labels of those of the first `upto` choices that are selected, in
/// the order of the list, with a comma and a blank between one and the next.
pub open spec fn chosen_labels_upto(labels: Seq<Seq<char>>, selected: Seq<bool>, upto: int) -> Seq<
    char,
>
    decreases upto,
{
    if upto <= 0 {
        Seq::empty()
    } else {
        let before = chosen_labels_upto(labels, selected, upto - 1);
        if !selected[upto - 1] {
            before
        } else if chosen_upto(labels, selected, upto - 1).len() == 0 {
            labels[upto - 1]
        } else {
            before + ", "@ + labels[upto - 1]
        }
    }
}

/// What a list of references refers to.
pub open spec fn referents<T>(refs: Seq<&T>) -> Seq<T> {
    refs.map_values(|r: &T| *r)
}

/// The press of the space bar with no modifier.
pub open spec fn space() -> KeyEvent {
    KeyEvent {
        code: KeyCode::Char(' '),
        modifiers: KeyModifiers { shift: false, control: false, alt: false, other: false },
    }
}

/// What a `MultiSelectPrompt` holds, as plain mathematical values.
pub struct MultiSelectView<T> {
    /// The message shown before the input.
    pub message: Seq<char>,
    /// Where the prompt is in its life.
    pub state: PromptState,
    /// The table that the figures of the frames are taken from.
    pub figures: FigureSet,
    /// The choices, in the order in which they were given.
    pub choices: Seq<T>,
    /// The label of each choice.
    pub labels: Seq<Seq<char>>,
    /// For each choice, whether it is selected.
    pub selected: Seq<bool>,
    /// The position of the highlight among the choices that are shown.
    pub current: int,
    /// The most rows that the list may take.
    pub limit: int,
    /// The number of rows that the last frame drew below the input.
    pub drawn: int,
    /// What the user has typed.
    pub input: Line,
    /// How the typed text is held against the labels.
    pub policy: FilterPolicy,
}

impl<T> MultiSelectView<T> {
    /// The positions of the choices that are shown: those whose label
    /// matches what was typed, in the order of the list.
    pub open spec fn shown(self) -> Seq<int> {
        filtered(self.policy, self.input.text, self.labels)
    }

    /// Every choice has a label and a mark of whether it is selected, and
    /// the highlight lies on a shown choice unless none is shown.
    pub open spec fn wf(self) -> bool {
        &&& self.labels.len() == self.choices.len()
        &&& self.selected.len() == self.choices.len()
        &&& self.input.wf()
        &&& 0 <= self.current
        &&& self.current == clamped(self.current, self.shown().len() as int)
        &&& 0 <= self.limit
        &&& 0 <= self.drawn < 0x10000
    }

    /// The position of the last shown choice, or 0 if none is shown.
    pub open spec fn last(self) -> int {
        clamped(self.shown().len() as int, self.shown().len() as int)
    }

    /// The prompt with another text typed in, the highlight kept on a
    /// shown choice.
    pub open spec fn with_input(self, input: Line) -> MultiSelectView<T> {
        let typed = MultiSelectView { input, ..self };
        MultiSelectView { current: clamped(self.current, typed.shown().len() as int), ..typed }
    }

    /// The prompt with the highlighted choice toggled: selected if it was
    /// not, and not if it was. Nothing changes if no choice is shown.
    pub open spec fn with_toggle(self) -> MultiSelectView<T> {
        if self.current < self.shown().len() {
            MultiSelectView {
                selected: toggled(self.selected, self.shown()[self.current]),
                ..self
            }
        } else {
            self
        }
    }

    /// The prompt after a key press. Once the prompt has ended no key
    /// changes it. Until then an abort key aborts it, whatever else the key
    /// may mean, and of the other keys only unmodified ones count:
    /// enter submits the selection; home and end jump to the first and the
    /// last shown choice; up and down move the highlight by one and go
    /// round at either end; space toggles the highlighted choice; left,
    /// right, backspace and the other characters edit what is typed.
    pub open spec fn after_key(self, event: KeyEvent) -> MultiSelectView<T> {
        if self.state.done() {
            self
        } else if is_abort(event) {
            MultiSelectView { state: PromptState::Aborted, ..self }
        } else {
            match event.plain_code() {
                Some(KeyCode::Enter) => MultiSelectView { state: PromptState::Success, ..self },
                Some(KeyCode::Home) => MultiSelectView { current: 0, ..self },
                Some(KeyCode::End) => MultiSelectView { current: self.last(), ..self },
                Some(KeyCode::Up) => MultiSelectView {
                    current: if self.current > 0 { self.current - 1 } else { self.last() },
                    ..self
                },
                Some(KeyCode::Down) => MultiSelectView {
                    current: if self.current < self.last() { self.current + 1 } else { 0 },
                    ..self
                },
                Some(KeyCode::Backspace) => self.with_input(self.input.erased()),
                Some(KeyCode::Left) => MultiSelectView { input: self.input.moved_left(), ..self },
                Some(KeyCode::Right) => MultiSelectView {
                    input: self.input.moved_right(),
                    ..self
                },
                Some(KeyCode::Char(c)) => if c == ' ' {
                    self.with_toggle()
                } else {
                    self.with_input(self.input.inserted(c))
                },
                _ => self,
            }
        }
    }

    /// The prompt after an event: a key press is taken as such, and nothing
    /// else changes the prompt.
    pub open spec fn after_event(self, event: Event) -> MultiSelectView<T> {
        match event {
            Event::Key(key) => self.after_key(key),
            _ => self,
        }
    }

    /// Where the visible window starts on a terminal of the given height.
    pub open spec fn start(self, terminal_rows: int) -> int {
        window_start(
            self.current,
            self.shown().len() as int,
            visible_limit(self.limit, terminal_rows),
        )
    }

    /// Where the visible window ends on a terminal of the given height.
    pub open spec fn end(self, terminal_rows: int) -> int {
        window_end(
            self.current,
            self.shown().len() as int,
            visible_limit(self.limit, terminal_rows),
        )
    }

    /// The number of rows that a frame draws below the input: those of the
    /// visible window while the prompt goes on, one where the window is
    /// empty and a single row says that nothing matched, and none once the
    /// prompt has ended.
    pub open spec fn list_rows(self, terminal_rows: int) -> int {
        if self.state.done() {
            0
        } else if self.start(terminal_rows) == self.end(terminal_rows) {
            1
        } else {
            self.end(terminal_rows) - self.start(terminal_rows)
        }
    }

    /// The row of the shown choice at position `at` of the filtered view:
    /// a tick if the choice is selected, the boundary mark, and the label,
    /// bold and coloured under the highlight, bold if selected.
    pub open spec fn row_at(self, at: int, terminal_rows: int) -> Seq<CommandView> {
        let mark = boundary(
            at,
            self.start(terminal_rows),
            self.end(terminal_rows),
            self.shown().len() as int,
            self.figures,
        );
        let choice = self.shown()[at];
        let label = self.labels[choice];
        let marker = if self.selected[choice] {
            colored_text(Figures::Tick.glyph_in(self.figures), Color::Yellow)
        } else {
            plain_text(" "@)
        };
        if at == self.current {
            row(marker, mark, bold_text(label, Some(Color::Cyan)))
        } else if self.selected[choice] {
            row(marker, mark, bold_text(label, None))
        } else {
            row(marker, mark, plain_text(label))
        }
    }

    /// What a frame shows while the prompt goes on: the echo of what was
    /// typed, then the rows of the visible window, or one row that says
    /// that nothing matched, then the way back to the input.
    pub open spec fn body(self, terminal_rows: int) -> Seq<CommandView> {
        let start = self.start(terminal_rows);
        let end = self.end(terminal_rows);
        let list = if start == end {
            placeholder()
        } else {
            rows(|at: int| self.row_at(at, terminal_rows), start, end)
        };
        input_echo(self.state.after_render(), self.input.text, self.figures) + list + back_to_input(
            input_column(5, self.message, self.input.cursor),
        )
    }

    /// The frame that shows the prompt on a terminal of the given height.
    ///
    /// Every frame but the first goes back over the rows that the frame
    /// before it drew and clears them. Then come the header and, while the
    /// prompt goes on, the input and the list. After an answer the labels
    /// of the selected choices follow the header. The last frame of a
    /// prompt ends the line.
    pub open spec fn frame(self, terminal_rows: int) -> Seq<CommandView> {
        let state = self.state.after_render();
        let before = erase(self.state, self.drawn, Seq::empty());
        let list = if state.done() {
            Seq::empty()
        } else {
            self.body(terminal_rows)
        };
        let answer = if state == PromptState::Success {
            summary(state, self.chosen_labels(), self.figures)
        } else {
            Seq::empty()
        };
        let end = if state.done() {
            closing()
        } else {
            Seq::empty()
        };
        before + header(state, self.message, self.figures) + list + answer + end + seq![
            CommandView::Flush,
        ]
    }

    /// The labels of the selected choices as one text, in the order of the
    /// list, with a comma and a blank between one and the next.
    pub open spec fn chosen_labels(self) -> Seq<char> {
        chosen_labels_upto(self.labels, self.selected, self.labels.len() as int)
    }

    /// The prompt after a frame was drawn: a new prompt is now running, and
    /// the number of rows drawn is remembered for the next frame.
    pub open spec fn rendered(self, terminal_rows: int) -> MultiSelectView<T> {
        MultiSelectView {
            state: self.state.after_render(),
            drawn: self.list_rows(terminal_rows),
            ..self
        }
    }

    /// The answer of the prompt: the selected choices, in the order of the
    /// list, once the user has submitted; nothing before that or after an
    /// abort.
    pub open spec fn answer(self) -> Option<Seq<T>> {
        if self.state == PromptState::Success {
            Some(chosen(self.choices, self.selected))
        } else {
            None
        }
    }
}

/// Interactive prompt where the user can select multiple options from a list
///
/// Shows a list of options. Up and down move the highlight, space selects
/// or deselects the highlighted option, enter submits the selection, and
/// typing narrows the list to the options that contain what was typed.
pub struct MultiSelectPrompt<T> {
    message: String,
    state: PromptState,
    figures: FigureSet,
    choices: Vec<T>,
    labels: Vec<Vec<char>>,
    selected: Vec<bool>,
    current: usize,
    limit: usize,
    drawn: u16,
    input: InputBuffer,
    policy: FilterPolicy,
}

impl<T> View for MultiSelectPrompt<T> {
    type V = MultiSelectView<T>;

    closed spec fn view(&self) -> MultiSelectView<T> {
        MultiSelectView {
            message: self.message@,
            state: self.state,
            figures: self.figures,
            choices: self.choices@,
            labels: label_views(self.labels@),
            selected: self.selected@,
            current: self.current as int,
            limit: self.limit as int,
            drawn: self.drawn as int,
            input: self.input@,
            policy: self.policy,
        }
    }
}

impl<T: core::fmt::Display> MultiSelectPrompt<T> {
    /// Returns a MultiSelectPrompt ready to be run
    ///
    /// # Arguments
    ///
    /// * `message` - The message to display to the user before the prompt
    /// * `choices` - A vector of options that the user can choose from
    pub fn new(message: &str, choices: Vec<T>) -> (prompt: MultiSelectPrompt<T>)
        ensures
            prompt@.wf(),
            prompt@.message == message@,
            prompt@.state == PromptState::Created,
            prompt@.figures == FigureSet::Standard,
            prompt@.choices == choices@,
            prompt@.selected == Seq::new(choices.len() as nat, |i: int| false),
            prompt@.current == 0,
            prompt@.limit == 10,
            prompt@.drawn == 0,
            prompt@.input == Line::empty(),
            prompt@.policy == FilterPolicy::Contains,
            forall|i: int|
                0 <= i < choices.len() ==> is_label_of(&choices[i], #[trigger] prompt@.labels[i]),
    {
        let labels = labels_of(&choices);
        let mut selected: Vec<bool> = Vec::new();
        while selected.len() < choices.len()
            invariant
                selected.len() <= choices.len(),
                selected@ == Seq::new(selected.len() as nat, |i: int| false),
            decreases choices.len() - selected.len(),
        {
            selected.push(false);
            assert(selected@ =~= Seq::new(selected.len() as nat, |i: int| false));
        }
        MultiSelectPrompt {
            message: message.to_owned(),
            state: PromptState::Created,
            figures: FigureSet::Standard,
            choices,
            labels,
            selected,
            current: 0,
            limit: 10,
            drawn: 0,
            input: InputBuffer::new(),
            policy: FilterPolicy::Contains,
        }
    }
}

impl<T> MultiSelectPrompt<T> {
    /// Sets the table that the figures of the frames are taken from.
    pub fn with_figures(self, figures: FigureSet) -> (prompt: MultiSelectPrompt<T>)
        requires
            self@.wf(),
        ensures
            prompt@ == (MultiSelectView { figures, ..self@ }),
            prompt@.wf(),
    {
        let mut prompt = self;
        prompt.figures = figures;
        prompt
    }

    /// Sets the most rows that the list may take.
    pub fn with_limit(self, limit: usize) -> (prompt: MultiSelectPrompt<T>)
        requires
            self@.wf(),
        ensures
            prompt@ == (MultiSelectView { limit: limit as int, ..self@ }),
            prompt@.wf(),
    {
        let mut prompt = self;
        prompt.limit = limit;
        prompt
    }

    /// The message shown to the user.
    pub fn message(&self) -> (message: &String)
        ensures
            message@ == self@.message,
    {
        &self.message
    }

    /// The choices, in the order in which they were given.
    pub fn choices(&self) -> (choices: &Vec<T>)
        ensures
            choices@ == self@.choices,
    {
        &self.choices
    }

    /// Where the prompt is in its life.
    pub fn state(&self) -> (state: PromptState)
        ensures
            state == self@.state,
    {
        self.state
    }

    /// The position of the highlight among the choices that are shown.
    pub fn current(&self) -> (current: usize)
        ensures
            current == self@.current,
    {
        self.current
    }

    /// Whether the choice at position `at` of the list is selected.
    pub fn is_selected(&self, at: usize) -> (b: bool)
        requires
            self@.wf(),
        ensures
            b == (at < self@.selected.len() && self@.selected[at as int]),
    {
        at < self.selected.len() && self.selected[at]
    }

    /// The positions of the choices that are shown, in the order of the list.
    pub fn shown(&self) -> (shown: Vec<usize>)
        requires
            self@.wf(),
        ensures
            positions(shown@) == self@.shown(),
            forall|k: int| 0 <= k < shown.len() ==> shown[k] < self@.choices.len(),
    {
        filter_positions(self.policy, self.input.chars(), &self.labels)
    }

    /// The answer: the selected choices, in the order of the list, once
    /// the user has submitted; nothing before that or after an abort.
    pub fn answer(&self) -> (answer: Option<Vec<&T>>)
        requires
            self@.wf(),
        ensures
            answer.is_some() == self@.answer().is_some(),
            answer matches Some(picked) ==> Some(referents(picked@)) == self@.answer(),
    {
        match self.state {
            PromptState::Success => {
                let mut picked: Vec<&T> = Vec::new();
                let mut at: usize = 0;
                while at < self.choices.len()
                    invariant
                        at <= self.choices.len(),
                        self.selected.len() == self.choices.len(),
                        referents(picked@) == chosen_upto(
                            self.choices@,
                            self.selected@,
                            at as int,
                        ),
                    decreases self.choices.len() - at,
                {
                    let ghost before = picked@;
                    if self.selected[at] {
                        picked.push(&self.choices[at]);
                        assert(referents(picked@) =~= referents(before).push(
                            self.choices@[at as int],
                        ));
                    }
                    at = at + 1;
                }
                Some(picked)
            },
            _ => None,
        }
    }

    /// The labels of the selected choices as one text.
    fn chosen_labels(&self) -> (text: Vec<char>)
        requires
            self@.wf(),
        ensures
            text@ == self@.chosen_labels(),
    {
        let mut text: Vec<char> = Vec::new();
        let mut any = false;
        let mut at: usize = 0;
        while at < self.labels.len()
            invariant
                at <= self.labels.len(),
                self.selected.len() == self.labels.len(),
                any == (chosen_upto(label_views(self.labels@), self.selected@, at as int).len()
                    > 0),
                text@ == chosen_labels_upto(
                    label_views(self.labels@),
                    self.selected@,
                    at as int,
                ),
            decreases self.labels.len() - at,
        {
            if self.selected[at] {
                if any {
                    text.push(',');
                    text.push(' ');
                }
                let label = &self.labels[at];
                let ghost before = text@;
                let mut k: usize = 0;
                while k < label.len()
                    invariant
                        k <= label.len(),
                        text@ == before + label@.take(k as int),
                    decreases label.len() - k,
                {
                    text.push(label[k]);
                    k = k + 1;
                    assert(label@.take(k as int) =~= label@.take(k as int - 1).push(
                        label@[k as int - 1],
                    ));
                    assert(text@ =~= before + label@.take(k as int));
                }
                proof {
                    reveal_strlit(", ");
                    assert(label@.take(k as int) =~= label@);
                    assert(before =~= if any {
                        chosen_labels_upto(
                            label_views(self.labels@),
                            self.selected@,
                            at as int,
                        ) + ", "@
                    } else {
                        chosen_labels_upto(label_views(self.labels@), self.selected@, at as int)
                    });
                    lemma_nothing_chosen_no_labels(
                        label_views(self.labels@),
                        self.selected@,
                        at as int,
                    );
                    assert(text@ =~= chosen_labels_upto(
                        label_views(self.labels@),
                        self.selected@,
                        at + 1,
                    ));
                }
                any = true;
            }
            at = at + 1;
        }
        text
    }

    /// Puts the highlight back on a shown choice after the input changed.
    fn settle(&mut self, Ghost(before): Ghost<MultiSelectView<T>>)
        requires
            before.wf(),
            old(self)@ == (MultiSelectView { input: old(self)@.input, ..before }),
            old(self)@.input.wf(),
        ensures
            final(self)@ == before.with_input(old(self)@.input),
            final(self)@.wf(),
    {
        let shown = filter_positions(self.policy, self.input.chars(), &self.labels);
        assert(positions(shown@).len() == shown@.len());
        self.current = clamp(self.current, shown.len());
    }

    /// Takes one key press.
    pub fn handle_key_event(&mut self, event: KeyEvent)
        requires
            old(self)@.wf(),
        ensures
            final(self)@ == old(self)@.after_key(event),
            final(self)@.wf(),
            old(self)@.state.done() ==> final(self)@ == old(self)@,
            is_abort(event) && !old(self)@.state.done() ==> final(self)@.state
                == PromptState::Aborted,
            is_abort(event) && !old(self)@.state.done() ==> final(self)@.answer().is_none(),
    {
        let ghost before = self@;
        if self.state.is_done() {
            return ;
        }
        if is_abort_event(event) {
            self.state = PromptState::Aborted;
            return ;
        }
        if event.modifiers.is_empty() {
            match event.code {
                KeyCode::Enter => {
                    self.state = PromptState::Success;
                },
                KeyCode::Home => {
                    self.current = 0;
                },
                KeyCode::End => {
                    let shown = self.shown();
                    assert(positions(shown@).len() == shown@.len());
                    self.current = clamp(shown.len(), shown.len());
                },
                KeyCode::Up => {
                    if self.current > 0 {
                        self.current = self.current - 1;
                    } else {
                        let shown = self.shown();
                        assert(positions(shown@).len() == shown@.len());
                        self.current = clamp(shown.len(), shown.len());
                    }
                },
                KeyCode::Down => {
                    let shown = self.shown();
                    assert(positions(shown@).len() == shown@.len());
                    let last = clamp(shown.len(), shown.len());
                    if self.current < last {
                        self.current = self.current + 1;
                    } else {
                        self.current = 0;
                    }
                },
                KeyCode::Backspace => {
                    self.input.backspace();
                    self.settle(Ghost(before));
                },
                KeyCode::Left => {
                    self.input.left();
                },
                KeyCode::Right => {
                    self.input.right();
                },
                KeyCode::Char(c) => {
                    if c == ' ' {
                        let shown = self.shown();
                        assert(positions(shown@).len() == shown@.len());
                        if self.current < shown.len() {
                            let choice = shown[self.current];
                            assert(positions(shown@)[self.current as int] == choice);
                            let flipped = !self.selected[choice];
                            self.selected.set(choice, flipped);
                        }
                    } else {
                        self.input.insert(c);
                        self.settle(Ghost(before));
                    }
                },
                _ => {},
            }
        }
    }

    /// Draws the prompt for a terminal of the given height: returns the
    /// frame and remembers what the next frame has to erase.
    pub fn display(&mut self, terminal_rows: u16) -> (frame: Vec<Command>)
        requires
            old(self)@.wf(),
        ensures
            frame_view(frame@) == old(self)@.frame(terminal_rows as int),
            final(self)@ == old(self)@.rendered(terminal_rows as int),
            final(self)@.wf(),
    {
        let ghost view = self@;
        let ghost height = terminal_rows as int;
        let ghost row_of = |at: int| view.row_at(at, height);
        let mut frame: Vec<Command> = Vec::new();
        let shown = self.shown();
        assert(positions(shown@).len() == shown@.len());
        let total = shown.len();
        let (start, end) = calc_entries(
            self.current,
            total,
            visible_rows(self.limit, terminal_rows),
        );
        if self.state == PromptState::Created {
            self.state = PromptState::Running;
        } else {
            emit_erase(&mut frame, self.drawn);
        }
        assert(frame_view(frame@) =~= erase(view.state, view.drawn, Seq::empty()));
        emit_header(&mut frame, &self.state, &self.message, self.figures);
        let ghost top = frame_view(frame@);
        let done = self.state.is_done();
        if !done {
            emit_input_echo(&mut frame, &self.state, self.input.chars(), self.figures);
            let ghost base = frame_view(frame@);
            if start == end {
                emit_placeholder(&mut frame);
            } else {
                let mut at: usize = start;
                while at < end
                    invariant
                        start <= at <= end <= total,
                        total == shown.len(),
                        positions(shown@) == view.shown(),
                        forall|k: int| 0 <= k < shown.len() ==> shown[k] < self.labels.len(),
                        self@ == (MultiSelectView { state: view.state.after_render(), ..view }),
                        view.wf(),
                        start == view.start(height),
                        end == view.end(height),
                        row_of == |at: int| view.row_at(at, height),
                        frame_view(frame@) == base + rows(row_of, start as int, at as int),
                    decreases end - at,
                {
                    let ghost before = frame_view(frame@);
                    let mark = boundary_mark(at, start, end, total, self.figures);
                    assert(positions(shown@)[at as int] == shown[at as int]);
                    let choice = shown[at];
                    let label = string_of(&self.labels[choice]);
                    let picked = self.selected[choice];
                    let marker = if picked {
                        Styled::colored(
                            Figures::Tick.as_str_in(self.figures).to_owned(),
                            Color::Yellow,
                        )
                    } else {
                        Styled::plain(" ".to_owned())
                    };
                    let text = if at == self.current {
                        Styled::bold(label, Some(Color::Cyan))
                    } else if picked {
                        Styled::bold(label, None)
                    } else {
                        Styled::plain(label)
                    };
                    emit_row(&mut frame, marker, mark, text);
                    assert(frame_view(frame@) == before + row_of(at as int));
                    at = at + 1;
                    assert(frame_view(frame@) =~= base + rows(row_of, start as int, at as int));
                }
            }
            emit_back_to_input(&mut frame, column_of(5, &self.message, self.input.cursor()));
            assert(frame_view(frame@) =~= top + view.body(height));
            self.drawn = if start == end { 1 } else { (end - start) as u16 };
        } else {
            self.drawn = 0;
        }
        if self.state == PromptState::Success {
            let chosen = self.chosen_labels();
            emit_summary(&mut frame, &self.state, &chosen, self.figures);
        }
        if done {
            emit_text(&mut frame, "\n\r");
        }
        emit(&mut frame, Command::Flush);
        assert(frame_view(frame@) =~= view.frame(height));
        frame
    }

    /// Takes one event and draws the prompt anew: one turn of the loop that
    /// runs a prompt. The prompt has ended when its state says so after
    /// the turn; the frame returned is then its last.
    pub fn advance(&mut self, event: Event, terminal_rows: u16) -> (frame: Vec<Command>)
        requires
            old(self)@.wf(),
        ensures
            frame_view(frame@) == old(self)@.after_event(event).frame(terminal_rows as int),
            final(self)@ == old(self)@.after_event(event).rendered(terminal_rows as int),
            final(self)@.wf(),
    {
        match event {
            Event::Key(key) => self.handle_key_event(key),
            _ => {},
        }
        self.display(terminal_rows)
    }
}

/// Where none of the first `upto` choices is selected, their selected
/// labels make the empty text.
proof fn lemma_nothing_chosen_no_labels(labels: Seq<Seq<char>>, selected: Seq<bool>, upto: int)
    ensures
        chosen_upto(labels, selected, upto).len() == 0 ==> chosen_labels_upto(
            labels,
            selected,
            upto,
        ) == Seq::<char>::empty(),
    decreases upto,
{
    if upto > 0 {
        lemma_nothing_chosen_no_labels(labels, selected, upto - 1);
    }
}

/// Toggling the same choice twice leaves the selection as it was.
pub proof fn lemma_toggle_twice(selected: Seq<bool>, at: int)
    requires
        0 <= at < selected.len(),
    ensures
        toggled(toggled(selected, at), at) == selected,
{
    assert(toggled(toggled(selected, at), at) =~= selected);
}

/// Pressing space twice in a row leaves the prompt as it was: the choice
/// under the highlight is toggled and toggled back, and nothing else moves.
pub proof fn lemma_space_twice<T>(prompt: MultiSelectView<T>)
    requires
        prompt.wf(),
    ensures
        prompt.after_key(space()).after_key(space()) == prompt,
{
    if !prompt.state.done() && prompt.current < prompt.shown().len() {
        let once = prompt.after_key(space());
        assert(once.shown() == prompt.shown());
        let at = prompt.shown()[prompt.current];
        crate::filter::lemma_filtered_is_ordered_part(
            prompt.policy,
            prompt.input.text,
            prompt.labels,
            prompt.labels.len() as int,
        );
        lemma_toggle_twice(prompt.selected, at);
    }
}

/// A toggle changes the selection of one choice and of no other.
pub proof fn lemma_toggle_is_local(selected: Seq<bool>, at: int, other: int)
    requires
        0 <= at < selected.len(),
        0 <= other < selected.len(),
    ensures
        toggled(selected, at).len() == selected.len(),
        toggled(selected, at)[at] == !selected[at],
        other != at ==> toggled(selected, at)[other] == selected[other],
{
}

/// A frame erases what the frame before it drew: after any frame and any
/// event, the next frame starts by going up over as many rows as the frame
/// before drew below the input, be they rows of the list or the one row
/// that says that nothing matched, back to the first column, and by
/// clearing from there on.
pub proof fn lemma_redraw_erases_last_frame<T>(
    prompt: MultiSelectView<T>,
    event: Event,
    rows_before: int,
    rows_now: int,
)
    requires
        prompt.wf(),
        0 <= rows_before <= u16::MAX,
    ensures
        prompt.rendered(rows_before).after_event(event).frame(rows_now).take(3) == seq![
            CommandView::MoveUp(prompt.list_rows(rows_before) as u16),
            CommandView::MoveToColumn(0),
            CommandView::ClearFromCursorDown,
        ],
        0 <= prompt.list_rows(rows_before) < 0x10000,
{
    let next = prompt.rendered(rows_before).after_event(event);
    assert(next.state != PromptState::Created);
    assert(next.drawn == prompt.list_rows(rows_before));
    assert(next.frame(rows_now).take(3) =~= erase(next.state, next.drawn, Seq::empty()));
}

} // verus!
