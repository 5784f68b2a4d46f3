//! Interactive prompt that accepts text input

use crate::chars::{repeat_char, string_of};
use crate::draw::{
    emit, emit_text, frame_view, italic_text, line_break, Color, Command, CommandView, Styled,
};
use crate::event::{Event, KeyCode, KeyEvent};
use crate::figures::{FigureSet, Figures};
use crate::input::{InputBuffer, Line};
use crate::render::{
    closing, column_of, emit_erase_line, emit_header, erase_line, header, input_column,
};
use crate::utils::{input_icon, is_abort, is_abort_event, print_input_icon_in, PromptState};
use vstd::prelude::*;
use vstd::string::*;

verus! {

/// How the typed text is echoed.
#[derive(Debug, Clone, Copy, PartialEq, Eq)]
pub enum Style {
    /// As it was typed.
    Normal,
    /// One asterisk for each character.
    Password,
    /// Not at all.
    Invisible,
}

impl Style {
    /// What is echoed of a text.
    pub open spec fn echo(self, text: Seq<char>) -> Seq<char> {
        match self {
            Style::Normal => text,
            Style::Password => Seq::new(text.len(), |i: int| '*'),
            Style::Invisible => Seq::empty(),
        }
    }

    /// The number of columns that the caret moves for one character.
    pub open spec fn columns(self) -> int {
        match self {
            Style::Normal => 1,
            Style::Password => 1,
            Style::Invisible => 0,
        }
    }

    /// What is echoed of the input.
    pub fn transform(&self, input: &Vec<char>) -> (shown: String)
        ensures
            shown@ == self.echo(input@),
    {
        match self {
            Style::Normal => string_of(input),
            Style::Password => repeat_char('*', input.len()),
            Style::Invisible => String::new(),
        }
    }

    /// The number of columns that the caret moves for one character.
    pub fn cursor_mult(&self) -> (n: usize)
        ensures
            n == self.columns(),
    {
        match self {
            Style::Normal => 1,
            Style::Password => 1,
            Style::Invisible => 0,
        }
    }
}

impl Default for Style {
    fn default() -> (style: Style)
        ensures
            style == Style::Normal,
    {
        Style::Normal
    }
}

/// A check of the input: `Ok` if it can stand, else what to tell the user.
trait Validate: Send {
    /// The check may say this of the input.
    spec fn may_say(&self, input: Seq<char>, verdict: Result<(), Seq<char>>) -> bool;

    /// Checks the input.
    fn validate(&self, input: &str) -> (verdict: Result<(), String>)
        ensures
            self.may_say(input@, verdict_view(verdict)),
    ;
}

/// A function taken as a check of the input.
struct FnValidator<F: Fn(&str) -> Result<(), String> + Send> {
    check: F,
}

impl<F: Fn(&str) -> Result<(), String> + Send> FnValidator<F> {
    #[verifier::type_invariant]
    spec fn takes_any_input(self) -> bool {
        forall|input: &str| call_requires(self.check, (input,))
    }

    /// Takes a function that can be called on every input.
    fn new(check: F) -> (validator: Self)
        requires
            forall|input: &str| call_requires(check, (input,)),
        ensures
            validator.check == check,
    {
        FnValidator { check }
    }
}

impl<F: Fn(&str) -> Result<(), String> + Send> Validate for FnValidator<F> {
    spec fn may_say(&self, input: Seq<char>, verdict: Result<(), Seq<char>>) -> bool {
        may_return(self.check, input, verdict)
    }

    fn validate(&self, input: &str) -> (verdict: Result<(), String>) {
        proof {
            use_type_invariant(self);
        }
        let verdict = (self.check)(input);
        assert(call_ensures(self.check, (input,), verdict));
        verdict
    }
}

/// The function may return this verdict when it is called on this input.
pub open spec fn may_return<F: Fn(&str) -> Result<(), String>>(
    check: F,
    input: Seq<char>,
    verdict: Result<(), Seq<char>>,
) -> bool {
    exists|text: &str, said: Result<(), String>|
        text@ == input && verdict_view(said) == verdict && call_ensures(check, (text,), said)
}

/// What a check has said of the input, with its message as characters.
pub open spec fn verdict_view(verdict: Result<(), String>) -> Result<(), Seq<char>> {
    match verdict {
        Ok(_) => Ok(()),
        Err(message) => Err(message@),
    }
}

/// What a `TextPrompt` holds, as plain mathematical values.
pub struct TextView {
    /// The message shown before the input.
    pub message: Seq<char>,
    /// Where the prompt is in its life.
    pub state: PromptState,
    /// The table that the figures of the frames are taken from.
    pub figures: FigureSet,
    /// What the user has typed.
    pub input: Line,
    /// How the typed text is echoed.
    pub style: Style,
    /// What the validator may say of an input, if the prompt has one.
    pub validator: Option<spec_fn(Seq<char>, Result<(), Seq<char>>) -> bool>,
    /// What the last check had against the input, until the input changes.
    pub error: Option<Seq<char>>,
}

impl TextView {
    /// The check of the prompt may say this of the input. A prompt without
    /// a validator accepts every input.
    pub open spec fn may_say(self, input: Seq<char>, verdict: Result<(), Seq<char>>) -> bool {
        match self.validator {
            Some(says) => says(input, verdict),
            None => verdict.is_ok(),
        }
    }

    /// The caret lies in the text or right behind it.
    pub open spec fn wf(self) -> bool {
        self.input.wf()
    }

    /// The prompt with another text typed in. A change of the text takes
    /// the message of the last check away.
    pub open spec fn with_input(self, input: Line) -> TextView {
        TextView {
            input,
            error: if input.text == self.input.text { self.error } else { None },
            ..self
        }
    }

    /// The prompt after a key press. Once the prompt has ended no key
    /// changes it. Until then an abort key aborts it, whatever else the key
    /// may mean, and of the other keys only unmodified ones count: enter
    /// hands the input over to be checked; left, right, home and end move
    /// the caret; backspace and the characters edit what is typed.
    pub open spec fn after_key(self, event: KeyEvent) -> TextView {
        if self.state.done() {
            self
        } else if is_abort(event) {
            TextView { state: PromptState::Aborted, ..self }
        } else {
            match event.plain_code() {
                Some(KeyCode::Enter) => TextView { state: PromptState::Validate, ..self },
                Some(KeyCode::Backspace) => self.with_input(self.input.erased()),
                Some(KeyCode::Left) => self.with_input(self.input.moved_left()),
                Some(KeyCode::Right) => self.with_input(self.input.moved_right()),
                Some(KeyCode::Home) => self.with_input(self.input.at_home()),
                Some(KeyCode::End) => self.with_input(self.input.at_end()),
                Some(KeyCode::Char(c)) => self.with_input(self.input.inserted(c)),
                _ => self,
            }
        }
    }

    /// The prompt after an event: a key press is taken as such, and nothing
    /// else changes the prompt.
    pub open spec fn after_event(self, event: Event) -> TextView {
        match event {
            Event::Key(key) => self.after_key(key),
            _ => self,
        }
    }

    /// The prompt after a check of its input has come back. An input that
    /// is accepted is the answer. One that is rejected sends the prompt
    /// back to running, with the message of the check held for display.
    /// A prompt that does not wait for a check stays as it is.
    pub open spec fn resolved(self, verdict: Result<(), Seq<char>>) -> TextView {
        if self.state == PromptState::Validate {
            match verdict {
                Ok(_) => TextView { state: PromptState::Success, error: None, ..self },
                Err(message) => TextView {
                    state: PromptState::Running,
                    error: Some(message),
                    ..self
                },
            }
        } else {
            self
        }
    }

    /// The verdict is one that the check of the prompt may give on the
    /// input as it stands. Of a prompt that does not wait for a check this
    /// says nothing.
    pub open spec fn checked_by(self, verdict: Result<(), Seq<char>>) -> bool {
        self.state == PromptState::Validate ==> self.may_say(self.input.text, verdict)
    }

    /// The column of the caret in the echo of the input.
    pub open spec fn column(self) -> u16 {
        input_column(6, self.message, self.input.cursor * self.style.columns())
    }

    /// What a frame shows behind the header while the prompt goes on: the
    /// echo of the input, then the caret put where typing goes on. If a
    /// check has rejected the input, its message stands on the next line.
    pub open spec fn body(self) -> Seq<CommandView> {
        let echo = seq![CommandView::Print(self.style.echo(self.input.text))];
        match self.error {
            None => echo + seq![CommandView::MoveToColumn(self.column())],
            Some(message) => echo + seq![
                CommandView::Print(
                    line_break() + Figures::PointerSmall.glyph_in(self.figures) + " "@,
                ),
                CommandView::PrintStyled(italic_text(message, Color::Red)),
                CommandView::MoveToPreviousLine(1),
                CommandView::MoveToColumn(self.column()),
            ],
        }
    }

    /// The frame that shows the prompt.
    ///
    /// Every frame but the first clears the line and what follows it. Then
    /// come the header and the input icon, and the input while the prompt
    /// goes on. The last frame of a prompt ends the line.
    pub open spec fn frame(self) -> Seq<CommandView> {
        let state = self.state.after_render();
        let icon = seq![
            CommandView::Print(" "@),
            CommandView::PrintStyled(input_icon(state, self.figures)),
        ];
        let rest = if state.done() {
            closing()
        } else {
            self.body()
        };
        erase_line(self.state) + header(state, self.message, self.figures) + icon + rest + seq![
            CommandView::Flush,
        ]
    }

    /// The prompt after a frame was drawn: a new prompt is now running.
    pub open spec fn rendered(self) -> TextView {
        TextView { state: self.state.after_render(), ..self }
    }

    /// The answer of the prompt: the text once it was accepted, nothing
    /// before that or after an abort.
    pub open spec fn answer(self) -> Option<Seq<char>> {
        if self.state == PromptState::Success {
            Some(self.input.text)
        } else {
            None
        }
    }
}

/// Interactive prompt that accepts text input
pub struct TextPrompt {
    message: String,
    state: PromptState,
    figures: FigureSet,
    input: InputBuffer,
    style: Style,
    validator: Option<Box<dyn Validate>>,
    error: Option<String>,
}

impl View for TextPrompt {
    type V = TextView;

    closed spec fn view(&self) -> TextView {
        TextView {
            message: self.message@,
            state: self.state,
            figures: self.figures,
            input: self.input@,
            style: self.style,
            validator: match self.validator {
                Some(validator) => Some(
                    |input: Seq<char>, verdict: Result<(), Seq<char>>|
                        validator.may_say(input, verdict),
                ),
                None => None,
            },
            error: match self.error {
                Some(message) => Some(message@),
                None => None,
            },
        }
    }
}

impl Default for TextPrompt {
    /// A prompt with an empty message.
    fn default() -> (prompt: TextPrompt)
        ensures
            prompt@ == (TextView {
                message: ""@,
                state: PromptState::Created,
                figures: FigureSet::Standard,
                input: Line::empty(),
                style: Style::Normal,
                validator: None,
                error: None,
            }),
            prompt@.wf(),
    {
        TextPrompt::new("")
    }
}

impl TextPrompt {
    /// Returns a TextPrompt ready to be run
    ///
    /// # Arguments
    ///
    /// * `message` - The message to display to the user before the prompt
    pub fn new(message: &str) -> (prompt: TextPrompt)
        ensures
            prompt@ == (TextView {
                message: message@,
                state: PromptState::Created,
                figures: FigureSet::Standard,
                input: Line::empty(),
                style: Style::Normal,
                validator: None,
                error: None,
            }),
            prompt@.wf(),
    {
        TextPrompt {
            message: message.to_owned(),
            state: PromptState::Created,
            figures: FigureSet::Standard,
            input: InputBuffer::new(),
            style: Style::Normal,
            validator: None,
            error: None,
        }
    }

    /// Sets the table that the figures of the frames are taken from.
    pub fn with_figures(self, figures: FigureSet) -> (prompt: TextPrompt)
        ensures
            prompt@ == (TextView { figures, ..self@ }),
            self@.wf() ==> prompt@.wf(),
    {
        let mut prompt = self;
        prompt.figures = figures;
        prompt
    }

    /// Mask typed letters with a given style (currently only invisible or password)
    ///
    /// # Arguments
    ///
    /// * `style` - The style to use
    pub fn with_style(self, style: Style) -> (prompt: TextPrompt)
        ensures
            prompt@ == (TextView { style, ..self@ }),
            self@.wf() ==> prompt@.wf(),
    {
        let mut prompt = self;
        prompt.style = style;
        prompt
    }

    /// Provide a custom validation function
    ///
    /// # Arguments
    ///
    /// * `validator` - Validation function that accepts a string, and returns
    ///     Ok if valid, or a string error to show if invalid.
    pub fn with_validator<F: Fn(&str) -> Result<(), String> + Send + 'static>(
        self,
        validator: F,
    ) -> (prompt: TextPrompt)
        requires
            forall|input: &str| call_requires(validator, (input,)),
        ensures
            prompt@ == (TextView { validator: prompt@.validator, ..self@ }),
            prompt@.validator.is_some(),
            forall|input: Seq<char>, verdict: Result<(), Seq<char>>|
                prompt@.may_say(input, verdict) == may_return(validator, input, verdict),
    {
        let mut prompt = self;
        prompt.validator = Some(Box::new(FnValidator::new(validator)));
        prompt
    }

    /// The message shown to the user.
    pub fn message(&self) -> (message: &String)
        ensures
            message@ == self@.message,
    {
        &self.message
    }

    /// How the typed text is echoed.
    pub fn style(&self) -> (style: Style)
        ensures
            style == self@.style,
    {
        self.style
    }

    /// Whether the input is checked before it is accepted.
    pub fn has_validator(&self) -> (b: bool)
        ensures
            b == self@.validator.is_some(),
    {
        self.validator.is_some()
    }

    /// Where the prompt is in its life.
    pub fn state(&self) -> (state: PromptState)
        ensures
            state == self@.state,
    {
        self.state
    }

    /// The text typed so far.
    pub fn input(&self) -> (text: String)
        ensures
            text@ == self@.input.text,
    {
        self.input.text()
    }

    /// What the last check had against the input, if it still holds.
    pub fn error(&self) -> (error: Option<String>)
        ensures
            error.is_some() == self@.error.is_some(),
            error matches Some(message) ==> self@.error == Some(message@),
    {
        match &self.error {
            Some(message) => Some(message.clone()),
            None => None,
        }
    }

    /// The answer: the text once it was accepted, nothing before that or
    /// after an abort.
    pub fn answer(&self) -> (answer: Option<String>)
        ensures
            answer.is_some() == self@.answer().is_some(),
            answer matches Some(text) ==> self@.answer() == Some(text@),
    {
        match self.state {
            PromptState::Success => Some(self.input.text()),
            _ => None,
        }
    }

    /// Takes one key press.
    pub fn handle_key_event(&mut self, event: KeyEvent)
        requires
            old(self)@.wf(),
        ensures
            final(self)@ == old(self)@.after_key(event),
            final(self)@.wf(),
            old(self)@.state.done() ==> final(self)@ == old(self)@,
            is_abort(event) && !old(self)@.state.done() ==> final(self)@.state
                == PromptState::Aborted,
            is_abort(event) && !old(self)@.state.done() ==> final(self)@.answer().is_none(),
    {
        if self.state.is_done() {
            return ;
        }
        if is_abort_event(event) {
            self.state = PromptState::Aborted;
            return ;
        }
        if event.modifiers.is_empty() {
            match event.code {
                KeyCode::Enter => {
                    self.state = PromptState::Validate;
                },
                KeyCode::Backspace => {
                    if self.input.cursor() > 0 {
                        self.error = None;
                    }
                    self.input.backspace();
                    proof {
                        let before = old(self)@.input;
                        if before.cursor > 0 {
                            assert(before.erased().text.len() != before.text.len());
                        }
                    }
                },
                KeyCode::Left => {
                    self.input.left();
                },
                KeyCode::Right => {
                    self.input.right();
                },
                KeyCode::Home => {
                    self.input.home();
                },
                KeyCode::End => {
                    self.input.end();
                },
                KeyCode::Char(c) => {
                    self.input.insert(c);
                    self.error = None;
                    proof {
                        let before = old(self)@.input;
                        assert(before.inserted(c).text.len() != before.text.len());
                    }
                },
                _ => {},
            }
        }
    }

    /// Takes what a check has said of the input.
    pub fn resolve(&mut self, verdict: Result<(), String>)
        ensures
            final(self)@ == old(self)@.resolved(verdict_view(verdict)),
    {
        if self.state == PromptState::Validate {
            match verdict {
                Ok(_) => {
                    self.state = PromptState::Success;
                    self.error = None;
                },
                Err(message) => {
                    self.error = Some(message);
                    self.state = PromptState::Running;
                },
            }
        }
    }

    /// Has the input checked, if the prompt waits for that. Without a
    /// validator every input is accepted. With one, the prompt takes what
    /// the validator says of the input.
    pub fn validate(&mut self)
        ensures
            old(self)@.state != PromptState::Validate ==> final(self)@ == old(self)@,
            old(self)@.validator.is_none() ==> final(self)@ == old(self)@.resolved(Ok(())),
            exists|verdict: Result<(), Seq<char>>|
                old(self)@.checked_by(verdict) && final(self)@ == old(self)@.resolved(verdict),
    {
        if self.state == PromptState::Validate {
            let verdict = match &self.validator {
                Some(validator) => {
                    let text = self.input.text();
                    validator.validate(text.as_str())
                },
                None => Ok(()),
            };
            self.resolve(verdict);
            assert(self@ == old(self)@.resolved(verdict_view(verdict)));
        } else {
            assert(self@ == old(self)@.resolved(Ok(())));
        }
    }

    /// Draws the prompt: returns the frame, and starts the prompt if this
    /// is its first frame.
    pub fn display(&mut self) -> (frame: Vec<Command>)
        ensures
            frame_view(frame@) == old(self)@.frame(),
            final(self)@ == old(self)@.rendered(),
    {
        let ghost view = self@;
        let mut frame: Vec<Command> = Vec::new();
        if self.state == PromptState::Created {
            self.state = PromptState::Running;
        } else {
            emit_erase_line(&mut frame);
        }
        assert(frame_view(frame@) =~= erase_line(view.state));
        emit_header(&mut frame, &self.state, &self.message, self.figures);
        emit_text(&mut frame, " ");
        emit(&mut frame, Command::PrintStyled(print_input_icon_in(&self.state, self.figures)));
        if !self.state.is_done() {
            let offset: usize = if self.style.cursor_mult() == 0 { 0 } else { self.input.cursor() };
            let column = column_of(6, &self.message, offset);
            emit(&mut frame, Command::Print(self.style.transform(self.input.chars())));
            match &self.error {
                None => {
                    emit(&mut frame, Command::MoveToColumn(column));
                },
                Some(message) => {
                    let mut lead = "\n\r".to_owned();
                    lead.append(Figures::PointerSmall.as_str_in(self.figures));
                    lead.append(" ");
                    emit(&mut frame, Command::Print(lead));
                    emit(
                        &mut frame,
                        Command::PrintStyled(Styled::italic(message.clone(), Color::Red)),
                    );
                    emit(&mut frame, Command::MoveToPreviousLine(1));
                    emit(&mut frame, Command::MoveToColumn(column));
                },
            }
        } else {
            emit_text(&mut frame, "\n\r");
        }
        emit(&mut frame, Command::Flush);
        assert(frame_view(frame@) =~= view.frame());
        frame
    }

    /// Takes one event, has the input checked if the event asked for that,
    /// and draws the prompt anew: one turn of the loop that runs a prompt.
    /// The prompt has ended when its state says so after the turn; the
    /// frame returned is then its last.
    pub fn advance(&mut self, event: Event) -> (frame: Vec<Command>)
        requires
            old(self)@.wf(),
        ensures
            exists|verdict: Result<(), Seq<char>>|
                {
                    &&& old(self)@.after_event(event).checked_by(verdict)
                    &&& frame_view(frame@) == old(self)@.after_event(event).resolved(
                        verdict,
                    ).frame()
                    &&& final(self)@ == old(self)@.after_event(event).resolved(verdict).rendered()
                },
            final(self)@.wf(),
    {
        match event {
            Event::Key(key) => self.handle_key_event(key),
            _ => {},
        }
        let ghost taken = self@;
        self.validate();
        let ghost settled = self@;
        let frame = self.display();
        proof {
            let verdict = choose|verdict: Result<(), Seq<char>>|
                taken.checked_by(verdict) && settled == taken.resolved(verdict);
            assert(taken.checked_by(verdict) && settled == taken.resolved(verdict));
        }
        frame
    }
}

} // verus!
