//! Interactive prompt where the user can choose yes or no

use crate::draw::{
    colored_text, emit, emit_text, frame_view, Color, Command, CommandView, Styled,
};
use crate::event::{Event, KeyCode, KeyEvent};
use crate::figures::FigureSet;
use crate::render::{closing, emit_erase_line, emit_header, erase_line, header};
use crate::utils::{input_icon, is_abort, is_abort_event, print_input_icon_in, PromptState};
use vstd::prelude::*;

verus! {

/// What a `ConfirmPrompt` holds, as plain mathematical values.
pub struct ConfirmView {
    /// The message shown before the hint.
    pub message: Seq<char>,
    /// Where the prompt is in its life.
    pub state: PromptState,
    /// The table that the figures of the frames are taken from.
    pub figures: FigureSet,
    /// What the user answered; it counts once the prompt has succeeded.
    pub answer: bool,
    /// The answer that enter stands for, if there is one.
    pub initial: Option<bool>,
}

impl ConfirmView {
    /// The prompt after a key press. Once the prompt has ended no key
    /// changes it. Until then an abort key aborts it, and of the other keys
    /// only unmodified ones count: `y` answers yes, `n` answers no, and
    /// enter gives the initial answer if there is one.
    pub open spec fn after_key(self, event: KeyEvent) -> ConfirmView {
        if self.state.done() {
            self
        } else if is_abort(event) {
            ConfirmView { state: PromptState::Aborted, ..self }
        } else {
            match event.plain_code() {
                Some(KeyCode::Enter) => match self.initial {
                    Some(initial) => ConfirmView {
                        answer: initial,
                        state: PromptState::Success,
                        ..self
                    },
                    None => self,
                },
                Some(KeyCode::Char(c)) => if c == 'y' {
                    ConfirmView { answer: true, state: PromptState::Success, ..self }
                } else if c == 'n' {
                    ConfirmView { answer: false, state: PromptState::Success, ..self }
                } else {
                    self
                },
                _ => self,
            }
        }
    }

    /// The prompt after an event: a key press is taken as such, and nothing
    /// else changes the prompt.
    pub open spec fn after_event(self, event: Event) -> ConfirmView {
        match event {
            Event::Key(key) => self.after_key(key),
            _ => self,
        }
    }

    /// The hint on the keys to press, with the initial answer in capitals.
    pub open spec fn hint(self) -> Seq<char> {
        match self.initial {
            Some(true) => "(Y/n)"@,
            Some(false) => "(y/N)"@,
            None => "(y/n)"@,
        }
    }

    /// The frame that shows the prompt.
    ///
    /// Every frame but the first clears the line. Then come the header and
    /// the input icon, the hint while the prompt goes on, and the answer in
    /// words once it was given. The last frame ends the line and shows the
    /// caret.
    pub open spec fn frame(self) -> Seq<CommandView> {
        let state = self.state.after_render();
        let icon = seq![
            CommandView::Print(" "@),
            CommandView::PrintStyled(input_icon(state, self.figures)),
        ];
        let hint = if state.done() {
            Seq::empty()
        } else {
            seq![CommandView::PrintStyled(colored_text(self.hint(), Color::DarkGrey))]
        };
        let answer = if state == PromptState::Success {
            seq![CommandView::Print(if self.answer { "yes"@ } else { "no"@ })]
        } else {
            Seq::empty()
        };
        let end = if state.done() {
            closing() + seq![CommandView::Show]
        } else {
            Seq::empty()
        };
        erase_line(self.state) + header(state, self.message, self.figures) + icon + hint + answer
            + end + seq![CommandView::Flush]
    }

    /// The prompt after a frame was drawn: a new prompt is now running.
    pub open spec fn rendered(self) -> ConfirmView {
        ConfirmView { state: self.state.after_render(), ..self }
    }

    /// The answer of the prompt: what the user answered once they have,
    /// nothing before that or after an abort.
    pub open spec fn outcome(self) -> Option<bool> {
        if self.state == PromptState::Success {
            Some(self.answer)
        } else {
            None
        }
    }
}

/// Interactive prompt where the user can choose yes or no
///
/// `y` and `n` answer the prompt. If an initial answer is set, enter
/// submits it.
#[derive(Debug)]
pub struct ConfirmPrompt {
    message: String,
    state: PromptState,
    figures: FigureSet,
    answer: bool,
    initial: Option<bool>,
}

impl View for ConfirmPrompt {
    type V = ConfirmView;

    closed spec fn view(&self) -> ConfirmView {
        ConfirmView {
            message: self.message@,
            state: self.state,
            figures: self.figures,
            answer: self.answer,
            initial: self.initial,
        }
    }
}

impl Default for ConfirmPrompt {
    /// A prompt with an empty message.
    fn default() -> (prompt: ConfirmPrompt)
        ensures
            prompt@ == (ConfirmView {
                message: ""@,
                state: PromptState::Created,
                figures: FigureSet::Standard,
                answer: false,
                initial: None,
            }),
    {
        ConfirmPrompt::new("")
    }
}

impl ConfirmPrompt {
    /// Returns a ConfirmPrompt ready to be run
    ///
    /// # Arguments
    ///
    /// * `message` - The message to display to the user before the prompt
    pub fn new(message: &str) -> (prompt: ConfirmPrompt)
        ensures
            prompt@ == (ConfirmView {
                message: message@,
                state: PromptState::Created,
                figures: FigureSet::Standard,
                answer: false,
                initial: None,
            }),
    {
        ConfirmPrompt {
            message: message.to_owned(),
            state: PromptState::Created,
            figures: FigureSet::Standard,
            answer: false,
            initial: None,
        }
    }

    /// Sets the table that the figures of the frames are taken from.
    pub fn with_figures(self, figures: FigureSet) -> (prompt: ConfirmPrompt)
        ensures
            prompt@ == (ConfirmView { figures, ..self@ }),
    {
        let mut prompt = self;
        prompt.figures = figures;
        prompt
    }

    /// Set default/initial answer
    pub fn set_initial(self, initial: bool) -> (prompt: ConfirmPrompt)
        ensures
            prompt@ == (ConfirmView { initial: Some(initial), ..self@ }),
    {
        let mut prompt = self;
        prompt.initial = Some(initial);
        prompt
    }

    /// The message shown to the user.
    pub fn message(&self) -> (message: &String)
        ensures
            message@ == self@.message,
    {
        &self.message
    }

    /// The answer that enter stands for, if there is one.
    pub fn initial(&self) -> (initial: Option<bool>)
        ensures
            initial == self@.initial,
    {
        self.initial
    }

    /// Where the prompt is in its life.
    pub fn state(&self) -> (state: PromptState)
        ensures
            state == self@.state,
    {
        self.state
    }

    /// The answer: what the user answered once they have, nothing before
    /// that or after an abort.
    pub fn answer(&self) -> (answer: Option<bool>)
        ensures
            answer == self@.outcome(),
    {
        match self.state {
            PromptState::Success => Some(self.answer),
            _ => None,
        }
    }

    /// Takes one key press.
    pub fn handle_key_event(&mut self, event: KeyEvent)
        ensures
            final(self)@ == old(self)@.after_key(event),
            old(self)@.state.done() ==> final(self)@ == old(self)@,
            is_abort(event) && !old(self)@.state.done() ==> final(self)@.state
                == PromptState::Aborted,
            is_abort(event) && !old(self)@.state.done() ==> final(self)@.outcome().is_none(),
    {
        if self.state.is_done() {
            return ;
        }
        if is_abort_event(event) {
            self.state = PromptState::Aborted;
            return ;
        }
        if event.modifiers.is_empty() {
            match event.code {
                KeyCode::Enter => {
                    if let Some(initial) = self.initial {
                        self.answer = initial;
                        self.state = PromptState::Success;
                    }
                },
                KeyCode::Char(c) => {
                    if c == 'y' {
                        self.answer = true;
                        self.state = PromptState::Success;
                    } else if c == 'n' {
                        self.answer = false;
                        self.state = PromptState::Success;
                    }
                },
                _ => {},
            }
        }
    }

    /// Draws the prompt: returns the frame, and starts the prompt if this
    /// is its first frame.
    pub fn display(&mut self) -> (frame: Vec<Command>)
        ensures
            frame_view(frame@) == old(self)@.frame(),
            final(self)@ == old(self)@.rendered(),
    {
        let ghost view = self@;
        let mut frame: Vec<Command> = Vec::new();
        if self.state == PromptState::Created {
            self.state = PromptState::Running;
        } else {
            emit_erase_line(&mut frame);
        }
        assert(frame_view(frame@) =~= erase_line(view.state));
        emit_header(&mut frame, &self.state, &self.message, self.figures);
        emit_text(&mut frame, " ");
        emit(&mut frame, Command::PrintStyled(print_input_icon_in(&self.state, self.figures)));
        if !self.state.is_done() {
            let hint = match self.initial {
                Some(true) => "(Y/n)",
                Some(false) => "(y/N)",
                None => "(y/n)",
            };
            emit(
                &mut frame,
                Command::PrintStyled(Styled::colored(hint.to_owned(), Color::DarkGrey)),
            );
        }
        if self.state == PromptState::Success {
            emit_text(&mut frame, if self.answer { "yes" } else { "no" });
        }
        if self.state.is_done() {
            emit_text(&mut frame, "\n\r");
            emit(&mut frame, Command::Show);
        }
        emit(&mut frame, Command::Flush);
        assert(frame_view(frame@) =~= view.frame());
        frame
    }

    /// Takes one event and draws the prompt anew: one turn of the loop that
    /// runs a prompt. The prompt has ended when its state says so after
    /// the turn; the frame returned is then its last.
    pub fn advance(&mut self, event: Event) -> (frame: Vec<Command>)
        ensures
            frame_view(frame@) == old(self)@.after_event(event).frame(),
            final(self)@ == old(self)@.after_event(event).rendered(),
    {
        match event {
            Event::Key(key) => self.handle_key_event(key),
            _ => {},
        }
        self.display()
    }
}

} // verus!
