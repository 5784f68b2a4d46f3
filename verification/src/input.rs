//! The line of text that the user types into, with its insertion point.

use crate::chars::string_of;
use vstd::prelude::*;

verus! {

/// A line of text and the position in it at which typing goes on.
pub struct Line {
    pub text: Seq<char>,
    pub cursor: int,
}

impl Line {
    /// The cursor lies in the text or right behind it.
    pub open spec fn wf(self) -> bool {
        0 <= self.cursor <= self.text.len()
    }

    /// The empty line.
    pub open spec fn empty() -> Line {
        Line { text: Seq::empty(), cursor: 0 }
    }

    /// The line after a character was typed: it stands where the cursor
    /// was, and the cursor behind it.
    pub open spec fn inserted(self, c: char) -> Line {
        Line { text: self.text.insert(self.cursor, c), cursor: self.cursor + 1 }
    }

    /// The line after backspace: the character before the cursor is gone
    /// and the cursor stands where it was. At the start of the line nothing
    /// changes.
    pub open spec fn erased(self) -> Line {
        if self.cursor > 0 {
            Line { text: self.text.remove(self.cursor - 1), cursor: self.cursor - 1 }
        } else {
            self
        }
    }

    /// The line with the cursor one to the left, if there is room.
    pub open spec fn moved_left(self) -> Line {
        Line { text: self.text, cursor: if self.cursor > 0 { self.cursor - 1 } else { 0 } }
    }

    /// The line with the cursor one to the right, if there is room.
    pub open spec fn moved_right(self) -> Line {
        Line {
            text: self.text,
            cursor: if self.cursor < self.text.len() { self.cursor + 1 } else { self.cursor },
        }
    }

    /// The line with the cursor before the first character.
    pub open spec fn at_home(self) -> Line {
        Line { text: self.text, cursor: 0 }
    }

    /// The line with the cursor behind the last character.
    pub open spec fn at_end(self) -> Line {
        Line { text: self.text, cursor: self.text.len() as int }
    }
}

/// The input of a prompt: characters and an insertion point among them.
#[derive(Debug)]
pub struct InputBuffer {
    chars: Vec<char>,
    cursor: usize,
}

impl View for InputBuffer {
    type V = Line;

    closed spec fn view(&self) -> Line {
        Line { text: self.chars@, cursor: self.cursor as int }
    }
}

impl InputBuffer {
    /// An empty input.
    pub fn new() -> (input: InputBuffer)
        ensures
            input@ == Line::empty(),
            input@.wf(),
    {
        InputBuffer { chars: Vec::new(), cursor: 0 }
    }

    /// The characters typed so far.
    pub fn chars(&self) -> (chars: &Vec<char>)
        ensures
            chars@ == self@.text,
    {
        &self.chars
    }

    /// The characters typed so far, as a string.
    pub fn text(&self) -> (text: String)
        ensures
            text@ == self@.text,
    {
        string_of(&self.chars)
    }

    /// The number of characters typed so far.
    pub fn len(&self) -> (n: usize)
        ensures
            n == self@.text.len(),
    {
        self.chars.len()
    }

    /// The position of the insertion point.
    pub fn cursor(&self) -> (at: usize)
        ensures
            at == self@.cursor,
    {
        self.cursor
    }

    /// Types a character at the insertion point.
    pub fn insert(&mut self, c: char)
        requires
            old(self)@.wf(),
        ensures
            final(self)@ == old(self)@.inserted(c),
            final(self)@.wf(),
    {
        self.chars.insert(self.cursor, c);
        if self.cursor < self.chars.len() {
            self.cursor = self.cursor + 1;
        }
    }

    /// Removes the character before the insertion point, if there is one.
    pub fn backspace(&mut self)
        requires
            old(self)@.wf(),
        ensures
            final(self)@ == old(self)@.erased(),
            final(self)@.wf(),
    {
        if self.cursor > 0 {
            self.cursor = self.cursor - 1;
            self.chars.remove(self.cursor);
        }
    }

    /// Moves the insertion point one to the left, if there is room.
    pub fn left(&mut self)
        requires
            old(self)@.wf(),
        ensures
            final(self)@ == old(self)@.moved_left(),
            final(self)@.wf(),
    {
        if self.cursor > 0 {
            self.cursor = self.cursor - 1;
        }
    }

    /// Moves the insertion point one to the right, if there is room.
    pub fn right(&mut self)
        requires
            old(self)@.wf(),
        ensures
            final(self)@ == old(self)@.moved_right(),
            final(self)@.wf(),
    {
        if self.cursor < self.chars.len() {
            self.cursor = self.cursor + 1;
        }
    }

    /// Moves the insertion point before the first character.
    pub fn home(&mut self)
        requires
            old(self)@.wf(),
        ensures
            final(self)@ == old(self)@.at_home(),
            final(self)@.wf(),
    {
        self.cursor = 0;
    }

    /// Moves the insertion point behind the last character.
    pub fn end(&mut self)
        requires
            old(self)@.wf(),
        ensures
            final(self)@ == old(self)@.at_end(),
            final(self)@.wf(),
    {
        self.cursor = self.chars.len();
    }
}

} // verus!
