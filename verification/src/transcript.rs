//! The lines that a scenario has to say, in the order in which it says them.

use crate::text::texts;
use vstd::prelude::*;

verus! {

/// A list of lines of text that only grows at its end.
pub struct Transcript {
    lines: Vec<String>,
}

impl View for Transcript {
    type V = Seq<Seq<char>>;

    /// The lines, first to last.
    closed spec fn view(&self) -> Seq<Seq<char>> {
        texts(self.lines@)
    }
}

impl Transcript {
    /// A transcript without lines.
    pub fn new() -> (transcript: Self)
        ensures
            transcript@ == Seq::<Seq<char>>::empty(),
    {
        Transcript { lines: Vec::new() }
    }

    /// Adds `line` at the end.
    pub fn record(&mut self, line: String)
        ensures
            final(self)@ == old(self)@.push(line@),
    {
        self.lines.push(line);
    }

    /// The number of lines.
    pub fn len(&self) -> (len: usize)
        ensures
            len == self@.len(),
    {
        self.lines.len()
    }

    /// The line at position `i`, counted from 0.
    pub fn line(&self, i: usize) -> (line: &str)
        requires
            i < self@.len(),
        ensures
            line@ == self@[i as int],
    {
        self.lines[i].as_str()
    }

    /// All lines, first to last.
    pub fn lines(&self) -> (lines: &Vec<String>)
        ensures
            texts(lines@) == self@,
    {
        &self.lines
    }
}

} // verus!
