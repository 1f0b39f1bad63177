//! The line-oriented text sink the emitters write to.
//!
//! A `Sink` records, in order, every line written to it; its view is the
//! sequence of those lines as character sequences. The caller that owns
//! the sink decides what to do with the collected lines.

use vstd::prelude::*;

verus! {

/// An append-only collection of output lines.
pub struct Sink {
    lines: Vec<String>,
}

impl View for Sink {
    type V = Seq<Seq<char>>;

    closed spec fn view(&self) -> Seq<Seq<char>> {
        self.lines.deep_view()
    }
}

impl Sink {
    /// An empty sink.
    pub fn new() -> (s: Sink)
        ensures
            s@ == Seq::<Seq<char>>::empty(),
    {
        let s = Sink { lines: Vec::new() };
        proof {
            assert(s@ =~~= Seq::<Seq<char>>::empty());
        }
        s
    }

    /// Appends one line.
    pub fn write_line(&mut self, line: String)
        ensures
            final(self)@ == old(self)@.push(line@),
    {
        let ghost before = self.lines.deep_view();
        let ghost l = line@;
        self.lines.push(line);
        proof {
            assert(self.lines.deep_view() =~~= before.push(l));
        }
    }

    /// The number of lines written so far.
    pub fn line_count(&self) -> (n: usize)
        ensures
            n == self@.len(),
    {
        self.lines.len()
    }

    /// Hands the collected lines over, in the order they were written.
    pub fn into_lines(self) -> (v: Vec<String>)
        ensures
            v.deep_view() == self@,
    {
        self.lines
    }
}

} // verus!
