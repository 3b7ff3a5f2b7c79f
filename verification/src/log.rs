//! The event log: the lines the program shows, in the order they arrived.

use crate::events::texts;
use vstd::prelude::*;

verus! {

/// An append-only sequence of lines. Nothing is ever removed from it or
/// moved within it.
pub struct EventLog {
    lines: Vec<String>,
}

impl View for EventLog {
    type V = Seq<Seq<char>>;

    closed spec fn view(&self) -> Seq<Seq<char>> {
        texts(self.lines@)
    }
}

impl EventLog {
    /// An empty log.
    pub fn new() -> (log: EventLog)
        ensures
            log@ == Seq::<Seq<char>>::empty(),
    {
        let log = EventLog { lines: Vec::new() };
        assert(log@ =~= Seq::<Seq<char>>::empty());
        log
    }

    /// Appends one line.
    pub fn record(&mut self, line: String)
        ensures
            final(self)@ == old(self)@.push(line@),
    {
        self.lines.push(line);
        assert(self@ =~= old(self)@.push(line@));
    }

    /// Appends the lines of `batch`, in their order: what one poll of the
    /// notifier channel drained, or the lines of a toggle.
    pub fn record_all(&mut self, batch: Vec<String>)
        ensures
            final(self)@ == old(self)@ + texts(batch@),
    {
        let mut rest = batch;
        self.lines.append(&mut rest);
        assert(self@ =~= old(self)@ + texts(batch@));
    }

    /// The number of lines.
    pub fn len(&self) -> (count: usize)
        ensures
            count == self@.len(),
    {
        self.lines.len()
    }

    /// The lines, oldest first.
    pub fn lines(&self) -> (lines: &Vec<String>)
        ensures
            texts(lines@) == self@,
    {
        &self.lines
    }
}

} // verus!
