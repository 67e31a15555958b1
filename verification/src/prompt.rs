//! The prompt reader: from what was read to the lines of a session.
//!
//! Reading itself is the caller's work. Before each read it writes the
//! [`Prompt::marker`] and makes it visible; what the read gave, it hands to
//! [`Prompt::accept`]. The lines then come out of [`Prompt::next`] and
//! [`Prompt::get`], each without its line terminator.

use vstd::prelude::*;
use vstd::string::*;
use crate::text::texts;

verus! {

/// A line as it was read, without its terminator: a final line feed goes, and
/// with it a carriage return that stands directly before it.
pub open spec fn without_terminator(raw: Seq<char>) -> Seq<char> {
    if raw.len() >= 1 && raw.last() == '\n' {
        let cut = raw.drop_last();
        if cut.len() >= 1 && cut.last() == '\r' {
            cut.drop_last()
        } else {
            cut
        }
    } else {
        raw
    }
}

/// Removes the line terminator from what one read gave.
pub fn strip_terminator(raw: &str) -> (line: String)
    ensures
        line@ == without_terminator(raw@),
{
    let n = raw.unicode_len();
    if n >= 1 && raw.get_char(n - 1) == '\n' {
        let cut = raw.substring_char(0, n - 1);
        assert(cut@ =~= raw@.drop_last());
        if n >= 2 && cut.get_char(n - 2) == '\r' {
            let line = cut.substring_char(0, n - 2);
            assert(line@ =~= cut@.drop_last());
            String::from_str(line)
        } else {
            String::from_str(cut)
        }
    } else {
        String::from_str(raw)
    }
}

/// The lines that were read and not yet taken, and whether the input has
/// ended.
#[derive(Debug)]
pub struct Prompt {
    pending: Vec<String>,
    closed: bool,
}

impl Prompt {
    /// The lines that wait to be taken, oldest first.
    pub closed spec fn pending(self) -> Seq<Seq<char>> {
        texts(self.pending@)
    }

    /// Whether the end of the input was seen.
    pub closed spec fn is_closed(self) -> bool {
        self.closed
    }

    /// A reader that has read nothing yet.
    pub fn new() -> (p: Prompt)
        ensures
            p.pending() == Seq::<Seq<char>>::empty(),
            !p.is_closed(),
    {
        let p = Prompt { pending: Vec::new(), closed: false };
        assert(p.pending() =~= Seq::<Seq<char>>::empty());
        p
    }

    /// The text that is written before each read.
    pub fn marker() -> (m: &'static str)
        ensures
            m@ == "> "@,
    {
        "> "
    }

    /// Takes what one read of a line gave: the line with its terminator, or
    /// nothing at all where the input has ended.
    ///
    /// A line is queued without its terminator. Once the input has ended,
    /// nothing more is taken.
    pub fn accept(&mut self, raw: &str)
        ensures
            final(self).is_closed() == (old(self).is_closed() || raw@.len() == 0),
            old(self).is_closed() || raw@.len() == 0 ==> final(self).pending() == old(self).pending(),
            !old(self).is_closed() && raw@.len() > 0 ==> final(self).pending() == old(self).pending().push(
                without_terminator(raw@),
            ),
    {
        if self.closed {
        } else if raw.is_empty() {
            self.closed = true;
        } else {
            let line = strip_terminator(raw);
            self.pending.push(line);
            assert(self.pending() =~= old(self).pending().push(without_terminator(raw@)));
        }
    }

    /// Whether a line waits to be taken.
    pub fn has_line(&self) -> (b: bool)
        ensures
            b == (self.pending().len() > 0),
    {
        self.pending.len() > 0
    }

    /// Whether the end of the input was seen.
    pub fn closed(&self) -> (b: bool)
        ensures
            b == self.is_closed(),
    {
        self.closed
    }

    /// The oldest waiting line, if there is one; it then waits no longer.
    pub fn next(&mut self) -> (line: Option<String>)
        ensures
            final(self).is_closed() == old(self).is_closed(),
            old(self).pending().len() == 0 ==> line is None
                && final(self).pending() == old(self).pending(),
            old(self).pending().len() > 0 ==> line is Some
                && (line->0)@ == old(self).pending()[0]
                && final(self).pending() == old(self).pending().skip(1),
    {
        if self.pending.len() == 0 {
            None
        } else {
            let line = self.pending.remove(0);
            assert(self.pending() =~= old(self).pending().skip(1));
            Some(line)
        }
    }

    /// The oldest waiting line, where the caller knows that one waits.
    pub fn get(&mut self) -> (line: String)
        requires
            old(self).pending().len() > 0,
        ensures
            line@ == old(self).pending()[0],
            final(self).pending() == old(self).pending().skip(1),
            final(self).is_closed() == old(self).is_closed(),
    {
        let line = self.pending.remove(0);
        assert(self.pending() =~= old(self).pending().skip(1));
        line
    }
}

impl Default for Prompt {
    fn default() -> (p: Prompt)
        ensures
            p.pending() == Seq::<Seq<char>>::empty(),
            !p.is_closed(),
    {
        Prompt::new()
    }
}

} // verus!
