//! The history store: an append-only ordered sequence of committed lines,
//! plus a browsing position used while navigating through it.

use vstd::prelude::*;

verus! {

/// Mathematical model of a [`History`]: the committed lines in chronological
/// order and the browsing position.
pub ghost struct HistoryView {
    pub entries: Seq<Seq<char>>,
    pub pos: int,
}

/// The history invariant: the browsing position never runs past the end of
/// the store.
pub open spec fn history_wf(h: HistoryView) -> bool {
    0 <= h.pos <= h.entries.len()
}

/// Whether stepping to the previous (older) entry takes effect: the store is
/// non-empty and the browsing position has room to move back.
pub open spec fn prev_effective(h: HistoryView) -> bool {
    h.entries.len() > 0 && h.pos > 0
}

/// Whether stepping to the next (newer) entry takes effect: there is an entry
/// strictly after the current position. At the newest entry this is false:
/// stepping down never falls through to a blank new line.
pub open spec fn next_effective(h: HistoryView) -> bool {
    h.entries.len() > 0 && h.pos + 1 < h.entries.len()
}

/// The model after an effective step to the previous entry.
pub open spec fn spec_prev(h: HistoryView) -> HistoryView {
    HistoryView { entries: h.entries, pos: h.pos - 1 }
}

/// The model after an effective step to the next entry.
pub open spec fn spec_next(h: HistoryView) -> HistoryView {
    HistoryView { entries: h.entries, pos: h.pos + 1 }
}

/// The model after a line is committed: the line goes on the end, exactly
/// once, and the browsing position moves one step forward.
pub open spec fn spec_append(h: HistoryView, line: Seq<char>) -> HistoryView {
    HistoryView { entries: h.entries.push(line), pos: h.pos + 1 }
}

/// Previously committed lines in the order they were committed, and a
/// browsing position into them.
///
/// Lines are appended exactly once, at commit time, and never changed or
/// removed afterwards.
pub struct History {
    entries: Vec<Vec<char>>,
    pos: usize,
}

impl View for History {
    type V = HistoryView;

    closed spec fn view(&self) -> HistoryView {
        HistoryView {
            entries: Seq::new(self.entries@.len(), |i: int| self.entries@[i]@),
            pos: self.pos as int,
        }
    }
}

/// Copies a line character by character; `char` is plain data, so the copy
/// holds exactly the characters of the original.
pub fn copy_chars(text: &Vec<char>) -> (r: Vec<char>)
    ensures
        r@ == text@,
{
    let mut out: Vec<char> = Vec::new();
    let mut i: usize = 0;
    while i < text.len()
        invariant
            i <= text@.len(),
            out@ == text@.subrange(0, i as int),
        decreases text@.len() - i,
    {
        out.push(text[i]);
        i = i + 1;
    }
    assert(out@ =~= text@);
    out
}

impl History {
    /// An empty store with the browsing position at its start.
    pub fn new() -> (r: History)
        ensures
            r@.entries == Seq::<Seq<char>>::empty(),
            r@.pos == 0,
            history_wf(r@),
    {
        History { entries: Vec::new(), pos: 0 }
    }

    /// The number of committed lines.
    pub fn len(&self) -> (r: usize)
        ensures
            r == self@.entries.len(),
    {
        self.entries.len()
    }

    /// The browsing position.
    pub fn pos(&self) -> (r: usize)
        ensures
            r == self@.pos,
    {
        self.pos
    }

    /// Appends a committed line at the end of the store and advances the
    /// browsing position by one.
    pub fn append(&mut self, line: Vec<char>)
        requires
            history_wf(old(self)@),
            old(self)@.entries.len() < usize::MAX,
        ensures
            final(self)@ == spec_append(old(self)@, line@),
            history_wf(final(self)@),
    {
        self.entries.push(line);
        self.pos = self.pos + 1;
        assert(self@.entries =~= spec_append(old(self)@, line@).entries);
    }

    /// Steps to the previous (older) entry and returns a copy of it, or
    /// returns `None` and changes nothing when there is no older entry.
    pub fn prev(&mut self) -> (r: Option<Vec<char>>)
        requires
            history_wf(old(self)@),
        ensures
            history_wf(final(self)@),
            prev_effective(old(self)@) ==> {
                &&& final(self)@ == spec_prev(old(self)@)
                &&& r matches Some(line) && line@ == old(self)@.entries[old(self)@.pos - 1]
            },
            !prev_effective(old(self)@) ==> final(self)@ == old(self)@ && r is None,
    {
        if self.entries.len() > 0 && self.pos > 0 {
            self.pos = self.pos - 1;
            Some(copy_chars(&self.entries[self.pos]))
        } else {
            None
        }
    }

    /// Steps to the next (newer) entry and returns a copy of it, or returns
    /// `None` and changes nothing when the position is already at the newest
    /// entry (or the store is empty).
    pub fn next(&mut self) -> (r: Option<Vec<char>>)
        requires
            history_wf(old(self)@),
        ensures
            history_wf(final(self)@),
            next_effective(old(self)@) ==> {
                &&& final(self)@ == spec_next(old(self)@)
                &&& r matches Some(line) && line@ == old(self)@.entries[old(self)@.pos + 1]
            },
            !next_effective(old(self)@) ==> final(self)@ == old(self)@ && r is None,
    {
        if self.entries.len() > 0 && self.pos < self.entries.len() - 1 {
            self.pos = self.pos + 1;
            Some(copy_chars(&self.entries[self.pos]))
        } else {
            None
        }
    }
}

} // verus!
