//! The line under edit: an ordered sequence of Unicode scalar values plus a
//! cursor, both indexed by characters (never by bytes).

use vstd::prelude::*;

verus! {

/// Mathematical model of a [`LineBuffer`]: the characters of the line and the
/// cursor position, a character index into it.
pub ghost struct BufferView {
    pub chars: Seq<char>,
    pub cursor: int,
}

/// The buffer invariant: the cursor always lies between the start and the end
/// of the line, inclusive.
pub open spec fn buffer_wf(b: BufferView) -> bool {
    0 <= b.cursor <= b.chars.len()
}

/// What inserting `c` at the cursor does to the model: the line is split at
/// the cursor, `c` goes in between, and the cursor advances past it.
pub open spec fn spec_insert(b: BufferView, c: char) -> BufferView {
    BufferView { chars: b.chars.insert(b.cursor, c), cursor: b.cursor + 1 }
}

/// What deleting backward does to the model: a no-op at the left edge,
/// otherwise the character just before the cursor goes and the cursor follows.
pub open spec fn spec_delete_backward(b: BufferView) -> BufferView {
    if b.cursor == 0 {
        b
    } else {
        BufferView { chars: b.chars.remove(b.cursor - 1), cursor: b.cursor - 1 }
    }
}

/// Moving the cursor one character left, clamped at the start of the line.
pub open spec fn spec_move_left(b: BufferView) -> BufferView {
    if b.cursor == 0 {
        b
    } else {
        BufferView { chars: b.chars, cursor: b.cursor - 1 }
    }
}

/// Moving the cursor one character right, clamped at the end of the line.
pub open spec fn spec_move_right(b: BufferView) -> BufferView {
    if b.cursor >= b.chars.len() {
        b
    } else {
        BufferView { chars: b.chars, cursor: b.cursor + 1 }
    }
}

/// The line currently under edit and the cursor position within it.
///
/// All operations work on character positions; the invariant
/// `0 <= cursor <= chars.len()` is established by the constructor and kept by
/// every operation.
pub struct LineBuffer {
    chars: Vec<char>,
    cursor: usize,
}

impl View for LineBuffer {
    type V = BufferView;

    closed spec fn view(&self) -> BufferView {
        BufferView { chars: self.chars@, cursor: self.cursor as int }
    }
}

impl LineBuffer {
    /// An empty line with the cursor at the start.
    pub fn new() -> (r: LineBuffer)
        ensures
            r@.chars == Seq::<char>::empty(),
            r@.cursor == 0,
            buffer_wf(r@),
    {
        LineBuffer { chars: Vec::new(), cursor: 0 }
    }

    /// The number of characters in the line.
    pub fn len(&self) -> (r: usize)
        ensures
            r == self@.chars.len(),
    {
        self.chars.len()
    }

    /// The cursor position, a character index.
    pub fn cursor(&self) -> (r: usize)
        ensures
            r == self@.cursor,
    {
        self.cursor
    }

    /// The characters of the line.
    pub fn chars(&self) -> (r: &Vec<char>)
        ensures
            r@ == self@.chars,
    {
        &self.chars
    }

    /// Inserts `c` at the cursor and advances the cursor past it.
    pub fn insert(&mut self, c: char)
        requires
            buffer_wf(old(self)@),
            old(self)@.chars.len() < usize::MAX,
        ensures
            final(self)@ == spec_insert(old(self)@, c),
            buffer_wf(final(self)@),
    {
        self.chars.insert(self.cursor, c);
        self.cursor = self.cursor + 1;
    }

    /// Removes the character just before the cursor and moves the cursor back
    /// onto the gap; leaves the buffer untouched when the cursor is at the
    /// start of the line.
    pub fn delete_backward(&mut self)
        requires
            buffer_wf(old(self)@),
        ensures
            final(self)@ == spec_delete_backward(old(self)@),
            buffer_wf(final(self)@),
    {
        if self.cursor > 0 {
            self.chars.remove(self.cursor - 1);
            self.cursor = self.cursor - 1;
        }
    }

    /// Moves the cursor one character left; a no-op at the start of the line.
    pub fn move_left(&mut self)
        requires
            buffer_wf(old(self)@),
        ensures
            final(self)@ == spec_move_left(old(self)@),
            buffer_wf(final(self)@),
    {
        if self.cursor > 0 {
            self.cursor = self.cursor - 1;
        }
    }

    /// Moves the cursor one character right; a no-op at the end of the line.
    pub fn move_right(&mut self)
        requires
            buffer_wf(old(self)@),
        ensures
            final(self)@ == spec_move_right(old(self)@),
            buffer_wf(final(self)@),
    {
        if self.cursor < self.chars.len() {
            self.cursor = self.cursor + 1;
        }
    }

    /// Replaces the whole line with `text` and resets the cursor to the start;
    /// used when a history entry is loaded.
    pub fn replace(&mut self, text: Vec<char>)
        ensures
            final(self)@.chars == text@,
            final(self)@.cursor == 0,
            buffer_wf(final(self)@),
    {
        self.chars = text;
        self.cursor = 0;
    }

    /// Empties the line and resets the cursor to the start.
    pub fn clear(&mut self)
        ensures
            final(self)@.chars == Seq::<char>::empty(),
            final(self)@.cursor == 0,
            buffer_wf(final(self)@),
    {
        self.chars.clear();
        self.cursor = 0;
    }
}

/// Inserting a character and at once deleting backward restores the line and
/// the cursor exactly as they were, whatever the line and wherever the cursor.
pub proof fn lemma_insert_delete_roundtrip(b: BufferView, c: char)
    requires
        buffer_wf(b),
    ensures
        spec_delete_backward(spec_insert(b, c)) == b,
{
    let inserted = spec_insert(b, c);
    assert(inserted.cursor == b.cursor + 1);
    assert(inserted.chars.remove(b.cursor) =~= b.chars);
}

} // verus!
