//! The editor session: one line under edit, the history of committed lines,
//! the input decoder, and the prompt. Each input byte is turned into at most
//! one edit action, the action is applied, and the terminal bytes that keep
//! the screen consistent are handed back to the caller to write.

use vstd::prelude::*;
use vstd::string::StringExecFns;

use crate::buffer::BufferView;
use crate::buffer::LineBuffer;
use crate::buffer::buffer_wf;
use crate::buffer::spec_delete_backward;
use crate::buffer::spec_insert;
use crate::buffer::spec_move_left;
use crate::buffer::spec_move_right;
use crate::history::History;
use crate::history::HistoryView;
use crate::history::history_wf;
use crate::history::next_effective;
use crate::history::prev_effective;
use crate::history::spec_append;
use crate::history::spec_next;
use crate::history::spec_prev;
use crate::history::copy_chars;
use crate::input::Decoder;
use crate::input::DecoderView;
use crate::input::EditAction;
use crate::input::decoder_wf;
use crate::input::spec_step;
use crate::render::csi_left;
use crate::render::csi_right;
use crate::render::push_bytes;
use crate::render::push_char;
use crate::render::push_chars_from;
use crate::render::push_csi_left;
use crate::render::push_csi_right;
use crate::render::push_erase_rest;
use crate::render::render_delete;
use crate::render::render_history;
use crate::render::render_insert;

verus! {

/// The failures an editing session can meet. The session itself performs no
/// I/O; the caller that does reports its failures with these.
#[derive(Debug)]
pub enum Error {
    /// Raw input mode could not be engaged.
    InitFail(String),
    /// Flushing the output stream failed.
    IoFlush(String),
    /// Reading an input byte failed.
    IoRead(String),
    /// Writing rendering output failed.
    IoWrite(String),
    /// The injected line processor rejected a committed line.
    ProcessLine(String),
}

impl Error {
    /// The error rendered as text: a fixed description of the kind, then the
    /// carried detail.
    pub fn message(&self) -> (r: String)
        ensures
            match self {
                Error::InitFail(s) => r@ == "initialization failed: "@ + s@,
                Error::IoFlush(s) => r@ == "IO flush error: "@ + s@,
                Error::IoRead(s) => r@ == "IO read error: "@ + s@,
                Error::IoWrite(s) => r@ == "IO write error: "@ + s@,
                Error::ProcessLine(s) => r@ == "Process Line error: "@ + s@,
            },
    {
        match self {
            Error::InitFail(s) => {
                let mut m = String::from_str("initialization failed: ");
                m.append(s.as_str());
                m
            },
            Error::IoFlush(s) => {
                let mut m = String::from_str("IO flush error: ");
                m.append(s.as_str());
                m
            },
            Error::IoRead(s) => {
                let mut m = String::from_str("IO read error: ");
                m.append(s.as_str());
                m
            },
            Error::IoWrite(s) => {
                let mut m = String::from_str("IO write error: ");
                m.append(s.as_str());
                m
            },
            Error::ProcessLine(s) => {
                let mut m = String::from_str("Process Line error: ");
                m.append(s.as_str());
                m
            },
        }
    }
}

/// What the editing loop should do after a byte has been handled.
#[derive(Clone, Copy, PartialEq, Eq, Debug)]
pub enum ReplState {
    /// Keep reading input.
    Continue,
    /// Stop the loop: a terminate action arrived.
    Break,
    /// Enter was pressed: the caller decides between committing the line and
    /// inserting a newline character.
    Enter,
}

/// Mathematical model of a [`Repl`]: the line under edit, the history store,
/// the decoder, and the prompt bytes.
pub ghost struct ReplView {
    pub buffer: BufferView,
    pub history: HistoryView,
    pub decoder: DecoderView,
    pub prompt: Seq<u8>,
}

/// The session invariant: buffer, history and decoder invariants together.
pub open spec fn repl_wf(r: ReplView) -> bool {
    &&& buffer_wf(r.buffer)
    &&& history_wf(r.history)
    &&& decoder_wf(r.decoder)
}

/// What one edit action does to the session: the buffer and history after
/// it, the terminal bytes it emits, and what the loop does next.
pub open spec fn spec_apply(r: ReplView, a: EditAction) -> (BufferView, HistoryView, Seq<
    u8,
>, ReplState) {
    match a {
        EditAction::Insert(c) => (
            spec_insert(r.buffer, c),
            r.history,
            render_insert(r.buffer.chars, r.buffer.cursor, c),
            ReplState::Continue,
        ),
        EditAction::DeleteBackward => (
            spec_delete_backward(r.buffer),
            r.history,
            if r.buffer.cursor > 0 {
                render_delete(spec_delete_backward(r.buffer).chars, r.buffer.cursor - 1)
            } else {
                Seq::<u8>::empty()
            },
            ReplState::Continue,
        ),
        EditAction::CursorLeft => (
            spec_move_left(r.buffer),
            r.history,
            if r.buffer.cursor > 0 {
                csi_left(1)
            } else {
                Seq::<u8>::empty()
            },
            ReplState::Continue,
        ),
        EditAction::CursorRight => (
            spec_move_right(r.buffer),
            r.history,
            if r.buffer.cursor < r.buffer.chars.len() {
                csi_right(1)
            } else {
                Seq::<u8>::empty()
            },
            ReplState::Continue,
        ),
        EditAction::HistoryPrev => if prev_effective(r.history) {
            (
                BufferView { chars: r.history.entries[r.history.pos - 1], cursor: 0 },
                spec_prev(r.history),
                render_history(r.prompt, r.history.entries[r.history.pos - 1]),
                ReplState::Continue,
            )
        } else {
            (r.buffer, r.history, Seq::<u8>::empty(), ReplState::Continue)
        },
        EditAction::HistoryNext => if next_effective(r.history) {
            (
                BufferView { chars: r.history.entries[r.history.pos + 1], cursor: 0 },
                spec_next(r.history),
                render_history(r.prompt, r.history.entries[r.history.pos + 1]),
                ReplState::Continue,
            )
        } else {
            (r.buffer, r.history, Seq::<u8>::empty(), ReplState::Continue)
        },
        EditAction::Enter => (r.buffer, r.history, Seq::<u8>::empty(), ReplState::Enter),
        EditAction::Terminate => (r.buffer, r.history, Seq::<u8>::empty(), ReplState::Break),
    }
}

/// One step of the whole session on one input byte: the decoder advances,
/// and the action it emitted — if any — is applied.
pub open spec fn spec_handle(r: ReplView, b: u8) -> (ReplView, Seq<u8>, ReplState) {
    let step = spec_step(r.decoder, b);
    let d2 = DecoderView { state: step.0, pending: step.1 };
    match step.2 {
        Option::None => (
            ReplView { buffer: r.buffer, history: r.history, decoder: d2, prompt: r.prompt },
            Seq::<u8>::empty(),
            ReplState::Continue,
        ),
        Option::Some(a) => {
            let applied = spec_apply(r, a);
            (
                ReplView { buffer: applied.0, history: applied.1, decoder: d2, prompt: r.prompt },
                applied.2,
                applied.3,
            )
        },
    }
}

/// An editing session: the line under edit, the committed history, the input
/// decoder, and the prompt written after every commit.
pub struct Repl {
    buffer: LineBuffer,
    history: History,
    decoder: Decoder,
    prompt: Vec<u8>,
}

impl View for Repl {
    type V = ReplView;

    closed spec fn view(&self) -> ReplView {
        ReplView {
            buffer: self.buffer@,
            history: self.history@,
            decoder: self.decoder@,
            prompt: self.prompt@,
        }
    }
}

impl Repl {
    /// A fresh session: empty line, empty history, decoder in `Normal` mode.
    pub fn new(prompt: Vec<u8>) -> (r: Repl)
        ensures
            r@.buffer.chars == Seq::<char>::empty(),
            r@.buffer.cursor == 0,
            r@.history.entries == Seq::<Seq<char>>::empty(),
            r@.history.pos == 0,
            r@.decoder.state is Normal,
            r@.decoder.pending == Seq::<u8>::empty(),
            r@.prompt == prompt@,
            repl_wf(r@),
    {
        Repl {
            buffer: LineBuffer::new(),
            history: History::new(),
            decoder: Decoder::new(),
            prompt,
        }
    }

    /// The characters of the line under edit.
    pub fn line(&self) -> (r: &Vec<char>)
        ensures
            r@ == self@.buffer.chars,
    {
        self.buffer.chars()
    }

    /// The cursor position within the line, a character index.
    pub fn cursor_pos(&self) -> (r: usize)
        ensures
            r == self@.buffer.cursor,
    {
        self.buffer.cursor()
    }

    /// The number of committed lines in the history.
    pub fn history_len(&self) -> (r: usize)
        ensures
            r == self@.history.entries.len(),
    {
        self.history.len()
    }

    /// Appends the prompt bytes to `out`; written before the first read and
    /// after every committed line.
    pub fn emit_prompt(&self, out: &mut Vec<u8>)
        ensures
            final(out)@ == old(out)@ + self@.prompt,
    {
        push_bytes(out, &self.prompt);
    }

    /// Feeds one input byte to the session. The decoder advances, the edit
    /// action it completes (if any) is applied to the buffer or the history,
    /// and the terminal bytes that keep the screen consistent are appended
    /// to `out`. The whole step is exactly [`spec_handle`]; the history
    /// entries never change here — in particular, ETX (0x03) breaks the loop
    /// without committing the line under edit.
    pub fn handle_byte(&mut self, b: u8, out: &mut Vec<u8>) -> (r: ReplState)
        requires
            repl_wf(old(self)@),
            old(self)@.buffer.chars.len() < usize::MAX,
        ensures
            repl_wf(final(self)@),
            ({
                let step = spec_handle(old(self)@, b);
                &&& final(self)@ == step.0
                &&& final(out)@ == old(out)@ + step.1
                &&& r == step.2
            }),
            final(self)@.history.entries == old(self)@.history.entries,
            final(self)@.prompt == old(self)@.prompt,
            b == 0x03 ==> r == ReplState::Break,
    {
        let act = self.decoder.step(b);
        match act {
            Option::None => {
                proof {
                    assert(out@ =~= out@ + Seq::<u8>::empty());
                }
                ReplState::Continue
            },
            Option::Some(EditAction::Insert(c)) => {
                self.apply_insert(c, out);
                ReplState::Continue
            },
            Option::Some(EditAction::DeleteBackward) => {
                if self.buffer.cursor() > 0 {
                    self.buffer.delete_backward();
                    let cur = self.buffer.cursor();
                    push_csi_left(out, 1);
                    push_chars_from(out, self.buffer.chars(), cur);
                    push_erase_rest(out);
                    let tail = self.buffer.len() - cur;
                    if tail > 0 {
                        push_csi_left(out, tail);
                    }
                    proof {
                        let outb = render_delete(
                            spec_delete_backward(old(self)@.buffer).chars,
                            old(self)@.buffer.cursor - 1,
                        );
                        assert(out@ =~= old(out)@ + outb);
                    }
                } else {
                    proof {
                        assert(out@ =~= out@ + Seq::<u8>::empty());
                    }
                }
                ReplState::Continue
            },
            Option::Some(EditAction::CursorLeft) => {
                if self.buffer.cursor() > 0 {
                    self.buffer.move_left();
                    push_csi_left(out, 1);
                } else {
                    proof {
                        assert(out@ =~= out@ + Seq::<u8>::empty());
                    }
                }
                ReplState::Continue
            },
            Option::Some(EditAction::CursorRight) => {
                if self.buffer.cursor() < self.buffer.len() {
                    self.buffer.move_right();
                    push_csi_right(out, 1);
                } else {
                    proof {
                        assert(out@ =~= out@ + Seq::<u8>::empty());
                    }
                }
                ReplState::Continue
            },
            Option::Some(EditAction::HistoryPrev) => {
                let loaded = self.history.prev();
                match loaded {
                    Option::Some(text) => {
                        out.push(0x0D);
                        push_bytes(out, &self.prompt);
                        push_chars_from(out, &text, 0);
                        push_erase_rest(out);
                        self.buffer.replace(text);
                        proof {
                            let line = old(self)@.history.entries[old(self)@.history.pos - 1];
                            assert(line.skip(0) =~= line);
                            assert(out@ =~= old(out)@ + render_history(old(self)@.prompt, line));
                        }
                    },
                    Option::None => {
                        proof {
                            assert(out@ =~= out@ + Seq::<u8>::empty());
                        }
                    },
                }
                ReplState::Continue
            },
            Option::Some(EditAction::HistoryNext) => {
                let loaded = self.history.next();
                match loaded {
                    Option::Some(text) => {
                        out.push(0x0D);
                        push_bytes(out, &self.prompt);
                        push_chars_from(out, &text, 0);
                        push_erase_rest(out);
                        self.buffer.replace(text);
                        proof {
                            let line = old(self)@.history.entries[old(self)@.history.pos + 1];
                            assert(line.skip(0) =~= line);
                            assert(out@ =~= old(out)@ + render_history(old(self)@.prompt, line));
                        }
                    },
                    Option::None => {
                        proof {
                            assert(out@ =~= out@ + Seq::<u8>::empty());
                        }
                    },
                }
                ReplState::Continue
            },
            Option::Some(EditAction::Enter) => {
                proof {
                    assert(out@ =~= out@ + Seq::<u8>::empty());
                }
                ReplState::Enter
            },
            Option::Some(EditAction::Terminate) => {
                proof {
                    assert(out@ =~= out@ + Seq::<u8>::empty());
                }
                ReplState::Break
            },
        }
    }

    /// Inserts `c` at the cursor and appends the matching rendering bytes:
    /// the lone character when appending at the end of the line, a rewrite
    /// of the whole line otherwise.
    fn apply_insert(&mut self, c: char, out: &mut Vec<u8>)
        requires
            repl_wf(old(self)@),
            old(self)@.buffer.chars.len() < usize::MAX,
        ensures
            repl_wf(final(self)@),
            final(self)@.buffer == spec_insert(old(self)@.buffer, c),
            final(self)@.history == old(self)@.history,
            final(self)@.decoder == old(self)@.decoder,
            final(self)@.prompt == old(self)@.prompt,
            final(out)@ == old(out)@ + render_insert(
                old(self)@.buffer.chars,
                old(self)@.buffer.cursor,
                c,
            ),
    {
        let cursor_before = self.buffer.cursor();
        let at_end = cursor_before == self.buffer.len();
        self.buffer.insert(c);
        if at_end {
            push_char(out, c);
        } else {
            push_csi_left(out, cursor_before);
            push_chars_from(out, self.buffer.chars(), 0);
            push_erase_rest(out);
            let tail = self.buffer.len() - cursor_before - 1;
            push_csi_left(out, tail);
            proof {
                assert(self@.buffer.chars.skip(0) =~= self@.buffer.chars);
                assert(out@ =~= old(out)@ + render_insert(
                    old(self)@.buffer.chars,
                    old(self)@.buffer.cursor,
                    c,
                ));
            }
        }
    }

    /// Commits the line under edit: hands it back, appends it to the history
    /// exactly once, clears the buffer, resets the cursor, and appends the
    /// prompt bytes for the next line. Performed whether or not the line is
    /// empty.
    pub fn commit(&mut self, out: &mut Vec<u8>) -> (r: Vec<char>)
        requires
            repl_wf(old(self)@),
            old(self)@.history.entries.len() < usize::MAX,
        ensures
            repl_wf(final(self)@),
            r@ == old(self)@.buffer.chars,
            final(self)@.history == spec_append(old(self)@.history, old(self)@.buffer.chars),
            final(self)@.buffer.chars == Seq::<char>::empty(),
            final(self)@.buffer.cursor == 0,
            final(self)@.decoder == old(self)@.decoder,
            final(self)@.prompt == old(self)@.prompt,
            final(out)@ == old(out)@ + old(self)@.prompt,
    {
        let line = copy_chars(self.buffer.chars());
        let keep = copy_chars(&line);
        self.history.append(keep);
        self.buffer.clear();
        push_bytes(out, &self.prompt);
        line
    }

    /// Treats Enter as plain input instead of a commit: inserts a newline
    /// character at the cursor, with the usual insertion rendering. Used
    /// when the injected completeness predicate finds the line unfinished.
    pub fn insert_newline(&mut self, out: &mut Vec<u8>)
        requires
            repl_wf(old(self)@),
            old(self)@.buffer.chars.len() < usize::MAX,
        ensures
            repl_wf(final(self)@),
            final(self)@.buffer == spec_insert(old(self)@.buffer, '\n'),
            final(self)@.history == old(self)@.history,
            final(self)@.decoder == old(self)@.decoder,
            final(self)@.prompt == old(self)@.prompt,
            final(out)@ == old(out)@ + render_insert(
                old(self)@.buffer.chars,
                old(self)@.buffer.cursor,
                '\n',
            ),
    {
        self.apply_insert('\n', out);
    }
}

} // verus!
