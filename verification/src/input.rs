//! The input decoder: a byte-driven state machine that classifies each
//! incoming byte as a literal character, a control action, or part of an
//! escape sequence, and emits at most one edit action per byte.
//!
//! Multi-byte UTF-8 characters are reassembled before classification: the
//! bytes of an incomplete encoding wait in an accumulator until the character
//! is complete, and are dropped when the encoding turns out invalid.

use vstd::prelude::*;
use vstd::utf8::*;

verus! {

/// The escape-sequence parsing mode, tracked across successive input bytes.
#[derive(Clone, Copy, PartialEq, Eq, Debug)]
pub enum InputType {
    /// Plain input: bytes are characters or single-byte controls.
    Normal,
    /// The last byte was ESC; the next byte decides the kind of sequence.
    Escape,
    /// Inside a CSI sequence (`ESC [`); the next byte names the action.
    EscapeSequence,
}

/// A discrete edit action recognized from the byte stream.
#[derive(Clone, Copy, PartialEq, Eq, Debug)]
pub enum EditAction {
    /// Insert one character at the cursor.
    Insert(char),
    /// Remove the character just before the cursor.
    DeleteBackward,
    /// Move the cursor one character left.
    CursorLeft,
    /// Move the cursor one character right.
    CursorRight,
    /// Load the previous (older) history entry.
    HistoryPrev,
    /// Load the next (newer) history entry.
    HistoryNext,
    /// Enter was pressed: the line may be committed.
    Enter,
    /// End the editing loop.
    Terminate,
}

/// True for the scalar values of the control characters: the C0 range, DEL,
/// and the C1 range.
pub open spec fn is_control_scalar(u: u32) -> bool {
    u < 0x20 || (0x7F <= u && u < 0xA0)
}

/// True for the scalar values of the whitespace characters.
pub open spec fn is_whitespace_scalar(u: u32) -> bool {
    ||| u == 0x09
    ||| u == 0x0A
    ||| u == 0x0B
    ||| u == 0x0C
    ||| u == 0x0D
    ||| u == 0x20
    ||| u == 0x85
    ||| u == 0xA0
    ||| u == 0x1680
    ||| (0x2000 <= u && u <= 0x200A)
    ||| u == 0x2028
    ||| u == 0x2029
    ||| u == 0x202F
    ||| u == 0x205F
    ||| u == 0x3000
}

/// A character the editor inserts into the line: printable (not a control
/// character) or whitespace — tab excepted, which is never inserted.
pub open spec fn is_insertable(c: char) -> bool {
    let u = c as u32;
    u != 0x09 && (!is_control_scalar(u) || is_whitespace_scalar(u))
}

/// The byte length of the UTF-8 encoding announced by a leading byte; 1 also
/// for bytes that announce nothing.
pub open spec fn lead_width(b: u8) -> int {
    if is_leading_byte_width_2(b) {
        2
    } else if is_leading_byte_width_3(b) {
        3
    } else if is_leading_byte_width_4(b) {
        4
    } else {
        1
    }
}

/// The accumulator invariant: either empty, or a proper prefix of a
/// multi-byte encoding — a multi-byte leading byte followed only by
/// continuation bytes, still shorter than the announced width.
pub open spec fn pending_wf(p: Seq<u8>) -> bool {
    p.len() > 0 ==> {
        &&& 2 <= lead_width(p[0])
        &&& p.len() < lead_width(p[0])
        &&& forall|i: int| 1 <= i < p.len() ==> is_continuation_byte(#[trigger] p[i])
    }
}

/// Mathematical model of a [`Decoder`]: its parsing mode and the bytes of the
/// character still being reassembled.
pub ghost struct DecoderView {
    pub state: InputType,
    pub pending: Seq<u8>,
}

/// The decoder invariant: the accumulator is well formed and is only in use
/// in `Normal` mode.
pub open spec fn decoder_wf(d: DecoderView) -> bool {
    &&& pending_wf(d.pending)
    &&& !(d.state is Normal) ==> d.pending.len() == 0
}

/// The action produced by a completed multi-byte accumulator: the decoded
/// character when the bytes are a valid UTF-8 scalar encoding and the
/// character is insertable; nothing otherwise.
pub open spec fn spec_finish(p: Seq<u8>) -> Option<EditAction> {
    if valid_first_scalar(p) {
        let c = decode_first_scalar(p) as char;
        if is_insertable(c) {
            Some(EditAction::Insert(c))
        } else {
            None
        }
    } else {
        None
    }
}

/// One step of the decoder on a byte met in `Normal` mode with an empty
/// accumulator: the next mode, the new accumulator, and the action emitted.
pub open spec fn spec_step_fresh(b: u8) -> (InputType, Seq<u8>, Option<EditAction>) {
    if b == 0x1B {
        (InputType::Escape, Seq::<u8>::empty(), None)
    } else if b == 0x71 || b == 0x03 {
        (InputType::Normal, Seq::<u8>::empty(), Some(EditAction::Terminate))
    } else if b == 0x0A || b == 0x0D {
        (InputType::Normal, Seq::<u8>::empty(), Some(EditAction::Enter))
    } else if b == 0x08 || b == 0x7F {
        (InputType::Normal, Seq::<u8>::empty(), Some(EditAction::DeleteBackward))
    } else if b < 0x80 {
        let c = b as char;
        if is_insertable(c) {
            (InputType::Normal, Seq::<u8>::empty(), Some(EditAction::Insert(c)))
        } else {
            (InputType::Normal, Seq::<u8>::empty(), None)
        }
    } else if 0xC0 <= b && b <= 0xF7 {
        (InputType::Normal, seq![b], None)
    } else {
        (InputType::Normal, Seq::<u8>::empty(), None)
    }
}

/// One step of the decoder: from its model and one input byte to the next
/// model and the action emitted. ETX (0x03) terminates from every mode; an
/// unrecognized byte after ESC or `ESC [` always falls back to `Normal`.
pub open spec fn spec_step(d: DecoderView, b: u8) -> (InputType, Seq<u8>, Option<EditAction>) {
    if b == 0x03 {
        (InputType::Normal, Seq::<u8>::empty(), Some(EditAction::Terminate))
    } else {
        match d.state {
            InputType::Escape => {
                if b == 0x5B {
                    (InputType::EscapeSequence, Seq::<u8>::empty(), None)
                } else {
                    (InputType::Normal, Seq::<u8>::empty(), None)
                }
            },
            InputType::EscapeSequence => {
                let act = if b == 0x41 {
                    Some(EditAction::HistoryPrev)
                } else if b == 0x42 {
                    Some(EditAction::HistoryNext)
                } else if b == 0x43 {
                    Some(EditAction::CursorRight)
                } else if b == 0x44 {
                    Some(EditAction::CursorLeft)
                } else {
                    None
                };
                (InputType::Normal, Seq::<u8>::empty(), act)
            },
            InputType::Normal => {
                if d.pending.len() > 0 && is_continuation_byte(b) {
                    let p = d.pending.push(b);
                    if p.len() == lead_width(p[0]) {
                        (InputType::Normal, Seq::<u8>::empty(), spec_finish(p))
                    } else {
                        (InputType::Normal, p, None)
                    }
                } else {
                    spec_step_fresh(b)
                }
            },
        }
    }
}

/// Whether `c` is inserted into the line: printable or whitespace, tab
/// excepted.
pub fn insertable(c: char) -> (r: bool)
    ensures
        r == is_insertable(c),
{
    let u = c as u32;
    u != 0x09 && (!(u < 0x20 || (0x7F <= u && u < 0xA0)) || whitespace_scalar(u))
}

fn whitespace_scalar(u: u32) -> (r: bool)
    ensures
        r == is_whitespace_scalar(u),
{
    u == 0x09 || u == 0x0A || u == 0x0B || u == 0x0C || u == 0x0D || u == 0x20 || u == 0x85
        || u == 0xA0 || u == 0x1680 || (0x2000 <= u && u <= 0x200A) || u == 0x2028 || u == 0x2029
        || u == 0x202F || u == 0x205F || u == 0x3000
}

/// Relies on `char::from_u32` of std: a `u32` converts to a `char` exactly
/// when it is a Unicode scalar value, and the conversion keeps the numeric
/// value.
pub assume_specification[ char::from_u32 ](u: u32) -> (r: Option<char>)
    ensures
        r is Some <==> is_scalar(u),
        r matches Some(c) ==> c as u32 == u,
;

/// Decodes a completed accumulator: checks that the bytes are a valid,
/// shortest-form, non-surrogate UTF-8 encoding, and hands back the character
/// when it is insertable.
fn finish_scalar(p: &Vec<u8>) -> (r: Option<EditAction>)
    requires
        2 <= p@.len() <= 4,
        p@.len() == lead_width(p@[0]),
        forall|i: int| 1 <= i < p@.len() ==> is_continuation_byte(#[trigger] p@[i]),
    ensures
        r == spec_finish(p@),
{
    let b0 = p[0];
    if p.len() == 2 {
        let b1 = p[1];
        let code: u32 = (((b0 & 0x1F) as u32) << 6) | ((b1 & 0x3F) as u32);
        proof {
            assert(code == decode_first_codepoint(p@));
            assert((((b0 & 0x1F) as u32) << 6) | ((b1 & 0x3F) as u32) <= 0x7FF) by (bit_vector);
        }
        if code >= 0x80 {
            let c = char::from_u32(code).unwrap();
            proof {
                char_u32_cast(c, code);
            }
            if insertable(c) {
                Some(EditAction::Insert(c))
            } else {
                None
            }
        } else {
            None
        }
    } else if p.len() == 3 {
        let b1 = p[1];
        let b2 = p[2];
        let code: u32 = (((b0 & 0x0F) as u32) << 12) | (((b1 & 0x3F) as u32) << 6) | ((b2
            & 0x3F) as u32);
        proof {
            assert(code == decode_first_codepoint(p@));
            assert((((b0 & 0x0F) as u32) << 12) | (((b1 & 0x3F) as u32) << 6) | ((b2
                & 0x3F) as u32) <= 0xFFFF) by (bit_vector);
        }
        if code >= 0x800 && !(code >= 0xD800 && code <= 0xDFFF) {
            let c = char::from_u32(code).unwrap();
            proof {
                char_u32_cast(c, code);
            }
            if insertable(c) {
                Some(EditAction::Insert(c))
            } else {
                None
            }
        } else {
            None
        }
    } else {
        let b1 = p[1];
        let b2 = p[2];
        let b3 = p[3];
        let code: u32 = (((b0 & 0x07) as u32) << 18) | (((b1 & 0x3F) as u32) << 12) | (((b2
            & 0x3F) as u32) << 6) | ((b3 & 0x3F) as u32);
        proof {
            assert(code == decode_first_codepoint(p@));
        }
        if code >= 0x10000 && code <= 0x10FFFF {
            let c = char::from_u32(code).unwrap();
            proof {
                char_u32_cast(c, code);
            }
            if insertable(c) {
                Some(EditAction::Insert(c))
            } else {
                None
            }
        } else {
            None
        }
    }
}

/// The input decoder: feeds on one byte at a time and emits at most one edit
/// action per byte.
pub struct Decoder {
    state: InputType,
    pending: Vec<u8>,
}

impl View for Decoder {
    type V = DecoderView;

    closed spec fn view(&self) -> DecoderView {
        DecoderView { state: self.state, pending: self.pending@ }
    }
}

impl Decoder {
    /// A decoder in `Normal` mode with an empty accumulator.
    pub fn new() -> (r: Decoder)
        ensures
            r@.state is Normal,
            r@.pending == Seq::<u8>::empty(),
            decoder_wf(r@),
    {
        Decoder { state: InputType::Normal, pending: Vec::new() }
    }

    /// The current parsing mode.
    pub fn state(&self) -> (r: InputType)
        ensures
            r == self@.state,
    {
        self.state
    }

    /// Consumes one input byte and returns the edit action it completes, if
    /// any. The whole transition — next mode, new accumulator contents, and
    /// action — is exactly [`spec_step`]; in particular ETX (0x03) yields
    /// [`EditAction::Terminate`] from every mode.
    pub fn step(&mut self, b: u8) -> (r: Option<EditAction>)
        requires
            decoder_wf(old(self)@),
        ensures
            (final(self)@.state, final(self)@.pending, r) == spec_step(old(self)@, b),
            decoder_wf(final(self)@),
            b == 0x03 ==> r == Some(EditAction::Terminate),
    {
        if b == 0x03 {
            self.state = InputType::Normal;
            self.pending.clear();
            return Some(EditAction::Terminate);
        }
        match self.state {
            InputType::Escape => {
                if b == 0x5B {
                    self.state = InputType::EscapeSequence;
                } else {
                    self.state = InputType::Normal;
                }
                None
            },
            InputType::EscapeSequence => {
                self.state = InputType::Normal;
                if b == 0x41 {
                    Some(EditAction::HistoryPrev)
                } else if b == 0x42 {
                    Some(EditAction::HistoryNext)
                } else if b == 0x43 {
                    Some(EditAction::CursorRight)
                } else if b == 0x44 {
                    Some(EditAction::CursorLeft)
                } else {
                    None
                }
            },
            InputType::Normal => {
                if self.pending.len() > 0 && 0x80 <= b && b <= 0xBF {
                    let width = lead_width_exec(self.pending[0]);
                    self.pending.push(b);
                    if self.pending.len() == width {
                        let r = finish_scalar(&self.pending);
                        self.pending.clear();
                        r
                    } else {
                        None
                    }
                } else {
                    self.pending.clear();
                    self.step_fresh(b)
                }
            },
        }
    }

    /// Handles a byte met in `Normal` mode with an empty accumulator.
    fn step_fresh(&mut self, b: u8) -> (r: Option<EditAction>)
        requires
            old(self)@.state is Normal,
            old(self)@.pending == Seq::<u8>::empty(),
            b != 0x03,
        ensures
            (final(self)@.state, final(self)@.pending, r) == spec_step_fresh(b),
            decoder_wf(final(self)@),
    {
        if b == 0x1B {
            self.state = InputType::Escape;
            None
        } else if b == 0x71 {
            Some(EditAction::Terminate)
        } else if b == 0x0A || b == 0x0D {
            Some(EditAction::Enter)
        } else if b == 0x08 || b == 0x7F {
            Some(EditAction::DeleteBackward)
        } else if b < 0x80 {
            let c = b as char;
            if insertable(c) {
                Some(EditAction::Insert(c))
            } else {
                None
            }
        } else if 0xC0 <= b && b <= 0xF7 {
            self.pending.push(b);
            None
        } else {
            None
        }
    }
}

fn lead_width_exec(b: u8) -> (r: usize)
    ensures
        r == lead_width(b),
{
    if 0xC0 <= b && b <= 0xDF {
        2
    } else if 0xE0 <= b && b <= 0xEF {
        3
    } else if 0xF0 <= b && b <= 0xF7 {
        4
    } else {
        1
    }
}

} // verus!
