//! The renderer: turns buffer and cursor changes into the terminal control
//! bytes that keep the visible line consistent with the in-memory state.
//!
//! Three primitives carry every policy: move-cursor-by-N-columns (CSI `D` and
//! `C`), erase-to-end-of-line (CSI `K`), and carriage-return-then-redraw.
//! Column counts assume one terminal column per character.

use vstd::prelude::*;
use vstd::utf8::*;

verus! {

/// The decimal digits of `n`, most significant first, as ASCII bytes.
pub open spec fn dec_rep(n: nat) -> Seq<u8>
    decreases n,
{
    if n < 10 {
        seq![(0x30 + n) as u8]
    } else {
        dec_rep(n / 10) + seq![(0x30 + (n % 10)) as u8]
    }
}

/// The CSI sequence that moves the cursor `n` columns left: `ESC [ n D`.
pub open spec fn csi_left(n: nat) -> Seq<u8> {
    seq![0x1Bu8, 0x5Bu8] + dec_rep(n) + seq![0x44u8]
}

/// The CSI sequence that moves the cursor `n` columns right: `ESC [ n C`.
pub open spec fn csi_right(n: nat) -> Seq<u8> {
    seq![0x1Bu8, 0x5Bu8] + dec_rep(n) + seq![0x43u8]
}

/// The CSI sequence that erases from the cursor to the end of the line:
/// `ESC [ K`.
pub open spec fn erase_rest() -> Seq<u8> {
    seq![0x1Bu8, 0x5Bu8, 0x4Bu8]
}

/// The output for inserting `c` when the cursor sat at `cursor` in a line
/// `before`: a lone character when appending at the end; otherwise move to
/// the start of the text, rewrite the whole new line, erase what may trail
/// it, and move back left onto the insertion point.
pub open spec fn render_insert(before: Seq<char>, cursor: int, c: char) -> Seq<u8> {
    if cursor == before.len() {
        encode_scalar(c as u32)
    } else {
        csi_left(cursor as nat) + encode_utf8(before.insert(cursor, c)) + erase_rest() + csi_left(
            (before.len() - cursor) as nat,
        )
    }
}

/// The output for deleting backward, given the line `after` the deletion and
/// the new cursor position: one column left, rewrite the tail from the
/// deletion point, erase the leftover column, and move back left when any
/// characters remain after the cursor.
pub open spec fn render_delete(after: Seq<char>, cursor: int) -> Seq<u8> {
    csi_left(1) + encode_utf8(after.skip(cursor)) + erase_rest() + if after.len() - cursor > 0 {
        csi_left((after.len() - cursor) as nat)
    } else {
        Seq::<u8>::empty()
    }
}

/// The output for loading a history entry: carriage return, the prompt, the
/// whole entry, then erase whatever the previous line may have left behind.
pub open spec fn render_history(prompt: Seq<u8>, line: Seq<char>) -> Seq<u8> {
    seq![0x0Du8] + prompt + encode_utf8(line) + erase_rest()
}

/// Appends the decimal digits of `n` to `out`.
pub fn push_decimal(out: &mut Vec<u8>, n: usize)
    ensures
        final(out)@ == old(out)@ + dec_rep(n as nat),
    decreases n,
{
    if n >= 10 {
        push_decimal(out, n / 10);
        out.push(0x30 + (n % 10) as u8);
        assert(out@ =~= old(out)@ + dec_rep(n as nat));
    } else {
        out.push(0x30 + n as u8);
        assert(out@ =~= old(out)@ + dec_rep(n as nat));
    }
}

/// Appends `ESC [ n D` to `out`.
pub fn push_csi_left(out: &mut Vec<u8>, n: usize)
    ensures
        final(out)@ == old(out)@ + csi_left(n as nat),
{
    out.push(0x1B);
    out.push(0x5B);
    push_decimal(out, n);
    out.push(0x44);
    assert(out@ =~= old(out)@ + csi_left(n as nat));
}

/// Appends `ESC [ n C` to `out`.
pub fn push_csi_right(out: &mut Vec<u8>, n: usize)
    ensures
        final(out)@ == old(out)@ + csi_right(n as nat),
{
    out.push(0x1B);
    out.push(0x5B);
    push_decimal(out, n);
    out.push(0x43);
    assert(out@ =~= old(out)@ + csi_right(n as nat));
}

/// Appends `ESC [ K` to `out`.
pub fn push_erase_rest(out: &mut Vec<u8>)
    ensures
        final(out)@ == old(out)@ + erase_rest(),
{
    out.push(0x1B);
    out.push(0x5B);
    out.push(0x4B);
    assert(out@ =~= old(out)@ + erase_rest());
}

/// Appends the UTF-8 encoding of `c` to `out`.
pub fn push_char(out: &mut Vec<u8>, c: char)
    ensures
        final(out)@ == old(out)@ + encode_scalar(c as u32),
{
    let u = c as u32;
    proof {
        char_is_scalar(c);
    }
    if u <= 0x7F {
        out.push((u & 0x7F) as u8);
        assert(out@ =~= old(out)@ + encode_scalar(c as u32));
    } else if u <= 0x7FF {
        out.push(0xC0 | ((u >> 6) & 0x1F) as u8);
        out.push(0x80 | (u & 0x3F) as u8);
        assert(out@ =~= old(out)@ + encode_scalar(c as u32));
    } else if u <= 0xFFFF {
        out.push(0xE0 | ((u >> 12) & 0x0F) as u8);
        out.push(0x80 | ((u >> 6) & 0x3F) as u8);
        out.push(0x80 | (u & 0x3F) as u8);
        assert(out@ =~= old(out)@ + encode_scalar(c as u32));
    } else {
        out.push(0xF0 | ((u >> 18) & 0x7) as u8);
        out.push(0x80 | ((u >> 12) & 0x3F) as u8);
        out.push(0x80 | ((u >> 6) & 0x3F) as u8);
        out.push(0x80 | (u & 0x3F) as u8);
        assert(out@ =~= old(out)@ + encode_scalar(c as u32));
    }
}

/// Splitting a character sequence splits its UTF-8 encoding at the same
/// boundary.
pub proof fn lemma_encode_utf8_concat(a: Seq<char>, b: Seq<char>)
    ensures
        encode_utf8(a + b) == encode_utf8(a) + encode_utf8(b),
    decreases a.len(),
{
    if a.len() == 0 {
        assert(a + b =~= b);
        assert(encode_utf8(a) + encode_utf8(b) =~= encode_utf8(b));
    } else {
        assert((a + b).drop_first() =~= a.drop_first() + b);
        lemma_encode_utf8_concat(a.drop_first(), b);
        assert((a + b)[0] == a[0]);
        assert(encode_utf8(a + b) =~= encode_utf8(a) + encode_utf8(b));
    }
}

/// Appends the UTF-8 encoding of `chars[from..]` to `out`.
pub fn push_chars_from(out: &mut Vec<u8>, chars: &Vec<char>, from: usize)
    requires
        from <= chars@.len(),
    ensures
        final(out)@ == old(out)@ + encode_utf8(chars@.skip(from as int)),
{
    let mut i: usize = from;
    while i < chars.len()
        invariant
            from <= i <= chars@.len(),
            out@ == old(out)@ + encode_utf8(chars@.subrange(from as int, i as int)),
        decreases chars@.len() - i,
    {
        push_char(out, chars[i]);
        proof {
            let prefix = chars@.subrange(from as int, i as int);
            let one = chars@.subrange(i as int, i as int + 1);
            lemma_encode_utf8_concat(prefix, one);
            assert(prefix + one =~= chars@.subrange(from as int, i as int + 1));
            assert(one[0] == chars@[i as int]);
            assert(one.drop_first() =~= Seq::<char>::empty());
            assert(encode_utf8(one) == encode_scalar(one[0] as u32) + encode_utf8(
                one.drop_first(),
            ));
            assert(encode_utf8(Seq::<char>::empty()) == Seq::<u8>::empty());
            assert(encode_utf8(one) =~= encode_scalar(chars@[i as int] as u32));
            assert(out@ =~= old(out)@ + encode_utf8(chars@.subrange(from as int, i as int + 1)));
        }
        i = i + 1;
    }
    assert(chars@.subrange(from as int, chars@.len() as int) =~= chars@.skip(from as int));
}

/// Appends all of `bytes` to `out`.
pub fn push_bytes(out: &mut Vec<u8>, bytes: &Vec<u8>)
    ensures
        final(out)@ == old(out)@ + bytes@,
{
    let mut i: usize = 0;
    while i < bytes.len()
        invariant
            i <= bytes@.len(),
            out@ == old(out)@ + bytes@.subrange(0, i as int),
        decreases bytes@.len() - i,
    {
        out.push(bytes[i]);
        assert(out@ =~= old(out)@ + bytes@.subrange(0, i + 1 as int));
        i = i + 1;
    }
    assert(out@ =~= old(out)@ + bytes@);
}

} // verus!
