use repline::Error;
use repline::Repl;
use repline::ReplState;

fn prompt() -> Vec<u8> {
    b"> ".to_vec()
}

fn feed(repl: &mut Repl, bytes: &[u8]) -> (Vec<u8>, ReplState) {
    let mut out: Vec<u8> = Vec::new();
    let mut last = ReplState::Continue;
    for &b in bytes {
        last = repl.handle_byte(b, &mut out);
    }
    (out, last)
}

#[test]
fn append_at_end_emits_the_character() {
    let mut repl = Repl::new(prompt());
    let (out, _) = feed(&mut repl, b"a");
    assert_eq!(out, b"a".to_vec());
    let (out, _) = feed(&mut repl, "\u{e9}".as_bytes());
    assert_eq!(out, "\u{e9}".as_bytes().to_vec());
}

#[test]
fn insert_mid_line_rewrites_line() {
    // "ab", Left, then "x" at cursor 1: move left by the old cursor count,
    // rewrite "axb" and erase, then move left over the one character after
    // the new cursor.
    let mut repl = Repl::new(prompt());
    feed(&mut repl, b"ab\x1b[D");
    let (out, _) = feed(&mut repl, b"x");
    let mut expected: Vec<u8> = Vec::new();
    expected.extend_from_slice(b"\x1b[1D");
    expected.extend_from_slice(b"axb");
    expected.extend_from_slice(b"\x1b[K");
    expected.extend_from_slice(b"\x1b[1D");
    assert_eq!(out, expected);
}

#[test]
fn insert_at_start_emits_zero_column_move() {
    let mut repl = Repl::new(prompt());
    feed(&mut repl, b"ab\x1b[D\x1b[D");
    let (out, _) = feed(&mut repl, b"x");
    let mut expected: Vec<u8> = Vec::new();
    expected.extend_from_slice(b"\x1b[0D");
    expected.extend_from_slice(b"xab");
    expected.extend_from_slice(b"\x1b[K");
    expected.extend_from_slice(b"\x1b[2D");
    assert_eq!(out, expected);
}

#[test]
fn delete_last_character_rendering() {
    // Deleting the last character: one column left, nothing to rewrite,
    // erase to end of line, no reposition move.
    let mut repl = Repl::new(prompt());
    feed(&mut repl, b"ab");
    let (out, _) = feed(&mut repl, b"\x7f");
    assert_eq!(out, b"\x1b[1D\x1b[K".to_vec());
}

#[test]
fn delete_mid_line_rewrites_tail() {
    // "abc", Left, backspace removes 'b': left one column, rewrite "c",
    // erase, then move left over the one remaining character.
    let mut repl = Repl::new(prompt());
    feed(&mut repl, b"abc\x1b[D");
    let (out, _) = feed(&mut repl, b"\x7f");
    let mut expected: Vec<u8> = Vec::new();
    expected.extend_from_slice(b"\x1b[1D");
    expected.extend_from_slice(b"c");
    expected.extend_from_slice(b"\x1b[K");
    expected.extend_from_slice(b"\x1b[1D");
    assert_eq!(out, expected);
}

#[test]
fn history_load_redraws_whole_line() {
    let mut repl = Repl::new(prompt());
    let mut out: Vec<u8> = Vec::new();
    feed(&mut repl, b"hi\r");
    repl.commit(&mut out);
    let (out, _) = feed(&mut repl, b"\x1b[A");
    let mut expected: Vec<u8> = Vec::new();
    expected.push(0x0D);
    expected.extend_from_slice(b"> ");
    expected.extend_from_slice(b"hi");
    expected.extend_from_slice(b"\x1b[K");
    assert_eq!(out, expected);
}

#[test]
fn commit_emits_prompt() {
    let mut repl = Repl::new(prompt());
    let mut out: Vec<u8> = Vec::new();
    feed(&mut repl, b"x\r");
    repl.commit(&mut out);
    assert_eq!(out, b"> ".to_vec());
}

#[test]
fn emit_prompt_writes_prompt_bytes() {
    let repl = Repl::new(prompt());
    let mut out: Vec<u8> = Vec::new();
    repl.emit_prompt(&mut out);
    assert_eq!(out, b"> ".to_vec());
}

#[test]
fn cursor_moves_emit_single_column_sequences() {
    let mut repl = Repl::new(prompt());
    feed(&mut repl, b"ab");
    let (out, _) = feed(&mut repl, b"\x1b[D");
    assert_eq!(out, b"\x1b[1D".to_vec());
    let (out, _) = feed(&mut repl, b"\x1b[C");
    assert_eq!(out, b"\x1b[1C".to_vec());
}

#[test]
fn reposition_count_uses_decimal_digits() {
    // Insert at the start of a 12-character line: the final reposition
    // move is by 12 columns, written as two decimal digits.
    let mut repl = Repl::new(prompt());
    feed(&mut repl, b"abcdefghijkl");
    for _ in 0..12 {
        feed(&mut repl, b"\x1b[D");
    }
    let (out, _) = feed(&mut repl, b"x");
    let mut expected: Vec<u8> = Vec::new();
    expected.extend_from_slice(b"\x1b[0D");
    expected.extend_from_slice(b"xabcdefghijkl");
    expected.extend_from_slice(b"\x1b[K");
    expected.extend_from_slice(b"\x1b[12D");
    assert_eq!(out, expected);
}

#[test]
fn error_messages_name_their_kind() {
    assert_eq!(
        Error::InitFail(String::from("boom")).message(),
        "initialization failed: boom"
    );
    assert_eq!(Error::IoFlush(String::from("f")).message(), "IO flush error: f");
    assert_eq!(Error::IoRead(String::from("r")).message(), "IO read error: r");
    assert_eq!(Error::IoWrite(String::from("w")).message(), "IO write error: w");
    assert_eq!(
        Error::ProcessLine(String::from("p")).message(),
        "Process Line error: p"
    );
}
