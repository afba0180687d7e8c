use vstd::prelude::*;

use crate::devices::{byte_of, nth_byte};
use crate::text::{
    chars_of, first_index, first_is_first_index, joined, read_unsigned, split, split_on, trim,
    trimmed_text, unsigned_number,
};

verus! {

/// Why a memory image was not read.
#[derive(Clone, Debug, PartialEq, Eq)]
pub enum ReadFileError {
    /// The line that is no record, or that does not fit the memory.
    ParseError(String),
    /// The host's error in words.
    IoError(String),
    /// The text that is no number.
    ParseIntError(String),
}

/// A `ReadFileError` with its text as a sequence.
pub enum ReadProblem {
    ParseError(Seq<char>),
    IoError(Seq<char>),
    ParseIntError(Seq<char>),
}

impl View for ReadFileError {
    type V = ReadProblem;

    open spec fn view(&self) -> ReadProblem {
        match self {
            ReadFileError::ParseError(t) => ReadProblem::ParseError(t@),
            ReadFileError::IoError(t) => ReadProblem::IoError(t@),
            ReadFileError::ParseIntError(t) => ReadProblem::ParseIntError(t@),
        }
    }
}

impl ReadProblem {
    /// What the error says.
    pub open spec fn message_text(self) -> Seq<char> {
        match self {
            ReadProblem::ParseError(t) => "Failed to parse line: "@ + t,
            ReadProblem::IoError(t) => "IO ERROR: "@ + t,
            ReadProblem::ParseIntError(t) => "Failed to parse number: "@ + t,
        }
    }
}

impl ReadFileError {
    /// What the error says.
    pub fn message(&self) -> (r: String)
        ensures
            r@ == self@.message_text(),
    {
        match self {
            ReadFileError::ParseError(t) => joined("Failed to parse line: ", t.as_str()),
            ReadFileError::IoError(t) => joined("IO ERROR: ", t.as_str()),
            ReadFileError::ParseIntError(t) => joined("Failed to parse number: ", t.as_str()),
        }
    }
}

/// How many bytes a token of `len` bytes of text writes: four from eight
/// digits on, two from four digits on, else one.
pub open spec fn bytes_written(len: int) -> int {
    if len >= 8 {
        4
    } else if len >= 4 {
        2
    } else {
        1
    }
}

/// The memory with the low bytes of `value` at `at`, lowest first.
pub open spec fn placed(bytes: Seq<u8>, at: int, count: int, value: u32) -> Seq<u8> {
    if count == 1 {
        bytes.update(at, byte_of(value, 0))
    } else if count == 2 {
        bytes.update(at, byte_of(value, 0)).update(at + 1, byte_of(value, 1))
    } else {
        bytes.update(at, byte_of(value, 0)).update(at + 1, byte_of(value, 1)).update(
            at + 2,
            byte_of(value, 2),
        ).update(at + 3, byte_of(value, 3))
    }
}

/// The memory after data tokens are loaded in their order, and the error
/// that ended the loading, if one did. A token is given by the length of
/// its text in bytes and by its digits, a hexadecimal number; it is
/// written at `base + offset`, and the next token half its length further
/// on. What was written before an error stays.
pub open spec fn tokens_loaded(
    bytes: Seq<u8>,
    base: int,
    offset: int,
    tokens: Seq<(int, Seq<char>)>,
    line: Seq<char>,
) -> (Seq<u8>, Option<ReadProblem>)
    decreases tokens.len(),
{
    if tokens.len() == 0 {
        (bytes, None)
    } else {
        let (len, digits) = tokens[0];
        match unsigned_number(digits, 16, u32::MAX as nat) {
            None => (bytes, Some(ReadProblem::ParseIntError(digits))),
            Some(value) => if base + offset + bytes_written(len) > bytes.len() {
                (bytes, Some(ReadProblem::ParseError(line)))
            } else {
                tokens_loaded(
                    placed(bytes, base + offset, bytes_written(len), value as u32),
                    base,
                    offset + len / 2,
                    tokens.skip(1),
                    line,
                )
            },
        }
    }
}

/// A token as the loader takes it: the length of its text in bytes, and
/// the text trimmed.
pub open spec fn measured(token: Seq<char>) -> (int, Seq<char>) {
    (vstd::utf8::encode_utf8(token).len() as int, trimmed_text(token))
}

/// The memory after a record is loaded, and the error that ended the
/// loading, if one did. A record is an address in hexadecimal, a colon,
/// and data tokens separated by single spaces.
pub open spec fn line_loaded(bytes: Seq<u8>, line: Seq<char>) -> (Seq<u8>, Option<ReadProblem>) {
    let colon = first_index(line, ':');
    if colon >= line.len() {
        (bytes, Some(ReadProblem::ParseError(line)))
    } else {
        let addr = trimmed_text(line.take(colon));
        match unsigned_number(addr, 16, u32::MAX as nat) {
            None => (bytes, Some(ReadProblem::ParseIntError(addr))),
            Some(base) => tokens_loaded(
                bytes,
                base as int,
                0,
                split_on(trimmed_text(line.skip(colon + 1)), ' ').map_values(
                    |token: Seq<char>| measured(token),
                ),
                line,
            ),
        }
    }
}

/// The tokens of a list as the loader takes them.
pub open spec fn token_views(tokens: Seq<(usize, &str)>) -> Seq<(int, Seq<char>)> {
    tokens.map_values(|token: (usize, &str)| (token.0 as int, token.1@))
}

/// A hexadecimal number of at most 32 bits, with an optional `+` before
/// it.
pub fn read_word(s: &str) -> (r: Option<u32>)
    ensures
        match unsigned_number(s@, 16, u32::MAX as nat) {
            Some(v) => r == Some(v as u32),
            None => r is None,
        },
{
    let chars = chars_of(s);
    assert(chars@.skip(0) =~= chars@);
    match read_unsigned(&chars, 0, 16, 0xffff_ffff) {
        Some(v) => Some(v as u32),
        None => None,
    }
}

/// Writes the low `count` bytes of `value` at `at`.
fn place(bytes: &mut Vec<u8>, at: usize, count: usize, value: u32)
    requires
        count == 1 || count == 2 || count == 4,
        at + count <= old(bytes)@.len(),
    ensures
        final(bytes)@ == placed(old(bytes)@, at as int, count as int, value),
{
    let size = bytes.len();
    bytes[at] = nth_byte(value, 0);
    if count >= 2 {
        bytes[at + 1] = nth_byte(value, 1);
    }
    if count >= 4 {
        bytes[at + 2] = nth_byte(value, 2);
        bytes[at + 3] = nth_byte(value, 3);
    }
}

/// Loads data tokens into the memory from `base` on. Each token is given
/// by the length of its text in bytes and by its digits.
pub fn load_tokens(bytes: &mut Vec<u8>, base: u32, tokens: &Vec<(usize, &str)>, line: &str) -> (r:
    Result<(), ReadFileError>)
    ensures
        final(bytes)@ == tokens_loaded(old(bytes)@, base as int, 0, token_views(tokens@), line@).0,
        match tokens_loaded(old(bytes)@, base as int, 0, token_views(tokens@), line@).1 {
            None => r is Ok,
            Some(problem) => r matches Err(e) && e@ == problem,
        },
{
    let ghost texts = token_views(tokens@);
    let mut offset: u128 = 0;
    let mut i: usize = 0;
    assert(texts.skip(0) =~= texts);
    while i < tokens.len()
        invariant
            i <= tokens@.len() == texts.len(),
            texts == token_views(tokens@),
            bytes@.len() == old(bytes)@.len(),
            offset <= i * 0x8000_0000_0000_0000,
            tokens_loaded(old(bytes)@, base as int, 0, texts, line@) == tokens_loaded(
                bytes@,
                base as int,
                offset as int,
                texts.skip(i as int),
                line@,
            ),
        decreases tokens@.len() - i,
    {
        let (len, digits) = tokens[i];
        proof {
            assert(texts.skip(i as int)[0] == (len as int, digits@));
            assert(texts.skip(i as int).skip(1) =~= texts.skip(i + 1));
        }
        let value = match read_word(digits) {
            Some(value) => value,
            None => { return Err(ReadFileError::ParseIntError(String::from_str(digits))); },
        };
        let count: usize = if len >= 8 {
            4
        } else if len >= 4 {
            2
        } else {
            1
        };
        let size = bytes.len();
        if base as u128 + offset + count as u128 > size as u128 {
            return Err(ReadFileError::ParseError(String::from_str(line)));
        }
        let ghost before = bytes@;
        let ghost rest = texts.skip(i as int);
        place(bytes, (base as u128 + offset) as usize, count, value);
        assert(tokens_loaded(before, base as int, offset as int, rest, line@) == tokens_loaded(
            bytes@,
            base as int,
            offset + len / 2,
            rest.skip(1),
            line@,
        ));
        offset = offset + (len / 2) as u128;
        i += 1;
    }
    Ok(())
}

/// Loads one record of a memory image into the memory.
pub fn load_line(bytes: &mut Vec<u8>, line: &str) -> (r: Result<(), ReadFileError>)
    ensures
        final(bytes)@ == line_loaded(old(bytes)@, line@).0,
        match line_loaded(old(bytes)@, line@).1 {
            None => r is Ok,
            Some(problem) => r matches Err(e) && e@ == problem,
        },
{
    let chars = chars_of(line);
    let mut colon: usize = 0;
    while colon < chars.len() && chars[colon] != ':'
        invariant
            colon <= chars@.len(),
            forall|j: int| 0 <= j < colon ==> chars@[j] != ':',
        decreases chars@.len() - colon,
    {
        colon += 1;
    }
    proof {
        first_is_first_index(line@, ':', colon as int);
    }
    if colon >= chars.len() {
        return Err(ReadFileError::ParseError(String::from_str(line)));
    }
    let addr = trim(line.substring_char(0, colon));
    let base = match read_word(addr) {
        Some(base) => base,
        None => { return Err(ReadFileError::ParseIntError(String::from_str(addr))); },
    };
    let pieces = split(trim(line.substring_char(colon + 1, chars.len())), ' ');
    let ghost texts = split_on(trimmed_text(line@.skip(colon + 1)), ' ');
    assert(line@.skip(colon + 1) =~= line@.subrange(colon + 1, chars@.len() as int));
    assert(line@.take(colon as int) =~= line@.subrange(0, colon as int));
    let mut tokens: Vec<(usize, &str)> = Vec::new();
    let mut i: usize = 0;
    while i < pieces.len()
        invariant
            i <= pieces@.len() == texts.len(),
            forall|k: int| 0 <= k < pieces@.len() ==> (#[trigger] pieces@[k])@ == texts[k],
            tokens@.len() == i,
            forall|k: int|
                0 <= k < i ==> ((#[trigger] tokens@[k]).0 as int, tokens@[k].1@) == measured(
                    texts[k],
                ),
        decreases pieces@.len() - i,
    {
        let piece = pieces[i];
        tokens.push((piece.as_bytes().len(), trim(piece)));
        i += 1;
    }
    assert(token_views(tokens@) =~= texts.map_values(|token: Seq<char>| measured(token)));
    load_tokens(bytes, base, &tokens, line)
}

} // verus!
