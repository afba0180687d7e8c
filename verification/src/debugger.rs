use vstd::prelude::*;
use vstd::std_specs::cmp::PartialEqSpecImpl;

use crate::bits::{i16_of, i32_of, i8_of, signed16, signed32, signed8, wrap32};
use crate::register::Register;
use crate::text::{
    begins, chars_of, lowercase, lowercase_text, quoted, read_signed, read_unsigned, same_text,
    signed_number, split, split_on, starts_with, strip, stripped, trim, trimmed_text,
    unsigned_number,
};

verus! {

/// How a peeked value is shown.
#[derive(Clone, Copy, Debug, PartialEq, Eq, Structural)]
pub enum DisplayFormat {
    Hex,
    Signed,
    Unsigned,
    Binary,
}

impl Default for DisplayFormat {
    fn default() -> (r: DisplayFormat)
        ensures
            r == DisplayFormat::Hex,
    {
        DisplayFormat::Hex
    }
}

/// What a command reads or writes: a register or a place in memory.
#[derive(Clone, Copy, Debug, PartialEq, Eq, Structural)]
pub enum Location {
    /// A register number
    Register(Register),
    /// A memory address
    Addr(u32),
}

/// A breakpoint to remove: by its address or by its place in the list.
#[derive(Clone, Copy, Debug, PartialEq, Eq, Structural)]
pub enum BreakpointIdentifier {
    Addr(u32),
    Index(usize),
}

/// What `POKE` writes, with its width.
#[derive(Clone, Copy, Debug, PartialEq, Eq, Structural)]
pub enum Data {
    Byte(i8),
    Halfword(i16),
    Word(i32),
}

/// Why a line is not a debugger command. The text is the part of the line
/// that was not understood.
#[derive(Clone, Debug, Eq)]
pub enum DebugParseError {
    Empty,
    NotEnoughArguments,
    TooManyArguments,
    InvalidCommand(String),
    InvalidData(String),
    InvalidFormat(String),
    InvalidLocation(String),
    InvalidNumber(String),
    FailedToParseSuffix(String),
    InvalidHex(String),
}

impl DebugParseError {
    /// Two errors are the same when they are of one kind and carry the same
    /// text.
    pub open spec fn same(&self, other: &DebugParseError) -> bool {
        match (self, other) {
            (DebugParseError::Empty, DebugParseError::Empty) => true,
            (DebugParseError::NotEnoughArguments, DebugParseError::NotEnoughArguments) => true,
            (DebugParseError::TooManyArguments, DebugParseError::TooManyArguments) => true,
            (DebugParseError::InvalidCommand(a), DebugParseError::InvalidCommand(b)) => a@ == b@,
            (DebugParseError::InvalidData(a), DebugParseError::InvalidData(b)) => a@ == b@,
            (DebugParseError::InvalidFormat(a), DebugParseError::InvalidFormat(b)) => a@ == b@,
            (DebugParseError::InvalidLocation(a), DebugParseError::InvalidLocation(b)) => a@ == b@,
            (DebugParseError::InvalidNumber(a), DebugParseError::InvalidNumber(b)) => a@ == b@,
            (
                DebugParseError::FailedToParseSuffix(a),
                DebugParseError::FailedToParseSuffix(b),
            ) => a@ == b@,
            (DebugParseError::InvalidHex(a), DebugParseError::InvalidHex(b)) => a@ == b@,
            _ => false,
        }
    }
}

impl PartialEq for DebugParseError {
    fn eq(&self, other: &DebugParseError) -> (r: bool) {
        match (self, other) {
            (DebugParseError::Empty, DebugParseError::Empty) => true,
            (DebugParseError::NotEnoughArguments, DebugParseError::NotEnoughArguments) => true,
            (DebugParseError::TooManyArguments, DebugParseError::TooManyArguments) => true,
            (DebugParseError::InvalidCommand(a), DebugParseError::InvalidCommand(b)) => *a == *b,
            (DebugParseError::InvalidData(a), DebugParseError::InvalidData(b)) => *a == *b,
            (DebugParseError::InvalidFormat(a), DebugParseError::InvalidFormat(b)) => *a == *b,
            (DebugParseError::InvalidLocation(a), DebugParseError::InvalidLocation(b)) => *a == *b,
            (DebugParseError::InvalidNumber(a), DebugParseError::InvalidNumber(b)) => *a == *b,
            (
                DebugParseError::FailedToParseSuffix(a),
                DebugParseError::FailedToParseSuffix(b),
            ) => *a == *b,
            (DebugParseError::InvalidHex(a), DebugParseError::InvalidHex(b)) => *a == *b,
            _ => false,
        }
    }
}

impl PartialEqSpecImpl for DebugParseError {
    open spec fn obeys_eq_spec() -> bool {
        true
    }

    open spec fn eq_spec(&self, other: &DebugParseError) -> bool {
        self.same(other)
    }
}

/// A command of the debugger.
#[allow(non_camel_case_types)]
#[derive(Clone, Copy, Debug, PartialEq, Eq, Structural)]
pub enum DebugCommand {
    PEEK(DisplayFormat, Location),
    WATCH(DisplayFormat, Location),
    RMWATCH(Location),
    // Depending on number of characters in data will pick byte, halfword, or word, smallest first
    POKE(Data, Location),
    STEP(usize),
    BREAK(u32),
    RMBRK(BreakpointIdentifier),
    LSBRK,
    CONTINUE,
    HELP,
    EXIT,
}

/// A `DebugParseError` with its text as a sequence.
pub enum ParseProblem {
    Empty,
    NotEnoughArguments,
    TooManyArguments,
    InvalidCommand(Seq<char>),
    InvalidData(Seq<char>),
    InvalidFormat(Seq<char>),
    InvalidLocation(Seq<char>),
    InvalidNumber(Seq<char>),
    FailedToParseSuffix(Seq<char>),
    InvalidHex(Seq<char>),
}

impl View for DebugParseError {
    type V = ParseProblem;

    open spec fn view(&self) -> ParseProblem {
        match self {
            DebugParseError::Empty => ParseProblem::Empty,
            DebugParseError::NotEnoughArguments => ParseProblem::NotEnoughArguments,
            DebugParseError::TooManyArguments => ParseProblem::TooManyArguments,
            DebugParseError::InvalidCommand(t) => ParseProblem::InvalidCommand(t@),
            DebugParseError::InvalidData(t) => ParseProblem::InvalidData(t@),
            DebugParseError::InvalidFormat(t) => ParseProblem::InvalidFormat(t@),
            DebugParseError::InvalidLocation(t) => ParseProblem::InvalidLocation(t@),
            DebugParseError::InvalidNumber(t) => ParseProblem::InvalidNumber(t@),
            DebugParseError::FailedToParseSuffix(t) => ParseProblem::FailedToParseSuffix(t@),
            DebugParseError::InvalidHex(t) => ParseProblem::InvalidHex(t@),
        }
    }
}

impl ParseProblem {
    /// What the error says.
    pub open spec fn message_text(self) -> Seq<char> {
        match self {
            ParseProblem::Empty => "Tried to parse empty string"@,
            ParseProblem::NotEnoughArguments => "Not enough arguments"@,
            ParseProblem::TooManyArguments => "Too many arguments"@,
            ParseProblem::InvalidCommand(t) => "Invalid command "@ + "`"@ + t + "`"@,
            ParseProblem::InvalidData(t) => "Invalid data "@ + "`"@ + t + "`"@,
            ParseProblem::InvalidFormat(t) => "Invalid format specifier "@ + "`"@ + t + "`"@,
            ParseProblem::InvalidLocation(t) => "Invalid address or location "@ + "`"@ + t + "`"@,
            ParseProblem::InvalidNumber(t) => "Failed to parse number, found "@ + "`"@ + t + "`"@,
            ParseProblem::FailedToParseSuffix(t) => "Failed to parse suffix "@ + "`"@ + t + "`"@,
            ParseProblem::InvalidHex(t) => "Invalid hex number "@ + "`"@ + t + "`"@,
        }
    }
}

impl DebugParseError {
    /// What the error says.
    pub fn message(&self) -> (r: String)
        ensures
            r@ == self@.message_text(),
    {
        match self {
            DebugParseError::Empty => String::from_str("Tried to parse empty string"),
            DebugParseError::NotEnoughArguments => String::from_str("Not enough arguments"),
            DebugParseError::TooManyArguments => String::from_str("Too many arguments"),
            DebugParseError::InvalidCommand(t) => quoted("Invalid command ", t.as_str()),
            DebugParseError::InvalidData(t) => quoted("Invalid data ", t.as_str()),
            DebugParseError::InvalidFormat(t) => quoted("Invalid format specifier ", t.as_str()),
            DebugParseError::InvalidLocation(t) => quoted(
                "Invalid address or location ",
                t.as_str(),
            ),
            DebugParseError::InvalidNumber(t) => quoted(
                "Failed to parse number, found ",
                t.as_str(),
            ),
            DebugParseError::FailedToParseSuffix(t) => quoted(
                "Failed to parse suffix ",
                t.as_str(),
            ),
            DebugParseError::InvalidHex(t) => quoted("Invalid hex number ", t.as_str()),
        }
    }
}

/// A result with its error as a `ParseProblem`.
pub open spec fn outcome<T>(r: Result<T, DebugParseError>) -> Result<T, ParseProblem> {
    match r {
        Ok(v) => Ok(v),
        Err(e) => Err(e@),
    }
}

/// The format that a token in lowercase names.
pub open spec fn format_named(lowered: Seq<char>) -> Result<DisplayFormat, ParseProblem> {
    if lowered == "/x"@ {
        Ok(DisplayFormat::Hex)
    } else if lowered == "/u"@ {
        Ok(DisplayFormat::Unsigned)
    } else if lowered == "/i"@ {
        Ok(DisplayFormat::Signed)
    } else if lowered == "/b"@ {
        Ok(DisplayFormat::Binary)
    } else {
        Err(ParseProblem::InvalidFormat(lowered))
    }
}

/// A hexadecimal number after any number of `0x` and then of `0X`.
pub open spec fn bare_hex(text: Seq<char>) -> Seq<char> {
    stripped(stripped(text, "0x"@), "0X"@)
}

/// The location that a token names: a register by its name, else an
/// address in hexadecimal.
pub open spec fn location_of(text: Seq<char>) -> Result<Location, ParseProblem> {
    match Register::named(text) {
        Some(reg) => Ok(Location::Register(reg)),
        None => match unsigned_number(bare_hex(text), 16, u32::MAX as nat) {
            Some(addr) => Ok(Location::Addr(addr as u32)),
            None => Err(ParseProblem::InvalidLocation(text)),
        },
    }
}

/// The breakpoint that a token and its lowercase form name: an address
/// where the token starts with `0x`, else an index in decimal.
pub open spec fn breakpoint_named(text: Seq<char>, lowered: Seq<char>) -> Result<
    BreakpointIdentifier,
    ParseProblem,
> {
    if starts_with(lowered, "0x"@) {
        match unsigned_number(stripped(lowered, "0x"@), 16, u32::MAX as nat) {
            Some(addr) => Ok(BreakpointIdentifier::Addr(addr as u32)),
            None => Err(ParseProblem::InvalidHex(text)),
        }
    } else {
        match unsigned_number(text, 10, usize::MAX as nat) {
            Some(index) => Ok(BreakpointIdentifier::Index(index as usize)),
            None => Err(ParseProblem::InvalidNumber(text)),
        }
    }
}

/// The datum of the width that a number fits: the smallest of byte,
/// halfword and word.
pub open spec fn fitted(number: u32) -> Data {
    if number <= u8::MAX {
        Data::Byte(signed8(number as u8) as i8)
    } else if number <= u16::MAX {
        Data::Halfword(signed16(number as u16) as i16)
    } else {
        Data::Word(signed32(number) as i32)
    }
}

/// The datum that a number and a width suffix give. Without a suffix, a
/// number written in hexadecimal is fitted and any other is a word.
pub open spec fn sized(number: u32, suffix: Option<Seq<char>>, hex: bool) -> Result<
    Data,
    ParseProblem,
> {
    match suffix {
        Some(width) => if width == "8"@ {
            Ok(Data::Byte(signed8((number % 0x100) as u8) as i8))
        } else if width == "16"@ {
            Ok(Data::Halfword(signed16((number % 0x1_0000) as u16) as i16))
        } else if width == "32"@ {
            Ok(Data::Word(signed32(number) as i32))
        } else {
            Err(ParseProblem::FailedToParseSuffix(width))
        },
        None => if hex {
            Ok(fitted(number))
        } else {
            Ok(Data::Word(signed32(number) as i32))
        },
    }
}

/// The datum that a number in lowercase and a width suffix name. The
/// number is hexadecimal where it starts with `0x`, else decimal with an
/// optional sign.
pub open spec fn data_named(lowered: Seq<char>, suffix: Option<Seq<char>>) -> Result<
    Data,
    ParseProblem,
> {
    if starts_with(lowered, "0x"@) {
        match unsigned_number(stripped(lowered, "0x"@), 16, u32::MAX as nat) {
            Some(number) => sized(number as u32, suffix, true),
            None => Err(ParseProblem::InvalidHex(lowered)),
        }
    } else {
        match signed_number(lowered, 10) {
            Some(number) => sized(wrap32(number), suffix, false),
            None => Err(ParseProblem::InvalidNumber(lowered)),
        }
    }
}

/// The datum that a token names: a number, then after a `/` its width.
/// What follows a second `/` is not read.
pub open spec fn data_of(text: Seq<char>) -> Result<Data, ParseProblem> {
    let parts = split_on(text, '/');
    data_named(
        lowercase_text(parts[0]),
        if parts.len() > 1 {
            Some(parts[1])
        } else {
            None
        },
    )
}

/// The format and location that the arguments of `peek` and `watch` name.
pub open spec fn shown(args: Seq<Seq<char>>) -> Result<(DisplayFormat, Location), ParseProblem> {
    if args.len() > 2 {
        Err(ParseProblem::TooManyArguments)
    } else if args.len() == 0 {
        Err(ParseProblem::NotEnoughArguments)
    } else {
        match location_of(args.last()) {
            Err(e) => Err(e),
            Ok(location) => if args.len() == 2 {
                match format_named(lowercase_text(args[0])) {
                    Err(e) => Err(e),
                    Ok(format) => Ok((format, location)),
                }
            } else {
                Ok((DisplayFormat::Hex, location))
            },
        }
    }
}

/// The command that a name in lowercase and its arguments make.
pub open spec fn command_named(name: Seq<char>, args: Seq<Seq<char>>) -> Result<
    DebugCommand,
    ParseProblem,
> {
    if name == "peek"@ {
        match shown(args) {
            Ok((format, location)) => Ok(DebugCommand::PEEK(format, location)),
            Err(e) => Err(e),
        }
    } else if name == "watch"@ {
        match shown(args) {
            Ok((format, location)) => Ok(DebugCommand::WATCH(format, location)),
            Err(e) => Err(e),
        }
    } else if name == "rmwatch"@ {
        if args.len() > 1 {
            Err(ParseProblem::TooManyArguments)
        } else if args.len() == 0 {
            Err(ParseProblem::NotEnoughArguments)
        } else {
            match location_of(args[0]) {
                Ok(location) => Ok(DebugCommand::RMWATCH(location)),
                Err(e) => Err(e),
            }
        }
    } else if name == "poke"@ {
        if args.len() > 2 {
            Err(ParseProblem::TooManyArguments)
        } else if args.len() == 0 {
            Err(ParseProblem::NotEnoughArguments)
        } else {
            match data_of(args.last()) {
                Err(e) => Err(e),
                Ok(data) => if args.len() == 1 {
                    Err(ParseProblem::NotEnoughArguments)
                } else {
                    match location_of(args[0]) {
                        Ok(location) => Ok(DebugCommand::POKE(data, location)),
                        Err(e) => Err(e),
                    }
                },
            }
        }
    } else if name == "step"@ {
        if args.len() > 1 {
            Err(ParseProblem::TooManyArguments)
        } else if args.len() == 0 {
            Ok(DebugCommand::STEP(1))
        } else {
            match unsigned_number(args[0], 10, usize::MAX as nat) {
                Some(count) => Ok(DebugCommand::STEP(count as usize)),
                None => Err(ParseProblem::InvalidNumber(args[0])),
            }
        }
    } else if name == "break"@ {
        if args.len() > 2 {
            Err(ParseProblem::TooManyArguments)
        } else if args.len() == 0 {
            Err(ParseProblem::NotEnoughArguments)
        } else {
            match unsigned_number(bare_hex(args.last()), 16, u32::MAX as nat) {
                Some(addr) => Ok(DebugCommand::BREAK(addr as u32)),
                None => Err(ParseProblem::InvalidHex(bare_hex(args.last()))),
            }
        }
    } else if name == "rmbrk"@ {
        if args.len() > 1 {
            Err(ParseProblem::TooManyArguments)
        } else if args.len() == 0 {
            Err(ParseProblem::NotEnoughArguments)
        } else {
            match breakpoint_named(args[0], lowercase_text(args[0])) {
                Ok(brk) => Ok(DebugCommand::RMBRK(brk)),
                Err(e) => Err(e),
            }
        }
    } else if name == "help"@ {
        Ok(DebugCommand::HELP)
    } else if name == "exit"@ {
        Ok(DebugCommand::EXIT)
    } else if name == "lsbrk"@ {
        Ok(DebugCommand::LSBRK)
    } else if name == "run"@ || name == "continue"@ {
        Ok(DebugCommand::CONTINUE)
    } else {
        Err(ParseProblem::InvalidCommand(name))
    }
}

/// The command that a line stands for: the line is trimmed and cut at
/// every space; the first piece, in lowercase, names the command, and the
/// others are its arguments.
pub open spec fn command_of(line: Seq<char>) -> Result<DebugCommand, ParseProblem> {
    let pieces = split_on(trimmed_text(line), ' ');
    command_named(lowercase_text(pieces[0]), pieces.skip(1))
}

/// The texts of a list of tokens.
pub open spec fn texts(tokens: Seq<&str>) -> Seq<Seq<char>> {
    Seq::new(tokens.len(), |i: int| tokens[i]@)
}

/// A hexadecimal number of at most 32 bits among the characters from
/// `from` on.
fn read_hex(chars: &Vec<char>, from: usize) -> (r: Option<u32>)
    requires
        from <= chars@.len(),
    ensures
        match unsigned_number(chars@.skip(from as int), 16, u32::MAX as nat) {
            Some(v) => r == Some(v as u32),
            None => r is None,
        },
{
    match read_unsigned(chars, from, 16, 0xffff_ffff) {
        Some(v) => Some(v as u32),
        None => None,
    }
}

/// A decimal number that fits `usize`.
fn read_count(s: &str) -> (r: Option<usize>)
    ensures
        match unsigned_number(s@, 10, usize::MAX as nat) {
            Some(v) => r == Some(v as usize),
            None => r is None,
        },
{
    let chars = chars_of(s);
    assert(chars@.skip(0) =~= chars@);
    match read_unsigned(&chars, 0, 10, usize::MAX as u64) {
        Some(v) => Some(v as usize),
        None => None,
    }
}

/// Where the hexadecimal digits start after any number of `0x` and then of
/// `0X`.
fn skip_hex_marks(chars: &Vec<char>) -> (start: usize)
    ensures
        start <= chars@.len(),
        chars@.skip(start as int) == bare_hex(chars@),
{
    assert(chars@.skip(0) =~= chars@);
    let lower = chars_of("0x");
    let upper = chars_of("0X");
    let mid = strip(chars, 0, &lower);
    strip(chars, mid, &upper)
}

impl DisplayFormat {
    /// The format that a token in lowercase names.
    pub fn from_lowered(lowered: &str) -> (r: Result<DisplayFormat, DebugParseError>)
        ensures
            outcome(r) == format_named(lowered@),
    {
        if same_text(lowered, "/x") {
            Ok(DisplayFormat::Hex)
        } else if same_text(lowered, "/u") {
            Ok(DisplayFormat::Unsigned)
        } else if same_text(lowered, "/i") {
            Ok(DisplayFormat::Signed)
        } else if same_text(lowered, "/b") {
            Ok(DisplayFormat::Binary)
        } else {
            Err(DebugParseError::InvalidFormat(String::from_str(lowered)))
        }
    }

    /// The format that a token names: `/x`, `/u`, `/i` or `/b`, in either
    /// case.
    pub fn parse(s: &str) -> (r: Result<DisplayFormat, DebugParseError>)
        ensures
            outcome(r) == format_named(lowercase_text(s@)),
    {
        let lowered = lowercase(s);
        DisplayFormat::from_lowered(lowered.as_str())
    }
}

impl Location {
    /// The location that a token names.
    pub fn parse(s: &str) -> (r: Result<Location, DebugParseError>)
        ensures
            outcome(r) == location_of(s@),
    {
        match Register::from_name(s) {
            // If in parses as a register the use that
            Some(reg) => Ok(Location::Register(reg)),
            None => {
                // Otherwise try hex
                let chars = chars_of(s);
                let start = skip_hex_marks(&chars);
                match read_hex(&chars, start) {
                    Some(addr) => Ok(Location::Addr(addr)),
                    None => Err(DebugParseError::InvalidLocation(String::from_str(s))),
                }
            },
        }
    }
}

// These are either an address or an integer index
// Addresses are formatted as 0x.... or 0X....
impl BreakpointIdentifier {
    /// The breakpoint that a token and its lowercase form name.
    pub fn from_lowered(s: &str, lowered: &str) -> (r: Result<
        BreakpointIdentifier,
        DebugParseError,
    >)
        ensures
            outcome(r) == breakpoint_named(s@, lowered@),
    {
        let chars = chars_of(lowered);
        let mark = chars_of("0x");
        assert(chars@.skip(0) =~= chars@);
        // Parse as an address if the string starts with 0x
        if begins(&chars, 0, &mark) {
            let start = strip(&chars, 0, &mark);
            match read_hex(&chars, start) {
                Some(addr) => Ok(BreakpointIdentifier::Addr(addr)),
                None => Err(DebugParseError::InvalidHex(String::from_str(s))),
            }
            // Or as a decimal index otherwise
        } else {
            match read_count(s) {
                Some(index) => Ok(BreakpointIdentifier::Index(index)),
                None => Err(DebugParseError::InvalidNumber(String::from_str(s))),
            }
        }
    }

    /// The breakpoint that a token names.
    pub fn parse(s: &str) -> (r: Result<BreakpointIdentifier, DebugParseError>)
        ensures
            outcome(r) == breakpoint_named(s@, lowercase_text(s@)),
    {
        let lowered = lowercase(s);
        BreakpointIdentifier::from_lowered(s, lowered.as_str())
    }
}

impl Data {
    /// The datum of the smallest width that the number fits.
    pub fn fit(number: u32) -> (d: Data)
        ensures
            d == fitted(number),
    {
        if number <= 0xff {
            Data::Byte(i8_of(number as u8))
        } else if number <= 0xffff {
            Data::Halfword(i16_of(number as u16))
        } else {
            Data::Word(i32_of(number))
        }
    }

    /// The datum that a number and a width suffix give.
    pub fn with_suffix(number: u32, suffix: Option<&str>, hex: bool) -> (r: Result<
        Data,
        DebugParseError,
    >)
        ensures
            outcome(r) == sized(
                number,
                match suffix {
                    Some(t) => Some(t@),
                    None => None,
                },
                hex,
            ),
    {
        match suffix {
            Some(width) => if same_text(width, "8") {
                Ok(Data::Byte(i8_of(crate::bits::low8(number))))
            } else if same_text(width, "16") {
                Ok(Data::Halfword(i16_of(crate::bits::low16(number))))
            } else if same_text(width, "32") {
                Ok(Data::Word(i32_of(number)))
            } else {
                Err(DebugParseError::FailedToParseSuffix(String::from_str(width)))
            },
            None => if hex {
                Ok(Data::fit(number))
            } else {
                Ok(Data::Word(i32_of(number)))
            },
        }
    }

    /// The datum that a number in lowercase and a width suffix name.
    pub fn from_lowered(lowered: &str, suffix: Option<&str>) -> (r: Result<Data, DebugParseError>)
        ensures
            outcome(r) == data_named(
                lowered@,
                match suffix {
                    Some(t) => Some(t@),
                    None => None,
                },
            ),
    {
        let chars = chars_of(lowered);
        let mark = chars_of("0x");
        assert(chars@.skip(0) =~= chars@);
        if begins(&chars, 0, &mark) {
            // Hex should be shrunk by default
            let start = strip(&chars, 0, &mark);
            match read_hex(&chars, start) {
                Some(number) => Data::with_suffix(number, suffix, true),
                None => Err(DebugParseError::InvalidHex(String::from_str(lowered))),
            }
        } else {
            match read_signed(&chars, 10) {
                Some(number) => Data::with_suffix(crate::bits::u32_of(number), suffix, false),
                None => Err(DebugParseError::InvalidNumber(String::from_str(lowered))),
            }
        }
    }

    /// Try parsing into the smallest available type, if hex, a word if decimal, or the given size
    /// with /8 /16 or /32
    pub fn parse(s: &str) -> (r: Result<Data, DebugParseError>)
        ensures
            outcome(r) == data_of(s@),
    {
        let parts = split(s, '/');
        let lowered = lowercase(parts[0]);
        let suffix = if parts.len() > 1 {
            Some(parts[1])
        } else {
            None
        };
        Data::from_lowered(lowered.as_str(), suffix)
    }
}

impl DebugCommand {
    /// The format and location that the arguments of `peek` and `watch`
    /// name.
    fn shown_by(args: &Vec<&str>) -> (r: Result<(DisplayFormat, Location), DebugParseError>)
        ensures
            outcome(r) == shown(texts(args@)),
    {
        let n = args.len();
        if n > 2 {
            return Err(DebugParseError::TooManyArguments);
        }
        if n == 0 {
            return Err(DebugParseError::NotEnoughArguments);
        }
        let location = match Location::parse(args[n - 1]) {
            Ok(location) => location,
            Err(e) => { return Err(e); },
        };
        let format = if n == 2 {
            match DisplayFormat::parse(args[0]) {
                Ok(format) => format,
                Err(e) => { return Err(e); },
            }
        } else {
            DisplayFormat::Hex
        };
        Ok((format, location))
    }

    /// The command that a name in lowercase and its arguments make.
    pub fn from_tokens(name: &str, args: &Vec<&str>) -> (r: Result<DebugCommand, DebugParseError>)
        ensures
            outcome(r) == command_named(name@, texts(args@)),
    {
        let n = args.len();
        if same_text(name, "peek") {
            match DebugCommand::shown_by(args) {
                Ok((format, location)) => Ok(DebugCommand::PEEK(format, location)),
                Err(e) => Err(e),
            }
        } else if same_text(name, "watch") {
            match DebugCommand::shown_by(args) {
                Ok((format, location)) => Ok(DebugCommand::WATCH(format, location)),
                Err(e) => Err(e),
            }
        } else if same_text(name, "rmwatch") {
            if n > 1 {
                Err(DebugParseError::TooManyArguments)
            } else if n == 0 {
                Err(DebugParseError::NotEnoughArguments)
            } else {
                match Location::parse(args[0]) {
                    Ok(location) => Ok(DebugCommand::RMWATCH(location)),
                    Err(e) => Err(e),
                }
            }
        } else if same_text(name, "poke") {
            if n > 2 {
                Err(DebugParseError::TooManyArguments)
            } else if n == 0 {
                Err(DebugParseError::NotEnoughArguments)
            } else {
                match Data::parse(args[n - 1]) {
                    Err(e) => Err(e),
                    Ok(data) => if n == 1 {
                        Err(DebugParseError::NotEnoughArguments)
                    } else {
                        match Location::parse(args[0]) {
                            Ok(location) => Ok(DebugCommand::POKE(data, location)),
                            Err(e) => Err(e),
                        }
                    },
                }
            }
        } else if same_text(name, "step") {
            if n > 1 {
                Err(DebugParseError::TooManyArguments)
            } else if n == 0 {
                Ok(DebugCommand::STEP(1))
            } else {
                match read_count(args[0]) {
                    Some(count) => Ok(DebugCommand::STEP(count)),
                    None => Err(DebugParseError::InvalidNumber(String::from_str(args[0]))),
                }
            }
        } else if same_text(name, "break") {
            if n > 2 {
                Err(DebugParseError::TooManyArguments)
            } else if n == 0 {
                Err(DebugParseError::NotEnoughArguments)
            } else {
                let location = args[n - 1];
                let chars = chars_of(location);
                let start = skip_hex_marks(&chars);
                match read_hex(&chars, start) {
                    Some(addr) => Ok(DebugCommand::BREAK(addr)),
                    None => Err(
                        DebugParseError::InvalidHex(
                            String::from_str(location.substring_char(start, chars.len())),
                        ),
                    ),
                }
            }
        } else if same_text(name, "rmbrk") {
            if n > 1 {
                Err(DebugParseError::TooManyArguments)
            } else if n == 0 {
                Err(DebugParseError::NotEnoughArguments)
            } else {
                match BreakpointIdentifier::parse(args[0]) {
                    Ok(brk) => Ok(DebugCommand::RMBRK(brk)),
                    Err(e) => Err(e),
                }
            }
        } else if same_text(name, "help") {
            Ok(DebugCommand::HELP)
        } else if same_text(name, "exit") {
            Ok(DebugCommand::EXIT)
        } else if same_text(name, "lsbrk") {
            Ok(DebugCommand::LSBRK)
        } else if same_text(name, "run") || same_text(name, "continue") {
            Ok(DebugCommand::CONTINUE)
        } else {
            Err(DebugParseError::InvalidCommand(String::from_str(name)))
        }
    }

    /// The command that a line stands for.
    pub fn from_string(s: &str) -> (r: Result<DebugCommand, DebugParseError>)
        ensures
            outcome(r) == command_of(s@),
    {
        let mut pieces = split(trim(s), ' ');
        let first = lowercase(pieces[0]);
        let ghost all = pieces@;
        let _ = pieces.remove(0);
        assert(texts(pieces@) =~= split_on(trimmed_text(s@), ' ').skip(1));
        DebugCommand::from_tokens(first.as_str(), &pieces)
    }
}

} // verus!
