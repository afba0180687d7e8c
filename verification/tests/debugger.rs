use remu::debugger::{
    BreakpointIdentifier, Data, DebugCommand, DebugParseError, DisplayFormat, Location,
};
use remu::register::Register;

#[test]
fn test_too_many_args() {
    assert_eq!(DebugCommand::from_string("step 1 2"), Err(DebugParseError::TooManyArguments));
}

#[test]
fn test_parse_step() {
    assert_eq!(DebugCommand::from_string("step 125"), Ok(DebugCommand::STEP(125)));
}

#[test]
fn test_parse_peek() {
    assert_eq!(
        DebugCommand::from_string("peek /x 0xDEAD"),
        Ok(DebugCommand::PEEK(DisplayFormat::Hex, Location::Addr(0xDEAD)))
    );
}

#[test]
fn test_parse_poke() {
    assert_eq!(
        DebugCommand::from_string("poke 0xDEAD -123"),
        Ok(DebugCommand::POKE(Data::Word(-123), Location::Addr(0xDEAD)))
    );
}

#[test]
fn test_parse_poke_reg() {
    assert_eq!(
        DebugCommand::from_string("poke t2 -123"),
        Ok(DebugCommand::POKE(Data::Word(-123), Location::Register(Register::T2)))
    );
}

#[test]
fn test_parse_poke_size() {
    assert_eq!(
        DebugCommand::from_string("poke t2 0xFF"),
        Ok(DebugCommand::POKE(Data::Byte(0xFFu8 as i8), Location::Register(Register::T2)))
    );
    assert_eq!(
        DebugCommand::from_string("poke t2 0xFFFF"),
        Ok(DebugCommand::POKE(Data::Halfword(0xFFFFu16 as i16), Location::Register(Register::T2)))
    );
    assert_eq!(
        DebugCommand::from_string("poke t2 0xFFFFFFFF"),
        Ok(DebugCommand::POKE(Data::Word(0xFFFFFFFFu32 as i32), Location::Register(Register::T2)))
    );
    assert_eq!(
        DebugCommand::from_string("poke t2 0xFF/8"),
        Ok(DebugCommand::POKE(Data::Byte(0xFFu8 as i8), Location::Register(Register::T2)))
    );
    assert_eq!(
        DebugCommand::from_string("poke t2 0xFF/16"),
        Ok(DebugCommand::POKE(Data::Halfword(0xFFu16 as i16), Location::Register(Register::T2)))
    );
    assert_eq!(
        DebugCommand::from_string("poke t2 0xFF/32"),
        Ok(DebugCommand::POKE(Data::Word(0xFFu32 as i32), Location::Register(Register::T2)))
    );
}

#[test]
fn commands_are_case_insensitive_and_trimmed() {
    assert_eq!(
        DebugCommand::from_string("  PEEK /X T2\n"),
        Ok(DebugCommand::PEEK(DisplayFormat::Hex, Location::Register(Register::T2)))
    );
    assert_eq!(DebugCommand::from_string("Continue"), Ok(DebugCommand::CONTINUE));
    assert_eq!(DebugCommand::from_string("RUN"), Ok(DebugCommand::CONTINUE));
    assert_eq!(DebugCommand::from_string("lsbrk"), Ok(DebugCommand::LSBRK));
    assert_eq!(DebugCommand::from_string("help"), Ok(DebugCommand::HELP));
    assert_eq!(DebugCommand::from_string("exit"), Ok(DebugCommand::EXIT));
}

#[test]
fn peek_defaults_to_hex() {
    assert_eq!(
        DebugCommand::from_string("peek sp"),
        Ok(DebugCommand::PEEK(DisplayFormat::Hex, Location::Register(Register::SP)))
    );
    assert_eq!(
        DebugCommand::from_string("watch /b 10"),
        Ok(DebugCommand::WATCH(DisplayFormat::Binary, Location::Addr(0x10)))
    );
    assert_eq!(
        DebugCommand::from_string("watch /i fp"),
        Ok(DebugCommand::WATCH(DisplayFormat::Signed, Location::Register(Register::FP)))
    );
    assert_eq!(
        DebugCommand::from_string("peek /u zero"),
        Ok(DebugCommand::PEEK(DisplayFormat::Unsigned, Location::Register(Register::Zero)))
    );
    assert_eq!(
        DebugCommand::from_string("rmwatch 0xdead"),
        Ok(DebugCommand::RMWATCH(Location::Addr(0xDEAD)))
    );
}

#[test]
fn each_parse_error_has_an_input() {
    assert_eq!(
        DebugCommand::from_string("frobnicate"),
        Err(DebugParseError::InvalidCommand("frobnicate".to_string()))
    );
    assert_eq!(
        DebugCommand::from_string(""),
        Err(DebugParseError::InvalidCommand("".to_string()))
    );
    assert_eq!(DebugCommand::from_string("peek"), Err(DebugParseError::NotEnoughArguments));
    assert_eq!(DebugCommand::from_string("peek a b c"), Err(DebugParseError::TooManyArguments));
    assert_eq!(
        DebugCommand::from_string("peek /q t2"),
        Err(DebugParseError::InvalidFormat("/q".to_string()))
    );
    assert_eq!(
        DebugCommand::from_string("peek /x 0xZZ"),
        Err(DebugParseError::InvalidLocation("0xZZ".to_string()))
    );
    assert_eq!(
        DebugCommand::from_string("step many"),
        Err(DebugParseError::InvalidNumber("many".to_string()))
    );
    assert_eq!(
        DebugCommand::from_string("poke t2 0xFF/64"),
        Err(DebugParseError::FailedToParseSuffix("64".to_string()))
    );
    assert_eq!(
        DebugCommand::from_string("poke t2 0xGG"),
        Err(DebugParseError::InvalidHex("0xgg".to_string()))
    );
    assert_eq!(
        DebugCommand::from_string("poke t2 12a"),
        Err(DebugParseError::InvalidNumber("12a".to_string()))
    );
    assert_eq!(DebugCommand::from_string("poke 5"), Err(DebugParseError::NotEnoughArguments));
    assert_eq!(
        DebugCommand::from_string("break 0xnope"),
        Err(DebugParseError::InvalidHex("nope".to_string()))
    );
    assert_eq!(DebugCommand::from_string("break"), Err(DebugParseError::NotEnoughArguments));
    assert_eq!(DebugCommand::from_string("rmbrk"), Err(DebugParseError::NotEnoughArguments));
    assert_eq!(DebugCommand::from_string("rmbrk 1 2"), Err(DebugParseError::TooManyArguments));
}

#[test]
fn two_spaces_make_an_empty_argument() {
    assert_eq!(DebugCommand::from_string("step  1"), Err(DebugParseError::TooManyArguments));
    assert_eq!(
        DebugCommand::from_string("rmbrk  1"),
        Err(DebugParseError::TooManyArguments)
    );
    assert_eq!(
        DebugCommand::from_string("rmwatch  "),
        Err(DebugParseError::NotEnoughArguments)
    );
}

#[test]
fn breakpoints_are_addresses_or_indices() {
    assert_eq!(DebugCommand::from_string("break 0x10"), Ok(DebugCommand::BREAK(0x10)));
    assert_eq!(DebugCommand::from_string("break 10"), Ok(DebugCommand::BREAK(0x10)));
    assert_eq!(DebugCommand::from_string("break 0X0x10"), Err(DebugParseError::InvalidHex("0x10".to_string())));
    assert_eq!(DebugCommand::from_string("break 0x0X10"), Ok(DebugCommand::BREAK(0x10)));
    assert_eq!(
        DebugCommand::from_string("rmbrk 0X1f"),
        Ok(DebugCommand::RMBRK(BreakpointIdentifier::Addr(0x1F)))
    );
    assert_eq!(
        DebugCommand::from_string("rmbrk 3"),
        Ok(DebugCommand::RMBRK(BreakpointIdentifier::Index(3)))
    );
    assert_eq!(
        BreakpointIdentifier::parse("0xfffffffff"),
        Err(DebugParseError::InvalidHex("0xfffffffff".to_string()))
    );
    assert_eq!(
        BreakpointIdentifier::parse("-1"),
        Err(DebugParseError::InvalidNumber("-1".to_string()))
    );
}

#[test]
fn data_widths() {
    assert_eq!(Data::parse("0x100"), Ok(Data::Halfword(0x100)));
    assert_eq!(Data::parse("0x10000"), Ok(Data::Word(0x10000)));
    assert_eq!(Data::parse("255"), Ok(Data::Word(255)));
    assert_eq!(Data::parse("+7"), Ok(Data::Word(7)));
    assert_eq!(Data::parse("-1/8"), Ok(Data::Byte(-1)));
    assert_eq!(Data::parse("-129/8"), Ok(Data::Byte(127)));
    assert_eq!(Data::parse("65535/16"), Ok(Data::Halfword(-1)));
    assert_eq!(Data::parse("0X7f"), Ok(Data::Byte(0x7F)));
    assert_eq!(Data::parse("0x80/8/junk"), Ok(Data::Byte(-128)));
    assert_eq!(Data::parse("2147483647"), Ok(Data::Word(i32::MAX)));
    assert_eq!(Data::parse("-2147483648"), Ok(Data::Word(i32::MIN)));
    assert_eq!(
        Data::parse("2147483648"),
        Err(DebugParseError::InvalidNumber("2147483648".to_string()))
    );
    assert_eq!(Data::parse(""), Err(DebugParseError::InvalidNumber("".to_string())));
    assert_eq!(Data::parse("0x"), Err(DebugParseError::InvalidHex("0x".to_string())));
    assert_eq!(Data::fit(0xFF), Data::Byte(-1));
    assert_eq!(Data::fit(0x100), Data::Halfword(0x100));
    assert_eq!(Data::fit(0xFFFF_FFFF), Data::Word(-1));
}

#[test]
fn lowercase_forms_are_taken_as_given() {
    assert_eq!(DisplayFormat::from_lowered("/x"), Ok(DisplayFormat::Hex));
    assert_eq!(
        DisplayFormat::from_lowered("/X"),
        Err(DebugParseError::InvalidFormat("/X".to_string()))
    );
    assert_eq!(DisplayFormat::parse("/X"), Ok(DisplayFormat::Hex));
    assert_eq!(Data::from_lowered("0xff", Some("16")), Ok(Data::Halfword(0xFF)));
    assert_eq!(
        Data::from_lowered("0XFF", None),
        Err(DebugParseError::InvalidNumber("0XFF".to_string()))
    );
    assert_eq!(
        BreakpointIdentifier::from_lowered("0X10", "0x10"),
        Ok(BreakpointIdentifier::Addr(0x10))
    );
    assert_eq!(
        DebugCommand::from_tokens("step", &vec!["7"]),
        Ok(DebugCommand::STEP(7))
    );
    assert_eq!(
        DebugCommand::from_tokens("STEP", &vec!["7"]),
        Err(DebugParseError::InvalidCommand("STEP".to_string()))
    );
}

#[test]
fn locations() {
    assert_eq!(Location::parse("T2"), Ok(Location::Register(Register::T2)));
    assert_eq!(Location::parse("s0"), Ok(Location::Register(Register::S0)));
    assert_eq!(Location::parse("Fp"), Ok(Location::Register(Register::FP)));
    assert_eq!(Location::parse("a7"), Ok(Location::Register(Register::A7)));
    assert_eq!(Location::parse("a0"), Ok(Location::Register(Register::A0)));
    assert_eq!(Location::parse("a8"), Ok(Location::Addr(0xA8)));
    assert_eq!(Location::parse("0xFFFFFFFF"), Ok(Location::Addr(u32::MAX)));
    assert_eq!(Location::parse("+1f"), Ok(Location::Addr(0x1F)));
    assert_eq!(
        Location::parse("0x100000000"),
        Err(DebugParseError::InvalidLocation("0x100000000".to_string()))
    );
    assert_eq!(Location::parse(""), Err(DebugParseError::InvalidLocation("".to_string())));
}

#[test]
fn case_and_white_space_are_those_of_unicode() {
    // the Kelvin sign is a capital letter whose lowercase form is `k`
    assert_eq!(
        DebugCommand::from_string("PEE\u{212A} t2"),
        Ok(DebugCommand::PEEK(DisplayFormat::Hex, Location::Register(Register::T2)))
    );
    assert_eq!(
        DebugCommand::from_string("\u{2003}step 3\u{00A0}\t"),
        Ok(DebugCommand::STEP(3))
    );
    // register names fold ASCII letters only
    assert_eq!(
        Location::parse("\u{212A}0"),
        Err(DebugParseError::InvalidLocation("\u{212A}0".to_string()))
    );
    // a tab is no separator
    assert_eq!(
        DebugCommand::from_string("step\t3"),
        Err(DebugParseError::InvalidCommand("step\t3".to_string()))
    );
}

#[test]
fn white_space_is_what_has_the_unicode_property() {
    let listed = |c: char| {
        matches!(
            c as u32,
            0x09..=0x0D
                | 0x20
                | 0x85
                | 0xA0
                | 0x1680
                | 0x2000..=0x200A
                | 0x2028
                | 0x2029
                | 0x202F
                | 0x205F
                | 0x3000
        )
    };
    for code in 0..=0x10FFFFu32 {
        let c = match char::from_u32(code) {
            Some(c) => c,
            None => continue,
        };
        assert_eq!(c.is_whitespace(), listed(c), "{:#x}", code);
        if listed(c) || code < 0x3100 {
            let before = DebugCommand::from_string(&format!("{}exit", c));
            let after = DebugCommand::from_string(&format!("exit{}", c));
            assert_eq!(before.is_ok(), listed(c), "{:#x} before", code);
            assert_eq!(after.is_ok(), listed(c), "{:#x} after", code);
        }
    }
    assert_eq!(DebugCommand::from_string(" \t\u{3000}exit\u{85}\n "), Ok(DebugCommand::EXIT));
    assert_eq!(
        DebugCommand::from_string("\u{200B}exit"),
        Err(DebugParseError::InvalidCommand("\u{200B}exit".to_string()))
    );
}
