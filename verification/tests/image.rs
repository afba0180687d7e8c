use remu::image::{load_line, load_tokens, read_word, ReadFileError};

#[test]
fn bytes_halfwords_and_words_are_written_little_endian() {
    let mut memory = vec![0u8; 16];
    assert_eq!(load_line(&mut memory, "0: 12 3456 789abcde"), Ok(()));
    assert_eq!(memory[..7], [0x12, 0x56, 0x34, 0xDE, 0xBC, 0x9A, 0x78]);
    assert_eq!(memory[7..], [0; 9]);
}

#[test]
fn the_address_is_hexadecimal() {
    let mut memory = vec![0u8; 32];
    assert_eq!(load_line(&mut memory, "  1c : 02A00513  "), Ok(()));
    assert_eq!(memory[0x1C..], [0x13, 0x05, 0xA0, 0x02]);
}

#[test]
fn a_token_moves_the_offset_by_half_its_length() {
    let mut memory = vec![0xEEu8; 12];
    // six digits write two bytes and move on by three; one digit writes a byte and does not move
    assert_eq!(load_line(&mut memory, "0: 123456 7 89 02030405"), Ok(()));
    assert_eq!(memory, [0x56, 0x34, 0xEE, 0x89, 0x05, 0x04, 0x03, 0x02, 0xEE, 0xEE, 0xEE, 0xEE]);
    let mut memory = vec![0u8; 4];
    assert_eq!(load_line(&mut memory, "0: 1 2"), Ok(()));
    assert_eq!(memory, [2, 0, 0, 0]);
}

#[test]
fn each_image_error_has_an_input() {
    let mut memory = vec![0u8; 4];
    assert_eq!(
        load_line(&mut memory, "no colon"),
        Err(ReadFileError::ParseError("no colon".to_string()))
    );
    assert_eq!(
        load_line(&mut memory, "zz: 00"),
        Err(ReadFileError::ParseIntError("zz".to_string()))
    );
    assert_eq!(load_line(&mut memory, "0: 0g"), Err(ReadFileError::ParseIntError("0g".to_string())));
    assert_eq!(load_line(&mut memory, "0:"), Err(ReadFileError::ParseIntError("".to_string())));
    assert_eq!(
        load_line(&mut memory, "0: 1  2"),
        Err(ReadFileError::ParseIntError("".to_string()))
    );
    assert_eq!(
        load_line(&mut memory, "0: 123456789"),
        Err(ReadFileError::ParseIntError("123456789".to_string()))
    );
    assert_eq!(
        load_line(&mut memory, "4: 00"),
        Err(ReadFileError::ParseError("4: 00".to_string()))
    );
    assert_eq!(
        load_line(&mut memory, "2: 11 223344"),
        Err(ReadFileError::ParseError("2: 11 223344".to_string()))
    );
    // what was written before an error stays
    assert_eq!(memory, [1, 0, 0x11, 0]);
    assert_eq!(
        load_line(&mut memory, "ffffffff: 00"),
        Err(ReadFileError::ParseError("ffffffff: 00".to_string()))
    );
}

#[test]
fn tokens_are_taken_by_length_and_digits() {
    let mut memory = vec![0u8; 8];
    assert_eq!(load_tokens(&mut memory, 2, &vec![(4, "ab"), (2, "cd")], "line"), Ok(()));
    assert_eq!(memory, [0, 0, 0xAB, 0, 0xCD, 0, 0, 0]);
    assert_eq!(
        load_tokens(&mut memory, 0, &vec![(2, " 1")], "line"),
        Err(ReadFileError::ParseIntError(" 1".to_string()))
    );
    assert_eq!(
        load_tokens(&mut memory, 7, &vec![(4, "1")], "line"),
        Err(ReadFileError::ParseError("line".to_string()))
    );
    assert_eq!(read_word("+ff"), Some(0xFF));
    assert_eq!(read_word("ffffffff"), Some(u32::MAX));
    assert_eq!(read_word("100000000"), None);
}

#[test]
fn image_error_messages() {
    assert_eq!(ReadFileError::ParseError("x".to_string()).message(), "Failed to parse line: x");
    assert_eq!(ReadFileError::IoError("x".to_string()).message(), "IO ERROR: x");
    assert_eq!(ReadFileError::ParseIntError("x".to_string()).message(), "Failed to parse number: x");
}
