use tari_utilities::hex::{from_hex, non_ascii_error, to_hex, to_hex_multiple, Hex, HexError};

#[test]
fn test_to_hex() {
    assert_eq!(to_hex(&[0, 0, 0, 0]), "00000000");
    assert_eq!(to_hex(&[10, 11, 12, 13]), "0a0b0c0d");
    assert_eq!(to_hex(&[0, 0, 0, 255]), "000000ff");
}

#[test]
fn test_from_hex() {
    assert_eq!(from_hex("00000000").unwrap(), vec![0, 0, 0, 0]);
    assert_eq!(from_hex("0a0b0c0d").unwrap(), vec![10, 11, 12, 13]);
    assert_eq!(from_hex(" 0a0b0c0d  ").unwrap(), vec![10, 11, 12, 13]);
    assert_eq!(from_hex("000000ff").unwrap(), vec![0, 0, 0, 255]);
    assert_eq!(from_hex("0x800000ff").unwrap(), vec![128, 0, 0, 255]);
    assert!(from_hex("800").is_err()); // Odd number of bytes
    assert!(from_hex("8080gf").is_err()); // Invalid hex character g
    assert!(from_hex("\u{1f596}\u{1f974}").is_err());
}

#[test]
fn test_to_hex_multiple() {
    let ba = [vec![16u8, 32], vec![48, 64]];
    let hexed = to_hex_multiple(&ba);
    assert_eq!(hexed, ["1020", "3040"]);
}

#[test]
fn length_error() {
    let result = from_hex("800");
    assert!(result.is_err());
    let err = result.unwrap_err();
    assert!(matches!(err, HexError::LengthError {}));
    assert_eq!(err.to_string(), "Hex string lengths must be a multiple of 2");
}

#[test]
fn max_length_error() {
    let bytes = [0; 262_144];
    let mut hex = "".to_string();
    for _ in 0..262_144 {
        hex.push_str("00");
    }
    assert_eq!(hex, bytes.to_hex());

    let bytes = [0; 262_145];
    assert_eq!("**String to large**", bytes.to_hex());
}

#[test]
fn character_error() {
    let result = from_hex("1234567890ABCDEFG1");
    assert!(result.is_err());
    let err = result.unwrap_err();
    assert!(matches!(err, HexError::InvalidCharacter { .. }));
    assert_eq!(err.to_string(), "Only hexadecimal characters (0-9,a-f) are permitted");
}

#[test]
fn conversion_error_message() {
    assert_eq!(
        HexError::HexConversionError {}.to_string(),
        "Invalid hex representation for the target type"
    );
}

#[test]
fn to_hex_writes_every_byte_as_two_digits() {
    for byte in 0..=255u8 {
        assert_eq!(to_hex(&[byte]), format!("{:02x}", byte));
    }
    assert_eq!(to_hex(&[]), "");
    assert_eq!(to_hex(&[0xde, 0xad, 0xbe, 0xef]), "deadbeef");
}

#[test]
fn to_hex_multiple_of_nothing() {
    assert!(to_hex_multiple(&[]).is_empty());
    assert_eq!(to_hex_multiple(&[vec![], vec![1]]), ["", "01"]);
}

#[test]
fn from_hex_reads_what_to_hex_writes() {
    let bytes: Vec<u8> = (0..=255u8).collect();
    assert_eq!(from_hex(&to_hex(&bytes)).unwrap(), bytes);
}

#[test]
fn from_hex_takes_letters_in_either_case() {
    assert_eq!(from_hex("DEADbeef").unwrap(), vec![0xde, 0xad, 0xbe, 0xef]);
    assert_eq!(from_hex("aAfF09").unwrap(), vec![0xaa, 0xff, 0x09]);
}

#[test]
fn from_hex_passes_over_white_space_around_the_text() {
    assert_eq!(from_hex("\t\n\u{b}\u{c}\r 0102 \r\u{c}\u{b}\n\t").unwrap(), vec![1, 2]);
    assert_eq!(from_hex("").unwrap(), Vec::<u8>::new());
    assert_eq!(from_hex("   ").unwrap(), Vec::<u8>::new());
    assert!(matches!(from_hex("01 02"), Err(HexError::LengthError {})));
    assert!(matches!(from_hex("01  02"), Err(HexError::InvalidCharacter {})));
    assert!(matches!(from_hex(" 1"), Err(HexError::LengthError {})));
}

#[test]
fn from_hex_trims_what_the_standard_library_trims() {
    for code in 0..128u8 {
        let c = char::from(code);
        let text = format!("{}ab{}", c, c);
        let trimmed_is_ab = text.trim() == "ab";
        match from_hex(&text) {
            Ok(bytes) => assert_eq!(bytes == vec![0xab], trimmed_is_ab),
            Err(_) => assert!(!trimmed_is_ab),
        }
    }
}

#[test]
fn from_hex_passes_over_one_prefix() {
    assert_eq!(from_hex("0x").unwrap(), Vec::<u8>::new());
    assert_eq!(from_hex("0x01").unwrap(), vec![1]);
    assert_eq!(from_hex("  0xff ").unwrap(), vec![255]);
    assert!(matches!(from_hex("0x0x01"), Err(HexError::InvalidCharacter {})));
    assert!(matches!(from_hex("0X01"), Err(HexError::InvalidCharacter {})));
    assert!(matches!(from_hex("0x1"), Err(HexError::LengthError {})));
}

#[test]
fn from_hex_takes_a_plus_sign_before_one_digit() {
    assert_eq!(from_hex("+f").unwrap(), vec![15]);
    assert_eq!(from_hex("+a+0").unwrap(), vec![10, 0]);
    assert!(matches!(from_hex("++"), Err(HexError::InvalidCharacter {})));
    assert!(matches!(from_hex("f+"), Err(HexError::InvalidCharacter {})));
    assert!(matches!(from_hex("-f"), Err(HexError::InvalidCharacter {})));
}

#[test]
fn from_hex_agrees_with_the_standard_parser_on_every_pair() {
    for hi in 0..128u8 {
        for lo in 0..128u8 {
            let text: String = [char::from(hi), char::from(lo)].iter().collect();
            if text.trim().len() != 2 || text == "0x" {
                continue;
            }
            match (from_hex(&text), u8::from_str_radix(&text, 16)) {
                (Ok(bytes), Ok(byte)) => assert_eq!(bytes, vec![byte]),
                (Err(HexError::InvalidCharacter {}), Err(_)) => {},
                _ => panic!("{:?}", text),
            }
        }
    }
}

#[test]
fn from_hex_tells_the_errors_of_text_outside_ascii_apart() {
    // one character of two bytes
    assert!(matches!(from_hex("\u{e9}"), Err(HexError::HexConversionError {})));
    // one character of three bytes
    assert!(matches!(from_hex("\u{20ac}"), Err(HexError::LengthError {})));
    // the space in front is not counted: two bytes are left
    assert!(matches!(from_hex(" \u{e9}"), Err(HexError::HexConversionError {})));
    // white space outside ASCII is not counted either: two bytes are left
    assert!(matches!(from_hex("\u{2003}ab"), Err(HexError::HexConversionError {})));
    assert!(matches!(from_hex("\u{2003}abc"), Err(HexError::LengthError {})));
    // four bytes each
    assert!(matches!(from_hex("\u{1f596}\u{1f974}"), Err(HexError::HexConversionError {})));
}

#[test]
fn non_ascii_error_goes_by_the_number_of_bytes() {
    assert!(matches!(non_ascii_error("\u{e9}"), HexError::HexConversionError {}));
    assert!(matches!(non_ascii_error("a\u{e9}"), HexError::LengthError {}));
    assert!(matches!(non_ascii_error(""), HexError::HexConversionError {}));
}
