use tari_utilities::hex::{Hex, HexError};
use tari_utilities::{ByteArray, ByteArrayError};

fn check(_: impl ByteArray) {}

#[test]
fn from_to_vec() {
    let v = vec![0u8, 1, 128, 255];
    let ba = <Vec<u8>>::from_vec(&v).unwrap();
    assert_eq!(ba.to_vec(), v);
}

#[test]
fn from_to_array() {
    let v = vec![
        0u8, 1, 2, 3, 4, 5, 6, 7, 8, 9, 10, 11, 12, 13, 14, 15, 16, 17, 18, 19, 20, 21, 22, 23, 24, 25, 26, 27, 28,
        29, 30, 31,
    ];
    let ba = <[u8; 32]>::from_vec(&v).unwrap();
    assert_eq!(ba.to_vec(), v);
}

#[test]
fn from_to_different_sizes() {
    let v4 = vec![0u8, 1, 2, 3];
    let a4 = <[u8; 4]>::from_vec(&v4).unwrap();
    assert_eq!(a4.to_vec(), v4);
    let v10 = vec![0u8, 1, 2, 3, 4, 5, 6, 7, 8, 9];
    let a10 = <[u8; 10]>::from_vec(&v10).unwrap();
    assert_eq!(a10.to_vec(), v10);
    check([0; 32]);
    check([0; 64]);
    check([0; 1000]);
}

#[test]
fn from_to_hex() {
    let v = <Vec<u8>>::from_hex("deadbeef").unwrap();
    assert_eq!(v.to_hex(), "deadbeef");
}

#[test]
fn test_error_handling() {
    let err = <[u8; 32]>::from_bytes(&[1, 2, 3, 4]).unwrap_err();
    assert_eq!(err, ByteArrayError::IncorrectLength {});

    let err = <[u8; 32]>::from_hex("abcd").unwrap_err();
    assert!(matches!(err, HexError::HexConversionError {}));
}

#[test]
fn bytes_are_given_back_as_they_were_taken() {
    let v = vec![7u8, 8, 9];
    let ba = <Vec<u8>>::from_bytes(&v).unwrap();
    assert_eq!(ba.as_bytes(), &[7, 8, 9]);
    let a = <[u8; 3]>::from_bytes(&v).unwrap();
    assert_eq!(a, [7, 8, 9]);
    assert_eq!(a.as_bytes(), &[7, 8, 9]);
    let empty = <[u8; 0]>::from_bytes(&[]).unwrap();
    assert_eq!(empty.to_vec(), Vec::<u8>::new());
}

#[test]
fn an_array_takes_its_own_length_only() {
    assert_eq!(<[u8; 2]>::from_bytes(&[1]), Err(ByteArrayError::IncorrectLength {}));
    assert_eq!(<[u8; 2]>::from_bytes(&[1, 2, 3]), Err(ByteArrayError::IncorrectLength {}));
    assert_eq!(<[u8; 2]>::from_vec(&vec![]), Err(ByteArrayError::IncorrectLength {}));
    assert_eq!(<[u8; 2]>::from_bytes(&[1, 2]), Ok([1, 2]));
}

#[test]
fn byte_array_error_messages() {
    assert_eq!(
        ByteArrayError::IncorrectLength {}.to_string(),
        "The input data was the incorrect length to perform the desired conversion"
    );
    assert_eq!(
        ByteArrayError::ConversionError { reason: "odd".to_string() }.to_string(),
        "Could not create a ByteArray when converting from a different format: `odd'"
    );
}

#[test]
fn hex_errors_of_the_text_are_handed_on() {
    assert!(matches!(<Vec<u8>>::from_hex("abc"), Err(HexError::LengthError {})));
    assert!(matches!(<Vec<u8>>::from_hex("zz"), Err(HexError::InvalidCharacter {})));
    assert!(matches!(<[u8; 1]>::from_hex("\u{e9}"), Err(HexError::HexConversionError {})));
    assert_eq!(<[u8; 2]>::from_hex(" 0x0aff ").unwrap(), [10, 255]);
    assert_eq!([1u8, 2, 3].to_hex(), "010203");
}
