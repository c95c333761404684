use std::str::FromStr;

use tari_utilities::hidden::Wipe;
use tari_utilities::password::PasswordError;
use tari_utilities::SafePassword;
use zeroize::{Zeroize, Zeroizing};

#[test]
fn from_strings() {
    let password = "password";

    let from_str = SafePassword::from_str(password).unwrap();
    let from_string = SafePassword::from(password.to_string());
    let from_string_ref = SafePassword::from(password);

    assert_eq!(from_str.reveal_ref(), from_string.reveal_ref());
    assert_eq!(from_string.reveal_ref(), from_string_ref.reveal_ref());
}

#[test]
fn a_passphrase_is_the_bytes_of_its_text() {
    let expected = vec![112u8, 97, 115, 115, 119, 111, 114, 100];
    assert_eq!(SafePassword::from("password").reveal_ref(), &expected);
    assert_eq!(SafePassword::from(String::from("password")).reveal_ref(), &expected);
    assert_eq!(SafePassword::from_str("password").unwrap().reveal_ref(), &expected);
    assert_eq!(SafePassword::from("p\u{e4}ss").reveal_ref(), &vec![b'p', 0xc3, 0xa4, b's', b's']);
}

#[test]
fn every_text_is_taken_as_a_passphrase() {
    assert!(SafePassword::from_str("").unwrap().reveal_ref().is_empty());
    assert!("   ".parse::<SafePassword>().is_ok());
    assert!("\u{1f596}".parse::<SafePassword>().is_ok());
}

#[test]
fn a_passphrase_can_be_changed_in_place() {
    let mut password = SafePassword::from("abc");
    password.reveal_mut().push(b'd');
    assert_eq!(password.reveal_ref(), b"abcd");
    let clone = password.clone();
    password.reveal_mut().clear();
    assert_eq!(clone.reveal_ref(), b"abcd");
    assert!(password.reveal_ref().is_empty());
}

#[test]
fn password_error_message() {
    assert_eq!(PasswordError.to_string(), "PasswordError");
}

#[test]
fn passphrases_are_equal_where_their_bytes_are() {
    assert!(SafePassword::from("abc") == SafePassword::from(String::from("abc")));
    assert!(SafePassword::from("abc") != SafePassword::from("abd"));
    assert!(SafePassword::from("abc") != SafePassword::from("abcd"));
    assert!(SafePassword::from("") == SafePassword::from(""));
}

#[test]
fn a_passphrase_can_be_erased() {
    let mut password = SafePassword::from("abc");
    password.zeroize();
    assert!(password.reveal_ref().is_empty());
    let mut password = SafePassword::from("abc");
    password.wipe();
    assert!(password.reveal_ref().is_empty());
    let guarded = Zeroizing::new(SafePassword::from("abc"));
    assert_eq!(guarded.reveal_ref(), b"abc");
}
