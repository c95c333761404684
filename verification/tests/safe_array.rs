use rand::rngs::OsRng;
use rand::RngCore;
use tari_utilities::hidden::{Hidden, Wipe};
use tari_utilities::safe_array::SafeArray;
use zeroize::Zeroize;

type CipherKey = Hidden<SafeArray<u8, 32>>;

#[test]
fn reference() {
    let key_a = CipherKey::from(SafeArray::<u8, 32>::default());
    let key_b = CipherKey::from(SafeArray::<u8, 32>::default());

    // Check equality
    assert_eq!(key_a.reveal_ref(), key_b.reveal_ref());

    // Check reference access
    assert_eq!(key_a.reveal_ref().as_ref(), &[0u8; 32]);

    // Check mutable reference access
    let mut key_c = CipherKey::from(SafeArray::<u8, 32>::default());
    let mut rng = OsRng;
    rng.fill_bytes(key_c.reveal_mut().as_mut());
    assert_ne!(key_c.reveal_ref().as_ref(), &[0u8; 32]);
}

#[test]
fn the_default_array_holds_default_items() {
    assert_eq!(SafeArray::<u8, 4>::default().as_ref(), &[0u8; 4]);
    assert_eq!(SafeArray::<u64, 3>::default().as_ref(), &[0u64; 3]);
    assert_eq!(SafeArray::<String, 2>::default().as_ref(), &[String::new(), String::new()]);
    assert!(SafeArray::<u8, 0>::default().as_ref().is_empty());
}

#[test]
fn arrays_of_bytes_are_compared_by_what_they_hold() {
    let mut a = SafeArray::<u8, 4>::default();
    let mut b = SafeArray::<u8, 4>::default();
    assert!(a == b);
    assert!(a.ct_eq(&b));
    a.as_mut()[3] = 1;
    assert!(a != b);
    assert!(!a.ct_eq(&b));
    b.as_mut()[3] = 1;
    assert!(a == b);
    b.as_mut()[0] = 255;
    assert!(a != b);
    b.zeroize();
    assert!(a != b);
    assert!(!b.ct_eq(&a));
}

#[test]
fn items_are_changed_through_the_mutable_slice() {
    let mut array = SafeArray::<u8, 3>::default();
    array.as_mut().copy_from_slice(&[1, 2, 3]);
    assert_eq!(array.as_ref(), &[1, 2, 3]);
    let clone = array.clone();
    array.as_mut()[0] = 9;
    assert_eq!(clone.as_ref(), &[1, 2, 3]);
    assert_eq!(array.as_ref(), &[9, 2, 3]);
}

#[test]
fn zeroize_leaves_the_array_empty() {
    let mut array = SafeArray::<u8, 3>::default();
    array.as_mut().copy_from_slice(&[1, 2, 3]);
    array.zeroize();
    assert!(array.as_ref().is_empty());
    let mut array = SafeArray::<u8, 3>::default();
    array.as_mut().copy_from_slice(&[1, 2, 3]);
    array.wipe();
    assert!(array.as_ref().is_empty());
}

#[test]
fn the_mask_of_a_hidden_array() {
    let key = CipherKey::from(SafeArray::<u8, 32>::default());
    assert_eq!(key.to_string(), "Hidden<tari_utilities::safe_array::SafeArray<u8, 32>>");
}
