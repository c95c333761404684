use tari_utilities::convert::try_convert_all;

#[test]
fn convert_all() {
    let a: Vec<u32> = try_convert_all(vec![1i64, 2, 3, 4, 5]).unwrap();
    assert_eq!(a, [1, 2, 3, 4, 5]);
}

#[test]
fn convert_all_failed() {
    let err = try_convert_all::<_, u32>(vec![std::i64::MAX, 2, 3, 4, 5]).unwrap_err();
    assert_eq!(err.to_string(), "out of range integral type conversion attempted");
}

#[test]
fn convert_all_of_nothing() {
    let a: Vec<u8> = try_convert_all(Vec::<u16>::new()).unwrap();
    assert!(a.is_empty());
}

#[test]
fn convert_all_stops_at_the_first_failure() {
    assert!(try_convert_all::<i32, u8>(vec![1, 2, -1, 300]).is_err());
    assert!(try_convert_all::<i32, u8>(vec![1, 2, 255]).is_ok());
    assert_eq!(try_convert_all::<i32, u8>(vec![0, 255]).unwrap(), vec![0u8, 255]);
}
