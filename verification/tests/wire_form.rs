use conveyor::errors::CoreError;
use conveyor::labels::Labels;
use conveyor::vector::Vector;

#[test]
fn labels_round_trip() {
    let original: Vec<u128> = vec![0, 1, 42, u128::MAX, 1 << 100];
    let labels = Labels::from_vec_u128(original.clone());
    let wire = labels.encode();
    let back = Labels::decode(&wire).unwrap();
    assert_eq!(back.data, original);
}

#[test]
fn vector_round_trip() {
    let original: Vec<u128> = vec![100, 0, 999_999_999_999, u128::MAX - 1];
    let vector = Vector::from_vec(original.clone());
    let wire = vector.encode();
    let back = Vector::decode(&wire).unwrap();
    assert_eq!(back.data, original);
}

#[test]
fn empty_round_trip() {
    let labels = Labels::new();
    let wire = labels.encode();
    assert_eq!(wire.len(), 0);
    assert_eq!(Labels::decode(&wire).unwrap().data.len(), 0);
}

#[test]
fn one_word_is_sixteen_little_endian_bytes() {
    let labels = Labels::from_vec_u128(vec![0x0102]);
    let wire = labels.encode();
    let mut expected = vec![0x02u8, 0x01];
    expected.extend(std::iter::repeat(0u8).take(14));
    assert_eq!(wire, expected);
}

#[test]
fn ragged_blob_is_rejected() {
    let wire: Vec<u8> = vec![0; 17];
    assert_eq!(Labels::decode(&wire), Err(CoreError::WireLength));
    assert_eq!(Vector::decode(&wire), Err(CoreError::WireLength));
}
