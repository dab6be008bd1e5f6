use lightning_features::{DecodeError, Features, InitFeatures, NodeFeatures};

#[test]
fn write_reverses_storage_into_wire_order() {
    let features: InitFeatures = Features::from_le_bytes(vec![0x2A, 0x82, 0x02]);
    let wire = features.write();
    assert_eq!(wire, vec![0x00, 0x03, 0x02, 0x82, 0x2A]);
}

#[test]
fn write_empty_vector() {
    let features = InitFeatures::empty();
    assert_eq!(features.write(), vec![0x00, 0x00]);
}

#[test]
fn write_length_prefix_is_big_endian() {
    let features: InitFeatures = Features::from_le_bytes(vec![7u8; 300]);
    let wire = features.write();
    assert_eq!(wire.len(), 302);
    assert_eq!(wire[0], 0x01);
    assert_eq!(wire[1], 0x2C);
}

#[test]
fn read_write_round_trip() {
    let original = NodeFeatures::known();
    let wire = original.write();
    let reread: NodeFeatures = Features::read(&wire).unwrap();
    assert!(reread == original);
    assert_eq!(reread.le_flags().clone(), vec![0x22, 0x82, 0x02]);

    let empty = NodeFeatures::empty();
    let reread_empty: NodeFeatures = Features::read(&empty.write()).unwrap();
    assert!(reread_empty == empty);
}

#[test]
fn read_ignores_trailing_bytes() {
    let reread: InitFeatures = Features::read(&[0x00, 0x02, 0xAB, 0xCD, 0xEE, 0xFF]).unwrap();
    assert_eq!(reread.le_flags().clone(), vec![0xCD, 0xAB]);
}

#[test]
fn read_rejects_short_length_prefix() {
    let r: Result<InitFeatures, DecodeError> = Features::read(&[0x00]);
    assert!(matches!(r, Err(DecodeError::ShortRead)));
}

#[test]
fn read_rejects_truncated_content() {
    let r: Result<InitFeatures, DecodeError> = Features::read(&[0x00, 0x03, 0x01, 0x02]);
    assert!(matches!(r, Err(DecodeError::ShortRead)));
}

#[test]
fn write_up_to_13_masks_high_bits_and_drops_third_byte() {
    let features: InitFeatures = Features::from_le_bytes(vec![0x02, 0x82, 0x02]);
    assert_eq!(features.write_up_to_13(), vec![0x00, 0x02, 0x02, 0x02]);
}

#[test]
fn write_up_to_13_short_vectors() {
    let one: InitFeatures = Features::from_le_bytes(vec![0x2A]);
    assert_eq!(one.write_up_to_13(), vec![0x00, 0x01, 0x2A]);

    let none = InitFeatures::empty();
    assert_eq!(none.write_up_to_13(), vec![0x00, 0x00]);
}

#[test]
fn or_merges_and_grows_shorter_operand() {
    let a: InitFeatures = Features::from_le_bytes(vec![0x01, 0x10]);
    let b: InitFeatures = Features::from_le_bytes(vec![0x02, 0x00, 0x80]);
    let merged = a.or(b);
    assert_eq!(merged.le_flags().clone(), vec![0x03, 0x10, 0x80]);
}

#[test]
fn or_is_commutative_on_byte_content() {
    let a: InitFeatures = Features::from_le_bytes(vec![0x05, 0x21]);
    let b: InitFeatures = Features::from_le_bytes(vec![0x18]);
    let ab = a.clone().or(b.clone());
    let ba = b.or(a);
    assert!(ab == ba);
}

#[test]
fn or_with_empty_is_identity() {
    let a = InitFeatures::known();
    let merged = a.clone().or(InitFeatures::empty());
    assert!(merged == a);
    let merged_left = InitFeatures::empty().or(a.clone());
    assert!(merged_left == a);
}
