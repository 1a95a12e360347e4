use sams::codec::{AtomCodec, CodecError, SamsCodec};
use sams::types::telemetry;
use sams::{AtomBuilder, SemanticAtom, ATOM_SIZE};

fn to_fixed(value: f64) -> u32 {
    (value * 100.0) as u32
}

fn to_value(fixed: u32) -> f64 {
    fixed as f64 / 100.0
}

#[test]
fn test_atom_size() {
    assert_eq!(ATOM_SIZE, 32);
    assert_eq!(core::mem::size_of::<SemanticAtom>(), 32);
}

#[test]
fn test_basic_creation() {
    let atom = AtomBuilder::new().entity_id(123).value_fixed(5000).build();

    assert_eq!(atom.entity_id(), 123);
    assert_eq!(atom.value_fixed(), 5000);
    assert_eq!(to_value(atom.value_fixed()), 50.0);
}

fn sample_atom() -> SemanticAtom {
    AtomBuilder::new()
        .entity_id(0x0403_0201)
        .sequence(0x0807_0605)
        .value_fixed(to_fixed(42.5))
        .status_flags(0x0c0b_0a09)
        .timestamp_us(0x1413_1211_100f_0e0d)
        .node_id(0x1615)
        .telemetry_type(telemetry::TEMPERATURE_C)
        .trust_level(0x01)
        .pqc_anchor(0x00ab_cdef)
        .build()
}

#[test]
fn atom_bytes_are_little_endian_fields() {
    let atom = sample_atom();
    let bytes = atom.as_bytes();
    assert_eq!(&bytes[0..4], &[0x01, 0x02, 0x03, 0x04]);
    assert_eq!(&bytes[4..8], &[0x05, 0x06, 0x07, 0x08]);
    assert_eq!(&bytes[8..12], &4250u32.to_le_bytes());
    assert_eq!(&bytes[12..16], &[0x09, 0x0a, 0x0b, 0x0c]);
    assert_eq!(&bytes[16..24], &[0x0d, 0x0e, 0x0f, 0x10, 0x11, 0x12, 0x13, 0x14]);
    assert_eq!(&bytes[24..26], &[0x15, 0x16]);
    assert_eq!(&bytes[26..28], &[0x02, 0x00]);
    assert_eq!(&bytes[28..32], &[0x01, 0xef, 0xcd, 0xab]);
    assert_eq!(atom.trust_level(), 0x01);
    assert_eq!(atom.pqc_anchor(), 0x00ab_cdef);
}

#[test]
fn atom_bytes_roundtrip() {
    let atom = sample_atom();
    let decoded = SemanticAtom::from_bytes(&atom.as_bytes()).unwrap();
    assert_eq!(decoded, atom);

    let raw: Vec<u8> = (0u8..32).map(|b| b.wrapping_mul(37)).collect();
    let from_raw = SemanticAtom::from_bytes(&raw).unwrap();
    assert_eq!(from_raw.as_bytes().to_vec(), raw);
}

#[test]
fn from_bytes_rejects_wrong_length() {
    assert!(SemanticAtom::from_bytes(&[0u8; 31]).is_none());
    assert!(SemanticAtom::from_bytes(&[0u8; 33]).is_none());
    assert!(SemanticAtom::from_bytes(&[]).is_none());
}

#[test]
fn new_atom_is_zero() {
    let atom = SemanticAtom::new();
    assert_eq!(atom.as_bytes(), [0u8; 32]);
    assert_eq!(atom, SemanticAtom::default());
}

#[test]
fn builder_stamps_current_time_without_timestamp() {
    let atom = AtomBuilder::new().entity_id(7).build();
    assert!(atom.timestamp_us() > 0);
    let fixed = AtomBuilder::new().timestamp_us(99).build();
    assert_eq!(fixed.timestamp_us(), 99);
    let at = AtomBuilder::new().build_at(1234);
    assert_eq!(at.timestamp_us(), 1234);
    let now = AtomBuilder::new().timestamp_us(5).build_now();
    assert!(now.timestamp_us() > 5);
}

#[test]
fn codec_single_atom() {
    let codec = AtomCodec::new();
    let atom = sample_atom();
    let mut out = [0u8; 32];
    codec.encode_atom(&atom, &mut out).unwrap();
    assert_eq!(out, atom.as_bytes());
    assert_eq!(codec.decode_atom(&out).unwrap(), atom);
    assert_eq!(codec.decode_atom(&out[..31]), Err(CodecError::InvalidLength));
}

#[test]
fn codec_batch_roundtrip() {
    let codec = AtomCodec::new();
    let atoms = vec![
        AtomBuilder::new().entity_id(1).value_fixed(1000).timestamp_us(1).build(),
        AtomBuilder::new().entity_id(2).value_fixed(2000).timestamp_us(2).build(),
        AtomBuilder::new().entity_id(3).value_fixed(3000).timestamp_us(3).build(),
    ];
    let bytes = codec.encode_atoms(&atoms);
    assert_eq!(bytes.len(), 3 * ATOM_SIZE);
    assert_eq!(&bytes[32..64], &atoms[1].as_bytes());
    assert_eq!(codec.decode_atoms(&bytes).unwrap(), atoms);
    assert_eq!(codec.decode_atoms(&bytes[..40]), Err(CodecError::InvalidLength));
    assert!(codec.decode_atoms(&[]).unwrap().is_empty());
}
