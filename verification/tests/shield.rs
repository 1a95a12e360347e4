use sams::shield::{
    AnonymizationLevel, ObfuscationStrategy, Shield, ShieldConfig, ShieldError,
};
use sams::types::telemetry;
use sams::{AtomBuilder, ATOM_SIZE};

fn to_fixed(value: f64) -> u32 {
    (value * 100.0) as u32
}

fn to_value(fixed: u32) -> f64 {
    fixed as f64 / 100.0
}

#[test]
fn test_basic_anonymization() {
    let shield = Shield::new();
    let mut atom = AtomBuilder::new()
        .entity_id(12345)
        .node_id(678)
        .value_fixed(to_fixed(42.5))
        .build();

    let original_entity_id = atom.entity_id;
    shield.anonymize_atom(&mut atom).unwrap();

    assert_ne!(atom.entity_id, original_entity_id);
    assert_eq!(atom.node_id, 678); // Should not be changed at basic level
    assert_eq!(to_value(atom.value_fixed()), 42.5); // Value should not change
}

#[test]
fn test_medium_anonymization() {
    let config = ShieldConfig {
        anonymization_level: AnonymizationLevel::Medium,
        ..Default::default()
    };
    let shield = Shield::with_config(config);

    let mut atom = AtomBuilder::new()
        .entity_id(12345)
        .node_id(678)
        .value_fixed(to_fixed(42.5))
        .build();

    let original_entity_id = atom.entity_id;
    let original_node_id = atom.node_id;

    shield.anonymize_atom(&mut atom).unwrap();

    assert_ne!(atom.entity_id, original_entity_id);
    assert_ne!(atom.node_id, original_node_id);
    assert_eq!(to_value(atom.value_fixed()), 42.5); // Value should not change
}

#[test]
fn test_obfuscation_zeroize() {
    let config = ShieldConfig {
        obfuscation_strategy: ObfuscationStrategy::Zeroize,
        ..Default::default()
    };
    let shield = Shield::with_config(config);

    let mut atom = AtomBuilder::new().value_fixed(to_fixed(42.5)).build();

    shield.obfuscate_values(&mut atom).unwrap();
    assert_eq!(to_value(atom.value_fixed()), 0.0);
}

#[test]
fn test_obfuscation_bucketize() {
    let config = ShieldConfig {
        obfuscation_strategy: ObfuscationStrategy::Bucketize,
        ..Default::default()
    };
    let shield = Shield::with_config(config);

    let mut atom = AtomBuilder::new()
        .value_fixed(to_fixed(47.8)) // Should be rounded to 40.0
        .build();

    shield.obfuscate_values(&mut atom).unwrap();
    assert_eq!(to_value(atom.value_fixed()), 40.0);
}

#[test]
fn test_pqc_signing() {
    let mut shield = Shield::new();
    shield.set_key(b"test_key_32_bytes_long______").unwrap();

    let atom = AtomBuilder::new()
        .entity_id(123)
        .value_fixed(to_fixed(42.5))
        .build();

    let signature = shield.sign_atom(&atom).unwrap();
    assert_eq!(signature.len(), 32);

    let is_valid = shield.verify_atom(&atom, &signature).unwrap();
    assert!(is_valid);
}

#[test]
fn test_protected_packet() {
    let mut shield = Shield::new();
    shield.set_key(b"test_key_32_bytes_long______").unwrap();

    let atom = AtomBuilder::new()
        .entity_id(123)
        .value_fixed(to_fixed(42.5))
        .build();

    let packet = shield.create_protected_packet(&atom).unwrap();
    assert_eq!(packet.len(), ATOM_SIZE + 32);

    let (extracted_atom, is_valid) = shield.extract_protected_packet(&packet).unwrap();
    assert!(is_valid);
    assert_eq!(extracted_atom.entity_id(), 123);
    assert_eq!(to_value(extracted_atom.value_fixed()), 42.5);
}

#[test]
fn test_maximum_anonymization() {
    let config = ShieldConfig {
        anonymization_level: AnonymizationLevel::Maximum,
        ..Default::default()
    };
    let shield = Shield::with_config(config);

    let mut atom = AtomBuilder::new()
        .entity_id(12345)
        .node_id(678)
        .sequence(999)
        .value_fixed(to_fixed(42.5))
        .telemetry_type(telemetry::TEMPERATURE_C)
        .build();

    shield.anonymize_atom(&mut atom).unwrap();

    assert_eq!(atom.entity_id, 0);
    assert_eq!(atom.node_id, 0);
    assert_eq!(atom.sequence, 0);
    assert_eq!(to_value(atom.value_fixed()), 0.0);
    assert_eq!(atom.telemetry_type(), telemetry::TEMPERATURE_C); // Telemetry type preserved
}

fn atom_for_levels() -> sams::SemanticAtom {
    AtomBuilder::new()
        .entity_id(12345)
        .sequence(67890)
        .value_fixed(4250)
        .status_flags(1)
        .timestamp_us(7_300_000_123)
        .node_id(0x1234)
        .telemetry_type(telemetry::TEMPERATURE_C)
        .trust_level(3)
        .build()
}

fn anonymized_at(level: AnonymizationLevel) -> sams::SemanticAtom {
    let shield = Shield::with_config(ShieldConfig {
        anonymization_level: level,
        ..Default::default()
    });
    let mut atom = atom_for_levels();
    shield.anonymize_atom(&mut atom).unwrap();
    atom
}

#[test]
fn anonymization_levels_nest() {
    let original = atom_for_levels();
    let off = anonymized_at(AnonymizationLevel::Off);
    let basic = anonymized_at(AnonymizationLevel::Basic);
    let medium = anonymized_at(AnonymizationLevel::Medium);
    let high = anonymized_at(AnonymizationLevel::High);
    assert_eq!(off, original);
    assert_ne!(basic.entity_id, original.entity_id);
    assert_eq!(basic.node_id, original.node_id);
    assert_eq!(medium.entity_id, basic.entity_id);
    assert_ne!(medium.node_id, original.node_id);
    assert_eq!(medium.sequence, original.sequence);
    assert_eq!(high.entity_id, medium.entity_id);
    assert_eq!(high.node_id, medium.node_id);
    assert_ne!(high.sequence, original.sequence);
    assert_eq!(high.timestamp_us, 7_200_000_000);
    for a in [basic, medium, high] {
        assert_eq!(a.value_fixed, 4250);
        assert_eq!(a.status_flags, 1);
        assert_eq!(a.trust_pqc, 3);
        assert_eq!(a.telemetry_type, telemetry::TEMPERATURE_C);
    }
    let max = anonymized_at(AnonymizationLevel::Maximum);
    assert_eq!(max.trust_pqc, 0);
    assert_eq!(max.timestamp_us, 0);
    assert_eq!(max.status_flags, 0);
}

#[test]
fn obfuscation_noise_and_hash_mask() {
    let noise = Shield::with_config(ShieldConfig {
        obfuscation_strategy: ObfuscationStrategy::Noise,
        ..Default::default()
    });
    let mut atom = AtomBuilder::new().value_fixed(4250).build();
    noise.obfuscate_values(&mut atom).unwrap();
    assert!(atom.value_fixed >= 4200 && atom.value_fixed <= 4299);

    let mut small = AtomBuilder::new().value_fixed(0).build();
    noise.obfuscate_values(&mut small).unwrap();
    assert!(small.value_fixed <= 49);

    let mask = Shield::new();
    let mut masked = AtomBuilder::new().value_fixed(4250).build();
    mask.obfuscate_values(&mut masked).unwrap();
    assert_ne!(masked.value_fixed, 4250);
    let mut again = AtomBuilder::new().value_fixed(4250).build();
    mask.obfuscate_values(&mut again).unwrap();
    assert_eq!(masked.value_fixed, again.value_fixed);
}

#[test]
fn set_key_limits_and_signature_dependence() {
    let mut shield = Shield::new();
    assert_eq!(shield.set_key(&[7u8; 33]), Err(ShieldError::InvalidKeySize));
    let atom = AtomBuilder::new().entity_id(1).timestamp_us(1).build();
    let zero_key_sig = shield.sign_atom(&atom).unwrap();
    shield.set_key(&[7u8; 32]).unwrap();
    let sig = shield.sign_atom(&atom).unwrap();
    assert_ne!(sig, zero_key_sig);
    let other = AtomBuilder::new().entity_id(2).timestamp_us(1).build();
    assert_ne!(shield.sign_atom(&other).unwrap(), sig);
    assert!(!shield.verify_atom(&other, &sig).unwrap());
    assert_eq!(shield.verify_atom(&atom, &sig[..31]), Err(ShieldError::InvalidSignature));
}

#[test]
fn signature_is_hmac_sha256_of_atom_bytes() {
    let atom = AtomBuilder::new().entity_id(42).timestamp_us(9).build();
    let mut short = Shield::new();
    short.set_key(b"Jefe").unwrap();
    let expected_hex = "fb96ac68842a6731636ab5dd84e39de24a9947691f317b0f9d4ebe0ff3512bdf";
    let expected: Vec<u8> = (0..32)
        .map(|i| u8::from_str_radix(&expected_hex[2 * i..2 * i + 2], 16).unwrap())
        .collect();
    let sig = short.sign_atom(&atom).unwrap();
    assert_eq!(sig.to_vec(), expected);

    let mut padded = Shield::new();
    let mut key = [0u8; 32];
    key[..4].copy_from_slice(b"Jefe");
    padded.set_key(&key).unwrap();
    assert_eq!(padded.sign_atom(&atom).unwrap(), sig);
}

#[test]
fn protected_packet_tamper_and_size() {
    let mut shield = Shield::new();
    shield.set_key(b"another key").unwrap();
    let atom = AtomBuilder::new().entity_id(5).value_fixed(123).timestamp_us(77).build();
    let mut packet = shield.create_protected_packet(&atom).unwrap();
    assert_eq!(&packet[..32], &atom.as_bytes());
    packet[3] ^= 0x80;
    let (changed, valid) = shield.extract_protected_packet(&packet).unwrap();
    assert!(!valid);
    assert_ne!(changed, atom);
    assert_eq!(
        shield.extract_protected_packet(&packet[..63]),
        Err(ShieldError::BufferSizeError)
    );
}

#[test]
fn shield_error_messages() {
    assert_eq!(ShieldError::InvalidKeySize.message(), "Invalid key size");
    assert_eq!(ShieldError::BufferSizeError.message(), "Buffer size mismatch");
}

#[test]
fn entity_mask_is_deterministic_and_keeps_ids_distinct() {
    let mut keyed = Shield::with_config(ShieldConfig {
        anonymization_level: AnonymizationLevel::High,
        obfuscation_strategy: ObfuscationStrategy::Zeroize,
        enable_pqc: false,
    });
    keyed.set_key(b"some key").unwrap();
    let plain = Shield::with_config(ShieldConfig {
        anonymization_level: AnonymizationLevel::High,
        ..Default::default()
    });
    let mut seen = std::collections::HashSet::new();
    for id in [0u32, 1, 2, 12345, 12346, u32::MAX, 0x8000_0000] {
        let mut a = AtomBuilder::new().entity_id(id).timestamp_us(1).build();
        let mut b = a;
        keyed.anonymize_atom(&mut a).unwrap();
        plain.anonymize_atom(&mut b).unwrap();
        assert_eq!(a, b);
        assert!(seen.insert(a.entity_id));
    }
    assert_eq!(sams::shield::mask_u32(0), 0);
    assert_ne!(sams::shield::mask_u32(1), 1);
}
