use sams::types::telemetry;
use sams::utils::validation::{self, ValidationResult};
use sams::utils::{fixed_point, time};
use sams::AtomBuilder;

fn f64_to_fixed(value: f64) -> u32 {
    (value.clamp(0.0, 4_294_967.29) * 100.0) as u32
}

fn fixed_to_f64(value: u32) -> f64 {
    value as f64 / 100.0
}

#[test]
fn test_fixed_point_arithmetic() {
    let a = f64_to_fixed(10.0);
    let b = f64_to_fixed(20.0);

    // Addition
    let sum = fixed_point::add_fixed(a, b).unwrap();
    assert_eq!(fixed_to_f64(sum), 30.0);

    // Multiplication
    let product = fixed_point::mul_fixed(a, b);
    assert_eq!(fixed_to_f64(product), 200.0);

    // Division
    let quotient = fixed_point::div_fixed(b, a).unwrap();
    assert_eq!(fixed_to_f64(quotient), 2.0);
}

#[test]
fn test_time_conversions() {
    let us = 1_234_567_890_u64;

    let ms = time::us_to_ms(us);
    assert_eq!(ms, 1_234_567);

    let back_us = time::ms_to_us(ms);
    assert_eq!(back_us, 1_234_567_000);

    let sec = time::us_to_sec(us);
    assert_eq!(sec, 1234);

    let back_us = time::sec_to_us(sec);
    assert_eq!(back_us, 1_234_000_000);
}

#[test]
fn test_validation() {
    let atom = AtomBuilder::new()
        .entity_id(123)
        .value_fixed((42.5f64 * 100.0) as u32)
        .telemetry_type(telemetry::TEMPERATURE_C)
        .build();

    // Valid atom should pass
    let results = validation::validate_comprehensive(&atom, None);
    assert!(results.is_empty());
    assert!(validation::is_valid(&atom, None));

    // Invalid atom should fail
    let invalid_atom = AtomBuilder::new()
        .entity_id(0) // Invalid
        .value_fixed((-100.0f64 * 100.0) as u32) // Invalid for temperature
        .telemetry_type(telemetry::TEMPERATURE_C)
        .build();

    let results = validation::validate_comprehensive(&invalid_atom, None);
    assert!(!results.is_empty());
    assert!(!validation::is_valid(&invalid_atom, None));
}

#[test]
fn test_temporal_consistency() {
    let base_time = 1_600_000_000_000_000_u64; // Some timestamp

    let atom1 = AtomBuilder::new()
        .entity_id(123)
        .sequence(1)
        .timestamp_us(base_time)
        .build();

    let atom2 = AtomBuilder::new()
        .entity_id(123)
        .sequence(2)
        .timestamp_us(base_time + 1_000_000) // 1 second later
        .build();

    // Should be valid
    let result = validation::validate_temporal_consistency(&atom2, Some(&atom1));
    assert!(matches!(result, validation::ValidationResult::Valid));

    // Invalid sequence
    let atom3 = AtomBuilder::new()
        .entity_id(123)
        .sequence(1) // Same as atom1
        .timestamp_us(base_time + 2_000_000)
        .build();

    let result = validation::validate_temporal_consistency(&atom3, Some(&atom1));
    assert!(matches!(result, validation::ValidationResult::Warning(_)));
}

#[test]
fn fixed_point_helpers() {
    assert_eq!(fixed_point::round_to_precision(4256, 10), 4260);
    assert_eq!(fixed_point::round_to_precision(4254, 10), 4250);
    assert_eq!(fixed_point::round_to_precision(4250, 1), 4300);
    assert_eq!(fixed_point::round_to_precision(4249, 1), 4200);
    assert_eq!(fixed_point::round_to_precision(4261, 100), 4261);
    assert_eq!(fixed_point::add_fixed(u32::MAX, 1), None);
    assert_eq!(fixed_point::sub_fixed(1, 2), None);
    assert_eq!(fixed_point::sub_fixed(5, 2), Some(3));
    assert_eq!(fixed_point::mul_fixed(u32::MAX, u32::MAX), 4037269258);
    assert_eq!(fixed_point::div_fixed(5, 0), None);
    assert_eq!(fixed_point::div_fixed(1, 3), Some(33));
    assert_eq!(fixed_point::avg_fixed(3, 4), 3);
    assert_eq!(fixed_point::avg_fixed(u32::MAX, u32::MAX), u32::MAX);
    assert_eq!(fixed_point::avg_fixed(u32::MAX, u32::MAX - 1), u32::MAX - 1);
}

#[test]
fn time_helpers() {
    assert_eq!(time::duration_us(10, 25), 15);
    assert_eq!(time::duration_us(25, 10), 0);
    assert!(time::is_recent_at(90, 20, 100));
    assert!(!time::is_recent_at(79, 20, 100));
    assert!(time::is_recent_at(0, 200, 100));
    assert!(time::is_recent(time::now_us(), 60_000_000));
    assert!(!time::is_recent(1, 1_000));
    assert!(time::now_us() > 1_600_000_000_000_000);
    assert!(time::now_ms() > 1_600_000_000_000);
}

#[test]
fn timestamp_text() {
    assert_eq!(time::format_timestamp_us(0), "1970-01-01T00:00:00.000000Z");
    assert_eq!(time::format_timestamp_us(1_600_000_000_123_456), "2020-09-13T12:26:40.123456Z");
    assert_eq!(time::format_timestamp_us(u64::MAX), "1969-12-31T23:59:59.999999Z");
    assert_eq!(time::format_timestamp_us(i64::MAX as u64), "Invalid timestamp");
    assert_eq!(time::parse_timestamp_us("1970-01-01T00:00:01Z"), 1_000_000);
    assert_eq!(time::parse_timestamp_us("2020-09-13T12:26:40.123456Z"), 1_600_000_000_123_456);
    assert_eq!(time::parse_timestamp_us("not a time"), 0);
}

#[test]
fn validation_value_ranges() {
    let with = |ty: u16, v: u32| {
        let atom = AtomBuilder::new().entity_id(1).timestamp_us(1).telemetry_type(ty).value_fixed(v).build();
        validation::validate_value_ranges(&atom)
    };
    assert_eq!(with(0x0001, 1_000_001), ValidationResult::Error("Water level out of range (0-10000mm)"));
    assert_eq!(with(0x0001, 1_000_000), ValidationResult::Valid);
    assert!(matches!(with(0x0002, 10_001), ValidationResult::Warning(_)));
    assert_eq!(with(0x0002, 10_000), ValidationResult::Valid);
    assert!(matches!(with(0x0003, 10_001), ValidationResult::Error(_)));
    assert!(matches!(with(0x0004, 7_999_999), ValidationResult::Warning(_)));
    assert_eq!(with(0x0004, 10_000_000), ValidationResult::Valid);
    assert!(matches!(with(0x0005, 100_001), ValidationResult::Warning(_)));
    assert!(matches!(with(0x0006, 1_000_001), ValidationResult::Warning(_)));
    assert!(matches!(with(0x0009, 100_000_001), ValidationResult::Warning(_)));
    assert_eq!(with(0x0009, 100_000_000), ValidationResult::Valid);
}

#[test]
fn validation_findings_and_validity() {
    let prev = AtomBuilder::new().entity_id(1).sequence(5).timestamp_us(10_000).telemetry_type(2).build();
    let same_time = AtomBuilder::new().entity_id(1).sequence(6).timestamp_us(10_000).telemetry_type(2).build();
    assert_eq!(
        validation::validate_temporal_consistency(&same_time, Some(&prev)),
        ValidationResult::Error("Timestamp not increasing")
    );
    let fast = AtomBuilder::new().entity_id(1).sequence(6).timestamp_us(10_500).telemetry_type(2).build();
    assert_eq!(
        validation::validate_temporal_consistency(&fast, Some(&prev)),
        ValidationResult::Warning("Very high frequency data")
    );
    let late = AtomBuilder::new().entity_id(1).sequence(6).timestamp_us(3_600_010_001).telemetry_type(2).build();
    assert_eq!(
        validation::validate_temporal_consistency(&late, Some(&prev)),
        ValidationResult::Warning("Large time gap")
    );
    let bad = AtomBuilder::new().entity_id(0).sequence(1).timestamp_us(10_000).telemetry_type(3).value_fixed(20_000).build();
    let findings = validation::validate_comprehensive(&bad, Some(&prev));
    assert_eq!(
        findings,
        vec![
            ValidationResult::Warning("Entity ID is zero"),
            ValidationResult::Error("Humidity out of range (0-100%)"),
            ValidationResult::Warning("Sequence number not increasing"),
        ]
    );
    assert!(!validation::is_valid(&bad, Some(&prev)));
    let zero = sams::SemanticAtom::new();
    assert_eq!(validation::validate_structure(&zero), ValidationResult::Warning("Entity ID is zero"));
    let no_type = AtomBuilder::new().entity_id(1).timestamp_us(1).build();
    assert_eq!(validation::validate_structure(&no_type), ValidationResult::Warning("Telemetry type is zero"));
}

#[test]
fn conversion_roundtrips() {
    for ms in [0u64, 1, 1_234_567, u64::MAX / 1000] {
        assert_eq!(time::us_to_ms(time::ms_to_us(ms)), ms);
    }
    for sec in [0u64, 59, 1_600_000_000] {
        assert_eq!(time::us_to_sec(time::sec_to_us(sec)), sec);
    }
    let us = 1_234_567_890;
    assert!(time::ms_to_us(time::us_to_ms(us)) <= us);
    let r = fixed_point::round_to_precision(4256, 10);
    assert_eq!(fixed_point::round_to_precision(r, 10), r);
    let c = fixed_point::add_fixed(1000, 2345).unwrap();
    assert_eq!(fixed_point::sub_fixed(c, 2345), Some(1000));
    let avg = fixed_point::avg_fixed(100, 301);
    assert!(100 <= avg && avg <= 301);
}

#[test]
fn clock_reading_to_timestamp() {
    assert_eq!(time::timestamp_from_elapsed(None), 0);
    assert_eq!(time::timestamp_from_elapsed(Some(1_600_000_000_000_000)), 1_600_000_000_000_000);
    assert_eq!(time::timestamp_from_elapsed(Some((1u128 << 64) + 5)), 5);
}
