//! Validation of atoms: structure, value ranges and temporal consistency.

use vstd::prelude::*;
use crate::types::SemanticAtom;

verus! {

/// Outcome of one validation check.
#[derive(Debug, Clone, Copy, PartialEq, Eq)]
pub enum ValidationResult {
    /// Valid atom
    Valid,
    /// Warning condition
    Warning(&'static str),
    /// Error condition
    Error(&'static str),
}

/// The structure check: entity id, timestamp and telemetry type must be set.
pub open spec fn structure_check(a: SemanticAtom) -> ValidationResult {
    if a.entity_id == 0 {
        ValidationResult::Warning("Entity ID is zero")
    } else if a.timestamp_us == 0 {
        ValidationResult::Warning("Timestamp is zero")
    } else if a.telemetry_type == 0 {
        ValidationResult::Warning("Telemetry type is zero")
    } else {
        ValidationResult::Valid
    }
}

/// The value range check by telemetry type. Values are in hundredths, so a
/// bound of `N` units is `100 * N` here; values are never negative, so only
/// the upper bounds (and the lower pressure bound) can be crossed.
pub open spec fn range_check(a: SemanticAtom) -> ValidationResult {
    let v = a.value_fixed;
    if a.telemetry_type == 0x0001 {
        if v > 1_000_000 {
            ValidationResult::Error("Water level out of range (0-10000mm)")
        } else {
            ValidationResult::Valid
        }
    } else if a.telemetry_type == 0x0002 {
        if v > 10_000 {
            ValidationResult::Warning("Temperature out of typical range (-50 to 100°C)")
        } else {
            ValidationResult::Valid
        }
    } else if a.telemetry_type == 0x0003 {
        if v > 10_000 {
            ValidationResult::Error("Humidity out of range (0-100%)")
        } else {
            ValidationResult::Valid
        }
    } else if a.telemetry_type == 0x0004 {
        if v < 8_000_000 || v > 12_000_000 {
            ValidationResult::Warning("Pressure out of typical range (800-1200 hPa)")
        } else {
            ValidationResult::Valid
        }
    } else if a.telemetry_type == 0x0005 {
        if v > 100_000 {
            ValidationResult::Warning("Precipitation out of typical range (0-1000mm)")
        } else {
            ValidationResult::Valid
        }
    } else if a.telemetry_type == 0x0006 {
        if v > 1_000_000 {
            ValidationResult::Warning("CO2 out of typical range (0-10000ppm)")
        } else {
            ValidationResult::Valid
        }
    } else {
        if v > 100_000_000 {
            ValidationResult::Warning("Value out of reasonable range")
        } else {
            ValidationResult::Valid
        }
    }
}

/// The temporal check of an atom against the atom before it.
pub open spec fn temporal_check(current: SemanticAtom, previous: Option<SemanticAtom>) -> ValidationResult {
    match previous {
        None => ValidationResult::Valid,
        Some(prev) => {
            if current.sequence <= prev.sequence {
                ValidationResult::Warning("Sequence number not increasing")
            } else if current.timestamp_us <= prev.timestamp_us {
                ValidationResult::Error("Timestamp not increasing")
            } else if current.timestamp_us - prev.timestamp_us < 1000 {
                ValidationResult::Warning("Very high frequency data")
            } else if current.timestamp_us - prev.timestamp_us > 3_600_000_000 {
                ValidationResult::Warning("Large time gap")
            } else {
                ValidationResult::Valid
            }
        },
    }
}

/// A check's result as a finding: nothing when it is valid.
pub open spec fn as_finding(r: ValidationResult) -> Seq<ValidationResult> {
    if r is Valid {
        Seq::empty()
    } else {
        seq![r]
    }
}

/// The warnings and errors of all three checks, in order.
pub open spec fn findings(a: SemanticAtom, previous: Option<SemanticAtom>) -> Seq<ValidationResult> {
    as_finding(structure_check(a)) + as_finding(range_check(a)) + as_finding(
        temporal_check(a, previous),
    )
}

/// The optional previous atom as a value.
pub open spec fn previous_value(previous: Option<&SemanticAtom>) -> Option<SemanticAtom> {
    match previous {
        Some(p) => Some(*p),
        None => None,
    }
}

/// Validate atom structure.
pub fn validate_structure(atom: &SemanticAtom) -> (r: ValidationResult)
    ensures
        r == structure_check(*atom),
{
    if atom.entity_id == 0 {
        return ValidationResult::Warning("Entity ID is zero");
    }
    if atom.timestamp_us == 0 {
        return ValidationResult::Warning("Timestamp is zero");
    }
    if atom.telemetry_type == 0 {
        return ValidationResult::Warning("Telemetry type is zero");
    }
    ValidationResult::Valid
}

/// Validate atom value ranges by telemetry type.
pub fn validate_value_ranges(atom: &SemanticAtom) -> (r: ValidationResult)
    ensures
        r == range_check(*atom),
{
    let v = atom.value_fixed;
    match atom.telemetry_type {
        0x0001 => {
            if v > 1_000_000 {
                return ValidationResult::Error("Water level out of range (0-10000mm)");
            }
        },
        0x0002 => {
            if v > 10_000 {
                return ValidationResult::Warning("Temperature out of typical range (-50 to 100°C)");
            }
        },
        0x0003 => {
            if v > 10_000 {
                return ValidationResult::Error("Humidity out of range (0-100%)");
            }
        },
        0x0004 => {
            if v < 8_000_000 || v > 12_000_000 {
                return ValidationResult::Warning("Pressure out of typical range (800-1200 hPa)");
            }
        },
        0x0005 => {
            if v > 100_000 {
                return ValidationResult::Warning("Precipitation out of typical range (0-1000mm)");
            }
        },
        0x0006 => {
            if v > 1_000_000 {
                return ValidationResult::Warning("CO2 out of typical range (0-10000ppm)");
            }
        },
        _ => {
            if v > 100_000_000 {
                return ValidationResult::Warning("Value out of reasonable range");
            }
        },
    }
    ValidationResult::Valid
}

/// Validate temporal consistency against the previous atom, if any.
pub fn validate_temporal_consistency(current: &SemanticAtom, previous: Option<&SemanticAtom>) -> (r: ValidationResult)
    ensures
        r == temporal_check(*current, previous_value(previous)),
{
    if let Some(prev) = previous {
        if current.sequence <= prev.sequence {
            return ValidationResult::Warning("Sequence number not increasing");
        }
        if current.timestamp_us <= prev.timestamp_us {
            return ValidationResult::Error("Timestamp not increasing");
        }
        let time_diff = current.timestamp_us.saturating_sub(prev.timestamp_us);
        if time_diff < 1000 {
            return ValidationResult::Warning("Very high frequency data");
        }
        if time_diff > 3_600_000_000 {
            return ValidationResult::Warning("Large time gap");
        }
    }
    ValidationResult::Valid
}

/// Run all three checks and keep their warnings and errors, in order
/// (structure, value range, temporal consistency).
pub fn validate_comprehensive(atom: &SemanticAtom, previous: Option<&SemanticAtom>) -> (r: Vec<ValidationResult>)
    ensures
        r@ == findings(*atom, previous_value(previous)),
{
    let results = [
        validate_structure(atom),
        validate_value_ranges(atom),
        validate_temporal_consistency(atom, previous),
    ];
    let mut out: Vec<ValidationResult> = Vec::new();
    let mut i: usize = 0;
    while i < 3
        invariant
            0 <= i <= 3,
            results@ == seq![
                structure_check(*atom),
                range_check(*atom),
                temporal_check(*atom, previous_value(previous)),
            ],
            out@ == (if i >= 1 { as_finding(results@[0]) } else { Seq::empty() }) + (if i >= 2 {
                as_finding(results@[1])
            } else {
                Seq::empty()
            }) + (if i >= 3 { as_finding(results@[2]) } else { Seq::empty() }),
        decreases 3 - i,
    {
        let r = results[i];
        match r {
            ValidationResult::Valid => {},
            _ => {
                out.push(r);
            },
        }
        assert(out@ =~= (if i + 1 >= 1 { as_finding(results@[0]) } else { Seq::empty() }) + (if i
            + 1 >= 2 {
            as_finding(results@[1])
        } else {
            Seq::empty()
        }) + (if i + 1 >= 3 { as_finding(results@[2]) } else { Seq::empty() }));
        i += 1;
    }
    out
}

/// Check whether an atom passes validation: no check reports a warning or an error.
pub fn is_valid(atom: &SemanticAtom, previous: Option<&SemanticAtom>) -> (r: bool)
    ensures
        r == (findings(*atom, previous_value(previous)).len() == 0),
{
    let results = validate_comprehensive(atom, previous);
    results.len() == 0
}

/// An atom is valid exactly when each of the three checks finds it valid;
/// in particular an atom with an error is never valid.
pub proof fn lemma_valid_iff_all_checks_pass(a: SemanticAtom, previous: Option<SemanticAtom>)
    ensures
        (findings(a, previous).len() == 0) <==> (structure_check(a) is Valid && range_check(a) is Valid
            && temporal_check(a, previous) is Valid),
        range_check(a) is Error ==> findings(a, previous).len() > 0,
        temporal_check(a, previous) is Error ==> findings(a, previous).len() > 0,
{
}

/// Without a previous atom the temporal check always passes, and an atom that
/// follows another with a higher sequence number and a timestamp between 1 ms
/// and 1 hour later passes it too.
pub proof fn lemma_temporal_check_passes(current: SemanticAtom, previous: SemanticAtom)
    ensures
        temporal_check(current, None) is Valid,
        (current.sequence > previous.sequence && previous.timestamp_us + 1000 <= current.timestamp_us
            <= previous.timestamp_us + 3_600_000_000) ==> temporal_check(current, Some(previous)) is Valid,
{
}

/// Each telemetry type has its bounds, in units of `value_fixed / 100`: water
/// level (0x0001) above 10000 is an error, temperature (0x0002) above 100 a
/// warning, humidity (0x0003) above 100 an error, pressure (0x0004) below 80000
/// or above 120000 a warning, precipitation (0x0005) above 1000 a warning, CO2
/// (0x0006) above 10000 a warning, any other type above 1000000 a warning;
/// a value within its bounds is valid.
pub proof fn lemma_range_check_bounds(a: SemanticAtom)
    ensures
        a.telemetry_type == 1 ==> (range_check(a) is Error <==> a.value_fixed > 100 * 10000)
            && (range_check(a) is Valid <==> a.value_fixed <= 100 * 10000),
        a.telemetry_type == 2 ==> (range_check(a) is Warning <==> a.value_fixed > 100 * 100)
            && (range_check(a) is Valid <==> a.value_fixed <= 100 * 100),
        a.telemetry_type == 3 ==> (range_check(a) is Error <==> a.value_fixed > 100 * 100)
            && (range_check(a) is Valid <==> a.value_fixed <= 100 * 100),
        a.telemetry_type == 4 ==> (range_check(a) is Valid <==> 100 * 80000 <= a.value_fixed <= 100
            * 120000),
        a.telemetry_type == 4 && a.value_fixed > 100 * 120000 ==> range_check(a)
            == ValidationResult::Warning("Pressure out of typical range (800-1200 hPa)"),
        a.telemetry_type == 4 && a.value_fixed < 100 * 80000 ==> range_check(a)
            == ValidationResult::Warning("Pressure out of typical range (800-1200 hPa)"),
        a.telemetry_type == 5 ==> (range_check(a) is Warning <==> a.value_fixed > 100 * 1000)
            && (range_check(a) is Valid <==> a.value_fixed <= 100 * 1000),
        a.telemetry_type == 6 ==> (range_check(a) is Warning <==> a.value_fixed > 100 * 10000)
            && (range_check(a) is Valid <==> a.value_fixed <= 100 * 10000),
        a.telemetry_type > 6 || a.telemetry_type == 0 ==> (range_check(a) is Warning
            <==> a.value_fixed > 100 * 1000000) && (range_check(a) is Valid <==> a.value_fixed <= 100
            * 1000000),
{
}

} // verus!
