//! Predicate type constants.

use vstd::prelude::*;

verus! {

/// No predicate
pub const NONE: u32 = 0x00000000;
/// Value range predicate
pub const RANGE: u32 = 0x00000001;
/// Threshold predicate
pub const THRESHOLD: u32 = 0x00000002;
/// Change detection predicate
pub const CHANGE: u32 = 0x00000003;
/// Anomaly detection predicate
pub const ANOMALY: u32 = 0x00000004;
/// Trend analysis predicate
pub const TREND: u32 = 0x00000005;
/// Correlation predicate
pub const CORRELATION: u32 = 0x00000006;
/// Statistical predicate
pub const STATISTICAL: u32 = 0x00000007;
/// Temporal predicate
pub const TEMPORAL: u32 = 0x00000008;
/// Spatial predicate
pub const SPATIAL: u32 = 0x00000009;
/// Custom predicate
pub const CUSTOM: u32 = 0xFFFFFFFF;

} // verus!
