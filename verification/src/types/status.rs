//! Status flag constants.

use vstd::prelude::*;

verus! {

/// Valid data flag
pub const VALID: u32 = 0x00000001;
/// Error flag
pub const ERROR: u32 = 0x00000002;
/// Warning flag
pub const WARNING: u32 = 0x00000004;
/// Alert flag
pub const ALERT: u32 = 0x00000008;
/// Diagnostic flag
pub const DIAGNOSTIC: u32 = 0x00000010;
/// Maintenance flag
pub const MAINTENANCE: u32 = 0x00000020;
/// Calibration flag
pub const CALIBRATION: u32 = 0x00000040;
/// Test flag
pub const TEST: u32 = 0x00000080;
/// Simulation flag
pub const SIMULATION: u32 = 0x00000100;
/// Manual override flag
pub const MANUAL_OVERRIDE: u32 = 0x00000200;
/// Communication flag
pub const COMMUNICATION: u32 = 0x00000400;
/// Power flag
pub const POWER: u32 = 0x00000800;
/// Security flag
pub const SECURITY: u32 = 0x00001000;
/// Performance flag
pub const PERFORMANCE: u32 = 0x00002000;
/// Quality flag
pub const QUALITY: u32 = 0x00004000;
/// Compliance flag
pub const COMPLIANCE: u32 = 0x00008000;

} // verus!
