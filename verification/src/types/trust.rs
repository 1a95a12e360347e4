//! Trust level constants.

use vstd::prelude::*;

verus! {

/// Untrusted data
pub const UNTRUSTED: u8 = 0x00;
/// Low trust
pub const LOW: u8 = 0x01;
/// Medium trust
pub const MEDIUM: u8 = 0x02;
/// High trust
pub const HIGH: u8 = 0x03;
/// Critical trust
pub const CRITICAL: u8 = 0x04;
/// Maximum trust
pub const MAXIMUM: u8 = 0x05;

} // verus!
