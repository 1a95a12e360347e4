//! SAMS - Semantic Atom Management Stack.
//!
//! A fixed 32-byte telemetry record (the semantic atom), its little-endian
//! wire encoding, anonymization and HMAC-SHA256 protection of atoms,
//! fixed-point and time helpers, and atom validation.

pub mod types;
pub mod codec;
pub mod shield;
pub mod utils;
pub mod transport;

pub use types::{SemanticAtom, AtomBuilder, EntityId, TelemetryType, TrustLevel};

use vstd::prelude::*;

verus! {

/// Library version.
pub const VERSION: &'static str = "0.1.0";

/// Atom size in bytes (fixed for all platforms).
pub const ATOM_SIZE: usize = 32;

/// Fixed-point precision (hundredths).
pub const FIXED_POINT_PRECISION: u32 = 100;

} // verus!
