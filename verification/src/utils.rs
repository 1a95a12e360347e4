//! Utility functions: fixed-point arithmetic, time handling and atom validation.

pub mod fixed_point;
pub mod time;
pub mod validation;
