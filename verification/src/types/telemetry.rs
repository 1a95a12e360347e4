//! Telemetry type constants.

use vstd::prelude::*;

verus! {

/// Temperature in Celsius
pub const TEMPERATURE_C: u16 = 0x0002;
/// Humidity in percent
pub const HUMIDITY: u16 = 0x0003;
/// Pressure in hPa
pub const PRESSURE: u16 = 0x0004;
/// CO2 in ppm
pub const CO2_PPM: u16 = 0x0006;
/// Water level in millimeters
pub const WATER_LEVEL_MM: u16 = 0x0007;
/// Flow rate in liters per minute
pub const FLOW_LPM: u16 = 0x0008;
/// Power in watts
pub const POWER_W: u16 = 0x0009;
/// Voltage in volts
pub const VOLTAGE_V: u16 = 0x000A;
/// Current in amperes
pub const CURRENT_A: u16 = 0x000B;
/// Energy in watt-hours
pub const ENERGY_WH: u16 = 0x000C;
/// Frequency in Hz
pub const FREQUENCY_HZ: u16 = 0x000D;
/// Position (generic)
pub const POSITION: u16 = 0x000E;
/// Velocity (generic)
pub const VELOCITY: u16 = 0x000F;
/// Acceleration (generic)
pub const ACCELERATION: u16 = 0x0010;
/// Angular position
pub const ANGLE: u16 = 0x0011;
/// Angular velocity
pub const ANGULAR_VELOCITY: u16 = 0x0012;
/// Angular acceleration
pub const ANGULAR_ACCELERATION: u16 = 0x0013;
/// Distance in meters
pub const DISTANCE: u16 = 0x0014;
/// Speed in meters per second
pub const SPEED: u16 = 0x0015;
/// Mass in kilograms
pub const MASS: u16 = 0x0016;
/// Force in newtons
pub const FORCE: u16 = 0x0017;
/// Torque in newton-meters
pub const TORQUE: u16 = 0x0018;
/// Energy in joules
pub const ENERGY: u16 = 0x0019;
/// Power density
pub const POWER_DENSITY: u16 = 0x001A;
/// Generic count
pub const COUNT: u16 = 0x001B;
/// Binary state (0/1)
pub const BINARY: u16 = 0x001C;
/// Analog signal (generic)
pub const ANALOG: u16 = 0x001D;
/// Digital signal (generic)
pub const DIGITAL: u16 = 0x001E;
/// String data
pub const STRING: u16 = 0x001F;
/// Custom telemetry type
pub const CUSTOM: u16 = 0xFF00;

} // verus!
