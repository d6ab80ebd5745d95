//! Register map of the sensor and the bits of its status register.

use vstd::prelude::*;

verus! {

/// Device identity, one byte.
pub const WHO_AM_I: u8 = 0x00;

/// General control bits, one byte.
pub const CTRL1: u8 = 0x02;

/// Sensor-enable bits, one byte.
pub const CTRL7: u8 = 0x08;

/// Sample status, one byte.
pub const STATUSINT: u8 = 0x2D;

/// Raw temperature code, two bytes, low byte first.
pub const TEMP_L: u8 = 0x33;

/// First register of the sample block: three acceleration words, then three
/// angular-rate words, low byte first.
pub const AX_L: u8 = 0x35;

/// Length of the temperature block in bytes.
pub const TEMPERATURE_LEN: usize = 2;

/// Length of the sample block in bytes.
pub const SAMPLE_LEN: usize = 12;

/// Status bit 0: a new sample is available.
pub const STATUS_AVAILABLE: u8 = 0x01;

/// Status bit 1: the sample is latched and may be read in one burst.
pub const STATUS_LOCKED: u8 = 0x02;

} // verus!
