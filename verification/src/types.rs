//! The quantities of a device record.
//!
//! The wire carries whole numbers of a small unit: millivolts,
//! milliamperes, hundredths of a kilowatt-hour. A record keeps such a
//! number together with the count of small units in the unit it is read
//! in, so that 12340 millivolts are held as 12340 over 1000: 12.34 volts,
//! exactly.

use vstd::prelude::*;

verus! {

/// A quantity `raw / divisor`, in the unit of the record.
#[derive(Debug, Clone, Copy, PartialEq, Eq, Structural)]
pub struct Scaled {
    /// The number on the wire.
    pub raw: i64,
    /// How many wire units make one unit of the record.
    pub divisor: u32,
}

impl Scaled {
    /// The quantity `raw / divisor`.
    pub fn new(raw: i64, divisor: u32) -> (q: Scaled)
        ensures
            q == (Scaled { raw, divisor }),
    {
        Scaled { raw, divisor }
    }
}

/// A voltage in volts.
pub type Volt = Scaled;

/// A current in amperes.
pub type Current = Scaled;

/// An energy in kilowatt-hours.
pub type KilowattHour = Scaled;

/// A power in watts, as on the wire.
pub type Watt = i32;

/// Millivolts in a volt, milliamperes in an ampere.
pub const MILLI: u32 = 1000;

/// Hundredths of a kilowatt-hour in a kilowatt-hour.
pub const CENTI: u32 = 100;

} // verus!
