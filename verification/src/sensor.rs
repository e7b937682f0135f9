//! Values produced by the environmental sensor.
//!
//! The sensor driver itself talks to hardware and lives with the caller; the
//! telemetry logic here only consumes its readings, already converted to
//! fixed-point integers.

use vstd::prelude::*;

verus! {

/// One reading of the environmental sensor.
#[derive(Clone, Copy, PartialEq, Eq, Structural, Debug, Hash)]
pub struct Measurement {
    /// The temperature in centidegrees Celsius.
    pub temperature: i32,
    /// The relative humidity in centipercent.
    pub humidity: u16,
}

} // verus!
