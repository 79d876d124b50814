//! The normalized measurement record.

use vstd::prelude::*;

verus! {

/// Number of thousandths in one unit of a fixed-point quantity.
pub const MILLI: u64 = 1000;

/// One normalized measurement of the inverter.
///
/// A reading is built once per successful poll and never changed afterwards;
/// a newer reading supersedes it as a whole.
#[derive(Clone, Copy, Debug, PartialEq, Eq, Structural)]
pub struct Reading {
    /// The current power production in milliwatts (thousandths of a watt).
    pub current_power_mw: u64,
    /// The total energy produced since installation in watt-hours
    /// (thousandths of a kilowatt-hour).
    pub total_energy_wh: u64,
    /// The time of the poll this reading belongs to, in seconds since the
    /// UNIX epoch.
    pub observed_at: u64,
}

impl Reading {
    /// Creates the reading of the poll made at `observed_at`.
    pub fn new(current_power_mw: u64, total_energy_wh: u64, observed_at: u64) -> (reading: Self)
        ensures
            reading == (Reading { current_power_mw, total_energy_wh, observed_at }),
    {
        Reading { current_power_mw, total_energy_wh, observed_at }
    }
}

} // verus!
