use vstd::prelude::*;

verus! {

/// One consistent snapshot of the invertor's telemetry.
///
/// All three fields come from the same fetch cycle: a reading is built whole or not at all.
#[derive(Clone, Copy, Debug, PartialEq, Eq, Structural)]
pub struct Reading {
    /// Current power production (W).
    pub current_w: u32,
    /// Total energy produced since installation (kWh).
    pub total_kwh: u32,
    /// When the values were observed, in seconds since the Unix epoch.
    pub last_updated: u64,
}

impl Reading {
    /// Builds a reading from the values of one fetch cycle.
    pub fn new(current_w: u32, total_kwh: u32, last_updated: u64) -> (r: Reading)
        ensures
            r.current_w == current_w,
            r.total_kwh == total_kwh,
            r.last_updated == last_updated,
    {
        Reading { current_w, total_kwh, last_updated }
    }
}

} // verus!
