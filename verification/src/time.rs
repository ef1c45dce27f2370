//! Clock-domain-tagged tick counts.
//!
//! Peripheral timing registers are programmed in ticks of the bus clock the
//! instance hangs off. Two bus clock domains exist; a tick count is only
//! meaningful together with the domain it was measured in, so the count
//! carries its domain and every driver checks that the domain matches the
//! instance's binding.

use vstd::prelude::*;

verus! {

/// The two peripheral bus clock domains.
#[derive(Clone, Copy, Debug, PartialEq, Eq, Structural)]
pub enum ClockDomain {
    /// The low-speed peripheral bus.
    Apb1,
    /// The high-speed peripheral bus.
    Apb2,
}

/// A duration expressed as a number of bus-clock cycles of one domain.
#[derive(Clone, Copy, Debug, PartialEq, Eq, Structural)]
pub struct Ticks {
    /// The clock domain the count was measured in.
    pub domain: ClockDomain,
    /// The number of bus-clock cycles.
    pub count: u32,
}

} // verus!
