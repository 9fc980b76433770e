//! The system clock that paces the software-sequenced generator.

use vstd::prelude::*;

verus! {

/// Reads the current system clock frequency in hertz.
///
/// Calls `embassy_rp::clocks::clk_sys_freq`. The frequency is whatever the
/// clock tree was last configured to, so nothing is promised of the value.
#[verifier::external_body]
pub(crate) fn system_clock_hz() -> (hz: u32) {
    embassy_rp::clocks::clk_sys_freq()
}

} // verus!
