//! Spin delay: a pure busy-loop timing primitive.
//!
//! The hardware datasheet mandates a settling time between reconfiguring the
//! GPIO pull resistors and clocking that change into effect; at this stage of
//! bring-up no interrupt or calibrated clock source exists, so the only
//! available primitive is a counted busy-wait. The cycle count is
//! CPU-clock-dependent by design. The delay touches no register; it is
//! recorded on the trace so that its position between stores can be stated.

use vstd::prelude::*;

use crate::mmio::MmioEvent;
use crate::mmio::RegisterFile;
use crate::mmio::delay_of;

verus! {

/// Busy-waits for about `count` core clock cycles, then records the elapsed
/// delay on the trace. No register is read or written; for `count == 0` the
/// loop body never runs.
pub fn delay(bus: &mut RegisterFile, count: u32)
    ensures
        final(bus).regs == old(bus).regs,
        final(bus).flag_script@ == old(bus).flag_script@,
        final(bus).trace@ == old(bus).trace@.push(delay_of(count)),
{
    let mut remaining: u32 = count;
    while remaining > 0
        decreases remaining,
    {
        remaining = remaining - 1;
    }
    bus.trace.push(MmioEvent::Delay { cycles: count });
}

} // verus!
