//! Kernel-side task entry points layered on the UART driver.

use vstd::prelude::*;

use crate::mmio::RegisterFile;
use crate::uart::FR_TXFF;
use crate::uart::lemma_steady_tx_ready;
use crate::uart::puts_events;
use crate::uart::regs_after_puts;
use crate::uart::script_after_puts;
use crate::uart::uart_puts;
use vstd::string::StringSliceAdditionalSpecFns;

verus! {

/// A task body that announces itself over the serial line: transmits
/// "usertask called()\r\n" byte by byte.
pub fn usertask(bus: &mut RegisterFile)
    requires
        old(bus).regs.fr & FR_TXFF == 0,
    ensures
        final(bus).regs == regs_after_puts(old(bus).regs, "usertask called()\r\n".spec_bytes()),
        final(bus).flag_script@ == script_after_puts(
            old(bus).flag_script@,
            "usertask called()\r\n".spec_bytes(),
        ),
        final(bus).trace@ == old(bus).trace@ + puts_events(
            old(bus).flag_script@,
            old(bus).regs.fr,
            "usertask called()\r\n".spec_bytes(),
        ),
{
    proof {
        lemma_steady_tx_ready(
            bus.flag_script@,
            bus.regs.fr,
            "usertask called()\r\n".spec_bytes().len(),
        );
    }
    uart_puts(bus, "usertask called()\r\n");
}

} // verus!
