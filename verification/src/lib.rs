//! Early bring-up layer for an ARM single-board system, verified against a
//! model of its memory-mapped register file.
//!
//! The hardware bus is modeled by [`mmio::RegisterFile`]: the current
//! register contents together with a trace of every transaction issued
//! (loads, stores and spin delays). The UART driver in [`uart`] is proved to
//! issue exactly the initialization sequence the hardware protocol demands,
//! to poll the flag register before every data-register access, and to emit
//! bytes in order.

pub mod kernel;
pub mod mmio;
pub mod spin;
pub mod timer;
pub mod uart;
