//! Register map of the ARM-side timer and the interrupt controller.
//!
//! These peripherals are not driven at this stage of bring-up; their
//! addresses are part of the board's fixed register map and are kept as
//! named constants grouped by peripheral, like the UART and GPIO maps.

use vstd::prelude::*;

verus! {

/// ARM timer load register.
pub const ARM_TIMER_LOD: u32 = 0x2000B400;

/// ARM timer value register.
pub const ARM_TIMER_VAL: u32 = 0x2000B404;

/// ARM timer control register.
pub const ARM_TIMER_CTL: u32 = 0x2000B408;

/// ARM timer interrupt clear register.
pub const ARM_TIMER_CLI: u32 = 0x2000B40C;

/// ARM timer raw interrupt status register.
pub const ARM_TIMER_RIS: u32 = 0x2000B410;

/// ARM timer masked interrupt status register.
pub const ARM_TIMER_MIS: u32 = 0x2000B414;

/// ARM timer reload register.
pub const ARM_TIMER_RLD: u32 = 0x2000B418;

/// ARM timer pre-divider register.
pub const ARM_TIMER_DIV: u32 = 0x2000B41C;

/// ARM timer free-running counter.
pub const ARM_TIMER_CNT: u32 = 0x2000B420;

/// System timer counter, low word.
pub const SYSTIMERCLO: u32 = 0x20003004;

/// GPIO function select register 1.
pub const GPFSEL1: u32 = 0x20200004;

/// GPIO output set register 0.
pub const GPSET0: u32 = 0x2020001C;

/// GPIO output clear register 0.
pub const GPCLR0: u32 = 0x20200028;

/// Interrupt controller: basic pending register.
pub const IRQ_BASIC: u32 = 0x2000B200;

/// Interrupt controller: pending register 1.
pub const IRQ_PEND1: u32 = 0x2000B204;

/// Interrupt controller: pending register 2.
pub const IRQ_PEND2: u32 = 0x2000B208;

/// Interrupt controller: FIQ control register.
pub const IRQ_FIQ_CONTROL: u32 = 0x2000B210;

/// Interrupt controller: enable basic interrupts.
pub const IRQ_ENABLE_BASIC: u32 = 0x2000B218;

/// Interrupt controller: disable basic interrupts.
pub const IRQ_DISABLE_BASIC: u32 = 0x2000B224;

} // verus!
