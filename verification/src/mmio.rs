//! Memory-mapped I/O access layer.
//!
//! On the real board every register is a fixed physical address and each
//! access is a single non-elided, non-reordered 32-bit bus transaction. Here
//! the bus is modeled by [`RegisterFile`]: one cell per register the driver
//! touches, a script of values that successive flag-register loads observe
//! (the hardware changes its status bits underneath the software), and a
//! trace recording every transaction in program order. The driver is
//! verified against this model; contracts over the trace capture the
//! ordering discipline that real MMIO demands.

use vstd::prelude::*;

verus! {

/// Base address of the GPIO controller.
pub const GPIO_BASE: u32 = 0x3F200000;

/// Controls actuation of pull up/down for all GPIO pins.
pub const GPPUD: u32 = GPIO_BASE + 0x94;

/// Controls actuation of pull up/down for specific GPIO pins.
pub const GPPUDCLK0: u32 = GPIO_BASE + 0x98;

/// Base address of the UART.
pub const UART0_BASE: u32 = 0x3F201000;

/// UART data register.
pub const UART0_DR: u32 = UART0_BASE + 0x00;

/// UART receive status / error clear register.
pub const UART0_RSRECR: u32 = UART0_BASE + 0x04;

/// UART flag register (bit 5: transmit FIFO full, bit 4: receive FIFO empty).
pub const UART0_FR: u32 = UART0_BASE + 0x18;

/// UART IrDA low-power counter register.
pub const UART0_ILPR: u32 = UART0_BASE + 0x20;

/// UART integer baud-rate divisor.
pub const UART0_IBRD: u32 = UART0_BASE + 0x24;

/// UART fractional baud-rate divisor.
pub const UART0_FBRD: u32 = UART0_BASE + 0x28;

/// UART line control register.
pub const UART0_LCRH: u32 = UART0_BASE + 0x2C;

/// UART control register.
pub const UART0_CR: u32 = UART0_BASE + 0x30;

/// UART interrupt FIFO level select register.
pub const UART0_IFLS: u32 = UART0_BASE + 0x34;

/// UART interrupt mask set/clear register.
pub const UART0_IMSC: u32 = UART0_BASE + 0x38;

/// UART raw interrupt status register.
pub const UART0_RIS: u32 = UART0_BASE + 0x3C;

/// UART masked interrupt status register.
pub const UART0_MIS: u32 = UART0_BASE + 0x40;

/// UART interrupt clear register.
pub const UART0_ICR: u32 = UART0_BASE + 0x44;

/// UART DMA control register.
pub const UART0_DMACR: u32 = UART0_BASE + 0x48;

/// UART test control register.
pub const UART0_ITCR: u32 = UART0_BASE + 0x80;

/// UART integration test input register.
pub const UART0_ITIP: u32 = UART0_BASE + 0x84;

/// UART integration test output register.
pub const UART0_ITOP: u32 = UART0_BASE + 0x88;

/// UART test data register.
pub const UART0_TDR: u32 = UART0_BASE + 0x8C;

/// One bus transaction: a 32-bit load, a 32-bit store, or a spin delay
/// standing between two transactions.
#[derive(Clone, Copy, Debug, PartialEq, Eq, Structural)]
pub enum MmioEvent {
    /// A 32-bit load of `addr` that observed `value`.
    Read { addr: u32, value: u32 },
    /// A 32-bit store of `value` to `addr`.
    Write { addr: u32, value: u32 },
    /// A busy-wait of about `cycles` core clock cycles.
    Delay { cycles: u32 },
}

/// The load event for `addr` observing `value`.
pub open spec fn read_of(addr: u32, value: u32) -> MmioEvent {
    MmioEvent::Read { addr, value }
}

/// The store event of `value` to `addr`.
pub open spec fn write_of(addr: u32, value: u32) -> MmioEvent {
    MmioEvent::Write { addr, value }
}

/// The delay event of `cycles` cycles.
pub open spec fn delay_of(cycles: u32) -> MmioEvent {
    MmioEvent::Delay { cycles }
}

/// The registers the driver touches, one 32-bit cell each.
#[derive(Clone, Copy, Debug, PartialEq, Eq, Structural)]
pub struct Registers {
    /// UART data register.
    pub dr: u32,
    /// UART flag register.
    pub fr: u32,
    /// UART integer baud-rate divisor.
    pub ibrd: u32,
    /// UART fractional baud-rate divisor.
    pub fbrd: u32,
    /// UART line control register.
    pub lcrh: u32,
    /// UART control register.
    pub cr: u32,
    /// UART interrupt mask register.
    pub imsc: u32,
    /// UART interrupt clear register.
    pub icr: u32,
    /// GPIO pull up/down control register.
    pub gppud: u32,
    /// GPIO pull up/down clock register 0.
    pub gppudclk0: u32,
}

/// All modeled registers hold zero.
pub open spec fn zeroed_registers() -> Registers {
    Registers {
        dr: 0,
        fr: 0,
        ibrd: 0,
        fbrd: 0,
        lcrh: 0,
        cr: 0,
        imsc: 0,
        icr: 0,
        gppud: 0,
        gppudclk0: 0,
    }
}

/// Whether `addr` is one of the modeled register addresses. Accessing any
/// other address is a programming defect, not a runtime condition: the model
/// rules it out by precondition.
pub open spec fn is_mmio_register(addr: u32) -> bool {
    addr == UART0_DR || addr == UART0_FR || addr == UART0_IBRD || addr == UART0_FBRD
        || addr == UART0_LCRH || addr == UART0_CR || addr == UART0_IMSC || addr == UART0_ICR
        || addr == GPPUD || addr == GPPUDCLK0
}

/// The value a load of `addr` observes in `r`.
pub open spec fn spec_load(r: Registers, addr: u32) -> u32 {
    if addr == UART0_DR {
        r.dr
    } else if addr == UART0_FR {
        r.fr
    } else if addr == UART0_IBRD {
        r.ibrd
    } else if addr == UART0_FBRD {
        r.fbrd
    } else if addr == UART0_LCRH {
        r.lcrh
    } else if addr == UART0_CR {
        r.cr
    } else if addr == UART0_IMSC {
        r.imsc
    } else if addr == UART0_ICR {
        r.icr
    } else if addr == GPPUD {
        r.gppud
    } else if addr == GPPUDCLK0 {
        r.gppudclk0
    } else {
        0
    }
}

/// The register file after a store of `value` to `addr` in `r`.
pub open spec fn spec_store(r: Registers, addr: u32, value: u32) -> Registers {
    Registers {
        dr: if addr == UART0_DR { value } else { r.dr },
        fr: if addr == UART0_FR { value } else { r.fr },
        ibrd: if addr == UART0_IBRD { value } else { r.ibrd },
        fbrd: if addr == UART0_FBRD { value } else { r.fbrd },
        lcrh: if addr == UART0_LCRH { value } else { r.lcrh },
        cr: if addr == UART0_CR { value } else { r.cr },
        imsc: if addr == UART0_IMSC { value } else { r.imsc },
        icr: if addr == UART0_ICR { value } else { r.icr },
        gppud: if addr == GPPUD { value } else { r.gppud },
        gppudclk0: if addr == GPPUDCLK0 { value } else { r.gppudclk0 },
    }
}

/// The model of the memory-mapped hardware: register contents, the script of
/// values successive flag-register loads observe, and the trace of every bus
/// transaction issued so far, in program order.
pub struct RegisterFile {
    /// Current register contents.
    pub regs: Registers,
    /// Values that the next loads of the flag register observe, front first.
    /// Once the script is drained, loads observe `regs.fr`. This models a
    /// device whose status bits change underneath the software.
    pub flag_script: Vec<u32>,
    /// Every transaction issued so far, in program order.
    pub trace: Vec<MmioEvent>,
}

impl RegisterFile {
    /// A register file with all registers zero, no scripted flag values and
    /// an empty trace.
    pub fn new() -> (bus: RegisterFile)
        ensures
            bus.regs == zeroed_registers(),
            bus.flag_script@ == Seq::<u32>::empty(),
            bus.trace@ == Seq::<MmioEvent>::empty(),
    {
        RegisterFile {
            regs: Registers {
                dr: 0,
                fr: 0,
                ibrd: 0,
                fbrd: 0,
                lcrh: 0,
                cr: 0,
                imsc: 0,
                icr: 0,
                gppud: 0,
                gppudclk0: 0,
            },
            flag_script: Vec::new(),
            trace: Vec::new(),
        }
    }

    /// A register file with all registers zero whose flag-register loads
    /// observe `script`, front first, before settling on zero.
    pub fn with_flag_script(script: Vec<u32>) -> (bus: RegisterFile)
        ensures
            bus.regs == zeroed_registers(),
            bus.flag_script@ == script@,
            bus.trace@ == Seq::<MmioEvent>::empty(),
    {
        let mut bus = RegisterFile::new();
        bus.flag_script = script;
        bus
    }

    /// A single 32-bit load of `addr`: appends one read event to the trace
    /// and changes no register. A load of the flag register consumes the
    /// front of the script when one is pending; every other load observes
    /// the stored cell.
    pub fn read(&mut self, addr: u32) -> (value: u32)
        requires
            is_mmio_register(addr),
        ensures
            final(self).regs == old(self).regs,
            final(self).trace@ == old(self).trace@.push(read_of(addr, value)),
            (if addr == UART0_FR && old(self).flag_script@.len() > 0 {
                value == old(self).flag_script@[0] && final(self).flag_script@ == old(
                    self,
                ).flag_script@.drop_first()
            } else {
                value == spec_load(old(self).regs, addr) && final(self).flag_script@ == old(
                    self,
                ).flag_script@
            }),
    {
        let value: u32;
        if addr == UART0_FR && self.flag_script.len() > 0 {
            value = self.flag_script.remove(0);
            proof {
                assert(self.flag_script@ =~= old(self).flag_script@.drop_first());
            }
        } else if addr == UART0_DR {
            value = self.regs.dr;
        } else if addr == UART0_FR {
            value = self.regs.fr;
        } else if addr == UART0_IBRD {
            value = self.regs.ibrd;
        } else if addr == UART0_FBRD {
            value = self.regs.fbrd;
        } else if addr == UART0_LCRH {
            value = self.regs.lcrh;
        } else if addr == UART0_CR {
            value = self.regs.cr;
        } else if addr == UART0_IMSC {
            value = self.regs.imsc;
        } else if addr == UART0_ICR {
            value = self.regs.icr;
        } else if addr == GPPUD {
            value = self.regs.gppud;
        } else {
            value = self.regs.gppudclk0;
        }
        self.trace.push(MmioEvent::Read { addr, value });
        value
    }

    /// A single 32-bit store of `value` to `addr`: updates the addressed
    /// cell and appends one write event to the trace.
    pub fn write(&mut self, addr: u32, value: u32)
        requires
            is_mmio_register(addr),
        ensures
            final(self).regs == spec_store(old(self).regs, addr, value),
            final(self).flag_script@ == old(self).flag_script@,
            final(self).trace@ == old(self).trace@.push(write_of(addr, value)),
    {
        if addr == UART0_DR {
            self.regs.dr = value;
        } else if addr == UART0_FR {
            self.regs.fr = value;
        } else if addr == UART0_IBRD {
            self.regs.ibrd = value;
        } else if addr == UART0_FBRD {
            self.regs.fbrd = value;
        } else if addr == UART0_LCRH {
            self.regs.lcrh = value;
        } else if addr == UART0_CR {
            self.regs.cr = value;
        } else if addr == UART0_IMSC {
            self.regs.imsc = value;
        } else if addr == UART0_ICR {
            self.regs.icr = value;
        } else if addr == GPPUD {
            self.regs.gppud = value;
        } else {
            self.regs.gppudclk0 = value;
        }
        self.trace.push(MmioEvent::Write { addr, value });
    }
}

} // verus!
