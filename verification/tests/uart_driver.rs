//! Driver tests against the modeled register file.

use pl011_uart::mmio::GPPUD;
use pl011_uart::mmio::GPPUDCLK0;
use pl011_uart::mmio::MmioEvent;
use pl011_uart::mmio::RegisterFile;
use pl011_uart::mmio::UART0_CR;
use pl011_uart::mmio::UART0_DR;
use pl011_uart::mmio::UART0_FBRD;
use pl011_uart::mmio::UART0_FR;
use pl011_uart::mmio::UART0_IBRD;
use pl011_uart::mmio::UART0_ICR;
use pl011_uart::mmio::UART0_IMSC;
use pl011_uart::mmio::UART0_LCRH;
use pl011_uart::uart::baud_divisors;
use pl011_uart::uart::uart_getc;
use pl011_uart::uart::uart_init;
use pl011_uart::uart::uart_putc;
use pl011_uart::uart::uart_puts;

/// The values stored to the data register, in trace order.
fn data_writes(bus: &RegisterFile) -> Vec<u32> {
    let mut out: Vec<u32> = Vec::new();
    for e in bus.trace.iter() {
        if let MmioEvent::Write { addr, value } = e {
            if *addr == UART0_DR {
                out.push(*value);
            }
        }
    }
    out
}

/// The position of the first event equal to `wanted`.
fn position_of(bus: &RegisterFile, wanted: MmioEvent) -> usize {
    for (i, e) in bus.trace.iter().enumerate() {
        if *e == wanted {
            return i;
        }
    }
    panic!("event not found in trace");
}

#[test]
fn put_string_emits_bytes_in_order() {
    let mut bus = RegisterFile::new();
    uart_puts(&mut bus, "abc");
    assert_eq!(data_writes(&bus), vec![97, 98, 99]);
    // every data-register store stands right after a flag-register load
    // that observed the transmit-FIFO-full bit clear
    for (i, e) in bus.trace.iter().enumerate() {
        if matches!(e, MmioEvent::Write { addr, .. } if *addr == UART0_DR) {
            assert!(i >= 1);
            match bus.trace[i - 1] {
                MmioEvent::Read { addr, value } => {
                    assert_eq!(addr, UART0_FR);
                    assert_eq!(value & 0x20, 0);
                }
                _ => panic!("a data-register store without a preceding flag load"),
            }
        }
    }
}

#[test]
fn put_string_empty_writes_nothing() {
    let mut bus = RegisterFile::new();
    uart_puts(&mut bus, "");
    assert!(bus.trace.is_empty());
}

#[test]
fn init_orders_control_and_baud_writes() {
    let mut bus = RegisterFile::new();
    uart_init(&mut bus);
    let disable = position_of(&bus, MmioEvent::Write { addr: UART0_CR, value: 0 });
    let ibrd = position_of(&bus, MmioEvent::Write { addr: UART0_IBRD, value: 1 });
    let fbrd = position_of(&bus, MmioEvent::Write { addr: UART0_FBRD, value: 40 });
    let lcrh = position_of(&bus, MmioEvent::Write { addr: UART0_LCRH, value: 0x70 });
    let enable = position_of(&bus, MmioEvent::Write { addr: UART0_CR, value: 0x301 });
    assert!(disable < ibrd && disable < fbrd);
    assert!(ibrd < enable && fbrd < enable && lcrh < enable);
    // the enabling store is the final transaction
    assert_eq!(enable, bus.trace.len() - 1);
}

#[test]
fn init_places_two_delays_between_pull_writes() {
    let mut bus = RegisterFile::new();
    uart_init(&mut bus);
    let pull = position_of(&bus, MmioEvent::Write { addr: GPPUD, value: 0 });
    let latch = position_of(&bus, MmioEvent::Write { addr: GPPUDCLK0, value: 0 });
    let mut delays: Vec<usize> = Vec::new();
    for (i, e) in bus.trace.iter().enumerate() {
        if let MmioEvent::Delay { cycles } = e {
            assert_eq!(*cycles, 150);
            delays.push(i);
        }
    }
    assert_eq!(delays.len(), 2);
    for i in delays {
        assert!(pull < i && i < latch);
    }
}

#[test]
fn baud_divisor_reference_values() {
    let (integer, fraction) = baud_divisors(3000000, 115200);
    assert_eq!(integer, 1);
    assert_eq!(fraction, 40);
}

#[test]
fn baud_divisor_faster_clock() {
    // 48 MHz reference clock at 115200 baud: divisor = 26.04..., so
    // integer 26 and fraction round(0.0416... * 64) = 3
    let (integer, fraction) = baud_divisors(48000000, 115200);
    assert_eq!(integer, 26);
    assert_eq!(fraction, 3);
}

#[test]
fn putc_touches_data_register_only_after_flag_clears() {
    let mut bus = RegisterFile::with_flag_script(vec![0x20, 0x20, 0x20, 0x00]);
    uart_putc(&mut bus, b'x');
    assert_eq!(bus.trace.len(), 5);
    for i in 0..4 {
        match bus.trace[i] {
            MmioEvent::Read { addr, value } => {
                assert_eq!(addr, UART0_FR);
                assert_eq!(value, if i < 3 { 0x20 } else { 0x00 });
            }
            _ => panic!("expected only flag-register polls before the store"),
        }
    }
    assert_eq!(bus.trace[4], MmioEvent::Write { addr: UART0_DR, value: b'x' as u32 });
}

#[test]
fn getc_touches_data_register_only_after_flag_clears() {
    let mut bus = RegisterFile::with_flag_script(vec![0x10, 0x00]);
    bus.regs.dr = 0x41;
    uart_getc(&mut bus);
    assert_eq!(bus.trace.len(), 3);
    assert_eq!(bus.trace[0], MmioEvent::Read { addr: UART0_FR, value: 0x10 });
    assert_eq!(bus.trace[1], MmioEvent::Read { addr: UART0_FR, value: 0x00 });
    assert_eq!(bus.trace[2], MmioEvent::Read { addr: UART0_DR, value: 0x41 });
}

#[test]
fn end_to_end_init_then_greeting() {
    let mut bus = RegisterFile::new();
    uart_init(&mut bus);
    uart_puts(&mut bus, "Hi\r\n");
    // control register: UART enable, transmit enable, receive enable
    assert_eq!(bus.regs.cr, 0x301);
    assert_ne!(bus.regs.cr & (1 << 0), 0);
    assert_ne!(bus.regs.cr & (1 << 8), 0);
    assert_ne!(bus.regs.cr & (1 << 9), 0);
    // line control: FIFO enable and 8-bit words
    assert_eq!(bus.regs.lcrh, 0x70);
    assert_ne!(bus.regs.lcrh & (1 << 4), 0);
    assert_ne!(bus.regs.lcrh & (1 << 5), 0);
    assert_ne!(bus.regs.lcrh & (1 << 6), 0);
    assert_eq!(data_writes(&bus), vec![b'H' as u32, b'i' as u32, b'\r' as u32, b'\n' as u32]);
}

#[test]
fn init_programs_reference_register_values() {
    let mut bus = RegisterFile::new();
    uart_init(&mut bus);
    assert_eq!(bus.regs.ibrd, 1);
    assert_eq!(bus.regs.fbrd, 40);
    assert_eq!(bus.regs.icr, 0x7FF);
    assert_eq!(bus.regs.imsc, 0x7F2);
    assert_eq!(bus.regs.gppud, 0);
    assert_eq!(bus.regs.gppudclk0, 0);
}
