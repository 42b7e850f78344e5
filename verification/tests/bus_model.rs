//! Tests of the modeled register file and the spin delay.

use pl011_uart::kernel::usertask;
use pl011_uart::mmio::MmioEvent;
use pl011_uart::mmio::RegisterFile;
use pl011_uart::mmio::UART0_DR;
use pl011_uart::mmio::UART0_FR;
use pl011_uart::mmio::UART0_LCRH;
use pl011_uart::spin::delay;

#[test]
fn delay_zero_touches_no_register() {
    let mut bus = RegisterFile::new();
    delay(&mut bus, 0);
    assert_eq!(bus.trace.len(), 1);
    assert_eq!(bus.trace[0], MmioEvent::Delay { cycles: 0 });
    assert_eq!(bus.regs, RegisterFile::new().regs);
}

#[test]
fn delay_records_cycle_count() {
    let mut bus = RegisterFile::new();
    delay(&mut bus, 150);
    assert_eq!(bus.trace[0], MmioEvent::Delay { cycles: 150 });
}

#[test]
fn store_then_load_roundtrip() {
    let mut bus = RegisterFile::new();
    bus.write(UART0_LCRH, 0x70);
    let value = bus.read(UART0_LCRH);
    assert_eq!(value, 0x70);
    assert_eq!(bus.trace.len(), 2);
    assert_eq!(bus.trace[0], MmioEvent::Write { addr: UART0_LCRH, value: 0x70 });
    assert_eq!(bus.trace[1], MmioEvent::Read { addr: UART0_LCRH, value: 0x70 });
}

#[test]
fn flag_loads_consume_script_then_settle() {
    let mut bus = RegisterFile::with_flag_script(vec![7, 9]);
    assert_eq!(bus.read(UART0_FR), 7);
    assert_eq!(bus.read(UART0_FR), 9);
    assert_eq!(bus.read(UART0_FR), 0);
    assert_eq!(bus.flag_script.len(), 0);
}

#[test]
fn data_register_load_leaves_script_alone() {
    let mut bus = RegisterFile::with_flag_script(vec![3]);
    bus.regs.dr = 0x55;
    assert_eq!(bus.read(UART0_DR), 0x55);
    assert_eq!(bus.flag_script, vec![3]);
}

#[test]
fn usertask_announces_itself() {
    let mut bus = RegisterFile::new();
    usertask(&mut bus);
    let mut sent: Vec<u8> = Vec::new();
    for e in bus.trace.iter() {
        if let MmioEvent::Write { addr, value } = e {
            if *addr == UART0_DR {
                sent.push(*value as u8);
            }
        }
    }
    assert_eq!(sent, b"usertask called()\r\n".to_vec());
}
