//! UART driver: initialization sequencing and polled byte I/O.
//!
//! The driver keeps no shadow state: the device state lives entirely in the
//! hardware registers, and every transmit or receive re-derives readiness by
//! loading the flag register. Contracts pin down the exact transaction trace
//! each operation issues, so the load-bearing ordering of the initialization
//! sequence and the poll-before-access discipline of the byte I/O are
//! theorems about the trace rather than comments.

use vstd::prelude::*;

use crate::mmio::GPPUD;
use crate::mmio::GPPUDCLK0;
use crate::mmio::MmioEvent;
use crate::mmio::RegisterFile;
use crate::mmio::Registers;
use crate::mmio::UART0_CR;
use crate::mmio::UART0_DR;
use crate::mmio::UART0_FBRD;
use crate::mmio::UART0_FR;
use crate::mmio::UART0_IBRD;
use crate::mmio::UART0_ICR;
use crate::mmio::UART0_IMSC;
use crate::mmio::UART0_LCRH;
use crate::mmio::delay_of;
use crate::mmio::read_of;
use crate::mmio::spec_store;
use crate::mmio::write_of;
use crate::spin::delay;
use vstd::string::StringSliceAdditionalSpecFns;

verus! {

/// Flag register bit 5: transmit FIFO full.
pub const FR_TXFF: u32 = 0x20;

/// Flag register bit 4: receive FIFO empty.
pub const FR_RXFE: u32 = 0x10;

/// Pull up/down clock bits for GPIO pins 14 and 15, the UART lines.
pub const GPPUDCLK0_UART_PINS: u32 = 0xC000;

/// Clears every pending UART interrupt-status bit.
pub const ICR_CLEAR_ALL: u32 = 0x7FF;

/// The UART reference clock, in Hz.
pub const UART_REFERENCE_CLOCK: u32 = 3000000;

/// The fixed target baud rate.
pub const UART_BAUD: u32 = 115200;

/// Integer baud divisor for 115200 baud against the 3 MHz reference clock.
pub const IBRD_115200: u32 = 1;

/// Fractional baud divisor for 115200 baud against the 3 MHz reference
/// clock: round(0.627... * 64).
pub const FBRD_115200: u32 = 40;

/// Line control: enable FIFOs, 8-bit words (one stop bit, no parity).
pub const LCRH_FIFO_8BIT: u32 = 0x70;

/// Masks every UART interrupt source: this driver polls.
pub const IMSC_MASK_ALL: u32 = 0x7F2;

/// Control register: UART enable with transmit and receive enabled.
pub const CR_ENABLE_TXRX: u32 = 0x301;

/// The value the `j`-th load of the flag register observes: the `j`-th
/// scripted value while the script lasts, the stored cell afterwards.
pub open spec fn flag_read_value(script: Seq<u32>, steady: u32, j: int) -> u32 {
    if 0 <= j < script.len() {
        script[j]
    } else {
        steady
    }
}

/// How many flag-register loads observe `mask` still set before one observes
/// it clear: the length of the busy prefix of the script (the whole script,
/// when no scripted value clears the mask).
pub open spec fn flag_wait_len(script: Seq<u32>, mask: u32) -> int
    decreases script.len(),
{
    if script.len() == 0 {
        0
    } else if script[0] & mask == 0 {
        0
    } else {
        1 + flag_wait_len(script.drop_first(), mask)
    }
}

/// Some flag-register load eventually observes `mask` clear: either the
/// steady cell has it clear, or a scripted value does. A spin on `mask`
/// terminates exactly under this condition.
pub open spec fn flag_ready_eventually(script: Seq<u32>, steady: u32, mask: u32) -> bool {
    steady & mask == 0 || exists|i: int| 0 <= i < script.len() && (#[trigger] script[i]) & mask == 0
}

/// The first `n` flag-register load events.
pub open spec fn flag_read_events(script: Seq<u32>, steady: u32, n: int) -> Seq<MmioEvent> {
    Seq::new(n as nat, |j: int| read_of(UART0_FR, flag_read_value(script, steady, j)))
}

/// What remains of the script after a spin on `mask` has consumed the busy
/// prefix and the first ready value.
pub open spec fn script_after_wait(script: Seq<u32>, mask: u32) -> Seq<u32> {
    let w = flag_wait_len(script, mask);
    if w < script.len() {
        script.skip(w + 1)
    } else {
        Seq::empty()
    }
}

/// The busy prefix of the script really is busy, and the load right after it
/// observes `mask` clear.
pub proof fn lemma_flag_wait_len(script: Seq<u32>, steady: u32, mask: u32)
    requires
        flag_ready_eventually(script, steady, mask),
    ensures
        0 <= flag_wait_len(script, mask) <= script.len(),
        forall|j: int| 0 <= j < flag_wait_len(script, mask) ==> #[trigger] flag_read_value(
            script,
            steady,
            j,
        ) & mask != 0,
        flag_read_value(script, steady, flag_wait_len(script, mask)) & mask == 0,
    decreases script.len(),
{
    if script.len() == 0 {
    } else if script[0] & mask == 0 {
    } else {
        assert(flag_ready_eventually(script.drop_first(), steady, mask)) by {
            if steady & mask != 0 {
                let i = choose|i: int| 0 <= i < script.len() && (#[trigger] script[i]) & mask == 0;
                assert(script.drop_first()[i - 1] & mask == 0);
            }
        }
        lemma_flag_wait_len(script.drop_first(), steady, mask);
        let w = flag_wait_len(script, mask);
        assert forall|j: int| 0 <= j < w implies #[trigger] flag_read_value(script, steady, j)
            & mask != 0 by {
            if j >= 1 {
                assert(flag_read_value(script, steady, j) == flag_read_value(
                    script.drop_first(),
                    steady,
                    j - 1,
                ));
            }
        }
        assert(flag_read_value(script, steady, w) == flag_read_value(
            script.drop_first(),
            steady,
            w - 1,
        ));
    }
}

/// Spins loading the flag register until a load observes `mask` clear.
/// Issues exactly the busy-prefix loads followed by the one ready load, and
/// touches nothing else.
#[verifier::loop_isolation(false)]
fn wait_flag_clear(bus: &mut RegisterFile, mask: u32)
    requires
        flag_ready_eventually(old(bus).flag_script@, old(bus).regs.fr, mask),
    ensures
        final(bus).regs == old(bus).regs,
        final(bus).flag_script@ == script_after_wait(old(bus).flag_script@, mask),
        final(bus).trace@ == old(bus).trace@ + flag_read_events(
            old(bus).flag_script@,
            old(bus).regs.fr,
            flag_wait_len(old(bus).flag_script@, mask) + 1,
        ),
{
    let ghost script0: Seq<u32> = bus.flag_script@;
    let ghost steady0: u32 = bus.regs.fr;
    let ghost w: int = flag_wait_len(script0, mask);
    proof {
        lemma_flag_wait_len(script0, steady0, mask);
    }
    let mut value: u32 = bus.read(UART0_FR);
    let ghost mut k: int = 1;
    proof {
        assert(bus.trace@ =~= old(bus).trace@ + flag_read_events(script0, steady0, 1));
        if 1 <= script0.len() {
            assert(bus.flag_script@ =~= script0.skip(1));
        }
    }
    while value & mask != 0
        invariant
            1 <= k <= w + 1,
            value == flag_read_value(script0, steady0, k - 1),
            bus.regs == old(bus).regs,
            bus.trace@ == old(bus).trace@ + flag_read_events(script0, steady0, k),
            bus.flag_script@ == (if k <= script0.len() {
                script0.skip(k)
            } else {
                Seq::<u32>::empty()
            }),
            forall|j: int|
                0 <= j < k - 1 ==> #[trigger] flag_read_value(script0, steady0, j) & mask != 0,
        decreases w + 1 - k,
    {
        proof {
            // the observed value is still busy, so the busy prefix extends past k - 1
            assert(k <= w) by {
                if k > w {
                    assert(flag_read_value(script0, steady0, w) & mask != 0);
                }
            }
        }
        value = bus.read(UART0_FR);
        proof {
            let k0 = k;
            k = k + 1;
            assert(value == flag_read_value(script0, steady0, k0)) by {
                if k0 < script0.len() {
                    assert(script0.skip(k0)[0] == script0[k0]);
                }
            }
            assert(bus.trace@ =~= old(bus).trace@ + flag_read_events(script0, steady0, k));
            if k <= script0.len() {
                assert(bus.flag_script@ =~= script0.skip(k));
            }
        }
    }
    proof {
        // the loop left on a ready value: k - 1 is exactly the busy-prefix length
        assert(k - 1 == w) by {
            if k - 1 < w {
                assert(flag_read_value(script0, steady0, k - 1) & mask != 0);
            }
            if k - 1 > w {
                assert(flag_read_value(script0, steady0, w) & mask != 0);
            }
        }
        assert(bus.flag_script@ =~= script_after_wait(script0, mask));
    }
}

/// The transaction trace of one `uart_putc`: the flag-register polls up to
/// and including the first ready load, then the one data-register store.
pub open spec fn putc_events(script: Seq<u32>, steady: u32, c: u8) -> Seq<MmioEvent> {
    flag_read_events(script, steady, flag_wait_len(script, FR_TXFF) + 1) + seq![
        write_of(UART0_DR, c as u32),
    ]
}

/// The transaction trace of one `uart_getc`: the flag-register polls up to
/// and including the first ready load, then the one data-register load,
/// which observes `data`.
pub open spec fn getc_events(script: Seq<u32>, steady: u32, data: u32) -> Seq<MmioEvent> {
    flag_read_events(script, steady, flag_wait_len(script, FR_RXFE) + 1) + seq![
        read_of(UART0_DR, data),
    ]
}

/// Spins while the transmit-FIFO-full flag is set, then stores `c` to the
/// data register. On hardware this blocks indefinitely when the far end
/// never drains (no timeout, by design); the precondition records that the
/// spin returns exactly when some poll eventually observes the flag clear.
pub fn uart_putc(bus: &mut RegisterFile, c: u8)
    requires
        flag_ready_eventually(old(bus).flag_script@, old(bus).regs.fr, FR_TXFF),
    ensures
        final(bus).regs == spec_store(old(bus).regs, UART0_DR, c as u32),
        final(bus).flag_script@ == script_after_wait(old(bus).flag_script@, FR_TXFF),
        final(bus).trace@ == old(bus).trace@ + putc_events(
            old(bus).flag_script@,
            old(bus).regs.fr,
            c,
        ),
{
    wait_flag_clear(bus, FR_TXFF);
    bus.write(UART0_DR, c as u32);
    proof {
        assert(bus.trace@ =~= old(bus).trace@ + putc_events(
            old(bus).flag_script@,
            old(bus).regs.fr,
            c,
        ));
    }
}

/// Spins while the receive-FIFO-empty flag is set, then loads and discards
/// the data register (a receive drain). Like the transmit path, it blocks
/// until some poll observes the flag clear.
pub fn uart_getc(bus: &mut RegisterFile)
    requires
        flag_ready_eventually(old(bus).flag_script@, old(bus).regs.fr, FR_RXFE),
    ensures
        final(bus).regs == old(bus).regs,
        final(bus).flag_script@ == script_after_wait(old(bus).flag_script@, FR_RXFE),
        final(bus).trace@ == old(bus).trace@ + getc_events(
            old(bus).flag_script@,
            old(bus).regs.fr,
            old(bus).regs.dr,
        ),
{
    wait_flag_clear(bus, FR_RXFE);
    let _drained: u32 = bus.read(UART0_DR);
    proof {
        assert(bus.trace@ =~= old(bus).trace@ + getc_events(
            old(bus).flag_script@,
            old(bus).regs.fr,
            old(bus).regs.dr,
        ));
    }
}

/// The exact transaction sequence of `uart_init`, in order: disable the
/// UART, reconfigure the GPIO pulls with two settling delays, clear pending
/// interrupts, program the baud divisors, set the line control, mask every
/// interrupt, and finally enable transmit and receive.
pub open spec fn init_events() -> Seq<MmioEvent> {
    seq![
        write_of(UART0_CR, 0),
        write_of(GPPUD, 0),
        delay_of(150),
        write_of(GPPUDCLK0, GPPUDCLK0_UART_PINS),
        delay_of(150),
        write_of(GPPUDCLK0, 0),
        write_of(UART0_ICR, ICR_CLEAR_ALL),
        write_of(UART0_IBRD, IBRD_115200),
        write_of(UART0_FBRD, FBRD_115200),
        write_of(UART0_LCRH, LCRH_FIFO_8BIT),
        write_of(UART0_IMSC, IMSC_MASK_ALL),
        write_of(UART0_CR, CR_ENABLE_TXRX),
    ]
}

/// The register file after `uart_init`: divisors, line control, interrupt
/// mask and control programmed, interrupts cleared, GPIO pulls latched off;
/// the data and flag cells are not written.
pub open spec fn init_registers(r: Registers) -> Registers {
    Registers {
        dr: r.dr,
        fr: r.fr,
        ibrd: IBRD_115200,
        fbrd: FBRD_115200,
        lcrh: LCRH_FIFO_8BIT,
        cr: CR_ENABLE_TXRX,
        imsc: IMSC_MASK_ALL,
        icr: ICR_CLEAR_ALL,
        gppud: 0,
        gppudclk0: 0,
    }
}

/// Brings the transmitter online. Issues exactly the stores and delays of
/// `init_events`, in that order; reads nothing, so the poll script is left
/// untouched. There is no failure path: the hardware is assumed present and
/// to respond to every store.
pub fn uart_init(bus: &mut RegisterFile)
    ensures
        final(bus).regs == init_registers(old(bus).regs),
        final(bus).flag_script@ == old(bus).flag_script@,
        final(bus).trace@ == old(bus).trace@ + init_events(),
{
    // Disable the UART while the line is reconfigured.
    bus.write(UART0_CR, 0);
    // Disable pull up/down for all GPIO pins, and give the lines time to settle.
    bus.write(GPPUD, 0);
    delay(bus, 150);
    // Clock the pull change into pins 14 and 15, the UART lines, and settle again.
    bus.write(GPPUDCLK0, GPPUDCLK0_UART_PINS);
    delay(bus, 150);
    // Clear the clock register to latch the change.
    bus.write(GPPUDCLK0, 0);
    // Clear every pending interrupt.
    bus.write(UART0_ICR, ICR_CLEAR_ALL);
    // Program the integer and fractional baud divisors for 115200 baud
    // against the 3 MHz reference clock: divisor = clock / (16 * baud).
    bus.write(UART0_IBRD, IBRD_115200);
    bus.write(UART0_FBRD, FBRD_115200);
    // Enable FIFOs and 8-bit words (one stop bit, no parity).
    bus.write(UART0_LCRH, LCRH_FIFO_8BIT);
    // Mask every interrupt source: this driver polls.
    bus.write(UART0_IMSC, IMSC_MASK_ALL);
    // Enable the UART, transmit and receive.
    bus.write(UART0_CR, CR_ENABLE_TXRX);
    proof {
        assert(bus.trace@ =~= old(bus).trace@ + init_events());
    }
}

/// Integer part of the baud divisor: clock / (16 * baud).
pub open spec fn baud_int_divisor(clock: int, baud: int) -> int
    recommends
        baud > 0,
{
    clock / (16 * baud)
}

/// Fractional baud divisor register value: the fractional part of
/// clock / (16 * baud), scaled by 64 and rounded half-up.
pub open spec fn baud_frac_divisor(clock: int, baud: int) -> int
    recommends
        baud > 0,
{
    (128 * (clock % (16 * baud)) + 16 * baud) / (32 * baud)
}

/// Computes both baud divisor register values from a reference clock and a
/// target baud rate.
pub fn baud_divisors(clock: u32, baud: u32) -> (r: (u32, u32))
    requires
        baud >= 1,
        16 * (baud as int) <= u32::MAX as int,
    ensures
        r.0 as int == baud_int_divisor(clock as int, baud as int),
        r.1 as int == baud_frac_divisor(clock as int, baud as int),
{
    let denom: u32 = 16 * baud;
    let integer: u32 = clock / denom;
    let rem: u32 = clock % denom;
    let num: u64 = 128 * (rem as u64) + (denom as u64);
    let den: u64 = 2 * (denom as u64);
    let frac: u64 = num / den;
    proof {
        assert(den as int == 32 * (baud as int));
        assert(num < 130 * (den as int)) by {
            assert(rem < denom);
        }
        assert(frac < 130) by (nonlinear_arith)
            requires
                num < 130 * den,
                den > 0,
                frac == num / den,
        {}
    }
    (integer, frac as u32)
}

/// The reference divisor values: against the 3 MHz clock at 115200 baud the
/// formula yields integer divisor 1 and fractional divisor 40, the literals
/// the initialization sequence stores.
pub proof fn lemma_baud_divisor_reference()
    ensures
        baud_int_divisor(UART_REFERENCE_CLOCK as int, UART_BAUD as int) == IBRD_115200 as int,
        baud_frac_divisor(UART_REFERENCE_CLOCK as int, UART_BAUD as int) == FBRD_115200 as int,
{
    assert(16 * (UART_BAUD as int) == 1843200);
    assert(3000000 as int % 1843200 == 1156800);
    assert(3000000 as int / 1843200 == 1);
    assert(128 * 1156800 + 1843200 == 149913600);
    assert(149913600 as int / 3686400 == 40);
}

/// Each of `n` successive transmits finds the transmit-FIFO-full flag
/// eventually clear, each spin starting from what the previous one left of
/// the poll script.
pub open spec fn tx_ready_n(script: Seq<u32>, steady: u32, n: nat) -> bool
    decreases n,
{
    n == 0 || (flag_ready_eventually(script, steady, FR_TXFF) && tx_ready_n(
        script_after_wait(script, FR_TXFF),
        steady,
        (n - 1) as nat,
    ))
}

/// A steady flag cell with the transmit-FIFO-full bit clear keeps every
/// transmit eventually ready, whatever the poll script holds.
pub proof fn lemma_steady_tx_ready(script: Seq<u32>, steady: u32, n: nat)
    requires
        steady & FR_TXFF == 0,
    ensures
        tx_ready_n(script, steady, n),
    decreases n,
{
    if n > 0 {
        lemma_steady_tx_ready(script_after_wait(script, FR_TXFF), steady, (n - 1) as nat);
    }
}

/// The transaction trace of transmitting `bytes` in order: the polls and the
/// data-register store of each byte, each spin continuing on what the
/// previous one left of the poll script.
pub open spec fn puts_events(script: Seq<u32>, steady: u32, bytes: Seq<u8>) -> Seq<MmioEvent>
    decreases bytes.len(),
{
    if bytes.len() == 0 {
        Seq::empty()
    } else {
        putc_events(script, steady, bytes[0]) + puts_events(
            script_after_wait(script, FR_TXFF),
            steady,
            bytes.drop_first(),
        )
    }
}

/// What remains of the poll script after transmitting `bytes`.
pub open spec fn script_after_puts(script: Seq<u32>, bytes: Seq<u8>) -> Seq<u32>
    decreases bytes.len(),
{
    if bytes.len() == 0 {
        script
    } else {
        script_after_puts(script_after_wait(script, FR_TXFF), bytes.drop_first())
    }
}

/// The register file after transmitting `bytes`: only the data-register
/// cell changes, to the last byte sent.
pub open spec fn regs_after_puts(r: Registers, bytes: Seq<u8>) -> Registers {
    if bytes.len() == 0 {
        r
    } else {
        spec_store(r, UART0_DR, bytes.last() as u32)
    }
}

/// Transmits `bytes[i..]` in order via `uart_putc`.
fn put_bytes_from(bus: &mut RegisterFile, bytes: &[u8], i: usize)
    requires
        i <= bytes@.len(),
        tx_ready_n(old(bus).flag_script@, old(bus).regs.fr, (bytes@.len() - i) as nat),
    ensures
        final(bus).regs == regs_after_puts(old(bus).regs, bytes@.skip(i as int)),
        final(bus).flag_script@ == script_after_puts(old(bus).flag_script@, bytes@.skip(i as int)),
        final(bus).trace@ == old(bus).trace@ + puts_events(
            old(bus).flag_script@,
            old(bus).regs.fr,
            bytes@.skip(i as int),
        ),
    decreases bytes@.len() - i,
{
    if i < bytes.len() {
        let c: u8 = bytes[i];
        uart_putc(bus, c);
        put_bytes_from(bus, bytes, i + 1);
        proof {
            let rest = bytes@.skip(i as int);
            assert(rest[0] == bytes@[i as int]);
            assert(rest.drop_first() =~= bytes@.skip(i as int + 1));
            assert(bus.trace@ =~= old(bus).trace@ + puts_events(
                old(bus).flag_script@,
                old(bus).regs.fr,
                rest,
            ));
            assert(bus.regs == regs_after_puts(old(bus).regs, rest));
        }
    } else {
        proof {
            assert(bytes@.skip(i as int) =~= Seq::<u8>::empty());
        }
    }
}

/// Transmits each byte of `s` in order via `uart_putc`: no line-ending
/// translation, no buffering.
pub fn uart_puts(bus: &mut RegisterFile, s: &str)
    requires
        tx_ready_n(old(bus).flag_script@, old(bus).regs.fr, s.spec_bytes().len()),
    ensures
        final(bus).regs == regs_after_puts(old(bus).regs, s.spec_bytes()),
        final(bus).flag_script@ == script_after_puts(old(bus).flag_script@, s.spec_bytes()),
        final(bus).trace@ == old(bus).trace@ + puts_events(
            old(bus).flag_script@,
            old(bus).regs.fr,
            s.spec_bytes(),
        ),
{
    let bytes: &[u8] = s.as_bytes();
    put_bytes_from(bus, bytes, 0);
    proof {
        assert(bytes@.skip(0) =~= bytes@);
    }
}

/// Whether `e` is a store to the data register.
pub open spec fn is_data_register_write(e: MmioEvent) -> bool {
    match e {
        MmioEvent::Write { addr, .. } => addr == UART0_DR,
        _ => false,
    }
}

/// Whether `e` is a load of the flag register that observed `mask` clear.
pub open spec fn is_ready_flag_read(e: MmioEvent, mask: u32) -> bool {
    match e {
        MmioEvent::Read { addr, value } => addr == UART0_FR && value & mask == 0,
        _ => false,
    }
}

/// Whether `e` is a spin delay.
pub open spec fn is_delay(e: MmioEvent) -> bool {
    match e {
        MmioEvent::Delay { .. } => true,
        _ => false,
    }
}

/// The values stored to the data register by `events`, in order.
pub open spec fn data_register_writes(events: Seq<MmioEvent>) -> Seq<u32>
    decreases events.len(),
{
    if events.len() == 0 {
        Seq::empty()
    } else {
        let rest = data_register_writes(events.drop_first());
        match events[0] {
            MmioEvent::Write { addr, value } => if addr == UART0_DR {
                seq![value] + rest
            } else {
                rest
            },
            _ => rest,
        }
    }
}

/// Every store to the data register in `events` stands right after a load
/// of the flag register that observed `mask` clear.
pub open spec fn writes_follow_ready_reads(events: Seq<MmioEvent>, mask: u32) -> bool {
    forall|i: int|
        0 <= i < events.len() && is_data_register_write(#[trigger] events[i]) ==> 1 <= i
            && is_ready_flag_read(events[i - 1], mask)
}

/// Extracting the data-register stores distributes over trace concatenation.
pub proof fn lemma_data_writes_concat(a: Seq<MmioEvent>, b: Seq<MmioEvent>)
    ensures
        data_register_writes(a + b) =~= data_register_writes(a) + data_register_writes(b),
    decreases a.len(),
{
    if a.len() == 0 {
        assert(a + b =~= b);
    } else {
        assert((a + b).drop_first() =~= a.drop_first() + b);
        lemma_data_writes_concat(a.drop_first(), b);
        assert((a + b)[0] == a[0]);
    }
}

/// A trace without data-register stores yields no data-register writes.
pub proof fn lemma_no_data_writes(events: Seq<MmioEvent>)
    requires
        forall|j: int| 0 <= j < events.len() ==> !is_data_register_write(#[trigger] events[j]),
    ensures
        data_register_writes(events) =~= Seq::<u32>::empty(),
    decreases events.len(),
{
    if events.len() > 0 {
        assert(!is_data_register_write(events[0]));
        assert forall|j: int|
            0 <= j < events.drop_first().len() implies !is_data_register_write(
            #[trigger] events.drop_first()[j],
        ) by {
            assert(events.drop_first()[j] == events[j + 1]);
        }
        lemma_no_data_writes(events.drop_first());
    }
}

/// Transmitting `bytes` issues exactly `bytes.len()` data-register stores,
/// carrying the bytes in order, and every one of them stands right after a
/// flag-register load that observed the transmit-FIFO-full bit clear.
pub proof fn lemma_put_string_writes(script: Seq<u32>, steady: u32, bytes: Seq<u8>)
    requires
        tx_ready_n(script, steady, bytes.len()),
    ensures
        data_register_writes(puts_events(script, steady, bytes)) =~= bytes.map_values(
            |b: u8| b as u32,
        ),
        data_register_writes(puts_events(script, steady, bytes)).len() == bytes.len(),
        writes_follow_ready_reads(puts_events(script, steady, bytes), FR_TXFF),
    decreases bytes.len(),
{
    let events = puts_events(script, steady, bytes);
    if bytes.len() == 0 {
        assert(events =~= Seq::<MmioEvent>::empty());
        assert(bytes.map_values(|b: u8| b as u32) =~= Seq::<u32>::empty());
    } else {
        let w = flag_wait_len(script, FR_TXFF);
        let polls = flag_read_events(script, steady, w + 1);
        let head = putc_events(script, steady, bytes[0]);
        let script1 = script_after_wait(script, FR_TXFF);
        let tail = puts_events(script1, steady, bytes.drop_first());
        lemma_flag_wait_len(script, steady, FR_TXFF);
        lemma_put_string_writes(script1, steady, bytes.drop_first());
        // the head block writes exactly the first byte
        assert forall|j: int| 0 <= j < polls.len() implies !is_data_register_write(
            #[trigger] polls[j],
        ) by {
            assert(polls[j] == read_of(UART0_FR, flag_read_value(script, steady, j)));
        }
        lemma_no_data_writes(polls);
        lemma_data_writes_concat(polls, seq![write_of(UART0_DR, bytes[0] as u32)]);
        let single = seq![write_of(UART0_DR, bytes[0] as u32)];
        assert(single.drop_first() =~= Seq::<MmioEvent>::empty());
        assert(data_register_writes(Seq::<MmioEvent>::empty()) =~= Seq::<u32>::empty());
        assert(data_register_writes(single) =~= seq![bytes[0] as u32]);
        assert(data_register_writes(head) =~= seq![bytes[0] as u32]);
        lemma_data_writes_concat(head, tail);
        assert(data_register_writes(events) =~= seq![bytes[0] as u32] + bytes.drop_first()
            .map_values(|b: u8| b as u32));
        assert(seq![bytes[0] as u32] + bytes.drop_first().map_values(|b: u8| b as u32)
            =~= bytes.map_values(|b: u8| b as u32));
        // every data-register store stands right after a ready flag load
        assert forall|i: int|
            0 <= i < events.len() && is_data_register_write(#[trigger] events[i]) implies 1 <= i
            && is_ready_flag_read(events[i - 1], FR_TXFF) by {
            if i < head.len() {
                assert(events[i] == head[i]);
                if i <= w {
                    assert(head[i] == polls[i]);
                    assert(polls[i] == read_of(UART0_FR, flag_read_value(script, steady, i)));
                    assert(false);
                }
                assert(i == w + 1);
                assert(events[i - 1] == polls[w]);
                assert(polls[w] == read_of(UART0_FR, flag_read_value(script, steady, w)));
                assert(flag_read_value(script, steady, w) & FR_TXFF == 0);
            } else {
                let i2 = i - head.len();
                assert(events[i] == tail[i2]);
                assert(is_data_register_write(tail[i2]));
                assert(1 <= i2 && is_ready_flag_read(tail[i2 - 1], FR_TXFF));
                assert(events[i - 1] == tail[i2 - 1]);
            }
        }
    }
}

/// One `uart_putc` polls the flag register while the transmit-FIFO-full bit
/// stays set and touches the data register exactly once, right after the
/// first poll that observed the bit clear.
pub proof fn lemma_putc_polls_until_ready(script: Seq<u32>, steady: u32, c: u8)
    requires
        flag_ready_eventually(script, steady, FR_TXFF),
    ensures
        ({
            let events = putc_events(script, steady, c);
            let w = flag_wait_len(script, FR_TXFF);
            &&& events.len() == w + 2
            &&& forall|j: int|
                0 <= j <= w ==> #[trigger] events[j] == read_of(
                    UART0_FR,
                    flag_read_value(script, steady, j),
                )
            &&& forall|j: int|
                0 <= j < w ==> #[trigger] flag_read_value(script, steady, j) & FR_TXFF != 0
            &&& flag_read_value(script, steady, w) & FR_TXFF == 0
            &&& events[w + 1] == write_of(UART0_DR, c as u32)
            &&& forall|j: int|
                0 <= j < events.len() && is_data_register_write(#[trigger] events[j]) ==> j == w + 1
        }),
{
    lemma_flag_wait_len(script, steady, FR_TXFF);
}

/// One `uart_getc` polls the flag register while the receive-FIFO-empty bit
/// stays set and loads the data register exactly once, right after the
/// first poll that observed the bit clear; it stores nothing.
pub proof fn lemma_getc_polls_until_ready(script: Seq<u32>, steady: u32, data: u32)
    requires
        flag_ready_eventually(script, steady, FR_RXFE),
    ensures
        ({
            let events = getc_events(script, steady, data);
            let w = flag_wait_len(script, FR_RXFE);
            &&& events.len() == w + 2
            &&& forall|j: int|
                0 <= j <= w ==> #[trigger] events[j] == read_of(
                    UART0_FR,
                    flag_read_value(script, steady, j),
                )
            &&& forall|j: int|
                0 <= j < w ==> #[trigger] flag_read_value(script, steady, j) & FR_RXFE != 0
            &&& flag_read_value(script, steady, w) & FR_RXFE == 0
            &&& events[w + 1] == read_of(UART0_DR, data)
            &&& forall|j: int|
                0 <= j < events.len() ==> !is_data_register_write(#[trigger] events[j])
        }),
{
    lemma_flag_wait_len(script, steady, FR_RXFE);
}

/// The event at each position of the initialization trace.
proof fn lemma_init_events_shape()
    ensures
        init_events().len() == 12,
        init_events()[0] == write_of(UART0_CR, 0),
        init_events()[1] == write_of(GPPUD, 0),
        init_events()[2] == delay_of(150),
        init_events()[3] == write_of(GPPUDCLK0, GPPUDCLK0_UART_PINS),
        init_events()[4] == delay_of(150),
        init_events()[5] == write_of(GPPUDCLK0, 0),
        init_events()[6] == write_of(UART0_ICR, ICR_CLEAR_ALL),
        init_events()[7] == write_of(UART0_IBRD, IBRD_115200),
        init_events()[8] == write_of(UART0_FBRD, FBRD_115200),
        init_events()[9] == write_of(UART0_LCRH, LCRH_FIFO_8BIT),
        init_events()[10] == write_of(UART0_IMSC, IMSC_MASK_ALL),
        init_events()[11] == write_of(UART0_CR, CR_ENABLE_TXRX),
{
}

/// Which position of the initialization trace can hold each store or delay:
/// every event of interest occurs at exactly one position.
proof fn lemma_init_index(i: int)
    requires
        0 <= i < init_events().len(),
    ensures
        init_events()[i] == write_of(UART0_CR, 0) ==> i == 0,
        init_events()[i] == write_of(GPPUD, 0) ==> i == 1,
        init_events()[i] == write_of(GPPUDCLK0, 0) ==> i == 5,
        init_events()[i] == write_of(UART0_IBRD, IBRD_115200) ==> i == 7,
        init_events()[i] == write_of(UART0_FBRD, FBRD_115200) ==> i == 8,
        init_events()[i] == write_of(UART0_LCRH, LCRH_FIFO_8BIT) ==> i == 9,
        init_events()[i] == write_of(UART0_CR, CR_ENABLE_TXRX) ==> i == 11,
        is_delay(init_events()[i]) ==> (i == 2 || i == 4) && init_events()[i] == delay_of(150),
{
    lemma_init_events_shape();
    if i == 0 {
    } else if i == 1 {
    } else if i == 2 {
    } else if i == 3 {
    } else if i == 4 {
    } else if i == 5 {
    } else if i == 6 {
    } else if i == 7 {
    } else if i == 8 {
    } else if i == 9 {
    } else if i == 10 {
    } else {
        assert(i == 11);
    }
}

/// The initialization ordering that the hardware protocol demands: the
/// disabling store of zero to the control register stands strictly before
/// every baud-divisor store, and the enabling control store stands strictly
/// after every baud-divisor and line-control store; it is the final event.
pub proof fn lemma_init_store_ordering()
    ensures
        ({
            let events = init_events();
            &&& events.last() == write_of(UART0_CR, CR_ENABLE_TXRX)
            &&& forall|i: int, j: int|
                #![trigger events[i], events[j]]
                0 <= i < events.len() && 0 <= j < events.len() && events[i] == write_of(UART0_CR, 0)
                    && (events[j] == write_of(UART0_IBRD, IBRD_115200) || events[j] == write_of(
                    UART0_FBRD,
                    FBRD_115200,
                )) ==> i < j
            &&& forall|i: int, j: int|
                #![trigger events[i], events[j]]
                0 <= i < events.len() && 0 <= j < events.len() && (events[i] == write_of(
                    UART0_IBRD,
                    IBRD_115200,
                ) || events[i] == write_of(UART0_FBRD, FBRD_115200) || events[i] == write_of(
                    UART0_LCRH,
                    LCRH_FIFO_8BIT,
                )) && events[j] == write_of(UART0_CR, CR_ENABLE_TXRX) ==> i < j
        }),
{
    lemma_init_events_shape();
    let events = init_events();
    assert forall|i: int, j: int|
        0 <= i < events.len() && 0 <= j < events.len() && events[i] == write_of(UART0_CR, 0) && (
        events[j] == write_of(UART0_IBRD, IBRD_115200) || events[j] == write_of(
            UART0_FBRD,
            FBRD_115200,
        )) implies i < j by {
        lemma_init_index(i);
        lemma_init_index(j);
    }
    assert forall|i: int, j: int|
        0 <= i < events.len() && 0 <= j < events.len() && (events[i] == write_of(
            UART0_IBRD,
            IBRD_115200,
        ) || events[i] == write_of(UART0_FBRD, FBRD_115200) || events[i] == write_of(
            UART0_LCRH,
            LCRH_FIFO_8BIT,
        )) && events[j] == write_of(UART0_CR, CR_ENABLE_TXRX) implies i < j by {
        lemma_init_index(i);
        lemma_init_index(j);
    }
}

/// The two settling delays of initialization: exactly two delay events, of
/// 150 cycles each, both strictly between the pull-control store and the
/// clearing store that latches the pull change.
pub proof fn lemma_init_delay_placement()
    ensures
        ({
            let events = init_events();
            &&& events[2] == delay_of(150)
            &&& events[4] == delay_of(150)
            &&& forall|j: int|
                0 <= j < events.len() && is_delay(#[trigger] events[j]) ==> events[j] == delay_of(
                    150,
                ) && (j == 2 || j == 4)
            &&& forall|i: int, j: int, k: int|
                #![trigger events[i], events[j], events[k]]
                0 <= i < events.len() && 0 <= j < events.len() && 0 <= k < events.len()
                    && events[i] == write_of(GPPUD, 0) && is_delay(events[j]) && events[k]
                    == write_of(GPPUDCLK0, 0) ==> i < j && j < k
        }),
{
    lemma_init_events_shape();
    let events = init_events();
    assert forall|j: int|
        0 <= j < events.len() && is_delay(#[trigger] events[j]) implies events[j] == delay_of(150)
        && (j == 2 || j == 4) by {
        lemma_init_index(j);
    }
    assert forall|i: int, j: int, k: int|
        0 <= i < events.len() && 0 <= j < events.len() && 0 <= k < events.len() && events[i]
            == write_of(GPPUD, 0) && is_delay(events[j]) && events[k] == write_of(
            GPPUDCLK0,
            0,
        ) implies i < j && j < k by {
        lemma_init_index(i);
        lemma_init_index(j);
        lemma_init_index(k);
    }
}

} // verus!
