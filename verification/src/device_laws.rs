//! What the devices, the run loop and the board's front promise to their users.

use crate::front::{led_on, line_byte};
use crate::interrupt::Fault;
use crate::layout::{
    BOOTSTRAP_ADDR, BOOT_STACK, FB_BASE, FB_HEIGHT, FB_SIZE, FB_WIDTH, GICC_BASE, GICD_BASE,
    GIC_RANGE, LED_BASE, MAX_INSN_LIMIT, MMIO_BASE, MMIO_SIZE, NEVER_REACH_ADDR, RAM_BASE,
    RAM_SIZE, SLICE_INSNS, UART0_BASE, UART_RANGE, WINDOW_HEIGHT, WINDOW_WIDTH,
};
use crate::mmio::is_modelled;
use crate::run::{slice_ended, AfterSlice, RunLoop};
use crate::state::EmuModel;
use crate::uart::le_bytes;
use vstd::prelude::*;

verus! {

/// A byte transmitted while the divisor latch is off reaches the terminal as the one
/// character with that code; only a line feed is preceded by a carriage return. Of the
/// machine at most the transmit interrupt changes: it waits afterwards if it did before
/// or if it is enabled.
pub proof fn law_transmitted_byte_is_printed(m: EmuModel, address: u64, value: i64, byte: u8)
    requires
        address % 0x400 == 0,
        m.uart_lcr & 0x80 == 0,
        value & 0xFF == byte,
    ensures
        ({
            let (n, out) = m.uart_written(address, value);
            &&& byte != 0x0A ==> out.len() == 1 && out[0] as u32 == byte
            &&& byte == 0x0A ==> out.len() == 2 && out[0] as u32 == 0x0D && out[1] as u32 == 0x0A
            &&& n == (EmuModel { tx_irq_pending: n.tx_irq_pending, ..m })
            &&& n.tx_irq_pending <==> m.tx_irq_pending || m.uart_ier & 0x02 != 0
        }),
{
}

/// What comes out on the terminal tells which byte was transmitted.
pub proof fn law_printed_bytes_are_told_apart(m: EmuModel, address: u64, a: i64, b: i64)
    requires
        address % 0x400 == 0,
        m.uart_lcr & 0x80 == 0,
        m.uart_written(address, a).1 == m.uart_written(address, b).1,
    ensures
        a & 0xFF == b & 0xFF,
{
    assert(0 <= a & 0xFF && a & 0xFF <= 0xFF && 0 <= b & 0xFF && b & 0xFF <= 0xFF) by (bit_vector);
    law_transmitted_byte_is_printed(m, address, a, (a & 0xFF) as u8);
    law_transmitted_byte_is_printed(m, address, b, (b & 0xFF) as u8);
}

/// Only a transmission prints anything.
pub proof fn law_other_writes_print_nothing(m: EmuModel, address: u64, value: i64)
    requires
        address % 0x400 != 0 || m.uart_lcr & 0x80 != 0,
    ensures
        m.uart_written(address, value).1.len() == 0,
{
}

/// With the divisor latch on, the first two registers are the latch's two halves.
pub proof fn law_divisor_latch_is_written(m: EmuModel, address: u64, value: i64, byte: u8)
    requires
        m.uart_lcr & 0x80 != 0,
        value & 0xFF == byte,
    ensures
        address % 0x400 == 0 ==> m.uart_written(address, value).0 == (EmuModel {
            uart_dll: byte,
            ..m
        }),
        address % 0x400 == 4 ==> m.uart_written(address, value).0 == (EmuModel {
            uart_dlh: byte,
            ..m
        }),
{
}

/// With the divisor latch off, the second register enables the port's interrupts. The
/// transmit interrupt waits from the moment that it is enabled.
pub proof fn law_port_interrupts_are_enabled(m: EmuModel, address: u64, value: i64, byte: u8)
    requires
        address % 0x400 == 4,
        m.uart_lcr & 0x80 == 0,
        value & 0xFF == byte,
    ensures
        ({
            let n = m.uart_written(address, value).0;
            &&& n.uart_ier == byte
            &&& n == (EmuModel { uart_ier: byte, tx_irq_pending: n.tx_irq_pending, ..m })
            &&& m.uart_ier & 0x02 == 0 && byte & 0x02 != 0 ==> n.tx_irq_pending
            &&& m.uart_ier & 0x02 != 0 || byte & 0x02 == 0 ==> n.tx_irq_pending == m.tx_irq_pending
        }),
{
}

/// The line control register is the written byte, and switches the latch; registers that
/// are none of the port's three are not written.
pub proof fn law_line_control_is_written(m: EmuModel, address: u64, value: i64, byte: u8)
    requires
        value & 0xFF == byte,
    ensures
        address % 0x400 == 0x0C ==> m.uart_written(address, value).0 == (EmuModel {
            uart_lcr: byte,
            ..m
        }),
        address % 0x400 != 0 && address % 0x400 != 4 && address % 0x400 != 0x0C
            ==> m.uart_written(address, value).0 == m,
{
}

/// Reading the first register with the latch off takes the byte that has waited longest,
/// or reads zero where none waits.
pub proof fn law_oldest_byte_is_read(m: EmuModel, address: u64)
    requires
        address % 0x400 == 0,
        m.uart_lcr & 0x80 == 0,
    ensures
        m.rx_fifo.len() > 0 ==> {
            let (n, value) = m.uart_read(address);
            &&& value == m.rx_fifo[0]
            &&& seq![m.rx_fifo[0]] + n.rx_fifo == m.rx_fifo
            &&& n == (EmuModel { rx_fifo: n.rx_fifo, ..m })
        },
        m.rx_fifo.len() == 0 ==> m.uart_read(address) == (m, 0u64),
{
    if m.rx_fifo.len() > 0 {
        assert(seq![m.rx_fifo[0]] + m.uart_read(address).0.rx_fifo =~= m.rx_fifo);
    }
}

/// The port's registers read as what the port holds, and are not changed by that.
pub proof fn law_port_registers_read(m: EmuModel, address: u64)
    ensures
        address % 0x400 == 0 && m.uart_lcr & 0x80 != 0 ==> m.uart_read(address) == (
            m,
            m.uart_dll as u64,
        ),
        address % 0x400 == 4 && m.uart_lcr & 0x80 != 0 ==> m.uart_read(address) == (
            m,
            m.uart_dlh as u64,
        ),
        address % 0x400 == 4 && m.uart_lcr & 0x80 == 0 ==> m.uart_read(address) == (
            m,
            m.uart_ier as u64,
        ),
        address % 0x400 == 0x0C ==> m.uart_read(address) == (m, m.uart_lcr as u64),
        address % 0x400 == 0x14 && m.rx_fifo.len() > 0 ==> m.uart_read(address) == (m, 0x61u64),
        address % 0x400 == 0x14 && m.rx_fifo.len() == 0 ==> m.uart_read(address) == (m, 0x60u64),
        address % 0x400 == 0x7C ==> m.uart_read(address) == (m, 0x06u64),
        ({
            let o = address % 0x400;
            o != 0 && o != 4 && o != 8 && o != 0x0C && o != 0x14 && o != 0x7C
        }) ==> m.uart_read(address) == (m, 0u64),
{
}

/// The port tells why it interrupts: a received byte first, and it goes on telling so;
/// then a transmission that is over, which it tells once; and else that there is nothing.
pub proof fn law_port_tells_why_it_interrupts(m: EmuModel, address: u64)
    requires
        address % 0x400 == 8,
    ensures
        ({
            let told = m.rx_fifo.len() > 0 && m.uart_ier & 0x01 != 0;
            &&& told ==> m.uart_read(address) == (m, 0x04u64)
            &&& !told && m.tx_irq_pending ==> m.uart_read(address) == (
                EmuModel { tx_irq_pending: false, ..m },
                0x02u64,
            )
            &&& !told && !m.tx_irq_pending ==> m.uart_read(address) == (m, 0x01u64)
        }),
{
}

/// A word goes out lowest byte first: the first byte is the word's remainder by 256, and
/// the others are the first seven of the word's quotient.
pub proof fn law_bytes_go_out_lowest_first(value: u64)
    ensures
        le_bytes(value).len() == 8,
        le_bytes(value)[0] == value % 0x100,
        forall|i: int|
            0 <= i < 7 ==> #[trigger] le_bytes(value)[i + 1] == le_bytes((value / 0x100) as u64)[i],
{
    assert((value >> 0u64) as u8 == value % 0x100) by (bit_vector);
    assert forall|i: int| 0 <= i < 7 implies #[trigger] le_bytes(value)[i + 1] == le_bytes(
        (value / 0x100) as u64,
    )[i] by {
        let s = (8 * i) as u64;
        let t = (8 * (i + 1)) as u64;
        assert((value >> t) as u8 == ((value / 0x100) >> s) as u8) by (bit_vector)
            requires
                t == s + 8,
                s <= 48,
        ;
    }
}

/// Writing to the enable register with the number `k` enables the line `32 * k + b` for
/// each bit `b` that is set in the word, and disables none. Nothing else changes.
pub proof fn law_lines_are_enabled_bit_by_bit(m: EmuModel, address: u64, value: i64, k: u64)
    requires
        k < 32,
        0x01C8_1100 + 4 * k <= address < 0x01C8_1104 + 4 * k,
    ensures
        ({
            let n = m.gic_written(address, value);
            &&& n == (EmuModel { interrupts_enabled: n.interrupts_enabled, ..m })
            &&& forall|b: u32|
                b < 32 ==> (n.interrupts_enabled.contains(#[trigger] line_of(k, b)) <==> {
                    ||| m.interrupts_enabled.contains(line_of(k, b))
                    ||| value & (1i64 << b) != 0
                })
            &&& forall|irq: u32|
                irq as int / 32 != k ==> (#[trigger] n.interrupts_enabled.contains(irq)
                    <==> m.interrupts_enabled.contains(irq))
        }),
{
}

/// The line of the bit `b` of the enable register with the number `k`.
pub open spec fn line_of(k: u64, b: u32) -> u32 {
    (32 * k + b) as u32
}

/// The controller is switched on and off by the lowest bit; the end of an interrupt
/// drops it if it was not acknowledged; nothing else is written.
pub proof fn law_controller_is_written(m: EmuModel, address: u64, value: i64)
    ensures
        address == 0x01C8_2000 ==> m.gic_written(address, value) == (EmuModel {
            gic_enabled: value & 1 == 1,
            ..m
        }),
        address == 0x01C8_2010 ==> m.gic_written(address, value) == (EmuModel {
            timer_pending: false,
            ..m
        }),
        address != 0x01C8_2000 && address != 0x01C8_2010 && !(0x01C8_1100 <= address < 0x01C8_1180)
            ==> m.gic_written(address, value) == m,
{
    assert(value & 1 == 0 || value & 1 == 1) by (bit_vector);
}

/// The line of a waiting interrupt is read at either of two registers, once; then, as
/// where none waits, 1023 is read. The running priority reads 255, all else zero.
pub proof fn law_controller_is_read(m: EmuModel, address: u64)
    ensures
        address == 0x01C8_200C || address == 0x01C8_2018 ==> {
            let (n, line) = m.gic_read(address);
            &&& m.timer_pending && m.active_irq >= 0 ==> line == m.active_irq
            &&& m.timer_pending ==> line == m.active_irq as u64
            &&& !m.timer_pending ==> line == 1023
            &&& n == (EmuModel { timer_pending: false, ..m })
        },
        address == 0x01C8_2014 ==> m.gic_read(address) == (m, 255u64),
        address != 0x01C8_200C && address != 0x01C8_2018 && address != 0x01C8_2014 ==> m.gic_read(
            address,
        ) == (m, 0u64),
{
}

/// The devices with a model are the serial port, the distributor and the core interface;
/// no address outside their windows is theirs.
pub proof fn law_modelled_windows(address: u64)
    ensures
        is_modelled(address) <==> {
            ||| 0x01C2_8000 <= address < 0x01C2_9000
            ||| 0x01C8_1000 <= address < 0x01C8_3000
        },
{
}

/// A word written to any other register is kept, its high half cut off, and the count of
/// reads starts again; nothing else changes. The devices with a model are not touched.
pub proof fn law_unmodelled_register_is_written(m: EmuModel, address: u64, value: i64)
    ensures
        0x01C2_8000 <= address < 0x01C2_9000 || 0x01C8_1000 <= address < 0x01C8_3000
            ==> m.mmio_written(address, value) == m && m.mmio_read(address) == (
            m,
            Ok::<Option<u64>, Fault>(None),
        ),
        !(0x01C2_8000 <= address < 0x01C2_9000 || 0x01C8_1000 <= address < 0x01C8_3000) ==> {
            let n = m.mmio_written(address, value);
            &&& n.mmio_state == m.mmio_state.insert(address, n.mmio_state[address])
            &&& n.mmio_state[address] as i64 == value & 0xFFFF_FFFF
            &&& n.mmio_reads == m.mmio_reads.insert(address, 0)
            &&& n == (EmuModel { mmio_state: n.mmio_state, mmio_reads: n.mmio_reads, ..m })
        },
{
    assert((value as u32) as i64 == value & 0xFFFF_FFFF) by (bit_vector);
}

/// Each read of such a register counts. Up to the fiftieth since the last write it reads
/// as the word that was written, or zero; up to the hundredth as ones; and then as zero.
pub proof fn law_unmodelled_register_is_read(m: EmuModel, address: u64)
    requires
        !(0x01C2_8000 <= address < 0x01C2_9000 || 0x01C8_1000 <= address < 0x01C8_3000),
    ensures
        ({
            let before = if m.mmio_reads.contains_key(address) {
                m.mmio_reads[address]
            } else {
                0
            };
            let word = if m.mmio_state.contains_key(address) {
                m.mmio_state[address]
            } else {
                0
            };
            if before == u32::MAX {
                m.mmio_read(address) == (m, Err::<Option<u64>, Fault>(Fault::Overflow))
            } else {
                m.mmio_read(address) == (
                    EmuModel {
                        mmio_reads: m.mmio_reads.insert(address, (before + 1) as u32),
                        ..m
                    },
                    Ok::<Option<u64>, Fault>(
                        Some(
                            if before < 50 {
                                word as u64
                            } else if before < 100 {
                                0xFFFF_FFFF
                            } else {
                                0
                            },
                        ),
                    ),
                )
            }
        }),
{
}

/// The next slice starts where the last one ended, whatever follows it.
pub proof fn law_slices_follow_each_other(l: RunLoop, pc: u64, insn_count: u64)
    ensures
        slice_ended(l, pc, insn_count).0.current_pc == pc,
{
}

/// The program is over exactly where the core has reached the address that it never
/// reaches by itself; the screen is then not copied.
pub proof fn law_program_ends(l: RunLoop, pc: u64, insn_count: u64)
    ensures
        slice_ended(l, pc, insn_count).1 == Ok::<AfterSlice, Fault>(AfterSlice::Halt) <==> pc
            == 0xFFFF_FFF0,
        pc == 0xFFFF_FFF0 ==> slice_ended(l, pc, insn_count).0.last_screen_sync
            == l.last_screen_sync,
{
}

/// While the program runs, the screen is copied exactly where more than a hundred and
/// fifty thousand instructions have passed since the last copy, and the count at the
/// copy is kept; else that at the last copy.
pub proof fn law_screen_is_copied_now_and_then(l: RunLoop, pc: u64, insn_count: u64)
    requires
        pc != 0xFFFF_FFF0,
    ensures
        ({
            let (n, r) = slice_ended(l, pc, insn_count);
            if l.last_screen_sync + 150_000 > u64::MAX {
                &&& r == Err::<AfterSlice, Fault>(Fault::Overflow)
                &&& n.last_screen_sync == l.last_screen_sync
            } else if insn_count - l.last_screen_sync > 150_000 {
                &&& r == Ok::<AfterSlice, Fault>(AfterSlice::SyncScreen)
                &&& n.last_screen_sync == insn_count
            } else {
                &&& r == Ok::<AfterSlice, Fault>(AfterSlice::Go)
                &&& n.last_screen_sync == l.last_screen_sync
            }
        }),
{
}

/// Every entered byte goes to the serial line as it is, but a line feed: a carriage
/// return goes for it, so the line never sees a line feed.
pub proof fn law_entered_bytes_are_sent(b: u8)
    ensures
        b != 10 ==> line_byte(b) == b,
        b == 10 ==> line_byte(b) == 13,
        line_byte(b) != 10,
{
}

/// A light is on exactly where its bit of the register is one, the first light's being
/// the lowest.
pub proof fn law_lights_show_the_low_bits(leds: u32)
    ensures
        led_on(leds, 0) <==> leds % 2 == 1,
        led_on(leds, 1) <==> leds / 2 % 2 == 1,
        led_on(leds, 2) <==> leds / 4 % 2 == 1,
        led_on(leds, 3) <==> leds / 8 % 2 == 1,
{
    assert(leds & (1u32 << 0u32) != 0 <==> leds % 2 == 1) by (bit_vector);
    assert(leds & (1u32 << 1u32) != 0 <==> leds / 2 % 2 == 1) by (bit_vector);
    assert(leds & (1u32 << 2u32) != 0 <==> leds / 4 % 2 == 1) by (bit_vector);
    assert(leds & (1u32 << 3u32) != 0 <==> leds / 8 % 2 == 1) by (bit_vector);
}

/// The board's memory map: the devices lie in one window of their own, under the frame
/// buffer, and everything lies in memory; the screen's bytes are four for each dot.
pub proof fn law_memory_map_fits_together()
    ensures
        MMIO_BASE == 0x0100_0000 && MMIO_BASE + MMIO_SIZE == 0x0400_0000,
        UART0_BASE == 0x01C2_8000 && UART_RANGE == 0x1000,
        GICD_BASE == 0x01C8_1000 && GICC_BASE == 0x01C8_2000 && GIC_RANGE == 0x1000,
        LED_BASE == 0x0200_0000,
        FB_BASE == 0x1000_0000 && FB_SIZE == 4 * FB_WIDTH * FB_HEIGHT,
        FB_WIDTH == 320 && FB_HEIGHT == 240,
        WINDOW_WIDTH == FB_WIDTH && WINDOW_HEIGHT == FB_HEIGHT + 50,
        RAM_BASE == 0 && RAM_SIZE == 0x8000_0000,
        BOOTSTRAP_ADDR == 0x1000 && BOOT_STACK == 0x4800_0000,
        SLICE_INSNS == 50_000 && MAX_INSN_LIMIT == 10_000_000_000,
        NEVER_REACH_ADDR == 0xFFFF_FFF0,
{
}

} // verus!
