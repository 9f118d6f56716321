//! The memory map of the board, and the emulator's fixed numbers.

use vstd::prelude::*;

verus! {

/// The serial port and the size of its window.
pub const UART0_BASE: u64 = 0x01c28000;

pub const UART_RANGE: u64 = 0x1000;

/// The window of all memory-mapped devices.
pub const MMIO_BASE: u64 = 0x01000000;

pub const MMIO_SIZE: u64 = 0x03000000;

/// The interrupt controller: the distributor and the interface of the core, each
/// with a window of `GIC_RANGE` bytes.
pub const GICD_BASE: u64 = 0x01C81000;

pub const GICC_BASE: u64 = 0x01C82000;

pub const GIC_RANGE: u64 = 0x1000;

pub const GICC_CTLR: u64 = 0x01C82000;

pub const GIC_IAR: u64 = 0x01C8200C;

pub const GIC_EOIR: u64 = 0x01C82010;

pub const GICC_RPR: u64 = 0x01C82014;

pub const GICC_HPPIR: u64 = 0x01C82018;

pub const GICD_ISENABLER: u64 = 0x01C81100;

/// The size of the distributor's bank of enable registers.
pub const ISENABLER_RANGE: u64 = 0x80;

/// The register of the four board lights.
pub const LED_BASE: u64 = 0x02000000;

/// Timer ticks per instruction.
pub const TIME_WARP_MULTIPLIER: u64 = 20;

/// Instructions that an idle instruction or a skipped delay stands for.
pub const IDLE_COST: u64 = 50_000;

/// Instructions between two looks at the interrupt lines.
pub const POLL_INTERVAL: u64 = 5000;

/// The timer's frequency in ticks per second.
pub const TIMER_FREQUENCY: u64 = 24_000_000;

/// An address that the emulated program never reaches.
pub const NEVER_REACH_ADDR: u64 = 0xFFFFFFF0;

/// The emulator stops once it has counted more instructions than this.
pub const MAX_INSN_LIMIT: u64 = 10_000_000_000;

/// Instructions that the core runs in one go.
pub const SLICE_INSNS: u64 = 50_000;

/// Instructions between two copies of the screen.
pub const SCREEN_SYNC_INSNS: u64 = 150_000;

/// The frame buffer.
pub const FB_BASE: u64 = 0x10000000;

pub const FB_WIDTH: usize = 320;

pub const FB_HEIGHT: usize = 240;

pub const FB_SIZE: usize = 307_200;

/// The window on the desktop: the screen with the board's strip under it.
pub const WINDOW_WIDTH: u32 = 320;

pub const WINDOW_HEIGHT: u32 = 290;

/// Where memory is mapped from, and how much of it.
pub const RAM_BASE: u64 = 0;

pub const RAM_SIZE: u64 = 0x8000_0000;

/// Where the start-up code is put, and the first stack pointer.
pub const BOOTSTRAP_ADDR: u64 = 0x1000;

pub const BOOT_STACK: u64 = 0x4800_0000;

} // verus!
