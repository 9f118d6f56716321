//! The state of the emulated machine besides memory and the core's own registers.

use crate::decode::Action;
use crate::layout::TIME_WARP_MULTIPLIER;
use std::collections::{HashMap, HashSet, VecDeque};
use vstd::prelude::*;

verus! {

broadcast use vstd::std_specs::hash::group_hash_axioms;

/// The state of the emulated machine.
pub struct EmuState {
    /// Instructions counted so far.
    pub insn_count: u64,
    /// The core's system registers.
    pub vbar_el1: u64,
    pub elr_el1: u64,
    pub spsr_el1: u64,
    pub pstate_daif: u64,
    pub esr_el1: u64,
    pub far_el1: u64,
    pub tpidr_el1: u64,
    pub tpidr_el0: u64,
    pub tpidrro_el0: u64,
    /// The timer: its compare value and its control bits.
    pub cntv_cval: u64,
    pub cntv_ctl: u64,
    pub cpacr_el1: u64,
    pub sctlr_el1: u64,
    pub tcr_el1: u64,
    pub sp_el0: u64,
    pub fpcr: u64,
    pub fpsr: u64,
    /// The serial port's registers.
    pub uart_lcr: u8,
    pub uart_dll: u8,
    pub uart_dlh: u8,
    pub uart_ier: u8,
    /// A transmit interrupt of the serial port waits.
    pub tx_irq_pending: bool,
    /// Bytes received and not read yet, the oldest first.
    pub rx_fifo: VecDeque<u8>,
    /// The interrupt controller's state.
    pub gic_enabled: bool,
    pub interrupts_enabled: HashSet<u32>,
    /// The line of the last interrupt taken, or -1.
    pub active_irq: i32,
    /// An interrupt was taken and not acknowledged yet.
    pub timer_pending: bool,
    /// Addresses of the delay functions that are skipped.
    pub skip_functions: HashSet<u64>,
    /// Words last written to unmodelled device registers.
    pub mmio_state: HashMap<u64, u32>,
    /// How often each of them was read since.
    pub mmio_reads: HashMap<u64, u32>,
    /// Decoded system instructions.
    pub insn_cache: HashMap<u32, Action>,
}

/// What an `EmuState` stands for: the same values, with sequences, sets and maps for
/// its collections.
#[verifier::ext_equal]
pub struct EmuModel {
    /// Instructions counted so far.
    pub insn_count: u64,
    /// The core's system registers.
    pub vbar_el1: u64,
    pub elr_el1: u64,
    pub spsr_el1: u64,
    pub pstate_daif: u64,
    pub esr_el1: u64,
    pub far_el1: u64,
    pub tpidr_el1: u64,
    pub tpidr_el0: u64,
    pub tpidrro_el0: u64,
    /// The timer: its compare value and its control bits.
    pub cntv_cval: u64,
    pub cntv_ctl: u64,
    pub cpacr_el1: u64,
    pub sctlr_el1: u64,
    pub tcr_el1: u64,
    pub sp_el0: u64,
    pub fpcr: u64,
    pub fpsr: u64,
    /// The serial port's registers.
    pub uart_lcr: u8,
    pub uart_dll: u8,
    pub uart_dlh: u8,
    pub uart_ier: u8,
    /// A transmit interrupt of the serial port waits.
    pub tx_irq_pending: bool,
    /// Bytes received and not read yet, the oldest first.
    pub rx_fifo: Seq<u8>,
    /// The interrupt controller's state.
    pub gic_enabled: bool,
    pub interrupts_enabled: Set<u32>,
    /// The line of the last interrupt taken, or -1.
    pub active_irq: i32,
    /// An interrupt was taken and not acknowledged yet.
    pub timer_pending: bool,
    /// Addresses of the delay functions that are skipped.
    pub skip_functions: Set<u64>,
    /// Words last written to unmodelled device registers.
    pub mmio_state: Map<u64, u32>,
    /// How often each of them was read since.
    pub mmio_reads: Map<u64, u32>,
    /// Decoded system instructions.
    pub insn_cache: Map<u32, Action>,
}

impl View for EmuState {
    type V = EmuModel;

    open spec fn view(&self) -> EmuModel {
        EmuModel {
            insn_count: self.insn_count,
            vbar_el1: self.vbar_el1,
            elr_el1: self.elr_el1,
            spsr_el1: self.spsr_el1,
            pstate_daif: self.pstate_daif,
            esr_el1: self.esr_el1,
            far_el1: self.far_el1,
            tpidr_el1: self.tpidr_el1,
            tpidr_el0: self.tpidr_el0,
            tpidrro_el0: self.tpidrro_el0,
            cntv_cval: self.cntv_cval,
            cntv_ctl: self.cntv_ctl,
            cpacr_el1: self.cpacr_el1,
            sctlr_el1: self.sctlr_el1,
            tcr_el1: self.tcr_el1,
            sp_el0: self.sp_el0,
            fpcr: self.fpcr,
            fpsr: self.fpsr,
            uart_lcr: self.uart_lcr,
            uart_dll: self.uart_dll,
            uart_dlh: self.uart_dlh,
            uart_ier: self.uart_ier,
            tx_irq_pending: self.tx_irq_pending,
            rx_fifo: self.rx_fifo@,
            gic_enabled: self.gic_enabled,
            interrupts_enabled: self.interrupts_enabled@,
            active_irq: self.active_irq,
            timer_pending: self.timer_pending,
            skip_functions: self.skip_functions@,
            mmio_state: self.mmio_state@,
            mmio_reads: self.mmio_reads@,
            insn_cache: self.insn_cache@,
        }
    }
}

/// The lines on which the machine takes interrupts: the two timers' and the serial
/// port's.
pub open spec fn is_irq_line(irq: i32) -> bool {
    irq == 27 || irq == 30 || 32 <= irq <= 35
}

impl EmuModel {
    /// The machine as it is switched on.
    pub open spec fn reset() -> EmuModel {
        EmuModel {
            insn_count: 0,
            vbar_el1: 0,
            elr_el1: 0,
            spsr_el1: 0x05,
            pstate_daif: 0x3C0,
            esr_el1: 0,
            far_el1: 0,
            tpidr_el1: 0,
            tpidr_el0: 0,
            tpidrro_el0: 0,
            cntv_cval: u64::MAX,
            cntv_ctl: 0,
            cpacr_el1: 0x300000,
            sctlr_el1: 0,
            tcr_el1: 0,
            sp_el0: 0,
            fpcr: 0,
            fpsr: 0,
            uart_lcr: 0x03,
            uart_dll: 0x0D,
            uart_dlh: 0x00,
            uart_ier: 0,
            tx_irq_pending: false,
            rx_fifo: Seq::empty(),
            gic_enabled: true,
            interrupts_enabled: Set::empty(),
            active_irq: -1i32,
            timer_pending: false,
            skip_functions: Set::empty(),
            mmio_state: Map::empty(),
            mmio_reads: Map::empty(),
            insn_cache: Map::empty(),
        }
    }

    /// An interrupt that waits for acknowledgement has a line.
    pub open spec fn wf(self) -> bool {
        self.timer_pending ==> is_irq_line(self.active_irq)
    }

    /// The timer's count.
    pub open spec fn ticks(self) -> int {
        self.insn_count * TIME_WARP_MULTIPLIER
    }
}

impl EmuState {
    /// The machine as it is switched on.
    pub fn new() -> (r: EmuState)
        ensures
            r@ == EmuModel::reset(),
            r@.wf(),
    {
        EmuState {
            insn_count: 0,
            vbar_el1: 0,
            elr_el1: 0,
            spsr_el1: 0x05,
            pstate_daif: 0x3C0,
            esr_el1: 0,
            far_el1: 0,
            tpidr_el1: 0,
            tpidr_el0: 0,
            tpidrro_el0: 0,
            cntv_cval: u64::MAX,
            cntv_ctl: 0,
            cpacr_el1: 0x300000,
            sctlr_el1: 0,
            tcr_el1: 0,
            sp_el0: 0,
            fpcr: 0,
            fpsr: 0,
            uart_lcr: 0x03,
            uart_dll: 0x0D,
            uart_dlh: 0x00,
            uart_ier: 0,
            tx_irq_pending: false,
            rx_fifo: VecDeque::new(),
            gic_enabled: true,
            interrupts_enabled: HashSet::new(),
            active_irq: -1,
            timer_pending: false,
            skip_functions: HashSet::new(),
            mmio_state: HashMap::new(),
            mmio_reads: HashMap::new(),
            insn_cache: HashMap::new(),
        }
    }

    /// The timer's count, where it fits.
    pub fn ticks(&self) -> (r: Option<u64>)
        ensures
            r == if self@.ticks() <= u64::MAX {
                Some(self@.ticks() as u64)
            } else {
                None
            },
    {
        self.insn_count.checked_mul(TIME_WARP_MULTIPLIER)
    }
}

} // verus!
