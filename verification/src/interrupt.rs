//! Which interrupt the machine takes, and how it takes it.

use crate::state::{is_irq_line, EmuModel, EmuState};
use vstd::prelude::*;

verus! {

broadcast use vstd::std_specs::hash::group_hash_axioms;

/// Why the emulator cannot go on.
#[derive(Clone, Copy, Debug, PartialEq, Eq, Structural)]
pub enum Fault {
    /// An address or a count does not fit in 64 bits.
    Overflow,
    /// No disassembler could be set up.
    NoDisassembler,
}

/// The interrupt mask's bit for interrupt requests.
pub const DAIF_I: u64 = 0x80;

/// All bits of the interrupt mask.
pub const DAIF_ALL: u64 = 0x3C0;

/// The saved mode: the handler's own stack, on the first privileged level.
pub const MODE_EL1H: u64 = 0x05;

/// The interrupt vector, behind the vector base.
pub const IRQ_VECTOR: u64 = 0x280;

/// What was read, or zero where the read failed.
pub open spec fn or_zero(v: Option<u64>) -> u64 {
    match v {
        Some(n) => n,
        None => 0,
    }
}

impl EmuModel {
    /// The machine once these bytes have come in on the serial line.
    pub open spec fn received(self, bytes: Seq<u8>) -> EmuModel {
        EmuModel { rx_fifo: self.rx_fifo + bytes, ..self }
    }

    /// The line that the serial port is wired to: the lowest enabled one of its four.
    pub open spec fn uart_line(self) -> Option<i32> {
        if self.interrupts_enabled.contains(32) {
            Some(32)
        } else if self.interrupts_enabled.contains(33) {
            Some(33)
        } else if self.interrupts_enabled.contains(34) {
            Some(34)
        } else if self.interrupts_enabled.contains(35) {
            Some(35)
        } else {
            None
        }
    }

    /// The serial port has a received byte to announce.
    pub open spec fn rx_requests(self) -> bool {
        self.rx_fifo.len() > 0 && self.uart_ier & 0x01 != 0
    }

    /// The serial port has a transmission to announce.
    pub open spec fn tx_requests(self) -> bool {
        self.tx_irq_pending && self.uart_ier & 0x02 != 0
    }

    /// The timer is on, not masked, and its count has reached the compare value.
    pub open spec fn timer_due(self) -> bool {
        self.cntv_ctl & 1 != 0 && self.cntv_ctl & 2 == 0 && self.ticks() >= self.cntv_cval
    }

    /// The timer's line: the second timer's only where it alone is enabled.
    pub open spec fn timer_line(self) -> i32 {
        if !self.interrupts_enabled.contains(30) && self.interrupts_enabled.contains(27) {
            27
        } else {
            30
        }
    }

    /// Interrupts are let through: there is a vector table, and they are not masked.
    pub open spec fn open_to_interrupts(self) -> bool {
        self.vbar_el1 != 0 && self.pstate_daif & DAIF_I == 0
    }

    /// The line of the interrupt to take now. The serial port comes before the timer.
    pub open spec fn request(self) -> Option<i32> {
        if !self.open_to_interrupts() {
            None
        } else if self.uart_line() is Some && (self.rx_requests() || self.tx_requests()) {
            self.uart_line()
        } else if self.timer_due() {
            Some(self.timer_line())
        } else {
            None
        }
    }

    /// The machine once it has taken the interrupt on `irq` at `pc`.
    pub open spec fn interrupted(self, irq: i32, nzcv: u64, pc: u64) -> EmuModel {
        EmuModel {
            active_irq: irq,
            timer_pending: true,
            spsr_el1: nzcv | self.pstate_daif | MODE_EL1H,
            elr_el1: pc,
            pstate_daif: self.pstate_daif | DAIF_I,
            ..self
        }
    }

    /// A look at the interrupt lines, once `bytes` have come in: the machine after it,
    /// and where the core goes on if an interrupt was taken.
    pub open spec fn polled(self, nzcv: Option<u64>, bytes: Seq<u8>, pc: u64) -> (
        EmuModel,
        Result<Option<u64>, Fault>,
    ) {
        let m = self.received(bytes);
        if m.ticks() > u64::MAX {
            (m, Err(Fault::Overflow))
        } else {
            match m.request() {
                None => (m, Ok(None)),
                Some(irq) => if m.vbar_el1 + IRQ_VECTOR > u64::MAX {
                    (m, Err(Fault::Overflow))
                } else {
                    (
                        m.interrupted(irq, or_zero(nzcv), pc),
                        Ok(Some((m.vbar_el1 + IRQ_VECTOR) as u64)),
                    )
                },
            }
        }
    }
}

impl EmuState {
    /// Takes in the bytes that have come on the serial line.
    pub fn receive(&mut self, bytes: &Vec<u8>)
        ensures
            final(self)@ == old(self)@.received(bytes@),
    {
        let mut i: usize = 0;
        assert(old(self)@.rx_fifo + bytes@.take(0) =~= old(self)@.rx_fifo);
        while i < bytes.len()
            invariant
                i <= bytes.len(),
                self@ == old(self)@.received(bytes@.take(i as int)),
            decreases bytes.len() - i,
        {
            self.rx_fifo.push_back(bytes[i]);
            assert(bytes@.take(i + 1) =~= bytes@.take(i as int).push(bytes@[i as int]));
            i = i + 1;
        }
        assert(bytes@.take(i as int) =~= bytes@);
    }

    /// The line of the interrupt to take now, if there is one.
    fn pending_irq(&self, ticks: u64) -> (r: Option<i32>)
        requires
            ticks == self@.ticks(),
        ensures
            r == self@.request(),
    {
        let uart_line: Option<i32> = if self.interrupts_enabled.contains(&32) {
            Some(32)
        } else if self.interrupts_enabled.contains(&33) {
            Some(33)
        } else if self.interrupts_enabled.contains(&34) {
            Some(34)
        } else if self.interrupts_enabled.contains(&35) {
            Some(35)
        } else {
            None
        };
        let rx = self.rx_fifo.len() > 0 && (self.uart_ier & 0x01) != 0;
        let tx = self.tx_irq_pending && (self.uart_ier & 0x02) != 0;
        let timer = (self.cntv_ctl & 1) != 0 && (self.cntv_ctl & 2) == 0 && ticks >= self.cntv_cval;
        if self.vbar_el1 == 0 || (self.pstate_daif & DAIF_I) != 0 {
            None
        } else if uart_line.is_some() && (rx || tx) {
            uart_line
        } else if timer {
            if self.interrupts_enabled.contains(&30) {
                Some(30)
            } else if self.interrupts_enabled.contains(&27) {
                Some(27)
            } else {
                Some(30)
            }
        } else {
            None
        }
    }
}

/// Looks at the interrupt lines at `pc`, with the bytes that have come in on the
/// serial line and the condition flags, if they could be read. Gives the address of
/// the handler where an interrupt is taken.
pub fn check_and_fire_interrupts(
    state: &mut EmuState,
    nzcv: Option<u64>,
    received: &Vec<u8>,
    pc: u64,
) -> (r: Result<Option<u64>, Fault>)
    ensures
        (final(state)@, r) == old(state)@.polled(nzcv, received@, pc),
{
    state.receive(received);
    let flags: u64 = match nzcv {
        Some(n) => n,
        None => 0,
    };
    let ticks: u64 = match state.ticks() {
        Some(t) => t,
        None => {
            return Err(Fault::Overflow);
        },
    };
    match state.pending_irq(ticks) {
        None => Ok(None),
        Some(irq) => {
            if state.vbar_el1 > u64::MAX - IRQ_VECTOR {
                return Err(Fault::Overflow);
            }
            state.active_irq = irq;
            state.timer_pending = true;
            state.spsr_el1 = flags | state.pstate_daif | MODE_EL1H;
            state.elr_el1 = pc;
            state.pstate_daif = state.pstate_daif | DAIF_I;
            Ok(Some(state.vbar_el1 + IRQ_VECTOR))
        },
    }
}

/// No interrupt is taken while interrupts are masked or without a vector table.
pub proof fn law_masked_machine_takes_no_interrupt(
    m: EmuModel,
    nzcv: Option<u64>,
    bytes: Seq<u8>,
    pc: u64,
)
    requires
        m.pstate_daif & DAIF_I != 0 || m.vbar_el1 == 0,
    ensures
        m.polled(nzcv, bytes, pc).0 == m.received(bytes),
        !(m.polled(nzcv, bytes, pc).1 matches Ok(Some(_))),
{
}

/// Once an interrupt is taken, no other is taken until interrupts are let through
/// again: the mask is set.
pub proof fn law_interrupts_do_not_nest(
    m: EmuModel,
    irq: i32,
    nzcv: u64,
    pc: u64,
    later_nzcv: Option<u64>,
    bytes: Seq<u8>,
    later_pc: u64,
)
    ensures
        m.interrupted(irq, nzcv, pc).pstate_daif & DAIF_I != 0,
        !(m.interrupted(irq, nzcv, pc).polled(later_nzcv, bytes, later_pc).1 matches Ok(Some(_))),
{
    let d = m.pstate_daif;
    assert((d | 0x80) & 0x80 != 0) by (bit_vector);
}

/// An interrupt is only ever taken on a line of the machine, and then the machine is
/// well formed.
pub proof fn law_polling_keeps_the_machine_well_formed(
    m: EmuModel,
    nzcv: Option<u64>,
    bytes: Seq<u8>,
    pc: u64,
)
    requires
        m.wf(),
    ensures
        m.polled(nzcv, bytes, pc).0.wf(),
        m.request() matches Some(irq) ==> is_irq_line(irq),
{
}

} // verus!
