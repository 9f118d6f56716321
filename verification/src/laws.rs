//! What holds of the machine across its operations.

use crate::boot::bootstrap_code;
use crate::cpu::{
    insn_kind, insn_word, monitor_called, sign_extended, Effect, InsnKind, Operation, Step,
    INSN_SIZE, NZCV_MASK,
};
use crate::decode::Action;
use crate::gic::SPURIOUS_IRQ;
use crate::interrupt::{Fault, DAIF_ALL, IRQ_VECTOR};
use crate::layout::{GIC_IAR, LED_BASE, SCREEN_SYNC_INSNS, TIME_WARP_MULTIPLIER};
use crate::mmio::{in_gicc, in_gicd, in_uart, is_modelled, ONES_READS, STABLE_READS};
use crate::register::Register;
use crate::run::{slice_ended, AfterSlice, RunLoop};
use crate::state::{is_irq_line, EmuModel};
use crate::sysreg::SysReg;
use crate::uart::{le_bytes, low_byte, UART_WINDOW};
use vstd::prelude::*;

verus! {

/// Something that happens to the machine.
pub enum Event {
    /// The handling of an instruction is opened.
    Begin { address: u64 },
    /// The interrupt lines are looked at.
    Poll { address: u64, nzcv: Option<u64>, bytes: Seq<u8> },
    /// An instruction is fetched. `action` is what it decodes to, where it is decoded.
    Fetch { address: u64, code: Seq<u8>, action: Option<Action> },
    /// The supervisor is called.
    SupervisorCall { address: u64, nzcv: Option<u64> },
    /// A register's value is there for a system instruction.
    Operand { address: u64, operation: Operation, val: u64 },
    UartWrite { address: u64, value: i64 },
    UartRead { address: u64 },
    GicWrite { address: u64, value: i64 },
    GicRead { address: u64 },
    MmioWrite { address: u64, value: i64 },
    MmioRead { address: u64 },
    /// A program image's symbols are taken in.
    Symbols { symbols: Seq<Option<(Seq<char>, u64)>> },
}

/// The machine after an event.
pub open spec fn after(m: EmuModel, e: Event) -> EmuModel {
    match e {
        Event::Begin { address } => m.begun(address).0,
        Event::Poll { address, nzcv, bytes } => m.polled_at(address, nzcv, bytes).0,
        Event::Fetch { address, code, action } => if m.must_decode(code) {
            m.decoded(address, insn_word(code), action).0
        } else {
            m.fetched(address, code).0
        },
        Event::SupervisorCall { address, nzcv } => m.supervisor_called(address, nzcv).0,
        Event::Operand { address, operation, val } => m.given_operand(address, operation, val).0,
        Event::UartWrite { address, value } => m.uart_written(address, value).0,
        Event::UartRead { address } => m.uart_read(address).0,
        Event::GicWrite { address, value } => m.gic_written(address, value),
        Event::GicRead { address } => m.gic_read(address).0,
        Event::MmioWrite { address, value } => m.mmio_written(address, value),
        Event::MmioRead { address } => m.mmio_read(address).0,
        Event::Symbols { symbols } => m.skipping_delays(symbols),
    }
}

/// The machine after a sequence of events since it was switched on.
pub open spec fn history(events: Seq<Event>) -> EmuModel
    decreases events.len(),
{
    if events.len() == 0 {
        EmuModel::reset()
    } else {
        after(history(events.drop_last()), events.last())
    }
}

/// What holds of every machine that was switched on: an interrupt that waits for
/// acknowledgement has a line, and so has every interrupt ever taken; words are kept
/// only of registers that no modelled device has, and each of them has a count of
/// reads; no function at the address zero is skipped; no fault address is ever set.
pub open spec fn always(m: EmuModel) -> bool {
    &&& m.wf()
    &&& m.active_irq == -1 || is_irq_line(m.active_irq)
    &&& forall|a: u64| #[trigger] m.mmio_state.contains_key(a) ==> m.mmio_reads.contains_key(a)
    &&& forall|a: u64| #[trigger] m.mmio_reads.contains_key(a) ==> !is_modelled(a)
    &&& !m.skip_functions.contains(0)
    &&& m.far_el1 == 0
}

/// Every event keeps what always holds.
pub proof fn law_events_keep_the_machine_sound(m: EmuModel, e: Event)
    requires
        always(m),
    ensures
        always(after(m, e)),
{
}

/// No event turns the instruction count back, disables an interrupt line, forgets a
/// function to skip, or changes what a system instruction was decoded to.
#[verifier::spinoff_prover]
pub proof fn law_events_only_add(m: EmuModel, e: Event)
    ensures
        m.insn_count <= after(m, e).insn_count,
        m.interrupts_enabled.subset_of(after(m, e).interrupts_enabled),
        m.skip_functions.subset_of(after(m, e).skip_functions),
        m.insn_cache.submap_of(after(m, e).insn_cache),
{
    let n = after(m, e);
    match e {
        Event::Symbols { .. } => {
            assert(n.insn_cache == m.insn_cache);
        },
        Event::Fetch { code, .. } => {
            assert(n.skip_functions == m.skip_functions);
            assert(!m.must_decode(code) ==> n.insn_cache == m.insn_cache);
        },
        _ => {
            assert(n.skip_functions == m.skip_functions);
            assert(n.insn_cache == m.insn_cache);
        },
    }
}

/// The bytes that an event brings in on the serial line.
pub open spec fn bytes_in(e: Event) -> Seq<u8> {
    match e {
        Event::Poll { bytes, .. } => bytes,
        _ => Seq::empty(),
    }
}

/// The received byte that an event hands to the program.
pub open spec fn bytes_out(m: EmuModel, e: Event) -> Seq<u8> {
    match e {
        Event::UartRead { address } => if address % UART_WINDOW == 0 && !m.dlab()
            && m.rx_fifo.len() > 0 {
            seq![m.uart_read(address).1 as u8]
        } else {
            Seq::empty()
        },
        _ => Seq::empty(),
    }
}

/// The bytes that came in on the serial line, in order.
pub open spec fn all_bytes_in(events: Seq<Event>) -> Seq<u8>
    decreases events.len(),
{
    if events.len() == 0 {
        Seq::empty()
    } else {
        all_bytes_in(events.drop_last()) + bytes_in(events.last())
    }
}

/// The received bytes that the program was handed, in order.
pub open spec fn all_bytes_out(events: Seq<Event>) -> Seq<u8>
    decreases events.len(),
{
    if events.len() == 0 {
        Seq::empty()
    } else {
        all_bytes_out(events.drop_last()) + bytes_out(history(events.drop_last()), events.last())
    }
}

/// Of bytes that came and went in order, the order is kept when some more come and go.
proof fn lemma_bytes_in_order(
    out: Seq<u8>,
    waiting: Seq<u8>,
    came: Seq<u8>,
    next_out: Seq<u8>,
    next_waiting: Seq<u8>,
    next_came: Seq<u8>,
)
    requires
        out + waiting == came,
        next_out + next_waiting == waiting + next_came,
    ensures
        (out + next_out) + next_waiting == came + next_came,
{
    assert((out + next_out) + next_waiting =~= out + (next_out + next_waiting));
    assert(out + (waiting + next_came) =~= (out + waiting) + next_came);
}

/// The bytes that an event hands out and those that then wait are those that waited and
/// those that it brings in.
#[verifier::spinoff_prover]
proof fn lemma_event_keeps_bytes(m: EmuModel, e: Event)
    ensures
        bytes_out(m, e) + after(m, e).rx_fifo == m.rx_fifo + bytes_in(e),
{
    match e {
        Event::UartRead { address } => {
            let (r, value) = m.uart_read(address);
            if address % UART_WINDOW == 0 && !m.dlab() && m.rx_fifo.len() > 0 {
                assert(seq![value as u8] + r.rx_fifo =~= m.rx_fifo);
            } else {
                assert(r.rx_fifo == m.rx_fifo);
            }
            assert(m.rx_fifo + Seq::<u8>::empty() =~= m.rx_fifo);
            assert(Seq::<u8>::empty() + m.rx_fifo =~= m.rx_fifo);
        },
        Event::Poll { address, nzcv, bytes } => {
            assert(after(m, e).rx_fifo == m.rx_fifo + bytes);
            assert(Seq::<u8>::empty() + (m.rx_fifo + bytes) =~= m.rx_fifo + bytes);
        },
        _ => {
            assert(after(m, e).rx_fifo == m.rx_fifo);
            assert(m.rx_fifo + Seq::<u8>::empty() =~= m.rx_fifo);
            assert(Seq::<u8>::empty() + m.rx_fifo =~= m.rx_fifo);
        },
    }
}

/// No byte of the serial line is lost, doubled or out of order, whatever else happens:
/// those handed to the program and those that wait are those that came.
#[verifier::spinoff_prover]
pub proof fn law_no_received_byte_is_lost(events: Seq<Event>)
    ensures
        all_bytes_out(events) + history(events).rx_fifo == all_bytes_in(events),
    decreases events.len(),
{
    if events.len() == 0 {
        assert(all_bytes_out(events) + history(events).rx_fifo =~= all_bytes_in(events));
    } else {
        let before = events.drop_last();
        let m = history(before);
        let e = events.last();
        law_no_received_byte_is_lost(before);
        lemma_event_keeps_bytes(m, e);
        lemma_bytes_in_order(
            all_bytes_out(before),
            m.rx_fifo,
            all_bytes_in(before),
            bytes_out(m, e),
            after(m, e).rx_fifo,
            bytes_in(e),
        );
    }
}

/// However the machine came to be in its state, what always holds does hold.
pub proof fn law_every_reachable_machine_is_sound(events: Seq<Event>)
    ensures
        always(history(events)),
    decreases events.len(),
{
    if events.len() > 0 {
        law_every_reachable_machine_is_sound(events.drop_last());
        law_events_keep_the_machine_sound(history(events.drop_last()), events.last());
    }
}

/// An interrupt that waits is taken at the next look at the lines, if interrupts are let
/// through: the serial port's before the timer's.
pub proof fn law_waiting_interrupt_is_taken(
    m: EmuModel,
    nzcv: u64,
    bytes: Seq<u8>,
    pc: u64,
)
    requires
        m.open_to_interrupts(),
        m.ticks() <= u64::MAX,
        m.vbar_el1 + IRQ_VECTOR <= u64::MAX,
        ({
            let r = m.received(bytes);
            (r.uart_line() is Some && (r.rx_requests() || r.tx_requests())) || r.timer_due()
        }),
    ensures
        ({
            let r = m.received(bytes);
            let (taken, went) = m.polled(Some(nzcv), bytes, pc);
            let line = if r.uart_line() is Some && (r.rx_requests() || r.tx_requests()) {
                r.uart_line()->0
            } else {
                r.timer_line()
            };
            &&& went == Ok::<Option<u64>, Fault>(Some((m.vbar_el1 + IRQ_VECTOR) as u64))
            &&& taken == r.interrupted(line, nzcv, pc)
        }),
{
}

/// A return from an exception undoes the taking of an interrupt: the core goes on where
/// it was interrupted, with the condition flags and the interrupt mask that it had.
/// Besides what the exception saved, only the interrupt's line is left behind.
pub proof fn law_return_undoes_interrupt(m: EmuModel, irq: i32, nzcv: u64, pc: u64)
    requires
        nzcv & !NZCV_MASK == 0,
        m.pstate_daif & !DAIF_ALL == 0,
    ensures
        ({
            let taken = m.interrupted(irq, nzcv, pc);
            let (back, step) = taken.returned();
            &&& step == (Step::Jump { effect: Effect::SetReg(Register::Nzcv, nzcv), pc })
            &&& back == (EmuModel {
                active_irq: irq,
                timer_pending: false,
                spsr_el1: taken.spsr_el1,
                elr_el1: pc,
                ..m
            })
        }),
{
    let d = m.pstate_daif;
    assert((nzcv | d | 0x05) & 0x3C0 == d && (nzcv | d | 0x05) & 0xF0000000 == nzcv)
        by (bit_vector)
        requires
            nzcv & !0xF0000000u64 == 0,
            d & !0x3C0u64 == 0,
    ;
}

/// A return from an exception undoes a supervisor call: the core goes on behind the
/// call, with the condition flags and the interrupt mask that it had.
pub proof fn law_return_undoes_supervisor_call(m: EmuModel, address: u64, nzcv: u64)
    requires
        nzcv & !NZCV_MASK == 0,
        m.pstate_daif & !DAIF_ALL == 0,
        m.supervisor_called(address, Some(nzcv)).1 is Jump,
    ensures
        ({
            let called = m.supervisor_called(address, Some(nzcv)).0;
            let (back, step) = called.returned();
            &&& step == (Step::Jump {
                effect: Effect::SetReg(Register::Nzcv, nzcv),
                pc: (address + INSN_SIZE) as u64,
            })
            &&& back.pstate_daif == m.pstate_daif
            &&& back == (EmuModel {
                timer_pending: false,
                esr_el1: called.esr_el1,
                spsr_el1: called.spsr_el1,
                elr_el1: called.elr_el1,
                ..m
            })
        }),
{
    let d = m.pstate_daif;
    assert((nzcv | d | 0) & 0x3C0 == d && (nzcv | d | 0) & 0xF0000000 == nzcv && d & 0x0F == 0)
        by (bit_vector)
        requires
            nzcv & !0xF0000000u64 == 0,
            d & !0x3C0u64 == 0,
    ;
}

/// While a supervisor call is handled, no interrupt is taken: the whole mask is set.
pub proof fn law_supervisor_call_masks_interrupts(m: EmuModel, address: u64, nzcv: Option<u64>)
    requires
        m.supervisor_called(address, nzcv).1 is Jump,
    ensures
        m.supervisor_called(address, nzcv).0.request() is None,
{
    let d = m.pstate_daif;
    assert((d | 0x3C0) & 0x80 != 0) by (bit_vector);
}

/// The line of a taken interrupt is handed out by the first acknowledgement, and only by
/// the first.
pub proof fn law_interrupt_is_acknowledged_once(m: EmuModel, irq: i32, nzcv: u64, pc: u64)
    requires
        is_irq_line(irq),
    ensures
        ({
            let (acknowledged, line) = m.interrupted(irq, nzcv, pc).gic_read(GIC_IAR);
            &&& line as int == irq as int
            &&& acknowledged.gic_read(GIC_IAR) == (acknowledged, SPURIOUS_IRQ)
        }),
{
}

/// Enabling interrupt lines never disables any, and changes nothing else.
pub proof fn law_enabling_only_adds_lines(m: EmuModel, address: u64, value: i64)
    requires
        in_gicd(address),
    ensures
        m.interrupts_enabled.subset_of(m.gic_written(address, value).interrupts_enabled),
        m.gic_written(address, value) == (EmuModel {
            interrupts_enabled: m.gic_written(address, value).interrupts_enabled,
            ..m
        }),
{
}

/// The system registers that keep what is written to them.
pub open spec fn is_kept(sys: SysReg) -> bool {
    match sys {
        SysReg::VbarEl1
        | SysReg::ElrEl1
        | SysReg::SpsrEl1
        | SysReg::SpEl0
        | SysReg::Fpcr
        | SysReg::Fpsr
        | SysReg::TpidrEl1
        | SysReg::TpidrEl0
        | SysReg::TpidrroEl0
        | SysReg::CntvCval
        | SysReg::CntpCval
        | SysReg::CntvCtl
        | SysReg::CntpCtl
        | SysReg::Daif
        | SysReg::CpacrEl1
        | SysReg::SctlrEl1
        | SysReg::TcrEl1 => true,
        _ => false,
    }
}

/// The timer's down-counting view.
pub open spec fn is_timer_value(sys: SysReg) -> bool {
    sys == SysReg::CntvTval || sys == SysReg::CntpTval
}

/// A system register that keeps its value reads back what was written to it. One that
/// does not, the timer's down-counter aside, is not changed by a write, nor is anything
/// else.
pub proof fn law_system_register_reads_back(m: EmuModel, sys: SysReg, val: u64)
    ensures
        is_kept(sys) ==> (m.with_sysreg(sys, val) matches Some(w) && w.sysreg(sys) == val),
        !is_kept(sys) && !is_timer_value(sys) ==> m.with_sysreg(sys, val) == Some(m),
{
}

/// The two names of each timer register are one register.
pub proof fn law_timers_are_one(m: EmuModel, val: u64)
    ensures
        m.sysreg(SysReg::CntvCval) == m.sysreg(SysReg::CntpCval),
        m.sysreg(SysReg::CntvTval) == m.sysreg(SysReg::CntpTval),
        m.sysreg(SysReg::CntvCtl) == m.sysreg(SysReg::CntpCtl),
        m.sysreg(SysReg::Cntvct) == m.sysreg(SysReg::Cntpct),
        m.with_sysreg(SysReg::CntvCval, val) == m.with_sysreg(SysReg::CntpCval, val),
        m.with_sysreg(SysReg::CntvTval, val) == m.with_sysreg(SysReg::CntpTval, val),
        m.with_sysreg(SysReg::CntvCtl, val) == m.with_sysreg(SysReg::CntpCtl, val),
{
}

/// The timer's down-counter, set to a number that is not negative as a signed word,
/// reads back that number, and it falls by one with each tick until it stays at zero;
/// with the timer on and not masked, the timer is due exactly when it reads zero.
pub proof fn law_timer_counts_down(m: EmuModel, val: u64, later: u64)
    requires
        val < 0x8000_0000,
        m.ticks() + val <= u64::MAX,
        m.insn_count <= later,
        later * TIME_WARP_MULTIPLIER <= u64::MAX,
    ensures
        m.with_sysreg(SysReg::CntvTval, val) matches Some(w) && ({
            let l = EmuModel { insn_count: later, ..w };
            &&& w.sysreg(SysReg::CntvTval) == val
            &&& l.sysreg(SysReg::CntvTval) as int == if val >= l.ticks() - m.ticks() {
                val - (l.ticks() - m.ticks())
            } else {
                0
            }
            &&& l.cntv_ctl & 1 != 0 && l.cntv_ctl & 2 == 0 ==> (l.timer_due() <==> l.sysreg(
                SysReg::CntvTval,
            ) == 0)
        }),
{
    assert((val as i32) as u64 == val) by (bit_vector)
        requires
            val < 0x8000_0000,
    ;
    assert(sign_extended(val) == val);
}

/// Clearing mask bits undoes setting them where they were clear, and setting them undoes
/// clearing them where they were set.
pub proof fn law_mask_bits_are_set_and_cleared(m: EmuModel, imm: u64, address: u64)
    requires
        address + INSN_SIZE <= u64::MAX,
    ensures
        m.pstate_daif & (imm << 6) == 0 ==> m.acted(Action::DaifSet(imm), address).0.acted(
            Action::DaifClr(imm),
            address,
        ).0 == m,
        m.pstate_daif & (imm << 6) == (imm << 6) ==> m.acted(
            Action::DaifClr(imm),
            address,
        ).0.acted(Action::DaifSet(imm), address).0 == m,
{
    let d = m.pstate_daif;
    let b = imm << 6;
    assert(d & b == 0 ==> (d | b) & !b == d) by (bit_vector);
    assert(d & b == b ==> (d & !b) | b == d) by (bit_vector);
}

/// A system instruction is decoded once: from then on it is known, and at every address
/// it does what it was first decoded to.
pub proof fn law_system_instruction_is_decoded_once(
    m: EmuModel,
    address: u64,
    code: Seq<u8>,
    action: Action,
    later: u64,
)
    requires
        m.must_decode(code),
    ensures
        ({
            let known = m.decoded(address, insn_word(code), Some(action)).0;
            &&& !known.must_decode(code)
            &&& known.fetched(later, code) == known.acted(action, later)
        }),
{
}

/// An instruction that is left to the core changes nothing.
pub proof fn law_plain_instructions_change_nothing(m: EmuModel, address: u64, code: Seq<u8>)
    requires
        insn_kind(code) == InsnKind::Plain,
    ensures
        m.fetched(address, code) == (m, Step::Continue),
{
}

/// The devices' windows do not meet, and the lights lie in none of them.
pub proof fn law_device_windows_are_apart(address: u64)
    ensures
        !(in_uart(address) && in_gicd(address)),
        !(in_uart(address) && in_gicc(address)),
        !(in_gicd(address) && in_gicc(address)),
        !is_modelled(LED_BASE),
{
}

/// The machine after `n` reads of an unmodelled register.
pub open spec fn after_reads(m: EmuModel, address: u64, n: nat) -> EmuModel
    decreases n,
{
    if n == 0 {
        m
    } else {
        after_reads(m, address, (n - 1) as nat).mmio_read(address).0
    }
}

/// `n` reads count as `n` and change nothing else.
proof fn lemma_reads_are_counted(m: EmuModel, address: u64, n: nat)
    requires
        !is_modelled(address),
        m.mmio_count(address) + n <= u32::MAX,
    ensures
        after_reads(m, address, n).mmio_count(address) == m.mmio_count(address) + n,
        after_reads(m, address, n).mmio_word(address) == m.mmio_word(address),
    decreases n,
{
    if n > 0 {
        lemma_reads_are_counted(m, address, (n - 1) as nat);
    }
}

/// The word written to an unmodelled register is read back by the first fifty reads
/// after the write; the next fifty read ones, and all later ones zeros.
pub proof fn law_unmodelled_register_reads_back(m: EmuModel, address: u64, value: i64, n: nat)
    requires
        !is_modelled(address),
        1 <= n <= u32::MAX,
    ensures
        after_reads(m.mmio_written(address, value), address, (n - 1) as nat).mmio_read(address).1
            == Ok::<Option<u64>, Fault>(
            Some(
                if n <= STABLE_READS {
                    (value as u32) as u64
                } else if n <= ONES_READS {
                    0xFFFF_FFFF
                } else {
                    0
                },
            ),
        ),
{
    lemma_reads_are_counted(m.mmio_written(address, value), address, (n - 1) as nat);
}

/// Reads and writes of one unmodelled register do not touch another.
pub proof fn law_unmodelled_registers_are_apart(
    m: EmuModel,
    address: u64,
    value: i64,
    other: u64,
)
    requires
        address != other,
    ensures
        m.mmio_written(address, value).mmio_read(other).1 == m.mmio_read(other).1,
        m.mmio_read(address).0.mmio_read(other).1 == m.mmio_read(other).1,
{
}

/// The serial port's divisor latch, interrupt enable and line control registers read
/// back the low byte that was written.
pub proof fn law_serial_register_reads_back(m: EmuModel, address: u64, value: i64)
    requires
        ({
            let offset = address % UART_WINDOW;
            offset == 0x04 || offset == 0x0C || (offset == 0x00 && m.dlab())
        }),
    ensures
        ({
            let w = m.uart_written(address, value).0;
            w.uart_read(address) == (w, low_byte(value) as u64)
        }),
{
}

/// The machine and the values after `n` reads of the serial port at the address.
pub open spec fn serial_reads(m: EmuModel, address: u64, n: nat) -> (EmuModel, Seq<u64>)
    decreases n,
{
    if n == 0 {
        (m, Seq::empty())
    } else {
        let (before, values) = serial_reads(m, address, (n - 1) as nat);
        let (now, value) = before.uart_read(address);
        (now, values.push(value))
    }
}

/// Received bytes are read in the order in which they came, each once, and nothing else
/// of the machine changes.
pub proof fn law_received_bytes_are_read_in_order(m: EmuModel, address: u64, n: nat)
    requires
        address % UART_WINDOW == 0,
        !m.dlab(),
        n <= m.rx_fifo.len(),
    ensures
        serial_reads(m, address, n).0 == (EmuModel { rx_fifo: m.rx_fifo.skip(n as int), ..m }),
        serial_reads(m, address, n).1 == Seq::new(n, |i: int| m.rx_fifo[i] as u64),
    decreases n,
{
    if n > 0 {
        law_received_bytes_are_read_in_order(m, address, (n - 1) as nat);
        let (before, values) = serial_reads(m, address, (n - 1) as nat);
        assert(before.rx_fifo.skip(1) =~= m.rx_fifo.skip(n as int));
        assert(values.push(before.rx_fifo[0] as u64) =~= Seq::new(
            n,
            |i: int| m.rx_fifo[i] as u64,
        ));
    } else {
        assert(m.rx_fifo.skip(0) =~= m.rx_fifo);
    }
}

/// The line status says that a byte waits exactly when one does, and it always says that
/// the transmitter is free.
pub proof fn law_line_status_tells_of_received_bytes(m: EmuModel, address: u64)
    requires
        address % UART_WINDOW == 0x14,
    ensures
        m.uart_read(address).0 == m,
        m.uart_read(address).1 & 0x01 != 0 <==> m.rx_fifo.len() > 0,
        m.uart_read(address).1 & 0x60 == 0x60,
{
    assert(0x61u64 & 0x01 != 0 && 0x61u64 & 0x60 == 0x60) by (bit_vector);
    assert(0x60u64 & 0x01 == 0 && 0x60u64 & 0x60 == 0x60) by (bit_vector);
}

/// A transmit interrupt is identified once: reading its cause clears it.
pub proof fn law_transmit_interrupt_is_identified_once(m: EmuModel, address: u64)
    requires
        address % UART_WINDOW == 0x08,
        m.tx_irq_pending,
        !m.rx_requests(),
    ensures
        m.uart_read(address).1 == 0x02,
        !m.uart_read(address).0.tx_requests(),
        m.uart_read(address).0.uart_read(address).1 == 0x01,
{
}

/// The number that eight bytes write, the lowest first.
pub open spec fn le_value(b: Seq<u8>) -> u64 {
    (b[0] as u64) | (b[1] as u64) << 8 | (b[2] as u64) << 16 | (b[3] as u64) << 24 | (b[4] as u64)
        << 32 | (b[5] as u64) << 40 | (b[6] as u64) << 48 | (b[7] as u64) << 56
}

/// A device's answer of eight bytes is the value that it answers with.
pub proof fn law_answer_bytes_hold_the_value(value: u64)
    ensures
        le_value(le_bytes(value)) == value,
{
    let v = value;
    assert(v == (((v >> 0u64) as u8) as u64) | (((v >> 8u64) as u8) as u64) << 8 | (((v >> 16u64)
        as u8) as u64) << 16 | (((v >> 24u64) as u8) as u64) << 24 | (((v >> 32u64) as u8) as u64)
        << 32 | (((v >> 40u64) as u8) as u64) << 40 | (((v >> 48u64) as u8) as u64) << 48 | (((v
        >> 56u64) as u8) as u64) << 56) by (bit_vector);
}

/// The start-up code carries the entry point in the word behind its instructions.
pub proof fn law_bootstrap_carries_the_entry_point(entry: u64)
    ensures
        bootstrap_code(entry).len() == 24,
        le_value(bootstrap_code(entry).subrange(16, 24)) == entry,
{
    law_answer_bytes_hold_the_value(entry);
    assert(bootstrap_code(entry).subrange(16, 24) =~= le_bytes(entry));
}

/// How many more answers a step may lead to.
pub open spec fn answers_left(s: Step) -> nat {
    match s {
        Step::Continue | Step::Jump { .. } | Step::Fault(_) => 0,
        Step::AskLink
        | Step::AskSupervisorCall { .. }
        | Step::AskMonitorCall { .. }
        | Step::AskOperand { .. } => 1,
        Step::AskCode { .. } => 2,
        Step::AskInterrupts { .. } => 3,
    }
}

/// A step that goes on with an instruction goes on with the one at the address.
pub open spec fn keeps_address(s: Step, address: u64) -> bool {
    match s {
        Step::AskInterrupts { address: a } => a == address,
        Step::AskCode { address: a } => a == address,
        Step::AskSupervisorCall { address: a } => a == address,
        Step::AskMonitorCall { address: a } => a == address,
        Step::AskOperand { address: a, .. } => a == address,
        _ => true,
    }
}

/// The handling of an instruction comes to an end: each answer leads to a step with
/// fewer answers left, and all steps are about the same instruction.
pub proof fn law_steps_come_to_an_end(
    m: EmuModel,
    address: u64,
    nzcv: Option<u64>,
    bytes: Seq<u8>,
    code: Seq<u8>,
    word: u32,
    action: Option<Action>,
    operation: Operation,
    val: u64,
)
    ensures
        answers_left(m.begun(address).1) <= 3,
        answers_left(m.polled_at(address, nzcv, bytes).1) < answers_left(
            Step::AskInterrupts { address },
        ),
        answers_left(m.fetched(address, code).1) < answers_left(Step::AskCode { address }),
        answers_left(m.decoded(address, word, action).1) < answers_left(Step::AskCode { address }),
        answers_left(m.supervisor_called(address, nzcv).1) == 0,
        answers_left(monitor_called(address, nzcv)) == 0,
        answers_left(m.given_operand(address, operation, val).1) == 0,
        keeps_address(m.begun(address).1, address),
        keeps_address(m.polled_at(address, nzcv, bytes).1, address),
        keeps_address(m.fetched(address, code).1, address),
        keeps_address(m.decoded(address, word, action).1, address),
{
}

/// Two copies of the screen are more than a fixed number of instructions apart.
pub proof fn law_screen_copies_are_apart(l: RunLoop, pc: u64, insn_count: u64)
    ensures
        ({
            let (next, r) = slice_ended(l, pc, insn_count);
            if r == Ok::<AfterSlice, Fault>(AfterSlice::SyncScreen) {
                &&& next.last_screen_sync == insn_count
                &&& insn_count > l.last_screen_sync + SCREEN_SYNC_INSNS
            } else {
                next.last_screen_sync == l.last_screen_sync
            }
        }),
{
}

} // verus!
