//! What the handling of instructions and interrupts promises to the program that runs.

use crate::cpu::{
    insn_kind, insn_word, monitor_called, past, sign_extended, Effect, InsnKind, Operation, Step,
};
use crate::decode::Action;
use crate::interrupt::Fault;
use crate::register::Register;
use crate::state::{EmuModel, EmuState};
use crate::sysreg::SysReg;
use vstd::prelude::*;

verus! {

/// The model shows each part of the state as it is.
pub proof fn law_model_shows_the_state(s: EmuState)
    ensures
        s@.insn_count == s.insn_count,
        s@.vbar_el1 == s.vbar_el1,
        s@.elr_el1 == s.elr_el1,
        s@.spsr_el1 == s.spsr_el1,
        s@.pstate_daif == s.pstate_daif,
        s@.esr_el1 == s.esr_el1,
        s@.far_el1 == s.far_el1,
        s@.tpidr_el1 == s.tpidr_el1,
        s@.tpidr_el0 == s.tpidr_el0,
        s@.tpidrro_el0 == s.tpidrro_el0,
        s@.cntv_cval == s.cntv_cval,
        s@.cntv_ctl == s.cntv_ctl,
        s@.cpacr_el1 == s.cpacr_el1,
        s@.sctlr_el1 == s.sctlr_el1,
        s@.tcr_el1 == s.tcr_el1,
        s@.sp_el0 == s.sp_el0,
        s@.fpcr == s.fpcr,
        s@.fpsr == s.fpsr,
        s@.uart_lcr == s.uart_lcr,
        s@.uart_dll == s.uart_dll,
        s@.uart_dlh == s.uart_dlh,
        s@.uart_ier == s.uart_ier,
        s@.tx_irq_pending == s.tx_irq_pending,
        s@.gic_enabled == s.gic_enabled,
        s@.active_irq == s.active_irq,
        s@.timer_pending == s.timer_pending,
        s@.rx_fifo == s.rx_fifo@,
        s@.interrupts_enabled == s.interrupts_enabled@,
        s@.skip_functions == s.skip_functions@,
        s@.mmio_state == s.mmio_state@,
        s@.mmio_reads == s.mmio_reads@,
        s@.insn_cache == s.insn_cache@,
{
}

/// The machine is switched on with interrupts masked, no handlers, the timer off and its
/// compare value at the end of time, nothing received, nothing enabled and nothing kept.
pub proof fn law_machine_starts_at_rest()
    ensures
        ({
            let m = EmuModel::reset();
            &&& m.insn_count == 0 && m.pstate_daif == 0x3C0 && m.spsr_el1 == 0x05
            &&& m.vbar_el1 == 0 && m.elr_el1 == 0 && m.esr_el1 == 0 && m.far_el1 == 0
            &&& m.tpidr_el1 == 0 && m.tpidr_el0 == 0 && m.tpidrro_el0 == 0
            &&& m.cntv_cval == 0xFFFF_FFFF_FFFF_FFFF && m.cntv_ctl == 0
            &&& m.cpacr_el1 == 0x300000 && m.sctlr_el1 == 0 && m.tcr_el1 == 0
            &&& m.sp_el0 == 0 && m.fpcr == 0 && m.fpsr == 0
            &&& m.uart_lcr == 0x03 && m.uart_dll == 0x0D && m.uart_dlh == 0 && m.uart_ier == 0
            &&& !m.tx_irq_pending && m.rx_fifo.len() == 0
            &&& m.gic_enabled && !m.timer_pending && m.active_irq == -1
            &&& forall|a: u32| !m.interrupts_enabled.contains(a)
            &&& forall|a: u64| !m.skip_functions.contains(a)
            &&& forall|a: u64| !m.mmio_state.contains_key(a) && !m.mmio_reads.contains_key(a)
            &&& forall|w: u32| !m.insn_cache.contains_key(w)
        }),
{
}

/// The timer ticks twenty times with each instruction, and with nothing else.
pub proof fn law_timer_ticks_with_the_instructions(m: EmuModel)
    ensures
        m.ticks() == 20 * m.insn_count,
{
}

/// An instruction counts as one and changes nothing else. The interrupt lines are looked
/// at before it exactly where the new count is a multiple of five thousand; else its own
/// bytes come next.
pub proof fn law_instruction_is_counted(m: EmuModel, address: u64)
    requires
        !m.skip_functions.contains(address),
        m.insn_count < u64::MAX,
    ensures
        m.begun(address).0 == (EmuModel { insn_count: (m.insn_count + 1) as u64, ..m }),
        m.begun(address).1 == (if (m.insn_count + 1) % 5000 == 0 {
            Step::AskInterrupts { address }
        } else {
            Step::AskCode { address }
        }),
{
}

/// Of any five thousand instructions in a row, one has the interrupt lines looked at
/// before it.
pub proof fn law_lines_are_looked_at_in_time(m: EmuModel, address: u64)
    requires
        !m.skip_functions.contains(address),
        m.insn_count <= u64::MAX - 5000,
    ensures
        exists|k: u64|
            k < 5000 && (#[trigger] EmuModel {
                insn_count: (m.insn_count + k) as u64,
                ..m
            }.begun(address)).1 == (Step::AskInterrupts { address }),
{
    let k: u64 = (4999 - m.insn_count % 5000) as u64;
    let l = EmuModel { insn_count: (m.insn_count + k) as u64, ..m };
    assert((l.insn_count + 1) % 5000 == 0);
    assert(l.begun(address).1 == (Step::AskInterrupts { address }));
}

/// A function that only waits is skipped at the cost of fifty thousand instructions
/// besides its own first one; the link register says where to.
pub proof fn law_delay_function_is_skipped(m: EmuModel, address: u64)
    requires
        m.skip_functions.contains(address),
        m.insn_count + 50_001 <= u64::MAX,
    ensures
        m.begun(address) == (
            EmuModel { insn_count: (m.insn_count + 50_001) as u64, ..m },
            Step::AskLink,
        ),
{
}

/// An instruction that can no longer be counted is a fault, and changes nothing.
pub proof fn law_full_counter_is_a_fault(m: EmuModel, address: u64)
    requires
        m.insn_count + (if m.skip_functions.contains(address) {
            50_001int
        } else {
            1
        }) > u64::MAX,
    ensures
        m.begun(address) == (m, Step::Fault(Fault::Overflow)),
{
}

/// The four bytes are a hint to wait or to do nothing, or the word that is passed over
/// like them.
pub open spec fn hint_bytes(c: Seq<u8>) -> bool {
    ||| (c[0] == 0x1f || c[0] == 0x5f || c[0] == 0x7f) && c[1] == 0x20 && c[2] == 0x03 && c[3]
        == 0xd5
    ||| c[0] == 0xdf && c[1] == 0x03 && c[2] == 0x20 && c[3] == 0x7f
}

/// The four bytes are a return from an exception.
pub open spec fn eret_bytes(c: Seq<u8>) -> bool {
    c[0] == 0xe0 && c[1] == 0x03 && c[2] == 0x9f && c[3] == 0xd6
}

/// The four bytes are a call, with any number of sixteen bits in it, of the level `level`:
/// one is the supervisor, three the firmware.
pub open spec fn call_bytes(c: Seq<u8>, level: u8) -> bool {
    c[3] == 0xd4 && c[2] < 0x20 && c[0] % 32 == level
}

/// Instructions are told apart by their bytes: hints, returns, calls of the supervisor
/// and of the firmware with whatever number, and the other system instructions. All else
/// is left to the core.
pub proof fn law_instructions_are_told_apart(c: Seq<u8>)
    requires
        c.len() == 4,
    ensures
        insn_kind(c) == InsnKind::Idle <==> hint_bytes(c),
        insn_kind(c) == InsnKind::Return <==> eret_bytes(c),
        insn_kind(c) == InsnKind::SupervisorCall <==> call_bytes(c, 1),
        insn_kind(c) == InsnKind::MonitorCall <==> call_bytes(c, 3),
        insn_kind(c) == InsnKind::System <==> c[3] == 0xd5 && !hint_bytes(c),
{
    let (b0, b1, b2, b3) = (c[0], c[1], c[2], c[3]);
    let w: u32 = insn_word(c);
    assert(w == b0 as u32 + b1 as u32 * 0x100 + b2 as u32 * 0x1_0000 + b3 as u32 * 0x100_0000);
    assert(w & 0xFFE0001F == 0xD4000001 <==> (b3 == 0xd4 && b2 < 0x20 && b0 % 32 == 1))
        by (bit_vector)
        requires
            w == b0 as u32 + b1 as u32 * 0x100 + b2 as u32 * 0x1_0000 + b3 as u32 * 0x100_0000,
    ;
    assert(w & 0xFFE0001F == 0xD4000003 <==> (b3 == 0xd4 && b2 < 0x20 && b0 % 32 == 3))
        by (bit_vector)
        requires
            w == b0 as u32 + b1 as u32 * 0x100 + b2 as u32 * 0x1_0000 + b3 as u32 * 0x100_0000,
    ;
}

/// Two instructions with the same word have the same bytes, so what is remembered of one
/// is never taken for another.
pub proof fn law_words_are_told_apart(a: Seq<u8>, b: Seq<u8>)
    requires
        a.len() == 4,
        b.len() == 4,
        insn_word(a) == insn_word(b),
    ensures
        a == b,
{
    assert(a =~= b);
}

/// The word of an instruction is its number, the first byte counting least.
pub proof fn law_word_is_the_number_of_the_bytes(c: Seq<u8>)
    requires
        c.len() == 4,
    ensures
        insn_word(c) % 0x100 == c[0],
        insn_word(c) / 0x100 % 0x100 == c[1],
        insn_word(c) / 0x1_0000 % 0x100 == c[2],
        insn_word(c) / 0x100_0000 == c[3],
{
}

/// A hint is passed over: the core goes on behind it, fifty thousand instructions later.
pub proof fn law_hint_is_passed_over(m: EmuModel, address: u64, c: Seq<u8>)
    requires
        c.len() == 4,
        hint_bytes(c),
    ensures
        !m.must_decode(c),
        m.fetched(address, c) == (if m.insn_count + 50_000 > u64::MAX || address + 4 > u64::MAX {
            (m, Step::Fault(Fault::Overflow))
        } else {
            (
                EmuModel { insn_count: (m.insn_count + 50_000) as u64, ..m },
                Step::Jump { effect: Effect::Nothing, pc: (address + 4) as u64 },
            )
        }),
{
    law_instructions_are_told_apart(c);
}

/// A return from an exception goes to the saved address, with the condition flags and
/// the interrupt mask that were saved; an interrupt that was not acknowledged is dropped.
pub proof fn law_return_goes_back(m: EmuModel, address: u64, c: Seq<u8>)
    requires
        c.len() == 4,
        eret_bytes(c),
    ensures
        !m.must_decode(c),
        m.fetched(address, c) == m.returned(),
        m.returned().0 == (EmuModel {
            timer_pending: false,
            pstate_daif: m.spsr_el1 & 0x3C0,
            ..m
        }),
        m.returned().1 == (Step::Jump {
            effect: Effect::SetReg(Register::Nzcv, m.spsr_el1 & 0xF000_0000),
            pc: m.elr_el1,
        }),
{
    law_instructions_are_told_apart(c);
}

/// Calls change nothing before the register that they need is there.
pub proof fn law_calls_ask_first(m: EmuModel, address: u64, c: Seq<u8>)
    requires
        c.len() == 4,
    ensures
        call_bytes(c, 1) ==> !m.must_decode(c) && m.fetched(address, c) == (
            m,
            Step::AskSupervisorCall { address },
        ),
        call_bytes(c, 3) ==> !m.must_decode(c) && m.fetched(address, c) == (
            m,
            Step::AskMonitorCall { address },
        ),
{
    law_instructions_are_told_apart(c);
}

/// What no rule speaks of is left to the core, and nothing changes.
pub proof fn law_other_instructions_are_the_cores(m: EmuModel, address: u64, c: Seq<u8>)
    requires
        c.len() == 4,
        c[3] != 0xd5,
        !hint_bytes(c),
        !eret_bytes(c),
        !call_bytes(c, 1),
        !call_bytes(c, 3),
    ensures
        !m.must_decode(c),
        m.fetched(address, c) == (m, Step::Continue),
{
    law_instructions_are_told_apart(c);
}

/// A system instruction is decoded exactly where its word is not known yet. What it asks
/// for is then known and done; where it is known, that is done, and nothing is learnt.
pub proof fn law_system_instruction_is_looked_up(
    m: EmuModel,
    address: u64,
    c: Seq<u8>,
    action: Action,
)
    requires
        c.len() == 4,
        c[3] == 0xd5,
        !hint_bytes(c),
    ensures
        m.must_decode(c) <==> !m.insn_cache.contains_key(insn_word(c)),
        !m.must_decode(c) ==> m.fetched(address, c) == m.acted(
            m.insn_cache[insn_word(c)],
            address,
        ),
        m.decoded(address, insn_word(c), Some(action)) == (EmuModel {
            insn_cache: m.insn_cache.insert(insn_word(c), action),
            ..m
        }).acted(action, address),
        m.decoded(address, insn_word(c), None) == (m, Step::Fault(Fault::NoDisassembler)),
{
    law_instructions_are_told_apart(c);
}

/// After every supervisor call, with a handler or without, the syndrome register tells
/// of a supervisor call.
pub proof fn law_supervisor_call_sets_the_syndrome(m: EmuModel, address: u64, nzcv: Option<u64>)
    ensures
        m.supervisor_called(address, nzcv).0.esr_el1 == 0x5600_0000,
        m.supervisor_called(address, nzcv).0.sysreg(SysReg::EsrEl1) == 0x5600_0000,
{
}

/// A supervisor call goes to the handler, which finds the flags and the mask that were,
/// the address behind the call, and all interrupts masked. The handler is the one for
/// lower levels, unless low bits of the mask are set: then it is that of the same level,
/// and the saved state says so.
pub proof fn law_supervisor_call_reaches_the_handler(m: EmuModel, address: u64, nzcv: u64)
    requires
        m.vbar_el1 != 0,
        address + 4 <= u64::MAX,
        m.vbar_el1 + 0x400 <= u64::MAX,
    ensures
        m.pstate_daif & 0x0F == 0 ==> m.supervisor_called(address, Some(nzcv)) == (
            EmuModel {
                esr_el1: 0x5600_0000,
                spsr_el1: nzcv | m.pstate_daif,
                pstate_daif: m.pstate_daif | 0x3C0,
                elr_el1: (address + 4) as u64,
                ..m
            },
            Step::Jump { effect: Effect::Nothing, pc: (m.vbar_el1 + 0x400) as u64 },
        ),
        m.pstate_daif & 0x0F != 0 ==> m.supervisor_called(address, Some(nzcv)) == (
            EmuModel {
                esr_el1: 0x5600_0000,
                spsr_el1: nzcv | m.pstate_daif | 0x05,
                pstate_daif: m.pstate_daif | 0x3C0,
                elr_el1: (address + 4) as u64,
                ..m
            },
            Step::Jump { effect: Effect::Nothing, pc: (m.vbar_el1 + 0x200) as u64 },
        ),
        m.supervisor_called(address, None) == m.supervisor_called(address, Some(0)),
{
    let d = m.pstate_daif;
    assert((nzcv | d) | 0 == nzcv | d) by (bit_vector);
}

/// A supervisor call without a handler, or with addresses that do not fit, leaves behind
/// nothing but the syndrome. Without a handler the core carries on with the instruction.
pub proof fn law_supervisor_call_without_a_handler(m: EmuModel, address: u64, nzcv: Option<u64>)
    ensures
        m.vbar_el1 == 0 ==> m.supervisor_called(address, nzcv) == (
            EmuModel { esr_el1: 0x5600_0000, ..m },
            Step::Continue,
        ),
        m.vbar_el1 != 0 && (address + 4 > u64::MAX || m.vbar_el1 + (if m.pstate_daif & 0x0F != 0 {
            0x200int
        } else {
            0x400
        }) > u64::MAX) ==> m.supervisor_called(address, nzcv) == (
            EmuModel { esr_el1: 0x5600_0000, ..m },
            Step::Fault(Fault::Overflow),
        ),
        m.supervisor_called(address, nzcv).1 is Jump ==> m.vbar_el1 != 0 && address + 4 <= u64::MAX,
{
}

/// The firmware tells its version, two, and answers minus one to everything else; the
/// core goes on behind the call.
pub proof fn law_firmware_answers(address: u64, x0: Option<u64>)
    ensures
        address + 4 > u64::MAX ==> monitor_called(address, x0) == Step::Fault(Fault::Overflow),
        address + 4 <= u64::MAX ==> monitor_called(address, x0) == (Step::Jump {
            effect: Effect::SetReg(
                Register::X0,
                if x0 == Some(0x8400_0000u64) {
                    2
                } else {
                    0xFFFF_FFFF_FFFF_FFFF
                },
            ),
            pc: (address + 4) as u64,
        }),
{
}

/// Setting and clearing mask bits moves the four bits of the instruction to the places
/// of the mask, six bits up, and touches no other bit of it and nothing else.
pub proof fn law_mask_instructions_set_and_clear(m: EmuModel, imm: u64, address: u64)
    ensures
        address + 4 <= u64::MAX ==> {
            let step = Step::Jump { effect: Effect::Nothing, pc: (address + 4) as u64 };
            &&& m.acted(Action::DaifSet(imm), address) == (
                EmuModel { pstate_daif: m.pstate_daif | (imm << 6), ..m },
                step,
            )
            &&& m.acted(Action::DaifClr(imm), address) == (
                EmuModel { pstate_daif: m.pstate_daif & !(imm << 6), ..m },
                step,
            )
        },
        address + 4 > u64::MAX ==> {
            &&& m.acted(Action::DaifSet(imm), address) == (m, Step::Fault(Fault::Overflow))
            &&& m.acted(Action::DaifClr(imm), address) == (m, Step::Fault(Fault::Overflow))
        },
{
}

/// A system instruction that asks for nothing is left to the core. One that needs a
/// register asks for that register, and says what for; nothing changes before.
pub proof fn law_operands_are_asked_for(
    m: EmuModel,
    register: Register,
    sys: SysReg,
    address: u64,
)
    ensures
        m.acted(Action::Ignore, address) == (m, Step::Continue),
        m.acted(Action::DcZva(register), address) == (
            m,
            Step::AskOperand { address, register, operation: Operation::ZeroBlock },
        ),
        m.acted(Action::Msr(register, sys), address) == (
            m,
            Step::AskOperand { address, register, operation: Operation::Msr(sys) },
        ),
{
}

/// Reading a system register changes nothing but the general register, which gets the
/// system register's value; the core goes on behind the instruction.
pub proof fn law_system_register_is_handed_over(
    m: EmuModel,
    register: Register,
    sys: SysReg,
    address: u64,
)
    ensures
        m.acted(Action::Mrs(register, sys), address) == (
            m,
            if 20 * m.insn_count > u64::MAX || address + 4 > u64::MAX {
                Step::Fault(Fault::Overflow)
            } else {
                Step::Jump {
                    effect: Effect::SetReg(register, m.sysreg(sys)),
                    pc: (address + 4) as u64,
                }
            },
        ),
{
}

/// Each system register reads as what the machine holds of it; the timer's views read
/// as its count and as the distance to the compare value, and the rest are fixed.
pub proof fn law_system_registers_read(m: EmuModel)
    ensures
        m.sysreg(SysReg::VbarEl1) == m.vbar_el1,
        m.sysreg(SysReg::ElrEl1) == m.elr_el1,
        m.sysreg(SysReg::SpsrEl1) == m.spsr_el1,
        m.sysreg(SysReg::SpEl0) == m.sp_el0,
        m.sysreg(SysReg::Fpcr) == m.fpcr,
        m.sysreg(SysReg::Fpsr) == m.fpsr,
        m.sysreg(SysReg::Daif) == m.pstate_daif,
        m.sysreg(SysReg::TpidrEl1) == m.tpidr_el1,
        m.sysreg(SysReg::TpidrEl0) == m.tpidr_el0,
        m.sysreg(SysReg::TpidrroEl0) == m.tpidrro_el0,
        m.sysreg(SysReg::CpacrEl1) == m.cpacr_el1,
        m.sysreg(SysReg::SctlrEl1) == m.sctlr_el1,
        m.sysreg(SysReg::TcrEl1) == m.tcr_el1,
        m.sysreg(SysReg::EsrEl1) == m.esr_el1,
        m.sysreg(SysReg::FarEl1) == m.far_el1,
        m.sysreg(SysReg::CntvCtl) == m.cntv_ctl && m.sysreg(SysReg::CntpCtl) == m.cntv_ctl,
        m.sysreg(SysReg::CntvCval) == m.cntv_cval && m.sysreg(SysReg::CntpCval) == m.cntv_cval,
        20 * m.insn_count <= u64::MAX ==> {
            &&& m.sysreg(SysReg::Cntvct) == 20 * m.insn_count
            &&& m.sysreg(SysReg::Cntpct) == 20 * m.insn_count
        },
        m.cntv_cval >= 20 * m.insn_count ==> {
            &&& m.sysreg(SysReg::CntvTval) + 20 * m.insn_count == m.cntv_cval
            &&& m.sysreg(SysReg::CntpTval) + 20 * m.insn_count == m.cntv_cval
        },
        m.cntv_cval < 20 * m.insn_count ==> m.sysreg(SysReg::CntvTval) == 0 && m.sysreg(
            SysReg::CntpTval,
        ) == 0,
        m.sysreg(SysReg::CurrentEl) == 4,
        m.sysreg(SysReg::Cntfrq) == 24_000_000,
        m.sysreg(SysReg::DczidEl0) == 4,
        m.sysreg(SysReg::Midr) == 0x410F_C080,
        m.sysreg(SysReg::Unknown) == 0,
{
}

/// A general register moved to a system register is what the machine holds of it from
/// then on, and nothing else changes; the core goes on behind the instruction.
pub proof fn law_system_registers_are_written(m: EmuModel, val: u64, address: u64)
    requires
        20 * m.insn_count <= u64::MAX,
        address + 4 <= u64::MAX,
    ensures
        ({
            let step = Step::Jump { effect: Effect::Nothing, pc: (address + 4) as u64 };
            let w = |sys: SysReg| m.given_operand(address, Operation::Msr(sys), val);
            &&& w(SysReg::VbarEl1) == (EmuModel { vbar_el1: val, ..m }, step)
            &&& w(SysReg::ElrEl1) == (EmuModel { elr_el1: val, ..m }, step)
            &&& w(SysReg::SpsrEl1) == (EmuModel { spsr_el1: val, ..m }, step)
            &&& w(SysReg::SpEl0) == (EmuModel { sp_el0: val, ..m }, step)
            &&& w(SysReg::Fpcr) == (EmuModel { fpcr: val, ..m }, step)
            &&& w(SysReg::Fpsr) == (EmuModel { fpsr: val, ..m }, step)
            &&& w(SysReg::Daif) == (EmuModel { pstate_daif: val, ..m }, step)
            &&& w(SysReg::TpidrEl1) == (EmuModel { tpidr_el1: val, ..m }, step)
            &&& w(SysReg::TpidrEl0) == (EmuModel { tpidr_el0: val, ..m }, step)
            &&& w(SysReg::TpidrroEl0) == (EmuModel { tpidrro_el0: val, ..m }, step)
            &&& w(SysReg::CpacrEl1) == (EmuModel { cpacr_el1: val, ..m }, step)
            &&& w(SysReg::SctlrEl1) == (EmuModel { sctlr_el1: val, ..m }, step)
            &&& w(SysReg::TcrEl1) == (EmuModel { tcr_el1: val, ..m }, step)
            &&& w(SysReg::CntvCtl) == (EmuModel { cntv_ctl: val, ..m }, step)
            &&& w(SysReg::CntpCtl) == (EmuModel { cntv_ctl: val, ..m }, step)
            &&& w(SysReg::CntvCval) == (EmuModel { cntv_cval: val, ..m }, step)
            &&& w(SysReg::CntpCval) == (EmuModel { cntv_cval: val, ..m }, step)
            &&& w(SysReg::EsrEl1) == (m, step) && w(SysReg::FarEl1) == (m, step)
            &&& w(SysReg::Cntpct) == (m, step) && w(SysReg::Cntvct) == (m, step)
            &&& w(SysReg::CurrentEl) == (m, step) && w(SysReg::Cntfrq) == (m, step)
            &&& w(SysReg::DczidEl0) == (m, step) && w(SysReg::Midr) == (m, step)
            &&& w(SysReg::Unknown) == (m, step)
        }),
{
}

/// The timer's down-counter, set to a low word that is not negative, puts the compare
/// value that many ticks after now, whatever stands in the high word. A negative one
/// that does not fit is a fault, as is a count or an address that does not fit, and then
/// nothing changes.
pub proof fn law_down_counter_sets_the_compare_value(
    m: EmuModel,
    sys: SysReg,
    val: u64,
    address: u64,
)
    requires
        sys == SysReg::CntvTval || sys == SysReg::CntpTval,
    ensures
        ({
            let low = val % 0x1_0000_0000;
            let now = 20 * m.insn_count;
            let offset: int = if low < 0x8000_0000 {
                low as int
            } else {
                low + 0xFFFF_FFFF_0000_0000
            };
            m.given_operand(address, Operation::Msr(sys), val) == (if now + offset > u64::MAX
                || address + 4 > u64::MAX {
                (m, Step::Fault(Fault::Overflow))
            } else {
                (
                    EmuModel { cntv_cval: (now + offset) as u64, ..m },
                    Step::Jump { effect: Effect::Nothing, pc: (address + 4) as u64 },
                )
            })
        }),
{
    assert((val as i32) as u64 == (if val % 0x1_0000_0000 < 0x8000_0000 {
        val % 0x1_0000_0000
    } else {
        ((val % 0x1_0000_0000) + 0xFFFF_FFFF_0000_0000) as u64
    })) by (bit_vector);
    assert(sign_extended(val) == (val as i32) as u64);
}

/// Where the timer's count or the next address does not fit, no system register is
/// written.
pub proof fn law_unfitting_write_is_a_fault(m: EmuModel, sys: SysReg, val: u64, address: u64)
    requires
        20 * m.insn_count > u64::MAX || address + 4 > u64::MAX,
    ensures
        m.given_operand(address, Operation::Msr(sys), val) == (m, Step::Fault(Fault::Overflow)),
{
}

/// Zeroing a block changes memory at the register's address and nothing else; the core
/// goes on behind the instruction.
pub proof fn law_block_is_zeroed(m: EmuModel, val: u64, address: u64)
    ensures
        address + 4 <= u64::MAX ==> m.given_operand(address, Operation::ZeroBlock, val) == (
            m,
            Step::Jump { effect: Effect::ZeroBlock(val), pc: (address + 4) as u64 },
        ),
        address + 4 > u64::MAX ==> m.given_operand(address, Operation::ZeroBlock, val) == (
            m,
            Step::Fault(Fault::Overflow),
        ),
{
}

/// Going on behind an instruction is going on four bytes later, with the effect.
pub proof fn law_instructions_are_four_bytes_long(address: u64, effect: Effect)
    ensures
        past(address, effect) is Jump <==> address + 4 <= u64::MAX,
        past(address, effect) matches Step::Jump { effect: e, pc } ==> e == effect && pc - address
            == 4,
        !(past(address, effect) is Jump) ==> past(address, effect) == Step::Fault(Fault::Overflow),
{
}

/// The bytes of the serial line wait behind those that wait already; nothing else
/// changes.
pub proof fn law_received_bytes_wait_in_line(m: EmuModel, bytes: Seq<u8>)
    ensures
        m.received(bytes) == (EmuModel { rx_fifo: m.rx_fifo + bytes, ..m }),
{
}

/// The serial port has something to tell once the bytes are in: a byte waits and that is
/// to be told, or a transmission is over and that is to be told.
pub open spec fn port_speaks(m: EmuModel, bytes: Seq<u8>) -> bool {
    ||| m.rx_fifo.len() + bytes.len() > 0 && m.uart_ier & 0x01 != 0
    ||| m.tx_irq_pending && m.uart_ier & 0x02 != 0
}

/// The timer is switched on, not silenced, and it has reached its compare value.
pub open spec fn timer_rings(m: EmuModel) -> bool {
    m.cntv_ctl & 1 != 0 && m.cntv_ctl & 2 == 0 && 20 * m.insn_count >= m.cntv_cval
}

/// The serial port's interrupt is taken on the lowest enabled one of the lines from 32 to
/// 35, whatever the timer does.
pub proof fn law_serial_interrupt_is_taken(
    m: EmuModel,
    line: u32,
    nzcv: u64,
    bytes: Seq<u8>,
    pc: u64,
)
    requires
        32 <= line <= 35,
        m.interrupts_enabled.contains(line),
        forall|lower: u32| 32 <= lower < line ==> !m.interrupts_enabled.contains(lower),
        m.vbar_el1 != 0,
        m.pstate_daif & 0x80 == 0,
        port_speaks(m, bytes),
        20 * m.insn_count <= u64::MAX,
        m.vbar_el1 + 0x280 <= u64::MAX,
    ensures
        ({
            let (n, went) = m.polled(Some(nzcv), bytes, pc);
            let target = (m.vbar_el1 + 0x280) as u64;
            &&& went == Ok::<Option<u64>, Fault>(Some(target))
            &&& n.active_irq == line
            &&& n.timer_pending
            &&& n.elr_el1 == pc
            &&& n.spsr_el1 == nzcv | m.pstate_daif | 0x05
            &&& n.pstate_daif == m.pstate_daif | 0x80
            &&& n.rx_fifo == m.rx_fifo + bytes
            &&& n == (EmuModel {
                active_irq: n.active_irq,
                timer_pending: n.timer_pending,
                elr_el1: n.elr_el1,
                spsr_el1: n.spsr_el1,
                pstate_daif: n.pstate_daif,
                rx_fifo: n.rx_fifo,
                ..m
            })
            &&& m.polled_at(pc, Some(nzcv), bytes) == (
                n,
                Step::Jump { effect: Effect::Nothing, pc: target },
            )
        }),
        m.polled(None, bytes, pc) == m.polled(Some(0), bytes, pc),
        m.polled_at(pc, None, bytes) == m.polled_at(pc, Some(0), bytes),
{
    assert(m.received(bytes).rx_fifo.len() == m.rx_fifo.len() + bytes.len());
}

/// The serial port is silent: it has nothing to tell, or none of its lines is enabled.
pub open spec fn port_is_silent(m: EmuModel, bytes: Seq<u8>) -> bool {
    port_speaks(m, bytes) ==> forall|line: u32|
        32 <= line <= 35 ==> !m.interrupts_enabled.contains(line)
}

/// The timer's interrupt is taken where the serial port is silent: on line 27 where that
/// is enabled and line 30 is not, and else on line 30, enabled or not.
pub proof fn law_timer_interrupt_is_taken(m: EmuModel, nzcv: u64, bytes: Seq<u8>, pc: u64)
    requires
        port_is_silent(m, bytes),
        timer_rings(m),
        m.vbar_el1 != 0,
        m.pstate_daif & 0x80 == 0,
        20 * m.insn_count <= u64::MAX,
        m.vbar_el1 + 0x280 <= u64::MAX,
    ensures
        ({
            let (n, went) = m.polled(Some(nzcv), bytes, pc);
            let target = (m.vbar_el1 + 0x280) as u64;
            &&& went == Ok::<Option<u64>, Fault>(Some(target))
            &&& n.active_irq == if m.interrupts_enabled.contains(27)
                && !m.interrupts_enabled.contains(30) {
                27int
            } else {
                30
            }
            &&& n.timer_pending
            &&& n.elr_el1 == pc
            &&& n.spsr_el1 == nzcv | m.pstate_daif | 0x05
            &&& n.pstate_daif == m.pstate_daif | 0x80
            &&& n.rx_fifo == m.rx_fifo + bytes
            &&& n == (EmuModel {
                active_irq: n.active_irq,
                timer_pending: n.timer_pending,
                elr_el1: n.elr_el1,
                spsr_el1: n.spsr_el1,
                pstate_daif: n.pstate_daif,
                rx_fifo: n.rx_fifo,
                ..m
            })
            &&& m.polled_at(pc, Some(nzcv), bytes) == (
                n,
                Step::Jump { effect: Effect::Nothing, pc: target },
            )
        }),
        m.polled(None, bytes, pc) == m.polled(Some(0), bytes, pc),
        m.polled_at(pc, None, bytes) == m.polled_at(pc, Some(0), bytes),
{
    assert(m.received(bytes).rx_fifo.len() == m.rx_fifo.len() + bytes.len());
}

/// No interrupt is taken where interrupts are masked, where there are no handlers, or
/// where the serial port is silent and the timer does not ring: the bytes are taken in,
/// and the instruction comes next.
pub proof fn law_quiet_machine_goes_on(
    m: EmuModel,
    nzcv: Option<u64>,
    bytes: Seq<u8>,
    pc: u64,
)
    requires
        20 * m.insn_count <= u64::MAX,
        m.pstate_daif & 0x80 != 0 || m.vbar_el1 == 0 || (port_is_silent(m, bytes) && !timer_rings(
            m,
        )),
    ensures
        m.polled(nzcv, bytes, pc) == (
            EmuModel { rx_fifo: m.rx_fifo + bytes, ..m },
            Ok::<Option<u64>, Fault>(None),
        ),
        m.polled_at(pc, nzcv, bytes) == (
            EmuModel { rx_fifo: m.rx_fifo + bytes, ..m },
            Step::AskCode { address: pc },
        ),
{
    assert(m.received(bytes).rx_fifo.len() == m.rx_fifo.len() + bytes.len());
}

/// A look at the lines is a fault only where the timer's count does not fit, or where an
/// interrupt is due whose handler's address does not fit; the bytes are taken in.
pub proof fn law_look_at_the_lines_fails(
    m: EmuModel,
    nzcv: Option<u64>,
    bytes: Seq<u8>,
    pc: u64,
)
    requires
        20 * m.insn_count > u64::MAX || (m.vbar_el1 + 0x280 > u64::MAX && m.pstate_daif & 0x80 == 0
            && (timer_rings(m) || !port_is_silent(m, bytes))),
    ensures
        m.polled(nzcv, bytes, pc) == (
            EmuModel { rx_fifo: m.rx_fifo + bytes, ..m },
            Err::<Option<u64>, Fault>(Fault::Overflow),
        ),
        m.polled_at(pc, nzcv, bytes) == (
            EmuModel { rx_fifo: m.rx_fifo + bytes, ..m },
            Step::Fault(Fault::Overflow),
        ),
{
    assert(m.received(bytes).rx_fifo.len() == m.rx_fifo.len() + bytes.len());
}

} // verus!
