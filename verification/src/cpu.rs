//! What the emulator does before each instruction of the core.
//!
//! The core is asked for what is needed in steps: `begin_insn` opens the handling of
//! an instruction, and each answer goes to the function that the step names, until a
//! step says how the core goes on.

use crate::decode::{decode, decodes_to, Action};
use crate::interrupt::{check_and_fire_interrupts, or_zero, Fault, DAIF_ALL, MODE_EL1H};
use crate::layout::{IDLE_COST, POLL_INTERVAL, TIMER_FREQUENCY};
use crate::register::Register;
use crate::state::{EmuModel, EmuState};
use crate::sysreg::SysReg;
use vstd::prelude::*;

verus! {

broadcast use vstd::std_specs::hash::group_hash_axioms;

/// No operation.
pub const INSN_NOP: u32 = 0xD503201F;

/// Wait for event.
pub const INSN_WFE: u32 = 0xD503205F;

/// Wait for interrupt.
pub const INSN_WFI: u32 = 0xD503207F;

/// A word that is passed over like the hints.
pub const INSN_PASS: u32 = 0x7F2003DF;

/// Return from an exception.
pub const INSN_ERET: u32 = 0xD69F03E0;

/// The fixed bits of the exception-generating instructions.
pub const CALL_MASK: u32 = 0xFFE0001F;

pub const INSN_SVC: u32 = 0xD4000001;

pub const INSN_SMC: u32 = 0xD4000003;

/// The condition flags in a saved state.
pub const NZCV_MASK: u64 = 0xF0000000;

/// The syndrome of a supervisor call.
pub const ESR_SVC: u64 = 0x56000000;

/// The vector of a synchronous exception of this privilege level, behind the base.
pub const SYNC_VECTOR: u64 = 0x200;

/// The vector of a synchronous exception of a lower privilege level.
pub const SYNC_LOWER_VECTOR: u64 = 0x400;

/// The firmware call that asks for the interface's version, and its answer.
pub const PSCI_VERSION: u64 = 0x84000000;

pub const PSCI_VERSION_REPLY: u64 = 2;

/// The answer to every other firmware call: minus one.
pub const PSCI_UNSUPPORTED: u64 = 0xFFFF_FFFF_FFFF_FFFF;

/// The bytes that a cache block operation zeroes.
pub const ZVA_BLOCK: usize = 64;

/// The size of an instruction.
pub const INSN_SIZE: u64 = 4;

/// The part number of the core.
pub const MIDR_VALUE: u64 = 0x410FC080;

/// What is done to the core before it goes on elsewhere.
#[derive(Clone, Copy, Debug, PartialEq, Eq, Structural)]
pub enum Effect {
    Nothing,
    /// Set a register.
    SetReg(Register, u64),
    /// Write `ZVA_BLOCK` zero bytes at the address, if that can be written.
    ZeroBlock(u64),
}

/// What a register's value is wanted for.
#[derive(Clone, Copy, Debug, PartialEq, Eq, Structural)]
pub enum Operation {
    /// To zero the block at that address.
    ZeroBlock,
    /// To write it to a system register.
    Msr(SysReg),
}

/// What comes next in handling an instruction.
#[derive(Clone, Copy, Debug, PartialEq, Eq, Structural)]
pub enum Step {
    /// The core executes the instruction itself.
    Continue,
    /// Carry out the effect, set the program counter, and end the core's slice.
    Jump { effect: Effect, pc: u64 },
    /// The emulator cannot go on.
    Fault(Fault),
    /// Read the link register, for `on_link`.
    AskLink,
    /// Read the condition flags and the serial line, for `on_poll`.
    AskInterrupts { address: u64 },
    /// Read the instruction at the address, for `on_code`.
    AskCode { address: u64 },
    /// Read the condition flags, for `on_supervisor_call`.
    AskSupervisorCall { address: u64 },
    /// Read the register `X0`, for `on_monitor_call`.
    AskMonitorCall { address: u64 },
    /// Read the register, for `on_operand`.
    AskOperand { address: u64, register: Register, operation: Operation },
}

/// How the emulator treats an instruction.
#[derive(Clone, Copy, Debug, PartialEq, Eq, Structural)]
pub enum InsnKind {
    /// Left to the core.
    Plain,
    /// Passed over at once, at the cost of many instructions.
    Idle,
    /// A return from an exception.
    Return,
    /// A call of the supervisor.
    SupervisorCall,
    /// A call of the firmware.
    MonitorCall,
    /// A system instruction, to be decoded.
    System,
}

/// The instruction word in four little-endian bytes.
pub open spec fn insn_word(code: Seq<u8>) -> u32 {
    (code[0] + code[1] * 0x100 + code[2] * 0x1_0000 + code[3] * 0x100_0000) as u32
}

/// How the emulator treats the instruction with these bytes.
pub open spec fn insn_kind(code: Seq<u8>) -> InsnKind {
    let w = insn_word(code);
    if code[3] != 0xD4 && code[3] != 0xD5 && code[3] != 0xD6 && code[3] != 0x7F {
        InsnKind::Plain
    } else if w == INSN_NOP || w == INSN_PASS || w == INSN_WFI || w == INSN_WFE {
        InsnKind::Idle
    } else if w == INSN_ERET {
        InsnKind::Return
    } else if w & CALL_MASK == INSN_SVC {
        InsnKind::SupervisorCall
    } else if w & CALL_MASK == INSN_SMC {
        InsnKind::MonitorCall
    } else if code[3] == 0xD5 {
        InsnKind::System
    } else {
        InsnKind::Plain
    }
}

/// On past the instruction at the address, once the effect is carried out.
pub open spec fn past(address: u64, effect: Effect) -> Step {
    if address + INSN_SIZE > u64::MAX {
        Step::Fault(Fault::Overflow)
    } else {
        Step::Jump { effect, pc: (address + INSN_SIZE) as u64 }
    }
}

/// The firmware's reply to a call, given the register that says which, and on past
/// the call.
pub open spec fn monitor_called(address: u64, x0: Option<u64>) -> Step {
    let reply = if or_zero(x0) == PSCI_VERSION {
        PSCI_VERSION_REPLY
    } else {
        PSCI_UNSUPPORTED
    };
    past(address, Effect::SetReg(Register::X0, reply))
}

impl EmuModel {
    /// The value of a system register.
    pub open spec fn sysreg(self, sys: SysReg) -> u64 {
        match sys {
            SysReg::Cntpct | SysReg::Cntvct => self.ticks() as u64,
            SysReg::CurrentEl => 4,
            SysReg::VbarEl1 => self.vbar_el1,
            SysReg::ElrEl1 => self.elr_el1,
            SysReg::SpsrEl1 => self.spsr_el1,
            SysReg::SpEl0 => self.sp_el0,
            SysReg::Fpcr => self.fpcr,
            SysReg::Fpsr => self.fpsr,
            SysReg::Daif => self.pstate_daif,
            SysReg::TpidrEl1 => self.tpidr_el1,
            SysReg::TpidrEl0 => self.tpidr_el0,
            SysReg::TpidrroEl0 => self.tpidrro_el0,
            SysReg::CntpCtl | SysReg::CntvCtl => self.cntv_ctl,
            SysReg::CntpCval | SysReg::CntvCval => self.cntv_cval,
            SysReg::CntpTval | SysReg::CntvTval => if self.cntv_cval >= self.ticks() {
                (self.cntv_cval - self.ticks()) as u64
            } else {
                0
            },
            SysReg::Cntfrq => TIMER_FREQUENCY,
            SysReg::CpacrEl1 => self.cpacr_el1,
            SysReg::SctlrEl1 => self.sctlr_el1,
            SysReg::TcrEl1 => self.tcr_el1,
            SysReg::EsrEl1 => self.esr_el1,
            SysReg::FarEl1 => self.far_el1,
            SysReg::DczidEl0 => 4,
            SysReg::Midr => MIDR_VALUE,
            SysReg::Unknown => 0,
        }
    }

    /// The machine once `val` is written to a system register; none where the timer's
    /// new compare value does not fit.
    pub open spec fn with_sysreg(self, sys: SysReg, val: u64) -> Option<EmuModel> {
        match sys {
            SysReg::VbarEl1 => Some(EmuModel { vbar_el1: val, ..self }),
            SysReg::ElrEl1 => Some(EmuModel { elr_el1: val, ..self }),
            SysReg::SpsrEl1 => Some(EmuModel { spsr_el1: val, ..self }),
            SysReg::SpEl0 => Some(EmuModel { sp_el0: val, ..self }),
            SysReg::Fpcr => Some(EmuModel { fpcr: val, ..self }),
            SysReg::Fpsr => Some(EmuModel { fpsr: val, ..self }),
            SysReg::TpidrEl1 => Some(EmuModel { tpidr_el1: val, ..self }),
            SysReg::TpidrEl0 => Some(EmuModel { tpidr_el0: val, ..self }),
            SysReg::TpidrroEl0 => Some(EmuModel { tpidrro_el0: val, ..self }),
            SysReg::CntvCval | SysReg::CntpCval => Some(EmuModel { cntv_cval: val, ..self }),
            SysReg::CntvTval | SysReg::CntpTval => if self.ticks() + sign_extended(val)
                <= u64::MAX {
                Some(EmuModel { cntv_cval: (self.ticks() + sign_extended(val)) as u64, ..self })
            } else {
                None
            },
            SysReg::CntvCtl | SysReg::CntpCtl => Some(EmuModel { cntv_ctl: val, ..self }),
            SysReg::Daif => Some(EmuModel { pstate_daif: val, ..self }),
            SysReg::CpacrEl1 => Some(EmuModel { cpacr_el1: val, ..self }),
            SysReg::SctlrEl1 => Some(EmuModel { sctlr_el1: val, ..self }),
            SysReg::TcrEl1 => Some(EmuModel { tcr_el1: val, ..self }),
            _ => Some(self),
        }
    }

    /// Opening the handling of the instruction at the address: it is counted. A delay
    /// function is skipped at a cost; every so many instructions the interrupt lines
    /// are looked at.
    pub open spec fn begun(self, address: u64) -> (EmuModel, Step) {
        let n = self.insn_count + 1;
        if self.skip_functions.contains(address) {
            if n + IDLE_COST > u64::MAX {
                (self, Step::Fault(Fault::Overflow))
            } else {
                (EmuModel { insn_count: (n + IDLE_COST) as u64, ..self }, Step::AskLink)
            }
        } else if n > u64::MAX {
            (self, Step::Fault(Fault::Overflow))
        } else if n % (POLL_INTERVAL as int) == 0 {
            (EmuModel { insn_count: n as u64, ..self }, Step::AskInterrupts { address })
        } else {
            (EmuModel { insn_count: n as u64, ..self }, Step::AskCode { address })
        }
    }

    /// A look at the interrupt lines. Where none is taken, the instruction comes next.
    pub open spec fn polled_at(self, address: u64, nzcv: Option<u64>, bytes: Seq<u8>) -> (
        EmuModel,
        Step,
    ) {
        let (m, r) = self.polled(nzcv, bytes, address);
        match r {
            Ok(Some(target)) => (m, Step::Jump { effect: Effect::Nothing, pc: target }),
            Ok(None) => (m, Step::AskCode { address }),
            Err(fault) => (m, Step::Fault(fault)),
        }
    }

    /// Passing over an idle instruction.
    pub open spec fn idled(self, address: u64) -> (EmuModel, Step) {
        if self.insn_count + IDLE_COST > u64::MAX {
            (self, Step::Fault(Fault::Overflow))
        } else {
            self.moved_past(
                address,
                EmuModel { insn_count: (self.insn_count + IDLE_COST) as u64, ..self },
            )
        }
    }

    /// Returning from an exception: the mask, the flags and the program counter are
    /// those that were saved.
    pub open spec fn returned(self) -> (EmuModel, Step) {
        (
            EmuModel { timer_pending: false, pstate_daif: self.spsr_el1 & DAIF_ALL, ..self },
            Step::Jump {
                effect: Effect::SetReg(Register::Nzcv, self.spsr_el1 & NZCV_MASK),
                pc: self.elr_el1,
            },
        )
    }

    /// A supervisor call, given the condition flags. Without a vector table only the
    /// syndrome is set.
    pub open spec fn supervisor_called(self, address: u64, nzcv: Option<u64>) -> (EmuModel, Step) {
        let m = EmuModel { esr_el1: ESR_SVC, ..self };
        let from_el1 = self.pstate_daif & 0x0F != 0;
        let vector = if from_el1 {
            SYNC_VECTOR
        } else {
            SYNC_LOWER_VECTOR
        };
        let mode = if from_el1 {
            MODE_EL1H
        } else {
            0
        };
        if self.vbar_el1 == 0 {
            (m, Step::Continue)
        } else if address + INSN_SIZE > u64::MAX || self.vbar_el1 + vector > u64::MAX {
            (m, Step::Fault(Fault::Overflow))
        } else {
            (
                EmuModel {
                    spsr_el1: or_zero(nzcv) | self.pstate_daif | mode,
                    pstate_daif: self.pstate_daif | DAIF_ALL,
                    elr_el1: (address + INSN_SIZE) as u64,
                    ..m
                },
                Step::Jump { effect: Effect::Nothing, pc: (self.vbar_el1 + vector) as u64 },
            )
        }
    }

    /// This machine as `after` says and on past the instruction at the address, unless
    /// that address does not fit.
    pub open spec fn moved_past(self, address: u64, after: EmuModel) -> (EmuModel, Step) {
        (
            if address + INSN_SIZE > u64::MAX {
                self
            } else {
                after
            },
            past(address, Effect::Nothing),
        )
    }

    /// Carrying out a decoded system instruction, up to the value of a register that
    /// it may need.
    pub open spec fn acted(self, action: Action, address: u64) -> (EmuModel, Step) {
        match action {
            Action::Ignore => (self, Step::Continue),
            Action::DaifSet(imm) => self.moved_past(
                address,
                EmuModel { pstate_daif: self.pstate_daif | (imm << 6), ..self },
            ),
            Action::DaifClr(imm) => self.moved_past(
                address,
                EmuModel { pstate_daif: self.pstate_daif & !(imm << 6), ..self },
            ),
            Action::DcZva(register) => (
                self,
                Step::AskOperand { address, register, operation: Operation::ZeroBlock },
            ),
            Action::Msr(register, sys) => (
                self,
                Step::AskOperand { address, register, operation: Operation::Msr(sys) },
            ),
            Action::Mrs(register, sys) => if self.ticks() > u64::MAX {
                (self, Step::Fault(Fault::Overflow))
            } else {
                (self, past(address, Effect::SetReg(register, self.sysreg(sys))))
            },
        }
    }

    /// The rest of an instruction that needed the value of a register.
    pub open spec fn given_operand(self, address: u64, operation: Operation, val: u64) -> (
        EmuModel,
        Step,
    ) {
        match operation {
            Operation::ZeroBlock => (self, past(address, Effect::ZeroBlock(val))),
            Operation::Msr(sys) => match self.with_sysreg(sys, val) {
                Some(m) => if self.ticks() > u64::MAX {
                    (self, Step::Fault(Fault::Overflow))
                } else {
                    self.moved_past(address, m)
                },
                None => (self, Step::Fault(Fault::Overflow)),
            },
        }
    }

    /// The machine once it remembers what an instruction word asks for.
    pub open spec fn remembering(self, word: u32, action: Action) -> EmuModel {
        EmuModel { insn_cache: self.insn_cache.insert(word, action), ..self }
    }

    /// A system instruction that was not seen before, given what it decodes to.
    pub open spec fn decoded(self, address: u64, word: u32, action: Option<Action>) -> (
        EmuModel,
        Step,
    ) {
        match action {
            Some(a) => self.remembering(word, a).acted(a, address),
            None => (self, Step::Fault(Fault::NoDisassembler)),
        }
    }

    /// The instruction at the address has these bytes, and it is not a system
    /// instruction that has yet to be decoded.
    pub open spec fn fetched(self, address: u64, code: Seq<u8>) -> (EmuModel, Step) {
        match insn_kind(code) {
            InsnKind::Plain => (self, Step::Continue),
            InsnKind::Idle => self.idled(address),
            InsnKind::Return => self.returned(),
            InsnKind::SupervisorCall => (self, Step::AskSupervisorCall { address }),
            InsnKind::MonitorCall => (self, Step::AskMonitorCall { address }),
            InsnKind::System => self.acted(self.insn_cache[insn_word(code)], address),
        }
    }

    /// The bytes are a system instruction that was not seen before.
    pub open spec fn must_decode(self, code: Seq<u8>) -> bool {
        insn_kind(code) == InsnKind::System && !self.insn_cache.contains_key(insn_word(code))
    }
}

/// A register's low half as a signed number, widened to 64 bits.
pub open spec fn sign_extended(val: u64) -> u64 {
    (val as i32) as u64
}

/// The instruction word in four bytes.
fn word_of(code: &[u8; 4]) -> (r: u32)
    ensures
        r == insn_word(code@),
{
    code[0] as u32 + code[1] as u32 * 0x100 + code[2] as u32 * 0x1_0000 + code[3] as u32
        * 0x100_0000
}

/// How the emulator treats the instruction with these bytes.
pub fn classify(code: &[u8; 4]) -> (r: InsnKind)
    ensures
        r == insn_kind(code@),
{
    let top: u8 = code[3];
    let w: u32 = word_of(code);
    if top != 0xD4 && top != 0xD5 && top != 0xD6 && top != 0x7F {
        InsnKind::Plain
    } else if w == INSN_NOP || w == INSN_PASS || w == INSN_WFI || w == INSN_WFE {
        InsnKind::Idle
    } else if w == INSN_ERET {
        InsnKind::Return
    } else if (w & CALL_MASK) == INSN_SVC {
        InsnKind::SupervisorCall
    } else if (w & CALL_MASK) == INSN_SMC {
        InsnKind::MonitorCall
    } else if top == 0xD5 {
        InsnKind::System
    } else {
        InsnKind::Plain
    }
}

/// The answer to `Step::AskLink`: a skipped function returns at once.
pub fn on_link(link: u64) -> (r: Step)
    ensures
        r == (Step::Jump { effect: Effect::Nothing, pc: link }),
{
    Step::Jump { effect: Effect::Nothing, pc: link }
}

/// The answer to `Step::AskMonitorCall`: the firmware's reply, and on past the call.
pub fn on_monitor_call(address: u64, x0: Option<u64>) -> (r: Step)
    ensures
        r == monitor_called(address, x0),
{
    let function: u64 = match x0 {
        Some(n) => n,
        None => 0,
    };
    let reply: u64 = if function == PSCI_VERSION {
        PSCI_VERSION_REPLY
    } else {
        PSCI_UNSUPPORTED
    };
    jump_past(address, Effect::SetReg(Register::X0, reply))
}

/// On past the instruction at the address.
fn jump_past(address: u64, effect: Effect) -> (r: Step)
    ensures
        r == past(address, effect),
{
    if address > u64::MAX - INSN_SIZE {
        Step::Fault(Fault::Overflow)
    } else {
        Step::Jump { effect, pc: address + INSN_SIZE }
    }
}

impl EmuState {
    /// Opens the handling of the instruction at the address.
    pub fn begin_insn(&mut self, address: u64) -> (r: Step)
        ensures
            (final(self)@, r) == old(self)@.begun(address),
    {
        if self.skip_functions.contains(&address) {
            if self.insn_count > u64::MAX - (IDLE_COST + 1) {
                return Step::Fault(Fault::Overflow);
            }
            self.insn_count = self.insn_count + 1 + IDLE_COST;
            return Step::AskLink;
        }
        if self.insn_count == u64::MAX {
            return Step::Fault(Fault::Overflow);
        }
        self.insn_count = self.insn_count + 1;
        if self.insn_count % POLL_INTERVAL == 0 {
            Step::AskInterrupts { address }
        } else {
            Step::AskCode { address }
        }
    }

    /// The answer to `Step::AskInterrupts`: the condition flags, if they could be
    /// read, and the bytes that have come in on the serial line.
    pub fn on_poll(&mut self, address: u64, nzcv: Option<u64>, received: &Vec<u8>) -> (r: Step)
        ensures
            (final(self)@, r) == old(self)@.polled_at(address, nzcv, received@),
    {
        match check_and_fire_interrupts(self, nzcv, received, address) {
            Ok(Some(target)) => Step::Jump { effect: Effect::Nothing, pc: target },
            Ok(None) => Step::AskCode { address },
            Err(fault) => Step::Fault(fault),
        }
    }

    /// The answer to `Step::AskSupervisorCall`: the condition flags, if they could be
    /// read.
    pub fn on_supervisor_call(&mut self, address: u64, nzcv: Option<u64>) -> (r: Step)
        ensures
            (final(self)@, r) == old(self)@.supervisor_called(address, nzcv),
    {
        self.esr_el1 = ESR_SVC;
        if self.vbar_el1 == 0 {
            return Step::Continue;
        }
        let from_el1 = (self.pstate_daif & 0x0F) != 0;
        let vector: u64 = if from_el1 {
            SYNC_VECTOR
        } else {
            SYNC_LOWER_VECTOR
        };
        let mode: u64 = if from_el1 {
            MODE_EL1H
        } else {
            0
        };
        let flags: u64 = match nzcv {
            Some(n) => n,
            None => 0,
        };
        if address > u64::MAX - INSN_SIZE || self.vbar_el1 > u64::MAX - vector {
            return Step::Fault(Fault::Overflow);
        }
        self.spsr_el1 = flags | self.pstate_daif | mode;
        self.pstate_daif = self.pstate_daif | DAIF_ALL;
        self.elr_el1 = address + INSN_SIZE;
        Step::Jump { effect: Effect::Nothing, pc: self.vbar_el1 + vector }
    }

    /// The value of a system register, at the timer's count.
    fn read_sysreg(&self, sys: SysReg, ticks: u64) -> (r: u64)
        requires
            ticks == self@.ticks(),
        ensures
            r == self@.sysreg(sys),
    {
        match sys {
            SysReg::Cntpct | SysReg::Cntvct => ticks,
            SysReg::CurrentEl => 4,
            SysReg::VbarEl1 => self.vbar_el1,
            SysReg::ElrEl1 => self.elr_el1,
            SysReg::SpsrEl1 => self.spsr_el1,
            SysReg::SpEl0 => self.sp_el0,
            SysReg::Fpcr => self.fpcr,
            SysReg::Fpsr => self.fpsr,
            SysReg::Daif => self.pstate_daif,
            SysReg::TpidrEl1 => self.tpidr_el1,
            SysReg::TpidrEl0 => self.tpidr_el0,
            SysReg::TpidrroEl0 => self.tpidrro_el0,
            SysReg::CntpCtl | SysReg::CntvCtl => self.cntv_ctl,
            SysReg::CntpCval | SysReg::CntvCval => self.cntv_cval,
            SysReg::CntpTval | SysReg::CntvTval => self.cntv_cval.saturating_sub(ticks),
            SysReg::Cntfrq => TIMER_FREQUENCY,
            SysReg::CpacrEl1 => self.cpacr_el1,
            SysReg::SctlrEl1 => self.sctlr_el1,
            SysReg::TcrEl1 => self.tcr_el1,
            SysReg::EsrEl1 => self.esr_el1,
            SysReg::FarEl1 => self.far_el1,
            SysReg::DczidEl0 => 4,
            SysReg::Midr => MIDR_VALUE,
            SysReg::Unknown => 0,
        }
    }

    /// Writes a system register, at the timer's count. Says whether the value fits.
    fn write_sysreg(&mut self, sys: SysReg, val: u64, ticks: u64) -> (r: bool)
        requires
            ticks == old(self)@.ticks(),
        ensures
            r == (old(self)@.with_sysreg(sys, val) is Some),
            r ==> Some(final(self)@) == old(self)@.with_sysreg(sys, val),
            !r ==> final(self)@ == old(self)@,
    {
        match sys {
            SysReg::VbarEl1 => {
                self.vbar_el1 = val;
            },
            SysReg::ElrEl1 => {
                self.elr_el1 = val;
            },
            SysReg::SpsrEl1 => {
                self.spsr_el1 = val;
            },
            SysReg::SpEl0 => {
                self.sp_el0 = val;
            },
            SysReg::Fpcr => {
                self.fpcr = val;
            },
            SysReg::Fpsr => {
                self.fpsr = val;
            },
            SysReg::TpidrEl1 => {
                self.tpidr_el1 = val;
            },
            SysReg::TpidrEl0 => {
                self.tpidr_el0 = val;
            },
            SysReg::TpidrroEl0 => {
                self.tpidrro_el0 = val;
            },
            SysReg::CntvCval | SysReg::CntpCval => {
                self.cntv_cval = val;
            },
            SysReg::CntvTval | SysReg::CntpTval => {
                let low: i32 = #[verifier::truncate]
                (val as i32);
                let offset: u64 = #[verifier::truncate]
                (low as u64);
                match ticks.checked_add(offset) {
                    Some(c) => {
                        self.cntv_cval = c;
                    },
                    None => {
                        return false;
                    },
                }
            },
            SysReg::CntvCtl | SysReg::CntpCtl => {
                self.cntv_ctl = val;
            },
            SysReg::Daif => {
                self.pstate_daif = val;
            },
            SysReg::CpacrEl1 => {
                self.cpacr_el1 = val;
            },
            SysReg::SctlrEl1 => {
                self.sctlr_el1 = val;
            },
            SysReg::TcrEl1 => {
                self.tcr_el1 = val;
            },
            _ => {},
        }
        true
    }

    /// Carries out a decoded system instruction, up to the value of a register that it
    /// may need.
    pub fn act(&mut self, action: Action, address: u64) -> (r: Step)
        ensures
            (final(self)@, r) == old(self)@.acted(action, address),
    {
        match action {
            Action::Ignore => Step::Continue,
            Action::DaifSet(imm) => {
                if address <= u64::MAX - INSN_SIZE {
                    self.pstate_daif = self.pstate_daif | (imm << 6);
                }
                jump_past(address, Effect::Nothing)
            },
            Action::DaifClr(imm) => {
                if address <= u64::MAX - INSN_SIZE {
                    self.pstate_daif = self.pstate_daif & !(imm << 6);
                }
                jump_past(address, Effect::Nothing)
            },
            Action::DcZva(register) => Step::AskOperand {
                address,
                register,
                operation: Operation::ZeroBlock,
            },
            Action::Msr(register, sys) => Step::AskOperand {
                address,
                register,
                operation: Operation::Msr(sys),
            },
            Action::Mrs(register, sys) => match self.ticks() {
                Some(ticks) => jump_past(
                    address,
                    Effect::SetReg(register, self.read_sysreg(sys, ticks)),
                ),
                None => Step::Fault(Fault::Overflow),
            },
        }
    }

    /// The answer to `Step::AskOperand`: the register's value.
    pub fn on_operand(&mut self, address: u64, operation: Operation, val: u64) -> (r: Step)
        ensures
            (final(self)@, r) == old(self)@.given_operand(address, operation, val),
    {
        match operation {
            Operation::ZeroBlock => jump_past(address, Effect::ZeroBlock(val)),
            Operation::Msr(sys) => {
                let ticks: u64 = match self.ticks() {
                    Some(t) => t,
                    None => {
                        return Step::Fault(Fault::Overflow);
                    },
                };
                if address > u64::MAX - INSN_SIZE {
                    return Step::Fault(Fault::Overflow);
                }
                if !self.write_sysreg(sys, val, ticks) {
                    return Step::Fault(Fault::Overflow);
                }
                jump_past(address, Effect::Nothing)
            },
        }
    }

    /// What comes of a system instruction that was not seen before, given what it
    /// decodes to.
    pub fn on_decoded(&mut self, address: u64, word: u32, action: Option<Action>) -> (r: Step)
        ensures
            (final(self)@, r) == old(self)@.decoded(address, word, action),
    {
        match action {
            Some(a) => {
                self.insn_cache.insert(word, a);
                self.act(a, address)
            },
            None => Step::Fault(Fault::NoDisassembler),
        }
    }

    /// The answer to `Step::AskCode`: the instruction's bytes, if they could be read.
    pub fn on_code(&mut self, address: u64, code: Option<[u8; 4]>) -> (r: Step)
        ensures
            code is None ==> (final(self)@, r) == (old(self)@, Step::Continue),
            code matches Some(c) ==> if old(self)@.must_decode(c@) {
                exists|a: Option<Action>| #[trigger]
                    decodes_to(c@, address, a) && (final(self)@, r) == old(self)@.decoded(
                        address,
                        insn_word(c@),
                        a,
                    )
            } else {
                (final(self)@, r) == old(self)@.fetched(address, c@)
            },
    {
        let bytes: [u8; 4] = match code {
            Some(c) => c,
            None => {
                return Step::Continue;
            },
        };
        match classify(&bytes) {
            InsnKind::Plain => Step::Continue,
            InsnKind::Idle => {
                if self.insn_count > u64::MAX - IDLE_COST || address > u64::MAX - INSN_SIZE {
                    return Step::Fault(Fault::Overflow);
                }
                self.insn_count = self.insn_count + IDLE_COST;
                jump_past(address, Effect::Nothing)
            },
            InsnKind::Return => {
                self.timer_pending = false;
                self.pstate_daif = self.spsr_el1 & DAIF_ALL;
                Step::Jump {
                    effect: Effect::SetReg(Register::Nzcv, self.spsr_el1 & NZCV_MASK),
                    pc: self.elr_el1,
                }
            },
            InsnKind::SupervisorCall => Step::AskSupervisorCall { address },
            InsnKind::MonitorCall => Step::AskMonitorCall { address },
            InsnKind::System => {
                let word: u32 = word_of(&bytes);
                let known: Option<Action> = match self.insn_cache.get(&word) {
                    Some(a) => Some(*a),
                    None => None,
                };
                match known {
                    Some(a) => self.act(a, address),
                    None => {
                        let action = decode(&bytes, address);
                        self.on_decoded(address, word, action)
                    },
                }
            },
        }
    }
}

} // verus!
