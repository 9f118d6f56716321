use pinephone_emu::cpu::{
    classify, on_link, on_monitor_call, Effect, InsnKind, Operation, Step,
};
use pinephone_emu::decode::Action;
use pinephone_emu::interrupt::{check_and_fire_interrupts, Fault};
use pinephone_emu::register::Register;
use pinephone_emu::state::EmuState;
use pinephone_emu::sysreg::SysReg;

const NOP: [u8; 4] = [0x1f, 0x20, 0x03, 0xd5];
const WFE: [u8; 4] = [0x5f, 0x20, 0x03, 0xd5];
const WFI: [u8; 4] = [0x7f, 0x20, 0x03, 0xd5];
const PASS: [u8; 4] = [0xdf, 0x03, 0x20, 0x7f];
const ERET: [u8; 4] = [0xe0, 0x03, 0x9f, 0xd6];

fn jump(pc: u64) -> Step {
    Step::Jump { effect: Effect::Nothing, pc }
}

fn set(register: Register, value: u64, pc: u64) -> Step {
    Step::Jump { effect: Effect::SetReg(register, value), pc }
}

#[test]
fn machine_is_switched_on() {
    let s = EmuState::new();
    assert_eq!(s.insn_count, 0);
    assert_eq!(s.spsr_el1, 0x05);
    assert_eq!(s.pstate_daif, 0x3C0);
    assert_eq!(s.cntv_cval, u64::MAX);
    assert_eq!(s.cpacr_el1, 0x300000);
    assert_eq!((s.uart_lcr, s.uart_dll, s.uart_dlh, s.uart_ier), (0x03, 0x0D, 0x00, 0));
    assert_eq!(s.active_irq, -1);
    assert!(s.gic_enabled && !s.timer_pending && !s.tx_irq_pending);
    assert!(s.rx_fifo.is_empty() && s.interrupts_enabled.is_empty() && s.insn_cache.is_empty());
    assert_eq!(s.ticks(), Some(0));
}

#[test]
fn instructions_are_counted() {
    let mut s = EmuState::new();
    assert_eq!(s.begin_insn(0x40), Step::AskCode { address: 0x40 });
    assert_eq!(s.insn_count, 1);
    s.insn_count = 4999;
    assert_eq!(s.begin_insn(0x44), Step::AskInterrupts { address: 0x44 });
    assert_eq!(s.begin_insn(0x48), Step::AskCode { address: 0x48 });
    assert_eq!(s.insn_count, 5001);
    assert_eq!(s.ticks(), Some(100_020));
}

#[test]
fn delay_functions_are_skipped() {
    let mut s = EmuState::new();
    s.skip_functions.insert(0x8000);
    s.insn_count = 4999;
    assert_eq!(s.begin_insn(0x8000), Step::AskLink);
    assert_eq!(s.insn_count, 55_000);
    assert_eq!(on_link(0x1234), jump(0x1234));
}

#[test]
fn count_overflow_is_a_fault() {
    let mut s = EmuState::new();
    s.insn_count = u64::MAX;
    assert_eq!(s.begin_insn(0), Step::Fault(Fault::Overflow));
    s.skip_functions.insert(8);
    s.insn_count = u64::MAX - 50_000;
    assert_eq!(s.begin_insn(8), Step::Fault(Fault::Overflow));
    assert_eq!(s.insn_count, u64::MAX - 50_000);
    assert_eq!(s.ticks(), None);
    assert_eq!(s.on_poll(0, None, &vec![7]), Step::Fault(Fault::Overflow));
    assert_eq!(s.rx_fifo.len(), 1);
    assert_eq!(s.act(Action::Mrs(Register::X0, SysReg::Midr), 0), Step::Fault(Fault::Overflow));
    assert_eq!(s.on_operand(0, Operation::Msr(SysReg::Daif), 0), Step::Fault(Fault::Overflow));
}

#[test]
fn instructions_are_classified() {
    for code in [NOP, WFE, WFI, PASS] {
        assert_eq!(classify(&code), InsnKind::Idle);
    }
    assert_eq!(classify(&ERET), InsnKind::Return);
    assert_eq!(classify(&0xd4000001u32.to_le_bytes()), InsnKind::SupervisorCall);
    assert_eq!(classify(&0xd4000541u32.to_le_bytes()), InsnKind::SupervisorCall);
    assert_eq!(classify(&0xd4000003u32.to_le_bytes()), InsnKind::MonitorCall);
    assert_eq!(classify(&0xd4000002u32.to_le_bytes()), InsnKind::Plain);
    assert_eq!(classify(&0xd518c000u32.to_le_bytes()), InsnKind::System);
    assert_eq!(classify(&0xd65f03c0u32.to_le_bytes()), InsnKind::Plain);
    assert_eq!(classify(&0x8b000000u32.to_le_bytes()), InsnKind::Plain);
    assert_eq!(classify(&0x7f000000u32.to_le_bytes()), InsnKind::Plain);
}

#[test]
fn idle_instructions_are_passed_over() {
    let mut s = EmuState::new();
    assert_eq!(s.on_code(0x100, Some(WFI)), jump(0x104));
    assert_eq!(s.insn_count, 50_000);
    assert_eq!(s.on_code(u64::MAX - 3, Some(NOP)), Step::Fault(Fault::Overflow));
    assert_eq!(s.insn_count, 50_000);
    assert_eq!(s.on_code(0x100, None), Step::Continue);
    assert_eq!(s.on_code(0x100, Some(0x8b000000u32.to_le_bytes())), Step::Continue);
}

fn armed_timer() -> EmuState {
    let mut s = EmuState::new();
    s.vbar_el1 = 0x10000;
    s.pstate_daif = 0x40;
    s.cntv_ctl = 1;
    s.cntv_cval = 200;
    s.insn_count = 10;
    s
}

#[test]
fn timer_interrupt_is_taken_and_returned_from() {
    let mut s = armed_timer();
    assert_eq!(s.on_poll(0x444, Some(0x6000_0000), &vec![]), jump(0x10280));
    assert_eq!((s.active_irq, s.timer_pending), (30, true));
    assert_eq!(s.spsr_el1, 0x6000_0045);
    assert_eq!((s.elr_el1, s.pstate_daif), (0x444, 0xC0));
    assert_eq!(s.on_poll(0x10280, Some(0), &vec![]), Step::AskCode { address: 0x10280 });
    assert_eq!(s.gic_read(0x01C8200C), 30);
    assert_eq!(s.gic_read(0x01C8200C), 1023);
    assert_eq!(s.on_code(0x10300, Some(ERET)), set(Register::Nzcv, 0x6000_0000, 0x444));
    assert_eq!(s.pstate_daif, 0x40);
}

#[test]
fn timer_line_follows_the_enabled_lines() {
    let mut s = armed_timer();
    s.interrupts_enabled.insert(27);
    assert_eq!(check_and_fire_interrupts(&mut s, None, &vec![], 4), Ok(Some(0x10280)));
    assert_eq!((s.active_irq, s.spsr_el1), (27, 0x45));
    let mut t = armed_timer();
    t.interrupts_enabled.insert(27);
    t.interrupts_enabled.insert(30);
    assert_eq!(check_and_fire_interrupts(&mut t, None, &vec![], 4), Ok(Some(0x10280)));
    assert_eq!(t.active_irq, 30);
}

#[test]
fn interrupts_wait_for_their_conditions() {
    let mut masked = armed_timer();
    masked.pstate_daif = 0x80;
    assert_eq!(check_and_fire_interrupts(&mut masked, None, &vec![1, 2], 4), Ok(None));
    assert_eq!(masked.rx_fifo.len(), 2);
    let mut no_table = armed_timer();
    no_table.vbar_el1 = 0;
    assert_eq!(check_and_fire_interrupts(&mut no_table, None, &vec![], 4), Ok(None));
    let mut early = armed_timer();
    early.insn_count = 9;
    assert_eq!(check_and_fire_interrupts(&mut early, None, &vec![], 4), Ok(None));
    let mut off = armed_timer();
    off.cntv_ctl = 3;
    assert_eq!(check_and_fire_interrupts(&mut off, None, &vec![], 4), Ok(None));
    let mut high = armed_timer();
    high.vbar_el1 = u64::MAX;
    assert_eq!(check_and_fire_interrupts(&mut high, None, &vec![], 4), Err(Fault::Overflow));
}

#[test]
fn serial_interrupt_comes_before_the_timer() {
    let mut s = armed_timer();
    s.interrupts_enabled.insert(34);
    s.interrupts_enabled.insert(33);
    s.uart_ier = 0x01;
    assert_eq!(check_and_fire_interrupts(&mut s, None, &vec![0x41], 4), Ok(Some(0x10280)));
    assert_eq!(s.active_irq, 33);
    let mut t = armed_timer();
    t.interrupts_enabled.insert(32);
    t.tx_irq_pending = true;
    assert_eq!(check_and_fire_interrupts(&mut t, None, &vec![0x41], 4), Ok(Some(0x10280)));
    assert_eq!(t.active_irq, 30);
    let mut u = armed_timer();
    u.interrupts_enabled.insert(35);
    u.tx_irq_pending = true;
    u.uart_ier = 0x02;
    assert_eq!(check_and_fire_interrupts(&mut u, None, &vec![], 4), Ok(Some(0x10280)));
    assert_eq!(u.active_irq, 35);
}

#[test]
fn supervisor_call_is_taken_and_returned_from() {
    let mut s = EmuState::new();
    let svc = Some(0xd4000001u32.to_le_bytes());
    assert_eq!(s.on_code(0x200, svc), Step::AskSupervisorCall { address: 0x200 });
    assert_eq!(s.on_supervisor_call(0x200, None), Step::Continue);
    assert_eq!(s.esr_el1, 0x56000000);
    s.vbar_el1 = 0x4000;
    s.pstate_daif = 0x80;
    assert_eq!(s.on_supervisor_call(0x200, Some(0x9000_0000)), jump(0x4400));
    assert_eq!((s.spsr_el1, s.pstate_daif, s.elr_el1), (0x9000_0080, 0x3C0, 0x204));
    assert_eq!(s.on_code(0x4400, Some(ERET)), set(Register::Nzcv, 0x9000_0000, 0x204));
    assert_eq!(s.pstate_daif, 0x80);
    s.pstate_daif = 0x01;
    assert_eq!(s.on_supervisor_call(0x200, None), jump(0x4200));
    assert_eq!(s.spsr_el1, 0x05);
    s.vbar_el1 = u64::MAX;
    assert_eq!(s.on_supervisor_call(0x200, None), Step::Fault(Fault::Overflow));
}

#[test]
fn firmware_calls_are_answered() {
    let mut s = EmuState::new();
    let smc = Some(0xd4000003u32.to_le_bytes());
    assert_eq!(s.on_code(0x200, smc), Step::AskMonitorCall { address: 0x200 });
    assert_eq!(on_monitor_call(0x200, Some(0x84000000)), set(Register::X0, 2, 0x204));
    assert_eq!(on_monitor_call(0x200, Some(0x84000001)), set(Register::X0, u64::MAX, 0x204));
    assert_eq!(on_monitor_call(0x200, None), set(Register::X0, u64::MAX, 0x204));
    assert_eq!(on_monitor_call(u64::MAX, None), Step::Fault(Fault::Overflow));
}

#[test]
fn system_instructions_are_carried_out() {
    let mut s = EmuState::new();
    s.pstate_daif = 0;
    assert_eq!(s.on_code(0x10, Some(0xd50342dfu32.to_le_bytes())), jump(0x14));
    assert_eq!(s.pstate_daif, 0x80);
    assert_eq!(s.on_code(0x14, Some(0xd50342ffu32.to_le_bytes())), jump(0x18));
    assert_eq!(s.pstate_daif, 0);
    let ask = s.on_code(0x18, Some(0xd518c005u32.to_le_bytes()));
    let operation = Operation::Msr(SysReg::VbarEl1);
    assert_eq!(ask, Step::AskOperand { address: 0x18, register: Register::X5, operation });
    assert_eq!(s.on_operand(0x18, operation, 0x77000), jump(0x1c));
    assert_eq!(s.vbar_el1, 0x77000);
    assert_eq!(
        s.on_code(0x1c, Some(0xd538c006u32.to_le_bytes())),
        set(Register::X6, 0x77000, 0x20)
    );
    let zva = s.on_code(0x20, Some(0xd50b7423u32.to_le_bytes()));
    let operation = Operation::ZeroBlock;
    assert_eq!(zva, Step::AskOperand { address: 0x20, register: Register::X3, operation });
    assert_eq!(
        s.on_operand(0x20, operation, 0x9000),
        Step::Jump { effect: Effect::ZeroBlock(0x9000), pc: 0x24 }
    );
    assert_eq!(s.on_code(0x24, Some(0xd5033fdfu32.to_le_bytes())), Step::Continue);
    assert_eq!(s.insn_cache.len(), 6);
}

#[test]
fn system_instructions_are_decoded_once() {
    let mut s = EmuState::new();
    s.insn_cache.insert(0xd518c000, Action::DaifSet(1));
    s.pstate_daif = 0;
    assert_eq!(s.on_code(0x30, Some(0xd518c000u32.to_le_bytes())), jump(0x34));
    assert_eq!(s.pstate_daif, 0x40);
    assert_eq!(s.on_decoded(0x30, 5, Some(Action::Ignore)), Step::Continue);
    assert_eq!(s.insn_cache.get(&5), Some(&Action::Ignore));
    assert_eq!(s.on_decoded(0x30, 6, None), Step::Fault(Fault::NoDisassembler));
    assert_eq!(s.insn_cache.get(&6), None);
}

#[test]
fn system_registers_read_back() {
    let kept = [
        SysReg::VbarEl1, SysReg::ElrEl1, SysReg::SpsrEl1, SysReg::SpEl0, SysReg::Fpcr,
        SysReg::Fpsr, SysReg::TpidrEl1, SysReg::TpidrEl0, SysReg::TpidrroEl0, SysReg::CntvCval,
        SysReg::CntpCval, SysReg::CntvCtl, SysReg::CntpCtl, SysReg::Daif, SysReg::CpacrEl1,
        SysReg::SctlrEl1, SysReg::TcrEl1,
    ];
    for (i, sys) in kept.into_iter().enumerate() {
        let mut s = EmuState::new();
        let value = 0x1_0000_0000 + i as u64;
        assert_eq!(s.on_operand(0, Operation::Msr(sys), value), jump(4));
        assert_eq!(s.act(Action::Mrs(Register::X9, sys), 4), set(Register::X9, value, 8));
    }
    let fixed = [
        (SysReg::CurrentEl, 4),
        (SysReg::Cntfrq, 24_000_000),
        (SysReg::DczidEl0, 4),
        (SysReg::Midr, 0x410FC080),
        (SysReg::EsrEl1, 0),
        (SysReg::FarEl1, 0),
        (SysReg::Unknown, 0),
        (SysReg::Cntpct, 60),
        (SysReg::Cntvct, 60),
    ];
    for (sys, value) in fixed {
        let mut s = EmuState::new();
        s.insn_count = 3;
        assert_eq!(s.on_operand(0, Operation::Msr(sys), 99), jump(4));
        assert_eq!(s.act(Action::Mrs(Register::X9, sys), 4), set(Register::X9, value, 8));
    }
}

#[test]
fn timer_counts_down() {
    let mut s = EmuState::new();
    s.insn_count = 10;
    assert_eq!(s.on_operand(0, Operation::Msr(SysReg::CntvTval), 1000), jump(4));
    assert_eq!(s.cntv_cval, 1200);
    let read = Action::Mrs(Register::X1, SysReg::CntpTval);
    assert_eq!(s.act(read, 0), set(Register::X1, 1000, 4));
    s.insn_count = 20;
    assert_eq!(s.act(read, 0), set(Register::X1, 800, 4));
    s.insn_count = 100;
    assert_eq!(s.act(read, 0), set(Register::X1, 0, 4));
    let negative = s.on_operand(0, Operation::Msr(SysReg::CntpTval), 0xFFFF_FFFF);
    assert_eq!(negative, Step::Fault(Fault::Overflow));
    assert_eq!(s.cntv_cval, 1200);
}

#[test]
fn mask_bits_are_set_and_cleared() {
    let mut s = EmuState::new();
    s.pstate_daif = 0x40;
    assert_eq!(s.act(Action::DaifSet(0b1110), 0), jump(4));
    assert_eq!(s.pstate_daif, 0x3C0);
    assert_eq!(s.act(Action::DaifClr(0b1110), 4), jump(8));
    assert_eq!(s.pstate_daif, 0x40);
    assert_eq!(s.act(Action::DaifSet(1), u64::MAX), Step::Fault(Fault::Overflow));
}
