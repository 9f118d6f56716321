//! The system registers that the emulator knows, and how the disassembler's text
//! names them.

use crate::text::{contains, has_text};
use vstd::prelude::*;

verus! {

/// A system register of the core.
#[derive(Clone, Copy, Debug, PartialEq, Eq, Structural)]
pub enum SysReg {
    VbarEl1,
    ElrEl1,
    SpsrEl1,
    SpEl0,
    Fpcr,
    Fpsr,
    TpidrEl1,
    TpidrEl0,
    TpidrroEl0,
    CntvCval,
    CntvTval,
    CntvCtl,
    CntpCval,
    CntpTval,
    CntpCtl,
    Daif,
    CpacrEl1,
    SctlrEl1,
    TcrEl1,
    Cntpct,
    Cntvct,
    CurrentEl,
    Cntfrq,
    EsrEl1,
    FarEl1,
    DczidEl0,
    Midr,
    Unknown,
}

/// The system register that an operand names: that of the first of these names
/// that occurs in the operand.
pub open spec fn sysreg_named(s: Seq<char>) -> SysReg {
    if has_text(s, "vbar_el"@) {
        SysReg::VbarEl1
    } else if has_text(s, "elr_el1"@) {
        SysReg::ElrEl1
    } else if has_text(s, "spsr_el1"@) {
        SysReg::SpsrEl1
    } else if has_text(s, "sp_el0"@) {
        SysReg::SpEl0
    } else if has_text(s, "fpcr"@) {
        SysReg::Fpcr
    } else if has_text(s, "fpsr"@) {
        SysReg::Fpsr
    } else if has_text(s, "tpidr_el1"@) {
        SysReg::TpidrEl1
    } else if has_text(s, "tpidr_el0"@) {
        SysReg::TpidrEl0
    } else if has_text(s, "tpidrro_el0"@) {
        SysReg::TpidrroEl0
    } else if has_text(s, "cntv_cval"@) {
        SysReg::CntvCval
    } else if has_text(s, "cntp_cval"@) {
        SysReg::CntpCval
    } else if has_text(s, "cntv_tval"@) {
        SysReg::CntvTval
    } else if has_text(s, "cntp_tval"@) {
        SysReg::CntpTval
    } else if has_text(s, "cntv_ctl"@) {
        SysReg::CntvCtl
    } else if has_text(s, "cntp_ctl"@) {
        SysReg::CntpCtl
    } else if has_text(s, "daif"@) {
        SysReg::Daif
    } else if has_text(s, "cpacr_el1"@) {
        SysReg::CpacrEl1
    } else if has_text(s, "sctlr_el1"@) {
        SysReg::SctlrEl1
    } else if has_text(s, "tcr_el1"@) {
        SysReg::TcrEl1
    } else if has_text(s, "cntpct"@) {
        SysReg::Cntpct
    } else if has_text(s, "cntvct"@) {
        SysReg::Cntvct
    } else if has_text(s, "currentel"@) {
        SysReg::CurrentEl
    } else if has_text(s, "cntfrq"@) {
        SysReg::Cntfrq
    } else if has_text(s, "esr_el1"@) {
        SysReg::EsrEl1
    } else if has_text(s, "far_el1"@) {
        SysReg::FarEl1
    } else if has_text(s, "dczid_el0"@) {
        SysReg::DczidEl0
    } else if has_text(s, "midr"@) {
        SysReg::Midr
    } else {
        SysReg::Unknown
    }
}

/// Reads the name of a system register out of an operand.
pub fn parse_sysreg(s: &str) -> (r: SysReg)
    ensures
        r == sysreg_named(s@),
{
    if contains(s, "vbar_el") {
        SysReg::VbarEl1
    } else if contains(s, "elr_el1") {
        SysReg::ElrEl1
    } else if contains(s, "spsr_el1") {
        SysReg::SpsrEl1
    } else if contains(s, "sp_el0") {
        SysReg::SpEl0
    } else if contains(s, "fpcr") {
        SysReg::Fpcr
    } else if contains(s, "fpsr") {
        SysReg::Fpsr
    } else if contains(s, "tpidr_el1") {
        SysReg::TpidrEl1
    } else if contains(s, "tpidr_el0") {
        SysReg::TpidrEl0
    } else if contains(s, "tpidrro_el0") {
        SysReg::TpidrroEl0
    } else if contains(s, "cntv_cval") {
        SysReg::CntvCval
    } else if contains(s, "cntp_cval") {
        SysReg::CntpCval
    } else if contains(s, "cntv_tval") {
        SysReg::CntvTval
    } else if contains(s, "cntp_tval") {
        SysReg::CntpTval
    } else if contains(s, "cntv_ctl") {
        SysReg::CntvCtl
    } else if contains(s, "cntp_ctl") {
        SysReg::CntpCtl
    } else if contains(s, "daif") {
        SysReg::Daif
    } else if contains(s, "cpacr_el1") {
        SysReg::CpacrEl1
    } else if contains(s, "sctlr_el1") {
        SysReg::SctlrEl1
    } else if contains(s, "tcr_el1") {
        SysReg::TcrEl1
    } else if contains(s, "cntpct") {
        SysReg::Cntpct
    } else if contains(s, "cntvct") {
        SysReg::Cntvct
    } else if contains(s, "currentel") {
        SysReg::CurrentEl
    } else if contains(s, "cntfrq") {
        SysReg::Cntfrq
    } else if contains(s, "esr_el1") {
        SysReg::EsrEl1
    } else if contains(s, "far_el1") {
        SysReg::FarEl1
    } else if contains(s, "dczid_el0") {
        SysReg::DczidEl0
    } else if contains(s, "midr") {
        SysReg::Midr
    } else {
        SysReg::Unknown
    }
}

} // verus!
