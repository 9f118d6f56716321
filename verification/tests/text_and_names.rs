use pinephone_emu::decode::{decode, decode_listing, decode_text, Action, InsnText, Listing};
use pinephone_emu::register::{parse_reg, register_in, Register};
use pinephone_emu::sysreg::{parse_sysreg, SysReg};
use pinephone_emu::text::{
    chars_of, contains, parse_hex, same_text, split_trimmed, trim, trim_start_0x, trim_start_char,
    white_space,
};

const GENERAL: [Register; 31] = [
    Register::X0, Register::X1, Register::X2, Register::X3, Register::X4, Register::X5,
    Register::X6, Register::X7, Register::X8, Register::X9, Register::X10, Register::X11,
    Register::X12, Register::X13, Register::X14, Register::X15, Register::X16, Register::X17,
    Register::X18, Register::X19, Register::X20, Register::X21, Register::X22, Register::X23,
    Register::X24, Register::X25, Register::X26, Register::X27, Register::X28, Register::X29,
    Register::X30,
];

#[test]
fn every_general_register_is_read_by_its_name() {
    for n in 0..31 {
        assert_eq!(parse_reg(&format!("x{}", n)), Some(GENERAL[n]));
        assert_eq!(parse_reg(&format!("  X{}\t", n)), Some(GENERAL[n]));
    }
}

#[test]
fn other_texts_name_no_register() {
    for name in ["", "x", "x31", "x32", "x99", "x00", "x01", "x1 0", "w0", "xzr", "sp", "x100", "0"] {
        assert_eq!(parse_reg(name), None, "{}", name);
    }
}

#[test]
fn white_space_and_case_do_not_matter() {
    for name in ["x7", "x30", "x31", "sp", "", "x 7"] {
        for (before, behind) in [("", ""), (" ", "\t"), ("\u{3000}\n", ""), ("", "\u{a0}\r ")] {
            let text = format!("{}{}{}", before, name, behind);
            assert_eq!(parse_reg(&text), parse_reg(name));
            assert_eq!(parse_reg(&text.to_ascii_uppercase()), parse_reg(name));
            assert_eq!(parse_reg(&text.to_ascii_lowercase()), parse_reg(name));
        }
    }
}

#[test]
fn register_is_read_in_its_exact_name() {
    assert_eq!(register_in("x7"), Some(Register::X7));
    assert_eq!(register_in("x30"), Some(Register::X30));
    for text in ["X7", " x7", "x7 ", "x07", "x31", "x", ""] {
        assert_eq!(register_in(text), None, "{}", text);
    }
}

#[test]
fn every_system_register_is_read_by_its_name() {
    let names = [
        ("vbar_el1", SysReg::VbarEl1),
        ("vbar_el2", SysReg::VbarEl1),
        ("elr_el1", SysReg::ElrEl1),
        ("spsr_el1", SysReg::SpsrEl1),
        ("sp_el0", SysReg::SpEl0),
        ("fpcr", SysReg::Fpcr),
        ("fpsr", SysReg::Fpsr),
        ("tpidr_el1", SysReg::TpidrEl1),
        ("tpidr_el0", SysReg::TpidrEl0),
        ("tpidrro_el0", SysReg::TpidrroEl0),
        ("cntv_cval_el0", SysReg::CntvCval),
        ("cntp_cval_el0", SysReg::CntpCval),
        ("cntv_tval_el0", SysReg::CntvTval),
        ("cntp_tval_el0", SysReg::CntpTval),
        ("cntv_ctl_el0", SysReg::CntvCtl),
        ("cntp_ctl_el0", SysReg::CntpCtl),
        ("daif", SysReg::Daif),
        ("cpacr_el1", SysReg::CpacrEl1),
        ("sctlr_el1", SysReg::SctlrEl1),
        ("tcr_el1", SysReg::TcrEl1),
        ("cntpct_el0", SysReg::Cntpct),
        ("cntvct_el0", SysReg::Cntvct),
        ("currentel", SysReg::CurrentEl),
        ("cntfrq_el0", SysReg::Cntfrq),
        ("esr_el1", SysReg::EsrEl1),
        ("far_el1", SysReg::FarEl1),
        ("dczid_el0", SysReg::DczidEl0),
        ("midr_el1", SysReg::Midr),
        ("ttbr0_el1", SysReg::Unknown),
        ("", SysReg::Unknown),
    ];
    for (name, sys) in names {
        assert_eq!(parse_sysreg(name), sys, "{}", name);
    }
}

#[test]
fn the_first_of_two_names_counts() {
    assert_eq!(parse_sysreg("midr daif"), SysReg::Daif);
    assert_eq!(parse_sysreg("daif vbar_el1"), SysReg::VbarEl1);
}

#[test]
fn texts_are_taken_apart() {
    assert_eq!(chars_of("a\u{e9}b"), vec!['a', '\u{e9}', 'b']);
    assert_eq!(trim("\u{a0} x \t\u{3000}"), "x");
    assert_eq!(trim(" \n "), "");
    assert!(white_space('\u{2009}') && white_space('\r') && !white_space('\u{200b}'));
    assert!(contains("daifset, #2", "daifset") && contains("abc", "") && contains("abab", "bab"));
    assert!(!contains("ab", "abc") && !contains("abab", "bb"));
    assert!(same_text("zva", "zva") && !same_text("zva", "zv") && !same_text("zva", "zvb"));
    assert_eq!(split_trimmed(" a , b,,c", ','), vec!["a", "b", "", "c"]);
    assert_eq!(split_trimmed("", ','), vec![""]);
    assert_eq!(trim_start_char("##0x1#", '#'), "0x1#");
    assert_eq!(trim_start_0x("0x0x0"), "0");
}

#[test]
fn hexadecimal_numbers_are_read() {
    assert_eq!(parse_hex("f"), Some(15));
    assert_eq!(parse_hex("+1F"), Some(0x1f));
    assert_eq!(parse_hex("ffffffffffffffff"), Some(u64::MAX));
    assert_eq!(parse_hex("0000000000000000000001"), Some(1));
    for text in ["", "+", "-1", "g", "1 ", "1_0", "10000000000000000"] {
        assert_eq!(parse_hex(text), None, "{}", text);
        assert_eq!(u64::from_str_radix(text, 16).ok(), None, "{}", text);
    }
}

#[test]
fn instruction_texts_are_decoded() {
    assert_eq!(decode_text("msr", "DAIFSet, #2"), Action::DaifSet(2));
    assert_eq!(decode_text("msr", "daifset, #0xf"), Action::DaifSet(15));
    assert_eq!(decode_text("msr", "daifclr, #2"), Action::DaifClr(2));
    assert_eq!(decode_text("msr", "daifclr, #zz"), Action::DaifClr(0));
    assert_eq!(decode_text("msr", "VBAR_EL1, X3"), Action::Msr(Register::X3, SysReg::VbarEl1));
    assert_eq!(decode_text("msr", "vbar_el1, xzr"), Action::Ignore);
    assert_eq!(decode_text("mrs", "x1, currentel"), Action::Mrs(Register::X1, SysReg::CurrentEl));
    assert_eq!(decode_text("mrs", "x1, s3_0_c1_c2_3"), Action::Mrs(Register::X1, SysReg::Unknown));
    assert_eq!(decode_text("dc", "zva, x30"), Action::DcZva(Register::X30));
    assert_eq!(decode_text("dc", "civac, x30"), Action::Ignore);
    assert_eq!(decode_text("MRS", "x1, daif"), Action::Ignore);
    assert_eq!(decode_text("mrs", "x1"), Action::Ignore);
    assert_eq!(decode_text("msr", "a, b, x1"), Action::Ignore);
    assert_eq!(decode_text("isb", ""), Action::Ignore);
}

#[test]
fn listings_are_decoded() {
    assert_eq!(decode_listing(&Listing::NoDisassembler), None);
    assert_eq!(decode_listing(&Listing::Failed), Some(Action::Ignore));
    assert_eq!(decode_listing(&Listing::Read(None)), Some(Action::Ignore));
    let bare = InsnText { mnemonic: None, op_str: None };
    assert_eq!(decode_listing(&Listing::Read(Some(bare))), Some(Action::Ignore));
    let mrs = InsnText {
        mnemonic: Some(String::from("mrs")),
        op_str: Some(String::from("x2, midr_el1")),
    };
    assert_eq!(
        decode_listing(&Listing::Read(Some(mrs))),
        Some(Action::Mrs(Register::X2, SysReg::Midr))
    );
}

#[test]
fn instruction_bytes_are_decoded() {
    let cases: [(u32, Action); 9] = [
        (0xd518c000, Action::Msr(Register::X0, SysReg::VbarEl1)),
        (0xd5384241, Action::Mrs(Register::X1, SysReg::CurrentEl)),
        (0xd50342df, Action::DaifSet(2)),
        (0xd5034fdf, Action::DaifSet(15)),
        (0xd50342ff, Action::DaifClr(2)),
        (0xd50b7423, Action::DcZva(Register::X3)),
        (0xd53be040, Action::Mrs(Register::X0, SysReg::Cntvct)),
        (0xd51be322, Action::Msr(Register::X2, SysReg::CntvCtl)),
        (0xd5033fdf, Action::Ignore),
    ];
    for (word, action) in cases {
        assert_eq!(decode(&word.to_le_bytes(), 0x4000), Some(action), "{:x}", word);
    }
}
