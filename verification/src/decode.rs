//! From the bytes of a system instruction to what the emulator does about it.

use crate::register::{
    law_register_names, parse_reg, register_named, register_of, x_name, x_register, Register,
};
use crate::sysreg::{parse_sysreg, sysreg_named, SysReg};
use crate::text::{
    ascii_lower, ascii_lowercase, contains, has_text, hex_u64, is_space,
    lemma_ascii_lowercase_ascii, lemma_pieces_ascii, lemma_pieces_lowered, lemma_pieces_two,
    lemma_trimmed_ascii, lemma_trimmed_lowered, lemma_trimmed_twice, lowercase, lowered, parse_hex,
    pieces, same_text, split_trimmed, text_at, trim_start_0x, trim_start_char, trimmed,
    trimmed_start, without_leading_0x, without_leading_char,
};
use capstone::arch::arm64::ArchMode;
use capstone::arch::{BuildsCapstone, BuildsCapstoneEndian};
use capstone::{Capstone, Endian};
use vstd::prelude::*;
use vstd::utf8::is_ascii_chars;

verus! {

/// What the emulator does about a system instruction.
#[derive(Clone, Copy, Debug, PartialEq, Eq, Structural)]
pub enum Action {
    /// Leave the instruction to the core.
    Ignore,
    /// Set interrupt mask bits.
    DaifSet(u64),
    /// Clear interrupt mask bits.
    DaifClr(u64),
    /// Move a general register to a system register.
    Msr(Register, SysReg),
    /// Move a system register to a general register.
    Mrs(Register, SysReg),
    /// Zero the cache block at the address that the register holds.
    DcZva(Register),
}

/// The text of one disassembled instruction.
pub struct InsnText {
    pub mnemonic: Option<String>,
    pub op_str: Option<String>,
}

/// What came of disassembling some bytes.
pub enum Listing {
    /// No disassembler could be set up.
    NoDisassembler,
    /// The disassembler failed on the bytes.
    Failed,
    /// The first instruction that it read, if it read one.
    Read(Option<InsnText>),
}

/// The characters of an optional text.
pub open spec fn opt_text(s: Option<String>) -> Option<Seq<char>> {
    match s {
        Some(t) => Some(t@),
        None => None,
    }
}

/// The characters of an instruction's texts.
pub open spec fn insn_text(i: Option<InsnText>) -> Option<(Option<Seq<char>>, Option<Seq<char>>)> {
    match i {
        Some(t) => Some((opt_text(t.mnemonic), opt_text(t.op_str))),
        None => None,
    }
}

/// The mnemonic and the operands of the first instruction that Capstone reads in
/// little-endian AArch64 code at an address.
pub uninterp spec fn disassembly(code: Seq<u8>, address: u64) -> Option<
    (Option<Seq<char>>, Option<Seq<char>>),
>;

/// The immediate operand in `s`: hexadecimal digits behind any number signs and
/// any `0x`, and zero where there is no such number.
pub open spec fn immediate(s: Seq<char>) -> u64 {
    match hex_u64(without_leading_0x(without_leading_char(s, '#'))) {
        Some(n) => n,
        None => 0,
    }
}

/// The operand `i` of an operand text, the operands being parted by commas.
pub open spec fn operand(ops: Seq<char>, i: int) -> Seq<char> {
    trimmed(pieces(ops, ',')[i])
}

/// What a mnemonic and operands in lower case ask for, given the registers that the
/// first and the second operand name. Only the two-operand forms of `msr`, `mrs` and
/// `dc zva` ask for anything.
pub open spec fn action_from(
    mnemonic: Seq<char>,
    ops: Seq<char>,
    first: Option<Register>,
    second: Option<Register>,
) -> Action {
    if pieces(ops, ',').len() != 2 {
        Action::Ignore
    } else if mnemonic == "msr"@ {
        if has_text(ops, "daifset"@) {
            Action::DaifSet(immediate(operand(ops, 1)))
        } else if has_text(ops, "daifclr"@) {
            Action::DaifClr(immediate(operand(ops, 1)))
        } else {
            match second {
                Some(reg) => Action::Msr(reg, sysreg_named(operand(ops, 0))),
                None => Action::Ignore,
            }
        }
    } else if mnemonic == "mrs"@ {
        match first {
            Some(reg) => Action::Mrs(reg, sysreg_named(operand(ops, 1))),
            None => Action::Ignore,
        }
    } else if mnemonic == "dc"@ && operand(ops, 0) == "zva"@ {
        match second {
            Some(reg) => Action::DcZva(reg),
            None => Action::Ignore,
        }
    } else {
        Action::Ignore
    }
}

/// What a mnemonic and its operands ask for.
pub open spec fn action_of(mnemonic: Seq<char>, operands: Seq<char>) -> Action {
    let ops = lowercase(operands);
    action_from(
        mnemonic,
        ops,
        register_named(operand(ops, 0)),
        register_named(operand(ops, 1)),
    )
}

/// What a mnemonic and its operands ask for, where the operands are ASCII text.
pub open spec fn action_of_ascii(mnemonic: Seq<char>, operands: Seq<char>) -> Action {
    let ops = ascii_lowercase(operands);
    action_from(mnemonic, ops, register_of(operand(ops, 0)), register_of(operand(ops, 1)))
}

/// The text, or the empty text where there is none.
pub open spec fn text_or_empty(s: Option<Seq<char>>) -> Seq<char> {
    match s {
        Some(t) => t,
        None => ""@,
    }
}

/// What the first disassembled instruction asks for; nothing where none was read.
pub open spec fn action_of_insn(i: Option<(Option<Seq<char>>, Option<Seq<char>>)>) -> Action {
    match i {
        Some((mnemonic, operands)) => action_of(text_or_empty(mnemonic), text_or_empty(operands)),
        None => Action::Ignore,
    }
}

/// What a listing asks for; none where there was no disassembler to ask.
pub open spec fn action_of_listing(l: Listing) -> Option<Action> {
    match l {
        Listing::NoDisassembler => None,
        Listing::Failed => Some(Action::Ignore),
        Listing::Read(i) => Some(action_of_insn(insn_text(i))),
    }
}

/// `a` is what decoding these bytes at this address gives: exactly what the text of the
/// instruction asks for. Where the operands are ASCII text that is fixed by the text alone.
pub open spec fn decodes_to(code: Seq<u8>, address: u64, a: Option<Action>) -> bool {
    &&& a == Some(action_of_insn(disassembly(code, address)))
    &&& disassembly(code, address) matches Some((mnemonic, operands)) ==> (is_ascii_chars(
        text_or_empty(operands),
    ) ==> a == Some(action_of_ascii(text_or_empty(mnemonic), text_or_empty(operands))))
}

/// Capstone's `disasm_all` on a new handle for little-endian AArch64 code with details,
/// and `mnemonic` and `op_str` of the one instruction of its result, if four bytes hold
/// one. What was read is a function of the bytes and the address. Setting up the handle
/// and reading fail only for want of memory: the call then panics and returns nothing.
#[verifier::external_body]
fn disassemble(code: &[u8; 4], address: u64) -> (r: Listing)
    ensures
        r is Read,
        insn_text(r->Read_0) == disassembly(code@, address),
{
    let builder = Capstone::new().arm64().mode(ArchMode::Arm).endian(Endian::Little).detail(true);
    let cs = builder.build().expect("memory for the disassembler");
    let insns = cs.disasm_all(code, address).expect("memory for the disassembly");
    Listing::Read(insns.iter().next().map(|i| InsnText {
        mnemonic: i.mnemonic().map(String::from),
        op_str: i.op_str().map(String::from),
    }))
}

/// Reads an immediate operand.
fn parse_immediate(s: &str) -> (r: u64)
    ensures
        r == immediate(s@),
{
    match parse_hex(trim_start_0x(trim_start_char(s, '#'))) {
        Some(n) => n,
        None => 0,
    }
}

/// An operand of an ASCII text in lower case is ASCII, trimmed and in lower case.
proof fn lemma_lowered_operand(operands: Seq<char>, i: int)
    requires
        is_ascii_chars(operands),
        0 <= i < pieces(ascii_lowercase(operands), ',').len(),
    ensures
        ({
            let o = operand(ascii_lowercase(operands), i);
            &&& is_ascii_chars(trimmed(o))
            &&& ascii_lowercase(trimmed(o)) == o
        }),
{
    let ops = ascii_lowercase(operands);
    lemma_ascii_lowercase_ascii(operands);
    lemma_pieces_ascii(ops, ',');
    lemma_trimmed_ascii(pieces(ops, ',')[i]);
    lemma_trimmed_ascii(operand(ops, i));
    lemma_trimmed_twice(pieces(ops, ',')[i]);
    assert(lowered(ops));
    lemma_pieces_lowered(ops, ',');
    lemma_trimmed_lowered(pieces(ops, ',')[i]);
    assert(ascii_lowercase(operand(ops, i)) =~= operand(ops, i));
}

/// What a mnemonic and its operands ask for.
pub fn decode_text(mnemonic: &str, operands: &str) -> (r: Action)
    ensures
        r == action_of(mnemonic@, operands@),
        is_ascii_chars(operands@) ==> r == action_of_ascii(mnemonic@, operands@),
{
    let ops = operands.to_lowercase();
    let parts = split_trimmed(ops.as_str(), ',');
    if parts.len() != 2 {
        return Action::Ignore;
    }
    proof {
        if is_ascii_chars(operands@) {
            lemma_lowered_operand(operands@, 0);
            lemma_lowered_operand(operands@, 1);
        }
    }
    let first: &str = parts[0];
    let second: &str = parts[1];
    if same_text(mnemonic, "msr") {
        if contains(ops.as_str(), "daifset") {
            Action::DaifSet(parse_immediate(second))
        } else if contains(ops.as_str(), "daifclr") {
            Action::DaifClr(parse_immediate(second))
        } else {
            match parse_reg(second) {
                Some(reg) => Action::Msr(reg, parse_sysreg(first)),
                None => Action::Ignore,
            }
        }
    } else if same_text(mnemonic, "mrs") {
        match parse_reg(first) {
            Some(reg) => Action::Mrs(reg, parse_sysreg(second)),
            None => Action::Ignore,
        }
    } else if same_text(mnemonic, "dc") && same_text(first, "zva") {
        match parse_reg(second) {
            Some(reg) => Action::DcZva(reg),
            None => Action::Ignore,
        }
    } else {
        Action::Ignore
    }
}

/// What a listing asks for.
pub fn decode_listing(listing: &Listing) -> (r: Option<Action>)
    ensures
        r == action_of_listing(*listing),
        listing matches Listing::Read(Some(i)) ==> (is_ascii_chars(
            text_or_empty(opt_text(i.op_str)),
        ) ==> r == Some(
            action_of_ascii(text_or_empty(opt_text(i.mnemonic)), text_or_empty(opt_text(i.op_str))),
        )),
{
    match listing {
        Listing::NoDisassembler => None,
        Listing::Failed => Some(Action::Ignore),
        Listing::Read(None) => Some(Action::Ignore),
        Listing::Read(Some(insn)) => {
            let mnemonic: &str = match &insn.mnemonic {
                Some(t) => t.as_str(),
                None => "",
            };
            let operands: &str = match &insn.op_str {
                Some(t) => t.as_str(),
                None => "",
            };
            Some(decode_text(mnemonic, operands))
        },
    }
}

/// Disassembles an instruction and says what it asks for.
pub fn decode(code: &[u8; 4], address: u64) -> (r: Option<Action>)
    ensures
        decodes_to(code@, address, r),
{
    let listing = disassemble(code, address);
    decode_listing(&listing)
}

/// A text of a register's name, a comma and a blank, and a system register's name reads
/// as those two operands.
proof fn lemma_two_operands(a: Seq<char>, b: Seq<char>)
    requires
        plain_operand(a),
        plain_operand(b),
    ensures
        ({
            let ops = a + seq![',', ' '] + b;
            &&& ascii_lowercase(ops) == ops
            &&& pieces(ops, ',').len() == 2
            &&& operand(ops, 0) == a
            &&& operand(ops, 1) == b
        }),
{
    let ops = a + seq![',', ' '] + b;
    let rest = seq![' '] + b;
    assert(ops =~= a + seq![','] + rest);
    lemma_pieces_two(a, rest, ',');
    assert(rest.drop_first() =~= b);
    assert(trimmed_start(rest) == trimmed_start(b));
    assert(ascii_lowercase(ops) =~= ops) by {
        assert forall|i: int| 0 <= i < ops.len() implies ascii_lower(#[trigger] ops[i])
            == ops[i] by {
            if i < a.len() {
                assert(ops[i] == a[i]);
            } else if i >= a.len() + 2 {
                assert(ops[i] == b[i - a.len() - 2]);
            }
        }
    }
}

/// An operand as the disassembler writes it: no capital letter, no comma, and white
/// space neither before nor behind it.
pub open spec fn plain_operand(s: Seq<char>) -> bool {
    &&& lowered(s)
    &&& !s.contains(',')
    &&& s.len() > 0
    &&& !is_space(s[0])
    &&& !is_space(s.last())
}

/// A general register's name is an operand as the disassembler writes it.
proof fn lemma_x_name_is_plain(n: nat)
    requires
        n <= 30,
    ensures
        plain_operand(x_name(n)),
        register_of(x_name(n)) == Some(x_register(n)),
{
    law_register_names(x_name(n), n);
}

/// Reading a system register: `mrs` with a general register's name and the name of a
/// system register.
pub proof fn law_mrs_is_decoded(n: nat, sys: Seq<char>)
    requires
        n <= 30,
        plain_operand(sys),
    ensures
        action_of_ascii("mrs"@, x_name(n) + seq![',', ' '] + sys) == Action::Mrs(
            x_register(n),
            sysreg_named(sys),
        ),
{
    reveal_strlit("mrs");
    reveal_strlit("msr");
    assert("mrs"@[1] != "msr"@[1]);
    lemma_x_name_is_plain(n);
    lemma_two_operands(x_name(n), sys);
}

/// Writing a system register: `msr` with the name of a system register and a general
/// register's name, where the text does not speak of the interrupt mask's own forms.
pub proof fn law_msr_is_decoded(n: nat, sys: Seq<char>)
    requires
        n <= 30,
        plain_operand(sys),
        !has_text(sys + seq![',', ' '] + x_name(n), "daifset"@),
        !has_text(sys + seq![',', ' '] + x_name(n), "daifclr"@),
    ensures
        action_of_ascii("msr"@, sys + seq![',', ' '] + x_name(n)) == Action::Msr(
            x_register(n),
            sysreg_named(sys),
        ),
{
    lemma_x_name_is_plain(n);
    lemma_two_operands(sys, x_name(n));
}

/// Setting and clearing interrupt mask bits: `msr` with the name of the set or the clear
/// form, and the bits.
pub proof fn law_mask_forms_are_decoded(bits: Seq<char>)
    requires
        plain_operand(bits),
        !has_text("daifclr"@ + seq![',', ' '] + bits, "daifset"@),
    ensures
        action_of_ascii("msr"@, "daifset"@ + seq![',', ' '] + bits) == Action::DaifSet(
            immediate(bits),
        ),
        action_of_ascii("msr"@, "daifclr"@ + seq![',', ' '] + bits) == Action::DaifClr(
            immediate(bits),
        ),
{
    reveal_strlit("daifset");
    reveal_strlit("daifclr");
    let set = "daifset"@ + seq![',', ' '] + bits;
    let clr = "daifclr"@ + seq![',', ' '] + bits;
    lemma_two_operands("daifset"@, bits);
    lemma_two_operands("daifclr"@, bits);
    assert(set.subrange(0, 7) =~= "daifset"@);
    assert(text_at(set, "daifset"@, 0));
    assert(clr.subrange(0, 7) =~= "daifclr"@);
    assert(text_at(clr, "daifclr"@, 0));
}

/// Zeroing a cache block: `dc zva` with a general register's name.
pub proof fn law_dc_zva_is_decoded(n: nat)
    requires
        n <= 30,
    ensures
        action_of_ascii("dc"@, "zva"@ + seq![',', ' '] + x_name(n)) == Action::DcZva(
            x_register(n),
        ),
{
    reveal_strlit("dc");
    reveal_strlit("zva");
    reveal_strlit("mrs");
    reveal_strlit("msr");
    assert("dc"@.len() != "mrs"@.len() && "dc"@.len() != "msr"@.len());
    lemma_x_name_is_plain(n);
    lemma_two_operands("zva"@, x_name(n));
}

} // verus!
