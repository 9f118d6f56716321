//! What reading text promises: how it is taken apart, which names and numbers it holds,
//! and what the text of an instruction asks for.

use crate::decode::{
    action_of, action_of_ascii, action_of_insn, action_of_listing, decodes_to,
    disassembly, immediate, insn_text, law_dc_zva_is_decoded, law_mask_forms_are_decoded, law_mrs_is_decoded,
    law_msr_is_decoded, operand, plain_operand, Action, InsnText,
    Listing,
};
use crate::register::{
    decimal_digit, register_named, register_of, x_name, x_number, x_register,
};
use crate::sysreg::{sysreg_named, SysReg};
use crate::text::{
    ascii_lower, ascii_lowercase, has_text, hex_digit, hex_number, hex_u64, is_space,
    lemma_pieces_two, lowercase, pieces, text_at, trimmed, trimmed_end, trimmed_start,
    without_leading_0x, without_leading_char,
};
use vstd::prelude::*;
use vstd::utf8::is_ascii_chars;

verus! {

/// White space, by the codes of its characters.
pub proof fn law_white_space_by_code(c: char)
    ensures
        ({
            let n = c as u32;
            is_space(c) <==> {
                ||| 9 <= n <= 13
                ||| n == 32
                ||| n == 133
                ||| n == 160
                ||| n == 5760
                ||| 8192 <= n <= 8202
                ||| n == 8232
                ||| n == 8233
                ||| n == 8239
                ||| n == 8287
                ||| n == 12288
            }
        }),
{
}

/// Trimming the start drops the white space there and nothing more.
proof fn lemma_start_is_trimmed(s: Seq<char>) -> (i: int)
    ensures
        0 <= i <= s.len(),
        trimmed_start(s) == s.skip(i),
        forall|k: int| 0 <= k < i ==> is_space(#[trigger] s[k]),
        i < s.len() ==> !is_space(s[i]),
    decreases s.len(),
{
    if s.len() > 0 && is_space(s[0]) {
        let t = s.drop_first();
        let j = lemma_start_is_trimmed(t);
        assert(t.skip(j) =~= s.skip(j + 1));
        assert forall|k: int| 0 <= k < j + 1 implies is_space(#[trigger] s[k]) by {
            if k > 0 {
                assert(t[k - 1] == s[k]);
            }
        }
        if j + 1 < s.len() {
            assert(t[j] == s[j + 1]);
        }
        j + 1
    } else {
        assert(s.skip(0) =~= s);
        0
    }
}

/// Trimming the end drops the white space there and nothing more.
proof fn lemma_end_is_trimmed(s: Seq<char>) -> (j: int)
    ensures
        0 <= j <= s.len(),
        trimmed_end(s) == s.take(j),
        forall|k: int| j <= k < s.len() ==> is_space(#[trigger] s[k]),
        j > 0 ==> !is_space(s[j - 1]),
    decreases s.len(),
{
    if s.len() > 0 && is_space(s.last()) {
        let t = s.drop_last();
        let j = lemma_end_is_trimmed(t);
        assert(t.take(j) =~= s.take(j));
        assert forall|k: int| j <= k < s.len() implies is_space(#[trigger] s[k]) by {
            if k < s.len() - 1 {
                assert(t[k] == s[k]);
            }
        }
        j
    } else {
        assert(s.take(s.len() as int) =~= s);
        s.len() as int
    }
}

/// Trimming drops white space from both ends, all of it, and nothing else: what is left
/// stands in the text from one place to another, with nothing but white space around it,
/// and neither begins nor ends with white space.
pub proof fn law_trimming_drops_only_white_space(s: Seq<char>) -> (r: (int, int))
    ensures
        0 <= r.0 <= r.1 <= s.len(),
        trimmed(s) == s.subrange(r.0, r.1),
        forall|k: int| 0 <= k < r.0 || r.1 <= k < s.len() ==> is_space(#[trigger] s[k]),
        r.0 < r.1 ==> !is_space(s[r.0]) && !is_space(s[r.1 - 1]),
{
    let i = lemma_start_is_trimmed(s);
    let t = s.skip(i);
    let j = lemma_end_is_trimmed(t);
    assert(t.take(j) =~= s.subrange(i, i + j));
    assert forall|k: int| 0 <= k < i || i + j <= k < s.len() implies is_space(#[trigger] s[k]) by {
        if k >= i + j {
            assert(t[k - i] == s[k]);
        }
    }
    if j > 0 {
        assert(t[0] == s[i]);
        assert(t[j - 1] == s[i + j - 1]);
    }
    (i, i + j)
}

/// A text that is found in another stands there between two parts.
pub proof fn law_found_text_stands_there(s: Seq<char>, pat: Seq<char>) -> (r: (
    Seq<char>,
    Seq<char>,
))
    requires
        has_text(s, pat),
    ensures
        s == r.0 + pat + r.1,
{
    let i = choose|i: int| #[trigger] text_at(s, pat, i);
    let r = (s.take(i), s.skip(i + pat.len()));
    assert(s =~= r.0 + s.subrange(i, i + pat.len()) + r.1);
    r
}

/// A text that stands between two parts is found.
pub proof fn law_standing_text_is_found(before: Seq<char>, pat: Seq<char>, behind: Seq<char>)
    ensures
        has_text(before + pat + behind, pat),
{
    let s = before + pat + behind;
    let i = before.len() as int;
    assert(s.subrange(i, i + pat.len()) =~= pat);
    assert(text_at(s, pat, i));
}

/// The parts put together, with the separator between each two.
pub open spec fn joined(parts: Seq<Seq<char>>, sep: char) -> Seq<char>
    decreases parts.len(),
{
    if parts.len() == 0 {
        Seq::empty()
    } else if parts.len() == 1 {
        parts[0]
    } else {
        joined(parts.drop_last(), sep) + seq![sep] + parts.last()
    }
}

/// A text is split at every separator and nowhere else: none of the pieces holds one,
/// and put together again they are the text.
pub proof fn law_pieces_make_up_the_text(s: Seq<char>, sep: char)
    ensures
        pieces(s, sep).len() >= 1,
        joined(pieces(s, sep), sep) == s,
        forall|i: int| 0 <= i < pieces(s, sep).len() ==> !(#[trigger] pieces(s, sep)[i]).contains(sep),
    decreases s.len(),
{
    let p = pieces(s, sep);
    if s.len() == 0 {
        assert(p[0] =~= s);
    } else {
        let t = s.drop_last();
        let q = pieces(t, sep);
        law_pieces_make_up_the_text(t, sep);
        if s.last() == sep {
            assert(p.drop_last() =~= q);
            assert(joined(p, sep) =~= s);
        } else {
            assert(p.drop_last() =~= q.drop_last());
            let last = q.last().push(s.last());
            assert(p.last() == last);
            assert(!q[q.len() - 1].contains(sep));
            assert forall|i: int| 0 <= i < p.len() implies !(#[trigger] p[i]).contains(sep) by {
                if i == p.len() - 1 {
                    if last.contains(sep) {
                        let k = choose|k: int| 0 <= k < last.len() && last[k] == sep;
                        assert(q.last()[k] == sep);
                        assert(q.last().contains(sep));
                    }
                } else {
                    assert(p[i] == q[i]);
                }
            }
            if p.len() == 1 {
                assert(joined(q, sep) == q[0]);
                assert(p[0] =~= s);
            } else {
                let head = joined(q.drop_last(), sep) + seq![sep];
                assert(joined(q, sep) == head + q.last());
                assert(joined(p, sep) == head + last);
                assert(head + last =~= (head + q.last()).push(s.last()));
                assert(t.push(s.last()) =~= s);
            }
        }
    }
}

/// Leading characters are dropped as long as they are the given one.
pub proof fn law_leading_characters_are_dropped(s: Seq<char>, c: char) -> (i: int)
    ensures
        0 <= i <= s.len(),
        without_leading_char(s, c) == s.skip(i),
        forall|k: int| 0 <= k < i ==> #[trigger] s[k] == c,
        i < s.len() ==> s[i] != c,
    decreases s.len(),
{
    if s.len() > 0 && s[0] == c {
        let t = s.drop_first();
        let j = law_leading_characters_are_dropped(t, c);
        assert(t.skip(j) =~= s.skip(j + 1));
        assert forall|k: int| 0 <= k < j + 1 implies #[trigger] s[k] == c by {
            if k > 0 {
                assert(t[k - 1] == s[k]);
            }
        }
        if j + 1 < s.len() {
            assert(t[j] == s[j + 1]);
        }
        j + 1
    } else {
        assert(s.skip(0) =~= s);
        0
    }
}

/// A leading `0x` is dropped, as often as one stands there.
pub proof fn law_leading_0x_is_dropped(s: Seq<char>)
    ensures
        without_leading_0x(seq!['0', 'x'] + s) == without_leading_0x(s),
        s.len() < 2 || s[0] != '0' || s[1] != 'x' ==> without_leading_0x(s) == s,
{
    assert((seq!['0', 'x'] + s).skip(2) =~= s);
}

/// Hexadecimal digits, by the codes of their characters.
pub proof fn law_hexadecimal_digits_by_code(c: char)
    ensures
        ({
            let n = c as u32;
            hex_digit(c) == (if 48 <= n <= 57 {
                Some((n - 48) as nat)
            } else if 65 <= n <= 70 {
                Some((n - 55) as nat)
            } else if 97 <= n <= 102 {
                Some((n - 87) as nat)
            } else {
                None
            })
        }),
{
}

/// A digit more multiplies the number by sixteen and adds its own value; with a character
/// that is no digit there is no number.
pub proof fn law_digits_add_up(s: Seq<char>, c: char)
    ensures
        hex_number(Seq::empty()) == Some(0nat),
        hex_number(s.push(c)) is Some <==> hex_number(s) is Some && hex_digit(c) is Some,
        hex_number(s.push(c)) matches Some(n) ==> n == 16 * hex_number(s)->0 + hex_digit(c)->0,
{
    assert(s.push(c).drop_last() =~= s);
}

/// The small digit with the value.
pub open spec fn digit_of(d: nat) -> char {
    if d < 10 {
        ((48 + d) as u32) as char
    } else {
        ((87 + d) as u32) as char
    }
}

/// A number written down in base sixteen, with small digits and no needless zero.
pub open spec fn written(n: nat) -> Seq<char>
    decreases n,
{
    if n < 16 {
        seq![digit_of(n)]
    } else {
        written(n / 16).push(digit_of(n % 16))
    }
}

/// A number that is written down is made of digits only, and reads as that number.
proof fn lemma_written_reads(n: nat)
    ensures
        written(n).len() >= 1,
        hex_number(written(n)) == Some(n),
        forall|k: int| 0 <= k < written(n).len() ==> hex_digit(#[trigger] written(n)[k]) is Some,
    decreases n,
{
    let e = Seq::<char>::empty();
    if n < 16 {
        assert(written(n) =~= e.push(digit_of(n)));
        law_digits_add_up(e, digit_of(n));
    } else {
        lemma_written_reads(n / 16);
        law_digits_add_up(written(n / 16), digit_of(n % 16));
        let w = written(n / 16);
        assert forall|k: int| 0 <= k < written(n).len() implies hex_digit(
            #[trigger] written(n)[k],
        ) is Some by {
            if k < w.len() {
                assert(written(n)[k] == w[k]);
            }
        }
    }
}

/// A number of 64 bits that is written down reads as that number, with a plus sign
/// before it or without; a greater one reads as none.
pub proof fn law_written_number_reads_back(n: nat)
    ensures
        n <= u64::MAX ==> hex_u64(written(n)) == Some(n as u64),
        n <= u64::MAX ==> hex_u64(seq!['+'] + written(n)) == Some(n as u64),
        n > u64::MAX ==> hex_u64(written(n)) is None && hex_u64(seq!['+'] + written(n)) is None,
{
    lemma_written_reads(n);
    assert(hex_digit(written(n)[0]) is Some);
    assert((seq!['+'] + written(n)).drop_first() =~= written(n));
}

/// Without a digit, or with a character that is none behind the sign, there is no number;
/// otherwise the number is what the digits make, if that fits.
pub proof fn law_numbers_are_made_of_digits(s: Seq<char>)
    ensures
        hex_u64(Seq::empty()) is None,
        hex_u64(seq!['+']) is None,
        s.len() > 0 && s[0] != '+' ==> hex_u64(seq!['+'] + s) == hex_u64(s),
        hex_u64(seq!['+', '+'] + s) is None,
        s.len() > 0 && s[0] != '+' ==> (hex_u64(s) matches Some(n) ==> hex_number(s) == Some(
            n as nat,
        )),
        s.len() > 0 && s[0] != '+' && hex_u64(s) is None ==> (hex_number(s) matches Some(n) ==> n
            > u64::MAX),
{
    assert((seq!['+'] + s).drop_first() =~= s);
    assert(seq!['+'].drop_first() =~= Seq::<char>::empty());
    let t = seq!['+', '+'] + s;
    assert(t.drop_first() =~= seq!['+'] + s);
    lemma_no_number_behind_a_sign(s);
}

/// A text that begins with a plus sign is no digits.
proof fn lemma_no_number_behind_a_sign(s: Seq<char>)
    ensures
        hex_number(seq!['+'] + s) is None,
    decreases s.len(),
{
    let t = seq!['+'] + s;
    if s.len() > 0 {
        assert(t.drop_last() =~= seq!['+'] + s.drop_last());
        lemma_no_number_behind_a_sign(s.drop_last());
    } else {
        assert(t.last() == '+');
    }
}

/// Lower case moves the codes of the twenty-six capital letters up by thirty-two, and
/// changes no other character.
pub proof fn law_lower_case_by_code(c: char)
    ensures
        65 <= c as u32 <= 90 ==> ascii_lower(c) as u32 == c as u32 + 32,
        !(65 <= c as u32 <= 90) ==> ascii_lower(c) == c,
{
}

/// The text is an `x` and the number in decimal, without a needless zero.
pub open spec fn is_x_and_number(s: Seq<char>, n: nat) -> bool {
    &&& s.len() >= 2 && s[0] as u32 == 120
    &&& n < 10 ==> s.len() == 2 && s[1] as u32 == 48 + n
    &&& n >= 10 ==> s.len() == 3 && s[1] as u32 == 48 + n / 10 && s[2] as u32 == 48 + n % 10
}

/// The codes of an `x` and of the decimal digits.
proof fn lemma_characters_by_code(c: char, d: nat)
    ensures
        c as u32 == 120 <==> c == 'x',
        d < 10 ==> (c as u32 == 48 + d <==> decimal_digit(c) == Some(d)),
{
}

/// An `x` with a number up to thirty names the general register with that number, and
/// the numbers name different registers.
pub proof fn law_register_is_named_by_its_number(s: Seq<char>, n: nat, other: nat)
    requires
        n <= 30,
        is_x_and_number(s, n),
    ensures
        register_of(s) == Some(x_register(n)),
        other <= 30 && other != n ==> x_register(other) != x_register(n),
        register_named(s) == register_of(lowercase(trimmed(s))),
{
    lemma_characters_by_code(s[0], 0);
    if n >= 10 {
        lemma_characters_by_code(s[1], n / 10);
        lemma_characters_by_code(s[2], n % 10);
    } else {
        lemma_characters_by_code(s[1], n);
    }
}

/// No other text names a register.
pub proof fn law_only_numbers_name_registers(s: Seq<char>) -> (n: nat)
    requires
        register_of(s) is Some,
    ensures
        n <= 30,
        is_x_and_number(s, n),
{
    let n = x_number(s)->0;
    lemma_characters_by_code(s[0], 0);
    if s.len() == 3 {
        lemma_characters_by_code(s[1], n / 10);
        lemma_characters_by_code(s[2], n % 10);
    } else {
        lemma_characters_by_code(s[1], n);
    }
    n
}

/// The name by which a system register is known in an operand.
pub open spec fn known_name(sys: SysReg) -> Seq<char> {
    match sys {
        SysReg::VbarEl1 => "vbar_el"@,
        SysReg::ElrEl1 => "elr_el1"@,
        SysReg::SpsrEl1 => "spsr_el1"@,
        SysReg::SpEl0 => "sp_el0"@,
        SysReg::Fpcr => "fpcr"@,
        SysReg::Fpsr => "fpsr"@,
        SysReg::TpidrEl1 => "tpidr_el1"@,
        SysReg::TpidrEl0 => "tpidr_el0"@,
        SysReg::TpidrroEl0 => "tpidrro_el0"@,
        SysReg::CntvCval => "cntv_cval"@,
        SysReg::CntpCval => "cntp_cval"@,
        SysReg::CntvTval => "cntv_tval"@,
        SysReg::CntpTval => "cntp_tval"@,
        SysReg::CntvCtl => "cntv_ctl"@,
        SysReg::CntpCtl => "cntp_ctl"@,
        SysReg::Daif => "daif"@,
        SysReg::CpacrEl1 => "cpacr_el1"@,
        SysReg::SctlrEl1 => "sctlr_el1"@,
        SysReg::TcrEl1 => "tcr_el1"@,
        SysReg::Cntpct => "cntpct"@,
        SysReg::Cntvct => "cntvct"@,
        SysReg::CurrentEl => "currentel"@,
        SysReg::Cntfrq => "cntfrq"@,
        SysReg::EsrEl1 => "esr_el1"@,
        SysReg::FarEl1 => "far_el1"@,
        SysReg::DczidEl0 => "dczid_el0"@,
        SysReg::Midr => "midr"@,
        SysReg::Unknown => ""@,
    }
}

/// Where the names of two registers stand in one operand, that with the lower number
/// counts.
pub open spec fn name_order(sys: SysReg) -> int {
    match sys {
        SysReg::VbarEl1 => 1,
        SysReg::ElrEl1 => 2,
        SysReg::SpsrEl1 => 3,
        SysReg::SpEl0 => 4,
        SysReg::Fpcr => 5,
        SysReg::Fpsr => 6,
        SysReg::TpidrEl1 => 7,
        SysReg::TpidrEl0 => 8,
        SysReg::TpidrroEl0 => 9,
        SysReg::CntvCval => 10,
        SysReg::CntpCval => 11,
        SysReg::CntvTval => 12,
        SysReg::CntpTval => 13,
        SysReg::CntvCtl => 14,
        SysReg::CntpCtl => 15,
        SysReg::Daif => 16,
        SysReg::CpacrEl1 => 17,
        SysReg::SctlrEl1 => 18,
        SysReg::TcrEl1 => 19,
        SysReg::Cntpct => 20,
        SysReg::Cntvct => 21,
        SysReg::CurrentEl => 22,
        SysReg::Cntfrq => 23,
        SysReg::EsrEl1 => 24,
        SysReg::FarEl1 => 25,
        SysReg::DczidEl0 => 26,
        SysReg::Midr => 27,
        SysReg::Unknown => 28,
    }
}

/// An operand names the register whose name stands in it, the one that comes first in
/// the order where there are several; it names no register exactly where no name stands
/// in it.
pub proof fn law_operand_names_a_register(s: Seq<char>, sys: SysReg)
    requires
        sys != SysReg::Unknown,
    ensures
        has_text(s, known_name(sys)) ==> name_order(sysreg_named(s)) <= name_order(sys),
        sysreg_named(s) == sys ==> has_text(s, known_name(sys)),
        sysreg_named(s) == SysReg::Unknown ==> !has_text(s, known_name(sys)),
{
}

/// A register's name with any text around it names that register, unless the name of a
/// register that comes before it in the order stands there too.
pub proof fn law_name_in_an_operand_is_read(
    before: Seq<char>,
    sys: SysReg,
    behind: Seq<char>,
)
    requires
        sys != SysReg::Unknown,
        forall|other: SysReg| #[trigger]
            name_order(other) < name_order(sys) ==> !has_text(
                before + known_name(sys) + behind,
                known_name(other),
            ),
    ensures
        sysreg_named(before + known_name(sys) + behind) == sys,
{
    let s = before + known_name(sys) + behind;
    let named = sysreg_named(s);
    law_standing_text_is_found(before, known_name(sys), behind);
    law_operand_names_a_register(s, sys);
    if named != SysReg::Unknown {
        law_operand_names_a_register(s, named);
    }
    if name_order(named) < name_order(sys) {
        assert(!has_text(s, known_name(named)));
    }
}

/// The bits of a mask instruction are read as they are written: in base sixteen, behind a
/// number sign, with `0x` or without. Number signs before the bits do not matter, nor does
/// a `0x` behind them. What is then no number counts as zero.
pub proof fn law_immediate_reads_back(n: u64, s: Seq<char>)
    ensures
        immediate(seq!['#'] + written(n as nat)) == n,
        immediate(seq!['#', '0', 'x'] + written(n as nat)) == n,
        immediate(written(n as nat)) == n,
        immediate(seq!['#'] + s) == immediate(s),
        s.len() == 0 || s[0] != '#' ==> immediate(seq!['0', 'x'] + s) == immediate(s),
        (s.len() == 0 || s[0] != '#') && (s.len() < 2 || s[0] != '0' || s[1] != 'x') ==> immediate(s)
            == (match hex_u64(s) {
            Some(v) => v,
            None => 0,
        }),
{
    let w = written(n as nat);
    let x = seq!['0', 'x'] + w;
    lemma_written_reads(n as nat);
    law_written_number_reads_back(n as nat);
    assert(hex_digit(w[0]) is Some);
    assert(w.len() >= 2 ==> hex_digit(w[1]) is Some);
    assert((seq!['#'] + w).drop_first() =~= w);
    assert((seq!['#', '0', 'x'] + w).drop_first() =~= x);
    assert((seq!['#'] + s).drop_first() =~= s);
    assert(without_leading_char(w, '#') == w);
    assert(without_leading_char(x, '#') == x);
    assert(without_leading_char(seq!['#'] + w, '#') == without_leading_char(w, '#'));
    assert(without_leading_char(seq!['#', '0', 'x'] + w, '#') == without_leading_char(x, '#'));
    assert(without_leading_char(seq!['#'] + s, '#') == without_leading_char(s, '#'));
    assert(without_leading_char(seq!['0', 'x'] + s, '#') == seq!['0', 'x'] + s);
    law_leading_0x_is_dropped(w);
    law_leading_0x_is_dropped(s);
}

/// The operands of a text with one comma are what stands on its two sides.
proof fn lemma_two_operands_stand(a: Seq<char>, b: Seq<char>)
    requires
        !a.contains(','),
        !b.contains(','),
    ensures
        operand(a + seq![','] + b, 0) == trimmed(a),
        operand(a + seq![','] + b, 1) == trimmed(b),
        pieces(a + seq![','] + b, ',').len() == 2,
{
    lemma_pieces_two(a, b, ',');
}

/// Texts that ask for anything are two operands with one comma between them.
pub proof fn law_only_two_operands_ask(mnemonic: Seq<char>, operands: Seq<char>) -> (r: (
    Seq<char>,
    Seq<char>,
))
    requires
        action_of(mnemonic, operands) != Action::Ignore,
    ensures
        lowercase(operands) == r.0 + seq![','] + r.1,
        !r.0.contains(','),
        !r.1.contains(','),
        mnemonic == "msr"@ || mnemonic == "mrs"@ || mnemonic == "dc"@,
{
    lemma_parts_of_two(lowercase(operands))
}

/// ASCII texts that ask for anything are two operands with one comma between them.
pub proof fn law_only_two_ascii_operands_ask(mnemonic: Seq<char>, operands: Seq<char>) -> (r: (
    Seq<char>,
    Seq<char>,
))
    requires
        action_of_ascii(mnemonic, operands) != Action::Ignore,
    ensures
        ascii_lowercase(operands) == r.0 + seq![','] + r.1,
        !r.0.contains(','),
        !r.1.contains(','),
        mnemonic == "msr"@ || mnemonic == "mrs"@ || mnemonic == "dc"@,
{
    lemma_parts_of_two(ascii_lowercase(operands))
}

/// A text of two pieces is these pieces with the separator between them.
proof fn lemma_parts_of_two(s: Seq<char>) -> (r: (Seq<char>, Seq<char>))
    requires
        pieces(s, ',').len() == 2,
    ensures
        s == r.0 + seq![','] + r.1,
        !r.0.contains(','),
        !r.1.contains(','),
{
    let p = pieces(s, ',');
    law_pieces_make_up_the_text(s, ',');
    assert(joined(p.drop_last(), ',') == p[0]);
    assert(joined(p, ',') == joined(p.drop_last(), ',') + seq![','] + p[1]);
    (p[0], p[1])
}

/// `mrs` moves the system register that the second operand names to the general register
/// that the first one names; where that is none, nothing is done.
pub proof fn law_mrs_moves_from_the_second_operand(operands: Seq<char>, a: Seq<char>, b: Seq<char>)
    requires
        !a.contains(','),
        !b.contains(','),
    ensures
        lowercase(operands) == a + seq![','] + b ==> action_of("mrs"@, operands) == (
        match register_named(trimmed(a)) {
            Some(reg) => Action::Mrs(reg, sysreg_named(trimmed(b))),
            None => Action::Ignore,
        }),
        ascii_lowercase(operands) == a + seq![','] + b ==> action_of_ascii("mrs"@, operands) == (
        match register_of(trimmed(a)) {
            Some(reg) => Action::Mrs(reg, sysreg_named(trimmed(b))),
            None => Action::Ignore,
        }),
{
    reveal_strlit("mrs");
    reveal_strlit("msr");
    assert("mrs"@[1] != "msr"@[1]);
    lemma_two_operands_stand(a, b);
}

/// `msr` moves the general register that the second operand names to the system register
/// that the first one names; where it is none, nothing is done. A text that speaks of
/// setting or clearing mask bits does that instead, with the bits of its second operand.
pub proof fn law_msr_moves_to_the_first_operand(operands: Seq<char>, a: Seq<char>, b: Seq<char>)
    requires
        !a.contains(','),
        !b.contains(','),
    ensures
        ({
            let ops = a + seq![','] + b;
            let set = has_text(ops, "daifset"@);
            let clr = has_text(ops, "daifclr"@);
            let bits = immediate(trimmed(b));
            &&& lowercase(operands) == ops && set ==> action_of("msr"@, operands)
                == Action::DaifSet(bits)
            &&& lowercase(operands) == ops && !set && clr ==> action_of("msr"@, operands)
                == Action::DaifClr(bits)
            &&& lowercase(operands) == ops && !set && !clr ==> action_of("msr"@, operands) == (
            match register_named(trimmed(b)) {
                Some(reg) => Action::Msr(reg, sysreg_named(trimmed(a))),
                None => Action::Ignore,
            })
            &&& ascii_lowercase(operands) == ops && set ==> action_of_ascii("msr"@, operands)
                == Action::DaifSet(bits)
            &&& ascii_lowercase(operands) == ops && !set && clr ==> action_of_ascii(
                "msr"@,
                operands,
            ) == Action::DaifClr(bits)
            &&& ascii_lowercase(operands) == ops && !set && !clr ==> action_of_ascii(
                "msr"@,
                operands,
            ) == (match register_of(trimmed(b)) {
                Some(reg) => Action::Msr(reg, sysreg_named(trimmed(a))),
                None => Action::Ignore,
            })
        }),
{
    lemma_two_operands_stand(a, b);
}

/// `dc` zeroes the block that the second operand points to where the first one is `zva`;
/// with any other first operand, or none for the second, nothing is done.
pub proof fn law_dc_zeroes_for_zva_only(operands: Seq<char>, a: Seq<char>, b: Seq<char>)
    requires
        !a.contains(','),
        !b.contains(','),
    ensures
        lowercase(operands) == a + seq![','] + b ==> action_of("dc"@, operands) == (
        match register_named(trimmed(b)) {
            Some(reg) => if trimmed(a) == "zva"@ {
                Action::DcZva(reg)
            } else {
                Action::Ignore
            },
            None => Action::Ignore,
        }),
        ascii_lowercase(operands) == a + seq![','] + b ==> action_of_ascii("dc"@, operands) == (
        match register_of(trimmed(b)) {
            Some(reg) => if trimmed(a) == "zva"@ {
                Action::DcZva(reg)
            } else {
                Action::Ignore
            },
            None => Action::Ignore,
        }),
{
    reveal_strlit("dc");
    reveal_strlit("mrs");
    reveal_strlit("msr");
    assert("dc"@.len() != "mrs"@.len() && "dc"@.len() != "msr"@.len());
    lemma_two_operands_stand(a, b);
}

/// The text of the instruction decides, and nothing else: where nothing was read nothing
/// is asked for, and a missing part of the text counts as empty.
pub proof fn law_text_of_the_instruction_decides(mnemonic: Seq<char>, operands: Seq<char>)
    ensures
        action_of_insn(None) == Action::Ignore,
        action_of_insn(Some((Some(mnemonic), Some(operands)))) == action_of(mnemonic, operands),
        action_of_insn(Some((Some(mnemonic), None))) == action_of(mnemonic, Seq::empty()),
        action_of_insn(Some((None, Some(operands)))) == Action::Ignore,
        action_of_insn(Some((None, None))) == Action::Ignore,
        action_of_listing(Listing::NoDisassembler) is None,
        action_of_listing(Listing::Failed) == Some(Action::Ignore),
        action_of_listing(Listing::Read(None)) == Some(Action::Ignore),
{
    reveal_strlit("");
    reveal_strlit("dc");
    reveal_strlit("mrs");
    reveal_strlit("msr");
    assert(""@ =~= Seq::<char>::empty());
    assert(""@.len() != "dc"@.len() && ""@.len() != "mrs"@.len() && ""@.len() != "msr"@.len());
}

/// A listing asks for what its texts ask for, character by character.
pub proof fn law_listing_asks_for_its_text(mnemonic: String, operands: String)
    ensures
        action_of_listing(
            Listing::Read(Some(InsnText { mnemonic: Some(mnemonic), op_str: Some(operands) })),
        ) == Some(action_of(mnemonic@, operands@)),
        action_of_listing(
            Listing::Read(Some(InsnText { mnemonic: Some(mnemonic), op_str: None })),
        ) == Some(action_of(mnemonic@, Seq::empty())),
        action_of_listing(
            Listing::Read(Some(InsnText { mnemonic: None, op_str: Some(operands) })),
        ) == Some(Action::Ignore),
        insn_text(
            Some(InsnText { mnemonic: Some(mnemonic), op_str: Some(operands) }),
        ) == Some((Some(mnemonic@), Some(operands@))),
        insn_text(Some(InsnText { mnemonic: None, op_str: None })) == Some(
            (None::<Seq<char>>, None::<Seq<char>>),
        ),
        insn_text(None) is None,
{
    law_text_of_the_instruction_decides(mnemonic@, operands@);
}

/// Decoding has one result, and it is what the instruction's text asks for: it is nothing
/// only where the disassembler read nothing or the text asks for nothing.
pub proof fn law_decoding_follows_the_text(
    code: Seq<u8>,
    address: u64,
    a: Option<Action>,
    mnemonic: Seq<char>,
    operands: Seq<char>,
)
    requires
        decodes_to(code, address, a),
    ensures
        a is Some,
        disassembly(code, address) is None ==> a == Some(Action::Ignore),
        disassembly(code, address) == Some((Some(mnemonic), Some(operands))) ==> a == Some(
            action_of(mnemonic, operands),
        ),
        disassembly(code, address) == Some((Some(mnemonic), Some(operands))) && is_ascii_chars(
            operands,
        ) ==> a == Some(action_of_ascii(mnemonic, operands)),
{
}

/// Two ASCII operands make an ASCII text, and a register's name is ASCII.
proof fn lemma_ascii_operands(a: Seq<char>, b: Seq<char>)
    requires
        is_ascii_chars(a),
        is_ascii_chars(b),
    ensures
        is_ascii_chars(a + seq![',', ' '] + b),
{
    let s = a + seq![',', ' '] + b;
    assert forall|i: int| 0 <= i < s.len() implies '\0' <= #[trigger] s[i] <= '\u{7f}' by {
        if i < a.len() {
            assert(s[i] == a[i]);
        } else if i >= a.len() + 2 {
            assert(s[i] == b[i - a.len() - 2]);
        }
    }
}

/// Where the disassembler reads a move of the general register `n` to a system register,
/// that is what the instruction is decoded to, and never to nothing.
pub proof fn law_read_msr_is_not_left_out(
    code: Seq<u8>,
    address: u64,
    a: Option<Action>,
    n: nat,
    sys: Seq<char>,
)
    requires
        decodes_to(code, address, a),
        n <= 30,
        plain_operand(sys),
        is_ascii_chars(sys),
        disassembly(code, address) == Some(
            (Some("msr"@), Some(sys + seq![',', ' '] + x_name(n))),
        ),
        !has_text(sys + seq![',', ' '] + x_name(n), "daifset"@),
        !has_text(sys + seq![',', ' '] + x_name(n), "daifclr"@),
    ensures
        a == Some(Action::Msr(x_register(n), sysreg_named(sys))),
{
    lemma_ascii_operands(sys, x_name(n));
    law_msr_is_decoded(n, sys);
}

/// Where the disassembler reads a move of a system register to the general register `n`,
/// that is what the instruction is decoded to, and never to nothing.
pub proof fn law_read_mrs_is_not_left_out(
    code: Seq<u8>,
    address: u64,
    a: Option<Action>,
    n: nat,
    sys: Seq<char>,
)
    requires
        decodes_to(code, address, a),
        n <= 30,
        plain_operand(sys),
        is_ascii_chars(sys),
        disassembly(code, address) == Some(
            (Some("mrs"@), Some(x_name(n) + seq![',', ' '] + sys)),
        ),
    ensures
        a == Some(Action::Mrs(x_register(n), sysreg_named(sys))),
{
    lemma_ascii_operands(x_name(n), sys);
    law_mrs_is_decoded(n, sys);
}

/// Where the disassembler reads that mask bits are set or cleared, with the bits `bits`,
/// that is what the instruction is decoded to, with these bits.
pub proof fn law_read_mask_bits_are_not_left_out(
    code: Seq<u8>,
    address: u64,
    a: Option<Action>,
    bits: u64,
)
    requires
        decodes_to(code, address, a),
    ensures
        ({
            let b = seq!['#'] + written(bits as nat);
            &&& disassembly(code, address) == Some(
                (Some("msr"@), Some("daifset"@ + seq![',', ' '] + b)),
            ) ==> a == Some(Action::DaifSet(bits))
            &&& disassembly(code, address) == Some(
                (Some("msr"@), Some("daifclr"@ + seq![',', ' '] + b)),
            ) ==> a == Some(Action::DaifClr(bits))
        }),
{
    let b = seq!['#'] + written(bits as nat);
    lemma_written_bits_are_plain(bits);
    law_immediate_reads_back(bits, Seq::empty());
    reveal_strlit("daifset");
    reveal_strlit("daifclr");
    lemma_ascii_operands("daifset"@, b);
    lemma_ascii_operands("daifclr"@, b);
    law_mask_forms_are_decoded(b);
}

/// Bits behind a number sign are an operand as the disassembler writes it, and behind the
/// name of the form that clears they do not speak of setting.
proof fn lemma_written_bits_are_plain(bits: u64)
    ensures
        ({
            let b = seq!['#'] + written(bits as nat);
            &&& plain_operand(b)
            &&& is_ascii_chars(b)
            &&& !has_text("daifclr"@ + seq![',', ' '] + b, "daifset"@)
        }),
{
    let w = written(bits as nat);
    let b = seq!['#'] + w;
    lemma_written_is_small(bits as nat);
    assert forall|i: int| 0 <= i < b.len() implies is_small_digit(#[trigger] b[i]) || b[i]
        == '#' by {
        if i > 0 {
            assert(b[i] == w[i - 1]);
        }
    }
    assert(ascii_lowercase(b) =~= b);
    assert(b.last() == w.last());
    reveal_strlit("daifset");
    reveal_strlit("daifclr");
    let s = "daifclr"@ + seq![',', ' '] + b;
    if has_text(s, "daifset"@) {
        let i = choose|i: int| #[trigger] text_at(s, "daifset"@, i);
        let f = s.subrange(i, i + 7);
        assert(f[4] == 's' && f[6] == 't');
        assert(s[i + 4] == 's');
        assert(s[i + 6] == 't');
        if i + 6 >= 9 {
            assert(s[i + 6] == b[i + 6 - 9]);
        }
    }
}

/// A digit below ten, or a small one from ten on.
spec fn is_small_digit(c: char) -> bool {
    '0' <= c <= '9' || 'a' <= c <= 'f'
}

/// Written numbers are made of small digits.
proof fn lemma_written_is_small(n: nat)
    ensures
        written(n).len() >= 1,
        forall|k: int| 0 <= k < written(n).len() ==> is_small_digit(#[trigger] written(n)[k]),
    decreases n,
{
    if n >= 16 {
        lemma_written_is_small(n / 16);
        let w = written(n / 16);
        assert forall|k: int| 0 <= k < written(n).len() implies is_small_digit(
            #[trigger] written(n)[k],
        ) by {
            if k < w.len() {
                assert(written(n)[k] == w[k]);
            }
        }
    }
}

/// Where the disassembler reads that the block at the general register `n` is zeroed,
/// that is what the instruction is decoded to.
pub proof fn law_read_dc_zva_is_not_left_out(
    code: Seq<u8>,
    address: u64,
    a: Option<Action>,
    n: nat,
)
    requires
        decodes_to(code, address, a),
        n <= 30,
        disassembly(code, address) == Some(
            (Some("dc"@), Some("zva"@ + seq![',', ' '] + x_name(n))),
        ),
    ensures
        a == Some(Action::DcZva(x_register(n))),
{
    reveal_strlit("zva");
    lemma_ascii_operands("zva"@, x_name(n));
    law_dc_zva_is_decoded(n);
}

} // verus!
