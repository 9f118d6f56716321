//! The registers of the emulated core that the emulator reads and writes by name.

use crate::text::{
    ascii_lower, ascii_lowercase, chars_of, is_blank, lemma_trimmed_lowercase,
    lemma_trimmed_within_blanks, lowercase, trim, trimmed,
};
use vstd::prelude::*;
use vstd::utf8::is_ascii_chars;

verus! {

/// A register of the core: the general registers `X0` to `X30`, the condition
/// flags, the program counter and the stack pointer.
#[derive(Clone, Copy, Debug, PartialEq, Eq, Structural)]
pub enum Register {
    X0,
    X1,
    X2,
    X3,
    X4,
    X5,
    X6,
    X7,
    X8,
    X9,
    X10,
    X11,
    X12,
    X13,
    X14,
    X15,
    X16,
    X17,
    X18,
    X19,
    X20,
    X21,
    X22,
    X23,
    X24,
    X25,
    X26,
    X27,
    X28,
    X29,
    X30,
    Nzcv,
    Pc,
    Sp,
}

/// The general register with the number `n`.
pub open spec fn x_register(n: nat) -> Register {
    if n == 0 {
        Register::X0
    } else if n == 1 {
        Register::X1
    } else if n == 2 {
        Register::X2
    } else if n == 3 {
        Register::X3
    } else if n == 4 {
        Register::X4
    } else if n == 5 {
        Register::X5
    } else if n == 6 {
        Register::X6
    } else if n == 7 {
        Register::X7
    } else if n == 8 {
        Register::X8
    } else if n == 9 {
        Register::X9
    } else if n == 10 {
        Register::X10
    } else if n == 11 {
        Register::X11
    } else if n == 12 {
        Register::X12
    } else if n == 13 {
        Register::X13
    } else if n == 14 {
        Register::X14
    } else if n == 15 {
        Register::X15
    } else if n == 16 {
        Register::X16
    } else if n == 17 {
        Register::X17
    } else if n == 18 {
        Register::X18
    } else if n == 19 {
        Register::X19
    } else if n == 20 {
        Register::X20
    } else if n == 21 {
        Register::X21
    } else if n == 22 {
        Register::X22
    } else if n == 23 {
        Register::X23
    } else if n == 24 {
        Register::X24
    } else if n == 25 {
        Register::X25
    } else if n == 26 {
        Register::X26
    } else if n == 27 {
        Register::X27
    } else if n == 28 {
        Register::X28
    } else if n == 29 {
        Register::X29
    } else {
        Register::X30
    }
}

/// The decimal digit that `c` is.
pub open spec fn decimal_digit(c: char) -> Option<nat> {
    if '0' <= c <= '9' {
        Some((c as u32 - '0' as u32) as nat)
    } else {
        None
    }
}

/// The character that writes the digit `d`.
pub open spec fn digit_char(d: nat) -> char {
    (('0' as u32 + d) as u32) as char
}

/// The name of the general register `n`: an `x`, then `n` in decimal.
pub open spec fn x_name(n: nat) -> Seq<char> {
    if n < 10 {
        seq!['x', digit_char(n)]
    } else {
        seq!['x', digit_char(n / 10), digit_char(n % 10)]
    }
}

/// The number of the general register that the text names: an `x`, then a number
/// up to thirty in decimal without a leading zero.
pub open spec fn x_number(s: Seq<char>) -> Option<nat> {
    if s.len() == 2 && s[0] == 'x' {
        decimal_digit(s[1])
    } else if s.len() == 3 && s[0] == 'x' {
        match (decimal_digit(s[1]), decimal_digit(s[2])) {
            (Some(t), Some(u)) => if t > 0 && t * 10 + u <= 30 {
                Some(t * 10 + u)
            } else {
                None
            },
            _ => None,
        }
    } else {
        None
    }
}

/// The general register whose name is the text.
pub open spec fn register_of(text: Seq<char>) -> Option<Register> {
    match x_number(text) {
        Some(n) => Some(x_register(n)),
        None => None,
    }
}

/// The register that a text names, once trimmed and in lower case.
pub open spec fn register_named(name: Seq<char>) -> Option<Register> {
    register_of(lowercase(trimmed(name)))
}

/// A text is read as the register `n` exactly when it is that register's name.
pub proof fn law_register_names(s: Seq<char>, n: nat)
    ensures
        x_number(s) == Some(n) <==> (n <= 30 && s == x_name(n)),
{
    if x_number(s) == Some(n) {
        assert(s =~= x_name(n));
    }
}

/// White space around a text does not change which register it names.
pub proof fn law_white_space_around_a_name_does_not_matter(
    before: Seq<char>,
    name: Seq<char>,
    behind: Seq<char>,
)
    requires
        is_blank(before),
        is_blank(behind),
    ensures
        trimmed(before + name + behind) == trimmed(name),
        register_named(before + name + behind) == register_named(name),
{
    lemma_trimmed_within_blanks(before, name, behind);
}

/// Two texts that differ only in the case of ASCII letters name the same register, where
/// one of them, once trimmed, is ASCII text: then both are.
pub proof fn law_case_of_a_name_does_not_matter(name: Seq<char>, other: Seq<char>)
    requires
        is_ascii_chars(trimmed(name)),
        ascii_lowercase(name) == ascii_lowercase(other),
    ensures
        is_ascii_chars(trimmed(other)),
        register_of(ascii_lowercase(trimmed(name))) == register_of(ascii_lowercase(trimmed(other))),
{
    lemma_trimmed_lowercase(name);
    lemma_trimmed_lowercase(other);
    let n = trimmed(name);
    let o = trimmed(other);
    assert forall|i: int| 0 <= i < o.len() implies '\0' <= #[trigger] o[i] <= '\u{7f}' by {
        assert(ascii_lowercase(n)[i] == ascii_lower(n[i]));
        assert(ascii_lowercase(o)[i] == ascii_lower(o[i]));
    }
}

/// The general register with the number `n`.
fn general_register(n: u32) -> (r: Register)
    requires
        n <= 30,
    ensures
        r == x_register(n as nat),
{
    match n {
        0 => Register::X0,
        1 => Register::X1,
        2 => Register::X2,
        3 => Register::X3,
        4 => Register::X4,
        5 => Register::X5,
        6 => Register::X6,
        7 => Register::X7,
        8 => Register::X8,
        9 => Register::X9,
        10 => Register::X10,
        11 => Register::X11,
        12 => Register::X12,
        13 => Register::X13,
        14 => Register::X14,
        15 => Register::X15,
        16 => Register::X16,
        17 => Register::X17,
        18 => Register::X18,
        19 => Register::X19,
        20 => Register::X20,
        21 => Register::X21,
        22 => Register::X22,
        23 => Register::X23,
        24 => Register::X24,
        25 => Register::X25,
        26 => Register::X26,
        27 => Register::X27,
        28 => Register::X28,
        29 => Register::X29,
        _ => Register::X30,
    }
}

/// The decimal digit that `c` is.
fn decimal_value(c: char) -> (r: Option<u32>)
    ensures
        r matches Some(d) ==> d < 10 && decimal_digit(c) == Some(d as nat),
        r is None ==> decimal_digit(c) is None,
{
    if '0' <= c && c <= '9' {
        Some(c as u32 - 0x30)
    } else {
        None
    }
}

/// The general register whose name is the text.
pub fn register_in(text: &str) -> (r: Option<Register>)
    ensures
        r == register_of(text@),
{
    let v = chars_of(text);
    if v.len() == 2 && v[0] == 'x' {
        match decimal_value(v[1]) {
            Some(d) => Some(general_register(d)),
            None => None,
        }
    } else if v.len() == 3 && v[0] == 'x' {
        match (decimal_value(v[1]), decimal_value(v[2])) {
            (Some(t), Some(u)) => if t > 0 && t * 10 + u <= 30 {
                Some(general_register(t * 10 + u))
            } else {
                None
            },
            _ => None,
        }
    } else {
        None
    }
}

/// Reads the name of a general register. White space around the name and the case
/// of its letter do not matter; any other text names none.
pub fn parse_reg(name: &str) -> (r: Option<Register>)
    ensures
        r == register_named(name@),
        is_ascii_chars(trimmed(name@)) ==> r == register_of(ascii_lowercase(trimmed(name@))),
{
    let lower = trim(name).to_lowercase();
    register_in(lower.as_str())
}

} // verus!
