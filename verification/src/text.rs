//! Decimal rendering of numeric operands, and assembly-line assembly.
//!
//! `dec_nat` is the mathematical decimal form (no leading zeros, most
//! significant digit first) that every numeric literal in the output
//! is proved to follow; `dec_signed_byte` is the signed form used for
//! jump displacements.

use vstd::prelude::*;
use vstd::string::StringExecFns;

verus! {

/// The decimal digit character for a value below ten.
pub open spec fn digit_char(d: nat) -> char
    recommends
        d < 10,
{
    if d == 0 {
        '0'
    } else if d == 1 {
        '1'
    } else if d == 2 {
        '2'
    } else if d == 3 {
        '3'
    } else if d == 4 {
        '4'
    } else if d == 5 {
        '5'
    } else if d == 6 {
        '6'
    } else if d == 7 {
        '7'
    } else if d == 8 {
        '8'
    } else {
        '9'
    }
}

/// The decimal text of a natural number: no sign, no leading zeros.
pub open spec fn dec_nat(n: nat) -> Seq<char>
    decreases n,
{
    if n < 10 {
        seq![digit_char(n)]
    } else {
        dec_nat(n / 10).push(digit_char(n % 10))
    }
}

/// The decimal text of a byte read as a signed 8-bit value
/// (two's complement): a leading minus sign for values 128..=255.
pub open spec fn dec_signed_byte(b: u8) -> Seq<char> {
    if b < 128 {
        dec_nat(b as nat)
    } else {
        seq!['-'] + dec_nat((256 - b) as nat)
    }
}

/// The text of a two-operand instruction line.
pub open spec fn line2_text(mn: Seq<char>, dst: Seq<char>, src: Seq<char>) -> Seq<char> {
    mn + " "@ + dst + ", "@ + src
}

/// The text of a one-operand instruction line.
pub open spec fn line1_text(mn: Seq<char>, operand: Seq<char>) -> Seq<char> {
    mn + " "@ + operand
}

/// The text of an immediate operand: the bare decimal value, or the
/// value behind an explicit `byte`/`word` size keyword chosen by the
/// width bit of the `sw` control field.
pub open spec fn imm_text(v: u16, sw: u8, explicit: bool) -> Seq<char> {
    if explicit {
        (if sw & 1 == 1 {
            "word "@
        } else {
            "byte "@
        }) + dec_nat(v as nat)
    } else {
        dec_nat(v as nat)
    }
}

fn digit_str(d: u16) -> (r: &'static str)
    requires
        d < 10,
    ensures
        r@ == seq![digit_char(d as nat)],
{
    let r = if d == 0 {
        "0"
    } else if d == 1 {
        "1"
    } else if d == 2 {
        "2"
    } else if d == 3 {
        "3"
    } else if d == 4 {
        "4"
    } else if d == 5 {
        "5"
    } else if d == 6 {
        "6"
    } else if d == 7 {
        "7"
    } else if d == 8 {
        "8"
    } else {
        "9"
    };
    proof {
        reveal_strlit("0");
        reveal_strlit("1");
        reveal_strlit("2");
        reveal_strlit("3");
        reveal_strlit("4");
        reveal_strlit("5");
        reveal_strlit("6");
        reveal_strlit("7");
        reveal_strlit("8");
        reveal_strlit("9");
        assert(r@ =~= seq![digit_char(d as nat)]);
    }
    r
}

/// Append the decimal text of `n` to `out`.
pub fn push_dec_u16(n: u16, out: &mut String)
    ensures
        final(out)@ == old(out)@ + dec_nat(n as nat),
    decreases n,
{
    if n >= 10 {
        push_dec_u16(n / 10, out);
    }
    out.append(digit_str(n % 10));
    proof {
        if n >= 10 {
            assert(dec_nat(n as nat) =~= dec_nat(n as nat / 10) + seq![
                digit_char(n as nat % 10),
            ]);
            assert(final(out)@ =~= old(out)@ + dec_nat(n as nat));
        } else {
            assert(final(out)@ =~= old(out)@ + dec_nat(n as nat));
        }
    }
}

/// The decimal text of `n` as a fresh string.
pub fn dec_u16_string(n: u16) -> (r: String)
    ensures
        r@ == dec_nat(n as nat),
{
    let mut out = String::new();
    push_dec_u16(n, &mut out);
    proof {
        assert(out@ =~= dec_nat(n as nat));
    }
    out
}

/// The signed decimal text of a byte read as an 8-bit two's-complement
/// value, as a fresh string.
pub fn signed_byte_string(b: u8) -> (r: String)
    ensures
        r@ == dec_signed_byte(b),
{
    if b < 128 {
        dec_u16_string(b as u16)
    } else {
        let mut out = String::from_str("-");
        proof {
            reveal_strlit("-");
            assert(out@ =~= seq!['-']);
        }
        push_dec_u16(256 - (b as u16), &mut out);
        out
    }
}

/// Build the line `"mn dst, src"`.
pub fn two_op_line(mn: &str, dst: &str, src: &str) -> (r: String)
    ensures
        r@ == line2_text(mn@, dst@, src@),
{
    let mut out = String::from_str(mn);
    out.append(" ");
    out.append(dst);
    out.append(", ");
    out.append(src);
    out
}

/// Build the line `"mn operand"`.
pub fn one_op_line(mn: &str, operand: &str) -> (r: String)
    ensures
        r@ == line1_text(mn@, operand@),
{
    let mut out = String::from_str(mn);
    out.append(" ");
    out.append(operand);
    out
}

/// Build the text of an immediate operand per `imm_text`.
pub fn imm_string(v: u16, sw: u8, explicit: bool) -> (r: String)
    ensures
        r@ == imm_text(v, sw, explicit),
{
    if explicit {
        let mut out = if sw & 1 == 1 {
            String::from_str("word ")
        } else {
            String::from_str("byte ")
        };
        push_dec_u16(v, &mut out);
        out
    } else {
        dec_u16_string(v)
    }
}

} // verus!
