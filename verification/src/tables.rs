//! Fixed lookup tables: register names and memory base expressions.
//!
//! The `mod = 00` base-expression table maps index 7 to the same
//! `bx + si` expression as index 0.  That duplication is deliberate
//! decoder behaviour, stated as such in the contracts and covered by
//! its own law; the displacement table used for `mod = 01` and
//! `mod = 10` maps index 7 to `bx` instead.

use vstd::prelude::*;
use vstd::string::StringExecFns;
use crate::text::{dec_nat, push_dec_u16};

verus! {

/// The symbolic name of general-purpose register `idx` at the given
/// width: `ax cx dx bx sp bp si di` wide, `al cl dl bl ah ch dh bh`
/// narrow.
pub open spec fn reg_name(idx: u8, wide: bool) -> Seq<char>
    recommends
        idx < 8,
{
    if wide {
        if idx == 0 {
            "ax"@
        } else if idx == 1 {
            "cx"@
        } else if idx == 2 {
            "dx"@
        } else if idx == 3 {
            "bx"@
        } else if idx == 4 {
            "sp"@
        } else if idx == 5 {
            "bp"@
        } else if idx == 6 {
            "si"@
        } else {
            "di"@
        }
    } else {
        if idx == 0 {
            "al"@
        } else if idx == 1 {
            "cl"@
        } else if idx == 2 {
            "dl"@
        } else if idx == 3 {
            "bl"@
        } else if idx == 4 {
            "ah"@
        } else if idx == 5 {
            "ch"@
        } else if idx == 6 {
            "dh"@
        } else {
            "bh"@
        }
    }
}

/// The accumulator's name at the given width.
pub open spec fn acc_name(wide: bool) -> Seq<char> {
    if wide {
        "ax"@
    } else {
        "al"@
    }
}

/// The bracketed memory expression for `mod = 00` (no displacement).
/// Index 6 is excluded: it selects a direct address instead.  Index 7
/// renders as `[bx + si]`, the same as index 0 (deliberate table
/// duplication).
pub open spec fn mem_plain_text(rm: u8) -> Seq<char>
    recommends
        rm < 8 && rm != 6,
{
    if rm == 1 {
        "[bx + di]"@
    } else if rm == 2 {
        "[bp + si]"@
    } else if rm == 3 {
        "[bp + di]"@
    } else if rm == 4 {
        "[si]"@
    } else if rm == 5 {
        "[di]"@
    } else {
        "[bx + si]"@
    }
}

/// The opening part of a displacement memory expression, up to and
/// including the `+ ` before the displacement value.
pub open spec fn mem_off_prefix(rm: u8) -> Seq<char>
    recommends
        rm < 8,
{
    if rm == 0 {
        "[bx + si + "@
    } else if rm == 1 {
        "[bx + di + "@
    } else if rm == 2 {
        "[bp + si + "@
    } else if rm == 3 {
        "[bp + di + "@
    } else if rm == 4 {
        "[si + "@
    } else if rm == 5 {
        "[di + "@
    } else if rm == 6 {
        "[bp + "@
    } else {
        "[bx + "@
    }
}

/// The full displacement memory expression `[base + offset]`.  A zero
/// offset is still written out: the displacement modes never elide it.
pub open spec fn mem_off_text(rm: u8, offset: u16) -> Seq<char>
    recommends
        rm < 8,
{
    mem_off_prefix(rm) + dec_nat(offset as nat) + "]"@
}

/// The direct-address memory operand `[address]`.
pub open spec fn direct_text(addr: u16) -> Seq<char> {
    "["@ + dec_nat(addr as nat) + "]"@
}

/// Look up the symbolic register name for a 3-bit register index.
pub fn get_reg_code(instr: u8, wide: bool) -> (r: &'static str)
    requires
        instr < 8,
    ensures
        r@ == reg_name(instr, wide),
{
    if wide {
        if instr == 0 {
            "ax"
        } else if instr == 1 {
            "cx"
        } else if instr == 2 {
            "dx"
        } else if instr == 3 {
            "bx"
        } else if instr == 4 {
            "sp"
        } else if instr == 5 {
            "bp"
        } else if instr == 6 {
            "si"
        } else {
            "di"
        }
    } else {
        if instr == 0 {
            "al"
        } else if instr == 1 {
            "cl"
        } else if instr == 2 {
            "dl"
        } else if instr == 3 {
            "bl"
        } else if instr == 4 {
            "ah"
        } else if instr == 5 {
            "ch"
        } else if instr == 6 {
            "dh"
        } else {
            "bh"
        }
    }
}

fn mem_plain_str(rm: u8) -> (r: &'static str)
    requires
        rm < 8 && rm != 6,
    ensures
        r@ == mem_plain_text(rm),
{
    if rm == 1 {
        "[bx + di]"
    } else if rm == 2 {
        "[bp + si]"
    } else if rm == 3 {
        "[bp + di]"
    } else if rm == 4 {
        "[si]"
    } else if rm == 5 {
        "[di]"
    } else {
        "[bx + si]"
    }
}

fn mem_off_prefix_str(rm: u8) -> (r: &'static str)
    requires
        rm < 8,
    ensures
        r@ == mem_off_prefix(rm),
{
    if rm == 0 {
        "[bx + si + "
    } else if rm == 1 {
        "[bx + di + "
    } else if rm == 2 {
        "[bp + si + "
    } else if rm == 3 {
        "[bp + di + "
    } else if rm == 4 {
        "[si + "
    } else if rm == 5 {
        "[di + "
    } else if rm == 6 {
        "[bp + "
    } else {
        "[bx + "
    }
}

/// Render the bracketed `mod = 00` memory expression for an `rm`
/// index other than 6.
pub fn rm_plain_string(rm: u8) -> (r: String)
    requires
        rm < 8 && rm != 6,
    ensures
        r@ == mem_plain_text(rm),
{
    String::from_str(mem_plain_str(rm))
}

/// Render the memory expression for a base register combination with
/// an explicit displacement, `[base + offset]`.
pub fn get_rm_code_with_offset(rm: u8, offset: u16) -> (r: String)
    requires
        rm < 8,
    ensures
        r@ == mem_off_text(rm, offset),
{
    let mut out = String::from_str(mem_off_prefix_str(rm));
    push_dec_u16(offset, &mut out);
    out.append("]");
    out
}

/// Render a direct-address memory operand `[address]`.
pub fn direct_addr_string(addr: u16) -> (r: String)
    ensures
        r@ == direct_text(addr),
{
    let mut out = String::from_str("[");
    push_dec_u16(addr, &mut out);
    out.append("]");
    out
}

} // verus!
