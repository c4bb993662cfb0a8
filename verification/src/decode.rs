//! Executable instruction decoders.
//!
//! Each function consumes bytes through the [`ByteCursor`] and is
//! proved to return exactly the text and to advance the cursor by
//! exactly the count that the corresponding spec function in
//! [`crate::model`] gives for the same byte stream.

use vstd::prelude::*;
use vstd::string::StringExecFns;
use crate::cursor::ByteCursor;
use crate::model::{
    acc_to_mem_spec, arith_imm_acc_spec, base_line_spec, base_opcode, imm_rm_pair_spec,
    immediate_spec, instruction_spec, jump_mnemonic, jump_spec, le_word, mem_to_acc_spec,
    mov_imm_reg_spec, mov_imm_rm_spec, reg_rm_pair_spec, rm_operand_spec, rm_rm_line_spec,
    DecodeError,
};
use crate::tables::{
    direct_addr_string, direct_text, get_reg_code, get_rm_code_with_offset, reg_name,
    rm_plain_string,
};
use crate::text::{imm_string, line2_text, one_op_line, signed_byte_string, two_op_line};

verus! {

/// Read a two-byte little-endian word from the stream.
pub fn read_word(cur: &mut ByteCursor) -> (r: Result<u16, DecodeError>)
    requires
        old(cur).wf(),
    ensures
        final(cur).wf(),
        final(cur).stream() == old(cur).stream(),
        old(cur).remaining().len() >= 2 ==> (r matches Ok(v) && v == le_word(
            old(cur).remaining()[0],
            old(cur).remaining()[1],
        ) && final(cur).position() == old(cur).position() + 2),
        old(cur).remaining().len() < 2 ==> (r matches Err(e) && e == DecodeError::ShortRead
            && final(cur).position() == old(cur).position()),
{
    match cur.next_two() {
        Some((lo, hi)) => Ok(lo as u16 + (hi as u16) * 256),
        None => Err(DecodeError::ShortRead),
    }
}

/// Read a two-byte direct address and render it as a bracketed
/// decimal memory operand.
pub fn get_direct_memory(cur: &mut ByteCursor) -> (r: Result<String, DecodeError>)
    requires
        old(cur).wf(),
    ensures
        final(cur).wf(),
        final(cur).stream() == old(cur).stream(),
        old(cur).remaining().len() >= 2 ==> (r matches Ok(t) && t@ == direct_text(
            le_word(old(cur).remaining()[0], old(cur).remaining()[1]),
        ) && final(cur).position() == old(cur).position() + 2),
        old(cur).remaining().len() < 2 ==> (r matches Err(e) && e == DecodeError::ShortRead
            && final(cur).position() == old(cur).position()),
{
    match read_word(cur) {
        Ok(addr) => Ok(direct_addr_string(addr)),
        Err(e) => Err(e),
    }
}

/// Decode the immediate operand controlled by the `sw` field,
/// consuming two bytes for `sw = 01` and one byte otherwise.
pub fn get_immediate(sw: u8, explicit: bool, cur: &mut ByteCursor) -> (r: Result<
    String,
    DecodeError,
>)
    requires
        old(cur).wf(),
    ensures
        final(cur).wf(),
        final(cur).stream() == old(cur).stream(),
        match immediate_spec(sw, explicit, old(cur).remaining()) {
            Ok(q) => r matches Ok(t) && t@ == q.0 && final(cur).position() == old(cur).position()
                + q.1,
            Err(e) => r matches Err(e2) && e2 == e && final(cur).position() == old(cur).position(),
        },
{
    if sw == 1 {
        match read_word(cur) {
            Ok(v) => Ok(imm_string(v, sw, explicit)),
            Err(e) => Err(e),
        }
    } else {
        match cur.next_byte() {
            Some(b) => Ok(imm_string(b as u16, sw, explicit)),
            None => Err(DecodeError::ShortRead),
        }
    }
}

/// Decode the operand selected by the `rm` and `mod` fields,
/// consuming the displacement bytes the mode calls for.
pub fn get_rm_code(rm: u8, wide: bool, md: u8, cur: &mut ByteCursor) -> (r: Result<
    String,
    DecodeError,
>)
    requires
        rm < 8,
        md < 4,
        old(cur).wf(),
    ensures
        final(cur).wf(),
        final(cur).stream() == old(cur).stream(),
        match rm_operand_spec(rm, wide, md, old(cur).remaining()) {
            Ok(p) => r matches Ok(t) && t@ == p.0 && final(cur).position() == old(cur).position()
                + p.1,
            Err(e) => r matches Err(e2) && e2 == e && final(cur).position() == old(cur).position(),
        },
{
    if md == 3 {
        Ok(String::from_str(get_reg_code(rm, wide)))
    } else if md == 1 {
        match cur.next_byte() {
            Some(b) => Ok(get_rm_code_with_offset(rm, b as u16)),
            None => Err(DecodeError::ShortRead),
        }
    } else if md == 2 {
        match read_word(cur) {
            Ok(off) => Ok(get_rm_code_with_offset(rm, off)),
            Err(e) => Err(e),
        }
    } else {
        if rm == 6 {
            get_direct_memory(cur)
        } else {
            Ok(rm_plain_string(rm))
        }
    }
}

/// Decode the addressing byte of a register/memory ↔ register
/// instruction and return its `(destination, source)` operand texts.
pub fn register_mem_to_register_mem(byte: u8, cur: &mut ByteCursor) -> (r: Result<
    (String, String),
    DecodeError,
>)
    requires
        old(cur).wf(),
    ensures
        final(cur).wf(),
        final(cur).stream() == old(cur).stream(),
        match reg_rm_pair_spec(byte, old(cur).remaining()) {
            Ok(p) => r matches Ok(t) && t.0@ == p.0.0 && t.1@ == p.0.1 && final(cur).position()
                == old(cur).position() + p.1,
            Err(e) => r matches Err(e2) && e2 == e,
        },
{
    let w: u8 = byte & 1;
    let d: u8 = (byte >> 1) & 1;
    match cur.next_byte() {
        None => Err(DecodeError::ShortRead),
        Some(b1) => {
            let md: u8 = b1 >> 6;
            let reg: u8 = (b1 >> 3) & 7;
            let rm: u8 = b1 & 7;
            proof {
                assert(b1 >> 6 < 4 && (b1 >> 3) & 7 < 8 && b1 & 7 < 8) by (bit_vector);
                assert(cur.remaining() =~= old(cur).remaining().skip(1));
            }
            match get_rm_code(rm, w == 1, md, cur) {
                Err(e) => Err(e),
                Ok(rmtext) => {
                    let regtext = String::from_str(get_reg_code(reg, w == 1));
                    if d == 1 {
                        Ok((regtext, rmtext))
                    } else {
                        Ok((rmtext, regtext))
                    }
                },
            }
        },
    }
}

/// Decode the `(immediate, register)` operand pair of a
/// `mov immediate → register` instruction; both control fields live
/// in the opcode byte.
pub fn immediate_to_register(byte: u8, cur: &mut ByteCursor) -> (r: Result<
    (String, &'static str),
    DecodeError,
>)
    requires
        old(cur).wf(),
    ensures
        final(cur).wf(),
        final(cur).stream() == old(cur).stream(),
        match immediate_spec((byte >> 3) & 1, false, old(cur).remaining()) {
            Ok(q) => r matches Ok(t) && t.0@ == q.0 && t.1@ == reg_name(byte & 7, (byte >> 3) & 1
                == 1) && final(cur).position() == old(cur).position() + q.1,
            Err(e) => r matches Err(e2) && e2 == e,
        },
{
    let w: u8 = (byte >> 3) & 1;
    let reg: u8 = byte & 7;
    proof {
        assert(byte & 7 < 8) by (bit_vector);
    }
    match get_immediate(w, false, cur) {
        Ok(imm) => Ok((imm, get_reg_code(reg, w == 1))),
        Err(e) => Err(e),
    }
}

/// Decode the `(immediate, register/memory)` operand pair of an
/// `add/sub/cmp immediate → register/memory` instruction, after its
/// addressing byte `byte1` has been read: first the displacement
/// bytes, then the immediate controlled by the `sw` field of the
/// opcode `byte0`.
pub fn immediate_to_rm(byte0: u8, byte1: u8, cur: &mut ByteCursor) -> (r: Result<
    (String, String),
    DecodeError,
>)
    requires
        old(cur).wf(),
    ensures
        final(cur).wf(),
        final(cur).stream() == old(cur).stream(),
        match imm_rm_pair_spec(byte0, byte1, old(cur).remaining()) {
            Ok(p) => r matches Ok(t) && t.0@ == p.0.0 && t.1@ == p.0.1 && final(cur).position()
                == old(cur).position() + p.1,
            Err(e) => r matches Err(e2) && e2 == e,
        },
{
    let sw: u8 = byte0 & 3;
    let md: u8 = byte1 >> 6;
    let rm: u8 = byte1 & 7;
    proof {
        assert(byte1 >> 6 < 4 && byte1 & 7 < 8) by (bit_vector);
    }
    match get_rm_code(rm, sw == 1, md, cur) {
        Err(e) => Err(e),
        Ok(rmtext) => {
            proof {
                assert(cur.remaining() =~= old(cur).remaining().skip(
                    cur.position() - old(cur).position(),
                ));
            }
            match get_immediate(sw, md != 3, cur) {
                Err(e) => Err(e),
                Ok(imm) => Ok((imm, rmtext)),
            }
        },
    }
}

/// Decode the `(immediate, accumulator)` operand pair of an
/// `add/sub/cmp immediate → accumulator` instruction.
pub fn immediate_to_acc(byte: u8, cur: &mut ByteCursor) -> (r: Result<
    (String, &'static str),
    DecodeError,
>)
    requires
        old(cur).wf(),
    ensures
        final(cur).wf(),
        final(cur).stream() == old(cur).stream(),
        match immediate_spec(byte & 1, false, old(cur).remaining()) {
            Ok(q) => r matches Ok(t) && t.0@ == q.0 && t.1@ == crate::tables::acc_name(byte & 1
                == 1) && final(cur).position() == old(cur).position() + q.1,
            Err(e) => r matches Err(e2) && e2 == e,
        },
{
    let w: u8 = byte & 1;
    match get_immediate(w, false, cur) {
        Ok(imm) => Ok((imm, if w == 1 {
            "ax"
        } else {
            "al"
        })),
        Err(e) => Err(e),
    }
}

/// Decode the displacement byte of a short conditional jump and
/// render the whole line for the given mnemonic.
pub fn cond_jmp(instr: &str, cur: &mut ByteCursor) -> (r: Result<String, DecodeError>)
    requires
        old(cur).wf(),
    ensures
        final(cur).wf(),
        final(cur).stream() == old(cur).stream(),
        match jump_spec(instr@, old(cur).remaining()) {
            Ok(p) => r matches Ok(t) && t@ == p.0 && final(cur).position() == old(cur).position()
                + p.1,
            Err(e) => r matches Err(e2) && e2 == e && final(cur).position() == old(cur).position(),
        },
{
    match cur.next_byte() {
        Some(b) => {
            let disp = signed_byte_string(b);
            Ok(one_op_line(instr, disp.as_str()))
        },
        None => Err(DecodeError::ShortRead),
    }
}

/// Decode a `mov register/memory ↔ register` instruction after its
/// opcode byte.
pub fn mov_rm_to_rm(byte: u8, cur: &mut ByteCursor) -> (r: Result<String, DecodeError>)
    requires
        old(cur).wf(),
    ensures
        final(cur).wf(),
        final(cur).stream() == old(cur).stream(),
        match rm_rm_line_spec("mov"@, byte, old(cur).remaining()) {
            Ok(p) => r matches Ok(t) && t@ == p.0 && final(cur).position() == old(cur).position()
                + p.1,
            Err(e) => r matches Err(e2) && e2 == e,
        },
{
    match register_mem_to_register_mem(byte, cur) {
        Ok(p) => Ok(two_op_line("mov", p.0.as_str(), p.1.as_str())),
        Err(e) => Err(e),
    }
}

/// Decode an `add register/memory ↔ register` instruction.
pub fn add_rm_to_rm(byte: u8, cur: &mut ByteCursor) -> (r: Result<String, DecodeError>)
    requires
        old(cur).wf(),
    ensures
        final(cur).wf(),
        final(cur).stream() == old(cur).stream(),
        match rm_rm_line_spec("add"@, byte, old(cur).remaining()) {
            Ok(p) => r matches Ok(t) && t@ == p.0 && final(cur).position() == old(cur).position()
                + p.1,
            Err(e) => r matches Err(e2) && e2 == e,
        },
{
    match register_mem_to_register_mem(byte, cur) {
        Ok(p) => Ok(two_op_line("add", p.0.as_str(), p.1.as_str())),
        Err(e) => Err(e),
    }
}

/// Decode a `sub register/memory ↔ register` instruction.
pub fn sub_rm_to_rm(byte: u8, cur: &mut ByteCursor) -> (r: Result<String, DecodeError>)
    requires
        old(cur).wf(),
    ensures
        final(cur).wf(),
        final(cur).stream() == old(cur).stream(),
        match rm_rm_line_spec("sub"@, byte, old(cur).remaining()) {
            Ok(p) => r matches Ok(t) && t@ == p.0 && final(cur).position() == old(cur).position()
                + p.1,
            Err(e) => r matches Err(e2) && e2 == e,
        },
{
    match register_mem_to_register_mem(byte, cur) {
        Ok(p) => Ok(two_op_line("sub", p.0.as_str(), p.1.as_str())),
        Err(e) => Err(e),
    }
}

/// Decode a `cmp register/memory ↔ register` instruction.
pub fn cmp_rm_to_rm(byte: u8, cur: &mut ByteCursor) -> (r: Result<String, DecodeError>)
    requires
        old(cur).wf(),
    ensures
        final(cur).wf(),
        final(cur).stream() == old(cur).stream(),
        match rm_rm_line_spec("cmp"@, byte, old(cur).remaining()) {
            Ok(p) => r matches Ok(t) && t@ == p.0 && final(cur).position() == old(cur).position()
                + p.1,
            Err(e) => r matches Err(e2) && e2 == e,
        },
{
    match register_mem_to_register_mem(byte, cur) {
        Ok(p) => Ok(two_op_line("cmp", p.0.as_str(), p.1.as_str())),
        Err(e) => Err(e),
    }
}

/// Decode a `mov immediate → register` instruction.
pub fn mov_immediate_to_register(byte: u8, cur: &mut ByteCursor) -> (r: Result<
    String,
    DecodeError,
>)
    requires
        old(cur).wf(),
    ensures
        final(cur).wf(),
        final(cur).stream() == old(cur).stream(),
        match mov_imm_reg_spec(byte, old(cur).remaining()) {
            Ok(p) => r matches Ok(t) && t@ == p.0 && final(cur).position() == old(cur).position()
                + p.1,
            Err(e) => r matches Err(e2) && e2 == e,
        },
{
    match immediate_to_register(byte, cur) {
        Ok(p) => Ok(two_op_line("mov", p.1, p.0.as_str())),
        Err(e) => Err(e),
    }
}

/// Decode a `mov immediate → register/memory` instruction: the
/// addressing byte, the destination operand, then the immediate with
/// an explicit size keyword for memory destinations.
pub fn mov_imm_to_rm(byte: u8, cur: &mut ByteCursor) -> (r: Result<String, DecodeError>)
    requires
        old(cur).wf(),
    ensures
        final(cur).wf(),
        final(cur).stream() == old(cur).stream(),
        match mov_imm_rm_spec(byte, old(cur).remaining()) {
            Ok(p) => r matches Ok(t) && t@ == p.0 && final(cur).position() == old(cur).position()
                + p.1,
            Err(e) => r matches Err(e2) && e2 == e,
        },
{
    let w: u8 = byte & 1;
    match cur.next_byte() {
        None => Err(DecodeError::ShortRead),
        Some(b1) => {
            let md: u8 = b1 >> 6;
            let rm: u8 = b1 & 7;
            proof {
                assert(b1 >> 6 < 4 && b1 & 7 < 8) by (bit_vector);
                assert(cur.remaining() =~= old(cur).remaining().skip(1));
            }
            match get_rm_code(rm, w == 1, md, cur) {
                Err(e) => Err(e),
                Ok(dst) => {
                    proof {
                        assert(cur.remaining() =~= old(cur).remaining().skip(
                            cur.position() - old(cur).position(),
                        ));
                    }
                    match get_immediate(w, md != 3, cur) {
                        Err(e) => Err(e),
                        Ok(imm) => Ok(two_op_line("mov", dst.as_str(), imm.as_str())),
                    }
                },
            }
        },
    }
}

/// Decode a `mov direct memory → accumulator` instruction.
pub fn memory_to_accumulator(byte: u8, cur: &mut ByteCursor) -> (r: Result<String, DecodeError>)
    requires
        old(cur).wf(),
    ensures
        final(cur).wf(),
        final(cur).stream() == old(cur).stream(),
        match mem_to_acc_spec(byte, old(cur).remaining()) {
            Ok(p) => r matches Ok(t) && t@ == p.0 && final(cur).position() == old(cur).position()
                + p.1,
            Err(e) => r matches Err(e2) && e2 == e,
        },
{
    let w: bool = byte & 1 == 1;
    match get_direct_memory(cur) {
        Ok(mem) => Ok(two_op_line("mov", if w {
            "ax"
        } else {
            "al"
        }, mem.as_str())),
        Err(e) => Err(e),
    }
}

/// Decode a `mov accumulator → direct memory` instruction.
pub fn accumulator_to_memory(byte: u8, cur: &mut ByteCursor) -> (r: Result<String, DecodeError>)
    requires
        old(cur).wf(),
    ensures
        final(cur).wf(),
        final(cur).stream() == old(cur).stream(),
        match acc_to_mem_spec(byte, old(cur).remaining()) {
            Ok(p) => r matches Ok(t) && t@ == p.0 && final(cur).position() == old(cur).position()
                + p.1,
            Err(e) => r matches Err(e2) && e2 == e,
        },
{
    let w: bool = byte & 1 == 1;
    match get_direct_memory(cur) {
        Ok(mem) => Ok(two_op_line("mov", mem.as_str(), if w {
            "ax"
        } else {
            "al"
        })),
        Err(e) => Err(e),
    }
}

/// Decode an `add immediate → register/memory` instruction after its
/// opcode and addressing bytes.
pub fn add_imm_to_rm(byte0: u8, byte1: u8, cur: &mut ByteCursor) -> (r: Result<
    String,
    DecodeError,
>)
    requires
        old(cur).wf(),
    ensures
        final(cur).wf(),
        final(cur).stream() == old(cur).stream(),
        match imm_rm_pair_spec(byte0, byte1, old(cur).remaining()) {
            Ok(p) => r matches Ok(t) && t@ == line2_text("add"@, p.0.1, p.0.0) && final(cur).position() == old(cur).position() + p.1,
            Err(e) => r matches Err(e2) && e2 == e,
        },
{
    match immediate_to_rm(byte0, byte1, cur) {
        Ok(p) => Ok(two_op_line("add", p.1.as_str(), p.0.as_str())),
        Err(e) => Err(e),
    }
}

/// Decode a `sub immediate → register/memory` instruction after its
/// opcode and addressing bytes.
pub fn sub_imm_to_rm(byte0: u8, byte1: u8, cur: &mut ByteCursor) -> (r: Result<
    String,
    DecodeError,
>)
    requires
        old(cur).wf(),
    ensures
        final(cur).wf(),
        final(cur).stream() == old(cur).stream(),
        match imm_rm_pair_spec(byte0, byte1, old(cur).remaining()) {
            Ok(p) => r matches Ok(t) && t@ == line2_text("sub"@, p.0.1, p.0.0) && final(cur).position() == old(cur).position() + p.1,
            Err(e) => r matches Err(e2) && e2 == e,
        },
{
    match immediate_to_rm(byte0, byte1, cur) {
        Ok(p) => Ok(two_op_line("sub", p.1.as_str(), p.0.as_str())),
        Err(e) => Err(e),
    }
}

/// Decode a `cmp immediate → register/memory` instruction after its
/// opcode and addressing bytes.
pub fn cmp_imm_to_rm(byte0: u8, byte1: u8, cur: &mut ByteCursor) -> (r: Result<
    String,
    DecodeError,
>)
    requires
        old(cur).wf(),
    ensures
        final(cur).wf(),
        final(cur).stream() == old(cur).stream(),
        match imm_rm_pair_spec(byte0, byte1, old(cur).remaining()) {
            Ok(p) => r matches Ok(t) && t@ == line2_text("cmp"@, p.0.1, p.0.0) && final(cur).position() == old(cur).position() + p.1,
            Err(e) => r matches Err(e2) && e2 == e,
        },
{
    match immediate_to_rm(byte0, byte1, cur) {
        Ok(p) => Ok(two_op_line("cmp", p.1.as_str(), p.0.as_str())),
        Err(e) => Err(e),
    }
}

/// Decode an `add immediate → accumulator` instruction.
pub fn add_imm_to_acc(byte: u8, cur: &mut ByteCursor) -> (r: Result<String, DecodeError>)
    requires
        old(cur).wf(),
    ensures
        final(cur).wf(),
        final(cur).stream() == old(cur).stream(),
        match arith_imm_acc_spec("add"@, byte, old(cur).remaining()) {
            Ok(p) => r matches Ok(t) && t@ == p.0 && final(cur).position() == old(cur).position()
                + p.1,
            Err(e) => r matches Err(e2) && e2 == e,
        },
{
    match immediate_to_acc(byte, cur) {
        Ok(p) => Ok(two_op_line("add", p.1, p.0.as_str())),
        Err(e) => Err(e),
    }
}

/// Decode a `sub immediate → accumulator` instruction.
pub fn sub_imm_to_acc(byte: u8, cur: &mut ByteCursor) -> (r: Result<String, DecodeError>)
    requires
        old(cur).wf(),
    ensures
        final(cur).wf(),
        final(cur).stream() == old(cur).stream(),
        match arith_imm_acc_spec("sub"@, byte, old(cur).remaining()) {
            Ok(p) => r matches Ok(t) && t@ == p.0 && final(cur).position() == old(cur).position()
                + p.1,
            Err(e) => r matches Err(e2) && e2 == e,
        },
{
    match immediate_to_acc(byte, cur) {
        Ok(p) => Ok(two_op_line("sub", p.1, p.0.as_str())),
        Err(e) => Err(e),
    }
}

/// Decode a `cmp immediate → accumulator` instruction.
pub fn cmp_imm_to_acc(byte: u8, cur: &mut ByteCursor) -> (r: Result<String, DecodeError>)
    requires
        old(cur).wf(),
    ensures
        final(cur).wf(),
        final(cur).stream() == old(cur).stream(),
        match arith_imm_acc_spec("cmp"@, byte, old(cur).remaining()) {
            Ok(p) => r matches Ok(t) && t@ == p.0 && final(cur).position() == old(cur).position()
                + p.1,
            Err(e) => r matches Err(e2) && e2 == e,
        },
{
    match immediate_to_acc(byte, cur) {
        Ok(p) => Ok(two_op_line("cmp", p.1, p.0.as_str())),
        Err(e) => Err(e),
    }
}

/// Dispatch a short conditional jump opcode, or report with `None`
/// that the byte is no supported jump.
pub fn jump_read(byte: u8, cur: &mut ByteCursor) -> (r: Option<Result<String, DecodeError>>)
    requires
        old(cur).wf(),
    ensures
        final(cur).wf(),
        final(cur).stream() == old(cur).stream(),
        jump_mnemonic(byte) is None ==> r is None && final(cur).position() == old(cur).position(),
        jump_mnemonic(byte) matches Some(mn) ==> match jump_spec(mn, old(cur).remaining()) {
            Ok(p) => r matches Some(Ok(t)) && t@ == p.0 && final(cur).position() == old(cur).position() + p.1,
            Err(e) => r matches Some(Err(e2)) && e2 == e,
        },
{
    match byte {
        0x74 => Some(cond_jmp("je", cur)),
        0x7c => Some(cond_jmp("jl", cur)),
        0x7e => Some(cond_jmp("jle", cur)),
        0x72 => Some(cond_jmp("jb", cur)),
        0x76 => Some(cond_jmp("jbe", cur)),
        0x7a => Some(cond_jmp("jp", cur)),
        0x70 => Some(cond_jmp("jo", cur)),
        0x78 => Some(cond_jmp("js", cur)),
        0x75 => Some(cond_jmp("jne", cur)),
        0x7d => Some(cond_jmp("jnl", cur)),
        0x7f => Some(cond_jmp("jnle", cur)),
        0x73 => Some(cond_jmp("jnb", cur)),
        0x77 => Some(cond_jmp("jnbe", cur)),
        0x7b => Some(cond_jmp("jnp", cur)),
        0x71 => Some(cond_jmp("jno", cur)),
        _ => None,
    }
}

/// Dispatch an opcode byte over the non-jump instruction families,
/// or report with `None` that it belongs to none of them.
pub fn base_8086_instr_read(byte: u8, cur: &mut ByteCursor) -> (r: Option<
    Result<String, DecodeError>,
>)
    requires
        old(cur).wf(),
    ensures
        final(cur).wf(),
        final(cur).stream() == old(cur).stream(),
        !base_opcode(byte) ==> r is None && final(cur).position() == old(cur).position(),
        base_opcode(byte) ==> match base_line_spec(byte, old(cur).remaining()) {
            Ok(p) => r matches Some(Ok(t)) && t@ == p.0 && final(cur).position() == old(cur).position() + p.1,
            Err(e) => r matches Some(Err(e2)) && e2 == e,
        },
{
    if byte >> 2 == 0x22 {
        Some(mov_rm_to_rm(byte, cur))
    } else if byte >> 1 == 0x63 {
        Some(mov_imm_to_rm(byte, cur))
    } else if byte >> 4 == 0x0b {
        Some(mov_immediate_to_register(byte, cur))
    } else if byte >> 1 == 0x50 {
        Some(memory_to_accumulator(byte, cur))
    } else if byte >> 1 == 0x51 {
        Some(accumulator_to_memory(byte, cur))
    } else if byte >> 2 == 0x00 {
        Some(add_rm_to_rm(byte, cur))
    } else if byte >> 2 == 0x0a {
        Some(sub_rm_to_rm(byte, cur))
    } else if byte >> 2 == 0x0e {
        Some(cmp_rm_to_rm(byte, cur))
    } else if byte >> 2 == 0x20 {
        match cur.next_byte() {
            None => Some(Err(DecodeError::ShortRead)),
            Some(b1) => {
                let ext: u8 = (b1 >> 3) & 7;
                proof {
                    assert(cur.remaining() =~= old(cur).remaining().skip(1));
                }
                if ext == 0 {
                    Some(add_imm_to_rm(byte, b1, cur))
                } else if ext == 5 {
                    Some(sub_imm_to_rm(byte, b1, cur))
                } else if ext == 7 {
                    Some(cmp_imm_to_rm(byte, b1, cur))
                } else {
                    Some(Err(DecodeError::UnsupportedOpcode))
                }
            },
        }
    } else if byte >> 1 == 0x02 {
        Some(add_imm_to_acc(byte, cur))
    } else if byte >> 1 == 0x16 {
        Some(sub_imm_to_acc(byte, cur))
    } else if byte >> 1 == 0x1e {
        Some(cmp_imm_to_acc(byte, cur))
    } else {
        None
    }
}

/// Decode one whole instruction whose opcode byte has already been
/// read: first the non-jump families, then the jumps, else the
/// opcode is unsupported.
pub fn decode_one(byte: u8, cur: &mut ByteCursor) -> (r: Result<String, DecodeError>)
    requires
        old(cur).wf(),
    ensures
        final(cur).wf(),
        final(cur).stream() == old(cur).stream(),
        match instruction_spec(seq![byte] + old(cur).remaining()) {
            Ok(p) => r matches Ok(t) && t@ == p.0 && final(cur).position() == old(cur).position()
                + p.1 - 1,
            Err(e) => r matches Err(e2) && e2 == e,
        },
{
    proof {
        assert((seq![byte] + old(cur).remaining()).skip(1) =~= old(cur).remaining());
    }
    match base_8086_instr_read(byte, cur) {
        Some(res) => res,
        None => match jump_read(byte, cur) {
            Some(res) => res,
            None => Err(DecodeError::UnsupportedOpcode),
        },
    }
}

} // verus!
