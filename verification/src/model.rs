//! The mathematical model of the instruction grammar.
//!
//! Every spec function here takes the byte stream (or the suffix of
//! it that the construct reads) and returns either the rendered text
//! together with the number of bytes consumed, or the decode error.
//! The executable decoders in `crate::decode` are proved to agree
//! with these functions exactly.

use vstd::prelude::*;
use crate::text::{dec_signed_byte, imm_text, line1_text, line2_text};
use crate::tables::{acc_name, direct_text, mem_off_text, mem_plain_text, reg_name};

verus! {

/// Why a decode run fails.  End of stream at an instruction boundary
/// is clean termination, not an error, so it has no variant here.
#[derive(Clone, Copy, Debug, PartialEq, Eq, Structural)]
pub enum DecodeError {
    /// The stream ended in the middle of an instruction.
    ShortRead,
    /// The opcode byte, or the opcode-extension field of the
    /// addressing byte, matches no supported instruction.
    UnsupportedOpcode,
}

/// The outcome of decoding one construct: its rendered text and the
/// number of bytes consumed, or the fatal error.
pub type DecodeOutcome = Result<(Seq<char>, nat), DecodeError>;

/// A 16-bit value assembled from two bytes, least significant first.
pub open spec fn le_word(lo: u8, hi: u8) -> u16 {
    (lo + hi * 256) as u16
}

/// The operand selected by the `rm` and `mod` fields of an addressing
/// byte.  `s` is the stream immediately after that byte; only
/// displacement extension bytes are consumed from it.
pub open spec fn rm_operand_spec(rm: u8, wide: bool, md: u8, s: Seq<u8>) -> DecodeOutcome
    recommends
        rm < 8,
        md < 4,
{
    if md == 3 {
        Ok((reg_name(rm, wide), 0))
    } else if md == 1 {
        if s.len() >= 1 {
            Ok((mem_off_text(rm, s[0] as u16), 1))
        } else {
            Err(DecodeError::ShortRead)
        }
    } else if md == 2 {
        if s.len() >= 2 {
            Ok((mem_off_text(rm, le_word(s[0], s[1])), 2))
        } else {
            Err(DecodeError::ShortRead)
        }
    } else {
        if rm == 6 {
            if s.len() >= 2 {
                Ok((direct_text(le_word(s[0], s[1])), 2))
            } else {
                Err(DecodeError::ShortRead)
            }
        } else {
            Ok((mem_plain_text(rm), 0))
        }
    }
}

/// The immediate operand controlled by the `sw` field: `sw = 01`
/// consumes two bytes (little-endian), every other value one byte.
pub open spec fn immediate_spec(sw: u8, explicit: bool, s: Seq<u8>) -> DecodeOutcome {
    if sw == 1 {
        if s.len() >= 2 {
            Ok((imm_text(le_word(s[0], s[1]), sw, explicit), 2))
        } else {
            Err(DecodeError::ShortRead)
        }
    } else {
        if s.len() >= 1 {
            Ok((imm_text(s[0] as u16, sw, explicit), 1))
        } else {
            Err(DecodeError::ShortRead)
        }
    }
}

/// The (destination, source) operand pair of a register/memory ↔
/// register instruction.  `s` starts at the addressing byte; the `d`
/// bit of the opcode picks which operand the `reg` field is.
pub open spec fn reg_rm_pair_spec(opcode: u8, s: Seq<u8>) -> Result<
    ((Seq<char>, Seq<char>), nat),
    DecodeError,
> {
    if s.len() < 1 {
        Err(DecodeError::ShortRead)
    } else {
        let b1 = s[0];
        let w: u8 = opcode & 1;
        let d: u8 = (opcode >> 1) & 1;
        let md: u8 = b1 >> 6;
        let reg: u8 = (b1 >> 3) & 7;
        let rm: u8 = b1 & 7;
        match rm_operand_spec(rm, w == 1, md, s.skip(1)) {
            Ok(p) => {
                let regtext = reg_name(reg, w == 1);
                if d == 1 {
                    Ok(((regtext, p.0), (1 + p.1) as nat))
                } else {
                    Ok(((p.0, regtext), (1 + p.1) as nat))
                }
            },
            Err(e) => Err(e),
        }
    }
}

/// A whole register/memory ↔ register line for the given mnemonic.
pub open spec fn rm_rm_line_spec(mn: Seq<char>, opcode: u8, s: Seq<u8>) -> DecodeOutcome {
    match reg_rm_pair_spec(opcode, s) {
        Ok(p) => Ok((line2_text(mn, p.0.0, p.0.1), p.1)),
        Err(e) => Err(e),
    }
}

/// A `mov immediate → register/memory` line.  `s` starts at the
/// addressing byte, whose `reg` field is ignored for this family; the
/// immediate follows the displacement bytes and carries an explicit
/// size keyword exactly when the destination is a memory operand.
pub open spec fn mov_imm_rm_spec(opcode: u8, s: Seq<u8>) -> DecodeOutcome {
    if s.len() < 1 {
        Err(DecodeError::ShortRead)
    } else {
        let b1 = s[0];
        let w: u8 = opcode & 1;
        let md: u8 = b1 >> 6;
        let rm: u8 = b1 & 7;
        match rm_operand_spec(rm, w == 1, md, s.skip(1)) {
            Ok(p) => match immediate_spec(w, md != 3, s.skip(1 + p.1 as int)) {
                Ok(q) => Ok((line2_text("mov"@, p.0, q.0), (1 + p.1 + q.1) as nat)),
                Err(e) => Err(e),
            },
            Err(e) => Err(e),
        }
    }
}

/// The (immediate, register/memory) operand pair of an
/// `add/sub/cmp immediate → register/memory` instruction.  `s` starts
/// just after the addressing byte `byte1`; the displacement bytes are
/// consumed before the immediate.  The register/memory operand is
/// decoded at wide width exactly when `sw = 01`.
pub open spec fn imm_rm_pair_spec(byte0: u8, byte1: u8, s: Seq<u8>) -> Result<
    ((Seq<char>, Seq<char>), nat),
    DecodeError,
> {
    let sw: u8 = byte0 & 3;
    let md: u8 = byte1 >> 6;
    let rm: u8 = byte1 & 7;
    match rm_operand_spec(rm, sw == 1, md, s) {
        Ok(p) => match immediate_spec(sw, md != 3, s.skip(p.1 as int)) {
            Ok(q) => Ok(((q.0, p.0), (p.1 + q.1) as nat)),
            Err(e) => Err(e),
        },
        Err(e) => Err(e),
    }
}

/// An `add/sub/cmp immediate → register/memory` line.  `s` starts at
/// the addressing byte, whose `reg` field selects the mnemonic:
/// `000` add, `101` sub, `111` cmp, anything else is unsupported.
pub open spec fn arith_imm_rm_spec(opcode: u8, s: Seq<u8>) -> DecodeOutcome {
    if s.len() < 1 {
        Err(DecodeError::ShortRead)
    } else {
        let b1 = s[0];
        let ext: u8 = (b1 >> 3) & 7;
        if ext == 0 || ext == 5 || ext == 7 {
            let mn = if ext == 0 {
                "add"@
            } else if ext == 5 {
                "sub"@
            } else {
                "cmp"@
            };
            match imm_rm_pair_spec(opcode, b1, s.skip(1)) {
                Ok(p) => Ok((line2_text(mn, p.0.1, p.0.0), (1 + p.1) as nat)),
                Err(e) => Err(e),
            }
        } else {
            Err(DecodeError::UnsupportedOpcode)
        }
    }
}

/// A `mov immediate → register` line; width and register index live
/// in the opcode byte itself.
pub open spec fn mov_imm_reg_spec(opcode: u8, s: Seq<u8>) -> DecodeOutcome {
    let w: u8 = (opcode >> 3) & 1;
    let reg: u8 = opcode & 7;
    match immediate_spec(w, false, s) {
        Ok(q) => Ok((line2_text("mov"@, reg_name(reg, w == 1), q.0), q.1)),
        Err(e) => Err(e),
    }
}

/// A `mov accumulator ← direct memory` line: a two-byte address
/// follows the opcode directly, with no addressing byte.
pub open spec fn mem_to_acc_spec(opcode: u8, s: Seq<u8>) -> DecodeOutcome {
    if s.len() >= 2 {
        Ok((line2_text("mov"@, acc_name(opcode & 1 == 1), direct_text(le_word(s[0], s[1]))), 2))
    } else {
        Err(DecodeError::ShortRead)
    }
}

/// A `mov direct memory ← accumulator` line.
pub open spec fn acc_to_mem_spec(opcode: u8, s: Seq<u8>) -> DecodeOutcome {
    if s.len() >= 2 {
        Ok((line2_text("mov"@, direct_text(le_word(s[0], s[1])), acc_name(opcode & 1 == 1)), 2))
    } else {
        Err(DecodeError::ShortRead)
    }
}

/// An `add/sub/cmp immediate → accumulator` line.
pub open spec fn arith_imm_acc_spec(mn: Seq<char>, opcode: u8, s: Seq<u8>) -> DecodeOutcome {
    let w: u8 = opcode & 1;
    match immediate_spec(w, false, s) {
        Ok(q) => Ok((line2_text(mn, acc_name(w == 1), q.0), q.1)),
        Err(e) => Err(e),
    }
}

/// The mnemonic of a short conditional jump opcode, for the closed
/// set of fifteen supported jump bytes.
pub open spec fn jump_mnemonic(opcode: u8) -> Option<Seq<char>> {
    if opcode == 0x74 {
        Some("je"@)
    } else if opcode == 0x7c {
        Some("jl"@)
    } else if opcode == 0x7e {
        Some("jle"@)
    } else if opcode == 0x72 {
        Some("jb"@)
    } else if opcode == 0x76 {
        Some("jbe"@)
    } else if opcode == 0x7a {
        Some("jp"@)
    } else if opcode == 0x70 {
        Some("jo"@)
    } else if opcode == 0x78 {
        Some("js"@)
    } else if opcode == 0x75 {
        Some("jne"@)
    } else if opcode == 0x7d {
        Some("jnl"@)
    } else if opcode == 0x7f {
        Some("jnle"@)
    } else if opcode == 0x73 {
        Some("jnb"@)
    } else if opcode == 0x77 {
        Some("jnbe"@)
    } else if opcode == 0x7b {
        Some("jnp"@)
    } else if opcode == 0x71 {
        Some("jno"@)
    } else {
        None
    }
}

/// A short conditional jump line: one displacement byte rendered as a
/// signed decimal literal.
pub open spec fn jump_spec(mn: Seq<char>, s: Seq<u8>) -> DecodeOutcome {
    if s.len() >= 1 {
        Ok((line1_text(mn, dec_signed_byte(s[0])), 1))
    } else {
        Err(DecodeError::ShortRead)
    }
}

/// `mov register/memory ↔ register`: opcode bits `100010dw`.
pub open spec fn is_mov_rm_rm(op: u8) -> bool {
    op >> 2 == 0x22
}

/// `mov immediate → register/memory`: opcode bits `1100011w`.
pub open spec fn is_mov_imm_rm(op: u8) -> bool {
    op >> 1 == 0x63
}

/// `mov immediate → register`: opcode bits `1011wreg`.
pub open spec fn is_mov_imm_reg(op: u8) -> bool {
    op >> 4 == 0x0b
}

/// `mov memory → accumulator`: opcode bits `1010000w`.
pub open spec fn is_mem_to_acc(op: u8) -> bool {
    op >> 1 == 0x50
}

/// `mov accumulator → memory`: opcode bits `1010001w`.
pub open spec fn is_acc_to_mem(op: u8) -> bool {
    op >> 1 == 0x51
}

/// `add register/memory ↔ register`: opcode bits `000000dw`.
pub open spec fn is_add_rm_rm(op: u8) -> bool {
    op >> 2 == 0x00
}

/// `sub register/memory ↔ register`: opcode bits `001010dw`.
pub open spec fn is_sub_rm_rm(op: u8) -> bool {
    op >> 2 == 0x0a
}

/// `cmp register/memory ↔ register`: opcode bits `001110dw`.
pub open spec fn is_cmp_rm_rm(op: u8) -> bool {
    op >> 2 == 0x0e
}

/// `add/sub/cmp immediate → register/memory`: opcode bits `100000sw`.
pub open spec fn is_arith_imm_rm(op: u8) -> bool {
    op >> 2 == 0x20
}

/// `add immediate → accumulator`: opcode bits `0000010w`.
pub open spec fn is_add_imm_acc(op: u8) -> bool {
    op >> 1 == 0x02
}

/// `sub immediate → accumulator`: opcode bits `0010110w`.
pub open spec fn is_sub_imm_acc(op: u8) -> bool {
    op >> 1 == 0x16
}

/// `cmp immediate → accumulator`: opcode bits `0011110w`.
pub open spec fn is_cmp_imm_acc(op: u8) -> bool {
    op >> 1 == 0x1e
}

/// Whether the opcode byte belongs to one of the non-jump families.
pub open spec fn base_opcode(op: u8) -> bool {
    ||| is_mov_rm_rm(op)
    ||| is_mov_imm_rm(op)
    ||| is_mov_imm_reg(op)
    ||| is_mem_to_acc(op)
    ||| is_acc_to_mem(op)
    ||| is_add_rm_rm(op)
    ||| is_sub_rm_rm(op)
    ||| is_cmp_rm_rm(op)
    ||| is_arith_imm_rm(op)
    ||| is_add_imm_acc(op)
    ||| is_sub_imm_acc(op)
    ||| is_cmp_imm_acc(op)
}

/// Dispatch over the non-jump families, first match wins.  `rest` is
/// the stream after the opcode byte; the consumed count excludes the
/// opcode byte itself.
pub open spec fn base_line_spec(op: u8, rest: Seq<u8>) -> DecodeOutcome
    recommends
        base_opcode(op),
{
    if is_mov_rm_rm(op) {
        rm_rm_line_spec("mov"@, op, rest)
    } else if is_mov_imm_rm(op) {
        mov_imm_rm_spec(op, rest)
    } else if is_mov_imm_reg(op) {
        mov_imm_reg_spec(op, rest)
    } else if is_mem_to_acc(op) {
        mem_to_acc_spec(op, rest)
    } else if is_acc_to_mem(op) {
        acc_to_mem_spec(op, rest)
    } else if is_add_rm_rm(op) {
        rm_rm_line_spec("add"@, op, rest)
    } else if is_sub_rm_rm(op) {
        rm_rm_line_spec("sub"@, op, rest)
    } else if is_cmp_rm_rm(op) {
        rm_rm_line_spec("cmp"@, op, rest)
    } else if is_arith_imm_rm(op) {
        arith_imm_rm_spec(op, rest)
    } else if is_add_imm_acc(op) {
        arith_imm_acc_spec("add"@, op, rest)
    } else if is_sub_imm_acc(op) {
        arith_imm_acc_spec("sub"@, op, rest)
    } else {
        arith_imm_acc_spec("cmp"@, op, rest)
    }
}

/// Decode one whole instruction from the start of `s`.  The consumed
/// count includes the opcode byte.  An opcode outside every family
/// and outside the jump set is unsupported.
pub open spec fn instruction_spec(s: Seq<u8>) -> DecodeOutcome
    recommends
        s.len() >= 1,
{
    let op = s[0];
    let rest = s.skip(1);
    let r = if base_opcode(op) {
        base_line_spec(op, rest)
    } else {
        match jump_mnemonic(op) {
            Some(mn) => jump_spec(mn, rest),
            None => Err(DecodeError::UnsupportedOpcode),
        }
    };
    match r {
        Ok(p) => Ok((p.0, (1 + p.1) as nat)),
        Err(e) => Err(e),
    }
}

/// A successful decode consumes at least the opcode byte and never
/// reads past the end of the stream.
pub proof fn lemma_instruction_consumes(s: Seq<u8>)
    requires
        s.len() >= 1,
        instruction_spec(s) is Ok,
    ensures
        1 <= (instruction_spec(s)->Ok_0).1 <= s.len(),
{
}

} // verus!
