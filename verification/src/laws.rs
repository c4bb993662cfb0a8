//! Decoding laws: properties of the instruction grammar that hold
//! for every byte stream, proved once and for all against the spec
//! model in [`crate::model`].

use vstd::prelude::*;
use crate::model::{
    arith_imm_rm_spec, imm_rm_pair_spec, immediate_spec, instruction_spec, le_word,
    lemma_instruction_consumes, mov_imm_rm_spec, reg_rm_pair_spec, rm_operand_spec, DecodeError,
};
use crate::tables::{direct_text, reg_name};

verus! {

/// Width consistency of the immediate decoder: `sw = 01` consumes
/// exactly two bytes — also where the narrow-looking bit layout of
/// the arithmetic immediate group would suggest one — and every
/// other `sw` value consumes exactly one.
pub proof fn lemma_immediate_width(sw: u8, explicit: bool, s: Seq<u8>)
    ensures
        immediate_spec(sw, explicit, s) matches Ok(q) ==> q.1 == (if sw == 1 {
            2nat
        } else {
            1nat
        }),
{
}

/// Width consistency of the displacement decoder: mode 01 consumes
/// exactly one extension byte, mode 10 exactly two, the direct
/// address under mode 00 exactly two, and every other operand none.
pub proof fn lemma_displacement_width(rm: u8, wide: bool, md: u8, s: Seq<u8>)
    requires
        rm < 8,
        md < 4,
    ensures
        rm_operand_spec(rm, wide, md, s) matches Ok(p) ==> p.1 == (if md == 1 {
            1nat
        } else if md == 2 || (md == 0 && rm == 6) {
            2nat
        } else {
            0nat
        }),
{
}

/// Register-direct addressing (`mod = 11`) is a pure table lookup:
/// it always succeeds, returns exactly the register name, and
/// consumes no byte beyond the addressing byte itself.
pub proof fn lemma_register_direct_lookup(rm: u8, wide: bool, s: Seq<u8>)
    requires
        rm < 8,
    ensures
        rm_operand_spec(rm, wide, 3, s) == Ok::<(Seq<char>, nat), DecodeError>(
            (reg_name(rm, wide), 0nat),
        ),
{
}

/// The `mod = 00, rm = 110` exception always takes the direct-address
/// path: exactly two extra bytes, a little-endian address, never the
/// index-6 base expression — or a short read when the bytes are
/// missing.
pub proof fn lemma_direct_address_boundary(wide: bool, s: Seq<u8>)
    ensures
        s.len() >= 2 ==> rm_operand_spec(6, wide, 0, s) == Ok::<(Seq<char>, nat), DecodeError>(
            (direct_text(le_word(s[0], s[1])), 2nat),
        ),
        s.len() < 2 ==> rm_operand_spec(6, wide, 0, s) == Err::<(Seq<char>, nat), DecodeError>(
            DecodeError::ShortRead,
        ),
{
}

/// The deliberate table duplication: under `mod = 00`, `rm = 7`
/// decodes to exactly the same outcome as `rm = 0` (the `bx + si`
/// expression).  The displacement modes 01 and 10 are excluded on
/// purpose: their table maps index 7 to `bx` and the outcomes differ.
pub proof fn lemma_rm_seven_quirk(wide: bool, s: Seq<u8>)
    ensures
        rm_operand_spec(7, wide, 0, s) == rm_operand_spec(0, wide, 0, s),
{
}

proof fn lemma_shared_prefix_index(s1: Seq<u8>, s2: Seq<u8>, n: int, i: int)
    requires
        0 <= i < n,
        n <= s1.len(),
        n <= s2.len(),
        s1.subrange(0, n) == s2.subrange(0, n),
    ensures
        s1[i] == s2[i],
{
    assert(s1.subrange(0, n)[i] == s1[i]);
    assert(s2.subrange(0, n)[i] == s2[i]);
    assert(s1.subrange(0, n)[i] == s2.subrange(0, n)[i]);
}

proof fn lemma_shared_prefix_mono(s1: Seq<u8>, s2: Seq<u8>, n: int, m: int)
    requires
        0 <= m <= n,
        n <= s1.len(),
        n <= s2.len(),
        s1.subrange(0, n) == s2.subrange(0, n),
    ensures
        s1.subrange(0, m) == s2.subrange(0, m),
{
    assert forall|i: int| 0 <= i < m implies s1.subrange(0, m)[i] == s2.subrange(0, m)[i] by {
        lemma_shared_prefix_index(s1, s2, n, i);
    }
    assert(s1.subrange(0, m) =~= s2.subrange(0, m));
}

proof fn lemma_shared_prefix_skip(s1: Seq<u8>, s2: Seq<u8>, n: int, k: int)
    requires
        0 <= k <= n,
        n <= s1.len(),
        n <= s2.len(),
        s1.subrange(0, n) == s2.subrange(0, n),
    ensures
        s1.skip(k).subrange(0, n - k) == s2.skip(k).subrange(0, n - k),
{
    assert forall|i: int| 0 <= i < n - k implies #[trigger] s1.skip(k).subrange(0, n - k)[i]
        == s2.skip(k).subrange(0, n - k)[i] by {
        lemma_shared_prefix_index(s1, s2, n, k + i);
        assert(s1.skip(k)[i] == s1[k + i]);
        assert(s2.skip(k)[i] == s2[k + i]);
    }
    assert(s1.skip(k).subrange(0, n - k) =~= s2.skip(k).subrange(0, n - k));
}

proof fn lemma_rm_operand_local(rm: u8, wide: bool, md: u8, t1: Seq<u8>, t2: Seq<u8>)
    requires
        rm < 8,
        md < 4,
        rm_operand_spec(rm, wide, md, t1) is Ok,
        t2.len() >= (rm_operand_spec(rm, wide, md, t1)->Ok_0).1,
        t1.subrange(0, (rm_operand_spec(rm, wide, md, t1)->Ok_0).1 as int) == t2.subrange(
            0,
            (rm_operand_spec(rm, wide, md, t1)->Ok_0).1 as int,
        ),
    ensures
        rm_operand_spec(rm, wide, md, t2) == rm_operand_spec(rm, wide, md, t1),
{
    let n = (rm_operand_spec(rm, wide, md, t1)->Ok_0).1 as int;
    if md == 1 {
        lemma_shared_prefix_index(t1, t2, n, 0);
    } else if md == 2 || (md == 0 && rm == 6) {
        lemma_shared_prefix_index(t1, t2, n, 0);
        lemma_shared_prefix_index(t1, t2, n, 1);
    }
}

proof fn lemma_immediate_local(sw: u8, explicit: bool, t1: Seq<u8>, t2: Seq<u8>)
    requires
        immediate_spec(sw, explicit, t1) is Ok,
        t2.len() >= (immediate_spec(sw, explicit, t1)->Ok_0).1,
        t1.subrange(0, (immediate_spec(sw, explicit, t1)->Ok_0).1 as int) == t2.subrange(
            0,
            (immediate_spec(sw, explicit, t1)->Ok_0).1 as int,
        ),
    ensures
        immediate_spec(sw, explicit, t2) == immediate_spec(sw, explicit, t1),
{
    let n = (immediate_spec(sw, explicit, t1)->Ok_0).1 as int;
    lemma_shared_prefix_index(t1, t2, n, 0);
    if sw == 1 {
        lemma_shared_prefix_index(t1, t2, n, 1);
    }
}

proof fn lemma_reg_rm_pair_local(opcode: u8, t1: Seq<u8>, t2: Seq<u8>)
    requires
        reg_rm_pair_spec(opcode, t1) is Ok,
        t2.len() >= (reg_rm_pair_spec(opcode, t1)->Ok_0).1,
        t1.subrange(0, (reg_rm_pair_spec(opcode, t1)->Ok_0).1 as int) == t2.subrange(
            0,
            (reg_rm_pair_spec(opcode, t1)->Ok_0).1 as int,
        ),
    ensures
        reg_rm_pair_spec(opcode, t2) == reg_rm_pair_spec(opcode, t1),
{
    let n = (reg_rm_pair_spec(opcode, t1)->Ok_0).1 as int;
    let b1 = t1[0];
    let w: u8 = opcode & 1;
    let md: u8 = b1 >> 6;
    let rm: u8 = b1 & 7;
    assert(b1 >> 6 < 4 && b1 & 7 < 8) by (bit_vector);
    lemma_shared_prefix_index(t1, t2, n, 0);
    lemma_shared_prefix_skip(t1, t2, n, 1);
    lemma_rm_operand_local(rm, w == 1, md, t1.skip(1), t2.skip(1));
}

proof fn lemma_imm_rm_pair_local(byte0: u8, byte1: u8, t1: Seq<u8>, t2: Seq<u8>)
    requires
        imm_rm_pair_spec(byte0, byte1, t1) is Ok,
        t2.len() >= (imm_rm_pair_spec(byte0, byte1, t1)->Ok_0).1,
        t1.subrange(0, (imm_rm_pair_spec(byte0, byte1, t1)->Ok_0).1 as int) == t2.subrange(
            0,
            (imm_rm_pair_spec(byte0, byte1, t1)->Ok_0).1 as int,
        ),
    ensures
        imm_rm_pair_spec(byte0, byte1, t2) == imm_rm_pair_spec(byte0, byte1, t1),
{
    let n = (imm_rm_pair_spec(byte0, byte1, t1)->Ok_0).1 as int;
    let sw: u8 = byte0 & 3;
    let md: u8 = byte1 >> 6;
    let rm: u8 = byte1 & 7;
    assert(byte1 >> 6 < 4 && byte1 & 7 < 8) by (bit_vector);
    let p = rm_operand_spec(rm, sw == 1, md, t1)->Ok_0;
    lemma_shared_prefix_mono(t1, t2, n, p.1 as int);
    lemma_rm_operand_local(rm, sw == 1, md, t1, t2);
    lemma_shared_prefix_skip(t1, t2, n, p.1 as int);
    lemma_immediate_local(sw, md != 3, t1.skip(p.1 as int), t2.skip(p.1 as int));
}

proof fn lemma_mov_imm_rm_local(opcode: u8, t1: Seq<u8>, t2: Seq<u8>)
    requires
        mov_imm_rm_spec(opcode, t1) is Ok,
        t2.len() >= (mov_imm_rm_spec(opcode, t1)->Ok_0).1,
        t1.subrange(0, (mov_imm_rm_spec(opcode, t1)->Ok_0).1 as int) == t2.subrange(
            0,
            (mov_imm_rm_spec(opcode, t1)->Ok_0).1 as int,
        ),
    ensures
        mov_imm_rm_spec(opcode, t2) == mov_imm_rm_spec(opcode, t1),
{
    let n = (mov_imm_rm_spec(opcode, t1)->Ok_0).1 as int;
    let b1 = t1[0];
    let w: u8 = opcode & 1;
    let md: u8 = b1 >> 6;
    let rm: u8 = b1 & 7;
    assert(b1 >> 6 < 4 && b1 & 7 < 8) by (bit_vector);
    lemma_shared_prefix_index(t1, t2, n, 0);
    lemma_shared_prefix_skip(t1, t2, n, 1);
    let p = rm_operand_spec(rm, w == 1, md, t1.skip(1))->Ok_0;
    lemma_shared_prefix_mono(t1.skip(1), t2.skip(1), n - 1, p.1 as int);
    lemma_rm_operand_local(rm, w == 1, md, t1.skip(1), t2.skip(1));
    lemma_shared_prefix_skip(t1.skip(1), t2.skip(1), n - 1, p.1 as int);
    assert(t1.skip(1).skip(p.1 as int) =~= t1.skip(1 + p.1 as int));
    assert(t2.skip(1).skip(p.1 as int) =~= t2.skip(1 + p.1 as int));
    lemma_immediate_local(w, md != 3, t1.skip(1 + p.1 as int), t2.skip(1 + p.1 as int));
}

proof fn lemma_arith_imm_rm_local(opcode: u8, t1: Seq<u8>, t2: Seq<u8>)
    requires
        arith_imm_rm_spec(opcode, t1) is Ok,
        t2.len() >= (arith_imm_rm_spec(opcode, t1)->Ok_0).1,
        t1.subrange(0, (arith_imm_rm_spec(opcode, t1)->Ok_0).1 as int) == t2.subrange(
            0,
            (arith_imm_rm_spec(opcode, t1)->Ok_0).1 as int,
        ),
    ensures
        arith_imm_rm_spec(opcode, t2) == arith_imm_rm_spec(opcode, t1),
{
    let n = (arith_imm_rm_spec(opcode, t1)->Ok_0).1 as int;
    let b1 = t1[0];
    lemma_shared_prefix_index(t1, t2, n, 0);
    lemma_shared_prefix_skip(t1, t2, n, 1);
    lemma_imm_rm_pair_local(opcode, b1, t1.skip(1), t2.skip(1));
}

/// Decoding is deterministic and local: it consumes a fixed,
/// opcode-determined number of bytes, and its outcome depends only on
/// the bytes it consumes.  Whenever a decode succeeds on one stream,
/// it yields the very same line and the very same cursor advance on
/// every stream that starts with the same consumed bytes.
pub proof fn lemma_decode_deterministic(s1: Seq<u8>, s2: Seq<u8>)
    requires
        s1.len() >= 1,
        instruction_spec(s1) is Ok,
        s2.len() >= (instruction_spec(s1)->Ok_0).1,
        s1.subrange(0, (instruction_spec(s1)->Ok_0).1 as int) == s2.subrange(
            0,
            (instruction_spec(s1)->Ok_0).1 as int,
        ),
    ensures
        instruction_spec(s2) == instruction_spec(s1),
{
    lemma_instruction_consumes(s1);
    let n = (instruction_spec(s1)->Ok_0).1 as int;
    lemma_shared_prefix_index(s1, s2, n, 0);
    let op = s1[0];
    lemma_shared_prefix_skip(s1, s2, n, 1);
    let r1 = s1.skip(1);
    let r2 = s2.skip(1);
    if crate::model::is_mov_rm_rm(op) {
        lemma_reg_rm_pair_local(op, r1, r2);
    } else if crate::model::is_mov_imm_rm(op) {
        lemma_mov_imm_rm_local(op, r1, r2);
    } else if crate::model::is_mov_imm_reg(op) {
        lemma_immediate_local((op >> 3) & 1, false, r1, r2);
    } else if crate::model::is_mem_to_acc(op) {
        lemma_shared_prefix_index(s1, s2, n, 1);
        lemma_shared_prefix_index(s1, s2, n, 2);
    } else if crate::model::is_acc_to_mem(op) {
        lemma_shared_prefix_index(s1, s2, n, 1);
        lemma_shared_prefix_index(s1, s2, n, 2);
    } else if crate::model::is_add_rm_rm(op) {
        lemma_reg_rm_pair_local(op, r1, r2);
    } else if crate::model::is_sub_rm_rm(op) {
        lemma_reg_rm_pair_local(op, r1, r2);
    } else if crate::model::is_cmp_rm_rm(op) {
        lemma_reg_rm_pair_local(op, r1, r2);
    } else if crate::model::is_arith_imm_rm(op) {
        lemma_arith_imm_rm_local(op, r1, r2);
    } else if crate::model::is_add_imm_acc(op) || crate::model::is_sub_imm_acc(op)
        || crate::model::is_cmp_imm_acc(op) {
        lemma_immediate_local(op & 1, false, r1, r2);
    } else {
        lemma_shared_prefix_index(s1, s2, n, 1);
    }
}

} // verus!
