//! What holds of the decoder on every word.

use crate::arm_cpu::instruction::{
    spec_major, Condition, Decoded, Major0Family, Mask, Offset2, Op2, Operation, Reg,
};
use crate::util::{lemma_field32_bound, spec_field32, spec_flag32};
use vstd::arithmetic::power2::lemma2_to64;
use vstd::prelude::*;

verus! {

/// The sixteen codes and the sixteen conditions stand in one-to-one
/// correspondence: every code below 16 is the code of the condition it stands
/// for, and every condition stands for its own code.
pub proof fn lemma_condition_code_bijection(code: nat, condition: Condition)
    ensures
        code < 16 ==> Condition::spec_from_code(code).spec_code() == code,
        condition.spec_code() < 16,
        Condition::spec_from_code(condition.spec_code()) == condition,
{
}

/// The condition of a decoded word is the one whose code is bits 31..28,
/// whatever the other bits hold.
pub proof fn lemma_decode_arm_condition(word: u32, decoded: Decoded)
    requires
        Some(decoded) == Decoded::spec_decode_arm(word),
    ensures
        decoded.condition.spec_code() == spec_field32(word, 28, 4),
        decoded.condition == Condition::spec_from_code(spec_field32(word, 28, 4)),
{
    lemma2_to64();
    lemma_field32_bound(word, 28, 4);
}

/// Decoding is a function of the word alone: two decoded forms of one word
/// are equal.
pub proof fn lemma_decode_arm_deterministic(word: u32, first: Decoded, second: Decoded)
    requires
        Some(first) == Decoded::spec_decode_arm(word),
        Some(second) == Decoded::spec_decode_arm(word),
    ensures
        first == second,
{
}

/// Decoding is total on the covered space: every word has a decoded form,
/// but for the words of major opcode 0 with bits 4 and 7 set, which have none.
pub proof fn lemma_decode_arm_total(word: u32)
    ensures
        Decoded::spec_decode_arm(word) is Some <==> !(spec_major(word) == 0 && spec_flag32(word, 4)
            && spec_flag32(word, 7)),
        Decoded::spec_covers_arm(word) <==> Decoded::spec_decode_arm(word) is Some,
{
}

/// A word of major opcode 4, 6 or 7 is undefined, and so is a word of major
/// opcode 3 with bit 4 set.
pub proof fn lemma_unassigned_is_undefined(word: u32)
    requires
        spec_major(word) == 4 || spec_major(word) == 6 || spec_major(word) == 7 || (spec_major(word)
            == 3 && spec_flag32(word, 4)),
    ensures
        Decoded::spec_operation(word) == Some(Operation::Undefined),
{
}

/// The rows that resolve major opcode 0 part the words among the four
/// families, and the order of the rows can be read off: bits 4 and 7 together
/// give the multiplies; of the rest, a word without set-flags whose bits
/// 24..23 are `10` is miscellaneous; of what is left, bit 4 tells a shift by a
/// register from a shift by an immediate.
pub proof fn lemma_major_0_families(word: u32)
    ensures
        ({
            let multiply = spec_flag32(word, 4) && spec_flag32(word, 7);
            let status = !spec_flag32(word, 20) && spec_field32(word, 23, 2) == 2;
            let family = Decoded::spec_major_0_family(word);
            &&& family == Major0Family::MultiplyExtra <==> multiply
            &&& family == Major0Family::Miscellaneous <==> !multiply && status
            &&& family == Major0Family::DataProcRegShift <==> !multiply && !status && spec_flag32(
                word,
                4,
            )
            &&& family == Major0Family::DataProcImmShift <==> !multiply && !status && !spec_flag32(
                word,
                4,
            )
        }),
{
}

/// Every decoded operation is of a kind that the decoder produces, and each of
/// its operands is a value that its field can hold.
pub proof fn lemma_decode_arm_in_range(word: u32, decoded: Decoded)
    requires
        Some(decoded) == Decoded::spec_decode_arm(word),
    ensures
        decoded.operation.spec_is_decoded_kind(),
        decoded.operation.spec_in_range(),
{
    lemma2_to64();
    lemma_field32_bound(word, 0, 4);
    lemma_field32_bound(word, 8, 4);
    lemma_field32_bound(word, 12, 4);
    lemma_field32_bound(word, 16, 4);
    lemma_field32_bound(word, 7, 5);
}

/// The three bytes of a branch offset are bits 23..0 in little-endian order.
pub proof fn lemma_branch_offset_value(word: u32)
    ensures
        Decoded::spec_major_5(word) matches Operation::B(link, offset) && link == spec_flag32(
            word,
            24,
        ) && offset[0] + 0x100 * offset[1] + 0x1_0000 * offset[2] == spec_field32(word, 0, 24),
{
    lemma2_to64();
    assert(word % 0x100_0000 == (word % 0x100) + 0x100 * ((word / 0x100) % 0x100) + 0x1_0000 * ((
    word / 0x1_0000) % 0x100)) by (bit_vector);
}

/// The addressing mode of a transfer by its bits: post-indexed without bit
/// 24, pre-indexed with bits 24 and 21, a plain offset with bit 24 alone. An
/// immediate offset is its two bytes in little-endian order.
pub proof fn lemma_mode2_indexing(word: u32, imm_offset: bool)
    ensures
        ({
            let offset = Decoded::spec_mode2(word, imm_offset).offset;
            &&& offset.spec_is_post_indexed() <==> !spec_flag32(word, 24)
            &&& offset.spec_is_pre_indexed() <==> spec_flag32(word, 24) && spec_flag32(word, 21)
            &&& offset.spec_is_plain() <==> spec_flag32(word, 24) && !spec_flag32(word, 21)
            &&& offset.spec_is_immediate() <==> imm_offset
            &&& Decoded::spec_mode2(word, imm_offset).subtract <==> !spec_flag32(word, 23)
        }),
        imm_offset ==> ({
            let offset = Decoded::spec_mode2(word, imm_offset).offset;
            &&& offset matches Offset2::OffsetImm(bytes) ==> bytes[0] + 0x100 * bytes[1]
                == spec_field32(word, 0, 12)
            &&& offset matches Offset2::PreIndexeedImm(bytes) ==> bytes[0] + 0x100 * bytes[1]
                == spec_field32(word, 0, 12)
            &&& offset matches Offset2::PostIndexedImm(bytes) ==> bytes[0] + 0x100 * bytes[1]
                == spec_field32(word, 0, 12)
        }),
{
    lemma2_to64();
    assert(word % 0x1000 == (word % 0x100) + 0x100 * ((word / 0x100) % 0x10)) by (bit_vector);
}

/// A field selector is its four lanes and its reserved bits: two selectors
/// that agree on them are equal, in whatever order the lanes were chosen.
pub proof fn lemma_mask_by_lanes(a: Mask, b: Mask)
    requires
        a.spec_control() == b.spec_control(),
        a.spec_extension() == b.spec_extension(),
        a.spec_status() == b.spec_status(),
        a.spec_flags() == b.spec_flags(),
        a.0 / 16 == b.0 / 16,
    ensures
        a == b,
{
    lemma2_to64();
    let (x, y) = (a.0, b.0);
    assert(x == y) by (bit_vector)
        requires
            (x / 1) % 2 == (y / 1) % 2,
            (x / 2) % 2 == (y / 2) % 2,
            (x / 4) % 2 == (y / 4) % 2,
            (x / 8) % 2 == (y / 8) % 2,
            x / 16 == y / 16,
    ;
}

/// A transfer is a load with bit 20 and a store without, of a byte with bit
/// 22 and of a word without, and unprivileged exactly when it is post-indexed
/// with bit 21 set. Its register is bits 15..12.
pub proof fn lemma_load_store_kind(word: u32, imm_offset: bool)
    ensures
        ({
            let op = Decoded::spec_load_store(word, imm_offset);
            let load = op is Ldr || op is Ldrt || op is Ldrb || op is Ldrbt;
            let store = op is Str || op is Strt || op is Strb || op is Strbt;
            let byte = op is Ldrb || op is Ldrbt || op is Strb || op is Strbt;
            let unprivileged = op is Ldrt || op is Ldrbt || op is Strt || op is Strbt;
            let rd = Decoded::spec_reg(word, 12);
            let mode = Decoded::spec_mode2(word, imm_offset);
            &&& load <==> spec_flag32(word, 20)
            &&& store <==> !spec_flag32(word, 20)
            &&& byte <==> spec_flag32(word, 22)
            &&& unprivileged <==> !spec_flag32(word, 24) && spec_flag32(word, 21)
            &&& op == Operation::Ldr(rd, mode) || op == Operation::Ldrt(rd, mode) || op
                == Operation::Ldrb(rd, mode) || op == Operation::Ldrbt(rd, mode) || op
                == Operation::Str(rd, mode) || op == Operation::Strt(rd, mode) || op
                == Operation::Strb(rd, mode) || op == Operation::Strbt(rd, mode)
        }),
{
}

/// The sixteen opcodes stand for sixteen different operations: the opcode can
/// be read back from the operation.
pub proof fn lemma_alu_opcode_round_trip(opc: nat, s: bool, rd: Reg, rn: Reg, op2: Op2)
    requires
        opc < 16,
    ensures
        Decoded::spec_alu(opc, s, rd, rn, op2).spec_alu_opcode() == Some(opc),
{
}

} // verus!
