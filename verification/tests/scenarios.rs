use gba_emu::arm_cpu::instruction::{
    Condition, Decoded, Immediate, Major0Family, Op2, Operation, Reg,
};

#[test]
fn all_zero_word_is_and_eq() {
    // ANDEQ r0, r0, r0: the all-zero word is an instruction like any other.
    let decoded = Decoded::decode_arm(0x0000_0000);
    assert_eq!(
        decoded,
        Decoded {
            condition: Condition::Eq,
            operation: Operation::And(false, Reg(0), Reg(0), Op2::ShiftLeftImm(Reg(0), 0)),
        }
    );
    assert_ne!(decoded.operation, Operation::Undefined);
}

#[test]
fn branch_keeps_raw_offset_bytes() {
    let decoded = Decoded::decode_arm(0xEAFF_FFFE);
    assert_eq!(
        decoded,
        Decoded {
            condition: Condition::Always,
            operation: Operation::B(false, [0xFE, 0xFF, 0xFF]),
        }
    );
}

#[test]
fn branch_with_link_sets_link() {
    let decoded = Decoded::decode_arm(0xEB00_0001);
    assert_eq!(
        decoded,
        Decoded {
            condition: Condition::Always,
            operation: Operation::B(true, [0x01, 0x00, 0x00]),
        }
    );
}

#[test]
fn mrs_reads_current_status() {
    let decoded = Decoded::decode_arm(0xE10F_0000);
    assert_eq!(
        decoded,
        Decoded { condition: Condition::Always, operation: Operation::Mrs(Reg(0), false) }
    );
}

#[test]
fn mov_immediate_without_set_flags_is_undefined() {
    // Major opcode 1 with bit 21 set and bit 20 clear is a status-register
    // write when bits 24..23 are `10` and undefined otherwise. In this word
    // they are `11`.
    let decoded = Decoded::decode_arm(0xE3A0_0001);
    assert_eq!(
        decoded,
        Decoded { condition: Condition::Always, operation: Operation::Undefined }
    );
}

#[test]
fn mov_immediate_with_set_flags_is_mov() {
    let decoded = Decoded::decode_arm(0xE3B0_0001);
    assert_eq!(
        decoded,
        Decoded {
            condition: Condition::Always,
            operation: Operation::Mov(
                true,
                Reg(0),
                Op2::Immediate(Immediate { immediate: 1, rotate_amount: 0 }),
            ),
        }
    );
}

#[test]
fn major_0_row_1_is_multiply_extra() {
    // Bits 4 and 7 alone.
    let word = 0x0000_0090;
    assert_eq!(Decoded::major_0_family(word), Major0Family::MultiplyExtra);
    assert!(!Decoded::covers_arm(word));
}

#[test]
fn major_0_row_2_is_miscellaneous() {
    // Bit 4, and bits 24..23 = 10 without set-flags.
    let word = 0x0100_0010;
    assert_eq!(Decoded::major_0_family(word), Major0Family::Miscellaneous);
    assert!(Decoded::covers_arm(word));
    // Bits 7..4 = 1 without bit 21 is no miscellaneous instruction.
    assert_eq!(Decoded::decode_arm(word).operation, Operation::Undefined);
}

#[test]
fn major_0_row_3_is_register_shift() {
    // Bit 4 alone.
    let word = 0x0000_0010;
    assert_eq!(Decoded::major_0_family(word), Major0Family::DataProcRegShift);
    assert_eq!(
        Decoded::decode_arm(word).operation,
        Operation::And(false, Reg(0), Reg(0), Op2::ShiftLeftReg(Reg(0), Reg(0)))
    );
}

#[test]
fn major_0_row_4_is_miscellaneous() {
    // Bits 24..23 = 10 without set-flags, bit 4 clear.
    let word = 0x0100_0000;
    assert_eq!(Decoded::major_0_family(word), Major0Family::Miscellaneous);
    assert_eq!(Decoded::decode_arm(word).operation, Operation::Mrs(Reg(0), false));
}

#[test]
fn major_0_row_5_is_immediate_shift() {
    let word = 0x0000_0000;
    assert_eq!(Decoded::major_0_family(word), Major0Family::DataProcImmShift);
    assert_eq!(
        Decoded::decode_arm(word).operation,
        Operation::And(false, Reg(0), Reg(0), Op2::ShiftLeftImm(Reg(0), 0))
    );
}

#[test]
fn major_0_rows_are_tried_in_order() {
    // Bits 4 and 7 win over the miscellaneous pattern.
    assert_eq!(Decoded::major_0_family(0x0100_0090), Major0Family::MultiplyExtra);
    // With set-flags the miscellaneous rows do not match.
    assert_eq!(Decoded::major_0_family(0x0110_0010), Major0Family::DataProcRegShift);
    assert_eq!(Decoded::major_0_family(0x0110_0000), Major0Family::DataProcImmShift);
    // Bit 7 without bit 4 is a shift by an immediate.
    assert_eq!(Decoded::major_0_family(0x0000_0080), Major0Family::DataProcImmShift);
    // Bits 24..23 other than 10 are never miscellaneous.
    assert_eq!(Decoded::major_0_family(0x0180_0010), Major0Family::DataProcRegShift);
    assert_eq!(Decoded::major_0_family(0x0080_0000), Major0Family::DataProcImmShift);
}
