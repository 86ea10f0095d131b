use gba_emu::arm_cpu::instruction::{
    major, Condition, Decoded, Immediate, Mask, Mode2, Offset2, Op2, Operation, Reg,
};

fn operation_of(word: u32) -> Operation {
    Decoded::decode_arm(word).operation
}

#[test]
fn major_is_bits_27_to_25() {
    assert_eq!(major(0x0000_0000), 0);
    assert_eq!(major(0x0200_0000), 1);
    assert_eq!(major(0x0A00_0000), 5);
    assert_eq!(major(0x0E00_0000), 7);
    assert_eq!(major(0xF1FF_FFFF), 0);
    assert_eq!(major(0xFFFF_FFFF), 7);
}

#[test]
fn decode_reg_reads_four_bits() {
    assert_eq!(Decoded::decode_reg(0x0000_F000, 12), Reg(15));
    assert_eq!(Decoded::decode_reg(0xFFFF_0FFF, 12), Reg(0));
    assert_eq!(Decoded::decode_reg(0xA000_0000, 28), Reg(10));
    assert_eq!(Decoded::decode_reg(0x0000_0007, 0), Reg(7));
}

#[test]
fn condition_codes_in_order() {
    let table = [
        Condition::Eq,
        Condition::Ne,
        Condition::Cs,
        Condition::Cc,
        Condition::Mi,
        Condition::Pl,
        Condition::Vs,
        Condition::Vc,
        Condition::Hi,
        Condition::Ls,
        Condition::Ge,
        Condition::Lt,
        Condition::Gt,
        Condition::Le,
        Condition::Always,
        Condition::Reserved,
    ];
    for code in 0..16u32 {
        let expected = table[code as usize];
        assert_eq!(Decoded::decode_condition(code << 28), expected);
        assert_eq!(Decoded::decode_condition((code << 28) | 0x0FFF_FFFF), expected);
        assert_eq!(Decoded::decode_arm((code << 28) | 0x0A00_0000).condition, expected);
    }
}

#[test]
fn reserved_condition_decodes() {
    let decoded = Decoded::decode_arm(0xF000_0000);
    assert_eq!(decoded.condition, Condition::Reserved);
    assert_eq!(
        decoded.operation,
        Operation::And(false, Reg(0), Reg(0), Op2::ShiftLeftImm(Reg(0), 0))
    );
}

#[test]
fn every_alu_opcode_with_set_flags() {
    let rd = Reg(3);
    let rn = Reg(5);
    let op2 = Op2::ShiftLeftImm(Reg(7), 0);
    let expected = [
        Operation::And(true, rd, rn, op2),
        Operation::Eor(true, rd, rn, op2),
        Operation::Sub(true, rd, rn, op2),
        Operation::Rsb(true, rd, rn, op2),
        Operation::Add(true, rd, rn, op2),
        Operation::Adc(true, rd, rn, op2),
        Operation::Sbc(true, rd, rn, op2),
        Operation::Rsc(true, rd, rn, op2),
        Operation::Tst(rn, op2),
        Operation::Teq(rn, op2),
        Operation::Cmp(rn, op2),
        Operation::Cmn(rn, op2),
        Operation::Orr(true, rd, rn, op2),
        Operation::Mov(true, rd, op2),
        Operation::Bic(true, rd, rn, op2),
        Operation::Mvn(true, rd, op2),
    ];
    for opc in 0..16u32 {
        let word = 0xE010_0000 | (opc << 21) | (5 << 16) | (3 << 12) | 7;
        assert_eq!(operation_of(word), expected[opc as usize]);
        assert_eq!(Decoded::decode_data_proc(word, true, op2), expected[opc as usize]);
    }
}

#[test]
fn alu_without_set_flags_in_major_0() {
    // ADD r1, r2, r3, LSL #4
    assert_eq!(
        operation_of(0xE082_1203),
        Operation::Add(false, Reg(1), Reg(2), Op2::ShiftLeftImm(Reg(3), 4))
    );
    // SUBS r0, r1, r2, LSR r3
    assert_eq!(
        operation_of(0xE051_0332),
        Operation::Sub(true, Reg(0), Reg(1), Op2::ShiftRightLogicalReg(Reg(2), Reg(3)))
    );
}

#[test]
fn every_shift_form() {
    let rm = Reg(7);
    let rs = Reg(9);
    let cases = [
        (0xE195_6F87u32, Op2::ShiftLeftImm(rm, 31)),
        (0xE195_6917, Op2::ShiftLeftReg(rm, rs)),
        (0xE195_6FA7, Op2::ShiftRightLogicalImm(rm, 31)),
        (0xE195_6937, Op2::ShiftRightLogicalReg(rm, rs)),
        (0xE195_6FC7, Op2::ShiftRightArithmeticImm(rm, 31)),
        (0xE195_6957, Op2::ShiftRightArithmeticReg(rm, rs)),
        (0xE195_6FE7, Op2::RotateRightImm(rm, 31)),
        (0xE195_6977, Op2::RotateRightReg(rm, rs)),
    ];
    for (word, op2) in cases {
        assert_eq!(operation_of(word), Operation::Orr(true, Reg(6), Reg(5), op2));
    }
}

#[test]
fn decode_op2_picks_the_amount_source() {
    let word = 0x0000_0FE7;
    assert_eq!(Decoded::decode_op2(word, false, true), Op2::RotateRightImm(Reg(7), 31));
    assert_eq!(Decoded::decode_op2(word, false, false), Op2::RotateRightReg(Reg(7), Reg(15)));
    let immediate = Op2::Immediate(Immediate { immediate: 0xE7, rotate_amount: 15 });
    assert_eq!(Decoded::decode_op2(word, true, false), immediate);
    assert_eq!(Decoded::decode_op2(word, true, true), immediate);
}

#[test]
fn decode_imm32_keeps_the_raw_pair() {
    assert_eq!(
        Decoded::decode_imm32(0xFFFF_FCAB),
        Immediate { immediate: 0xAB, rotate_amount: 0xC }
    );
    assert_eq!(Decoded::decode_imm32(0xFFFF_F000), Immediate { immediate: 0, rotate_amount: 0 });
}

#[test]
fn major_1_data_processing() {
    // MVNS r4, #0xAB ror 24
    assert_eq!(
        operation_of(0xE3F0_4CAB),
        Operation::Mvn(
            true,
            Reg(4),
            Op2::Immediate(Immediate { immediate: 0xAB, rotate_amount: 0xC }),
        )
    );
    // AND r4, r3, #1: bit 21 is clear.
    assert_eq!(
        operation_of(0xE203_4001),
        Operation::And(
            false,
            Reg(4),
            Reg(3),
            Op2::Immediate(Immediate { immediate: 1, rotate_amount: 0 }),
        )
    );
    // Opcodes 8 and 10 without set-flags have bit 21 clear.
    let operand = Op2::Immediate(Immediate { immediate: 0xFF, rotate_amount: 2 });
    assert_eq!(operation_of(0xE303_02FF), Operation::Tst(Reg(3), operand));
    assert_eq!(operation_of(0xE343_02FF), Operation::Cmp(Reg(3), operand));
}

#[test]
fn major_1_bit_21_without_set_flags() {
    // Bits 24..23 = 10: a status-register write.
    assert_eq!(
        operation_of(0xE328_F40F),
        Operation::MsrI(
            false,
            Immediate { immediate: 0x0F, rotate_amount: 4 },
            Mask::from_bits(0b1000),
        )
    );
    assert_eq!(
        operation_of(0xE361_F01F),
        Operation::MsrI(
            true,
            Immediate { immediate: 0x1F, rotate_amount: 0 },
            Mask::from_bits(0b0001),
        )
    );
    // Any other bits 24..23: undefined.
    assert_eq!(operation_of(0xE223_4001), Operation::Undefined);
    assert_eq!(operation_of(0xE2A0_0000), Operation::Undefined);
    assert_eq!(operation_of(0xE3E0_0000), Operation::Undefined);
}

#[test]
fn miscellaneous_instructions() {
    assert_eq!(operation_of(0xE14F_1000), Operation::Mrs(Reg(1), true));
    assert_eq!(
        operation_of(0xE129_F000),
        Operation::Msr(Reg(0), false, Mask::from_bits(0b1001))
    );
    assert_eq!(
        operation_of(0xE169_F003),
        Operation::Msr(Reg(3), true, Mask::from_bits(0b1001))
    );
    assert_eq!(operation_of(0xE12F_FF1E), Operation::Bx(Reg(14)));
    assert_eq!(Decoded::decode_misc_instructions(0xE12F_FF1E), Operation::Bx(Reg(14)));
    // Bits 7..4 = 3 with bit 21.
    assert_eq!(operation_of(0xE12F_FF3E), Operation::Undefined);
    // Bits 7..4 = 1 without bit 21.
    assert_eq!(operation_of(0xE100_0010), Operation::Undefined);
    // Bits 7..4 = 4.
    assert_eq!(operation_of(0xE100_0040), Operation::Undefined);
}

#[test]
fn decode_mask_reads_bits_19_to_16() {
    for bits in 0..16u32 {
        let mask = Decoded::decode_mask(0xFFF0_FFFF | (bits << 16));
        assert_eq!(mask.into_bits(), bits as u8);
        assert_eq!(mask.control(), bits & 1 != 0);
        assert_eq!(mask.extension(), bits & 2 != 0);
        assert_eq!(mask.status(), bits & 4 != 0);
        assert_eq!(mask.flags(), bits & 8 != 0);
    }
}

#[test]
fn transfers_with_immediate_offset() {
    let cases = [
        // LDR r0, [r1, #4]
        (
            0xE591_0004u32,
            Operation::Ldr(
                Reg(0),
                Mode2 { rn: Reg(1), offset: Offset2::OffsetImm([4, 0]), subtract: false },
            ),
        ),
        // STR r2, [r3, #-0x123]!
        (
            0xE523_2123,
            Operation::Str(
                Reg(2),
                Mode2 { rn: Reg(3), offset: Offset2::PreIndexeedImm([0x23, 0x01]), subtract: true },
            ),
        ),
        // LDRB r4, [r5], #0xFFF
        (
            0xE4D5_4FFF,
            Operation::Ldrb(
                Reg(4),
                Mode2 { rn: Reg(5), offset: Offset2::PostIndexedImm([0xFF, 0x0F]), subtract: false },
            ),
        ),
        // STRB r0, [r1, #4]
        (
            0xE5C1_0004,
            Operation::Strb(
                Reg(0),
                Mode2 { rn: Reg(1), offset: Offset2::OffsetImm([4, 0]), subtract: false },
            ),
        ),
    ];
    for (word, expected) in cases {
        assert_eq!(operation_of(word), expected);
        assert_eq!(Decoded::decode_major_2(word), expected);
    }
}

#[test]
fn post_indexed_with_bit_21_is_unprivileged() {
    let mode = Mode2 { rn: Reg(1), offset: Offset2::PostIndexedImm([4, 0]), subtract: false };
    assert_eq!(operation_of(0xE4B1_0004), Operation::Ldrt(Reg(0), mode));
    assert_eq!(operation_of(0xE4A1_0004), Operation::Strt(Reg(0), mode));
    assert_eq!(operation_of(0xE4F1_0004), Operation::Ldrbt(Reg(0), mode));
    assert_eq!(operation_of(0xE4E1_0004), Operation::Strbt(Reg(0), mode));
    // The same words without bit 21.
    assert_eq!(operation_of(0xE491_0004), Operation::Ldr(Reg(0), mode));
    assert_eq!(operation_of(0xE481_0004), Operation::Str(Reg(0), mode));
    assert_eq!(operation_of(0xE4D1_0004), Operation::Ldrb(Reg(0), mode));
    assert_eq!(operation_of(0xE4C1_0004), Operation::Strb(Reg(0), mode));
}

#[test]
fn transfers_with_register_offset() {
    let rm = Reg(2);
    let cases = [
        (0xE791_0182u32, Offset2::OffsetLSL(rm, 3)),
        (0xE791_01A2, Offset2::OffsetLSR(rm, 3)),
        (0xE791_01C2, Offset2::OffsetASR(rm, 3)),
        (0xE791_01E2, Offset2::OffsetROR(rm, 3)),
        (0xE7B1_0182, Offset2::PreIndexeedLSL(rm, 3)),
        (0xE7B1_01A2, Offset2::PreIndexeedLSR(rm, 3)),
        (0xE7B1_01C2, Offset2::PreIndexeedASR(rm, 3)),
        (0xE7B1_01E2, Offset2::PreIndexeedROR(rm, 3)),
        (0xE691_0182, Offset2::PostIndexedLSL(rm, 3)),
        (0xE691_01A2, Offset2::PostIndexedLSR(rm, 3)),
        (0xE691_01C2, Offset2::PostIndexedASR(rm, 3)),
        (0xE691_01E2, Offset2::PostIndexedROR(rm, 3)),
    ];
    for (word, offset) in cases {
        let mode = Mode2 { rn: Reg(1), offset, subtract: false };
        assert_eq!(operation_of(word), Operation::Ldr(Reg(0), mode));
        assert_eq!(Decoded::decode_major_3(word), Operation::Ldr(Reg(0), mode));
        assert_eq!(Decoded::decode_load_store(word, false), Operation::Ldr(Reg(0), mode));
        assert_eq!(Decoded::decode_mode2(word, false), mode);
    }
}

#[test]
fn decode_mode2_reads_the_subtract_bit() {
    let up = Decoded::decode_mode2(0xE591_0004, true);
    let down = Decoded::decode_mode2(0xE511_0004, true);
    assert!(!up.subtract);
    assert!(down.subtract);
    assert_eq!(up.offset, down.offset);
    assert_eq!(up.rn, down.rn);
}

#[test]
fn major_3_with_bit_4_is_undefined() {
    assert_eq!(operation_of(0xE791_0192), Operation::Undefined);
    assert_eq!(Decoded::decode_major_3(0xE791_0192), Operation::Undefined);
    assert_eq!(operation_of(0xE600_0010), Operation::Undefined);
}

#[test]
fn majors_4_6_and_7_are_undefined() {
    for word in [0xE800_0000u32, 0xE9FF_FFFF, 0xEC00_0000, 0xEDFF_FFFF, 0xEE00_0000, 0xEFFF_FFFF] {
        assert_eq!(operation_of(word), Operation::Undefined);
    }
}

#[test]
fn decode_major_5_reads_link_and_bytes() {
    assert_eq!(Decoded::decode_major_5(0xEA12_3456), Operation::B(false, [0x56, 0x34, 0x12]));
    assert_eq!(Decoded::decode_major_5(0xEB80_0000), Operation::B(true, [0x00, 0x00, 0x80]));
}

#[test]
fn decode_major_0_and_1_agree_with_decode_arm() {
    for word in [0xE082_1203u32, 0xE051_0332, 0xE10F_0000, 0xE12F_FF1E, 0x0000_0000] {
        assert_eq!(Decoded::decode_major_0(word), operation_of(word));
    }
    for word in [0xE3F0_4CABu32, 0xE328_F40F, 0xE223_4001, 0xE3A0_0001] {
        assert_eq!(Decoded::decode_major_1(word), operation_of(word));
    }
}
