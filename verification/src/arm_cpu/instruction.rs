//! Decoded ARM instructions and the decoder that produces them.
//!
//! Decoding reads the encoding only. Rotated immediates, shifted operands and
//! branch targets are left as their raw fields for the execution stage.

use crate::arm_cpu::laws::lemma_decode_arm_in_range;
use crate::util::{
    get_field32, get_flag32, get_flag8, spec_field32, spec_flag32, spec_flag8, spec_with_flag8,
    with_flag8,
};
use vstd::arithmetic::power2::{lemma2_to64, lemma_pow2_strictly_increases, pow2};
use vstd::pervasive::unreached;
use vstd::prelude::*;

verus! {

/// The execution condition in bits 31..28 of every ARM instruction.
#[derive(Copy, Clone, Debug, PartialEq, Eq, Hash)]
pub enum Condition {
    Eq,
    Ne,
    Cs,
    Cc,
    Mi,
    Pl,
    Vs,
    Vc,
    Hi,
    Ls,
    Ge,
    Lt,
    Gt,
    Le,
    Always,
    Reserved,
}

/// What an instruction does, with its operands.
///
/// `Undefined` is an ordinary result: it stands for every encoding that the
/// decoder assigns to no instruction.
#[allow(inconsistent_fields)]
#[derive(Copy, Clone, Debug, PartialEq, Eq, Hash)]
pub enum Operation {
    Undefined,
    Mov(bool, Reg, Op2),
    Mvn(bool, Reg, Op2),
    Mrs(Reg, bool),
    Msr(Reg, bool, Mask),
    MsrI(bool, Immediate, Mask),
    Add(bool, Reg, Reg, Op2),
    Adc(bool, Reg, Reg, Op2),
    Sub(bool, Reg, Reg, Op2),
    Sbc(bool, Reg, Reg, Op2),
    Rsb(bool, Reg, Reg, Op2),
    Rsc(bool, Reg, Reg, Op2),
    Mul(bool, Reg, Reg, Reg),
    Mla(bool, Reg, Reg, Reg, Reg),
    Umull(bool, Reg, Reg, Reg, Reg),
    Umlal(bool, Reg, Reg, Reg, Reg),
    Smull(bool, Reg, Reg, Reg, Reg),
    Smlal(bool, Reg, Reg, Reg, Reg),
    Cmp(Reg, Op2),
    Cmn(Reg, Op2),
    Tst(Reg, Op2),
    Teq(Reg, Op2),
    And(bool, Reg, Reg, Op2),
    Eor(bool, Reg, Reg, Op2),
    Orr(bool, Reg, Reg, Op2),
    Bic(bool, Reg, Reg, Op2),
    B(bool, [u8; 3]),
    Bx(Reg),
    Ldr(Reg, Mode2),
    Ldrt(Reg, Mode2),
    Ldrb(Reg, Mode2),
    Ldrbt(Reg, Mode2),
    Ldrsb(Reg, Mode3),
    Ldrh(Reg, Mode3),
    Ldrsh(Reg, Mode3),
    Ldm { rd: Reg, regs: [u8; 2], offset: Offset4 },
    Str(Reg, Mode2),
    Strt(Reg, Mode2),
    Strb(Reg, Mode2),
    Strbt(Reg, Mode2),
    Strh(Reg, Mode3, bool),
    Stm { rd: Reg, regs: [u8; 2], offset: Offset4 },
    Swp(Reg, Reg, Reg),
    Swpb(Reg, Reg, Reg),
    Cdp { pcnum: u8, op1: u8, crd: Reg, crn: Reg, crm: Reg, op2: u8 },
    Mrc { cpnum: u8, op1: u8, rd: Reg, crn: u8, crm: u8 },
    Mcr { cpnum: u8, op1: u8, rd: Reg, crn: u8, crm: u8 },
    Ldc { cpnum: u8, crd: Reg, mode: Mode5 },
    Stc { cpnum: u8, crd: Reg, mode: Mode5 },
    Swi([u8; 3]),
}

/// A register index as it stands in a 4-bit field. Index 15 is the program
/// counter.
#[derive(Copy, Clone, Debug, PartialEq, Eq, Hash)]
pub struct Reg(pub u8);

/// The second operand of a data-processing instruction.
///
/// Shift and rotate amounts are the encoded values; nothing is applied.
#[derive(Copy, Clone, Debug, PartialEq, Eq, Hash)]
pub enum Op2 {
    Immediate(Immediate),
    ShiftLeftImm(Reg, u8),
    ShiftLeftReg(Reg, Reg),
    ShiftRightLogicalImm(Reg, u8),
    ShiftRightLogicalReg(Reg, Reg),
    ShiftRightArithmeticImm(Reg, u8),
    ShiftRightArithmeticReg(Reg, Reg),
    RotateRightReg(Reg, Reg),
    RotateRightImm(Reg, u8),
}

/// An 8-bit immediate with its 4-bit rotate amount, both as encoded.
#[derive(Copy, Clone, Debug, PartialEq, Eq, Hash)]
pub struct Immediate {
    pub immediate: u8,
    pub rotate_amount: u8,
}

/// The addressing mode of a word or unsigned byte transfer.
#[derive(Copy, Clone, Debug, PartialEq, Eq, Hash)]
pub struct Mode2 {
    pub rn: Reg,
    pub offset: Offset2,
    pub subtract: bool,
}

/// The offset of a word or unsigned byte transfer: one of three indexing
/// kinds, each with a 12-bit immediate (two little-endian bytes) or a register
/// shifted by a 5-bit amount.
#[derive(Copy, Clone, Debug, PartialEq, Eq, Hash)]
pub enum Offset2 {
    OffsetImm([u8; 2]),
    OffsetLSL(Reg, u8),
    OffsetLSR(Reg, u8),
    OffsetASR(Reg, u8),
    OffsetROR(Reg, u8),
    PreIndexeedImm([u8; 2]),
    PreIndexeedLSL(Reg, u8),
    PreIndexeedLSR(Reg, u8),
    PreIndexeedASR(Reg, u8),
    PreIndexeedROR(Reg, u8),
    PostIndexedImm([u8; 2]),
    PostIndexedLSL(Reg, u8),
    PostIndexedLSR(Reg, u8),
    PostIndexedASR(Reg, u8),
    PostIndexedROR(Reg, u8),
}

/// The addressing mode of a half-word or signed byte transfer.
#[derive(Copy, Clone, Debug, PartialEq, Eq, Hash)]
pub struct Mode3 {
    pub rn: Reg,
    pub offset: Offset3,
    pub subtract: bool,
}

/// The offset of a half-word or signed byte transfer.
#[derive(Copy, Clone, Debug, PartialEq, Eq, Hash)]
pub enum Offset3 {
    OffsetImm(u8),
    PreIndexedImm(u8),
    PostIndexedImm(u8),
    OffsetReg(Reg),
    PreIndexedReg(Reg),
    PostIndexedReg(Reg),
}

/// The addressing mode of a coprocessor transfer.
#[derive(Copy, Clone, Debug, PartialEq, Eq, Hash)]
pub struct Mode5 {
    pub rn: Reg,
    pub offset: Offset5,
    pub subtract: bool,
}

/// The offset of a coprocessor transfer.
#[derive(Copy, Clone, Debug, PartialEq, Eq, Hash)]
pub enum Offset5 {
    ImmediateOffset(u8),
    PreIndexed(u8),
    PostIndexed(u8),
}

/// A decoded instruction: when it executes and what it does.
#[derive(Copy, Clone, Debug, PartialEq, Eq, Hash)]
pub struct Decoded {
    pub condition: Condition,
    pub operation: Operation,
}

/// The field selector of a status-register write: which byte lanes of the
/// status register the write reaches.
///
/// The selector is the low four bits of a byte: control in bit 0, extension in
/// bit 1, status in bit 2, flags in bit 3. Bits 7..4 are reserved; no accessor
/// reads or changes them.
#[derive(Copy, Clone, Debug, PartialEq, Eq, Hash)]
pub struct Mask(pub u8);

impl Mask {
    /// Whether the control lane is written (bit 0).
    pub open spec fn spec_control(self) -> bool {
        spec_flag8(self.0, 0)
    }

    /// Whether the extension lane is written (bit 1).
    pub open spec fn spec_extension(self) -> bool {
        spec_flag8(self.0, 1)
    }

    /// Whether the status lane is written (bit 2).
    pub open spec fn spec_status(self) -> bool {
        spec_flag8(self.0, 2)
    }

    /// Whether the flags lane is written (bit 3).
    pub open spec fn spec_flags(self) -> bool {
        spec_flag8(self.0, 3)
    }

    /// The value with every bit clear.
    pub fn new() -> (r: Self)
        ensures
            r.0 == 0,
    {
        Mask(0)
    }

    /// The value whose bits are `bits`.
    pub fn from_bits(bits: u8) -> (r: Self)
        ensures
            r.0 == bits,
    {
        Mask(bits)
    }

    /// The bits of the value.
    pub fn into_bits(self) -> (bits: u8)
        ensures
            bits == self.0,
    {
        self.0
    }

    /// Whether the control lane is written (bit 0).
    pub fn control(&self) -> (set: bool)
        ensures
            set == self.spec_control(),
    {
        get_flag8(self.0, 0)
    }

    /// The value with bit 0 made equal to `value` and every other bit kept.
    pub fn with_control(self, value: bool) -> (r: Self)
        ensures
            r.0 == spec_with_flag8(self.0, 0, value),
            r.spec_control() == value,
            r.spec_extension() == self.spec_extension(),
            r.spec_status() == self.spec_status(),
            r.spec_flags() == self.spec_flags(),
    {
        Mask(with_flag8(self.0, 0, value))
    }

    /// Makes bit 0 equal to `value` and keeps every other bit.
    pub fn set_control(&mut self, value: bool)
        ensures
            final(self).0 == spec_with_flag8(old(self).0, 0, value),
            final(self).spec_control() == value,
            final(self).spec_extension() == old(self).spec_extension(),
            final(self).spec_status() == old(self).spec_status(),
            final(self).spec_flags() == old(self).spec_flags(),
    {
        self.0 = with_flag8(self.0, 0, value);
    }

    /// Whether the extension lane is written (bit 1).
    pub fn extension(&self) -> (set: bool)
        ensures
            set == self.spec_extension(),
    {
        get_flag8(self.0, 1)
    }

    /// The value with bit 1 made equal to `value` and every other bit kept.
    pub fn with_extension(self, value: bool) -> (r: Self)
        ensures
            r.0 == spec_with_flag8(self.0, 1, value),
            r.spec_extension() == value,
            r.spec_control() == self.spec_control(),
            r.spec_status() == self.spec_status(),
            r.spec_flags() == self.spec_flags(),
    {
        Mask(with_flag8(self.0, 1, value))
    }

    /// Makes bit 1 equal to `value` and keeps every other bit.
    pub fn set_extension(&mut self, value: bool)
        ensures
            final(self).0 == spec_with_flag8(old(self).0, 1, value),
            final(self).spec_extension() == value,
            final(self).spec_control() == old(self).spec_control(),
            final(self).spec_status() == old(self).spec_status(),
            final(self).spec_flags() == old(self).spec_flags(),
    {
        self.0 = with_flag8(self.0, 1, value);
    }

    /// Whether the status lane is written (bit 2).
    pub fn status(&self) -> (set: bool)
        ensures
            set == self.spec_status(),
    {
        get_flag8(self.0, 2)
    }

    /// The value with bit 2 made equal to `value` and every other bit kept.
    pub fn with_status(self, value: bool) -> (r: Self)
        ensures
            r.0 == spec_with_flag8(self.0, 2, value),
            r.spec_status() == value,
            r.spec_control() == self.spec_control(),
            r.spec_extension() == self.spec_extension(),
            r.spec_flags() == self.spec_flags(),
    {
        Mask(with_flag8(self.0, 2, value))
    }

    /// Makes bit 2 equal to `value` and keeps every other bit.
    pub fn set_status(&mut self, value: bool)
        ensures
            final(self).0 == spec_with_flag8(old(self).0, 2, value),
            final(self).spec_status() == value,
            final(self).spec_control() == old(self).spec_control(),
            final(self).spec_extension() == old(self).spec_extension(),
            final(self).spec_flags() == old(self).spec_flags(),
    {
        self.0 = with_flag8(self.0, 2, value);
    }

    /// Whether the flags lane is written (bit 3).
    pub fn flags(&self) -> (set: bool)
        ensures
            set == self.spec_flags(),
    {
        get_flag8(self.0, 3)
    }

    /// The value with bit 3 made equal to `value` and every other bit kept.
    pub fn with_flags(self, value: bool) -> (r: Self)
        ensures
            r.0 == spec_with_flag8(self.0, 3, value),
            r.spec_flags() == value,
            r.spec_control() == self.spec_control(),
            r.spec_extension() == self.spec_extension(),
            r.spec_status() == self.spec_status(),
    {
        Mask(with_flag8(self.0, 3, value))
    }

    /// Makes bit 3 equal to `value` and keeps every other bit.
    pub fn set_flags(&mut self, value: bool)
        ensures
            final(self).0 == spec_with_flag8(old(self).0, 3, value),
            final(self).spec_flags() == value,
            final(self).spec_control() == old(self).spec_control(),
            final(self).spec_extension() == old(self).spec_extension(),
            final(self).spec_status() == old(self).spec_status(),
    {
        self.0 = with_flag8(self.0, 3, value);
    }
}

impl Default for Mask {
    fn default() -> (r: Self)
        ensures
            r.0 == 0,
    {
        Mask::new()
    }
}

/// The addressing flags of a block transfer.
///
/// The flags are the low four bits of a byte: decrement in bit 0, after in
/// bit 1, write-back in bit 2, force-user in bit 3. Bits 7..4 are reserved; no
/// accessor reads or changes them.
#[derive(Copy, Clone, Debug, PartialEq, Eq, Hash)]
pub struct Offset4(pub u8);

impl Offset4 {
    /// Whether addresses run downwards (bit 0).
    pub open spec fn spec_decrement(self) -> bool {
        spec_flag8(self.0, 0)
    }

    /// Whether the base moves after each transfer (bit 1).
    pub open spec fn spec_after(self) -> bool {
        spec_flag8(self.0, 1)
    }

    /// Whether the final address is written back to the base (bit 2).
    pub open spec fn spec_write_back(self) -> bool {
        spec_flag8(self.0, 2)
    }

    /// Whether the status register is restored or the user bank is forced (bit 3).
    pub open spec fn spec_cpsr_or_force_user(self) -> bool {
        spec_flag8(self.0, 3)
    }

    /// The value with every bit clear.
    pub fn new() -> (r: Self)
        ensures
            r.0 == 0,
    {
        Offset4(0)
    }

    /// The value whose bits are `bits`.
    pub fn from_bits(bits: u8) -> (r: Self)
        ensures
            r.0 == bits,
    {
        Offset4(bits)
    }

    /// The bits of the value.
    pub fn into_bits(self) -> (bits: u8)
        ensures
            bits == self.0,
    {
        self.0
    }

    /// Whether addresses run downwards (bit 0).
    pub fn decrement(&self) -> (set: bool)
        ensures
            set == self.spec_decrement(),
    {
        get_flag8(self.0, 0)
    }

    /// The value with bit 0 made equal to `value` and every other bit kept.
    pub fn with_decrement(self, value: bool) -> (r: Self)
        ensures
            r.0 == spec_with_flag8(self.0, 0, value),
            r.spec_decrement() == value,
            r.spec_after() == self.spec_after(),
            r.spec_write_back() == self.spec_write_back(),
            r.spec_cpsr_or_force_user() == self.spec_cpsr_or_force_user(),
    {
        Offset4(with_flag8(self.0, 0, value))
    }

    /// Makes bit 0 equal to `value` and keeps every other bit.
    pub fn set_decrement(&mut self, value: bool)
        ensures
            final(self).0 == spec_with_flag8(old(self).0, 0, value),
            final(self).spec_decrement() == value,
            final(self).spec_after() == old(self).spec_after(),
            final(self).spec_write_back() == old(self).spec_write_back(),
            final(self).spec_cpsr_or_force_user() == old(self).spec_cpsr_or_force_user(),
    {
        self.0 = with_flag8(self.0, 0, value);
    }

    /// Whether the base moves after each transfer (bit 1).
    pub fn after(&self) -> (set: bool)
        ensures
            set == self.spec_after(),
    {
        get_flag8(self.0, 1)
    }

    /// The value with bit 1 made equal to `value` and every other bit kept.
    pub fn with_after(self, value: bool) -> (r: Self)
        ensures
            r.0 == spec_with_flag8(self.0, 1, value),
            r.spec_after() == value,
            r.spec_decrement() == self.spec_decrement(),
            r.spec_write_back() == self.spec_write_back(),
            r.spec_cpsr_or_force_user() == self.spec_cpsr_or_force_user(),
    {
        Offset4(with_flag8(self.0, 1, value))
    }

    /// Makes bit 1 equal to `value` and keeps every other bit.
    pub fn set_after(&mut self, value: bool)
        ensures
            final(self).0 == spec_with_flag8(old(self).0, 1, value),
            final(self).spec_after() == value,
            final(self).spec_decrement() == old(self).spec_decrement(),
            final(self).spec_write_back() == old(self).spec_write_back(),
            final(self).spec_cpsr_or_force_user() == old(self).spec_cpsr_or_force_user(),
    {
        self.0 = with_flag8(self.0, 1, value);
    }

    /// Whether the final address is written back to the base (bit 2).
    pub fn write_back(&self) -> (set: bool)
        ensures
            set == self.spec_write_back(),
    {
        get_flag8(self.0, 2)
    }

    /// The value with bit 2 made equal to `value` and every other bit kept.
    pub fn with_write_back(self, value: bool) -> (r: Self)
        ensures
            r.0 == spec_with_flag8(self.0, 2, value),
            r.spec_write_back() == value,
            r.spec_decrement() == self.spec_decrement(),
            r.spec_after() == self.spec_after(),
            r.spec_cpsr_or_force_user() == self.spec_cpsr_or_force_user(),
    {
        Offset4(with_flag8(self.0, 2, value))
    }

    /// Makes bit 2 equal to `value` and keeps every other bit.
    pub fn set_write_back(&mut self, value: bool)
        ensures
            final(self).0 == spec_with_flag8(old(self).0, 2, value),
            final(self).spec_write_back() == value,
            final(self).spec_decrement() == old(self).spec_decrement(),
            final(self).spec_after() == old(self).spec_after(),
            final(self).spec_cpsr_or_force_user() == old(self).spec_cpsr_or_force_user(),
    {
        self.0 = with_flag8(self.0, 2, value);
    }

    /// Whether the status register is restored or the user bank is forced (bit 3).
    pub fn cpsr_or_force_user(&self) -> (set: bool)
        ensures
            set == self.spec_cpsr_or_force_user(),
    {
        get_flag8(self.0, 3)
    }

    /// The value with bit 3 made equal to `value` and every other bit kept.
    pub fn with_cpsr_or_force_user(self, value: bool) -> (r: Self)
        ensures
            r.0 == spec_with_flag8(self.0, 3, value),
            r.spec_cpsr_or_force_user() == value,
            r.spec_decrement() == self.spec_decrement(),
            r.spec_after() == self.spec_after(),
            r.spec_write_back() == self.spec_write_back(),
    {
        Offset4(with_flag8(self.0, 3, value))
    }

    /// Makes bit 3 equal to `value` and keeps every other bit.
    pub fn set_cpsr_or_force_user(&mut self, value: bool)
        ensures
            final(self).0 == spec_with_flag8(old(self).0, 3, value),
            final(self).spec_cpsr_or_force_user() == value,
            final(self).spec_decrement() == old(self).spec_decrement(),
            final(self).spec_after() == old(self).spec_after(),
            final(self).spec_write_back() == old(self).spec_write_back(),
    {
        self.0 = with_flag8(self.0, 3, value);
    }
}

impl Default for Offset4 {
    fn default() -> (r: Self)
        ensures
            r.0 == 0,
    {
        Offset4::new()
    }
}

/// The instruction families that share major opcode 0.
#[derive(Copy, Clone, Debug, PartialEq, Eq, Hash)]
pub enum Major0Family {
    /// Multiplies and the extra load and store instructions. No operation is
    /// decoded for this family.
    MultiplyExtra,
    /// Status-register transfers and branch-and-exchange.
    Miscellaneous,
    /// Data processing whose second operand is a register shifted by a register.
    DataProcRegShift,
    /// Data processing whose second operand is a register shifted by an immediate.
    DataProcImmShift,
}

/// The major opcode of `word`: bits 27..25.
pub open spec fn spec_major(word: u32) -> nat {
    spec_field32(word, 25, 3)
}

/// The major opcode of `word`: bits 27..25.
pub fn major(word: u32) -> (m: u8)
    ensures
        m == spec_major(word),
        m < 8,
{
    proof {
        lemma2_to64();
    }
    field8(word, 25, 3)
}

/// A field of at most eight bits, as a byte.
fn field8(word: u32, at: u32, width: u32) -> (value: u8)
    requires
        at + width <= 32,
        width <= 8,
    ensures
        value == spec_field32(word, at as nat, width as nat),
        value < pow2(width as nat),
{
    let value = get_field32(word, at, width);
    proof {
        lemma2_to64();
        if width < 8 {
            lemma_pow2_strictly_increases(width as nat, 8);
        }
    }
    value as u8
}

/// A 16-bit field, as a half-word.
fn field16(word: u32, at: u32) -> (value: u16)
    requires
        at <= 16,
    ensures
        value == spec_field32(word, at as nat, 16),
{
    let value = get_field32(word, at, 16);
    proof {
        lemma2_to64();
    }
    value as u16
}

impl Condition {
    /// The condition that a 4-bit code stands for.
    pub open spec fn spec_from_code(code: nat) -> Condition {
        if code == 0 {
            Condition::Eq
        } else if code == 1 {
            Condition::Ne
        } else if code == 2 {
            Condition::Cs
        } else if code == 3 {
            Condition::Cc
        } else if code == 4 {
            Condition::Mi
        } else if code == 5 {
            Condition::Pl
        } else if code == 6 {
            Condition::Vs
        } else if code == 7 {
            Condition::Vc
        } else if code == 8 {
            Condition::Hi
        } else if code == 9 {
            Condition::Ls
        } else if code == 10 {
            Condition::Ge
        } else if code == 11 {
            Condition::Lt
        } else if code == 12 {
            Condition::Gt
        } else if code == 13 {
            Condition::Le
        } else if code == 14 {
            Condition::Always
        } else {
            Condition::Reserved
        }
    }

    /// The 4-bit code of a condition.
    pub open spec fn spec_code(self) -> nat {
        match self {
            Condition::Eq => 0,
            Condition::Ne => 1,
            Condition::Cs => 2,
            Condition::Cc => 3,
            Condition::Mi => 4,
            Condition::Pl => 5,
            Condition::Vs => 6,
            Condition::Vc => 7,
            Condition::Hi => 8,
            Condition::Ls => 9,
            Condition::Ge => 10,
            Condition::Lt => 11,
            Condition::Gt => 12,
            Condition::Le => 13,
            Condition::Always => 14,
            Condition::Reserved => 15,
        }
    }
}

impl Decoded {
    /// The register named by the 4-bit field at `at`.
    pub open spec fn spec_reg(word: u32, at: nat) -> Reg {
        Reg(spec_field32(word, at, 4) as u8)
    }

    /// The rotated immediate in bits 11..0: value in bits 7..0, rotate amount
    /// in bits 11..8.
    pub open spec fn spec_imm32(word: u32) -> Immediate {
        Immediate {
            immediate: spec_field32(word, 0, 8) as u8,
            rotate_amount: spec_field32(word, 8, 4) as u8,
        }
    }

    /// The field selector in bits 19..16.
    pub open spec fn spec_mask(word: u32) -> Mask {
        Mask(spec_field32(word, 16, 4) as u8)
    }

    /// The second operand that a shift type, an amount source and the operand
    /// fields stand for.
    pub open spec fn spec_shift_op2(typ: nat, constant: bool, rm: Reg, amount: u8, rs: Reg) -> Op2 {
        if typ == 0 {
            if constant {
                Op2::ShiftLeftImm(rm, amount)
            } else {
                Op2::ShiftLeftReg(rm, rs)
            }
        } else if typ == 1 {
            if constant {
                Op2::ShiftRightLogicalImm(rm, amount)
            } else {
                Op2::ShiftRightLogicalReg(rm, rs)
            }
        } else if typ == 2 {
            if constant {
                Op2::ShiftRightArithmeticImm(rm, amount)
            } else {
                Op2::ShiftRightArithmeticReg(rm, rs)
            }
        } else {
            if constant {
                Op2::RotateRightImm(rm, amount)
            } else {
                Op2::RotateRightReg(rm, rs)
            }
        }
    }

    /// The second operand of a data-processing instruction.
    ///
    /// With `has_imm` it is the rotated immediate. Otherwise it is the register
    /// in bits 3..0, shifted as bits 6..5 say, by the amount in bits 11..7 when
    /// `shift_is_constant` and by the register in bits 11..8 when not.
    pub open spec fn spec_op2(word: u32, has_imm: bool, shift_is_constant: bool) -> Op2 {
        if has_imm {
            Op2::Immediate(Self::spec_imm32(word))
        } else {
            Self::spec_shift_op2(
                spec_field32(word, 5, 2),
                shift_is_constant,
                Self::spec_reg(word, 0),
                spec_field32(word, 7, 5) as u8,
                Self::spec_reg(word, 8),
            )
        }
    }

    /// The data-processing operation that an opcode stands for.
    ///
    /// The four comparisons carry no destination, and the two moves no first
    /// operand.
    pub open spec fn spec_alu(opc: nat, s: bool, rd: Reg, rn: Reg, op2: Op2) -> Operation {
        if opc == 0 {
            Operation::And(s, rd, rn, op2)
        } else if opc == 1 {
            Operation::Eor(s, rd, rn, op2)
        } else if opc == 2 {
            Operation::Sub(s, rd, rn, op2)
        } else if opc == 3 {
            Operation::Rsb(s, rd, rn, op2)
        } else if opc == 4 {
            Operation::Add(s, rd, rn, op2)
        } else if opc == 5 {
            Operation::Adc(s, rd, rn, op2)
        } else if opc == 6 {
            Operation::Sbc(s, rd, rn, op2)
        } else if opc == 7 {
            Operation::Rsc(s, rd, rn, op2)
        } else if opc == 8 {
            Operation::Tst(rn, op2)
        } else if opc == 9 {
            Operation::Teq(rn, op2)
        } else if opc == 10 {
            Operation::Cmp(rn, op2)
        } else if opc == 11 {
            Operation::Cmn(rn, op2)
        } else if opc == 12 {
            Operation::Orr(s, rd, rn, op2)
        } else if opc == 13 {
            Operation::Mov(s, rd, op2)
        } else if opc == 14 {
            Operation::Bic(s, rd, rn, op2)
        } else {
            Operation::Mvn(s, rd, op2)
        }
    }

    /// The data-processing operation of `word`: opcode in bits 24..21,
    /// destination in bits 15..12, first operand in bits 19..16.
    pub open spec fn spec_data_proc(word: u32, s: bool, op2: Op2) -> Operation {
        Self::spec_alu(
            spec_field32(word, 21, 4),
            s,
            Self::spec_reg(word, 12),
            Self::spec_reg(word, 16),
            op2,
        )
    }

    /// The miscellaneous instruction of `word`.
    ///
    /// Bits 7..4 and bit 21 select the instruction; bit 22 selects the saved
    /// status register over the current one.
    pub open spec fn spec_misc_instructions(word: u32) -> Operation {
        let lo = spec_field32(word, 4, 4);
        let hi = spec_flag32(word, 21);
        let r = spec_flag32(word, 22);
        if !hi && lo == 0 {
            Operation::Mrs(Self::spec_reg(word, 12), r)
        } else if hi && lo == 0 {
            Operation::Msr(Self::spec_reg(word, 0), r, Self::spec_mask(word))
        } else if hi && lo == 1 {
            Operation::Bx(Self::spec_reg(word, 0))
        } else {
            Operation::Undefined
        }
    }

    /// The family of a word of major opcode 0. The rows are tried in order and
    /// the first that matches decides.
    pub open spec fn spec_major_0_family(word: u32) -> Major0Family {
        let op_hi = spec_field32(word, 23, 2) == 2;
        let s = spec_flag32(word, 20);
        let se = spec_flag32(word, 7);
        let fo = spec_flag32(word, 4);
        if fo && se {
            Major0Family::MultiplyExtra
        } else if fo && !se && !s && op_hi {
            Major0Family::Miscellaneous
        } else if fo && !se {
            Major0Family::DataProcRegShift
        } else if !fo && !s && op_hi {
            Major0Family::Miscellaneous
        } else {
            Major0Family::DataProcImmShift
        }
    }

    /// The multiply or extra load and store instruction of `word`, or `None`
    /// where none is decoded. No instruction of this family is decoded.
    pub open spec fn spec_multiplies_and_extra_mem_instructions(word: u32) -> Option<Operation> {
        None
    }

    /// The operation of a word of major opcode 0, or `None` where none is
    /// decoded.
    pub open spec fn spec_major_0(word: u32) -> Option<Operation> {
        let s = spec_flag32(word, 20);
        match Self::spec_major_0_family(word) {
            Major0Family::MultiplyExtra => Self::spec_multiplies_and_extra_mem_instructions(word),
            Major0Family::Miscellaneous => Some(Self::spec_misc_instructions(word)),
            Major0Family::DataProcRegShift => Some(
                Self::spec_data_proc(word, s, Self::spec_op2(word, false, false)),
            ),
            Major0Family::DataProcImmShift => Some(
                Self::spec_data_proc(word, s, Self::spec_op2(word, false, true)),
            ),
        }
    }

    /// The operation of a word of major opcode 1.
    ///
    /// Without set-flags and with bit 21 set, the word is a status-register
    /// write of an immediate when bits 24..23 are `10`, and is undefined when
    /// they are not. Every other word is data processing on a rotated immediate.
    pub open spec fn spec_major_1(word: u32) -> Operation {
        let op_hi = spec_field32(word, 23, 2) == 2;
        let op_lo = spec_flag32(word, 21);
        let s = spec_flag32(word, 20);
        if !s && op_lo && op_hi {
            Operation::MsrI(spec_flag32(word, 22), Self::spec_imm32(word), Self::spec_mask(word))
        } else if !s && op_lo {
            Operation::Undefined
        } else {
            Self::spec_data_proc(word, s, Self::spec_op2(word, true, false))
        }
    }

    /// The offset of a word or byte transfer.
    ///
    /// Bit 24 clear gives post-indexing; bit 24 set gives pre-indexing with
    /// bit 21 and a plain offset without. The immediate is bits 11..0 as two
    /// little-endian bytes. The register form shifts the register in bits 3..0
    /// as bits 6..5 say by the amount in bits 11..7.
    pub open spec fn spec_offset2(word: u32, imm_offset: bool) -> Offset2 {
        let p = spec_flag32(word, 24);
        let w = spec_flag32(word, 21);
        if imm_offset {
            let offset = [spec_field32(word, 0, 8) as u8, spec_field32(word, 8, 4) as u8];
            if !p {
                Offset2::PostIndexedImm(offset)
            } else if w {
                Offset2::PreIndexeedImm(offset)
            } else {
                Offset2::OffsetImm(offset)
            }
        } else {
            let rm = Self::spec_reg(word, 0);
            let amount = spec_field32(word, 7, 5) as u8;
            let typ = spec_field32(word, 5, 2);
            if !p {
                if typ == 0 {
                    Offset2::PostIndexedLSL(rm, amount)
                } else if typ == 1 {
                    Offset2::PostIndexedLSR(rm, amount)
                } else if typ == 2 {
                    Offset2::PostIndexedASR(rm, amount)
                } else {
                    Offset2::PostIndexedROR(rm, amount)
                }
            } else if w {
                if typ == 0 {
                    Offset2::PreIndexeedLSL(rm, amount)
                } else if typ == 1 {
                    Offset2::PreIndexeedLSR(rm, amount)
                } else if typ == 2 {
                    Offset2::PreIndexeedASR(rm, amount)
                } else {
                    Offset2::PreIndexeedROR(rm, amount)
                }
            } else {
                if typ == 0 {
                    Offset2::OffsetLSL(rm, amount)
                } else if typ == 1 {
                    Offset2::OffsetLSR(rm, amount)
                } else if typ == 2 {
                    Offset2::OffsetASR(rm, amount)
                } else {
                    Offset2::OffsetROR(rm, amount)
                }
            }
        }
    }

    /// The addressing mode of a word or byte transfer: base register in bits
    /// 19..16, subtraction when bit 23 is clear.
    pub open spec fn spec_mode2(word: u32, imm_offset: bool) -> Mode2 {
        Mode2 {
            rn: Self::spec_reg(word, 16),
            offset: Self::spec_offset2(word, imm_offset),
            subtract: !spec_flag32(word, 23),
        }
    }

    /// The word or byte transfer of `word`.
    ///
    /// Bit 22 selects a byte, bit 20 a load. A post-indexed transfer with bit
    /// 21 set is the unprivileged form of the instruction.
    pub open spec fn spec_load_store(word: u32, imm_offset: bool) -> Operation {
        let mode = Self::spec_mode2(word, imm_offset);
        let rd = Self::spec_reg(word, 12);
        let b = spec_flag32(word, 22);
        let l = spec_flag32(word, 20);
        let unprivileged = !spec_flag32(word, 24) && spec_flag32(word, 21);
        if !unprivileged {
            if !b && !l {
                Operation::Str(rd, mode)
            } else if !b && l {
                Operation::Ldr(rd, mode)
            } else if b && !l {
                Operation::Strb(rd, mode)
            } else {
                Operation::Ldrb(rd, mode)
            }
        } else {
            if !b && !l {
                Operation::Strt(rd, mode)
            } else if !b && l {
                Operation::Ldrt(rd, mode)
            } else if b && !l {
                Operation::Strbt(rd, mode)
            } else {
                Operation::Ldrbt(rd, mode)
            }
        }
    }

    /// The operation of a word of major opcode 3: undefined with bit 4 set,
    /// otherwise a transfer with a register offset.
    pub open spec fn spec_major_3(word: u32) -> Operation {
        if spec_flag32(word, 4) {
            Operation::Undefined
        } else {
            Self::spec_load_store(word, false)
        }
    }

    /// The branch of `word`: link in bit 24, and bits 23..0 as three
    /// little-endian bytes, neither sign-extended nor scaled.
    pub open spec fn spec_major_5(word: u32) -> Operation {
        Operation::B(
            spec_flag32(word, 24),
            [
                spec_field32(word, 0, 8) as u8,
                spec_field32(word, 8, 8) as u8,
                spec_field32(word, 16, 8) as u8,
            ],
        )
    }

    /// The operation of `word`, or `None` where no operation is decoded.
    ///
    /// Major opcodes 4, 6 and 7 are undefined.
    pub open spec fn spec_operation(word: u32) -> Option<Operation> {
        let m = spec_major(word);
        if m == 0 {
            Self::spec_major_0(word)
        } else if m == 1 {
            Some(Self::spec_major_1(word))
        } else if m == 2 {
            Some(Self::spec_load_store(word, true))
        } else if m == 3 {
            Some(Self::spec_major_3(word))
        } else if m == 5 {
            Some(Self::spec_major_5(word))
        } else {
            Some(Operation::Undefined)
        }
    }

    /// The decoded form of `word`: the condition in bits 31..28 and the
    /// operation, or `None` where no operation is decoded.
    pub open spec fn spec_decode_arm(word: u32) -> Option<Decoded> {
        match Self::spec_operation(word) {
            Some(operation) => Some(
                Decoded {
                    condition: Condition::spec_from_code(spec_field32(word, 28, 4)),
                    operation,
                },
            ),
            None => None,
        }
    }

    /// Whether `word` lies in the part of the encoding space that the decoder
    /// covers.
    pub open spec fn spec_covers_arm(word: u32) -> bool {
        Self::spec_decode_arm(word) is Some
    }

    /// The decoded form of a Thumb half-word, or `None` where none is decoded.
    /// No Thumb instruction is decoded.
    pub open spec fn spec_decode_thumb(half: u16) -> Option<Decoded> {
        None
    }

    /// Decodes an ARM instruction word.
    ///
    /// The word has to lie in the covered space, which
    /// [`Decoded::covers_arm`] tests. There every word has a decoded form; a
    /// reserved or unassigned encoding decodes to [`Operation::Undefined`].
    pub fn decode_arm(word: u32) -> (decoded: Self)
        requires
            Self::spec_covers_arm(word),
        ensures
            Some(decoded) == Self::spec_decode_arm(word),
            decoded.condition.spec_code() == spec_field32(word, 28, 4),
            decoded.operation.spec_is_decoded_kind(),
            decoded.operation.spec_in_range(),
    {
        let condition = Self::decode_condition(word);
        let operation = match major(word) {
            0 => Self::decode_major_0(word),
            1 => Self::decode_major_1(word),
            2 => Self::decode_major_2(word),
            3 => Self::decode_major_3(word),
            5 => Self::decode_major_5(word),
            8.. => unreached(),
            _ => Operation::Undefined,
        };

        let decoded = Self { condition, operation };
        proof {
            lemma_decode_arm_in_range(word, decoded);
        }
        decoded
    }

    /// Decodes a Thumb instruction half-word.
    ///
    /// No Thumb instruction is decoded, so no half-word meets the
    /// precondition and no call of this function verifies. The function marks
    /// where Thumb decoding belongs; [`Decoded::spec_decode_thumb`] is what an
    /// implementation has to fill.
    pub fn decode_thumb(half: u16) -> (decoded: Self)
        requires
            Self::spec_decode_thumb(half) is Some,
        ensures
            Some(decoded) == Self::spec_decode_thumb(half),
    {
        unreached()
    }

    /// Decodes the Thumb instruction in the low half of `word`: bits 15..0.
    /// As with [`Decoded::decode_thumb`], no word meets the precondition.
    pub fn decode_thumb_lo(word: u32) -> (decoded: Self)
        requires
            Self::spec_decode_thumb(spec_field32(word, 0, 16) as u16) is Some,
        ensures
            Some(decoded) == Self::spec_decode_thumb(spec_field32(word, 0, 16) as u16),
    {
        Self::decode_thumb(field16(word, 0))
    }

    /// Decodes the Thumb instruction in the high half of `word`: bits 31..16.
    /// As with [`Decoded::decode_thumb`], no word meets the precondition.
    pub fn decode_thumb_hi(word: u32) -> (decoded: Self)
        requires
            Self::spec_decode_thumb(spec_field32(word, 16, 16) as u16) is Some,
        ensures
            Some(decoded) == Self::spec_decode_thumb(spec_field32(word, 16, 16) as u16),
    {
        Self::decode_thumb(field16(word, 16))
    }

    /// Whether [`Decoded::decode_arm`] covers `word`.
    pub fn covers_arm(word: u32) -> (covered: bool)
        ensures
            covered == Self::spec_covers_arm(word),
            covered == !(spec_major(word) == 0 && spec_flag32(word, 4) && spec_flag32(word, 7)),
    {
        if major(word) == 0 {
            match Self::major_0_family(word) {
                Major0Family::MultiplyExtra => false,
                _ => true,
            }
        } else {
            true
        }
    }

    /// The register named by the 4-bit field at `at`.
    pub fn decode_reg(word: u32, at: u32) -> (reg: Reg)
        requires
            at + 4 <= 32,
        ensures
            reg == Self::spec_reg(word, at as nat),
            reg.0 < 16,
    {
        proof {
            lemma2_to64();
        }
        Reg(field8(word, at, 4))
    }

    /// The condition in bits 31..28.
    pub fn decode_condition(word: u32) -> (condition: Condition)
        ensures
            condition == Condition::spec_from_code(spec_field32(word, 28, 4)),
            condition.spec_code() == spec_field32(word, 28, 4),
    {
        let code = field8(word, 28, 4);
        proof {
            lemma2_to64();
        }
        match code {
            0x0 => Condition::Eq,
            0x1 => Condition::Ne,
            0x2 => Condition::Cs,
            0x3 => Condition::Cc,
            0x4 => Condition::Mi,
            0x5 => Condition::Pl,
            0x6 => Condition::Vs,
            0x7 => Condition::Vc,
            0x8 => Condition::Hi,
            0x9 => Condition::Ls,
            0xA => Condition::Ge,
            0xB => Condition::Lt,
            0xC => Condition::Gt,
            0xD => Condition::Le,
            0xE => Condition::Always,
            0xF => Condition::Reserved,
            _ => unreached(),
        }
    }

    /// The family of a word of major opcode 0.
    pub fn major_0_family(word: u32) -> (family: Major0Family)
        ensures
            family == Self::spec_major_0_family(word),
    {
        let op_hi = field8(word, 23, 2) == 2;
        let s = get_flag32(word, 20);
        let se = get_flag32(word, 7);
        let fo = get_flag32(word, 4);

        if fo && se {
            Major0Family::MultiplyExtra
        } else if fo && !se && !s && op_hi {
            Major0Family::Miscellaneous
        } else if fo && !se {
            Major0Family::DataProcRegShift
        } else if !fo && !s && op_hi {
            Major0Family::Miscellaneous
        } else {
            Major0Family::DataProcImmShift
        }
    }

    /// The operation of a word of major opcode 0.
    pub fn decode_major_0(word: u32) -> (operation: Operation)
        requires
            Self::spec_major_0(word) is Some,
        ensures
            Some(operation) == Self::spec_major_0(word),
    {
        let s = get_flag32(word, 20);
        match Self::major_0_family(word) {
            Major0Family::MultiplyExtra => Self::decode_multiplies_and_extra_mem_instructions(word),
            Major0Family::Miscellaneous => Self::decode_misc_instructions(word),
            Major0Family::DataProcRegShift => {
                let op2 = Self::decode_op2(word, false, false);
                Self::decode_data_proc(word, s, op2)
            },
            Major0Family::DataProcImmShift => {
                let op2 = Self::decode_op2(word, false, true);
                Self::decode_data_proc(word, s, op2)
            },
        }
    }

    /// The multiply or extra load and store instruction of `word`. None is
    /// decoded, so no word meets the precondition.
    fn decode_multiplies_and_extra_mem_instructions(word: u32) -> (operation: Operation)
        requires
            Self::spec_multiplies_and_extra_mem_instructions(word) is Some,
        ensures
            Some(operation) == Self::spec_multiplies_and_extra_mem_instructions(word),
    {
        unreached()
    }

    /// The miscellaneous instruction of `word`.
    pub fn decode_misc_instructions(word: u32) -> (operation: Operation)
        ensures
            operation == Self::spec_misc_instructions(word),
    {
        let lo = field8(word, 4, 4);
        let hi = get_flag32(word, 21);
        let r = get_flag32(word, 22);

        if !hi && lo == 0 {
            let rd = Self::decode_reg(word, 12);
            Operation::Mrs(rd, r)
        } else if hi && lo == 0 {
            let mask = Self::decode_mask(word);
            let rm = Self::decode_reg(word, 0);
            Operation::Msr(rm, r, mask)
        } else if hi && lo == 1 {
            let rm = Self::decode_reg(word, 0);
            Operation::Bx(rm)
        } else {
            Operation::Undefined
        }
    }

    /// The operation of a word of major opcode 1.
    pub fn decode_major_1(word: u32) -> (operation: Operation)
        ensures
            operation == Self::spec_major_1(word),
    {
        let op_hi = field8(word, 23, 2) == 2;
        let op_lo = get_flag32(word, 21);
        let s = get_flag32(word, 20);

        if !s && op_lo && op_hi {
            let mask = Self::decode_mask(word);
            let imm = Self::decode_imm32(word);
            let r = get_flag32(word, 22);
            Operation::MsrI(r, imm, mask)
        } else if !s && op_lo {
            Operation::Undefined
        } else {
            let op2 = Self::decode_op2(word, true, false);
            Self::decode_data_proc(word, s, op2)
        }
    }

    /// The data-processing operation of `word` with set-flags `s` and second
    /// operand `op2`.
    pub fn decode_data_proc(word: u32, s: bool, op2: Op2) -> (operation: Operation)
        ensures
            operation == Self::spec_data_proc(word, s, op2),
    {
        let rd = Self::decode_reg(word, 12);
        let rn = Self::decode_reg(word, 16);

        let opc = field8(word, 21, 4);
        proof {
            lemma2_to64();
        }
        match opc {
            0 => Operation::And(s, rd, rn, op2),
            1 => Operation::Eor(s, rd, rn, op2),
            2 => Operation::Sub(s, rd, rn, op2),
            3 => Operation::Rsb(s, rd, rn, op2),
            4 => Operation::Add(s, rd, rn, op2),
            5 => Operation::Adc(s, rd, rn, op2),
            6 => Operation::Sbc(s, rd, rn, op2),
            7 => Operation::Rsc(s, rd, rn, op2),
            8 => Operation::Tst(rn, op2),
            9 => Operation::Teq(rn, op2),
            10 => Operation::Cmp(rn, op2),
            11 => Operation::Cmn(rn, op2),
            12 => Operation::Orr(s, rd, rn, op2),
            13 => Operation::Mov(s, rd, op2),
            14 => Operation::Bic(s, rd, rn, op2),
            15 => Operation::Mvn(s, rd, op2),
            _ => unreached(),
        }
    }

    /// The second operand of a data-processing instruction.
    pub fn decode_op2(word: u32, has_imm: bool, shift_is_constant: bool) -> (op2: Op2)
        ensures
            op2 == Self::spec_op2(word, has_imm, shift_is_constant),
    {
        if has_imm {
            let immediate = Self::decode_imm32(word);
            Op2::Immediate(immediate)
        } else {
            let rm = Self::decode_reg(word, 0);
            let typ = field8(word, 5, 2);
            let imm = field8(word, 7, 5);
            let rs = Self::decode_reg(word, 8);
            proof {
                lemma2_to64();
            }

            match (typ, shift_is_constant) {
                (0, true) => Op2::ShiftLeftImm(rm, imm),
                (0, false) => Op2::ShiftLeftReg(rm, rs),
                (1, true) => Op2::ShiftRightLogicalImm(rm, imm),
                (1, false) => Op2::ShiftRightLogicalReg(rm, rs),
                (2, true) => Op2::ShiftRightArithmeticImm(rm, imm),
                (2, false) => Op2::ShiftRightArithmeticReg(rm, rs),
                (3, true) => Op2::RotateRightImm(rm, imm),
                (3, false) => Op2::RotateRightReg(rm, rs),
                _ => unreached(),
            }
        }
    }

    /// The rotated immediate in bits 11..0.
    pub fn decode_imm32(word: u32) -> (imm: Immediate)
        ensures
            imm == Self::spec_imm32(word),
    {
        let immediate = field8(word, 0, 8);
        let rotate_amount = field8(word, 8, 4);
        Immediate { immediate, rotate_amount }
    }

    /// The field selector in bits 19..16.
    pub fn decode_mask(word: u32) -> (mask: Mask)
        ensures
            mask == Self::spec_mask(word),
            mask.spec_control() == spec_flag32(word, 16),
            mask.spec_extension() == spec_flag32(word, 17),
            mask.spec_status() == spec_flag32(word, 18),
            mask.spec_flags() == spec_flag32(word, 19),
    {
        let c = get_flag32(word, 16);
        let x = get_flag32(word, 17);
        let s = get_flag32(word, 18);
        let f = get_flag32(word, 19);

        let mask = Mask::new().with_control(c).with_extension(x).with_status(s).with_flags(f);
        proof {
            lemma2_to64();
            lemma_mask_field(word);
        }
        mask
    }

    /// The operation of a word of major opcode 2: a transfer with an
    /// immediate offset.
    pub fn decode_major_2(word: u32) -> (operation: Operation)
        ensures
            operation == Self::spec_load_store(word, true),
    {
        Self::decode_load_store(word, true)
    }

    /// The operation of a word of major opcode 3.
    pub fn decode_major_3(word: u32) -> (operation: Operation)
        ensures
            operation == Self::spec_major_3(word),
    {
        let fo = get_flag32(word, 4);
        if fo {
            Operation::Undefined
        } else {
            Self::decode_load_store(word, false)
        }
    }

    /// The word or byte transfer of `word`.
    pub fn decode_load_store(word: u32, imm_offset: bool) -> (operation: Operation)
        ensures
            operation == Self::spec_load_store(word, imm_offset),
    {
        let mode = Self::decode_mode2(word, imm_offset);
        let rd = Self::decode_reg(word, 12);
        let b = get_flag32(word, 22);
        let l = get_flag32(word, 20);
        let t = get_flag32(word, 21);
        let p = get_flag32(word, 24);
        let access_override = !p && t;

        if !access_override {
            match (b, l) {
                (false, false) => Operation::Str(rd, mode),
                (false, true) => Operation::Ldr(rd, mode),
                (true, false) => Operation::Strb(rd, mode),
                (true, true) => Operation::Ldrb(rd, mode),
            }
        } else {
            match (b, l) {
                (false, false) => Operation::Strt(rd, mode),
                (false, true) => Operation::Ldrt(rd, mode),
                (true, false) => Operation::Strbt(rd, mode),
                (true, true) => Operation::Ldrbt(rd, mode),
            }
        }
    }

    /// The addressing mode of a word or byte transfer.
    pub fn decode_mode2(word: u32, imm_offset: bool) -> (mode: Mode2)
        ensures
            mode == Self::spec_mode2(word, imm_offset),
    {
        let p = get_flag32(word, 24);
        let subtract = !get_flag32(word, 23);
        let w = get_flag32(word, 21);
        let rn = Self::decode_reg(word, 16);

        let offset = if imm_offset {
            let offset: [u8; 2] = [field8(word, 0, 8), field8(word, 8, 4)];
            if !p {
                Offset2::PostIndexedImm(offset)
            } else if w {
                Offset2::PreIndexeedImm(offset)
            } else {
                Offset2::OffsetImm(offset)
            }
        } else {
            let rm = Self::decode_reg(word, 0);
            let shift_amount = field8(word, 7, 5);
            let typ = field8(word, 5, 2);
            proof {
                lemma2_to64();
            }

            if !p {
                match typ {
                    0 => Offset2::PostIndexedLSL(rm, shift_amount),
                    1 => Offset2::PostIndexedLSR(rm, shift_amount),
                    2 => Offset2::PostIndexedASR(rm, shift_amount),
                    3 => Offset2::PostIndexedROR(rm, shift_amount),
                    _ => unreached(),
                }
            } else if w {
                match typ {
                    0 => Offset2::PreIndexeedLSL(rm, shift_amount),
                    1 => Offset2::PreIndexeedLSR(rm, shift_amount),
                    2 => Offset2::PreIndexeedASR(rm, shift_amount),
                    3 => Offset2::PreIndexeedROR(rm, shift_amount),
                    _ => unreached(),
                }
            } else {
                match typ {
                    0 => Offset2::OffsetLSL(rm, shift_amount),
                    1 => Offset2::OffsetLSR(rm, shift_amount),
                    2 => Offset2::OffsetASR(rm, shift_amount),
                    3 => Offset2::OffsetROR(rm, shift_amount),
                    _ => unreached(),
                }
            }
        };

        Mode2 { rn, offset, subtract }
    }

    /// The branch of `word`.
    pub fn decode_major_5(word: u32) -> (operation: Operation)
        ensures
            operation == Self::spec_major_5(word),
    {
        let l = get_flag32(word, 24);
        let offset: [u8; 3] = [field8(word, 0, 8), field8(word, 8, 8), field8(word, 16, 8)];
        Operation::B(l, offset)
    }
}

/// The four selector bits of a word are its 4-bit field at bit 16.
proof fn lemma_mask_field(word: u32)
    ensures
        spec_field32(word, 16, 4) == (if spec_flag32(word, 16) {
            1nat
        } else {
            0
        }) + (if spec_flag32(word, 17) {
            2nat
        } else {
            0
        }) + (if spec_flag32(word, 18) {
            4nat
        } else {
            0
        }) + (if spec_flag32(word, 19) {
            8nat
        } else {
            0
        }),
{
    lemma2_to64();
    assert((word / 0x10000) % 16 == (word / 0x10000) % 2 + 2 * ((word / 0x20000) % 2) + 4 * ((word
        / 0x40000) % 2) + 8 * ((word / 0x80000) % 2)) by (bit_vector);
}

impl Reg {
    /// Whether the index fits in four bits.
    pub open spec fn spec_in_range(self) -> bool {
        self.0 < 16
    }
}

impl Immediate {
    /// Whether the rotate amount fits in four bits.
    pub open spec fn spec_in_range(self) -> bool {
        self.rotate_amount < 16
    }
}

impl Op2 {
    /// Whether every register index fits in four bits, a shift amount in five
    /// and a rotate amount in four.
    pub open spec fn spec_in_range(self) -> bool {
        match self {
            Op2::Immediate(imm) => imm.spec_in_range(),
            Op2::ShiftLeftImm(rm, amount) => rm.spec_in_range() && amount < 32,
            Op2::ShiftRightLogicalImm(rm, amount) => rm.spec_in_range() && amount < 32,
            Op2::ShiftRightArithmeticImm(rm, amount) => rm.spec_in_range() && amount < 32,
            Op2::RotateRightImm(rm, amount) => rm.spec_in_range() && amount < 32,
            Op2::ShiftLeftReg(rm, rs) => rm.spec_in_range() && rs.spec_in_range(),
            Op2::ShiftRightLogicalReg(rm, rs) => rm.spec_in_range() && rs.spec_in_range(),
            Op2::ShiftRightArithmeticReg(rm, rs) => rm.spec_in_range() && rs.spec_in_range(),
            Op2::RotateRightReg(rm, rs) => rm.spec_in_range() && rs.spec_in_range(),
        }
    }
}

impl Offset2 {
    /// Whether an immediate fits in twelve bits, a register index in four and
    /// a shift amount in five.
    pub open spec fn spec_in_range(self) -> bool {
        match self {
            Offset2::OffsetImm(bytes) => bytes[1] < 16,
            Offset2::PreIndexeedImm(bytes) => bytes[1] < 16,
            Offset2::PostIndexedImm(bytes) => bytes[1] < 16,
            Offset2::OffsetLSL(rm, amount) => rm.spec_in_range() && amount < 32,
            Offset2::OffsetLSR(rm, amount) => rm.spec_in_range() && amount < 32,
            Offset2::OffsetASR(rm, amount) => rm.spec_in_range() && amount < 32,
            Offset2::OffsetROR(rm, amount) => rm.spec_in_range() && amount < 32,
            Offset2::PreIndexeedLSL(rm, amount) => rm.spec_in_range() && amount < 32,
            Offset2::PreIndexeedLSR(rm, amount) => rm.spec_in_range() && amount < 32,
            Offset2::PreIndexeedASR(rm, amount) => rm.spec_in_range() && amount < 32,
            Offset2::PreIndexeedROR(rm, amount) => rm.spec_in_range() && amount < 32,
            Offset2::PostIndexedLSL(rm, amount) => rm.spec_in_range() && amount < 32,
            Offset2::PostIndexedLSR(rm, amount) => rm.spec_in_range() && amount < 32,
            Offset2::PostIndexedASR(rm, amount) => rm.spec_in_range() && amount < 32,
            Offset2::PostIndexedROR(rm, amount) => rm.spec_in_range() && amount < 32,
        }
    }

    /// Whether the base register is left as it was.
    pub open spec fn spec_is_plain(self) -> bool {
        self is OffsetImm || self is OffsetLSL || self is OffsetLSR || self is OffsetASR
            || self is OffsetROR
    }

    /// Whether the offset is applied before the transfer and written back.
    pub open spec fn spec_is_pre_indexed(self) -> bool {
        self is PreIndexeedImm || self is PreIndexeedLSL || self is PreIndexeedLSR
            || self is PreIndexeedASR || self is PreIndexeedROR
    }

    /// Whether the offset is applied after the transfer.
    pub open spec fn spec_is_post_indexed(self) -> bool {
        self is PostIndexedImm || self is PostIndexedLSL || self is PostIndexedLSR
            || self is PostIndexedASR || self is PostIndexedROR
    }

    /// Whether the offset is a 12-bit immediate.
    pub open spec fn spec_is_immediate(self) -> bool {
        self is OffsetImm || self is PreIndexeedImm || self is PostIndexedImm
    }
}

impl Mode2 {
    /// Whether the base register and the offset are in range.
    pub open spec fn spec_in_range(self) -> bool {
        self.rn.spec_in_range() && self.offset.spec_in_range()
    }
}

impl Operation {
    /// Whether the operation is of a kind that the decoder produces. The
    /// multiplies, the half-word, signed and block transfers, the swaps, the
    /// coprocessor instructions and the software interrupt are not.
    pub open spec fn spec_is_decoded_kind(self) -> bool {
        match self {
            Operation::Undefined => true,
            Operation::Mov(..) => true,
            Operation::Mvn(..) => true,
            Operation::Mrs(..) => true,
            Operation::Msr(..) => true,
            Operation::MsrI(..) => true,
            Operation::Add(..) => true,
            Operation::Adc(..) => true,
            Operation::Sub(..) => true,
            Operation::Sbc(..) => true,
            Operation::Rsb(..) => true,
            Operation::Rsc(..) => true,
            Operation::Cmp(..) => true,
            Operation::Cmn(..) => true,
            Operation::Tst(..) => true,
            Operation::Teq(..) => true,
            Operation::And(..) => true,
            Operation::Eor(..) => true,
            Operation::Orr(..) => true,
            Operation::Bic(..) => true,
            Operation::B(..) => true,
            Operation::Bx(..) => true,
            Operation::Ldr(..) => true,
            Operation::Ldrt(..) => true,
            Operation::Ldrb(..) => true,
            Operation::Ldrbt(..) => true,
            Operation::Str(..) => true,
            Operation::Strt(..) => true,
            Operation::Strb(..) => true,
            Operation::Strbt(..) => true,
            _ => false,
        }
    }

    /// The opcode of a data-processing operation, and `None` for any other.
    pub open spec fn spec_alu_opcode(self) -> Option<nat> {
        match self {
            Operation::And(..) => Some(0),
            Operation::Eor(..) => Some(1),
            Operation::Sub(..) => Some(2),
            Operation::Rsb(..) => Some(3),
            Operation::Add(..) => Some(4),
            Operation::Adc(..) => Some(5),
            Operation::Sbc(..) => Some(6),
            Operation::Rsc(..) => Some(7),
            Operation::Tst(..) => Some(8),
            Operation::Teq(..) => Some(9),
            Operation::Cmp(..) => Some(10),
            Operation::Cmn(..) => Some(11),
            Operation::Orr(..) => Some(12),
            Operation::Mov(..) => Some(13),
            Operation::Bic(..) => Some(14),
            Operation::Mvn(..) => Some(15),
            _ => None,
        }
    }

    /// Whether every operand of an operation that the decoder produces is a
    /// value that its field can hold.
    pub open spec fn spec_in_range(self) -> bool {
        match self {
            Operation::Mov(_, rd, op2) => rd.spec_in_range() && op2.spec_in_range(),
            Operation::Mvn(_, rd, op2) => rd.spec_in_range() && op2.spec_in_range(),
            Operation::Mrs(rd, _) => rd.spec_in_range(),
            Operation::Msr(rm, _, mask) => rm.spec_in_range() && mask.0 < 16,
            Operation::MsrI(_, imm, mask) => imm.spec_in_range() && mask.0 < 16,
            Operation::Add(_, rd, rn, op2) => rd.spec_in_range() && rn.spec_in_range()
                && op2.spec_in_range(),
            Operation::Adc(_, rd, rn, op2) => rd.spec_in_range() && rn.spec_in_range()
                && op2.spec_in_range(),
            Operation::Sub(_, rd, rn, op2) => rd.spec_in_range() && rn.spec_in_range()
                && op2.spec_in_range(),
            Operation::Sbc(_, rd, rn, op2) => rd.spec_in_range() && rn.spec_in_range()
                && op2.spec_in_range(),
            Operation::Rsb(_, rd, rn, op2) => rd.spec_in_range() && rn.spec_in_range()
                && op2.spec_in_range(),
            Operation::Rsc(_, rd, rn, op2) => rd.spec_in_range() && rn.spec_in_range()
                && op2.spec_in_range(),
            Operation::And(_, rd, rn, op2) => rd.spec_in_range() && rn.spec_in_range()
                && op2.spec_in_range(),
            Operation::Eor(_, rd, rn, op2) => rd.spec_in_range() && rn.spec_in_range()
                && op2.spec_in_range(),
            Operation::Orr(_, rd, rn, op2) => rd.spec_in_range() && rn.spec_in_range()
                && op2.spec_in_range(),
            Operation::Bic(_, rd, rn, op2) => rd.spec_in_range() && rn.spec_in_range()
                && op2.spec_in_range(),
            Operation::Cmp(rn, op2) => rn.spec_in_range() && op2.spec_in_range(),
            Operation::Cmn(rn, op2) => rn.spec_in_range() && op2.spec_in_range(),
            Operation::Tst(rn, op2) => rn.spec_in_range() && op2.spec_in_range(),
            Operation::Teq(rn, op2) => rn.spec_in_range() && op2.spec_in_range(),
            Operation::Bx(rm) => rm.spec_in_range(),
            Operation::Ldr(rd, mode) => rd.spec_in_range() && mode.spec_in_range(),
            Operation::Ldrt(rd, mode) => rd.spec_in_range() && mode.spec_in_range(),
            Operation::Ldrb(rd, mode) => rd.spec_in_range() && mode.spec_in_range(),
            Operation::Ldrbt(rd, mode) => rd.spec_in_range() && mode.spec_in_range(),
            Operation::Str(rd, mode) => rd.spec_in_range() && mode.spec_in_range(),
            Operation::Strt(rd, mode) => rd.spec_in_range() && mode.spec_in_range(),
            Operation::Strb(rd, mode) => rd.spec_in_range() && mode.spec_in_range(),
            Operation::Strbt(rd, mode) => rd.spec_in_range() && mode.spec_in_range(),
            _ => true,
        }
    }
}

} // verus!
