//! The ARM7TDMI processor core: its register file and its status registers.

use crate::util::{get_field32, get_flag32, spec_field32, spec_flag32};
use vstd::arithmetic::power2::lemma2_to64;
use vstd::prelude::*;

pub mod instruction;
pub mod laws;

verus! {

/// The processor.
#[derive(Copy, Clone, Debug, PartialEq, Eq)]
pub struct Arm7TDMI {
    pub registers: Registers,
}

impl Arm7TDMI {
    /// The processor as it stands after reset.
    pub fn init() -> (cpu: Self)
        ensures
            cpu.registers.spec_is_reset(),
    {
        Self { registers: Registers::init() }
    }
}

/// The register file: the low registers that every mode shares, the high
/// registers of each bank, and the current and saved status registers.
#[derive(Copy, Clone, Debug, PartialEq, Eq)]
pub struct Registers {
    pub lo: [i32; 8],
    pub hi_usr: [i32; 8],
    pub hi_fiq: [i32; 7],
    pub hi_svc: [i32; 2],
    pub hi_abt: [i32; 2],
    pub hi_irq: [i32; 2],
    pub hi_und: [i32; 2],
    pub cpsr: Status,
    pub spsr_fiq: Status,
    pub spsr_svc: Status,
    pub spsr_abt: Status,
    pub spsr_irq: Status,
    pub spsr_und: Status,
}

/// Whether every register of a bank holds zero.
pub open spec fn spec_all_zero<const N: usize>(bank: [i32; N]) -> bool {
    forall|i: int| 0 <= i < N ==> bank[i] == 0
}

impl Registers {
    /// Whether the register file is in its reset state: every general
    /// register zero, every status register at its reset value.
    pub open spec fn spec_is_reset(self) -> bool {
        &&& spec_all_zero(self.lo)
        &&& spec_all_zero(self.hi_usr)
        &&& spec_all_zero(self.hi_fiq)
        &&& spec_all_zero(self.hi_svc)
        &&& spec_all_zero(self.hi_abt)
        &&& spec_all_zero(self.hi_irq)
        &&& spec_all_zero(self.hi_und)
        &&& self.cpsr.spec_is_reset()
        &&& self.spsr_fiq.spec_is_reset()
        &&& self.spsr_svc.spec_is_reset()
        &&& self.spsr_abt.spec_is_reset()
        &&& self.spsr_irq.spec_is_reset()
        &&& self.spsr_und.spec_is_reset()
    }

    /// The register file in its reset state.
    pub fn init() -> (registers: Self)
        ensures
            registers.spec_is_reset(),
    {
        Self::default()
    }
}

impl Default for Registers {
    fn default() -> (registers: Self)
        ensures
            registers.spec_is_reset(),
    {
        Registers {
            lo: [0i32; 8],
            hi_usr: [0i32; 8],
            hi_fiq: [0i32; 7],
            hi_svc: [0i32; 2],
            hi_abt: [0i32; 2],
            hi_irq: [0i32; 2],
            hi_und: [0i32; 2],
            cpsr: Status::new(),
            spsr_fiq: Status::new(),
            spsr_svc: Status::new(),
            spsr_abt: Status::new(),
            spsr_irq: Status::new(),
            spsr_und: Status::new(),
        }
    }
}

/// The reset state is a single value.
pub proof fn lemma_reset_is_unique(a: Registers, b: Registers)
    requires
        a.spec_is_reset(),
        b.spec_is_reset(),
    ensures
        a == b,
{
    assert(a.lo =~= b.lo);
    assert(a.hi_usr =~= b.hi_usr);
    assert(a.hi_fiq =~= b.hi_fiq);
    assert(a.hi_svc =~= b.hi_svc);
    assert(a.hi_abt =~= b.hi_abt);
    assert(a.hi_irq =~= b.hi_irq);
    assert(a.hi_und =~= b.hi_und);
}

/// A program status register, as a 32-bit word.
///
/// The mode is bits 4..0, the Thumb state bit 5, the fast-interrupt disable
/// bit 6, the interrupt disable bit 7, and the overflow, carry, zero and
/// negative flags bits 28 to 31. Bits 27..8 are reserved.
#[derive(Copy, Clone, Debug, PartialEq, Eq)]
pub struct Status(pub u32);

impl Status {
    /// The processor mode (bits 4..0).
    pub open spec fn spec_mode(self) -> nat {
        spec_field32(self.0, 0, 5)
    }

    /// Whether the processor is in Thumb state (bit 5).
    pub open spec fn spec_t(self) -> bool {
        spec_flag32(self.0, 5)
    }

    /// Whether fast interrupts are disabled (bit 6).
    pub open spec fn spec_f(self) -> bool {
        spec_flag32(self.0, 6)
    }

    /// Whether interrupts are disabled (bit 7).
    pub open spec fn spec_i(self) -> bool {
        spec_flag32(self.0, 7)
    }

    /// The overflow flag (bit 28).
    pub open spec fn spec_v(self) -> bool {
        spec_flag32(self.0, 28)
    }

    /// The carry flag (bit 29).
    pub open spec fn spec_c(self) -> bool {
        spec_flag32(self.0, 29)
    }

    /// The zero flag (bit 30).
    pub open spec fn spec_z(self) -> bool {
        spec_flag32(self.0, 30)
    }

    /// The negative flag (bit 31).
    pub open spec fn spec_n(self) -> bool {
        spec_flag32(self.0, 31)
    }

    /// Whether the register holds its reset value: supervisor mode in ARM
    /// state, both interrupts disabled, every flag and reserved bit clear.
    pub open spec fn spec_is_reset(self) -> bool {
        self.0 == 0xD3
    }

    /// The reset value, field by field.
    pub proof fn lemma_reset_fields(self)
        requires
            self.spec_is_reset(),
        ensures
            self.spec_mode() == 0b10011,
            !self.spec_t(),
            self.spec_f(),
            self.spec_i(),
            !self.spec_v(),
            !self.spec_c(),
            !self.spec_z(),
            !self.spec_n(),
            spec_field32(self.0, 8, 20) == 0,
    {
        lemma2_to64();
    }

    /// The register at its reset value.
    pub fn new() -> (status: Self)
        ensures
            status.spec_is_reset(),
    {
        Status(0b1101_0011)
    }

    /// The register whose bits are `bits`.
    pub fn from_bits(bits: u32) -> (status: Self)
        ensures
            status.0 == bits,
    {
        Status(bits)
    }

    /// The bits of the register.
    pub fn into_bits(self) -> (bits: u32)
        ensures
            bits == self.0,
    {
        self.0
    }

    /// The processor mode (bits 4..0).
    pub fn mode(&self) -> (mode: u8)
        ensures
            mode == self.spec_mode(),
            mode < 32,
    {
        let mode = get_field32(self.0, 0, 5);
        proof {
            lemma2_to64();
        }
        mode as u8
    }

    /// Whether the processor is in Thumb state (bit 5).
    pub fn t(&self) -> (set: bool)
        ensures
            set == self.spec_t(),
    {
        get_flag32(self.0, 5)
    }

    /// Whether fast interrupts are disabled (bit 6).
    pub fn f(&self) -> (set: bool)
        ensures
            set == self.spec_f(),
    {
        get_flag32(self.0, 6)
    }

    /// Whether interrupts are disabled (bit 7).
    pub fn i(&self) -> (set: bool)
        ensures
            set == self.spec_i(),
    {
        get_flag32(self.0, 7)
    }

    /// The overflow flag (bit 28).
    pub fn v(&self) -> (set: bool)
        ensures
            set == self.spec_v(),
    {
        get_flag32(self.0, 28)
    }

    /// The carry flag (bit 29).
    pub fn c(&self) -> (set: bool)
        ensures
            set == self.spec_c(),
    {
        get_flag32(self.0, 29)
    }

    /// The zero flag (bit 30).
    pub fn z(&self) -> (set: bool)
        ensures
            set == self.spec_z(),
    {
        get_flag32(self.0, 30)
    }

    /// The negative flag (bit 31).
    pub fn n(&self) -> (set: bool)
        ensures
            set == self.spec_n(),
    {
        get_flag32(self.0, 31)
    }
}

impl Default for Status {
    fn default() -> (status: Self)
        ensures
            status.spec_is_reset(),
    {
        Status::new()
    }
}

} // verus!
