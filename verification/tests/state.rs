use gba_emu::arm_cpu::instruction::{Mask, Offset4};
use gba_emu::arm_cpu::{Arm7TDMI, Registers, Status};

#[test]
fn mask_starts_empty() {
    let mask = Mask::new();
    assert_eq!(mask.into_bits(), 0);
    assert!(!mask.control() && !mask.extension() && !mask.status() && !mask.flags());
    assert_eq!(Mask::default(), mask);
}

#[test]
fn mask_lanes_have_fixed_bits() {
    assert_eq!(Mask::new().with_control(true).into_bits(), 0b0001);
    assert_eq!(Mask::new().with_extension(true).into_bits(), 0b0010);
    assert_eq!(Mask::new().with_status(true).into_bits(), 0b0100);
    assert_eq!(Mask::new().with_flags(true).into_bits(), 0b1000);
    let mask = Mask::from_bits(0b1010);
    assert!(!mask.control());
    assert!(mask.extension());
    assert!(!mask.status());
    assert!(mask.flags());
}

#[test]
fn mask_lanes_are_independent() {
    let one = Mask::new().with_flags(true).with_control(true).with_status(false);
    let other = Mask::new().with_status(false).with_control(true).with_flags(true);
    assert_eq!(one, other);
    assert_eq!(one.into_bits(), 0b1001);
    assert_eq!(one.with_control(false).into_bits(), 0b1000);
}

#[test]
fn mask_setters_keep_reserved_bits() {
    let mut mask = Mask::from_bits(0xF0);
    mask.set_control(true);
    mask.set_flags(true);
    assert_eq!(mask.into_bits(), 0xF9);
    mask.set_control(false);
    mask.set_extension(true);
    mask.set_status(true);
    assert_eq!(mask.into_bits(), 0xFE);
    mask.set_status(false);
    mask.set_extension(false);
    mask.set_flags(false);
    assert_eq!(mask.into_bits(), 0xF0);
}

#[test]
fn offset4_flags_have_fixed_bits() {
    assert_eq!(Offset4::new().into_bits(), 0);
    assert_eq!(Offset4::default(), Offset4::new());
    assert_eq!(Offset4::new().with_decrement(true).into_bits(), 0b0001);
    assert_eq!(Offset4::new().with_after(true).into_bits(), 0b0010);
    assert_eq!(Offset4::new().with_write_back(true).into_bits(), 0b0100);
    assert_eq!(Offset4::new().with_cpsr_or_force_user(true).into_bits(), 0b1000);
    let flags = Offset4::from_bits(0b0101);
    assert!(flags.decrement());
    assert!(!flags.after());
    assert!(flags.write_back());
    assert!(!flags.cpsr_or_force_user());
}

#[test]
fn offset4_setters_change_one_flag() {
    let mut flags = Offset4::from_bits(0b1111_0000);
    flags.set_decrement(true);
    assert_eq!(flags.into_bits(), 0b1111_0001);
    flags.set_after(true);
    assert_eq!(flags.into_bits(), 0b1111_0011);
    flags.set_write_back(true);
    assert_eq!(flags.into_bits(), 0b1111_0111);
    flags.set_cpsr_or_force_user(true);
    assert_eq!(flags.into_bits(), 0b1111_1111);
    flags.set_after(false);
    assert_eq!(flags.into_bits(), 0b1111_1101);
    assert_eq!(flags.with_decrement(false).with_write_back(false).into_bits(), 0b1111_1000);
}

#[test]
fn status_reset_value() {
    let status = Status::new();
    assert_eq!(status.into_bits(), 0xD3);
    assert_eq!(status.mode(), 0b10011);
    assert!(!status.t());
    assert!(status.f());
    assert!(status.i());
    assert!(!status.v());
    assert!(!status.c());
    assert!(!status.z());
    assert!(!status.n());
    assert_eq!(Status::default(), status);
}

#[test]
fn status_fields_have_fixed_bits() {
    let status = Status::from_bits(0xA000_003F);
    assert_eq!(status.mode(), 0x1F);
    assert!(status.t());
    assert!(!status.f());
    assert!(!status.i());
    assert!(!status.v());
    assert!(status.c());
    assert!(!status.z());
    assert!(status.n());
    assert!(Status::from_bits(0x1000_0000).v());
    assert!(Status::from_bits(0x4000_0000).z());
    assert!(Status::from_bits(0x0000_0040).f());
    assert!(Status::from_bits(0x0000_0080).i());
    assert_eq!(Status::from_bits(0x0FFF_FF00).mode(), 0);
}

#[test]
fn processor_starts_in_reset_state() {
    let cpu = Arm7TDMI::init();
    let registers = cpu.registers;
    assert_eq!(registers.lo, [0; 8]);
    assert_eq!(registers.hi_usr, [0; 8]);
    assert_eq!(registers.hi_fiq, [0; 7]);
    assert_eq!(registers.hi_svc, [0; 2]);
    assert_eq!(registers.hi_abt, [0; 2]);
    assert_eq!(registers.hi_irq, [0; 2]);
    assert_eq!(registers.hi_und, [0; 2]);
    for status in [
        registers.cpsr,
        registers.spsr_fiq,
        registers.spsr_svc,
        registers.spsr_abt,
        registers.spsr_irq,
        registers.spsr_und,
    ] {
        assert_eq!(status, Status::new());
    }
    assert_eq!(cpu, Arm7TDMI::init());
    assert_eq!(registers, Registers::init());
    assert_eq!(registers, Registers::default());
}
