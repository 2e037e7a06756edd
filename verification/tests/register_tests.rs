use webboy::cpu::register::{Flag, Registers};

#[test]
fn test_get_flag() {
    let mut registers = Registers::new();
    assert!(!registers.get_flag(Flag::Zero));

    registers.f = 0b1000_0000;
    assert!(registers.get_flag(Flag::Zero));
    assert!(!registers.get_flag(Flag::Subtraction));

    registers.f = 0b0100_0000;
    assert!(registers.get_flag(Flag::Subtraction));
    assert!(!registers.get_flag(Flag::HalfCarry));

    registers.f = 0b0010_0000;
    assert!(registers.get_flag(Flag::HalfCarry));
    assert!(!registers.get_flag(Flag::Carry));

    registers.f = 0b0001_0000;
    assert!(registers.get_flag(Flag::Carry));
    assert!(!registers.get_flag(Flag::Zero));
}

#[test]
fn test_get_r16() {
    let mut registers = Registers::new();
    registers.b = 0b0100_0000;
    registers.c = 0b0000_1111;

    registers.d = 0b0000_0000;
    registers.e = 0b1010_1100;

    registers.h = 0b1111_1111;
    registers.l = 0b0000_1111;

    registers.sp_0 = 0b1100_1100;
    registers.sp_1 = 0b0011_0011;

    assert_eq!(registers.get_r16(0), 0b0100_0000_0000_1111);
    assert_eq!(registers.get_r16(1), 0b0000_0000_1010_1100);
    assert_eq!(registers.get_r16(2), 0b1111_1111_0000_1111);
    assert_eq!(registers.get_r16(3), 0b1100_1100_0011_0011);
}

#[test]
fn test_set_r16() {
    let mut registers = Registers::new();
    assert_eq!(registers.d, 0);
    assert_eq!(registers.e, 0);
    assert_eq!(registers.get_r16(1), 0);

    registers.set_r16(1, 0b0101_1010_1111_0000);

    assert_eq!(registers.d, 0b0101_1010);
    assert_eq!(registers.e, 0b1111_0000);
    assert_eq!(registers.get_r16(1), 0b0101_1010_1111_0000);
}

#[test]
fn test_cc() {
    let mut registers = Registers::new();
    registers.f = 0b0000_0000;
    assert!(registers.cc(0), "NZ should be true as Zero is not set");
    assert!(!registers.cc(1), "Z should be false as Zero is not set");
    assert!(registers.cc(2), "NC should be true as Carry is not set");
    assert!(!registers.cc(3), "C should be false as Carry is not set");

    registers.f = 0b1000_0000;
    assert!(!registers.cc(0), "NZ should be false as Zero is set");
    assert!(registers.cc(1), "Z should be true as Zero is set");
    assert!(registers.cc(2), "NC should be true as Carry is not set");
    assert!(!registers.cc(3), "C should be false as Carry is not set");

    registers.f = 0b1001_0000;
    assert!(!registers.cc(0), "NZ should be false as Zero is set");
    assert!(registers.cc(1), "Z should be true as Zero is set");
    assert!(!registers.cc(2), "NC should be false as Carry is set");
    assert!(registers.cc(3), "C should be true as Carry is set");
}
