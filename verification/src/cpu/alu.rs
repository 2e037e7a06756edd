use vstd::prelude::*;

use crate::cpu::carry::{
    is_half_carry, is_half_borrow, spec_is_half_borrow,
    spec_is_half_carry,
};
use crate::cpu::register::{
    be16, flags_of, high_byte, low_byte, spec_get_flag, spec_get_r8, spec_get_r16, spec_set_r8,
    spec_set_r16, Flag, Registers,
};
use crate::cpu::{mem_step, regs_step, CPU};

verus! {

/// The value the carry flag contributes to an add/subtract with carry.
pub open spec fn carry_bit(f: u8, with_carry: bool) -> u8 {
    if with_carry && spec_get_flag(f, Flag::Carry) {
        1u8
    } else {
        0u8
    }
}

/// A + B + carry, with 8-bit wrap.
pub open spec fn adc_result(a: u8, b: u8, cy: u8) -> u8 {
    a.wrapping_add(b).wrapping_add(cy)
}

/// The flag byte after ADD/ADC: Z from the result, N clear, H from the low
/// nibbles of either addition, C from 8-bit overflow of either addition.
pub open spec fn adc_flags(a: u8, b: u8, cy: u8) -> u8 {
    flags_of(
        adc_result(a, b, cy) == 0,
        false,
        spec_is_half_carry(a, b) || spec_is_half_carry(a.wrapping_add(b), cy),
        a + b > 255 || a.wrapping_add(b) + cy > 255,
    )
}

/// A - B - carry, with 8-bit wrap.
pub open spec fn sbc_result(a: u8, b: u8, cy: u8) -> u8 {
    a.wrapping_sub(b).wrapping_sub(cy)
}

/// The flag byte after SUB/SBC/CP: Z from the result, N set, H from the low
/// nibbles of either subtraction, C from 8-bit underflow of either.
pub open spec fn sbc_flags(a: u8, b: u8, cy: u8) -> u8 {
    flags_of(
        sbc_result(a, b, cy) == 0,
        true,
        spec_is_half_borrow(a, b) || spec_is_half_borrow(a.wrapping_sub(b), cy),
        a < b || a.wrapping_sub(b) < cy,
    )
}

/// A 16-bit base plus a byte reinterpreted as a signed offset, with wrap.
pub open spec fn spec_add_signed8(base: u16, b: u8) -> u16 {
    if b >= 128 {
        base.wrapping_sub((256 - b) as u16)
    } else {
        base.wrapping_add(b as u16)
    }
}

/// A after the BCD adjustment: on the subtraction path 0x06 and 0x60 are
/// taken back for half-carry and carry; on the addition path they are added
/// when a nibble passed 9 or the flags say a carry happened.
pub open spec fn daa_result(a: u8, n: bool, h: bool, c: bool) -> u8 {
    if n {
        a.wrapping_sub(((if h { 0x06int } else { 0int }) + (if c { 0x60int } else { 0int })) as u8)
    } else {
        a.wrapping_add(
            ((if h || a & 0x0F > 0x9 { 0x06int } else { 0int }) + (
            if c || a > 0x99 { 0x60int } else { 0int })) as u8,
        )
    }
}

/// The carry flag after the BCD adjustment: kept on the subtraction path,
/// raised on the addition path when 0x60 was added.
pub open spec fn daa_carry(a: u8, n: bool, c: bool) -> bool {
    if n {
        c
    } else {
        c || a > 0x99
    }
}

/// Masking a 16-bit value to its low twelve bits leaves at most 0x0FFF, and
/// to its low byte at most 0xFF.
pub proof fn lemma_u16_mask_bounds()
    by (bit_vector)
    ensures
        forall|x: u16| #[trigger] (x & 0x0FFF) < 0x1000,
        forall|x: u16| #[trigger] (x & 0xFF) < 0x100,
{
}

impl CPU {
    /// Shared executor of ADD A and ADC A.
    fn alu_add_a(&mut self, value: u8, include_carry: bool)
        ensures
            regs_step(
                *old(self),
                *final(self),
                Registers {
                    a: adc_result(
                        old(self).registers.a,
                        value,
                        carry_bit(old(self).registers.f, include_carry),
                    ),
                    f: adc_flags(
                        old(self).registers.a,
                        value,
                        carry_bit(old(self).registers.f, include_carry),
                    ),
                    ..old(self).registers
                },
            ),
    {
        let prev = self.registers.a;
        let cy: u8 = if include_carry && self.registers.get_flag(Flag::Carry) {
            1
        } else {
            0
        };
        let r1 = prev.wrapping_add(value);
        let res = r1.wrapping_add(cy);
        let overflowed = (prev as u16) + (value as u16) > 255 || (r1 as u16) + (cy as u16) > 255;
        let half_carried = is_half_carry(prev, value) || is_half_carry(r1, cy);
        self.registers.a = res;

        self.registers.set_flags(res == 0, false, half_carried, overflowed);
    }

    /// Shared executor of SUB A and SBC A.
    fn alu_sub_a(&mut self, value: u8, include_borrow: bool)
        ensures
            regs_step(
                *old(self),
                *final(self),
                Registers {
                    a: sbc_result(
                        old(self).registers.a,
                        value,
                        carry_bit(old(self).registers.f, include_borrow),
                    ),
                    f: sbc_flags(
                        old(self).registers.a,
                        value,
                        carry_bit(old(self).registers.f, include_borrow),
                    ),
                    ..old(self).registers
                },
            ),
    {
        let prev = self.registers.a;
        let cy: u8 = if include_borrow && self.registers.get_flag(Flag::Carry) {
            1
        } else {
            0
        };
        let r1 = prev.wrapping_sub(value);
        let res = r1.wrapping_sub(cy);
        let overflowed = prev < value || r1 < cy;
        let half_borrowed = is_half_borrow(prev, value) || is_half_borrow(r1, cy);
        self.registers.a = res;

        self.registers.set_flags(res == 0, true, half_borrowed, overflowed);
    }

    pub fn add_a_r8(&mut self, instruction: u8) -> (c: u8)
        requires
            instruction & 0x07 != 6,
        ensures
            c == 1,
            regs_step(
                *old(self),
                *final(self),
                Registers {
                    a: adc_result(
                        old(self).registers.a,
                        spec_get_r8(old(self).registers, instruction),
                        0,
                    ),
                    f: adc_flags(
                        old(self).registers.a,
                        spec_get_r8(old(self).registers, instruction),
                        0,
                    ),
                    ..old(self).registers
                },
            ),
    {
        let src = self.registers.get_r8(instruction);
        self.alu_add_a(src, false);
        1
    }

    pub fn add_a_hl(&mut self) -> (c: u8)
        requires
            old(self).ram.wf(),
        ensures
            c == 2,
            regs_step(
                *old(self),
                *final(self),
                Registers {
                    a: adc_result(
                        old(self).registers.a,
                        old(self).ram@[be16(old(self).registers.h, old(self).registers.l) as int],
                        0,
                    ),
                    f: adc_flags(
                        old(self).registers.a,
                        old(self).ram@[be16(old(self).registers.h, old(self).registers.l) as int],
                        0,
                    ),
                    ..old(self).registers
                },
            ),
    {
        let src = self.ram.read(self.registers.get_hl());
        self.alu_add_a(src, false);
        2
    }

    pub fn add_a_n8(&mut self) -> (c: u8)
        requires
            old(self).ram.wf(),
        ensures
            c == 2,
            regs_step(
                *old(self),
                *final(self),
                Registers {
                    a: adc_result(
                        old(self).registers.a,
                        old(self).ram@[old(self).registers.pc as int],
                        0,
                    ),
                    f: adc_flags(
                        old(self).registers.a,
                        old(self).ram@[old(self).registers.pc as int],
                        0,
                    ),
                    pc: old(self).registers.pc.wrapping_add(1),
                    ..old(self).registers
                },
            ),
    {
        let src = self.read_byte();
        self.alu_add_a(src, false);
        2
    }

    pub fn addc_a_r8(&mut self, instruction: u8) -> (c: u8)
        requires
            instruction & 0x07 != 6,
        ensures
            c == 1,
            regs_step(
                *old(self),
                *final(self),
                Registers {
                    a: adc_result(
                        old(self).registers.a,
                        spec_get_r8(old(self).registers, instruction),
                        carry_bit(old(self).registers.f, true),
                    ),
                    f: adc_flags(
                        old(self).registers.a,
                        spec_get_r8(old(self).registers, instruction),
                        carry_bit(old(self).registers.f, true),
                    ),
                    ..old(self).registers
                },
            ),
    {
        let src = self.registers.get_r8(instruction);
        self.alu_add_a(src, true);
        1
    }

    pub fn addc_a_hl(&mut self) -> (c: u8)
        requires
            old(self).ram.wf(),
        ensures
            c == 2,
            regs_step(
                *old(self),
                *final(self),
                Registers {
                    a: adc_result(
                        old(self).registers.a,
                        old(self).ram@[be16(old(self).registers.h, old(self).registers.l) as int],
                        carry_bit(old(self).registers.f, true),
                    ),
                    f: adc_flags(
                        old(self).registers.a,
                        old(self).ram@[be16(old(self).registers.h, old(self).registers.l) as int],
                        carry_bit(old(self).registers.f, true),
                    ),
                    ..old(self).registers
                },
            ),
    {
        let src = self.ram.read(self.registers.get_hl());
        self.alu_add_a(src, true);
        2
    }

    pub fn addc_a_n8(&mut self) -> (c: u8)
        requires
            old(self).ram.wf(),
        ensures
            c == 2,
            regs_step(
                *old(self),
                *final(self),
                Registers {
                    a: adc_result(
                        old(self).registers.a,
                        old(self).ram@[old(self).registers.pc as int],
                        carry_bit(old(self).registers.f, true),
                    ),
                    f: adc_flags(
                        old(self).registers.a,
                        old(self).ram@[old(self).registers.pc as int],
                        carry_bit(old(self).registers.f, true),
                    ),
                    pc: old(self).registers.pc.wrapping_add(1),
                    ..old(self).registers
                },
            ),
    {
        let src = self.read_byte();
        self.alu_add_a(src, true);
        2
    }

    pub fn sub_a_r8(&mut self, instruction: u8) -> (c: u8)
        requires
            instruction & 0x07 != 6,
        ensures
            c == 1,
            regs_step(
                *old(self),
                *final(self),
                Registers {
                    a: sbc_result(
                        old(self).registers.a,
                        spec_get_r8(old(self).registers, instruction),
                        0,
                    ),
                    f: sbc_flags(
                        old(self).registers.a,
                        spec_get_r8(old(self).registers, instruction),
                        0,
                    ),
                    ..old(self).registers
                },
            ),
    {
        let src = self.registers.get_r8(instruction);
        self.alu_sub_a(src, false);
        1
    }

    pub fn sub_a_hl(&mut self) -> (c: u8)
        requires
            old(self).ram.wf(),
        ensures
            c == 2,
            regs_step(
                *old(self),
                *final(self),
                Registers {
                    a: sbc_result(
                        old(self).registers.a,
                        old(self).ram@[be16(old(self).registers.h, old(self).registers.l) as int],
                        0,
                    ),
                    f: sbc_flags(
                        old(self).registers.a,
                        old(self).ram@[be16(old(self).registers.h, old(self).registers.l) as int],
                        0,
                    ),
                    ..old(self).registers
                },
            ),
    {
        let src = self.ram.read(self.registers.get_hl());
        self.alu_sub_a(src, false);
        2
    }

    pub fn sub_a_n8(&mut self) -> (c: u8)
        requires
            old(self).ram.wf(),
        ensures
            c == 2,
            regs_step(
                *old(self),
                *final(self),
                Registers {
                    a: sbc_result(
                        old(self).registers.a,
                        old(self).ram@[old(self).registers.pc as int],
                        0,
                    ),
                    f: sbc_flags(
                        old(self).registers.a,
                        old(self).ram@[old(self).registers.pc as int],
                        0,
                    ),
                    pc: old(self).registers.pc.wrapping_add(1),
                    ..old(self).registers
                },
            ),
    {
        let src = self.read_byte();
        self.alu_sub_a(src, false);
        2
    }

    pub fn subc_a_r8(&mut self, instruction: u8) -> (c: u8)
        requires
            instruction & 0x07 != 6,
        ensures
            c == 1,
            regs_step(
                *old(self),
                *final(self),
                Registers {
                    a: sbc_result(
                        old(self).registers.a,
                        spec_get_r8(old(self).registers, instruction),
                        carry_bit(old(self).registers.f, true),
                    ),
                    f: sbc_flags(
                        old(self).registers.a,
                        spec_get_r8(old(self).registers, instruction),
                        carry_bit(old(self).registers.f, true),
                    ),
                    ..old(self).registers
                },
            ),
    {
        let src = self.registers.get_r8(instruction);
        self.alu_sub_a(src, true);
        1
    }

    pub fn subc_a_hl(&mut self) -> (c: u8)
        requires
            old(self).ram.wf(),
        ensures
            c == 2,
            regs_step(
                *old(self),
                *final(self),
                Registers {
                    a: sbc_result(
                        old(self).registers.a,
                        old(self).ram@[be16(old(self).registers.h, old(self).registers.l) as int],
                        carry_bit(old(self).registers.f, true),
                    ),
                    f: sbc_flags(
                        old(self).registers.a,
                        old(self).ram@[be16(old(self).registers.h, old(self).registers.l) as int],
                        carry_bit(old(self).registers.f, true),
                    ),
                    ..old(self).registers
                },
            ),
    {
        let src = self.ram.read(self.registers.get_hl());
        self.alu_sub_a(src, true);
        2
    }

    pub fn subc_a_n8(&mut self) -> (c: u8)
        requires
            old(self).ram.wf(),
        ensures
            c == 2,
            regs_step(
                *old(self),
                *final(self),
                Registers {
                    a: sbc_result(
                        old(self).registers.a,
                        old(self).ram@[old(self).registers.pc as int],
                        carry_bit(old(self).registers.f, true),
                    ),
                    f: sbc_flags(
                        old(self).registers.a,
                        old(self).ram@[old(self).registers.pc as int],
                        carry_bit(old(self).registers.f, true),
                    ),
                    pc: old(self).registers.pc.wrapping_add(1),
                    ..old(self).registers
                },
            ),
    {
        let src = self.read_byte();
        self.alu_sub_a(src, true);
        2
    }

    fn alu_and_a(&mut self, value: u8)
        ensures
            regs_step(
                *old(self),
                *final(self),
                Registers {
                    a: old(self).registers.a & value,
                    f: flags_of(old(self).registers.a & value == 0, false, true, false),
                    ..old(self).registers
                },
            ),
    {
        self.registers.a &= value;
        let res = self.registers.a;

        self.registers.set_flags(res == 0, false, true, false);
    }

    pub fn and_a_r8(&mut self, instruction: u8) -> (c: u8)
        requires
            instruction & 0x07 != 6,
        ensures
            c == 1,
            regs_step(
                *old(self),
                *final(self),
                Registers {
                    a: old(self).registers.a & spec_get_r8(old(self).registers, instruction),
                    f: flags_of(
                        old(self).registers.a & spec_get_r8(old(self).registers, instruction)
                            == 0,
                        false,
                        true,
                        false,
                    ),
                    ..old(self).registers
                },
            ),
    {
        let src = self.registers.get_r8(instruction);
        self.alu_and_a(src);
        1
    }

    pub fn and_a_hl(&mut self) -> (c: u8)
        requires
            old(self).ram.wf(),
        ensures
            c == 2,
            regs_step(
                *old(self),
                *final(self),
                Registers {
                    a: old(self).registers.a & old(self).ram@[be16(
                        old(self).registers.h,
                        old(self).registers.l,
                    ) as int],
                    f: flags_of(
                        old(self).registers.a & old(self).ram@[be16(
                            old(self).registers.h,
                            old(self).registers.l,
                        ) as int] == 0,
                        false,
                        true,
                        false,
                    ),
                    ..old(self).registers
                },
            ),
    {
        let src = self.ram.read(self.registers.get_hl());
        self.alu_and_a(src);
        2
    }

    pub fn and_a_n8(&mut self) -> (c: u8)
        requires
            old(self).ram.wf(),
        ensures
            c == 2,
            regs_step(
                *old(self),
                *final(self),
                Registers {
                    a: old(self).registers.a & old(self).ram@[old(self).registers.pc as int],
                    f: flags_of(
                        old(self).registers.a & old(self).ram@[old(self).registers.pc as int]
                            == 0,
                        false,
                        true,
                        false,
                    ),
                    pc: old(self).registers.pc.wrapping_add(1),
                    ..old(self).registers
                },
            ),
    {
        let src = self.read_byte();
        self.alu_and_a(src);
        2
    }

    fn alu_xor_a(&mut self, value: u8)
        ensures
            regs_step(
                *old(self),
                *final(self),
                Registers {
                    a: old(self).registers.a ^ value,
                    f: flags_of(old(self).registers.a ^ value == 0, false, false, false),
                    ..old(self).registers
                },
            ),
    {
        self.registers.a = self.registers.a ^ value;
        let res = self.registers.a;

        self.registers.set_flags(res == 0, false, false, false);
    }

    pub fn xor_a_r8(&mut self, instruction: u8) -> (c: u8)
        requires
            instruction & 0x07 != 6,
        ensures
            c == 1,
            regs_step(
                *old(self),
                *final(self),
                Registers {
                    a: old(self).registers.a ^ spec_get_r8(old(self).registers, instruction),
                    f: flags_of(
                        old(self).registers.a ^ spec_get_r8(old(self).registers, instruction)
                            == 0,
                        false,
                        false,
                        false,
                    ),
                    ..old(self).registers
                },
            ),
    {
        let src = self.registers.get_r8(instruction);
        self.alu_xor_a(src);
        1
    }

    pub fn xor_a_hl(&mut self) -> (c: u8)
        requires
            old(self).ram.wf(),
        ensures
            c == 2,
            regs_step(
                *old(self),
                *final(self),
                Registers {
                    a: old(self).registers.a ^ old(self).ram@[be16(
                        old(self).registers.h,
                        old(self).registers.l,
                    ) as int],
                    f: flags_of(
                        old(self).registers.a ^ old(self).ram@[be16(
                            old(self).registers.h,
                            old(self).registers.l,
                        ) as int] == 0,
                        false,
                        false,
                        false,
                    ),
                    ..old(self).registers
                },
            ),
    {
        let src = self.ram.read(self.registers.get_hl());
        self.alu_xor_a(src);
        2
    }

    pub fn xor_a_n8(&mut self) -> (c: u8)
        requires
            old(self).ram.wf(),
        ensures
            c == 2,
            regs_step(
                *old(self),
                *final(self),
                Registers {
                    a: old(self).registers.a ^ old(self).ram@[old(self).registers.pc as int],
                    f: flags_of(
                        old(self).registers.a ^ old(self).ram@[old(self).registers.pc as int]
                            == 0,
                        false,
                        false,
                        false,
                    ),
                    pc: old(self).registers.pc.wrapping_add(1),
                    ..old(self).registers
                },
            ),
    {
        let src = self.read_byte();
        self.alu_xor_a(src);
        2
    }

    fn alu_or_a(&mut self, value: u8)
        ensures
            regs_step(
                *old(self),
                *final(self),
                Registers {
                    a: old(self).registers.a | value,
                    f: flags_of(old(self).registers.a | value == 0, false, false, false),
                    ..old(self).registers
                },
            ),
    {
        self.registers.a = self.registers.a | value;
        let res = self.registers.a;

        self.registers.set_flags(res == 0, false, false, false);
    }

    pub fn or_a_r8(&mut self, instruction: u8) -> (c: u8)
        requires
            instruction & 0x07 != 6,
        ensures
            c == 1,
            regs_step(
                *old(self),
                *final(self),
                Registers {
                    a: old(self).registers.a | spec_get_r8(old(self).registers, instruction),
                    f: flags_of(
                        old(self).registers.a | spec_get_r8(old(self).registers, instruction)
                            == 0,
                        false,
                        false,
                        false,
                    ),
                    ..old(self).registers
                },
            ),
    {
        let src = self.registers.get_r8(instruction);
        self.alu_or_a(src);
        1
    }

    pub fn or_a_hl(&mut self) -> (c: u8)
        requires
            old(self).ram.wf(),
        ensures
            c == 2,
            regs_step(
                *old(self),
                *final(self),
                Registers {
                    a: old(self).registers.a | old(self).ram@[be16(
                        old(self).registers.h,
                        old(self).registers.l,
                    ) as int],
                    f: flags_of(
                        old(self).registers.a | old(self).ram@[be16(
                            old(self).registers.h,
                            old(self).registers.l,
                        ) as int] == 0,
                        false,
                        false,
                        false,
                    ),
                    ..old(self).registers
                },
            ),
    {
        let src = self.ram.read(self.registers.get_hl());
        self.alu_or_a(src);
        2
    }

    pub fn or_a_n8(&mut self) -> (c: u8)
        requires
            old(self).ram.wf(),
        ensures
            c == 2,
            regs_step(
                *old(self),
                *final(self),
                Registers {
                    a: old(self).registers.a | old(self).ram@[old(self).registers.pc as int],
                    f: flags_of(
                        old(self).registers.a | old(self).ram@[old(self).registers.pc as int]
                            == 0,
                        false,
                        false,
                        false,
                    ),
                    pc: old(self).registers.pc.wrapping_add(1),
                    ..old(self).registers
                },
            ),
    {
        let src = self.read_byte();
        self.alu_or_a(src);
        2
    }

    fn alu_cp_a(&mut self, value: u8)
        ensures
            regs_step(
                *old(self),
                *final(self),
                Registers {
                    f: flags_of(
                        old(self).registers.a.wrapping_sub(value) == 0,
                        true,
                        spec_is_half_borrow(old(self).registers.a, value),
                        value > old(self).registers.a,
                    ),
                    ..old(self).registers
                },
            ),
    {
        let res = self.registers.a.wrapping_sub(value);
        let half = is_half_borrow(self.registers.a, value);
        let carry = value > self.registers.a;

        self.registers.set_flags(res == 0, true, half, carry);
    }

    pub fn cp_a_r8(&mut self, instruction: u8) -> (c: u8)
        requires
            instruction & 0x07 != 6,
        ensures
            c == 1,
            regs_step(
                *old(self),
                *final(self),
                Registers {
                    f: flags_of(
                        old(self).registers.a.wrapping_sub(
                            spec_get_r8(old(self).registers, instruction),
                        ) == 0,
                        true,
                        spec_is_half_borrow(
                            old(self).registers.a,
                            spec_get_r8(old(self).registers, instruction),
                        ),
                        spec_get_r8(old(self).registers, instruction) > old(self).registers.a,
                    ),
                    ..old(self).registers
                },
            ),
    {
        let value = self.registers.get_r8(instruction);
        self.alu_cp_a(value);
        1
    }

    pub fn cp_a_hl(&mut self) -> (c: u8)
        requires
            old(self).ram.wf(),
        ensures
            c == 2,
            regs_step(
                *old(self),
                *final(self),
                Registers {
                    f: flags_of(
                        old(self).registers.a.wrapping_sub(
                            old(self).ram@[be16(
                                old(self).registers.h,
                                old(self).registers.l,
                            ) as int],
                        ) == 0,
                        true,
                        spec_is_half_borrow(
                            old(self).registers.a,
                            old(self).ram@[be16(
                                old(self).registers.h,
                                old(self).registers.l,
                            ) as int],
                        ),
                        old(self).ram@[be16(old(self).registers.h, old(self).registers.l) as int]
                            > old(self).registers.a,
                    ),
                    ..old(self).registers
                },
            ),
    {
        let value = self.ram.read(self.registers.get_hl());
        self.alu_cp_a(value);
        2
    }

    pub fn cp_a_n8(&mut self) -> (c: u8)
        requires
            old(self).ram.wf(),
        ensures
            c == 2,
            regs_step(
                *old(self),
                *final(self),
                Registers {
                    f: flags_of(
                        old(self).registers.a.wrapping_sub(
                            old(self).ram@[old(self).registers.pc as int],
                        ) == 0,
                        true,
                        spec_is_half_borrow(
                            old(self).registers.a,
                            old(self).ram@[old(self).registers.pc as int],
                        ),
                        old(self).ram@[old(self).registers.pc as int] > old(self).registers.a,
                    ),
                    pc: old(self).registers.pc.wrapping_add(1),
                    ..old(self).registers
                },
            ),
    {
        let value = self.read_byte();
        self.alu_cp_a(value);
        2
    }

    /// INC on an 8-bit register: Z, N and H move, C stays.
    pub fn inc_r8(&mut self, instruction: u8) -> (c: u8)
        requires
            (instruction >> 3) & 0x07 != 6,
        ensures
            c == 1,
            regs_step(
                *old(self),
                *final(self),
                Registers {
                    f: flags_of(
                        spec_get_r8(old(self).registers, instruction >> 3).wrapping_add(1) == 0,
                        false,
                        spec_is_half_carry(spec_get_r8(old(self).registers, instruction >> 3), 1),
                        spec_get_flag(old(self).registers.f, Flag::Carry),
                    ),
                    ..spec_set_r8(
                        old(self).registers,
                        instruction >> 3,
                        spec_get_r8(old(self).registers, instruction >> 3).wrapping_add(1),
                    )
                },
            ),
    {
        let prev = self.registers.get_r8(instruction >> 3);
        let res = prev.wrapping_add(1);
        self.registers.set_r8(instruction >> 3, res);

        let cy = self.registers.get_flag(Flag::Carry);
        let half = is_half_carry(prev, 1);
        self.registers.set_flags(res == 0, false, half, cy);
        1
    }

    /// INC on the byte `(HL)` points at, through a bus write.
    pub fn inc_hl(&mut self) -> (c: u8)
        requires
            old(self).ram.wf(),
        ensures
            c == 3,
            mem_step(
                *old(self),
                *final(self),
                Registers {
                    f: flags_of(
                        old(self).ram@[be16(
                            old(self).registers.h,
                            old(self).registers.l,
                        ) as int].wrapping_add(1) == 0,
                        false,
                        spec_is_half_carry(
                            old(self).ram@[be16(
                                old(self).registers.h,
                                old(self).registers.l,
                            ) as int],
                            1,
                        ),
                        spec_get_flag(old(self).registers.f, Flag::Carry),
                    ),
                    ..old(self).registers
                },
                be16(old(self).registers.h, old(self).registers.l),
                old(self).ram@[be16(
                    old(self).registers.h,
                    old(self).registers.l,
                ) as int].wrapping_add(1),
            ),
    {
        let location = self.registers.get_hl();
        let prev = self.ram.read(location);
        let res = prev.wrapping_add(1);
        self.ram.write(location, res);

        let cy = self.registers.get_flag(Flag::Carry);
        let half = is_half_carry(prev, 1);
        self.registers.set_flags(res == 0, false, half, cy);
        3
    }

    /// DEC on an 8-bit register: Z, N and H move, C stays.
    pub fn dec_r8(&mut self, instruction: u8) -> (c: u8)
        requires
            (instruction >> 3) & 0x07 != 6,
        ensures
            c == 1,
            regs_step(
                *old(self),
                *final(self),
                Registers {
                    f: flags_of(
                        spec_get_r8(old(self).registers, instruction >> 3).wrapping_sub(1) == 0,
                        true,
                        spec_is_half_borrow(spec_get_r8(old(self).registers, instruction >> 3), 1),
                        spec_get_flag(old(self).registers.f, Flag::Carry),
                    ),
                    ..spec_set_r8(
                        old(self).registers,
                        instruction >> 3,
                        spec_get_r8(old(self).registers, instruction >> 3).wrapping_sub(1),
                    )
                },
            ),
    {
        let prev = self.registers.get_r8(instruction >> 3);
        let res = prev.wrapping_sub(1);
        self.registers.set_r8(instruction >> 3, res);

        let cy = self.registers.get_flag(Flag::Carry);
        let half = is_half_borrow(prev, 1);
        self.registers.set_flags(res == 0, true, half, cy);
        1
    }

    /// DEC on the byte `(HL)` points at, through a bus write.
    pub fn dec_hl(&mut self) -> (c: u8)
        requires
            old(self).ram.wf(),
        ensures
            c == 3,
            mem_step(
                *old(self),
                *final(self),
                Registers {
                    f: flags_of(
                        old(self).ram@[be16(
                            old(self).registers.h,
                            old(self).registers.l,
                        ) as int].wrapping_sub(1) == 0,
                        true,
                        spec_is_half_borrow(
                            old(self).ram@[be16(
                                old(self).registers.h,
                                old(self).registers.l,
                            ) as int],
                            1,
                        ),
                        spec_get_flag(old(self).registers.f, Flag::Carry),
                    ),
                    ..old(self).registers
                },
                be16(old(self).registers.h, old(self).registers.l),
                old(self).ram@[be16(
                    old(self).registers.h,
                    old(self).registers.l,
                ) as int].wrapping_sub(1),
            ),
    {
        let location = self.registers.get_hl();
        let prev = self.ram.read(location);
        let res = prev.wrapping_sub(1);
        self.ram.write(location, res);

        let cy = self.registers.get_flag(Flag::Carry);
        let half = is_half_borrow(prev, 1);
        self.registers.set_flags(res == 0, true, half, cy);
        3
    }

    /// INC on a 16-bit pair: no flags move.
    pub fn inc_r16(&mut self, instruction: u8) -> (c: u8)
        ensures
            c == 2,
            regs_step(
                *old(self),
                *final(self),
                spec_set_r16(
                    old(self).registers,
                    crate::cpu::instruction::spec_interleaved_r16(instruction, true),
                    spec_get_r16(
                        old(self).registers,
                        crate::cpu::instruction::spec_interleaved_r16(instruction, true),
                    ).wrapping_add(1),
                ),
            ),
    {
        let index = crate::cpu::instruction::op_interleaved_r16(instruction, true);
        let r16 = self.registers.get_r16(index);
        self.registers.set_r16(index, r16.wrapping_add(1));
        2
    }

    /// DEC on a 16-bit pair: no flags move.
    pub fn dec_r16(&mut self, instruction: u8) -> (c: u8)
        ensures
            c == 2,
            regs_step(
                *old(self),
                *final(self),
                spec_set_r16(
                    old(self).registers,
                    crate::cpu::instruction::spec_interleaved_r16(instruction, false),
                    spec_get_r16(
                        old(self).registers,
                        crate::cpu::instruction::spec_interleaved_r16(instruction, false),
                    ).wrapping_sub(1),
                ),
            ),
    {
        let index = crate::cpu::instruction::op_interleaved_r16(instruction, false);
        let r16 = self.registers.get_r16(index);
        self.registers.set_r16(index, r16.wrapping_sub(1));
        2
    }

    /// ADD HL, r16: Z stays; H watches bit 11, C watches bit 15.
    pub fn add_hl_r16(&mut self, instruction: u8) -> (c: u8)
        ensures
            c == 2,
            regs_step(
                *old(self),
                *final(self),
                Registers {
                    f: flags_of(
                        spec_get_flag(old(self).registers.f, Flag::Zero),
                        false,
                        (be16(old(self).registers.h, old(self).registers.l) & 0x0FFF)
                            + (spec_get_r16(
                            old(self).registers,
                            crate::cpu::instruction::spec_interleaved_r16(instruction, false),
                        ) & 0x0FFF) > 0x0FFF,
                        be16(old(self).registers.h, old(self).registers.l) + spec_get_r16(
                            old(self).registers,
                            crate::cpu::instruction::spec_interleaved_r16(instruction, false),
                        ) > 0xFFFF,
                    ),
                    h: high_byte(
                        be16(old(self).registers.h, old(self).registers.l).wrapping_add(
                            spec_get_r16(
                                old(self).registers,
                                crate::cpu::instruction::spec_interleaved_r16(instruction, false),
                            ),
                        ),
                    ),
                    l: low_byte(
                        be16(old(self).registers.h, old(self).registers.l).wrapping_add(
                            spec_get_r16(
                                old(self).registers,
                                crate::cpu::instruction::spec_interleaved_r16(instruction, false),
                            ),
                        ),
                    ),
                    ..old(self).registers
                },
            ),
    {
        proof {
            lemma_u16_mask_bounds();
        }
        let index = crate::cpu::instruction::op_interleaved_r16(instruction, false);
        let r16 = self.registers.get_r16(index);
        let prev = self.registers.get_hl();
        let overflow_11 = (prev & 0x0FFF) + (r16 & 0x0FFF) > 0x0FFF;
        let overflow_15 = (prev as u32) + (r16 as u32) > 0xFFFF;
        let res = prev.wrapping_add(r16);
        self.registers.set_hl(res);

        let z = self.registers.get_flag(Flag::Zero);
        self.registers.set_flags(z, false, overflow_11, overflow_15);
        2
    }

    /// ADD SP, e8: the offset is signed, the flags come from the unsigned
    /// low-byte addition.
    pub fn add_sp_e8(&mut self) -> (c: u8)
        requires
            old(self).ram.wf(),
        ensures
            c == 4,
            regs_step(
                *old(self),
                *final(self),
                Registers {
                    f: flags_of(
                        false,
                        false,
                        spec_is_half_carry(
                            low_byte(be16(old(self).registers.sp_0, old(self).registers.sp_1)),
                            old(self).ram@[old(self).registers.pc as int],
                        ),
                        low_byte(be16(old(self).registers.sp_0, old(self).registers.sp_1))
                            + old(self).ram@[old(self).registers.pc as int] > 255,
                    ),
                    sp_0: high_byte(
                        spec_add_signed8(
                            be16(old(self).registers.sp_0, old(self).registers.sp_1),
                            old(self).ram@[old(self).registers.pc as int],
                        ),
                    ),
                    sp_1: low_byte(
                        spec_add_signed8(
                            be16(old(self).registers.sp_0, old(self).registers.sp_1),
                            old(self).ram@[old(self).registers.pc as int],
                        ),
                    ),
                    pc: old(self).registers.pc.wrapping_add(1),
                    ..old(self).registers
                },
            ),
    {
        let e8 = self.read_byte();
        let sp = self.registers.get_sp();
        let sp_low = (sp & 0xFF) as u8;

        let overflowed = (sp_low as u16) + (e8 as u16) > 255;
        let half_carried = is_half_carry(sp_low, e8);
        let res = add_signed8(sp, e8);
        self.registers.set_sp(res);

        self.registers.set_flags(false, false, half_carried, overflowed);
        4
    }

    /// LD HL, SP+e8: like ADD SP, e8 but the sum lands in HL.
    pub fn ld_hl_sp_plus_e8(&mut self) -> (c: u8)
        requires
            old(self).ram.wf(),
        ensures
            c == 3,
            regs_step(
                *old(self),
                *final(self),
                Registers {
                    f: flags_of(
                        false,
                        false,
                        spec_is_half_carry(
                            low_byte(be16(old(self).registers.sp_0, old(self).registers.sp_1)),
                            old(self).ram@[old(self).registers.pc as int],
                        ),
                        low_byte(be16(old(self).registers.sp_0, old(self).registers.sp_1))
                            + old(self).ram@[old(self).registers.pc as int] > 255,
                    ),
                    h: high_byte(
                        spec_add_signed8(
                            be16(old(self).registers.sp_0, old(self).registers.sp_1),
                            old(self).ram@[old(self).registers.pc as int],
                        ),
                    ),
                    l: low_byte(
                        spec_add_signed8(
                            be16(old(self).registers.sp_0, old(self).registers.sp_1),
                            old(self).ram@[old(self).registers.pc as int],
                        ),
                    ),
                    pc: old(self).registers.pc.wrapping_add(1),
                    ..old(self).registers
                },
            ),
    {
        let e8 = self.read_byte();
        let sp = self.registers.get_sp();
        let sp_low = (sp & 0xFF) as u8;

        let overflowed = (sp_low as u16) + (e8 as u16) > 255;
        let half_carried = is_half_carry(sp_low, e8);
        let res = add_signed8(sp, e8);
        self.registers.set_hl(res);

        self.registers.set_flags(false, false, half_carried, overflowed);
        3
    }

    /// CPL: complement A; N and H are forced on, Z and C stay.
    pub fn cpl(&mut self) -> (c: u8)
        ensures
            c == 1,
            regs_step(
                *old(self),
                *final(self),
                Registers {
                    a: !old(self).registers.a,
                    f: flags_of(
                        spec_get_flag(old(self).registers.f, Flag::Zero),
                        true,
                        true,
                        spec_get_flag(old(self).registers.f, Flag::Carry),
                    ),
                    ..old(self).registers
                },
            ),
    {
        self.registers.a = !self.registers.a;
        let z = self.registers.get_flag(Flag::Zero);
        let cy = self.registers.get_flag(Flag::Carry);
        self.registers.set_flags(z, true, true, cy);
        1
    }

    /// SCF: set the carry flag; N and H clear, Z stays.
    pub fn scf(&mut self) -> (c: u8)
        ensures
            c == 1,
            regs_step(
                *old(self),
                *final(self),
                Registers {
                    f: flags_of(
                        spec_get_flag(old(self).registers.f, Flag::Zero),
                        false,
                        false,
                        true,
                    ),
                    ..old(self).registers
                },
            ),
    {
        let z = self.registers.get_flag(Flag::Zero);
        self.registers.set_flags(z, false, false, true);
        1
    }

    /// CCF: complement the carry flag; N and H clear, Z stays.
    pub fn ccf(&mut self) -> (c: u8)
        ensures
            c == 1,
            regs_step(
                *old(self),
                *final(self),
                Registers {
                    f: flags_of(
                        spec_get_flag(old(self).registers.f, Flag::Zero),
                        false,
                        false,
                        !spec_get_flag(old(self).registers.f, Flag::Carry),
                    ),
                    ..old(self).registers
                },
            ),
    {
        let z = self.registers.get_flag(Flag::Zero);
        let cy = self.registers.get_flag(Flag::Carry);
        self.registers.set_flags(z, false, false, !cy);
        1
    }

    /// DAA: adjust A back to packed BCD after an add or subtract.
    pub fn daa(&mut self) -> (c: u8)
        ensures
            c == 1,
            regs_step(
                *old(self),
                *final(self),
                Registers {
                    a: daa_result(
                        old(self).registers.a,
                        spec_get_flag(old(self).registers.f, Flag::Subtraction),
                        spec_get_flag(old(self).registers.f, Flag::HalfCarry),
                        spec_get_flag(old(self).registers.f, Flag::Carry),
                    ),
                    f: flags_of(
                        daa_result(
                            old(self).registers.a,
                            spec_get_flag(old(self).registers.f, Flag::Subtraction),
                            spec_get_flag(old(self).registers.f, Flag::HalfCarry),
                            spec_get_flag(old(self).registers.f, Flag::Carry),
                        ) == 0,
                        spec_get_flag(old(self).registers.f, Flag::Subtraction),
                        false,
                        daa_carry(
                            old(self).registers.a,
                            spec_get_flag(old(self).registers.f, Flag::Subtraction),
                            spec_get_flag(old(self).registers.f, Flag::Carry),
                        ),
                    ),
                    ..old(self).registers
                },
            ),
    {
        let n = self.registers.get_flag(Flag::Subtraction);
        let h = self.registers.get_flag(Flag::HalfCarry);
        let cy = self.registers.get_flag(Flag::Carry);
        let a = self.registers.a;

        let new_carry_flag: bool;
        if n {
            let mut adjustment: u8 = 0;
            if h {
                adjustment += 0x6;
            }
            if cy {
                adjustment += 0x60;
            }
            self.registers.a = a.wrapping_sub(adjustment);
            new_carry_flag = cy;
        } else {
            let mut adjustment: u8 = 0;
            if h || (a & 0xF) > 0x9 {
                adjustment += 0x6;
            }
            if cy || a > 0x99 {
                adjustment += 0x60;
                new_carry_flag = true;
            } else {
                new_carry_flag = false;
            }
            self.registers.a = a.wrapping_add(adjustment);
        }

        let res = self.registers.a;
        self.registers.set_flags(res == 0, n, false, new_carry_flag);
        1
    }
}

/// A 16-bit base plus a byte taken as a signed offset, with 16-bit wrap.
pub fn add_signed8(base: u16, b: u8) -> (r: u16)
    ensures
        r == spec_add_signed8(base, b),
{
    if b >= 128 {
        base.wrapping_sub(256 - (b as u16))
    } else {
        base.wrapping_add(b as u16)
    }
}

} // verus!
