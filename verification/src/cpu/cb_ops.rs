use vstd::prelude::*;

use crate::cpu::register::{
    be16, flags_of, spec_get_flag, spec_get_r8, spec_set_r8, Flag, Registers,
};
use crate::cpu::{mem_step, regs_step, CPU};

verus! {

/// Rotate left, the top bit landing in bit 0.
pub open spec fn rlc_byte(x: u8) -> u8 {
    (x << 1) | (x >> 7)
}

/// Rotate right, the bottom bit landing in bit 7.
pub open spec fn rrc_byte(x: u8) -> u8 {
    (x >> 1) | ((x & 1) << 7)
}

/// Rotate left through the carry flag: the carry enters at bit 0.
pub open spec fn rl_byte(x: u8, cy: bool) -> u8 {
    (x << 1) | (if cy {
        1u8
    } else {
        0u8
    })
}

/// Rotate right through the carry flag: the carry enters at bit 7.
pub open spec fn rr_byte(x: u8, cy: bool) -> u8 {
    (x >> 1) | ((if cy {
        1u8
    } else {
        0u8
    }) << 7)
}

/// Shift left arithmetically; bit 0 becomes zero.
pub open spec fn sla_byte(x: u8) -> u8 {
    x << 1
}

/// Shift right logically; bit 7 becomes zero.
pub open spec fn srl_byte(x: u8) -> u8 {
    x >> 1
}

/// Shift right arithmetically; bit 7 is kept.
pub open spec fn sra_byte(x: u8) -> u8 {
    if x & 0x80 > 0 {
        (x >> 1) | (x & 0x80)
    } else {
        x >> 1
    }
}

/// Exchange the two nibbles.
pub open spec fn swap_byte(x: u8) -> u8 {
    ((x & 0x0F) << 4) | ((x & 0xF0) >> 4)
}

/// The bit a left shift pushes out.
pub open spec fn left_popped(x: u8) -> bool {
    x >> 7 == 1
}

/// The bit a right shift pushes out.
pub open spec fn right_popped(x: u8) -> bool {
    x & 1 == 1
}

/// The byte with bit `b` forced on.
pub open spec fn set_bit(x: u8, b: u8) -> u8 {
    x | (1u8 << b)
}

/// The byte with bit `b` forced off.
pub open spec fn res_bit(x: u8, b: u8) -> u8 {
    x & !(1u8 << b)
}

/// Bit `b` of the byte, as 0 or 1.
pub open spec fn bit_of(x: u8, b: u8) -> u8 {
    (x >> b) & 1
}

/// The flag byte every rotate and shift produces: Z from the result, N and H
/// clear, C the bit pushed out.
pub open spec fn rotate_flags(result: u8, popped: bool) -> u8 {
    flags_of(result == 0, false, false, popped)
}

/// Rotating a byte left and then right without carry (or right and then
/// left) restores the byte, whatever the carry flag held.
pub proof fn lemma_rlc_rrc_identity(x: u8)
    by (bit_vector)
    ensures
        rrc_byte(rlc_byte(x)) == x,
        rlc_byte(rrc_byte(x)) == x,
{
}

/// Exchanging the nibbles twice restores the byte: SWAP is an involution.
pub proof fn lemma_swap_involution(x: u8)
    by (bit_vector)
    ensures
        swap_byte(swap_byte(x)) == x,
{
}

/// After SET the probed bit is one and after RES it is zero.
pub proof fn lemma_set_res_bit(x: u8, b: u8)
    by (bit_vector)
    requires
        b < 8,
    ensures
        bit_of(set_bit(x, b), b) == 1,
        bit_of(res_bit(x, b), b) == 0,
{
}

/// For any byte and bit: SET then BIT leaves the zero flag clear, and RES
/// then BIT leaves it set, whatever the carry flag held.  The flag bytes
/// below are exactly what `set_u3`/`res_u3` followed by `bit_u3` produce.
pub proof fn lemma_bit_after_set_res(x: u8, b: u8, c: bool)
    requires
        b < 8,
    ensures
        !spec_get_flag(flags_of(bit_of(set_bit(x, b), b) == 0, false, true, c), Flag::Zero),
        spec_get_flag(flags_of(bit_of(res_bit(x, b), b) == 0, false, true, c), Flag::Zero),
{
    lemma_set_res_bit(x, b);
    crate::cpu::register::lemma_flags_of_props();
}

enum Direction {
    Left,
    Right,
}

enum RotateType {
    Shift,
    RotateWithoutCarry,
    RotateThroughCarry,
}

impl CPU {
    /// The shared rotate/shift executor: shifts one bit out, feeds in zero,
    /// the popped bit, or the carry flag, and rebuilds the flags.
    fn alu_rotate(&mut self, value: u8, direction: Direction, rotate_type: RotateType) -> (r: u8)
        ensures
            regs_step(
                *old(self),
                *final(self),
                Registers { f: rotate_flags(r, (match direction {
                    Direction::Left => left_popped(value),
                    Direction::Right => right_popped(value),
                })), ..old(self).registers },
            ),
            r == (match (direction, rotate_type) {
                (Direction::Left, RotateType::Shift) => sla_byte(value),
                (Direction::Left, RotateType::RotateWithoutCarry) => rlc_byte(value),
                (Direction::Left, RotateType::RotateThroughCarry) => rl_byte(
                    value,
                    spec_get_flag(old(self).registers.f, Flag::Carry),
                ),
                (Direction::Right, RotateType::Shift) => srl_byte(value),
                (Direction::Right, RotateType::RotateWithoutCarry) => rrc_byte(value),
                (Direction::Right, RotateType::RotateThroughCarry) => rr_byte(
                    value,
                    spec_get_flag(old(self).registers.f, Flag::Carry),
                ),
            }),
    {
        let carry_value = self.registers.get_flag(Flag::Carry);
        let is_left = match direction {
            Direction::Left => true,
            Direction::Right => false,
        };
        let popped_value: u8 = if is_left {
            value >> 7
        } else {
            value & 1
        };
        let shifted: u8 = if is_left {
            value << 1
        } else {
            value >> 1
        };

        let result = match rotate_type {
            RotateType::Shift => shifted,
            RotateType::RotateWithoutCarry => if is_left {
                shifted | popped_value
            } else {
                shifted | (popped_value << 7)
            },
            RotateType::RotateThroughCarry => {
                let modifier_value: u8 = if carry_value {
                    1
                } else {
                    0
                };
                if is_left {
                    shifted | modifier_value
                } else {
                    shifted | (modifier_value << 7)
                }
            },
        };

        self.registers.set_flags(result == 0, false, false, popped_value == 1);

        result
    }

    pub fn rl_r8(&mut self, instruction: u8) -> (c: u8)
        requires
            instruction & 0x07 != 6,
        ensures
            c == 2,
            regs_step(
                *old(self),
                *final(self),
                Registers {
                    f: rotate_flags(
                        rl_byte(
                            spec_get_r8(old(self).registers, instruction),
                            spec_get_flag(old(self).registers.f, Flag::Carry),
                        ),
                        left_popped(spec_get_r8(old(self).registers, instruction)),
                    ),
                    ..spec_set_r8(
                        old(self).registers,
                        instruction,
                        rl_byte(
                            spec_get_r8(old(self).registers, instruction),
                            spec_get_flag(old(self).registers.f, Flag::Carry),
                        ),
                    )
                },
            ),
    {
        let r8_value = self.registers.get_r8(instruction);
        let res = self.alu_rotate(r8_value, Direction::Left, RotateType::RotateThroughCarry);
        self.registers.set_r8(instruction, res);
        2
    }

    pub fn rl_hl(&mut self) -> (c: u8)
        requires
            old(self).ram.wf(),
        ensures
            c == 4,
            mem_step(
                *old(self),
                *final(self),
                Registers {
                    f: rotate_flags(
                        rl_byte(
                            old(self).ram@[be16(
                                old(self).registers.h,
                                old(self).registers.l,
                            ) as int],
                            spec_get_flag(old(self).registers.f, Flag::Carry),
                        ),
                        left_popped(
                            old(self).ram@[be16(
                                old(self).registers.h,
                                old(self).registers.l,
                            ) as int],
                        ),
                    ),
                    ..old(self).registers
                },
                be16(old(self).registers.h, old(self).registers.l),
                rl_byte(
                    old(self).ram@[be16(old(self).registers.h, old(self).registers.l) as int],
                    spec_get_flag(old(self).registers.f, Flag::Carry),
                ),
            ),
    {
        let value = self.ram.read(self.registers.get_hl());
        let res = self.alu_rotate(value, Direction::Left, RotateType::RotateThroughCarry);
        let location = self.registers.get_hl();
        self.ram.write(location, res);
        4
    }

    /// RLA: rotate A left through carry; Z is forced clear.
    pub fn rl_a(&mut self) -> (c: u8)
        ensures
            c == 1,
            regs_step(
                *old(self),
                *final(self),
                Registers {
                    a: rl_byte(
                        old(self).registers.a,
                        spec_get_flag(old(self).registers.f, Flag::Carry),
                    ),
                    f: flags_of(false, false, false, left_popped(old(self).registers.a)),
                    ..old(self).registers
                },
            ),
    {
        proof {
            crate::cpu::register::lemma_flags_of_props();
        }
        let value = self.registers.a;
        let res = self.alu_rotate(value, Direction::Left, RotateType::RotateThroughCarry);
        self.registers.a = res;

        let cy = self.registers.get_flag(Flag::Carry);
        self.registers.set_flags(false, false, false, cy);
        1
    }

    pub fn rlc_r8(&mut self, instruction: u8) -> (c: u8)
        requires
            instruction & 0x07 != 6,
        ensures
            c == 2,
            regs_step(
                *old(self),
                *final(self),
                Registers {
                    f: rotate_flags(
                        rlc_byte(spec_get_r8(old(self).registers, instruction)),
                        left_popped(spec_get_r8(old(self).registers, instruction)),
                    ),
                    ..spec_set_r8(
                        old(self).registers,
                        instruction,
                        rlc_byte(spec_get_r8(old(self).registers, instruction)),
                    )
                },
            ),
    {
        let r8_value = self.registers.get_r8(instruction);
        let res = self.alu_rotate(r8_value, Direction::Left, RotateType::RotateWithoutCarry);
        self.registers.set_r8(instruction, res);
        2
    }

    pub fn rlc_hl(&mut self) -> (c: u8)
        requires
            old(self).ram.wf(),
        ensures
            c == 4,
            mem_step(
                *old(self),
                *final(self),
                Registers {
                    f: rotate_flags(
                        rlc_byte(
                            old(self).ram@[be16(
                                old(self).registers.h,
                                old(self).registers.l,
                            ) as int],
                        ),
                        left_popped(
                            old(self).ram@[be16(
                                old(self).registers.h,
                                old(self).registers.l,
                            ) as int],
                        ),
                    ),
                    ..old(self).registers
                },
                be16(old(self).registers.h, old(self).registers.l),
                rlc_byte(old(self).ram@[be16(old(self).registers.h, old(self).registers.l) as int]),
            ),
    {
        let value = self.ram.read(self.registers.get_hl());
        let res = self.alu_rotate(value, Direction::Left, RotateType::RotateWithoutCarry);
        let location = self.registers.get_hl();
        self.ram.write(location, res);
        4
    }

    /// RLCA: rotate A left; Z is forced clear.
    pub fn rlc_a(&mut self) -> (c: u8)
        ensures
            c == 1,
            regs_step(
                *old(self),
                *final(self),
                Registers {
                    a: rlc_byte(old(self).registers.a),
                    f: flags_of(false, false, false, left_popped(old(self).registers.a)),
                    ..old(self).registers
                },
            ),
    {
        proof {
            crate::cpu::register::lemma_flags_of_props();
        }
        let value = self.registers.a;
        let res = self.alu_rotate(value, Direction::Left, RotateType::RotateWithoutCarry);
        self.registers.a = res;

        let cy = self.registers.get_flag(Flag::Carry);
        self.registers.set_flags(false, false, false, cy);
        1
    }

    pub fn sla_r8(&mut self, instruction: u8) -> (c: u8)
        requires
            instruction & 0x07 != 6,
        ensures
            c == 2,
            regs_step(
                *old(self),
                *final(self),
                Registers {
                    f: rotate_flags(
                        sla_byte(spec_get_r8(old(self).registers, instruction)),
                        left_popped(spec_get_r8(old(self).registers, instruction)),
                    ),
                    ..spec_set_r8(
                        old(self).registers,
                        instruction,
                        sla_byte(spec_get_r8(old(self).registers, instruction)),
                    )
                },
            ),
    {
        let value = self.registers.get_r8(instruction);
        let res = self.alu_rotate(value, Direction::Left, RotateType::Shift);
        self.registers.set_r8(instruction, res);
        2
    }

    pub fn sla_hl(&mut self) -> (c: u8)
        requires
            old(self).ram.wf(),
        ensures
            c == 4,
            mem_step(
                *old(self),
                *final(self),
                Registers {
                    f: rotate_flags(
                        sla_byte(
                            old(self).ram@[be16(
                                old(self).registers.h,
                                old(self).registers.l,
                            ) as int],
                        ),
                        left_popped(
                            old(self).ram@[be16(
                                old(self).registers.h,
                                old(self).registers.l,
                            ) as int],
                        ),
                    ),
                    ..old(self).registers
                },
                be16(old(self).registers.h, old(self).registers.l),
                sla_byte(old(self).ram@[be16(old(self).registers.h, old(self).registers.l) as int]),
            ),
    {
        let value = self.ram.read(self.registers.get_hl());
        let res = self.alu_rotate(value, Direction::Left, RotateType::Shift);
        let location = self.registers.get_hl();
        self.ram.write(location, res);
        4
    }

    pub fn rr_r8(&mut self, instruction: u8) -> (c: u8)
        requires
            instruction & 0x07 != 6,
        ensures
            c == 2,
            regs_step(
                *old(self),
                *final(self),
                Registers {
                    f: rotate_flags(
                        rr_byte(
                            spec_get_r8(old(self).registers, instruction),
                            spec_get_flag(old(self).registers.f, Flag::Carry),
                        ),
                        right_popped(spec_get_r8(old(self).registers, instruction)),
                    ),
                    ..spec_set_r8(
                        old(self).registers,
                        instruction,
                        rr_byte(
                            spec_get_r8(old(self).registers, instruction),
                            spec_get_flag(old(self).registers.f, Flag::Carry),
                        ),
                    )
                },
            ),
    {
        let r8_value = self.registers.get_r8(instruction);
        let res = self.alu_rotate(r8_value, Direction::Right, RotateType::RotateThroughCarry);
        self.registers.set_r8(instruction, res);
        2
    }

    pub fn rr_hl(&mut self) -> (c: u8)
        requires
            old(self).ram.wf(),
        ensures
            c == 4,
            mem_step(
                *old(self),
                *final(self),
                Registers {
                    f: rotate_flags(
                        rr_byte(
                            old(self).ram@[be16(
                                old(self).registers.h,
                                old(self).registers.l,
                            ) as int],
                            spec_get_flag(old(self).registers.f, Flag::Carry),
                        ),
                        right_popped(
                            old(self).ram@[be16(
                                old(self).registers.h,
                                old(self).registers.l,
                            ) as int],
                        ),
                    ),
                    ..old(self).registers
                },
                be16(old(self).registers.h, old(self).registers.l),
                rr_byte(
                    old(self).ram@[be16(old(self).registers.h, old(self).registers.l) as int],
                    spec_get_flag(old(self).registers.f, Flag::Carry),
                ),
            ),
    {
        let value = self.ram.read(self.registers.get_hl());
        let res = self.alu_rotate(value, Direction::Right, RotateType::RotateThroughCarry);
        let location = self.registers.get_hl();
        self.ram.write(location, res);
        4
    }

    /// RRA: rotate A right through carry; Z is forced clear.
    pub fn rr_a(&mut self) -> (c: u8)
        ensures
            c == 1,
            regs_step(
                *old(self),
                *final(self),
                Registers {
                    a: rr_byte(
                        old(self).registers.a,
                        spec_get_flag(old(self).registers.f, Flag::Carry),
                    ),
                    f: flags_of(false, false, false, right_popped(old(self).registers.a)),
                    ..old(self).registers
                },
            ),
    {
        proof {
            crate::cpu::register::lemma_flags_of_props();
        }
        let value = self.registers.a;
        let res = self.alu_rotate(value, Direction::Right, RotateType::RotateThroughCarry);
        self.registers.a = res;

        let cy = self.registers.get_flag(Flag::Carry);
        self.registers.set_flags(false, false, false, cy);
        1
    }

    pub fn rrc_r8(&mut self, instruction: u8) -> (c: u8)
        requires
            instruction & 0x07 != 6,
        ensures
            c == 2,
            regs_step(
                *old(self),
                *final(self),
                Registers {
                    f: rotate_flags(
                        rrc_byte(spec_get_r8(old(self).registers, instruction)),
                        right_popped(spec_get_r8(old(self).registers, instruction)),
                    ),
                    ..spec_set_r8(
                        old(self).registers,
                        instruction,
                        rrc_byte(spec_get_r8(old(self).registers, instruction)),
                    )
                },
            ),
    {
        let r8_value = self.registers.get_r8(instruction);
        let res = self.alu_rotate(r8_value, Direction::Right, RotateType::RotateWithoutCarry);
        self.registers.set_r8(instruction, res);
        2
    }

    pub fn rrc_hl(&mut self) -> (c: u8)
        requires
            old(self).ram.wf(),
        ensures
            c == 4,
            mem_step(
                *old(self),
                *final(self),
                Registers {
                    f: rotate_flags(
                        rrc_byte(
                            old(self).ram@[be16(
                                old(self).registers.h,
                                old(self).registers.l,
                            ) as int],
                        ),
                        right_popped(
                            old(self).ram@[be16(
                                old(self).registers.h,
                                old(self).registers.l,
                            ) as int],
                        ),
                    ),
                    ..old(self).registers
                },
                be16(old(self).registers.h, old(self).registers.l),
                rrc_byte(old(self).ram@[be16(old(self).registers.h, old(self).registers.l) as int]),
            ),
    {
        let value = self.ram.read(self.registers.get_hl());
        let res = self.alu_rotate(value, Direction::Right, RotateType::RotateWithoutCarry);
        let location = self.registers.get_hl();
        self.ram.write(location, res);
        4
    }

    /// RRCA: rotate A right; Z is forced clear.
    pub fn rrc_a(&mut self) -> (c: u8)
        ensures
            c == 1,
            regs_step(
                *old(self),
                *final(self),
                Registers {
                    a: rrc_byte(old(self).registers.a),
                    f: flags_of(false, false, false, right_popped(old(self).registers.a)),
                    ..old(self).registers
                },
            ),
    {
        proof {
            crate::cpu::register::lemma_flags_of_props();
        }
        let value = self.registers.a;
        let res = self.alu_rotate(value, Direction::Right, RotateType::RotateWithoutCarry);
        self.registers.a = res;

        let cy = self.registers.get_flag(Flag::Carry);
        self.registers.set_flags(false, false, false, cy);
        1
    }

    /// SRA keeps bit 7; the flags are taken from the plain right shift,
    /// whose zero test agrees with the kept-bit result.
    pub fn sra_r8(&mut self, instruction: u8) -> (c: u8)
        requires
            instruction & 0x07 != 6,
        ensures
            c == 2,
            regs_step(
                *old(self),
                *final(self),
                Registers {
                    f: rotate_flags(
                        srl_byte(spec_get_r8(old(self).registers, instruction)),
                        right_popped(spec_get_r8(old(self).registers, instruction)),
                    ),
                    ..spec_set_r8(
                        old(self).registers,
                        instruction,
                        sra_byte(spec_get_r8(old(self).registers, instruction)),
                    )
                },
            ),
    {
        let value = self.registers.get_r8(instruction);
        let res = self.alu_rotate(value, Direction::Right, RotateType::Shift);

        let bit_7_mask = value & 0b1000_0000;
        let res = if bit_7_mask > 0 {
            res | bit_7_mask
        } else {
            res
        };

        self.registers.set_r8(instruction, res);
        2
    }

    pub fn sra_hl(&mut self) -> (c: u8)
        requires
            old(self).ram.wf(),
        ensures
            c == 4,
            mem_step(
                *old(self),
                *final(self),
                Registers {
                    f: rotate_flags(
                        srl_byte(
                            old(self).ram@[be16(
                                old(self).registers.h,
                                old(self).registers.l,
                            ) as int],
                        ),
                        right_popped(
                            old(self).ram@[be16(
                                old(self).registers.h,
                                old(self).registers.l,
                            ) as int],
                        ),
                    ),
                    ..old(self).registers
                },
                be16(old(self).registers.h, old(self).registers.l),
                sra_byte(old(self).ram@[be16(old(self).registers.h, old(self).registers.l) as int]),
            ),
    {
        let value = self.ram.read(self.registers.get_hl());
        let res = self.alu_rotate(value, Direction::Right, RotateType::Shift);

        let bit_7_mask = value & 0b1000_0000;
        let res = if bit_7_mask > 0 {
            res | bit_7_mask
        } else {
            res
        };

        let location = self.registers.get_hl();
        self.ram.write(location, res);
        4
    }

    pub fn srl_r8(&mut self, instruction: u8) -> (c: u8)
        requires
            instruction & 0x07 != 6,
        ensures
            c == 2,
            regs_step(
                *old(self),
                *final(self),
                Registers {
                    f: rotate_flags(
                        srl_byte(spec_get_r8(old(self).registers, instruction)),
                        right_popped(spec_get_r8(old(self).registers, instruction)),
                    ),
                    ..spec_set_r8(
                        old(self).registers,
                        instruction,
                        srl_byte(spec_get_r8(old(self).registers, instruction)),
                    )
                },
            ),
    {
        let value = self.registers.get_r8(instruction);
        let res = self.alu_rotate(value, Direction::Right, RotateType::Shift);
        self.registers.set_r8(instruction, res);
        2
    }

    pub fn srl_hl(&mut self) -> (c: u8)
        requires
            old(self).ram.wf(),
        ensures
            c == 4,
            mem_step(
                *old(self),
                *final(self),
                Registers {
                    f: rotate_flags(
                        srl_byte(
                            old(self).ram@[be16(
                                old(self).registers.h,
                                old(self).registers.l,
                            ) as int],
                        ),
                        right_popped(
                            old(self).ram@[be16(
                                old(self).registers.h,
                                old(self).registers.l,
                            ) as int],
                        ),
                    ),
                    ..old(self).registers
                },
                be16(old(self).registers.h, old(self).registers.l),
                srl_byte(old(self).ram@[be16(old(self).registers.h, old(self).registers.l) as int]),
            ),
    {
        let value = self.ram.read(self.registers.get_hl());
        let res = self.alu_rotate(value, Direction::Right, RotateType::Shift);
        let location = self.registers.get_hl();
        self.ram.write(location, res);
        4
    }

    /// The shared SWAP executor; SWAP clears the carry besides Z.
    fn alu_swap(&mut self, value: u8) -> (r: u8)
        ensures
            r == swap_byte(value),
            regs_step(
                *old(self),
                *final(self),
                Registers {
                    f: flags_of(swap_byte(value) == 0, false, false, false),
                    ..old(self).registers
                },
            ),
    {
        let lower_shifted = (value & 0b0000_1111) << 4;
        let upper_shifted = (value & 0b1111_0000) >> 4;
        let res = lower_shifted | upper_shifted;

        self.registers.set_flags(res == 0, false, false, false);

        res
    }

    pub fn swap_r8(&mut self, instruction: u8) -> (c: u8)
        requires
            instruction & 0x07 != 6,
        ensures
            c == 2,
            regs_step(
                *old(self),
                *final(self),
                Registers {
                    f: flags_of(
                        swap_byte(spec_get_r8(old(self).registers, instruction)) == 0,
                        false,
                        false,
                        false,
                    ),
                    ..spec_set_r8(
                        old(self).registers,
                        instruction,
                        swap_byte(spec_get_r8(old(self).registers, instruction)),
                    )
                },
            ),
    {
        let value = self.registers.get_r8(instruction);
        let res = self.alu_swap(value);
        self.registers.set_r8(instruction, res);
        2
    }

    pub fn swap_hl(&mut self) -> (c: u8)
        requires
            old(self).ram.wf(),
        ensures
            c == 4,
            mem_step(
                *old(self),
                *final(self),
                Registers {
                    f: flags_of(
                        swap_byte(
                            old(self).ram@[be16(
                                old(self).registers.h,
                                old(self).registers.l,
                            ) as int],
                        ) == 0,
                        false,
                        false,
                        false,
                    ),
                    ..old(self).registers
                },
                be16(old(self).registers.h, old(self).registers.l),
                swap_byte(
                    old(self).ram@[be16(old(self).registers.h, old(self).registers.l) as int],
                ),
            ),
    {
        let value = self.ram.read(self.registers.get_hl());
        let res = self.alu_swap(value);
        let location = self.registers.get_hl();
        self.ram.write(location, res);
        4
    }

    /// The shared BIT executor: Z is the complement of the probed bit, N
    /// clears, H sets, C stays.
    fn alu_bit_u3(&mut self, bit_index: u8, value: u8)
        requires
            bit_index < 8,
        ensures
            regs_step(
                *old(self),
                *final(self),
                Registers {
                    f: flags_of(
                        bit_of(value, bit_index) == 0,
                        false,
                        true,
                        spec_get_flag(old(self).registers.f, Flag::Carry),
                    ),
                    ..old(self).registers
                },
            ),
    {
        let res = (value >> bit_index) & 1;

        let cy = self.registers.get_flag(Flag::Carry);
        self.registers.set_flags(res == 0, false, true, cy);
    }

    pub fn bit_u3_r8(&mut self, instruction: u8) -> (c: u8)
        requires
            instruction & 0x07 != 6,
        ensures
            c == 2,
            regs_step(
                *old(self),
                *final(self),
                Registers {
                    f: flags_of(
                        bit_of(
                            spec_get_r8(old(self).registers, instruction),
                            (instruction >> 3) & 0x07,
                        ) == 0,
                        false,
                        true,
                        spec_get_flag(old(self).registers.f, Flag::Carry),
                    ),
                    ..old(self).registers
                },
            ),
    {
        proof {
            crate::cpu::instruction::lemma_field_bounds();
        }
        let bit_index = (instruction >> 3) & 0x07;
        let value = self.registers.get_r8(instruction);

        self.alu_bit_u3(bit_index, value);
        2
    }

    pub fn bit_u3_hl(&mut self, instruction: u8) -> (c: u8)
        requires
            old(self).ram.wf(),
        ensures
            c == 3,
            regs_step(
                *old(self),
                *final(self),
                Registers {
                    f: flags_of(
                        bit_of(
                            old(self).ram@[be16(
                                old(self).registers.h,
                                old(self).registers.l,
                            ) as int],
                            (instruction >> 3) & 0x07,
                        ) == 0,
                        false,
                        true,
                        spec_get_flag(old(self).registers.f, Flag::Carry),
                    ),
                    ..old(self).registers
                },
            ),
    {
        proof {
            crate::cpu::instruction::lemma_field_bounds();
        }
        let bit_index = (instruction >> 3) & 0x07;
        let location = self.registers.get_hl();
        let value = self.ram.read(location);

        self.alu_bit_u3(bit_index, value);
        3
    }

    pub fn res_u3_r8(&mut self, instruction: u8) -> (c: u8)
        requires
            instruction & 0x07 != 6,
        ensures
            c == 2,
            regs_step(
                *old(self),
                *final(self),
                spec_set_r8(
                    old(self).registers,
                    instruction,
                    res_bit(
                        spec_get_r8(old(self).registers, instruction),
                        (instruction >> 3) & 0x07,
                    ),
                ),
            ),
    {
        proof {
            crate::cpu::instruction::lemma_field_bounds();
        }
        let bit_mask = 1u8 << ((instruction >> 3) & 0x07);
        let value = self.registers.get_r8(instruction);

        self.registers.set_r8(instruction, value & !bit_mask);
        2
    }

    pub fn res_u3_hl(&mut self, instruction: u8) -> (c: u8)
        requires
            old(self).ram.wf(),
        ensures
            c == 4,
            mem_step(
                *old(self),
                *final(self),
                old(self).registers,
                be16(old(self).registers.h, old(self).registers.l),
                res_bit(
                    old(self).ram@[be16(old(self).registers.h, old(self).registers.l) as int],
                    (instruction >> 3) & 0x07,
                ),
            ),
    {
        proof {
            crate::cpu::instruction::lemma_field_bounds();
        }
        let bit_mask = 1u8 << ((instruction >> 3) & 0x07);
        let location = self.registers.get_hl();
        let value = self.ram.read(location);

        self.ram.write(location, value & !bit_mask);
        4
    }

    pub fn set_u3_r8(&mut self, instruction: u8) -> (c: u8)
        requires
            instruction & 0x07 != 6,
        ensures
            c == 2,
            regs_step(
                *old(self),
                *final(self),
                spec_set_r8(
                    old(self).registers,
                    instruction,
                    set_bit(
                        spec_get_r8(old(self).registers, instruction),
                        (instruction >> 3) & 0x07,
                    ),
                ),
            ),
    {
        proof {
            crate::cpu::instruction::lemma_field_bounds();
        }
        let bit_mask = 1u8 << ((instruction >> 3) & 0x07);
        let value = self.registers.get_r8(instruction);

        self.registers.set_r8(instruction, value | bit_mask);
        2
    }

    pub fn set_u3_hl(&mut self, instruction: u8) -> (c: u8)
        requires
            old(self).ram.wf(),
        ensures
            c == 4,
            mem_step(
                *old(self),
                *final(self),
                old(self).registers,
                be16(old(self).registers.h, old(self).registers.l),
                set_bit(
                    old(self).ram@[be16(old(self).registers.h, old(self).registers.l) as int],
                    (instruction >> 3) & 0x07,
                ),
            ),
    {
        proof {
            crate::cpu::instruction::lemma_field_bounds();
        }
        let bit_mask = 1u8 << ((instruction >> 3) & 0x07);
        let location = self.registers.get_hl();
        let value = self.ram.read(location);

        self.ram.write(location, value | bit_mask);
        4
    }
}

} // verus!
