use vstd::prelude::*;

use crate::cpu::instruction::{op_interleaved_r16, spec_interleaved_r16};
use crate::cpu::register::{
    be16, high_byte, lemma_be16_roundtrip, low_byte, spec_get_r8, spec_get_r16, spec_set_r8,
    spec_set_r16, Registers,
};
use crate::cpu::{mem_step, regs_step, spec_pop16_value, spec_push16_data, CPU};
use crate::ram::{spec_write, DMA_TRIGGER_ADDRESS};

verus! {

/// What PUSH places on the stack: the named pair, or A over F with F's low
/// nibble forced to zero when the AF row is named.
pub open spec fn spec_push_value(regs: Registers, index: u8) -> u16 {
    if index == 3 {
        be16(regs.a, regs.f & 0xF0)
    } else {
        spec_get_r16(regs, index)
    }
}

impl CPU {
    /// LD r8, r8': the destination takes the source's value; flags stay.
    pub fn ld_r8_r8(&mut self, instruction: u8) -> (c: u8)
        requires
            instruction & 0x07 != 6,
            (instruction >> 3) & 0x07 != 6,
        ensures
            c == 1,
            regs_step(
                *old(self),
                *final(self),
                spec_set_r8(
                    old(self).registers,
                    instruction >> 3,
                    spec_get_r8(old(self).registers, instruction),
                ),
            ),
            final(self).registers.f == old(self).registers.f,
    {
        let value_to_load = self.registers.get_r8(instruction);
        self.registers.set_r8(instruction >> 3, value_to_load);
        1
    }

    /// LD r8, n8: the destination takes the immediate byte; flags stay.
    pub fn ld_r8_n8(&mut self, instruction: u8) -> (c: u8)
        requires
            old(self).ram.wf(),
            (instruction >> 3) & 0x07 != 6,
        ensures
            c == 2,
            regs_step(
                *old(self),
                *final(self),
                Registers {
                    pc: old(self).registers.pc.wrapping_add(1),
                    ..spec_set_r8(
                        old(self).registers,
                        instruction >> 3,
                        old(self).ram@[old(self).registers.pc as int],
                    )
                },
            ),
    {
        let value_to_load = self.read_byte();
        self.registers.set_r8(instruction >> 3, value_to_load);
        2
    }

    /// LD r16, n16: the named pair takes the immediate word.
    pub fn ld_r16_n16(&mut self, instruction: u8) -> (c: u8)
        requires
            old(self).ram.wf(),
        ensures
            c == 3,
            regs_step(
                *old(self),
                *final(self),
                Registers {
                    pc: old(self).registers.pc.wrapping_add(2),
                    ..spec_set_r16(
                        old(self).registers,
                        spec_interleaved_r16(instruction, true),
                        be16(
                            old(self).ram@[old(self).registers.pc.wrapping_add(1) as int],
                            old(self).ram@[old(self).registers.pc as int],
                        ),
                    )
                },
            ),
    {
        let value_to_load = self.read_two_bytes();
        let location = op_interleaved_r16(instruction, true);
        self.registers.set_r16(location, value_to_load);
        3
    }

    /// LD (HL), r8: store the register at the address HL holds.
    pub fn ld_hl_r8(&mut self, instruction: u8) -> (c: u8)
        requires
            old(self).ram.wf(),
            instruction & 0x07 != 6,
        ensures
            c == 2,
            mem_step(
                *old(self),
                *final(self),
                old(self).registers,
                be16(old(self).registers.h, old(self).registers.l),
                spec_get_r8(old(self).registers, instruction),
            ),
    {
        let value_to_load = self.registers.get_r8(instruction);
        let location = self.registers.get_hl();
        self.ram.write(location, value_to_load);
        2
    }

    /// LD (HL), n8: store the immediate byte at the address HL holds.
    pub fn ld_hl_n8(&mut self) -> (c: u8)
        requires
            old(self).ram.wf(),
        ensures
            c == 3,
            mem_step(
                *old(self),
                *final(self),
                Registers { pc: old(self).registers.pc.wrapping_add(1), ..old(self).registers },
                be16(old(self).registers.h, old(self).registers.l),
                old(self).ram@[old(self).registers.pc as int],
            ),
    {
        let value_to_load = self.read_byte();
        let location = self.registers.get_hl();
        self.ram.write(location, value_to_load);
        3
    }

    /// LD SP, HL.
    pub fn ld_sp_hl(&mut self) -> (c: u8)
        ensures
            c == 2,
            regs_step(
                *old(self),
                *final(self),
                Registers {
                    sp_0: old(self).registers.h,
                    sp_1: old(self).registers.l,
                    ..old(self).registers
                },
            ),
    {
        proof {
            lemma_be16_roundtrip();
        }
        let hl = self.registers.get_hl();
        self.registers.set_sp(hl);
        2
    }

    /// LD r8, (HL): the destination takes the byte HL points at.
    pub fn ld_r8_hl(&mut self, instruction: u8) -> (c: u8)
        requires
            old(self).ram.wf(),
            (instruction >> 3) & 0x07 != 6,
        ensures
            c == 2,
            regs_step(
                *old(self),
                *final(self),
                spec_set_r8(
                    old(self).registers,
                    instruction >> 3,
                    old(self).ram@[be16(old(self).registers.h, old(self).registers.l) as int],
                ),
            ),
    {
        let location = self.registers.get_hl();
        let value = self.ram.read(location);
        self.registers.set_r8(instruction >> 3, value);
        2
    }

    /// LD (r16), A: store A at the address the named pair holds.
    pub fn ld_r16_a(&mut self, instruction: u8) -> (c: u8)
        requires
            old(self).ram.wf(),
        ensures
            c == 2,
            mem_step(
                *old(self),
                *final(self),
                old(self).registers,
                spec_get_r16(old(self).registers, spec_interleaved_r16(instruction, true)),
                old(self).registers.a,
            ),
    {
        let value_to_load = self.registers.a;
        let location = self.registers.get_r16(op_interleaved_r16(instruction, true));
        self.ram.write(location, value_to_load);
        2
    }

    /// LD (n16), A: store A at the immediate address.
    pub fn ld_n16_a(&mut self) -> (c: u8)
        requires
            old(self).ram.wf(),
        ensures
            c == 4,
            mem_step(
                *old(self),
                *final(self),
                Registers { pc: old(self).registers.pc.wrapping_add(2), ..old(self).registers },
                be16(
                    old(self).ram@[old(self).registers.pc.wrapping_add(1) as int],
                    old(self).ram@[old(self).registers.pc as int],
                ),
                old(self).registers.a,
            ),
    {
        let value_to_load = self.registers.a;
        let location = self.read_two_bytes();
        self.ram.write(location, value_to_load);
        4
    }

    /// LD (n16), SP: store the stack pointer little-endian at the immediate
    /// address.
    pub fn ld_a16_sp(&mut self) -> (c: u8)
        requires
            old(self).ram.wf(),
        ensures
            c == 5,
            final(self).ram.wf(),
            final(self).registers == (Registers {
                pc: old(self).registers.pc.wrapping_add(2),
                ..old(self).registers
            }),
            crate::cpu::ctrl_unchanged(*old(self), *final(self)),
            final(self).ram@ == spec_write(
                spec_write(
                    old(self).ram@,
                    be16(
                        old(self).ram@[old(self).registers.pc.wrapping_add(1) as int],
                        old(self).ram@[old(self).registers.pc as int],
                    ),
                    old(self).registers.sp_1,
                ),
                be16(
                    old(self).ram@[old(self).registers.pc.wrapping_add(1) as int],
                    old(self).ram@[old(self).registers.pc as int],
                ).wrapping_add(1),
                old(self).registers.sp_0,
            ),
            final(self).ram.spec_dma_requested() == (old(self).ram.spec_dma_requested() || be16(
                old(self).ram@[old(self).registers.pc.wrapping_add(1) as int],
                old(self).ram@[old(self).registers.pc as int],
            ) == DMA_TRIGGER_ADDRESS || be16(
                old(self).ram@[old(self).registers.pc.wrapping_add(1) as int],
                old(self).ram@[old(self).registers.pc as int],
            ).wrapping_add(1) == DMA_TRIGGER_ADDRESS),
    {
        let lo = self.registers.sp_1;
        let hi = self.registers.sp_0;
        let location = self.read_two_bytes();
        self.ram.write(location, lo);
        self.ram.write(location.wrapping_add(1), hi);
        5
    }

    /// LDH (n8), A: store A in the high page at 0xFF00 + n8.
    pub fn ldh_n16_a(&mut self) -> (c: u8)
        requires
            old(self).ram.wf(),
        ensures
            c == 3,
            mem_step(
                *old(self),
                *final(self),
                Registers { pc: old(self).registers.pc.wrapping_add(1), ..old(self).registers },
                (0xFF00 + old(self).ram@[old(self).registers.pc as int]) as u16,
                old(self).registers.a,
            ),
    {
        let location = self.read_byte();
        let location = 0xFF00 + (location as u16);
        let value_to_load = self.registers.a;
        self.ram.write(location, value_to_load);
        3
    }

    /// LDH (C), A: store A in the high page at 0xFF00 + C.
    pub fn ldh_c_a(&mut self) -> (c: u8)
        requires
            old(self).ram.wf(),
        ensures
            c == 2,
            mem_step(
                *old(self),
                *final(self),
                old(self).registers,
                (0xFF00 + old(self).registers.c) as u16,
                old(self).registers.a,
            ),
    {
        let c_reg = self.registers.c as u16;
        let location = 0xFF00 + c_reg;
        self.ram.write(location, self.registers.a);
        2
    }

    /// LD A, (r16): A takes the byte the named pair points at.
    pub fn ld_a_r16(&mut self, instruction: u8) -> (c: u8)
        requires
            old(self).ram.wf(),
        ensures
            c == 2,
            regs_step(
                *old(self),
                *final(self),
                Registers {
                    a: old(self).ram@[spec_get_r16(
                        old(self).registers,
                        spec_interleaved_r16(instruction, false),
                    ) as int],
                    ..old(self).registers
                },
            ),
    {
        let location = self.registers.get_r16(op_interleaved_r16(instruction, false));
        self.registers.a = self.ram.read(location);
        2
    }

    /// LD A, (n16): A takes the byte at the immediate address.
    pub fn ld_a_n16(&mut self) -> (c: u8)
        requires
            old(self).ram.wf(),
        ensures
            c == 4,
            regs_step(
                *old(self),
                *final(self),
                Registers {
                    a: old(self).ram@[be16(
                        old(self).ram@[old(self).registers.pc.wrapping_add(1) as int],
                        old(self).ram@[old(self).registers.pc as int],
                    ) as int],
                    pc: old(self).registers.pc.wrapping_add(2),
                    ..old(self).registers
                },
            ),
    {
        let location = self.read_two_bytes();
        self.registers.a = self.ram.read(location);
        4
    }

    /// LDH A, (n8): A takes the high-page byte at 0xFF00 + n8.
    pub fn ldh_a_n16(&mut self) -> (c: u8)
        requires
            old(self).ram.wf(),
        ensures
            c == 3,
            regs_step(
                *old(self),
                *final(self),
                Registers {
                    a: old(self).ram@[0xFF00 + old(self).ram@[old(self).registers.pc as int]],
                    pc: old(self).registers.pc.wrapping_add(1),
                    ..old(self).registers
                },
            ),
    {
        let location = self.read_byte();
        let location = 0xFF00 + (location as u16);
        self.registers.a = self.ram.read(location);
        3
    }

    /// LDH A, (C): A takes the high-page byte at 0xFF00 + C.
    pub fn ldh_a_c(&mut self) -> (c: u8)
        requires
            old(self).ram.wf(),
        ensures
            c == 2,
            regs_step(
                *old(self),
                *final(self),
                Registers {
                    a: old(self).ram@[0xFF00 + old(self).registers.c],
                    ..old(self).registers
                },
            ),
    {
        let c_reg = self.registers.c as u16;
        let location = 0xFF00 + c_reg;
        self.registers.a = self.ram.read(location);
        2
    }

    /// LD (HL+), A: store A at HL, then raise HL by one.
    pub fn ld_hli_a(&mut self) -> (c: u8)
        requires
            old(self).ram.wf(),
        ensures
            c == 2,
            mem_step(
                *old(self),
                *final(self),
                Registers {
                    h: high_byte(
                        be16(old(self).registers.h, old(self).registers.l).wrapping_add(1),
                    ),
                    l: low_byte(
                        be16(old(self).registers.h, old(self).registers.l).wrapping_add(1),
                    ),
                    ..old(self).registers
                },
                be16(old(self).registers.h, old(self).registers.l),
                old(self).registers.a,
            ),
    {
        let location = self.registers.get_hl();
        self.ram.write(location, self.registers.a);
        self.registers.set_hl(location.wrapping_add(1));
        2
    }

    /// LD (HL-), A: store A at HL, then drop HL by one.
    pub fn ld_hld_a(&mut self) -> (c: u8)
        requires
            old(self).ram.wf(),
        ensures
            c == 2,
            mem_step(
                *old(self),
                *final(self),
                Registers {
                    h: high_byte(
                        be16(old(self).registers.h, old(self).registers.l).wrapping_sub(1),
                    ),
                    l: low_byte(
                        be16(old(self).registers.h, old(self).registers.l).wrapping_sub(1),
                    ),
                    ..old(self).registers
                },
                be16(old(self).registers.h, old(self).registers.l),
                old(self).registers.a,
            ),
    {
        let location = self.registers.get_hl();
        self.ram.write(location, self.registers.a);
        self.registers.set_hl(location.wrapping_sub(1));
        2
    }

    /// LD A, (HL+): A takes the byte at HL, then HL rises by one.
    pub fn ld_a_hli(&mut self) -> (c: u8)
        requires
            old(self).ram.wf(),
        ensures
            c == 2,
            regs_step(
                *old(self),
                *final(self),
                Registers {
                    a: old(self).ram@[be16(old(self).registers.h, old(self).registers.l) as int],
                    h: high_byte(
                        be16(old(self).registers.h, old(self).registers.l).wrapping_add(1),
                    ),
                    l: low_byte(
                        be16(old(self).registers.h, old(self).registers.l).wrapping_add(1),
                    ),
                    ..old(self).registers
                },
            ),
    {
        let location = self.registers.get_hl();
        self.registers.a = self.ram.read(location);
        self.registers.set_hl(location.wrapping_add(1));
        2
    }

    /// LD A, (HL-): A takes the byte at HL, then HL drops by one.
    pub fn ld_a_hld(&mut self) -> (c: u8)
        requires
            old(self).ram.wf(),
        ensures
            c == 2,
            regs_step(
                *old(self),
                *final(self),
                Registers {
                    a: old(self).ram@[be16(old(self).registers.h, old(self).registers.l) as int],
                    h: high_byte(
                        be16(old(self).registers.h, old(self).registers.l).wrapping_sub(1),
                    ),
                    l: low_byte(
                        be16(old(self).registers.h, old(self).registers.l).wrapping_sub(1),
                    ),
                    ..old(self).registers
                },
            ),
    {
        let location = self.registers.get_hl();
        self.registers.a = self.ram.read(location);
        self.registers.set_hl(location.wrapping_sub(1));
        2
    }

    /// PUSH rr: SP drops by two and the pair lands there little-endian;
    /// pushing AF stores F with its low nibble forced to zero.
    pub fn push_r16(&mut self, instruction: u8) -> (c: u8)
        requires
            old(self).ram.wf(),
        ensures
            c == 4,
            final(self).ram.wf(),
            crate::cpu::ctrl_unchanged(*old(self), *final(self)),
            final(self).registers == (Registers {
                sp_0: high_byte(
                    be16(old(self).registers.sp_0, old(self).registers.sp_1).wrapping_sub(2),
                ),
                sp_1: low_byte(
                    be16(old(self).registers.sp_0, old(self).registers.sp_1).wrapping_sub(2),
                ),
                ..old(self).registers
            }),
            final(self).ram@ == spec_push16_data(
                old(self).ram@,
                be16(old(self).registers.sp_0, old(self).registers.sp_1),
                spec_push_value(old(self).registers, spec_interleaved_r16(instruction, true)),
            ),
            final(self).ram.spec_dma_requested() == (old(self).ram.spec_dma_requested() || be16(
                old(self).registers.sp_0,
                old(self).registers.sp_1,
            ).wrapping_sub(2) == DMA_TRIGGER_ADDRESS || be16(
                old(self).registers.sp_0,
                old(self).registers.sp_1,
            ).wrapping_sub(2).wrapping_add(1) == DMA_TRIGGER_ADDRESS),
    {
        let index = op_interleaved_r16(instruction, true);
        let value = if index == 3 {
            ((self.registers.a as u16) << 8) | ((self.registers.f & 0xF0) as u16)
        } else {
            self.registers.get_r16(index)
        };

        self.stack_push_16(value);
        4
    }

    /// POP rr: the pair takes the word at SP and SP rises by two; popping
    /// into AF forces F's low nibble to zero.
    pub fn pop_r16(&mut self, instruction: u8) -> (c: u8)
        requires
            old(self).ram.wf(),
        ensures
            c == 3,
            regs_step(
                *old(self),
                *final(self),
                (if spec_interleaved_r16(instruction, true) == 3 {
                    Registers {
                        a: high_byte(
                            spec_pop16_value(
                                old(self).ram@,
                                be16(old(self).registers.sp_0, old(self).registers.sp_1),
                            ),
                        ),
                        f: low_byte(
                            spec_pop16_value(
                                old(self).ram@,
                                be16(old(self).registers.sp_0, old(self).registers.sp_1),
                            ),
                        ) & 0xF0,
                        sp_0: high_byte(
                            be16(old(self).registers.sp_0, old(self).registers.sp_1).wrapping_add(
                                2,
                            ),
                        ),
                        sp_1: low_byte(
                            be16(old(self).registers.sp_0, old(self).registers.sp_1).wrapping_add(
                                2,
                            ),
                        ),
                        ..old(self).registers
                    }
                } else {
                    Registers {
                        sp_0: high_byte(
                            be16(old(self).registers.sp_0, old(self).registers.sp_1).wrapping_add(
                                2,
                            ),
                        ),
                        sp_1: low_byte(
                            be16(old(self).registers.sp_0, old(self).registers.sp_1).wrapping_add(
                                2,
                            ),
                        ),
                        ..spec_set_r16(
                            old(self).registers,
                            spec_interleaved_r16(instruction, true),
                            spec_pop16_value(
                                old(self).ram@,
                                be16(old(self).registers.sp_0, old(self).registers.sp_1),
                            ),
                        )
                    }
                }),
            ),
    {
        proof {
            lemma_be16_roundtrip();
            crate::cpu::register::lemma_mask_literals();
            crate::cpu::instruction::lemma_field_bounds();
        }
        let index = op_interleaved_r16(instruction, true);
        let value = self.stack_pop_16();

        if index == 3 {
            proof {
                assert(value >> 8 < 256 && value & 0xFF < 256) by (bit_vector);
            }
            // the AF row: A takes the high byte, F the low byte with its
            // low nibble forced to zero
            self.registers.a = (value >> 8) as u8;
            self.registers.f = ((value & 0xFF) as u8) & 0xF0;
        } else {
            self.registers.set_r16(index, value);
        }
        3
    }
}

} // verus!
