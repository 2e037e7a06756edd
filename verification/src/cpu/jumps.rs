use vstd::prelude::*;

use crate::cpu::alu::{add_signed8, spec_add_signed8};
use crate::cpu::register::{be16, high_byte, low_byte, spec_cc, Registers};
use crate::cpu::{ctrl_unchanged, ram_eq, regs_step, spec_pop16_value, spec_push16_data, CPU, Ime};
use crate::ram::DMA_TRIGGER_ADDRESS;

verus! {

/// The fixed target of RST row `value`: eight handlers 8 bytes apart from
/// address zero.
pub open spec fn spec_rst_address(value: u8) -> u16 {
    (value * 8) as u16
}

impl CPU {
    /// JP HL: jump to the address HL holds.
    pub fn jp_hl(&mut self) -> (c: u8)
        ensures
            c == 1,
            regs_step(
                *old(self),
                *final(self),
                Registers {
                    pc: be16(old(self).registers.h, old(self).registers.l),
                    ..old(self).registers
                },
            ),
    {
        let hl = self.registers.get_hl();
        self.registers.pc = hl;
        1
    }

    /// JP n16: jump to the immediate address.
    pub fn jp_n16(&mut self) -> (c: u8)
        requires
            old(self).ram.wf(),
        ensures
            c == 4,
            regs_step(
                *old(self),
                *final(self),
                Registers {
                    pc: be16(
                        old(self).ram@[old(self).registers.pc.wrapping_add(1) as int],
                        old(self).ram@[old(self).registers.pc as int],
                    ),
                    ..old(self).registers
                },
            ),
    {
        let n16 = self.read_two_bytes();
        self.registers.pc = n16;
        4
    }

    /// JP cc, n16: jump to the immediate address when the condition holds;
    /// a taken jump costs one more machine cycle.
    pub fn jp_cc_n16(&mut self, instruction: u8) -> (c: u8)
        requires
            old(self).ram.wf(),
            (instruction >> 3) & 0x07 < 4,
        ensures
            regs_step(
                *old(self),
                *final(self),
                Registers {
                    pc: (if spec_cc(old(self).registers.f, (instruction >> 3) & 0x07) {
                        be16(
                            old(self).ram@[old(self).registers.pc.wrapping_add(1) as int],
                            old(self).ram@[old(self).registers.pc as int],
                        )
                    } else {
                        old(self).registers.pc.wrapping_add(2)
                    }),
                    ..old(self).registers
                },
            ),
            c == (if spec_cc(old(self).registers.f, (instruction >> 3) & 0x07) {
                4u8
            } else {
                3u8
            }),
    {
        let n16 = self.read_two_bytes();
        if self.registers.cc((instruction >> 3) & 0x07) {
            self.registers.pc = n16;
            4
        } else {
            3
        }
    }

    /// JR e8: relative jump by a signed offset from the next instruction.
    pub fn jr_n16(&mut self) -> (c: u8)
        requires
            old(self).ram.wf(),
        ensures
            c == 3,
            regs_step(
                *old(self),
                *final(self),
                Registers {
                    pc: spec_add_signed8(
                        old(self).registers.pc.wrapping_add(1),
                        old(self).ram@[old(self).registers.pc as int],
                    ),
                    ..old(self).registers
                },
            ),
    {
        let byte = self.read_byte();
        self.handle_jr(byte);
        3
    }

    /// JR cc, e8: conditional relative jump; taken costs one more cycle.
    pub fn jr_cc_n16(&mut self, instruction: u8) -> (c: u8)
        requires
            old(self).ram.wf(),
            4 <= (instruction >> 3) & 0x07 < 8,
        ensures
            regs_step(
                *old(self),
                *final(self),
                Registers {
                    pc: (if spec_cc(
                        old(self).registers.f,
                        (((instruction >> 3) & 0x07) - 4) as u8,
                    ) {
                        spec_add_signed8(
                            old(self).registers.pc.wrapping_add(1),
                            old(self).ram@[old(self).registers.pc as int],
                        )
                    } else {
                        old(self).registers.pc.wrapping_add(1)
                    }),
                    ..old(self).registers
                },
            ),
            c == (if spec_cc(old(self).registers.f, (((instruction >> 3) & 0x07) - 4) as u8) {
                3u8
            } else {
                2u8
            }),
    {
        let byte = self.read_byte();
        let cc_offset: u8 = 4;
        if self.registers.cc(((instruction >> 3) & 0x07) - cc_offset) {
            self.handle_jr(byte);
            3
        } else {
            2
        }
    }

    /// Move PC by a byte reinterpreted as a signed offset.
    fn handle_jr(&mut self, byte: u8)
        ensures
            regs_step(
                *old(self),
                *final(self),
                Registers {
                    pc: spec_add_signed8(old(self).registers.pc, byte),
                    ..old(self).registers
                },
            ),
    {
        let new_addr = add_signed8(self.registers.pc, byte);
        self.registers.pc = new_addr;
    }

    /// CALL n16: push the return address, then jump to the immediate address.
    pub fn call_n16(&mut self) -> (c: u8)
        requires
            old(self).ram.wf(),
        ensures
            c == 6,
            final(self).ram.wf(),
            ctrl_unchanged(*old(self), *final(self)),
            final(self).registers == (Registers {
                pc: be16(
                    old(self).ram@[old(self).registers.pc.wrapping_add(1) as int],
                    old(self).ram@[old(self).registers.pc as int],
                ),
                sp_0: high_byte(
                    be16(old(self).registers.sp_0, old(self).registers.sp_1).wrapping_sub(2),
                ),
                sp_1: low_byte(
                    be16(old(self).registers.sp_0, old(self).registers.sp_1).wrapping_sub(2),
                ),
                ..old(self).registers
            }),
            final(self).ram@ == spec_push16_data(
                old(self).ram@,
                be16(old(self).registers.sp_0, old(self).registers.sp_1),
                old(self).registers.pc.wrapping_add(2),
            ),
            final(self).ram.spec_dma_requested() == (old(self).ram.spec_dma_requested() || be16(
                old(self).registers.sp_0,
                old(self).registers.sp_1,
            ).wrapping_sub(2) == DMA_TRIGGER_ADDRESS || be16(
                old(self).registers.sp_0,
                old(self).registers.sp_1,
            ).wrapping_sub(2).wrapping_add(1) == DMA_TRIGGER_ADDRESS),
    {
        let n16 = self.read_two_bytes();
        self.stack_push_16(self.registers.pc);
        self.registers.pc = n16;
        6
    }

    /// CALL cc, n16: as CALL when the condition holds, otherwise only the
    /// immediate is consumed.
    pub fn call_cc_n16(&mut self, instruction: u8) -> (c: u8)
        requires
            old(self).ram.wf(),
            (instruction >> 3) & 0x07 < 4,
        ensures
            final(self).ram.wf(),
            ctrl_unchanged(*old(self), *final(self)),
            c == (if spec_cc(old(self).registers.f, (instruction >> 3) & 0x07) {
                6u8
            } else {
                3u8
            }),
            spec_cc(old(self).registers.f, (instruction >> 3) & 0x07) ==> {
                &&& final(self).registers == (Registers {
                    pc: be16(
                        old(self).ram@[old(self).registers.pc.wrapping_add(1) as int],
                        old(self).ram@[old(self).registers.pc as int],
                    ),
                    sp_0: high_byte(
                        be16(old(self).registers.sp_0, old(self).registers.sp_1).wrapping_sub(2),
                    ),
                    sp_1: low_byte(
                        be16(old(self).registers.sp_0, old(self).registers.sp_1).wrapping_sub(2),
                    ),
                    ..old(self).registers
                })
                &&& final(self).ram@ == spec_push16_data(
                    old(self).ram@,
                    be16(old(self).registers.sp_0, old(self).registers.sp_1),
                    old(self).registers.pc.wrapping_add(2),
                )
                &&& final(self).ram.spec_dma_requested() == (old(self).ram.spec_dma_requested()
                    || be16(old(self).registers.sp_0, old(self).registers.sp_1).wrapping_sub(2)
                    == DMA_TRIGGER_ADDRESS || be16(
                    old(self).registers.sp_0,
                    old(self).registers.sp_1,
                ).wrapping_sub(2).wrapping_add(1) == DMA_TRIGGER_ADDRESS)
            },
            !spec_cc(old(self).registers.f, (instruction >> 3) & 0x07) ==> regs_step(
                *old(self),
                *final(self),
                Registers { pc: old(self).registers.pc.wrapping_add(2), ..old(self).registers },
            ),
    {
        let n16 = self.read_two_bytes();
        if self.registers.cc((instruction >> 3) & 0x07) {
            self.stack_push_16(self.registers.pc);
            self.registers.pc = n16;
            6
        } else {
            3
        }
    }

    /// RET: pop the return address into PC.
    pub fn ret(&mut self) -> (c: u8)
        requires
            old(self).ram.wf(),
        ensures
            c == 4,
            regs_step(
                *old(self),
                *final(self),
                Registers {
                    pc: spec_pop16_value(
                        old(self).ram@,
                        be16(old(self).registers.sp_0, old(self).registers.sp_1),
                    ),
                    sp_0: high_byte(
                        be16(old(self).registers.sp_0, old(self).registers.sp_1).wrapping_add(2),
                    ),
                    sp_1: low_byte(
                        be16(old(self).registers.sp_0, old(self).registers.sp_1).wrapping_add(2),
                    ),
                    ..old(self).registers
                },
            ),
    {
        let new_pc = self.stack_pop_16();
        self.registers.pc = new_pc;
        4
    }

    /// RET cc: pop the return address when the condition holds.
    pub fn ret_cc(&mut self, instruction: u8) -> (c: u8)
        requires
            old(self).ram.wf(),
            (instruction >> 3) & 0x07 < 4,
        ensures
            c == (if spec_cc(old(self).registers.f, (instruction >> 3) & 0x07) {
                5u8
            } else {
                2u8
            }),
            regs_step(
                *old(self),
                *final(self),
                (if spec_cc(old(self).registers.f, (instruction >> 3) & 0x07) {
                    Registers {
                        pc: spec_pop16_value(
                            old(self).ram@,
                            be16(old(self).registers.sp_0, old(self).registers.sp_1),
                        ),
                        sp_0: high_byte(
                            be16(old(self).registers.sp_0, old(self).registers.sp_1).wrapping_add(
                                2,
                            ),
                        ),
                        sp_1: low_byte(
                            be16(old(self).registers.sp_0, old(self).registers.sp_1).wrapping_add(
                                2,
                            ),
                        ),
                        ..old(self).registers
                    }
                } else {
                    old(self).registers
                }),
            ),
    {
        if self.registers.cc((instruction >> 3) & 0x07) {
            let new_pc = self.stack_pop_16();
            self.registers.pc = new_pc;
            5
        } else {
            2
        }
    }

    /// RETI: RET that also sets the IME latch at once, skipping the delay.
    pub fn reti(&mut self) -> (c: u8)
        requires
            old(self).ram.wf(),
        ensures
            c == 4,
            ram_eq(old(self).ram, final(self).ram),
            final(self).ime == Ime::On,
            final(self).mode == old(self).mode,
            final(self).halt_bug_active == old(self).halt_bug_active,
            final(self).registers == (Registers {
                pc: spec_pop16_value(
                    old(self).ram@,
                    be16(old(self).registers.sp_0, old(self).registers.sp_1),
                ),
                sp_0: high_byte(
                    be16(old(self).registers.sp_0, old(self).registers.sp_1).wrapping_add(2),
                ),
                sp_1: low_byte(
                    be16(old(self).registers.sp_0, old(self).registers.sp_1).wrapping_add(2),
                ),
                ..old(self).registers
            }),
    {
        let new_pc = self.stack_pop_16();
        self.registers.pc = new_pc;
        self.ime = Ime::On;
        4
    }

    /// RST: push the return address and jump to the row's fixed handler.
    pub fn rst(&mut self, instruction: u8) -> (c: u8)
        requires
            old(self).ram.wf(),
        ensures
            c == 4,
            final(self).ram.wf(),
            ctrl_unchanged(*old(self), *final(self)),
            final(self).registers == (Registers {
                pc: spec_rst_address((instruction >> 3) & 0x07),
                sp_0: high_byte(
                    be16(old(self).registers.sp_0, old(self).registers.sp_1).wrapping_sub(2),
                ),
                sp_1: low_byte(
                    be16(old(self).registers.sp_0, old(self).registers.sp_1).wrapping_sub(2),
                ),
                ..old(self).registers
            }),
            final(self).ram@ == spec_push16_data(
                old(self).ram@,
                be16(old(self).registers.sp_0, old(self).registers.sp_1),
                old(self).registers.pc,
            ),
            final(self).ram.spec_dma_requested() == (old(self).ram.spec_dma_requested() || be16(
                old(self).registers.sp_0,
                old(self).registers.sp_1,
            ).wrapping_sub(2) == DMA_TRIGGER_ADDRESS || be16(
                old(self).registers.sp_0,
                old(self).registers.sp_1,
            ).wrapping_sub(2).wrapping_add(1) == DMA_TRIGGER_ADDRESS),
    {
        proof {
            crate::cpu::instruction::lemma_field_bounds();
        }
        let addr = CPU::get_rst_address((instruction >> 3) & 0x07);
        self.stack_push_16(self.registers.pc);
        self.registers.pc = addr;
        4
    }

    /// The handler address of an RST row.
    fn get_rst_address(value: u8) -> (r: u16)
        requires
            value < 8,
        ensures
            r == spec_rst_address(value),
    {
        match value {
            0 => 0x00,
            1 => 0x08,
            2 => 0x10,
            3 => 0x18,
            4 => 0x20,
            5 => 0x28,
            6 => 0x30,
            _ => 0x38,
        }
    }
}

} // verus!
