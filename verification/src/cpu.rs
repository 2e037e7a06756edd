pub mod alu;
pub mod carry;
pub mod cb_ops;
pub mod instruction;
pub mod jumps;
pub mod loads;
pub mod register;

use vstd::prelude::*;

use crate::error::EmuError;
use crate::ram::{spec_write, Ram, DMA_TRIGGER_ADDRESS};
use register::{be16, high_byte, low_byte, Registers};

verus! {

/// The interrupt-master-enable latch.  `EI` moves it from `Off` to `ToSet`;
/// the next instruction that is not `EI` promotes `ToSet` to `Set`.
#[derive(PartialEq, Eq, Debug, Clone, Copy, Structural)]
pub enum Ime {
    Off,
    ToSet,
    On,
}

/// The CPU power states: `STOP` enters `VeryLowPower`, `HALT` enters
/// `LowPower` until an interrupt becomes pending.
#[derive(PartialEq, Eq, Debug, Clone, Copy, Structural)]
pub enum Mode {
    VeryLowPower,
    LowPower,
    NormalSpeed,
    DoubleSpeed,
}

pub struct CPU {
    pub registers: Registers,
    pub ram: Ram,
    pub ime: Ime,
    pub mode: Mode,
    pub halt_bug_active: bool,
}

/// The CPU control state (IME latch, power mode, halt-bug latch) is the same
/// on both sides.
pub open spec fn ctrl_unchanged(pre: CPU, post: CPU) -> bool {
    &&& post.ime == pre.ime
    &&& post.mode == pre.mode
    &&& post.halt_bug_active == pre.halt_bug_active
}

/// The bus carries the same bytes and the same DMA latch on both sides.
pub open spec fn ram_eq(pre: Ram, post: Ram) -> bool {
    &&& post@ == pre@
    &&& post.spec_dma_requested() == pre.spec_dma_requested()
}

/// One bus write happened between the two states: the data changed as
/// `spec_write` says and the DMA latch rose exactly on a trigger write.
pub open spec fn ram_wrote(pre: Ram, post: Ram, address: u16, value: u8) -> bool {
    &&& post@ == spec_write(pre@, address, value)
    &&& post.spec_dma_requested() == (pre.spec_dma_requested() || address == DMA_TRIGGER_ADDRESS)
}

/// An instruction step that only moves registers: memory and the control
/// state are untouched and the register file ends exactly at `regs`.
pub open spec fn regs_step(pre: CPU, post: CPU, regs: Registers) -> bool {
    &&& post.registers == regs
    &&& ram_eq(pre.ram, post.ram)
    &&& ctrl_unchanged(pre, post)
}

/// An instruction step that makes one bus write besides moving registers.
pub open spec fn mem_step(pre: CPU, post: CPU, regs: Registers, address: u16, value: u8) -> bool {
    &&& post.registers == regs
    &&& ram_wrote(pre.ram, post.ram, address, value)
    &&& ctrl_unchanged(pre, post)
}

/// Memory and the stack pointer after a 16-bit push: SP drops by two and the
/// value lands little-endian at the new SP, each byte through a bus write.
pub open spec fn spec_push16_data(ram: Seq<u8>, sp: u16, value: u16) -> Seq<u8> {
    spec_write(
        spec_write(ram, sp.wrapping_sub(2), low_byte(value)),
        sp.wrapping_sub(2).wrapping_add(1),
        high_byte(value),
    )
}

/// The 16-bit value a pop at `sp` reads: little-endian bytes at SP and SP+1.
pub open spec fn spec_pop16_value(ram: Seq<u8>, sp: u16) -> u16 {
    be16(ram[sp.wrapping_add(1) as int], ram[sp as int])
}

impl CPU {
    pub fn new() -> (r: CPU)
        ensures
            r.ram.wf(),
            r.registers == Registers::spec_zeroed(),
            forall|i: int| 0 <= i < crate::ram::RAM_SIZE ==> r.ram@[i] == 0u8,
            !r.ram.spec_dma_requested(),
            r.ime == Ime::Off,
            r.mode == Mode::NormalSpeed,
            !r.halt_bug_active,
    {
        CPU {
            registers: Registers::new(),
            ram: Ram::new(),
            ime: Ime::Off,
            mode: Mode::NormalSpeed,
            halt_bug_active: false,
        }
    }

    pub fn new_with_ram(ram: Ram) -> (r: CPU)
        ensures
            r.registers == Registers::spec_zeroed(),
            ram_eq(ram, r.ram),
            r.ime == Ime::Off,
            r.mode == Mode::NormalSpeed,
            !r.halt_bug_active,
    {
        CPU {
            registers: Registers::new(),
            ram,
            ime: Ime::Off,
            mode: Mode::NormalSpeed,
            halt_bug_active: false,
        }
    }

    /// Apply the fixed register vector a machine holds right after the boot
    /// ROM hands control to the cartridge.
    pub fn boot(&mut self)
        ensures
            final(self).registers == (Registers {
                a: 0x01u8,
                f: 0xB0u8,
                b: 0x00u8,
                c: 0x13u8,
                d: 0x00u8,
                e: 0xD8u8,
                h: 0x01u8,
                l: 0x4Du8,
                sp_0: 0xFFu8,
                sp_1: 0xFEu8,
                pc: 0x0100u16,
            }),
            ram_eq(old(self).ram, final(self).ram),
            ctrl_unchanged(*old(self), *final(self)),
    {
        self.registers.a = 0x01;
        self.registers.f = 0xB0;
        self.registers.b = 0x00;
        self.registers.c = 0x13;
        self.registers.d = 0x00;
        self.registers.e = 0xD8;
        self.registers.h = 0x01;
        self.registers.l = 0x4D;
        self.registers.sp_0 = 0xFF;
        self.registers.sp_1 = 0xFE;
        self.registers.pc = 0x0100;
    }

    /// Fetch the byte at PC and advance PC with 16-bit wrap.
    pub fn read_byte(&mut self) -> (r: u8)
        requires
            old(self).ram.wf(),
        ensures
            r == old(self).ram@[old(self).registers.pc as int],
            final(self).registers == (Registers {
                pc: old(self).registers.pc.wrapping_add(1),
                ..old(self).registers
            }),
            ram_eq(old(self).ram, final(self).ram),
            ctrl_unchanged(*old(self), *final(self)),
    {
        let data = self.ram.read(self.registers.pc);
        self.registers.pc = self.registers.pc.wrapping_add(1);

        data
    }

    /// Fetch a little-endian 16-bit immediate at PC and advance PC by two.
    pub fn read_two_bytes(&mut self) -> (r: u16)
        requires
            old(self).ram.wf(),
        ensures
            r == be16(
                old(self).ram@[old(self).registers.pc.wrapping_add(1) as int],
                old(self).ram@[old(self).registers.pc as int],
            ),
            final(self).registers == (Registers {
                pc: old(self).registers.pc.wrapping_add(2),
                ..old(self).registers
            }),
            ram_eq(old(self).ram, final(self).ram),
            ctrl_unchanged(*old(self), *final(self)),
    {
        let lo = self.ram.read(self.registers.pc);
        let hi = self.ram.read(self.registers.pc.wrapping_add(1));
        self.registers.pc = self.registers.pc.wrapping_add(2);

        ((hi as u16) << 8) | (lo as u16)
    }

    /// Push a 16-bit value: SP drops by two, the bytes land little-endian at
    /// the new SP, through bus writes.
    pub fn stack_push_16(&mut self, value: u16)
        requires
            old(self).ram.wf(),
        ensures
            final(self).ram.wf(),
            final(self).ram@ == spec_push16_data(
                old(self).ram@,
                be16(old(self).registers.sp_0, old(self).registers.sp_1),
                value,
            ),
            final(self).ram.spec_dma_requested() == (old(self).ram.spec_dma_requested() || be16(
                old(self).registers.sp_0,
                old(self).registers.sp_1,
            ).wrapping_sub(2) == DMA_TRIGGER_ADDRESS || be16(
                old(self).registers.sp_0,
                old(self).registers.sp_1,
            ).wrapping_sub(2).wrapping_add(1) == DMA_TRIGGER_ADDRESS),
            final(self).registers == (Registers {
                sp_0: high_byte(
                    be16(old(self).registers.sp_0, old(self).registers.sp_1).wrapping_sub(2),
                ),
                sp_1: low_byte(
                    be16(old(self).registers.sp_0, old(self).registers.sp_1).wrapping_sub(2),
                ),
                ..old(self).registers
            }),
            ctrl_unchanged(*old(self), *final(self)),
    {
        let lo = (value & 0xFF) as u8;
        let hi = (value >> 8) as u8;

        let mut sp = self.registers.get_sp();
        sp = sp.wrapping_sub(2);

        self.ram.write(sp, lo);
        self.ram.write(sp.wrapping_add(1), hi);

        self.registers.set_sp(sp);
    }

    /// Pop a 16-bit value: read little-endian at SP, then raise SP by two.
    pub fn stack_pop_16(&mut self) -> (r: u16)
        requires
            old(self).ram.wf(),
        ensures
            r == spec_pop16_value(
                old(self).ram@,
                be16(old(self).registers.sp_0, old(self).registers.sp_1),
            ),
            final(self).registers == (Registers {
                sp_0: high_byte(
                    be16(old(self).registers.sp_0, old(self).registers.sp_1).wrapping_add(2),
                ),
                sp_1: low_byte(
                    be16(old(self).registers.sp_0, old(self).registers.sp_1).wrapping_add(2),
                ),
                ..old(self).registers
            }),
            ram_eq(old(self).ram, final(self).ram),
            ctrl_unchanged(*old(self), *final(self)),
    {
        let mut sp = self.registers.get_sp();
        let lo = self.ram.read(sp);
        let hi = self.ram.read(sp.wrapping_add(1));
        let value = ((hi as u16) << 8) | (lo as u16);
        sp = sp.wrapping_add(2);
        self.registers.set_sp(sp);

        value
    }
}

/// SP drops by two on a push and rises by two on a pop, so a matched pair
/// leaves the stack depth unchanged.
pub proof fn lemma_sp_balance(sp: u16)
    ensures
        sp.wrapping_sub(2).wrapping_add(2) == sp,
        sp.wrapping_add(2).wrapping_sub(2) == sp,
{
}

/// A pop right after a push reads back exactly the pushed value and
/// restores SP, as long as neither pushed byte landed on the divider
/// register, whose bus write path resets it.
pub proof fn lemma_push_pop_roundtrip(ram: Seq<u8>, sp: u16, value: u16)
    requires
        ram.len() == crate::ram::RAM_SIZE,
        sp.wrapping_sub(2) != crate::ram::DIV_WRITE_ADDRESS,
        sp.wrapping_sub(2).wrapping_add(1) != crate::ram::DIV_WRITE_ADDRESS,
    ensures
        spec_pop16_value(spec_push16_data(ram, sp, value), sp.wrapping_sub(2)) == value,
        sp.wrapping_sub(2).wrapping_add(2) == sp,
{
    register::lemma_be16_roundtrip();
}

/// PUSH of a register pair then POP of the same pair: the pair reads back
/// unchanged and SP is restored; the flags are untouched because neither
/// instruction writes F for a non-AF pair.
pub proof fn lemma_push_pop_pair(ram: Seq<u8>, sp: u16, hi: u8, lo: u8)
    requires
        ram.len() == crate::ram::RAM_SIZE,
        sp.wrapping_sub(2) != crate::ram::DIV_WRITE_ADDRESS,
        sp.wrapping_sub(2).wrapping_add(1) != crate::ram::DIV_WRITE_ADDRESS,
    ensures
        high_byte(spec_pop16_value(spec_push16_data(ram, sp, be16(hi, lo)), sp.wrapping_sub(2)))
            == hi,
        low_byte(spec_pop16_value(spec_push16_data(ram, sp, be16(hi, lo)), sp.wrapping_sub(2)))
            == lo,
        sp.wrapping_sub(2).wrapping_add(2) == sp,
{
    lemma_push_pop_roundtrip(ram, sp, be16(hi, lo));
    register::lemma_be16_roundtrip();
}

/// POP AF and then PUSH AF write back, at the two popped cells, the original
/// low byte with its low nibble forced to zero and the original high byte
/// unchanged.
pub proof fn lemma_pop_af_push_af(ram: Seq<u8>, sp: u16)
    requires
        ram.len() == crate::ram::RAM_SIZE,
        sp != crate::ram::DIV_WRITE_ADDRESS,
        sp.wrapping_add(1) != crate::ram::DIV_WRITE_ADDRESS,
    ensures
        ({
            let v = spec_pop16_value(ram, sp);
            // POP AF leaves A = high byte, F = low byte & 0xF0; PUSH AF then
            // stores A over F & 0xF0 with SP back where the pop found it
            let after = spec_push16_data(
                ram,
                sp.wrapping_add(2),
                be16(high_byte(v), (low_byte(v) & 0xF0) & 0xF0),
            );
            &&& after[sp as int] == ram[sp as int] & 0xF0
            &&& after[sp.wrapping_add(1) as int] == ram[sp.wrapping_add(1) as int]
        }),
{
    register::lemma_be16_roundtrip();
    register::lemma_high_nibble_mask_clean();
    lemma_sp_balance(sp);
}

impl Registers {
    /// All cells zero, as `Registers::new` leaves them.
    pub open spec fn spec_zeroed() -> Registers {
        Registers {
            a: 0u8,
            f: 0u8,
            b: 0u8,
            c: 0u8,
            d: 0u8,
            e: 0u8,
            h: 0u8,
            l: 0u8,
            sp_0: 0u8,
            sp_1: 0u8,
            pc: 0u16,
        }
    }
}

} // verus!
