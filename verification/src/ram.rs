use vstd::prelude::*;

use crate::error::EmuError;

verus! {

/// Size of the flat 16-bit address space.
pub const RAM_SIZE: usize = 65536;

/// Address of the interrupt-flags register (IF).
pub const IF_ADDRESS: u16 = 0xFF0F;

/// Address of the interrupt-enable register (IE).
pub const IE_ADDRESS: u16 = 0xFFFF;

/// Address of the divider register; a CPU write through the bus resets it.
pub const DIV_WRITE_ADDRESS: u16 = 0xFF04;

/// Address of the DMA trigger register; a write starts an OAM DMA transfer.
pub const DMA_TRIGGER_ADDRESS: u16 = 0xFF46;

/// The five interrupt sources, listed from highest to lowest priority.
#[derive(PartialEq, Eq, PartialOrd, Ord, Copy, Clone, Debug, Structural)]
pub enum Interrupt {
    VBlank,
    Stat,
    Timer,
    Serial,
    Joypad,
}

/// The bit that carries the given interrupt inside IE and IF.
pub open spec fn interrupt_mask(i: Interrupt) -> u8 {
    match i {
        Interrupt::VBlank => 0x01,
        Interrupt::Stat => 0x02,
        Interrupt::Timer => 0x04,
        Interrupt::Serial => 0x08,
        Interrupt::Joypad => 0x10,
    }
}

/// The fixed handler address the CPU jumps to when servicing an interrupt.
pub open spec fn spec_handler_address(i: Interrupt) -> u16 {
    match i {
        Interrupt::VBlank => 0x40,
        Interrupt::Stat => 0x48,
        Interrupt::Timer => 0x50,
        Interrupt::Serial => 0x58,
        Interrupt::Joypad => 0x60,
    }
}

impl Interrupt {
    pub fn handler_address(&self) -> (r: u16)
        ensures
            r == spec_handler_address(*self),
    {
        match self {
            Interrupt::VBlank => 0x40,
            Interrupt::Stat => 0x48,
            Interrupt::Timer => 0x50,
            Interrupt::Serial => 0x58,
            Interrupt::Joypad => 0x60,
        }
    }

    /// The IE/IF bit of this interrupt, as a mask.
    pub fn mask(&self) -> (r: u8)
        ensures
            r == interrupt_mask(*self),
    {
        match self {
            Interrupt::VBlank => 0x01,
            Interrupt::Stat => 0x02,
            Interrupt::Timer => 0x04,
            Interrupt::Serial => 0x08,
            Interrupt::Joypad => 0x10,
        }
    }
}

/// True when the given interrupt is both enabled in IE and requested in IF.
pub open spec fn interrupt_pending(data: Seq<u8>, i: Interrupt) -> bool {
    data[IE_ADDRESS as int] & interrupt_mask(i) != 0 && data[IF_ADDRESS as int] & interrupt_mask(i)
        != 0
}

/// The highest-priority interrupt that is both enabled and requested.
pub open spec fn spec_pending_interrupt(data: Seq<u8>) -> Option<Interrupt> {
    if interrupt_pending(data, Interrupt::VBlank) {
        Some(Interrupt::VBlank)
    } else if interrupt_pending(data, Interrupt::Stat) {
        Some(Interrupt::Stat)
    } else if interrupt_pending(data, Interrupt::Timer) {
        Some(Interrupt::Timer)
    } else if interrupt_pending(data, Interrupt::Serial) {
        Some(Interrupt::Serial)
    } else if interrupt_pending(data, Interrupt::Joypad) {
        Some(Interrupt::Joypad)
    } else {
        None
    }
}

/// What a bus write leaves in memory: a write to the DIV address resets that
/// cell to zero, every other write stores the value at its address.
pub open spec fn spec_write(data: Seq<u8>, address: u16, value: u8) -> Seq<u8> {
    if address == DIV_WRITE_ADDRESS {
        data.update(address as int, 0u8)
    } else {
        data.update(address as int, value)
    }
}

/// The 64 KiB bus: a flat byte array plus the private DMA-request latch that
/// a write to the DMA trigger register sets.
pub struct Ram {
    data: Vec<u8>,
    dma_flag: bool,
}

impl View for Ram {
    type V = Seq<u8>;

    closed spec fn view(&self) -> Seq<u8> {
        self.data@
    }
}

impl Ram {
    /// The whole address space is present.
    pub open spec fn wf(&self) -> bool {
        self@.len() == RAM_SIZE
    }

    /// The private "DMA transfer requested" latch.
    pub closed spec fn spec_dma_requested(&self) -> bool {
        self.dma_flag
    }

    pub fn new() -> (r: Ram)
        ensures
            r.wf(),
            forall|i: int| 0 <= i < RAM_SIZE ==> r@[i] == 0u8,
            !r.spec_dma_requested(),
    {
        Ram { data: vec![0u8; RAM_SIZE], dma_flag: false }
    }

    /// The CPU-visible read.
    pub fn read(&self, address: u16) -> (r: u8)
        requires
            self.wf(),
        ensures
            r == self@[address as int],
    {
        self.data[address as usize]
    }

    /// The read that internal subsystems (the PPU, the DMA engine itself) use;
    /// it sees through any DMA gating of the CPU's view.
    pub fn unblocked_read(&self, address: u16) -> (r: u8)
        requires
            self.wf(),
        ensures
            r == self@[address as int],
    {
        self.data[address as usize]
    }

    /// A bus write with its side effects: a write to the DMA trigger register
    /// latches a transfer request, and a write to DIV resets DIV to zero.
    pub fn write(&mut self, address: u16, value: u8)
        requires
            old(self).wf(),
        ensures
            final(self).wf(),
            final(self)@ == spec_write(old(self)@, address, value),
            final(self).spec_dma_requested() == (old(self).spec_dma_requested() || address
                == DMA_TRIGGER_ADDRESS),
    {
        if address == DIV_WRITE_ADDRESS {
            self.data[address as usize] = 0;
        } else {
            self.data[address as usize] = value;
        }

        if address == DMA_TRIGGER_ADDRESS {
            self.dma_flag = true;
        }
    }

    /// Copy a ROM image to the bottom of the address space.  An image larger
    /// than the address space is rejected and nothing changes.
    pub fn load_rom(&mut self, rom: &[u8]) -> (r: Result<(), EmuError>)
        requires
            old(self).wf(),
        ensures
            final(self).wf(),
            final(self).spec_dma_requested() == old(self).spec_dma_requested(),
            r is Ok <==> rom@.len() <= RAM_SIZE,
            r is Ok ==> {
                &&& forall|i: int| 0 <= i < rom@.len() ==> final(self)@[i] == rom@[i]
                &&& forall|i: int|
                    rom@.len() <= i < RAM_SIZE ==> final(self)@[i] == old(self)@[i]
            },
            r is Err ==> final(self)@ == old(self)@,
    {
        if rom.len() > RAM_SIZE {
            return Err(EmuError::RomTooLarge);
        }

        let mut i: usize = 0;
        while i < rom.len()
            invariant
                i <= rom@.len(),
                rom@.len() <= RAM_SIZE,
                self.wf(),
                self.spec_dma_requested() == old(self).spec_dma_requested(),
                forall|j: int| 0 <= j < i ==> self@[j] == rom@[j],
                forall|j: int| i <= j < RAM_SIZE ==> self@[j] == old(self)@[j],
            decreases rom@.len() - i,
        {
            self.data[i] = rom[i];
            i += 1;
        }

        Ok(())
    }

    /// The timer's own increment of the divider register.  Unlike a CPU
    /// write through `write`, which resets DIV, this moves the counter on.
    pub fn tick_div(&mut self)
        requires
            old(self).wf(),
        ensures
            final(self).wf(),
            final(self)@ == old(self)@.update(
                DIV_WRITE_ADDRESS as int,
                old(self)@[DIV_WRITE_ADDRESS as int].wrapping_add(1),
            ),
            final(self).spec_dma_requested() == old(self).spec_dma_requested(),
    {
        let v = self.data[DIV_WRITE_ADDRESS as usize];
        self.data[DIV_WRITE_ADDRESS as usize] = v.wrapping_add(1);
    }

    /// True when any bit of IE is set.
    pub fn interrupts_enabled(&self) -> (r: bool)
        requires
            self.wf(),
        ensures
            r == (self@[IE_ADDRESS as int] > 0),
    {
        self.data[IE_ADDRESS as usize] > 0
    }

    /// The highest-priority interrupt that is both enabled and requested,
    /// in the order VBlank, STAT, Timer, Serial, Joypad.
    pub fn pending_interrupt(&self) -> (r: Option<Interrupt>)
        requires
            self.wf(),
        ensures
            r == spec_pending_interrupt(self@),
    {
        let ie = self.data[IE_ADDRESS as usize];
        let iflags = self.data[IF_ADDRESS as usize];

        if ie & 0x01 != 0 && iflags & 0x01 != 0 {
            Some(Interrupt::VBlank)
        } else if ie & 0x02 != 0 && iflags & 0x02 != 0 {
            Some(Interrupt::Stat)
        } else if ie & 0x04 != 0 && iflags & 0x04 != 0 {
            Some(Interrupt::Timer)
        } else if ie & 0x08 != 0 && iflags & 0x08 != 0 {
            Some(Interrupt::Serial)
        } else if ie & 0x10 != 0 && iflags & 0x10 != 0 {
            Some(Interrupt::Joypad)
        } else {
            None
        }
    }

    /// Set the interrupt's bit in IF.
    pub fn request_interrupt(&mut self, interrupt: Interrupt)
        requires
            old(self).wf(),
        ensures
            final(self).wf(),
            final(self)@ == old(self)@.update(
                IF_ADDRESS as int,
                old(self)@[IF_ADDRESS as int] | interrupt_mask(interrupt),
            ),
            final(self).spec_dma_requested() == old(self).spec_dma_requested(),
    {
        let mask = interrupt.mask();
        let updated = self.data[IF_ADDRESS as usize] | mask;
        self.data[IF_ADDRESS as usize] = updated;
    }

    /// Clear the interrupt's bit in IF.
    pub fn clear_interrupt(&mut self, interrupt: Interrupt)
        requires
            old(self).wf(),
        ensures
            final(self).wf(),
            final(self)@ == old(self)@.update(
                IF_ADDRESS as int,
                old(self)@[IF_ADDRESS as int] & !interrupt_mask(interrupt),
            ),
            final(self).spec_dma_requested() == old(self).spec_dma_requested(),
    {
        let mask = interrupt.mask();
        let updated = self.data[IF_ADDRESS as usize] & !mask;
        self.data[IF_ADDRESS as usize] = updated;
    }

    /// True while a DMA transfer request is latched.
    pub fn dma_requested(&self) -> (r: bool)
        ensures
            r == self.spec_dma_requested(),
    {
        self.dma_flag
    }

    /// Drop the DMA request latch; the engine calls this when a transfer ends.
    pub fn clear_dma_request(&mut self)
        ensures
            final(self)@ == old(self)@,
            !final(self).spec_dma_requested(),
    {
        self.dma_flag = false;
    }
}

/// Loads test fixtures straight into memory, bypassing write side effects.
/// Only tests should use it.
pub trait TestRamOperations {
    fn test_load(&mut self, location: u16, data: Vec<u8>)
        requires
            old(self).ram_for_test().len() == RAM_SIZE,
            location as int + data@.len() <= RAM_SIZE,
        ensures
            final(self).ram_for_test().len() == RAM_SIZE,
            forall|i: int|
                0 <= i < data@.len() ==> final(self).ram_for_test()[location as int + i]
                    == data@[i],
            forall|i: int|
                0 <= i < RAM_SIZE && !(location as int <= i < location as int + data@.len())
                    ==> final(self).ram_for_test()[i] == old(self).ram_for_test()[i],
    ;

    spec fn ram_for_test(&self) -> Seq<u8>;
}

impl TestRamOperations for Ram {
    open spec fn ram_for_test(&self) -> Seq<u8> {
        self@
    }

    fn test_load(&mut self, location: u16, data: Vec<u8>) {
        let mut i: usize = 0;
        let start = location as usize;
        while i < data.len()
            invariant
                i <= data@.len(),
                start == location as usize,
                start + data@.len() <= RAM_SIZE,
                self.wf(),
                forall|j: int| 0 <= j < i ==> self@[start + j] == data@[j],
                forall|j: int|
                    0 <= j < RAM_SIZE && !(start <= j < start + i) ==> self@[j] == old(self)@[j],
            decreases data@.len() - i,
        {
            self.data[start + i] = data[i];
            i += 1;
        }
    }
}

} // verus!
