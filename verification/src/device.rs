use vstd::prelude::*;

use crate::cpu::instruction::{
    spec_execute_effect, spec_kind_base, spec_will_fetch, OpKind,
};
use crate::cpu::CPU;
use crate::dma::{spec_dma_tick_effect, DMA};
use crate::error::EmuError;
use crate::lcd::LY_ADDRESS;
use crate::ppu::{spec_ppu_dots, PPU};
use crate::ram::Ram;
use crate::timer::{spec_timer_tick_effect, Timer};
use crate::tlu::{tlu_data_matches, TLUData, TLU};

verus! {

/// Machine cycles per frame: one sixtieth of the machine's cycle rate.
pub const M_CYCLES_PER_FRAME: u64 = 17556;

/// One frame handed to the presenter.
#[derive(Debug)]
pub struct ImageData {
    pub tlu_data: TLUData,
}

/// The whole machine: CPU and bus, picture processor, tile render unit, DMA
/// engine and timer, advanced in lockstep, plus the cycle counter that gates
/// frames.
pub struct Device {
    pub cpu: CPU,
    pub ppu: PPU,
    pub tlu: TLU,
    pub dma: DMA,
    pub timer: Timer,
    pub frame_counter: u64,
}

impl Device {
    /// Every subsystem's internal bounds hold and a frame is never overdue.
    pub open spec fn wf(&self) -> bool {
        &&& self.cpu.ram.wf()
        &&& self.ppu.wf()
        &&& self.dma.wf()
        &&& self.timer.wf()
        &&& self.frame_counter < M_CYCLES_PER_FRAME
    }

    pub fn new() -> (r: Device)
        ensures
            r.wf(),
            r.frame_counter == 0,
            forall|i: int| 0 <= i < crate::ram::RAM_SIZE ==> r.cpu.ram@[i] == 0u8,
            !r.cpu.ram.spec_dma_requested(),
    {
        Device {
            cpu: CPU::new(),
            ppu: PPU::new(),
            tlu: TLU {  },
            dma: DMA::new(),
            timer: Timer::new(),
            frame_counter: 0,
        }
    }

    /// Load a ROM image and apply the post-boot register vector.  An image
    /// larger than the address space is refused and the machine is left as
    /// it was, except that the registers already hold the boot vector.
    pub fn load(&mut self, rom: &[u8]) -> (r: Result<(), EmuError>)
        requires
            old(self).wf(),
        ensures
            final(self).wf(),
            r is Ok <==> rom@.len() <= crate::ram::RAM_SIZE,
            r is Ok ==> {
                &&& forall|i: int| 0 <= i < rom@.len() ==> final(self).cpu.ram@[i] == rom@[i]
                &&& forall|i: int|
                    rom@.len() <= i < crate::ram::RAM_SIZE ==> final(self).cpu.ram@[i] == old(
                        self,
                    ).cpu.ram@[i]
            },
            r is Err ==> final(self).cpu.ram@ == old(self).cpu.ram@,
            final(self).cpu.registers == (crate::cpu::register::Registers {
                a: 0x01u8,
                f: 0xB0u8,
                b: 0x00u8,
                c: 0x13u8,
                d: 0x00u8,
                e: 0xD8u8,
                h: 0x01u8,
                l: 0x4Du8,
                sp_0: 0xFFu8,
                sp_1: 0xFEu8,
                pc: 0x0100u16,
            }),
    {
        // the register vector a real machine holds after its boot ROM ran
        self.cpu.boot();

        self.cpu.ram.load_rom(rom)
    }

    /// Advance the machine by one CPU instruction: run it, then move the DMA
    /// engine, the picture processor and the timer by the cycles it took.
    /// Once enough cycles for a frame have passed, snapshot the tile render
    /// unit and hand the frame out.
    #[verifier::rlimit(50)]
    #[verifier::spinoff_prover]
    pub fn tick(&mut self) -> (r: Result<Option<ImageData>, EmuError>)
        requires
            old(self).wf(),
        ensures
            final(self).wf(),
            r is Err <==> (spec_will_fetch(old(self).cpu) && old(self).cpu.ram@[old(
                self,
            ).cpu.registers.pc as int] != 0xCB && spec_kind_base(
                old(self).cpu.ram@[old(self).cpu.registers.pc as int],
            ) == OpKind::Illegal),
            old(self).cpu.registers.f & 0x0F == 0 ==> final(self).cpu.registers.f & 0x0F == 0,
            r is Ok ==> final(self).cpu.ram@[LY_ADDRESS as int]
                == final(self).ppu.current_scanline,
            r is Ok && r->Ok_0 is Some ==> tlu_data_matches(
                final(self).cpu.ram@,
                r->Ok_0->Some_0.tlu_data,
            ),
            r is Ok ==> (exists|cpu_mid: CPU, m: u8, ram_after_dma: Ram, ram_after_ppu: Ram|
                #![trigger spec_execute_effect(old(self).cpu, cpu_mid, Result::<u8, EmuError>::Ok(m)), spec_dma_tick_effect(old(self).dma, final(self).dma, cpu_mid.ram, ram_after_dma, m as u16), spec_timer_tick_effect(old(self).timer, final(self).timer, ram_after_ppu, final(self).cpu.ram, m)]
                {
                    &&& spec_execute_effect(
                        old(self).cpu,
                        cpu_mid,
                        Result::<u8, EmuError>::Ok(m),
                    )
                    &&& 1 <= m <= 11
                    &&& spec_dma_tick_effect(
                        old(self).dma,
                        final(self).dma,
                        cpu_mid.ram,
                        ram_after_dma,
                        m as u16,
                    )
                    &&& final(self).ppu.with_ram(ram_after_ppu@) == spec_ppu_dots(
                        old(self).ppu.with_ram(ram_after_dma@),
                        (4 * m) as nat,
                    )
                    &&& ram_after_ppu.spec_dma_requested() == ram_after_dma.spec_dma_requested()
                    &&& spec_timer_tick_effect(
                        old(self).timer,
                        final(self).timer,
                        ram_after_ppu,
                        final(self).cpu.ram,
                        m,
                    )
                    &&& final(self).cpu.registers == cpu_mid.registers
                    &&& final(self).cpu.ime == cpu_mid.ime
                    &&& final(self).cpu.mode == cpu_mid.mode
                    &&& final(self).cpu.halt_bug_active == cpu_mid.halt_bug_active
                    &&& final(self).frame_counter == (
                    if old(self).frame_counter + m >= M_CYCLES_PER_FRAME {
                        old(self).frame_counter + m - M_CYCLES_PER_FRAME
                    } else {
                        old(self).frame_counter + m
                    })
                    &&& (r->Ok_0 is Some <==> old(self).frame_counter + m
                        >= M_CYCLES_PER_FRAME)
                }),
    {
        let m_cycles = match self.cpu.execute() {
            Ok(c) => c,
            Err(e) => {
                return Err(e);
            },
        };
        let ghost cpu_mid = self.cpu;

        self.dma.tick_transfer(&mut self.cpu.ram, m_cycles as u16);
        let ghost ram_after_dma = self.cpu.ram;

        self.ppu.tick(m_cycles, &mut self.cpu.ram);

        let ghost ram_after_ppu = self.cpu.ram;
        self.timer.increment_cycle(&mut self.cpu.ram, m_cycles);

        proof {
            // the timer only moves DIV, TIMA and IF, so the LY mirror the
            // PPU just wrote survives it
            if crate::timer::spec_timer_enabled(
                ram_after_ppu@[crate::timer::TAC_ADDRESS as int],
            ) {
                let div_bumped = (old(self).timer.cycles_since_div + m_cycles >= 64);
                let k = choose|k: nat|
                    self.cpu.ram@ == #[trigger] crate::timer::spec_tima_ticks(
                        crate::timer::spec_div_data(ram_after_ppu@, div_bumped),
                        k,
                    );
                crate::timer::lemma_tima_ticks_preserve_others(
                    crate::timer::spec_div_data(ram_after_ppu@, div_bumped),
                    k,
                    LY_ADDRESS as int,
                );
            }

        }

        // a frame is due every 17556 machine cycles (70224 dots)
        self.frame_counter = self.frame_counter + (m_cycles as u64);
        if self.frame_counter >= M_CYCLES_PER_FRAME {
            self.frame_counter = self.frame_counter - M_CYCLES_PER_FRAME;
            let tlu_data = self.tlu.update(&self.cpu.ram);
            proof {
                // the ghost snapshots witness the composed step, stage by
                // stage, phrased over the state being returned
                assert(spec_execute_effect(
                    old(self).cpu,
                    cpu_mid,
                    Result::<u8, EmuError>::Ok(m_cycles),
                ));
                assert(spec_dma_tick_effect(
                    old(self).dma,
                    self.dma,
                    cpu_mid.ram,
                    ram_after_dma,
                    m_cycles as u16,
                ));
                assert(self.ppu.with_ram(ram_after_ppu@) == spec_ppu_dots(
                    old(self).ppu.with_ram(ram_after_dma@),
                    (4 * m_cycles) as nat,
                ));
                assert(spec_timer_tick_effect(
                    old(self).timer,
                    self.timer,
                    ram_after_ppu,
                    self.cpu.ram,
                    m_cycles,
                ));
            }
            Ok(Some(ImageData { tlu_data }))
        } else {
            proof {
                // the ghost snapshots witness the composed step, stage by
                // stage, phrased over the state being returned
                assert(spec_execute_effect(
                    old(self).cpu,
                    cpu_mid,
                    Result::<u8, EmuError>::Ok(m_cycles),
                ));
                assert(spec_dma_tick_effect(
                    old(self).dma,
                    self.dma,
                    cpu_mid.ram,
                    ram_after_dma,
                    m_cycles as u16,
                ));
                assert(self.ppu.with_ram(ram_after_ppu@) == spec_ppu_dots(
                    old(self).ppu.with_ram(ram_after_dma@),
                    (4 * m_cycles) as nat,
                ));
                assert(spec_timer_tick_effect(
                    old(self).timer,
                    self.timer,
                    ram_after_ppu,
                    self.cpu.ram,
                    m_cycles,
                ));
            }
            Ok(None)
        }
    }
}

} // verus!
