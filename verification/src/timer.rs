use vstd::prelude::*;

use crate::ram::{Interrupt, Ram, IF_ADDRESS, RAM_SIZE};

verus! {

/// Address of the divider register.
pub const DIV_ADDRESS: u16 = 0xFF04;

/// Address of the timer counter.
pub const TIMA_ADDRESS: u16 = 0xFF05;

/// Address of the timer modulo, reloaded into TIMA on overflow.
pub const TMA_ADDRESS: u16 = 0xFF06;

/// Address of the timer control register.
pub const TAC_ADDRESS: u16 = 0xFF07;

/// Machine cycles between two DIV increments.
pub const M_CYCLES_TO_DIV_INCREMENT: u16 = 64;

/// The timer: total machine cycles seen, and the cycles accumulated towards
/// the next DIV and TIMA increments.
pub struct Timer {
    pub cycles: u128,
    pub cycles_since_div: u16,
    pub cycles_since_tima: u16,
}

/// The TIMA period selected by the low two bits of TAC, in machine cycles.
pub open spec fn spec_tima_period(tac: u8) -> u16 {
    let bits = tac & 0x03;
    if bits == 0 {
        256
    } else if bits == 1 {
        4
    } else if bits == 2 {
        16
    } else {
        64
    }
}

/// Bit 2 of TAC gates the TIMA counter.
pub open spec fn spec_timer_enabled(tac: u8) -> bool {
    tac & 0x04 != 0
}

/// Memory after the DIV part of a tick: DIV gains one (with wrap) when the
/// divider cadence was reached.
pub open spec fn spec_div_data(data: Seq<u8>, bump: bool) -> Seq<u8> {
    if bump {
        data.update(DIV_ADDRESS as int, data[DIV_ADDRESS as int].wrapping_add(1))
    } else {
        data
    }
}

/// Memory after one TIMA increment: the counter gains one, except that on
/// overflow it reloads from TMA and the timer interrupt is requested in IF.
pub open spec fn spec_tima_tick(data: Seq<u8>) -> Seq<u8> {
    let t = data[TIMA_ADDRESS as int];
    if t == 0xFF {
        data.update(TIMA_ADDRESS as int, data[TMA_ADDRESS as int]).update(
            IF_ADDRESS as int,
            data[IF_ADDRESS as int] | 0x04,
        )
    } else {
        data.update(TIMA_ADDRESS as int, (t + 1) as u8)
    }
}

/// Memory after `k` TIMA increments.
pub open spec fn spec_tima_ticks(data: Seq<u8>, k: nat) -> Seq<u8>
    decreases k,
{
    if k == 0 {
        data
    } else {
        spec_tima_tick(spec_tima_ticks(data, (k - 1) as nat))
    }
}

/// TIMA overflows exactly every `(0x100 - TMA) × period` machine cycles
/// while enabled: starting from a reload point, fewer than `0x100 - TMA`
/// increments (each worth one period of machine cycles) neither overflow nor
/// request the interrupt, and TIMA counts up from TMA one by one.
pub proof fn lemma_tima_overflow_cadence(data: Seq<u8>, k: nat)
    requires
        data.len() == RAM_SIZE,
        data[TIMA_ADDRESS as int] == data[TMA_ADDRESS as int],
        k < 0x100 - data[TMA_ADDRESS as int],
    ensures
        spec_tima_ticks(data, k).len() == RAM_SIZE,
        spec_tima_ticks(data, k)[TIMA_ADDRESS as int] == data[TMA_ADDRESS as int] + k,
        spec_tima_ticks(data, k)[TMA_ADDRESS as int] == data[TMA_ADDRESS as int],
        spec_tima_ticks(data, k)[IF_ADDRESS as int] == data[IF_ADDRESS as int],
    decreases k,
{
    if k > 0 {
        lemma_tima_overflow_cadence(data, (k - 1) as nat);
    }
}

/// At exactly the `(0x100 - TMA)`-th increment — that is, after exactly
/// `(0x100 - TMA) × period` machine cycles from a reload point — TIMA
/// overflows: it reloads to TMA and the timer interrupt bit rises in IF.
pub proof fn lemma_tima_overflow_at_period(data: Seq<u8>, k: nat)
    requires
        data.len() == RAM_SIZE,
        data[TIMA_ADDRESS as int] == data[TMA_ADDRESS as int],
        k == 0x100 - data[TMA_ADDRESS as int],
    ensures
        spec_tima_ticks(data, k)[TIMA_ADDRESS as int] == data[TMA_ADDRESS as int],
        spec_tima_ticks(data, k)[IF_ADDRESS as int] == data[IF_ADDRESS as int] | 0x04,
{
    lemma_tima_overflow_cadence(data, (k - 1) as nat);
}

/// TIMA increments touch only the TIMA and IF cells.
pub proof fn lemma_tima_ticks_preserve_others(data: Seq<u8>, k: nat, addr: int)
    requires
        data.len() == RAM_SIZE,
        0 <= addr < RAM_SIZE,
        addr != TIMA_ADDRESS as int,
        addr != IF_ADDRESS as int,
    ensures
        spec_tima_ticks(data, k).len() == data.len(),
        spec_tima_ticks(data, k)[addr] == data[addr],
    decreases k,
{
    if k > 0 {
        lemma_tima_ticks_preserve_others(data, (k - 1) as nat, addr);
    }
}

/// One call of the timer: the total cycle count and the DIV accumulator
/// move by the given cycles (DIV itself gains one when its cadence is
/// reached); while TAC enables it, TIMA accumulates and gains one per
/// elapsed period, each overflow reloading from TMA and raising the timer
/// interrupt.
pub open spec fn spec_timer_tick_effect(
    pre: Timer,
    post: Timer,
    pre_ram: Ram,
    post_ram: Ram,
    cycle_count: u8,
) -> bool {
    &&& post.wf()
    &&& post_ram.wf()
    &&& post_ram.spec_dma_requested() == pre_ram.spec_dma_requested()
    &&& post.cycles == pre.cycles.wrapping_add(cycle_count as u128)
    &&& post.cycles_since_div == (if pre.cycles_since_div + cycle_count >= 64 {
        pre.cycles_since_div + cycle_count - 64
    } else {
        pre.cycles_since_div + cycle_count
    })
    &&& (!spec_timer_enabled(pre_ram@[TAC_ADDRESS as int]) ==> {
        &&& post.cycles_since_tima == pre.cycles_since_tima
        &&& post_ram@ == spec_div_data(pre_ram@, pre.cycles_since_div + cycle_count >= 64)
    })
    &&& (spec_timer_enabled(pre_ram@[TAC_ADDRESS as int]) ==> (exists|k: nat|
        {
            &&& pre.cycles_since_tima + cycle_count == #[trigger] (k * spec_tima_period(
                pre_ram@[TAC_ADDRESS as int],
            )) + post.cycles_since_tima
            &&& post.cycles_since_tima < spec_tima_period(pre_ram@[TAC_ADDRESS as int])
            &&& post_ram@ == spec_tima_ticks(
                spec_div_data(pre_ram@, pre.cycles_since_div + cycle_count >= 64),
                k,
            )
        }))
}

impl Timer {
    /// The accumulation counters stay below one DIV period and one maximal
    /// TIMA period.
    pub open spec fn wf(&self) -> bool {
        &&& self.cycles_since_div < 64
        &&& self.cycles_since_tima < 256
    }

    pub fn new() -> (r: Timer)
        ensures
            r.cycles == 0,
            r.cycles_since_div == 0,
            r.cycles_since_tima == 0,
            r.wf(),
    {
        Timer { cycles: 0, cycles_since_div: 0, cycles_since_tima: 0 }
    }

    /// Bit 2 of TAC gates the TIMA counter.
    pub fn enabled(ram: &Ram) -> (r: bool)
        requires
            ram.wf(),
        ensures
            r == spec_timer_enabled(ram@[TAC_ADDRESS as int]),
    {
        (ram.read(TAC_ADDRESS) & 0b0000_0100) != 0
    }

    /// The TIMA period selected by the low two bits of TAC.
    pub fn cycles_to_tma(ram: &Ram) -> (r: u16)
        requires
            ram.wf(),
        ensures
            r == spec_tima_period(ram@[TAC_ADDRESS as int]),
    {
        let tac = ram.read(TAC_ADDRESS);
        let control_bits = tac & 0b0000_0011;

        match control_bits {
            0b00 => 256,
            0b01 => 4,
            0b10 => 16,
            _ => 64,
        }
    }

    /// Advance the timer by the machine cycles one instruction consumed.
    /// DIV gains one every 64 machine cycles.  While TAC enables it, TIMA
    /// gains one every period; each overflow reloads TIMA from TMA and
    /// requests the timer interrupt.
    pub fn increment_cycle(&mut self, ram: &mut Ram, cycle_count: u8)
        requires
            old(self).wf(),
            old(ram).wf(),
            1 <= cycle_count <= 11,
        ensures
            spec_timer_tick_effect(*old(self), *final(self), *old(ram), *final(ram), cycle_count),
    {
        self.cycles = self.cycles.wrapping_add(cycle_count as u128);

        self.cycles_since_div = self.cycles_since_div + (cycle_count as u16);

        // DIV always increments at its own cadence; the timer's update does
        // not pass through the CPU write path, which would reset DIV
        if self.cycles_since_div >= M_CYCLES_TO_DIV_INCREMENT {
            ram.tick_div();
            self.cycles_since_div = self.cycles_since_div - M_CYCLES_TO_DIV_INCREMENT;
        }

        // TIMA counts only while TAC enables it
        if Timer::enabled(ram) {
            self.cycles_since_tima = self.cycles_since_tima + (cycle_count as u16);
            let cycles_to_tma = Timer::cycles_to_tma(ram);

            let ghost base = ram@;
            let ghost held_cycles = self.cycles;
            let ghost held_div = self.cycles_since_div;
            let ghost start_cst = self.cycles_since_tima;
            let ghost mut k: nat = 0nat;

            while self.cycles_since_tima >= cycles_to_tma
                invariant
                    ram.wf(),
                    base.len() == crate::ram::RAM_SIZE,
                    ram.spec_dma_requested() == old(ram).spec_dma_requested(),
                    self.cycles == held_cycles,
                    self.cycles_since_div == held_div,
                    cycles_to_tma == spec_tima_period(base[TAC_ADDRESS as int]),
                    cycles_to_tma >= 4,
                    base[TAC_ADDRESS as int] == ram@[TAC_ADDRESS as int],
                    start_cst == k * cycles_to_tma + self.cycles_since_tima,
                    ram@ == spec_tima_ticks(base, k),
                decreases self.cycles_since_tima,
            {
                self.cycles_since_tima = self.cycles_since_tima - cycles_to_tma;

                let t = ram.read(TIMA_ADDRESS);
                if t == 0xFF {
                    // overflow: reload from TMA and raise the interrupt
                    let tma = ram.read(TMA_ADDRESS);
                    ram.write(TIMA_ADDRESS, tma);
                    ram.request_interrupt(Interrupt::Timer);
                } else {
                    ram.write(TIMA_ADDRESS, t + 1);
                }

                proof {
                    k = k + 1nat;
                }
            }

            proof {
                assert(old(self).cycles_since_tima + cycle_count == k * spec_tima_period(
                    old(ram)@[TAC_ADDRESS as int],
                ) + self.cycles_since_tima);
                assert(ram@ == spec_tima_ticks(
                    spec_div_data(old(ram)@, old(self).cycles_since_div + cycle_count >= 64),
                    k,
                ));
            }
        }
    }
}

} // verus!
