use vstd::prelude::*;

use crate::lcd::{LCDControl, LCDC_ADDRESS, LYC_ADDRESS, LY_ADDRESS, STAT_ADDRESS};
use crate::ram::{Interrupt, Ram, IF_ADDRESS, RAM_SIZE};

verus! {

/// Dots in one scanline.
pub const DOTS_PER_SCAN_LINE: u16 = 456;

/// Scanlines in one frame, the vertical blank included.
pub const TOTAL_SCAN_LINES: u8 = 154;

/// The dot at which a visible scanline leaves the OAM scan.
pub const OAM_SCAN_END_DOT: u16 = 80;

/// The first scanline of the vertical blank.
pub const INTERRUPT_SCANLINE: u8 = 144;

/// The PPU's four states, as the low two bits of STAT report them.
#[derive(Debug, PartialEq, Eq, Clone, Copy, Structural)]
pub enum PPUMode {
    OAMScan,
    DrawingPixels,
    HorizontalBlank,
    VerticalBlank,
}

/// The two STAT bits that report each state.
pub open spec fn mode_bits(m: PPUMode) -> u8 {
    match m {
        PPUMode::OAMScan => 2,
        PPUMode::DrawingPixels => 3,
        PPUMode::HorizontalBlank => 0,
        PPUMode::VerticalBlank => 1,
    }
}

/// The scanline-based picture processor: the current scanline and dot, the
/// state of the per-scanline machine, and the level the STAT interrupt line
/// held after the last dot, so that the interrupt fires on rising edges only.
pub struct PPU {
    pub current_scanline: u8,
    pub current_scanline_dot: u16,
    pub mode: PPUMode,
    pub stat_line: bool,
}

/// The PPU's state together with the bus bytes, for the per-dot transition:
/// scanline, dot, mode, STAT line level, memory.
pub type PpuState = (u8, u16, PPUMode, bool, Seq<u8>);

/// The level of the STAT interrupt line and the memory after the STAT
/// register is recomputed: the low two bits report the mode (zero while the
/// LCD is off), bit 2 compares LY with LYC, the upper five bits stay; the
/// line is the OR of the sources the old STAT byte enabled.
pub open spec fn spec_handle_stat(mode: PPUMode, data: Seq<u8>) -> (bool, Seq<u8>) {
    let ly = data[LY_ADDRESS as int];
    let lyc = data[LYC_ADDRESS as int];
    let prev_status = data[STAT_ADDRESS as int];
    let lyc_bit: u8 = if ly == lyc {
        1
    } else {
        0
    };
    let ppu_mode_bits: u8 = if data[LCDC_ADDRESS as int] & 0x80 == 0 {
        0
    } else {
        mode_bits(mode)
    };
    let new_status = (prev_status & 0xF8) | (lyc_bit << 2) | ppu_mode_bits;
    let line = (prev_status & 0x40 > 0 && ly == lyc) || (prev_status & 0x20 > 0 && mode
        == PPUMode::OAMScan) || (prev_status & 0x10 > 0 && mode == PPUMode::VerticalBlank) || (
    prev_status & 0x08 > 0 && mode == PPUMode::HorizontalBlank);
    (line, data.update(STAT_ADDRESS as int, new_status))
}

/// One dot of the PPU: advance the dot counter, close the scanline at dot
/// 456 (entering the vertical blank at scanline 144 and wrapping at 154),
/// leave the OAM scan at dot 80 of a visible line, mirror the scanline into
/// LY, recompute STAT, and request the STAT interrupt on a rising edge of
/// the line.
pub open spec fn spec_ppu_dot(s: PpuState) -> PpuState {
    let dot1 = (s.1 + 1) as u16;
    let ended = dot1 == DOTS_PER_SCAN_LINE;
    let sl1: u8 = if ended {
        if s.0 == 153 {
            0
        } else {
            (s.0 + 1) as u8
        }
    } else {
        s.0
    };
    let dot2: u16 = if ended {
        0
    } else {
        dot1
    };
    let mode1 = if ended {
        if sl1 < INTERRUPT_SCANLINE {
            PPUMode::OAMScan
        } else {
            PPUMode::VerticalBlank
        }
    } else {
        s.2
    };
    let mode2 = if dot2 == OAM_SCAN_END_DOT && sl1 < INTERRUPT_SCANLINE {
        PPUMode::DrawingPixels
    } else {
        mode1
    };
    let vblank_started = ended && sl1 == INTERRUPT_SCANLINE;
    let data1 = if vblank_started {
        s.4.update(IF_ADDRESS as int, s.4[IF_ADDRESS as int] | 0x01)
    } else {
        s.4
    };
    let data2 = data1.update(LY_ADDRESS as int, sl1);
    let stat = spec_handle_stat(mode2, data2);
    let data3 = if stat.0 && !s.3 {
        stat.1.update(IF_ADDRESS as int, stat.1[IF_ADDRESS as int] | 0x02)
    } else {
        stat.1
    };
    (sl1, dot2, mode2, stat.0, data3)
}

/// The PPU state after `n` dots.
pub open spec fn spec_ppu_dots(s: PpuState, n: nat) -> PpuState
    decreases n,
{
    if n == 0 {
        s
    } else {
        spec_ppu_dot(spec_ppu_dots(s, (n - 1) as nat))
    }
}

/// One dot keeps the state well formed and leaves LY holding the scanline.
pub proof fn lemma_ppu_dot_wf(s: PpuState)
    requires
        s.4.len() == RAM_SIZE,
        s.1 < DOTS_PER_SCAN_LINE,
        s.0 < TOTAL_SCAN_LINES,
    ensures
        spec_ppu_dot(s).4.len() == RAM_SIZE,
        spec_ppu_dot(s).1 < DOTS_PER_SCAN_LINE,
        spec_ppu_dot(s).0 < TOTAL_SCAN_LINES,
        spec_ppu_dot(s).4[LY_ADDRESS as int] == spec_ppu_dot(s).0,
{
}

/// Any positive number of dots keeps the state well formed and leaves LY
/// mirroring the PPU's current scanline.
pub proof fn lemma_ppu_dots_wf(s: PpuState, n: nat)
    requires
        s.4.len() == RAM_SIZE,
        s.1 < DOTS_PER_SCAN_LINE,
        s.0 < TOTAL_SCAN_LINES,
    ensures
        spec_ppu_dots(s, n).4.len() == RAM_SIZE,
        spec_ppu_dots(s, n).1 < DOTS_PER_SCAN_LINE,
        spec_ppu_dots(s, n).0 < TOTAL_SCAN_LINES,
        n > 0 ==> spec_ppu_dots(s, n).4[LY_ADDRESS as int] == spec_ppu_dots(s, n).0,
    decreases n,
{
    if n > 0 {
        lemma_ppu_dots_wf(s, (n - 1) as nat);
        lemma_ppu_dot_wf(spec_ppu_dots(s, (n - 1) as nat));
    }
}


/// From the top of a frame, the machine walks the visible lines dot by dot:
/// after `n` dots the scanline is `n / 456` and the dot `n % 456`, with the
/// vertical-blank bit of IF untouched — until exactly `144 * 456` dots have
/// passed, when the vertical blank begins and IF bit 0 rises.
pub proof fn lemma_vblank_after_visible_lines(s: PpuState, n: nat)
    requires
        s.4.len() == RAM_SIZE,
        s.0 == 0,
        s.1 == 0,
        n <= 144 * 456,
    ensures
        spec_ppu_dots(s, n).4.len() == RAM_SIZE,
        n < 144 * 456 ==> {
            &&& spec_ppu_dots(s, n).0 == n / 456
            &&& spec_ppu_dots(s, n).1 == n % 456
            &&& spec_ppu_dots(s, n).4[IF_ADDRESS as int] & 0x01 == s.4[IF_ADDRESS as int]
                & 0x01
        },
        n == 144 * 456 ==> {
            &&& spec_ppu_dots(s, n).0 == 144
            &&& spec_ppu_dots(s, n).2 == PPUMode::VerticalBlank
            &&& spec_ppu_dots(s, n).4[IF_ADDRESS as int] & 0x01 == 1
        },
    decreases n,
{
    assert(forall|x: u8| #[trigger] ((x | 2) & 1) == x & 1) by (bit_vector);
    assert(forall|x: u8| #[trigger] ((x | 1) & 1) == 1) by (bit_vector);
    if n > 0 {
        lemma_vblank_after_visible_lines(s, (n - 1) as nat);
    }
}

impl PPU {
    /// The dot stays inside one scanline and the scanline inside one frame.
    pub open spec fn wf(&self) -> bool {
        &&& self.current_scanline_dot < DOTS_PER_SCAN_LINE
        &&& self.current_scanline < TOTAL_SCAN_LINES
    }

    /// The PPU's state as the per-dot transition sees it, next to the given
    /// memory.
    pub open spec fn with_ram(&self, data: Seq<u8>) -> PpuState {
        (self.current_scanline, self.current_scanline_dot, self.mode, self.stat_line, data)
    }

    pub fn new() -> (r: PPU)
        ensures
            r.current_scanline == 0,
            r.current_scanline_dot == 0,
            r.mode == PPUMode::OAMScan,
            !r.stat_line,
            r.wf(),
    {
        PPU {
            current_scanline: 0,
            current_scanline_dot: 0,
            mode: PPUMode::OAMScan,
            stat_line: false,
        }
    }

    /// Advance the PPU by four dots for every machine cycle the CPU
    /// consumed.  Afterwards LY equals the current scanline.
    pub fn tick(&mut self, m_cycles: u8, ram: &mut Ram)
        requires
            old(self).wf(),
            old(ram).wf(),
        ensures
            final(self).wf(),
            final(ram).wf(),
            final(ram).spec_dma_requested() == old(ram).spec_dma_requested(),
            final(self).with_ram(final(ram)@) == spec_ppu_dots(
                old(self).with_ram(old(ram)@),
                (4 * m_cycles) as nat,
            ),
            m_cycles > 0 ==> final(ram)@[LY_ADDRESS as int] == final(self).current_scanline,
    {
        let dots: u16 = 4 * (m_cycles as u16);

        let ghost s0 = self.with_ram(ram@);
        let mut i: u16 = 0;
        while i < dots
            invariant
                i <= dots,
                self.wf(),
                ram.wf(),
                ram.spec_dma_requested() == old(ram).spec_dma_requested(),
                s0.4.len() == RAM_SIZE,
                s0.1 < DOTS_PER_SCAN_LINE,
                s0.0 < TOTAL_SCAN_LINES,
                self.with_ram(ram@) == spec_ppu_dots(s0, i as nat),
            decreases dots - i,
        {
            self.do_dot(ram);
            i += 1;
        }

        proof {
            lemma_ppu_dots_wf(s0, dots as nat);
        }
    }

    /// One dot of the state machine.
    fn do_dot(&mut self, ram: &mut Ram)
        requires
            old(self).wf(),
            old(ram).wf(),
        ensures
            final(self).wf(),
            final(ram).wf(),
            final(ram).spec_dma_requested() == old(ram).spec_dma_requested(),
            final(self).with_ram(final(ram)@) == spec_ppu_dot(old(self).with_ram(old(ram)@)),
    {
        self.current_scanline_dot += 1;

        // the scanline ends: move to the next line, entering the vertical
        // blank at its first line and wrapping at the end of the frame
        if self.current_scanline_dot == DOTS_PER_SCAN_LINE {
            self.current_scanline_dot = 0;
            if self.current_scanline == 153 {
                self.current_scanline = 0;
            } else {
                self.current_scanline += 1;
            }

            if self.current_scanline < INTERRUPT_SCANLINE {
                self.mode = PPUMode::OAMScan;
            } else {
                self.mode = PPUMode::VerticalBlank;
                if self.current_scanline == INTERRUPT_SCANLINE {
                    ram.request_interrupt(Interrupt::VBlank);
                }
            }
        }

        // a visible scanline leaves the OAM scan at dot 80
        if self.current_scanline_dot == OAM_SCAN_END_DOT && self.current_scanline
            < INTERRUPT_SCANLINE {
            self.mode = PPUMode::DrawingPixels;
        }

        PPU::handle_lcd_update(ram, self.current_scanline);
        self.handle_stat(ram);
    }

    /// Mirror the current scanline into LY.
    fn handle_lcd_update(ram: &mut Ram, current_scanline: u8)
        requires
            old(ram).wf(),
        ensures
            final(ram).wf(),
            final(ram)@ == old(ram)@.update(LY_ADDRESS as int, current_scanline),
            final(ram).spec_dma_requested() == old(ram).spec_dma_requested(),
    {
        ram.write(LY_ADDRESS, current_scanline);
    }

    /// Recompute STAT from the mode and the LY/LYC comparison, and request
    /// the STAT interrupt on a rising edge of the enabled sources' OR.
    pub fn handle_stat(&mut self, ram: &mut Ram)
        requires
            old(ram).wf(),
        ensures
            final(ram).wf(),
            final(ram).spec_dma_requested() == old(ram).spec_dma_requested(),
            final(self).current_scanline == old(self).current_scanline,
            final(self).current_scanline_dot == old(self).current_scanline_dot,
            final(self).mode == old(self).mode,
            final(self).stat_line == spec_handle_stat(old(self).mode, old(ram)@).0,
            final(ram)@ == (if spec_handle_stat(old(self).mode, old(ram)@).0
                && !old(self).stat_line {
                spec_handle_stat(old(self).mode, old(ram)@).1.update(
                    IF_ADDRESS as int,
                    spec_handle_stat(old(self).mode, old(ram)@).1[IF_ADDRESS as int] | 0x02,
                )
            } else {
                spec_handle_stat(old(self).mode, old(ram)@).1
            }),
    {
        let ly = ram.unblocked_read(LY_ADDRESS);
        let lyc = ram.unblocked_read(LYC_ADDRESS);
        let prev_status = ram.unblocked_read(STAT_ADDRESS);

        let lyc_bit: u8 = if ly == lyc {
            1
        } else {
            0
        };
        let ppu_mode_bits: u8 = if !ram.lcd_enabled() {
            0
        } else {
            PPU::mode_to_bits(self.mode)
        };
        let res = (prev_status & 0xF8) | (lyc_bit << 2) | ppu_mode_bits;
        ram.write(STAT_ADDRESS, res);

        // the interrupt line is the OR of the sources the old STAT enabled
        let mut stat_interrupt_line: bool = false;
        if (prev_status & 0x40) > 0 && ly == lyc {
            stat_interrupt_line = true;
        }
        if (prev_status & 0x20) > 0 && self.mode == PPUMode::OAMScan {
            stat_interrupt_line = true;
        }
        if (prev_status & 0x10) > 0 && self.mode == PPUMode::VerticalBlank {
            stat_interrupt_line = true;
        }
        if (prev_status & 0x08) > 0 && self.mode == PPUMode::HorizontalBlank {
            stat_interrupt_line = true;
        }

        // the interrupt fires on the rising edge of the line, not per dot
        if stat_interrupt_line && !self.stat_line {
            ram.request_interrupt(Interrupt::Stat);
        }
        self.stat_line = stat_interrupt_line;
    }

    /// The two STAT bits of a mode.
    fn mode_to_bits(m: PPUMode) -> (r: u8)
        ensures
            r == mode_bits(m),
    {
        match m {
            PPUMode::OAMScan => 2,
            PPUMode::DrawingPixels => 3,
            PPUMode::HorizontalBlank => 0,
            PPUMode::VerticalBlank => 1,
        }
    }
}

} // verus!
