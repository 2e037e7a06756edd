use vstd::prelude::*;

use crate::ram::{spec_write, Ram};

verus! {

/// Address of the LCD control register.
pub const LCDC_ADDRESS: u16 = 0xFF40;

/// Address of the current-scanline register.
pub const LY_ADDRESS: u16 = 0xFF44;

/// Address of the scanline-compare register.
pub const LYC_ADDRESS: u16 = 0xFF45;

/// Address of the LCD status register.
pub const STAT_ADDRESS: u16 = 0xFF41;

/// The named bits of the LCD control register, and the PPU's write path for
/// the current-scanline register.
pub trait LCDControl {
    /// The bytes the control bits are read from.
    spec fn lcd_data(&self) -> Seq<u8>;

    fn set_lcd_enabled(&mut self, enabled: bool)
        requires
            old(self).lcd_data().len() == crate::ram::RAM_SIZE,
        ensures
            final(self).lcd_data() == old(self).lcd_data().update(
                LCDC_ADDRESS as int,
                (if enabled {
                    old(self).lcd_data()[LCDC_ADDRESS as int] | 0x80
                } else {
                    old(self).lcd_data()[LCDC_ADDRESS as int] & 0x7F
                }),
            ),
    ;

    fn lcd_enabled(&self) -> (r: bool)
        requires
            self.lcd_data().len() == crate::ram::RAM_SIZE,
        ensures
            r == (self.lcd_data()[LCDC_ADDRESS as int] & 0x80 != 0),
    ;

    fn window_tile_map_control(&self) -> (r: bool)
        requires
            self.lcd_data().len() == crate::ram::RAM_SIZE,
        ensures
            r == (self.lcd_data()[LCDC_ADDRESS as int] & 0x40 != 0),
    ;

    fn window_enabled(&self) -> (r: bool)
        requires
            self.lcd_data().len() == crate::ram::RAM_SIZE,
        ensures
            r == (self.lcd_data()[LCDC_ADDRESS as int] & 0x20 != 0),
    ;

    fn bg_and_window_tile_data_control(&self) -> (r: bool)
        requires
            self.lcd_data().len() == crate::ram::RAM_SIZE,
        ensures
            r == (self.lcd_data()[LCDC_ADDRESS as int] & 0x10 != 0),
    ;

    fn bg_tile_map_control(&self) -> (r: bool)
        requires
            self.lcd_data().len() == crate::ram::RAM_SIZE,
        ensures
            r == (self.lcd_data()[LCDC_ADDRESS as int] & 0x08 != 0),
    ;

    fn obj_size_control(&self) -> (r: bool)
        requires
            self.lcd_data().len() == crate::ram::RAM_SIZE,
        ensures
            r == (self.lcd_data()[LCDC_ADDRESS as int] & 0x04 != 0),
    ;

    fn obj_enabled(&self) -> (r: bool)
        requires
            self.lcd_data().len() == crate::ram::RAM_SIZE,
        ensures
            r == (self.lcd_data()[LCDC_ADDRESS as int] & 0x02 != 0),
    ;

    fn bg_and_window_enabled(&self) -> (r: bool)
        requires
            self.lcd_data().len() == crate::ram::RAM_SIZE,
        ensures
            r == (self.lcd_data()[LCDC_ADDRESS as int] & 0x01 != 0),
    ;

    fn update_ly(&mut self, value: u8)
        requires
            old(self).lcd_data().len() == crate::ram::RAM_SIZE,
        ensures
            final(self).lcd_data() == old(self).lcd_data().update(LY_ADDRESS as int, value),
    ;
}

impl LCDControl for Ram {
    open spec fn lcd_data(&self) -> Seq<u8> {
        self@
    }

    fn set_lcd_enabled(&mut self, enabled: bool) {
        let mut lcdc = self.unblocked_read(LCDC_ADDRESS);
        if enabled {
            lcdc |= 0x80;
        } else {
            lcdc &= 0x7F;
        }
        self.write(LCDC_ADDRESS, lcdc);
    }

    fn lcd_enabled(&self) -> (r: bool) {
        (self.unblocked_read(LCDC_ADDRESS) & 0x80) != 0
    }

    fn window_tile_map_control(&self) -> (r: bool) {
        (self.unblocked_read(LCDC_ADDRESS) & 0x40) != 0
    }

    fn window_enabled(&self) -> (r: bool) {
        (self.unblocked_read(LCDC_ADDRESS) & 0x20) != 0
    }

    fn bg_and_window_tile_data_control(&self) -> (r: bool) {
        (self.unblocked_read(LCDC_ADDRESS) & 0x10) != 0
    }

    fn bg_tile_map_control(&self) -> (r: bool) {
        (self.unblocked_read(LCDC_ADDRESS) & 0x08) != 0
    }

    fn obj_size_control(&self) -> (r: bool) {
        (self.unblocked_read(LCDC_ADDRESS) & 0x04) != 0
    }

    fn obj_enabled(&self) -> (r: bool) {
        (self.unblocked_read(LCDC_ADDRESS) & 0x02) != 0
    }

    fn bg_and_window_enabled(&self) -> (r: bool) {
        (self.unblocked_read(LCDC_ADDRESS) & 0x01) != 0
    }

    fn update_ly(&mut self, value: u8) {
        self.write(LY_ADDRESS, value);
    }
}

} // verus!
