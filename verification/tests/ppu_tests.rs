use webboy::lcd::{LCDControl, LYC_ADDRESS, LY_ADDRESS, STAT_ADDRESS};
use webboy::ppu::{PPUMode, PPU};
use webboy::ram::{Interrupt, Ram};

#[test]
fn test_handle_stat() {
    let mut ram = Ram::new();
    ram.write(LY_ADDRESS, 5);
    let mut ppu = PPU::new();
    ram.set_lcd_enabled(true);
    ram.write(0xFFFF, 0xFF);
    assert_eq!(ram.unblocked_read(STAT_ADDRESS), 0b0000_0000);

    // Test modes
    ppu.mode = PPUMode::HorizontalBlank;
    ppu.handle_stat(&mut ram);
    assert_eq!(ram.unblocked_read(STAT_ADDRESS), 0b0000_0000);

    ppu.mode = PPUMode::OAMScan;
    ppu.handle_stat(&mut ram);
    assert_eq!(ram.unblocked_read(STAT_ADDRESS), 0b0000_0010);

    ppu.mode = PPUMode::VerticalBlank;
    ppu.handle_stat(&mut ram);
    assert_eq!(ram.unblocked_read(STAT_ADDRESS), 0b0000_0001);

    ppu.mode = PPUMode::DrawingPixels;
    ppu.handle_stat(&mut ram);
    assert_eq!(ram.unblocked_read(STAT_ADDRESS), 0b0000_0011);

    // Set LY and LYC to be equal
    ram.write(LYC_ADDRESS, 5);
    ppu.handle_stat(&mut ram);
    assert_eq!(ram.unblocked_read(STAT_ADDRESS), 0b0000_0111);

    // Enable LY=LYC interrupt
    ram.write(STAT_ADDRESS, 0b0100_0000);
    ppu.handle_stat(&mut ram);
    assert_eq!(ram.unblocked_read(STAT_ADDRESS), 0b0100_0111);
    assert_eq!(ram.pending_interrupt(), Some(Interrupt::Stat));

    ram.clear_interrupt(Interrupt::Stat);
    assert_eq!(ram.pending_interrupt(), None);

    // Test mode 2 interrupt
    ram.write(LYC_ADDRESS, 2); // Set LYC to something else
    // one more dot's worth of STAT recomputation lets the interrupt line
    // fall, since the interrupt fires on rising edges only
    ppu.handle_stat(&mut ram);
    ram.write(STAT_ADDRESS, 0b0010_0000);
    ppu.mode = PPUMode::OAMScan;
    ppu.handle_stat(&mut ram);
    assert_eq!(ram.unblocked_read(STAT_ADDRESS), 0b0010_0010);
    assert_eq!(ram.pending_interrupt(), Some(Interrupt::Stat));
}
