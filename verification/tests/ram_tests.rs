use webboy::ram::{Interrupt, Ram, TestRamOperations};

#[test]
fn test_test_load() {
    let mut ram = Ram::new();

    ram.test_load(0, vec![19, 123, 73, 57]);

    assert_eq!(ram.read(0), 19);
    assert_eq!(ram.read(1), 123);
    assert_eq!(ram.read(2), 73);
    assert_eq!(ram.read(3), 57);
}

#[test]
fn test_interrupts() {
    let mut ram = Ram::new();

    // Enabled but none of the pending ones
    ram.write(0xFFFF, 0b1111_0000);
    ram.write(0xFF0F, 0b0000_1111);
    assert!(ram.interrupts_enabled());
    assert!(ram.pending_interrupt().is_none());

    // Enabled a pending interrupt
    ram.write(0xFFFF, 0b1111_0010);
    assert!(ram.interrupts_enabled());
    assert_eq!(ram.pending_interrupt(), Some(Interrupt::Stat));

    // Try clearing some interrupts
    ram.clear_interrupt(Interrupt::Timer);
    assert_eq!(ram.read(0xFF0F), 0b0000_1011);
    ram.clear_interrupt(Interrupt::VBlank);
    assert_eq!(ram.read(0xFF0F), 0b0000_1010);

    // Try requesting interrupts back
    ram.request_interrupt(Interrupt::Timer);
    assert_eq!(ram.read(0xFF0F), 0b0000_1110);
}
