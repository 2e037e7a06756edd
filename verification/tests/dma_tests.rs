use webboy::dma::{DMA, DESTINATION_START_ADDRESS, DMA_ADDRESS, MAX_LOWER_NIBBLE};
use webboy::ram::Ram;

#[test]
fn test_dma() {
    let loaded_value = 69;
    let mut ram = Ram::new();

    // Place values to be loaded
    for i in 0..=0x9F {
        ram.write(0x8000 + i, loaded_value);
    }

    // Test init values
    let mut dma = DMA::new();
    assert_eq!(ram.dma_requested(), false);
    assert_eq!(dma.current_index, 0);
    assert_eq!(ram.unblocked_read(DESTINATION_START_ADDRESS), 0);

    // Test start_transfer activates dma
    ram.write(DMA_ADDRESS, 0x80);
    assert_eq!(ram.dma_requested(), true);

    // First tick: do a few bytes.
    dma.tick_transfer(&mut ram, 1);
    assert_eq!(dma.current_index, 1);
    assert_eq!(ram.unblocked_read(DESTINATION_START_ADDRESS), loaded_value);

    // Almost finish
    dma.tick_transfer(&mut ram, MAX_LOWER_NIBBLE - 1);
    assert_eq!(dma.current_index, MAX_LOWER_NIBBLE);
    assert_eq!(ram.dma_requested(), true);

    // Finish (and over finish)
    dma.tick_transfer(&mut ram, 999);
    assert_eq!(ram.dma_requested(), false);
    assert_eq!(dma.current_index, 0);

    // Assert every address is correct
    for i in 0..=MAX_LOWER_NIBBLE {
        assert_eq!(ram.unblocked_read(DESTINATION_START_ADDRESS + i), loaded_value);
    }
    assert_eq!(
        ram.unblocked_read(DESTINATION_START_ADDRESS + MAX_LOWER_NIBBLE),
        loaded_value
    );
    assert_eq!(ram.unblocked_read(DESTINATION_START_ADDRESS + MAX_LOWER_NIBBLE + 1), 0);
}
