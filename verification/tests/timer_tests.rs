use webboy::ram::{Ram, TestRamOperations};
use webboy::timer::{Timer, DIV_ADDRESS, TAC_ADDRESS, TIMA_ADDRESS, TMA_ADDRESS};

#[test]
fn test_increment() {
    let mut timer = Timer {
        cycles: 0,
        cycles_since_div: 61,
        cycles_since_tima: 2,
    };

    let mut ram = Ram::new();
    // period bits 01 (four machine cycles), with the enable bit on: the
    // counter only moves while TAC gates it open
    ram.test_load(TAC_ADDRESS, vec![0b101]);
    ram.test_load(TMA_ADDRESS, vec![70]);

    timer.increment_cycle(&mut ram, 1);
    assert_eq!(ram.read(TIMA_ADDRESS), 0, "Value should not have been incremented");
    assert_eq!(ram.read(DIV_ADDRESS), 0, "Value should not have been incremented");

    // TIMA inc
    timer.increment_cycle(&mut ram, 1);
    assert_eq!(ram.read(TIMA_ADDRESS), 1, "Value should have been incremented");
    assert_eq!(timer.cycles_since_tima, 0, "TIMA Cycles should have been reset");
    assert_eq!(ram.read(DIV_ADDRESS), 0, "Value should not have been incremented");

    // DIV inc
    timer.increment_cycle(&mut ram, 1);
    assert_eq!(ram.read(TIMA_ADDRESS), 1, "Value should not have been incremented");
    assert_eq!(ram.read(DIV_ADDRESS), 1, "Value should have been incremented");
    assert_eq!(timer.cycles_since_div, 0, "TIMA Cycles should have been reset");

    // TIMA overflow
    ram.test_load(TIMA_ADDRESS, vec![0xFF]);
    timer.cycles_since_tima = 3;
    timer.increment_cycle(&mut ram, 1);

    assert_eq!(ram.read(TIMA_ADDRESS), 70, "Value should have been set to TMA");
    assert_eq!(timer.cycles_since_tima, 0, "TIMA Cycles should have been reset");
    assert_eq!(timer.cycles_since_div, 1, "TIMA Cycles should have been reset");
    assert_eq!(ram.read(0xFF0F), 0b0000_0100, "The timer interrupt request should be set");
}
