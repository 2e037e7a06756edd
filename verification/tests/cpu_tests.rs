use webboy::cpu::instruction::{op_first_u3, op_interleaved_r16, op_last_u3, op_middle_u3, OpKind};
use webboy::cpu::register::Flag;
use webboy::cpu::{Ime, Mode, CPU};
use webboy::ram::TestRamOperations;

#[test]
fn test_new_cpu() {
    let cpu = CPU::new();
    assert_eq!(cpu.registers.f, 0, "No flags should be set to start");
    assert_eq!(cpu.registers.pc, 0, "PC should be 0 to start");
    let mut all_zero = true;
    for address in 0..=0xFFFFu16 {
        if cpu.ram.read(address) != 0 {
            all_zero = false;
        }
    }
    assert!(all_zero, "Ram should be empty to start");
}

#[test]
fn test_get_operation() {
    let mut cpu = CPU::new();
    let operation = cpu.get_operation();
    assert_eq!(operation.kind(), OpKind::Nop);
}

#[test]
fn test_get_instruction_value() {
    let instruction: u8 = 0b_1100_0111;
    assert_eq!(op_last_u3(instruction), 7u8);
}

#[test]
fn test_pc() {
    let mut cpu = CPU::new();
    cpu.ram
        .test_load(0, vec![0b0000_1001, 0b1100_1100, 0b1101_1100, 0b0001_1100]);

    assert_eq!(cpu.registers.pc, 0);
    assert_eq!(cpu.read_byte(), 0b0000_1001);
    assert_eq!(cpu.registers.pc, 1);

    assert_eq!(cpu.read_two_bytes(), 0b1101_1100_1100_1100);
    assert_eq!(cpu.registers.pc, 3);

    assert_eq!(cpu.read_byte(), 0b0001_1100);
    assert_eq!(cpu.registers.pc, 4);
}

#[test]
fn test_add_a_r8() {
    // Add 0 to 'A' register
    let mut cpu = CPU::new();
    cpu.ram.test_load(0, vec![0o200]);
    let op = cpu.get_operation();
    assert_eq!(op.kind(), OpKind::AddAR8);

    // Actually run the above instruction
    cpu.run_operation(op).unwrap();
    assert_eq!(cpu.registers.a, 0);
    assert_eq!(cpu.registers.f, 0b1000_0000, "Expected just the zero flag to be set");

    // Add 4 to 'A' register
    cpu.registers.b = 0b1100_0100;
    cpu.run_operation(op).unwrap();
    assert_eq!(cpu.registers.a, 0b1100_0100);
    assert_eq!(cpu.registers.f, 0b0000_0000, "No flags should be set again");

    // Add 4 to 'A' register again, causing an overflow
    cpu.run_operation(op).unwrap();
    assert_eq!(cpu.registers.a, 0b1000_1000);
    assert_eq!(cpu.registers.f, 0b0001_0000, "Expected only the carry flag to be set");

    // Induce a half carry
    cpu.registers.b = 0b0000_1000;
    cpu.run_operation(op).unwrap();
    assert_eq!(cpu.registers.a, 0b1001_0000);
    assert_eq!(cpu.registers.f, 0b0010_0000, "Expected only the half carry flag to be set");
}

#[test]
fn test_addc_a_a8() {
    let mut cpu = CPU::new();
    cpu.ram.test_load(0, vec![0o210]); // ADC A, B
    let op = cpu.get_operation();
    assert_eq!(op.kind(), OpKind::AdcAR8);

    // Addition without carry flag
    cpu.registers.b = 1;
    cpu.addc_a_r8(op.opcode);
    assert_eq!(cpu.registers.a, 0 + 1, "The carry bit should not have been added");

    // Addition with carry flag
    cpu.registers.set_flag(Flag::Carry, true);
    cpu.addc_a_r8(op.opcode);
    assert_eq!(cpu.registers.a, 1 + 2, "The carry bit should have been added");
}

#[test]
fn test_add_hl_r16() {
    let mut cpu = CPU::new();
    cpu.ram.test_load(0, vec![0o031]);
    let op = cpu.get_operation();
    assert_eq!(op.kind(), OpKind::AddHlR16);

    // Half carry test
    cpu.registers.set_hl(0b0000_1000_0000_0000);
    cpu.registers.set_r16(1, 0b1000_1000_0000_0000);
    cpu.add_hl_r16(op.opcode);
    assert_eq!(cpu.registers.get_hl(), 0b1001_0000_0000_0000);
    assert_eq!(cpu.registers.f, 0b0010_0000, "Expected only the half carry flag to be set");

    // Fully carry test
    cpu.add_hl_r16(op.opcode);
    assert_eq!(cpu.registers.get_hl(), 0b0001_1000_0000_0000);
    assert_eq!(cpu.registers.f, 0b0001_0000, "Expected only the carry flag to be set");
}

#[test]
fn test_add_sp_e8() {
    let mut cpu = CPU::new();

    cpu.ram
        .test_load(0, vec![0o350, 0x0F, 0o350, 1, 0o350, 1, 0o350, 0b1000_0000]);
    let op = cpu.get_operation();
    assert_eq!(op.kind(), OpKind::AddSpE8);

    // No carry test
    cpu.registers.set_sp(0x1000);
    cpu.add_sp_e8();
    assert_eq!(cpu.registers.get_sp(), 0x100F);
    assert_eq!(cpu.registers.f, 0b0000_0000, "No flags should be set");

    // Half carry test
    cpu.get_operation();
    cpu.add_sp_e8();
    assert_eq!(cpu.registers.get_sp(), 0x1010);
    assert_eq!(cpu.registers.f, 0b0010_0000, "Expected only the half carry flag to be set");

    // Full carry test
    cpu.registers.set_sp(0x10FF);
    cpu.get_operation();
    cpu.add_sp_e8();
    assert_eq!(cpu.registers.get_sp(), 0x1100);
    assert_eq!(cpu.registers.f, 0b0011_0000, "Expected both carry and half carry flags to be set");

    // Subtraction test
    cpu.get_operation();
    cpu.add_sp_e8();
    assert_eq!(cpu.registers.get_sp(), 0x1100 - 0x80);
    assert_eq!(cpu.registers.f, 0b0000_0000, "No flags set");
}

#[test]
fn test_sub_a_r8() {
    let mut cpu = CPU::new();
    cpu.ram.test_load(0, vec![0o220]);
    let op = cpu.get_operation();
    assert_eq!(op.kind(), OpKind::SubAR8);

    // Subtract 0s
    cpu.run_operation(op).unwrap();
    assert_eq!(cpu.registers.a, 0);
    assert_eq!(cpu.registers.f, 0b1100_0000, "Zero and subtract flag should be set");

    // Subtract without borrow
    cpu.registers.a = 0b0001_0100;
    cpu.registers.b = 0b0000_0100;
    cpu.run_operation(op).unwrap();
    assert_eq!(cpu.registers.a, 0b0001_0000);
    assert_eq!(cpu.registers.f, 0b0100_0000, "Only the subtract flag should be set");

    // Subtract with lower nibble borrow
    cpu.run_operation(op).unwrap();
    assert_eq!(cpu.registers.a, 0b0000_1100);
    assert_eq!(cpu.registers.f, 0b0110_0000, "Subtract and half carry flag should be set");

    // Full underflow without lower nibble
    cpu.registers.b = 0b0001_0000;
    cpu.run_operation(op).unwrap();
    assert_eq!(cpu.registers.a, 0b1111_1100);
    assert_eq!(
        cpu.registers.f, 0b0101_0000,
        "Subtract and carry flags should be set but not the half"
    );
}

#[test]
fn test_subc_a_a8() {
    let mut cpu = CPU::new();
    cpu.ram.test_load(0, vec![0o235]);
    let op = cpu.get_operation();
    assert_eq!(op.kind(), OpKind::SbcAR8);

    // Subtraction without carry flag
    cpu.registers.a = 10;
    cpu.registers.l = 1;
    cpu.run_operation(op).unwrap();
    assert_eq!(cpu.registers.a, 10 - 1, "The carry bit should not have been subtracted");

    // Subtraction with carry flag
    cpu.registers.set_flag(Flag::Carry, true);
    cpu.run_operation(op).unwrap();
    assert_eq!(cpu.registers.a, 9 - 2, "The carry bit should have been subtracted");
}

#[test]
fn test_cpl() {
    let mut cpu = CPU::new();
    cpu.ram.test_load(0, vec![0o057]);
    let op = cpu.get_operation();
    assert_eq!(op.kind(), OpKind::Cpl);
    cpu.registers.f = 0b1111_0000; // Pre-set all flag bits

    let value = 0b0101_1100;
    cpu.registers.a = value;
    cpu.run_operation(op).unwrap();
    assert_eq!(cpu.registers.a, !value);
    assert_eq!(
        cpu.registers.f, 0b1111_0000,
        "CPL should only force the half carry and subtraction flags"
    );

    cpu.run_operation(op).unwrap();
    assert_eq!(cpu.registers.a, value);
}

#[test]
fn test_and() {
    let mut cpu = CPU::new();
    cpu.ram.test_load(0, vec![0o241]);
    let op = cpu.get_operation();
    assert_eq!(op.kind(), OpKind::AndAR8);
    cpu.registers.f = 0b0101_0000; // Test that these values get overrode

    cpu.run_operation(op).unwrap();
    assert_eq!(cpu.registers.a, 0, "A is 0 to start");
    assert_eq!(cpu.registers.f, 0b1010_0000, "The zero and half carry flags should be set");

    cpu.registers.a = 0b0001_1000;
    cpu.registers.c = cpu.registers.a;
    cpu.run_operation(op).unwrap();
    assert_eq!(cpu.registers.a, 0b0001_1000);
    assert_eq!(cpu.registers.f, 0b0010_0000, "Only the half carry flags should be set");

    cpu.registers.c = 0b0001_0111;
    cpu.run_operation(op).unwrap();
    assert_eq!(cpu.registers.a, 0b0001_0000);
}

#[test]
fn test_xor_a_r8() {
    let mut cpu = CPU::new();
    cpu.ram.test_load(0, vec![0o252]);
    let op = cpu.get_operation();
    assert_eq!(op.kind(), OpKind::XorAR8);
    cpu.registers.f = 0b1111_0000; // Test that these values get overrode

    // 0 XOR 0
    cpu.run_operation(op).unwrap();
    assert_eq!(cpu.registers.a, 0, "A is 0 to start");
    assert_eq!(cpu.registers.f, 0b1000_0000, "No flags set at the start");

    // Test basic XOR
    cpu.registers.a = 0b1101_1010;
    cpu.registers.d = 0b0011_0110;
    cpu.run_operation(op).unwrap();
    assert_eq!(cpu.registers.a, 0b1110_1100);
    assert_eq!(cpu.registers.d, 0b0011_0110, "D remains unchanged");
    assert_eq!(cpu.registers.f, 0b0000_0000, "No flags should be set");

    // X XOR X == 0
    cpu.xor_a_r8(0o257);
    assert_eq!(cpu.registers.a, 0);
}

#[test]
fn test_or_a_r8() {
    let mut cpu = CPU::new();
    cpu.ram.test_load(0, vec![0o263]);
    let op = cpu.get_operation();
    assert_eq!(op.kind(), OpKind::OrAR8);
    cpu.registers.f = 0b1111_0000; // Test that these values get overrode

    // 0 OR 0
    cpu.run_operation(op).unwrap();
    assert_eq!(cpu.registers.a, 0, "A is 0 to start");
    assert_eq!(cpu.registers.f, 0b1000_0000, "No flags set at the start");

    // Test basic OR
    cpu.registers.a = 0b1101_1010;
    cpu.registers.e = 0b0010_0101;
    cpu.run_operation(op).unwrap();
    assert_eq!(cpu.registers.a, 0b1111_1111, "All bits should be set");
    assert_eq!(cpu.registers.e, 0b0010_0101, "D remains unchanged");
    assert_eq!(cpu.registers.f, 0b0000_0000, "No flags should be set");

    // X OR X == X
    cpu.or_a_r8(0o267);
    assert_eq!(cpu.registers.a, 0b1111_1111);
}

#[test]
fn test_inc() {
    let mut cpu = CPU::new();
    cpu.ram.test_load(0, vec![0o04]);
    let op = cpu.get_operation();
    assert_eq!(op.kind(), OpKind::IncR8);

    cpu.registers.a = 1;
    cpu.registers.b = 14;
    cpu.inc_r8(0o04);
    assert_eq!(cpu.registers.a, 1);
    assert_eq!(cpu.registers.b, 15);
    assert_eq!(cpu.registers.f, 0b0000_0000, "No flags should be set");

    cpu.inc_r8(0o04);
    assert_eq!(cpu.registers.b, 16);
    assert_eq!(cpu.registers.f, 0b0010_0000, "The half carry flag should be set");

    cpu.registers.c = 255;
    cpu.inc_r8(0o14);
    assert_eq!(cpu.registers.c, 0);
    assert_eq!(
        cpu.registers.f, 0b01010_0000,
        "Zero and half carry flag should be set. Full carry is ignored"
    );
}

#[test]
fn test_inc_r16_and_dec_r16() {
    let mut cpu = CPU::new();
    cpu.ram.test_load(0, vec![0o063, 0o073]);
    let inc_op = cpu.get_operation();
    let dec_op = cpu.get_operation();
    assert_eq!(inc_op.kind(), OpKind::IncR16);
    assert_eq!(dec_op.kind(), OpKind::DecR16);

    assert_eq!(cpu.registers.get_r16(3), 0);
    cpu.inc_r16(inc_op.opcode);
    assert_eq!(cpu.registers.get_r16(3), 1);
    cpu.dec_r16(dec_op.opcode);
    assert_eq!(cpu.registers.get_r16(3), 0);
}

#[test]
fn test_dec() {
    let mut cpu = CPU::new();
    cpu.ram.test_load(0, vec![0o05]);
    let op = cpu.get_operation();
    assert_eq!(op.kind(), OpKind::DecR8);

    cpu.registers.a = 1;
    cpu.registers.b = 5;
    cpu.dec_r8(0o05);
    assert_eq!(cpu.registers.a, 1);
    assert_eq!(cpu.registers.c, 0);
    assert_eq!(cpu.registers.b, 5 - 1);
    assert_eq!(cpu.registers.f, 0b0100_0000, "Only the subtraction  flag should be set");

    cpu.dec_r8(0o75);
    assert_eq!(cpu.registers.a, 1 - 1);
    assert_eq!(cpu.registers.c, 0);
    assert_eq!(cpu.registers.b, 5 - 1);
    assert_eq!(cpu.registers.f, 0b1100_0000, "The subtraction and zero flags should be set");

    cpu.dec_r8(0o15);
    assert_eq!(cpu.registers.c, 255);
    assert_eq!(cpu.registers.f, 0b0110_0000, "All flags should be set");
}

#[test]
fn test_ld_r8_r8() {
    let mut cpu = CPU::new();
    cpu.ram.test_load(0, vec![0o100]);

    let op = cpu.get_operation();
    assert_eq!(op.kind(), OpKind::LdR8R8);

    // Actually perform operation testing flags are not touched
    cpu.ld_r8_r8(op.opcode);
    cpu.registers.f = 0b1111_0000;
    assert_eq!(cpu.registers.b, 0);
    assert_eq!(cpu.registers.f, 0b1111_0000);

    // Load c into b
    cpu.registers.c = 10;
    cpu.ld_r8_r8(0o101);
    assert_eq!(cpu.registers.b, 10);
    assert_eq!(cpu.registers.c, 10);
    assert_eq!(cpu.registers.f, 0b1111_0000);

    // Load c into a
    cpu.ld_r8_r8(0o171);
    assert_eq!(cpu.registers.a, 10);
    assert_eq!(cpu.registers.b, 10);
    assert_eq!(cpu.registers.c, 10);
}

#[test]
fn test_ld_r8_n8() {
    // Load b on to b
    let mut cpu = CPU::new();
    cpu.ram.test_load(0, vec![0o56, 10, 0o56, 0]);
    let op = cpu.get_operation();
    assert_eq!(op.kind(), OpKind::LdR8N8);

    // Actually perform operation. testing flags are not touched
    cpu.registers.f = 0b1111_0000;
    cpu.run_operation(op).unwrap();
    assert_eq!(cpu.registers.l, 10);
    assert_eq!(cpu.registers.f, 0b1111_0000);
    assert_eq!(cpu.registers.pc, 2);

    // Run another operation to load 0 back
    let op = cpu.get_operation();
    cpu.run_operation(op).unwrap();
    assert_eq!(cpu.registers.l, 0);
}

#[test]
fn test_ld_r16_r16() {
    let mut cpu = CPU::new();
    cpu.ram
        .test_load(0, vec![0o41, 0b0000_1000, 0b0000_1010, 0o41, 0, 0]);
    let op = cpu.get_operation();
    assert_eq!(op.kind(), OpKind::LdR16N16);

    // Actually perform operation. testing flags are not touched
    cpu.registers.f = 0b1111_0000;
    cpu.run_operation(op).unwrap();
    assert_eq!(cpu.registers.get_r16(2), 0b0000_1010_0000_1000);
    assert_eq!(cpu.registers.f, 0b1111_0000);

    // Load 0 back
    let op = cpu.get_operation();
    cpu.run_operation(op).unwrap();
    assert_eq!(cpu.registers.get_r16(2), 0);
}

#[test]
fn test_ld_hl_r8() {
    let mut cpu = CPU::new();
    cpu.ram.test_load(0, vec![0o163]);
    let op = cpu.get_operation();
    assert_eq!(op.kind(), OpKind::LdHlR8);

    // Set location
    let location = 1029u16;
    cpu.registers.set_hl(location);
    assert_eq!(cpu.registers.get_hl(), location);

    // Perform op
    let value = 199u8;
    cpu.registers.e = value;
    cpu.registers.f = 0b1111_0000;
    cpu.run_operation(op).unwrap();
    assert_eq!(cpu.ram.read(location), value);
    assert_eq!(cpu.registers.f, 0b1111_0000);

    // Load 0 back
    cpu.registers.e = 0;
    cpu.run_operation(op).unwrap();
    assert_eq!(cpu.ram.read(location), 0);
}

#[test]
fn test_ld_hl_n8() {
    let mut cpu = CPU::new();
    let value = 29u8;
    cpu.ram.test_load(0, vec![0o066, value]);
    let op = cpu.get_operation();
    assert_eq!(op.kind(), OpKind::LdHlN8);

    // Set location
    let location = 9291u16;
    cpu.registers.set_hl(location);
    assert_eq!(cpu.registers.get_hl(), location);

    // Perform op
    cpu.run_operation(op).unwrap();
    assert_eq!(cpu.ram.read(location), value);
}

#[test]
fn test_carry_flag_ops() {
    let mut cpu = CPU::new();
    cpu.ram.test_load(0, vec![0o067, 0o067, 0o077, 0o077]);

    cpu.registers.f = 0b1110_0000;
    let op = cpu.get_operation();
    assert_eq!(op.kind(), OpKind::Scf);
    cpu.run_operation(op).unwrap();
    assert_eq!(cpu.registers.f, 0b1001_0000, "Carry flag should be set");

    let op = cpu.get_operation();
    cpu.run_operation(op).unwrap();
    assert_eq!(cpu.registers.f, 0b1001_0000, "Carry flag should still be set");

    cpu.registers.f = 0b1111_0000;
    let op = cpu.get_operation();
    assert_eq!(op.kind(), OpKind::Ccf);
    cpu.run_operation(op).unwrap();
    assert_eq!(cpu.registers.f, 0b1000_0000, "Carry flag should be complemented (unset)");

    let op = cpu.get_operation();
    cpu.run_operation(op).unwrap();
    assert_eq!(cpu.registers.f, 0b1001_0000, "Carry flag should be set again after complement");
}

#[test]
fn test_cp_a_r8() {
    // Compare A with D
    let mut cpu = CPU::new();
    cpu.ram.test_load(0, vec![0o272]);
    let op = cpu.get_operation();
    assert_eq!(op.kind(), OpKind::CpAR8);

    // Actually run the above instruction
    cpu.run_operation(op).unwrap();
    assert_eq!(cpu.registers.a, 0);
    assert_eq!(cpu.registers.d, 0);
    assert_eq!(cpu.registers.f, 0b1100_0000, "Zero and subtract flag should be set");

    // A > D
    cpu.registers.a = 10;
    cpu.registers.d = 5;
    cpu.run_operation(op).unwrap();
    assert_eq!(cpu.registers.a, 10);
    assert_eq!(cpu.registers.d, 5);
    assert_eq!(cpu.registers.f, 0b0100_0000, "Subtract flag should be set");

    // A == D
    cpu.registers.d = 10;
    cpu.run_operation(op).unwrap();
    assert_eq!(cpu.registers.a, 10);
    assert_eq!(cpu.registers.d, 10);
    assert_eq!(cpu.registers.f, 0b1100_0000, "Zero and subtract flag should be set");

    // Lower nibble borrow
    cpu.registers.a = 0b0001_0000;
    cpu.registers.d = 0b0000_1000;
    cpu.run_operation(op).unwrap();
    assert_eq!(cpu.registers.a, 16);
    assert_eq!(cpu.registers.d, 8);
    assert_eq!(cpu.registers.f, 0b0110_0000, "Zero and subtract flag should be set");

    // Underflow with nibble borrow
    cpu.registers.a = 0b0001_0000;
    cpu.registers.d = 0b0001_1000;
    cpu.run_operation(op).unwrap();
    assert_eq!(cpu.registers.a, 16);
    assert_eq!(cpu.registers.d, 24);
    assert_eq!(cpu.registers.f, 0b0111_0000, "Subtract and both carry flags should be set");
}

#[test]
fn test_rl() {
    // RL [HL]
    let mut cpu = CPU::new();
    cpu.ram.test_load(0, vec![0o313, 0o026]);
    let op = cpu.get_operation();
    assert_eq!(op.kind(), OpKind::RlHl);

    // RLA
    let mut cpu = CPU::new();
    cpu.ram.test_load(0, vec![0o027]);
    let op = cpu.get_operation();
    assert_eq!(op.kind(), OpKind::RlA);

    // RLC [HL]
    let mut cpu = CPU::new();
    cpu.ram.test_load(0, vec![0o313, 0o006]);
    let op = cpu.get_operation();
    assert_eq!(op.kind(), OpKind::RlcHl);

    // RLC A
    let mut cpu = CPU::new();
    cpu.ram.test_load(0, vec![0o007]);
    let op = cpu.get_operation();
    assert_eq!(op.kind(), OpKind::RlcA);
}

#[test]
fn test_rl_r8() {
    let mut cpu = CPU::new();
    cpu.ram.test_load(0, vec![0o313, 0o022]);
    let op = cpu.get_operation();
    assert_eq!(op.kind(), OpKind::RlR8);

    cpu.registers.d = 0b0100_0100;
    cpu.run_operation(op).unwrap();
    assert_eq!(cpu.registers.d, 0b1000_1000);
    assert!(!cpu.registers.get_flag(Flag::Carry));

    cpu.run_operation(op).unwrap();
    assert_eq!(cpu.registers.d, 0b0001_0000);
    assert!(cpu.registers.get_flag(Flag::Carry));

    cpu.run_operation(op).unwrap();
    assert_eq!(cpu.registers.d, 0b0010_0001);
    assert!(!cpu.registers.get_flag(Flag::Carry));
}

#[test]
fn test_rlc_r8() {
    let mut cpu = CPU::new();
    cpu.ram.test_load(0, vec![0o313, 0o004]);
    let op = cpu.get_operation();
    assert_eq!(op.kind(), OpKind::RlcR8);

    cpu.registers.h = 0b0110_0110;
    cpu.run_operation(op).unwrap();
    assert_eq!(cpu.registers.h, 0b1100_1100);
    assert!(!cpu.registers.get_flag(Flag::Carry));

    cpu.run_operation(op).unwrap();
    assert_eq!(cpu.registers.h, 0b1001_1001);
    assert!(cpu.registers.get_flag(Flag::Carry));

    cpu.run_operation(op).unwrap();
    assert_eq!(cpu.registers.h, 0b0011_0011);
    assert!(cpu.registers.get_flag(Flag::Carry));
}

#[test]
fn test_rr() {
    // RR [HL]
    let mut cpu = CPU::new();
    cpu.ram.test_load(0, vec![0o313, 0o036]);
    let op = cpu.get_operation();
    assert_eq!(op.kind(), OpKind::RrHl);

    // RRA
    let mut cpu = CPU::new();
    cpu.ram.test_load(0, vec![0o037]);
    let op = cpu.get_operation();
    assert_eq!(op.kind(), OpKind::RrA);

    // RRC [HL]
    let mut cpu = CPU::new();
    cpu.ram.test_load(0, vec![0o313, 0o016]);
    let op = cpu.get_operation();
    assert_eq!(op.kind(), OpKind::RrcHl);

    // RRC A
    let mut cpu = CPU::new();
    cpu.ram.test_load(0, vec![0o017]);
    let op = cpu.get_operation();
    assert_eq!(op.kind(), OpKind::RrcA);

    // SRA [HL]
    let mut cpu = CPU::new();
    cpu.ram.test_load(0, vec![0o313, 0o056]);
    let op = cpu.get_operation();
    assert_eq!(op.kind(), OpKind::SraHl);

    // SRL [HL]
    let mut cpu = CPU::new();
    cpu.ram.test_load(0, vec![0o313, 0o076]);
    let op = cpu.get_operation();
    assert_eq!(op.kind(), OpKind::SrlHl);
}

#[test]
fn test_rr_r8() {
    let mut cpu = CPU::new();
    cpu.ram.test_load(0, vec![0o313, 0o032]);
    let op = cpu.get_operation();
    assert_eq!(op.kind(), OpKind::RrR8);

    cpu.registers.d = 0b0100_1010;
    cpu.run_operation(op).unwrap();
    assert_eq!(cpu.registers.d, 0b0010_0101);
    assert!(!cpu.registers.get_flag(Flag::Carry));

    cpu.run_operation(op).unwrap();
    assert_eq!(cpu.registers.d, 0b0001_0010);
    assert!(cpu.registers.get_flag(Flag::Carry));

    cpu.run_operation(op).unwrap();
    assert_eq!(cpu.registers.d, 0b1000_1001);
    assert!(!cpu.registers.get_flag(Flag::Carry));
}

#[test]
fn test_rrc_r8() {
    let mut cpu = CPU::new();
    cpu.ram.test_load(0, vec![0o313, 0o014]);
    let op = cpu.get_operation();
    assert_eq!(op.kind(), OpKind::RrcR8);

    cpu.registers.h = 0b0111_0110;
    cpu.run_operation(op).unwrap();
    assert_eq!(cpu.registers.h, 0b0011_1011);
    assert!(!cpu.registers.get_flag(Flag::Carry));

    cpu.run_operation(op).unwrap();
    assert_eq!(cpu.registers.h, 0b1001_1101);
    assert!(cpu.registers.get_flag(Flag::Carry));

    cpu.run_operation(op).unwrap();
    assert_eq!(cpu.registers.h, 0b1100_1110);
    assert!(cpu.registers.get_flag(Flag::Carry));
}

#[test]
fn test_sla_r8() {
    let mut cpu = CPU::new();
    cpu.ram.test_load(0, vec![0o313, 0o040]);
    let op = cpu.get_operation();
    assert_eq!(op.kind(), OpKind::SlaR8);

    cpu.registers.b = 0b1011_0001;
    cpu.run_operation(op).unwrap();
    assert_eq!(cpu.registers.b, 0b0110_0010);
    assert!(cpu.registers.get_flag(Flag::Carry));

    cpu.run_operation(op).unwrap();
    assert_eq!(cpu.registers.b, 0b1100_0100);
    assert!(!cpu.registers.get_flag(Flag::Carry));

    cpu.run_operation(op).unwrap();
    assert_eq!(cpu.registers.b, 0b1000_1000);
    assert!(cpu.registers.get_flag(Flag::Carry));
}

#[test]
fn test_sra_r8() {
    let mut cpu = CPU::new();
    cpu.ram.test_load(0, vec![0o313, 0o050]);
    let op = cpu.get_operation();
    assert_eq!(op.kind(), OpKind::SraR8);

    cpu.registers.b = 0b0000_0000;
    cpu.run_operation(op).unwrap();
    assert_eq!(cpu.registers.b, 0b0000_0000);
    assert_eq!(cpu.registers.f, 0b1000_0000);

    cpu.registers.b = 0b1000_0110;
    cpu.run_operation(op).unwrap();
    assert_eq!(cpu.registers.b, 0b1100_0011);
    assert!(!cpu.registers.get_flag(Flag::Carry));

    cpu.run_operation(op).unwrap();
    assert_eq!(cpu.registers.b, 0b1110_0001);
    assert!(cpu.registers.get_flag(Flag::Carry));
}

#[test]
fn test_swap() {
    let mut cpu = CPU::new();
    cpu.ram.test_load(0, vec![0o313, 0o061]);
    let op = cpu.get_operation();
    assert_eq!(op.kind(), OpKind::SwapR8);

    // Swap 0s
    cpu.registers.f = 0b1111_0000;
    cpu.run_operation(op).unwrap();
    assert_eq!(cpu.registers.c, 0b0000_0000);
    assert_eq!(cpu.registers.f, 0b1000_0000);

    // Swap
    cpu.registers.c = 0b0110_1010;
    cpu.run_operation(op).unwrap();
    assert_eq!(cpu.registers.c, 0b1010_0110);
    assert_eq!(cpu.registers.f, 0b0000_0000);

    // Swap back
    cpu.run_operation(op).unwrap();
    assert_eq!(cpu.registers.c, 0b0110_1010);
    assert_eq!(cpu.registers.f, 0b0000_0000);
}

#[test]
fn test_call_cc_n16() {
    let mut cpu = CPU::new();
    cpu.ram
        .test_load(0, vec![0o314, 0b1111_0110, 0, 0o314, 0b1111_0110, 0]);
    cpu.registers.set_sp(100);
    let op = cpu.get_operation();
    assert_eq!(op.kind(), OpKind::CallCcN16);

    // Condition not met
    assert_eq!(cpu.registers.get_sp(), 100);
    cpu.run_operation(op).unwrap();
    assert_eq!(cpu.registers.get_sp(), 100);
    assert_eq!(cpu.registers.pc, 3);

    // Condition met
    cpu.registers.set_flag(Flag::Zero, true);
    let op = cpu.get_operation();
    assert_eq!(op.kind(), OpKind::CallCcN16);
    cpu.run_operation(op).unwrap();
    assert_eq!(cpu.registers.get_sp(), 98);
    assert_eq!(cpu.registers.pc, 0b1111_0110);
    assert_eq!(cpu.ram.read(99), 0);
    assert_eq!(cpu.ram.read(98), 6);
}

#[test]
fn test_ret() {
    let mut cpu = CPU::new();
    cpu.ram.test_load(0, vec![0o311, 0o325, 0o335]);
    let op = cpu.get_operation();
    assert_eq!(op.kind(), OpKind::Ret);

    // Push return address onto stack
    cpu.registers.set_sp(100);
    cpu.stack_push_16(0b0000_1111_1010_1010);

    cpu.run_operation(op).unwrap();
    assert_eq!(cpu.registers.get_sp(), 100);
    assert_eq!(cpu.registers.pc, 0b0000_1111_1010_1010);
}

#[test]
fn test_push_r16() {
    let mut cpu = CPU::new();
    cpu.ram.test_load(0, vec![0o325, 0o365]);
    cpu.registers.set_sp(100);
    let op = cpu.get_operation();
    assert_eq!(op.kind(), OpKind::PushR16);

    cpu.registers.d = 0b1111_0000;
    cpu.registers.e = 0b1010_1010;
    cpu.run_operation(op).unwrap();
    assert_eq!(cpu.registers.get_sp(), 98);
    assert_eq!(cpu.ram.read(99), 0b1111_0000);
    assert_eq!(cpu.ram.read(98), 0b1010_1010);

    cpu.registers.a = 0b0000_1111;
    cpu.registers.f = 0b0101_1111;
    let op = cpu.get_operation();
    cpu.run_operation(op).unwrap();
    assert_eq!(cpu.registers.get_sp(), 96);
    assert_eq!(cpu.ram.read(97), 0b0000_1111);
    assert_eq!(cpu.ram.read(96), 0b0101_0000);
}

#[test]
fn test_pop_r16() {
    let mut cpu = CPU::new();
    cpu.ram.test_load(0, vec![0o301, 0o361]);
    cpu.registers.set_sp(100);
    let op = cpu.get_operation();
    assert_eq!(op.kind(), OpKind::PopR16);

    cpu.stack_push_16(0b0000_1111_0101_0101);
    cpu.stack_push_16(0b1111_0000_1010_1010);

    cpu.run_operation(op).unwrap();
    assert_eq!(cpu.registers.b, 0b1111_0000);
    assert_eq!(cpu.registers.c, 0b1010_1010);
    assert_eq!(cpu.registers.f, 0b0000_0000);
    assert_eq!(cpu.registers.get_sp(), 98);

    let op = cpu.get_operation();
    cpu.run_operation(op).unwrap();
    assert_eq!(cpu.registers.a, 0b0000_1111);
    assert_eq!(cpu.registers.f, 0b0101_0000);
    assert_eq!(cpu.registers.get_sp(), 100);
}

#[test]
fn test_j() {
    // JP n16
    let mut cpu = CPU::new();
    cpu.ram.test_load(0, vec![0o303]);
    let op = cpu.get_operation();
    assert_eq!(op.kind(), OpKind::JpN16);

    // JP HL
    let mut cpu = CPU::new();
    cpu.ram.test_load(0, vec![0o351]);
    let op = cpu.get_operation();
    assert_eq!(op.kind(), OpKind::JpHl);

    // JP cc n16
    let mut cpu = CPU::new();
    cpu.ram.test_load(0, vec![0o302]);
    let op = cpu.get_operation();
    assert_eq!(op.kind(), OpKind::JpCcN16);

    // JR n16
    let mut cpu = CPU::new();
    cpu.ram.test_load(0, vec![0o030]);
    let op = cpu.get_operation();
    assert_eq!(op.kind(), OpKind::JrN16);
}

#[test]
fn test_jr_cc_n16() {
    let mut cpu = CPU::new();
    cpu.registers.pc = 500;
    cpu.ram
        .test_load(500, vec![0o070, 0b1000_0000, 0o070, 0b1000_0000]);
    let op = cpu.get_operation();
    assert_eq!(op.kind(), OpKind::JrCcN16);

    // Condition not met
    cpu.run_operation(op).unwrap();
    assert_eq!(cpu.registers.pc, 502);

    // Condition met and we jump backwards
    cpu.registers.set_flag(Flag::Carry, true);
    let op = cpu.get_operation();
    cpu.run_operation(op).unwrap();
    assert_eq!(cpu.registers.pc, 504 - 128);

    // Test jump ahead
    cpu.ram.test_load(504 - 128, vec![0o070, 0b0100_0000]);
    let op = cpu.get_operation();
    cpu.run_operation(op).unwrap();
    assert_eq!(cpu.registers.pc, (504 - 128 + 2) + 64);
}

#[test]
fn test_bit_u3_r8() {
    let mut cpu = CPU::new();
    cpu.ram.test_load(0, vec![0o313, 0o121]);
    let op = cpu.get_operation();
    assert_eq!(op.kind(), OpKind::BitU3R8);

    // Run with bit set
    cpu.registers.c = 0b0000_0100;
    cpu.run_operation(op).unwrap();
    assert_eq!(cpu.registers.f, 0b0010_0000);

    // Run with bit unset
    cpu.registers.c = 0b1111_1011;
    cpu.run_operation(op).unwrap();
    assert_eq!(cpu.registers.f, 0b1010_0000);

    cpu.registers.c = 0b0000_0000;
    cpu.run_operation(op).unwrap();
    assert_eq!(cpu.registers.f, 0b1010_0000);
}

#[test]
fn test_bit_u3_hl() {
    let mut cpu = CPU::new();
    cpu.ram.test_load(0, vec![0o313, 0o166]);
    let op = cpu.get_operation();
    assert_eq!(op.kind(), OpKind::BitU3Hl);

    // Run with bit set
    cpu.registers.set_hl(10);
    cpu.ram.test_load(10, vec![0b0100_0000]);
    cpu.run_operation(op).unwrap();
    assert_eq!(cpu.registers.f, 0b0010_0000);

    // Run with bit unset
    cpu.ram.test_load(10, vec![0b1011_1111]);
    cpu.run_operation(op).unwrap();
    assert_eq!(cpu.registers.f, 0b1010_0000);

    cpu.ram.test_load(10, vec![0b0000_0000]);
    cpu.run_operation(op).unwrap();
    assert_eq!(cpu.registers.f, 0b1010_0000);
}

#[test]
fn test_res_u3_r8() {
    let mut cpu = CPU::new();
    cpu.ram.test_load(0, vec![0o313, 0o250]);
    let op = cpu.get_operation();
    assert_eq!(op.kind(), OpKind::ResU3R8);

    // Run with bit set
    cpu.registers.b = 0b1111_1111;
    cpu.run_operation(op).unwrap();
    assert_eq!(cpu.registers.b, 0b1101_1111);

    // Run with bit unset
    cpu.run_operation(op).unwrap();
    assert_eq!(cpu.registers.b, 0b1101_1111);
}

#[test]
fn test_res_u3_hl() {
    let mut cpu = CPU::new();
    cpu.ram.test_load(0, vec![0o313, 0o226]);
    let op = cpu.get_operation();
    assert_eq!(op.kind(), OpKind::ResU3Hl);

    // Run with bit set
    cpu.registers.set_hl(25);
    cpu.ram.test_load(25, vec![0b0110_0101]);
    cpu.run_operation(op).unwrap();
    assert_eq!(cpu.ram.read(25), 0b0110_0001);

    // Run with bit unset
    cpu.run_operation(op).unwrap();
    assert_eq!(cpu.ram.read(25), 0b0110_0001);
}

#[test]
fn test_set_u3_r8() {
    let mut cpu = CPU::new();
    cpu.ram.test_load(0, vec![0o313, 0o350]);
    let op = cpu.get_operation();
    assert_eq!(op.kind(), OpKind::SetU3R8);

    // Run with bit set
    cpu.registers.b = 0b1101_1111;
    cpu.run_operation(op).unwrap();
    assert_eq!(cpu.registers.b, 0b1111_1111);

    // Run with bit unset
    cpu.run_operation(op).unwrap();
    assert_eq!(cpu.registers.b, 0b1111_1111);
}

#[test]
fn test_set_u3_hl() {
    let mut cpu = CPU::new();
    cpu.ram.test_load(0, vec![0o313, 0o326]);
    let op = cpu.get_operation();
    assert_eq!(op.kind(), OpKind::SetU3Hl);

    // Run with bit set
    cpu.registers.set_hl(25);
    cpu.ram.test_load(25, vec![0b0110_0001]);
    cpu.run_operation(op).unwrap();
    assert_eq!(cpu.ram.read(25), 0b0110_0101);

    // Run with bit unset
    cpu.run_operation(op).unwrap();
    assert_eq!(cpu.ram.read(25), 0b0110_0101);
}

#[test]
#[should_panic]
fn test_panics_for_unknown() {
    let mut cpu = CPU::new();
    cpu.ram.test_load(0, vec![0o374]);
    let op = cpu.get_operation();
    cpu.run_operation(op).unwrap();
}

#[test]
fn test_ei_di() {
    let mut cpu = CPU::new();
    cpu.ram.test_load(0, vec![0o373, 0, 0o373, 0o363]);
    let op = cpu.get_operation();
    assert_eq!(op.kind(), OpKind::Ei);
    cpu.run_operation(op).unwrap();

    // IME not set yet
    cpu.run_operation(op).unwrap();
    assert_eq!(cpu.ime, Ime::ToSet);

    // After an instruction is run
    let op = cpu.get_operation();
    cpu.run_operation(op).unwrap();
    assert_eq!(cpu.ime, Ime::On);

    // Reset IME and retry
    cpu.ime = Ime::Off;
    let op = cpu.get_operation();
    cpu.run_operation(op).unwrap();
    assert_eq!(cpu.ime, Ime::ToSet);

    // If DI is the next instruction
    let op = cpu.get_operation();
    cpu.run_operation(op).unwrap();
    assert_eq!(cpu.ime, Ime::Off);
}

#[test]
fn test_halt() {
    let mut cpu = CPU::new();
    cpu.ram.test_load(0, vec![0o166, 0o166, 0o306, 99]);
    let op = cpu.get_operation();

    // IME not set and no interrupt pending
    assert_eq!(op.kind(), OpKind::Halt);
    cpu.run_operation(op).unwrap();
    assert_eq!(cpu.mode, Mode::LowPower);

    // IME not set and interrupt pending, we get the halt bug
    cpu.mode = Mode::NormalSpeed;
    cpu.ram.test_load(0xFFFF, vec![0b1111_1111]);
    cpu.ram.test_load(0xFF0F, vec![0b1111_1111]);
    let op = cpu.get_operation();
    cpu.run_operation(op).unwrap();
    assert_eq!(cpu.mode, Mode::NormalSpeed);
    assert!(cpu.halt_bug_active);

    // Now when we run our add instruction, we expect to add 99 to 'A' but
    // instead we add 0o306
    let op = cpu.get_operation();
    assert_eq!(op.kind(), OpKind::AddAN8);
    cpu.run_operation(op).unwrap();
    assert_eq!(cpu.registers.a, 0o306);
    assert_eq!(cpu.registers.pc, 3, "The program counter should be pointing to our n8 value now");
    assert_eq!(cpu.ram.read(cpu.registers.pc), 99);
}

#[test]
fn test_stop() {
    let mut cpu = CPU::new();
    cpu.ram.test_load(0, vec![0o020]);
    let op = cpu.get_operation();
    assert_eq!(op.kind(), OpKind::Stop);

    cpu.run_operation(op).unwrap();
    assert_eq!(cpu.mode, Mode::VeryLowPower);
}

#[test]
fn test_daa() {
    let mut cpu = CPU::new();
    cpu.ram.test_load(0, vec![0o047]);
    let op = cpu.get_operation();
    assert_eq!(op.kind(), OpKind::Daa);

    // A is 0 and no flags are set
    cpu.run_operation(op).unwrap();
    assert_eq!(cpu.registers.f, 0b1000_0000);

    // Subtraction flag NOT set
    cpu.registers.a = 0;
    cpu.registers.f = 0b1010_0000;
    cpu.run_operation(op).unwrap();
    assert_eq!(cpu.registers.f, 0b0000_0000);
    assert_eq!(cpu.registers.a, 0b0000_0110, "0x6 should have been added due to the half carry");

    cpu.registers.a = 0;
    cpu.registers.f = 0b1001_0000;
    cpu.run_operation(op).unwrap();
    assert_eq!(cpu.registers.f, 0b0001_0000);
    assert_eq!(cpu.registers.a, 0b0110_0000, "0x60 should have been added due to the half carry");

    cpu.registers.a = 0b0000_1010;
    cpu.registers.f = 0b0000_0000;
    cpu.run_operation(op).unwrap();
    assert_eq!(cpu.registers.f, 0b0000_0000);
    assert_eq!(cpu.registers.a, 0b0001_0000, "0x6 should have been added as A & 0xF > $9");

    // Subtraction flag SET
    // Zero
    cpu.registers.a = 0;
    cpu.registers.f = 0b1100_0000;
    cpu.run_operation(op).unwrap();
    assert_eq!(cpu.registers.f, 0b1100_0000);
    assert_eq!(cpu.registers.a, 0);

    // If subtract flag set, we don't subtract anything even if A is greater
    // than some numbers
    cpu.registers.a = 0b0111_1111;
    cpu.registers.f = 0b1100_0000;
    cpu.run_operation(op).unwrap();
    assert_eq!(cpu.registers.f, 0b0100_0000);
    assert_eq!(cpu.registers.a, 0b0111_1111);

    // Half carry
    cpu.registers.a = 7;
    cpu.registers.f = 0b1110_0000;
    cpu.run_operation(op).unwrap();
    assert_eq!(cpu.registers.f, 0b0100_0000);
    assert_eq!(cpu.registers.a, 1, "0x6 should have been subtracted");

    // Carry removes carry flag
    cpu.registers.a = 0x61;
    cpu.registers.f = 0b1101_0000;
    cpu.run_operation(op).unwrap();
    assert_eq!(cpu.registers.f, 0b0101_0000, "Carry flag should be kept if subtract flag is set");
    assert_eq!(cpu.registers.a, 1, "0x60 should have been subtracted");
}

#[test]
fn test_instruction() {
    let instruction = 0b0000_0000_1000_1111u16 as u8;
    assert_eq!(op_first_u3(instruction), 0b010);
    assert_eq!(op_middle_u3(instruction), 0b001);
    assert_eq!(op_last_u3(instruction), 0b111);
    assert_eq!(op_interleaved_r16(instruction, true), 0);
    assert_eq!(op_interleaved_r16(instruction, false), 0);

    let instruction = 0b0000_0000_1001_1111u16 as u8;
    assert_eq!(op_interleaved_r16(instruction, false), 1);
}
