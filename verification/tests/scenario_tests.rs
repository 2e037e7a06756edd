use webboy::cpu::{Ime, Mode, CPU};
use webboy::device::Device;
use webboy::dma::DMA;
use webboy::error::EmuError;
use webboy::palette::Color;
use webboy::ppu::PPU;
use webboy::ram::{Ram, TestRamOperations};
use webboy::tlu::TLU;

#[test]
fn half_carry_on_add() {
    // A=0x0F, B=0x01, ADD A,B: result 0x10 with only H set
    let mut cpu = CPU::new();
    cpu.ram.test_load(0, vec![0o200]);
    cpu.registers.a = 0x0F;
    cpu.registers.b = 0x01;
    let op = cpu.get_operation();
    cpu.run_operation(op).unwrap();
    assert_eq!(cpu.registers.a, 0x10);
    assert_eq!(cpu.registers.f, 0b0010_0000, "Z=0 N=0 H=1 C=0");
}

#[test]
fn adc_with_carry_set() {
    // A=0xFF, B=0x00, C=1, ADC A,B: result 0x00 with Z, H and C set
    let mut cpu = CPU::new();
    cpu.ram.test_load(0, vec![0o210]);
    cpu.registers.a = 0xFF;
    cpu.registers.b = 0x00;
    cpu.registers.f = 0b0001_0000;
    let op = cpu.get_operation();
    cpu.run_operation(op).unwrap();
    assert_eq!(cpu.registers.a, 0x00);
    assert_eq!(cpu.registers.f, 0b1011_0000, "Z=1 N=0 H=1 C=1");
}

#[test]
fn daa_after_add() {
    // 0x45 + 0x38 = 0x7D, then DAA gives the packed BCD sum 0x83
    let mut cpu = CPU::new();
    cpu.ram.test_load(0, vec![0o200, 0o047]);
    cpu.registers.a = 0x45;
    cpu.registers.b = 0x38;
    let op = cpu.get_operation();
    cpu.run_operation(op).unwrap();
    assert_eq!(cpu.registers.a, 0x7D);
    let op = cpu.get_operation();
    cpu.run_operation(op).unwrap();
    assert_eq!(cpu.registers.a, 0x83);
    assert_eq!(cpu.registers.f, 0b0000_0000, "Z=0 N=0 H=0 C=0");
}

#[test]
fn halt_bug_at_boot_address() {
    // IME off with IF and IE full: HALT stays running, latches the bug, and
    // the next opcode byte is fetched twice
    let mut cpu = CPU::new();
    cpu.boot();
    cpu.ram.test_load(0x0100, vec![0o166, 0o306, 99]);
    cpu.ram.test_load(0xFFFF, vec![0xFF]);
    cpu.ram.test_load(0xFF0F, vec![0xFF]);
    assert_eq!(cpu.ime, Ime::Off);

    let op = cpu.get_operation();
    cpu.run_operation(op).unwrap();
    assert_eq!(cpu.mode, Mode::NormalSpeed, "the mode must not change");
    assert!(cpu.halt_bug_active);
    assert_eq!(cpu.registers.pc, 0x0101);

    // the add instruction reads its own opcode byte as the operand, since
    // the latched bug made the opcode fetch fail to advance PC
    let a_before = cpu.registers.a;
    let op = cpu.get_operation();
    cpu.run_operation(op).unwrap();
    assert_eq!(cpu.registers.a, a_before.wrapping_add(0o306));
    assert_eq!(cpu.registers.pc, 0x0102, "PC points at the unconsumed operand byte");
    assert_eq!(cpu.ram.read(0x0102), 99, "the true operand byte is untouched");
}

#[test]
fn dma_copy_mirrors_vram_page() {
    // writing 0x80 to the trigger register copies 0x8000..0x809F into OAM
    let mut ram = Ram::new();
    for i in 0..0xA0u16 {
        ram.write(0x8000 + i, (i as u8).wrapping_mul(3).wrapping_add(7));
    }
    ram.write(0xFF46, 0x80);
    assert!(ram.dma_requested());

    let mut dma = DMA::new();
    let mut budget = 0;
    while ram.dma_requested() && budget < 200 {
        dma.tick_transfer(&mut ram, 2);
        budget += 1;
    }
    assert!(!ram.dma_requested());
    for i in 0..0xA0u16 {
        assert_eq!(ram.read(0xFE00 + i), ram.read(0x8000 + i));
    }
}

#[test]
fn vblank_interrupt_after_full_frame_of_scanlines() {
    // after exactly 144 * 456 dots from scan start, IF bit 0 is set
    let mut ram = Ram::new();
    let mut ppu = PPU::new();

    // 144 * 456 dots = 16416 ticks of one machine cycle (four dots each)
    let ticks = 144 * 456 / 4;
    for i in 0..ticks {
        if i < ticks - 1 {
            assert_eq!(ram.read(0xFF0F) & 0x01, 0, "no vertical blank before the last dot");
        }
        ppu.tick(1, &mut ram);
    }
    assert_eq!(ram.read(0xFF0F) & 0x01, 1, "the vertical blank interrupt is requested");
    assert_eq!(ram.read(0xFF44), 144, "LY reports the first blank scanline");
    assert_eq!(ppu.current_scanline, 144);
}

#[test]
fn ly_mirrors_scanline_every_tick() {
    let mut ram = Ram::new();
    let mut ppu = PPU::new();
    for _ in 0..1000 {
        ppu.tick(3, &mut ram);
        assert_eq!(ram.read(0xFF44), ppu.current_scanline);
    }
}

#[test]
fn rom_too_large_is_refused() {
    let mut ram = Ram::new();
    let image = vec![0xAAu8; 65537];
    assert_eq!(ram.load_rom(&image), Err(EmuError::RomTooLarge));
    assert_eq!(ram.read(0), 0, "a refused image leaves memory untouched");

    let exact = vec![0xBBu8; 65536];
    assert_eq!(ram.load_rom(&exact), Ok(()));
    assert_eq!(ram.read(0xFFFF), 0xBB);
}

#[test]
fn undefined_opcode_is_reported() {
    let mut cpu = CPU::new();
    cpu.ram.test_load(0, vec![0xD3]);
    assert_eq!(cpu.execute(), Err(EmuError::UnknownInstruction(0xD3)));

    // all eleven undefined bytes are refused
    for byte in [0xD3u8, 0xDB, 0xDD, 0xE3, 0xE4, 0xEB, 0xEC, 0xED, 0xF4, 0xFC, 0xFD] {
        let mut cpu = CPU::new();
        cpu.ram.test_load(0, vec![byte]);
        assert_eq!(cpu.execute(), Err(EmuError::UnknownInstruction(byte)));
    }
}

#[test]
fn rlc_then_rrc_is_identity() {
    // the rotate pair restores the byte; run it over a spread of values
    for value in [0x00u8, 0x01, 0x80, 0xA5, 0x5A, 0xFF, 0x37] {
        let mut cpu = CPU::new();
        cpu.ram.test_load(0, vec![0o313, 0o000, 0o313, 0o010]);
        cpu.registers.b = value;
        let op = cpu.get_operation();
        cpu.run_operation(op).unwrap();
        let op = cpu.get_operation();
        cpu.run_operation(op).unwrap();
        assert_eq!(cpu.registers.b, value);
    }
}

#[test]
fn swap_twice_is_identity() {
    for value in [0x00u8, 0x12, 0xF0, 0x0F, 0xA5, 0xFF] {
        let mut cpu = CPU::new();
        cpu.ram.test_load(0, vec![0o313, 0o061, 0o313, 0o061]);
        cpu.registers.c = value;
        let op = cpu.get_operation();
        cpu.run_operation(op).unwrap();
        assert_eq!(cpu.registers.c, ((value & 0x0F) << 4) | ((value & 0xF0) >> 4));
        let op = cpu.get_operation();
        cpu.run_operation(op).unwrap();
        assert_eq!(cpu.registers.c, value);
    }
}

#[test]
fn set_then_bit_clears_z_and_res_then_bit_sets_z() {
    for bit in 0..8u8 {
        let mut cpu = CPU::new();
        // SET bit,B then BIT bit,B then RES bit,B then BIT bit,B
        let set_op = 0o300 | (bit << 3);
        let bit_op = 0o100 | (bit << 3);
        let res_op = 0o200 | (bit << 3);
        cpu.ram
            .test_load(0, vec![0o313, set_op, 0o313, bit_op, 0o313, res_op, 0o313, bit_op]);
        cpu.registers.b = 0x55;

        let op = cpu.get_operation();
        cpu.run_operation(op).unwrap();
        let op = cpu.get_operation();
        cpu.run_operation(op).unwrap();
        assert_eq!(cpu.registers.f & 0x80, 0, "after SET, the probed bit is one so Z is clear");

        let op = cpu.get_operation();
        cpu.run_operation(op).unwrap();
        let op = cpu.get_operation();
        cpu.run_operation(op).unwrap();
        assert_eq!(cpu.registers.f & 0x80, 0x80, "after RES, the probed bit is zero so Z is set");
    }
}

#[test]
fn ld_r8_r8_copies_and_keeps_flags() {
    // every source/destination pair of distinct plain registers
    let codes = [0u8, 1, 2, 3, 4, 5, 7];
    for &dst in &codes {
        for &src in &codes {
            if dst == src {
                continue;
            }
            let mut cpu = CPU::new();
            let opcode = 0o100 | (dst << 3) | src;
            cpu.ram.test_load(0, vec![opcode]);
            cpu.registers.f = 0b1011_0000;
            cpu.registers.set_r8(src, 0x42);
            let op = cpu.get_operation();
            cpu.run_operation(op).unwrap();
            assert_eq!(cpu.registers.get_r8(dst), 0x42);
            assert_eq!(cpu.registers.f, 0b1011_0000, "flags are untouched");
        }
    }
}

#[test]
fn push_bc_then_pop_bc_restores_everything() {
    let mut cpu = CPU::new();
    cpu.ram.test_load(0, vec![0o305, 0o301]);
    cpu.registers.set_sp(0xFFFE);
    cpu.registers.b = 0x12;
    cpu.registers.c = 0x34;
    cpu.registers.f = 0b0110_0000;

    let op = cpu.get_operation();
    cpu.run_operation(op).unwrap();
    assert_eq!(cpu.registers.get_sp(), 0xFFFC, "SP drops by two on a push");

    let op = cpu.get_operation();
    cpu.run_operation(op).unwrap();
    assert_eq!(cpu.registers.b, 0x12);
    assert_eq!(cpu.registers.c, 0x34);
    assert_eq!(cpu.registers.f, 0b0110_0000, "flags unchanged");
    assert_eq!(cpu.registers.get_sp(), 0xFFFE, "SP restored");
}

#[test]
fn pop_af_then_push_af_masks_the_low_nibble_in_memory() {
    let mut cpu = CPU::new();
    cpu.ram.test_load(0, vec![0o361, 0o365]);
    cpu.registers.set_sp(0xC000);
    cpu.ram.test_load(0xC000, vec![0xAB, 0xCD]);

    let op = cpu.get_operation();
    cpu.run_operation(op).unwrap();
    assert_eq!(cpu.registers.a, 0xCD);
    assert_eq!(cpu.registers.f, 0xA0, "the popped F keeps only its high nibble");

    let op = cpu.get_operation();
    cpu.run_operation(op).unwrap();
    assert_eq!(cpu.ram.read(0xC000), 0xA0, "the original low byte with its low nibble forced to zero");
    assert_eq!(cpu.ram.read(0xC001), 0xCD, "the original high byte unchanged");
    assert_eq!(cpu.registers.get_sp(), 0xC000);
}

#[test]
fn interrupt_dispatch_jumps_to_the_handler() {
    let mut cpu = CPU::new();
    // EI then NOP; the NOP's execute sees IME set and a pending VBlank
    cpu.ram.test_load(0, vec![0o373, 0o000]);
    cpu.ram.test_load(0xFFFF, vec![0x01]);
    cpu.ram.test_load(0xFF0F, vec![0x01]);
    cpu.registers.set_sp(0xFFFE);

    let cycles = cpu.execute().unwrap();
    assert_eq!(cycles, 1, "EI costs one machine cycle and does not dispatch yet");
    assert_eq!(cpu.ime, Ime::ToSet);

    let cycles = cpu.execute().unwrap();
    assert_eq!(cycles, 1 + 5, "the NOP plus the five-cycle dispatch");
    assert_eq!(cpu.registers.pc, 0x40, "the vertical blank handler address");
    assert_eq!(cpu.ime, Ime::Off, "dispatch drops the latch");
    assert_eq!(cpu.ram.read(0xFF0F) & 0x01, 0, "the serviced bit is cleared");
    assert_eq!(cpu.registers.get_sp(), 0xFFFC);
    assert_eq!(cpu.ram.read(0xFFFC), 0x02, "the return address was pushed");
}

#[test]
fn halt_sleeps_until_an_interrupt_pends() {
    let mut cpu = CPU::new();
    cpu.ram.test_load(0, vec![0o166, 0o004]);
    let op = cpu.get_operation();
    cpu.run_operation(op).unwrap();
    assert_eq!(cpu.mode, Mode::LowPower);

    // while nothing is pending, execute consumes one cycle and fetches nothing
    let pc = cpu.registers.pc;
    assert_eq!(cpu.execute(), Ok(1));
    assert_eq!(cpu.registers.pc, pc, "no fetch in low power");

    // a pending interrupt wakes the machine
    cpu.ram.test_load(0xFFFF, vec![0x04]);
    cpu.ram.test_load(0xFF0F, vec![0x04]);
    cpu.execute().unwrap();
    assert_eq!(cpu.mode, Mode::NormalSpeed);
    assert_eq!(cpu.registers.b, 1, "the INC B after the halt ran");
}

#[test]
fn tile_decode_and_reencode() {
    // decode one tile row from VRAM through the render unit and rebuild the
    // byte pair from the eight 2-bit values
    let lo = 0x3Cu8;
    let hi = 0x7Eu8;
    let mut ram = Ram::new();
    ram.write(0xFF40, 0b0001_0000); // unsigned tile addressing from 0x8000
    ram.test_load(0x8000, vec![lo, hi]);

    let tlu = TLU {};
    let data = tlu.update(&ram);

    let mut rebuilt_lo: u8 = 0;
    let mut rebuilt_hi: u8 = 0;
    for col in 0..8usize {
        let bits: u8 = match data.tile_data[0][col] {
            Color::White => 0,
            Color::LightGray => 1,
            Color::DarkGray => 2,
            Color::Black => 3,
        };
        rebuilt_lo |= (bits & 1) << (7 - col);
        rebuilt_hi |= ((bits >> 1) & 1) << (7 - col);
    }
    assert_eq!(rebuilt_lo, lo);
    assert_eq!(rebuilt_hi, hi);
}

#[test]
fn background_uses_the_tile_map() {
    let mut ram = Ram::new();
    ram.write(0xFF40, 0b0001_0000);
    // tile 2 is solid black; the map's first cell names tile 2
    let mut tile = Vec::new();
    for _ in 0..16 {
        tile.push(0xFFu8);
    }
    ram.test_load(0x8000 + 2 * 16, tile);
    ram.test_load(0x9800, vec![2]);

    let tlu = TLU {};
    let data = tlu.update(&ram);
    assert_eq!(data.background_data[0][0], Color::Black);
    assert_eq!(data.background_data[7][7], Color::Black);
    assert_eq!(data.background_data[0][8], Color::White, "the next map cell names tile 0");
    assert_eq!(data.tile_data[0][16], Color::Black, "tile 2 sits at column 16 of the table");
}

#[test]
fn device_emits_a_frame_every_17556_cycles() {
    let mut device = Device::new();
    // a ROM of NOPs starting at the boot address
    let rom = vec![0u8; 0x8000];
    device.load(&rom).unwrap();

    let mut frames = 0;
    let mut ticks: u64 = 0;
    // one NOP per tick: 17556 ticks to the first frame
    while frames == 0 && ticks < 20000 {
        if device.tick().unwrap().is_some() {
            frames += 1;
        }
        ticks += 1;
    }
    assert_eq!(ticks, 17556, "the first frame leaves after exactly one frame of cycles");
    assert_eq!(frames, 1);
}

#[test]
fn device_load_rejects_large_roms() {
    let mut device = Device::new();
    let rom = vec![0u8; 70000];
    assert_eq!(device.load(&rom), Err(EmuError::RomTooLarge));
}

#[test]
fn boot_applies_the_post_boot_vector() {
    let mut cpu = CPU::new();
    cpu.boot();
    assert_eq!(cpu.registers.a, 0x01);
    assert_eq!(cpu.registers.f, 0xB0);
    assert_eq!(cpu.registers.c, 0x13);
    assert_eq!(cpu.registers.e, 0xD8);
    assert_eq!(cpu.registers.h, 0x01);
    assert_eq!(cpu.registers.l, 0x4D);
    assert_eq!(cpu.registers.get_sp(), 0xFFFE);
    assert_eq!(cpu.registers.pc, 0x0100);
}

#[test]
fn writing_div_through_the_bus_resets_it() {
    let mut ram = Ram::new();
    ram.test_load(0xFF04, vec![0x55]);
    assert_eq!(ram.read(0xFF04), 0x55);
    ram.write(0xFF04, 0xAB);
    assert_eq!(ram.read(0xFF04), 0, "a CPU write resets the divider");
    ram.tick_div();
    assert_eq!(ram.read(0xFF04), 1, "the timer's own increment moves it on");
}

#[test]
fn f_low_nibble_stays_zero_over_instruction_sequences() {
    // run a spread of flag-heavy instructions from a clean boot state and
    // watch the low nibble of F after every step
    let mut cpu = CPU::new();
    cpu.boot();
    cpu.ram.test_load(
        0x0100,
        vec![0o306, 0x0F, 0o316, 0xF3, 0o047, 0o067, 0o077, 0o027, 0o057, 0o365, 0o361],
    );
    for _ in 0..11 {
        cpu.execute().unwrap();
        assert_eq!(cpu.registers.f & 0x0F, 0);
    }
}

#[test]
fn tima_overflows_on_the_documented_cadence() {
    // with TMA = 0xF0 and the four-cycle period, the overflow comes after
    // exactly (0x100 - 0xF0) * 4 = 64 machine cycles from a reload point
    let mut ram = Ram::new();
    ram.test_load(0xFF07, vec![0b101]); // enabled, period four
    ram.test_load(0xFF06, vec![0xF0]);
    ram.test_load(0xFF05, vec![0xF0]); // TIMA sits at a reload point

    let mut timer = webboy::timer::Timer::new();
    let mut cycles: u32 = 0;
    while ram.read(0xFF0F) & 0x04 == 0 {
        timer.increment_cycle(&mut ram, 1);
        cycles += 1;
        assert!(cycles <= 64, "the overflow must come by 64 machine cycles");
    }
    assert_eq!(cycles, 64, "the overflow comes after exactly (0x100 - TMA) * period cycles");
    assert_eq!(ram.read(0xFF05), 0xF0, "TIMA reloads from TMA");
}

#[test]
fn branch_cycle_counts_follow_the_taken_path() {
    // JP cc: 3 cycles not taken, 4 taken
    let mut cpu = CPU::new();
    cpu.ram.test_load(0, vec![0o302, 0x10, 0x00, 0o312, 0x20, 0x00]);
    cpu.registers.f = 0b1000_0000; // Z set: NZ fails, Z holds
    assert_eq!(cpu.execute(), Ok(3));
    assert_eq!(cpu.registers.pc, 3);
    assert_eq!(cpu.execute(), Ok(4));
    assert_eq!(cpu.registers.pc, 0x20);

    // CALL cc: 3 not taken, 6 taken; RET cc: 2 not taken, 5 taken
    let mut cpu = CPU::new();
    cpu.registers.set_sp(0xFFFE);
    cpu.registers.f = 0b1000_0000; // Z set, so NZ fails and Z holds
    cpu.ram.test_load(0, vec![0o304, 0x08, 0x00, 0o000, 0o000, 0o000, 0o000, 0o000, 0o314, 0x10, 0x00]);
    assert_eq!(cpu.execute(), Ok(3), "NZ call not taken while Z is set");
    cpu.registers.pc = 8;
    assert_eq!(cpu.execute(), Ok(6), "Z call taken");
    assert_eq!(cpu.registers.pc, 0x10);

    cpu.ram.test_load(0x10, vec![0o300, 0o310]);
    assert_eq!(cpu.execute(), Ok(2), "NZ return not taken");
    assert_eq!(cpu.execute(), Ok(5), "Z return taken");
    assert_eq!(cpu.registers.pc, 0x0B, "back to the byte after the call");
}

#[test]
fn memory_operand_cycle_counts() {
    let mut cpu = CPU::new();
    // NOP, LD B,n8, ADD A,(HL), INC (HL), PUSH BC, POP BC, LD (n16),SP
    cpu.ram.test_load(0, vec![0o000, 0o006, 7, 0o206, 0o064, 0o305, 0o301, 0o010, 0x00, 0xC0]);
    cpu.registers.set_hl(0xC100);
    cpu.registers.set_sp(0xFFFE);
    assert_eq!(cpu.execute(), Ok(1));
    assert_eq!(cpu.execute(), Ok(2));
    assert_eq!(cpu.execute(), Ok(2));
    assert_eq!(cpu.execute(), Ok(3));
    assert_eq!(cpu.execute(), Ok(4));
    assert_eq!(cpu.execute(), Ok(3));
    assert_eq!(cpu.execute(), Ok(5));
    assert_eq!(cpu.ram.read(0xC000), 0xFE, "the stack pointer's low byte landed first");
    assert_eq!(cpu.ram.read(0xC001), 0xFF);
}
