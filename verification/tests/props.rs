use dmg_core::cartridge::{Cartridge, CartridgeError, ROM_BANK_SIZE};
use dmg_core::cpu::{CpuError, Instruction, Target, CPU};
use dmg_core::mmu::MMU;
use dmg_core::ppu::{Mode, PPU};

const ROM: [u8; 32768] = [0; 32768];

fn cartridge() -> Cartridge {
    match Cartridge::new(ROM.to_vec()) {
        Err(e) => panic!("Error loading cartridge: {:#?}", e),
        Ok(c) => c,
    }
}

fn mbc1_cartridge() -> Cartridge {
    let mut rom: Vec<u8> = vec![0; 0x10000];
    rom[0x147] = 1;
    rom[0x148] = 1;
    rom[0x149] = 2;
    match Cartridge::new(rom) {
        Err(e) => panic!("Error loading cartridge: {:#?}", e),
        Ok(c) => c,
    }
}

#[test]
fn flag_low_nibble_zero_after_execute() {
    let mut cpu = CPU::new();
    let cartridge = cartridge();
    let mut mmu = MMU::new(cartridge);
    cpu.reg.a = 0xFF;
    let _ = cpu.execute(&mut mmu, Instruction::ADD(Target::A));
    assert_eq!(cpu.reg.f() & 0x0F, 0);
    let _ = cpu.execute(&mut mmu, Instruction::POP(Target::AF));
    assert_eq!(cpu.reg.f() & 0x0F, 0);
}

#[test]
fn rom_reads_mask_out_of_range_banks() {
    // a 64 KiB MBC1 image has four banks; selecting bank 5 wraps to bank 1
    let mut rom: Vec<u8> = vec![0; 0x10000];
    rom[0x147] = 1;
    rom[0x148] = 1;
    rom[0x5123] = 0x99;
    let cartridge = match Cartridge::new(rom) {
        Err(e) => panic!("Error loading cartridge: {:#?}", e),
        Ok(c) => c,
    };
    let mut mmu = MMU::new(cartridge);
    mmu.wb(0x2000, 0x05);
    assert_eq!(mmu.rb(0x5123), 0x99);
}

#[test]
fn timer_counter_advances_four_per_m_cycle() {
    let cartridge = cartridge();
    let mut mmu = MMU::new(cartridge);
    mmu.wb(0xFF07, 0b0101);
    let before = mmu.timer.counter;
    mmu.timer.tick_n(&mut mmu.intr, 37);
    assert_eq!(mmu.timer.counter, before.wrapping_add(4 * 37));
}

#[test]
fn ppu_tick_n_equals_repeated_tick() {
    let mut mmu_a = MMU::new(cartridge());
    let mut mmu_b = MMU::new(cartridge());
    let mut ppu_a = PPU::new();
    let mut ppu_b = PPU::new();
    mmu_a.wb(0xFF40, 0x80);
    mmu_b.wb(0xFF40, 0x80);

    ppu_a.tick_n(&mut mmu_a, 130);
    for _ in 0..130 {
        ppu_b.tick(&mut mmu_b);
    }
    assert_eq!(mmu_a.rb(0xFF44), mmu_b.rb(0xFF44));
    assert_eq!(ppu_a.stat.mode, ppu_b.stat.mode);
    assert_eq!(ppu_a.mode_clock, ppu_b.mode_clock);
    assert_eq!(mmu_a.rb(0xFF41), mmu_b.rb(0xFF41));
}

#[test]
fn mbc1_offsets_are_whole_banks() {
    let mut mmu = MMU::new(mbc1_cartridge());
    mmu.wb(0x2000, 0x1B);
    mmu.wb(0x4000, 0x02);
    mmu.wb(0x6000, 0x01);
    let (lower, upper) = mmu.cartridge.rom_offsets;
    assert_eq!(lower % ROM_BANK_SIZE, 0);
    assert_eq!(upper % ROM_BANK_SIZE, 0);
    assert_eq!(upper / ROM_BANK_SIZE, 0x5B);
    assert_eq!(lower / ROM_BANK_SIZE, 0x40);
}

#[test]
fn interrupt_flag_write_forces_high_bits() {
    let cartridge = cartridge();
    let mut mmu = MMU::new(cartridge);
    mmu.wb(0xFF0F, 0x03);
    assert_eq!(mmu.rb(0xFF0F), 0xE3);
    assert_eq!(mmu.rb(0xFF0F) & 0b1110_0000, 0b1110_0000);
}

#[test]
fn pop_after_push_round_trips() {
    let mut cpu = CPU::new();
    let cartridge = cartridge();
    let mut mmu = MMU::new(cartridge);
    cpu.reg.sp = 0xC080;
    cpu.push(&mut mmu, 0xBEE7);
    assert_eq!(cpu.reg.sp, 0xC07E);
    let v = cpu.pop(&mut mmu);
    assert_eq!(v, 0xBEE7);
    assert_eq!(cpu.reg.sp, 0xC080);
}

#[test]
fn read_back_written_cell() {
    let cartridge = cartridge();
    let mut mmu = MMU::new(cartridge);
    mmu.wb(0x9ABC, 0x5A);
    assert_eq!(mmu.rb(0x9ABC), 0x5A);
    mmu.wb(0xD123, 0xA5);
    assert_eq!(mmu.rb(0xD123), 0xA5);
    mmu.wb(0xFF85, 0x77);
    assert_eq!(mmu.rb(0xFF85), 0x77);
}

#[test]
fn rlc_then_rrc_is_identity() {
    let mut cpu = CPU::new();
    let cartridge = cartridge();
    let mut mmu = MMU::new(cartridge);
    cpu.reg.b = 0x95;
    let _ = cpu.execute(&mut mmu, Instruction::RLC(Target::B));
    assert_eq!(cpu.reg.get_flag(dmg_core::registers::Flag::C), true);
    assert_eq!(cpu.reg.b, 0x2B);
    let _ = cpu.execute(&mut mmu, Instruction::RRC(Target::B));
    assert_eq!(cpu.reg.b, 0x95);
}

#[test]
fn swap_twice_restores_byte() {
    let mut cpu = CPU::new();
    let cartridge = cartridge();
    let mut mmu = MMU::new(cartridge);
    cpu.reg.e = 0x3C;
    let _ = cpu.execute(&mut mmu, Instruction::SWAP(Target::E));
    assert_eq!(cpu.reg.e, 0xC3);
    assert_eq!(cpu.reg.get_flag(dmg_core::registers::Flag::Z), false);
    assert_eq!(cpu.reg.get_flag(dmg_core::registers::Flag::C), false);
    let _ = cpu.execute(&mut mmu, Instruction::SWAP(Target::E));
    assert_eq!(cpu.reg.e, 0x3C);
}

#[test]
fn inc_dec_half_carry_boundaries() {
    let mut cpu = CPU::new();
    let cartridge = cartridge();
    let mut mmu = MMU::new(cartridge);
    cpu.reg.b = 0x0F;
    let _ = cpu.execute(&mut mmu, Instruction::INC(Target::B));
    assert_eq!(cpu.reg.b, 0x10);
    assert_eq!(cpu.reg.get_flag(dmg_core::registers::Flag::H), true);

    cpu.reg.c = 0x10;
    let _ = cpu.execute(&mut mmu, Instruction::DEC(Target::C));
    assert_eq!(cpu.reg.c, 0x0F);
    assert_eq!(cpu.reg.get_flag(dmg_core::registers::Flag::H), true);

    cpu.reg.d = 0x10;
    let _ = cpu.execute(&mut mmu, Instruction::INC(Target::D));
    assert_eq!(cpu.reg.d, 0x11);
    assert_eq!(cpu.reg.get_flag(dmg_core::registers::Flag::H), false);
}

#[test]
fn add_eight_plus_eight_sets_half_carry_only() {
    let mut cpu = CPU::new();
    let cartridge = cartridge();
    let mut mmu = MMU::new(cartridge);
    cpu.reg.a = 0x08;
    cpu.reg.b = 0x08;
    let _ = cpu.execute(&mut mmu, Instruction::ADD(Target::B));
    assert_eq!(cpu.reg.a, 0x10);
    assert_eq!(cpu.reg.get_flag(dmg_core::registers::Flag::Z), false);
    assert_eq!(cpu.reg.get_flag(dmg_core::registers::Flag::N), false);
    assert_eq!(cpu.reg.get_flag(dmg_core::registers::Flag::H), true);
    assert_eq!(cpu.reg.get_flag(dmg_core::registers::Flag::C), false);
}

#[test]
fn timer_reload_scenario() {
    let cartridge = cartridge();
    let mut mmu = MMU::new(cartridge);
    mmu.wb(0xFF05, 0xFF);
    mmu.wb(0xFF06, 0x20);
    mmu.wb(0xFF07, 0b0101);
    for _ in 0..4 {
        mmu.timer.tick(&mut mmu.intr);
    }
    assert_eq!(mmu.rb(0xFF0F), 0b1110_0100);
    assert_eq!(mmu.rb(0xFF05), 0x20);
}

#[test]
fn ppu_full_scanline() {
    let cartridge = cartridge();
    let mut mmu = MMU::new(cartridge);
    let mut ppu = PPU::new();
    mmu.wb(0xFF40, 0x80);
    let ly_before = mmu.rb(0xFF44);
    ppu.tick_n(&mut mmu, 114);
    assert_eq!(mmu.rb(0xFF44), ly_before + 1);
    assert_eq!(ppu.stat.mode, Mode::OAMSearch);
}

#[test]
fn oam_dma_copies_from_source_page() {
    let cartridge = cartridge();
    let mut mmu = MMU::new(cartridge);
    for lo in 0..0xA0u16 {
        mmu.wb(0xC000 | lo, (lo as u8).wrapping_mul(3).wrapping_add(7));
    }
    mmu.wb(0xFF46, 0xC0);
    for lo in 0..0xA0u16 {
        assert_eq!(mmu.rb(0xFE00 | lo), mmu.rb(0xC000 | lo));
    }
}

#[test]
fn cartridge_header_errors() {
    let r = Cartridge::new(vec![0; 0x100]);
    assert!(matches!(r, Err(CartridgeError::MissingHeaderInformation)));

    let mut rom: Vec<u8> = vec![0; 32768];
    rom[0x143] = 0xC0;
    assert!(matches!(Cartridge::new(rom), Err(CartridgeError::UnsupportedROMType)));

    let mut rom: Vec<u8> = vec![0; 32768];
    rom[0x148] = 0x09;
    assert!(matches!(Cartridge::new(rom), Err(CartridgeError::UnsupportedROMSize)));

    let mut rom: Vec<u8> = vec![0; 32768];
    rom[0x149] = 0x06;
    assert!(matches!(Cartridge::new(rom), Err(CartridgeError::UnsupportedRAMSize)));

    let mut rom: Vec<u8> = vec![0; 32768];
    rom[0x147] = 0x20;
    assert!(matches!(Cartridge::new(rom), Err(CartridgeError::UnsupportedMBC)));
}

#[test]
fn cpu_error_paths() {
    let mut cpu = CPU::new();
    let cartridge = cartridge();
    let mut mmu = MMU::new(cartridge);
    assert!(matches!(
        cpu.execute(&mut mmu, Instruction::NULL),
        Err(CpuError::NullOpcode)
    ));
    assert!(matches!(cpu.execute(&mut mmu, Instruction::STOP), Err(CpuError::Stop)));
    assert!(matches!(
        cpu.execute(&mut mmu, Instruction::XOR(Target::SP)),
        Err(CpuError::BadOperand)
    ));
    // an unused primary opcode is fatal at fetch
    cpu.reg.pc = 0xC000;
    mmu.wb(0xC000, 0xD3);
    assert!(matches!(cpu.step(&mut mmu), Err(CpuError::NullOpcode)));
}

#[test]
fn joypad_select_lines() {
    let cartridge = cartridge();
    let mut mmu = MMU::new(cartridge);
    mmu.joypad.button_down(dmg_core::joypad::Button::Start, &mut mmu.intr);
    assert_eq!(mmu.intr.flags & 0x10, 0x10);
    // select the action pack (bit 5 low)
    mmu.wb(0xFF00, 0b0001_0000);
    let state = mmu.rb(0xFF00);
    assert_eq!(state & 0b1100_0000, 0b1100_0000);
    assert_eq!(state & 0b0000_1000, 0);
    mmu.joypad.button_up(dmg_core::joypad::Button::Start);
    let state = mmu.rb(0xFF00);
    assert_eq!(state & 0b0000_1000, 0b0000_1000);
    // neither line selected: the low nibble reads all ones
    mmu.wb(0xFF00, 0b0011_0000);
    assert_eq!(mmu.rb(0xFF00), 0xFF);
}

#[test]
fn boot_overlay_until_disable() {
    let cartridge = cartridge();
    let mut mmu = MMU::new(cartridge);
    let boot: Vec<u8> = vec![0xAB; 0x100];
    mmu.read_boot(&boot);
    assert_eq!(mmu.rb(0x0042), 0xAB);
    mmu.wb(0xFF50, 1);
    assert_eq!(mmu.rb(0x0042), 0x00);
}

#[test]
fn halt_wakes_on_pending_interrupt() {
    let mut cpu = CPU::new();
    let cartridge = cartridge();
    let mut mmu = MMU::new(cartridge);
    cpu.reg.pc = 0xC000;
    cpu.reg.sp = 0xFFFE;
    mmu.wb(0xC000, 0x76); // HALT
    let _ = cpu.step(&mut mmu);
    // halted with nothing pending: PC stays put
    let _ = cpu.step(&mut mmu);
    assert_eq!(cpu.reg.pc, 0xC001);
    // a pending enabled interrupt wakes the CPU; with IME clear it is not
    // dispatched and execution resumes
    mmu.wb(0xFFFF, 0x01);
    mmu.wb(0xFF0F, 0x01);
    let _ = cpu.step(&mut mmu);
    assert_eq!(cpu.reg.pc, 0xC001);
    mmu.wb(0xC001, 0x00);
    let _ = cpu.step(&mut mmu);
    assert_eq!(cpu.reg.pc, 0xC002);
}
