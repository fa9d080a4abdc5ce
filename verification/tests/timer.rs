use dmg_core::cartridge::Cartridge;
use dmg_core::mmu::MMU;

const ROM: [u8; 32768] = [0; 32768];

pub fn cartridge() -> Cartridge {
    match Cartridge::new(ROM.to_vec()) {
        Err(e) => panic!("Error loading cartridge: {:#?}", e),
        Ok(c) => c,
    }
}

#[test]
fn div() {
    let cartridge = cartridge();
    let mut mmu = MMU::new(cartridge);

    for _ in 0..63 {
        mmu.timer.tick(&mut mmu.intr);
    }

    assert_eq!(mmu.rb(0xFF04), 0);
    mmu.timer.tick(&mut mmu.intr);
    assert_eq!(mmu.rb(0xFF04), 1);

    for _ in 0..64 {
        mmu.timer.tick(&mut mmu.intr);
    }

    assert_eq!(mmu.rb(0xFF04), 2);

    for _ in 0..128 {
        mmu.timer.tick(&mut mmu.intr);
    }

    assert_eq!(mmu.rb(0xFF04), 4);
}

#[test]
fn write_div() {
    let cartridge = cartridge();
    let mut mmu = MMU::new(cartridge);

    mmu.timer.tick_n(&mut mmu.intr, 64);

    assert_eq!(mmu.rb(0xFF04), 1);
    mmu.wb(0xFF04, 0x7F);
    assert_eq!(mmu.rb(0xFF04), 0);
    assert_eq!(mmu.timer.counter, 0);
    assert_eq!(mmu.timer.div, 0);
}

#[test]
fn tima() {
    let cartridge = cartridge();
    let mut mmu = MMU::new(cartridge);

    // enable timer, increment every 256 M-cycles
    mmu.wb(0xFF07, 0b0100);
    mmu.wb(0xFF05, 0);
    for _ in 0..255 {
        mmu.timer.tick(&mut mmu.intr);
        assert_eq!(mmu.rb(0xFF05), 0);
    }
    mmu.timer.tick(&mut mmu.intr);
    assert_eq!(mmu.rb(0xFF05), 1);

    // enable timer, increment every 4 M-cycles
    mmu.wb(0xFF07, 0b0101);
    mmu.wb(0xFF05, 0);
    for _ in 0..3 {
        mmu.timer.tick(&mut mmu.intr);
        assert_eq!(mmu.rb(0xFF05), 0);
    }
    mmu.timer.tick(&mut mmu.intr);
    assert_eq!(mmu.rb(0xFF05), 1);

    // enable timer, increment every 16 M-cycles
    mmu.wb(0xFF07, 0b0110);
    mmu.wb(0xFF05, 0);
    for _ in 0..15 {
        mmu.timer.tick(&mut mmu.intr);
        assert_eq!(mmu.rb(0xFF05), 0);
    }
    mmu.timer.tick(&mut mmu.intr);
    assert_eq!(mmu.rb(0xFF05), 1);

    // enable timer, increment every 64 M-cycles
    mmu.wb(0xFF07, 0b0111);
    mmu.wb(0xFF05, 0);
    for _ in 0..63 {
        mmu.timer.tick(&mut mmu.intr);
        assert_eq!(mmu.rb(0xFF05), 0);
    }
    mmu.timer.tick(&mut mmu.intr);
    assert_eq!(mmu.rb(0xFF05), 1);
}

#[test]
fn overflow() {
    let cartridge = cartridge();
    let mut mmu = MMU::new(cartridge);
    mmu.wb(0xFF06, 0x20);
    assert_eq!(mmu.timer.tma, 0x20);
    assert_eq!(mmu.timer.tma, 0x20);

    // enable timer, increment every 4 M-cycles
    mmu.wb(0xFF07, 0b0101);
    mmu.wb(0xFF05, 0);
    for _ in 0..1023 {
        mmu.timer.tick(&mut mmu.intr);
        assert_eq!(mmu.rb(0xFF0F), 0b1110_0000);
    }
    assert_eq!(mmu.rb(0xFF05), 255);
    mmu.timer.tick(&mut mmu.intr);
    assert_eq!(mmu.rb(0xFF0F), 0b1110_0100);
    assert_eq!(mmu.intr.flags, 0b0100);
    assert_eq!(mmu.intr.flags, 0b0100);
    assert_eq!(mmu.rb(0xFF05), 0x20);
}
