use vstd::prelude::*;

verus! {

pub const KILOBYTE: u32 = 1024;

pub const MEGABYTE: u32 = 1024 * KILOBYTE;

/// A ROM window is always a whole 16 KiB bank.
pub const ROM_BANK_SIZE: u32 = 0x4000;

/// A RAM window is always a whole 8 KiB bank.
pub const RAM_BANK_SIZE: u32 = 0x2000;

/// Bank registers of the MBC1 controller: a 5-bit primary bank (never zero),
/// a 2-bit secondary bank, and the banking-mode latch.
#[derive(Debug, Copy, Clone, PartialEq, Eq, Structural)]
pub struct Mbc1 {
    pub ram_enabled: bool,
    pub bank1: u8,
    pub bank2: u8,
    pub mode: bool,
}

impl Mbc1 {
    pub fn setup() -> (r: Mbc1)
        ensures
            r == (Mbc1 { ram_enabled: false, bank1: 0b00001, bank2: 0b00, mode: false }),
    {
        Mbc1 { ram_enabled: false, bank1: 0b00001, bank2: 0b00, mode: false }
    }

    /// Lower window bank is `bank2 << 5` in mode 1 and 0 in mode 0; upper
    /// window bank is `(bank2 << 5) | bank1`.
    pub open spec fn spec_rom_offsets(self) -> (u32, u32) {
        let bits = (self.bank2 << 5) as u8;
        let lower: u32 = if self.mode {
            bits as u32
        } else {
            0
        };
        let upper: u32 = (bits | self.bank1) as u32;
        ((0x4000 * lower) as u32, (0x4000 * upper) as u32)
    }

    pub fn get_rom_offsets(&self) -> (r: (u32, u32))
        ensures
            r == self.spec_rom_offsets(),
            r.0 % 0x4000 == 0,
            r.1 % 0x4000 == 0,
    {
        let bits = self.bank2 << 5;
        let lower: u32 = if self.mode {
            bits as u32
        } else {
            0
        };
        let upper: u32 = (bits | self.bank1) as u32;
        proof {
            vstd::arithmetic::div_mod::lemma_mod_multiples_basic(lower as int, 0x4000);
            vstd::arithmetic::div_mod::lemma_mod_multiples_basic(upper as int, 0x4000);
        }
        (ROM_BANK_SIZE * lower, ROM_BANK_SIZE * upper)
    }

    /// RAM window bank is `bank2` in mode 1 and 0 in mode 0.
    pub open spec fn spec_ram_offsets(self) -> u32 {
        let bits: u8 = if self.mode {
            self.bank2
        } else {
            0
        };
        (0x2000 * (bits as u32)) as u32
    }

    pub fn get_ram_offsets(&self) -> (r: u32)
        ensures
            r == self.spec_ram_offsets(),
            r % 0x2000 == 0,
    {
        let bits: u8 = if self.mode {
            self.bank2
        } else {
            0
        };
        proof {
            vstd::arithmetic::div_mod::lemma_mod_multiples_basic(bits as int, 0x2000);
        }
        RAM_BANK_SIZE * (bits as u32)
    }
}

/// Bank register of the MBC2 controller: a 4-bit ROM bank, never zero.
#[derive(Debug, Copy, Clone, PartialEq, Eq, Structural)]
pub struct Mbc2 {
    pub ram_enabled: bool,
    pub bank: u8,
}

impl Mbc2 {
    pub fn setup() -> (r: Mbc2)
        ensures
            r == (Mbc2 { ram_enabled: false, bank: 0b0001 }),
    {
        Mbc2 { ram_enabled: false, bank: 0b0001 }
    }

    pub open spec fn spec_rom_offsets(self) -> (u32, u32) {
        (0u32, (0x4000 * (self.bank as u32)) as u32)
    }

    pub fn get_rom_offsets(&self) -> (r: (u32, u32))
        ensures
            r == self.spec_rom_offsets(),
            r.0 % 0x4000 == 0,
            r.1 % 0x4000 == 0,
    {
        proof {
            vstd::arithmetic::div_mod::lemma_mod_multiples_basic(self.bank as int, 0x4000);
        }
        (0, ROM_BANK_SIZE * (self.bank as u32))
    }
}

/// Bank registers of the MBC3 controller: a 7-bit ROM bank (never zero) and
/// a RAM bank select that addresses RAM only for values 0..=3.
#[derive(Debug, Copy, Clone, PartialEq, Eq, Structural)]
pub struct Mbc3 {
    pub ram_enabled: bool,
    pub romb: u8,
    pub ramb: u8,
}

impl Mbc3 {
    pub fn setup() -> (r: Mbc3)
        ensures
            r == (Mbc3 { ram_enabled: false, romb: 0b0000_0001, ramb: 0b0000_0000 }),
    {
        Mbc3 { ram_enabled: false, romb: 0b0000_0001, ramb: 0b0000_0000 }
    }

    pub open spec fn spec_rom_offsets(self) -> (u32, u32) {
        (0u32, (0x4000 * (self.romb as u32)) as u32)
    }

    pub fn get_rom_offsets(&self) -> (r: (u32, u32))
        ensures
            r == self.spec_rom_offsets(),
            r.0 % 0x4000 == 0,
            r.1 % 0x4000 == 0,
    {
        proof {
            vstd::arithmetic::div_mod::lemma_mod_multiples_basic(self.romb as int, 0x4000);
        }
        (0, ROM_BANK_SIZE * (self.romb as u32))
    }

    pub open spec fn spec_ram_offset(self) -> u32 {
        (0x2000 * (self.ramb as u32)) as u32
    }

    pub fn get_ram_offset(&self) -> (r: u32)
        ensures
            r == self.spec_ram_offset(),
            r % 0x2000 == 0,
    {
        proof {
            vstd::arithmetic::div_mod::lemma_mod_multiples_basic(self.ramb as int, 0x2000);
        }
        RAM_BANK_SIZE * (self.ramb as u32)
    }
}

/// Bank registers of the MBC5 controller: a full 9-bit ROM bank (bank value
/// zero is legal) and a 4-bit RAM bank.
#[derive(Debug, Copy, Clone, PartialEq, Eq, Structural)]
pub struct Mbc5 {
    pub ram_enabled: bool,
    pub bank0: u8,
    pub bank1: u8,
    pub ramb: u8,
}

impl Mbc5 {
    pub fn setup() -> (r: Mbc5)
        ensures
            r == (Mbc5 { ram_enabled: false, bank0: 0, bank1: 0, ramb: 0 }),
    {
        Mbc5 { ram_enabled: false, bank0: 0, bank1: 0, ramb: 0 }
    }

    pub open spec fn spec_rom_offsets(self) -> (u32, u32) {
        let bank = (((self.bank1 as u32) << 8) | (self.bank0 as u32)) as u32;
        (0u32, (0x4000 * bank) as u32)
    }

    pub fn get_rom_offsets(&self) -> (r: (u32, u32))
        ensures
            r == self.spec_rom_offsets(),
            r.0 % 0x4000 == 0,
            r.1 % 0x4000 == 0,
    {
        let bank = ((self.bank1 as u32) << 8) | (self.bank0 as u32);
        proof {
            let b1 = self.bank1;
            let b0 = self.bank0;
            assert(((b1 as u32) << 8) | (b0 as u32) <= 0xFFFF) by (bit_vector);
            vstd::arithmetic::div_mod::lemma_mod_multiples_basic(bank as int, 0x4000);
        }
        (0, ROM_BANK_SIZE * bank)
    }

    pub open spec fn spec_ram_offset(self) -> u32 {
        (0x2000 * (self.ramb as u32)) as u32
    }

    pub fn get_ram_offset(&self) -> (r: u32)
        ensures
            r == self.spec_ram_offset(),
            r % 0x2000 == 0,
    {
        proof {
            vstd::arithmetic::div_mod::lemma_mod_multiples_basic(self.ramb as int, 0x2000);
        }
        RAM_BANK_SIZE * (self.ramb as u32)
    }
}

/// The memory-bank-controller variant of a cartridge, with its registers.
#[derive(Debug, Copy, Clone, PartialEq, Eq, Structural)]
pub enum Mbc {
    NoMBC,
    MBC1 { mbc: Mbc1 },
    MBC2 { mbc: Mbc2 },
    MBC3 { mbc: Mbc3 },
    MBC5 { mbc: Mbc5 },
}

/// Why a cartridge image was rejected at construction.
#[derive(Debug, Copy, Clone, PartialEq, Eq, Structural)]
pub enum CartridgeError {
    MissingHeaderInformation,
    UnsupportedROMType,
    UnsupportedROMSize,
    UnsupportedRAMSize,
    UnsupportedMBC,
}

/// The mathematical state of a cartridge: the two byte stores, the MBC
/// registers, and the current window offsets.
#[verifier::ext_equal]
pub ghost struct CartView {
    pub title: Seq<u8>,
    pub rom: Seq<u8>,
    pub ram: Seq<u8>,
    pub mbc: Mbc,
    pub rom_offsets: (u32, u32),
    pub ram_offset: u32,
}

/// The ROM size in bytes selected by header byte 0x148, if supported:
/// 32 KiB times a power of two.
pub open spec fn spec_rom_size(code: u8) -> Option<u32> {
    if code <= 8 {
        Some((0x8000u32 << code) as u32)
    } else {
        None
    }
}

/// The RAM size in bytes selected by header byte 0x149, if supported.
/// The 64 KiB size has the larger code, after 128 KiB.
pub open spec fn spec_ram_size(code: u8) -> Option<u32> {
    match code {
        0x0 => Some(0u32),
        0x1 => Some(0x800u32),
        0x2 => Some(0x2000u32),
        0x3 => Some(0x8000u32),
        0x4 => Some(0x20000u32),
        0x5 => Some(0x10000u32),
        _ => None,
    }
}

/// The MBC variant selected by header byte 0x147, in its reset state,
/// if supported.
pub open spec fn spec_mbc_for(code: u8) -> Option<Mbc> {
    if code == 0x00 {
        Some(Mbc::NoMBC)
    } else if 0x01 <= code && code <= 0x03 {
        Some(Mbc::MBC1 { mbc: Mbc1 { ram_enabled: false, bank1: 1, bank2: 0, mode: false } })
    } else if 0x05 <= code && code <= 0x06 {
        Some(Mbc::MBC2 { mbc: Mbc2 { ram_enabled: false, bank: 1 } })
    } else if 0x11 <= code && code <= 0x13 {
        Some(Mbc::MBC3 { mbc: Mbc3 { ram_enabled: false, romb: 1, ramb: 0 } })
    } else if 0x19 <= code && code <= 0x1E {
        Some(Mbc::MBC5 { mbc: Mbc5 { ram_enabled: false, bank0: 0, bank1: 0, ramb: 0 } })
    } else {
        None
    }
}

/// Whether the header of `data` is valid, read in the order the constructor
/// checks it.
pub open spec fn spec_header_ok(data: Seq<u8>) -> bool {
    &&& data.len() >= 0x150
    &&& data[0x143] != 0xC0
    &&& spec_rom_size(data[0x148]) is Some
    &&& spec_ram_size(data[0x149]) is Some
    &&& spec_mbc_for(data[0x147]) is Some
}

/// A valid image is no longer than the ROM size its own header declares.
/// Constructing from a longer image is not meaningful.
pub open spec fn spec_data_fits(data: Seq<u8>) -> bool {
    spec_header_ok(data) ==> data.len() <= spec_rom_size(data[0x148]).unwrap()
}

/// The ROM store: the image, zero-padded up to the header-declared size.
pub open spec fn spec_loaded_rom(data: Seq<u8>, rom_size: nat) -> Seq<u8> {
    Seq::new(rom_size, |i: int| if i < data.len() { data[i] } else { 0u8 })
}

/// Well-formedness of a cartridge: the ROM is one of the nine power-of-two
/// sizes from 32 KiB to 8 MiB, the RAM one of the supported sizes (512 bytes
/// exactly for MBC2), and the windows sit on whole banks.
pub open spec fn spec_cart_wf(c: CartView) -> bool {
    &&& (c.rom.len() == 0x8000 || c.rom.len() == 0x10000 || c.rom.len() == 0x20000 || c.rom.len()
        == 0x40000 || c.rom.len() == 0x80000 || c.rom.len() == 0x100000 || c.rom.len() == 0x200000
        || c.rom.len() == 0x400000 || c.rom.len() == 0x800000)
    &&& (c.ram.len() == 0 || c.ram.len() == 0x200 || c.ram.len() == 0x800 || c.ram.len() == 0x2000
        || c.ram.len() == 0x8000 || c.ram.len() == 0x10000 || c.ram.len() == 0x20000)
    &&& (c.mbc is MBC2 <==> c.ram.len() == 0x200)
    &&& c.rom_offsets.0 % 0x4000 == 0
    &&& c.rom_offsets.1 % 0x4000 == 0
    &&& c.ram_offset % 0x2000 == 0
}

/// A cartridge: the ROM image, the external RAM, the MBC registers, and the
/// window offsets recomputed on every control write.
#[derive(Debug)]
pub struct Cartridge {
    /// The 11 title bytes from the header, ASCII and zero-padded.
    pub title: Vec<u8>,
    rom: Vec<u8>,
    ram: Vec<u8>,
    mbc: Mbc,
    pub rom_offsets: (u32, u32),
    ram_offset: u32,
}

impl View for Cartridge {
    type V = CartView;

    closed spec fn view(&self) -> CartView {
        CartView {
            title: self.title@,
            rom: self.rom@,
            ram: self.ram@,
            mbc: self.mbc,
            rom_offsets: self.rom_offsets,
            ram_offset: self.ram_offset,
        }
    }
}

impl Cartridge {
    pub open spec fn wf(self) -> bool {
        spec_cart_wf(self@)
    }

    /// Builds a cartridge from a raw image: checks the header fields at
    /// 0x143, 0x147, 0x148 and 0x149, sizes the two stores, and resets the
    /// MBC registers and window offsets.
    pub fn new(data: Vec<u8>) -> (r: Result<Cartridge, CartridgeError>)
        requires
            spec_data_fits(data@),
        ensures
            data@.len() < 0x150 ==> r == Err::<Cartridge, CartridgeError>(
                CartridgeError::MissingHeaderInformation,
            ),
            data@.len() >= 0x150 && data@[0x143] == 0xC0 ==> r == Err::<Cartridge, CartridgeError>(
                CartridgeError::UnsupportedROMType,
            ),
            data@.len() >= 0x150 && data@[0x143] != 0xC0 && spec_rom_size(data@[0x148]) is None
                ==> r == Err::<Cartridge, CartridgeError>(CartridgeError::UnsupportedROMSize),
            data@.len() >= 0x150 && data@[0x143] != 0xC0 && spec_rom_size(data@[0x148]) is Some
                && spec_ram_size(data@[0x149]) is None ==> r == Err::<Cartridge, CartridgeError>(
                CartridgeError::UnsupportedRAMSize,
            ),
            data@.len() >= 0x150 && data@[0x143] != 0xC0 && spec_rom_size(data@[0x148]) is Some
                && spec_ram_size(data@[0x149]) is Some && spec_mbc_for(data@[0x147]) is None ==> r
                == Err::<Cartridge, CartridgeError>(CartridgeError::UnsupportedMBC),
            spec_header_ok(data@) ==> r is Ok,
            r is Ok ==> spec_header_ok(data@) && {
                let c = r->Ok_0;
                &&& c.wf()
                &&& c@.rom == spec_loaded_rom(data@, spec_rom_size(data@[0x148]).unwrap() as nat)
                &&& c@.ram =~= Seq::new(
                    if spec_mbc_for(data@[0x147]).unwrap() is MBC2 {
                        0x200 as nat
                    } else {
                        spec_ram_size(data@[0x149]).unwrap() as nat
                    },
                    |i: int| 0u8,
                )
                &&& c@.mbc == spec_mbc_for(data@[0x147]).unwrap()
                &&& c@.rom_offsets == (0x0000u32, 0x4000u32)
                &&& c@.ram_offset == 0u32
                &&& c@.title == data@.subrange(0x134, 0x13F)
            },
    {
        if data.len() < 0x150 {
            return Err(CartridgeError::MissingHeaderInformation);
        }

        if data[0x143] == 0xC0 {
            return Err(CartridgeError::UnsupportedROMType);
        }

        let rom_size: usize = match data[0x148] {
            0x00 => 32 * KILOBYTE as usize,
            0x01 => 64 * KILOBYTE as usize,
            0x02 => 128 * KILOBYTE as usize,
            0x03 => 256 * KILOBYTE as usize,
            0x04 => 512 * KILOBYTE as usize,
            0x05 => MEGABYTE as usize,
            0x06 => 2 * MEGABYTE as usize,
            0x07 => 4 * MEGABYTE as usize,
            0x08 => 8 * MEGABYTE as usize,
            _ => {
                return Err(CartridgeError::UnsupportedROMSize);
            },
        };
        proof {
            assert(0x8000u32 << 0 == 0x8000 && 0x8000u32 << 1 == 0x10000 && 0x8000u32 << 2
                == 0x20000 && 0x8000u32 << 3 == 0x40000 && 0x8000u32 << 4 == 0x80000 && 0x8000u32
                << 5 == 0x100000 && 0x8000u32 << 6 == 0x200000 && 0x8000u32 << 7 == 0x400000
                && 0x8000u32 << 8 == 0x800000) by (bit_vector);
        }

        let mut ram_size: usize = match data[0x149] {
            0x0 => 0,
            0x1 => 2 * KILOBYTE as usize,
            0x2 => 8 * KILOBYTE as usize,
            0x3 => 32 * KILOBYTE as usize,
            0x4 => 128 * KILOBYTE as usize,
            0x5 => 64 * KILOBYTE as usize,
            _ => {
                return Err(CartridgeError::UnsupportedRAMSize);
            },
        };

        let mbc = match data[0x147] {
            0x00 => Mbc::NoMBC,
            0x01..=0x03 => Mbc::MBC1 { mbc: Mbc1::setup() },
            0x05..=0x06 => {
                ram_size = 512;
                Mbc::MBC2 { mbc: Mbc2::setup() }
            },
            0x11..=0x13 => Mbc::MBC3 { mbc: Mbc3::setup() },
            0x19..=0x1E => Mbc::MBC5 { mbc: Mbc5::setup() },
            _ => {
                return Err(CartridgeError::UnsupportedMBC);
            },
        };

        let mut title: Vec<u8> = Vec::new();
        proof {
            assert(title@ =~= data@.subrange(0x134, 0x134));
        }
        let mut i: usize = 0x134;
        while i < 0x13F
            invariant
                0x134 <= i <= 0x13F,
                data@.len() >= 0x150,
                title@ == data@.subrange(0x134, i as int),
            decreases 0x13F - i,
        {
            title.push(data[i]);
            i = i + 1;
            proof {
                assert(title@ =~= data@.subrange(0x134, i as int));
            }
        }

        let rom = Cartridge::load_rom(data, rom_size);

        let mut ram: Vec<u8> = Vec::new();
        proof {
            assert(ram@ =~= Seq::new(0 as nat, |k: int| 0u8));
        }
        let mut j: usize = 0;
        while j < ram_size
            invariant
                j <= ram_size,
                ram@ == Seq::new(j as nat, |k: int| 0u8),
            decreases ram_size - j,
        {
            ram.push(0);
            j = j + 1;
            proof {
                assert(ram@ =~= Seq::new(j as nat, |k: int| 0u8));
            }
        }

        Ok(
            Cartridge {
                title,
                mbc,
                rom,
                ram,
                rom_offsets: (0x0000, 0x4000),
                ram_offset: 0x0000,
            },
        )
    }

    /// Copies the image into a zero-filled store of the header-declared size.
    pub fn load_rom(data: Vec<u8>, rom_size: usize) -> (rom: Vec<u8>)
        requires
            data@.len() <= rom_size,
        ensures
            rom@ == spec_loaded_rom(data@, rom_size as nat),
    {
        let mut rom: Vec<u8> = Vec::new();
        proof {
            assert(rom@ =~= Seq::new(0 as nat, |k: int| if k < data@.len() { data@[k] } else { 0u8 }));
        }
        let mut i: usize = 0;
        while i < rom_size
            invariant
                i <= rom_size,
                data@.len() <= rom_size,
                rom@ == Seq::new(i as nat, |k: int| if k < data@.len() { data@[k] } else { 0u8 }),
            decreases rom_size - i,
        {
            if i < data.len() {
                rom.push(data[i]);
            } else {
                rom.push(0);
            }
            i = i + 1;
            proof {
                assert(rom@ =~= Seq::new(
                    i as nat,
                    |k: int| if k < data@.len() { data@[k] } else { 0u8 },
                ));
            }
        }
        rom
    }

    /// The byte the lower ROM window shows at `address`:
    /// `rom[(lower | (address & 0x3FFF)) & (rom.len() - 1)]`.
    pub open spec fn spec_read_lower_rom(c: CartView, address: u16) -> u8 {
        c.rom[((c.rom_offsets.0 as usize | (address & 0x3FFF) as usize) & (c.rom.len()
            - 1) as usize) as int]
    }

    pub fn read_lower_rom(&self, address: u16) -> (r: u8)
        requires
            self.wf(),
        ensures
            r == Self::spec_read_lower_rom(self@, address),
    {
        let (lower, _) = self.rom_offsets;
        let address_in_bank = (address & 0x3FFF) as usize;
        proof {
            lemma_mask_below_len(lower as usize | address_in_bank, self.rom@.len() as usize);
        }
        self.rom[(lower as usize | address_in_bank) & (self.rom.len() - 1)]
    }

    /// The byte the upper ROM window shows at `address`, from the upper
    /// window offset.
    pub open spec fn spec_read_upper_rom(c: CartView, address: u16) -> u8 {
        c.rom[((c.rom_offsets.1 as usize | (address & 0x3FFF) as usize) & (c.rom.len()
            - 1) as usize) as int]
    }

    pub fn read_upper_rom(&self, address: u16) -> (r: u8)
        requires
            self.wf(),
        ensures
            r == Self::spec_read_upper_rom(self@, address),
    {
        let (_, upper) = self.rom_offsets;
        let address_in_bank = (address & 0x3FFF) as usize;
        proof {
            lemma_mask_below_len(upper as usize | address_in_bank, self.rom@.len() as usize);
        }
        self.rom[(upper as usize | address_in_bank) & (self.rom.len() - 1)]
    }

    /// The cartridge state after a write into the ROM address space: the
    /// write lands in the selected MBC's control registers and every window
    /// offset it can move is recomputed.
    pub open spec fn spec_write_rom(c: CartView, address: u16, value: u8) -> CartView {
        match c.mbc {
            Mbc::NoMBC => c,
            Mbc::MBC1 { mbc } => {
                if address <= 0x1FFF {
                    CartView {
                        mbc: Mbc::MBC1 {
                            mbc: Mbc1 { ram_enabled: value & 0b1111 == 0b1010, ..mbc },
                        },
                        ..c
                    }
                } else if address <= 0x3FFF {
                    let m2 = Mbc1 {
                        bank1: if value & 0b1_1111 == 0 {
                            1u8
                        } else {
                            (value & 0b1_1111) as u8
                        },
                        ..mbc
                    };
                    CartView { mbc: Mbc::MBC1 { mbc: m2 }, rom_offsets: m2.spec_rom_offsets(), ..c }
                } else if address <= 0x5FFF {
                    let m2 = Mbc1 { bank2: (value & 0b11) as u8, ..mbc };
                    CartView {
                        mbc: Mbc::MBC1 { mbc: m2 },
                        rom_offsets: m2.spec_rom_offsets(),
                        ram_offset: m2.spec_ram_offsets(),
                        ..c
                    }
                } else {
                    let m2 = Mbc1 { mode: value & 0b1 == 0b1, ..mbc };
                    CartView {
                        mbc: Mbc::MBC1 { mbc: m2 },
                        rom_offsets: m2.spec_rom_offsets(),
                        ram_offset: m2.spec_ram_offsets(),
                        ..c
                    }
                }
            },
            Mbc::MBC2 { mbc } => {
                if address <= 0x3FFF {
                    if address & 0x100 == 0 {
                        CartView {
                            mbc: Mbc::MBC2 {
                                mbc: Mbc2 { ram_enabled: value & 0b1111 == 0b1010, ..mbc },
                            },
                            ..c
                        }
                    } else {
                        let v = (value & 0b1111) as u8;
                        let m2 = Mbc2 { bank: if v == 0 { 1u8 } else { v }, ..mbc };
                        CartView {
                            mbc: Mbc::MBC2 { mbc: m2 },
                            rom_offsets: m2.spec_rom_offsets(),
                            ..c
                        }
                    }
                } else {
                    c
                }
            },
            Mbc::MBC3 { mbc } => {
                if address <= 0x1FFF {
                    CartView {
                        mbc: Mbc::MBC3 {
                            mbc: Mbc3 { ram_enabled: value & 0b1111 == 0b1010, ..mbc },
                        },
                        ..c
                    }
                } else if address <= 0x3FFF {
                    let v = (value & 0x7F) as u8;
                    let m2 = Mbc3 { romb: if v == 0 { 1u8 } else { v }, ..mbc };
                    CartView { mbc: Mbc::MBC3 { mbc: m2 }, rom_offsets: m2.spec_rom_offsets(), ..c }
                } else if address <= 0x5FFF {
                    let m2 = Mbc3 { ramb: (value & 0b11) as u8, ..mbc };
                    CartView { mbc: Mbc::MBC3 { mbc: m2 }, ram_offset: m2.spec_ram_offset(), ..c }
                } else {
                    c
                }
            },
            Mbc::MBC5 { mbc } => {
                if address <= 0x1FFF {
                    CartView {
                        mbc: Mbc::MBC5 { mbc: Mbc5 { ram_enabled: value == 0b0000_1010, ..mbc } },
                        ..c
                    }
                } else if address <= 0x2FFF {
                    let m2 = Mbc5 { bank0: value, ..mbc };
                    CartView { mbc: Mbc::MBC5 { mbc: m2 }, rom_offsets: m2.spec_rom_offsets(), ..c }
                } else if address <= 0x3FFF {
                    let m2 = Mbc5 { bank1: (value & 0b1) as u8, ..mbc };
                    CartView { mbc: Mbc::MBC5 { mbc: m2 }, rom_offsets: m2.spec_rom_offsets(), ..c }
                } else if address <= 0x5FFF {
                    let m2 = Mbc5 { ramb: (value & 0x0F) as u8, ..mbc };
                    CartView { mbc: Mbc::MBC5 { mbc: m2 }, ram_offset: m2.spec_ram_offset(), ..c }
                } else {
                    c
                }
            },
        }
    }

    /// Routes a write in 0x0000..=0x7FFF to the MBC control registers.
    /// Well-formedness is preserved: the recomputed offsets are still whole
    /// banks.
    pub fn write_rom(&mut self, address: u16, value: u8)
        requires
            old(self).wf(),
            address <= 0x7FFF,
        ensures
            final(self)@ == Self::spec_write_rom(old(self)@, address, value),
            final(self).wf(),
    {
        match self.mbc {
            Mbc::NoMBC => {},
            Mbc::MBC1 { mbc } => {
                let mut m = mbc;
                if address <= 0x1FFF {
                    m.ram_enabled = (value & 0b1111) == 0b1010;
                    self.mbc = Mbc::MBC1 { mbc: m };
                } else if address <= 0x3FFF {
                    m.bank1 = if value & 0b1_1111 == 0b0 {
                        0b1
                    } else {
                        value & 0b1_1111
                    };
                    self.mbc = Mbc::MBC1 { mbc: m };
                    self.rom_offsets = m.get_rom_offsets();
                } else if address <= 0x5FFF {
                    m.bank2 = value & 0b11;
                    self.mbc = Mbc::MBC1 { mbc: m };
                    self.rom_offsets = m.get_rom_offsets();
                    self.ram_offset = m.get_ram_offsets();
                } else {
                    m.mode = (value & 0b1) == 0b1;
                    self.mbc = Mbc::MBC1 { mbc: m };
                    self.rom_offsets = m.get_rom_offsets();
                    self.ram_offset = m.get_ram_offsets();
                }
            },
            Mbc::MBC2 { mbc } => {
                let mut m = mbc;
                if address <= 0x3FFF {
                    if (address & 0x100) == 0 {
                        m.ram_enabled = (value & 0b1111) == 0b1010;
                        self.mbc = Mbc::MBC2 { mbc: m };
                    } else {
                        let v = value & 0b1111;
                        m.bank = if v == 0 {
                            1
                        } else {
                            v
                        };
                        self.mbc = Mbc::MBC2 { mbc: m };
                        self.rom_offsets = m.get_rom_offsets();
                    }
                }
            },
            Mbc::MBC3 { mbc } => {
                let mut m = mbc;
                if address <= 0x1FFF {
                    m.ram_enabled = (value & 0b1111) == 0b1010;
                    self.mbc = Mbc::MBC3 { mbc: m };
                } else if address <= 0x3FFF {
                    let v = value & 0x7F;
                    m.romb = if v == 0 {
                        1
                    } else {
                        v
                    };
                    self.mbc = Mbc::MBC3 { mbc: m };
                    self.rom_offsets = m.get_rom_offsets();
                } else if address <= 0x5FFF {
                    m.ramb = value & 0b11;
                    self.mbc = Mbc::MBC3 { mbc: m };
                    self.ram_offset = m.get_ram_offset();
                }
            },
            Mbc::MBC5 { mbc } => {
                let mut m = mbc;
                if address <= 0x1FFF {
                    m.ram_enabled = value == 0b0000_1010;
                    self.mbc = Mbc::MBC5 { mbc: m };
                } else if address <= 0x2FFF {
                    m.bank0 = value;
                    self.mbc = Mbc::MBC5 { mbc: m };
                    self.rom_offsets = m.get_rom_offsets();
                } else if address <= 0x3FFF {
                    m.bank1 = value & 0b1;
                    self.mbc = Mbc::MBC5 { mbc: m };
                    self.rom_offsets = m.get_rom_offsets();
                } else if address <= 0x5FFF {
                    m.ramb = value & 0x0F;
                    self.mbc = Mbc::MBC5 { mbc: m };
                    self.ram_offset = m.get_ram_offset();
                }
            },
        }
        proof {
            assert(final(self)@ =~= Self::spec_write_rom(old(self)@, address, value));
        }
    }

    /// The byte read from the external-RAM window: 0xFD with no MBC, 0xFF
    /// through a disabled (or absent) RAM, the stored nibble for MBC2, and
    /// the banked byte otherwise.
    pub open spec fn spec_read_ram(c: CartView, address: u16) -> u8 {
        let phys = (c.ram_offset as usize | (address & 0x1FFF) as usize) as usize;
        match c.mbc {
            Mbc::NoMBC => 0xFDu8,
            Mbc::MBC1 { mbc } => {
                if mbc.ram_enabled && c.ram.len() > 0 {
                    c.ram[((phys & (c.ram.len() - 1) as usize)) as int]
                } else {
                    0xFFu8
                }
            },
            Mbc::MBC2 { mbc } => {
                if mbc.ram_enabled {
                    (c.ram[(phys & 0x1FF) as int] & 0x0F) as u8
                } else {
                    0xFFu8
                }
            },
            Mbc::MBC3 { mbc } => {
                if mbc.ram_enabled && mbc.ramb <= 0x03 && c.ram.len() > 0 {
                    c.ram[((phys & (c.ram.len() - 1) as usize)) as int]
                } else {
                    0xFFu8
                }
            },
            Mbc::MBC5 { mbc } => {
                if mbc.ram_enabled && c.ram.len() > 0 {
                    c.ram[((phys & (c.ram.len() - 1) as usize)) as int]
                } else {
                    0xFFu8
                }
            },
        }
    }

    pub fn read_ram(&self, address: u16) -> (r: u8)
        requires
            self.wf(),
        ensures
            r == Self::spec_read_ram(self@, address),
    {
        let undefined = 0xFF;
        let phys = (self.ram_offset | (address as u32 & 0x1FFF)) as usize;
        match self.mbc {
            Mbc::NoMBC => 0xFD,
            Mbc::MBC1 { mbc } => {
                if mbc.ram_enabled && self.ram.len() > 0 {
                    proof {
                        lemma_mask_below_len(phys, self.ram@.len() as usize);
                    }
                    self.ram[phys & (self.ram.len() - 1)]
                } else {
                    undefined
                }
            },
            Mbc::MBC2 { mbc } => {
                if mbc.ram_enabled {
                    proof {
                        assert((phys & 0x1FF) < 0x200) by (bit_vector);
                    }
                    self.ram[phys & 0x1FF] & 0x0F
                } else {
                    undefined
                }
            },
            Mbc::MBC3 { mbc } => {
                if mbc.ram_enabled && mbc.ramb <= 0x03 && self.ram.len() > 0 {
                    proof {
                        lemma_mask_below_len(phys, self.ram@.len() as usize);
                    }
                    self.ram[phys & (self.ram.len() - 1)]
                } else {
                    undefined
                }
            },
            Mbc::MBC5 { mbc } => {
                if mbc.ram_enabled && self.ram.len() > 0 {
                    proof {
                        lemma_mask_below_len(phys, self.ram@.len() as usize);
                    }
                    self.ram[phys & (self.ram.len() - 1)]
                } else {
                    undefined
                }
            },
        }
    }

    /// The RAM store after a write through the external-RAM window: dropped
    /// with no MBC, through a disabled (or absent) RAM, or an out-of-range
    /// MBC3 bank select; only the low nibble is kept for MBC2.
    pub open spec fn spec_write_ram(c: CartView, address: u16, value: u8) -> Seq<u8> {
        let phys = (c.ram_offset as usize | (address & 0x1FFF) as usize) as usize;
        match c.mbc {
            Mbc::NoMBC => c.ram,
            Mbc::MBC1 { mbc } => {
                if mbc.ram_enabled && c.ram.len() > 0 {
                    c.ram.update((phys & (c.ram.len() - 1) as usize) as int, value)
                } else {
                    c.ram
                }
            },
            Mbc::MBC2 { mbc } => {
                if mbc.ram_enabled {
                    c.ram.update((phys & 0x1FF) as int, (value & 0x0F) as u8)
                } else {
                    c.ram
                }
            },
            Mbc::MBC3 { mbc } => {
                if mbc.ram_enabled && mbc.ramb <= 0x03 && c.ram.len() > 0 {
                    c.ram.update((phys & (c.ram.len() - 1) as usize) as int, value)
                } else {
                    c.ram
                }
            },
            Mbc::MBC5 { mbc } => {
                if mbc.ram_enabled && c.ram.len() > 0 {
                    c.ram.update((phys & (c.ram.len() - 1) as usize) as int, value)
                } else {
                    c.ram
                }
            },
        }
    }

    pub fn write_ram(&mut self, address: u16, value: u8)
        requires
            old(self).wf(),
        ensures
            final(self)@ == (CartView {
                ram: Self::spec_write_ram(old(self)@, address, value),
                ..old(self)@
            }),
            final(self).wf(),
    {
        let phys = (self.ram_offset | (address as u32 & 0x1FFF)) as usize;
        match self.mbc {
            Mbc::NoMBC => {},
            Mbc::MBC1 { mbc } => {
                if mbc.ram_enabled && self.ram.len() > 0 {
                    proof {
                        lemma_mask_below_len(phys, self.ram@.len() as usize);
                    }
                    let len = self.ram.len() - 1;
                    self.ram.set(phys & len, value);
                }
            },
            Mbc::MBC2 { mbc } => {
                if mbc.ram_enabled {
                    proof {
                        assert((phys & 0x1FF) < 0x200) by (bit_vector);
                    }
                    self.ram.set(phys & 0x1FF, value & 0x0F);
                }
            },
            Mbc::MBC3 { mbc } => {
                if mbc.ram_enabled && mbc.ramb <= 0x03 && self.ram.len() > 0 {
                    proof {
                        lemma_mask_below_len(phys, self.ram@.len() as usize);
                    }
                    let len = self.ram.len() - 1;
                    self.ram.set(phys & len, value);
                }
            },
            Mbc::MBC5 { mbc } => {
                if mbc.ram_enabled && self.ram.len() > 0 {
                    proof {
                        lemma_mask_below_len(phys, self.ram@.len() as usize);
                    }
                    let len = self.ram.len() - 1;
                    self.ram.set(phys & len, value);
                }
            },
        }
        proof {
            assert(final(self)@ =~= (CartView {
                ram: Self::spec_write_ram(old(self)@, address, value),
                ..old(self)@
            }));
        }
    }
}

/// Masking a value keeps it at or below the mask.
pub proof fn lemma_and_mask_le(x: usize, m: usize)
    by (bit_vector)
    ensures
        x & m <= m,
{
}

/// Masking with `len - 1` keeps any index inside a store of nonzero length;
/// with the power-of-two lengths the cartridge enforces, the mask is exact
/// wrap-around.
pub proof fn lemma_mask_below_len(x: usize, len: usize)
    ensures
        len > 0 ==> (x & (len - 1) as usize) < len,
{
    if len > 0 {
        lemma_and_mask_le(x, (len - 1) as usize);
    }
}

/// Both ROM window offsets are valid indices once masked: for every ROM
/// size the cartridge allows, `(offset | (address & 0x3FFF)) & (len - 1)`
/// lies inside the ROM.
pub proof fn lemma_rom_index_valid(c: CartView, address: u16)
    requires
        spec_cart_wf(c),
    ensures
        ((c.rom_offsets.0 as usize | (address & 0x3FFF) as usize) & (c.rom.len() - 1) as usize)
            < c.rom.len(),
        ((c.rom_offsets.1 as usize | (address & 0x3FFF) as usize) & (c.rom.len() - 1) as usize)
            < c.rom.len(),
{
    lemma_mask_below_len(
        c.rom_offsets.0 as usize | (address & 0x3FFF) as usize,
        c.rom.len() as usize,
    );
    lemma_mask_below_len(
        c.rom_offsets.1 as usize | (address & 0x3FFF) as usize,
        c.rom.len() as usize,
    );
}

/// Every control write that moves a window leaves the offsets on whole
/// banks: both ROM offsets stay multiples of 16 KiB and the RAM offset a
/// multiple of 8 KiB (and of the 512-byte window under MBC2, where it
/// stays zero).
pub proof fn lemma_write_rom_offsets_aligned(c: CartView, address: u16, value: u8)
    requires
        spec_cart_wf(c),
    ensures
        Cartridge::spec_write_rom(c, address, value).rom_offsets.0 % 0x4000 == 0,
        Cartridge::spec_write_rom(c, address, value).rom_offsets.1 % 0x4000 == 0,
        Cartridge::spec_write_rom(c, address, value).ram_offset % 0x2000 == 0,
        c.mbc is MBC2 ==> Cartridge::spec_write_rom(c, address, value).ram_offset % 0x200 == 0,
{
    let c2 = Cartridge::spec_write_rom(c, address, value);
    lemma_spec_write_rom_wf(c, address, value);
}

/// A control write keeps the cartridge well-formed: the stores do not
/// change and the recomputed offsets are whole banks.
pub proof fn lemma_spec_write_rom_wf(c: CartView, address: u16, value: u8)
    requires
        spec_cart_wf(c),
    ensures
        spec_cart_wf(Cartridge::spec_write_rom(c, address, value)),
        Cartridge::spec_write_rom(c, address, value).rom == c.rom,
        Cartridge::spec_write_rom(c, address, value).ram == c.ram,
{
    match c.mbc {
        Mbc::NoMBC => {},
        Mbc::MBC1 { mbc } => {
            assert forall|m2: Mbc1| true implies (#[trigger] m2.spec_rom_offsets()).0 % 0x4000 == 0
                && m2.spec_rom_offsets().1 % 0x4000 == 0 && m2.spec_ram_offsets() % 0x2000
                == 0 by {
                let bits = (m2.bank2 << 5) as u8;
                let lower: u32 = if m2.mode {
                    bits as u32
                } else {
                    0
                };
                let upper: u32 = (bits | m2.bank1) as u32;
                let rbits: u8 = if m2.mode {
                    m2.bank2
                } else {
                    0
                };
                vstd::arithmetic::div_mod::lemma_mod_multiples_basic(lower as int, 0x4000);
                vstd::arithmetic::div_mod::lemma_mod_multiples_basic(upper as int, 0x4000);
                vstd::arithmetic::div_mod::lemma_mod_multiples_basic(rbits as int, 0x2000);
            }
        },
        Mbc::MBC2 { mbc } => {
            assert forall|m2: Mbc2| true implies (#[trigger] m2.spec_rom_offsets()).0 % 0x4000 == 0
                && m2.spec_rom_offsets().1 % 0x4000 == 0 by {
                vstd::arithmetic::div_mod::lemma_mod_multiples_basic(m2.bank as int, 0x4000);
            }
        },
        Mbc::MBC3 { mbc } => {
            assert forall|m2: Mbc3| true implies (#[trigger] m2.spec_rom_offsets()).0 % 0x4000 == 0
                && m2.spec_rom_offsets().1 % 0x4000 == 0 && m2.spec_ram_offset() % 0x2000 == 0 by {
                vstd::arithmetic::div_mod::lemma_mod_multiples_basic(m2.romb as int, 0x4000);
                vstd::arithmetic::div_mod::lemma_mod_multiples_basic(m2.ramb as int, 0x2000);
            }
        },
        Mbc::MBC5 { mbc } => {
            assert forall|m2: Mbc5| true implies (#[trigger] m2.spec_rom_offsets()).0 % 0x4000 == 0
                && m2.spec_rom_offsets().1 % 0x4000 == 0 && m2.spec_ram_offset() % 0x2000 == 0 by {
                let b1 = m2.bank1;
                let b0 = m2.bank0;
                assert(((b1 as u32) << 8) | (b0 as u32) <= 0xFFFF) by (bit_vector);
                let bank = ((((m2.bank1 as u32) << 8) | (m2.bank0 as u32))) as u32;
                vstd::arithmetic::div_mod::lemma_mod_multiples_basic(bank as int, 0x4000);
                vstd::arithmetic::div_mod::lemma_mod_multiples_basic(m2.ramb as int, 0x2000);
            }
        },
    }
}

/// A data write through the external-RAM window keeps the RAM store's
/// length.
pub proof fn lemma_spec_write_ram_len(c: CartView, address: u16, value: u8)
    requires
        spec_cart_wf(c),
    ensures
        Cartridge::spec_write_ram(c, address, value).len() == c.ram.len(),
{
    let phys = (c.ram_offset as usize | (address & 0x1FFF) as usize) as usize;
    if c.ram.len() > 0 {
        lemma_mask_below_len(phys, c.ram.len() as usize);
    }
    assert((phys & 0x1FF) < 0x200) by (bit_vector);
}

} // verus!
