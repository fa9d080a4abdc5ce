use vstd::prelude::*;
use crate::cartridge::{Cartridge, CartView};
use crate::interrupts::IntReq;
use crate::joypad::Joypad;
use crate::timer::Timer;

verus! {

/// The mathematical state of the bus: every backing store as a byte
/// sequence, the cartridge view, and the three memory-mapped peripherals.
#[verifier::ext_equal]
pub ghost struct MmuView {
    pub boot: Seq<u8>,
    pub cart: CartView,
    pub vram: Seq<u8>,
    pub wram: Seq<u8>,
    pub oam: Seq<u8>,
    pub io: Seq<u8>,
    pub hram: Seq<u8>,
    pub ie: u8,
    pub timer: Timer,
    pub intr: IntReq,
    pub joypad: Joypad,
}

/// Well-formedness of the bus: each region has its architectural size and
/// the cartridge is well-formed.
pub open spec fn spec_mmu_wf(m: MmuView) -> bool {
    &&& crate::cartridge::spec_cart_wf(m.cart)
    &&& m.boot.len() == 0x100
    &&& m.vram.len() == 0x2000
    &&& m.wram.len() == 0x2000
    &&& m.oam.len() == 0xA0
    &&& m.io.len() == 0x80
    &&& m.hram.len() == 0x80
}

/// The byte a read of `address` returns, routed over the address map:
/// boot overlay or cartridge ROM, VRAM, cartridge RAM, WRAM and its echo,
/// OAM, the unusable gap (0xFF), the memory-mapped peripheral registers
/// (IF reads with bits 5..7 forced to one), the remaining I/O block, HRAM,
/// and IE.
pub open spec fn spec_rb(m: MmuView, address: u16) -> u8 {
    if address < 0x100 {
        if m.io[0x50] == 0 {
            m.boot[address as int]
        } else {
            Cartridge::spec_read_lower_rom(m.cart, address)
        }
    } else if address <= 0x3FFF {
        Cartridge::spec_read_lower_rom(m.cart, address)
    } else if address <= 0x7FFF {
        Cartridge::spec_read_upper_rom(m.cart, address)
    } else if address <= 0x9FFF {
        m.vram[(address & 0x1FFF) as int]
    } else if address <= 0xBFFF {
        Cartridge::spec_read_ram(m.cart, address)
    } else if address <= 0xFDFF {
        m.wram[(address & 0x1FFF) as int]
    } else if address <= 0xFE9F {
        m.oam[(address & 0xFF) as int]
    } else if address <= 0xFEFF {
        0xFFu8
    } else if address == 0xFF00 {
        m.joypad.spec_state()
    } else if address == 0xFF04 {
        m.timer.div
    } else if address == 0xFF05 {
        m.timer.tima
    } else if address == 0xFF06 {
        m.timer.tma
    } else if address == 0xFF07 {
        m.timer.tac
    } else if address == 0xFF0F {
        (0b1110_0000u8 | m.intr.flags) as u8
    } else if address <= 0xFF7F {
        m.io[(address & 0x7F) as int]
    } else if address <= 0xFFFE {
        m.hram[(address & 0x7F) as int]
    } else {
        m.ie
    }
}

/// The OAM contents after the block copy triggered by writing `v` to
/// 0xFF46: byte `i` comes from address `(v << 8) | i`.
pub open spec fn spec_dma_oam(m: MmuView, v: u8) -> Seq<u8> {
    Seq::new(0xA0, |i: int| spec_rb(m, (((v as u16) << 8) | (i as u16)) as u16))
}

/// The bus state after a write of `value` to `address`, routed over the
/// address map. Writes below 0x8000 go to the MBC; echo-RAM and unusable
/// writes are dropped; 0xFF04 resets the whole divider chain; 0xFF0F forces
/// bits 5..7 on; 0xFF46 stores the value and, when it is at most 0xF1,
/// copies 160 bytes into OAM.
pub open spec fn spec_wb(m: MmuView, address: u16, value: u8) -> MmuView {
    if address <= 0x7FFF {
        MmuView { cart: Cartridge::spec_write_rom(m.cart, address, value), ..m }
    } else if address <= 0x9FFF {
        MmuView { vram: m.vram.update((address & 0x1FFF) as int, value), ..m }
    } else if address <= 0xBFFF {
        MmuView {
            cart: CartView { ram: Cartridge::spec_write_ram(m.cart, address, value), ..m.cart },
            ..m
        }
    } else if address <= 0xDFFF {
        MmuView { wram: m.wram.update((address & 0x1FFF) as int, value), ..m }
    } else if address <= 0xFDFF {
        m
    } else if address <= 0xFE9F {
        MmuView { oam: m.oam.update((address & 0xFF) as int, value), ..m }
    } else if address <= 0xFEFF {
        m
    } else if address == 0xFF00 {
        MmuView { joypad: Joypad { select: (value & 0b0011_0000) as u8, ..m.joypad }, ..m }
    } else if address == 0xFF04 {
        MmuView { timer: Timer { counter: 0, div: 0, phase: 0, ..m.timer }, ..m }
    } else if address == 0xFF05 {
        MmuView { timer: Timer { tima: value, ..m.timer }, ..m }
    } else if address == 0xFF06 {
        MmuView { timer: Timer { tma: value, ..m.timer }, ..m }
    } else if address == 0xFF07 {
        MmuView { timer: Timer { tac: value, ..m.timer }, ..m }
    } else if address == 0xFF0F {
        MmuView { intr: IntReq { flags: (0b1110_0000u8 | value) as u8 }, ..m }
    } else if address == 0xFF46 {
        let m1 = MmuView { io: m.io.update(0x46, value), ..m };
        if value <= 0xF1 {
            MmuView { oam: spec_dma_oam(m1, value), ..m1 }
        } else {
            m1
        }
    } else if address <= 0xFF7F {
        MmuView { io: m.io.update((address & 0x7F) as int, value), ..m }
    } else if address <= 0xFFFE {
        MmuView { hram: m.hram.update((address & 0x7F) as int, value), ..m }
    } else {
        MmuView { ie: value, ..m }
    }
}

/// The 16-bit bus with every backing store, the cartridge, and the three
/// memory-mapped peripherals it multiplexes.
pub struct MMU {
    pub boot: Vec<u8>,
    pub cartridge: Cartridge,
    pub vram: Vec<u8>,
    pub wram: Vec<u8>,
    pub oam: Vec<u8>,
    pub io_reg: Vec<u8>,
    pub hram: Vec<u8>,
    pub ie: u8,
    pub timer: Timer,
    pub intr: IntReq,
    pub joypad: Joypad,
}

impl View for MMU {
    type V = MmuView;

    open spec fn view(&self) -> MmuView {
        MmuView {
            boot: self.boot@,
            cart: self.cartridge@,
            vram: self.vram@,
            wram: self.wram@,
            oam: self.oam@,
            io: self.io_reg@,
            hram: self.hram@,
            ie: self.ie,
            timer: self.timer,
            intr: self.intr,
            joypad: self.joypad,
        }
    }
}

/// A vector of `n` zero bytes.
fn zero_bytes(n: usize) -> (v: Vec<u8>)
    ensures
        v@ == Seq::new(n as nat, |i: int| 0u8),
{
    let mut v: Vec<u8> = Vec::new();
    proof {
        assert(v@ =~= Seq::new(0 as nat, |i: int| 0u8));
    }
    let mut i: usize = 0;
    while i < n
        invariant
            i <= n,
            v@ == Seq::new(i as nat, |k: int| 0u8),
        decreases n - i,
    {
        v.push(0);
        i = i + 1;
        proof {
            assert(v@ =~= Seq::new(i as nat, |k: int| 0u8));
        }
    }
    v
}

impl MMU {
    pub open spec fn wf(self) -> bool {
        spec_mmu_wf(self@)
    }

    /// A fresh bus around `cartridge`: every store zeroed, the peripherals
    /// in their reset state.
    pub fn new(cartridge: Cartridge) -> (r: MMU)
        requires
            cartridge.wf(),
        ensures
            r.wf(),
            r@.cart == cartridge@,
            r@.boot == Seq::new(0x100, |i: int| 0u8),
            r@.vram == Seq::new(0x2000, |i: int| 0u8),
            r@.wram == Seq::new(0x2000, |i: int| 0u8),
            r@.oam == Seq::new(0xA0, |i: int| 0u8),
            r@.io == Seq::new(0x80, |i: int| 0u8),
            r@.hram == Seq::new(0x80, |i: int| 0u8),
            r@.ie == 0,
            r@.timer == (Timer { counter: 0, div: 0, tima: 0, tma: 0, tac: 0, phase: 0 }),
            r@.intr.flags == 0,
            r@.joypad == (Joypad { dpad: 0, bpad: 0, select: 0 }),
    {
        MMU {
            boot: zero_bytes(0x100),
            cartridge,
            vram: zero_bytes(0x2000),
            wram: zero_bytes(0x2000),
            oam: zero_bytes(0xA0),
            io_reg: zero_bytes(0x80),
            hram: zero_bytes(0x80),
            ie: 0,
            timer: Timer::new(),
            intr: IntReq::new(),
            joypad: Joypad::new(),
        }
    }

    /// Overlays the boot image over the first bytes of the boot store.
    pub fn read_boot(&mut self, boot: &Vec<u8>)
        requires
            old(self).wf(),
            boot@.len() <= 0x100,
        ensures
            final(self)@ == (MmuView {
                boot: Seq::new(
                    0x100,
                    |i: int|
                        if i < boot@.len() {
                            boot@[i]
                        } else {
                            old(self)@.boot[i]
                        },
                ),
                ..old(self)@
            }),
            final(self).wf(),
    {
        let mut i: usize = 0;
        while i < boot.len()
            invariant
                i <= boot@.len(),
                boot@.len() <= 0x100,
                self.boot@.len() == 0x100,
                forall|k: int| 0 <= k < i ==> self.boot@[k] == boot@[k],
                forall|k: int| i <= k < 0x100 ==> self.boot@[k] == old(self)@.boot[k],
                self.cartridge == old(self).cartridge,
                self.vram == old(self).vram,
                self.wram == old(self).wram,
                self.oam == old(self).oam,
                self.io_reg == old(self).io_reg,
                self.hram == old(self).hram,
                self.ie == old(self).ie,
                self.timer == old(self).timer,
                self.intr == old(self).intr,
                self.joypad == old(self).joypad,
            decreases boot@.len() - i,
        {
            let b = boot[i];
            self.boot.set(i, b);
            i = i + 1;
        }
        proof {
            assert(final(self)@ =~= (MmuView {
                boot: Seq::new(
                    0x100,
                    |k: int|
                        if k < boot@.len() {
                            boot@[k]
                        } else {
                            old(self)@.boot[k]
                        },
                ),
                ..old(self)@
            }));
        }
    }

    /// Reads one byte off the bus.
    pub fn rb(&self, address: u16) -> (r: u8)
        requires
            self.wf(),
        ensures
            r == spec_rb(self@, address),
    {
        proof {
            lemma_u16_region_masks(address);
        }
        if address < 0x100 {
            if self.io_reg[0x50] == 0 {
                return self.boot[address as usize];
            } else {
                return self.cartridge.read_lower_rom(address);
            }
        }
        if address <= 0x3FFF {
            self.cartridge.read_lower_rom(address)
        } else if address <= 0x7FFF {
            self.cartridge.read_upper_rom(address)
        } else if address <= 0x9FFF {
            self.vram[(address & 0x1FFF) as usize]
        } else if address <= 0xBFFF {
            self.cartridge.read_ram(address)
        } else if address <= 0xFDFF {
            self.wram[(address & 0x1FFF) as usize]
        } else if address <= 0xFE9F {
            self.oam[(address & 0xFF) as usize]
        } else if address <= 0xFEFF {
            0xFF
        } else if address == 0xFF00 {
            self.joypad.state()
        } else if address == 0xFF04 {
            self.timer.div
        } else if address == 0xFF05 {
            self.timer.tima
        } else if address == 0xFF06 {
            self.timer.tma
        } else if address == 0xFF07 {
            self.timer.tac
        } else if address == 0xFF0F {
            0b1110_0000 | self.intr.flags
        } else if address <= 0xFF7F {
            self.io_reg[(address & 0x7F) as usize]
        } else if address <= 0xFFFE {
            self.hram[(address & 0x7F) as usize]
        } else {
            self.ie
        }
    }

    /// Writes one byte onto the bus.
    pub fn wb(&mut self, address: u16, value: u8)
        requires
            old(self).wf(),
        ensures
            final(self)@ == spec_wb(old(self)@, address, value),
            final(self).wf(),
    {
        proof {
            lemma_u16_region_masks(address);
        }
        if address <= 0x7FFF {
            self.cartridge.write_rom(address, value);
        } else if address <= 0x9FFF {
            self.vram.set((address & 0x1FFF) as usize, value);
        } else if address <= 0xBFFF {
            self.cartridge.write_ram(address, value);
        } else if address <= 0xDFFF {
            self.wram.set((address & 0x1FFF) as usize, value);
        } else if address <= 0xFDFF {
            // echo region: writes are dropped
        } else if address <= 0xFE9F {
            self.oam.set((address & 0xFF) as usize, value);
        } else if address <= 0xFEFF {
            // unusable region: writes are dropped
        } else if address == 0xFF00 {
            self.joypad.set_select(value);
        } else if address == 0xFF04 {
            self.timer.counter = 0;
            self.timer.div = 0;
            self.timer.phase = 0;
        } else if address == 0xFF05 {
            self.timer.tima = value;
        } else if address == 0xFF06 {
            self.timer.tma = value;
        } else if address == 0xFF07 {
            self.timer.tac = value;
        } else if address == 0xFF0F {
            self.intr.flags = 0b1110_0000 | value;
        } else if address == 0xFF46 {
            self.io_reg.set(0x46, value);
            if value <= 0xF1 {
                let ghost m1 = self@;
                let hi: u16 = (value as u16) << 8;
                let mut lo: u16 = 0;
                while lo < 0xA0
                    invariant
                        lo <= 0xA0,
                        self.wf(),
                        hi == (value as u16) << 8,
                        value <= 0xF1,
                        m1 == (MmuView { io: old(self)@.io.update(0x46, value), ..old(self)@ }),
                        self@ == (MmuView { oam: self@.oam, ..m1 }),
                        self@.oam.len() == 0xA0,
                        forall|k: int|
                            0 <= k < lo ==> self@.oam[k] == spec_rb(
                                m1,
                                (((value as u16) << 8) | (k as u16)) as u16,
                            ),
                        forall|k: int| lo <= k < 0xA0 ==> self@.oam[k] == m1.oam[k],
                    decreases 0xA0 - lo,
                {
                    proof {
                        lemma_dma_source_low(value, lo);
                        assert(spec_rb(self@, hi | lo) == spec_rb(m1, hi | lo)) by {
                            lemma_rb_ignores_oam(self@, m1, hi | lo);
                        }
                    }
                    let byte = self.rb(hi | lo);
                    self.oam.set(lo as usize, byte);
                    lo = lo + 1;
                }
                proof {
                    assert(self@.oam =~= spec_dma_oam(m1, value));
                    assert(final(self)@ =~= spec_wb(old(self)@, address, value));
                }
            }
        } else if address <= 0xFF7F {
            self.io_reg.set((address & 0x7F) as usize, value);
        } else if address <= 0xFFFE {
            self.hram.set((address & 0x7F) as usize, value);
        } else {
            self.ie = value;
        }
        proof {
            assert(final(self)@ =~= spec_wb(old(self)@, address, value));
        }
    }
}

/// Region-local index masks stay inside their stores, and the DMA source
/// window for a source page of at most 0xF1 sits below OAM.
pub proof fn lemma_u16_region_masks(a: u16)
    by (bit_vector)
    ensures
        (a & 0x1FFF) < 0x2000,
        (a & 0xFF) < 0x100,
        (a & 0x7F) < 0x80,
        0xFE00 <= a && a <= 0xFE9F ==> (a & 0xFF) < 0xA0,
{
}

/// A DMA source address `(v << 8) | lo` with `v <= 0xF1` and `lo < 0xA0`
/// lies below 0xFE00, so the copy never reads OAM itself, and the OR is the
/// plain sum of page and offset.
pub proof fn lemma_dma_source_low(v: u8, lo: u16)
    by (bit_vector)
    ensures
        v <= 0xF1 && lo < 0xA0 ==> (((v as u16) << 8) | lo) < 0xFE00,
        lo < 0xA0 ==> (((v as u16) << 8) | lo) == ((v as u16) << 8) + lo,
{
}

/// Two bus states that differ only in OAM read the same everywhere below
/// 0xFE00.
pub proof fn lemma_rb_ignores_oam(m1: MmuView, m2: MmuView, address: u16)
    requires
        m1 == (MmuView { oam: m1.oam, ..m2 }),
        address < 0xFE00,
    ensures
        spec_rb(m1, address) == spec_rb(m2, address),
{
}

/// Addresses whose cells store a byte and read it back unchanged: VRAM,
/// WRAM (not its echo), OAM, HRAM, and IE.
pub open spec fn spec_writable(address: u16) -> bool {
    ||| (0x8000 <= address && address <= 0x9FFF)
    ||| (0xC000 <= address && address <= 0xDFFF)
    ||| (0xFE00 <= address && address <= 0xFE9F)
    ||| (0xFF80 <= address && address <= 0xFFFE)
    ||| address == 0xFFFF
}

/// Reading a writable cell just after writing it returns the written byte.
pub proof fn lemma_rb_wb_round_trip(m: MmuView, address: u16, value: u8)
    requires
        spec_mmu_wf(m),
        spec_writable(address),
    ensures
        spec_rb(spec_wb(m, address, value), address) == value,
{
    lemma_u16_region_masks(address);
}

/// Within one writable region, distinct addresses use distinct cells.
pub proof fn lemma_region_masks_injective(a: u16, b: u16)
    by (bit_vector)
    ensures
        0x8000 <= a && a <= 0x9FFF && 0x8000 <= b && b <= 0x9FFF && a != b ==> (a & 0x1FFF) != (b
            & 0x1FFF),
        0xC000 <= a && a <= 0xDFFF && 0xC000 <= b && b <= 0xDFFF && a != b ==> (a & 0x1FFF) != (b
            & 0x1FFF),
        0xFE00 <= a && a <= 0xFE9F && 0xFE00 <= b && b <= 0xFE9F && a != b ==> (a & 0xFF) != (b
            & 0xFF),
        0xFF80 <= a && a <= 0xFFFE && 0xFF80 <= b && b <= 0xFFFE && a != b ==> (a & 0x7F) != (b
            & 0x7F),
{
}

/// Writing one writable cell leaves every other writable cell unchanged.
pub proof fn lemma_wb_frame(m: MmuView, address: u16, value: u8, other: u16)
    requires
        spec_mmu_wf(m),
        spec_writable(address),
        spec_writable(other),
        address != other,
    ensures
        spec_rb(spec_wb(m, address, value), other) == spec_rb(m, other),
{
    lemma_u16_region_masks(address);
    lemma_u16_region_masks(other);
    lemma_region_masks_injective(address, other);
}

/// A bus write keeps the bus well-formed: every store keeps its size.
pub proof fn lemma_wb_wf(m: MmuView, address: u16, value: u8)
    requires
        spec_mmu_wf(m),
    ensures
        spec_mmu_wf(spec_wb(m, address, value)),
{
    lemma_u16_region_masks(address);
    if address <= 0x7FFF {
        crate::cartridge::lemma_spec_write_rom_wf(m.cart, address, value);
    } else if 0xA000 <= address && address <= 0xBFFF {
        crate::cartridge::lemma_spec_write_ram_len(m.cart, address, value);
    }
}

/// After any read or write of 0xFF0F, the interrupt-flag byte seen on the
/// bus has bits 5..7 equal to one: a write stores `0xE0 | value`, and every
/// read returns `0xE0 | flags` whatever the stored bits are.
pub proof fn lemma_if_high_bits(m: MmuView, value: u8)
    ensures
        spec_wb(m, 0xFF0F, value).intr.flags == (0b1110_0000u8 | value) as u8,
        spec_rb(m, 0xFF0F) & 0b1110_0000 == 0b1110_0000,
        spec_rb(spec_wb(m, 0xFF0F, value), 0xFF0F) == (0b1110_0000u8 | value) as u8,
{
    let fl = m.intr.flags;
    assert((0b1110_0000u8 | fl) & 0b1110_0000 == 0b1110_0000) by (bit_vector);
    assert(0b1110_0000u8 | ((0b1110_0000u8 | value) as u8) == (0b1110_0000u8 | value) as u8)
        by (bit_vector);
}

} // verus!
