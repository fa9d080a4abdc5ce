use vstd::prelude::*;

verus! {

/// One of the five interrupt sources, in ascending priority-bit order:
/// VBlank (bit 0), Stat (bit 1), Timer (bit 2), Serial (bit 3), Joypad (bit 4).
#[derive(Debug, Copy, Clone, PartialEq, Eq, Structural)]
pub enum IntFlag {
    VBlank,
    Stat,
    Timer,
    Serial,
    Joypad,
}

impl IntFlag {
    /// The bit this source occupies in the IF and IE registers.
    pub open spec fn spec_mask(self) -> u8 {
        match self {
            IntFlag::VBlank => 0x01,
            IntFlag::Stat => 0x02,
            IntFlag::Timer => 0x04,
            IntFlag::Serial => 0x08,
            IntFlag::Joypad => 0x10,
        }
    }

    pub fn mask(self) -> (r: u8)
        ensures
            r == self.spec_mask(),
    {
        match self {
            IntFlag::VBlank => 0x01,
            IntFlag::Stat => 0x02,
            IntFlag::Timer => 0x04,
            IntFlag::Serial => 0x08,
            IntFlag::Joypad => 0x10,
        }
    }
}

/// The interrupt-flag register IF. Only bits 0..4 carry a request; the
/// memory-mapped write path at 0xFF0F forces bits 5..7 to one.
#[derive(Debug, Copy, Clone, PartialEq, Eq, Structural)]
pub struct IntReq {
    pub flags: u8,
}

impl IntReq {
    pub fn new() -> (r: IntReq)
        ensures
            r.flags == 0,
    {
        IntReq { flags: 0 }
    }

    /// Requests an interrupt by setting its bit in IF; all other bits keep
    /// their value.
    pub fn set_flag(&mut self, f: IntFlag)
        ensures
            final(self).flags == old(self).flags | f.spec_mask(),
    {
        self.flags = self.flags | f.mask();
    }
}

} // verus!
