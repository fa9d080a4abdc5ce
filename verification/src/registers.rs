use vstd::prelude::*;

verus! {

/// One of the four condition-code bits held in the flag register F
/// (bit 7 = Z, bit 6 = N, bit 5 = H, bit 4 = C).
#[derive(Debug, Copy, Clone, PartialEq, Eq, Structural)]
pub enum Flag {
    Z,
    N,
    H,
    C,
}

/// The CPU register file: eight 8-bit registers A, B, C, D, E, H, L and the
/// flag field F, plus the 16-bit program counter and stack pointer.
///
/// The four flag bits are stored as booleans; the byte form of F is derived
/// by `spec_f`/`f`, so its low nibble is zero in every reachable state.
#[derive(Debug, Copy, Clone, PartialEq, Eq, Structural)]
pub struct Registers {
    pub a: u8,
    pub b: u8,
    pub c: u8,
    pub d: u8,
    pub e: u8,
    pub h: u8,
    pub l: u8,
    pub zf: bool,
    pub nf: bool,
    pub hf: bool,
    pub cf: bool,
    pub pc: u16,
    pub sp: u16,
}

/// The byte encoding of the four flag bits: Z, N, H, C in bits 7..4, with the
/// low nibble always zero.
pub open spec fn spec_flag_byte(z: bool, n: bool, h: bool, c: bool) -> u8 {
    ((if z { 0x80u8 } else { 0u8 }) + (if n { 0x40u8 } else { 0u8 }) + (if h { 0x20u8 } else {
        0u8
    }) + (if c { 0x10u8 } else { 0u8 })) as u8
}

/// The low nibble of the flag byte is zero for every combination of flags:
/// no register-file state can expose a nonzero low nibble through F.
pub proof fn lemma_flag_byte_low_nibble(z: bool, n: bool, h: bool, c: bool)
    ensures
        spec_flag_byte(z, n, h, c) % 16 == 0,
        spec_flag_byte(z, n, h, c) & 0x0F == 0,
{
    let v = spec_flag_byte(z, n, h, c);
    assert(v % 16 == 0);
    assert(v % 16 == 0 ==> v & 0x0F == 0) by (bit_vector);
}

impl Registers {
    /// The byte form of the flag register F.
    pub open spec fn spec_f(self) -> u8 {
        spec_flag_byte(self.zf, self.nf, self.hf, self.cf)
    }

    /// A fresh register file with every register, flag and pointer zeroed.
    pub fn new() -> (r: Registers)
        ensures
            r == (Registers {
                a: 0,
                b: 0,
                c: 0,
                d: 0,
                e: 0,
                h: 0,
                l: 0,
                zf: false,
                nf: false,
                hf: false,
                cf: false,
                pc: 0,
                sp: 0,
            }),
    {
        Registers {
            a: 0,
            b: 0,
            c: 0,
            d: 0,
            e: 0,
            h: 0,
            l: 0,
            zf: false,
            nf: false,
            hf: false,
            cf: false,
            pc: 0,
            sp: 0,
        }
    }

    /// The byte form of F: flags in bits 7..4, low nibble zero.
    pub fn f(&self) -> (r: u8)
        ensures
            r == self.spec_f(),
    {
        (if self.zf { 0x80u8 } else { 0u8 }) + (if self.nf { 0x40u8 } else { 0u8 }) + (if self.hf {
            0x20u8
        } else { 0u8 }) + (if self.cf { 0x10u8 } else { 0u8 })
    }

    pub open spec fn spec_get_flag(self, f: Flag) -> bool {
        match f {
            Flag::Z => self.zf,
            Flag::N => self.nf,
            Flag::H => self.hf,
            Flag::C => self.cf,
        }
    }

    pub fn get_flag(&self, f: Flag) -> (r: bool)
        ensures
            r == self.spec_get_flag(f),
    {
        match f {
            Flag::Z => self.zf,
            Flag::N => self.nf,
            Flag::H => self.hf,
            Flag::C => self.cf,
        }
    }

    pub open spec fn spec_set_flag(self, f: Flag, v: bool) -> Registers {
        match f {
            Flag::Z => Registers { zf: v, ..self },
            Flag::N => Registers { nf: v, ..self },
            Flag::H => Registers { hf: v, ..self },
            Flag::C => Registers { cf: v, ..self },
        }
    }

    pub fn set_flag(&mut self, f: Flag, v: bool)
        ensures
            *final(self) == old(self).spec_set_flag(f, v),
    {
        match f {
            Flag::Z => self.zf = v,
            Flag::N => self.nf = v,
            Flag::H => self.hf = v,
            Flag::C => self.cf = v,
        }
    }

    /// Sets Z, N, H and C at once.
    pub fn set_znhc(&mut self, z: bool, n: bool, h: bool, c: bool)
        ensures
            *final(self) == (Registers { zf: z, nf: n, hf: h, cf: c, ..*old(self) }),
    {
        self.zf = z;
        self.nf = n;
        self.hf = h;
        self.cf = c;
    }

    pub open spec fn spec_af(self) -> u16 {
        (((self.a as u16) << 8) | (self.spec_f() as u16)) as u16
    }

    /// The 16-bit AF pair: A in the high byte, the flag byte in the low byte.
    pub fn af(&self) -> (r: u16)
        ensures
            r == self.spec_af(),
    {
        ((self.a as u16) << 8) | (self.f() as u16)
    }

    pub open spec fn spec_bc(self) -> u16 {
        (((self.b as u16) << 8) | (self.c as u16)) as u16
    }

    pub fn bc(&self) -> (r: u16)
        ensures
            r == self.spec_bc(),
    {
        ((self.b as u16) << 8) | (self.c as u16)
    }

    pub open spec fn spec_de(self) -> u16 {
        (((self.d as u16) << 8) | (self.e as u16)) as u16
    }

    pub fn de(&self) -> (r: u16)
        ensures
            r == self.spec_de(),
    {
        ((self.d as u16) << 8) | (self.e as u16)
    }

    pub open spec fn spec_hl(self) -> u16 {
        (((self.h as u16) << 8) | (self.l as u16)) as u16
    }

    pub fn hl(&self) -> (r: u16)
        ensures
            r == self.spec_hl(),
    {
        ((self.h as u16) << 8) | (self.l as u16)
    }

    /// Writing AF stores the high byte in A and decodes bits 7..4 of the low
    /// byte into the flags; the low nibble of the written value is discarded.
    pub open spec fn spec_set_af(self, v: u16) -> Registers {
        Registers {
            a: (v >> 8) as u8,
            zf: v & 0x80 != 0,
            nf: v & 0x40 != 0,
            hf: v & 0x20 != 0,
            cf: v & 0x10 != 0,
            ..self
        }
    }

    pub fn set_af(&mut self, v: u16)
        ensures
            *final(self) == old(self).spec_set_af(v),
    {
        self.a = (v >> 8) as u8;
        self.zf = v & 0x80 != 0;
        self.nf = v & 0x40 != 0;
        self.hf = v & 0x20 != 0;
        self.cf = v & 0x10 != 0;
    }

    pub open spec fn spec_set_bc(self, v: u16) -> Registers {
        Registers { b: (v >> 8) as u8, c: v as u8, ..self }
    }

    pub fn set_bc(&mut self, v: u16)
        ensures
            *final(self) == old(self).spec_set_bc(v),
    {
        self.b = (v >> 8) as u8;
        self.c = v as u8;
    }

    pub open spec fn spec_set_de(self, v: u16) -> Registers {
        Registers { d: (v >> 8) as u8, e: v as u8, ..self }
    }

    pub fn set_de(&mut self, v: u16)
        ensures
            *final(self) == old(self).spec_set_de(v),
    {
        self.d = (v >> 8) as u8;
        self.e = v as u8;
    }

    pub open spec fn spec_set_hl(self, v: u16) -> Registers {
        Registers { h: (v >> 8) as u8, l: v as u8, ..self }
    }

    pub fn set_hl(&mut self, v: u16)
        ensures
            *final(self) == old(self).spec_set_hl(v),
    {
        self.h = (v >> 8) as u8;
        self.l = v as u8;
    }

    /// Post-increment access to HL: returns the current HL and then
    /// increments the pair, wrapping at 0xFFFF.
    pub fn hli(&mut self) -> (r: u16)
        ensures
            r == old(self).spec_hl(),
            *final(self) == old(self).spec_set_hl(((old(self).spec_hl() + 1) % 0x10000) as u16),
    {
        let r = self.hl();
        self.set_hl(r.wrapping_add(1));
        r
    }

    /// Post-decrement access to HL: returns the current HL and then
    /// decrements the pair, wrapping at 0.
    pub fn hld(&mut self) -> (r: u16)
        ensures
            r == old(self).spec_hl(),
            *final(self) == old(self).spec_set_hl(
                ((old(self).spec_hl() + 0xFFFF) % 0x10000) as u16,
            ),
    {
        let r = self.hl();
        self.set_hl(r.wrapping_sub(1));
        r
    }
}

} // verus!
