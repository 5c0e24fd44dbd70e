//! The CPU flag register: four condition flags packed into the high nibble of
//! one byte, together with the half-carry helpers shared by the arithmetic
//! instructions.

use vstd::prelude::*;

verus! {

/// Zero flag, bit 7 of the flag register.
pub open spec fn z_of(f: u8) -> bool {
    f & 0x80 != 0
}

/// Subtract flag, bit 6 of the flag register.
pub open spec fn n_of(f: u8) -> bool {
    f & 0x40 != 0
}

/// Half-carry flag, bit 5 of the flag register.
pub open spec fn h_of(f: u8) -> bool {
    f & 0x20 != 0
}

/// Carry flag, bit 4 of the flag register.
pub open spec fn c_of(f: u8) -> bool {
    f & 0x10 != 0
}

/// True iff adding the low nibbles of `a` and `b` carries out of bit 3.
pub open spec fn spec_half_carry_add(a: u8, b: u8) -> bool {
    (a & 0xF) + (b & 0xF) >= 0x10
}

/// True iff subtracting the low nibble of `b` from the low nibble of `a`
/// borrows from bit 4.
pub open spec fn spec_half_carry_sub(a: u8, b: u8) -> bool {
    (a & 0xF) < (b & 0xF)
}

/// The eight flag bits: the four condition flags packed at bits 7 (zero),
/// 6 (subtract), 5 (half-carry) and 4 (carry); the low nibble carries no
/// meaning and reads back as written.
#[derive(Clone, Copy, Debug)]
pub struct CpuFlags(pub u8);

impl CpuFlags {
    pub fn z(&self) -> (r: bool)
        ensures
            r == z_of(self.0),
    {
        (self.0 & 0x80) != 0
    }

    pub fn set_z(&mut self)
        ensures
            final(self).0 == (old(self).0 | 0x80),
    {
        self.0 = self.0 | 0x80;
    }

    pub fn unset_z(&mut self)
        ensures
            final(self).0 == (old(self).0 & 0x7F),
    {
        self.0 = self.0 & 0x7F;
    }

    pub fn n(&self) -> (r: bool)
        ensures
            r == n_of(self.0),
    {
        (self.0 & 0x40) != 0
    }

    pub fn set_n(&mut self)
        ensures
            final(self).0 == (old(self).0 | 0x40),
    {
        self.0 = self.0 | 0x40;
    }

    pub fn unset_n(&mut self)
        ensures
            final(self).0 == (old(self).0 & 0xBF),
    {
        self.0 = self.0 & 0xBF;
    }

    pub fn h(&self) -> (r: bool)
        ensures
            r == h_of(self.0),
    {
        (self.0 & 0x20) != 0
    }

    pub fn set_h(&mut self)
        ensures
            final(self).0 == (old(self).0 | 0x20),
    {
        self.0 = self.0 | 0x20;
    }

    pub fn unset_h(&mut self)
        ensures
            final(self).0 == (old(self).0 & 0xDF),
    {
        self.0 = self.0 & 0xDF;
    }

    pub fn c(&self) -> (r: bool)
        ensures
            r == c_of(self.0),
    {
        (self.0 & 0x10) != 0
    }

    pub fn set_c(&mut self)
        ensures
            final(self).0 == (old(self).0 | 0x10),
    {
        self.0 = self.0 | 0x10;
    }

    pub fn unset_c(&mut self)
        ensures
            final(self).0 == (old(self).0 & 0xEF),
    {
        self.0 = self.0 & 0xEF;
    }
}

/// The flag byte with all four condition flags replaced and the low nibble
/// kept as it was.
pub open spec fn pack_flags(f: u8, z: bool, n: bool, h: bool, c: bool) -> u8 {
    ((f & 0x0F) + (if z {
        0x80int
    } else {
        0int
    }) + (if n {
        0x40int
    } else {
        0int
    }) + (if h {
        0x20int
    } else {
        0int
    }) + (if c {
        0x10int
    } else {
        0int
    })) as u8
}

impl CpuFlags {
    /// Replace all four condition flags at once, keeping the low nibble.
    pub fn write_flags(&mut self, z: bool, n: bool, h: bool, c: bool)
        ensures
            final(self).0 == pack_flags(old(self).0, z, n, h, c),
    {
        let low = self.0 & 0x0F;
        proof {
            let b = self.0;
            assert(b & 0x0F < 0x10) by (bit_vector);
        }
        self.0 = low + (if z {
            0x80u8
        } else {
            0u8
        }) + (if n {
            0x40u8
        } else {
            0u8
        }) + (if h {
            0x20u8
        } else {
            0u8
        }) + (if c {
            0x10u8
        } else {
            0u8
        });
    }
}

impl Default for CpuFlags {
    /// All flags clear.
    fn default() -> (r: CpuFlags)
        ensures
            r.0 == 0,
    {
        CpuFlags(0)
    }
}

/// True iff adding the low nibbles of `a` and `b` carries into bit 4,
/// computed on the operands before the addition mutates anything.
pub fn test_half_carry_addition(a: u8, b: u8) -> (r: bool)
    ensures
        r == spec_half_carry_add(a, b),
{
    ((a & 0xF) as u16 + (b & 0xF) as u16) >= 0x10
}

/// The same half-carry test on the low nibbles of 16-bit operands.
pub fn test_half_carry_addition_u16(a: u16, b: u16) -> (r: bool)
    ensures
        r == ((a & 0xF) + (b & 0xF) >= 0x10),
{
    ((a & 0xF) as u32 + (b & 0xF) as u32) >= 0x10
}

/// True iff subtracting the low nibble of `b` from the low nibble of `a`
/// borrows from bit 4.
pub fn test_half_carry_subtraction(a: u8, b: u8) -> (r: bool)
    ensures
        r == spec_half_carry_sub(a, b),
{
    (a & 0xF) < (b & 0xF)
}

/// Each of the four flags can be set and cleared without disturbing the other
/// three, and setting then clearing a flag that was clear restores the byte.
pub proof fn lemma_flag_round_trip(v: u8)
    ensures
        !z_of(v) ==> (v | 0x80) & 0x7F == v,
        !n_of(v) ==> (v | 0x40) & 0xBF == v,
        !h_of(v) ==> (v | 0x20) & 0xDF == v,
        !c_of(v) ==> (v | 0x10) & 0xEF == v,
        n_of(v | 0x80) == n_of(v) && h_of(v | 0x80) == h_of(v) && c_of(v | 0x80) == c_of(v),
        z_of(v | 0x40) == z_of(v) && h_of(v | 0x40) == h_of(v) && c_of(v | 0x40) == c_of(v),
        z_of(v | 0x20) == z_of(v) && n_of(v | 0x20) == n_of(v) && c_of(v | 0x20) == c_of(v),
        z_of(v | 0x10) == z_of(v) && n_of(v | 0x10) == n_of(v) && h_of(v | 0x10) == h_of(v),
        z_of(v | 0x80) && n_of(v | 0x40) && h_of(v | 0x20) && c_of(v | 0x10),
        !z_of(v & 0x7F) && !n_of(v & 0xBF) && !h_of(v & 0xDF) && !c_of(v & 0xEF),
{
    assert(v & 0x80 == 0 ==> (v | 0x80) & 0x7F == v) by (bit_vector);
    assert(v & 0x40 == 0 ==> (v | 0x40) & 0xBF == v) by (bit_vector);
    assert(v & 0x20 == 0 ==> (v | 0x20) & 0xDF == v) by (bit_vector);
    assert(v & 0x10 == 0 ==> (v | 0x10) & 0xEF == v) by (bit_vector);
    assert((v | 0x80) & 0x40 == v & 0x40 && (v | 0x80) & 0x20 == v & 0x20 && (v | 0x80) & 0x10
        == v & 0x10) by (bit_vector);
    assert((v | 0x40) & 0x80 == v & 0x80 && (v | 0x40) & 0x20 == v & 0x20 && (v | 0x40) & 0x10
        == v & 0x10) by (bit_vector);
    assert((v | 0x20) & 0x80 == v & 0x80 && (v | 0x20) & 0x40 == v & 0x40 && (v | 0x20) & 0x10
        == v & 0x10) by (bit_vector);
    assert((v | 0x10) & 0x80 == v & 0x80 && (v | 0x10) & 0x40 == v & 0x40 && (v | 0x10) & 0x20
        == v & 0x20) by (bit_vector);
    assert((v | 0x80) & 0x80 != 0 && (v | 0x40) & 0x40 != 0 && (v | 0x20) & 0x20 != 0 && (v
        | 0x10) & 0x10 != 0) by (bit_vector);
    assert((v & 0x7F) & 0x80 == 0 && (v & 0xBF) & 0x40 == 0 && (v & 0xDF) & 0x20 == 0 && (v
        & 0xEF) & 0x10 == 0) by (bit_vector);
}

} // verus!
