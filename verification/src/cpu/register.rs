use vstd::prelude::*;

verus! {

/// The register file: eight 8-bit cells, the stack pointer split into its two
/// bytes, and the 16-bit program counter.  Pairs BC, DE, HL and the stack
/// pointer are addressed big-endian: the first-named register holds the high
/// byte.
#[derive(Debug, PartialEq, Eq, Structural)]
pub struct Registers {
    pub a: u8,
    pub f: u8,

    pub b: u8,
    pub c: u8,

    pub d: u8,
    pub e: u8,

    pub h: u8,
    pub l: u8,

    pub sp_0: u8,
    pub sp_1: u8,
    pub pc: u16,
}

#[derive(Debug, Clone, Copy, PartialEq, Eq, Structural)]
pub enum Flag {
    Zero,
    Subtraction,
    HalfCarry,
    Carry,
}

/// The single bit of F that carries the given flag.
pub open spec fn flag_mask(flag: Flag) -> u8 {
    match flag {
        Flag::Zero => 0x80,
        Flag::Subtraction => 0x40,
        Flag::HalfCarry => 0x20,
        Flag::Carry => 0x10,
    }
}

pub open spec fn spec_get_flag(f: u8, flag: Flag) -> bool {
    f & flag_mask(flag) > 0
}

/// Writing one flag bit also forces the low nibble of F to zero.
pub open spec fn spec_set_flag(f: u8, flag: Flag, is_set: bool) -> u8 {
    (if is_set {
        f | flag_mask(flag)
    } else {
        f & !flag_mask(flag)
    }) & 0xF0
}

/// A whole flag byte built from the four flags; the low nibble is zero.
pub open spec fn flags_of(z: bool, n: bool, h: bool, c: bool) -> u8 {
    (if z { 0x80u8 } else { 0u8 }) | (if n { 0x40u8 } else { 0u8 })
        | (if h { 0x20u8 } else { 0u8 }) | (if c { 0x10u8 } else { 0u8 })
}

/// A 16-bit value from a big-endian byte pair.
pub open spec fn be16(hi: u8, lo: u8) -> u16 {
    ((hi as u16) << 8) | (lo as u16)
}

pub open spec fn high_byte(v: u16) -> u8 {
    (v >> 8) as u8
}

pub open spec fn low_byte(v: u16) -> u8 {
    (v & 0xFF) as u8
}

/// Splitting a 16-bit value into bytes and joining them again are inverses.
pub proof fn lemma_be16_roundtrip()
    by (bit_vector)
    ensures
        forall|v: u16| #[trigger] be16(high_byte(v), low_byte(v)) == v,
        forall|hi: u8, lo: u8| #[trigger] high_byte(be16(hi, lo)) == hi,
        forall|hi: u8, lo: u8| #[trigger] low_byte(be16(hi, lo)) == lo,
{
}

/// Every flag byte assembled by `flags_of` has a zero low nibble, and reading
/// a flag out of it gives back the flag that was put in.
pub proof fn lemma_flags_of_props()
    by (bit_vector)
    ensures
        forall|z: bool, n: bool, h: bool, c: bool| #[trigger] flags_of(z, n, h, c) & 0x0F == 0,
        forall|z: bool, n: bool, h: bool, c: bool|
            spec_get_flag(#[trigger] flags_of(z, n, h, c), Flag::Zero) == z,
        forall|z: bool, n: bool, h: bool, c: bool|
            spec_get_flag(#[trigger] flags_of(z, n, h, c), Flag::Subtraction) == n,
        forall|z: bool, n: bool, h: bool, c: bool|
            spec_get_flag(#[trigger] flags_of(z, n, h, c), Flag::HalfCarry) == h,
        forall|z: bool, n: bool, h: bool, c: bool|
            spec_get_flag(#[trigger] flags_of(z, n, h, c), Flag::Carry) == c,
{
}

/// Anything masked with 0xF0 has a zero low nibble; `set_flag` ends so.
pub proof fn lemma_high_nibble_mask_clean()
    by (bit_vector)
    ensures
        forall|x: u8| (#[trigger] (x & 0xF0)) & 0x0F == 0,
        forall|x: u8| (#[trigger] (x & 0xF0)) & 0xF0 == x & 0xF0,
{
}

/// Small facts about masking with the 2-bit and 3-bit register codes.
pub proof fn lemma_mask_literals()
    by (bit_vector)
    ensures
        2u8 & 0x03 == 2,
        3u8 & 0x03 == 3,
        forall|x: u8| #[trigger] (x & 0x07) < 8,
        forall|x: u8| #[trigger] (x & 0x03) < 4,
        forall|x: u8| x < 4 ==> #[trigger] (x & 0x03) == x,
        forall|x: u8| x < 8 ==> #[trigger] (x & 0x07) == x,
{
}

/// The 8-bit register selected by a 3-bit code; code 6 is the `(HL)` memory
/// form and is never answered by the register file.
pub open spec fn spec_get_r8(r: Registers, location: u8) -> u8 {
    let loc = location & 0x07;
    if loc == 0 {
        r.b
    } else if loc == 1 {
        r.c
    } else if loc == 2 {
        r.d
    } else if loc == 3 {
        r.e
    } else if loc == 4 {
        r.h
    } else if loc == 5 {
        r.l
    } else {
        r.a
    }
}

/// The register file with the 8-bit register selected by `location` replaced
/// by `value`.
pub open spec fn spec_set_r8(r: Registers, location: u8, value: u8) -> Registers {
    let loc = location & 0x07;
    if loc == 0 {
        Registers { b: value, ..r }
    } else if loc == 1 {
        Registers { c: value, ..r }
    } else if loc == 2 {
        Registers { d: value, ..r }
    } else if loc == 3 {
        Registers { e: value, ..r }
    } else if loc == 4 {
        Registers { h: value, ..r }
    } else if loc == 5 {
        Registers { l: value, ..r }
    } else {
        Registers { a: value, ..r }
    }
}

/// The 16-bit pair selected by a 2-bit code: BC, DE, HL or SP.
pub open spec fn spec_get_r16(r: Registers, location: u8) -> u16 {
    let loc = location & 0x03;
    if loc == 0 {
        be16(r.b, r.c)
    } else if loc == 1 {
        be16(r.d, r.e)
    } else if loc == 2 {
        be16(r.h, r.l)
    } else {
        be16(r.sp_0, r.sp_1)
    }
}

/// The register file with the selected 16-bit pair replaced by `value`.
pub open spec fn spec_set_r16(r: Registers, location: u8, value: u16) -> Registers {
    let loc = location & 0x03;
    if loc == 0 {
        Registers { b: high_byte(value), c: low_byte(value), ..r }
    } else if loc == 1 {
        Registers { d: high_byte(value), e: low_byte(value), ..r }
    } else if loc == 2 {
        Registers { h: high_byte(value), l: low_byte(value), ..r }
    } else {
        Registers { sp_0: high_byte(value), sp_1: low_byte(value), ..r }
    }
}

/// The condition codes tested by conditional jumps, calls and returns:
/// 0 is not-zero, 1 is zero, 2 is no-carry, 3 is carry.
pub open spec fn spec_cc(f: u8, code: u8) -> bool {
    if code == 0 {
        !spec_get_flag(f, Flag::Zero)
    } else if code == 1 {
        spec_get_flag(f, Flag::Zero)
    } else if code == 2 {
        !spec_get_flag(f, Flag::Carry)
    } else {
        spec_get_flag(f, Flag::Carry)
    }
}

impl Registers {
    pub fn new() -> (r: Registers)
        ensures
            r == (Registers {
                a: 0u8, f: 0u8, b: 0u8, c: 0u8, d: 0u8, e: 0u8, h: 0u8, l: 0u8,
                sp_0: 0u8, sp_1: 0u8, pc: 0u16,
            }),
    {
        Registers {
            a: 0,
            f: 0,
            b: 0,
            c: 0,
            d: 0,
            e: 0,
            h: 0,
            l: 0,
            sp_0: 0,
            sp_1: 0,
            pc: 0,
        }
    }

    /// Read the 8-bit register named by a 3-bit code; code 6 (the `(HL)`
    /// memory form) is handled by the instruction, not the register file.
    pub fn get_r8(&self, location: u8) -> (r: u8)
        requires
            location & 0x07 != 6,
        ensures
            r == spec_get_r8(*self, location),
    {
        let location = location & 0x07;

        match location {
            0 => self.b,
            1 => self.c,
            2 => self.d,
            3 => self.e,
            4 => self.h,
            5 => self.l,
            _ => self.a,
        }
    }

    /// Write the 8-bit register named by a 3-bit code (code 6 excluded).
    pub fn set_r8(&mut self, location: u8, value: u8)
        requires
            location & 0x07 != 6,
        ensures
            *final(self) == spec_set_r8(*old(self), location, value),
    {
        let location = location & 0x07;

        match location {
            0 => self.b = value,
            1 => self.c = value,
            2 => self.d = value,
            3 => self.e = value,
            4 => self.h = value,
            5 => self.l = value,
            _ => self.a = value,
        }
    }

    pub fn get_r16(&self, location: u8) -> (r: u16)
        ensures
            r == spec_get_r16(*self, location),
    {
        let location = location & 0x03;

        let (upper, lower) = match location {
            0 => (self.b, self.c),
            1 => (self.d, self.e),
            2 => (self.h, self.l),
            _ => (self.sp_0, self.sp_1),
        };

        ((upper as u16) << 8) | (lower as u16)
    }

    pub fn set_r16(&mut self, location: u8, value: u16)
        ensures
            *final(self) == spec_set_r16(*old(self), location, value),
    {
        let location = location & 0x03;
        let upper = (value >> 8) as u8;
        let lower = (value & 0xFF) as u8;

        match location {
            0 => {
                self.b = upper;
                self.c = lower;
            },
            1 => {
                self.d = upper;
                self.e = lower;
            },
            2 => {
                self.h = upper;
                self.l = lower;
            },
            _ => {
                self.sp_0 = upper;
                self.sp_1 = lower;
            },
        }
    }

    pub fn get_hl(&self) -> (r: u16)
        ensures
            r == be16(self.h, self.l),
    {
        proof {
            lemma_mask_literals();
        }
        self.get_r16(2)
    }

    pub fn set_hl(&mut self, value: u16)
        ensures
            *final(self) == (Registers {
                h: high_byte(value),
                l: low_byte(value),
                ..*old(self)
            }),
    {
        proof {
            lemma_mask_literals();
        }
        self.set_r16(2, value);
    }

    pub fn get_sp(&self) -> (r: u16)
        ensures
            r == be16(self.sp_0, self.sp_1),
    {
        proof {
            lemma_mask_literals();
        }
        self.get_r16(3)
    }

    pub fn set_sp(&mut self, value: u16)
        ensures
            *final(self) == (Registers {
                sp_0: high_byte(value),
                sp_1: low_byte(value),
                ..*old(self)
            }),
    {
        proof {
            lemma_mask_literals();
        }
        self.set_r16(3, value);
    }

    /// Change a single flag bit; the low nibble of F is forced to zero
    /// afterwards, as the hardware keeps it.
    pub fn set_flag(&mut self, flag: Flag, is_set: bool)
        ensures
            *final(self) == (Registers {
                f: spec_set_flag(old(self).f, flag, is_set),
                ..*old(self)
            }),
    {
        let mask = Registers::get_flag_mask(flag);

        if is_set {
            self.f |= mask;
        } else {
            self.f &= !mask;
        }

        self.f &= 0xF0;
    }

    /// Replace all four flags at once; the low nibble of F becomes zero.
    pub fn set_flags(&mut self, z: bool, n: bool, h: bool, c: bool)
        ensures
            *final(self) == (Registers { f: flags_of(z, n, h, c), ..*old(self) }),
    {
        self.f = (if z { 0x80u8 } else { 0u8 }) | (if n { 0x40u8 } else { 0u8 })
            | (if h { 0x20u8 } else { 0u8 }) | (if c { 0x10u8 } else { 0u8 });
    }

    pub fn get_flag(&self, flag: Flag) -> (r: bool)
        ensures
            r == spec_get_flag(self.f, flag),
    {
        let mask = Self::get_flag_mask(flag);
        (self.f & mask) > 0
    }

    /// Evaluate a 2-bit condition code against the flags.
    pub fn cc(&self, cc: u8) -> (r: bool)
        requires
            cc < 4,
        ensures
            r == spec_cc(self.f, cc),
    {
        match cc {
            0 => !self.get_flag(Flag::Zero),
            1 => self.get_flag(Flag::Zero),
            2 => !self.get_flag(Flag::Carry),
            _ => self.get_flag(Flag::Carry),
        }
    }

    fn get_flag_mask(flag: Flag) -> (r: u8)
        ensures
            r == flag_mask(flag),
    {
        match flag {
            Flag::Zero => 0b1000_0000,
            Flag::Subtraction => 0b0100_0000,
            Flag::HalfCarry => 0b0010_0000,
            Flag::Carry => 0b0001_0000,
        }
    }
}

} // verus!
