//! The register file: seven 8-bit registers, the four condition flags, the
//! stack pointer and the program counter, with the paired 16-bit accessors.

use vstd::prelude::*;
use vstd::std_specs::convert::FromSpecImpl;

verus! {

/// The 16-bit value whose upper byte is `hi` and whose lower byte is `lo`.
pub open spec fn pair(hi: u8, lo: u8) -> int {
    hi as int * 256 + lo as int
}

/// The upper byte of a 16-bit value.
pub open spec fn high_byte(val: u16) -> int {
    val as int / 256
}

/// The lower byte of a 16-bit value.
pub open spec fn low_byte(val: u16) -> int {
    val as int % 256
}

/// Composes two bytes into a 16-bit value, `hi` in the upper byte.
pub fn join_bytes(hi: u8, lo: u8) -> (val: u16)
    ensures
        val == pair(hi, lo),
        high_byte(val) == hi,
        low_byte(val) == lo,
{
    (hi as u16) * 256 + (lo as u16)
}

/// Splits a 16-bit value into its upper and lower byte.
pub fn split_bytes(val: u16) -> (bytes: (u8, u8))
    ensures
        bytes.0 == high_byte(val),
        bytes.1 == low_byte(val),
        pair(bytes.0, bytes.1) == val,
{
    ((val / 256) as u8, (val % 256) as u8)
}

/// The four condition flags.
#[derive(Copy, Clone, Debug, PartialEq, Eq)]
pub struct FlagsReg {
    pub carry: bool,
    pub zero: bool,
    pub negative: bool,
    pub half_carry: bool,
}

impl FlagsReg {
    /// The flags as the byte that the register pair AF carries in its lower
    /// half: zero in bit 7, negative in bit 6, half-carry in bit 5, carry in
    /// bit 4, and nothing in the lower nibble.
    pub open spec fn bits(self) -> int {
        (if self.zero { 128int } else { 0 })
            + (if self.negative { 64int } else { 0 })
            + (if self.half_carry { 32int } else { 0 })
            + (if self.carry { 16int } else { 0 })
    }

    /// The flags held by the upper nibble of `val`; the lower nibble is ignored.
    pub open spec fn of_bits(val: u8) -> FlagsReg {
        FlagsReg {
            zero: val as int / 128 == 1,
            negative: (val as int / 64) % 2 == 1,
            half_carry: (val as int / 32) % 2 == 1,
            carry: (val as int / 16) % 2 == 1,
        }
    }
}

impl From<FlagsReg> for u8 {
    fn from(flag: FlagsReg) -> (val: u8) {
        let z: u8 = if flag.zero { 128 } else { 0 };
        let n: u8 = if flag.negative { 64 } else { 0 };
        let h: u8 = if flag.half_carry { 32 } else { 0 };
        let c: u8 = if flag.carry { 16 } else { 0 };
        z + n + h + c
    }
}

impl FromSpecImpl<FlagsReg> for u8 {
    open spec fn obeys_from_spec() -> bool {
        true
    }

    open spec fn from_spec(flag: FlagsReg) -> u8 {
        flag.bits() as u8
    }
}

impl From<u8> for FlagsReg {
    fn from(val: u8) -> (flag: FlagsReg) {
        FlagsReg {
            zero: val / 128 == 1,
            negative: (val / 64) % 2 == 1,
            half_carry: (val / 32) % 2 == 1,
            carry: (val / 16) % 2 == 1,
        }
    }
}

impl FromSpecImpl<u8> for FlagsReg {
    open spec fn obeys_from_spec() -> bool {
        true
    }

    open spec fn from_spec(val: u8) -> FlagsReg {
        FlagsReg::of_bits(val)
    }
}

/// Packing the flags into a byte and unpacking them gives the flags back, and
/// the packed byte has an empty lower nibble.
pub proof fn lemma_flags_round_trip(flag: FlagsReg)
    ensures
        0 <= flag.bits() < 256,
        flag.bits() % 16 == 0,
        FlagsReg::of_bits(flag.bits() as u8) == flag,
{
}

/// Unpacking a byte and packing the flags again keeps the upper nibble and
/// clears the lower one.
pub proof fn lemma_bits_round_trip(val: u8)
    ensures
        FlagsReg::of_bits(val).bits() == val - val % 16,
{
}

/// The register file.
#[derive(Copy, Clone, Debug, PartialEq, Eq)]
pub struct Registers {
    pub a: u8,
    pub b: u8,
    pub c: u8,
    pub d: u8,
    pub e: u8,
    pub h: u8,
    pub l: u8,
    pub sp: u16,
    pub pc: u16,
    pub flags: FlagsReg,
}

impl Registers {
    /// The pair HL, `h` in the upper byte.
    pub open spec fn hl(self) -> u16 {
        pair(self.h, self.l) as u16
    }

    /// The pair BC, `b` in the upper byte.
    pub open spec fn bc(self) -> u16 {
        pair(self.b, self.c) as u16
    }

    /// The pair DE, `d` in the upper byte.
    pub open spec fn de(self) -> u16 {
        pair(self.d, self.e) as u16
    }

    /// The pair AF: the accumulator in the upper byte, the packed flags in the
    /// lower one.
    pub open spec fn af(self) -> u16 {
        (self.a as int * 256 + self.flags.bits()) as u16
    }

    /// The registers with HL holding `val`.
    pub open spec fn with_hl(self, val: u16) -> Registers {
        Registers { h: high_byte(val) as u8, l: low_byte(val) as u8, ..self }
    }

    /// The registers with BC holding `val`.
    pub open spec fn with_bc(self, val: u16) -> Registers {
        Registers { b: high_byte(val) as u8, c: low_byte(val) as u8, ..self }
    }

    /// The registers with DE holding `val`.
    pub open spec fn with_de(self, val: u16) -> Registers {
        Registers { d: high_byte(val) as u8, e: low_byte(val) as u8, ..self }
    }

    /// The registers with AF holding `val`: the flags take the upper nibble of
    /// the lower byte, whose lower nibble is dropped.
    pub open spec fn with_af(self, val: u16) -> Registers {
        Registers {
            a: high_byte(val) as u8,
            flags: FlagsReg::of_bits(low_byte(val) as u8),
            ..self
        }
    }

    /// The register file of a machine that skipped the boot program.
    pub fn default_no_bios() -> (regs: Registers)
        ensures
            regs == (Registers {
                a: 1,
                b: 0,
                c: 0x13,
                d: 0,
                e: 0xd8,
                h: 0x01,
                l: 0x4d,
                sp: 0xFFFE,
                pc: 0x100,
                flags: FlagsReg { zero: true, negative: false, half_carry: true, carry: true },
            }),
            regs.af() == 0x01B0,
    {
        Registers {
            a: 1,
            b: 0,
            c: 0x13,
            d: 0,
            e: 0xd8,
            h: 0x01,
            l: 0x4d,
            sp: 0xFFFE,
            flags: FlagsReg::from(0xB0),
            pc: 0x100,
        }
    }

    /// The register file at power-on: everything zero, every flag clear.
    pub fn default() -> (regs: Registers)
        ensures
            regs == (Registers {
                a: 0,
                b: 0,
                c: 0,
                d: 0,
                e: 0,
                h: 0,
                l: 0,
                sp: 0,
                pc: 0,
                flags: FlagsReg { zero: false, negative: false, half_carry: false, carry: false },
            }),
    {
        Registers {
            a: 0,
            b: 0,
            c: 0,
            d: 0,
            e: 0,
            h: 0,
            l: 0,
            sp: 0,
            flags: FlagsReg::from(0x00),
            pc: 0,
        }
    }

    pub fn get_hl(&self) -> (val: u16)
        ensures
            val == self.hl(),
            val == pair(self.h, self.l),
    {
        join_bytes(self.h, self.l)
    }

    pub fn set_hl(&mut self, val: u16)
        ensures
            *final(self) == old(self).with_hl(val),
            final(self).hl() == val,
    {
        let (hi, lo) = split_bytes(val);
        self.h = hi;
        self.l = lo;
    }

    pub fn get_af(&self) -> (val: u16)
        ensures
            val == self.af(),
            val == self.a as int * 256 + self.flags.bits(),
            val as int % 16 == 0,
    {
        join_bytes(self.a, u8::from(self.flags))
    }

    pub fn set_af(&mut self, val: u16)
        ensures
            *final(self) == old(self).with_af(val),
            final(self).af() == val - val % 16,
    {
        let (hi, lo) = split_bytes(val);
        self.a = hi;
        self.flags = FlagsReg::from(lo);
    }

    pub fn get_bc(&self) -> (val: u16)
        ensures
            val == self.bc(),
            val == pair(self.b, self.c),
    {
        join_bytes(self.b, self.c)
    }

    pub fn set_bc(&mut self, val: u16)
        ensures
            *final(self) == old(self).with_bc(val),
            final(self).bc() == val,
    {
        let (hi, lo) = split_bytes(val);
        self.b = hi;
        self.c = lo;
    }

    pub fn get_de(&self) -> (val: u16)
        ensures
            val == self.de(),
            val == pair(self.d, self.e),
    {
        join_bytes(self.d, self.e)
    }

    pub fn set_de(&mut self, val: u16)
        ensures
            *final(self) == old(self).with_de(val),
            final(self).de() == val,
    {
        let (hi, lo) = split_bytes(val);
        self.d = hi;
        self.e = lo;
    }
}

} // verus!
