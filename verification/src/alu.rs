//! The arithmetic and logic unit: what each operation computes and how it
//! sets the four condition flags, and the operations themselves.

use vstd::prelude::*;
use crate::GBEmulator;
use crate::registers::FlagsReg;

verus! {

/// A flag as a number: 1 when set, 0 when clear.
pub open spec fn bit_of(flag: bool) -> int {
    if flag {
        1
    } else {
        0
    }
}

/// `a + b + carry_in` in eight bits. Zero reflects the result byte, half-carry
/// the carry out of bit 3, carry the carry out of bit 7.
pub open spec fn add8(a: u8, b: u8, carry_in: bool) -> (u8, FlagsReg) {
    let sum = a + b + bit_of(carry_in);
    (
        (sum % 256) as u8,
        FlagsReg {
            zero: sum % 256 == 0,
            negative: false,
            half_carry: a % 16 + b % 16 + bit_of(carry_in) > 15,
            carry: sum > 255,
        },
    )
}

/// `a - b - borrow_in` in eight bits. Zero reflects the result byte,
/// half-carry the borrow into bit 3, carry the borrow into bit 7.
pub open spec fn sub8(a: u8, b: u8, borrow_in: bool) -> (u8, FlagsReg) {
    let diff = a - b - bit_of(borrow_in);
    (
        (diff % 256) as u8,
        FlagsReg {
            zero: diff % 256 == 0,
            negative: true,
            half_carry: a % 16 - b % 16 - bit_of(borrow_in) < 0,
            carry: diff < 0,
        },
    )
}

/// `value + 1` in eight bits; the carry flag keeps its state.
pub open spec fn inc8(value: u8, flags: FlagsReg) -> (u8, FlagsReg) {
    (
        ((value + 1) % 256) as u8,
        FlagsReg {
            zero: value == 255,
            negative: false,
            half_carry: value % 16 == 15,
            carry: flags.carry,
        },
    )
}

/// `value - 1` in eight bits; the carry flag keeps its state.
pub open spec fn dec8(value: u8, flags: FlagsReg) -> (u8, FlagsReg) {
    (
        ((value - 1) % 256) as u8,
        FlagsReg {
            zero: value == 1,
            negative: true,
            half_carry: value % 16 == 0,
            carry: flags.carry,
        },
    )
}

/// Bitwise and: half-carry is forced on, negative and carry off.
pub open spec fn and8(a: u8, b: u8) -> (u8, FlagsReg) {
    (a & b, FlagsReg { zero: a & b == 0, negative: false, half_carry: true, carry: false })
}

/// Bitwise or: negative, half-carry and carry are forced off.
pub open spec fn or8(a: u8, b: u8) -> (u8, FlagsReg) {
    (a | b, FlagsReg { zero: a | b == 0, negative: false, half_carry: false, carry: false })
}

/// Bitwise exclusive or: negative, half-carry and carry are forced off.
pub open spec fn xor8(a: u8, b: u8) -> (u8, FlagsReg) {
    (a ^ b, FlagsReg { zero: a ^ b == 0, negative: false, half_carry: false, carry: false })
}

/// `a + b` in sixteen bits. Carry is the carry out of bit 15, half-carry the
/// carry out of bit 11; zero and negative are cleared whatever the result.
pub open spec fn add16(a: u16, b: u16) -> (u16, FlagsReg) {
    (
        ((a + b) % 65536) as u16,
        FlagsReg {
            zero: false,
            negative: false,
            half_carry: a % 4096 + b % 4096 > 4095,
            carry: a + b > 65535,
        },
    )
}

/// The flags after a rotate or shift that gave `result` and pushed `carry` out.
pub open spec fn shift_flags(result: u8, carry: bool) -> FlagsReg {
    FlagsReg { zero: result == 0, negative: false, half_carry: false, carry }
}

/// Circular rotate left: bit 7 leaves into carry and enters at bit 0.
pub open spec fn rlc(value: u8) -> (u8, FlagsReg) {
    let result = ((value % 128) * 2 + value / 128) as u8;
    (result, shift_flags(result, value >= 128))
}

/// Circular rotate right: bit 0 leaves into carry and enters at bit 7.
pub open spec fn rrc(value: u8) -> (u8, FlagsReg) {
    let result = (value / 2 + (value % 2) * 128) as u8;
    (result, shift_flags(result, value % 2 == 1))
}

/// Rotate left through carry: bit 7 leaves into carry, the old carry enters
/// at bit 0.
pub open spec fn rl(value: u8, carry_in: bool) -> (u8, FlagsReg) {
    let result = ((value % 128) * 2 + bit_of(carry_in)) as u8;
    (result, shift_flags(result, value >= 128))
}

/// Rotate right through carry: bit 0 leaves into carry, the old carry enters
/// at bit 7.
pub open spec fn rr(value: u8, carry_in: bool) -> (u8, FlagsReg) {
    let result = (value / 2 + bit_of(carry_in) * 128) as u8;
    (result, shift_flags(result, value % 2 == 1))
}

/// Shift left: bit 7 leaves into carry, zero enters at bit 0.
pub open spec fn sla(value: u8) -> (u8, FlagsReg) {
    let result = ((value % 128) * 2) as u8;
    (result, shift_flags(result, value >= 128))
}

/// Arithmetic shift right: bit 0 leaves into carry, bit 7 keeps its state.
pub open spec fn sra(value: u8) -> (u8, FlagsReg) {
    let result = (value / 2 + (value / 128) * 128) as u8;
    (result, shift_flags(result, value % 2 == 1))
}

/// Logical shift right: bit 0 leaves into carry, zero enters at bit 7.
pub open spec fn srl(value: u8) -> (u8, FlagsReg) {
    let result = value / 2;
    (result, shift_flags(result, value % 2 == 1))
}

/// Exchanges the two nibbles.
pub open spec fn swap(value: u8) -> (u8, FlagsReg) {
    let result = ((value % 16) * 16 + value / 16) as u8;
    (result, shift_flags(result, false))
}

/// The flags after a test of bit `index` of `value`: zero is set when the bit
/// is clear, half-carry is forced on, negative off, carry keeps its state.
pub open spec fn bit_flags(value: u8, index: u8, flags: FlagsReg) -> FlagsReg {
    FlagsReg {
        zero: value & (1u8 << index) == 0,
        negative: false,
        half_carry: true,
        carry: flags.carry,
    }
}

/// `value` with bit `index` cleared.
pub open spec fn clear_bit(value: u8, index: u8) -> u8 {
    value & !(1u8 << index)
}

/// `value` with bit `index` set.
pub open spec fn set_bit(value: u8, index: u8) -> u8 {
    value | (1u8 << index)
}

/// The decimal correction that `daa` applies: 0x06 where the low digit needs
/// it, 0x60 where the high digit does.
pub open spec fn daa_correction(a: u8, flags: FlagsReg) -> int {
    (if flags.half_carry || (!flags.negative && a % 16 > 9) {
        0x06int
    } else {
        0
    }) + (if flags.carry || (!flags.negative && a > 0x99) {
        0x60int
    } else {
        0
    })
}

/// Decimal adjust: after an addition the correction is added, after a
/// subtraction it is subtracted. Carry is set exactly when the high digit was
/// corrected, half-carry is cleared, negative keeps its state.
pub open spec fn daa(a: u8, flags: FlagsReg) -> (u8, FlagsReg) {
    let correction = daa_correction(a, flags);
    let result = if flags.negative {
        ((a - correction) % 256) as u8
    } else {
        ((a + correction) % 256) as u8
    };
    (
        result,
        FlagsReg {
            zero: result == 0,
            negative: flags.negative,
            half_carry: false,
            carry: correction >= 0x60,
        },
    )
}

impl GBEmulator {
    /// `ADD`: adds two bytes and sets all four flags.
    pub fn add_u8(&mut self, value1: u8, value2: u8) -> (result: u8)
        ensures
            result == add8(value1, value2, false).0,
            final(self)@ == old(self)@.with_flags(add8(value1, value2, false).1),
    {
        let sum: u16 = value1 as u16 + value2 as u16;
        let result = (sum % 256) as u8;
        self.regs.flags.negative = false;
        self.regs.flags.zero = result == 0;
        self.regs.flags.half_carry = (value1 % 16) + (value2 % 16) > 15;
        self.regs.flags.carry = sum > 255;
        result
    }

    /// `ADC`: adds `value` and the carry flag to the accumulator's value.
    pub fn adc(&mut self, value: u8) -> (result: u8)
        ensures
            result == add8(old(self)@.regs.a, value, old(self)@.regs.flags.carry).0,
            final(self)@ == old(self)@.with_flags(
                add8(old(self)@.regs.a, value, old(self)@.regs.flags.carry).1,
            ),
    {
        let carry: u8 = if self.regs.flags.carry { 1 } else { 0 };
        let sum: u16 = self.regs.a as u16 + value as u16 + carry as u16;
        let result = (sum % 256) as u8;
        self.regs.flags.zero = result == 0;
        self.regs.flags.half_carry = (self.regs.a % 16) + (value % 16) + carry > 15;
        self.regs.flags.carry = sum > 255;
        self.regs.flags.negative = false;
        result
    }

    /// `SBC`: subtracts `value` and the carry flag from the accumulator's
    /// value.
    pub fn sbc(&mut self, value: u8) -> (result: u8)
        ensures
            result == sub8(old(self)@.regs.a, value, old(self)@.regs.flags.carry).0,
            final(self)@ == old(self)@.with_flags(
                sub8(old(self)@.regs.a, value, old(self)@.regs.flags.carry).1,
            ),
    {
        let borrow: u8 = if self.regs.flags.carry { 1 } else { 0 };
        let a = self.regs.a;
        let take: u16 = value as u16 + borrow as u16;
        let result = if (a as u16) < take {
            (a as u16 + 256 - take) as u8
        } else {
            (a as u16 - take) as u8
        };
        self.regs.flags.zero = result == 0;
        self.regs.flags.carry = (a as u16) < take;
        self.regs.flags.half_carry = a % 16 < (value % 16) + borrow;
        self.regs.flags.negative = true;
        result
    }

    /// `INC`: adds one; the carry flag keeps its state.
    pub fn increment_u8(&mut self, value: u8) -> (result: u8)
        ensures
            result == inc8(value, old(self)@.regs.flags).0,
            final(self)@ == old(self)@.with_flags(inc8(value, old(self)@.regs.flags).1),
    {
        let result = value.wrapping_add(1);
        self.regs.flags.negative = false;
        self.regs.flags.zero = result == 0;
        self.regs.flags.half_carry = value % 16 == 15;
        result
    }

    /// `INC` on a register pair: adds one, wrapping, and touches no flag.
    pub fn increment_u16(&self, value: u16) -> (result: u16)
        ensures
            result == value.wrapping_add(1),
            result == (value + 1) % 65536,
    {
        value.wrapping_add(1)
    }

    /// `DEC`: subtracts one; the carry flag keeps its state.
    pub fn decrement_u8(&mut self, value: u8) -> (result: u8)
        ensures
            result == dec8(value, old(self)@.regs.flags).0,
            final(self)@ == old(self)@.with_flags(dec8(value, old(self)@.regs.flags).1),
    {
        let result = value.wrapping_sub(1);
        self.regs.flags.negative = true;
        self.regs.flags.zero = result == 0;
        self.regs.flags.half_carry = value % 16 == 0;
        result
    }

    /// `DEC` on a register pair: subtracts one, wrapping, and touches no flag.
    pub fn decrement_u16(&self, value: u16) -> (result: u16)
        ensures
            result == value.wrapping_sub(1),
            result == (value - 1) % 65536,
    {
        value.wrapping_sub(1)
    }

    /// `SUB` and `CP`: subtracts `value` from the accumulator's value.
    pub fn sub(&mut self, value: u8) -> (result: u8)
        ensures
            result == sub8(old(self)@.regs.a, value, false).0,
            final(self)@ == old(self)@.with_flags(sub8(old(self)@.regs.a, value, false).1),
    {
        let a = self.regs.a;
        self.regs.flags.carry = value > a;
        self.regs.flags.half_carry = value % 16 > a % 16;
        let result = a.wrapping_sub(value);
        self.regs.flags.zero = result == 0;
        self.regs.flags.negative = true;
        result
    }

    /// `AND` with the accumulator's value.
    pub fn and(&mut self, value: u8) -> (result: u8)
        ensures
            result == and8(old(self)@.regs.a, value).0,
            final(self)@ == old(self)@.with_flags(and8(old(self)@.regs.a, value).1),
    {
        let result = self.regs.a & value;
        self.regs.flags.zero = result == 0;
        self.regs.flags.half_carry = true;
        self.regs.flags.carry = false;
        self.regs.flags.negative = false;
        result
    }

    /// `OR` with the accumulator's value.
    pub fn or(&mut self, value: u8) -> (result: u8)
        ensures
            result == or8(old(self)@.regs.a, value).0,
            final(self)@ == old(self)@.with_flags(or8(old(self)@.regs.a, value).1),
    {
        let result = self.regs.a | value;
        self.regs.flags.zero = result == 0;
        self.regs.flags.half_carry = false;
        self.regs.flags.carry = false;
        self.regs.flags.negative = false;
        result
    }

    /// `XOR` with the accumulator's value.
    pub fn xor(&mut self, value: u8) -> (result: u8)
        ensures
            result == xor8(old(self)@.regs.a, value).0,
            final(self)@ == old(self)@.with_flags(xor8(old(self)@.regs.a, value).1),
    {
        let result = self.regs.a ^ value;
        self.regs.flags.zero = result == 0;
        self.regs.flags.negative = false;
        self.regs.flags.half_carry = false;
        self.regs.flags.carry = false;
        result
    }

    /// The 16-bit addition behind `ADD HL,rr` and the stack pointer
    /// adjustments.
    pub fn add_u16(&mut self, value1: u16, value2: u16) -> (result: u16)
        ensures
            result == add16(value1, value2).0,
            final(self)@ == old(self)@.with_flags(add16(value1, value2).1),
    {
        let sum: u32 = value1 as u32 + value2 as u32;
        let result = (sum % 65536) as u16;
        self.regs.flags.negative = false;
        self.regs.flags.zero = false;
        self.regs.flags.carry = sum > 65535;
        self.regs.flags.half_carry = (value1 % 4096) + (value2 % 4096) > 4095;
        result
    }

    /// `SWAP`: exchanges the nibbles.
    pub fn swap(&mut self, value: u8) -> (result: u8)
        ensures
            result == swap(value).0,
            final(self)@ == old(self)@.with_flags(swap(value).1),
    {
        let result = (value % 16) * 16 + value / 16;
        self.regs.flags.negative = false;
        self.regs.flags.half_carry = false;
        self.regs.flags.carry = false;
        self.regs.flags.zero = result == 0;
        result
    }

    /// `SRL`: logical shift right.
    pub fn srl(&mut self, value: u8) -> (result: u8)
        ensures
            result == srl(value).0,
            final(self)@ == old(self)@.with_flags(srl(value).1),
    {
        self.regs.flags.carry = value % 2 == 1;
        let result = value / 2;
        self.regs.flags.negative = false;
        self.regs.flags.half_carry = false;
        self.regs.flags.zero = result == 0;
        result
    }

    /// `SRA`: arithmetic shift right.
    pub fn sra(&mut self, value: u8) -> (result: u8)
        ensures
            result == sra(value).0,
            final(self)@ == old(self)@.with_flags(sra(value).1),
    {
        self.regs.flags.carry = value % 2 == 1;
        let result = value / 2 + (value / 128) * 128;
        self.regs.flags.negative = false;
        self.regs.flags.half_carry = false;
        self.regs.flags.zero = result == 0;
        result
    }

    /// `SLA`: shift left.
    pub fn sla(&mut self, value: u8) -> (result: u8)
        ensures
            result == sla(value).0,
            final(self)@ == old(self)@.with_flags(sla(value).1),
    {
        self.regs.flags.carry = value >= 128;
        let result = (value % 128) * 2;
        self.regs.flags.negative = false;
        self.regs.flags.half_carry = false;
        self.regs.flags.zero = result == 0;
        result
    }

    /// `RL`: rotates left through the carry flag.
    pub fn rotate_left_carry(&mut self, value: u8) -> (result: u8)
        ensures
            result == rl(value, old(self)@.regs.flags.carry).0,
            final(self)@ == old(self)@.with_flags(rl(value, old(self)@.regs.flags.carry).1),
    {
        let carry = self.regs.flags.carry;
        self.regs.flags.carry = value >= 128;
        let mut result = (value % 128) * 2;
        if carry {
            result = result + 1;
        }
        self.regs.flags.zero = result == 0;
        self.regs.flags.negative = false;
        self.regs.flags.half_carry = false;
        result
    }

    /// `RR`: rotates right through the carry flag.
    pub fn rotate_right_carry(&mut self, value: u8) -> (result: u8)
        ensures
            result == rr(value, old(self)@.regs.flags.carry).0,
            final(self)@ == old(self)@.with_flags(rr(value, old(self)@.regs.flags.carry).1),
    {
        let carry = self.regs.flags.carry;
        self.regs.flags.carry = value % 2 == 1;
        let mut result = value / 2;
        if carry {
            result = result + 128;
        }
        self.regs.flags.zero = result == 0;
        self.regs.flags.negative = false;
        self.regs.flags.half_carry = false;
        result
    }

    /// `RRC`: rotates right, bit 0 wrapping to bit 7.
    pub fn rotate_right(&mut self, value: u8) -> (result: u8)
        ensures
            result == rrc(value).0,
            final(self)@ == old(self)@.with_flags(rrc(value).1),
    {
        let result = value / 2 + (value % 2) * 128;
        self.regs.flags.zero = result == 0;
        self.regs.flags.half_carry = false;
        self.regs.flags.carry = value % 2 == 1;
        self.regs.flags.negative = false;
        result
    }

    /// `RLC`: rotates left, bit 7 wrapping to bit 0.
    pub fn rotate_left(&mut self, value: u8) -> (result: u8)
        ensures
            result == rlc(value).0,
            final(self)@ == old(self)@.with_flags(rlc(value).1),
    {
        let result = (value % 128) * 2 + value / 128;
        self.regs.flags.zero = result == 0;
        self.regs.flags.half_carry = false;
        self.regs.flags.carry = value >= 128;
        self.regs.flags.negative = false;
        result
    }

    /// `BIT`: tests bit `bit` of `value`. The value and the carry flag are
    /// left alone.
    pub fn bit(&mut self, value: u8, bit: u8)
        requires
            bit < 8,
        ensures
            final(self)@ == old(self)@.with_flags(bit_flags(value, bit, old(self)@.regs.flags)),
    {
        self.regs.flags.zero = (value & (1u8 << bit)) == 0;
        self.regs.flags.negative = false;
        self.regs.flags.half_carry = true;
    }

    /// `DAA`: corrects the accumulator's value into packed decimal after an
    /// addition or subtraction of packed decimals, and returns it.
    #[verifier::rlimit(40)]
    pub fn daa(&mut self) -> (result: u8)
        ensures
            result == daa(old(self)@.regs.a, old(self)@.regs.flags).0,
            final(self)@ == old(self)@.with_flags(daa(old(self)@.regs.a, old(self)@.regs.flags).1),
    {
        let a = self.regs.a;
        let mut correction: u8 = 0;
        if self.regs.flags.half_carry || (!self.regs.flags.negative && a % 16 > 9) {
            correction = correction + 0x06;
        }
        if self.regs.flags.carry || (!self.regs.flags.negative && a > 0x99) {
            correction = correction + 0x60;
        }
        let result = if self.regs.flags.negative {
            a.wrapping_sub(correction)
        } else {
            a.wrapping_add(correction)
        };
        proof {
            let wide = if self.regs.flags.negative {
                a - correction
            } else {
                a + correction
            };
            assert(correction == daa_correction(a, self.regs.flags));
            assert(-256 < wide < 512);
            assert(wide % 256 == if wide < 0 {
                wide + 256
            } else if wide > 255 {
                wide - 256
            } else {
                wide
            });
            assert(result == wide % 256);
        }
        self.regs.flags.carry = correction >= 0x60;
        self.regs.flags.half_carry = false;
        self.regs.flags.zero = result == 0;
        result
    }
}

} // verus!
