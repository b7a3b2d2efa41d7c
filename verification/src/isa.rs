//! The instruction set: what each instruction does to the machine and how
//! many clock cycles it takes, as functions on the model.
//!
//! Every instruction is stated on the machine as it is after the fetch of its
//! opcode: the program counter already points behind the opcode, at the
//! operand if there is one.

use vstd::prelude::*;
use crate::alu::{add16, add8, and8, bit_flags, daa, dec8, inc8, or8, rl, rlc, rr, rrc, sub8, xor8};
use crate::machine::{Machine, IE, IF};
use crate::registers::{FlagsReg, Registers};

verus! {

/// Operand B.
pub const B: u8 = 0;

/// Operand C.
pub const C: u8 = 1;

/// Operand D.
pub const D: u8 = 2;

/// Operand E.
pub const E: u8 = 3;

/// Operand H.
pub const H: u8 = 4;

/// Operand L.
pub const L: u8 = 5;

/// The operand in memory at the address in HL.
pub const AT_HL: u8 = 6;

/// Operand A, the accumulator.
pub const A: u8 = 7;

/// Register pair BC.
pub const BC: u8 = 0;

/// Register pair DE.
pub const DE: u8 = 1;

/// Register pair HL.
pub const HL: u8 = 2;

/// The stack pointer, where an instruction takes it as a register pair.
pub const SP: u8 = 3;

/// Register pair AF, where `PUSH` and `POP` take it as a register pair.
pub const AF: u8 = 3;

/// A displacement byte read as a signed number.
pub open spec fn signed(byte: u8) -> i8 {
    if byte < 128 {
        byte as i8
    } else {
        (byte - 256) as i8
    }
}

/// A displacement byte sign-extended to sixteen bits.
pub open spec fn extend(byte: u8) -> u16 {
    if byte < 128 {
        byte as u16
    } else {
        (0xFF00 + byte) as u16
    }
}

/// The address `offset` bytes away from `pc`, wrapping at both ends.
pub open spec fn relative(pc: u16, offset: i8) -> u16 {
    ((pc + offset) % 65536) as u16
}

/// The address in the last page, where the I/O registers live, at `offset`.
pub open spec fn high_page(offset: u8) -> u16 {
    (0xFF00 + offset) as u16
}

impl Machine {
    /// The byte behind the program counter.
    pub open spec fn imm8(self) -> u8 {
        self.read(self.regs.pc)
    }

    /// The 16-bit value behind the program counter.
    pub open spec fn imm16(self) -> u16 {
        self.read16(self.regs.pc)
    }

    /// The machine with `value` in the accumulator.
    pub open spec fn with_a(self, value: u8) -> Machine {
        Machine { regs: Registers { a: value, ..self.regs }, ..self }
    }

    /// The machine with the stack pointer at `sp`.
    pub open spec fn with_sp(self, sp: u16) -> Machine {
        Machine { regs: Registers { sp, ..self.regs }, ..self }
    }

    /// The machine with HL holding `value`.
    pub open spec fn with_hl(self, value: u16) -> Machine {
        Machine { regs: self.regs.with_hl(value), ..self }
    }

    /// The 8-bit operand that a register field names: B, C, D, E, H, L, the
    /// byte in memory at HL, A.
    pub open spec fn r8(self, index: u8) -> u8 {
        match index {
            0 => self.regs.b,
            1 => self.regs.c,
            2 => self.regs.d,
            3 => self.regs.e,
            4 => self.regs.h,
            5 => self.regs.l,
            6 => self.read(self.regs.hl()),
            _ => self.regs.a,
        }
    }

    /// The machine after `value` went to the operand that a register field
    /// names.
    pub open spec fn with_r8(self, index: u8, value: u8) -> Machine {
        match index {
            0 => Machine { regs: Registers { b: value, ..self.regs }, ..self },
            1 => Machine { regs: Registers { c: value, ..self.regs }, ..self },
            2 => Machine { regs: Registers { d: value, ..self.regs }, ..self },
            3 => Machine { regs: Registers { e: value, ..self.regs }, ..self },
            4 => Machine { regs: Registers { h: value, ..self.regs }, ..self },
            5 => Machine { regs: Registers { l: value, ..self.regs }, ..self },
            6 => self.write(self.regs.hl(), value),
            _ => self.with_a(value),
        }
    }

    /// The register pair that a pair field names: BC, DE, HL, SP.
    pub open spec fn r16(self, index: u8) -> u16 {
        match index {
            0 => self.regs.bc(),
            1 => self.regs.de(),
            2 => self.regs.hl(),
            _ => self.regs.sp,
        }
    }

    /// The machine with `value` in the register pair that a pair field names.
    pub open spec fn with_r16(self, index: u8, value: u16) -> Machine {
        match index {
            0 => Machine { regs: self.regs.with_bc(value), ..self },
            1 => Machine { regs: self.regs.with_de(value), ..self },
            2 => Machine { regs: self.regs.with_hl(value), ..self },
            _ => self.with_sp(value),
        }
    }

    /// The register pair that a pair field names for the stack: BC, DE, HL,
    /// AF.
    pub open spec fn stack_pair(self, index: u8) -> u16 {
        match index {
            0 => self.regs.bc(),
            1 => self.regs.de(),
            2 => self.regs.hl(),
            _ => self.regs.af(),
        }
    }

    /// The machine with `value` in the register pair that a pair field names
    /// for the stack.
    pub open spec fn with_stack_pair(self, index: u8, value: u16) -> Machine {
        match index {
            0 => Machine { regs: self.regs.with_bc(value), ..self },
            1 => Machine { regs: self.regs.with_de(value), ..self },
            2 => Machine { regs: self.regs.with_hl(value), ..self },
            _ => Machine { regs: self.regs.with_af(value), ..self },
        }
    }

    /// The condition that a condition field names: not zero, zero, no carry,
    /// carry.
    pub open spec fn condition(self, index: u8) -> bool {
        match index {
            0 => !self.regs.flags.zero,
            1 => self.regs.flags.zero,
            2 => !self.regs.flags.carry,
            _ => self.regs.flags.carry,
        }
    }

    /// The machine after a relative jump.
    pub open spec fn jump(self, offset: i8) -> Machine {
        self.with_pc(relative(self.regs.pc, offset))
    }

    /// The machine after `value` was pushed: the stack pointer goes down by
    /// two, then the value is written there, low byte first.
    pub open spec fn push(self, value: u16) -> Machine {
        let sp = self.regs.sp.wrapping_sub(2);
        self.with_sp(sp).write16(sp, value)
    }

    /// The 16-bit value on top of the stack.
    pub open spec fn top(self) -> u16 {
        self.read16(self.regs.sp)
    }

    /// The machine after the top of the stack was popped: the stack pointer
    /// goes up by two.
    pub open spec fn pop(self) -> Machine {
        self.with_sp(self.regs.sp.wrapping_add(2))
    }

    /// The machine after a call: the program counter is pushed, then set to
    /// `addr`.
    pub open spec fn call(self, addr: u16) -> Machine {
        self.push(self.regs.pc).with_pc(addr)
    }

    /// The machine after a return: the program counter is popped.
    pub open spec fn ret(self) -> Machine {
        self.pop().with_pc(self.top())
    }

    /// An interrupt is both requested and enabled.
    pub open spec fn interrupt_pending(self) -> bool {
        self.read(IF) & self.read(IE) != 0
    }
}

/// The cycles of an instruction that costs `register` cycles on a register
/// and `memory` cycles on the byte at HL.
pub open spec fn operand_cost(operand: u8, register: u32, memory: u32) -> u32 {
    if operand == AT_HL {
        memory
    } else {
        register
    }
}

/// `LD r,r'`: copies one operand into another.
pub open spec fn ld_r_r(m: Machine, target: u8, source: u8) -> (Machine, u32) {
    (m.with_r8(target, m.r8(source)), if target == AT_HL || source == AT_HL { 8 } else { 4 })
}

/// `LD r,d8`: loads the byte behind the opcode into an operand.
pub open spec fn ld_r_d8(m: Machine, target: u8) -> (Machine, u32) {
    (m.skip(1).with_r8(target, m.imm8()), operand_cost(target, 8, 12))
}

/// `LD (rr),A`, `LD (C),A`: stores the accumulator at `addr`.
pub open spec fn ld_at_a(m: Machine, addr: u16) -> (Machine, u32) {
    (m.write(addr, m.regs.a), 8)
}

/// `LD A,(rr)`, `LD A,(C)`: loads the accumulator from `addr`.
pub open spec fn ld_a_at(m: Machine, addr: u16) -> (Machine, u32) {
    (m.with_a(m.read(addr)), 8)
}

/// `LD (HL+),A`: stores the accumulator at HL, then increments HL.
pub open spec fn ld_hl_inc_a(m: Machine) -> (Machine, u32) {
    (m.write(m.regs.hl(), m.regs.a).with_hl(m.regs.hl().wrapping_add(1)), 8)
}

/// `LD (HL-),A`: stores the accumulator at HL, then decrements HL.
pub open spec fn ld_hl_dec_a(m: Machine) -> (Machine, u32) {
    (m.write(m.regs.hl(), m.regs.a).with_hl(m.regs.hl().wrapping_sub(1)), 8)
}

/// `LD A,(HL+)`: loads the accumulator from HL, then increments HL.
pub open spec fn ld_a_hl_inc(m: Machine) -> (Machine, u32) {
    (m.with_a(m.read(m.regs.hl())).with_hl(m.regs.hl().wrapping_add(1)), 8)
}

/// `LD A,(HL-)`: loads the accumulator from HL, then decrements HL.
pub open spec fn ld_a_hl_dec(m: Machine) -> (Machine, u32) {
    (m.with_a(m.read(m.regs.hl())).with_hl(m.regs.hl().wrapping_sub(1)), 8)
}

/// `LDH (a8),A`: stores the accumulator in the last page, at the offset
/// behind the opcode.
pub open spec fn ldh_a8_a(m: Machine) -> (Machine, u32) {
    (m.skip(1).write(high_page(m.imm8()), m.regs.a), 12)
}

/// `LDH A,(a8)`: loads the accumulator from the last page, at the offset
/// behind the opcode.
pub open spec fn ldh_a_a8(m: Machine) -> (Machine, u32) {
    (m.skip(1).with_a(m.read(high_page(m.imm8()))), 12)
}

/// `LD (a16),A`: stores the accumulator at the address behind the opcode.
pub open spec fn ld_a16_a(m: Machine) -> (Machine, u32) {
    (m.skip(2).write(m.imm16(), m.regs.a), 16)
}

/// `LD A,(a16)`: loads the accumulator from the address behind the opcode.
pub open spec fn ld_a_a16(m: Machine) -> (Machine, u32) {
    (m.skip(2).with_a(m.read(m.imm16())), 16)
}

/// `LD rr,d16`: loads the 16-bit value behind the opcode into a register
/// pair.
pub open spec fn ld_rr_d16(m: Machine, pair: u8) -> (Machine, u32) {
    (m.skip(2).with_r16(pair, m.imm16()), 12)
}

/// `LD (a16),SP`: stores the stack pointer at the address behind the opcode.
pub open spec fn ld_a16_sp(m: Machine) -> (Machine, u32) {
    (m.skip(2).write16(m.imm16(), m.regs.sp), 20)
}

/// `LD SP,HL`.
pub open spec fn ld_sp_hl(m: Machine) -> (Machine, u32) {
    (m.with_sp(m.regs.hl()), 8)
}

/// `LD HL,SP+e8`: loads HL with the stack pointer plus the signed
/// displacement behind the opcode, with the flags of the 16-bit addition.
pub open spec fn ld_hl_sp_e8(m: Machine) -> (Machine, u32) {
    let (sum, flags) = add16(m.regs.sp, extend(m.imm8()));
    (m.skip(1).with_flags(flags).with_hl(sum), 12)
}

/// `ADD SP,e8`: adds the signed displacement behind the opcode to the stack
/// pointer, with the flags of the 16-bit addition.
pub open spec fn add_sp_e8(m: Machine) -> (Machine, u32) {
    let (sum, flags) = add16(m.regs.sp, extend(m.imm8()));
    (m.skip(1).with_flags(flags).with_sp(sum), 16)
}

/// `PUSH rr`.
pub open spec fn push_rr(m: Machine, pair: u8) -> (Machine, u32) {
    (m.push(m.stack_pair(pair)), 16)
}

/// `POP rr`.
pub open spec fn pop_rr(m: Machine, pair: u8) -> (Machine, u32) {
    (m.pop().with_stack_pair(pair, m.top()), 12)
}

/// The machine after an operation left `out` in the accumulator and the
/// flags.
pub open spec fn accumulated(m: Machine, out: (u8, FlagsReg)) -> Machine {
    m.with_flags(out.1).with_a(out.0)
}

/// `ADD A,x`.
pub open spec fn add_a(m: Machine, value: u8, cycles: u32) -> (Machine, u32) {
    (accumulated(m, add8(m.regs.a, value, false)), cycles)
}

/// `ADC A,x`: adds the operand and the carry flag.
pub open spec fn adc_a(m: Machine, value: u8, cycles: u32) -> (Machine, u32) {
    (accumulated(m, add8(m.regs.a, value, m.regs.flags.carry)), cycles)
}

/// `SUB x`.
pub open spec fn sub_a(m: Machine, value: u8, cycles: u32) -> (Machine, u32) {
    (accumulated(m, sub8(m.regs.a, value, false)), cycles)
}

/// `SBC A,x`: subtracts the operand and the carry flag.
pub open spec fn sbc_a(m: Machine, value: u8, cycles: u32) -> (Machine, u32) {
    (accumulated(m, sub8(m.regs.a, value, m.regs.flags.carry)), cycles)
}

/// `AND x`.
pub open spec fn and_a(m: Machine, value: u8, cycles: u32) -> (Machine, u32) {
    (accumulated(m, and8(m.regs.a, value)), cycles)
}

/// `XOR x`.
pub open spec fn xor_a(m: Machine, value: u8, cycles: u32) -> (Machine, u32) {
    (accumulated(m, xor8(m.regs.a, value)), cycles)
}

/// `OR x`.
pub open spec fn or_a(m: Machine, value: u8, cycles: u32) -> (Machine, u32) {
    (accumulated(m, or8(m.regs.a, value)), cycles)
}

/// `CP x`: sets the flags of `SUB x` and keeps the accumulator.
pub open spec fn cp_a(m: Machine, value: u8, cycles: u32) -> (Machine, u32) {
    (m.with_flags(sub8(m.regs.a, value, false).1), cycles)
}

/// `INC r`.
pub open spec fn inc_r(m: Machine, operand: u8) -> (Machine, u32) {
    let (value, flags) = inc8(m.r8(operand), m.regs.flags);
    (m.with_flags(flags).with_r8(operand, value), operand_cost(operand, 4, 12))
}

/// `DEC r`.
pub open spec fn dec_r(m: Machine, operand: u8) -> (Machine, u32) {
    let (value, flags) = dec8(m.r8(operand), m.regs.flags);
    (m.with_flags(flags).with_r8(operand, value), operand_cost(operand, 4, 12))
}

/// `INC rr`: adds one to a register pair, wrapping, and touches no flag.
pub open spec fn inc_rr(m: Machine, pair: u8) -> (Machine, u32) {
    (m.with_r16(pair, m.r16(pair).wrapping_add(1)), 8)
}

/// `DEC rr`: subtracts one from a register pair, wrapping, and touches no
/// flag.
pub open spec fn dec_rr(m: Machine, pair: u8) -> (Machine, u32) {
    (m.with_r16(pair, m.r16(pair).wrapping_sub(1)), 8)
}

/// `ADD HL,rr`.
pub open spec fn add_hl(m: Machine, value: u16) -> (Machine, u32) {
    let (sum, flags) = add16(m.regs.hl(), value);
    (m.with_flags(flags).with_hl(sum), 8)
}

/// The machine after a rotate of the accumulator left `out`: the zero flag
/// is cleared whatever the result.
pub open spec fn rotated(m: Machine, out: (u8, FlagsReg)) -> (Machine, u32) {
    (m.with_flags(FlagsReg { zero: false, ..out.1 }).with_a(out.0), 4)
}

/// `RLCA`: circular rotate left of the accumulator.
pub open spec fn rlca(m: Machine) -> (Machine, u32) {
    rotated(m, rlc(m.regs.a))
}

/// `RRCA`: circular rotate right of the accumulator.
pub open spec fn rrca(m: Machine) -> (Machine, u32) {
    rotated(m, rrc(m.regs.a))
}

/// `RLA`: rotate left of the accumulator through carry.
pub open spec fn rla(m: Machine) -> (Machine, u32) {
    rotated(m, rl(m.regs.a, m.regs.flags.carry))
}

/// `RRA`: rotate right of the accumulator through carry.
pub open spec fn rra(m: Machine) -> (Machine, u32) {
    rotated(m, rr(m.regs.a, m.regs.flags.carry))
}

/// `DAA`.
pub open spec fn decimal_adjust(m: Machine) -> (Machine, u32) {
    (accumulated(m, daa(m.regs.a, m.regs.flags)), 4)
}

/// `CPL`: complements the accumulator and sets negative and half-carry.
pub open spec fn complement(m: Machine) -> (Machine, u32) {
    (m.with_flags(FlagsReg { negative: true, half_carry: true, ..m.regs.flags }).with_a(!m.regs.a), 4)
}

/// `SCF`: sets carry and clears negative and half-carry.
pub open spec fn set_carry(m: Machine) -> (Machine, u32) {
    (
        m.with_flags(
            FlagsReg { negative: false, half_carry: false, carry: true, ..m.regs.flags },
        ),
        4,
    )
}

/// `CCF`: complements carry and clears negative and half-carry.
pub open spec fn flip_carry(m: Machine) -> (Machine, u32) {
    (
        m.with_flags(
            FlagsReg {
                negative: false,
                half_carry: false,
                carry: !m.regs.flags.carry,
                ..m.regs.flags
            },
        ),
        4,
    )
}

/// `HALT`.
pub open spec fn halt(m: Machine) -> (Machine, u32) {
    (Machine { halted: true, ..m }, 4)
}

/// `STOP`.
pub open spec fn stop(m: Machine) -> (Machine, u32) {
    (Machine { stopped: true, ..m }, 4)
}

/// `DI`: disables interrupts at once.
pub open spec fn di(m: Machine) -> (Machine, u32) {
    (Machine { ime: false, ..m }, 4)
}

/// `EI`: enables interrupts at once.
pub open spec fn ei(m: Machine) -> (Machine, u32) {
    (Machine { ime: true, ..m }, 4)
}

/// `JR e8` and `JR cc,e8`: where the condition holds, a jump by the signed
/// displacement behind the opcode, counted from behind the displacement.
pub open spec fn jr_if(m: Machine, condition: bool) -> (Machine, u32) {
    if condition {
        (m.skip(1).jump(signed(m.imm8())), 12)
    } else {
        (m.skip(1), 8)
    }
}

/// `JP a16` and `JP cc,a16`: where the condition holds, a jump to the address
/// behind the opcode.
pub open spec fn jp_if(m: Machine, condition: bool) -> (Machine, u32) {
    if condition {
        (m.with_pc(m.imm16()), 16)
    } else {
        (m.skip(2), 12)
    }
}

/// `JP HL`.
pub open spec fn jp_hl(m: Machine) -> (Machine, u32) {
    (m.with_pc(m.regs.hl()), 4)
}

/// `CALL a16` and `CALL cc,a16`: where the condition holds, a call of the
/// address behind the opcode.
pub open spec fn call_if(m: Machine, condition: bool) -> (Machine, u32) {
    if condition {
        (m.skip(2).call(m.imm16()), 24)
    } else {
        (m.skip(2), 12)
    }
}

/// `RET cc`.
pub open spec fn ret_if(m: Machine, condition: bool) -> (Machine, u32) {
    if condition {
        (m.ret(), 20)
    } else {
        (m, 8)
    }
}

/// `RET`.
pub open spec fn ret(m: Machine) -> (Machine, u32) {
    (m.ret(), 16)
}

/// `RETI`: returns and enables interrupts at once.
pub open spec fn reti(m: Machine) -> (Machine, u32) {
    (Machine { ime: true, ..m.ret() }, 16)
}

/// `RST`: a call of one of the eight fixed addresses.
pub open spec fn rst(m: Machine, addr: u16) -> (Machine, u32) {
    (m.call(addr), 16)
}

/// The prefix 0xCB: four cycles on top of what the instruction behind it does
/// and costs, which is `prefixed`.
pub open spec fn prefix(m: Machine, prefixed: (Machine, u32)) -> (Machine, u32) {
    (prefixed.0, (4 + prefixed.1) as u32)
}

/// A rotate or shift of the prefixed table that left `out`: the result goes
/// back to the operand.
pub open spec fn shift_r(m: Machine, operand: u8, out: (u8, FlagsReg)) -> (Machine, u32) {
    (m.with_flags(out.1).with_r8(operand, out.0), operand_cost(operand, 8, 16))
}

/// `BIT n,r`: tests bit `index` of `value`.
pub open spec fn test_bit(m: Machine, index: u8, value: u8, cycles: u32) -> (Machine, u32) {
    (m.with_flags(bit_flags(value, index, m.regs.flags)), cycles)
}

/// `RES n,r` and `SET n,r`: `value` goes to the operand, and no flag changes.
pub open spec fn store_r(m: Machine, operand: u8, value: u8) -> (Machine, u32) {
    (m.with_r8(operand, value), operand_cost(operand, 8, 16))
}

} // verus!
