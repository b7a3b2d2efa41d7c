//! The step of the processor: fetch, decode, execute.
//!
//! The decoder splits an opcode into three fields, `op / 64`, `op / 8 % 8`
//! and `op % 8`. The opcode tables are regular in them: the last field names
//! an operand in most rows, the middle one an operand, a register pair, a
//! condition or an operation.

use vstd::prelude::*;
use crate::alu::{
    add16, add8, and8, bit_flags, clear_bit, daa, dec8, inc8, or8, rl, rlc, rr, rrc, set_bit, sla,
    sra, srl, sub8, swap, xor8,
};
use crate::fault::Fault;
use crate::isa::{extend, high_page, signed};
use crate::machine::Machine;
use crate::registers::FlagsReg;

verus! {

/// The eleven opcodes that the processor does not define.
pub open spec fn is_illegal(op: u8) -> bool {
    op == 0xD3 || op == 0xDB || op == 0xDD || op == 0xE3 || op == 0xE4 || op == 0xEB || op == 0xEC
        || op == 0xED || op == 0xF4 || op == 0xFC || op == 0xFD
}

/// The eight operations between the accumulator and an operand, numbered as
/// the opcode's middle field numbers them: `ADD`, `ADC`, `SUB`, `SBC`, `AND`,
/// `XOR`, `OR` and `CP`, which sets the flags of `SUB` and keeps the
/// accumulator.
pub open spec fn accumulate(kind: u8, a: u8, operand: u8, flags: FlagsReg) -> (u8, FlagsReg) {
    match kind {
        0 => add8(a, operand, false),
        1 => add8(a, operand, flags.carry),
        2 => sub8(a, operand, false),
        3 => sub8(a, operand, flags.carry),
        4 => and8(a, operand),
        5 => xor8(a, operand),
        6 => or8(a, operand),
        _ => (a, sub8(a, operand, false).1),
    }
}

/// The eight rotates and shifts of the prefixed table, numbered as the
/// sub-opcode's middle field numbers them.
pub open spec fn rotate(kind: u8, value: u8, flags: FlagsReg) -> (u8, FlagsReg) {
    match kind {
        0 => rlc(value),
        1 => rrc(value),
        2 => rl(value, flags.carry),
        3 => rr(value, flags.carry),
        4 => sla(value),
        5 => sra(value),
        6 => swap(value),
        _ => srl(value),
    }
}

/// The instructions 0x00 to 0x3F, on the machine as it is after the fetch of
/// the opcode: loads of immediates, loads through register pairs, increments
/// and decrements, 16-bit addition, relative jumps, and the operations on the
/// accumulator and the flags.
pub open spec fn run_block0(m: Machine, op: u8) -> (Machine, u32) {
    let y = op / 8 % 8;
    let p = y / 2;
    match op % 8 {
        0 => if y == 0 {
            (m, 4)
        } else if y == 1 {
            (m.skip(2).write16(m.imm16(), m.regs.sp), 20)
        } else if y == 2 {
            (Machine { stopped: true, ..m }, 4)
        } else if y == 3 || m.condition((y - 4) as u8) {
            (m.skip(1).jump(signed(m.imm8())), 12)
        } else {
            (m.skip(1), 8)
        },
        1 => if y % 2 == 0 {
            (m.skip(2).with_r16(p, m.imm16()), 12)
        } else {
            let (sum, flags) = add16(m.regs.hl(), m.r16(p));
            (m.with_flags(flags).with_hl(sum), 8)
        },
        2 => match y {
            0 => (m.write(m.regs.bc(), m.regs.a), 8),
            1 => (m.with_a(m.read(m.regs.bc())), 8),
            2 => (m.write(m.regs.de(), m.regs.a), 8),
            3 => (m.with_a(m.read(m.regs.de())), 8),
            4 => (m.write(m.regs.hl(), m.regs.a).with_hl(m.regs.hl().wrapping_add(1)), 8),
            5 => (m.with_a(m.read(m.regs.hl())).with_hl(m.regs.hl().wrapping_add(1)), 8),
            6 => (m.write(m.regs.hl(), m.regs.a).with_hl(m.regs.hl().wrapping_sub(1)), 8),
            _ => (m.with_a(m.read(m.regs.hl())).with_hl(m.regs.hl().wrapping_sub(1)), 8),
        },
        3 => if y % 2 == 0 {
            (m.with_r16(p, m.r16(p).wrapping_add(1)), 8)
        } else {
            (m.with_r16(p, m.r16(p).wrapping_sub(1)), 8)
        },
        4 => {
            let (value, flags) = inc8(m.r8(y), m.regs.flags);
            (m.with_flags(flags).with_r8(y, value), if y == 6 { 12 } else { 4 })
        },
        5 => {
            let (value, flags) = dec8(m.r8(y), m.regs.flags);
            (m.with_flags(flags).with_r8(y, value), if y == 6 { 12 } else { 4 })
        },
        6 => (m.skip(1).with_r8(y, m.imm8()), if y == 6 { 12 } else { 8 }),
        _ => (run_accumulator(m, y), 4),
    }
}

/// The eight one-byte operations on the accumulator and the flags: `RLCA`,
/// `RRCA`, `RLA`, `RRA`, `DAA`, `CPL`, `SCF`, `CCF`. The four rotates clear
/// the zero flag whatever the result.
pub open spec fn run_accumulator(m: Machine, kind: u8) -> Machine {
    let a = m.regs.a;
    let flags = m.regs.flags;
    match kind {
        0 => m.with_flags(FlagsReg { zero: false, ..rlc(a).1 }).with_a(rlc(a).0),
        1 => m.with_flags(FlagsReg { zero: false, ..rrc(a).1 }).with_a(rrc(a).0),
        2 => m.with_flags(FlagsReg { zero: false, ..rl(a, flags.carry).1 }).with_a(
            rl(a, flags.carry).0,
        ),
        3 => m.with_flags(FlagsReg { zero: false, ..rr(a, flags.carry).1 }).with_a(
            rr(a, flags.carry).0,
        ),
        4 => m.with_flags(daa(a, flags).1).with_a(daa(a, flags).0),
        5 => m.with_flags(FlagsReg { negative: true, half_carry: true, ..flags }).with_a(!a),
        6 => m.with_flags(FlagsReg { negative: false, half_carry: false, carry: true, ..flags }),
        _ => m.with_flags(
            FlagsReg { negative: false, half_carry: false, carry: !flags.carry, ..flags },
        ),
    }
}

/// The instructions 0x40 to 0x7F: `LD r,r'` for every pair of operands, with
/// `HALT` where both would be the byte at HL.
pub open spec fn run_load(m: Machine, op: u8) -> (Machine, u32) {
    let target = op / 8 % 8;
    let source = op % 8;
    if op == 0x76 {
        (Machine { halted: true, ..m }, 4)
    } else {
        (m.with_r8(target, m.r8(source)), if target == 6 || source == 6 { 8 } else { 4 })
    }
}

/// The instructions 0x80 to 0xBF: the eight operations between the
/// accumulator and an operand.
pub open spec fn run_arithmetic(m: Machine, op: u8) -> (Machine, u32) {
    let source = op % 8;
    let (value, flags) = accumulate(op / 8 % 8, m.regs.a, m.r8(source), m.regs.flags);
    (m.with_flags(flags).with_a(value), if source == 6 { 8 } else { 4 })
}

/// The prefixed instructions, on the machine as it is after the fetch of the
/// sub-opcode, with the sub-opcode's own cost: rotates and shifts, then
/// `BIT`, `RES` and `SET` for each bit, each on every operand.
pub open spec fn run_prefixed(m: Machine, sub: u8) -> (Machine, u32) {
    let index = sub / 8 % 8;
    let operand = sub % 8;
    let value = m.r8(operand);
    match sub / 64 {
        0 => {
            let (result, flags) = rotate(index, value, m.regs.flags);
            (m.with_flags(flags).with_r8(operand, result), if operand == 6 { 16 } else { 8 })
        },
        1 => (
            m.with_flags(bit_flags(value, index, m.regs.flags)),
            if operand == 6 { 12 } else { 8 },
        ),
        2 => (m.with_r8(operand, clear_bit(value, index)), if operand == 6 { 16 } else { 8 }),
        _ => (m.with_r8(operand, set_bit(value, index)), if operand == 6 { 16 } else { 8 }),
    }
}

/// The defined instructions among 0xC0 to 0xFF: returns, jumps, calls and
/// restarts, pushes and pops, the operations between the accumulator and an
/// immediate, the loads through the last page and through absolute
/// addresses, the stack pointer adjustments, the interrupt switches, and the
/// prefix, whose cost is four cycles on top of the sub-opcode's own.
pub open spec fn run_block3(m: Machine, op: u8) -> (Machine, u32) {
    let y = op / 8 % 8;
    let p = y / 2;
    match op % 8 {
        0 => if y < 4 {
            if m.condition(y) {
                (m.ret(), 20)
            } else {
                (m, 8)
            }
        } else if y == 4 {
            (m.skip(1).write(high_page(m.imm8()), m.regs.a), 12)
        } else if y == 5 {
            let (sum, flags) = add16(m.regs.sp, extend(m.imm8()));
            (m.skip(1).with_flags(flags).with_sp(sum), 16)
        } else if y == 6 {
            (m.skip(1).with_a(m.read(high_page(m.imm8()))), 12)
        } else {
            let (sum, flags) = add16(m.regs.sp, extend(m.imm8()));
            (m.skip(1).with_flags(flags).with_hl(sum), 12)
        },
        1 => if y % 2 == 0 {
            (m.pop().with_stack_pair(p, m.top()), 12)
        } else if y == 1 {
            (m.ret(), 16)
        } else if y == 3 {
            (Machine { ime: true, ..m.ret() }, 16)
        } else if y == 5 {
            (m.with_pc(m.regs.hl()), 4)
        } else {
            (m.with_sp(m.regs.hl()), 8)
        },
        2 => if y < 4 {
            if m.condition(y) {
                (m.with_pc(m.imm16()), 16)
            } else {
                (m.skip(2), 12)
            }
        } else if y == 4 {
            (m.write(high_page(m.regs.c), m.regs.a), 8)
        } else if y == 5 {
            (m.skip(2).write(m.imm16(), m.regs.a), 16)
        } else if y == 6 {
            (m.with_a(m.read(high_page(m.regs.c))), 8)
        } else {
            (m.skip(2).with_a(m.read(m.imm16())), 16)
        },
        3 => if y == 0 {
            (m.with_pc(m.imm16()), 16)
        } else if y == 1 {
            let (after, cost) = run_prefixed(m.skip(1), m.imm8());
            (after, (4 + cost) as u32)
        } else if y == 6 {
            (Machine { ime: false, ..m }, 4)
        } else {
            (Machine { ime: true, ..m }, 4)
        },
        4 => if m.condition(y) {
            (m.skip(2).call(m.imm16()), 24)
        } else {
            (m.skip(2), 12)
        },
        5 => if y % 2 == 0 {
            (m.push(m.stack_pair(p)), 16)
        } else {
            (m.skip(2).call(m.imm16()), 24)
        },
        6 => {
            let (value, flags) = accumulate(y, m.regs.a, m.imm8(), m.regs.flags);
            (m.skip(1).with_flags(flags).with_a(value), 8)
        },
        _ => (m.call((y * 8) as u16), 16),
    }
}

/// What the decoder makes of an opcode, given the machine after the fetch of
/// the opcode, which is not illegal.
pub open spec fn run(m: Machine, op: u8) -> (Machine, u32) {
    match op / 64 {
        0 => run_block0(m, op),
        1 => run_load(m, op),
        2 => run_arithmetic(m, op),
        _ => run_block3(m, op),
    }
}

/// The fault that the fetch of an illegal opcode raises, given the machine
/// after the fetch.
pub open spec fn illegal_opcode(m: Machine, op: u8) -> Fault {
    Fault::IllegalOpcode {
        opcode: op,
        preceding: (m.read(m.regs.pc.wrapping_sub(3)), m.read(m.regs.pc.wrapping_sub(2))),
        following: (m.read(m.regs.pc), m.read(m.regs.pc.wrapping_add(1))),
        regs: m.regs,
    }
}

/// One step of the processor. While it is halted and no interrupt is both
/// requested and enabled, four cycles pass and nothing changes. Otherwise it
/// leaves the halt, fetches the byte at the program counter and steps over
/// it; an illegal opcode stops there with a fault, any other runs.
pub open spec fn step(m: Machine) -> (Machine, Result<u32, Fault>) {
    if m.halted && !m.interrupt_pending() {
        (m, Ok(4))
    } else {
        let op = m.imm8();
        let fetched = Machine { halted: false, ..m }.skip(1);
        if is_illegal(op) {
            (fetched, Err(illegal_opcode(fetched, op)))
        } else {
            (run(fetched, op).0, Ok(run(fetched, op).1))
        }
    }
}

} // verus!
