//! The instruction engine: fetch, decode and execute, one instruction to a
//! step.

use vstd::prelude::*;
use crate::GBEmulator;
use crate::decode::{
    accumulate, is_illegal, rotate, run_accumulator, run_arithmetic, run_block0, run_block3,
    run_load, run_prefixed, step,
};
use crate::fault::Fault;
use crate::isa::{extend, relative, signed};
use crate::laws::{keeps_surroundings, lemma_step_keeps_surroundings};
use crate::machine::{stores, IE, IF};

verus! {

/// Reads a displacement byte as a signed number.
pub fn to_signed(byte: u8) -> (value: i8)
    ensures
        value == signed(byte),
{
    if byte < 128 {
        byte as i8
    } else {
        (byte as i16 - 256) as i8
    }
}

/// Sign-extends a displacement byte to sixteen bits.
pub fn sign_extend(byte: u8) -> (value: u16)
    ensures
        value == extend(byte),
{
    if byte < 128 {
        byte as u16
    } else {
        0xFF00 + byte as u16
    }
}

/// True for the eleven opcodes that the processor does not define.
pub fn illegal(op: u8) -> (answer: bool)
    ensures
        answer == is_illegal(op),
{
    op == 0xD3 || op == 0xDB || op == 0xDD || op == 0xE3 || op == 0xE4 || op == 0xEB || op == 0xEC
        || op == 0xED || op == 0xF4 || op == 0xFC || op == 0xFD
}

impl GBEmulator {
    /// Reads the operand that a register field names.
    pub fn read_r8(&self, index: u8) -> (value: u8)
        ensures
            value == self@.r8(index),
    {
        match index {
            0 => self.regs.b,
            1 => self.regs.c,
            2 => self.regs.d,
            3 => self.regs.e,
            4 => self.regs.h,
            5 => self.regs.l,
            6 => self.mmu_read8(self.regs.get_hl()),
            _ => self.regs.a,
        }
    }

    /// Writes the operand that a register field names.
    pub fn write_r8(&mut self, index: u8, value: u8)
        ensures
            final(self)@ == old(self)@.with_r8(index, value),
    {
        match index {
            0 => {
                self.regs.b = value;
            },
            1 => {
                self.regs.c = value;
            },
            2 => {
                self.regs.d = value;
            },
            3 => {
                self.regs.e = value;
            },
            4 => {
                self.regs.h = value;
            },
            5 => {
                self.regs.l = value;
            },
            6 => {
                let addr = self.regs.get_hl();
                self.mmu_write8(addr, value);
            },
            _ => {
                self.regs.a = value;
            },
        }
    }

    /// Reads the register pair that a pair field names.
    pub fn read_r16(&self, index: u8) -> (value: u16)
        ensures
            value == self@.r16(index),
    {
        match index {
            0 => self.regs.get_bc(),
            1 => self.regs.get_de(),
            2 => self.regs.get_hl(),
            _ => self.regs.sp,
        }
    }

    /// Writes the register pair that a pair field names.
    pub fn write_r16(&mut self, index: u8, value: u16)
        ensures
            final(self)@ == old(self)@.with_r16(index, value),
    {
        match index {
            0 => {
                self.regs.set_bc(value);
            },
            1 => {
                self.regs.set_de(value);
            },
            2 => {
                self.regs.set_hl(value);
            },
            _ => {
                self.regs.sp = value;
            },
        }
    }

    /// Reads the register pair that a pair field names for the stack.
    pub fn read_stack_pair(&self, index: u8) -> (value: u16)
        ensures
            value == self@.stack_pair(index),
    {
        match index {
            0 => self.regs.get_bc(),
            1 => self.regs.get_de(),
            2 => self.regs.get_hl(),
            _ => self.regs.get_af(),
        }
    }

    /// Writes the register pair that a pair field names for the stack.
    pub fn write_stack_pair(&mut self, index: u8, value: u16)
        ensures
            final(self)@ == old(self)@.with_stack_pair(index, value),
    {
        match index {
            0 => {
                self.regs.set_bc(value);
            },
            1 => {
                self.regs.set_de(value);
            },
            2 => {
                self.regs.set_hl(value);
            },
            _ => {
                self.regs.set_af(value);
            },
        }
    }

    /// Evaluates the condition that a condition field names.
    pub fn condition(&self, index: u8) -> (holds: bool)
        ensures
            holds == self@.condition(index),
    {
        match index {
            0 => !self.regs.flags.zero,
            1 => self.regs.flags.zero,
            2 => !self.regs.flags.carry,
            _ => self.regs.flags.carry,
        }
    }

    /// Moves the program counter by a signed displacement, wrapping at both
    /// ends of the address space.
    pub fn jump(&mut self, value: i8)
        ensures
            final(self)@ == old(self)@.jump(value),
            final(self)@.regs.pc == relative(old(self)@.regs.pc, value),
    {
        if value < 0 {
            let back: u16 = (-(value as i16)) as u16;
            self.regs.pc = self.regs.pc.wrapping_sub(back);
        } else {
            self.regs.pc = self.regs.pc.wrapping_add(value as u16);
        }
    }

    /// Pushes `val`: the stack pointer goes down by two, then the value is
    /// written where it points, low byte first.
    pub fn stack_push(&mut self, val: u16)
        ensures
            final(self)@ == old(self)@.push(val),
            final(self)@.regs.sp == old(self)@.regs.sp.wrapping_sub(2),
            stores(old(self)@.regs.sp.wrapping_sub(2)) && stores(old(self)@.regs.sp.wrapping_sub(1))
                ==> final(self)@.top() == val,
    {
        self.regs.sp = self.regs.sp.wrapping_sub(2);
        let sp = self.regs.sp;
        self.mmu_write16(sp, val);
    }

    /// Pops the 16-bit value on top of the stack: it is read where the stack
    /// pointer points, then the pointer goes up by two.
    pub fn stack_pop(&mut self) -> (value: u16)
        ensures
            value == old(self)@.top(),
            final(self)@ == old(self)@.pop(),
            final(self)@.regs.sp == old(self)@.regs.sp.wrapping_add(2),
    {
        let value = self.mmu_read16(self.regs.sp);
        self.regs.sp = self.regs.sp.wrapping_add(2);
        value
    }

    /// Pushes the program counter and continues at `addr`.
    pub fn call(&mut self, addr: u16)
        ensures
            final(self)@ == old(self)@.call(addr),
    {
        let pc = self.regs.pc;
        self.stack_push(pc);
        self.regs.pc = addr;
    }

    /// Pops the program counter.
    pub fn ret(&mut self)
        ensures
            final(self)@ == old(self)@.ret(),
    {
        let pc = self.stack_pop();
        self.regs.pc = pc;
    }

    /// Runs one of the eight operations between the accumulator and
    /// `operand`.
    pub fn accumulate(&mut self, kind: u8, operand: u8)
        ensures
            final(self)@ == old(self)@.with_flags(
                accumulate(kind, old(self)@.regs.a, operand, old(self)@.regs.flags).1,
            ).with_a(accumulate(kind, old(self)@.regs.a, operand, old(self)@.regs.flags).0),
    {
        match kind {
            0 => {
                let a = self.regs.a;
                let result = self.add_u8(a, operand);
                self.regs.a = result;
            },
            1 => {
                let result = self.adc(operand);
                self.regs.a = result;
            },
            2 => {
                let result = self.sub(operand);
                self.regs.a = result;
            },
            3 => {
                let result = self.sbc(operand);
                self.regs.a = result;
            },
            4 => {
                let result = self.and(operand);
                self.regs.a = result;
            },
            5 => {
                let result = self.xor(operand);
                self.regs.a = result;
            },
            6 => {
                let result = self.or(operand);
                self.regs.a = result;
            },
            _ => {
                self.sub(operand);
            },
        }
    }

    /// Runs one of the eight rotates and shifts of the prefixed table on
    /// `value`.
    pub fn rotate(&mut self, kind: u8, value: u8) -> (result: u8)
        ensures
            result == rotate(kind, value, old(self)@.regs.flags).0,
            final(self)@ == old(self)@.with_flags(rotate(kind, value, old(self)@.regs.flags).1),
    {
        match kind {
            0 => self.rotate_left(value),
            1 => self.rotate_right(value),
            2 => self.rotate_left_carry(value),
            3 => self.rotate_right_carry(value),
            4 => self.sla(value),
            5 => self.sra(value),
            6 => self.swap(value),
            _ => self.srl(value),
        }
    }

    /// Runs one of the eight one-byte operations on the accumulator and the
    /// flags.
    pub fn exec_accumulator(&mut self, kind: u8)
        ensures
            final(self)@ == run_accumulator(old(self)@, kind),
    {
        let a = self.regs.a;
        match kind {
            0 => {
                let result = self.rotate_left(a);
                self.regs.a = result;
                self.regs.flags.zero = false;
            },
            1 => {
                let result = self.rotate_right(a);
                self.regs.a = result;
                self.regs.flags.zero = false;
            },
            2 => {
                let result = self.rotate_left_carry(a);
                self.regs.a = result;
                self.regs.flags.zero = false;
            },
            3 => {
                let result = self.rotate_right_carry(a);
                self.regs.a = result;
                self.regs.flags.zero = false;
            },
            4 => {
                let result = self.daa();
                self.regs.a = result;
            },
            5 => {
                self.regs.a = !a;
                self.regs.flags.half_carry = true;
                self.regs.flags.negative = true;
            },
            6 => {
                self.regs.flags.negative = false;
                self.regs.flags.half_carry = false;
                self.regs.flags.carry = true;
            },
            _ => {
                self.regs.flags.negative = false;
                self.regs.flags.half_carry = false;
                self.regs.flags.carry = !self.regs.flags.carry;
            },
        }
    }

    /// Runs an instruction of the first quarter of the table, after its
    /// opcode was fetched.
    #[verifier::rlimit(40)]
    pub fn exec_block0(&mut self, op: u8) -> (cycles: u32)
        requires
            op < 0x40,
        ensures
            final(self)@ == run_block0(old(self)@, op).0,
            cycles == run_block0(old(self)@, op).1,
    {
        let y = op / 8 % 8;
        let p = y / 2;
        match op % 8 {
            0 => {
                if y == 0 {
                    4
                } else if y == 1 {
                    let addr = self.pc_read16();
                    let sp = self.regs.sp;
                    self.mmu_write16(addr, sp);
                    20
                } else if y == 2 {
                    self.stopped = true;
                    4
                } else {
                    let offset = self.pc_read8();
                    if y == 3 || self.condition(y - 4) {
                        self.jump(to_signed(offset));
                        12
                    } else {
                        8
                    }
                }
            },
            1 => {
                if y % 2 == 0 {
                    let value = self.pc_read16();
                    self.write_r16(p, value);
                    12
                } else {
                    let hl = self.regs.get_hl();
                    let other = self.read_r16(p);
                    let sum = self.add_u16(hl, other);
                    self.regs.set_hl(sum);
                    8
                }
            },
            2 => {
                let hl = self.regs.get_hl();
                let a = self.regs.a;
                match y {
                    0 => {
                        let addr = self.regs.get_bc();
                        self.mmu_write8(addr, a);
                    },
                    1 => {
                        self.regs.a = self.mmu_read8(self.regs.get_bc());
                    },
                    2 => {
                        let addr = self.regs.get_de();
                        self.mmu_write8(addr, a);
                    },
                    3 => {
                        self.regs.a = self.mmu_read8(self.regs.get_de());
                    },
                    4 => {
                        self.mmu_write8(hl, a);
                        self.regs.set_hl(hl.wrapping_add(1));
                    },
                    5 => {
                        self.regs.a = self.mmu_read8(hl);
                        self.regs.set_hl(hl.wrapping_add(1));
                    },
                    6 => {
                        self.mmu_write8(hl, a);
                        self.regs.set_hl(hl.wrapping_sub(1));
                    },
                    _ => {
                        self.regs.a = self.mmu_read8(hl);
                        self.regs.set_hl(hl.wrapping_sub(1));
                    },
                }
                8
            },
            3 => {
                let value = self.read_r16(p);
                let next = if y % 2 == 0 {
                    self.increment_u16(value)
                } else {
                    self.decrement_u16(value)
                };
                self.write_r16(p, next);
                8
            },
            4 => {
                let value = self.read_r8(y);
                let result = self.increment_u8(value);
                self.write_r8(y, result);
                if y == 6 {
                    12
                } else {
                    4
                }
            },
            5 => {
                let value = self.read_r8(y);
                let result = self.decrement_u8(value);
                self.write_r8(y, result);
                if y == 6 {
                    12
                } else {
                    4
                }
            },
            6 => {
                let value = self.pc_read8();
                self.write_r8(y, value);
                if y == 6 {
                    12
                } else {
                    8
                }
            },
            _ => {
                self.exec_accumulator(y);
                4
            },
        }
    }

    /// Runs a load between two operands, or `HALT`, after its opcode was
    /// fetched.
    pub fn exec_load(&mut self, op: u8) -> (cycles: u32)
        ensures
            final(self)@ == run_load(old(self)@, op).0,
            cycles == run_load(old(self)@, op).1,
    {
        let target = op / 8 % 8;
        let source = op % 8;
        if op == 0x76 {
            self.halted = true;
            4
        } else {
            let value = self.read_r8(source);
            self.write_r8(target, value);
            if target == 6 || source == 6 {
                8
            } else {
                4
            }
        }
    }

    /// Runs an operation between the accumulator and an operand, after its
    /// opcode was fetched.
    pub fn exec_arithmetic(&mut self, op: u8) -> (cycles: u32)
        ensures
            final(self)@ == run_arithmetic(old(self)@, op).0,
            cycles == run_arithmetic(old(self)@, op).1,
    {
        let source = op % 8;
        let operand = self.read_r8(source);
        self.accumulate(op / 8 % 8, operand);
        if source == 6 {
            8
        } else {
            4
        }
    }

    /// Runs a prefixed instruction, after its sub-opcode was fetched, and
    /// returns the sub-opcode's own cost.
    pub fn exec_prefixed(&mut self, sub: u8) -> (cycles: u32)
        ensures
            final(self)@ == run_prefixed(old(self)@, sub).0,
            cycles == run_prefixed(old(self)@, sub).1,
            cycles == 8 || cycles == 12 || cycles == 16,
    {
        let index = sub / 8 % 8;
        let operand = sub % 8;
        let value = self.read_r8(operand);
        match sub / 64 {
            0 => {
                let result = self.rotate(index, value);
                self.write_r8(operand, result);
                if operand == 6 {
                    16
                } else {
                    8
                }
            },
            1 => {
                self.bit(value, index);
                if operand == 6 {
                    12
                } else {
                    8
                }
            },
            2 => {
                self.write_r8(operand, value & !(1u8 << index));
                if operand == 6 {
                    16
                } else {
                    8
                }
            },
            _ => {
                self.write_r8(operand, value | (1u8 << index));
                if operand == 6 {
                    16
                } else {
                    8
                }
            },
        }
    }

    /// Runs a defined instruction of the last quarter of the table, after its
    /// opcode was fetched.
    #[verifier::rlimit(40)]
    pub fn exec_block3(&mut self, op: u8) -> (cycles: u32)
        requires
            op >= 0xC0,
            !is_illegal(op),
        ensures
            final(self)@ == run_block3(old(self)@, op).0,
            cycles == run_block3(old(self)@, op).1,
    {
        let y = op / 8 % 8;
        let p = y / 2;
        match op % 8 {
            0 => {
                if y < 4 {
                    if self.condition(y) {
                        self.ret();
                        20
                    } else {
                        8
                    }
                } else if y == 4 {
                    let offset = self.pc_read8();
                    let a = self.regs.a;
                    self.mmu_write8(0xFF00 + offset as u16, a);
                    12
                } else if y == 5 {
                    let offset = self.pc_read8();
                    let sp = self.regs.sp;
                    let sum = self.add_u16(sp, sign_extend(offset));
                    self.regs.sp = sum;
                    16
                } else if y == 6 {
                    let offset = self.pc_read8();
                    self.regs.a = self.mmu_read8(0xFF00 + offset as u16);
                    12
                } else {
                    let offset = self.pc_read8();
                    let sp = self.regs.sp;
                    let sum = self.add_u16(sp, sign_extend(offset));
                    self.regs.set_hl(sum);
                    12
                }
            },
            1 => {
                if y % 2 == 0 {
                    let value = self.stack_pop();
                    self.write_stack_pair(p, value);
                    12
                } else if y == 1 {
                    self.ret();
                    16
                } else if y == 3 {
                    self.ret();
                    self.interrupts_en = true;
                    16
                } else if y == 5 {
                    self.regs.pc = self.regs.get_hl();
                    4
                } else {
                    self.regs.sp = self.regs.get_hl();
                    8
                }
            },
            2 => {
                if y < 4 {
                    let addr = self.pc_read16();
                    if self.condition(y) {
                        self.regs.pc = addr;
                        16
                    } else {
                        12
                    }
                } else if y == 4 {
                    let a = self.regs.a;
                    self.mmu_write8(0xFF00 + self.regs.c as u16, a);
                    8
                } else if y == 5 {
                    let addr = self.pc_read16();
                    let a = self.regs.a;
                    self.mmu_write8(addr, a);
                    16
                } else if y == 6 {
                    self.regs.a = self.mmu_read8(0xFF00 + self.regs.c as u16);
                    8
                } else {
                    let addr = self.pc_read16();
                    self.regs.a = self.mmu_read8(addr);
                    16
                }
            },
            3 => {
                if y == 0 {
                    self.regs.pc = self.mmu_read16(self.regs.pc);
                    16
                } else if y == 1 {
                    let sub = self.pc_read8();
                    let cost = self.exec_prefixed(sub);
                    4 + cost
                } else if y == 6 {
                    self.interrupts_en = false;
                    4
                } else {
                    self.interrupts_en = true;
                    4
                }
            },
            4 => {
                let addr = self.pc_read16();
                if self.condition(y) {
                    self.call(addr);
                    24
                } else {
                    12
                }
            },
            5 => {
                if y % 2 == 0 {
                    let value = self.read_stack_pair(p);
                    self.stack_push(value);
                    16
                } else {
                    let addr = self.pc_read16();
                    self.call(addr);
                    24
                }
            },
            6 => {
                let operand = self.pc_read8();
                self.accumulate(y, operand);
                8
            },
            _ => {
                self.call((y * 8) as u16);
                16
            },
        }
    }

    /// Executes one instruction and returns the clock cycles that it took,
    /// on the path that it took. While the processor is halted and no
    /// interrupt is both requested and enabled, four cycles pass and nothing
    /// changes. An illegal opcode ends the step after its fetch with a fault
    /// that carries the opcode, the two bytes on either side of it and the
    /// registers. The module `opcodes` lists, opcode by opcode, the
    /// instruction that a step runs.
    #[verifier::rlimit(40)]
    pub fn cpu_run_op(&mut self) -> (result: Result<u32, Fault>)
        ensures
            final(self)@ == step(old(self)@).0,
            result == step(old(self)@).1,
            result is Err <==> !(old(self)@.halted && !old(self)@.interrupt_pending())
                && is_illegal(old(self)@.imm8()),
            result matches Ok(cycles) ==> 4 <= cycles <= 24 && cycles % 4 == 0,
            keeps_surroundings(old(self)@, final(self)@),
    {
        proof {
            lemma_step_keeps_surroundings(self@);
        }
        if self.halted {
            let pending = self.mmu_read8(IF) & self.mmu_read8(IE);
            if pending == 0 {
                return Ok(4);
            }
            self.halted = false;
        }
        let op = self.pc_read8();
        if illegal(op) {
            let pc = self.regs.pc;
            let preceding = (self.mmu_read8(pc.wrapping_sub(3)), self.mmu_read8(pc.wrapping_sub(2)));
            let following = (self.mmu_read8(pc), self.mmu_read8(pc.wrapping_add(1)));
            return Err(Fault::IllegalOpcode { opcode: op, preceding, following, regs: self.regs });
        }
        let cycles = match op / 64 {
            0 => self.exec_block0(op),
            1 => self.exec_load(op),
            2 => self.exec_arithmetic(op),
            _ => self.exec_block3(op),
        };
        Ok(cycles)
    }
}

} // verus!
