//! The interrupt controller: requests, and vectored delivery of the request
//! with the lowest number.

use vstd::prelude::*;
use crate::GBEmulator;
use crate::fault::Fault;
use crate::machine::{Machine, IE, IF};

verus! {

/// Highest interrupt line that the controller serves.
pub const LAST_LINE: u8 = 3;

/// The address at which the handler of an interrupt line starts: 0x40 for the
/// vertical blank, 0x48 for the display status, 0x50 for the timer, 0x60 for
/// the input.
pub open spec fn vector(line: u8) -> u16 {
    match line {
        0 => 0x40,
        1 => 0x48,
        2 => 0x50,
        _ => 0x60,
    }
}

/// The lowest bit of `bits` that is set, among those numbered `from` and up;
/// 8 if there is none.
pub open spec fn first_line(bits: u8, from: u8) -> u8
    decreases 8 - from,
{
    if from >= 8 {
        8
    } else if bits & (1u8 << from) != 0 {
        from
    } else {
        first_line(bits, (from + 1) as u8)
    }
}

impl Machine {
    /// The machine after interrupt line `line` was requested.
    pub open spec fn raise(self, line: u8) -> Machine {
        self.write(IF, self.read(IF) | (1u8 << line))
    }

    /// The machine after a request for a line that may not exist, and the
    /// fault if it does not: then nothing changes.
    pub open spec fn request(self, line: u8) -> (Machine, Result<(), Fault>) {
        if line > LAST_LINE {
            (self, Err(Fault::InvalidInterrupt { bit: line, regs: self.regs }))
        } else {
            (self.raise(line), Ok(()))
        }
    }

    /// The lowest line that is both requested and enabled; 8 if there is
    /// none.
    pub open spec fn ready_line(self) -> u8 {
        first_line(self.read(IF) & self.read(IE), 0)
    }

    /// The machine after the interrupt of `line` was delivered: the program
    /// counter is pushed and set to the line's vector, interrupts are
    /// disabled, a halt ends, and that one request is cleared.
    pub open spec fn serve(self, line: u8) -> Machine {
        Machine {
            ime: false,
            halted: false,
            ..self.push(self.regs.pc).with_pc(vector(line))
        }.write(IF, self.read(IF) & !(1u8 << line))
    }

    /// Delivery, as it happens once per step. With interrupts disabled, or
    /// with no line both requested and enabled, nothing changes. Otherwise
    /// the lowest such line is served; one above 3 is a fault, and nothing
    /// changes.
    pub open spec fn deliver(self) -> (Machine, Result<(), Fault>) {
        let line = self.ready_line();
        if !self.ime || line >= 8 {
            (self, Ok(()))
        } else if line > LAST_LINE {
            (self, Err(Fault::InvalidInterrupt { bit: line, regs: self.regs }))
        } else {
            (self.serve(line), Ok(()))
        }
    }
}

impl GBEmulator {
    /// Requests interrupt line `irq`, which exists.
    pub fn raise_irq(&mut self, irq: u8)
        requires
            irq <= LAST_LINE,
        ensures
            final(self)@ == old(self)@.raise(irq),
    {
        let value = self.mmu_read8(IF) | (1u8 << irq);
        self.mmu_write8(IF, value);
    }

    /// Requests interrupt line `irq`: sets its bit in the pending-interrupt
    /// register. A line above 3 is a fault and changes nothing.
    pub fn request_irq(&mut self, irq: u8) -> (result: Result<(), Fault>)
        ensures
            final(self)@ == old(self)@.request(irq).0,
            result == old(self)@.request(irq).1,
            result is Ok <==> irq <= LAST_LINE,
            result is Ok ==> final(self)@ == old(self)@.raise(irq),
            result is Err ==> final(self)@ == old(self)@,
    {
        if irq > LAST_LINE {
            return Err(Fault::InvalidInterrupt { bit: irq, regs: self.regs });
        }
        self.raise_irq(irq);
        Ok(())
    }

    /// Finds the lowest bit that is set in `bits`; 8 if none is.
    pub fn lowest_line(bits: u8) -> (line: u8)
        ensures
            line == first_line(bits, 0),
            line <= 8,
    {
        let mut bit: u8 = 0;
        while bit < 8
            invariant
                bit <= 8,
                first_line(bits, 0) == first_line(bits, bit),
            decreases 8 - bit,
        {
            if bits & (1u8 << bit) != 0 {
                return bit;
            }
            bit += 1;
        }
        bit
    }

    /// Delivers the pending interrupt with the lowest number, if interrupts
    /// are enabled and one is both requested and enabled: pushes the program
    /// counter, jumps to the vector, clears that one request, disables
    /// interrupts and ends a halt. A line above 3 that comes up for delivery
    /// is a fault and changes nothing.
    pub fn handle_irqs(&mut self) -> (result: Result<(), Fault>)
        ensures
            final(self)@ == old(self)@.deliver().0,
            result == old(self)@.deliver().1,
            result is Err <==> old(self)@.ime && 3 < old(self)@.ready_line() < 8,
            !old(self)@.ime ==> final(self)@ == old(self)@,
    {
        if !self.interrupts_en {
            return Ok(());
        }
        let irq_flags = self.mmu_read8(IF);
        let irqs = irq_flags & self.mmu_read8(IE);
        let bit = Self::lowest_line(irqs);
        if bit >= 8 {
            return Ok(());
        }
        if bit > LAST_LINE {
            return Err(Fault::InvalidInterrupt { bit, regs: self.regs });
        }
        let pc = self.regs.pc;
        self.stack_push(pc);
        self.regs.pc = match bit {
            0 => 0x40,
            1 => 0x48,
            2 => 0x50,
            _ => 0x60,
        };
        self.interrupts_en = false;
        self.halted = false;
        self.mmu_write8(IF, irq_flags & !(1u8 << bit));
        Ok(())
    }
}

} // verus!
