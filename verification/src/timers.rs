//! The timer: the free-running divider.

use vstd::prelude::*;
use crate::GBEmulator;
use crate::machine::{Machine, DIV};

verus! {

impl Machine {
    /// The machine after `cycles` clock cycles were added to the divider
    /// register, which wraps at 256. The addition goes past the bus, where a
    /// write would reset the register.
    pub open spec fn tick(self, cycles: u32) -> Machine {
        Machine {
            bus: self.bus.store(DIV, ((self.bus.mem[DIV as int] + cycles) % 256) as u8),
            ..self
        }
    }
}

impl GBEmulator {
    /// Advances the divider register by the cycles that have passed.
    pub fn timers_run(&mut self, cycles: u32)
        ensures
            final(self)@ == old(self)@.tick(cycles),
            final(self)@.read(DIV) == (old(self)@.read(DIV) + cycles) % 256,
    {
        let div = self.mem[0xFF04];
        let step = (cycles % 256) as u8;
        self.mem[0xFF04] = div.wrapping_add(step);
    }
}

} // verus!
