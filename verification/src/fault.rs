//! The faults that end an emulation session.

use vstd::prelude::*;
use crate::registers::Registers;

verus! {

/// A fatal fault. None is recoverable: the driver is expected to stop
/// stepping and to report what the fault carries.
#[derive(Copy, Clone, Debug, PartialEq, Eq)]
pub enum Fault {
    /// The byte fetched as an opcode is one of the processor's illegal
    /// opcodes.
    IllegalOpcode {
        /// The byte that was fetched.
        opcode: u8,
        /// The two bytes in memory before it, in the order of their addresses.
        preceding: (u8, u8),
        /// The two bytes in memory behind it, in the order of their addresses.
        following: (u8, u8),
        /// The register file after the fetch.
        regs: Registers,
    },
    /// An interrupt line outside 0 to 3 was requested or came up for delivery.
    InvalidInterrupt {
        /// The number of the line.
        bit: u8,
        /// The register file at that moment.
        regs: Registers,
    },
}

} // verus!
