//! The memory bus: byte and 16-bit accesses routed through the address map.

use vstd::prelude::*;
use crate::GBEmulator;
use crate::machine::{region, stores, Region, OAM, OAM_SIZE};
use crate::registers::{join_bytes, split_bytes};

verus! {

impl GBEmulator {
    /// Reads the byte that the bus maps at `addr`.
    pub fn mmu_read8(&self, addr: u16) -> (value: u8)
        ensures
            value == self@.read(addr),
            region(addr) is Mirror ==> value == self@.read((addr - 0x2000) as u16),
            region(addr) is Unusable ==> value == 0,
        decreases (if region(addr) is Mirror { 1int } else { 0int }),
    {
        let index = addr as usize;
        match addr {
            0x0000..=0x00FF => {
                if self.in_bios {
                    if index < self.bios.len() { self.bios[index] } else { 0 }
                } else {
                    if index < self.rom.len() { self.rom[index] } else { 0 }
                }
            },
            0x0100..=0x7FFF => {
                if index < self.rom.len() { self.rom[index] } else { 0 }
            },
            0x8000..=0xDFFF => self.mem[index],
            0xE000..=0xFDFF => self.mmu_read8(addr - 0x2000),
            0xFE00..=0xFE9F => self.mem[index],
            0xFEA0..=0xFEFF => 0,
            0xFF00..=0xFFFF => self.mem[index],
        }
    }

    /// Writes `value` to `addr`. The cartridge and the unusable block ignore
    /// the write; the divider register resets; the transfer register starts a
    /// copy into object attribute memory; the boot register unmaps the boot
    /// program; every other address stores the byte.
    pub fn mmu_write8(&mut self, addr: u16, value: u8)
        ensures
            final(self)@ == old(self)@.write(addr, value),
            final(self)@.bus.bios == old(self)@.bus.bios,
            final(self)@.bus.rom == old(self)@.bus.rom,
            stores(addr) ==> final(self)@.read(addr) == value,
        decreases (if region(addr) is Mirror { 1int } else { 0int }),
    {
        let index = addr as usize;
        match addr {
            0x0000..=0x7FFF => {},
            0x8000..=0xDFFF => {
                self.mem[index] = value;
            },
            0xE000..=0xFDFF => {
                self.mmu_write8(addr - 0x2000, value);
            },
            0xFE00..=0xFE9F => {
                self.mem[index] = value;
            },
            0xFEA0..=0xFEFF => {},
            0xFF04 => {
                self.mem[index] = 0;
            },
            0xFF46 => {
                self.dma_transfer(value);
            },
            0xFF50 => {
                self.in_bios = false;
            },
            0xFF00..=0xFFFF => {
                self.mem[index] = value;
            },
        }
    }

    /// Copies the 160 bytes that start at `value * 256` into object attribute
    /// memory.
    pub fn dma_transfer(&mut self, value: u8)
        ensures
            final(self)@ == (crate::Machine { bus: old(self)@.bus.dma(value), ..old(self)@ }),
            forall|k: int|
                0 <= k < OAM_SIZE ==> #[trigger] final(self)@.bus.mem[OAM + k] == old(self)@.read(
                    (value as int * 256 + k) as u16,
                ),
    {
        let source: u16 = (value as u16) * 256;
        let mut offset: u16 = 0;
        while offset < 0xA0
            invariant
                offset <= 0xA0,
                source == value as int * 256,
                *self == (GBEmulator { mem: self.mem, ..*old(self) }),
                forall|i: int|
                    0 <= i < 65536 ==> #[trigger] self.mem@[i] == (if OAM <= i < OAM + offset {
                        old(self)@.read((source + (i - OAM)) as u16)
                    } else {
                        old(self).mem@[i]
                    }),
            decreases 0xA0 - offset,
        {
            let byte = self.mmu_read8(source + offset);
            self.mem[(0xFE00 + offset) as usize] = byte;
            offset += 1;
        }
        assert(self@.bus.mem =~= old(self)@.bus.dma(value).mem);
    }

    /// Reads the 16-bit value at `addr`: the low byte at `addr`, the high byte
    /// at the address that follows.
    pub fn mmu_read16(&self, addr: u16) -> (value: u16)
        ensures
            value == self@.read16(addr),
    {
        let lo = self.mmu_read8(addr);
        let hi = self.mmu_read8(addr.wrapping_add(1));
        join_bytes(hi, lo)
    }

    /// Writes `value` at `addr`: the low byte to `addr`, then the high byte to
    /// the address that follows.
    pub fn mmu_write16(&mut self, addr: u16, value: u16)
        ensures
            final(self)@ == old(self)@.write16(addr, value),
            stores(addr) && stores(addr.wrapping_add(1)) ==> final(self)@.read16(addr) == value,
    {
        let (hi, lo) = split_bytes(value);
        self.mmu_write8(addr, lo);
        self.mmu_write8(addr.wrapping_add(1), hi);
    }

    /// Reads the byte at the program counter and steps the counter over it.
    pub fn pc_read8(&mut self) -> (value: u8)
        ensures
            value == old(self)@.read(old(self)@.regs.pc),
            final(self)@ == old(self)@.skip(1),
    {
        let val = self.mmu_read8(self.regs.pc);
        self.regs.pc = self.regs.pc.wrapping_add(1);
        val
    }

    /// Reads the 16-bit value at the program counter and steps the counter
    /// over it.
    pub fn pc_read16(&mut self) -> (value: u16)
        ensures
            value == old(self)@.read16(old(self)@.regs.pc),
            final(self)@ == old(self)@.skip(2),
    {
        let val = self.mmu_read16(self.regs.pc);
        self.regs.pc = self.regs.pc.wrapping_add(2);
        val
    }
}

} // verus!
