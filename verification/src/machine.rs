//! The mathematical model of the machine: the memory bus with its address
//! map, and the whole machine state that the emulator's contracts speak of.

use vstd::prelude::*;
use crate::registers::{high_byte, low_byte, pair, FlagsReg, Registers};

verus! {

/// Size of the address space.
pub const MEMORY_SIZE: usize = 65536;

/// Size of the boot program that overlays the start of the cartridge.
pub const BIOS_SIZE: usize = 256;

/// Size of the cartridge image that the bus maps.
pub const ROM_SIZE: usize = 32768;

/// Size of the frame buffer: 160 by 144 pixels of four channels.
pub const FRAME_SIZE: usize = 92160;

/// Pending-interrupt register.
pub const IF: u16 = 0xFF0F;

/// Interrupt-enable register.
pub const IE: u16 = 0xFFFF;

/// Divider register.
pub const DIV: u16 = 0xFF04;

/// Timer counter register.
pub const TIMA: u16 = 0xFF05;

/// Timer modulo register.
pub const TMA: u16 = 0xFF06;

/// Timer control register.
pub const TAC: u16 = 0xFF07;

/// Display control register.
pub const LCDC: u16 = 0xFF40;

/// Display status register.
pub const STAT: u16 = 0xFF41;

/// Background scroll, vertical.
pub const SCY: u16 = 0xFF42;

/// Background scroll, horizontal.
pub const SCX: u16 = 0xFF43;

/// Scanline counter.
pub const LY: u16 = 0xFF44;

/// Scanline compare register.
pub const LYC: u16 = 0xFF45;

/// Register that starts a transfer into object attribute memory.
pub const DMA: u16 = 0xFF46;

/// Background palette.
pub const BGP: u16 = 0xFF47;

/// First object palette.
pub const OBP0: u16 = 0xFF48;

/// Second object palette.
pub const OBP1: u16 = 0xFF49;

/// Window position, vertical.
pub const WY: u16 = 0xFF4A;

/// Window position, horizontal.
pub const WX: u16 = 0xFF4B;

/// Register that unmaps the boot program.
pub const BOOT_OFF: u16 = 0xFF50;

/// First byte of object attribute memory.
pub const OAM: u16 = 0xFE00;

/// Number of bytes that a transfer into object attribute memory copies.
pub const OAM_SIZE: u16 = 160;

/// The regions of the address map.
pub enum Region {
    /// 0x0000-0x7FFF, the first 256 bytes overlaid by the boot program while
    /// it is mapped.
    Cartridge,
    /// 0x8000-0x9FFF.
    VideoRam,
    /// 0xA000-0xBFFF.
    ExternalRam,
    /// 0xC000-0xDFFF.
    WorkRam,
    /// 0xE000-0xFDFF, which aliases 0xC000-0xDDFF.
    Mirror,
    /// 0xFE00-0xFE9F.
    ObjectAttributes,
    /// 0xFEA0-0xFEFF.
    Unusable,
    /// 0xFF00-0xFF7F.
    Io,
    /// 0xFF80-0xFFFE.
    HighRam,
    /// 0xFFFF.
    InterruptEnable,
}

/// The region that an address belongs to.
pub open spec fn region(addr: u16) -> Region {
    if addr < 0x8000 {
        Region::Cartridge
    } else if addr < 0xA000 {
        Region::VideoRam
    } else if addr < 0xC000 {
        Region::ExternalRam
    } else if addr < 0xE000 {
        Region::WorkRam
    } else if addr < 0xFE00 {
        Region::Mirror
    } else if addr < 0xFEA0 {
        Region::ObjectAttributes
    } else if addr < 0xFF00 {
        Region::Unusable
    } else if addr < 0xFF80 {
        Region::Io
    } else if addr < 0xFFFF {
        Region::HighRam
    } else {
        Region::InterruptEnable
    }
}

/// The address that an access to `addr` reaches: a mirrored address stands for
/// the one 0x2000 below it, every other address for itself.
pub open spec fn canonical(addr: u16) -> u16 {
    if region(addr) is Mirror {
        (addr - 0x2000) as u16
    } else {
        addr
    }
}

/// True where a write stores the written byte and a later read finds it:
/// everywhere but the cartridge, the unusable block and the three registers on
/// which a write acts otherwise.
pub open spec fn stores(addr: u16) -> bool {
    let target = canonical(addr);
    &&& !(region(target) is Cartridge)
    &&& !(region(target) is Unusable)
    &&& target != DIV
    &&& target != DMA
    &&& target != BOOT_OFF
}

/// A byte image of `size` bytes: the bytes of `data` as far as they reach,
/// zero behind them.
pub open spec fn image(data: Seq<u8>, size: nat) -> Seq<u8> {
    Seq::new(size, |i: int| if i < data.len() { data[i] } else { 0u8 })
}

/// The memory bus: the 64 KiB that back every writable region, the boot
/// program, the cartridge image, and whether the boot program is mapped.
pub struct Bus {
    pub mem: Seq<u8>,
    pub bios: Seq<u8>,
    pub rom: Seq<u8>,
    pub boot: bool,
}

impl Bus {
    /// The three byte spaces have their fixed sizes.
    pub open spec fn wf(self) -> bool {
        &&& self.mem.len() == MEMORY_SIZE
        &&& self.bios.len() == BIOS_SIZE
        &&& self.rom.len() == ROM_SIZE
    }

    /// The byte that a read of `addr` returns.
    pub open spec fn read(self, addr: u16) -> u8 {
        let target = canonical(addr);
        match region(target) {
            Region::Cartridge => if self.boot && target < BIOS_SIZE {
                self.bios[target as int]
            } else {
                self.rom[target as int]
            },
            Region::Unusable => 0,
            _ => self.mem[target as int],
        }
    }

    /// The 16-bit value read at `addr`: low byte first, the high byte at the
    /// address that follows (0x0000 follows 0xFFFF).
    pub open spec fn read16(self, addr: u16) -> u16 {
        pair(self.read(addr.wrapping_add(1)), self.read(addr)) as u16
    }

    /// The bus after `value` is stored at the backing address `target`.
    pub open spec fn store(self, target: u16, value: u8) -> Bus {
        Bus { mem: self.mem.update(target as int, value), ..self }
    }

    /// The bus after the 160 bytes that start at `page * 256` are copied into
    /// object attribute memory, each byte as a read finds it before the copy.
    pub open spec fn dma(self, page: u8) -> Bus {
        Bus {
            mem: Seq::new(
                MEMORY_SIZE as nat,
                |i: int|
                    if OAM <= i < OAM + OAM_SIZE {
                        self.read((page as int * 256 + (i - OAM)) as u16)
                    } else {
                        self.mem[i]
                    },
            ),
            ..self
        }
    }

    /// The bus after a write of `value` to `addr`.
    pub open spec fn write(self, addr: u16, value: u8) -> Bus {
        let target = canonical(addr);
        if region(target) is Cartridge || region(target) is Unusable {
            self
        } else if target == DIV {
            self.store(target, 0)
        } else if target == DMA {
            self.dma(value)
        } else if target == BOOT_OFF {
            Bus { boot: false, ..self }
        } else {
            self.store(target, value)
        }
    }

    /// The bus after a 16-bit write at `addr`: the low byte goes to `addr`,
    /// then the high byte to the address that follows.
    pub open spec fn write16(self, addr: u16, value: u16) -> Bus {
        self.write(addr, low_byte(value) as u8).write(addr.wrapping_add(1), high_byte(value) as u8)
    }
}

/// The whole machine.
pub struct Machine {
    /// The memory bus.
    pub bus: Bus,
    /// The register file.
    pub regs: Registers,
    /// Set by `HALT`; cleared when an interrupt wakes the processor.
    pub halted: bool,
    /// Set by `STOP`.
    pub stopped: bool,
    /// Interrupts are enabled globally.
    pub ime: bool,
    /// Clock cycles left in the current scanline.
    pub budget: u32,
    /// The frame buffer, row-major, four channels to a pixel.
    pub frame: Seq<u8>,
    /// Frames per second that the presentation layer aims for.
    pub frame_hz: u32,
}

impl Machine {
    /// The byte spaces and the frame buffer have their fixed sizes.
    pub open spec fn wf(self) -> bool {
        &&& self.bus.wf()
        &&& self.frame.len() == FRAME_SIZE
    }

    /// The byte that a read of `addr` returns.
    pub open spec fn read(self, addr: u16) -> u8 {
        self.bus.read(addr)
    }

    /// The 16-bit value read at `addr`, low byte first.
    pub open spec fn read16(self, addr: u16) -> u16 {
        self.bus.read16(addr)
    }

    /// The machine after a write of `value` to `addr`.
    pub open spec fn write(self, addr: u16, value: u8) -> Machine {
        Machine { bus: self.bus.write(addr, value), ..self }
    }

    /// The machine after a 16-bit write at `addr`, low byte first.
    pub open spec fn write16(self, addr: u16, value: u16) -> Machine {
        Machine { bus: self.bus.write16(addr, value), ..self }
    }

    /// The machine with another register file.
    pub open spec fn with_regs(self, regs: Registers) -> Machine {
        Machine { regs, ..self }
    }

    /// The machine with other condition flags.
    pub open spec fn with_flags(self, flags: FlagsReg) -> Machine {
        Machine { regs: Registers { flags, ..self.regs }, ..self }
    }

    /// The machine with the program counter moved to `pc`.
    pub open spec fn with_pc(self, pc: u16) -> Machine {
        Machine { regs: Registers { pc, ..self.regs }, ..self }
    }

    /// The machine with the program counter `count` bytes further on.
    pub open spec fn skip(self, count: u16) -> Machine {
        self.with_pc(self.regs.pc.wrapping_add(count))
    }

    /// The machine at power-on, given what the loader read: the boot program
    /// mapped, memory zero but for the display status register and the three
    /// palettes, registers zero, a full scanline budget and a blank frame.
    pub open spec fn power_on(bios: Seq<u8>, rom: Seq<u8>) -> Machine {
        Machine {
            bus: Bus {
                mem: Seq::new(MEMORY_SIZE as nat, |i: int| 0u8).update(STAT as int, 0x84).update(
                    BGP as int,
                    0xFC,
                ).update(OBP0 as int, 0xFF).update(OBP1 as int, 0xFF),
                bios: image(bios, BIOS_SIZE as nat),
                rom: image(rom, ROM_SIZE as nat),
                boot: true,
            },
            regs: Registers {
                a: 0,
                b: 0,
                c: 0,
                d: 0,
                e: 0,
                h: 0,
                l: 0,
                sp: 0,
                pc: 0,
                flags: FlagsReg { zero: false, negative: false, half_carry: false, carry: false },
            },
            halted: false,
            stopped: false,
            ime: false,
            budget: 456,
            frame: Seq::new(FRAME_SIZE as nat, |i: int| 0u8),
            frame_hz: 60,
        }
    }
}

} // verus!
