//! A step-oriented core for a Sharp LR35902 handheld console: register file,
//! memory bus, instruction engine, pixel pipeline, interrupt controller and
//! divider timer.
//!
//! Every operation of [`GBEmulator`] carries a contract over [`Machine`], the
//! mathematical model of the console. [`machine`] holds the model and the
//! address map. [`alu`] and [`isa`] say what each instruction computes;
//! [`decode`] is the step of the processor, which reads an opcode by its
//! fields; [`opcodes`] proves, row by row, that this reading gives each opcode
//! the instruction that the opcode tables name. [`gpu`], [`interrupts`] and
//! [`timers`] say what the other components do, [`schedule`] puts them in
//! order, and [`laws`] proves what holds across them.

use vstd::prelude::*;

pub mod alu;
pub mod cpu;
pub mod decode;
pub mod fault;
pub mod gpu;
pub mod interrupts;
pub mod isa;
pub mod laws;
pub mod machine;
pub mod mmu;
pub mod opcodes;
pub mod registers;
pub mod schedule;
pub mod timers;

pub use fault::Fault;
pub use machine::{Bus, Machine};
pub use registers::{FlagsReg, Registers};

use machine::{image, BGP, OBP0, OBP1, STAT};

verus! {

/// The emulated console. It owns the register file, the memory image and the
/// display timing state; the presentation layer reads `framebuffer`.
pub struct GBEmulator {
    /// The 64 KiB behind every writable region.
    pub mem: [u8; 65536],
    /// The register file.
    pub regs: Registers,
    /// The boot program is mapped over the start of the cartridge.
    pub in_bios: bool,
    /// The boot program as loaded; bytes it lacks up to 256 read as zero.
    pub bios: Vec<u8>,
    /// The cartridge as loaded; bytes it lacks up to 32 KiB read as zero.
    pub rom: Vec<u8>,
    /// Set by `STOP`.
    pub stopped: bool,
    /// Set by `HALT`, cleared when an interrupt wakes the processor.
    pub halted: bool,
    /// Interrupts are enabled globally.
    pub interrupts_en: bool,
    /// Frames per second that the presentation layer aims for.
    pub frame_hz: u32,
    /// Clock cycles left in the current scanline.
    pub gpu_frame_cycles: u32,
    /// Four channels for each pixel, row by row.
    pub framebuffer: [u8; 92160],
}

impl View for GBEmulator {
    type V = Machine;

    open spec fn view(&self) -> Machine {
        Machine {
            bus: Bus {
                mem: self.mem@,
                bios: image(self.bios@, 256),
                rom: image(self.rom@, 32768),
                boot: self.in_bios,
            },
            regs: self.regs,
            halted: self.halted,
            stopped: self.stopped,
            ime: self.interrupts_en,
            budget: self.gpu_frame_cycles,
            frame: self.framebuffer@,
            frame_hz: self.frame_hz,
        }
    }
}

impl GBEmulator {
    /// Builds the console at power-on from the boot program and the cartridge
    /// that the loader read. Bytes that either lacks read as zero; bytes beyond
    /// the mapped sizes are never read.
    pub fn new(bios: Vec<u8>, rom: Vec<u8>) -> (gb: GBEmulator)
        ensures
            gb@ == Machine::power_on(bios@, rom@),
            gb@.wf(),
    {
        let mut gb = GBEmulator {
            mem: [0; 65536],
            regs: Registers::default(),
            in_bios: true,
            bios,
            rom,
            stopped: false,
            halted: false,
            interrupts_en: false,
            frame_hz: 60,
            gpu_frame_cycles: 456,
            framebuffer: [0; 92160],
        };
        gb.mmu_write8(STAT, 0x84);
        gb.mmu_write8(BGP, 0xFC);
        gb.mmu_write8(OBP0, 0xFF);
        gb.mmu_write8(OBP1, 0xFF);
        proof {
            let start = Machine::power_on(bios@, rom@);
            assert(gb@.bus.mem =~= start.bus.mem);
            assert(gb@.frame =~= start.frame);
        }
        gb
    }

    /// The model of an emulator is well formed.
    pub proof fn lemma_view_wf(&self)
        ensures
            self@.wf(),
    {
    }
}

} // verus!
