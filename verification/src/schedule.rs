//! The order of one emulated step, and a frame's worth of steps.
//!
//! The components stay in time with one another only in this order: the
//! processor runs one instruction, the pixel pipeline and the timer advance by
//! the cycles that it took, and the interrupt controller delivers what is
//! pending before the next instruction.

use vstd::prelude::*;
use crate::GBEmulator;
use crate::fault::Fault;
use crate::decode::step;
use crate::laws::lemma_components_keep_images;
use crate::machine::Machine;

verus! {

/// Clock cycles to a frame: 154 scanlines of 456 cycles.
pub const CYCLES_PER_FRAME: u32 = 70224;

impl Machine {
    /// One emulated step: an instruction, then the display and the timer by
    /// the cycles that it took, then the delivery of an interrupt. A fault of
    /// the instruction ends the step before the display advances; a fault of
    /// the delivery ends it after.
    pub open spec fn cycle(self) -> (Machine, Result<u32, Fault>) {
        let (after, outcome) = step(self);
        match outcome {
            Err(fault) => (after, Err(fault)),
            Ok(cycles) => {
                let (served, delivery) = after.run_display(cycles).tick(cycles).deliver();
                match delivery {
                    Err(fault) => (served, Err(fault)),
                    Ok(_) => (served, Ok(cycles)),
                }
            },
        }
    }

    /// Emulated steps from `done` cycles on until `goal` cycles are reached or
    /// a fault ends the run, with the cycles that were then done. Every step
    /// takes at least four cycles; the case of none is there for the
    /// definition to end.
    pub open spec fn run_until(self, done: int, goal: int) -> (Machine, Result<int, Fault>)
        decreases (if done < goal { goal - done } else { 0 }),
    {
        if done >= goal {
            (self, Ok(done))
        } else {
            let (next, outcome) = self.cycle();
            match outcome {
                Err(fault) => (next, Err(fault)),
                Ok(cycles) => if cycles == 0 {
                    (next, Ok(done))
                } else {
                    next.run_until(done + cycles, goal)
                },
            }
        }
    }
}

impl GBEmulator {
    /// Runs one emulated step in the order that keeps the components in
    /// time, and returns the cycles that the instruction took.
    pub fn emulate_step(&mut self) -> (result: Result<u32, Fault>)
        ensures
            final(self)@ == old(self)@.cycle().0,
            result == old(self)@.cycle().1,
            result matches Ok(cycles) ==> 4 <= cycles <= 24,
            final(self)@.bus.bios == old(self)@.bus.bios,
            final(self)@.bus.rom == old(self)@.bus.rom,
    {
        let cycles = match self.cpu_run_op() {
            Ok(cycles) => cycles,
            Err(fault) => {
                return Err(fault);
            },
        };
        proof {
            lemma_components_keep_images(self@, cycles);
        }
        self.gpu_run(cycles);
        proof {
            lemma_components_keep_images(self@, cycles);
        }
        self.timers_run(cycles);
        proof {
            lemma_components_keep_images(self@, cycles);
        }
        match self.handle_irqs() {
            Ok(_) => Ok(cycles),
            Err(fault) => Err(fault),
        }
    }

    /// Runs emulated steps until a frame's worth of cycles has passed, and
    /// returns the cycles that did pass; a fault ends the run at once.
    pub fn run_frame(&mut self) -> (result: Result<u32, Fault>)
        ensures
            final(self)@ == old(self)@.run_until(0, CYCLES_PER_FRAME as int).0,
            match result {
                Ok(cycles) => old(self)@.run_until(0, CYCLES_PER_FRAME as int).1 == Ok::<
                    int,
                    Fault,
                >(cycles as int) && CYCLES_PER_FRAME <= cycles < CYCLES_PER_FRAME + 24,
                Err(fault) => old(self)@.run_until(0, CYCLES_PER_FRAME as int).1 == Err::<
                    int,
                    Fault,
                >(fault),
            },
            final(self)@.bus.bios == old(self)@.bus.bios,
            final(self)@.bus.rom == old(self)@.bus.rom,
    {
        let mut frame_cycles: u32 = 0;
        while frame_cycles < CYCLES_PER_FRAME
            invariant
                frame_cycles < CYCLES_PER_FRAME + 24,
                self@.bus.bios == old(self)@.bus.bios,
                self@.bus.rom == old(self)@.bus.rom,
                old(self)@.run_until(0, CYCLES_PER_FRAME as int) == self@.run_until(
                    frame_cycles as int,
                    CYCLES_PER_FRAME as int,
                ),
            decreases CYCLES_PER_FRAME + 24 - frame_cycles,
        {
            match self.emulate_step() {
                Ok(cycles) => {
                    frame_cycles += cycles;
                },
                Err(fault) => {
                    return Err(fault);
                },
            }
        }
        Ok(frame_cycles)
    }
}

} // verus!
