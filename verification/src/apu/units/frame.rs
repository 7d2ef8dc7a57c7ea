//! The frame sequencer, which clocks envelopes and length counters at a
//! quarter and a half of 240 Hz.

use crate::bits::{bit_at, get_bit_u8};
use crate::{APU_FRAME_FREQUENCY, CPU_DIVIDER, MASTER_CLOCK};
use vstd::prelude::*;

verus! {

/// One CPU cycle, in the unit in which the sequencer counts time:
/// `1 / (12 * 240)` of a cycle.
pub const CYCLE_UNITS: u32 = 2880;

/// Time between two steps of the sequencer, `MASTER_CLOCK / 12 / 240` CPU
/// cycles, in the same unit: about 7457.39 cycles.
pub const FRAME_PERIOD_UNITS: u32 = 21_477_272;

#[derive(Clone, Copy, Debug, PartialEq, Eq, Structural)]
pub enum Mode {
    Step4,
    Step5,
}

/// The clocks that a tick of the sequencer hands out.
#[derive(Clone, Copy, Debug, PartialEq, Eq, Structural)]
pub struct Step {
    /// Length counters and sweeps.
    pub length: bool,
    /// Envelopes and the linear counter.
    pub envelope: bool,
}

impl Step {
    pub open spec fn none() -> Step {
        Step { length: false, envelope: false }
    }

    pub open spec fn both() -> Step {
        Step { length: true, envelope: true }
    }
}

#[derive(Clone, Copy, Debug, PartialEq, Eq, Structural)]
pub struct FrameCounter {
    /// Time to the next step, in units of `1 / CYCLE_UNITS` cycle.
    pub counter: u32,
    pub step: u8,
    pub mode: Mode,
    pub irq_on: bool,
    pub irq_level: bool,
}

impl FrameCounter {
    pub open spec fn initial() -> FrameCounter {
        FrameCounter {
            counter: FRAME_PERIOD_UNITS,
            step: 0,
            mode: Mode::Step4,
            irq_on: false,
            irq_level: false,
        }
    }

    /// Time left after one more CPU cycle.
    pub open spec fn remaining(self) -> int {
        if self.counter >= CYCLE_UNITS {
            self.counter - CYCLE_UNITS
        } else {
            0
        }
    }

    /// Whether the next tick reaches a step: less than a cycle is left.
    pub open spec fn steps(self) -> bool {
        self.remaining() < CYCLE_UNITS
    }

    /// The step that comes next.
    pub open spec fn next_step(self) -> u8 {
        match self.mode {
            Mode::Step4 => ((self.step + 1) % 4) as u8,
            Mode::Step5 => ((self.step + 1) % 5) as u8,
        }
    }

    /// The clocks of step `step`. Four-step mode: envelope on every step,
    /// length on steps 1 and 3. Five-step mode: length on steps 0 and 2,
    /// envelope on all steps but 3.
    pub open spec fn clocks_of(mode: Mode, step: u8) -> Step {
        match mode {
            Mode::Step4 => Step { length: step == 1 || step == 3, envelope: true },
            Mode::Step5 => Step { length: step == 0 || step == 2, envelope: step != 3 },
        }
    }

    /// The clocks that the next tick hands out.
    pub open spec fn clocks(self) -> Step {
        if self.steps() {
            FrameCounter::clocks_of(self.mode, self.next_step())
        } else {
            Step::none()
        }
    }

    /// The sequencer one CPU cycle later. Step 3 of four-step mode raises
    /// the interrupt line if interrupts are on.
    pub open spec fn ticked(self) -> FrameCounter {
        if self.steps() {
            FrameCounter {
                counter: (self.remaining() + FRAME_PERIOD_UNITS) as u32,
                step: self.next_step(),
                irq_level: self.irq_level || (self.mode == Mode::Step4 && self.irq_on
                    && self.next_step() == 3),
                ..self
            }
        } else {
            FrameCounter { counter: self.remaining() as u32, ..self }
        }
    }

    /// The sequencer after a write of `data` to `$4017`: bit 7 selects
    /// five-step mode, bit 6 switches interrupts off and lowers the line.
    pub open spec fn loaded(self, data: u8) -> FrameCounter {
        FrameCounter {
            step: 0,
            counter: FRAME_PERIOD_UNITS,
            mode: if bit_at(data as int, 7) { Mode::Step5 } else { Mode::Step4 },
            irq_on: !bit_at(data as int, 6),
            irq_level: self.irq_level && !bit_at(data as int, 6),
        }
    }

    pub fn new() -> (f: Self)
        ensures
            f == FrameCounter::initial(),
    {
        FrameCounter {
            counter: FRAME_PERIOD_UNITS,
            step: 0,
            mode: Mode::Step4,
            irq_on: false,
            irq_level: false,
        }
    }

    pub fn tick(&mut self) -> (step: Step)
        ensures
            step == old(self).clocks(),
            *final(self) == old(self).ticked(),
    {
        let mut step = Step { length: false, envelope: false };
        let left: u32 = if self.counter >= CYCLE_UNITS {
            self.counter - CYCLE_UNITS
        } else {
            0
        };
        if left < CYCLE_UNITS {
            match self.mode {
                Mode::Step4 => {
                    self.step = ((self.step as u16 + 1) % 4) as u8;
                    step.length = self.step == 1 || self.step == 3;
                    step.envelope = true;
                    if self.irq_on && self.step == 3 {
                        self.irq_level = true;
                    }
                },
                Mode::Step5 => {
                    self.step = ((self.step as u16 + 1) % 5) as u8;
                    step.length = self.step == 0 || self.step == 2;
                    step.envelope = self.step != 3;
                },
            }
            self.counter = left + FRAME_PERIOD_UNITS;
        } else {
            self.counter = left;
        }
        step
    }

    pub fn load(&mut self, data: u8)
        ensures
            *final(self) == old(self).loaded(data),
    {
        self.step = 0;
        self.counter = FRAME_PERIOD_UNITS;
        self.mode = if get_bit_u8(data, 7) {
            Mode::Step5
        } else {
            Mode::Step4
        };
        self.irq_on = !get_bit_u8(data, 6);
        if !self.irq_on {
            self.irq_level = false;
        }
    }

    /// Reads the interrupt line and lowers it.
    pub fn irq(&mut self) -> (r: bool)
        ensures
            r == old(self).irq_level,
            *final(self) == (FrameCounter { irq_level: false, ..*old(self) }),
    {
        let r = self.irq_level;
        self.irq_level = false;
        r
    }
}

/// The sequencer's unit of time divides both a CPU cycle and its own
/// period evenly: a cycle is `12 * 240` units long, and `240` periods
/// make a second of `MASTER_CLOCK / 12` cycles.
pub proof fn lemma_units()
    ensures
        CYCLE_UNITS == CPU_DIVIDER * APU_FRAME_FREQUENCY,
        FRAME_PERIOD_UNITS == MASTER_CLOCK,
        FRAME_PERIOD_UNITS * APU_FRAME_FREQUENCY * CPU_DIVIDER == MASTER_CLOCK * CYCLE_UNITS,
{
}

} // verus!
