//! The triangle channel.

use crate::apu::units::divider::Divider;
use crate::apu::units::lencounter::LengthCounter;
use crate::bits::{bit_at, bits_at, get_bit_u8, get_bits_u8};
use vstd::prelude::*;

verus! {

/// The 32 steps of the waveform: down from 15 to 0 and up again.
pub const SEQ: [u8; 32] = [
    0x0f, 0x0e, 0x0d, 0x0c, 0x0b, 0x0a, 0x09, 0x08, 0x07, 0x06, 0x05, 0x04, 0x03, 0x02, 0x01, 0x00,
    0x00, 0x01, 0x02, 0x03, 0x04, 0x05, 0x06, 0x07, 0x08, 0x09, 0x0a, 0x0b, 0x0c, 0x0d, 0x0e, 0x0f,
];

#[derive(Clone, Copy, Debug, PartialEq, Eq, Structural)]
pub struct Triangle {
    pub step: usize,
    pub timer: Divider,
    pub len_counter: LengthCounter,
    /// Reload value of the linear counter.
    pub linear_len: u8,
    pub linear_counter: u8,
    pub linear_reload: bool,
    pub linear_control: bool,
}

impl Triangle {
    pub open spec fn initial() -> Triangle {
        Triangle {
            step: 0,
            timer: Divider { period: 0, raw_period: 0, counter: 0 },
            len_counter: LengthCounter { counter: 0, enabled: false, halt: false },
            linear_len: 0,
            linear_counter: 0,
            linear_reload: false,
            linear_control: false,
        }
    }

    /// The channel's output, 0 to 15.
    pub open spec fn output(self) -> u8 {
        SEQ[self.step as int % 32]
    }

    /// Whether a timer clock moves the waveform on: both counters run and
    /// the period is at least 2, which keeps ultrasonic tones silent.
    pub open spec fn advances(self) -> bool {
        self.timer.fires() && self.linear_counter != 0 && self.len_counter.counter != 0
            && self.timer.raw_period >= 2
    }

    /// The channel after a timer clock.
    pub open spec fn ticked(self) -> Triangle {
        Triangle {
            timer: self.timer.ticked(),
            step: if self.advances() { ((self.step % 32 + 1) % 32) as usize } else { self.step },
            ..self
        }
    }

    /// The channel after a length clock.
    pub open spec fn length_clocked(self) -> Triangle {
        Triangle { len_counter: self.len_counter.ticked(), ..self }
    }

    /// The channel after an envelope clock: the linear counter reloads if
    /// asked to, else counts down; the reload request ends unless the
    /// control bit holds it.
    pub open spec fn envelope_clocked(self) -> Triangle {
        Triangle {
            linear_counter: if self.linear_reload {
                self.linear_len
            } else if self.linear_counter > 0 {
                (self.linear_counter - 1) as u8
            } else {
                0
            },
            linear_reload: self.linear_reload && self.linear_control,
            ..self
        }
    }

    /// The channel after a write of `data` to its register `reg` (0-3).
    pub open spec fn written(self, reg: int, data: u8) -> Triangle {
        if reg == 0 {
            Triangle {
                len_counter: LengthCounter { halt: bit_at(data as int, 7), ..self.len_counter },
                linear_control: bit_at(data as int, 7),
                linear_len: bits_at(data as int, 0, 7) as u8,
                ..self
            }
        } else if reg == 1 {
            self
        } else if reg == 2 {
            Triangle { timer: self.timer.with_low(data), ..self }
        } else {
            Triangle {
                timer: self.timer.with_high(data),
                len_counter: self.len_counter.loaded(data),
                linear_reload: true,
                ..self
            }
        }
    }

    pub fn new() -> (t: Self)
        ensures
            t == Triangle::initial(),
    {
        Triangle {
            step: 0,
            timer: Divider::new(),
            len_counter: LengthCounter::new(),
            linear_len: 0,
            linear_counter: 0,
            linear_reload: false,
            linear_control: false,
        }
    }

    pub fn sample(&self) -> (r: u8)
        ensures
            r == self.output(),
    {
        SEQ[self.step % 32]
    }

    pub fn tick(&mut self)
        ensures
            *final(self) == old(self).ticked(),
    {
        if self.timer.tick() && self.linear_counter != 0 && self.len_counter.count() != 0 {
            if self.timer.period() >= 2 {
                self.step = (self.step % 32 + 1) % 32;
            }
        }
    }

    pub fn tick_len(&mut self)
        ensures
            *final(self) == old(self).length_clocked(),
    {
        self.len_counter.tick();
    }

    pub fn tick_eve(&mut self)
        ensures
            *final(self) == old(self).envelope_clocked(),
    {
        if self.linear_reload {
            self.linear_counter = self.linear_len;
        } else if self.linear_counter > 0 {
            self.linear_counter = self.linear_counter - 1;
        }
        if !self.linear_control {
            self.linear_reload = false;
        }
    }

    pub fn write_reg0(&mut self, data: u8)
        ensures
            *final(self) == old(self).written(0, data),
    {
        self.len_counter.set_halt(get_bit_u8(data, 7));
        self.linear_control = get_bit_u8(data, 7);
        self.linear_len = get_bits_u8(data, 0, 7);
    }

    pub fn write_reg1(&mut self, data: u8)
        ensures
            *final(self) == old(self).written(1, data),
    {
    }

    pub fn write_reg2(&mut self, data: u8)
        ensures
            *final(self) == old(self).written(2, data),
    {
        self.timer.set_period_low(data);
    }

    pub fn write_reg3(&mut self, data: u8)
        ensures
            *final(self) == old(self).written(3, data),
    {
        self.timer.set_period_high(data);
        self.len_counter.load(data);
        self.linear_reload = true;
    }

    pub fn set_enable(&mut self, enable: bool)
        ensures
            *final(self) == (Triangle {
                len_counter: old(self).len_counter.enabled_as(enable),
                ..*old(self)
            }),
    {
        self.len_counter.set_enable(enable);
    }

    pub fn enabled(&self) -> (r: bool)
        ensures
            r == (self.len_counter.counter > 0),
    {
        self.len_counter.count() > 0
    }
}

} // verus!
