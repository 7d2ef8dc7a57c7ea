//! The two pulse channels.

use crate::apu::units::divider::Divider;
use crate::apu::units::envelope::Envelope;
use crate::apu::units::lencounter::LengthCounter;
use crate::apu::units::sweep::Sweep;
use crate::bits::{bit_at, bits_at, get_bit_u8, get_bits_u8};
use vstd::prelude::*;

verus! {

/// The four duty cycles as eight steps each.
pub const DUTY: [[u8; 8]; 4] = [
    [0, 1, 0, 0, 0, 0, 0, 0],
    [0, 1, 1, 0, 0, 0, 0, 0],
    [0, 1, 1, 1, 1, 0, 0, 0],
    [1, 0, 0, 1, 1, 1, 1, 1],
];

#[derive(Clone, Copy, Debug, PartialEq, Eq, Structural)]
pub struct Pulse {
    pub len_counter: LengthCounter,
    pub envelope: Envelope,
    pub sweep: Sweep,
    pub timer: Divider,
    pub duty: usize,
    pub step: usize,
}

impl Pulse {
    /// A silent channel. The first channel's sweep subtracts one more on
    /// its way down than the second's.
    pub open spec fn initial(channel2: bool) -> Pulse {
        Pulse {
            len_counter: LengthCounter { counter: 0, enabled: false, halt: false },
            envelope: Envelope {
                divider: Divider { period: 0, raw_period: 0, counter: 0 },
                volume: 0,
                counter: 0,
                looping: false,
                constant: true,
                restart: false,
            },
            sweep: Sweep {
                divider: Divider { period: 0, raw_period: 0, counter: 0 },
                enable: false,
                neg: false,
                shift: 0,
                shifter: 0,
                reload: false,
                channel_offset: if channel2 { 0 } else { 1 },
                muting: false,
            },
            timer: Divider { period: 0, raw_period: 0, counter: 0 },
            duty: 0,
            step: 0,
        }
    }

    /// The channel's output, 0 to 15: the envelope's level while the duty
    /// step is high, the length counter runs and the sweep does not mute.
    pub open spec fn output(self) -> u8 {
        if DUTY[self.duty as int % 4][self.step as int % 8] == 1 && self.len_counter.counter != 0
            && !self.sweep.muting {
            self.envelope.level()
        } else {
            0
        }
    }

    /// The channel after a timer clock.
    pub open spec fn ticked(self) -> Pulse {
        Pulse {
            timer: self.timer.ticked(),
            step: if self.timer.fires() { ((self.step % 8 + 1) % 8) as usize } else { self.step },
            ..self
        }
    }

    /// The channel after a length clock.
    pub open spec fn length_clocked(self) -> Pulse {
        Pulse {
            len_counter: self.len_counter.ticked(),
            sweep: self.sweep.ticked(self.timer),
            timer: self.sweep.swept_timer(self.timer),
            ..self
        }
    }

    /// The channel after an envelope clock.
    pub open spec fn envelope_clocked(self) -> Pulse {
        Pulse { envelope: self.envelope.ticked(), ..self }
    }

    /// The channel after a write of `data` to its register `reg` (0-3).
    pub open spec fn written(self, reg: int, data: u8) -> Pulse {
        if reg == 0 {
            Pulse {
                duty: bits_at(data as int, 6, 8) as usize,
                len_counter: LengthCounter { halt: bit_at(data as int, 5), ..self.len_counter },
                envelope: self.envelope.loaded(bits_at(data as int, 0, 6) as u8),
                ..self
            }
        } else if reg == 1 {
            Pulse { sweep: self.sweep.loaded(data), ..self }
        } else if reg == 2 {
            Pulse { timer: self.timer.with_low(data), ..self }
        } else {
            Pulse {
                envelope: Envelope { restart: true, ..self.envelope },
                len_counter: self.len_counter.loaded(data),
                step: 0,
                timer: self.timer.with_high(data),
                ..self
            }
        }
    }

    pub fn new(channel2: bool) -> (p: Self)
        ensures
            p == Pulse::initial(channel2),
    {
        Pulse {
            len_counter: LengthCounter::new(),
            envelope: Envelope::new(),
            sweep: Sweep::new(if channel2 { 0 } else { 1 }),
            timer: Divider::new(),
            duty: 0,
            step: 0,
        }
    }

    pub fn sample(&self) -> (r: u8)
        ensures
            r == self.output(),
    {
        let duty: u8 = DUTY[self.duty % 4][self.step % 8];
        if duty == 1 && self.len_counter.count() == 1 && !self.sweep.muting() {
            self.envelope.volume()
        } else {
            0
        }
    }

    pub fn tick(&mut self)
        ensures
            *final(self) == old(self).ticked(),
    {
        if self.timer.tick() {
            self.step = (self.step % 8 + 1) % 8;
        }
    }

    pub fn tick_len(&mut self)
        ensures
            *final(self) == old(self).length_clocked(),
    {
        self.len_counter.tick();
        self.sweep.tick(&mut self.timer);
    }

    pub fn tick_eve(&mut self)
        ensures
            *final(self) == old(self).envelope_clocked(),
    {
        self.envelope.tick();
    }

    pub fn write_reg0(&mut self, data: u8)
        ensures
            *final(self) == old(self).written(0, data),
    {
        self.duty = get_bits_u8(data, 6, 8) as usize;
        self.len_counter.set_halt(get_bit_u8(data, 5));
        self.envelope.load(get_bits_u8(data, 0, 6));
    }

    pub fn write_reg1(&mut self, data: u8)
        ensures
            *final(self) == old(self).written(1, data),
    {
        self.sweep.load(data);
    }

    pub fn write_reg2(&mut self, data: u8)
        ensures
            *final(self) == old(self).written(2, data),
    {
        self.timer.set_period_low(data);
    }

    pub fn write_reg3(&mut self, data: u8)
        ensures
            *final(self) == old(self).written(3, data),
    {
        self.envelope.restart();
        self.len_counter.load(data);
        self.step = 0;
        self.timer.set_period_high(data);
    }

    pub fn set_enable(&mut self, enable: bool)
        ensures
            *final(self) == (Pulse {
                len_counter: old(self).len_counter.enabled_as(enable),
                ..*old(self)
            }),
    {
        self.len_counter.set_enable(enable);
    }

    pub fn enabled(&self) -> (r: bool)
        ensures
            r == (self.len_counter.counter > 0),
    {
        self.len_counter.count() > 0
    }
}

} // verus!
