//! The noise channel: a 15-bit linear feedback shift register.

use crate::apu::units::divider::Divider;
use crate::apu::units::envelope::Envelope;
use crate::apu::units::lencounter::LengthCounter;
use crate::bits::{bit_at, bits_at, get_bit_u16, get_bit_u8, get_bits_u8, set_bit_u16, with_bit};
use vstd::prelude::*;

verus! {

/// Timer periods that the four low bits of the third register select.
pub const PERIOD: [usize; 16] = [
    4, 8, 16, 32, 64, 96, 128, 160, 202, 254, 380, 508, 762, 1016, 2034, 4068,
];

#[derive(Clone, Copy, Debug, PartialEq, Eq, Structural)]
pub struct Noise {
    pub envelope: Envelope,
    pub len_counter: LengthCounter,
    pub timer: Divider,
    pub lfsr: u16,
    /// The bit that is combined with bit 0 for the feedback: 1 or 6.
    pub bit_index: usize,
}

impl Noise {
    pub open spec fn initial() -> Noise {
        Noise {
            envelope: Envelope {
                divider: Divider { period: 0, raw_period: 0, counter: 0 },
                volume: 0,
                counter: 0,
                looping: false,
                constant: true,
                restart: false,
            },
            len_counter: LengthCounter { counter: 0, enabled: false, halt: false },
            timer: Divider { period: 0, raw_period: 0, counter: 0 },
            lfsr: 1,
            bit_index: 1,
        }
    }

    /// The channel's output, 0 to 15: the envelope's level while bit 0 of
    /// the shift register is clear and the length counter runs.
    pub open spec fn output(self) -> u8 {
        if self.len_counter.counter != 0 && !bit_at(self.lfsr as int, 0) {
            self.envelope.level()
        } else {
            0
        }
    }

    /// The shift register one step on: bit 0 exclusive-or the tap bit
    /// enters at bit 14 as the register moves right.
    pub open spec fn shifted(self) -> u16 {
        let feed = bit_at(self.lfsr as int, 0) != bit_at(self.lfsr as int, self.bit_index as int % 16);
        with_bit(self.lfsr as int / 2, 14, feed) as u16
    }

    /// The channel after a timer clock.
    pub open spec fn ticked(self) -> Noise {
        Noise {
            timer: self.timer.ticked(),
            lfsr: if self.timer.fires() { self.shifted() } else { self.lfsr },
            ..self
        }
    }

    /// The channel after a length clock.
    pub open spec fn length_clocked(self) -> Noise {
        Noise { len_counter: self.len_counter.ticked(), ..self }
    }

    /// The channel after an envelope clock.
    pub open spec fn envelope_clocked(self) -> Noise {
        Noise { envelope: self.envelope.ticked(), ..self }
    }

    /// The channel after a write of `data` to its register `reg` (0-3).
    pub open spec fn written(self, reg: int, data: u8) -> Noise {
        if reg == 0 {
            Noise {
                len_counter: LengthCounter { halt: bit_at(data as int, 5), ..self.len_counter },
                envelope: self.envelope.loaded(bits_at(data as int, 0, 6) as u8),
                ..self
            }
        } else if reg == 1 {
            self
        } else if reg == 2 {
            let p = PERIOD[bits_at(data as int, 0, 4)];
            Noise {
                bit_index: if bit_at(data as int, 7) { 6 } else { 1 },
                timer: Divider { period: p, raw_period: p, ..self.timer },
                ..self
            }
        } else {
            Noise {
                envelope: Envelope { restart: true, ..self.envelope },
                len_counter: self.len_counter.loaded(data),
                ..self
            }
        }
    }

    pub fn new() -> (n: Self)
        ensures
            n == Noise::initial(),
    {
        Noise {
            envelope: Envelope::new(),
            len_counter: LengthCounter::new(),
            timer: Divider::new(),
            lfsr: 1,
            bit_index: 1,
        }
    }

    pub fn sample(&self) -> (r: u8)
        ensures
            r == self.output(),
    {
        if self.len_counter.count() == 1 && !get_bit_u16(self.lfsr, 0) {
            self.envelope.volume()
        } else {
            0
        }
    }

    pub fn tick(&mut self)
        ensures
            *final(self) == old(self).ticked(),
    {
        if self.timer.tick() {
            let feed: bool = get_bit_u16(self.lfsr, 0) != get_bit_u16(self.lfsr, self.bit_index % 16);
            self.lfsr = set_bit_u16(self.lfsr / 2, 14, feed);
        }
    }

    pub fn tick_len(&mut self)
        ensures
            *final(self) == old(self).length_clocked(),
    {
        self.len_counter.tick();
    }

    pub fn tick_eve(&mut self)
        ensures
            *final(self) == old(self).envelope_clocked(),
    {
        self.envelope.tick();
    }

    pub fn write_reg0(&mut self, data: u8)
        ensures
            *final(self) == old(self).written(0, data),
    {
        self.len_counter.set_halt(get_bit_u8(data, 5));
        self.envelope.load(get_bits_u8(data, 0, 6));
    }

    pub fn write_reg1(&mut self, data: u8)
        ensures
            *final(self) == old(self).written(1, data),
    {
    }

    pub fn write_reg2(&mut self, data: u8)
        ensures
            *final(self) == old(self).written(2, data),
    {
        self.bit_index = if get_bit_u8(data, 7) {
            6
        } else {
            1
        };
        self.timer.set_period(PERIOD[get_bits_u8(data, 0, 4) as usize]);
    }

    pub fn write_reg3(&mut self, data: u8)
        ensures
            *final(self) == old(self).written(3, data),
    {
        self.envelope.restart();
        self.len_counter.load(data);
    }

    pub fn set_enable(&mut self, enable: bool)
        ensures
            *final(self) == (Noise {
                len_counter: old(self).len_counter.enabled_as(enable),
                ..*old(self)
            }),
    {
        self.len_counter.set_enable(enable);
    }

    pub fn enabled(&self) -> (r: bool)
        ensures
            r == (self.len_counter.counter > 0),
    {
        self.len_counter.count() > 0
    }
}

} // verus!
