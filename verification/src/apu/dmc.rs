//! The delta modulation channel, which plays 1-bit samples from PRG space.

use crate::apu::units::divider::Divider;
use crate::bits::{bit_at, bits_at, get_bit_u8, get_bits_u8};
use vstd::prelude::*;

verus! {

/// CPU cycles per output bit that the four low bits of the first register
/// select.
pub const RATE: [usize; 16] = [
    428, 380, 340, 320, 286, 254, 226, 214, 190, 160, 142, 128, 106, 84, 72, 54,
];

#[derive(Clone, Copy, Debug, PartialEq, Eq, Structural)]
pub struct Dmc {
    pub irq_on: bool,
    pub irq_level: bool,
    pub looping: bool,
    pub sample_start_address: u16,
    pub sample_address: u16,
    pub sample_len: u16,
    pub sample_remain: u16,
    /// Address of a sample byte that the channel asks the bus for.
    pub sample_request: Option<u16>,
    pub timer: Divider,
    pub bits_shifter: u8,
    pub bits_remain: u8,
    pub output: u8,
}

impl Dmc {
    pub open spec fn initial() -> Dmc {
        Dmc {
            irq_on: false,
            irq_level: false,
            looping: false,
            sample_start_address: 0,
            sample_address: 0,
            sample_len: 0,
            sample_remain: 0,
            sample_request: None,
            timer: Divider { period: 0, raw_period: 0, counter: 0 },
            bits_shifter: 0,
            bits_remain: 0,
            output: 0,
        }
    }

    /// The channel with the sample started over.
    pub open spec fn restarted(self) -> Dmc {
        Dmc { sample_remain: self.sample_len, sample_address: self.sample_start_address, ..self }
    }

    /// Whether the channel asks for the next sample byte: bytes are left
    /// and the bit buffer is empty.
    pub open spec fn wants_byte(self) -> bool {
        self.sample_remain > 0 && self.bits_remain == 0
    }

    /// The channel after it asked for the byte at the sample address. The
    /// address moves on and wraps from `$FFFF` to `$8000`; after the last
    /// byte the sample starts over if looping, else the interrupt line
    /// rises if interrupts are on.
    pub open spec fn requested(self) -> Dmc {
        let moved = Dmc {
            sample_request: Some(self.sample_address),
            sample_address: if self.sample_address == 0xffff {
                0x8000
            } else {
                (self.sample_address + 1) as u16
            },
            sample_remain: (self.sample_remain - 1) as u16,
            ..self
        };
        if moved.sample_remain != 0 {
            moved
        } else if self.looping {
            moved.restarted()
        } else {
            Dmc { irq_level: self.irq_level || self.irq_on, ..moved }
        }
    }

    /// The output level after a bit: a 1 raises it by 2 up to 127, a 0
    /// lowers it by 2 down to 0.
    pub open spec fn level_after(output: u8, bit: bool) -> u8 {
        if bit {
            if output <= 125 {
                (output + 2) as u8
            } else {
                output
            }
        } else {
            if output >= 2 {
                (output - 2) as u8
            } else {
                output
            }
        }
    }

    /// The channel with the next bit of the buffer played.
    pub open spec fn bit_played(self) -> Dmc {
        if self.bits_remain > 0 {
            Dmc {
                output: Dmc::level_after(self.output, bit_at(self.bits_shifter as int, 0)),
                bits_shifter: self.bits_shifter / 2,
                bits_remain: (self.bits_remain - 1) as u8,
                ..self
            }
        } else {
            self
        }
    }

    /// The channel after a timer clock.
    pub open spec fn ticked(self) -> Dmc {
        let a = if self.wants_byte() { self.requested() } else { self };
        let b = if a.timer.fires() { a.bit_played() } else { a };
        Dmc { timer: a.timer.ticked(), ..b }
    }

    /// The channel after a write of `data` to its register `reg` (0-3).
    pub open spec fn written(self, reg: int, data: u8) -> Dmc {
        if reg == 0 {
            let p = RATE[bits_at(data as int, 0, 4)] / 2;
            Dmc {
                irq_on: bit_at(data as int, 7),
                looping: bit_at(data as int, 6),
                timer: Divider { period: p, raw_period: p, ..self.timer },
                irq_level: self.irq_level && bit_at(data as int, 7),
                ..self
            }
        } else if reg == 1 {
            Dmc { output: (data % 128) as u8, ..self }
        } else if reg == 2 {
            Dmc { sample_start_address: (0xc000 + data * 64) as u16, ..self }
        } else {
            Dmc { sample_len: (data * 16 + 1) as u16, ..self }
        }
    }

    /// The channel after it was switched on or off: switching off drops
    /// the rest of the sample, switching on starts a finished sample over;
    /// either lowers the interrupt line.
    pub open spec fn enabled_as(self, enable: bool) -> Dmc {
        let a = if !enable {
            Dmc { sample_remain: 0, ..self }
        } else if self.sample_remain == 0 {
            self.restarted()
        } else {
            self
        };
        Dmc { irq_level: false, ..a }
    }

    pub fn new() -> (d: Self)
        ensures
            d == Dmc::initial(),
    {
        Dmc {
            irq_on: false,
            irq_level: false,
            looping: false,
            sample_start_address: 0,
            sample_address: 0,
            sample_len: 0,
            sample_remain: 0,
            sample_request: None,
            timer: Divider::new(),
            bits_shifter: 0,
            bits_remain: 0,
            output: 0,
        }
    }

    /// Takes the pending request for a sample byte, if there is one.
    pub fn read_sample(&mut self) -> (r: Option<u16>)
        ensures
            r == old(self).sample_request,
            *final(self) == (Dmc { sample_request: None, ..*old(self) }),
    {
        let r = self.sample_request;
        self.sample_request = None;
        r
    }

    /// Hands the channel the sample byte it asked for.
    pub fn write_sample(&mut self, data: u8)
        ensures
            *final(self) == (Dmc { bits_shifter: data, bits_remain: 8, ..*old(self) }),
    {
        self.bits_shifter = data;
        self.bits_remain = 8;
    }

    pub fn irq(&self) -> (r: bool)
        ensures
            r == self.irq_level,
    {
        self.irq_level
    }

    pub fn restart(&mut self)
        ensures
            *final(self) == old(self).restarted(),
    {
        self.sample_remain = self.sample_len;
        self.sample_address = self.sample_start_address;
    }

    pub fn sample(&self) -> (r: u8)
        ensures
            r == self.output,
    {
        self.output
    }

    pub fn tick(&mut self)
        ensures
            *final(self) == old(self).ticked(),
    {
        if self.sample_remain > 0 && self.bits_remain == 0 {
            self.sample_request = Some(self.sample_address);
            if self.sample_address == 0xffff {
                self.sample_address = 0x8000;
            } else {
                self.sample_address = self.sample_address + 1;
            }
            self.sample_remain = self.sample_remain - 1;
            if self.sample_remain == 0 {
                if self.looping {
                    self.restart();
                } else if self.irq_on {
                    self.irq_level = true;
                }
            }
        }
        if self.timer.tick() {
            if self.bits_remain > 0 {
                if get_bit_u8(self.bits_shifter, 0) {
                    if self.output <= 125 {
                        self.output = self.output + 2;
                    }
                } else {
                    if self.output >= 2 {
                        self.output = self.output - 2;
                    }
                }
                self.bits_shifter = self.bits_shifter / 2;
                self.bits_remain = self.bits_remain - 1;
            }
        }
    }

    pub fn tick_len(&mut self)
        ensures
            *final(self) == *old(self),
    {
    }

    pub fn tick_eve(&mut self)
        ensures
            *final(self) == *old(self),
    {
    }

    pub fn write_reg0(&mut self, data: u8)
        ensures
            *final(self) == old(self).written(0, data),
    {
        self.irq_on = get_bit_u8(data, 7);
        self.looping = get_bit_u8(data, 6);
        self.timer.set_period(RATE[get_bits_u8(data, 0, 4) as usize] / 2);
        if !self.irq_on {
            self.irq_level = false;
        }
    }

    pub fn write_reg1(&mut self, data: u8)
        ensures
            *final(self) == old(self).written(1, data),
    {
        self.output = data % 128;
    }

    pub fn write_reg2(&mut self, data: u8)
        ensures
            *final(self) == old(self).written(2, data),
    {
        self.sample_start_address = 0xc000 + data as u16 * 64;
    }

    pub fn write_reg3(&mut self, data: u8)
        ensures
            *final(self) == old(self).written(3, data),
    {
        self.sample_len = data as u16 * 16 + 1;
    }

    pub fn set_enable(&mut self, enable: bool)
        ensures
            *final(self) == old(self).enabled_as(enable),
    {
        if !enable {
            self.sample_remain = 0;
        } else {
            if self.sample_remain == 0 {
                self.restart();
            }
        }
        self.irq_level = false;
    }

    pub fn enabled(&self) -> (r: bool)
        ensures
            r == (self.sample_remain > 0),
    {
        self.sample_remain > 0
    }
}

} // verus!
