//! The volume envelope of the pulse and noise channels.

use crate::apu::units::divider::Divider;
use crate::bits::{bit_at, bits_at, get_bit_u8, get_bits_u8};
use vstd::prelude::*;

verus! {

#[derive(Clone, Copy, Debug, PartialEq, Eq, Structural)]
pub struct Envelope {
    pub divider: Divider,
    /// The constant volume, which is also the decay period.
    pub volume: u8,
    /// The decay level.
    pub counter: u8,
    pub looping: bool,
    pub constant: bool,
    pub restart: bool,
}

impl Envelope {
    /// The volume that the channel plays at.
    pub open spec fn level(self) -> u8 {
        if self.constant {
            self.volume
        } else {
            self.counter
        }
    }

    /// The envelope after an envelope clock: a restart reloads level and
    /// divider; otherwise, each time the divider fires, the level decays by
    /// one and, when looping, wraps from 0 to 15.
    pub open spec fn ticked(self) -> Envelope {
        if self.restart {
            Envelope {
                restart: false,
                counter: 15,
                divider: Divider { counter: self.divider.period, ..self.divider },
                ..self
            }
        } else {
            Envelope {
                divider: self.divider.ticked(),
                counter: if !self.divider.fires() {
                    self.counter
                } else if self.counter > 0 {
                    (self.counter - 1) as u8
                } else if self.looping {
                    15
                } else {
                    0
                },
                ..self
            }
        }
    }

    /// The envelope after a load of the six low bits of a channel's first
    /// register: bit 5 loop, bit 4 constant volume, bits 0-3 volume.
    pub open spec fn loaded(self, data: u8) -> Envelope {
        let volume = bits_at(data as int, 0, 4) as u8;
        Envelope {
            looping: bit_at(data as int, 5),
            constant: bit_at(data as int, 4),
            volume,
            divider: Divider {
                period: (volume + 1) as usize,
                raw_period: (volume + 1) as usize,
                ..self.divider
            },
            ..self
        }
    }

    pub fn new() -> (e: Self)
        ensures
            e == (Envelope {
                divider: Divider { period: 0, raw_period: 0, counter: 0 },
                volume: 0,
                counter: 0,
                looping: false,
                constant: true,
                restart: false,
            }),
    {
        Envelope {
            divider: Divider::new(),
            volume: 0,
            counter: 0,
            looping: false,
            constant: true,
            restart: false,
        }
    }

    pub fn tick(&mut self)
        ensures
            *final(self) == old(self).ticked(),
    {
        if self.restart {
            self.restart = false;
            self.counter = 15;
            self.divider.reset();
        } else {
            if self.divider.tick() {
                if self.counter > 0 {
                    self.counter = self.counter - 1;
                } else if self.looping {
                    self.counter = 15;
                }
            }
        }
    }

    pub fn volume(&self) -> (r: u8)
        ensures
            r == self.level(),
    {
        if self.constant {
            self.volume
        } else {
            self.counter
        }
    }

    pub fn load(&mut self, data: u8)
        ensures
            *final(self) == old(self).loaded(data),
    {
        self.looping = get_bit_u8(data, 5);
        self.constant = get_bit_u8(data, 4);
        self.volume = get_bits_u8(data, 0, 4);
        self.divider.set_period(self.volume as usize + 1);
    }

    pub fn restart(&mut self)
        ensures
            *final(self) == (Envelope { restart: true, ..*old(self) }),
    {
        self.restart = true;
    }
}

} // verus!
