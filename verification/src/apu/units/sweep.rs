//! The sweep unit, which bends the period of a pulse channel.

use crate::apu::units::divider::Divider;
use crate::bits::{bit_at, bits_at, get_bit_u8, get_bits_u8, two_pow};
use vstd::prelude::*;

verus! {

#[derive(Clone, Copy, Debug, PartialEq, Eq, Structural)]
pub struct Sweep {
    pub divider: Divider,
    pub enable: bool,
    pub neg: bool,
    pub shift: u8,
    /// The period that the sweep aims at.
    pub shifter: usize,
    pub reload: bool,
    /// What a downward sweep subtracts beyond the shifted period: 1 on the
    /// first pulse channel, 0 on the second.
    pub channel_offset: usize,
    pub muting: bool,
}

/// The period that a sweep aims at: the period plus or minus itself shifted
/// right by `shift` (taken modulo 8); a downward sweep also subtracts
/// `offset` and stops at zero. The result stays within `usize`.
pub open spec fn sweep_target(period: usize, shift: u8, neg: bool, offset: usize) -> usize {
    let delta = period as int / two_pow(shift as int % 8);
    if neg {
        if period >= delta + offset {
            (period - delta - offset) as usize
        } else {
            0
        }
    } else {
        if period + delta <= usize::MAX {
            (period + delta) as usize
        } else {
            usize::MAX
        }
    }
}

impl Sweep {
    /// The unit with target and muting worked out for the timer's period.
    /// The channel is muted while the period is under 8 or the target over
    /// `0x7ff`.
    pub open spec fn aimed(self, timer: Divider) -> Sweep {
        let target = sweep_target(timer.raw_period, self.shift, self.neg, self.channel_offset);
        Sweep { shifter: target, muting: timer.raw_period < 8 || target > 0x7ff, ..self }
    }

    /// Whether a length clock moves the timer to the target period.
    pub open spec fn applies(self, timer: Divider) -> bool {
        self.divider.counter == 0 && self.enable && self.shift > 0 && !self.aimed(timer).muting
    }

    /// The timer after a length clock.
    pub open spec fn swept_timer(self, timer: Divider) -> Divider {
        if self.applies(timer) {
            let target = self.aimed(timer).shifter;
            Divider { period: target, raw_period: target, ..timer }
        } else {
            timer
        }
    }

    /// The unit after a length clock.
    pub open spec fn ticked(self, timer: Divider) -> Sweep {
        let a = self.aimed(timer);
        if self.divider.counter == 0 || self.reload {
            Sweep {
                reload: false,
                divider: Divider { counter: self.divider.period, ..self.divider },
                ..a
            }
        } else {
            Sweep { divider: self.divider.ticked(), ..a }
        }
    }

    /// The unit after a write of `data` to the channel's second register:
    /// bit 7 enable, bits 4-6 period, bit 3 direction, bits 0-2 shift.
    pub open spec fn loaded(self, data: u8) -> Sweep {
        let p = bits_at(data as int, 4, 7) as usize;
        Sweep {
            enable: bit_at(data as int, 7),
            divider: Divider { period: p, raw_period: p, ..self.divider },
            neg: bit_at(data as int, 3),
            shift: bits_at(data as int, 0, 3) as u8,
            reload: true,
            ..self
        }
    }

    pub fn new(channel_offset: usize) -> (s: Self)
        ensures
            s == (Sweep {
                divider: Divider { period: 0, raw_period: 0, counter: 0 },
                enable: false,
                neg: false,
                shift: 0,
                shifter: 0,
                reload: false,
                channel_offset,
                muting: false,
            }),
    {
        Sweep {
            divider: Divider::new(),
            enable: false,
            neg: false,
            shift: 0,
            shifter: 0,
            reload: false,
            channel_offset,
            muting: false,
        }
    }

    pub fn tick(&mut self, timer: &mut Divider)
        ensures
            *final(self) == old(self).ticked(*old(timer)),
            *final(timer) == old(self).swept_timer(*old(timer)),
    {
        self.sweep(timer);
        if self.divider.count() == 0 {
            if self.enable && self.shift > 0 && !self.muting {
                timer.set_period(self.shifter);
            }
        }
        if self.divider.count() == 0 || self.reload {
            self.reload = false;
            self.divider.reset();
        } else {
            self.divider.tick();
        }
    }

    /// Works out the target period and the muting.
    pub fn sweep(&mut self, timer: &Divider)
        ensures
            *final(self) == old(self).aimed(*timer),
    {
        let period: usize = timer.period();
        let k: u8 = self.shift % 8;
        let delta: usize = if k == 0 {
            period
        } else if k == 1 {
            period / 2
        } else if k == 2 {
            period / 4
        } else if k == 3 {
            period / 8
        } else if k == 4 {
            period / 16
        } else if k == 5 {
            period / 32
        } else if k == 6 {
            period / 64
        } else {
            period / 128
        };
        if self.neg {
            self.shifter = if delta <= period && self.channel_offset <= period - delta {
                period - delta - self.channel_offset
            } else {
                0
            };
        } else {
            self.shifter = if delta <= usize::MAX - period {
                period + delta
            } else {
                usize::MAX
            };
        }
        self.muting = period < 8 || self.shifter > 0x7ff;
    }

    pub fn load(&mut self, data: u8)
        ensures
            *final(self) == old(self).loaded(data),
    {
        self.enable = get_bit_u8(data, 7);
        self.divider.set_period(get_bits_u8(data, 4, 7) as usize);
        self.neg = get_bit_u8(data, 3);
        self.shift = get_bits_u8(data, 0, 3);
        self.reload = true;
    }

    pub fn muting(&self) -> (r: bool)
        ensures
            r == self.muting,
    {
        self.muting
    }
}

} // verus!
