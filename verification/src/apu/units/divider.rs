//! A down-counter that fires and reloads when it runs out.

use vstd::prelude::*;

verus! {

#[derive(Clone, Copy, Debug, PartialEq, Eq, Structural)]
pub struct Divider {
    /// Reload value of the counter.
    pub period: usize,
    /// The period as the channel's registers hold it.
    pub raw_period: usize,
    pub counter: usize,
}

impl Divider {
    /// Whether the next tick fires.
    pub open spec fn fires(self) -> bool {
        self.counter <= 1
    }

    /// The divider one tick later: it reloads when it fires.
    pub open spec fn ticked(self) -> Divider {
        if self.fires() {
            Divider { counter: self.period, ..self }
        } else {
            Divider { counter: (self.counter - 1) as usize, ..self }
        }
    }

    /// The divider with the low byte of its 16-bit raw period replaced.
    pub open spec fn with_low(self, data: u8) -> Divider {
        let raw = (self.raw_period / 256 % 256) * 256 + data;
        Divider { raw_period: raw as usize, period: (raw + 1) as usize, ..self }
    }

    /// The divider with bits 8-10 of its raw period replaced by the three
    /// low bits of `data`; the low byte stays, higher bits are cleared.
    pub open spec fn with_high(self, data: u8) -> Divider {
        let raw = self.raw_period % 256 + (data % 8) * 256;
        Divider { raw_period: raw as usize, period: (raw + 1) as usize, ..self }
    }

    pub fn new() -> (d: Self)
        ensures
            d == (Divider { period: 0, raw_period: 0, counter: 0 }),
    {
        Divider { period: 0, raw_period: 0, counter: 0 }
    }

    /// Counts down by one; returns whether the divider fired.
    pub fn tick(&mut self) -> (fired: bool)
        ensures
            fired == old(self).fires(),
            *final(self) == old(self).ticked(),
    {
        if self.counter <= 1 {
            self.counter = self.period;
            true
        } else {
            self.counter = self.counter - 1;
            false
        }
    }

    pub fn reset(&mut self)
        ensures
            *final(self) == (Divider { counter: old(self).period, ..*old(self) }),
    {
        self.counter = self.period;
    }

    pub fn set_period(&mut self, period: usize)
        ensures
            *final(self) == (Divider { period, raw_period: period, ..*old(self) }),
    {
        self.period = period;
        self.raw_period = period;
    }

    pub fn set_raw_period(&mut self, period: usize)
        requires
            period < usize::MAX,
        ensures
            *final(self) == (Divider {
                period: (period + 1) as usize,
                raw_period: period,
                ..*old(self)
            }),
    {
        self.raw_period = period;
        self.period = period + 1;
    }

    pub fn set_period_low(&mut self, data: u8)
        ensures
            *final(self) == old(self).with_low(data),
    {
        let raw: usize = (self.raw_period / 256 % 256) * 256 + data as usize;
        self.raw_period = raw;
        self.period = raw + 1;
    }

    pub fn set_period_high(&mut self, data: u8)
        ensures
            *final(self) == old(self).with_high(data),
    {
        let raw: usize = self.raw_period % 256 + (data % 8) as usize * 256;
        self.raw_period = raw;
        self.period = raw + 1;
    }

    /// The raw period.
    pub fn period(&self) -> (r: usize)
        ensures
            r == self.raw_period,
    {
        self.raw_period
    }

    pub fn count(&self) -> (r: usize)
        ensures
            r == self.counter,
    {
        self.counter
    }
}

} // verus!
