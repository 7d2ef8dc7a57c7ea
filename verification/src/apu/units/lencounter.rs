//! The length counter, which silences a channel after a programmed time.

use vstd::prelude::*;

verus! {

/// Counter values that the five high bits of a channel's fourth register
/// select.
pub const LEN_TABLE: [u8; 32] = [
    0x0a, 0xfe, 0x14, 0x02, 0x28, 0x04, 0x50, 0x06, 0xa0, 0x08, 0x3c, 0x0a, 0x0e, 0x0c, 0x1a, 0x0e,
    0x0c, 0x10, 0x18, 0x12, 0x30, 0x14, 0x60, 0x16, 0xc0, 0x18, 0x48, 0x1a, 0x10, 0x1c, 0x20, 0x1e,
];

#[derive(Clone, Copy, Debug, PartialEq, Eq, Structural)]
pub struct LengthCounter {
    pub counter: u8,
    pub enabled: bool,
    pub halt: bool,
}

impl LengthCounter {
    /// 1 while the counter runs, 0 once it ran out.
    pub open spec fn gate(self) -> u8 {
        if self.counter != 0 {
            1
        } else {
            0
        }
    }

    /// The counter after a length clock.
    pub open spec fn ticked(self) -> LengthCounter {
        if !self.halt && self.counter > 0 {
            LengthCounter { counter: (self.counter - 1) as u8, ..self }
        } else {
            self
        }
    }

    /// The counter after a channel was switched on or off; a channel
    /// switched off loses its count.
    pub open spec fn enabled_as(self, enable: bool) -> LengthCounter {
        LengthCounter { enabled: enable, counter: if enable { self.counter } else { 0 }, ..self }
    }

    /// The counter after a load of register value `data`; a disabled
    /// channel ignores it.
    pub open spec fn loaded(self, data: u8) -> LengthCounter {
        if self.enabled {
            LengthCounter { counter: LEN_TABLE[data as int / 8], ..self }
        } else {
            self
        }
    }

    pub fn new() -> (c: Self)
        ensures
            c == (LengthCounter { counter: 0, enabled: false, halt: false }),
    {
        LengthCounter { counter: 0, enabled: false, halt: false }
    }

    pub fn count(&self) -> (r: u8)
        ensures
            r == self.gate(),
    {
        if self.counter != 0 {
            1
        } else {
            0
        }
    }

    pub fn tick(&mut self)
        ensures
            *final(self) == old(self).ticked(),
    {
        if !self.halt && self.counter > 0 {
            self.counter = self.counter - 1;
        }
    }

    pub fn set_enable(&mut self, enable: bool)
        ensures
            *final(self) == old(self).enabled_as(enable),
    {
        self.enabled = enable;
        if !self.enabled {
            self.counter = 0;
        }
    }

    pub fn set_halt(&mut self, halt: bool)
        ensures
            *final(self) == (LengthCounter { halt, ..*old(self) }),
    {
        self.halt = halt;
    }

    pub fn load(&mut self, data: u8)
        ensures
            *final(self) == old(self).loaded(data),
    {
        if self.enabled {
            self.counter = LEN_TABLE[(data / 8) as usize];
        }
    }
}

} // verus!
