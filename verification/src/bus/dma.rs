//! The OAM-DMA unit: it copies one page of CPU memory to sprite memory
//! while the CPU stands still.

use vstd::prelude::*;

verus! {

#[derive(Clone, Copy, Debug, PartialEq, Eq, Structural)]
pub struct Dma {
    pub dma_active: bool,
    /// First address of the page to copy.
    pub dma_addr: u16,
    /// Bytes copied so far.
    pub dma_step: u16,
    /// Idle cycles to go before the first byte.
    pub delay_ticks: u8,
}

impl Dma {
    pub open spec fn initial() -> Dma {
        Dma { dma_active: false, dma_addr: 0, dma_step: 0, delay_ticks: 0 }
    }

    /// The unit after a write of `data` to `$4014` at cycle `cycles`: the
    /// copy of page `data` waits one cycle, and one more if the cycle is
    /// odd.
    pub open spec fn started(cycles: u64, data: u8) -> Dma {
        Dma {
            dma_addr: (data * 256) as u16,
            dma_step: 0,
            dma_active: true,
            delay_ticks: if cycles % 2 != 0 { 2 } else { 1 },
        }
    }

    /// The address to copy from on the next tick, if the wait is over.
    pub open spec fn source(self) -> Option<u16> {
        if self.delay_ticks > 0 {
            None
        } else {
            Some(((self.dma_addr + self.dma_step) % 0x10000) as u16)
        }
    }

    /// The unit one tick later: it waits, or moves on by one byte and stops
    /// behind the 256th.
    pub open spec fn ticked(self) -> Dma {
        if self.delay_ticks > 0 {
            Dma { delay_ticks: (self.delay_ticks - 1) as u8, ..self }
        } else if self.dma_step >= 0xff {
            Dma { dma_step: 0x100, dma_active: false, ..self }
        } else {
            Dma { dma_step: (self.dma_step + 1) as u16, ..self }
        }
    }

    pub fn new() -> (d: Self)
        ensures
            d == Dma::initial(),
    {
        Dma { dma_active: false, dma_addr: 0, dma_step: 0, delay_ticks: 0 }
    }

    pub fn reset(&mut self)
        ensures
            *final(self) == (Dma { dma_active: false, ..*old(self) }),
    {
        self.dma_active = false;
    }

    pub fn active(&self) -> (r: bool)
        ensures
            r == self.dma_active,
    {
        self.dma_active
    }

    pub fn start(&mut self, cycles: u64, data: u8)
        ensures
            *final(self) == Dma::started(cycles, data),
    {
        self.dma_addr = data as u16 * 256;
        self.dma_step = 0;
        self.dma_active = true;
        self.delay_ticks = if cycles % 2 != 0 { 2 } else { 1 };
    }

    pub fn tick(&mut self) -> (r: Option<u16>)
        ensures
            r == old(self).source(),
            *final(self) == old(self).ticked(),
    {
        if self.delay_ticks > 0 {
            self.delay_ticks = self.delay_ticks - 1;
            None
        } else {
            let r: u16 = ((self.dma_addr as u32 + self.dma_step as u32) % 0x10000) as u16;
            if self.dma_step >= 0xff {
                self.dma_step = 0x100;
                self.dma_active = false;
            } else {
                self.dma_step = self.dma_step + 1;
            }
            Some(r)
        }
    }
}

} // verus!
