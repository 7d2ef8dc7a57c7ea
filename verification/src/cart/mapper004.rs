//! MMC3: four 8 KB PRG windows, eight 1 KB CHR windows and a scanline
//! counter that raises an interrupt.

use crate::bits::{bit_at, bits_at, get_bit_u8, get_bits_u8};
use crate::cart::{rom_byte, Mirroring};
use vstd::array::spec_array_update;
use vstd::prelude::*;

verus! {

#[derive(Clone, Copy, Debug, PartialEq, Eq, Structural)]
pub enum PrgMode {
    /// `$8000` switchable, `$C000` fixed to the second-last bank.
    SwapLow,
    /// `$C000` switchable, `$8000` fixed to the second-last bank.
    SwapHigh,
}

#[derive(Clone, Copy, Debug, PartialEq, Eq, Structural)]
pub enum ChrMode {
    /// The two 2 KB windows sit at `$0000`.
    Low2KB,
    /// The two 2 KB windows sit at `$1000`.
    High2KB,
}

pub struct Mapper004 {
    /// 8 KB bank shown in each of the four PRG windows.
    pub prg_banks: [u16; 4],
    /// 1 KB bank shown in each of the eight CHR windows.
    pub chr_banks: [u16; 8],
    /// Number of 8 KB PRG banks on the cartridge.
    pub prg_max: u16,
    pub bank_reg: u8,
    pub bank_regs: [u8; 8],
    pub prg_mode: PrgMode,
    pub chr_mode: ChrMode,
    pub irq_latch: u8,
    pub irq_counter: u8,
    pub irq_on: bool,
    pub irq_level: bool,
    pub mirroring: Mirroring,
}

/// A PRG bank register as a bank index: six bits, wrapped on the bank count.
pub open spec fn prg_select(reg: u8, prg_max: u16) -> u16 {
    if prg_max == 0 {
        0
    } else {
        ((reg as int % 64) % (prg_max as int)) as u16
    }
}

/// `prg_max - k`, held at zero.
pub open spec fn from_last(prg_max: u16, k: u16) -> u16 {
    if prg_max >= k {
        (prg_max - k) as u16
    } else {
        0
    }
}

/// The even 1 KB bank of a 2 KB CHR register.
pub open spec fn even_bank(reg: u8) -> u16 {
    (reg as int / 2 * 2) as u16
}

impl Mapper004 {
    /// The power-on state for a cartridge of `prg_banks` 16 KB banks.
    pub open spec fn initial(mirroring: Mirroring, prg_banks: int) -> Mapper004 {
        Mapper004 {
            prg_banks: [0u16, 1u16, (prg_banks * 2 - 2) as u16, (prg_banks * 2 - 1) as u16],
            chr_banks: [0u16, 0u16, 0u16, 0u16, 0u16, 0u16, 0u16, 0u16],
            prg_max: (prg_banks * 2) as u16,
            bank_reg: 0,
            bank_regs: [0u8, 0u8, 0u8, 0u8, 0u8, 0u8, 0u8, 0u8],
            prg_mode: PrgMode::SwapLow,
            chr_mode: ChrMode::Low2KB,
            irq_latch: 0,
            irq_counter: 0,
            irq_on: false,
            irq_level: false,
            mirroring,
        }
    }

    /// The four PRG windows that the registers and the PRG mode select.
    pub open spec fn prg_layout(self) -> [u16; 4] {
        let r6 = prg_select(self.bank_regs[6], self.prg_max);
        let r7 = prg_select(self.bank_regs[7], self.prg_max);
        let second_last = from_last(self.prg_max, 2);
        let last = from_last(self.prg_max, 1);
        match self.prg_mode {
            PrgMode::SwapLow => [r6, r7, second_last, last],
            PrgMode::SwapHigh => [second_last, r7, r6, last],
        }
    }

    /// The eight CHR windows that the registers and the CHR mode select.
    pub open spec fn chr_layout(self) -> [u16; 8] {
        let r = self.bank_regs;
        let a0 = even_bank(r[0]);
        let a1 = even_bank(r[1]);
        match self.chr_mode {
            ChrMode::Low2KB => [
                a0,
                (a0 + 1) as u16,
                a1,
                (a1 + 1) as u16,
                r[2] as u16,
                r[3] as u16,
                r[4] as u16,
                r[5] as u16,
            ],
            ChrMode::High2KB => [
                r[2] as u16,
                r[3] as u16,
                r[4] as u16,
                r[5] as u16,
                a0,
                (a0 + 1) as u16,
                a1,
                (a1 + 1) as u16,
            ],
        }
    }

    /// The mapper with its windows brought in line with the registers.
    pub open spec fn refreshed(self) -> Mapper004 {
        Mapper004 { prg_banks: self.prg_layout(), chr_banks: self.chr_layout(), ..self }
    }

    /// The mapper after a write of `data` to the bank-select pair at
    /// `$8000` (even) or `$8001` (odd).
    pub open spec fn selected(self, addr: u16, data: u8) -> Mapper004 {
        if addr % 2 == 0 {
            (Mapper004 {
                bank_reg: bits_at(data as int, 0, 3) as u8,
                prg_mode: if bit_at(data as int, 6) { PrgMode::SwapHigh } else { PrgMode::SwapLow },
                chr_mode: if bit_at(data as int, 7) { ChrMode::High2KB } else { ChrMode::Low2KB },
                ..self
            }).refreshed()
        } else {
            (Mapper004 {
                bank_regs: spec_array_update(self.bank_regs, self.bank_reg as int % 8, data),
                ..self
            }).refreshed()
        }
    }

    /// The mapper after a CPU write of `data` to `addr`.
    pub open spec fn written(self, addr: u16, data: u8) -> Mapper004 {
        if addr < 0xa000 {
            self.selected(addr, data)
        } else if addr < 0xc000 {
            if addr % 2 == 0 {
                Mapper004 {
                    mirroring: if bit_at(data as int, 0) {
                        Mirroring::Horizontal
                    } else {
                        Mirroring::Vertical
                    },
                    ..self
                }
            } else {
                self
            }
        } else if addr < 0xe000 {
            if addr % 2 == 0 {
                Mapper004 { irq_latch: data, ..self }
            } else {
                Mapper004 { irq_counter: 0, ..self }
            }
        } else {
            if addr % 2 == 0 {
                Mapper004 { irq_on: false, irq_level: false, ..self }
            } else {
                Mapper004 { irq_on: true, ..self }
            }
        }
    }

    /// The counter and interrupt line after a scanline: a counter at zero
    /// reloads from the latch; otherwise it counts down and, on reaching
    /// zero with interrupts enabled, raises the line.
    pub open spec fn scanline_passed(self) -> Mapper004 {
        if self.irq_counter == 0 {
            Mapper004 { irq_counter: self.irq_latch, ..self }
        } else {
            Mapper004 {
                irq_counter: (self.irq_counter - 1) as u8,
                irq_level: self.irq_level || (self.irq_on && self.irq_counter == 1),
                ..self
            }
        }
    }

    /// Offset into PRG-ROM of the byte seen at `addr`.
    pub open spec fn prg_offset(self, addr: u16) -> int {
        addr % 0x2000 + self.prg_banks[((addr / 0x2000) % 4) as int] * 0x2000
    }

    /// Offset into CHR-ROM of the byte seen at `addr`.
    pub open spec fn chr_offset(self, addr: u16) -> int {
        addr % 0x400 + self.chr_banks[((addr / 0x400) % 8) as int] * 0x400
    }

    pub fn new(mirroring: Mirroring, prg_banks: usize) -> (m: Self)
        requires
            1 <= prg_banks <= 256,
        ensures
            m == Mapper004::initial(mirroring, prg_banks as int),
    {
        let prg_max: u16 = (prg_banks * 2) as u16;
        Mapper004 {
            prg_banks: [0, 1, prg_max - 2, prg_max - 1],
            chr_banks: [0, 0, 0, 0, 0, 0, 0, 0],
            prg_max,
            bank_reg: 0,
            bank_regs: [0, 0, 0, 0, 0, 0, 0, 0],
            prg_mode: PrgMode::SwapLow,
            chr_mode: ChrMode::Low2KB,
            irq_latch: 0,
            irq_counter: 0,
            irq_on: false,
            irq_level: false,
            mirroring,
        }
    }

    fn select(&self, reg: u8) -> (r: u16)
        ensures
            r == prg_select(reg, self.prg_max),
    {
        if self.prg_max == 0 {
            0
        } else {
            (reg % 64) as u16 % self.prg_max
        }
    }

    fn back(&self, k: u16) -> (r: u16)
        ensures
            r == from_last(self.prg_max, k),
    {
        if self.prg_max >= k {
            self.prg_max - k
        } else {
            0
        }
    }

    /// Refreshes the cached PRG and CHR windows from the registers.
    pub fn update_banks(&mut self)
        ensures
            *final(self) == old(self).refreshed(),
    {
        let r6: u16 = self.select(self.bank_regs[6]);
        let r7: u16 = self.select(self.bank_regs[7]);
        let second_last: u16 = self.back(2);
        let last: u16 = self.back(1);
        match self.prg_mode {
            PrgMode::SwapLow => {
                self.prg_banks = [r6, r7, second_last, last];
            },
            PrgMode::SwapHigh => {
                self.prg_banks = [second_last, r7, r6, last];
            },
        }
        let a0: u16 = (self.bank_regs[0] / 2 * 2) as u16;
        let a1: u16 = (self.bank_regs[1] / 2 * 2) as u16;
        let r2: u16 = self.bank_regs[2] as u16;
        let r3: u16 = self.bank_regs[3] as u16;
        let r4: u16 = self.bank_regs[4] as u16;
        let r5: u16 = self.bank_regs[5] as u16;
        match self.chr_mode {
            ChrMode::Low2KB => {
                self.chr_banks = [a0, a0 + 1, a1, a1 + 1, r2, r3, r4, r5];
            },
            ChrMode::High2KB => {
                self.chr_banks = [r2, r3, r4, r5, a0, a0 + 1, a1, a1 + 1];
            },
        }
    }

    /// A write to the bank-select pair, followed by a refresh of the windows.
    pub fn bank_select(&mut self, addr: u16, data: u8)
        ensures
            *final(self) == old(self).selected(addr, data),
    {
        if addr % 2 == 0 {
            self.bank_reg = get_bits_u8(data, 0, 3);
            self.prg_mode = if get_bit_u8(data, 6) {
                PrgMode::SwapHigh
            } else {
                PrgMode::SwapLow
            };
            self.chr_mode = if get_bit_u8(data, 7) {
                ChrMode::High2KB
            } else {
                ChrMode::Low2KB
            };
        } else {
            let i: usize = (self.bank_reg % 8) as usize;
            self.bank_regs[i] = data;
            assert(self.bank_regs =~= spec_array_update(old(self).bank_regs, i as int, data));
        }
        self.update_banks();
    }

    pub fn read_prg(&self, prg: &[u8], addr: u16) -> (r: u8)
        ensures
            r == rom_byte(prg@, self.prg_offset(addr)),
    {
        let index: usize = ((addr / 0x2000) % 4) as usize;
        let off: usize = (addr % 0x2000) as usize + self.prg_banks[index] as usize * 0x2000;
        if off < prg.len() {
            prg[off]
        } else {
            0
        }
    }

    pub fn write_prg(&mut self, addr: u16, data: u8)
        requires
            addr >= 0x8000,
        ensures
            *final(self) == old(self).written(addr, data),
    {
        if addr < 0xa000 {
            self.bank_select(addr, data);
        } else if addr < 0xc000 {
            if addr % 2 == 0 {
                self.mirroring = if get_bit_u8(data, 0) {
                    Mirroring::Horizontal
                } else {
                    Mirroring::Vertical
                };
            }
        } else if addr < 0xe000 {
            if addr % 2 == 0 {
                self.irq_latch = data;
            } else {
                self.irq_counter = 0;
            }
        } else {
            self.irq_on = addr % 2 != 0;
            if !self.irq_on {
                self.irq_level = false;
            }
        }
    }

    pub fn read_chr(&self, chr: &[u8], addr: u16) -> (r: u8)
        ensures
            r == rom_byte(chr@, self.chr_offset(addr)),
    {
        let index: usize = ((addr / 0x400) % 8) as usize;
        let off: usize = (addr % 0x400) as usize + self.chr_banks[index] as usize * 0x400;
        if off < chr.len() {
            chr[off]
        } else {
            0
        }
    }

    pub fn update_scanline(&mut self)
        ensures
            *final(self) == old(self).scanline_passed(),
    {
        if self.irq_counter == 0 {
            self.irq_counter = self.irq_latch;
        } else {
            self.irq_counter = self.irq_counter - 1;
            if self.irq_on && self.irq_counter == 0 {
                self.irq_level = true;
            }
        }
    }

    /// Reads the interrupt line and lowers it.
    pub fn poll_irq(&mut self) -> (r: bool)
        ensures
            r == old(self).irq_level,
            *final(self) == (Mapper004 { irq_level: false, ..*old(self) }),
    {
        let r = self.irq_level;
        self.irq_level = false;
        r
    }

    pub fn mirroring(&self) -> (m: Mirroring)
        ensures
            m == self.mirroring,
    {
        self.mirroring
    }
}

/// After register 6 was selected in the low PRG mode and `data` written
/// to it, the window at `$8000-$9FFF` shows the 8 KB bank that the six low
/// bits of `data` name, wrapped on the number of banks.
pub proof fn lemma_prg_round_trip(m: Mapper004, data: u8, addr: u16)
    requires
        m.prg_max > 0,
        0x8000 <= addr < 0xa000,
    ensures
        m.written(0x8000, 6).written(0x8001, data).prg_offset(addr) == ((data as int % 64) % (
        m.prg_max as int)) * 0x2000 + (addr - 0x8000),
{
    let a = m.written(0x8000, 6);
    assert(a.bank_reg == 6 && a.prg_mode == PrgMode::SwapLow && a.prg_max == m.prg_max);
    let b = a.written(0x8001, data);
    assert(b.bank_regs[6] == data);
    assert(b.prg_banks[0] == prg_select(data, m.prg_max));
}

/// After register 2 was selected in the low CHR mode and `data` written
/// to it, the window at `$1000-$13FF` shows the 1 KB bank `data`.
pub proof fn lemma_chr_round_trip(m: Mapper004, data: u8, addr: u16)
    requires
        0x1000 <= addr < 0x1400,
    ensures
        m.written(0x8000, 2).written(0x8001, data).chr_offset(addr) == data * 0x400 + (addr
            - 0x1000),
{
    let a = m.written(0x8000, 2);
    assert(a.bank_reg == 2 && a.chr_mode == ChrMode::Low2KB);
    let b = a.written(0x8001, data);
    assert(b.bank_regs[2] == data);
    assert(b.chr_banks[4] == data);
}

} // verus!
