//! UxROM: a switchable 16 KB PRG bank at `$8000`, the last bank fixed at
//! `$C000`, 8 KB of CHR-RAM.

use crate::cart::{rom_byte, Mirroring};
use vstd::prelude::*;

verus! {

pub struct Mapper002 {
    pub prg_bank0: u16,
    pub prg_bank1: u16,
    pub mirroring: Mirroring,
}

impl Mapper002 {
    /// Offset into PRG-ROM of the byte seen at `addr`.
    pub open spec fn prg_offset(self, addr: u16) -> int {
        if addr < 0xc000 {
            addr - 0x8000 + self.prg_bank0 * 0x4000
        } else {
            addr - 0xc000 + self.prg_bank1 * 0x4000
        }
    }

    /// The mapper after a CPU write of `data` anywhere in `$8000..=$FFFF`.
    pub open spec fn written(self, data: u8) -> Mapper002 {
        Mapper002 { prg_bank0: data as u16, ..self }
    }

    pub fn new(mirroring: Mirroring, prg_banks: usize) -> (m: Self)
        requires
            1 <= prg_banks <= 256,
        ensures
            m == (Mapper002 { prg_bank0: 0, prg_bank1: (prg_banks - 1) as u16, mirroring }),
    {
        Mapper002 { prg_bank0: 0, prg_bank1: (prg_banks - 1) as u16, mirroring }
    }

    pub fn read_prg(&self, prg: &[u8], addr: u16) -> (r: u8)
        requires
            addr >= 0x8000,
        ensures
            r == rom_byte(prg@, self.prg_offset(addr)),
    {
        let off: usize = if addr < 0xc000 {
            (addr - 0x8000) as usize + self.prg_bank0 as usize * 0x4000
        } else {
            (addr - 0xc000) as usize + self.prg_bank1 as usize * 0x4000
        };
        if off < prg.len() {
            prg[off]
        } else {
            0
        }
    }

    pub fn write_prg(&mut self, addr: u16, data: u8)
        requires
            addr >= 0x8000,
        ensures
            *final(self) == old(self).written(data),
    {
        self.prg_bank0 = data as u16;
    }

    pub fn read_chr(&self, chr: &[u8], addr: u16) -> (r: u8)
        ensures
            r == rom_byte(chr@, addr as int),
    {
        if (addr as usize) < chr.len() {
            chr[addr as usize]
        } else {
            0
        }
    }

    pub fn mirroring(&self) -> (m: Mirroring)
        ensures
            m == self.mirroring,
    {
        self.mirroring
    }
}

/// After a write of `data` to the bank-select register, the window at
/// `$8000-$BFFF` shows bank `data`.
pub proof fn lemma_bank_round_trip(m: Mapper002, data: u8, addr: u16)
    requires
        0x8000 <= addr < 0xc000,
    ensures
        m.written(data).prg_offset(addr) == data * 0x4000 + (addr - 0x8000),
{
}

} // verus!
