//! NROM: 16 KB or 32 KB of fixed PRG, 8 KB of CHR.

use crate::cart::{rom_byte, Mirroring};
use vstd::prelude::*;

verus! {

pub struct Mapper000 {
    /// Bank seen at `$C000`: 0 for a 16 KB image (mirror), 1 for 32 KB.
    pub prg_bank1: u16,
    pub mirroring: Mirroring,
}

impl Mapper000 {
    /// Offset into PRG-ROM of the byte seen at `addr`.
    pub open spec fn prg_offset(self, addr: u16) -> int {
        if addr < 0xc000 {
            addr - 0x8000
        } else {
            addr - 0xc000 + self.prg_bank1 * 0x4000
        }
    }

    pub fn new(mirroring: Mirroring, prg_banks: usize) -> (m: Self)
        requires
            prg_banks == 1 || prg_banks == 2,
        ensures
            m == (Mapper000 { prg_bank1: (prg_banks - 1) as u16, mirroring }),
    {
        Mapper000 { prg_bank1: (prg_banks - 1) as u16, mirroring }
    }

    pub fn read_prg(&self, prg: &[u8], addr: u16) -> (r: u8)
        requires
            addr >= 0x8000,
        ensures
            r == rom_byte(prg@, self.prg_offset(addr)),
    {
        let off: usize = if addr < 0xc000 {
            (addr - 0x8000) as usize
        } else {
            (addr - 0xc000) as usize + self.prg_bank1 as usize * 0x4000
        };
        if off < prg.len() {
            prg[off]
        } else {
            0
        }
    }

    pub fn read_chr(&self, chr: &[u8], addr: u16) -> (r: u8)
        ensures
            r == rom_byte(chr@, addr as int),
    {
        if (addr as usize) < chr.len() {
            chr[addr as usize]
        } else {
            0
        }
    }

    pub fn mirroring(&self) -> (m: Mirroring)
        ensures
            m == self.mirroring,
    {
        self.mirroring
    }
}

} // verus!
