//! CNROM: fixed PRG as in NROM, one switchable 8 KB CHR bank.

use crate::cart::{rom_byte, Mirroring};
use vstd::prelude::*;

verus! {

pub struct Mapper003 {
    pub prg_bank1: u16,
    pub chr_bank: u16,
    /// Number of 8 KB CHR banks on the cartridge; bank selects wrap on it.
    pub chr_banks: u16,
    pub mirroring: Mirroring,
}

impl Mapper003 {
    /// Offset into PRG-ROM of the byte seen at `addr`.
    pub open spec fn prg_offset(self, addr: u16) -> int {
        if addr < 0xc000 {
            addr - 0x8000
        } else {
            addr - 0xc000 + self.prg_bank1 * 0x4000
        }
    }

    /// Offset into CHR-ROM of the byte seen at `addr`.
    pub open spec fn chr_offset(self, addr: u16) -> int {
        self.chr_bank * 0x2000 + addr
    }

    /// The mapper after a CPU write of `data` anywhere in `$8000..=$FFFF`:
    /// the CHR bank is `data` modulo the bank count.
    pub open spec fn written(self, data: u8) -> Mapper003 {
        if self.chr_banks == 0 {
            Mapper003 { chr_bank: 0, ..self }
        } else {
            Mapper003 { chr_bank: (data as int % self.chr_banks as int) as u16, ..self }
        }
    }

    pub fn new(mirroring: Mirroring, prg_banks: usize, chr_banks: usize) -> (m: Self)
        requires
            prg_banks == 1 || prg_banks == 2,
            chr_banks <= 256,
        ensures
            m == (Mapper003 {
                prg_bank1: (prg_banks - 1) as u16,
                chr_bank: 0,
                chr_banks: chr_banks as u16,
                mirroring,
            }),
    {
        Mapper003 {
            prg_bank1: (prg_banks - 1) as u16,
            chr_bank: 0,
            chr_banks: chr_banks as u16,
            mirroring,
        }
    }

    pub fn read_prg(&self, prg: &[u8], addr: u16) -> (r: u8)
        requires
            addr >= 0x8000,
        ensures
            r == rom_byte(prg@, self.prg_offset(addr)),
    {
        let off: usize = if addr < 0xc000 {
            (addr - 0x8000) as usize
        } else {
            (addr - 0xc000) as usize + self.prg_bank1 as usize * 0x4000
        };
        if off < prg.len() {
            prg[off]
        } else {
            0
        }
    }

    pub fn write_prg(&mut self, addr: u16, data: u8)
        requires
            addr >= 0x8000,
        ensures
            *final(self) == old(self).written(data),
    {
        if self.chr_banks == 0 {
            self.chr_bank = 0;
        } else {
            self.chr_bank = data as u16 % self.chr_banks;
        }
    }

    pub fn read_chr(&self, chr: &[u8], addr: u16) -> (r: u8)
        ensures
            r == rom_byte(chr@, self.chr_offset(addr)),
    {
        let off: usize = self.chr_bank as usize * 0x2000 + addr as usize;
        if off < chr.len() {
            chr[off]
        } else {
            0
        }
    }

    pub fn mirroring(&self) -> (m: Mirroring)
        ensures
            m == self.mirroring,
    {
        self.mirroring
    }
}

/// After a write of `data` to the bank-select register, the pattern
/// tables show CHR bank `data` modulo the number of banks.
pub proof fn lemma_bank_round_trip(m: Mapper003, data: u8, addr: u16)
    requires
        m.chr_banks > 0,
        addr < 0x2000,
    ensures
        m.written(data).chr_offset(addr) == (data as int % m.chr_banks as int) * 0x2000 + addr,
{
}

} // verus!
