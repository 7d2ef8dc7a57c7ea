//! MMC1: a five-bit serial register loaded one bit per CPU write selects
//! PRG and CHR banks, their modes and the mirroring.

use crate::bits::{bit_at, bits_at, get_bit_u8, get_bits_u8, set_bit_u8, with_bit};
use crate::cart::{rom_byte, Mirroring};
use vstd::prelude::*;

verus! {

#[derive(Clone, Copy, Debug, PartialEq, Eq, Structural)]
pub enum PRGMode {
    /// One 32 KB bank.
    Full,
    /// First bank fixed at `$8000`, `$C000` switchable.
    FixedFirst,
    /// Last bank fixed at `$C000`, `$8000` switchable.
    FixedLast,
}

#[derive(Clone, Copy, Debug, PartialEq, Eq, Structural)]
pub enum CHRMode {
    /// One 8 KB bank.
    Full,
    /// Two 4 KB banks.
    Half,
}

impl PRGMode {
    pub open spec fn of_bits(bits: int) -> PRGMode {
        if bits == 2 {
            PRGMode::FixedFirst
        } else if bits == 3 {
            PRGMode::FixedLast
        } else {
            PRGMode::Full
        }
    }

    pub fn from_bits(bits: u8) -> (m: PRGMode)
        requires
            bits < 4,
        ensures
            m == PRGMode::of_bits(bits as int),
    {
        if bits == 2 {
            PRGMode::FixedFirst
        } else if bits == 3 {
            PRGMode::FixedLast
        } else {
            PRGMode::Full
        }
    }
}

impl CHRMode {
    pub open spec fn of_bits(bits: int) -> CHRMode {
        if bits == 0 {
            CHRMode::Full
        } else {
            CHRMode::Half
        }
    }

    pub fn from_bits(bits: u8) -> (m: CHRMode)
        requires
            bits < 2,
        ensures
            m == CHRMode::of_bits(bits as int),
    {
        if bits == 0 {
            CHRMode::Full
        } else {
            CHRMode::Half
        }
    }
}

pub struct Mapper001 {
    pub prg_bank0: u16,
    pub prg_bank1: u16,
    pub prg_banks: u16,
    pub chr_bank0: u16,
    pub chr_bank1: u16,
    /// Number of bits shifted in since the last register load.
    pub step: u8,
    pub shifter: u8,
    pub prg_mode: PRGMode,
    pub chr_mode: CHRMode,
    pub enable_ram: bool,
    pub mirroring: Mirroring,
}

/// Mirroring selected by the two low bits of the control register.
pub open spec fn control_mirroring(bits: int) -> Mirroring {
    if bits == 0 {
        Mirroring::SingleScreen0
    } else if bits == 1 {
        Mirroring::SingleScreen1
    } else if bits == 2 {
        Mirroring::Vertical
    } else {
        Mirroring::Horizontal
    }
}

impl Mapper001 {
    /// Index of the last 16 KB PRG bank.
    pub open spec fn last_bank(self) -> u16 {
        if self.prg_banks == 0 {
            0
        } else {
            (self.prg_banks - 1) as u16
        }
    }

    /// The power-on state: last bank fixed at `$C000`, one 8 KB CHR bank.
    pub open spec fn initial(mirroring: Mirroring, prg_banks: u16) -> Mapper001 {
        Mapper001 {
            prg_bank0: 0,
            prg_bank1: if prg_banks == 0 { 0 } else { (prg_banks - 1) as u16 },
            prg_banks,
            chr_bank0: 0,
            chr_bank1: 1,
            step: 0,
            shifter: 0,
            prg_mode: PRGMode::FixedLast,
            chr_mode: CHRMode::Full,
            enable_ram: false,
            mirroring,
        }
    }

    /// The mapper after the full shift register is delivered to the
    /// register that `addr` selects:
    /// `$8000` control, `$A000` CHR bank 0, `$C000` CHR bank 1, `$E000` PRG bank.
    #[verifier::opaque]
    pub open spec fn handled(self, addr: u16) -> Mapper001 {
        let s = self.shifter as int;
        if addr < 0xa000 {
            Mapper001 {
                mirroring: control_mirroring(bits_at(s, 0, 2)),
                prg_mode: PRGMode::of_bits(bits_at(s, 2, 4)),
                chr_mode: CHRMode::of_bits(bits_at(s, 4, 5)),
                ..self
            }
        } else if addr < 0xc000 {
            if self.chr_mode == CHRMode::Full {
                Mapper001 {
                    chr_bank0: (bits_at(s, 1, 5) * 2) as u16,
                    chr_bank1: (bits_at(s, 1, 5) * 2 + 1) as u16,
                    ..self
                }
            } else {
                Mapper001 { chr_bank0: s as u16, ..self }
            }
        } else if addr < 0xe000 {
            if self.chr_mode == CHRMode::Full {
                self
            } else {
                Mapper001 { chr_bank1: s as u16, ..self }
            }
        } else {
            let banked = match self.prg_mode {
                PRGMode::Full => Mapper001 {
                    prg_bank0: (bits_at(s, 1, 4) * 2) as u16,
                    prg_bank1: (bits_at(s, 1, 4) * 2 + 1) as u16,
                    ..self
                },
                PRGMode::FixedFirst => Mapper001 {
                    prg_bank0: 0,
                    prg_bank1: bits_at(s, 0, 4) as u16,
                    ..self
                },
                PRGMode::FixedLast => Mapper001 {
                    prg_bank0: bits_at(s, 0, 4) as u16,
                    prg_bank1: self.last_bank(),
                    ..self
                },
            };
            Mapper001 { enable_ram: !bit_at(s, 5), ..banked }
        }
    }

    /// The mapper after a CPU write of `data` to `addr`.
    ///
    /// A set bit 7 clears the shift register and fixes the last bank at
    /// `$C000`. Otherwise bit 0 of `data` is shifted in from the top; the
    /// fifth bit completes the value, which is delivered by `handled`.
    #[verifier::opaque]
    pub open spec fn written(self, addr: u16, data: u8) -> Mapper001 {
        if bit_at(data as int, 7) {
            Mapper001 {
                step: 0,
                shifter: 0,
                prg_mode: PRGMode::FixedLast,
                prg_bank1: self.last_bank(),
                ..self
            }
        } else {
            let shifted = Mapper001 {
                shifter: with_bit(self.shifter as int / 2, 4, bit_at(data as int, 0)) as u8,
                ..self
            };
            if self.step >= 4 {
                Mapper001 { step: 0, shifter: 0, ..shifted.handled(addr) }
            } else {
                Mapper001 { step: (self.step + 1) as u8, ..shifted }
            }
        }
    }

    /// Offset into PRG-ROM of the byte seen at `addr`.
    pub open spec fn prg_offset(self, addr: u16) -> int {
        if addr < 0xc000 {
            addr - 0x8000 + self.prg_bank0 * 0x4000
        } else {
            addr - 0xc000 + self.prg_bank1 * 0x4000
        }
    }

    /// Offset into CHR-ROM of the byte seen at `addr`.
    pub open spec fn chr_offset(self, addr: u16) -> int {
        if addr < 0x1000 {
            addr + self.chr_bank0 * 0x1000
        } else {
            addr - 0x1000 + self.chr_bank1 * 0x1000
        }
    }

    pub fn new(mirroring: Mirroring, prg_banks: usize) -> (m: Self)
        requires
            1 <= prg_banks <= 256,
        ensures
            m == Mapper001::initial(mirroring, prg_banks as u16),
    {
        Mapper001 {
            prg_bank0: 0,
            prg_bank1: (prg_banks - 1) as u16,
            prg_banks: prg_banks as u16,
            chr_bank0: 0,
            chr_bank1: 1,
            step: 0,
            shifter: 0,
            prg_mode: PRGMode::FixedLast,
            chr_mode: CHRMode::Full,
            enable_ram: false,
            mirroring,
        }
    }

    fn last(&self) -> (r: u16)
        ensures
            r == self.last_bank(),
    {
        if self.prg_banks == 0 {
            0
        } else {
            self.prg_banks - 1
        }
    }

    pub fn handle_write(&mut self, addr: u16)
        requires
            addr >= 0x8000,
        ensures
            *final(self) == old(self).handled(addr),
    {
        reveal(Mapper001::handled);
        let bank_bits: u16 = self.shifter as u16;
        if addr < 0xa000 {
            let m: u8 = get_bits_u8(self.shifter, 0, 2);
            self.mirroring = if m == 0 {
                Mirroring::SingleScreen0
            } else if m == 1 {
                Mirroring::SingleScreen1
            } else if m == 2 {
                Mirroring::Vertical
            } else {
                Mirroring::Horizontal
            };
            self.prg_mode = PRGMode::from_bits(get_bits_u8(self.shifter, 2, 4));
            self.chr_mode = CHRMode::from_bits(get_bits_u8(self.shifter, 4, 5));
        } else if addr < 0xc000 {
            match self.chr_mode {
                CHRMode::Full => {
                    self.chr_bank0 = get_bits_u8(self.shifter, 1, 5) as u16 * 2;
                    self.chr_bank1 = self.chr_bank0 + 1;
                },
                CHRMode::Half => {
                    self.chr_bank0 = bank_bits;
                },
            }
        } else if addr < 0xe000 {
            match self.chr_mode {
                CHRMode::Full => {},
                CHRMode::Half => {
                    self.chr_bank1 = bank_bits;
                },
            }
        } else {
            match self.prg_mode {
                PRGMode::Full => {
                    self.prg_bank0 = get_bits_u8(self.shifter, 1, 4) as u16 * 2;
                    self.prg_bank1 = self.prg_bank0 + 1;
                },
                PRGMode::FixedFirst => {
                    self.prg_bank0 = 0;
                    self.prg_bank1 = get_bits_u8(self.shifter, 0, 4) as u16;
                },
                PRGMode::FixedLast => {
                    self.prg_bank0 = get_bits_u8(self.shifter, 0, 4) as u16;
                    self.prg_bank1 = self.last();
                },
            }
            self.enable_ram = !get_bit_u8(self.shifter, 5);
        }
    }

    pub fn read_prg(&self, prg: &[u8], addr: u16) -> (r: u8)
        requires
            addr >= 0x8000,
        ensures
            r == rom_byte(prg@, self.prg_offset(addr)),
    {
        let off: usize = if addr < 0xc000 {
            (addr - 0x8000) as usize + self.prg_bank0 as usize * 0x4000
        } else {
            (addr - 0xc000) as usize + self.prg_bank1 as usize * 0x4000
        };
        if off < prg.len() {
            prg[off]
        } else {
            0
        }
    }

    pub fn write_prg(&mut self, addr: u16, data: u8)
        requires
            addr >= 0x8000,
        ensures
            *final(self) == old(self).written(addr, data),
    {
        reveal(Mapper001::written);
        if get_bit_u8(data, 7) {
            self.step = 0;
            self.shifter = 0;
            self.prg_mode = PRGMode::FixedLast;
            self.prg_bank1 = self.last();
        } else {
            self.shifter = set_bit_u8(self.shifter / 2, 4, get_bit_u8(data, 0));
            if self.step >= 4 {
                self.handle_write(addr);
                self.step = 0;
                self.shifter = 0;
            } else {
                self.step = self.step + 1;
            }
        }
    }

    pub fn read_chr(&self, chr: &[u8], addr: u16) -> (r: u8)
        requires
            addr < 0x2000,
        ensures
            r == rom_byte(chr@, self.chr_offset(addr)),
    {
        let off: usize = if addr < 0x1000 {
            addr as usize + self.chr_bank0 as usize * 0x1000
        } else {
            (addr - 0x1000) as usize + self.chr_bank1 as usize * 0x1000
        };
        if off < chr.len() {
            chr[off]
        } else {
            0
        }
    }

    pub fn mirroring(&self) -> (m: Mirroring)
        ensures
            m == self.mirroring,
    {
        self.mirroring
    }
}

/// The mapper after the five writes that deliver a value to the register
/// at `addr`, low bit first.
pub open spec fn delivered(m: Mapper001, addr: u16, d: Seq<u8>) -> Mapper001 {
    m.written(addr, d[0]).written(addr, d[1]).written(addr, d[2]).written(addr, d[3]).written(
        addr,
        d[4],
    )
}

/// The value that five writes deliver: bit 0 of each, the first lowest.
pub open spec fn serial_value(d: Seq<u8>) -> int {
    d[0] % 2 + (d[1] % 2) * 2 + (d[2] % 2) * 4 + (d[3] % 2) * 8 + (d[4] % 2) * 16
}

/// The five low bits of the shift register after a bit came in: the
/// old ones moved down by one, the new bit on top.
pub proof fn lemma_shift_in(s: u8, data: u8)
    ensures
        with_bit(s as int / 2, 4, bit_at(data as int, 0)) % 32 == (s % 32) / 2 + (data % 2) * 16,
        0 <= with_bit(s as int / 2, 4, bit_at(data as int, 0)) < 128,
{
    let h = s as int / 2;
    let q = h / 32;
    let b4 = (h / 16) % 2;
    let r = h % 16;
    assert(h == 32 * q + 16 * b4 + r);
    assert(r == (s % 32) / 2);
    assert(bit_at(h, 4) == (b4 == 1));
    let w = with_bit(h, 4, bit_at(data as int, 0));
    assert(bit_at(data as int, 0) == (data % 2 == 1));
    assert(w == 32 * q + r + (data % 2) * 16);
}

/// One of the first four writes of a value: the bit comes in, and nothing
/// else changes.
pub proof fn lemma_shift_step(m: Mapper001, addr: u16, data: u8)
    requires
        data < 128,
        m.step < 4,
    ensures
        m.written(addr, data) == (Mapper001 {
            step: (m.step + 1) as u8,
            shifter: m.written(addr, data).shifter,
            ..m
        }),
        m.written(addr, data).shifter % 32 == (m.shifter % 32) / 2 + (data % 2) * 16,
{
    reveal(Mapper001::written);
    lemma_shift_in(m.shifter, data);
}

/// The fifth write of a value to the PRG register with the last bank
/// fixed: the four low bits of the value select the bank at `$8000`.
pub proof fn lemma_deliver_prg(m: Mapper001, addr: u16, data: u8)
    requires
        data < 128,
        m.step == 4,
        m.prg_mode == PRGMode::FixedLast,
        addr >= 0xe000,
    ensures
        m.written(addr, data).prg_bank0 == ((m.shifter % 32) / 2) % 16,
{
    reveal(Mapper001::written);
    reveal(Mapper001::handled);
    lemma_shift_in(m.shifter, data);
    let last = with_bit(m.shifter as int / 2, 4, bit_at(data as int, 0));
    assert(bits_at(last, 0, 4) == last % 16);
    assert(last % 16 == (last % 32) % 16);
}

/// With the last bank fixed, five writes to the PRG register make the
/// window at `$8000-$BFFF` show the 16 KB bank named by the four low bits
/// of the value delivered.
pub proof fn lemma_prg_round_trip(m: Mapper001, d: Seq<u8>, addr: u16)
    requires
        d.len() == 5,
        forall|i: int| 0 <= i < 5 ==> d[i] < 128,
        m.step == 0,
        m.prg_mode == PRGMode::FixedLast,
        0x8000 <= addr < 0xc000,
    ensures
        delivered(m, 0xe000, d).prg_offset(addr) == (serial_value(d) % 16) * 0x4000 + (addr
            - 0x8000),
{
    let m1 = m.written(0xe000, d[0]);
    lemma_shift_step(m, 0xe000, d[0]);
    let m2 = m1.written(0xe000, d[1]);
    lemma_shift_step(m1, 0xe000, d[1]);
    let m3 = m2.written(0xe000, d[2]);
    lemma_shift_step(m2, 0xe000, d[2]);
    let m4 = m3.written(0xe000, d[3]);
    lemma_shift_step(m3, 0xe000, d[3]);
    lemma_deliver_prg(m4, 0xe000, d[4]);
    let l1 = m1.shifter as int % 32;
    let l2 = m2.shifter as int % 32;
    let l3 = m3.shifter as int % 32;
    let l4 = m4.shifter as int % 32;
    assert(l1 / 16 == d[0] % 2);
    assert(l2 / 8 == d[0] % 2 + (d[1] % 2) * 2);
    assert(l3 / 4 == d[0] % 2 + (d[1] % 2) * 2 + (d[2] % 2) * 4);
    assert(l4 / 2 == d[0] % 2 + (d[1] % 2) * 2 + (d[2] % 2) * 4 + (d[3] % 2) * 8);
}

} // verus!
