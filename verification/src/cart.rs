//! The cartridge: PRG-ROM, CHR-ROM or CHR-RAM, PRG-RAM and the mapper that
//! decides which part of them each address shows.

pub mod mapper000;
pub mod mapper001;
pub mod mapper002;
pub mod mapper003;
pub mod mapper004;

use crate::bits::{bit_at, bits_at, get_bit_u8, get_bits_u8};
use crate::cart::mapper000::Mapper000;
use crate::cart::mapper001::Mapper001;
use crate::cart::mapper002::Mapper002;
use crate::cart::mapper003::Mapper003;
use crate::cart::mapper004::Mapper004;
use vstd::array::spec_array_update;
use vstd::prelude::*;

verus! {

pub const EXPANSION_ROM_SIZE: usize = 0x1fe0;

pub const PRG_RAM_SIZE: usize = 0x2000;

pub const CHR_RAM_SIZE: usize = 0x2000;

/// How the four logical nametables map onto the picture unit's memory.
#[derive(Clone, Copy, Debug, PartialEq, Eq, Structural)]
pub enum Mirroring {
    Horizontal,
    Vertical,
    SingleScreen0,
    SingleScreen1,
    FourScreen,
}

/// The byte of `rom` at `off`; a ROM reads as zero past its end.
pub open spec fn rom_byte(rom: Seq<u8>, off: int) -> u8 {
    if 0 <= off < rom.len() {
        rom[off]
    } else {
        0
    }
}

/// Start of logical nametable `n` in nametable memory.
pub open spec fn nm_base(m: Mirroring, n: int) -> int {
    match m {
        Mirroring::Horizontal => if n < 2 { 0x000 } else { 0x400 },
        Mirroring::Vertical => if n % 2 == 0 { 0x000 } else { 0x400 },
        Mirroring::SingleScreen0 => 0x000,
        Mirroring::SingleScreen1 => 0x400,
        Mirroring::FourScreen => n * 0x400,
    }
}

/// Bank-switching logic of a cartridge, one variant per supported board.
pub enum Mapper {
    /// No board: the empty cartridge, which shows a three-byte idle loop.
    Null,
    Nrom(Mapper000),
    Mmc1(Mapper001),
    Uxrom(Mapper002),
    Cnrom(Mapper003),
    Mmc3(Mapper004),
}

/// What the empty cartridge shows at `addr`: `JMP $FF00` at `$FF00` and a
/// reset vector that points to it.
pub open spec fn idle_program(addr: u16) -> u8 {
    if addr == 0xfffc {
        0x00
    } else if addr == 0xfffd {
        0xff
    } else if addr == 0xff00 {
        0x4c
    } else if addr == 0xff01 {
        0x00
    } else if addr == 0xff02 {
        0xff
    } else {
        0x00
    }
}

impl Mapper {
    /// The byte that a CPU read of `addr` in `$8000..=$FFFF` returns.
    pub open spec fn prg_byte(self, prg: Seq<u8>, addr: u16) -> u8 {
        match self {
            Mapper::Null => idle_program(addr),
            Mapper::Nrom(m) => rom_byte(prg, m.prg_offset(addr)),
            Mapper::Mmc1(m) => rom_byte(prg, m.prg_offset(addr)),
            Mapper::Uxrom(m) => rom_byte(prg, m.prg_offset(addr)),
            Mapper::Cnrom(m) => rom_byte(prg, m.prg_offset(addr)),
            Mapper::Mmc3(m) => rom_byte(prg, m.prg_offset(addr)),
        }
    }

    /// The byte of CHR-ROM that a picture-unit read of `addr` returns.
    pub open spec fn chr_byte(self, chr: Seq<u8>, addr: u16) -> u8 {
        match self {
            Mapper::Null => 0,
            Mapper::Nrom(m) => rom_byte(chr, addr as int),
            Mapper::Mmc1(m) => rom_byte(chr, m.chr_offset(addr)),
            Mapper::Uxrom(m) => rom_byte(chr, addr as int),
            Mapper::Cnrom(m) => rom_byte(chr, m.chr_offset(addr)),
            Mapper::Mmc3(m) => rom_byte(chr, m.chr_offset(addr)),
        }
    }

    /// The mapper after a CPU write of `data` to `addr` in `$8000..=$FFFF`.
    pub open spec fn written(self, addr: u16, data: u8) -> Mapper {
        match self {
            Mapper::Null => self,
            Mapper::Nrom(m) => self,
            Mapper::Mmc1(m) => Mapper::Mmc1(m.written(addr, data)),
            Mapper::Uxrom(m) => Mapper::Uxrom(m.written(data)),
            Mapper::Cnrom(m) => Mapper::Cnrom(m.written(data)),
            Mapper::Mmc3(m) => Mapper::Mmc3(m.written(addr, data)),
        }
    }

    pub open spec fn mirroring_of(self) -> Mirroring {
        match self {
            Mapper::Null => Mirroring::FourScreen,
            Mapper::Nrom(m) => m.mirroring,
            Mapper::Mmc1(m) => m.mirroring,
            Mapper::Uxrom(m) => m.mirroring,
            Mapper::Cnrom(m) => m.mirroring,
            Mapper::Mmc3(m) => m.mirroring,
        }
    }

    /// The mapper after the picture unit signals the end of a scanline.
    pub open spec fn scanline_passed(self) -> Mapper {
        match self {
            Mapper::Mmc3(m) => Mapper::Mmc3(m.scanline_passed()),
            _ => self,
        }
    }

    /// Whether the mapper holds its interrupt line up.
    pub open spec fn irq_pending(self) -> bool {
        match self {
            Mapper::Mmc3(m) => m.irq_level,
            _ => false,
        }
    }

    /// The mapper with its interrupt line lowered.
    pub open spec fn irq_cleared(self) -> Mapper {
        match self {
            Mapper::Mmc3(m) => Mapper::Mmc3(Mapper004 { irq_level: false, ..m }),
            _ => self,
        }
    }

    pub fn read_prg(&self, prg: &[u8], addr: u16) -> (r: u8)
        requires
            addr >= 0x8000,
        ensures
            r == self.prg_byte(prg@, addr),
    {
        match self {
            Mapper::Null => {
                if addr == 0xfffd || addr == 0xff02 {
                    0xff
                } else if addr == 0xff00 {
                    0x4c
                } else {
                    0x00
                }
            },
            Mapper::Nrom(m) => m.read_prg(prg, addr),
            Mapper::Mmc1(m) => m.read_prg(prg, addr),
            Mapper::Uxrom(m) => m.read_prg(prg, addr),
            Mapper::Cnrom(m) => m.read_prg(prg, addr),
            Mapper::Mmc3(m) => m.read_prg(prg, addr),
        }
    }

    pub fn write_prg(&mut self, addr: u16, data: u8)
        requires
            addr >= 0x8000,
        ensures
            *final(self) == old(self).written(addr, data),
    {
        match self {
            Mapper::Null => {},
            Mapper::Nrom(_) => {},
            Mapper::Mmc1(m) => m.write_prg(addr, data),
            Mapper::Uxrom(m) => m.write_prg(addr, data),
            Mapper::Cnrom(m) => m.write_prg(addr, data),
            Mapper::Mmc3(m) => m.write_prg(addr, data),
        }
    }

    pub fn read_chr(&self, chr: &[u8], addr: u16) -> (r: u8)
        requires
            addr < 0x2000,
        ensures
            r == self.chr_byte(chr@, addr),
    {
        match self {
            Mapper::Null => 0,
            Mapper::Nrom(m) => m.read_chr(chr, addr),
            Mapper::Mmc1(m) => m.read_chr(chr, addr),
            Mapper::Uxrom(m) => m.read_chr(chr, addr),
            Mapper::Cnrom(m) => m.read_chr(chr, addr),
            Mapper::Mmc3(m) => m.read_chr(chr, addr),
        }
    }

    pub fn mirroring(&self) -> (r: Mirroring)
        ensures
            r == self.mirroring_of(),
    {
        match self {
            Mapper::Null => Mirroring::FourScreen,
            Mapper::Nrom(m) => m.mirroring(),
            Mapper::Mmc1(m) => m.mirroring(),
            Mapper::Uxrom(m) => m.mirroring(),
            Mapper::Cnrom(m) => m.mirroring(),
            Mapper::Mmc3(m) => m.mirroring(),
        }
    }

    pub fn update_scanline(&mut self)
        ensures
            *final(self) == old(self).scanline_passed(),
    {
        match self {
            Mapper::Mmc3(m) => m.update_scanline(),
            _ => {},
        }
    }

    /// Reads the interrupt line and lowers it.
    pub fn poll_irq(&mut self) -> (r: bool)
        ensures
            r == old(self).irq_pending(),
            *final(self) == old(self).irq_cleared(),
    {
        match self {
            Mapper::Mmc3(m) => m.poll_irq(),
            _ => false,
        }
    }
}

/// Why a cartridge image was turned down.
#[derive(Clone, Copy, Debug, PartialEq, Eq, Structural)]
pub enum LoadError {
    /// The image does not start with `"NES"` and `0x1A`.
    BadSignature,
    /// The header announces the 2.0 layout.
    Ines2,
    /// The image is shorter than its header says.
    Truncated,
    /// The board cannot carry the number of PRG banks in the header.
    BadBankCount,
    /// No mapper for the board with this number.
    UnsupportedMapper(u8),
}

/// Whether `d` starts with the four signature bytes.
pub open spec fn has_signature(d: Seq<u8>) -> bool {
    d.len() >= 4 && d[0] == 0x4e && d[1] == 0x45 && d[2] == 0x53 && d[3] == 0x1a
}

/// Offset of PRG-ROM: behind the header and the 512-byte trainer, if any.
pub open spec fn prg_start(d: Seq<u8>) -> int {
    if bit_at(d[6] as int, 2) {
        528
    } else {
        16
    }
}

/// Bytes of PRG-ROM: byte 4 counts banks of 16 KB.
pub open spec fn prg_len(d: Seq<u8>) -> int {
    d[4] * 0x4000
}

/// Bytes of CHR-ROM: byte 5 counts banks of 8 KB.
pub open spec fn chr_len(d: Seq<u8>) -> int {
    d[5] * 0x2000
}

/// The mapper number: high nibble from byte 7, low nibble from the high
/// nibble of byte 6.
pub open spec fn mapper_number(d: Seq<u8>) -> int {
    d[7] / 16 * 16 + d[6] / 16
}

/// Mirroring from byte 6: bit 3 asks for four screens, else bit 0 picks
/// vertical over horizontal.
pub open spec fn header_mirroring(d: Seq<u8>) -> Mirroring {
    if bit_at(d[6] as int, 3) {
        Mirroring::FourScreen
    } else if bit_at(d[6] as int, 0) {
        Mirroring::Vertical
    } else {
        Mirroring::Horizontal
    }
}

pub open spec fn supported_mapper(n: int) -> bool {
    n == 0 || n == 1 || n == 2 || n == 3 || n == 4 || n == 66
}

/// Whether board `n` can carry `prg_banks` banks of PRG-ROM.
pub open spec fn banks_fit(n: int, prg_banks: int) -> bool {
    if n == 0 || n == 3 {
        prg_banks == 1 || prg_banks == 2
    } else {
        prg_banks >= 1
    }
}

/// The reason to turn `d` down, if there is one.
pub open spec fn load_error(d: Seq<u8>) -> Option<LoadError> {
    if !has_signature(d) {
        Some(LoadError::BadSignature)
    } else if d.len() < 16 {
        Some(LoadError::Truncated)
    } else if bits_at(d[7] as int, 2, 4) == 3 {
        Some(LoadError::Ines2)
    } else if !supported_mapper(mapper_number(d)) {
        Some(LoadError::UnsupportedMapper(mapper_number(d) as u8))
    } else if !banks_fit(mapper_number(d), d[4] as int) {
        Some(LoadError::BadBankCount)
    } else if d.len() < prg_start(d) + prg_len(d) + chr_len(d) {
        Some(LoadError::Truncated)
    } else {
        None
    }
}

/// The mapper of the image `d`, in its power-on state.
pub open spec fn board(d: Seq<u8>) -> Mapper {
    let n = mapper_number(d);
    let mirroring = header_mirroring(d);
    let prg_banks = d[4];
    if n == 0 {
        Mapper::Nrom(Mapper000 { prg_bank1: (prg_banks - 1) as u16, mirroring })
    } else if n == 1 {
        Mapper::Mmc1(Mapper001::initial(mirroring, prg_banks as u16))
    } else if n == 3 {
        Mapper::Cnrom(
            Mapper003 {
                prg_bank1: (prg_banks - 1) as u16,
                chr_bank: 0,
                chr_banks: if d[5] == 0 { 1 } else { d[5] as u16 },
                mirroring,
            },
        )
    } else if n == 4 {
        Mapper::Mmc3(Mapper004::initial(mirroring, prg_banks as int))
    } else {
        Mapper::Uxrom(
            Mapper002 { prg_bank0: 0, prg_bank1: (prg_banks - 1) as u16, mirroring },
        )
    }
}

/// A copy of `len` bytes of `data` from `start` on.
fn copy_range(data: &[u8], start: usize, len: usize) -> (v: Vec<u8>)
    requires
        start + len <= data.len(),
    ensures
        v@ == data@.subrange(start as int, start + len),
{
    let mut v: Vec<u8> = Vec::new();
    let mut i: usize = 0;
    while i < len
        invariant
            i <= len,
            start + len <= data.len(),
            v@ == data@.subrange(start as int, start + i),
        decreases len - i,
    {
        v.push(data[start + i]);
        i = i + 1;
    }
    v
}

pub struct Cartridge {
    pub expansion: [u8; EXPANSION_ROM_SIZE],
    pub prg_ram: [u8; PRG_RAM_SIZE],
    pub prg_rom: Vec<u8>,
    pub chr_ram: [u8; CHR_RAM_SIZE],
    pub chr_rom: Vec<u8>,
    pub mapper: Mapper,
}

impl Cartridge {
    /// The byte that a CPU read of `addr` in `$4020..=$FFFF` returns.
    #[verifier::opaque]
    pub open spec fn byte_at(self, addr: u16) -> u8 {
        if addr < 0x6000 {
            self.expansion[addr - 0x4020]
        } else if addr < 0x8000 {
            self.prg_ram[addr - 0x6000]
        } else {
            self.mapper.prg_byte(self.prg_rom@, addr)
        }
    }

    /// The cartridge after a CPU write of `data` to `addr` in `$4020..=$FFFF`.
    #[verifier::opaque]
    pub open spec fn written(self, addr: u16, data: u8) -> Cartridge {
        if addr < 0x6000 {
            Cartridge { expansion: spec_array_update(self.expansion, addr - 0x4020, data), ..self }
        } else if addr < 0x8000 {
            Cartridge { prg_ram: spec_array_update(self.prg_ram, addr - 0x6000, data), ..self }
        } else {
            Cartridge { mapper: self.mapper.written(addr, data), ..self }
        }
    }

    /// The pattern byte at `addr` in `$0000..=$1FFF`: from CHR-ROM through
    /// the mapper where the cartridge has any, else from CHR-RAM.
    pub open spec fn chr_at(self, addr: u16) -> u8 {
        if self.chr_rom@.len() > 0 {
            self.mapper.chr_byte(self.chr_rom@, addr)
        } else {
            self.chr_ram[addr as int]
        }
    }

    /// The cartridge after a picture-unit write of `data` to CHR-RAM.
    pub open spec fn chr_written(self, addr: u16, data: u8) -> Cartridge {
        Cartridge { chr_ram: spec_array_update(self.chr_ram, addr as int, data), ..self }
    }

    /// Where in nametable memory the picture-unit address `addr` lands.
    pub open spec fn nm_index(self, addr: u16) -> int {
        nm_base(self.mapper.mirroring_of(), ((addr / 0x400) % 4) as int) + addr % 0x400
    }

    /// A cartridge with no ROM; its program idles in a jump to itself.
    pub fn empty() -> (c: Self)
        ensures
            c.mapper == Mapper::Null,
            c.prg_rom@.len() == 0,
            c.chr_rom@.len() == 0,
            forall|i: int| 0 <= i < EXPANSION_ROM_SIZE ==> c.expansion[i] == 0,
            forall|i: int| 0 <= i < PRG_RAM_SIZE ==> c.prg_ram[i] == 0,
            forall|i: int| 0 <= i < CHR_RAM_SIZE ==> c.chr_ram[i] == 0,
    {
        Cartridge {
            expansion: [0u8; EXPANSION_ROM_SIZE],
            prg_ram: [0u8; PRG_RAM_SIZE],
            prg_rom: Vec::new(),
            chr_ram: [0u8; CHR_RAM_SIZE],
            chr_rom: Vec::new(),
            mapper: Mapper::Null,
        }
    }

    /// Reads a cartridge image: a 16-byte header, an optional 512-byte
    /// trainer, PRG-ROM, and CHR-ROM if the header counts any.
    pub fn load(data: &[u8]) -> (r: Result<Self, LoadError>)
        ensures
            match r {
                Ok(c) => {
                    &&& load_error(data@) is None
                    &&& c.mapper == board(data@)
                    &&& c.prg_rom@ == data@.subrange(
                        prg_start(data@),
                        prg_start(data@) + prg_len(data@),
                    )
                    &&& c.chr_rom@ == data@.subrange(
                        prg_start(data@) + prg_len(data@),
                        prg_start(data@) + prg_len(data@) + chr_len(data@),
                    )
                    &&& forall|i: int| 0 <= i < EXPANSION_ROM_SIZE ==> c.expansion[i] == 0
                    &&& forall|i: int| 0 <= i < PRG_RAM_SIZE ==> c.prg_ram[i] == 0
                    &&& forall|i: int| 0 <= i < CHR_RAM_SIZE ==> c.chr_ram[i] == 0
                },
                Err(e) => load_error(data@) == Some(e),
            },
    {
        if data.len() < 4 || data[0] != 0x4e || data[1] != 0x45 || data[2] != 0x53 || data[3]
            != 0x1a {
            return Err(LoadError::BadSignature);
        }
        if data.len() < 16 {
            return Err(LoadError::Truncated);
        }
        if get_bits_u8(data[7], 2, 4) == 3 {
            return Err(LoadError::Ines2);
        }
        let f6: u8 = data[6];
        let trainer: bool = get_bit_u8(f6, 2);
        let mirroring = if get_bit_u8(f6, 3) {
            Mirroring::FourScreen
        } else if get_bit_u8(f6, 0) {
            Mirroring::Vertical
        } else {
            Mirroring::Horizontal
        };
        let mapper_type: u8 = data[7] / 16 * 16 + f6 / 16;
        let prg_banks: usize = data[4] as usize;
        let chr_banks: usize = data[5] as usize;
        let nrom_like: bool = mapper_type == 0 || mapper_type == 3;
        let known: bool = nrom_like || mapper_type == 1 || mapper_type == 2 || mapper_type == 4
            || mapper_type == 66;
        if !known {
            return Err(LoadError::UnsupportedMapper(mapper_type));
        }
        if prg_banks == 0 || (nrom_like && prg_banks > 2) {
            return Err(LoadError::BadBankCount);
        }
        let offset: usize = if trainer { 16 + 512 } else { 16 };
        let prg_size: usize = prg_banks * 0x4000;
        let chr_size: usize = chr_banks * 0x2000;
        if data.len() < offset + prg_size + chr_size {
            return Err(LoadError::Truncated);
        }
        let prg_rom = copy_range(data, offset, prg_size);
        let chr_rom = copy_range(data, offset + prg_size, chr_size);
        let mapper = if mapper_type == 0 {
            Mapper::Nrom(Mapper000::new(mirroring, prg_banks))
        } else if mapper_type == 1 {
            Mapper::Mmc1(Mapper001::new(mirroring, prg_banks))
        } else if mapper_type == 3 {
            Mapper::Cnrom(
                Mapper003::new(mirroring, prg_banks, if chr_banks == 0 { 1 } else { chr_banks }),
            )
        } else if mapper_type == 4 {
            Mapper::Mmc3(Mapper004::new(mirroring, prg_banks))
        } else {
            Mapper::Uxrom(Mapper002::new(mirroring, prg_banks))
        };
        Ok(
            Cartridge {
                expansion: [0u8; EXPANSION_ROM_SIZE],
                prg_ram: [0u8; PRG_RAM_SIZE],
                prg_rom,
                chr_ram: [0u8; CHR_RAM_SIZE],
                chr_rom,
                mapper,
            },
        )
    }

    pub fn read(&self, addr: u16) -> (r: u8)
        requires
            addr >= 0x4020,
        ensures
            r == self.byte_at(addr),
    {
        reveal(Cartridge::byte_at);
        if addr < 0x6000 {
            self.expansion[(addr - 0x4020) as usize]
        } else if addr < 0x8000 {
            self.prg_ram[(addr - 0x6000) as usize]
        } else {
            self.mapper.read_prg(self.prg_rom.as_slice(), addr)
        }
    }

    pub fn write(&mut self, addr: u16, data: u8)
        requires
            addr >= 0x4020,
        ensures
            *final(self) == old(self).written(addr, data),
    {
        reveal(Cartridge::written);
        if addr < 0x6000 {
            self.expansion[(addr - 0x4020) as usize] = data;
            assert(self.expansion =~= spec_array_update(
                old(self).expansion,
                addr - 0x4020,
                data,
            ));
        } else if addr < 0x8000 {
            self.prg_ram[(addr - 0x6000) as usize] = data;
            assert(self.prg_ram =~= spec_array_update(old(self).prg_ram, addr - 0x6000, data));
        } else {
            self.mapper.write_prg(addr, data);
        }
    }

    pub fn read_chr(&self, addr: u16) -> (r: u8)
        requires
            addr < 0x2000,
        ensures
            r == self.chr_at(addr),
    {
        if self.chr_rom.len() > 0 {
            self.mapper.read_chr(self.chr_rom.as_slice(), addr)
        } else {
            self.chr_ram[addr as usize]
        }
    }

    pub fn write_chr(&mut self, addr: u16, data: u8)
        requires
            addr < 0x2000,
        ensures
            *final(self) == old(self).chr_written(addr, data),
    {
        self.chr_ram[addr as usize] = data;
        assert(self.chr_ram =~= spec_array_update(old(self).chr_ram, addr as int, data));
    }

    pub fn nm_addr(&self, addr: u16) -> (r: usize)
        ensures
            r == self.nm_index(addr),
            r < 0x1000,
    {
        let n: usize = ((addr / 0x400) % 4) as usize;
        let base: usize = match self.mapper.mirroring() {
            Mirroring::Horizontal => if n < 2 { 0x000 } else { 0x400 },
            Mirroring::Vertical => if n % 2 == 0 { 0x000 } else { 0x400 },
            Mirroring::SingleScreen0 => 0x000,
            Mirroring::SingleScreen1 => 0x400,
            Mirroring::FourScreen => n * 0x400,
        };
        base + (addr % 0x400) as usize
    }

    pub fn update_scanline(&mut self)
        ensures
            *final(self) == (Cartridge { mapper: old(self).mapper.scanline_passed(), ..*old(self) }),
    {
        self.mapper.update_scanline();
    }

    /// Reads the mapper's interrupt line and lowers it.
    pub fn poll_irq(&mut self) -> (r: bool)
        ensures
            r == old(self).mapper.irq_pending(),
            *final(self) == (Cartridge { mapper: old(self).mapper.irq_cleared(), ..*old(self) }),
    {
        self.mapper.poll_irq()
    }
}

} // verus!
