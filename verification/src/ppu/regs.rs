//! The picture unit's registers: control, mask, status, the 15-bit VRAM
//! address with its scroll fields, and the pixel shift registers.

use crate::bits::{
    bit_at, bits_at, get_bit_u16, get_bit_u8, get_bits_u16, get_bits_u8, reversed8, set_bit_u8,
    set_bits_u16, two_pow, with_bit, with_bits,
};
use vstd::prelude::*;

verus! {

/// `$2000`, the control register.
#[derive(Clone, Copy, Debug, PartialEq, Eq, Structural)]
pub struct PpuCtrl(pub u8);

impl PpuCtrl {
    /// Bits 0-1: the base nametable.
    pub open spec fn nametable_of(self) -> int {
        bits_at(self.0 as int, 0, 2)
    }

    /// Bit 2: the VRAM address advances by 32 (down) instead of 1 (across).
    pub open spec fn addr_inc_of(self) -> int {
        if bit_at(self.0 as int, 2) {
            32
        } else {
            1
        }
    }

    /// Bit 3: pattern table of 8x8 sprites.
    pub open spec fn sp_pattern_table_of(self) -> int {
        if bit_at(self.0 as int, 3) {
            0x1000
        } else {
            0
        }
    }

    /// Bit 4: pattern table of the background.
    pub open spec fn bg_pattern_table_of(self) -> int {
        if bit_at(self.0 as int, 4) {
            0x1000
        } else {
            0
        }
    }

    /// Bit 5: sprites are 16 rows tall instead of 8.
    pub open spec fn sp_size_of(self) -> int {
        if bit_at(self.0 as int, 5) {
            16
        } else {
            8
        }
    }

    /// Bit 7: raise NMI when vertical blank begins.
    pub open spec fn nmi_on_of(self) -> bool {
        bit_at(self.0 as int, 7)
    }

    pub fn set(&mut self, b: u8)
        ensures
            final(self).0 == b,
    {
        self.0 = b;
    }

    pub fn nametable(&self) -> (r: u16)
        ensures
            r == self.nametable_of(),
            r < 4,
    {
        get_bits_u8(self.0, 0, 2) as u16
    }

    pub fn addr_inc(&self) -> (r: u16)
        ensures
            r == self.addr_inc_of(),
    {
        if get_bit_u8(self.0, 2) {
            32
        } else {
            1
        }
    }

    pub fn sp_pattern_table(&self) -> (r: u16)
        ensures
            r == self.sp_pattern_table_of(),
    {
        if get_bit_u8(self.0, 3) {
            0x1000
        } else {
            0
        }
    }

    pub fn bg_pattern_table(&self) -> (r: u16)
        ensures
            r == self.bg_pattern_table_of(),
    {
        if get_bit_u8(self.0, 4) {
            0x1000
        } else {
            0
        }
    }

    pub fn sp_size(&self) -> (r: usize)
        ensures
            r == self.sp_size_of(),
    {
        if get_bit_u8(self.0, 5) {
            16
        } else {
            8
        }
    }

    pub fn nmi_on(&self) -> (r: bool)
        ensures
            r == self.nmi_on_of(),
    {
        get_bit_u8(self.0, 7)
    }
}

/// `$2001`, the mask register.
#[derive(Clone, Copy, Debug, PartialEq, Eq, Structural)]
pub struct PpuMask(pub u8);

impl PpuMask {
    /// Bit 3: the background is drawn.
    pub open spec fn show_bg_of(self) -> bool {
        bit_at(self.0 as int, 3)
    }

    /// Bit 4: sprites are drawn.
    pub open spec fn show_sp_of(self) -> bool {
        bit_at(self.0 as int, 4)
    }

    pub fn set(&mut self, b: u8)
        ensures
            final(self).0 == b,
    {
        self.0 = b;
    }

    pub fn gray_scale(&self) -> (r: bool)
        ensures
            r == bit_at(self.0 as int, 0),
    {
        get_bit_u8(self.0, 0)
    }

    pub fn show_bg_left(&self) -> (r: bool)
        ensures
            r == bit_at(self.0 as int, 1),
    {
        get_bit_u8(self.0, 1)
    }

    pub fn show_sp_left(&self) -> (r: bool)
        ensures
            r == bit_at(self.0 as int, 2),
    {
        get_bit_u8(self.0, 2)
    }

    pub fn show_bg(&self) -> (r: bool)
        ensures
            r == self.show_bg_of(),
    {
        get_bit_u8(self.0, 3)
    }

    pub fn show_sp(&self) -> (r: bool)
        ensures
            r == self.show_sp_of(),
    {
        get_bit_u8(self.0, 4)
    }

    pub fn tint_red(&self) -> (r: bool)
        ensures
            r == bit_at(self.0 as int, 5),
    {
        get_bit_u8(self.0, 5)
    }

    pub fn tint_green(&self) -> (r: bool)
        ensures
            r == bit_at(self.0 as int, 6),
    {
        get_bit_u8(self.0, 6)
    }

    pub fn tint_blue(&self) -> (r: bool)
        ensures
            r == bit_at(self.0 as int, 7),
    {
        get_bit_u8(self.0, 7)
    }
}

/// `$2002`, the status register: bit 5 sprite overflow, bit 6 sprite-0
/// hit, bit 7 vertical blank.
#[derive(Clone, Copy, Debug, PartialEq, Eq, Structural)]
pub struct PpuStatus(pub u8);

impl PpuStatus {
    /// The register with flag bit `i` set to `b`.
    pub open spec fn with_flag(self, i: int, b: bool) -> PpuStatus {
        PpuStatus(with_bit(self.0 as int, i, b) as u8)
    }

    pub fn sp_overflow(&self) -> (r: bool)
        ensures
            r == bit_at(self.0 as int, 5),
    {
        get_bit_u8(self.0, 5)
    }

    pub fn sp0_hit(&self) -> (r: bool)
        ensures
            r == bit_at(self.0 as int, 6),
    {
        get_bit_u8(self.0, 6)
    }

    pub fn vblank(&self) -> (r: bool)
        ensures
            r == bit_at(self.0 as int, 7),
    {
        get_bit_u8(self.0, 7)
    }

    /// Replaces the five low bits, which hold no flag, by those of `b`.
    pub fn set_lb(&mut self, b: u8)
        ensures
            final(self).0 == old(self).0 / 32 * 32 + b % 32,
    {
        self.0 = self.0 / 32 * 32 + b % 32;
    }

    pub fn set_sp_overflow(&mut self, b: bool)
        ensures
            *final(self) == old(self).with_flag(5, b),
    {
        self.0 = set_bit_u8(self.0, 5, b);
    }

    pub fn set_sp0_hit(&mut self, b: bool)
        ensures
            *final(self) == old(self).with_flag(6, b),
    {
        self.0 = set_bit_u8(self.0, 6, b);
    }

    pub fn set_vblank(&mut self, b: bool)
        ensures
            *final(self) == old(self).with_flag(7, b),
    {
        self.0 = set_bit_u8(self.0, 7, b);
    }

    pub fn get(&self) -> (r: u8)
        ensures
            r == self.0,
    {
        self.0
    }
}

/// Exclusive or of two 2-bit numbers.
pub open spec fn xor2(a: int, b: int) -> int {
    ((a / 2 + b / 2) % 2) * 2 + (a + b) % 2
}

/// The VRAM address `v` or `t`, laid out as `yyy NN YYYYY XXXXX`: coarse X
/// in bits 0-4, coarse Y in bits 5-9, nametable in bits 10-11 and fine Y
/// in bits 12-14.
#[derive(Clone, Copy, Debug, PartialEq, Eq, Structural)]
pub struct VramAddr(pub u16);

impl VramAddr {
    pub open spec fn coarse_x_of(self) -> int {
        bits_at(self.0 as int, 0, 5)
    }

    pub open spec fn coarse_y_of(self) -> int {
        bits_at(self.0 as int, 5, 10)
    }

    pub open spec fn nm_of(self) -> int {
        bits_at(self.0 as int, 10, 12)
    }

    pub open spec fn y_of(self) -> int {
        bits_at(self.0 as int, 12, 15)
    }

    /// The 14-bit address put on the picture bus.
    pub open spec fn addr_of(self) -> int {
        bits_at(self.0 as int, 0, 14)
    }

    /// Address of the nametable byte of the current tile.
    pub open spec fn tile_addr_of(self) -> int {
        0x2000 + self.0 % 0x1000
    }

    /// Address of the attribute byte of the current tile: one byte for
    /// each block of 4x4 tiles, behind the 960 tile bytes.
    pub open spec fn attr_addr_of(self) -> int {
        0x23c0 + self.nm_of() * 0x400 + self.coarse_y_of() / 4 * 8 + self.coarse_x_of() / 4
    }

    /// The address with the bits `lo..hi` replaced by `b`.
    pub open spec fn with_field(self, lo: int, hi: int, b: int) -> VramAddr {
        VramAddr(with_bits(self.0 as int, lo, hi, b) as u16)
    }

    /// The address moved on by `offset`, within 15 bits.
    pub open spec fn advanced(self, offset: u16) -> VramAddr {
        VramAddr(((self.0 + offset) % 0x8000) as u16)
    }

    /// The address one tile to the right; behind the last column it wraps
    /// into the horizontally neighbouring nametable.
    pub open spec fn next_coarse_x(self) -> VramAddr {
        if self.coarse_x_of() == 31 {
            let wrapped = self.with_field(0, 5, 0);
            wrapped.with_field(10, 12, xor2(wrapped.nm_of(), 1))
        } else {
            self.with_field(0, 5, self.coarse_x_of() + 1)
        }
    }

    /// The address one pixel row down. Fine Y overflows into coarse Y;
    /// row 29 wraps into the vertically neighbouring nametable, row 31
    /// wraps without changing the nametable.
    pub open spec fn next_y(self) -> VramAddr {
        if self.y_of() < 7 {
            self.with_field(12, 15, self.y_of() + 1)
        } else {
            let top = self.with_field(12, 15, 0);
            let cy = top.coarse_y_of();
            if cy == 29 {
                let wrapped = top.with_field(5, 10, 0);
                wrapped.with_field(10, 12, xor2(wrapped.nm_of(), 2))
            } else if cy == 31 {
                top.with_field(5, 10, 0)
            } else {
                top.with_field(5, 10, cy + 1)
            }
        }
    }

    /// The address with the horizontal position of `other`: coarse X and
    /// the low nametable bit.
    pub open spec fn with_x_of(self, other: VramAddr) -> VramAddr {
        self.with_field(0, 5, other.coarse_x_of()).with_field(
            10,
            11,
            bits_at(other.0 as int, 10, 11),
        )
    }

    /// The address with the vertical position of `other`: coarse Y, the
    /// high nametable bit and fine Y.
    pub open spec fn with_y_of(self, other: VramAddr) -> VramAddr {
        self.with_field(5, 10, other.coarse_y_of()).with_field(
            11,
            12,
            bits_at(other.0 as int, 11, 12),
        ).with_field(12, 15, other.y_of())
    }

    pub fn addr(&self) -> (r: u16)
        ensures
            r == self.addr_of(),
            r < 0x4000,
    {
        get_bits_u16(self.0, 0, 14)
    }

    pub fn tile_addr(&self) -> (r: u16)
        ensures
            r == self.tile_addr_of(),
    {
        0x2000 + self.0 % 0x1000
    }

    pub fn attr_addr(&self) -> (r: u16)
        ensures
            r == self.attr_addr_of(),
    {
        0x23c0 + self.nm() * 0x400 + self.coarse_y() / 4 * 8 + self.coarse_x() / 4
    }

    pub fn inc(&mut self, offset: u16)
        ensures
            *final(self) == old(self).advanced(offset),
    {
        self.0 = ((self.0 as u32 + offset as u32) % 0x8000) as u16;
    }

    pub fn inc_coarse_x(&mut self)
        ensures
            *final(self) == old(self).next_coarse_x(),
    {
        let cx: u16 = self.coarse_x();
        if cx == 31 {
            self.set_coarse_x(0);
            self.switch_nm(1);
        } else {
            self.set_coarse_x(cx + 1);
        }
    }

    pub fn inc_y(&mut self)
        ensures
            *final(self) == old(self).next_y(),
    {
        let y: u16 = self.y();
        if y < 7 {
            self.set_y(y + 1);
        } else {
            self.set_y(0);
            let cy: u16 = self.coarse_y();
            if cy == 29 {
                self.set_coarse_y(0);
                self.switch_nm(2);
            } else if cy == 31 {
                self.set_coarse_y(0);
            } else {
                self.set_coarse_y(cy + 1);
            }
        }
    }

    pub fn coarse_x(&self) -> (r: u16)
        ensures
            r == self.coarse_x_of(),
            r < 32,
    {
        get_bits_u16(self.0, 0, 5)
    }

    pub fn set_coarse_x(&mut self, b: u16)
        requires
            b < 32,
        ensures
            *final(self) == old(self).with_field(0, 5, b as int),
    {
        self.0 = set_bits_u16(self.0, 0, 5, b);
    }

    pub fn coarse_y(&self) -> (r: u16)
        ensures
            r == self.coarse_y_of(),
            r < 32,
    {
        get_bits_u16(self.0, 5, 10)
    }

    pub fn set_coarse_y(&mut self, b: u16)
        requires
            b < 32,
        ensures
            *final(self) == old(self).with_field(5, 10, b as int),
    {
        self.0 = set_bits_u16(self.0, 5, 10, b);
    }

    pub fn nm(&self) -> (r: u16)
        ensures
            r == self.nm_of(),
            r < 4,
    {
        get_bits_u16(self.0, 10, 12)
    }

    pub fn set_nm(&mut self, b: u16)
        requires
            b < 4,
        ensures
            *final(self) == old(self).with_field(10, 12, b as int),
    {
        self.0 = set_bits_u16(self.0, 10, 12, b);
    }

    /// Flips the nametable bits that are set in `b`.
    pub fn switch_nm(&mut self, b: u16)
        requires
            b < 4,
        ensures
            *final(self) == old(self).with_field(10, 12, xor2(old(self).nm_of(), b as int)),
    {
        let n: u16 = self.nm();
        self.set_nm(((n / 2 + b / 2) % 2) * 2 + (n + b) % 2);
    }

    pub fn y(&self) -> (r: u16)
        ensures
            r == self.y_of(),
            r < 8,
    {
        get_bits_u16(self.0, 12, 15)
    }

    pub fn set_y(&mut self, b: u16)
        requires
            b < 8,
        ensures
            *final(self) == old(self).with_field(12, 15, b as int),
    {
        self.0 = set_bits_u16(self.0, 12, 15, b);
    }

    pub fn set_bits(&mut self, lo: usize, hi: usize, b: u16)
        requires
            lo < 16,
            hi <= 16,
            lo <= hi,
            b < two_pow(hi - lo),
        ensures
            *final(self) == old(self).with_field(lo as int, hi as int, b as int),
    {
        self.0 = set_bits_u16(self.0, lo, hi, b);
    }

    pub fn copy_vx(&mut self, other: &VramAddr)
        ensures
            *final(self) == old(self).with_x_of(*other),
    {
        self.0 = set_bits_u16(self.0, 0, 5, get_bits_u16(other.0, 0, 5));
        self.0 = set_bits_u16(self.0, 10, 11, get_bits_u16(other.0, 10, 11));
    }

    pub fn copy_vy(&mut self, other: &VramAddr)
        ensures
            *final(self) == old(self).with_y_of(*other),
    {
        self.0 = set_bits_u16(self.0, 5, 10, get_bits_u16(other.0, 5, 10));
        self.0 = set_bits_u16(self.0, 11, 12, get_bits_u16(other.0, 11, 12));
        self.0 = set_bits_u16(self.0, 12, 15, get_bits_u16(other.0, 12, 15));
    }
}

/// A pair of 16-bit shift registers that hold the two bit planes of the
/// pixels to come; bit 0 is the pixel that leaves next.
#[derive(Clone, Copy, Debug, PartialEq, Eq, Structural)]
pub struct ShiftReg(pub u16, pub u16);

impl ShiftReg {
    /// The 2-bit pixel at position `x`.
    pub open spec fn pixel(self, x: int) -> int {
        (if bit_at(self.0 as int, x) { 1int } else { 0 }) + (if bit_at(self.1 as int, x) {
            2int
        } else {
            0
        })
    }

    /// Both planes moved on by one pixel.
    pub open spec fn shifted(self) -> ShiftReg {
        ShiftReg(self.0 / 2, self.1 / 2)
    }

    /// The high halves replaced by the rows `b0` and `b1`, leftmost pixel
    /// lowest.
    pub open spec fn latched(self, b0: u8, b1: u8) -> ShiftReg {
        ShiftReg(
            with_bits(self.0 as int, 8, 16, reversed8(b0 as int)) as u16,
            with_bits(self.1 as int, 8, 16, reversed8(b1 as int)) as u16,
        )
    }

    /// The low halves replaced by the rows `b0` and `b1`, leftmost pixel
    /// lowest.
    pub open spec fn loaded(self, b0: u8, b1: u8) -> ShiftReg {
        ShiftReg(
            with_bits(self.0 as int, 0, 8, reversed8(b0 as int)) as u16,
            with_bits(self.1 as int, 0, 8, reversed8(b1 as int)) as u16,
        )
    }

    pub fn get(&self, x: usize) -> (r: u16)
        requires
            x < 16,
        ensures
            r == self.pixel(x as int),
            r < 4,
    {
        let lo: u16 = if get_bit_u16(self.0, x) { 1 } else { 0 };
        let hi: u16 = if get_bit_u16(self.1, x) { 2 } else { 0 };
        lo + hi
    }

    pub fn shift(&mut self)
        ensures
            *final(self) == old(self).shifted(),
    {
        self.0 = self.0 / 2;
        self.1 = self.1 / 2;
    }

    pub fn latch(&mut self, b0: u8, b1: u8)
        ensures
            *final(self) == old(self).latched(b0, b1),
    {
        self.0 = set_bits_u16(self.0, 8, 16, b0.reverse_bits() as u16);
        self.1 = set_bits_u16(self.1, 8, 16, b1.reverse_bits() as u16);
    }

    pub fn load(&mut self, b0: u8, b1: u8)
        ensures
            *final(self) == old(self).loaded(b0, b1),
    {
        self.0 = set_bits_u16(self.0, 0, 8, b0.reverse_bits() as u16);
        self.1 = set_bits_u16(self.1, 0, 8, b1.reverse_bits() as u16);
    }
}

/// Replacing bits 8-14 and then bits 0-7 of an address leaves nothing of
/// its low 15 bits.
pub proof fn lemma_address_overwritten(t: VramAddr, hi: int, lo: int)
    requires
        0 <= hi < 128,
        0 <= lo < 256,
    ensures
        t.with_field(8, 15, hi).with_field(0, 8, lo).0 % 0x8000 == hi * 256 + lo,
{
    let v = t.0 as int;
    let top = v / 0x8000;
    let h = (v / 256) % 128;
    let l = v % 256;
    assert(v == top * 0x8000 + h * 256 + l);
    let v2 = with_bits(v, 8, 15, hi);
    assert(v2 == top * 0x8000 + hi * 256 + l);
    assert(0 <= top <= 1);
    assert(0 <= v2 < 0x10000);
    assert(t.with_field(8, 15, hi).0 == v2);
    assert(v2 % 256 == l);
    assert(v2 / 1 == v2);
    assert(bits_at(v2, 0, 8) == l);
    let v3 = with_bits(v2, 0, 8, lo);
    assert(v3 == top * 0x8000 + hi * 256 + lo);
}

} // verus!
