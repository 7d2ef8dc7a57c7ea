//! Pictures of the picture unit's memory for a debugger: the pattern
//! tables, a nametable, the palettes, the sprites and the finished frame.
//!
//! Every picture is written into a buffer of pixels of four bytes. Red,
//! green and blue are written; the fourth byte is left as it is.

use crate::bits::{bit_at, bits_at, get_bit_u8, get_bits_u8};
use crate::cart::Cartridge;
use crate::ppu::palettes::PALETTES;
use crate::ppu::Ppu;
use vstd::prelude::*;

verus! {

/// Pixels of the picture of both pattern tables: 256 by 128.
pub const PATTERN_PIXELS: usize = 256 * 128;

/// Pixels of the picture of a nametable, and of the frame: 256 by 240.
pub const SCREEN_PIXELS: usize = 256 * 240;

/// Pixels of the picture of the sprites: 256 by 16.
pub const SPRITE_PIXELS: usize = 256 * 16;

/// The pixel `old` with red, green and blue of colour number `color`.
pub open spec fn painted(old: [u8; 4], color: int) -> [u8; 4] {
    [PALETTES[color % 64][0], PALETTES[color % 64][1], PALETTES[color % 64][2], old[3]]
}

/// Whether `after` is `before` with its first `n` pixels painted in the
/// colours that `color` gives for each.
pub open spec fn painted_all(
    before: Seq<[u8; 4]>,
    after: Seq<[u8; 4]>,
    n: int,
    color: spec_fn(int) -> int,
) -> bool {
    &&& after.len() == before.len()
    &&& forall|k: int| 0 <= k < n ==> #[trigger] after[k] == painted(before[k], color(k))
    &&& forall|k: int| n <= k < before.len() ==> #[trigger] after[k] == before[k]
}

/// The 2-bit pixel at column `col` of row `row` of the tile whose two
/// planes begin at `tile_addr`; column 0 is the leftmost.
pub open spec fn tile_pixel(cart: Cartridge, tile_addr: int, row: int, col: int) -> int {
    (if bit_at(cart.chr_at((tile_addr + row) as u16) as int, 7 - col) { 1int } else { 0 }) + (
    if bit_at(cart.chr_at((tile_addr + row + 8) as u16) as int, 7 - col) { 2int } else { 0 })
}

impl Ppu {
    /// Colour number of pixel `k` of the picture of the pattern tables,
    /// drawn with palette `pal_index` modulo 8. The picture shows the
    /// first table on the left and the second on the right, each 16 by
    /// 16 tiles.
    pub open spec fn pattern_color(self, cart: Cartridge, pal_index: usize, k: int) -> int {
        let x = k % 256;
        let y = k / 256;
        let tile_addr = (x / 128) * 0x1000 + ((y / 8) * 16 + (x % 128) / 8) * 16;
        let addr = 0x3f00 + (pal_index % 8) * 4 + tile_pixel(cart, tile_addr, y % 8, x % 8);
        self.vram_byte(cart, addr as u16) as int
    }

    /// Colour number of pixel `k` of the picture of nametable `nm_index`
    /// modulo 4, as it lies in nametable memory: 32 by 30 tiles, each
    /// with the palette that its attribute byte gives it.
    pub open spec fn name_table_color(self, cart: Cartridge, nm_index: usize, k: int) -> int {
        let x = k % 256;
        let y = k / 256;
        let i = y / 8;
        let j = x / 8;
        let base = (nm_index % 4) * 0x400;
        let tile_addr = self.nametables[base + i * 32 + j] * 16 + self.ctrl.bg_pattern_table_of();
        let attr = self.nametables[base + 960 + (i / 4) * 8 + j / 4];
        let shift = ((j / 2) % 2) * 2 + ((i / 2) % 2) * 4;
        let addr = 0x3f00 + bits_at(attr as int, shift, shift + 2) * 4 + tile_pixel(
            cart,
            tile_addr,
            y % 8,
            x % 8,
        );
        self.vram_byte(cart, addr as u16) as int
    }

    /// Colour number of pixel `k` of the picture of the palettes: runs of
    /// 16 pixels, one for each of the 32 entries of palette memory; the
    /// first 256 runs show the background palettes, the next 256 the
    /// sprite palettes, and so on in turn.
    pub open spec fn palette_color(self, k: int) -> int {
        let n = k / 16;
        self.palettes[n % 16 + ((n / 256) % 2) * 16] as int
    }

    /// Colour number of pixel `k` of the picture of the sprites: all 64
    /// sprites in two rows of 32, each shown by its first tile; pixel
    /// value 0 shows the backdrop.
    pub open spec fn sprite_color(self, cart: Cartridge, k: int) -> int {
        let x = k % 256;
        let y = k / 256;
        let s = (y / 8) * 32 + x / 8;
        let index = self.oam[s * 4 + 1];
        let attr = self.oam[s * 4 + 2];
        let tile_addr = if self.ctrl.sp_size_of() == 8 {
            self.ctrl.sp_pattern_table_of() + index * 16
        } else {
            (index % 2) * 0x1000 + (index / 2 * 2) * 16
        };
        let b = tile_pixel(cart, tile_addr, y % 8, x % 8);
        let addr = if b == 0 { 0x3f00 } else { 0x3f10 + bits_at(attr as int, 0, 2) * 4 + b };
        self.vram_byte(cart, addr as u16) as int
    }

    /// Reads one pixel of a tile.
    fn read_tile_pixel(cart: &Cartridge, tile_addr: u16, row: u16, col: u16) -> (b: u16)
        requires
            tile_addr + 15 < 0x2000,
            row < 8,
            col < 8,
        ensures
            b == tile_pixel(*cart, tile_addr as int, row as int, col as int),
            b < 4,
    {
        let lo: u8 = cart.read_chr(tile_addr + row);
        let hi: u8 = cart.read_chr(tile_addr + row + 8);
        let bit: usize = (7 - col) as usize;
        (if get_bit_u8(lo, bit) { 1 } else { 0 }) + (if get_bit_u8(hi, bit) { 2 } else { 0 })
    }

    /// Paints pixel `k` of `buf` in colour number `color`.
    fn paint(buf: &mut [[u8; 4]], k: usize, color: u8)
        requires
            k < old(buf)@.len(),
        ensures
            final(buf)@ == old(buf)@.update(k as int, painted(old(buf)@[k as int], color as int)),
    {
        let rgb: [u8; 3] = PALETTES[(color % 64) as usize];
        let pixel: [u8; 4] = buf[k];
        let next: [u8; 4] = [rgb[0], rgb[1], rgb[2], pixel[3]];
        assert(next =~= painted(pixel, color as int));
        buf[k] = next;
    }

    fn pattern_pixel(&self, cart: &Cartridge, pal_index: usize, k: usize) -> (c: u8)
        requires
            k < PATTERN_PIXELS,
        ensures
            c == self.pattern_color(*cart, pal_index, k as int),
    {
        let x: u16 = (k % 256) as u16;
        let y: u16 = (k / 256) as u16;
        let tile_addr: u16 = (x / 128) * 0x1000 + ((y / 8) * 16 + (x % 128) / 8) * 16;
        let b: u16 = Ppu::read_tile_pixel(cart, tile_addr, y % 8, x % 8);
        self.read_vram(cart, 0x3f00 + (pal_index % 8) as u16 * 4 + b)
    }

    fn name_table_pixel(&self, cart: &Cartridge, nm_index: usize, k: usize) -> (c: u8)
        requires
            k < SCREEN_PIXELS,
        ensures
            c == self.name_table_color(*cart, nm_index, k as int),
    {
        let x: usize = k % 256;
        let y: usize = k / 256;
        let i: usize = y / 8;
        let j: usize = x / 8;
        let base: usize = (nm_index % 4) * 0x400;
        let tile_addr: u16 = self.nametables[base + i * 32 + j] as u16 * 16
            + self.ctrl.bg_pattern_table();
        let attr: u8 = self.nametables[base + 960 + (i / 4) * 8 + j / 4];
        let shift: usize = ((j / 2) % 2) * 2 + ((i / 2) % 2) * 4;
        let pal: u16 = get_bits_u8(attr, shift, shift + 2) as u16;
        let b: u16 = Ppu::read_tile_pixel(cart, tile_addr, (y % 8) as u16, (x % 8) as u16);
        self.read_vram(cart, 0x3f00 + pal * 4 + b)
    }

    fn sprite_pixel(&self, cart: &Cartridge, k: usize) -> (c: u8)
        requires
            k < SPRITE_PIXELS,
        ensures
            c == self.sprite_color(*cart, k as int),
    {
        let x: usize = k % 256;
        let y: usize = k / 256;
        let s: usize = (y / 8) * 32 + x / 8;
        let index: u16 = self.oam[s * 4 + 1] as u16;
        let attr: u8 = self.oam[s * 4 + 2];
        let tile_addr: u16 = if self.ctrl.sp_size() == 8 {
            self.ctrl.sp_pattern_table() + index * 16
        } else {
            (index % 2) * 0x1000 + (index / 2 * 2) * 16
        };
        let b: u16 = Ppu::read_tile_pixel(cart, tile_addr, (y % 8) as u16, (x % 8) as u16);
        let addr: u16 = if b == 0 {
            0x3f00
        } else {
            0x3f10 + get_bits_u8(attr, 0, 2) as u16 * 4 + b
        };
        self.read_vram(cart, addr)
    }

    /// Draws both pattern tables with palette `pal_index` modulo 8.
    pub fn render_pattern_table(&self, cart: &Cartridge, buf: &mut [[u8; 4]], pal_index: usize)
        requires
            old(buf)@.len() >= PATTERN_PIXELS,
        ensures
            painted_all(
                old(buf)@,
                final(buf)@,
                PATTERN_PIXELS as int,
                |k: int| self.pattern_color(*cart, pal_index, k),
            ),
    {
        let mut k: usize = 0;
        while k < PATTERN_PIXELS
            invariant
                k <= PATTERN_PIXELS,
                buf@.len() >= PATTERN_PIXELS,
                painted_all(
                    old(buf)@,
                    buf@,
                    k as int,
                    |k: int| self.pattern_color(*cart, pal_index, k),
                ),
            decreases PATTERN_PIXELS - k,
        {
            let c: u8 = self.pattern_pixel(cart, pal_index, k);
            Ppu::paint(buf, k, c);
            k = k + 1;
        }
    }

    /// Draws nametable `nm_index` modulo 4.
    pub fn render_name_table(&self, cart: &Cartridge, buf: &mut [[u8; 4]], nm_index: usize)
        requires
            old(buf)@.len() >= SCREEN_PIXELS,
        ensures
            painted_all(
                old(buf)@,
                final(buf)@,
                SCREEN_PIXELS as int,
                |k: int| self.name_table_color(*cart, nm_index, k),
            ),
    {
        let mut k: usize = 0;
        while k < SCREEN_PIXELS
            invariant
                k <= SCREEN_PIXELS,
                buf@.len() >= SCREEN_PIXELS,
                painted_all(
                    old(buf)@,
                    buf@,
                    k as int,
                    |k: int| self.name_table_color(*cart, nm_index, k),
                ),
            decreases SCREEN_PIXELS - k,
        {
            let c: u8 = self.name_table_pixel(cart, nm_index, k);
            Ppu::paint(buf, k, c);
            k = k + 1;
        }
    }

    /// Draws the palettes over all full runs of 16 pixels of `buf`.
    pub fn render_palettes(&self, buf: &mut [[u8; 4]])
        ensures
            painted_all(
                old(buf)@,
                final(buf)@,
                (old(buf)@.len() / 16 * 16) as int,
                |k: int| self.palette_color(k),
            ),
    {
        let n: usize = buf.len() / 16 * 16;
        let mut k: usize = 0;
        while k < n
            invariant
                k <= n,
                n == old(buf)@.len() / 16 * 16,
                painted_all(old(buf)@, buf@, k as int, |k: int| self.palette_color(k)),
            decreases n - k,
        {
            let run: usize = k / 16;
            let c: u8 = self.palettes[run % 16 + ((run / 256) % 2) * 16];
            Ppu::paint(buf, k, c);
            k = k + 1;
        }
    }

    /// Draws all 64 sprites.
    pub fn render_sprites(&self, cart: &Cartridge, buf: &mut [[u8; 4]])
        requires
            old(buf)@.len() >= SPRITE_PIXELS,
        ensures
            painted_all(
                old(buf)@,
                final(buf)@,
                SPRITE_PIXELS as int,
                |k: int| self.sprite_color(*cart, k),
            ),
    {
        let mut k: usize = 0;
        while k < SPRITE_PIXELS
            invariant
                k <= SPRITE_PIXELS,
                buf@.len() >= SPRITE_PIXELS,
                painted_all(old(buf)@, buf@, k as int, |k: int| self.sprite_color(*cart, k)),
            decreases SPRITE_PIXELS - k,
        {
            let c: u8 = self.sprite_pixel(cart, k);
            Ppu::paint(buf, k, c);
            k = k + 1;
        }
    }

    /// Copies red, green and blue of the last completed frame.
    pub fn render_display(&self, buf: &mut [[u8; 4]])
        requires
            old(buf)@.len() >= SCREEN_PIXELS,
        ensures
            final(buf)@.len() == old(buf)@.len(),
            forall|k: int|
                0 <= k < SCREEN_PIXELS ==> #[trigger] final(buf)@[k] == [
                    self.rs.back_buf[4 * k],
                    self.rs.back_buf[4 * k + 1],
                    self.rs.back_buf[4 * k + 2],
                    old(buf)@[k][3],
                ],
            forall|k: int| SCREEN_PIXELS <= k < old(buf)@.len() ==> #[trigger] final(buf)@[k] == old(
                buf,
            )@[k],
    {
        let mut k: usize = 0;
        while k < SCREEN_PIXELS
            invariant
                k <= SCREEN_PIXELS,
                buf@.len() == old(buf)@.len(),
                buf@.len() >= SCREEN_PIXELS,
                forall|j: int|
                    0 <= j < k ==> #[trigger] buf@[j] == [
                        self.rs.back_buf[4 * j],
                        self.rs.back_buf[4 * j + 1],
                        self.rs.back_buf[4 * j + 2],
                        old(buf)@[j][3],
                    ],
                forall|j: int| k <= j < buf@.len() ==> #[trigger] buf@[j] == old(buf)@[j],
            decreases SCREEN_PIXELS - k,
        {
            let pixel: [u8; 4] = buf[k];
            let next: [u8; 4] = [
                self.rs.back_buf[4 * k],
                self.rs.back_buf[4 * k + 1],
                self.rs.back_buf[4 * k + 2],
                pixel[3],
            ];
            buf[k] = next;
            k = k + 1;
        }
    }
}

} // verus!
