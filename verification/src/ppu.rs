//! The picture unit: 262 scanlines of 341 dots per frame, a background
//! pipeline, sprite evaluation, and the register file seen by the CPU.

pub mod palettes;
pub mod regs;
pub mod views;

use crate::bits::{bit_at, bits_at, get_bit_u8, get_bits_u8, reversed8};
use crate::cart::Cartridge;
use crate::ppu::palettes::PALETTES;
use crate::ppu::regs::{PpuCtrl, PpuMask, PpuStatus, ShiftReg, VramAddr};
use vstd::array::spec_array_update;
use vstd::prelude::*;

verus! {

pub const OAM_SIZE: usize = 0x100;

pub const NAMETABLE_SIZE: usize = 0x1000;

pub const PALETTES_SIZE: usize = 0x20;

/// 256 x 240 pixels of red, green, blue and alpha.
pub const BUF_SIZE: usize = 256 * 240 * 4;

pub const ACTIVE_OAM_SIZE: usize = 0x20;

/// Which of the two writes to `$2005` or `$2006` comes next.
#[derive(Clone, Copy, Debug, PartialEq, Eq, Structural)]
pub enum WriteLatch {
    Step0,
    Step1,
}

/// One of the up to eight sprites of the scanline being drawn.
#[derive(Clone, Copy, Debug, PartialEq, Eq, Structural)]
pub struct SpriteState {
    /// Dots to go before the sprite's first pixel.
    pub x: u8,
    pub tile_bits: ShiftReg,
    pub attr_bits: ShiftReg,
    pub is_sp_zero: bool,
    /// 0 in front of the background, 1 behind it.
    pub priority: u8,
}

impl SpriteState {
    pub open spec fn blank() -> SpriteState {
        SpriteState {
            x: 0,
            tile_bits: ShiftReg(0, 0),
            attr_bits: ShiftReg(0, 0),
            is_sp_zero: false,
            priority: 0,
        }
    }

    /// Whether the sprite shows an opaque pixel at the current dot.
    pub open spec fn opaque_now(self) -> bool {
        self.x == 0 && self.tile_bits.pixel(0) != 0
    }

    /// The sprite one dot later: it counts down to its first pixel and
    /// from there on shifts one pixel out per dot.
    pub open spec fn stepped(self) -> SpriteState {
        if self.x > 0 {
            SpriteState { x: (self.x - 1) as u8, ..self }
        } else {
            SpriteState {
                tile_bits: self.tile_bits.shifted(),
                attr_bits: self.attr_bits.shifted(),
                ..self
            }
        }
    }

    fn step(&mut self)
        ensures
            *final(self) == old(self).stepped(),
    {
        if self.x > 0 {
            self.x = self.x - 1;
        } else {
            self.tile_bits.shift();
            self.attr_bits.shift();
        }
    }
}

/// The scanline renderer's working state.
pub struct RenderState {
    pub nm_byte: u8,
    pub attr_byte: u8,
    pub tile_bits: ShiftReg,
    pub attr_bits: ShiftReg,
    /// Next sprite of OAM to evaluate.
    pub sp_n: usize,
    /// Sprites found for the next scanline.
    pub sp_count: usize,
    pub sec_oam: [u8; ACTIVE_OAM_SIZE],
    pub sprites: [SpriteState; 8],
    /// Whether sprite 0 is among the sprites found.
    pub sp_zero: bool,
    /// The frame being drawn.
    pub buf: Box<[u8; BUF_SIZE]>,
    /// The last completed frame.
    pub back_buf: Box<[u8; BUF_SIZE]>,
}

impl RenderState {
    pub open spec fn blank() -> RenderState {
        RenderState {
            nm_byte: 0,
            attr_byte: 0,
            tile_bits: ShiftReg(0, 0),
            attr_bits: ShiftReg(0, 0),
            sp_n: 0,
            sp_count: 0,
            sec_oam: [0xffu8;ACTIVE_OAM_SIZE],
            sprites: [
                SpriteState::blank(),
                SpriteState::blank(),
                SpriteState::blank(),
                SpriteState::blank(),
                SpriteState::blank(),
                SpriteState::blank(),
                SpriteState::blank(),
                SpriteState::blank(),
            ],
            sp_zero: false,
            buf: Box::new([0u8;BUF_SIZE]),
            back_buf: Box::new([0u8;BUF_SIZE]),
        }
    }

    pub fn new() -> (r: Self)
        ensures
            r == RenderState::blank(),
    {
        let blank = SpriteState {
            x: 0,
            tile_bits: ShiftReg(0, 0),
            attr_bits: ShiftReg(0, 0),
            is_sp_zero: false,
            priority: 0,
        };
        RenderState {
            nm_byte: 0,
            attr_byte: 0,
            tile_bits: ShiftReg(0, 0),
            attr_bits: ShiftReg(0, 0),
            sp_n: 0,
            sp_count: 0,
            sec_oam: [0xffu8;ACTIVE_OAM_SIZE],
            sprites: [blank, blank, blank, blank, blank, blank, blank, blank],
            sp_zero: false,
            buf: Box::new([0u8;BUF_SIZE]),
            back_buf: Box::new([0u8;BUF_SIZE]),
        }
    }
}

pub struct Ppu {
    pub nametables: [u8; NAMETABLE_SIZE],
    pub palettes: [u8; PALETTES_SIZE],
    pub oam: [u8; OAM_SIZE],
    pub ctrl: PpuCtrl,
    pub mask: PpuMask,
    pub status: PpuStatus,
    pub oam_addr: u8,
    /// Read buffer of `$2007`.
    pub data_buf: u8,
    /// Current VRAM address.
    pub v: VramAddr,
    /// Temporary VRAM address, the scroll position to come.
    pub t: VramAddr,
    /// Fine X scroll.
    pub x: u8,
    pub w: WriteLatch,
    pub frames: u64,
    pub line: u16,
    pub dot: u16,
    /// An NMI edge waits for the CPU.
    pub nmi: bool,
    pub rs: RenderState,
}

/// The palette RAM slot that a read of palette address `i` uses: the
/// entries 0 of all eight palettes show the backdrop in slot 0.
pub open spec fn palette_read_slot(i: int) -> int {
    if i % 4 == 0 {
        0
    } else {
        i % 32
    }
}

/// Index of the first sprite at or behind `from` that shows an opaque
/// pixel at the current dot, or 8 where there is none.
pub open spec fn first_opaque(sprites: [SpriteState; 8], from: int) -> int
    decreases 8 - from,
{
    if from >= 8 {
        8
    } else if from >= 0 && sprites[from].opaque_now() {
        from
    } else {
        first_opaque(sprites, from + 1)
    }
}

/// All eight sprites one dot later.
pub open spec fn stepped_all(s: [SpriteState; 8]) -> [SpriteState; 8] {
    [
        s[0].stepped(),
        s[1].stepped(),
        s[2].stepped(),
        s[3].stepped(),
        s[4].stepped(),
        s[5].stepped(),
        s[6].stepped(),
        s[7].stepped(),
    ]
}

/// `0xff` for a set bit, 0 for a clear one: a palette bit spread over the
/// eight pixels of a tile row.
pub open spec fn spread(b: bool) -> u8 {
    if b {
        0xff
    } else {
        0
    }
}

/// Row of a sprite that scanline `line` crosses, for a sprite whose top is
/// at `y`; it wraps below zero as 16-bit numbers do.
pub open spec fn sprite_row(line: u16, y: u8) -> int {
    if line >= y {
        line - y
    } else {
        line - y + 0x10000
    }
}

/// Address of the pattern row of a sprite: `index` and `attr` are bytes 1
/// and 2 of its OAM entry, `row` the row within the sprite. Bit 7 of
/// `attr` flips the sprite upside down. A sprite of 16 rows takes its
/// table from bit 0 of `index` and spans two tiles.
pub open spec fn sprite_row_addr(ctrl: PpuCtrl, index: u8, attr: u8, row: int) -> int {
    let flip = bit_at(attr as int, 7);
    let tile_y = if flip { 7 - row % 8 } else { row % 8 };
    let tile_addr = if ctrl.sp_size_of() == 8 {
        ctrl.sp_pattern_table_of() + index * 0x10
    } else {
        let second = (row >= 8) != flip;
        (index % 2) * 0x1000 + (index / 2 * 2 + (if second { 1int } else { 0 })) * 0x10
    };
    tile_addr + tile_y
}

impl Ppu {
    /// The byte at `addr` on the picture bus: pattern tables from the
    /// cartridge, nametables through its mirroring, palette RAM on top.
    pub open spec fn vram_byte(self, cart: Cartridge, addr: u16) -> u8 {
        let a = (addr % 0x4000) as u16;
        if a < 0x2000 {
            cart.chr_at(a)
        } else if a < 0x3f00 {
            self.nametables[cart.nm_index(a)]
        } else {
            self.palettes[palette_read_slot(a as int % 32)]
        }
    }

    /// The picture unit after a write of `data` to `addr` on the picture
    /// bus. A write to entry 0 of a palette lands in the background and
    /// the sprite half alike; palette RAM keeps six bits.
    pub open spec fn vram_written(self, cart: Cartridge, addr: u16, data: u8) -> Ppu {
        let a = (addr % 0x4000) as u16;
        if a < 0x2000 {
            self
        } else if a < 0x3f00 {
            Ppu { nametables: spec_array_update(self.nametables, cart.nm_index(a), data), ..self }
        } else {
            let i = a as int % 32;
            let d = (data % 64) as u8;
            if i % 4 == 0 {
                Ppu {
                    palettes: spec_array_update(
                        spec_array_update(self.palettes, i % 16, d),
                        i % 16 + 16,
                        d,
                    ),
                    ..self
                }
            } else {
                Ppu { palettes: spec_array_update(self.palettes, i, d), ..self }
            }
        }
    }

    /// The cartridge after the same write: only pattern addresses reach it.
    pub open spec fn chr_after_write(cart: Cartridge, addr: u16, data: u8) -> Cartridge {
        let a = (addr % 0x4000) as u16;
        if a < 0x2000 {
            cart.chr_written(a, data)
        } else {
            cart
        }
    }

    /// What a CPU read of register `addr` returns; registers repeat every
    /// eight addresses.
    #[verifier::opaque]
    pub open spec fn reg_value(self, cart: Cartridge, addr: u16) -> u8 {
        let r = addr % 8;
        if r == 2 {
            self.status.0
        } else if r == 4 {
            self.oam[self.oam_addr as int]
        } else if r == 7 {
            if self.v.addr_of() < 0x3f00 {
                self.data_buf
            } else {
                self.vram_byte(cart, self.v.addr_of() as u16)
            }
        } else {
            0
        }
    }

    /// The picture unit after a CPU read of register `addr`: reading the
    /// status clears vertical blank and the write latch; reading the data
    /// port refills the read buffer and advances `v`.
    #[verifier::opaque]
    pub open spec fn reg_read(self, cart: Cartridge, addr: u16) -> Ppu {
        let r = addr % 8;
        if r == 2 {
            Ppu { status: self.status.with_flag(7, false), w: WriteLatch::Step0, ..self }
        } else if r == 7 {
            Ppu {
                data_buf: self.vram_byte(cart, self.v.addr_of() as u16),
                v: self.v.advanced(self.ctrl.addr_inc_of() as u16),
                ..self
            }
        } else {
            self
        }
    }

    /// The picture unit after a CPU write of `data` to register `addr`.
    #[verifier::opaque]
    pub open spec fn reg_written(self, cart: Cartridge, addr: u16, data: u8) -> Ppu {
        let r = addr % 8;
        if r == 0 {
            Ppu {
                ctrl: PpuCtrl(data),
                t: self.t.with_field(10, 12, PpuCtrl(data).nametable_of()),
                ..self
            }
        } else if r == 1 {
            Ppu { mask: PpuMask(data), ..self }
        } else if r == 3 {
            Ppu { oam_addr: data, ..self }
        } else if r == 4 {
            Ppu {
                oam: spec_array_update(self.oam, self.oam_addr as int, data),
                oam_addr: ((self.oam_addr + 1) % 256) as u8,
                ..self
            }
        } else if r == 5 {
            if self.w == WriteLatch::Step0 {
                Ppu {
                    t: self.t.with_field(0, 5, data as int / 8),
                    x: (data % 8) as u8,
                    w: WriteLatch::Step1,
                    ..self
                }
            } else {
                Ppu {
                    t: self.t.with_field(5, 10, data as int / 8).with_field(
                        12,
                        15,
                        data as int % 8,
                    ),
                    w: WriteLatch::Step0,
                    ..self
                }
            }
        } else if r == 6 {
            if self.w == WriteLatch::Step0 {
                Ppu { t: self.t.with_field(8, 15, data as int % 64), w: WriteLatch::Step1, ..self }
            } else {
                Ppu {
                    t: self.t.with_field(0, 8, data as int),
                    v: self.t.with_field(0, 8, data as int),
                    w: WriteLatch::Step0,
                    ..self
                }
            }
        } else if r == 7 {
            Ppu {
                v: self.v.advanced(self.ctrl.addr_inc_of() as u16),
                ..self.vram_written(cart, self.v.addr_of() as u16, data)
            }
        } else {
            self
        }
    }

    /// The cartridge after a CPU write of `data` to register `addr`.
    #[verifier::opaque]
    pub open spec fn reg_written_cart(self, cart: Cartridge, addr: u16, data: u8) -> Cartridge {
        if addr % 8 == 7 {
            Ppu::chr_after_write(cart, self.v.addr_of() as u16, data)
        } else {
            cart
        }
    }

    /// The palette address whose colour the current dot shows. An opaque
    /// sprite pixel wins over a transparent background and, if the sprite
    /// has priority, over an opaque one; a transparent background shows
    /// the backdrop at `$3F00`.
    pub open spec fn pixel_color_addr(self) -> int {
        let fx = self.x as int % 8;
        let bg_tile = if self.mask.show_bg_of() { self.rs.tile_bits.pixel(fx) } else { 0 };
        let bg_pal = self.rs.attr_bits.pixel(fx);
        let hit = if self.mask.show_sp_of() { first_opaque(self.rs.sprites, 0) } else { 8 };
        if hit < 8 && (bg_tile == 0 || self.rs.sprites[hit].priority == 0) {
            0x3f10 + self.rs.sprites[hit].attr_bits.pixel(0) * 4 + self.rs.sprites[hit].tile_bits.pixel(0)
        } else if bg_tile != 0 {
            0x3f00 + bg_pal * 4 + bg_tile
        } else {
            0x3f00
        }
    }

    /// Whether sprite 0 meets an opaque background pixel at the current dot.
    pub open spec fn sprite_zero_hits(self) -> bool {
        let fx = self.x as int % 8;
        let hit = if self.mask.show_sp_of() { first_opaque(self.rs.sprites, 0) } else { 8 };
        hit < 8 && self.rs.sprites[hit].is_sp_zero && self.mask.show_bg_of()
            && self.rs.tile_bits.pixel(fx) != 0
    }

    /// The frame with the pixel of the current dot written: red, green,
    /// blue of the colour at `pixel_color_addr`, and full alpha.
    pub open spec fn pixel_drawn(self, cart: Cartridge) -> [u8; BUF_SIZE] {
        let color = self.vram_byte(cart, self.pixel_color_addr() as u16) as int % 64;
        let index = (self.line * 256 + self.dot - 1) * 4;
        spec_array_update(
            spec_array_update(
                spec_array_update(
                    spec_array_update(*self.rs.buf, index, PALETTES[color][0]),
                    index + 1,
                    PALETTES[color][1],
                ),
                index + 2,
                PALETTES[color][2],
            ),
            index + 3,
            255u8,
        )
    }

    /// The picture unit after it put out the pixel of a visible dot.
    pub open spec fn pixel_stepped(self, cart: Cartridge) -> Ppu {
        Ppu {
            status: if self.sprite_zero_hits() {
                self.status.with_flag(6, true)
            } else {
                self.status
            },
            rs: RenderState {
                buf: Box::new(self.pixel_drawn(cart)),
                sprites: stepped_all(self.rs.sprites),
                ..self.rs
            },
            ..self
        }
    }

    /// The 2-bit palette number of the current tile within its attribute
    /// byte, which covers 4x4 tiles in four quadrants.
    pub open spec fn tile_attr(self) -> int {
        let q = (self.v.coarse_x_of() / 2) % 2 + ((self.v.coarse_y_of() / 2) % 2) * 2;
        bits_at(self.rs.attr_byte as int, 2 * q, 2 * q + 2)
    }

    /// Address of the low pattern row of the current background tile.
    pub open spec fn tile_row_addr(self) -> int {
        self.ctrl.bg_pattern_table_of() + self.v.y_of() + self.rs.nm_byte * 0x10
    }

    /// The background pipeline on a dot of a fetch region: the shifters
    /// move on; the nametable byte comes in on phase 1, the attribute
    /// byte on phase 3, and on phase 7 both pattern rows are latched and
    /// `v` moves one tile to the right. Dot 256 moves `v` one row down.
    pub open spec fn bg_fetched(self, cart: Cartridge) -> Ppu {
        let rs = RenderState {
            attr_bits: self.rs.attr_bits.shifted(),
            tile_bits: self.rs.tile_bits.shifted(),
            ..self.rs
        };
        let phase = (self.dot - 1) % 8;
        let f = if phase == 1 {
            Ppu {
                rs: RenderState {
                    nm_byte: self.vram_byte(cart, self.v.tile_addr_of() as u16),
                    ..rs
                },
                ..self
            }
        } else if phase == 3 {
            Ppu {
                rs: RenderState {
                    attr_byte: self.vram_byte(cart, self.v.attr_addr_of() as u16),
                    ..rs
                },
                ..self
            }
        } else if phase == 7 {
            let attr = self.tile_attr();
            let b0 = self.vram_byte(cart, self.tile_row_addr() as u16);
            let b1 = self.vram_byte(cart, (self.tile_row_addr() + 8) as u16);
            Ppu {
                rs: RenderState {
                    tile_bits: rs.tile_bits.latched(b0, b1),
                    attr_bits: rs.attr_bits.latched(spread(bit_at(attr, 0)), spread(bit_at(attr, 1))),
                    ..rs
                },
                v: self.v.next_coarse_x(),
                ..self
            }
        } else {
            Ppu { rs, ..self }
        };
        if self.dot == 256 {
            Ppu { v: f.v.next_y(), ..f }
        } else {
            f
        }
    }

    /// One dot of the background on a rendering scanline: fetches on dots
    /// 1-256 and 321-336; dot 257 copies the horizontal position from `t`;
    /// dots 280-304 of the pre-render line copy the vertical position.
    pub open spec fn bg_stepped(self, cart: Cartridge) -> Ppu {
        let a = if (1 <= self.dot <= 256) || (321 <= self.dot <= 336) {
            self.bg_fetched(cart)
        } else {
            self
        };
        let b = if self.dot == 257 { Ppu { v: a.v.with_x_of(a.t), ..a } } else { a };
        if self.line == 261 && 280 <= self.dot <= 304 {
            Ppu { v: b.v.with_y_of(b.t), ..b }
        } else {
            b
        }
    }

    /// Sprite evaluation starts over: secondary OAM holds `0xff`.
    pub open spec fn sp_cleared(self) -> Ppu {
        Ppu {
            rs: RenderState {
                sec_oam: [0xffu8;ACTIVE_OAM_SIZE],
                sp_n: 0,
                sp_count: 0,
                sp_zero: false,
                ..self.rs
            },
            status: self.status.with_flag(5, false),
            ..self
        }
    }

    /// Whether the sprite at OAM entry `n` crosses the current scanline.
    pub open spec fn sprite_in_range(self, n: int) -> bool {
        let y = self.oam[n * 4] as int;
        y <= self.line < y + self.ctrl.sp_size_of()
    }

    /// Evaluation of one OAM entry: a sprite that crosses the scanline is
    /// copied to secondary OAM while fewer than eight were found; one
    /// more sets the overflow flag.
    pub open spec fn sp_evaluated(self) -> Ppu {
        let n = self.rs.sp_n as int;
        if n >= 64 {
            self
        } else if !self.sprite_in_range(n) {
            Ppu { rs: RenderState { sp_n: (n + 1) as usize, ..self.rs }, ..self }
        } else if self.rs.sp_count < 8 {
            let c = self.rs.sp_count as int * 4;
            Ppu {
                rs: RenderState {
                    sec_oam: spec_array_update(
                        spec_array_update(
                            spec_array_update(
                                spec_array_update(self.rs.sec_oam, c, self.oam[n * 4]),
                                c + 1,
                                self.oam[n * 4 + 1],
                            ),
                            c + 2,
                            self.oam[n * 4 + 2],
                        ),
                        c + 3,
                        self.oam[n * 4 + 3],
                    ),
                    sp_count: (self.rs.sp_count + 1) as usize,
                    sp_zero: self.rs.sp_zero || n == 0,
                    sp_n: (n + 1) as usize,
                    ..self.rs
                },
                ..self
            }
        } else {
            Ppu {
                rs: RenderState { sp_n: (n + 1) as usize, ..self.rs },
                status: self.status.with_flag(5, true),
                ..self
            }
        }
    }

    /// Sprite slot `n` as loaded from entry `n` of secondary OAM. The
    /// pattern rows of a slot in use come from the cartridge; bit 6 of the
    /// attribute byte mirrors them, bits 0-1 pick the palette, bit 5 puts
    /// the sprite behind the background.
    pub open spec fn sprite_loaded(self, cart: Cartridge, n: int) -> SpriteState {
        let y = self.rs.sec_oam[n * 4];
        let index = self.rs.sec_oam[n * 4 + 1];
        let attr = self.rs.sec_oam[n * 4 + 2];
        let placed = SpriteState {
            x: self.rs.sec_oam[n * 4 + 3],
            is_sp_zero: n == 0 && self.rs.sp_zero,
            ..self.rs.sprites[n]
        };
        if n < self.rs.sp_count {
            let row_addr = sprite_row_addr(self.ctrl, index, attr, sprite_row(self.line, y));
            let r0 = self.vram_byte(cart, row_addr as u16);
            let r1 = self.vram_byte(cart, (row_addr + 8) as u16);
            let mirrored = bit_at(attr as int, 6);
            let b0 = if mirrored { reversed8(r0 as int) as u8 } else { r0 };
            let b1 = if mirrored { reversed8(r1 as int) as u8 } else { r1 };
            SpriteState {
                tile_bits: placed.tile_bits.loaded(b0, b1),
                attr_bits: placed.attr_bits.loaded(
                    spread(bit_at(attr as int, 0)),
                    spread(bit_at(attr as int, 1)),
                ),
                priority: if bit_at(attr as int, 5) { 1 } else { 0 },
                ..placed
            }
        } else {
            placed
        }
    }

    /// One dot of sprite work on a rendering scanline: dot 64 clears
    /// secondary OAM, dots 65-256 evaluate one OAM entry each (neither on
    /// the pre-render line), and every eighth dot of 257-320 loads one
    /// sprite slot.
    pub open spec fn sp_stepped(self, cart: Cartridge) -> Ppu {
        let a = if self.dot == 64 && self.line != 261 { self.sp_cleared() } else { self };
        let b = if 65 <= self.dot <= 256 && self.line != 261 { a.sp_evaluated() } else { a };
        if 257 <= self.dot <= 320 && (self.dot - 257) % 8 == 7 {
            let n = (self.dot - 257) / 8;
            Ppu {
                rs: RenderState {
                    sprites: spec_array_update(b.rs.sprites, n, b.sprite_loaded(cart, n)),
                    ..b.rs
                },
                ..b
            }
        } else {
            b
        }
    }

    /// The renderer's work on the current dot: a pixel on the visible
    /// dots, then background and sprite fetches on the visible and the
    /// pre-render scanlines, each if its layer is switched on.
    pub open spec fn updated(self, cart: Cartridge) -> Ppu {
        let a = if self.line < 240 && 1 <= self.dot <= 256 {
            self.pixel_stepped(cart)
        } else {
            self
        };
        if self.line < 240 || self.line == 261 {
            let b = if self.mask.show_bg_of() { a.bg_stepped(cart) } else { a };
            if self.mask.show_sp_of() {
                b.sp_stepped(cart)
            } else {
                b
            }
        } else {
            a
        }
    }

    /// Whether the tick at the current dot ends the frame's odd-frame
    /// short line: dot 339 of the pre-render line, background on.
    pub open spec fn skips_dot(self) -> bool {
        self.line == 261 && self.dot == 339 && self.mask.show_bg_of() && self.frames % 2 == 1
    }

    /// The position one dot on: 341 dots to a line, 262 lines to a frame.
    pub open spec fn advanced(self) -> Ppu {
        if self.dot >= 340 || self.skips_dot() {
            if self.line >= 261 {
                Ppu {
                    dot: 0,
                    line: 0,
                    frames: if self.frames == u64::MAX { 0 } else { (self.frames + 1) as u64 },
                    ..self
                }
            } else {
                Ppu { dot: 0, line: (self.line + 1) as u16, ..self }
            }
        } else {
            Ppu { dot: (self.dot + 1) as u16, ..self }
        }
    }

    /// The flags and buffers at the two marked dots: dot 1 of line 241
    /// raises vertical blank and, if enabled, the NMI edge; dot 1 of the
    /// pre-render line clears the three status flags and shows the
    /// finished frame.
    pub open spec fn flagged(self) -> Ppu {
        if self.line == 241 && self.dot == 1 {
            Ppu {
                status: self.status.with_flag(7, true),
                nmi: self.nmi || self.ctrl.nmi_on_of(),
                ..self
            }
        } else if self.line == 261 && self.dot == 1 {
            Ppu {
                status: self.status.with_flag(7, false).with_flag(6, false).with_flag(5, false),
                rs: RenderState { buf: self.rs.back_buf, back_buf: self.rs.buf, ..self.rs },
                ..self
            }
        } else {
            self
        }
    }

    /// The picture unit one dot later.
    #[verifier::opaque]
    pub open spec fn ticked(self, cart: Cartridge) -> Ppu {
        self.updated(cart).flagged().advanced()
    }

    /// Whether the tick at the current dot tells the mapper that a
    /// scanline went by: dot 260 of a rendering line with a layer on.
    pub open spec fn signals_scanline(self) -> bool {
        (self.line < 240 || self.line == 261) && self.dot == 260 && (self.mask.show_bg_of()
            || self.mask.show_sp_of())
    }

    /// The cartridge after a tick of the picture unit.
    pub open spec fn ticked_cart(self, cart: Cartridge) -> Cartridge {
        if self.signals_scanline() {
            Cartridge { mapper: cart.mapper.scanline_passed(), ..cart }
        } else {
            cart
        }
    }

    /// Whether scanline and dot lie on the frame's grid.
    pub open spec fn on_grid(self) -> bool {
        self.line < 262 && self.dot < 341
    }

    /// The state after power-on.
    pub open spec fn initial() -> Ppu {
        Ppu {
            nametables: [0u8;NAMETABLE_SIZE],
            palettes: [0u8;PALETTES_SIZE],
            oam: [0u8;OAM_SIZE],
            ctrl: PpuCtrl(0),
            mask: PpuMask(0),
            status: PpuStatus(0),
            oam_addr: 0,
            data_buf: 0,
            v: VramAddr(0),
            t: VramAddr(0),
            x: 0,
            w: WriteLatch::Step0,
            frames: 0,
            line: 0,
            dot: 0,
            nmi: false,
            rs: RenderState::blank(),
        }
    }

    /// The state after a reset: timing, scroll, renderer, nametables and
    /// palette RAM start over; registers and OAM stay.
    pub open spec fn reset_state(self) -> Ppu {
        Ppu {
            dot: 0,
            line: 0,
            frames: 0,
            rs: RenderState::blank(),
            v: VramAddr(0),
            t: VramAddr(0),
            x: 0,
            w: WriteLatch::Step0,
            nametables: [0u8;NAMETABLE_SIZE],
            palettes: [0u8;PALETTES_SIZE],
            ..self
        }
    }

    pub fn new() -> (p: Self)
        ensures
            p == Ppu::initial(),
    {
        Ppu {
            nametables: [0u8;NAMETABLE_SIZE],
            palettes: [0u8;PALETTES_SIZE],
            oam: [0u8;OAM_SIZE],
            ctrl: PpuCtrl(0),
            mask: PpuMask(0),
            status: PpuStatus(0),
            oam_addr: 0,
            data_buf: 0,
            v: VramAddr(0),
            t: VramAddr(0),
            x: 0,
            w: WriteLatch::Step0,
            frames: 0,
            line: 0,
            dot: 0,
            nmi: false,
            rs: RenderState::new(),
        }
    }

    pub fn reset(&mut self)
        ensures
            *final(self) == old(self).reset_state(),
    {
        self.dot = 0;
        self.line = 0;
        self.frames = 0;
        self.rs = RenderState::new();
        self.v = VramAddr(0);
        self.t = VramAddr(0);
        self.x = 0;
        self.w = WriteLatch::Step0;
        self.nametables = [0u8;NAMETABLE_SIZE];
        self.palettes = [0u8;PALETTES_SIZE];
    }

    /// Finds the sprite that shows at the current dot.
    fn first_sprite(&self) -> (r: usize)
        ensures
            r == first_opaque(self.rs.sprites, 0),
            r <= 8,
    {
        let mut i: usize = 0;
        while i < 8
            invariant
                i <= 8,
                first_opaque(self.rs.sprites, 0) == first_opaque(self.rs.sprites, i as int),
            decreases 8 - i,
        {
            let sp = self.rs.sprites[i];
            if sp.x == 0 && sp.tile_bits.get(0) != 0 {
                return i;
            }
            i = i + 1;
        }
        8
    }

    /// Moves every sprite of the scanline on by one dot.
    fn step_sprites(&mut self)
        ensures
            *final(self) == (Ppu {
                rs: RenderState { sprites: stepped_all(old(self).rs.sprites), ..old(self).rs },
                ..*old(self)
            }),
    {
        let mut i: usize = 0;
        while i < 8
            invariant
                i <= 8,
                forall|j: int| 0 <= j < i ==> self.rs.sprites[j] == old(self).rs.sprites[j].stepped(),
                forall|j: int| i <= j < 8 ==> self.rs.sprites[j] == old(self).rs.sprites[j],
                *self == (Ppu {
                    rs: RenderState { sprites: self.rs.sprites, ..old(self).rs },
                    ..*old(self)
                }),
            decreases 8 - i,
        {
            let mut sp = self.rs.sprites[i];
            sp.step();
            self.rs.sprites[i] = sp;
            i = i + 1;
        }
        assert(self.rs.sprites =~= stepped_all(old(self).rs.sprites));
    }

    /// Puts out the pixel of a visible dot.
    fn output_pixel(&mut self, cart: &Cartridge)
        requires
            old(self).line < 240,
            1 <= old(self).dot <= 256,
        ensures
            *final(self) == old(self).pixel_stepped(*cart),
    {
        let fx: usize = (self.x % 8) as usize;
        let bg_tile: u16 = if self.mask.show_bg() {
            self.rs.tile_bits.get(fx)
        } else {
            0
        };
        let bg_pal: u16 = self.rs.attr_bits.get(fx);
        let hit: usize = if self.mask.show_sp() {
            self.first_sprite()
        } else {
            8
        };
        let mut color_addr: u16 = 0x3f00;
        let mut sp_zero: bool = false;
        let mut sprite_wins: bool = false;
        if hit < 8 {
            let sp = self.rs.sprites[hit];
            sp_zero = sp.is_sp_zero;
            if bg_tile == 0 || sp.priority == 0 {
                color_addr = 0x3f10 + sp.attr_bits.get(0) * 4 + sp.tile_bits.get(0);
                sprite_wins = true;
            }
        }
        if !sprite_wins && bg_tile != 0 {
            color_addr = 0x3f00 + bg_pal * 4 + bg_tile;
        }
        assert(color_addr == old(self).pixel_color_addr());
        let color: usize = (self.read_vram(cart, color_addr) % 64) as usize;
        if sp_zero && bg_tile != 0 {
            self.status.set_sp0_hit(true);
        }
        let index: usize = (self.line as usize * 256 + self.dot as usize - 1) * 4;
        let rgb: [u8; 3] = PALETTES[color];
        self.rs.buf[index] = rgb[0];
        self.rs.buf[index + 1] = rgb[1];
        self.rs.buf[index + 2] = rgb[2];
        self.rs.buf[index + 3] = 255;
        assert(*self.rs.buf =~= old(self).pixel_drawn(*cart));
        self.step_sprites();
    }

    /// Latches the pattern rows and the palette of the current tile and
    /// moves `v` one tile to the right.
    fn latch_tile(&mut self, cart: &Cartridge)
        ensures
            *final(self) == (Ppu {
                rs: RenderState {
                    tile_bits: old(self).rs.tile_bits.latched(
                        old(self).vram_byte(*cart, old(self).tile_row_addr() as u16),
                        old(self).vram_byte(*cart, (old(self).tile_row_addr() + 8) as u16),
                    ),
                    attr_bits: old(self).rs.attr_bits.latched(
                        spread(bit_at(old(self).tile_attr(), 0)),
                        spread(bit_at(old(self).tile_attr(), 1)),
                    ),
                    ..old(self).rs
                },
                v: old(self).v.next_coarse_x(),
                ..*old(self)
            }),
    {
        let q: usize = ((self.v.coarse_x() / 2) % 2 + ((self.v.coarse_y() / 2) % 2) * 2) as usize;
        let attr: u8 = get_bits_u8(self.rs.attr_byte, 2 * q, 2 * q + 2);
        assert(attr == self.tile_attr());
        let chr_addr: u16 = self.ctrl.bg_pattern_table() + self.v.y() + self.rs.nm_byte as u16
            * 0x10;
        assert(chr_addr == self.tile_row_addr());
        let b0: u8 = self.read_vram(cart, chr_addr);
        let b1: u8 = self.read_vram(cart, chr_addr + 8);
        let a0: u8 = if get_bit_u8(attr, 0) { 0xff } else { 0 };
        let a1: u8 = if get_bit_u8(attr, 1) { 0xff } else { 0 };
        let mut tile_bits: ShiftReg = self.rs.tile_bits;
        tile_bits.latch(b0, b1);
        let mut attr_bits: ShiftReg = self.rs.attr_bits;
        attr_bits.latch(a0, a1);
        self.rs.tile_bits = tile_bits;
        self.rs.attr_bits = attr_bits;
        let mut v: VramAddr = self.v;
        v.inc_coarse_x();
        self.v = v;
    }

    /// The background pipeline on a dot of a fetch region.
    fn fetch_bg(&mut self, cart: &Cartridge)
        requires
            old(self).dot >= 1,
        ensures
            *final(self) == old(self).bg_fetched(*cart),
    {
        self.rs.tile_bits = ShiftReg(self.rs.tile_bits.0 / 2, self.rs.tile_bits.1 / 2);
        self.rs.attr_bits = ShiftReg(self.rs.attr_bits.0 / 2, self.rs.attr_bits.1 / 2);
        let ghost shifted = *self;
        assert(shifted.tile_attr() == old(self).tile_attr());
        assert(shifted.tile_row_addr() == old(self).tile_row_addr());
        let phase: u16 = (self.dot - 1) % 8;
        if phase == 1 {
            let b: u8 = self.read_vram(cart, self.v.tile_addr());
            self.rs.nm_byte = b;
        } else if phase == 3 {
            let b: u8 = self.read_vram(cart, self.v.attr_addr());
            self.rs.attr_byte = b;
        } else if phase == 7 {
            self.latch_tile(cart);
        }
        if self.dot == 256 {
            let mut v: VramAddr = self.v;
            v.inc_y();
            self.v = v;
        }
    }

    /// One dot of background work on a rendering scanline.
    pub fn update_bg(&mut self, cart: &Cartridge)
        ensures
            *final(self) == old(self).bg_stepped(*cart),
    {
        let dot: u16 = self.dot;
        if (1 <= dot && dot <= 256) || (321 <= dot && dot <= 336) {
            self.fetch_bg(cart);
        }
        if dot == 257 {
            let t = self.t;
            self.v.copy_vx(&t);
        }
        if self.line == 261 && 280 <= dot && dot <= 304 {
            let t = self.t;
            self.v.copy_vy(&t);
        }
    }

    /// Copies the OAM entry under evaluation to secondary OAM if it
    /// crosses the scanline.
    fn evaluate_sprite(&mut self)
        ensures
            *final(self) == old(self).sp_evaluated(),
    {
        let n: usize = self.rs.sp_n;
        if n < 64 {
            let a0: usize = n * 4;
            let y: usize = self.oam[a0] as usize;
            let line: usize = self.line as usize;
            if y <= line && line < y + self.ctrl.sp_size() {
                if self.rs.sp_count < 8 {
                    let a1: usize = self.rs.sp_count * 4;
                    self.rs.sec_oam[a1] = self.oam[a0];
                    self.rs.sec_oam[a1 + 1] = self.oam[a0 + 1];
                    self.rs.sec_oam[a1 + 2] = self.oam[a0 + 2];
                    self.rs.sec_oam[a1 + 3] = self.oam[a0 + 3];
                    assert(self.rs.sec_oam =~= old(self).sp_evaluated().rs.sec_oam);
                    self.rs.sp_count = self.rs.sp_count + 1;
                    if n == 0 {
                        self.rs.sp_zero = true;
                    }
                } else {
                    self.status.set_sp_overflow(true);
                }
            }
            self.rs.sp_n = n + 1;
        }
    }

    /// Loads sprite slot `n` from secondary OAM and the pattern tables.
    fn load_sprite(&mut self, cart: &Cartridge, n: usize)
        requires
            n < 8,
        ensures
            *final(self) == (Ppu {
                rs: RenderState {
                    sprites: spec_array_update(
                        old(self).rs.sprites,
                        n as int,
                        old(self).sprite_loaded(*cart, n as int),
                    ),
                    ..old(self).rs
                },
                ..*old(self)
            }),
    {
        let a: usize = n * 4;
        let y: u8 = self.rs.sec_oam[a];
        let index: u8 = self.rs.sec_oam[a + 1];
        let attr: u8 = self.rs.sec_oam[a + 2];
        let mut sp = self.rs.sprites[n];
        sp.x = self.rs.sec_oam[a + 3];
        sp.is_sp_zero = n == 0 && self.rs.sp_zero;
        if n < self.rs.sp_count {
            let row: u16 = if self.line >= y as u16 {
                self.line - y as u16
            } else {
                0xffff - (y as u16 - self.line) + 1
            };
            let flip: bool = get_bit_u8(attr, 7);
            let tile_y: u16 = if flip { 7 - row % 8 } else { row % 8 };
            let tile_addr: u16 = if self.ctrl.sp_size() == 8 {
                self.ctrl.sp_pattern_table() + index as u16 * 0x10
            } else {
                let second: u16 = if (row >= 8) != flip { 1 } else { 0 };
                (index as u16 % 2) * 0x1000 + (index as u16 / 2 * 2 + second) * 0x10
            };
            assert(row == sprite_row(self.line, y));
            assert(tile_addr + tile_y == sprite_row_addr(self.ctrl, index, attr, row as int));
            let r0: u8 = self.read_vram(cart, tile_addr + tile_y);
            let r1: u8 = self.read_vram(cart, tile_addr + tile_y + 8);
            let mirrored: bool = get_bit_u8(attr, 6);
            let b0: u8 = if mirrored { r0.reverse_bits() } else { r0 };
            let b1: u8 = if mirrored { r1.reverse_bits() } else { r1 };
            let a0: u8 = if get_bit_u8(attr, 0) { 0xff } else { 0 };
            let a1: u8 = if get_bit_u8(attr, 1) { 0xff } else { 0 };
            sp.tile_bits.load(b0, b1);
            sp.attr_bits.load(a0, a1);
            sp.priority = if get_bit_u8(attr, 5) { 1 } else { 0 };
        }
        assert(sp == old(self).sprite_loaded(*cart, n as int));
        self.rs.sprites[n] = sp;
        assert(self.rs.sprites =~= spec_array_update(
            old(self).rs.sprites,
            n as int,
            old(self).sprite_loaded(*cart, n as int),
        ));
    }

    /// One dot of sprite work on a rendering scanline.
    pub fn update_sp(&mut self, cart: &Cartridge)
        ensures
            *final(self) == old(self).sp_stepped(*cart),
    {
        let dot: u16 = self.dot;
        let line: u16 = self.line;
        if dot == 64 && line != 261 {
            self.rs.sec_oam = [0xffu8;ACTIVE_OAM_SIZE];
            self.rs.sp_n = 0;
            self.rs.sp_count = 0;
            self.rs.sp_zero = false;
            self.status.set_sp_overflow(false);
        }
        if 65 <= dot && dot <= 256 && line != 261 {
            self.evaluate_sprite();
        }
        if 257 <= dot && dot <= 320 && (dot - 257) % 8 == 7 {
            self.load_sprite(cart, ((dot - 257) / 8) as usize);
        }
    }

    /// The renderer's work on the current dot.
    pub fn update(&mut self, cart: &Cartridge)
        ensures
            *final(self) == old(self).updated(*cart),
    {
        let line: u16 = self.line;
        let dot: u16 = self.dot;
        if line < 240 && 1 <= dot && dot <= 256 {
            self.output_pixel(cart);
        }
        if line < 240 || line == 261 {
            if self.mask.show_bg() {
                self.update_bg(cart);
            }
            if self.mask.show_sp() {
                self.update_sp(cart);
            }
        }
    }

    /// Advances the picture unit by one dot.
    pub fn tick(&mut self, cart: &mut Cartridge)
        ensures
            *final(self) == old(self).ticked(*old(cart)),
            *final(cart) == old(self).ticked_cart(*old(cart)),
    {
        reveal(Ppu::ticked);
        let signal: bool = (self.line < 240 || self.line == 261) && self.dot == 260 && (
        self.mask.show_bg() || self.mask.show_sp());
        self.update(cart);
        if self.line == 241 && self.dot == 1 {
            self.status.set_vblank(true);
            if self.ctrl.nmi_on() {
                self.nmi = true;
            }
        } else if self.line == 261 && self.dot == 1 {
            self.status.set_vblank(false);
            self.status.set_sp0_hit(false);
            self.status.set_sp_overflow(false);
            std::mem::swap(&mut self.rs.buf, &mut self.rs.back_buf);
        }
        let skip: bool = self.line == 261 && self.dot == 339 && self.mask.show_bg() && self.frames
            % 2 == 1;
        if self.dot >= 340 || skip {
            self.dot = 0;
            if self.line >= 261 {
                self.line = 0;
                self.frames = if self.frames == u64::MAX {
                    0
                } else {
                    self.frames + 1
                };
            } else {
                self.line = self.line + 1;
            }
        } else {
            self.dot = self.dot + 1;
        }
        if signal {
            cart.update_scanline();
        }
    }

    /// Reads the NMI edge and consumes it.
    pub fn poll_nmi(&mut self) -> (r: bool)
        ensures
            r == old(self).nmi,
            *final(self) == (Ppu { nmi: false, ..*old(self) }),
    {
        let r = self.nmi;
        self.nmi = false;
        r
    }

    /// The scanline and the dot about to be processed.
    pub fn timing(&self) -> (r: (usize, usize))
        ensures
            r.0 == self.line,
            r.1 == self.dot,
    {
        (self.line as usize, self.dot as usize)
    }

    /// The last completed frame, four bytes per pixel, row by row.
    pub fn display_buf(&self) -> (r: &[u8])
        ensures
            r@ == self.rs.back_buf@,
    {
        self.rs.back_buf.as_slice()
    }

    pub fn read_vram(&self, cart: &Cartridge, addr: u16) -> (r: u8)
        ensures
            r == self.vram_byte(*cart, addr),
    {
        let a: u16 = addr % 0x4000;
        if a < 0x2000 {
            cart.read_chr(a)
        } else if a < 0x3f00 {
            self.nametables[cart.nm_addr(a)]
        } else {
            let i: usize = (a % 32) as usize;
            if i % 4 == 0 {
                self.palettes[0]
            } else {
                self.palettes[i]
            }
        }
    }

    pub fn write_vram(&mut self, cart: &mut Cartridge, addr: u16, data: u8)
        ensures
            *final(self) == old(self).vram_written(*old(cart), addr, data),
            *final(cart) == Ppu::chr_after_write(*old(cart), addr, data),
    {
        let a: u16 = addr % 0x4000;
        if a < 0x2000 {
            cart.write_chr(a, data);
        } else if a < 0x3f00 {
            let i: usize = cart.nm_addr(a);
            self.nametables[i] = data;
            assert(self.nametables =~= spec_array_update(old(self).nametables, i as int, data));
        } else {
            let i: usize = (a % 32) as usize;
            let d: u8 = data % 64;
            if i % 4 == 0 {
                self.palettes[i % 16] = d;
                self.palettes[i % 16 + 16] = d;
                assert(self.palettes =~= spec_array_update(
                    spec_array_update(old(self).palettes, (i % 16) as int, d),
                    (i % 16 + 16) as int,
                    d,
                ));
            } else {
                self.palettes[i] = d;
                assert(self.palettes =~= spec_array_update(old(self).palettes, i as int, d));
            }
        }
    }

    /// What a read of register `addr` would return, without the read's
    /// effects.
    pub fn peek(&self, cart: &Cartridge, addr: u16) -> (r: u8)
        ensures
            r == self.reg_value(*cart, addr),
    {
        reveal(Ppu::reg_value);
        let reg: u16 = addr % 8;
        if reg == 2 {
            self.status.get()
        } else if reg == 4 {
            self.oam[self.oam_addr as usize]
        } else if reg == 7 {
            let a: u16 = self.v.addr();
            if a < 0x3f00 {
                self.data_buf
            } else {
                self.read_vram(cart, a)
            }
        } else {
            0
        }
    }

    pub fn read(&mut self, cart: &Cartridge, addr: u16) -> (r: u8)
        ensures
            r == old(self).reg_value(*cart, addr),
            *final(self) == old(self).reg_read(*cart, addr),
    {
        reveal(Ppu::reg_value);
        reveal(Ppu::reg_read);
        let reg: u16 = addr % 8;
        if reg == 2 {
            let b: u8 = self.status.get();
            self.status.set_vblank(false);
            self.w = WriteLatch::Step0;
            b
        } else if reg == 4 {
            self.oam[self.oam_addr as usize]
        } else if reg == 7 {
            let a: u16 = self.v.addr();
            let data: u8 = self.data_buf;
            self.data_buf = self.read_vram(cart, a);
            self.v.inc(self.ctrl.addr_inc());
            if a < 0x3f00 {
                data
            } else {
                self.data_buf
            }
        } else {
            0
        }
    }

    pub fn write(&mut self, cart: &mut Cartridge, addr: u16, data: u8)
        ensures
            *final(self) == old(self).reg_written(*old(cart), addr, data),
            *final(cart) == old(self).reg_written_cart(*old(cart), addr, data),
    {
        reveal(Ppu::reg_written);
        reveal(Ppu::reg_written_cart);
        let reg: u16 = addr % 8;
        if reg == 0 {
            self.ctrl.set(data);
            self.t.set_nm(self.ctrl.nametable());
        } else if reg == 1 {
            self.mask.set(data);
        } else if reg == 3 {
            self.oam_addr = data;
        } else if reg == 4 {
            self.oam[self.oam_addr as usize] = data;
            assert(self.oam =~= spec_array_update(old(self).oam, old(self).oam_addr as int, data));
            self.oam_addr = if self.oam_addr == 255 {
                0
            } else {
                self.oam_addr + 1
            };
        } else if reg == 5 {
            match self.w {
                WriteLatch::Step0 => {
                    self.t.set_coarse_x((data / 8) as u16);
                    self.x = data % 8;
                    self.w = WriteLatch::Step1;
                },
                WriteLatch::Step1 => {
                    self.t.set_coarse_y((data / 8) as u16);
                    self.t.set_y((data % 8) as u16);
                    self.w = WriteLatch::Step0;
                },
            }
        } else if reg == 6 {
            match self.w {
                WriteLatch::Step0 => {
                    self.t.set_bits(8, 15, (data % 64) as u16);
                    self.w = WriteLatch::Step1;
                },
                WriteLatch::Step1 => {
                    self.t.set_bits(0, 8, data as u16);
                    self.v = self.t;
                    self.w = WriteLatch::Step0;
                },
            }
        } else if reg == 7 {
            let a: u16 = self.v.addr();
            self.write_vram(cart, a, data);
            self.v.inc(self.ctrl.addr_inc());
        }
    }

    /// Stores one byte of sprite memory, as OAM-DMA does.
    pub fn write_oam(&mut self, addr: u16, data: u8)
        requires
            addr < 0x100,
        ensures
            *final(self) == (Ppu {
                oam: spec_array_update(old(self).oam, addr as int, data),
                ..*old(self)
            }),
    {
        self.oam[addr as usize] = data;
        assert(self.oam =~= spec_array_update(old(self).oam, addr as int, data));
    }
}

/// The entries 0 of the four sprite palettes read as those of the
/// background palettes: `$3F10`, `$3F14`, `$3F18` and `$3F1C` show what
/// `$3F00`, `$3F04`, `$3F08` and `$3F0C` show.
pub proof fn lemma_palette_mirror_read(ppu: Ppu, cart: Cartridge, addr: u16)
    requires
        addr == 0x3f10 || addr == 0x3f14 || addr == 0x3f18 || addr == 0x3f1c,
    ensures
        ppu.vram_byte(cart, addr) == ppu.vram_byte(cart, (addr - 0x10) as u16),
{
}

/// A write to entry 0 of a palette through either of its two addresses
/// leaves palette memory the same, with the value in both halves.
pub proof fn lemma_palette_mirror_write(ppu: Ppu, cart: Cartridge, addr: u16, data: u8)
    requires
        addr == 0x3f10 || addr == 0x3f14 || addr == 0x3f18 || addr == 0x3f1c,
    ensures
        ppu.vram_written(cart, addr, data) == ppu.vram_written(cart, (addr - 0x10) as u16, data),
        ppu.vram_written(cart, addr, data).palettes[addr - 0x3f00] == data % 64,
        ppu.vram_written(cart, addr, data).palettes[addr - 0x3f10] == data % 64,
{
    let lo = (addr - 0x10) as u16;
    assert(ppu.vram_written(cart, addr, data).palettes =~= ppu.vram_written(
        cart,
        lo,
        data,
    ).palettes);
}

/// The byte written to entry 0 of the first palette through its sprite
/// address `$3F10` is read back through both `$3F00` and `$3F10`.
pub proof fn lemma_palette_write_read(ppu: Ppu, cart: Cartridge, data: u8)
    ensures
        ppu.vram_written(cart, 0x3f10, data).vram_byte(cart, 0x3f00) == data % 64,
        ppu.vram_written(cart, 0x3f10, data).vram_byte(cart, 0x3f10) == data % 64,
{
}

/// Two writes to the scroll port followed by two writes to the address
/// port, from a clear write latch on: the address port has the last
/// word. `v` equals `t`, its 15 bits hold the six low bits of `c` above
/// `d`, fine X holds the three low bits of `a`, and the latch is clear
/// again.
pub proof fn lemma_scroll_then_address(ppu: Ppu, cart: Cartridge, a: u8, b: u8, c: u8, d: u8)
    requires
        ppu.w == WriteLatch::Step0,
    ensures
        ({
            let after = ppu.reg_written(cart, 0x2005, a).reg_written(cart, 0x2005, b).reg_written(
                cart,
                0x2006,
                c,
            ).reg_written(cart, 0x2006, d);
            &&& after.v == after.t
            &&& after.v.0 % 0x8000 == (c % 64) * 256 + d
            &&& after.x == a % 8
            &&& after.w == WriteLatch::Step0
        }),
{
    reveal(Ppu::reg_written);
    let scrolled_x = ppu.reg_written(cart, 0x2005, a);
    assert(scrolled_x.w == WriteLatch::Step1 && scrolled_x.x == a % 8);
    let scrolled = scrolled_x.reg_written(cart, 0x2005, b);
    assert(scrolled.w == WriteLatch::Step0 && scrolled.x == a % 8);
    let half = scrolled.reg_written(cart, 0x2006, c);
    assert(half.w == WriteLatch::Step1 && half.x == a % 8);
    assert(half.t == scrolled.t.with_field(8, 15, c as int % 64));
    let addressed = half.reg_written(cart, 0x2006, d);
    assert(addressed.t == half.t.with_field(0, 8, d as int));
    assert(addressed.v == addressed.t);
    crate::ppu::regs::lemma_address_overwritten(scrolled.t, c as int % 64, d as int);
}

/// A reset of a picture unit that was just reset changes nothing.
pub proof fn lemma_reset_idempotent(ppu: Ppu)
    ensures
        ppu.reset_state().reset_state() == ppu.reset_state(),
{
}

/// While scanline and dot lie on the frame's grid of 262 lines by 341
/// dots, a tick keeps them there.
pub proof fn lemma_tick_stays_on_grid(ppu: Ppu, cart: Cartridge)
    requires
        ppu.on_grid(),
    ensures
        ppu.ticked(cart).on_grid(),
{
    reveal(Ppu::ticked);
    let u = ppu.updated(cart);
    assert(u.line == ppu.line && u.dot == ppu.dot) by {
        lemma_update_keeps_position(ppu, cart);
    }
}

/// The renderer's work on a dot moves neither scanline nor dot, and
/// leaves the mask and the frame count alone.
pub proof fn lemma_update_keeps_position(ppu: Ppu, cart: Cartridge)
    ensures
        ppu.updated(cart).line == ppu.line,
        ppu.updated(cart).dot == ppu.dot,
        ppu.updated(cart).mask == ppu.mask,
        ppu.updated(cart).frames == ppu.frames,
{
}

} // verus!
