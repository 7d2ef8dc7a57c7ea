use les_nes::cart::Cartridge;
use les_nes::ppu::palettes::PALETTES;
use les_nes::ppu::views::{PATTERN_PIXELS, SCREEN_PIXELS, SPRITE_PIXELS};
use les_nes::ppu::Ppu;

fn rgb(pixel: [u8; 4]) -> [u8; 3] {
    [pixel[0], pixel[1], pixel[2]]
}

#[test]
fn palette_picture() {
    let mut ppu = Ppu::new();
    let mut cart = Cartridge::empty();
    for i in 0..32u16 {
        if i % 4 != 0 {
            ppu.write_vram(&mut cart, 0x3f00 + i, i as u8);
        }
    }
    ppu.write_vram(&mut cart, 0x3f00, 0x20);
    let mut buf = vec![[0u8, 0, 0, 7]; 16 * 600 + 5];
    ppu.render_palettes(&mut buf);
    assert_eq!(rgb(buf[0]), PALETTES[0x20]);
    assert_eq!(rgb(buf[15]), PALETTES[0x20]);
    assert_eq!(rgb(buf[16]), PALETTES[1]);
    assert_eq!(rgb(buf[16 * 15]), PALETTES[15]);
    // the second row of runs shows the same entries again
    assert_eq!(rgb(buf[16 * 17 + 3]), PALETTES[1]);
    // run 257 is entry 1 of the sprite palettes
    assert_eq!(rgb(buf[16 * 257]), PALETTES[17]);
    assert_eq!(rgb(buf[16 * 256]), PALETTES[0x20]);
    assert_eq!(rgb(buf[16 * 513]), PALETTES[1]);
    assert!(buf.iter().all(|p| p[3] == 7));
    // the last run is not full and stays as it was
    assert_eq!(buf[16 * 600], [0, 0, 0, 7]);
    assert_eq!(buf[16 * 600 + 4], [0, 0, 0, 7]);
}

#[test]
fn pattern_table_picture() {
    let mut ppu = Ppu::new();
    let mut cart = Cartridge::empty();
    cart.write_chr(0x0000, 0x80);
    cart.write_chr(0x1000 + 16 + 2 + 8, 0x01);
    ppu.write_vram(&mut cart, 0x3f00, 0x0f);
    ppu.write_vram(&mut cart, 0x3f05, 0x30);
    ppu.write_vram(&mut cart, 0x3f06, 0x21);
    let mut buf = vec![[0u8; 4]; PATTERN_PIXELS + 1];
    buf[PATTERN_PIXELS] = [1, 2, 3, 4];
    ppu.render_pattern_table(&cart, &mut buf, 1);
    assert_eq!(rgb(buf[0]), PALETTES[0x30]);
    assert_eq!(rgb(buf[1]), PALETTES[0x0f]);
    assert_eq!(rgb(buf[2 * 256 + 128 + 8 + 7]), PALETTES[0x21]);
    assert_eq!(rgb(buf[2 * 256 + 128 + 8 + 6]), PALETTES[0x0f]);
    assert_eq!(buf[PATTERN_PIXELS], [1, 2, 3, 4]);
    // palette 9 is palette 1
    let mut again = vec![[0u8; 4]; PATTERN_PIXELS];
    ppu.render_pattern_table(&cart, &mut again, 9);
    assert_eq!(again[..], buf[..PATTERN_PIXELS]);
}

#[test]
fn name_table_picture() {
    let mut ppu = Ppu::new();
    let mut cart = Cartridge::empty();
    for row in 0..8u16 {
        cart.write_chr(7 * 16 + row, 0xff);
    }
    ppu.write_vram(&mut cart, 0x2400 + 3 * 32 + 5, 7);
    ppu.write_vram(&mut cart, 0x2400 + 960 + 1, 0b0011_0000);
    ppu.write_vram(&mut cart, 0x3f00, 0x0f);
    ppu.write_vram(&mut cart, 0x3f0d, 0x2a);
    let mut buf = vec![[0u8; 4]; SCREEN_PIXELS];
    ppu.render_name_table(&cart, &mut buf, 1);
    assert_eq!(rgb(buf[28 * 256 + 40]), PALETTES[0x2a]);
    assert_eq!(rgb(buf[24 * 256 + 47]), PALETTES[0x2a]);
    assert_eq!(rgb(buf[31 * 256 + 47]), PALETTES[0x2a]);
    assert_eq!(rgb(buf[28 * 256 + 39]), PALETTES[0x0f]);
    assert_eq!(rgb(buf[28 * 256 + 48]), PALETTES[0x0f]);
    assert_eq!(rgb(buf[32 * 256 + 40]), PALETTES[0x0f]);
    let mut other = vec![[0u8; 4]; SCREEN_PIXELS];
    ppu.render_name_table(&cart, &mut other, 0);
    assert_eq!(rgb(other[28 * 256 + 40]), PALETTES[0x0f]);
    // with the background in the second pattern table the tile is empty
    ppu.write(&mut cart, 0x2000, 0x10);
    ppu.render_name_table(&cart, &mut buf, 5);
    assert_eq!(rgb(buf[28 * 256 + 40]), PALETTES[0x0f]);
}

#[test]
fn sprite_picture() {
    let mut ppu = Ppu::new();
    let mut cart = Cartridge::empty();
    cart.write_chr(2 * 16, 0x80);
    cart.write_chr(0x1000 + 2 * 16 + 1, 0x40);
    ppu.write_oam(33 * 4 + 1, 2);
    ppu.write_oam(33 * 4 + 2, 0xe1);
    ppu.write_oam(63 * 4 + 1, 5);
    ppu.write_vram(&mut cart, 0x3f00, 0x0f);
    ppu.write_vram(&mut cart, 0x3f15, 0x16);
    let mut buf = vec![[0u8; 4]; SPRITE_PIXELS];
    ppu.render_sprites(&cart, &mut buf);
    assert_eq!(rgb(buf[8 * 256 + 8]), PALETTES[0x16]);
    assert_eq!(rgb(buf[8 * 256 + 9]), PALETTES[0x0f]);
    assert_eq!(rgb(buf[0]), PALETTES[0x0f]);
    // sprites of 16 rows take their table from bit 0 of the tile number
    ppu.write_oam(33 * 4 + 1, 3);
    ppu.write(&mut cart, 0x2000, 0x20);
    ppu.render_sprites(&cart, &mut buf);
    assert_eq!(rgb(buf[8 * 256 + 8]), PALETTES[0x0f]);
    assert_eq!(rgb(buf[9 * 256 + 9]), PALETTES[0x16]);
}

#[test]
fn frame_picture() {
    let mut ppu = Ppu::new();
    let mut cart = Cartridge::empty();
    ppu.write_vram(&mut cart, 0x3f00, 0x11);
    for _ in 0..341 * 261 + 2 {
        ppu.tick(&mut cart);
    }
    let mut buf = vec![[9u8; 4]; SCREEN_PIXELS + 2];
    ppu.render_display(&mut buf);
    let c = PALETTES[0x11];
    assert_eq!(buf[0], [c[0], c[1], c[2], 9]);
    assert_eq!(buf[SCREEN_PIXELS - 1], [c[0], c[1], c[2], 9]);
    assert_eq!(buf[SCREEN_PIXELS], [9, 9, 9, 9]);
    let shown = ppu.display_buf();
    for k in [0usize, 1000, SCREEN_PIXELS - 1] {
        assert_eq!(&buf[k][..3], &shown[4 * k..4 * k + 3]);
    }
}
