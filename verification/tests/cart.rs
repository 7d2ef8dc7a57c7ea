use les_nes::cart::{Cartridge, LoadError, Mapper, Mirroring};

fn prg_byte(offset: usize) -> u8 {
    ((offset >> 13) as u8).wrapping_mul(16) ^ (offset as u8 & 0x0f)
}

fn chr_byte(offset: usize) -> u8 {
    0x80 | ((offset >> 10) as u8)
}

fn image(prg_banks: u8, chr_banks: u8, flags6: u8, flags7: u8) -> Vec<u8> {
    let mut data = vec![0x4e, 0x45, 0x53, 0x1a, prg_banks, chr_banks, flags6, flags7];
    data.extend([0u8; 8]);
    if flags6 & 0x04 != 0 {
        data.extend([0xeeu8; 512]);
    }
    for i in 0..prg_banks as usize * 0x4000 {
        data.push(prg_byte(i));
    }
    for i in 0..chr_banks as usize * 0x2000 {
        data.push(chr_byte(i));
    }
    data
}

fn load(prg_banks: u8, chr_banks: u8, flags6: u8, flags7: u8) -> Cartridge {
    match Cartridge::load(&image(prg_banks, chr_banks, flags6, flags7)) {
        Ok(cart) => cart,
        Err(e) => panic!("image turned down: {:?}", e),
    }
}

fn error_of(data: &[u8]) -> Option<LoadError> {
    match Cartridge::load(data) {
        Ok(_) => None,
        Err(e) => Some(e),
    }
}

#[test]
fn load_rejects_missing_signature() {
    let mut data = image(1, 1, 0, 0);
    data[2] = 0x58;
    assert_eq!(error_of(&data), Some(LoadError::BadSignature));
    assert_eq!(error_of(&[0x4e, 0x45, 0x53]), Some(LoadError::BadSignature));
    assert_eq!(error_of(&[]), Some(LoadError::BadSignature));
}

#[test]
fn load_rejects_short_header() {
    assert_eq!(error_of(&[0x4e, 0x45, 0x53, 0x1a, 1, 1, 0]), Some(LoadError::Truncated));
}

#[test]
fn load_rejects_second_format() {
    assert_eq!(error_of(&image(1, 1, 0, 0x0c)), Some(LoadError::Ines2));
}

#[test]
fn load_rejects_unknown_mapper() {
    assert_eq!(error_of(&image(1, 1, 0x50, 0x00)), Some(LoadError::UnsupportedMapper(5)));
    assert_eq!(error_of(&image(1, 1, 0x70, 0x40)), Some(LoadError::UnsupportedMapper(0x47)));
}

#[test]
fn load_rejects_bank_counts_the_board_cannot_carry() {
    assert_eq!(error_of(&image(3, 1, 0x00, 0)), Some(LoadError::BadBankCount));
    assert_eq!(error_of(&image(0, 1, 0x10, 0)), Some(LoadError::BadBankCount));
    assert_eq!(error_of(&image(4, 1, 0x30, 0)), Some(LoadError::BadBankCount));
}

#[test]
fn load_rejects_short_image() {
    let mut data = image(2, 1, 0, 0);
    data.truncate(16 + 0x4000);
    assert_eq!(error_of(&data), Some(LoadError::Truncated));
}

#[test]
fn load_accepts_mapper_66_as_uxrom() {
    let cart = load(2, 0, 0x20, 0x40);
    assert!(matches!(cart.mapper, Mapper::Uxrom(_)));
}

#[test]
fn nrom_one_bank_is_mirrored() {
    let cart = load(1, 1, 0, 0);
    assert_eq!(cart.prg_rom.len(), 0x4000);
    assert_eq!(cart.chr_rom.len(), 0x2000);
    assert_eq!(cart.read(0x8000), prg_byte(0));
    assert_eq!(cart.read(0x8123), prg_byte(0x123));
    assert_eq!(cart.read(0xc123), prg_byte(0x123));
    assert_eq!(cart.read(0xffff), prg_byte(0x3fff));
}

#[test]
fn nrom_two_banks_fill_the_window() {
    let cart = load(2, 1, 0, 0);
    assert_eq!(cart.read(0xbfff), prg_byte(0x3fff));
    assert_eq!(cart.read(0xc000), prg_byte(0x4000));
    assert_eq!(cart.read(0xffff), prg_byte(0x7fff));
    assert_eq!(cart.read_chr(0x1234), chr_byte(0x1234));
}

#[test]
fn trainer_is_skipped() {
    let cart = load(1, 1, 0x04, 0);
    assert_eq!(cart.read(0x8000), prg_byte(0));
    assert_eq!(cart.read_chr(0), chr_byte(0));
}

#[test]
fn header_selects_mirroring() {
    let horizontal = load(1, 1, 0x00, 0);
    assert_eq!(horizontal.mapper.mirroring(), Mirroring::Horizontal);
    assert_eq!(horizontal.nm_addr(0x2005), 0x005);
    assert_eq!(horizontal.nm_addr(0x2405), 0x005);
    assert_eq!(horizontal.nm_addr(0x2805), 0x405);
    assert_eq!(horizontal.nm_addr(0x2c05), 0x405);

    let vertical = load(1, 1, 0x01, 0);
    assert_eq!(vertical.mapper.mirroring(), Mirroring::Vertical);
    assert_eq!(vertical.nm_addr(0x2005), 0x005);
    assert_eq!(vertical.nm_addr(0x2405), 0x405);
    assert_eq!(vertical.nm_addr(0x2805), 0x005);
    assert_eq!(vertical.nm_addr(0x2c05), 0x405);

    let four = load(1, 1, 0x09, 0);
    assert_eq!(four.mapper.mirroring(), Mirroring::FourScreen);
    assert_eq!(four.nm_addr(0x2405), 0x405);
    assert_eq!(four.nm_addr(0x2805), 0x805);
    assert_eq!(four.nm_addr(0x2fff), 0xfff);
    assert_eq!(four.nm_addr(0x3c05), 0xc05);
}

#[test]
fn ram_on_the_cartridge_keeps_what_is_written() {
    let mut cart = load(1, 1, 0, 0);
    cart.write(0x4020, 0x11);
    cart.write(0x5fff, 0x22);
    cart.write(0x6000, 0x33);
    cart.write(0x7fff, 0x44);
    assert_eq!(cart.read(0x4020), 0x11);
    assert_eq!(cart.read(0x5fff), 0x22);
    assert_eq!(cart.read(0x6000), 0x33);
    assert_eq!(cart.read(0x7fff), 0x44);
    cart.write(0x8000, 0x55);
    assert_eq!(cart.read(0x8000), prg_byte(0));
}

#[test]
fn pattern_ram_serves_a_cartridge_without_pattern_rom() {
    let mut cart = load(1, 0, 0, 0);
    assert_eq!(cart.read_chr(0x0010), 0);
    cart.write_chr(0x0010, 0x77);
    cart.write_chr(0x1fff, 0x88);
    assert_eq!(cart.read_chr(0x0010), 0x77);
    assert_eq!(cart.read_chr(0x1fff), 0x88);
}

#[test]
fn pattern_rom_is_not_written() {
    let mut cart = load(1, 1, 0, 0);
    cart.write_chr(0x0010, 0x77);
    assert_eq!(cart.read_chr(0x0010), chr_byte(0x10));
}

#[test]
fn empty_cartridge_idles() {
    let cart = Cartridge::empty();
    assert_eq!(cart.read(0xfffc), 0x00);
    assert_eq!(cart.read(0xfffd), 0xff);
    assert_eq!(cart.read(0xff00), 0x4c);
    assert_eq!(cart.read(0xff01), 0x00);
    assert_eq!(cart.read(0xff02), 0xff);
    assert_eq!(cart.read(0x8000), 0x00);
    assert_eq!(cart.read_chr(0x0000), 0x00);
    assert_eq!(cart.mapper.mirroring(), Mirroring::FourScreen);
}

#[test]
fn uxrom_switches_the_low_window() {
    let mut cart = load(4, 0, 0x20, 0);
    assert_eq!(cart.read(0x8000), prg_byte(0));
    assert_eq!(cart.read(0xc000), prg_byte(3 * 0x4000));
    cart.write(0x8000, 2);
    assert_eq!(cart.read(0x8000), prg_byte(2 * 0x4000));
    assert_eq!(cart.read(0xbfff), prg_byte(2 * 0x4000 + 0x3fff));
    assert_eq!(cart.read(0xc000), prg_byte(3 * 0x4000));
    cart.write(0xffff, 1);
    assert_eq!(cart.read(0x8001), prg_byte(0x4000 + 1));
}

#[test]
fn uxrom_bank_past_the_end_reads_zero() {
    let mut cart = load(4, 0, 0x20, 0);
    cart.write(0x8000, 200);
    assert_eq!(cart.read(0x8000), 0);
}

#[test]
fn cnrom_switches_the_pattern_bank_modulo_the_count() {
    let mut cart = load(1, 4, 0x30, 0);
    assert_eq!(cart.read_chr(0x0000), chr_byte(0));
    cart.write(0x8000, 1);
    assert_eq!(cart.read_chr(0x0000), chr_byte(0x2000));
    assert_eq!(cart.read_chr(0x1fff), chr_byte(0x3fff));
    cart.write(0x8000, 6);
    assert_eq!(cart.read_chr(0x0000), chr_byte(2 * 0x2000));
    assert_eq!(cart.read(0xc000), prg_byte(0));
}

fn mmc1_deliver(cart: &mut Cartridge, addr: u16, value: u8) {
    for i in 0..5 {
        cart.write(addr, (value >> i) & 1);
    }
}

#[test]
fn mmc1_takes_five_writes_for_a_bank() {
    let mut cart = load(8, 0, 0x10, 0);
    assert_eq!(cart.read(0x8000), prg_byte(0));
    assert_eq!(cart.read(0xc000), prg_byte(7 * 0x4000));
    mmc1_deliver(&mut cart, 0xe000, 5);
    assert_eq!(cart.read(0x8000), prg_byte(5 * 0x4000));
    assert_eq!(cart.read(0xc000), prg_byte(7 * 0x4000));
    cart.write(0xe000, 1);
    cart.write(0xe000, 1);
    assert_eq!(cart.read(0x8000), prg_byte(5 * 0x4000));
    cart.write(0xe000, 0x80);
    mmc1_deliver(&mut cart, 0xe000, 2);
    assert_eq!(cart.read(0x8000), prg_byte(2 * 0x4000));
}

#[test]
fn mmc1_control_selects_mirroring_and_modes() {
    let mut cart = load(8, 0, 0x10, 0);
    mmc1_deliver(&mut cart, 0x8000, 0b00010);
    assert_eq!(cart.mapper.mirroring(), Mirroring::Vertical);
    mmc1_deliver(&mut cart, 0x8000, 0b00011);
    assert_eq!(cart.mapper.mirroring(), Mirroring::Horizontal);
    mmc1_deliver(&mut cart, 0x8000, 0b00000);
    assert_eq!(cart.mapper.mirroring(), Mirroring::SingleScreen0);
    assert_eq!(cart.nm_addr(0x2c10), 0x010);
    mmc1_deliver(&mut cart, 0x8000, 0b00001);
    assert_eq!(cart.mapper.mirroring(), Mirroring::SingleScreen1);
    assert_eq!(cart.nm_addr(0x2010), 0x410);
    // 32 KB mode: the bank pair 2/3 fills the window
    mmc1_deliver(&mut cart, 0xe000, 3);
    assert_eq!(cart.read(0x8000), prg_byte(2 * 0x4000));
    assert_eq!(cart.read(0xc000), prg_byte(3 * 0x4000));
    // first bank fixed
    mmc1_deliver(&mut cart, 0x8000, 0b01000);
    mmc1_deliver(&mut cart, 0xe000, 6);
    assert_eq!(cart.read(0x8000), prg_byte(0));
    assert_eq!(cart.read(0xc000), prg_byte(6 * 0x4000));
}

#[test]
fn mmc1_pattern_banks() {
    let mut cart = load(2, 4, 0x10, 0);
    // two banks of 4 KB
    mmc1_deliver(&mut cart, 0x8000, 0b11100);
    mmc1_deliver(&mut cart, 0xa000, 3);
    mmc1_deliver(&mut cart, 0xc000, 5);
    assert_eq!(cart.read_chr(0x0000), chr_byte(3 * 0x1000));
    assert_eq!(cart.read_chr(0x1000), chr_byte(5 * 0x1000));
    // one bank of 8 KB
    mmc1_deliver(&mut cart, 0x8000, 0b01100);
    mmc1_deliver(&mut cart, 0xa000, 5);
    assert_eq!(cart.read_chr(0x0000), chr_byte(4 * 0x1000));
    assert_eq!(cart.read_chr(0x1000), chr_byte(5 * 0x1000));
}

#[test]
fn mmc3_switches_windows_of_8_kb_and_1_kb() {
    let mut cart = load(4, 2, 0x40, 0);
    assert_eq!(cart.read(0x8000), prg_byte(0));
    assert_eq!(cart.read(0xa000), prg_byte(0x2000));
    assert_eq!(cart.read(0xc000), prg_byte(6 * 0x2000));
    assert_eq!(cart.read(0xe000), prg_byte(7 * 0x2000));
    cart.write(0x8000, 6);
    cart.write(0x8001, 5);
    assert_eq!(cart.read(0x8000), prg_byte(5 * 0x2000));
    assert_eq!(cart.read(0x9fff), prg_byte(5 * 0x2000 + 0x1fff));
    cart.write(0x8000, 7);
    cart.write(0x8001, 8 + 3);
    assert_eq!(cart.read(0xa000), prg_byte(3 * 0x2000));
    // the other PRG mode swaps the windows at $8000 and $C000
    cart.write(0x8000, 0x46);
    assert_eq!(cart.read(0x8000), prg_byte(6 * 0x2000));
    assert_eq!(cart.read(0xc000), prg_byte(5 * 0x2000));
    // pattern windows
    cart.write(0x8000, 2);
    cart.write(0x8001, 9);
    assert_eq!(cart.read_chr(0x1000), chr_byte(9 * 0x400));
    cart.write(0x8000, 0);
    cart.write(0x8001, 5);
    assert_eq!(cart.read_chr(0x0000), chr_byte(4 * 0x400));
    assert_eq!(cart.read_chr(0x0400), chr_byte(5 * 0x400));
    cart.write(0x8000, 0x80);
    assert_eq!(cart.read_chr(0x1000), chr_byte(4 * 0x400));
    assert_eq!(cart.read_chr(0x0000), chr_byte(9 * 0x400));
}

#[test]
fn mmc3_mirroring_register() {
    let mut cart = load(2, 1, 0x40, 0);
    cart.write(0xa000, 1);
    assert_eq!(cart.mapper.mirroring(), Mirroring::Horizontal);
    cart.write(0xa000, 0);
    assert_eq!(cart.mapper.mirroring(), Mirroring::Vertical);
    cart.write(0xa001, 1);
    assert_eq!(cart.mapper.mirroring(), Mirroring::Vertical);
}

#[test]
fn mmc3_counts_scanlines() {
    let mut cart = load(2, 1, 0x40, 0);
    cart.write(0xc000, 3);
    cart.write(0xc001, 0);
    cart.write(0xe001, 0);
    cart.update_scanline();
    assert!(!cart.poll_irq());
    cart.update_scanline();
    cart.update_scanline();
    assert!(!cart.poll_irq());
    cart.update_scanline();
    assert!(cart.poll_irq());
    assert!(!cart.poll_irq());
    // disabled: the counter runs on, the line stays low
    cart.write(0xe000, 0);
    for _ in 0..8 {
        cart.update_scanline();
    }
    assert!(!cart.poll_irq());
}
