use nes_emulator::cartridge::{Cart, CartError, NesHeader};
use nes_emulator::utils::{readbuf_vec, zeroed};

fn image(prg_units: u8, chr_units: u8, flags6: u8, flags7: u8) -> Vec<u8> {
    let mut bytes = vec![0x4E, 0x45, 0x53, 0x1A, prg_units, chr_units, flags6, flags7];
    bytes.extend_from_slice(&[0; 8]);
    if flags6 & 0x04 != 0 {
        for i in 0..512usize {
            bytes.push((i % 251) as u8);
        }
    }
    for i in 0..(prg_units as usize) * 16384 {
        bytes.push((i % 253) as u8);
    }
    for i in 0..(chr_units as usize) * 8192 {
        bytes.push((i % 241) as u8 ^ 0x80);
    }
    bytes
}

#[test]
fn loads_a_plain_image() {
    let bytes = image(2, 1, 0x01, 0x00);
    let cart = Cart::new(&bytes).unwrap();
    assert_eq!(cart.header.data.to_vec(), bytes[0..16].to_vec());
    assert_eq!(cart.prg.len(), 32768);
    assert_eq!(cart.chr.len(), 8192);
    assert_eq!(cart.prg, bytes[16..16 + 32768].to_vec());
    assert_eq!(cart.chr, bytes[16 + 32768..16 + 32768 + 8192].to_vec());
    assert!(cart.trainer.is_none());
    assert!(cart.header.mirror());
}

#[test]
fn loads_an_image_with_trainer_and_trailing_bytes() {
    let mut bytes = image(1, 1, 0x04, 0x00);
    bytes.extend_from_slice(&[0xEE; 100]);
    let cart = Cart::new(&bytes).unwrap();
    let trainer = cart.trainer.unwrap();
    assert_eq!(trainer.to_vec(), bytes[16..528].to_vec());
    assert_eq!(cart.prg, bytes[528..528 + 16384].to_vec());
    assert_eq!(cart.chr, bytes[528 + 16384..528 + 16384 + 8192].to_vec());
    assert!(cart.header.trainer());
}

#[test]
fn loads_an_image_without_rom() {
    let bytes = image(0, 0, 0, 0);
    let cart = Cart::new(&bytes).unwrap();
    assert!(cart.prg.is_empty());
    assert!(cart.chr.is_empty());
    assert_eq!(cart.cpu_read(0x8000), 0);
    assert_eq!(cart.ppu_read(0x0000), 0);
}

#[test]
fn turns_down_what_is_no_image() {
    assert_eq!(Cart::new(&[]).err(), Some(CartError::NotNes));
    assert_eq!(Cart::new(&[0x4E, 0x45, 0x53]).err(), Some(CartError::NotNes));
    let mut bytes = image(1, 1, 0, 0);
    bytes[3] = 0x1B;
    assert_eq!(Cart::new(&bytes).err(), Some(CartError::NotNes));
    let mut bytes = image(1, 1, 0, 0);
    bytes[0] = b'n';
    assert_eq!(Cart::new(&bytes).err(), Some(CartError::NotNes));
}

#[test]
fn turns_down_what_is_cut_short() {
    assert_eq!(Cart::new(&[0x4E, 0x45, 0x53, 0x1A]).err(), Some(CartError::Truncated));
    assert_eq!(Cart::new(&image(1, 1, 0, 0)[0..15]).err(), Some(CartError::Truncated));
    let bytes = image(1, 1, 0, 0);
    assert_eq!(Cart::new(&bytes[0..bytes.len() - 1]).err(), Some(CartError::Truncated));
    assert!(Cart::new(&bytes).is_ok());
    let bytes = image(1, 0, 0x04, 0);
    assert_eq!(Cart::new(&bytes[0..16 + 16384]).err(), Some(CartError::Truncated));
    let bytes = image(2, 1, 0, 0);
    assert_eq!(Cart::new(&bytes[0..16 + 32768]).err(), Some(CartError::Truncated));
}

#[test]
fn header_fields() {
    let mut data = [0u8; 16];
    data[0] = 0x4E;
    data[1] = 0x45;
    data[2] = 0x53;
    data[3] = 0x1A;
    data[4] = 3;
    data[5] = 2;
    data[6] = 0b1010_1011;
    data[7] = 0b0111_1011;
    data[8] = 0;
    data[9] = 1;
    let header = NesHeader { data };
    assert!(header.magic());
    assert!(header.mirror());
    assert!(header.battery());
    assert!(!header.trainer());
    assert!(header.four_screen());
    assert_eq!(header.mapper(), 0x78 | 0x0A);
    assert!(header.unisystem());
    assert!(header.playchoice());
    assert!(header.nes2());
    assert_eq!(header.prg_ram(), 8192);
    assert!(header.tv_system());
    assert_eq!(header.prg_size(), 3 * 16384);
    assert_eq!(header.chr_size(), 2 * 8192);
    data[6] = 0b0000_0100;
    data[7] = 0b0000_0100;
    data[8] = 3;
    data[9] = 0;
    data[3] = 0;
    let header = NesHeader { data };
    assert!(!header.magic());
    assert!(!header.mirror());
    assert!(!header.battery());
    assert!(header.trainer());
    assert!(!header.four_screen());
    assert_eq!(header.mapper(), 0);
    assert!(!header.unisystem());
    assert!(!header.playchoice());
    assert!(!header.nes2());
    assert_eq!(header.prg_ram(), 3 * 8192);
    assert!(!header.tv_system());
}

#[test]
fn cpu_sees_program_rom_repeated() {
    let cart = Cart::new(&image(1, 1, 0, 0)).unwrap();
    assert_eq!(cart.cpu_read(0x7FFF), 0);
    assert_eq!(cart.cpu_read(0x8000), cart.prg[0]);
    assert_eq!(cart.cpu_read(0x8005), cart.prg[5]);
    assert_eq!(cart.cpu_read(0xC005), cart.prg[5]);
    assert_eq!(cart.cpu_read(0xFFFF), cart.prg[0x3FFF]);
    let cart = Cart::new(&image(2, 1, 0, 0)).unwrap();
    assert_eq!(cart.cpu_read(0xC005), cart.prg[0x4005]);
    assert_eq!(cart.cpu_read(0xFFFF), cart.prg[0x7FFF]);
}

#[test]
fn ppu_sees_character_rom() {
    let cart = Cart::new(&image(1, 1, 0, 0)).unwrap();
    assert_eq!(cart.ppu_read(0x0000), cart.chr[0]);
    assert_eq!(cart.ppu_read(0x1FFF), cart.chr[0x1FFF]);
    assert_eq!(cart.ppu_read(0x2001), cart.chr[1]);
}

#[test]
fn flat_layout_read() {
    let cart = Cart::new(&image(1, 1, 0, 0)).unwrap();
    assert_eq!(cart.read(0x0000), 0);
    assert_eq!(cart.read(0x7FFF), 0);
    assert_eq!(cart.read(0x8000), cart.chr[0]);
    assert_eq!(cart.read(0x9FFF), cart.chr[0x1FFF]);
    assert_eq!(cart.read(0xA001), cart.chr[1]);
    assert_eq!(cart.read(0xC000), cart.prg[0]);
    assert_eq!(cart.read(0xFFFF), cart.prg[0x3FFF]);
}

#[test]
fn readbuf_copies_and_advances() {
    let from = vec![1u8, 2, 3, 4, 5, 6, 7, 8];
    let mut to = vec![0u8; 5];
    let mut start = 2usize;
    readbuf_vec(&mut to, &from, &mut start, 3);
    assert_eq!(to, vec![3, 4, 5, 0, 0]);
    assert_eq!(start, 5);
    readbuf_vec(&mut to, &from, &mut start, 0);
    assert_eq!(to, vec![3, 4, 5, 0, 0]);
    assert_eq!(start, 5);
    readbuf_vec(&mut to, &from, &mut start, 3);
    assert_eq!(to, vec![6, 7, 8, 0, 0]);
    assert_eq!(start, 8);
}

#[test]
fn zeroed_gives_zero_bytes() {
    assert_eq!(zeroed(0), Vec::<u8>::new());
    assert_eq!(zeroed(4), vec![0, 0, 0, 0]);
}
