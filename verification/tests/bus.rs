use nes_emulator::bus::Bus;
use nes_emulator::cartridge::{Cart, NesHeader};
use nes_emulator::input::Input;
use nes_emulator::ram::Ram;

fn cart() -> Cart {
    let mut prg = vec![0u8; 16384];
    for (i, byte) in prg.iter_mut().enumerate() {
        *byte = (i % 251) as u8;
    }
    let mut chr = vec![0u8; 8192];
    for (i, byte) in chr.iter_mut().enumerate() {
        *byte = (i % 241) as u8 ^ 0x5A;
    }
    Cart { header: NesHeader { data: [0; 16] }, chr, prg, trainer: None }
}

fn bus() -> Bus {
    Bus::new(Ram::new(false), cart(), Input::new())
}

#[test]
fn new_bus_has_every_signal_down() {
    let bus = bus();
    assert!(!bus.nmi_signal);
    assert!(!bus.cpu_debug);
    assert!(!bus.oam_dma_cpu);
    assert!(!bus.oam_dma_ppu);
    assert_eq!(bus.oam_dma_addr, 0);
    assert_eq!(bus.ppu_data.ctrl, 0);
    assert_eq!(bus.ppu_data.mask, 0);
    assert_eq!(bus.ppu_data.status, 0);
    assert_eq!(bus.ppu_data.vram_addr, 0);
    assert_eq!(bus.ppu_data.temp_vram_addr, 0);
    assert!(!bus.ppu_data.write_latch);
    assert!(bus.ppu_data.oam.iter().all(|b| *b == 0));
}

#[test]
fn work_ram_is_mirrored_on_the_bus() {
    let mut bus = bus();
    bus.write(0x0005, 0x12);
    assert_eq!(bus.read(0x0005, false), 0x12);
    assert_eq!(bus.read(0x0805, false), 0x12);
    assert_eq!(bus.read(0x1805, false), 0x12);
    bus.write(0x1FFF, 0x34);
    assert_eq!(bus.read(0x07FF, false), 0x34);
}

#[test]
fn ppu_registers_repeat_every_eight_bytes() {
    let mut bus = bus();
    bus.write(0x2008, 0x80);
    assert_eq!(bus.ppu_data.ctrl, 0x80);
    bus.write(0x3FF9, 0x1E);
    assert_eq!(bus.ppu_data.mask, 0x1E);
    bus.write(0x3FFE, 0x21);
    assert!(bus.ppu_data.write_latch);
}

#[test]
fn the_last_address_below_4000_is_not_a_register() {
    let mut bus = bus();
    bus.ppu_data.vram_addr = 0x2000;
    bus.write(0x3FFF, 0x99);
    assert_eq!(bus.ppu_data.vram_addr, 0x2000);
    assert_eq!(bus.ppu_read(0x2000), 0xFF);
    assert_eq!(bus.read(0x3FFF, false), 0);
    assert_eq!(bus.ppu_data.vram_addr, 0x2000);
}

#[test]
fn write_only_registers_read_zero() {
    let mut bus = bus();
    bus.write(0x2000, 0xFF);
    bus.write(0x2001, 0xFF);
    bus.write(0x2003, 0x44);
    for addr in [0x2000u16, 0x2001, 0x2003, 0x2005, 0x2006] {
        assert_eq!(bus.read(addr, false), 0);
        assert_eq!(bus.read(addr, true), 0);
    }
    assert_eq!(bus.ppu_data.oam_addr, 0x44);
}

#[test]
fn status_read_reports_and_clears_vertical_blank() {
    let mut bus = bus();
    bus.ppu_data.status = 0xE5;
    bus.ppu_data.nmi_occurred = true;
    bus.ppu_data.write_latch = true;
    assert_eq!(bus.read(0x2002, true), 0xE5);
    assert!(bus.ppu_data.nmi_occurred);
    assert!(bus.ppu_data.write_latch);
    assert_eq!(bus.ppu_data.status, 0xE5);
    assert_eq!(bus.read(0x2002, false), 0xE5);
    assert!(!bus.ppu_data.nmi_occurred);
    assert!(!bus.ppu_data.write_latch);
    assert_eq!(bus.ppu_data.status, 0x65);
    assert_eq!(bus.read(0x2002, false), 0x65);
    bus.ppu_data.status = 0x80;
    assert_eq!(bus.read(0x2002, false), 0x00);
    assert_eq!(bus.ppu_data.status, 0x00);
    bus.ppu_data.nmi_occurred = true;
    assert_eq!(bus.read(0x200A, false), 0x80);
    bus.write(0x2002, 0xFF);
    assert_eq!(bus.ppu_data.status, 0x00);
}

#[test]
fn sprite_memory_port() {
    let mut bus = bus();
    bus.write(0x2003, 0x10);
    bus.write(0x2004, 0xAB);
    assert_eq!(bus.ppu_data.oam[0x10], 0xAB);
    assert_eq!(bus.ppu_data.oam_addr, 0x10);
    assert_eq!(bus.read(0x2004, true), 0xAB);
    assert_eq!(bus.ppu_data.oam_addr, 0x10);
    assert_eq!(bus.read(0x2004, false), 0xAB);
    assert_eq!(bus.ppu_data.oam_addr, 0x11);
    bus.write(0x2003, 0xFF);
    bus.write(0x2004, 0x77);
    assert_eq!(bus.read(0x2004, false), 0x77);
    assert_eq!(bus.ppu_data.oam_addr, 0x00);
}

#[test]
fn two_scroll_writes_fill_the_temporary_address() {
    let mut bus = bus();
    bus.write(0x2005, 0x7D);
    assert_eq!(bus.ppu_data.fine_x_scroll, 5);
    assert_eq!(bus.ppu_data.get_coarse_x_scroll_t(), 15);
    assert!(bus.ppu_data.write_latch);
    bus.write(0x2005, 0x5E);
    assert!(!bus.ppu_data.write_latch);
    assert_eq!(bus.ppu_data.fine_x_scroll, 5);
    assert_eq!(bus.ppu_data.get_coarse_x_scroll_t(), 15);
    assert_eq!(bus.ppu_data.get_fine_y_scroll_t(), 6);
    assert_eq!(bus.ppu_data.get_coarse_y_scroll_t(), 11);
    assert_eq!(bus.ppu_data.get_nametable_x_t(), 0);
    assert_eq!(bus.ppu_data.get_nametable_y_t(), 0);
    assert_eq!(bus.ppu_data.temp_vram_addr, 0x616F);
    assert_eq!(bus.ppu_data.vram_addr, 0);
    assert_eq!(bus.ppu_data.get_coarse_x_scroll_v(), 0);
    assert_eq!(bus.ppu_data.get_fine_y_scroll_v(), 0);
    assert_eq!(bus.ppu_data.get_coarse_y_scroll_v(), 0);
}

#[test]
fn scroll_and_address_share_the_write_toggle() {
    let mut bus = bus();
    bus.ppu_data.temp_vram_addr = 0x1200;
    bus.write(0x2005, 0x00);
    bus.write(0x2006, 0x34);
    assert!(!bus.ppu_data.write_latch);
    assert_eq!(bus.ppu_data.temp_vram_addr, 0x1234);
    assert_eq!(bus.ppu_data.vram_addr, 0x1234);
    bus.write(0x2006, 0x21);
    bus.write(0x2002, 0);
    assert!(bus.ppu_data.write_latch);
    bus.read(0x2002, false);
    assert!(!bus.ppu_data.write_latch);
}

#[test]
fn two_address_writes_set_the_current_address() {
    let mut bus = bus();
    bus.ppu_data.temp_vram_addr = 0x7FAB;
    bus.write(0x2006, 0xFF);
    assert_eq!(bus.ppu_data.temp_vram_addr, 0x3FAB);
    assert_eq!(bus.ppu_data.vram_addr, 0);
    bus.write(0x2006, 0x10);
    assert_eq!(bus.ppu_data.temp_vram_addr, 0x3F10);
    assert_eq!(bus.ppu_data.vram_addr, 0x3F10);
}

#[test]
fn control_write_selects_the_name_table() {
    let mut bus = bus();
    bus.write(0x2000, 0x03);
    assert_eq!(bus.ppu_data.ctrl, 0x03);
    assert_eq!(bus.ppu_data.temp_vram_addr, 0x0C00);
    assert_eq!(bus.ppu_data.get_nametable_x_t(), 1);
    assert_eq!(bus.ppu_data.get_nametable_y_t(), 1);
    bus.write(0x2000, 0x82);
    assert_eq!(bus.ppu_data.temp_vram_addr, 0x0800);
    assert_eq!(bus.ppu_data.vram_addr, 0);
}

#[test]
fn data_port_writes_and_steps() {
    let mut bus = bus();
    bus.write(0x2006, 0x20);
    bus.write(0x2006, 0x00);
    bus.write(0x2007, 0x55);
    assert_eq!(bus.ppu_read(0x2000), 0x55);
    assert_eq!(bus.ppu_data.vram_addr, 0x2001);
    bus.write(0x2000, 0x04);
    bus.write(0x2007, 0x66);
    assert_eq!(bus.ppu_read(0x2001), 0x66);
    assert_eq!(bus.ppu_data.vram_addr, 0x2021);
}

#[test]
fn data_port_cannot_write_pattern_tables() {
    let mut bus = bus();
    let before = bus.ppu_read(0x0010);
    bus.ppu_data.vram_addr = 0x0010;
    bus.write(0x2007, !before);
    assert_eq!(bus.ppu_read(0x0010), before);
    assert_eq!(bus.ppu_data.vram_addr, 0x0011);
}

#[test]
fn data_port_address_wraps() {
    let mut bus = bus();
    bus.ppu_data.vram_addr = 0xFFFF;
    bus.write(0x2007, 0x42);
    assert_eq!(bus.ppu_data.vram_addr, 0x0000);
    assert_eq!(bus.ppu_read(0x3FFF), 0x42);
    bus.ppu_data.vram_addr = 0xFFF0;
    bus.ppu_data.ctrl = 0x04;
    bus.read(0x2007, false);
    assert_eq!(bus.ppu_data.vram_addr, 0x0010);
}

#[test]
fn data_port_reads_are_one_behind_below_the_palette() {
    let mut bus = bus();
    bus.ppu_write(0x2000, 0x11);
    bus.ppu_write(0x2001, 0x22);
    bus.ppu_data.vram_addr = 0x2000;
    bus.ppu_data.data_buffer = 0x99;
    assert_eq!(bus.read(0x2007, true), 0x11);
    assert_eq!(bus.ppu_data.vram_addr, 0x2000);
    assert_eq!(bus.ppu_data.data_buffer, 0x99);
    assert_eq!(bus.read(0x2007, false), 0x99);
    assert_eq!(bus.ppu_data.data, 0x99);
    assert_eq!(bus.ppu_data.data_buffer, 0x11);
    assert_eq!(bus.ppu_data.vram_addr, 0x2001);
    assert_eq!(bus.read(0x2007, false), 0x11);
    assert_eq!(bus.read(0x2007, false), 0x22);
    assert_eq!(bus.ppu_data.vram_addr, 0x2003);
}

#[test]
fn data_port_reads_the_palette_at_once() {
    let mut bus = bus();
    bus.ppu_write(0x3F01, 0x2A);
    bus.ppu_data.vram_addr = 0x3F01;
    bus.ppu_data.data_buffer = 0x99;
    assert_eq!(bus.read(0x2007, false), 0x2A);
    assert_eq!(bus.ppu_data.data, 0x2A);
    assert_eq!(bus.ppu_data.data_buffer, 0x2A);
    assert_eq!(bus.ppu_data.vram_addr, 0x3F02);
}

#[test]
fn data_port_reads_pattern_tables_from_the_cartridge() {
    let mut bus = bus();
    bus.ppu_data.vram_addr = 0x0123;
    bus.read(0x2007, false);
    assert_eq!(bus.read(0x2007, false), bus.cart.chr[0x0123]);
}

#[test]
fn dma_write_arms_both_sides() {
    let mut bus = bus();
    bus.write(0x4014, 0x02);
    assert!(bus.oam_dma_cpu);
    assert!(bus.oam_dma_ppu);
    assert_eq!(bus.oam_dma_addr, 0x0200);
    bus.write(0x4014, 0xFF);
    assert_eq!(bus.oam_dma_addr, 0xFF00);
}

#[test]
fn controller_is_latched_on_the_falling_strobe() {
    let mut bus = bus();
    bus.input.set_snapshot(0b1010_0101);
    bus.write(0x4016, 0);
    assert_eq!(bus.input.joypad_one, 0);
    bus.write(0x4016, 1);
    assert!(bus.input.read_latch);
    assert_eq!(bus.input.joypad_one, 0);
    bus.write(0x4016, 0);
    assert!(!bus.input.read_latch);
    assert_eq!(bus.input.joypad_one, 0b1010_0101);
    let read: Vec<u8> = (0..8).map(|_| bus.read(0x4016, false)).collect();
    assert_eq!(read, vec![1, 0, 1, 0, 0, 1, 0, 1]);
    assert_eq!(bus.read(0x4016, false), 0);
    bus.input.joypad_one = 0x03;
    assert_eq!(bus.read(0x4016, true), 1);
    assert_eq!(bus.input.joypad_one, 0x01);
}

#[test]
fn unmapped_space_reads_zero_and_ignores_writes() {
    let mut bus = bus();
    for addr in [0x4000u16, 0x4015, 0x4017, 0x401F, 0x4020, 0x5000, 0x6000, 0x7FFF] {
        bus.write(addr, 0xAA);
        assert_eq!(bus.read(addr, false), 0);
    }
    assert!(!bus.oam_dma_cpu);
    bus.write(0x8000, 0xAA);
    assert_eq!(bus.read(0x8000, false), bus.cart.prg[0]);
    assert_eq!(bus.read(0xC123, false), bus.cart.prg[0x0123]);
    assert_eq!(bus.read(0xFFFF, false), bus.cart.prg[0x3FFF]);
}

#[test]
fn little_endian_words() {
    let mut bus = bus();
    bus.write(0x0010, 0x34);
    bus.write(0x0011, 0x12);
    assert_eq!(bus.read_word_little(0x0010, false), 0x1234);
    bus.write(0x00FF, 0xCD);
    bus.write(0x0100, 0xAB);
    assert_eq!(bus.read_word_little(0x00FF, false), 0xABCD);
    bus.write(0x0000, 0x56);
    let low = bus.cart.prg[0x3FFF] as u16;
    assert_eq!(bus.read_word_little(0xFFFF, false), 0x5600 | low);
}

#[test]
fn wrapped_word_read_stays_on_its_page() {
    let mut bus = bus();
    bus.write(0x02FF, 0xCD);
    bus.write(0x0200, 0xAB);
    bus.write(0x0300, 0xEE);
    assert_eq!(bus.read_word_little_wrap(0x02FF, false), 0xABCD);
    assert_eq!(bus.read_word_little(0x02FF, false), 0xEECD);
    bus.write(0x0210, 0x78);
    bus.write(0x0211, 0x56);
    assert_eq!(bus.read_word_little_wrap(0x0210, false), 0x5678);
}

#[test]
fn word_reads_touch_registers_twice() {
    let mut bus = bus();
    bus.input.joypad_one = 0b0000_0110;
    assert_eq!(bus.read_word_little(0x4016, false), 0x0000);
    assert_eq!(bus.input.joypad_one, 0b0000_0011);
    bus.ppu_data.oam_addr = 4;
    bus.ppu_data.oam[4] = 0x12;
    bus.ppu_data.oam[5] = 0x34;
    assert_eq!(bus.read_word_little_wrap(0x2004, false), 0x0012);
    assert_eq!(bus.ppu_data.oam_addr, 5);
}

#[test]
fn ppu_side_reads_and_writes() {
    let mut bus = bus();
    assert_eq!(bus.ppu_read(0x0000), bus.cart.chr[0]);
    assert_eq!(bus.ppu_read(0x1FFF), bus.cart.chr[0x1FFF]);
    bus.ppu_write(0x0000, 0x11);
    assert_eq!(bus.ppu_read(0x0000), bus.cart.chr[0]);
    bus.ppu_write(0x2400, 0x22);
    assert_eq!(bus.ppu_read(0x2000), 0x22);
    assert_eq!(bus.ppu_read(0x6000), 0x22);
    assert_eq!(bus.ppu_read(0x4000), bus.cart.chr[0]);
    bus.ppu_write(0x7F10, 0x33);
    assert_eq!(bus.ppu_read(0x3F00), 0x33);
}
