//! The memory bus: one place that decodes every CPU and PPU address and that
//! carries the signals between the two chips.

use crate::cartridge::Cart;
use crate::input::Input;
use crate::ppu_data::{
    coarse_x, coarse_y, fine_y, lemma_with_coarse_x, lemma_with_coarse_y, lemma_with_fine_y,
    nametable_x, nametable_y, with_coarse_x, with_coarse_y, with_fine_y, with_nametable_x,
    with_nametable_y, PpuData,
};
use crate::ram::Ram;
use vstd::prelude::*;

verus! {

/// Width of the picture in pixels.
pub const WINDOW_WIDTH: u16 = 256;

/// Height of the picture in pixels.
pub const WINDOW_HEIGHT: u16 = 240;

/// The PPU's control register.
pub const PPU_CTRL_ADDR: u16 = 0x2000;

/// The PPU's mask register.
pub const PPU_MASK_ADDR: u16 = 0x2001;

/// The PPU's status register.
pub const PPU_STATUS_ADDR: u16 = 0x2002;

/// The address port of sprite memory.
pub const OAM_ADDR_ADDR: u16 = 0x2003;

/// The data port of sprite memory.
pub const OAM_DATA_ADDR: u16 = 0x2004;

/// The scroll port.
pub const PPU_SCROLL_ADDR: u16 = 0x2005;

/// The address port of video memory.
pub const PPU_ADDR_ADDR: u16 = 0x2006;

/// The data port of video memory.
pub const PPU_DATA_ADDR: u16 = 0x2007;

/// The port that starts a sprite DMA.
pub const OAM_DMA_ADDR: u16 = 0x4014;

/// The port of controller one.
pub const JOYPAD_ONE_ADDR: u16 = 0x4016;

/// Everything the two chips share.
pub struct Bus {
    /// Work RAM and video RAM.
    pub ram: Ram,
    /// The cartridge.
    pub cart: Cart,
    /// Controller one.
    pub input: Input,
    /// Request for a non-maskable interrupt, raised by the PPU and taken down
    /// by the CPU when it serves it.
    pub nmi_signal: bool,
    /// The PPU's register file.
    pub ppu_data: PpuData,
    /// The driver wants a trace line for every instruction.
    pub cpu_debug: bool,
    /// A sprite DMA was armed and the CPU has not yet paid for it.
    pub oam_dma_cpu: bool,
    /// A sprite DMA was armed and the PPU has not yet copied the page.
    pub oam_dma_ppu: bool,
    /// First address of the page that the DMA copies.
    pub oam_dma_addr: u16,
}

/// The PPU register, 0-7, that a CPU address in `$2000-$3FFE` selects.
pub open spec fn register_of(addr: u16) -> u16 {
    addr % 8
}

/// A PPU address folded into the 14 bits that the PPU decodes.
pub open spec fn fold(addr: u16) -> u16 {
    addr % 0x4000
}

/// The VRAM address after one access through `$2007`.
pub open spec fn stepped(regs: PpuData) -> u16 {
    if regs.increment_mode() {
        regs.vram_addr.wrapping_add(32)
    } else {
        regs.vram_addr.wrapping_add(1)
    }
}

/// The word that two bytes make, low byte first.
pub open spec fn word(low: u8, high: u8) -> u16 {
    (high * 256 + low) as u16
}

/// The address after `addr` on the same 256-byte page.
pub open spec fn next_in_page(addr: u16) -> u16 {
    ((addr / 256) * 256 + (addr % 256 + 1) % 256) as u16
}

impl Bus {
    /// A bus around the given parts, with every signal down and the PPU's
    /// registers at their power-on values.
    pub open spec fn fresh(ram: Ram, cart: Cart, input: Input) -> Bus {
        Bus {
            ram,
            cart,
            input,
            nmi_signal: false,
            ppu_data: PpuData::fresh(),
            cpu_debug: false,
            oam_dma_cpu: false,
            oam_dma_ppu: false,
            oam_dma_addr: 0,
        }
    }

    /// Puts a bus around the given parts.
    pub fn new(ram: Ram, cart: Cart, input: Input) -> (bus: Bus)
        ensures
            bus == Bus::fresh(ram, cart, input),
    {
        Bus {
            ram,
            cart,
            input,
            nmi_signal: false,
            ppu_data: PpuData::new(),
            cpu_debug: false,
            oam_dma_cpu: false,
            oam_dma_ppu: false,
            oam_dma_addr: 0,
        }
    }

    /// What the PPU sees at `addr`: pattern tables on the cartridge below
    /// `$2000`, video RAM above.
    pub open spec fn ppu_at(self, addr: u16) -> u8 {
        if fold(addr) < 0x2000 {
            self.cart.ppu_at(fold(addr))
        } else {
            self.ram.ppu_at(fold(addr))
        }
    }

    /// The bus after the PPU stored `value` at `addr`. Pattern tables are
    /// ROM: a store below `$2000` changes nothing.
    pub open spec fn after_ppu_write(self, addr: u16, value: u8) -> Bus {
        if fold(addr) < 0x2000 {
            self
        } else {
            Bus { ram: self.ram.with_ppu(fold(addr), value), ..self }
        }
    }

    /// What a read of `$2002` returns and leaves behind. Bit 7 reports
    /// whether vertical blank has begun since the last read; the read takes
    /// that down and resets the write toggle.
    pub open spec fn status_read(self) -> (u8, Bus) {
        (
            if self.ppu_data.nmi_occurred {
                0x80 | self.ppu_data.status
            } else {
                0x7F & self.ppu_data.status
            },
            Bus {
                ppu_data: PpuData {
                    write_latch: false,
                    nmi_occurred: false,
                    status: self.ppu_data.status & 0x7F,
                    ..self.ppu_data
                },
                ..self
            },
        )
    }

    /// What a read of `$2007` returns and leaves behind. Below the palette
    /// the read returns what the previous read fetched; in the palette it
    /// returns what it fetches itself. Either way the address steps on.
    pub open spec fn data_read(self) -> (u8, Bus) {
        let fetched = self.ppu_at(self.ppu_data.vram_addr);
        let value = if fold(self.ppu_data.vram_addr) >= 0x3F00 {
            fetched
        } else {
            self.ppu_data.data_buffer
        };
        (
            value,
            Bus {
                ppu_data: PpuData {
                    data: value,
                    data_buffer: fetched,
                    vram_addr: stepped(self.ppu_data),
                    ..self.ppu_data
                },
                ..self
            },
        )
    }

    /// What a CPU read of `addr` returns, and the bus it leaves behind.
    ///
    /// With `debug` set no PPU register is disturbed. The controller port
    /// moves on at every read.
    #[verifier::opaque]
    pub open spec fn read_spec(self, addr: u16, debug: bool) -> (u8, Bus) {
        if addr < 0x2000 {
            (self.ram.cpu_at(addr), self)
        } else if addr < 0x3FFF {
            if register_of(addr) == 2 {
                if debug {
                    (self.ppu_data.status, self)
                } else {
                    self.status_read()
                }
            } else if register_of(addr) == 4 {
                (
                    self.ppu_data.oam[self.ppu_data.oam_addr as int],
                    if debug {
                        self
                    } else {
                        Bus {
                            ppu_data: PpuData {
                                oam_addr: self.ppu_data.oam_addr.wrapping_add(1),
                                ..self.ppu_data
                            },
                            ..self
                        }
                    },
                )
            } else if register_of(addr) == 7 {
                if debug {
                    (self.ppu_at(self.ppu_data.vram_addr), self)
                } else {
                    self.data_read()
                }
            } else {
                (0, self)
            }
        } else if addr == JOYPAD_ONE_ADDR {
            (self.input.next_bit(), Bus { input: self.input.shifted(), ..self })
        } else if addr < 0x8000 {
            (0, self)
        } else {
            (self.cart.cpu_at(addr), self)
        }
    }

    /// What a CPU read of `addr` returns.
    pub open spec fn read_value(self, addr: u16, debug: bool) -> u8 {
        self.read_spec(addr, debug).0
    }

    /// The bus after a CPU read of `addr`.
    pub open spec fn after_read(self, addr: u16, debug: bool) -> Bus {
        self.read_spec(addr, debug).1
    }

    /// The register file after a write of `value` to `$2000`: the control
    /// register takes the value, and its low two bits become the name-table
    /// selects of the temporary address.
    pub open spec fn ctrl_written(regs: PpuData, value: u8) -> PpuData {
        PpuData {
            ctrl: value,
            temp_vram_addr: with_nametable_y(
                with_nametable_x(regs.temp_vram_addr, value & 0x01),
                (value >> 1) & 0x01,
            ),
            ..regs
        }
    }

    /// The register file after a write of `value` to `$2005`. The first
    /// write of a pair gives fine and coarse X, the second fine and coarse Y.
    pub open spec fn scroll_written(regs: PpuData, value: u8) -> PpuData {
        if !regs.write_latch {
            PpuData {
                fine_x_scroll: value & 0x07,
                temp_vram_addr: with_coarse_x(regs.temp_vram_addr, value >> 3),
                write_latch: true,
                ..regs
            }
        } else {
            PpuData {
                temp_vram_addr: with_coarse_y(
                    with_fine_y(regs.temp_vram_addr, value & 0x07),
                    value >> 3,
                ),
                write_latch: false,
                ..regs
            }
        }
    }

    /// The register file after a write of `value` to `$2006`. The first
    /// write of a pair gives the high six bits of the temporary address, the
    /// second the low eight, and then the current address takes it all.
    pub open spec fn addr_written(regs: PpuData, value: u8) -> PpuData {
        if !regs.write_latch {
            PpuData {
                temp_vram_addr: (((value & 0x3F) as u16) << 8) | (regs.temp_vram_addr & 0x00FF),
                write_latch: true,
                ..regs
            }
        } else {
            PpuData {
                temp_vram_addr: (regs.temp_vram_addr & 0xFF00) | (value as u16),
                vram_addr: (regs.temp_vram_addr & 0xFF00) | (value as u16),
                write_latch: false,
                ..regs
            }
        }
    }

    /// The controller after a write of `value` to `$4016`. Bit 0 drives the
    /// strobe; taking it down polls the buttons first.
    pub open spec fn strobe_written(input: Input, value: u8) -> Input {
        if value & 1 != 0 {
            Input { read_latch: true, ..input }
        } else {
            Input { read_latch: false, ..input.polled() }
        }
    }

    /// The bus after a CPU write of `value` to `addr`.
    #[verifier::opaque]
    pub open spec fn after_write(self, addr: u16, value: u8) -> Bus {
        if addr < 0x2000 {
            Bus { ram: self.ram.with_cpu(addr, value), ..self }
        } else if addr < 0x3FFF {
            if register_of(addr) == 0 {
                Bus { ppu_data: Self::ctrl_written(self.ppu_data, value), ..self }
            } else if register_of(addr) == 1 {
                Bus { ppu_data: PpuData { mask: value, ..self.ppu_data }, ..self }
            } else if register_of(addr) == 3 {
                Bus { ppu_data: PpuData { oam_addr: value, ..self.ppu_data }, ..self }
            } else if register_of(addr) == 4 {
                Bus { ppu_data: self.ppu_data.with_oam(self.ppu_data.oam_addr, value), ..self }
            } else if register_of(addr) == 5 {
                Bus { ppu_data: Self::scroll_written(self.ppu_data, value), ..self }
            } else if register_of(addr) == 6 {
                Bus { ppu_data: Self::addr_written(self.ppu_data, value), ..self }
            } else if register_of(addr) == 7 {
                let stored = self.after_ppu_write(self.ppu_data.vram_addr, value);
                Bus {
                    ppu_data: PpuData { vram_addr: stepped(self.ppu_data), ..self.ppu_data },
                    ..stored
                }
            } else {
                self
            }
        } else if addr == OAM_DMA_ADDR {
            Bus {
                oam_dma_cpu: true,
                oam_dma_ppu: true,
                oam_dma_addr: (value as u16) << 8,
                ..self
            }
        } else if addr == JOYPAD_ONE_ADDR {
            Bus { input: Self::strobe_written(self.input, value), ..self }
        } else {
            self
        }
    }

    /// The word at `addr`, and the bus that reading it leaves behind: the
    /// low byte is read first, the high byte from the address after it.
    pub open spec fn word_read(self, addr: u16, debug: bool) -> (u16, Bus) {
        let low = self.read_spec(addr, debug);
        let high = low.1.read_spec(addr.wrapping_add(1), debug);
        (word(low.0, high.0), high.1)
    }

    /// As [`Bus::word_read`], but the high byte comes from the same page as
    /// the low byte: after `$xxFF` comes `$xx00`.
    pub open spec fn word_read_wrap(self, addr: u16, debug: bool) -> (u16, Bus) {
        let low = self.read_spec(addr, debug);
        let high = low.1.read_spec(next_in_page(addr), debug);
        (word(low.0, high.0), high.1)
    }

    /// Steps the current VRAM address after an access through `$2007`.
    fn step_vram_addr(&mut self)
        ensures
            *final(self) == (Bus {
                ppu_data: PpuData { vram_addr: stepped(old(self).ppu_data), ..old(self).ppu_data },
                ..*old(self)
            }),
    {
        if self.ppu_data.get_increment_mode() {
            self.ppu_data.vram_addr = self.ppu_data.vram_addr.wrapping_add(32);
        } else {
            self.ppu_data.vram_addr = self.ppu_data.vram_addr.wrapping_add(1);
        }
    }

    /// Reads a byte as the CPU does.
    pub fn read(&mut self, addr: u16, debug: bool) -> (value: u8)
        ensures
            value == old(self).read_value(addr, debug),
            *final(self) == old(self).after_read(addr, debug),
    {
        reveal(Bus::read_spec);
        if addr < 0x2000 {
            self.ram.get_cpu_memory(addr)
        } else if addr < 0x3FFF {
            let register: u16 = (addr % 8) + 0x2000;
            if register == PPU_STATUS_ADDR {
                if debug {
                    self.ppu_data.status
                } else {
                    let reported: u8 = if self.ppu_data.nmi_occurred {
                        0x80 | self.ppu_data.status
                    } else {
                        0x7F & self.ppu_data.status
                    };
                    self.ppu_data.write_latch = false;
                    self.ppu_data.nmi_occurred = false;
                    self.ppu_data.status &= 0x7F;
                    reported
                }
            } else if register == OAM_DATA_ADDR {
                let value: u8 = self.ppu_data.oam[self.ppu_data.oam_addr as usize];
                if !debug {
                    self.ppu_data.oam_addr = self.ppu_data.oam_addr.wrapping_add(1);
                }
                value
            } else if register == PPU_DATA_ADDR {
                let fetched: u8 = self.ppu_read(self.ppu_data.vram_addr);
                if debug {
                    return fetched;
                }
                self.ppu_data.data = self.ppu_data.data_buffer;
                self.ppu_data.data_buffer = fetched;
                if self.ppu_data.vram_addr % 0x4000 >= 0x3F00 {
                    self.ppu_data.data = fetched;
                }
                self.step_vram_addr();
                self.ppu_data.data
            } else {
                0
            }
        } else if addr == JOYPAD_ONE_ADDR {
            self.input.read_and_shift_joypad_one()
        } else if addr < 0x8000 {
            0
        } else {
            self.cart.cpu_read(addr)
        }
    }

    /// Reads a little-endian word.
    pub fn read_word_little(&mut self, addr: u16, debug: bool) -> (value: u16)
        ensures
            value == old(self).word_read(addr, debug).0,
            *final(self) == old(self).word_read(addr, debug).1,
    {
        let low: u8 = self.read(addr, debug);
        let high: u8 = self.read(addr.wrapping_add(1), debug);
        (high as u16) * 256 + (low as u16)
    }

    /// Reads a little-endian word whose high byte lies on the page of its low
    /// byte, as the CPU's indirect jump does.
    pub fn read_word_little_wrap(&mut self, addr: u16, debug: bool) -> (value: u16)
        ensures
            value == old(self).word_read_wrap(addr, debug).0,
            *final(self) == old(self).word_read_wrap(addr, debug).1,
    {
        let low: u8 = self.read(addr, debug);
        let high_addr: u16 = (addr / 256) * 256 + (addr % 256 + 1) % 256;
        let high: u8 = self.read(high_addr, debug);
        (high as u16) * 256 + (low as u16)
    }

    /// Writes a byte as the CPU does.
    pub fn write(&mut self, addr: u16, value: u8)
        ensures
            *final(self) == old(self).after_write(addr, value),
    {
        reveal(Bus::after_write);
        if addr < 0x2000 {
            self.ram.set_cpu_memory(addr, value);
        } else if addr < 0x3FFF {
            let register: u16 = (addr % 8) + 0x2000;
            if register == PPU_CTRL_ADDR {
                self.ppu_data.ctrl = value;
                self.ppu_data.set_nametable_x_t(value & 0x01);
                self.ppu_data.set_nametable_y_t((value >> 1) & 0x01);
            } else if register == PPU_MASK_ADDR {
                self.ppu_data.mask = value;
            } else if register == OAM_ADDR_ADDR {
                self.ppu_data.oam_addr = value;
            } else if register == OAM_DATA_ADDR {
                self.ppu_data.set_oam_data(value);
            } else if register == PPU_SCROLL_ADDR {
                if !self.ppu_data.write_latch {
                    self.ppu_data.fine_x_scroll = value & 0x07;
                    self.ppu_data.set_coarse_x_scroll_t(value >> 3);
                    self.ppu_data.write_latch = true;
                } else {
                    self.ppu_data.set_fine_y_scroll_t(value & 0x07);
                    self.ppu_data.set_coarse_y_scroll_t(value >> 3);
                    self.ppu_data.write_latch = false;
                }
            } else if register == PPU_ADDR_ADDR {
                if !self.ppu_data.write_latch {
                    self.ppu_data.temp_vram_addr = (((value & 0x3F) as u16) << 8) | (
                    self.ppu_data.temp_vram_addr & 0x00FF);
                    self.ppu_data.write_latch = true;
                } else {
                    self.ppu_data.temp_vram_addr = (self.ppu_data.temp_vram_addr & 0xFF00) | (
                    value as u16);
                    self.ppu_data.vram_addr = self.ppu_data.temp_vram_addr;
                    self.ppu_data.write_latch = false;
                }
            } else if register == PPU_DATA_ADDR {
                self.ppu_write(self.ppu_data.vram_addr, value);
                self.step_vram_addr();
            }
        } else if addr == OAM_DMA_ADDR {
            self.oam_dma_cpu = true;
            self.oam_dma_ppu = true;
            self.oam_dma_addr = (value as u16) << 8;
        } else if addr == JOYPAD_ONE_ADDR {
            if value & 1 != 0 {
                self.input.set_latch(true);
            } else {
                self.input.update_input();
                self.input.set_latch(false);
            }
        }
    }

    /// Reads a byte as the PPU does.
    pub fn ppu_read(&self, addr: u16) -> (value: u8)
        ensures
            value == self.ppu_at(addr),
    {
        let folded: u16 = addr % 0x4000;
        if folded < 0x2000 {
            self.cart.ppu_read(folded)
        } else {
            self.ram.get_ppu_memory(folded)
        }
    }

    /// Writes a byte as the PPU does.
    pub fn ppu_write(&mut self, addr: u16, value: u8)
        ensures
            *final(self) == old(self).after_ppu_write(addr, value),
    {
        let folded: u16 = addr % 0x4000;
        if folded >= 0x2000 {
            self.ram.set_ppu_memory(folded, value);
        }
    }
}

/// The address after `addr` on its page is on that page: it is one higher,
/// except that after the last byte of the page comes the first.
pub proof fn lemma_next_in_page(addr: u16)
    ensures
        next_in_page(addr) / 256 == addr / 256,
        addr % 256 == 255 ==> next_in_page(addr) == addr - 255,
        addr % 256 != 255 ==> next_in_page(addr) == addr + 1,
{
}

/// A byte splits into a fine scroll in its low three bits and a coarse
/// scroll in its high five.
pub proof fn lemma_scroll_split(value: u8)
    by (bit_vector)
    ensures
        value & 0x07 == value % 8,
        value >> 3 == value / 8,
{
}

/// Two writes to `$2005`, beginning with the write toggle down, leave in
/// the temporary address and in fine X exactly the scroll that they spell:
/// the first byte gives coarse X in its high five bits and fine X in its
/// low three, the second coarse Y and fine Y likewise. The name-table
/// selects, the current address and every other register stay as they
/// were, and the toggle is down again.
pub proof fn lemma_scroll_pair(regs: PpuData, first: u8, second: u8)
    requires
        !regs.write_latch,
    ensures
        ({
            let after = Bus::scroll_written(Bus::scroll_written(regs, first), second);
            &&& after.fine_x_scroll == first % 8
            &&& coarse_x(after.temp_vram_addr) == first / 8
            &&& fine_y(after.temp_vram_addr) == second % 8
            &&& coarse_y(after.temp_vram_addr) == second / 8
            &&& nametable_x(after.temp_vram_addr) == nametable_x(regs.temp_vram_addr)
            &&& nametable_y(after.temp_vram_addr) == nametable_y(regs.temp_vram_addr)
            &&& after == (PpuData {
                fine_x_scroll: after.fine_x_scroll,
                temp_vram_addr: after.temp_vram_addr,
                ..regs
            })
        }),
{
    lemma_scroll_split(first);
    lemma_scroll_split(second);
    let once = with_coarse_x(regs.temp_vram_addr, first >> 3);
    let twice = with_fine_y(once, second & 0x07);
    lemma_with_coarse_x(regs.temp_vram_addr, first >> 3);
    lemma_with_fine_y(once, second & 0x07);
    lemma_with_coarse_y(twice, second >> 3);
}

/// No CPU write but one to `$2006` or `$2007`, or to a mirror of them,
/// changes the current VRAM address. A scroll written through `$2005`
/// waits in the temporary address.
pub proof fn lemma_write_keeps_current_address(bus: Bus, addr: u16, value: u8)
    requires
        !(0x2000 <= addr < 0x3FFF && (register_of(addr) == 6 || register_of(addr) == 7)),
    ensures
        bus.after_write(addr, value).ppu_data.vram_addr == bus.ppu_data.vram_addr,
{
    reveal(Bus::after_write);
}

/// A debug read leaves the bus as it was, except at the controller port.
pub proof fn lemma_debug_read_is_silent(bus: Bus, addr: u16)
    requires
        addr != JOYPAD_ONE_ADDR,
    ensures
        bus.after_read(addr, true) == bus,
{
    reveal(Bus::read_spec);
}

} // verus!
