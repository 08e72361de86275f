//! The PPU's register file: what the CPU reaches through `$2000-$2007`, the
//! two 15-bit address registers behind the scroll ports, and sprite memory.
//!
//! An address register packs five fields, low bit first: coarse X (5 bits),
//! coarse Y (5 bits), name table X (1 bit), name table Y (1 bit), fine Y
//! (3 bits).

use crate::utils::filled;
use vstd::prelude::*;

verus! {

/// Coarse X scroll held in an address register: the tile column, 0-31.
pub open spec fn coarse_x(v: u16) -> u8 {
    (v % 32) as u8
}

/// Coarse Y scroll held in an address register: the tile row, 0-31.
pub open spec fn coarse_y(v: u16) -> u8 {
    ((v / 32) % 32) as u8
}

/// Horizontal name-table select held in an address register.
pub open spec fn nametable_x(v: u16) -> u8 {
    ((v / 1024) % 2) as u8
}

/// Vertical name-table select held in an address register.
pub open spec fn nametable_y(v: u16) -> u8 {
    ((v / 2048) % 2) as u8
}

/// Fine Y scroll held in an address register: the pixel row in a tile, 0-7.
pub open spec fn fine_y(v: u16) -> u8 {
    ((v / 4096) % 8) as u8
}

/// An address register with coarse X replaced.
pub open spec fn with_coarse_x(v: u16, value: u8) -> u16 {
    (v & 0x7FE0) | (value as u16)
}

/// An address register with coarse Y replaced.
pub open spec fn with_coarse_y(v: u16, value: u8) -> u16 {
    (v & 0x7C1F) | ((value as u16) << 5)
}

/// An address register with the horizontal name-table select replaced.
pub open spec fn with_nametable_x(v: u16, value: u8) -> u16 {
    (v & 0x7BFF) | ((value as u16) << 10)
}

/// An address register with the vertical name-table select replaced.
pub open spec fn with_nametable_y(v: u16, value: u8) -> u16 {
    (v & 0x77FF) | ((value as u16) << 11)
}

/// An address register with fine Y replaced.
pub open spec fn with_fine_y(v: u16, value: u8) -> u16 {
    (v & 0x0FFF) | ((value as u16) << 12)
}

/// Shifting and masking an address register reads the fields as defined.
pub proof fn lemma_field_reads(v: u16)
    by (bit_vector)
    ensures
        v & 0x001F == v % 32,
        (v >> 5) & 0x001F == (v / 32) % 32,
        (v >> 10) & 0x0001 == (v / 1024) % 2,
        (v >> 11) & 0x0001 == (v / 2048) % 2,
        (v >> 12) & 0x0007 == (v / 4096) % 8,
{
}

/// Replacing coarse X by a value that fits the field changes that field and
/// no other.
pub proof fn lemma_with_coarse_x(v: u16, value: u8)
    by (bit_vector)
    requires
        value < 32,
    ensures
        ((v & 0x7FE0) | (value as u16)) % 32 == value,
        (((v & 0x7FE0) | (value as u16)) / 32) % 32 == (v / 32) % 32,
        (((v & 0x7FE0) | (value as u16)) / 1024) % 2 == (v / 1024) % 2,
        (((v & 0x7FE0) | (value as u16)) / 2048) % 2 == (v / 2048) % 2,
        (((v & 0x7FE0) | (value as u16)) / 4096) % 8 == (v / 4096) % 8,
{
}

/// Replacing coarse Y by a value that fits the field changes that field and
/// no other.
pub proof fn lemma_with_coarse_y(v: u16, value: u8)
    by (bit_vector)
    requires
        value < 32,
    ensures
        ((v & 0x7C1F) | ((value as u16) << 5)) % 32 == v % 32,
        (((v & 0x7C1F) | ((value as u16) << 5)) / 32) % 32 == value,
        (((v & 0x7C1F) | ((value as u16) << 5)) / 1024) % 2 == (v / 1024) % 2,
        (((v & 0x7C1F) | ((value as u16) << 5)) / 2048) % 2 == (v / 2048) % 2,
        (((v & 0x7C1F) | ((value as u16) << 5)) / 4096) % 8 == (v / 4096) % 8,
{
}

/// Replacing a name-table select by 0 or 1 changes that field and no other.
pub proof fn lemma_with_nametable(v: u16, value: u8)
    by (bit_vector)
    requires
        value < 2,
    ensures
        ((v & 0x7BFF) | ((value as u16) << 10)) % 32 == v % 32,
        (((v & 0x7BFF) | ((value as u16) << 10)) / 32) % 32 == (v / 32) % 32,
        (((v & 0x7BFF) | ((value as u16) << 10)) / 1024) % 2 == value,
        (((v & 0x7BFF) | ((value as u16) << 10)) / 2048) % 2 == (v / 2048) % 2,
        (((v & 0x7BFF) | ((value as u16) << 10)) / 4096) % 8 == (v / 4096) % 8,
        ((v & 0x77FF) | ((value as u16) << 11)) % 32 == v % 32,
        (((v & 0x77FF) | ((value as u16) << 11)) / 32) % 32 == (v / 32) % 32,
        (((v & 0x77FF) | ((value as u16) << 11)) / 1024) % 2 == (v / 1024) % 2,
        (((v & 0x77FF) | ((value as u16) << 11)) / 2048) % 2 == value,
        (((v & 0x77FF) | ((value as u16) << 11)) / 4096) % 8 == (v / 4096) % 8,
{
}

/// Replacing fine Y by a value that fits the field changes that field and no
/// other.
pub proof fn lemma_with_fine_y(v: u16, value: u8)
    by (bit_vector)
    requires
        value < 8,
    ensures
        ((v & 0x0FFF) | ((value as u16) << 12)) % 32 == v % 32,
        (((v & 0x0FFF) | ((value as u16) << 12)) / 32) % 32 == (v / 32) % 32,
        (((v & 0x0FFF) | ((value as u16) << 12)) / 1024) % 2 == (v / 1024) % 2,
        (((v & 0x0FFF) | ((value as u16) << 12)) / 2048) % 2 == (v / 2048) % 2,
        (((v & 0x0FFF) | ((value as u16) << 12)) / 4096) % 8 == value,
{
}

/// Register state of the PPU that the bus reads and writes.
pub struct PpuData {
    /// Vertical blank has begun and `$2002` has not been read since.
    pub nmi_occurred: bool,
    /// `$2000`, the control register.
    pub ctrl: u8,
    /// `$2001`, the mask register.
    pub mask: u8,
    /// `$2002`, the status register.
    pub status: u8,
    /// `$2003`, the address into sprite memory.
    pub oam_addr: u8,
    /// The write toggle that `$2005` and `$2006` share: set between the first
    /// and the second write of a pair.
    pub write_latch: bool,
    /// The value that the last read of `$2007` returned.
    pub data: u8,
    /// The read buffer behind `$2007`.
    pub data_buffer: u8,
    /// Fine X scroll, 0-7.
    pub fine_x_scroll: u8,
    /// The current VRAM address.
    pub vram_addr: u16,
    /// The temporary VRAM address, filled through `$2000`, `$2005`, `$2006`.
    pub temp_vram_addr: u16,
    /// Sprite memory: 64 sprites of 4 bytes.
    pub oam: [u8; 0x100],
}

/// `status` with the bits of `mask` set or cleared.
pub open spec fn with_status_bit(status: u8, mask: u8, value: bool) -> u8 {
    if value {
        status | mask
    } else {
        status & !mask
    }
}

impl PpuData {
    /// The register file at power-on: everything zero.
    pub open spec fn fresh() -> PpuData {
        PpuData {
            nmi_occurred: false,
            ctrl: 0,
            mask: 0,
            status: 0,
            oam_addr: 0,
            write_latch: false,
            data: 0,
            data_buffer: 0,
            fine_x_scroll: 0,
            vram_addr: 0,
            temp_vram_addr: 0,
            oam: filled(0),
        }
    }

    /// The register file at power-on: everything zero.
    pub fn new() -> (regs: PpuData)
        ensures
            regs == PpuData::fresh(),
            forall|i: int| 0 <= i < 0x100 ==> regs.oam[i] == 0,
    {
        PpuData {
            nmi_occurred: false,
            ctrl: 0,
            mask: 0,
            status: 0,
            oam_addr: 0,
            write_latch: false,
            data: 0,
            data_buffer: 0,
            fine_x_scroll: 0,
            vram_addr: 0,
            temp_vram_addr: 0,
            oam: [0; 0x100],
        }
    }

    /// Fine Y of the current address.
    pub fn get_fine_y_scroll_v(&self) -> (value: u8)
        ensures
            value == fine_y(self.vram_addr),
    {
        proof {
            lemma_field_reads(self.vram_addr);
        }
        ((self.vram_addr >> 12) & 0x0007) as u8
    }

    /// Fine Y of the temporary address.
    pub fn get_fine_y_scroll_t(&self) -> (value: u8)
        ensures
            value == fine_y(self.temp_vram_addr),
    {
        proof {
            lemma_field_reads(self.temp_vram_addr);
        }
        ((self.temp_vram_addr >> 12) & 0x0007) as u8
    }

    /// Vertical name-table select of the current address.
    pub fn get_nametable_y_v(&self) -> (value: u8)
        ensures
            value == nametable_y(self.vram_addr),
    {
        proof {
            lemma_field_reads(self.vram_addr);
        }
        ((self.vram_addr >> 11) & 0x0001) as u8
    }

    /// Vertical name-table select of the temporary address.
    pub fn get_nametable_y_t(&self) -> (value: u8)
        ensures
            value == nametable_y(self.temp_vram_addr),
    {
        proof {
            lemma_field_reads(self.temp_vram_addr);
        }
        ((self.temp_vram_addr >> 11) & 0x0001) as u8
    }

    /// Horizontal name-table select of the current address.
    pub fn get_nametable_x_v(&self) -> (value: u8)
        ensures
            value == nametable_x(self.vram_addr),
    {
        proof {
            lemma_field_reads(self.vram_addr);
        }
        ((self.vram_addr >> 10) & 0x0001) as u8
    }

    /// Horizontal name-table select of the temporary address.
    pub fn get_nametable_x_t(&self) -> (value: u8)
        ensures
            value == nametable_x(self.temp_vram_addr),
    {
        proof {
            lemma_field_reads(self.temp_vram_addr);
        }
        ((self.temp_vram_addr >> 10) & 0x0001) as u8
    }

    /// Coarse Y of the current address.
    pub fn get_coarse_y_scroll_v(&self) -> (value: u8)
        ensures
            value == coarse_y(self.vram_addr),
    {
        proof {
            lemma_field_reads(self.vram_addr);
        }
        ((self.vram_addr >> 5) & 0x001F) as u8
    }

    /// Coarse Y of the temporary address.
    pub fn get_coarse_y_scroll_t(&self) -> (value: u8)
        ensures
            value == coarse_y(self.temp_vram_addr),
    {
        proof {
            lemma_field_reads(self.temp_vram_addr);
        }
        ((self.temp_vram_addr >> 5) & 0x001F) as u8
    }

    /// Coarse X of the current address.
    pub fn get_coarse_x_scroll_v(&self) -> (value: u8)
        ensures
            value == coarse_x(self.vram_addr),
    {
        proof {
            lemma_field_reads(self.vram_addr);
        }
        (self.vram_addr & 0x001F) as u8
    }

    /// Coarse X of the temporary address.
    pub fn get_coarse_x_scroll_t(&self) -> (value: u8)
        ensures
            value == coarse_x(self.temp_vram_addr),
    {
        proof {
            lemma_field_reads(self.temp_vram_addr);
        }
        (self.temp_vram_addr & 0x001F) as u8
    }

    /// Replaces fine Y of the current address. A value above 7 spills into
    /// bit 15.
    pub fn set_fine_y_scroll_v(&mut self, value: u8)
        ensures
            *final(self) == (PpuData {
                vram_addr: with_fine_y(old(self).vram_addr, value),
                ..*old(self)
            }),
    {
        self.vram_addr = (self.vram_addr & 0x0FFF) | ((value as u16) << 12);
    }

    /// Replaces fine Y of the temporary address. A value above 7 spills into
    /// bit 15.
    pub fn set_fine_y_scroll_t(&mut self, value: u8)
        ensures
            *final(self) == (PpuData {
                temp_vram_addr: with_fine_y(old(self).temp_vram_addr, value),
                ..*old(self)
            }),
    {
        self.temp_vram_addr = (self.temp_vram_addr & 0x0FFF) | ((value as u16) << 12);
    }

    /// Replaces the vertical name-table select of the current address. A
    /// value above 1 spills into the bits above.
    pub fn set_nametable_y_v(&mut self, value: u8)
        ensures
            *final(self) == (PpuData {
                vram_addr: with_nametable_y(old(self).vram_addr, value),
                ..*old(self)
            }),
    {
        self.vram_addr = (self.vram_addr & 0x77FF) | ((value as u16) << 11);
    }

    /// Replaces the vertical name-table select of the temporary address. A
    /// value above 1 spills into the bits above.
    pub fn set_nametable_y_t(&mut self, value: u8)
        ensures
            *final(self) == (PpuData {
                temp_vram_addr: with_nametable_y(old(self).temp_vram_addr, value),
                ..*old(self)
            }),
    {
        self.temp_vram_addr = (self.temp_vram_addr & 0x77FF) | ((value as u16) << 11);
    }

    /// Replaces the horizontal name-table select of the current address. A
    /// value above 1 spills into the bits above.
    pub fn set_nametable_x_v(&mut self, value: u8)
        ensures
            *final(self) == (PpuData {
                vram_addr: with_nametable_x(old(self).vram_addr, value),
                ..*old(self)
            }),
    {
        self.vram_addr = (self.vram_addr & 0x7BFF) | ((value as u16) << 10);
    }

    /// Replaces the horizontal name-table select of the temporary address. A
    /// value above 1 spills into the bits above.
    pub fn set_nametable_x_t(&mut self, value: u8)
        ensures
            *final(self) == (PpuData {
                temp_vram_addr: with_nametable_x(old(self).temp_vram_addr, value),
                ..*old(self)
            }),
    {
        self.temp_vram_addr = (self.temp_vram_addr & 0x7BFF) | ((value as u16) << 10);
    }

    /// Replaces coarse Y of the current address. A value above 31 spills
    /// into the bits above.
    pub fn set_coarse_y_scroll_v(&mut self, value: u8)
        ensures
            *final(self) == (PpuData {
                vram_addr: with_coarse_y(old(self).vram_addr, value),
                ..*old(self)
            }),
    {
        self.vram_addr = (self.vram_addr & 0x7C1F) | ((value as u16) << 5);
    }

    /// Replaces coarse Y of the temporary address. A value above 31 spills
    /// into the bits above.
    pub fn set_coarse_y_scroll_t(&mut self, value: u8)
        ensures
            *final(self) == (PpuData {
                temp_vram_addr: with_coarse_y(old(self).temp_vram_addr, value),
                ..*old(self)
            }),
    {
        self.temp_vram_addr = (self.temp_vram_addr & 0x7C1F) | ((value as u16) << 5);
    }

    /// Replaces coarse X of the current address. A value above 31 spills
    /// into the bits above.
    pub fn set_coarse_x_scroll_v(&mut self, value: u8)
        ensures
            *final(self) == (PpuData {
                vram_addr: with_coarse_x(old(self).vram_addr, value),
                ..*old(self)
            }),
    {
        self.vram_addr = (self.vram_addr & 0x7FE0) | (value as u16);
    }

    /// Replaces coarse X of the temporary address. A value above 31 spills
    /// into the bits above.
    pub fn set_coarse_x_scroll_t(&mut self, value: u8)
        ensures
            *final(self) == (PpuData {
                temp_vram_addr: with_coarse_x(old(self).temp_vram_addr, value),
                ..*old(self)
            }),
    {
        self.temp_vram_addr = (self.temp_vram_addr & 0x7FE0) | (value as u16);
    }

    /// Control bit 7: raise NMI when vertical blank begins.
    pub open spec fn nmi_enable(self) -> bool {
        self.ctrl & 0x80 != 0
    }

    /// Control bit 5: sprites are 8x16 rather than 8x8.
    pub open spec fn sprite_size(self) -> bool {
        self.ctrl & 0x20 != 0
    }

    /// Control bit 4: background patterns come from `$1000`.
    pub open spec fn background_table_select(self) -> bool {
        self.ctrl & 0x10 != 0
    }

    /// Control bit 3: 8x8 sprite patterns come from `$1000`.
    pub open spec fn sprite_table_select(self) -> bool {
        self.ctrl & 0x08 != 0
    }

    /// Control bit 2: `$2007` steps the address by 32 rather than by 1.
    pub open spec fn increment_mode(self) -> bool {
        self.ctrl & 0x04 != 0
    }

    /// Mask bit 1: show the background in the leftmost eight pixels.
    pub open spec fn background_left_column_enable(self) -> bool {
        self.mask & 0x02 != 0
    }

    /// Mask bit 2: show sprites in the leftmost eight pixels.
    pub open spec fn sprite_left_column_enable(self) -> bool {
        self.mask & 0x04 != 0
    }

    /// Mask bit 3: show the background.
    pub open spec fn background_enable(self) -> bool {
        self.mask & 0x08 != 0
    }

    /// Mask bit 4: show sprites.
    pub open spec fn sprite_enable(self) -> bool {
        self.mask & 0x10 != 0
    }

    /// Rendering is on: the background or the sprites are shown.
    pub open spec fn rendering(self) -> bool {
        self.background_enable() || self.sprite_enable()
    }

    /// Control bit 7: raise NMI when vertical blank begins.
    pub fn get_nmi_enable(&self) -> (b: bool)
        ensures
            b == self.nmi_enable(),
    {
        (self.ctrl & 0x80) != 0
    }

    /// Control bit 6: the PPU drives the EXT pins.
    pub fn get_master_slave(&self) -> (b: bool)
        ensures
            b == (self.ctrl & 0x40 != 0),
    {
        (self.ctrl & 0x40) != 0
    }

    /// Control bit 5: sprites are 8x16 rather than 8x8.
    pub fn get_sprite_size(&self) -> (b: bool)
        ensures
            b == self.sprite_size(),
    {
        (self.ctrl & 0x20) != 0
    }

    /// Control bit 4: background patterns come from `$1000`.
    pub fn get_background_table_select(&self) -> (b: bool)
        ensures
            b == self.background_table_select(),
    {
        (self.ctrl & 0x10) != 0
    }

    /// Control bit 3: 8x8 sprite patterns come from `$1000`.
    pub fn get_sprite_table_select(&self) -> (b: bool)
        ensures
            b == self.sprite_table_select(),
    {
        (self.ctrl & 0x08) != 0
    }

    /// Control bit 2: `$2007` steps the address by 32 rather than by 1.
    pub fn get_increment_mode(&self) -> (b: bool)
        ensures
            b == self.increment_mode(),
    {
        (self.ctrl & 0x04) != 0
    }

    /// Mask bit 0: greyscale.
    pub fn get_greyscale(&self) -> (b: bool)
        ensures
            b == (self.mask & 0x01 != 0),
    {
        (self.mask & 0x01) != 0
    }

    /// Mask bit 1: show the background in the leftmost eight pixels.
    pub fn get_background_left_column_enable(&self) -> (b: bool)
        ensures
            b == self.background_left_column_enable(),
    {
        (self.mask & 0x02) != 0
    }

    /// Mask bit 2: show sprites in the leftmost eight pixels.
    pub fn get_sprite_left_column_enable(&self) -> (b: bool)
        ensures
            b == self.sprite_left_column_enable(),
    {
        (self.mask & 0x04) != 0
    }

    /// Mask bit 3: show the background.
    pub fn get_background_enable(&self) -> (b: bool)
        ensures
            b == self.background_enable(),
    {
        (self.mask & 0x08) != 0
    }

    /// Mask bit 4: show sprites.
    pub fn get_sprite_enable(&self) -> (b: bool)
        ensures
            b == self.sprite_enable(),
    {
        (self.mask & 0x10) != 0
    }

    /// Mask bit 5: emphasize red.
    pub fn get_emphasize_red(&self) -> (b: bool)
        ensures
            b == (self.mask & 0x20 != 0),
    {
        (self.mask & 0x20) != 0
    }

    /// Mask bit 6: emphasize green.
    pub fn get_emphasize_green(&self) -> (b: bool)
        ensures
            b == (self.mask & 0x40 != 0),
    {
        (self.mask & 0x40) != 0
    }

    /// Mask bit 7: emphasize blue.
    pub fn get_emphasize_blue(&self) -> (b: bool)
        ensures
            b == (self.mask & 0x80 != 0),
    {
        (self.mask & 0x80) != 0
    }

    /// Puts `value` on the low five bits of the status register, which no
    /// flag drives.
    pub fn set_open_bus(&mut self, value: u8)
        ensures
            *final(self) == (PpuData {
                status: (value & 0x1F) | (old(self).status & 0xE0),
                ..*old(self)
            }),
    {
        self.status = (value & 0x1F) | (self.status & 0xE0);
    }

    /// Sets or clears status bit 5, sprite overflow.
    pub fn set_sprite_overflow(&mut self, value: bool)
        ensures
            *final(self) == (PpuData {
                status: with_status_bit(old(self).status, 0x20, value),
                ..*old(self)
            }),
    {
        if value {
            self.status = self.status | 0x20;
        } else {
            self.status = self.status & !0x20u8;
        }
    }

    /// Sets or clears status bit 6, sprite-zero hit.
    pub fn set_sprite_hit(&mut self, value: bool)
        ensures
            *final(self) == (PpuData {
                status: with_status_bit(old(self).status, 0x40, value),
                ..*old(self)
            }),
    {
        if value {
            self.status = self.status | 0x40;
        } else {
            self.status = self.status & !0x40u8;
        }
    }

    /// Sets or clears status bit 7, vertical blank.
    pub fn set_vblank(&mut self, value: bool)
        ensures
            *final(self) == (PpuData {
                status: with_status_bit(old(self).status, 0x80, value),
                ..*old(self)
            }),
    {
        if value {
            self.status = self.status | 0x80;
        } else {
            self.status = self.status & !0x80u8;
        }
    }

    /// The address into sprite memory.
    pub fn get_oam_addr(&self) -> (value: u8)
        ensures
            value == self.oam_addr,
    {
        self.oam_addr
    }

    /// The byte of sprite memory that `$2003` points at.
    pub fn get_oam_data(&self) -> (value: u8)
        ensures
            value == self.oam[self.oam_addr as int],
    {
        self.oam[self.oam_addr as usize]
    }

    /// Stores into sprite memory where `$2003` points.
    pub fn set_oam_data(&mut self, value: u8)
        ensures
            *final(self) == old(self).with_oam(old(self).oam_addr, value),
    {
        self.oam[self.oam_addr as usize] = value;
    }

    /// The register file with one byte of sprite memory replaced.
    pub open spec fn with_oam(self, index: u8, value: u8) -> PpuData {
        PpuData { oam: vstd::array::spec_array_update(self.oam, index as int, value), ..self }
    }

    /// The value that the last read of `$2007` returned.
    pub fn get_ppu_data(&self) -> (value: u8)
        ensures
            value == self.data,
    {
        self.data
    }
}

} // verus!
