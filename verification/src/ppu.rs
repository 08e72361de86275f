//! The picture processing unit: a state machine that advances one dot per
//! tick through 262 scanlines of 341 dots, fetching background tiles and
//! sprites as it goes and writing one pixel of the frame for each visible
//! dot.

use crate::bus::Bus;
use crate::ppu_data::{
    coarse_x, coarse_y, fine_y, lemma_with_coarse_x, lemma_with_coarse_y, lemma_with_fine_y,
    lemma_with_nametable, nametable_x, nametable_y, with_coarse_x, with_coarse_y, with_fine_y,
    with_nametable_x, with_nametable_y, with_status_bit, PpuData,
};
use crate::utils::filled;
use vstd::prelude::*;

verus! {

/// Dots in a scanline.
pub const DOTS: u16 = 341;

/// Scanlines in a frame.
pub const SCANLINES: u16 = 262;

/// The scanline before the first visible one.
pub const PRE_RENDER: u16 = 261;

/// Bytes in the frame buffer: 256 by 240 pixels of four bytes.
pub const SCREEN_BYTES: usize = 245760;

/// The colours the PPU can show, as red, green, blue and alpha, four bytes
/// for each of the 64 colour numbers.
pub const PALETTE_RGBA: [u8; 256] = [
    0x59, 0x59, 0x5F, 0xFF, 0x00, 0x00, 0x8F, 0xFF, 0x18, 0x00, 0x8F, 0xFF, 0x3F, 0x00, 0x77, 0xFF,
    0x50, 0x00, 0x50, 0xFF, 0x50, 0x00, 0x10, 0xFF, 0x50, 0x00, 0x00, 0xFF, 0x40, 0x20, 0x00, 0xFF,
    0x30, 0x30, 0x00, 0xFF, 0x10, 0x30, 0x00, 0xFF, 0x00, 0x30, 0x10, 0xFF, 0x00, 0x40, 0x40, 0xFF,
    0x00, 0x40, 0x60, 0xFF, 0x00, 0x00, 0x00, 0xFF, 0x08, 0x08, 0x08, 0xFF, 0x08, 0x08, 0x08, 0xFF,
    0xA0, 0xA0, 0xA0, 0xFF, 0x00, 0x40, 0xD0, 0xFF, 0x50, 0x10, 0xE0, 0xFF, 0x70, 0x00, 0xE0, 0xFF,
    0x90, 0x00, 0xB0, 0xFF, 0xA0, 0x00, 0x50, 0xFF, 0x90, 0x30, 0x00, 0xFF, 0x80, 0x40, 0x00, 0xFF,
    0x60, 0x60, 0x00, 0xFF, 0x30, 0x60, 0x00, 0xFF, 0x00, 0x60, 0x00, 0xFF, 0x00, 0x60, 0x50, 0xFF,
    0x00, 0x50, 0x80, 0xFF, 0x08, 0x08, 0x08, 0xFF, 0x08, 0x08, 0x08, 0xFF, 0x08, 0x08, 0x08, 0xFF,
    0xE0, 0xE0, 0xE0, 0xFF, 0x40, 0x80, 0xF0, 0xFF, 0x70, 0x70, 0xF0, 0xFF, 0x90, 0x40, 0xF0, 0xFF,
    0xB0, 0x40, 0xE0, 0xFF, 0xC0, 0x50, 0x90, 0xFF, 0xD0, 0x60, 0x40, 0xFF, 0xC0, 0x80, 0x00, 0xFF,
    0xB0, 0xA0, 0x00, 0xFF, 0x70, 0xB0, 0x00, 0xFF, 0x20, 0xB0, 0x20, 0xFF, 0x20, 0xB0, 0x70, 0xFF,
    0x20, 0xB0, 0xC0, 0xFF, 0x40, 0x40, 0x40, 0xFF, 0x08, 0x08, 0x08, 0xFF, 0x08, 0x08, 0x08, 0xFF,
    0xE0, 0xE0, 0xE0, 0xFF, 0x90, 0xC0, 0xF0, 0xFF, 0xA0, 0xA0, 0xF0, 0xFF, 0xB0, 0x90, 0xF0, 0xFF,
    0xD0, 0x90, 0xF0, 0xFF, 0xE0, 0x90, 0xD0, 0xFF, 0xE0, 0xA0, 0xA0, 0xFF, 0xE0, 0xB0, 0x90, 0xFF,
    0xE0, 0xD0, 0x80, 0xFF, 0xB0, 0xD0, 0x80, 0xFF, 0x90, 0xD0, 0x90, 0xFF, 0x90, 0xD0, 0xB0, 0xFF,
    0x90, 0xD0, 0xE0, 0xFF, 0xA0, 0xA0, 0xA0, 0xFF, 0x08, 0x08, 0x08, 0xFF, 0x08, 0x08, 0x08, 0xFF,
];

/// The state of the PPU between two dots.
pub struct Ppu {
    /// Tile number fetched for the tile after next.
    pub background_next_nametable: u8,
    /// Palette number, 0-3, fetched for that tile.
    pub background_next_attrib: u8,
    /// Low bit plane of the row of that tile.
    pub background_next_pattern_low: u8,
    /// High bit plane of the row of that tile.
    pub background_next_pattern_high: u8,
    /// Low palette bit of the 16 pixels being shifted out.
    pub background_shift_attrib_low: u16,
    /// High palette bit of the 16 pixels being shifted out.
    pub background_shift_attrib_high: u16,
    /// Low colour bit of the 16 pixels being shifted out.
    pub background_shift_pattern_low: u16,
    /// High colour bit of the 16 pixels being shifted out.
    pub background_shift_pattern_high: u16,
    /// Sprites staged so far for the next scanline.
    pub num_next_sprites_found: u8,
    /// Where the sprite search stands in sprite memory.
    pub search_oam_index: u16,
    /// Which byte of a sprite the search copies next; -1 before its first.
    pub search_current_sprite_byte: i8,
    /// Sprite zero is among the staged sprites.
    pub sprite_zero_on_scanline: bool,
    /// The sprites staged for the next scanline: Y, tile, attributes, X.
    /// Eight can be shown; the ninth slot receives the Y of candidates.
    pub next_scanline_sprites: [[u8; 4]; 9],
    /// The sprites of the scanline being drawn. X counts down to the dot
    /// where the sprite begins.
    pub current_scanline_sprites: [[u8; 4]; 8],
    /// Low bit plane of the row of each sprite.
    pub scanline_sprite_patterns_low: [u8; 8],
    /// High bit plane of the row of each sprite.
    pub scanline_sprite_patterns_high: [u8; 8],
    /// The pixels that each sprite has put out, 0-8.
    pub scanline_sprite_shift_counters: [u8; 8],
    /// The scanline, 0-261.
    pub scanline: u16,
    /// The dot in the scanline, 0-340.
    pub cycle: u16,
    /// The frame is an even one.
    pub even: bool,
    /// A frame is complete. The driver takes it down after showing the
    /// frame.
    pub render_frame: bool,
    /// The frame, row by row, four bytes a pixel.
    pub screen: [u8; 245760],
    /// The left pattern table as a 128 by 128 picture.
    pub pattern_table_left: [u8; 65536],
    /// The right pattern table as a 128 by 128 picture.
    pub pattern_table_right: [u8; 65536],
}

/// The PPU together with the bus it acts on: the state that a dot
/// transforms.
pub struct Video {
    /// The PPU's own state.
    pub ppu: Ppu,
    /// The bus, with the PPU's registers and video memory on it.
    pub bus: Bus,
}

/// Where the attribute byte of the current tile lies.
pub open spec fn attribute_addr(v: u16) -> u16 {
    (0x23C0 + nametable_y(v) * 2048 + nametable_x(v) * 1024 + (coarse_y(v) / 4) * 8 + coarse_x(v)
        / 4) as u16
}

/// The palette number that an attribute byte gives the current tile: one of
/// its four bit pairs, chosen by bit 1 of coarse Y and of coarse X.
pub open spec fn attribute_quadrant(attribute: u8, v: u16) -> u8 {
    let lower: u8 = if (coarse_y(v) / 2) % 2 == 1 {
        attribute / 16
    } else {
        attribute
    };
    let pair: u8 = if (coarse_x(v) / 2) % 2 == 1 {
        lower / 4
    } else {
        lower
    };
    pair % 4
}

/// Where a row of a background tile lies in the pattern tables.
pub open spec fn background_pattern_addr(regs: PpuData, tile: u8, high: bool) -> u16 {
    (fine_y(regs.vram_addr) + tile * 16 + (if regs.background_table_select() {
        0x1000int
    } else {
        0int
    }) + (if high {
        8int
    } else {
        0int
    })) as u16
}

/// The address register after the move to the next tile column: coarse X
/// steps, and past 31 it wraps and the horizontal name table flips.
pub open spec fn column_stepped(v: u16) -> u16 {
    if coarse_x(v) == 31 {
        with_nametable_x(with_coarse_x(v, 0), (1 - nametable_x(v)) as u8)
    } else {
        with_coarse_x(v, (coarse_x(v) + 1) as u8)
    }
}

/// The address register after the move to the next pixel row: fine Y
/// steps, and past 7 it wraps and coarse Y steps. Coarse Y wraps past 29
/// and flips the vertical name table; from 31 it wraps and flips nothing.
pub open spec fn row_stepped(v: u16) -> u16 {
    if fine_y(v) < 7 {
        with_fine_y(v, (fine_y(v) + 1) as u8)
    } else if coarse_y(v) == 29 {
        with_nametable_y(with_coarse_y(with_fine_y(v, 0), 0), (1 - nametable_y(v)) as u8)
    } else if coarse_y(v) == 31 {
        with_coarse_y(with_fine_y(v, 0), 0)
    } else {
        with_coarse_y(with_fine_y(v, 0), (coarse_y(v) + 1) as u8)
    }
}

/// The current address with the horizontal fields of the temporary one.
pub open spec fn horizontal_copied(v: u16, t: u16) -> u16 {
    with_coarse_x(with_nametable_x(v, nametable_x(t)), coarse_x(t))
}

/// The current address with the vertical fields of the temporary one.
pub open spec fn vertical_copied(v: u16, t: u16) -> u16 {
    with_fine_y(with_coarse_y(with_nametable_y(v, nametable_y(t)), coarse_y(t)), fine_y(t))
}

/// A shift register with its low byte replaced.
pub open spec fn low_byte_loaded(shifter: u16, byte: u8) -> u16 {
    (shifter & 0xFF00) | (byte as u16)
}

/// A palette shift register with its low byte filled with one bit.
pub open spec fn low_byte_filled(shifter: u16, bit: bool) -> u16 {
    if bit {
        shifter | 0x00FF
    } else {
        shifter & 0xFF00
    }
}

/// A byte with its bits in reverse order.
pub open spec fn reversed(b: u8) -> u8 {
    ((b / 128) % 2 + ((b / 64) % 2) * 2 + ((b / 32) % 2) * 4 + ((b / 16) % 2) * 8 + ((b / 8) % 2)
        * 16 + ((b / 4) % 2) * 32 + ((b / 2) % 2) * 64 + (b % 2) * 128) as u8
}

/// The staged sprite whose row is fetched on a dot from 256 on: one sprite
/// for every eight dots.
pub open spec fn sprite_slot(cycle: u16) -> int {
    (cycle - 256) / 8
}

/// Where a row of a sprite lies in the pattern tables. The row is the
/// scanline minus the sprite's Y, counted from the bottom if the sprite is
/// flipped vertically. An 8x8 sprite takes its table from the control
/// register; an 8x16 sprite takes it from bit 0 of its tile number, and its
/// second tile for rows from 8 on. All sums wrap within 16 bits.
pub open spec fn sprite_pattern_addr(regs: PpuData, sprite: [u8; 4], scanline: u16, high: bool)
    -> u16 {
    let row: u16 = scanline.wrapping_sub(sprite[0] as u16);
    let flipped: bool = sprite[2] & 0x80 != 0;
    let offset: u16 = if flipped {
        7u16.wrapping_sub(row)
    } else {
        row
    };
    let first: u16 = (sprite[1] * 16) as u16;
    let second: u16 = ((sprite[1] + 1) * 16) as u16;
    let base: u16 = if !regs.sprite_size() {
        if regs.sprite_table_select() {
            (0x1000 + first) as u16
        } else {
            first
        }
    } else {
        let table: u16 = if sprite[1] & 0x01 == 0 {
            0x0000
        } else {
            0x1000
        };
        if (row < 8) != flipped {
            (table + first) as u16
        } else {
            (table + second) as u16
        }
    };
    let plane: u16 = if high {
        8
    } else {
        0
    };
    base.wrapping_add(offset).wrapping_add(plane)
}

/// The row of a sprite as the renderer wants it: the first pixel to show in
/// bit 0. A sprite that is not flipped horizontally is stored the other way
/// round and is reversed.
pub open spec fn sprite_row(sprite: [u8; 4], fetched: u8) -> u8 {
    if sprite[2] & 0x40 == 0 {
        reversed(fetched)
    } else {
        fetched
    }
}

/// The height of the sprites in scanlines.
pub open spec fn sprite_height(regs: PpuData) -> int {
    if regs.sprite_size() {
        16
    } else {
        8
    }
}

/// A sprite with top line `y` covers the scanline.
pub open spec fn sprite_in_range(regs: PpuData, y: u8, scanline: u16) -> bool {
    y <= scanline % 256 && y + sprite_height(regs) > scanline % 256
}

/// An array of sprites with one byte of one sprite replaced.
pub open spec fn with_sprite_byte<const N: usize>(
    sprites: [[u8; 4]; N],
    slot: int,
    byte: int,
    value: u8,
) -> [[u8; 4]; N] {
    vstd::array::spec_array_update(
        sprites,
        slot,
        vstd::array::spec_array_update(sprites[slot], byte, value),
    )
}

/// What the sprites contribute to a dot.
#[derive(Clone, Copy, Debug, PartialEq, Eq, Structural)]
pub struct SpriteDot {
    /// Colour number within the palette; 0 is transparent.
    pub pixel: u8,
    /// Palette number, 4-7.
    pub palette: u8,
    /// 1 if the sprite goes behind the background, else 0.
    pub priority: u8,
    /// The pixel is of the sprite in slot zero.
    pub zero: bool,
}

/// No sprite shows at the dot.
pub open spec fn no_sprite() -> SpriteDot {
    SpriteDot { pixel: 0, palette: 0, priority: 0, zero: false }
}

/// The colour number that the sprite in a slot puts out at its current
/// pixel. The slot has pixels left to put out.
pub open spec fn sprite_colour(ppu: Ppu, slot: int) -> u8 {
    let mux: u8 = 1u8 << ppu.scanline_sprite_shift_counters[slot];
    ((if ppu.scanline_sprite_patterns_low[slot] & mux != 0 {
        1int
    } else {
        0int
    }) + (if ppu.scanline_sprite_patterns_high[slot] & mux != 0 {
        2int
    } else {
        0int
    })) as u8
}

/// The sprites after the slots below `count` have lived through one dot,
/// and what they contribute to it.
///
/// A sprite that has not reached its column moves one dot closer. One that
/// has, and has pixels left, puts out its next pixel. The slots speak in
/// order, and the first pixel that is not transparent is the one shown.
pub open spec fn sprites_drawn(ppu: Ppu, count: int) -> (Ppu, SpriteDot)
    decreases count,
{
    if count <= 0 {
        (ppu, no_sprite())
    } else {
        let before = sprites_drawn(ppu, count - 1);
        let slot = count - 1;
        let sprite = before.0.current_scanline_sprites[slot];
        if sprite[3] != 0 {
            (
                Ppu {
                    current_scanline_sprites: with_sprite_byte(
                        before.0.current_scanline_sprites,
                        slot,
                        3,
                        (sprite[3] - 1) as u8,
                    ),
                    ..before.0
                },
                before.1,
            )
        } else if before.0.scanline_sprite_shift_counters[slot] < 8 {
            (
                Ppu {
                    scanline_sprite_shift_counters: vstd::array::spec_array_update(
                        before.0.scanline_sprite_shift_counters,
                        slot,
                        (before.0.scanline_sprite_shift_counters[slot] + 1) as u8,
                    ),
                    ..before.0
                },
                if before.1.pixel != 0 || sprite_colour(before.0, slot) == 0 {
                    before.1
                } else {
                    SpriteDot {
                        pixel: sprite_colour(before.0, slot),
                        palette: (sprite[2] % 4 + 4) as u8,
                        priority: (sprite[2] / 32) % 2,
                        zero: slot == 0,
                    }
                },
            )
        } else {
            before
        }
    }
}

/// What the background contributes to a dot: colour number and palette
/// number, each from the bit of its two shift registers that fine X
/// selects.
pub open spec fn background_dot(ppu: Ppu, regs: PpuData) -> (u8, u8) {
    let mux: u16 = 0x8000u16 >> (regs.fine_x_scroll % 8);
    (
        ((if ppu.background_shift_pattern_low & mux != 0 {
            1int
        } else {
            0int
        }) + (if ppu.background_shift_pattern_high & mux != 0 {
            2int
        } else {
            0int
        })) as u8,
        ((if ppu.background_shift_attrib_low & mux != 0 {
            1int
        } else {
            0int
        }) + (if ppu.background_shift_attrib_high & mux != 0 {
            2int
        } else {
            0int
        })) as u8,
    )
}

/// Which of background and sprite is shown, as colour number and palette
/// number. A transparent one yields to the other; where both are opaque the
/// sprite shows unless it asks to go behind.
pub open spec fn shown_dot(background: (u8, u8), sprite: SpriteDot) -> (u8, u8) {
    if background.0 == 0 && sprite.pixel != 0 {
        (sprite.pixel, sprite.palette)
    } else if background.0 != 0 && sprite.pixel == 0 {
        background
    } else if background.0 != 0 && sprite.pixel != 0 {
        if sprite.priority == 0 {
            (sprite.pixel, sprite.palette)
        } else {
            background
        }
    } else {
        (0, 0)
    }
}

/// Where the pixel of a dot lies in the frame buffer.
pub open spec fn pixel_offset(scanline: u16, cycle: u16) -> int {
    4 * (scanline * 256 + cycle.wrapping_sub(1))
}

/// A picture with the pixel at `offset` painted in a colour.
pub open spec fn painted<const N: usize>(picture: [u8; N], offset: int, colour: int) -> [u8; N] {
    vstd::array::spec_array_update(
        vstd::array::spec_array_update(
            vstd::array::spec_array_update(
                vstd::array::spec_array_update(picture, offset, PALETTE_RGBA[4 * colour]),
                offset + 1,
                PALETTE_RGBA[4 * colour + 1],
            ),
            offset + 2,
            PALETTE_RGBA[4 * colour + 2],
        ),
        offset + 3,
        PALETTE_RGBA[4 * colour + 3],
    )
}

/// The colour number, 0-63, that the palette holds for a colour number
/// within a palette.
pub open spec fn palette_colour(bus: Bus, palette: u8, pixel: u8) -> int {
    (bus.ppu_at((0x3F00 + palette * 4 + pixel) as u16) % 64) as int
}

/// The sprites after the staged ones became the current ones for the
/// slots below `count`: each current slot takes the staged sprite, the
/// staged slot is blanked, and the pixel counter starts over.
pub open spec fn sprites_swapped(ppu: Ppu, count: int) -> Ppu
    decreases count,
{
    if count <= 0 {
        ppu
    } else {
        let before = sprites_swapped(ppu, count - 1);
        let slot = count - 1;
        Ppu {
            current_scanline_sprites: vstd::array::spec_array_update(
                before.current_scanline_sprites,
                slot,
                before.next_scanline_sprites[slot],
            ),
            next_scanline_sprites: vstd::array::spec_array_update(
                before.next_scanline_sprites,
                slot,
                [0xFFu8, 0xFFu8, 0xFFu8, 0xFFu8],
            ),
            scanline_sprite_shift_counters: vstd::array::spec_array_update(
                before.scanline_sprite_shift_counters,
                slot,
                0u8,
            ),
            ..before
        }
    }
}

/// The bus after the first `count` bytes of a sprite DMA: each byte is read
/// as the CPU reads, from the DMA address onwards, and put into sprite
/// memory at its number.
pub open spec fn dma_copied(bus: Bus, count: int) -> Bus
    decreases count,
{
    if count <= 0 {
        bus
    } else {
        let before = dma_copied(bus, count - 1);
        let byte = before.read_spec(before.oam_dma_addr.wrapping_add((count - 1) as u16), false);
        Bus { ppu_data: byte.1.ppu_data.with_oam((count - 1) as u8, byte.0), ..byte.1 }
    }
}

/// The colour number within the palette, 0-3, of pixel `p` of a pattern
/// table drawn as a picture of 16 by 16 tiles, counted row by row.
pub open spec fn pattern_pixel(bus: Bus, right: bool, p: int) -> u8 {
    let row_addr: int = (if right {
        0x1000int
    } else {
        0int
    }) + (p / 1024) * 256 + ((p % 128) / 8) * 16 + (p / 128) % 8;
    let mux: u8 = 1u8 << ((7 - p % 8) as u8);
    ((if bus.ppu_at(row_addr as u16) & mux != 0 {
        1int
    } else {
        0int
    }) + (if bus.ppu_at((row_addr + 8) as u16) & mux != 0 {
        2int
    } else {
        0int
    })) as u8
}

/// A picture of a pattern table with its first `count` pixels drawn, each
/// in the colour that the first palette gives it.
pub open spec fn patterns_drawn(picture: [u8; 65536], bus: Bus, right: bool, count: int) -> [u8;
    65536]
    decreases count,
{
    if count <= 0 {
        picture
    } else {
        painted(
            patterns_drawn(picture, bus, right, count - 1),
            4 * (count - 1),
            palette_colour(bus, 0, pattern_pixel(bus, right, count - 1)),
        )
    }
}

/// The dots of a scanline on which background tiles are fetched and
/// shifted: 1-256 and 321-336.
pub open spec fn in_fetch_region(cycle: u16) -> bool {
    (1 <= cycle <= 256) || (321 <= cycle <= 336)
}

impl Video {
    /// The same bus with another PPU state.
    pub open spec fn with_ppu(self, ppu: Ppu) -> Video {
        Video { ppu, ..self }
    }

    /// The same PPU state on a bus with other registers.
    pub open spec fn with_regs(self, regs: PpuData) -> Video {
        Video { bus: Bus { ppu_data: regs, ..self.bus }, ..self }
    }

    /// The same, with another current VRAM address.
    pub open spec fn with_vram_addr(self, v: u16) -> Video {
        self.with_regs(PpuData { vram_addr: v, ..self.bus.ppu_data })
    }

    /// The start of the pre-render scanline: vertical blank is over, and
    /// the sprite flags of the old frame come down.
    pub open spec fn pre_render_done(self) -> Video {
        self.with_regs(
            PpuData {
                nmi_occurred: false,
                status: with_status_bit(
                    with_status_bit(
                        with_status_bit(self.bus.ppu_data.status, 0x80, false),
                        0x40,
                        false,
                    ),
                    0x20,
                    false,
                ),
                ..self.bus.ppu_data
            },
        )
    }

    /// The start of vertical blank: the status says so, and the CPU is
    /// interrupted if the control register asks for it.
    pub open spec fn vblank_started(self) -> Video {
        Video {
            bus: Bus {
                nmi_signal: self.bus.nmi_signal || self.bus.ppu_data.nmi_enable(),
                ppu_data: PpuData {
                    nmi_occurred: true,
                    status: with_status_bit(self.bus.ppu_data.status, 0x80, true),
                    ..self.bus.ppu_data
                },
                ..self.bus
            },
            ..self
        }
    }

    /// The background shift registers move on by one pixel, if the
    /// background is shown.
    pub open spec fn shift_applied(self) -> Video {
        if self.bus.ppu_data.background_enable() {
            self.with_ppu(
                Ppu {
                    background_shift_pattern_low: self.ppu.background_shift_pattern_low << 1,
                    background_shift_pattern_high: self.ppu.background_shift_pattern_high << 1,
                    background_shift_attrib_low: self.ppu.background_shift_attrib_low << 1,
                    background_shift_attrib_high: self.ppu.background_shift_attrib_high << 1,
                    ..self.ppu
                },
            )
        } else {
            self
        }
    }

    /// The low halves of the shift registers take the tile fetched last.
    pub open spec fn shift_loaded(self) -> Video {
        self.with_ppu(
            Ppu {
                background_shift_pattern_low: low_byte_loaded(
                    self.ppu.background_shift_pattern_low,
                    self.ppu.background_next_pattern_low,
                ),
                background_shift_pattern_high: low_byte_loaded(
                    self.ppu.background_shift_pattern_high,
                    self.ppu.background_next_pattern_high,
                ),
                background_shift_attrib_low: low_byte_filled(
                    self.ppu.background_shift_attrib_low,
                    self.ppu.background_next_attrib & 0x01 != 0,
                ),
                background_shift_attrib_high: low_byte_filled(
                    self.ppu.background_shift_attrib_high,
                    self.ppu.background_next_attrib & 0x02 != 0,
                ),
                ..self.ppu
            },
        )
    }

    /// The tile number under the current address is fetched.
    pub open spec fn nametable_fetched(self) -> Video {
        self.with_ppu(
            Ppu {
                background_next_nametable: self.bus.ppu_at(
                    0x2000 | (self.bus.ppu_data.vram_addr & 0x0FFF),
                ),
                ..self.ppu
            },
        )
    }

    /// The palette number of the tile under the current address is fetched.
    pub open spec fn attribute_fetched(self) -> Video {
        self.with_ppu(
            Ppu {
                background_next_attrib: attribute_quadrant(
                    self.bus.ppu_at(attribute_addr(self.bus.ppu_data.vram_addr)),
                    self.bus.ppu_data.vram_addr,
                ),
                ..self.ppu
            },
        )
    }

    /// The low bit plane of the row of the fetched tile is fetched.
    pub open spec fn pattern_low_fetched(self) -> Video {
        self.with_ppu(
            Ppu {
                background_next_pattern_low: self.bus.ppu_at(
                    background_pattern_addr(
                        self.bus.ppu_data,
                        self.ppu.background_next_nametable,
                        false,
                    ),
                ),
                ..self.ppu
            },
        )
    }

    /// The high bit plane of the row of the fetched tile is fetched.
    pub open spec fn pattern_high_fetched(self) -> Video {
        self.with_ppu(
            Ppu {
                background_next_pattern_high: self.bus.ppu_at(
                    background_pattern_addr(
                        self.bus.ppu_data,
                        self.ppu.background_next_nametable,
                        true,
                    ),
                ),
                ..self.ppu
            },
        )
    }

    /// The current address moves to the next tile column, if rendering is
    /// on.
    pub open spec fn scrolled_horizontal(self) -> Video {
        if self.bus.ppu_data.rendering() {
            self.with_vram_addr(column_stepped(self.bus.ppu_data.vram_addr))
        } else {
            self
        }
    }

    /// The current address moves to the next pixel row, if rendering is on.
    pub open spec fn scrolled_vertical(self) -> Video {
        if self.bus.ppu_data.rendering() {
            self.with_vram_addr(row_stepped(self.bus.ppu_data.vram_addr))
        } else {
            self
        }
    }

    /// The current address takes the horizontal fields of the temporary
    /// one, if rendering is on.
    pub open spec fn transferred_horizontal(self) -> Video {
        if self.bus.ppu_data.rendering() {
            self.with_vram_addr(
                horizontal_copied(self.bus.ppu_data.vram_addr, self.bus.ppu_data.temp_vram_addr),
            )
        } else {
            self
        }
    }

    /// The current address takes the vertical fields of the temporary one,
    /// if rendering is on.
    pub open spec fn transferred_vertical(self) -> Video {
        if self.bus.ppu_data.rendering() {
            self.with_vram_addr(
                vertical_copied(self.bus.ppu_data.vram_addr, self.bus.ppu_data.temp_vram_addr),
            )
        } else {
            self
        }
    }
    /// The row of one staged sprite is fetched for the next scanline. The
    /// dot chooses the sprite; nothing happens if fewer were staged.
    pub open spec fn sprite_pattern_fetched(self, low: bool) -> Video {
        let slot = sprite_slot(self.ppu.cycle);
        if self.ppu.cycle < 256 || slot >= self.ppu.num_next_sprites_found || slot >= 8 {
            self
        } else {
            let sprite = self.ppu.next_scanline_sprites[slot];
            let row = sprite_row(
                sprite,
                self.bus.ppu_at(
                    sprite_pattern_addr(self.bus.ppu_data, sprite, self.ppu.scanline, !low),
                ),
            );
            if low {
                self.with_ppu(
                    Ppu {
                        scanline_sprite_patterns_low: vstd::array::spec_array_update(
                            self.ppu.scanline_sprite_patterns_low,
                            slot,
                            row,
                        ),
                        ..self.ppu
                    },
                )
            } else {
                self.with_ppu(
                    Ppu {
                        scanline_sprite_patterns_high: vstd::array::spec_array_update(
                            self.ppu.scanline_sprite_patterns_high,
                            slot,
                            row,
                        ),
                        ..self.ppu
                    },
                )
            }
        }
    }

    /// One step of the search through sprite memory for the sprites of the
    /// next scanline.
    ///
    /// The search copies the Y of a sprite into the free slot and compares
    /// it on the step after. A sprite that covers the scanline takes the
    /// slot, and the next three steps copy its other bytes; one that does
    /// not is passed over. Sprite zero taking a slot is noted. Once eight
    /// slots are taken, the next sprite that covers the scanline raises
    /// sprite overflow, and the search rests.
    pub open spec fn sprite_searched(self) -> Video {
        let ppu = self.ppu;
        let found = ppu.num_next_sprites_found;
        let index = ppu.search_oam_index;
        let byte = ppu.search_current_sprite_byte;
        if found >= 9 || index >= 256 {
            self
        } else if byte == -1 {
            self.with_ppu(
                Ppu {
                    next_scanline_sprites: with_sprite_byte(
                        ppu.next_scanline_sprites,
                        found as int,
                        0,
                        self.bus.ppu_data.oam[index as int],
                    ),
                    search_oam_index: (index + 1) as u16,
                    search_current_sprite_byte: 0,
                    ..ppu
                },
            )
        } else if byte == 0 {
            if sprite_in_range(
                self.bus.ppu_data,
                ppu.next_scanline_sprites[found as int][0],
                ppu.scanline,
            ) {
                if found == 8 {
                    Video {
                        ppu: Ppu { num_next_sprites_found: 9, ..ppu },
                        bus: Bus {
                            ppu_data: PpuData {
                                status: with_status_bit(self.bus.ppu_data.status, 0x20, true),
                                ..self.bus.ppu_data
                            },
                            ..self.bus
                        },
                    }
                } else {
                    self.with_ppu(
                        Ppu {
                            num_next_sprites_found: (found + 1) as u8,
                            search_current_sprite_byte: 1,
                            sprite_zero_on_scanline: ppu.sprite_zero_on_scanline || index < 4,
                            ..ppu
                        },
                    )
                }
            } else {
                self.with_ppu(
                    Ppu {
                        next_scanline_sprites: with_sprite_byte(
                            ppu.next_scanline_sprites,
                            found as int,
                            0,
                            0xFF,
                        ),
                        search_current_sprite_byte: -1i8,
                        search_oam_index: (index + 3) as u16,
                        ..ppu
                    },
                )
            }
        } else if 1 <= byte < 4 && found >= 1 {
            self.with_ppu(
                Ppu {
                    next_scanline_sprites: with_sprite_byte(
                        ppu.next_scanline_sprites,
                        found - 1,
                        byte as int,
                        self.bus.ppu_data.oam[index as int],
                    ),
                    search_oam_index: (index + 1) as u16,
                    search_current_sprite_byte: (byte + 1) as i8,
                    ..ppu
                },
            )
        } else {
            self.with_ppu(Ppu { search_current_sprite_byte: -1i8, ..ppu })
        }
    }
    /// One pixel of the frame is produced for the dot, and the sprites move
    /// on by a dot.
    ///
    /// Nothing happens in the leftmost eight dots unless sprites are shown
    /// there. Else background and sprites each contribute where they are
    /// shown, the one to show is chosen, its colour is looked up in the
    /// palette and painted at the dot. Where both are opaque, the sprite is
    /// of slot zero and sprite zero is staged, sprite-zero hit is raised.
    pub open spec fn pixel_rendered(self) -> Video {
        let regs = self.bus.ppu_data;
        let ppu = self.ppu;
        if !regs.sprite_left_column_enable() && ppu.cycle < 8 {
            self
        } else {
            let background = if regs.background_enable() && (
            regs.background_left_column_enable() || ppu.cycle >= 8) {
                background_dot(ppu, regs)
            } else {
                (0u8, 0u8)
            };
            let drawn = if regs.sprite_enable() && (regs.sprite_left_column_enable() || ppu.cycle
                >= 8) {
                sprites_drawn(ppu, 8)
            } else {
                (ppu, no_sprite())
            };
            let shown = shown_dot(background, drawn.1);
            let hit = background.0 != 0 && drawn.1.pixel != 0 && ppu.sprite_zero_on_scanline
                && drawn.1.zero;
            let offset = pixel_offset(ppu.scanline, ppu.cycle);
            Video {
                ppu: if offset < SCREEN_BYTES {
                    Ppu {
                        screen: painted(
                            drawn.0.screen,
                            offset,
                            palette_colour(self.bus, shown.1, shown.0),
                        ),
                        ..drawn.0
                    }
                } else {
                    drawn.0
                },
                bus: if hit {
                    Bus {
                        ppu_data: PpuData { status: with_status_bit(regs.status, 0x40, true), ..regs },
                        ..self.bus
                    }
                } else {
                    self.bus
                },
            }
        }
    }

    /// The idle dot that opens a scanline: the staged sprites become the
    /// current ones, and the search starts over.
    pub open spec fn sprites_turned(self) -> Video {
        self.with_ppu(
            Ppu {
                num_next_sprites_found: 0,
                search_oam_index: 0,
                search_current_sprite_byte: -1i8,
                sprite_zero_on_scanline: false,
                ..sprites_swapped(self.ppu, 8)
            },
        )
    }

    /// A sprite DMA that the bus has armed is carried out: 256 bytes are
    /// copied into sprite memory, and the request is taken down.
    pub open spec fn dma_done(self) -> Video {
        if self.bus.oam_dma_ppu {
            Video { bus: Bus { oam_dma_ppu: false, ..dma_copied(self.bus, 256) }, ..self }
        } else {
            self
        }
    }
    /// On an odd frame with rendering on, the idle dot that opens the first
    /// scanline is skipped.
    pub open spec fn odd_frame_skipped(self) -> Video {
        if self.ppu.scanline == 0 && self.ppu.cycle == 0 && !self.ppu.even
            && self.bus.ppu_data.rendering() {
            self.with_ppu(Ppu { cycle: 1, ..self.ppu })
        } else {
            self
        }
    }

    /// The background work of one dot in the fetch region. After dot 256
    /// the address moves down a row. The shift registers move on. Then
    /// comes one step of the fetch cycle of eight dots: the registers are
    /// loaded and the tile number fetched, then the palette, then the two
    /// bit planes, and last the address moves on a column.
    pub open spec fn background_stepped(self) -> Video {
        let dot = self.ppu.cycle;
        let rowed = if dot == 256 {
            self.scrolled_vertical()
        } else {
            self
        };
        let shifted = rowed.shift_applied();
        if dot % 8 == 0 {
            shifted.scrolled_horizontal()
        } else if dot % 8 == 1 {
            shifted.shift_loaded().nametable_fetched()
        } else if dot % 8 == 3 {
            shifted.attribute_fetched()
        } else if dot % 8 == 5 {
            shifted.pattern_low_fetched()
        } else if dot % 8 == 7 {
            shifted.pattern_high_fetched()
        } else {
            shifted
        }
    }

    /// The work of a dot in the fetch region of a visible or pre-render
    /// scanline: background, and on visible scanlines the sprite search
    /// from dot 65 on where sprites are shown, and a pixel up to dot 256.
    pub open spec fn fetch_dot(self) -> Video {
        let line = self.ppu.scanline;
        let dot = self.ppu.cycle;
        let stepped = self.background_stepped();
        let searched = if line < 240 && stepped.bus.ppu_data.sprite_enable() && 64 < dot <= 256 {
            stepped.sprite_searched()
        } else {
            stepped
        };
        if line < 240 && dot <= 256 {
            searched.pixel_rendered()
        } else {
            searched
        }
    }

    /// The work of a dot after the fetch region's share: the rows of the
    /// staged sprites are fetched on dots 257-320 of visible scanlines, the
    /// horizontal scroll is copied on dot 257, the vertical scroll on dots
    /// 280-304 of the pre-render scanline, and a tile number is fetched on
    /// dots 338 and 340.
    pub open spec fn tail_dot(self, line: u16, dot: u16) -> Video {
        let sprites = if 256 < dot <= 320 && line != PRE_RENDER && dot % 8 == 5 {
            self.sprite_pattern_fetched(true)
        } else if 256 < dot <= 320 && line != PRE_RENDER && dot % 8 == 7 {
            self.sprite_pattern_fetched(false)
        } else {
            self
        };
        let across = if dot == 257 {
            sprites.transferred_horizontal()
        } else {
            sprites
        };
        let down = if line == PRE_RENDER && 280 <= dot < 305 {
            across.transferred_vertical()
        } else {
            across
        };
        if dot == 338 || dot == 340 {
            down.nametable_fetched()
        } else {
            down
        }
    }

    /// The work of a dot on a visible or pre-render scanline.
    #[verifier::opaque]
    pub open spec fn rendering_dot(self) -> Video {
        let line = self.ppu.scanline;
        let dot = self.ppu.cycle;
        let opened = if line == PRE_RENDER && dot == 1 {
            self.pre_render_done()
        } else {
            self
        };
        let worked = if dot == 0 {
            opened.sprites_turned()
        } else if in_fetch_region(dot) {
            opened.fetch_dot()
        } else {
            opened
        };
        worked.tail_dot(line, dot)
    }

    /// The counters move to the next dot. After dot 340 comes dot 0 of the
    /// next scanline, and after scanline 261 comes scanline 0 of the next
    /// frame: the frame is complete, and even and odd change places.
    pub open spec fn counted(self) -> Video {
        let ppu = self.ppu;
        if ppu.cycle < 340 {
            self.with_ppu(Ppu { cycle: (ppu.cycle + 1) as u16, ..ppu })
        } else if ppu.scanline < 261 {
            self.with_ppu(Ppu { cycle: 0, scanline: (ppu.scanline + 1) as u16, ..ppu })
        } else {
            self.with_ppu(
                Ppu { cycle: 0, scanline: 0, even: !ppu.even, render_frame: true, ..ppu },
            )
        }
    }

    /// The state after one dot: a pending sprite DMA, the odd-frame skip,
    /// the work of the dot, and the step to the next dot. Scanlines 0-239
    /// and 261 render; scanline 241 begins vertical blank on dot 1; the
    /// others do nothing.
    pub open spec fn dot(self) -> Video {
        let ready = self.dma_done().odd_frame_skipped();
        let worked = if ready.ppu.scanline < 240 || ready.ppu.scanline == PRE_RENDER {
            ready.rendering_dot()
        } else if ready.ppu.scanline == 241 && ready.ppu.cycle == 1 {
            ready.vblank_started()
        } else {
            ready
        };
        worked.counted()
    }

    /// The two pattern tables are drawn as pictures.
    pub open spec fn patterns_filled(self) -> Video {
        self.with_ppu(
            Ppu {
                pattern_table_left: patterns_drawn(
                    self.ppu.pattern_table_left,
                    self.bus,
                    false,
                    16384,
                ),
                pattern_table_right: patterns_drawn(
                    self.ppu.pattern_table_right,
                    self.bus,
                    true,
                    16384,
                ),
                ..self.ppu
            },
        )
    }
}

/// The horizontal copy gives the current address coarse X and the
/// horizontal name table of the temporary one and leaves its vertical
/// fields alone.
pub proof fn lemma_horizontal_copy(v: u16, t: u16)
    ensures
        coarse_x(horizontal_copied(v, t)) == coarse_x(t),
        nametable_x(horizontal_copied(v, t)) == nametable_x(t),
        coarse_y(horizontal_copied(v, t)) == coarse_y(v),
        nametable_y(horizontal_copied(v, t)) == nametable_y(v),
        fine_y(horizontal_copied(v, t)) == fine_y(v),
{
    lemma_with_nametable(v, nametable_x(t));
    lemma_with_coarse_x(with_nametable_x(v, nametable_x(t)), coarse_x(t));
}

/// The vertical copy gives the current address coarse Y, fine Y and the
/// vertical name table of the temporary one and leaves its horizontal
/// fields alone.
pub proof fn lemma_vertical_copy(v: u16, t: u16)
    ensures
        coarse_y(vertical_copied(v, t)) == coarse_y(t),
        nametable_y(vertical_copied(v, t)) == nametable_y(t),
        fine_y(vertical_copied(v, t)) == fine_y(t),
        coarse_x(vertical_copied(v, t)) == coarse_x(v),
        nametable_x(vertical_copied(v, t)) == nametable_x(v),
{
    let first = with_nametable_y(v, nametable_y(t));
    let second = with_coarse_y(first, coarse_y(t));
    lemma_with_nametable(v, nametable_y(t));
    lemma_with_coarse_y(first, coarse_y(t));
    lemma_with_fine_y(second, fine_y(t));
}

/// Dot 257 of a visible or pre-render scanline is the horizontal copy
/// window: with rendering on, the current address takes the horizontal
/// fields of the temporary one, and nothing else of it. The temporary
/// address stays as it was.
pub proof fn lemma_horizontal_window(video: Video)
    requires
        !video.bus.oam_dma_ppu,
        video.ppu.scanline < 240 || video.ppu.scanline == PRE_RENDER,
        video.ppu.cycle == 257,
    ensures
        video.dot().bus.ppu_data.temp_vram_addr == video.bus.ppu_data.temp_vram_addr,
        video.dot().bus.ppu_data.vram_addr == if video.bus.ppu_data.rendering() {
            horizontal_copied(video.bus.ppu_data.vram_addr, video.bus.ppu_data.temp_vram_addr)
        } else {
            video.bus.ppu_data.vram_addr
        },
{
    reveal(Video::rendering_dot);
}

/// Dots 280 to 304 of the pre-render scanline are the vertical copy
/// window: with rendering on, the current address takes the vertical
/// fields of the temporary one, and nothing else of it. The temporary
/// address stays as it was.
pub proof fn lemma_vertical_window(video: Video)
    requires
        !video.bus.oam_dma_ppu,
        video.ppu.scanline == PRE_RENDER,
        280 <= video.ppu.cycle < 305,
    ensures
        video.dot().bus.ppu_data.temp_vram_addr == video.bus.ppu_data.temp_vram_addr,
        video.dot().bus.ppu_data.vram_addr == if video.bus.ppu_data.rendering() {
            vertical_copied(video.bus.ppu_data.vram_addr, video.bus.ppu_data.temp_vram_addr)
        } else {
            video.bus.ppu_data.vram_addr
        },
{
    reveal(Video::rendering_dot);
}

/// A sprite DMA from a page of work RAM fills sprite memory with that page,
/// byte for byte, and changes nothing else on the bus.
pub proof fn lemma_dma_from_ram(bus: Bus, count: int)
    requires
        0 <= count <= 256,
        bus.oam_dma_addr <= 0x1F00,
    ensures
        dma_copied(bus, count) == (Bus {
            ppu_data: PpuData { oam: dma_copied(bus, count).ppu_data.oam, ..bus.ppu_data },
            ..bus
        }),
        forall|i: int|
            0 <= i < count ==> dma_copied(bus, count).ppu_data.oam[i] == bus.ram.cpu_at(
                (bus.oam_dma_addr + i) as u16,
            ),
        forall|i: int|
            count <= i < 256 ==> dma_copied(bus, count).ppu_data.oam[i] == bus.ppu_data.oam[i],
    decreases count,
{
    if count > 0 {
        lemma_dma_from_ram(bus, count - 1);
        reveal(Bus::read_spec);
    }
}

/// The sprite in a slot shows a pixel that is not transparent at this dot:
/// it has reached its column, has pixels left, and the next one has colour.
pub open spec fn sprite_opaque(ppu: Ppu, slot: int) -> bool {
    &&& ppu.current_scanline_sprites[slot][3] == 0
    &&& ppu.scanline_sprite_shift_counters[slot] < 8
    &&& sprite_colour(ppu, slot) != 0
}

/// The first slot below `count` whose sprite shows a pixel that is not
/// transparent, or `count` if there is none.
pub open spec fn first_opaque(ppu: Ppu, count: int) -> int
    decreases count,
{
    if count <= 0 {
        0
    } else if first_opaque(ppu, count - 1) < count - 1 {
        first_opaque(ppu, count - 1)
    } else if sprite_opaque(ppu, count - 1) {
        count - 1
    } else {
        count
    }
}

/// What the sprite in a slot contributes to the dot if it is the one shown.
pub open spec fn sprite_contribution(ppu: Ppu, slot: int) -> SpriteDot {
    SpriteDot {
        pixel: sprite_colour(ppu, slot),
        palette: (ppu.current_scanline_sprites[slot][2] % 4 + 4) as u8,
        priority: (ppu.current_scanline_sprites[slot][2] / 32) % 2,
        zero: slot == 0,
    }
}

/// [`first_opaque`] names the first slot that is opaque: no slot before it
/// is, and it is itself unless it is `count`.
pub proof fn lemma_first_opaque(ppu: Ppu, count: int)
    requires
        0 <= count,
    ensures
        0 <= first_opaque(ppu, count) <= count,
        forall|k: int| 0 <= k < first_opaque(ppu, count) ==> !sprite_opaque(ppu, k),
        first_opaque(ppu, count) < count ==> sprite_opaque(ppu, first_opaque(ppu, count)),
    decreases count,
{
    if count > 0 {
        lemma_first_opaque(ppu, count - 1);
    }
}

/// What a dot does to each sprite. A slot below `count` moves one dot
/// closer to its column, or, once there, moves on to its next pixel while
/// it has pixels left. A slot from `count` on is as it was. The rows of the
/// sprites, and everything but the sprites, stay as they were.
pub proof fn lemma_sprites_drawn_slots(ppu: Ppu, count: int)
    requires
        0 <= count <= 8,
    ensures
        ({
            let after = sprites_drawn(ppu, count).0;
            &&& after == (Ppu {
                current_scanline_sprites: after.current_scanline_sprites,
                scanline_sprite_shift_counters: after.scanline_sprite_shift_counters,
                ..ppu
            })
            &&& forall|k: int|
                count <= k < 8 ==> after.current_scanline_sprites[k]
                    == ppu.current_scanline_sprites[k]
                    && after.scanline_sprite_shift_counters[k]
                    == ppu.scanline_sprite_shift_counters[k]
            &&& forall|k: int, b: int|
                0 <= k < count && 0 <= b < 3 ==> #[trigger] after.current_scanline_sprites[k][b]
                    == ppu.current_scanline_sprites[k][b]
            &&& forall|k: int|
                0 <= k < count ==> #[trigger] after.current_scanline_sprites[k][3] == if
                    ppu.current_scanline_sprites[k][3] != 0 {
                    (ppu.current_scanline_sprites[k][3] - 1) as u8
                } else {
                    0u8
                }
            &&& forall|k: int|
                0 <= k < count ==> #[trigger] after.scanline_sprite_shift_counters[k] == if
                    ppu.current_scanline_sprites[k][3] == 0
                    && ppu.scanline_sprite_shift_counters[k] < 8 {
                    (ppu.scanline_sprite_shift_counters[k] + 1) as u8
                } else {
                    ppu.scanline_sprite_shift_counters[k]
                }
        }),
    decreases count,
{
    if count > 0 {
        lemma_sprites_drawn_slots(ppu, count - 1);
    }
}

/// The first opaque sprite wins: what the sprites contribute to a dot is
/// the pixel of the first slot whose sprite shows one that is not
/// transparent, and nothing if there is no such slot.
pub proof fn lemma_first_opaque_sprite_wins(ppu: Ppu, count: int)
    requires
        0 <= count <= 8,
    ensures
        sprites_drawn(ppu, count).1 == if first_opaque(ppu, count) < count {
            sprite_contribution(ppu, first_opaque(ppu, count))
        } else {
            no_sprite()
        },
    decreases count,
{
    if count > 0 {
        lemma_first_opaque_sprite_wins(ppu, count - 1);
        lemma_sprites_drawn_slots(ppu, count - 1);
        lemma_first_opaque(ppu, count - 1);
        let before = sprites_drawn(ppu, count - 1);
        assert(before.0.current_scanline_sprites[count - 1] == ppu.current_scanline_sprites[count
            - 1]);
        assert(sprite_colour(before.0, count - 1) == sprite_colour(ppu, count - 1));
    }
}

/// What the turn of the sprites leaves in each slot: each of the eight
/// current slots holds the sprite that was staged for it and starts at its
/// first pixel, and each of the eight staged slots is blank. The ninth
/// staged slot, and everything but the sprites, stay as they were.
pub proof fn lemma_sprites_swapped_slots(ppu: Ppu, count: int)
    requires
        0 <= count <= 8,
    ensures
        ({
            let after = sprites_swapped(ppu, count);
            &&& after == (Ppu {
                current_scanline_sprites: after.current_scanline_sprites,
                next_scanline_sprites: after.next_scanline_sprites,
                scanline_sprite_shift_counters: after.scanline_sprite_shift_counters,
                ..ppu
            })
            &&& forall|k: int|
                0 <= k < count ==> #[trigger] after.current_scanline_sprites[k]
                    == ppu.next_scanline_sprites[k]
            &&& forall|k: int, b: int|
                0 <= k < count && 0 <= b < 4 ==> #[trigger] after.next_scanline_sprites[k][b]
                    == 0xFF
            &&& forall|k: int|
                0 <= k < count ==> #[trigger] after.scanline_sprite_shift_counters[k] == 0
            &&& forall|k: int|
                count <= k < 8 ==> after.current_scanline_sprites[k]
                    == ppu.current_scanline_sprites[k]
                    && after.scanline_sprite_shift_counters[k]
                    == ppu.scanline_sprite_shift_counters[k]
            &&& forall|k: int|
                count <= k < 9 ==> after.next_scanline_sprites[k] == ppu.next_scanline_sprites[k]
        }),
    decreases count,
{
    if count > 0 {
        lemma_sprites_swapped_slots(ppu, count - 1);
    }
}

/// What the picture of a pattern table holds: each of the first `count`
/// pixels has the four bytes of the colour that the first palette gives its
/// colour number, and the rest of the picture is as it was.
pub proof fn lemma_patterns_drawn_pixels(picture: [u8; 65536], bus: Bus, right: bool, count: int)
    requires
        0 <= count <= 16384,
    ensures
        forall|p: int, c: int|
            0 <= p < count && 0 <= c < 4 ==> #[trigger] patterns_drawn(
                picture,
                bus,
                right,
                count,
            )[4 * p + c] == PALETTE_RGBA[4 * palette_colour(
                bus,
                0,
                pattern_pixel(bus, right, p),
            ) + c],
        forall|i: int|
            4 * count <= i < 65536 ==> patterns_drawn(picture, bus, right, count)[i] == picture[i],
    decreases count,
{
    if count > 0 {
        lemma_patterns_drawn_pixels(picture, bus, right, count - 1);
        let before = patterns_drawn(picture, bus, right, count - 1);
        let after = patterns_drawn(picture, bus, right, count);
        let colour = palette_colour(bus, 0, pattern_pixel(bus, right, count - 1));
        assert forall|p: int, c: int| 0 <= p < count && 0 <= c < 4 implies #[trigger] after[4 * p
            + c] == PALETTE_RGBA[4 * palette_colour(bus, 0, pattern_pixel(bus, right, p)) + c] by {
            if p < count - 1 {
                assert(after[4 * p + c] == before[4 * p + c]);
            }
        }
    }
}

impl Ppu {
    /// The two PPU states stand at the same dot of the same frame.
    pub open spec fn same_position(self, other: Ppu) -> bool {
        &&& self.scanline == other.scanline
        &&& self.cycle == other.cycle
        &&& self.even == other.even
        &&& self.render_frame == other.render_frame
    }

    /// The dots left in the frame, this one included.
    pub open spec fn dots_left(self) -> int {
        (261 - if self.scanline < 261 {
            self.scanline
        } else {
            261
        }) * 341 + 341 - if self.cycle < 340 {
            self.cycle
        } else {
            340
        }
    }
}

/// Drawing the sprites of a dot moves no counter of the PPU.
pub proof fn lemma_sprites_drawn_position(ppu: Ppu, count: int)
    ensures
        sprites_drawn(ppu, count).0.same_position(ppu),
    decreases count,
{
    if count > 0 {
        lemma_sprites_drawn_position(ppu, count - 1);
    }
}

/// Turning the staged sprites into the current ones moves no counter of
/// the PPU.
pub proof fn lemma_sprites_swapped_position(ppu: Ppu, count: int)
    ensures
        sprites_swapped(ppu, count).same_position(ppu),
    decreases count,
{
    if count > 0 {
        lemma_sprites_swapped_position(ppu, count - 1);
    }
}

/// The work of a dot moves no counter of the PPU: only the step to the
/// next dot does.
pub proof fn lemma_rendering_dot_position(video: Video)
    ensures
        video.rendering_dot().ppu.same_position(video.ppu),
{
    reveal(Video::rendering_dot);
    let opened = if video.ppu.scanline == PRE_RENDER && video.ppu.cycle == 1 {
        video.pre_render_done()
    } else {
        video
    };
    lemma_sprites_swapped_position(opened.ppu, 8);
    let stepped = opened.background_stepped();
    let searched = if video.ppu.scanline < 240 && stepped.bus.ppu_data.sprite_enable() && 64
        < video.ppu.cycle <= 256 {
        stepped.sprite_searched()
    } else {
        stepped
    };
    lemma_sprites_drawn_position(searched.ppu, 8);
}

/// A sprite DMA leaves the control and mask registers as they were.
pub proof fn lemma_dma_keeps_control(bus: Bus, count: int)
    ensures
        dma_copied(bus, count).ppu_data.mask == bus.ppu_data.mask,
        dma_copied(bus, count).ppu_data.ctrl == bus.ppu_data.ctrl,
    decreases count,
{
    if count > 0 {
        lemma_dma_keeps_control(bus, count - 1);
        reveal(Bus::read_spec);
    }
}

/// How the counters move in one dot, whatever else the dot does. The dot
/// goes up by one, and by two where the idle dot of an odd frame is skipped
/// while rendering is on. After dot 340 comes dot 0 of the next scanline.
/// After scanline 261 comes scanline 0: then, and only then, the frame is
/// reported complete and even and odd change places.
pub proof fn lemma_dot_counters(video: Video)
    ensures
        ({
            let before = video.ppu;
            let after = video.dot().ppu;
            let dot = if before.scanline == 0 && before.cycle == 0 && !before.even
                && video.bus.ppu_data.rendering() {
                1u16
            } else {
                before.cycle
            };
            let wraps = dot >= 340 && before.scanline >= 261;
            &&& after.cycle == if dot < 340 {
                dot + 1
            } else {
                0
            }
            &&& after.scanline == if dot < 340 {
                before.scanline as int
            } else if before.scanline < 261 {
                before.scanline + 1
            } else {
                0
            }
            &&& after.even == if wraps {
                !before.even
            } else {
                before.even
            }
            &&& after.render_frame == (before.render_frame || wraps)
        }),
{
    lemma_dma_keeps_control(video.bus, 256);
    let ready = video.dma_done().odd_frame_skipped();
    lemma_rendering_dot_position(ready);
}

/// Every dot brings the end of the frame closer: either the frame is
/// complete after it, or fewer dots are left than before.
pub proof fn lemma_dot_progress(video: Video)
    requires
        !video.ppu.render_frame,
    ensures
        video.dot().ppu.render_frame || (video.dot().ppu.dots_left() < video.ppu.dots_left()
            && video.dot().ppu.dots_left() >= 1),
{
    let ready = video.dma_done().odd_frame_skipped();
    lemma_rendering_dot_position(ready);
}

/// The bus with another temporary VRAM address.
pub open spec fn with_temporary(bus: Bus, t: u16) -> Bus {
    Bus { ppu_data: PpuData { temp_vram_addr: t, ..bus.ppu_data }, ..bus }
}

/// The dot is in a window in which the current address takes fields of the
/// temporary one: dot 257 of a visible or pre-render scanline, or dots 280
/// to 304 of the pre-render scanline.
pub open spec fn in_copy_window(scanline: u16, cycle: u16) -> bool {
    ((scanline < 240 || scanline == PRE_RENDER) && cycle == 257) || (scanline == PRE_RENDER && 280
        <= cycle < 305)
}

/// A CPU read neither reads nor writes the temporary address.
pub proof fn lemma_read_ignores_temporary(bus: Bus, t: u16, addr: u16, debug: bool)
    ensures
        with_temporary(bus, t).read_value(addr, debug) == bus.read_value(addr, debug),
        with_temporary(bus, t).after_read(addr, debug) == with_temporary(
            bus.after_read(addr, debug),
            t,
        ),
{
    reveal(Bus::read_spec);
}

/// A sprite DMA neither reads nor writes the temporary address.
pub proof fn lemma_dma_ignores_temporary(bus: Bus, t: u16, count: int)
    ensures
        dma_copied(with_temporary(bus, t), count) == with_temporary(dma_copied(bus, count), t),
    decreases count,
{
    if count > 0 {
        lemma_dma_ignores_temporary(bus, t, count - 1);
        let before = dma_copied(bus, count - 1);
        lemma_read_ignores_temporary(
            before,
            t,
            before.oam_dma_addr.wrapping_add((count - 1) as u16),
            false,
        );
    }
}

/// The state with another temporary VRAM address.
pub open spec fn retuned(video: Video, t: u16) -> Video {
    Video { bus: with_temporary(video.bus, t), ..video }
}

/// Scrolling and shifting do not look at the temporary address.
proof fn lemma_scroll_ignores_temporary(video: Video, t: u16)
    ensures
        retuned(video, t).scrolled_vertical() == retuned(video.scrolled_vertical(), t),
        retuned(video, t).scrolled_horizontal() == retuned(video.scrolled_horizontal(), t),
        retuned(video, t).shift_applied() == retuned(video.shift_applied(), t),
        retuned(video, t).shift_loaded() == retuned(video.shift_loaded(), t),
{
}

/// The fetches of a tile do not look at the temporary address.
proof fn lemma_tile_ignores_temporary(video: Video, t: u16)
    ensures
        retuned(video, t).attribute_fetched() == retuned(video.attribute_fetched(), t),
        retuned(video, t).pattern_low_fetched() == retuned(video.pattern_low_fetched(), t),
        retuned(video, t).pattern_high_fetched() == retuned(video.pattern_high_fetched(), t),
{
}

/// The background work of a dot does not look at the temporary address.
proof fn lemma_background_ignores_temporary(video: Video, t: u16)
    ensures
        retuned(video, t).background_stepped() == retuned(video.background_stepped(), t),
{
    lemma_scroll_ignores_temporary(video, t);
    let rowed = if video.ppu.cycle == 256 {
        video.scrolled_vertical()
    } else {
        video
    };
    lemma_scroll_ignores_temporary(rowed, t);
    let shifted = rowed.shift_applied();
    assert(shifted.ppu.cycle == video.ppu.cycle);
    lemma_scroll_ignores_temporary(shifted, t);
    lemma_tile_ignores_temporary(shifted, t);
    lemma_nametable_ignores_temporary(shifted.shift_loaded(), t);
}

/// The sprite search does not look at the temporary address.
proof fn lemma_search_ignores_temporary(video: Video, t: u16)
    ensures
        retuned(video, t).sprite_searched() == retuned(video.sprite_searched(), t),
{
}

/// The fetch of a tile number does not look at the temporary address.
proof fn lemma_nametable_ignores_temporary(video: Video, t: u16)
    ensures
        retuned(video, t).nametable_fetched() == retuned(video.nametable_fetched(), t),
{
}

/// The fetch of a sprite row does not look at the temporary address.
proof fn lemma_sprite_pattern_ignores_temporary(video: Video, t: u16, low: bool)
    ensures
        retuned(video, t).sprite_pattern_fetched(low) == retuned(
            video.sprite_pattern_fetched(low),
            t,
        ),
{
}

/// No single step of a dot but the copies looks at the temporary address.
proof fn lemma_fetch_ignores_temporary(video: Video, t: u16)
    ensures
        retuned(video, t).background_stepped() == retuned(video.background_stepped(), t),
        retuned(video, t).sprite_searched() == retuned(video.sprite_searched(), t),
        retuned(video, t).nametable_fetched() == retuned(video.nametable_fetched(), t),
        retuned(video, t).sprite_pattern_fetched(true) == retuned(
            video.sprite_pattern_fetched(true),
            t,
        ),
        retuned(video, t).sprite_pattern_fetched(false) == retuned(
            video.sprite_pattern_fetched(false),
            t,
        ),
{
    lemma_background_ignores_temporary(video, t);
    lemma_search_ignores_temporary(video, t);
    lemma_nametable_ignores_temporary(video, t);
    lemma_sprite_pattern_ignores_temporary(video, t, true);
    lemma_sprite_pattern_ignores_temporary(video, t, false);
}

/// Producing a pixel does not look at the temporary address.
proof fn lemma_pixel_ignores_temporary(video: Video, t: u16)
    ensures
        retuned(video, t).pixel_rendered() == retuned(video.pixel_rendered(), t),
{
}

/// A dot in the fetch region does not look at the temporary address.
proof fn lemma_fetch_dot_ignores_temporary(video: Video, t: u16)
    ensures
        retuned(video, t).fetch_dot() == retuned(video.fetch_dot(), t),
{
    lemma_fetch_ignores_temporary(video, t);
    let stepped = video.background_stepped();
    lemma_fetch_ignores_temporary(stepped, t);
    let searched = if video.ppu.scanline < 240 && stepped.bus.ppu_data.sprite_enable() && 64
        < video.ppu.cycle <= 256 {
        stepped.sprite_searched()
    } else {
        stepped
    };
    lemma_pixel_ignores_temporary(searched, t);
}

/// Outside the copy windows the tail of a dot does not look at the
/// temporary address.
proof fn lemma_tail_ignores_temporary(video: Video, t: u16, line: u16, dot: u16)
    requires
        !in_copy_window(line, dot),
        line < 240 || line == PRE_RENDER,
    ensures
        retuned(video, t).tail_dot(line, dot) == retuned(video.tail_dot(line, dot), t),
{
    lemma_fetch_ignores_temporary(video, t);
    let sprites = if 256 < dot <= 320 && line != PRE_RENDER && dot % 8 == 5 {
        video.sprite_pattern_fetched(true)
    } else if 256 < dot <= 320 && line != PRE_RENDER && dot % 8 == 7 {
        video.sprite_pattern_fetched(false)
    } else {
        video
    };
    lemma_fetch_ignores_temporary(sprites, t);
}

/// The work of a dot outside the copy windows does not look at the
/// temporary address.
proof fn lemma_rendering_dot_ignores_temporary(video: Video, t: u16)
    requires
        !in_copy_window(video.ppu.scanline, video.ppu.cycle),
        video.ppu.scanline < 240 || video.ppu.scanline == PRE_RENDER,
    ensures
        retuned(video, t).rendering_dot() == retuned(video.rendering_dot(), t),
{
    reveal(Video::rendering_dot);
    let line = video.ppu.scanline;
    let dot = video.ppu.cycle;
    let opened = if line == PRE_RENDER && dot == 1 {
        video.pre_render_done()
    } else {
        video
    };
    assert(retuned(video, t).pre_render_done() == retuned(video.pre_render_done(), t));
    assert(retuned(opened, t).sprites_turned() == retuned(opened.sprites_turned(), t));
    lemma_fetch_dot_ignores_temporary(opened, t);
    let worked = if dot == 0 {
        opened.sprites_turned()
    } else if in_fetch_region(dot) {
        opened.fetch_dot()
    } else {
        opened
    };
    lemma_tail_ignores_temporary(worked, t, line, dot);
}

/// Outside the copy windows a dot does not look at the temporary address:
/// whatever scroll waits there, the dot leaves the same state behind, the
/// current address included.
pub proof fn lemma_dot_ignores_temporary(video: Video, t: u16)
    requires
        !in_copy_window(video.ppu.scanline, video.ppu.cycle),
    ensures
        retuned(video, t).dot() == retuned(video.dot(), t),
{
    lemma_dma_ignores_temporary(video.bus, t, 256);
    let ready = video.dma_done().odd_frame_skipped();
    assert(retuned(video, t).dma_done().odd_frame_skipped() == retuned(ready, t));
    if ready.ppu.scanline < 240 || ready.ppu.scanline == PRE_RENDER {
        lemma_rendering_dot_ignores_temporary(ready, t);
    }
}

impl Ppu {
    /// The PPU at power-on: the first dot of an even frame, nothing
    /// fetched, a black frame.
    pub open spec fn fresh() -> Ppu {
        Ppu {
            background_next_nametable: 0,
            background_next_attrib: 0,
            background_next_pattern_low: 0,
            background_next_pattern_high: 0,
            background_shift_attrib_low: 0,
            background_shift_attrib_high: 0,
            background_shift_pattern_low: 0,
            background_shift_pattern_high: 0,
            num_next_sprites_found: 0,
            search_oam_index: 0,
            search_current_sprite_byte: -1i8,
            sprite_zero_on_scanline: false,
            next_scanline_sprites: vstd::array::spec_array_fill_for_copy_type::<[u8; 4], 9>(
                filled(0),
            ),
            current_scanline_sprites: vstd::array::spec_array_fill_for_copy_type::<[u8; 4], 8>(
                filled(0),
            ),
            scanline_sprite_patterns_low: filled(0),
            scanline_sprite_patterns_high: filled(0),
            scanline_sprite_shift_counters: filled(0),
            scanline: 0,
            cycle: 0,
            even: true,
            render_frame: false,
            screen: filled(0),
            pattern_table_left: filled(0),
            pattern_table_right: filled(0),
        }
    }

    /// The PPU at power-on.
    pub fn new() -> (ppu: Ppu)
        ensures
            ppu == Ppu::fresh(),
    {
        Ppu {
            background_next_nametable: 0,
            background_next_attrib: 0,
            background_next_pattern_low: 0,
            background_next_pattern_high: 0,
            background_shift_attrib_low: 0,
            background_shift_attrib_high: 0,
            background_shift_pattern_low: 0,
            background_shift_pattern_high: 0,
            num_next_sprites_found: 0,
            search_oam_index: 0,
            search_current_sprite_byte: -1i8,
            sprite_zero_on_scanline: false,
            next_scanline_sprites: [[0; 4]; 9],
            current_scanline_sprites: [[0; 4]; 8],
            scanline_sprite_patterns_low: [0; 8],
            scanline_sprite_patterns_high: [0; 8],
            scanline_sprite_shift_counters: [0; 8],
            scanline: 0,
            cycle: 0,
            even: true,
            render_frame: false,
            screen: [0x00; 245760],
            pattern_table_left: [0x00; 65536],
            pattern_table_right: [0x00; 65536],
        }
    }

    /// Begins the pre-render scanline.
    pub fn pre_render_setup(&mut self, bus: &mut Bus)
        ensures
            (Video { ppu: *final(self), bus: *final(bus) }) == (Video {
                ppu: *old(self),
                bus: *old(bus),
            }).pre_render_done(),
    {
        bus.ppu_data.nmi_occurred = false;
        bus.ppu_data.set_vblank(false);
        bus.ppu_data.set_sprite_hit(false);
        bus.ppu_data.set_sprite_overflow(false);
    }

    /// Begins vertical blank.
    pub fn set_vblank(&mut self, bus: &mut Bus)
        ensures
            (Video { ppu: *final(self), bus: *final(bus) }) == (Video {
                ppu: *old(self),
                bus: *old(bus),
            }).vblank_started(),
    {
        bus.ppu_data.set_vblank(true);
        bus.ppu_data.nmi_occurred = true;
        if bus.ppu_data.get_nmi_enable() {
            bus.nmi_signal = true;
        }
    }

    /// Moves the background shift registers on by one pixel.
    pub fn apply_shift(&mut self, bus: &Bus)
        ensures
            (Video { ppu: *final(self), bus: *bus }) == (Video {
                ppu: *old(self),
                bus: *bus,
            }).shift_applied(),
    {
        if bus.ppu_data.get_background_enable() {
            self.background_shift_pattern_low <<= 1;
            self.background_shift_pattern_high <<= 1;
            self.background_shift_attrib_low <<= 1;
            self.background_shift_attrib_high <<= 1;
        }
    }

    /// Loads the low halves of the shift registers with the tile fetched
    /// last.
    pub fn load_shift(&mut self, bus: &Bus)
        ensures
            (Video { ppu: *final(self), bus: *bus }) == (Video {
                ppu: *old(self),
                bus: *bus,
            }).shift_loaded(),
    {
        self.background_shift_pattern_low = (self.background_shift_pattern_low & 0xFF00) | (
        self.background_next_pattern_low as u16);
        self.background_shift_pattern_high = (self.background_shift_pattern_high & 0xFF00) | (
        self.background_next_pattern_high as u16);
        if self.background_next_attrib & 0x01 != 0 {
            self.background_shift_attrib_low |= 0x00FF;
        } else {
            self.background_shift_attrib_low &= 0xFF00;
        }
        if self.background_next_attrib & 0x02 != 0 {
            self.background_shift_attrib_high |= 0x00FF;
        } else {
            self.background_shift_attrib_high &= 0xFF00;
        }
    }

    /// Fetches the tile number under the current address.
    pub fn set_background_next_nametable(&mut self, bus: &Bus)
        ensures
            (Video { ppu: *final(self), bus: *bus }) == (Video {
                ppu: *old(self),
                bus: *bus,
            }).nametable_fetched(),
    {
        self.background_next_nametable = bus.ppu_read(0x2000 | (bus.ppu_data.vram_addr & 0x0FFF));
    }

    /// Fetches the palette number of the tile under the current address.
    pub fn set_background_next_attribute(&mut self, bus: &Bus)
        ensures
            (Video { ppu: *final(self), bus: *bus }) == (Video {
                ppu: *old(self),
                bus: *bus,
            }).attribute_fetched(),
    {
        let tile_row: u16 = bus.ppu_data.get_coarse_y_scroll_v() as u16;
        let tile_column: u16 = bus.ppu_data.get_coarse_x_scroll_v() as u16;
        let attrib_addr: u16 = 0x23C0 + (bus.ppu_data.get_nametable_y_v() as u16) * 2048 + (
        bus.ppu_data.get_nametable_x_v() as u16) * 1024 + (tile_row / 4) * 8 + tile_column / 4;
        let mut attrib: u8 = bus.ppu_read(attrib_addr);
        if (tile_row / 2) % 2 == 1 {
            attrib = attrib / 16;
        }
        if (tile_column / 2) % 2 == 1 {
            attrib = attrib / 4;
        }
        self.background_next_attrib = attrib % 4;
    }

    /// Fetches one bit plane of the row of the fetched tile.
    fn background_pattern(&self, bus: &Bus, high: bool) -> (value: u8)
        ensures
            value == bus.ppu_at(
                background_pattern_addr(bus.ppu_data, self.background_next_nametable, high),
            ),
    {
        let mut pattern_addr: u16 = bus.ppu_data.get_fine_y_scroll_v() as u16;
        pattern_addr += (self.background_next_nametable as u16) * 16;
        if bus.ppu_data.get_background_table_select() {
            pattern_addr += 0x1000;
        }
        if high {
            pattern_addr += 8;
        }
        bus.ppu_read(pattern_addr)
    }

    /// Fetches the low bit plane of the row of the fetched tile.
    pub fn set_background_next_pattern_low(&mut self, bus: &Bus)
        ensures
            (Video { ppu: *final(self), bus: *bus }) == (Video {
                ppu: *old(self),
                bus: *bus,
            }).pattern_low_fetched(),
    {
        self.background_next_pattern_low = self.background_pattern(bus, false);
    }

    /// Fetches the high bit plane of the row of the fetched tile.
    pub fn set_background_next_pattern_high(&mut self, bus: &Bus)
        ensures
            (Video { ppu: *final(self), bus: *bus }) == (Video {
                ppu: *old(self),
                bus: *bus,
            }).pattern_high_fetched(),
    {
        self.background_next_pattern_high = self.background_pattern(bus, true);
    }

    /// Moves the current address to the next tile column.
    pub fn scroll_horizontal(&mut self, bus: &mut Bus)
        ensures
            (Video { ppu: *final(self), bus: *final(bus) }) == (Video {
                ppu: *old(self),
                bus: *old(bus),
            }).scrolled_horizontal(),
    {
        if bus.ppu_data.get_background_enable() || bus.ppu_data.get_sprite_enable() {
            if bus.ppu_data.get_coarse_x_scroll_v() == 31 {
                let flipped: u8 = 1 - bus.ppu_data.get_nametable_x_v();
                bus.ppu_data.set_coarse_x_scroll_v(0);
                bus.ppu_data.set_nametable_x_v(flipped);
            } else {
                let v: u8 = bus.ppu_data.get_coarse_x_scroll_v() + 1;
                bus.ppu_data.set_coarse_x_scroll_v(v);
            }
        }
    }

    /// Moves the current address to the next pixel row.
    pub fn scroll_vertical(&mut self, bus: &mut Bus)
        ensures
            (Video { ppu: *final(self), bus: *final(bus) }) == (Video {
                ppu: *old(self),
                bus: *old(bus),
            }).scrolled_vertical(),
    {
        if bus.ppu_data.get_background_enable() || bus.ppu_data.get_sprite_enable() {
            if bus.ppu_data.get_fine_y_scroll_v() < 7 {
                let v: u8 = bus.ppu_data.get_fine_y_scroll_v() + 1;
                bus.ppu_data.set_fine_y_scroll_v(v);
            } else {
                let tile_row: u8 = bus.ppu_data.get_coarse_y_scroll_v();
                let flipped: u8 = 1 - bus.ppu_data.get_nametable_y_v();
                bus.ppu_data.set_fine_y_scroll_v(0);
                if tile_row == 29 {
                    bus.ppu_data.set_coarse_y_scroll_v(0);
                    bus.ppu_data.set_nametable_y_v(flipped);
                } else if tile_row == 31 {
                    bus.ppu_data.set_coarse_y_scroll_v(0);
                } else {
                    bus.ppu_data.set_coarse_y_scroll_v(tile_row + 1);
                }
            }
        }
    }

    /// Copies the horizontal fields of the temporary address into the
    /// current one.
    pub fn transfer_horizontal(&mut self, bus: &mut Bus)
        ensures
            (Video { ppu: *final(self), bus: *final(bus) }) == (Video {
                ppu: *old(self),
                bus: *old(bus),
            }).transferred_horizontal(),
    {
        if bus.ppu_data.get_background_enable() || bus.ppu_data.get_sprite_enable() {
            let t: u8 = bus.ppu_data.get_nametable_x_t();
            bus.ppu_data.set_nametable_x_v(t);
            let t: u8 = bus.ppu_data.get_coarse_x_scroll_t();
            bus.ppu_data.set_coarse_x_scroll_v(t);
        }
    }

    /// Copies the vertical fields of the temporary address into the current
    /// one.
    pub fn transfer_vertical(&mut self, bus: &mut Bus)
        ensures
            (Video { ppu: *final(self), bus: *final(bus) }) == (Video {
                ppu: *old(self),
                bus: *old(bus),
            }).transferred_vertical(),
    {
        if bus.ppu_data.get_background_enable() || bus.ppu_data.get_sprite_enable() {
            let t: u8 = bus.ppu_data.get_nametable_y_t();
            bus.ppu_data.set_nametable_y_v(t);
            let t: u8 = bus.ppu_data.get_coarse_y_scroll_t();
            bus.ppu_data.set_coarse_y_scroll_v(t);
            let t: u8 = bus.ppu_data.get_fine_y_scroll_t();
            bus.ppu_data.set_fine_y_scroll_v(t);
        }
    }
    /// Reverses the bits of a byte.
    fn reverse_bits(b: u8) -> (r: u8)
        ensures
            r == reversed(b),
    {
        (b / 128) % 2 + ((b / 64) % 2) * 2 + ((b / 32) % 2) * 4 + ((b / 16) % 2) * 8 + ((b / 8)
            % 2) * 16 + ((b / 4) % 2) * 32 + ((b / 2) % 2) * 64 + (b % 2) * 128
    }

    /// Fetches one bit plane of the row of a staged sprite: the low plane
    /// if `low`, else the high one.
    pub fn set_sprite_next_pattern(&mut self, bus: &Bus, low: bool)
        ensures
            (Video { ppu: *final(self), bus: *bus }) == (Video {
                ppu: *old(self),
                bus: *bus,
            }).sprite_pattern_fetched(low),
    {
        if self.cycle < 256 {
            return ;
        }
        let current_sprite: usize = ((self.cycle - 256) / 8) as usize;
        if current_sprite >= (self.num_next_sprites_found as usize) || current_sprite >= 8 {
            return ;
        }
        let sprite: [u8; 4] = self.next_scanline_sprites[current_sprite];
        let row: u16 = self.scanline.wrapping_sub(sprite[0] as u16);
        let flipped: bool = sprite[2] & 0x80 != 0;
        let offset: u16 = if flipped {
            7u16.wrapping_sub(row)
        } else {
            row
        };
        let first: u16 = (sprite[1] as u16) * 16;
        let second: u16 = ((sprite[1] as u16) + 1) * 16;
        let mut pattern_addr: u16;
        if !bus.ppu_data.get_sprite_size() {
            if !bus.ppu_data.get_sprite_table_select() {
                pattern_addr = first;
            } else {
                pattern_addr = 0x1000 + first;
            }
        } else {
            let table: u16 = if sprite[1] & 0x01 == 0 {
                0x0000
            } else {
                0x1000
            };
            if (row < 8) != flipped {
                pattern_addr = table + first;
            } else {
                pattern_addr = table + second;
            }
        }
        let plane: u16 = if low {
            0
        } else {
            8
        };
        pattern_addr = pattern_addr.wrapping_add(offset).wrapping_add(plane);
        let mut tmp_pattern: u8 = bus.ppu_read(pattern_addr);
        if sprite[2] & 0x40 == 0 {
            tmp_pattern = Self::reverse_bits(tmp_pattern);
        }
        if low {
            self.scanline_sprite_patterns_low[current_sprite] = tmp_pattern;
        } else {
            self.scanline_sprite_patterns_high[current_sprite] = tmp_pattern;
        }
    }

    /// Takes one step of the search for the sprites of the next scanline.
    pub fn search_sprites(&mut self, bus: &mut Bus)
        ensures
            (Video { ppu: *final(self), bus: *final(bus) }) == (Video {
                ppu: *old(self),
                bus: *old(bus),
            }).sprite_searched(),
    {
        if self.num_next_sprites_found >= 9 || self.search_oam_index >= 256 {
            return ;
        }
        let slot: usize = self.num_next_sprites_found as usize;
        if self.search_current_sprite_byte == -1 {
            self.next_scanline_sprites[slot][0] = bus.ppu_data.oam[self.search_oam_index as usize];
            self.search_oam_index += 1;
            self.search_current_sprite_byte = 0;
        } else if self.search_current_sprite_byte == 0 {
            let sprite_height: u16 = if bus.ppu_data.get_sprite_size() {
                16
            } else {
                8
            };
            let top: u16 = self.next_scanline_sprites[slot][0] as u16;
            let line: u16 = self.scanline % 256;
            if top <= line && top + sprite_height > line {
                if self.num_next_sprites_found == 8 {
                    self.num_next_sprites_found = 9;
                    bus.ppu_data.set_sprite_overflow(true);
                } else {
                    self.num_next_sprites_found += 1;
                    self.search_current_sprite_byte = 1;
                    if self.search_oam_index < 4 {
                        self.sprite_zero_on_scanline = true;
                    }
                }
            } else {
                self.next_scanline_sprites[slot][0] = 0xFF;
                self.search_current_sprite_byte = -1;
                self.search_oam_index += 3;
            }
        } else if self.search_current_sprite_byte >= 1 && self.search_current_sprite_byte < 4
            && slot >= 1 {
            self.next_scanline_sprites[slot - 1][self.search_current_sprite_byte as usize] =
                bus.ppu_data.oam[self.search_oam_index as usize];
            self.search_oam_index += 1;
            self.search_current_sprite_byte += 1;
        } else {
            self.search_current_sprite_byte = -1;
        }
    }
    /// Lets every sprite live through one dot and returns what they
    /// contribute to it.
    fn draw_sprites(&mut self) -> (dot: SpriteDot)
        ensures
            (*final(self), dot) == sprites_drawn(*old(self), 8),
    {
        let mut dot = SpriteDot { pixel: 0, palette: 0, priority: 0, zero: false };
        let mut i: usize = 0;
        while i < 8
            invariant
                i <= 8,
                (*self, dot) == sprites_drawn(*old(self), i as int),
            decreases 8 - i,
        {
            if self.current_scanline_sprites[i][3] == 0 {
                if self.scanline_sprite_shift_counters[i] < 8 {
                    if dot.pixel == 0 {
                        let mux: u8 = 1u8 << self.scanline_sprite_shift_counters[i];
                        let mut sprite_pixel: u8 = 0;
                        if self.scanline_sprite_patterns_low[i] & mux != 0 {
                            sprite_pixel += 1;
                        }
                        if self.scanline_sprite_patterns_high[i] & mux != 0 {
                            sprite_pixel += 2;
                        }
                        if sprite_pixel != 0 {
                            dot =
                            SpriteDot {
                                pixel: sprite_pixel,
                                palette: self.current_scanline_sprites[i][2] % 4 + 4,
                                priority: (self.current_scanline_sprites[i][2] / 32) % 2,
                                zero: i == 0,
                            };
                        }
                    }
                    self.scanline_sprite_shift_counters[i] += 1;
                }
            } else {
                self.current_scanline_sprites[i][3] -= 1;
            }
            i += 1;
        }
        dot
    }

    /// What the background contributes to the dot.
    fn background_pixel(&self, bus: &Bus) -> (dot: (u8, u8))
        ensures
            dot == background_dot(*self, bus.ppu_data),
    {
        let mux: u16 = 0x8000u16 >> (bus.ppu_data.fine_x_scroll % 8);
        let mut background_pixel: u8 = 0x00;
        let mut background_palette: u8 = 0x00;
        if self.background_shift_pattern_low & mux != 0 {
            background_pixel += 1;
        }
        if self.background_shift_pattern_high & mux != 0 {
            background_pixel += 2;
        }
        if self.background_shift_attrib_low & mux != 0 {
            background_palette += 1;
        }
        if self.background_shift_attrib_high & mux != 0 {
            background_palette += 2;
        }
        (background_pixel, background_palette)
    }

    /// Chooses between background and sprite.
    fn choose_pixel(background: (u8, u8), sprite: SpriteDot) -> (shown: (u8, u8))
        ensures
            shown == shown_dot(background, sprite),
    {
        let mut pixel: u8 = 0x00;
        let mut palette: u8 = 0x00;
        if background.0 == 0 && sprite.pixel != 0 {
            pixel = sprite.pixel;
            palette = sprite.palette;
        }
        if background.0 != 0 && sprite.pixel == 0 {
            pixel = background.0;
            palette = background.1;
        }
        if background.0 != 0 && sprite.pixel != 0 {
            if sprite.priority == 0 {
                pixel = sprite.pixel;
                palette = sprite.palette;
            } else {
                pixel = background.0;
                palette = background.1;
            }
        }
        (pixel, palette)
    }

    /// Paints one pixel of the frame.
    fn paint(&mut self, offset: usize, colour: usize)
        requires
            offset + 3 < 245760,
            colour < 64,
        ensures
            *final(self) == (Ppu {
                screen: painted(old(self).screen, offset as int, colour as int),
                ..*old(self)
            }),
    {
        self.screen[offset] = PALETTE_RGBA[4 * colour];
        self.screen[offset + 1] = PALETTE_RGBA[4 * colour + 1];
        self.screen[offset + 2] = PALETTE_RGBA[4 * colour + 2];
        self.screen[offset + 3] = PALETTE_RGBA[4 * colour + 3];
    }

    /// Produces the pixel of the current dot.
    pub fn render_pixel(&mut self, bus: &mut Bus)
        ensures
            (Video { ppu: *final(self), bus: *final(bus) }) == (Video {
                ppu: *old(self),
                bus: *old(bus),
            }).pixel_rendered(),
    {
        if !bus.ppu_data.get_sprite_left_column_enable() && self.cycle < 8 {
            return ;
        }
        let background: (u8, u8) = if bus.ppu_data.get_background_enable() && (
        bus.ppu_data.get_background_left_column_enable() || self.cycle >= 8) {
            self.background_pixel(bus)
        } else {
            (0, 0)
        };
        let zero_staged: bool = self.sprite_zero_on_scanline;
        let offset: usize = 4 * ((self.scanline as usize) * 256 + (self.cycle.wrapping_sub(
            1,
        ) as usize));
        let sprite: SpriteDot = if bus.ppu_data.get_sprite_enable() && (
        bus.ppu_data.get_sprite_left_column_enable() || self.cycle >= 8) {
            self.draw_sprites()
        } else {
            SpriteDot { pixel: 0, palette: 0, priority: 0, zero: false }
        };
        let shown: (u8, u8) = Self::choose_pixel(background, sprite);
        let colour: usize = (bus.ppu_read(0x3F00 + (shown.1 as u16) * 4 + (shown.0 as u16)) % 64) as usize;
        if background.0 != 0 && sprite.pixel != 0 && zero_staged && sprite.zero {
            bus.ppu_data.set_sprite_hit(true);
        }
        if offset < SCREEN_BYTES {
            self.paint(offset, colour);
        }
    }

    /// Makes the staged sprites the current ones and starts the search over.
    fn turn_sprites(&mut self)
        ensures
            *final(self) == (Ppu {
                num_next_sprites_found: 0,
                search_oam_index: 0,
                search_current_sprite_byte: -1i8,
                sprite_zero_on_scanline: false,
                ..sprites_swapped(*old(self), 8)
            }),
    {
        let mut i: usize = 0;
        while i < 8
            invariant
                i <= 8,
                *self == sprites_swapped(*old(self), i as int),
            decreases 8 - i,
        {
            self.current_scanline_sprites[i] = self.next_scanline_sprites[i];
            self.next_scanline_sprites[i] = [0xFF, 0xFF, 0xFF, 0xFF];
            self.scanline_sprite_shift_counters[i] = 0;
            i += 1;
        }
        self.num_next_sprites_found = 0;
        self.search_oam_index = 0;
        self.search_current_sprite_byte = -1;
        self.sprite_zero_on_scanline = false;
    }

    /// Copies the 256 bytes of a sprite DMA.
    fn copy_sprite_memory(bus: &mut Bus)
        ensures
            *final(bus) == dma_copied(*old(bus), 256),
    {
        let mut i: usize = 0;
        while i < 0x100
            invariant
                i <= 0x100,
                *bus == dma_copied(*old(bus), i as int),
            decreases 0x100 - i,
        {
            let addr: u16 = bus.oam_dma_addr.wrapping_add(i as u16);
            let value: u8 = bus.read(addr, false);
            bus.ppu_data.oam[i] = value;
            i += 1;
        }
    }
    /// The colour number of one pixel of a pattern table.
    fn pattern_pixel_of(bus: &Bus, right: bool, p: usize) -> (pixel: u8)
        requires
            p < 16384,
        ensures
            pixel == pattern_pixel(*bus, right, p as int),
    {
        let side: usize = if right {
            0x1000
        } else {
            0
        };
        let bit_plane_addr: usize = side + (p / 1024) * 256 + ((p % 128) / 8) * 16 + (p / 128) % 8;
        let mux: u8 = 1u8 << ((7 - p % 8) as u8);
        let mut pixel: u8 = 0x00;
        if bus.ppu_read(bit_plane_addr as u16) & mux != 0 {
            pixel += 1;
        }
        if bus.ppu_read((bit_plane_addr + 8) as u16) & mux != 0 {
            pixel += 2;
        }
        pixel
    }

    /// Draws one pattern table as a picture.
    fn draw_patterns(picture: &mut [u8; 65536], bus: &Bus, right: bool)
        ensures
            *final(picture) == patterns_drawn(*old(picture), *bus, right, 16384),
    {
        let mut p: usize = 0;
        while p < 16384
            invariant
                p <= 16384,
                *picture == patterns_drawn(*old(picture), *bus, right, p as int),
            decreases 16384 - p,
        {
            let pixel: u8 = Self::pattern_pixel_of(bus, right, p);
            let colour: usize = (bus.ppu_read(0x3F00 + (pixel as u16)) % 64) as usize;
            picture[4 * p] = PALETTE_RGBA[4 * colour];
            picture[4 * p + 1] = PALETTE_RGBA[4 * colour + 1];
            picture[4 * p + 2] = PALETTE_RGBA[4 * colour + 2];
            picture[4 * p + 3] = PALETTE_RGBA[4 * colour + 3];
            p += 1;
        }
    }

    /// Draws the two pattern tables as pictures of 128 by 128 pixels, in
    /// the colours of the first palette, for a driver that wants to show
    /// them.
    pub fn fill_pattern_tables(&mut self, bus: &Bus)
        ensures
            (Video { ppu: *final(self), bus: *bus }) == (Video {
                ppu: *old(self),
                bus: *bus,
            }).patterns_filled(),
    {
        Self::draw_patterns(&mut self.pattern_table_left, bus, false);
        Self::draw_patterns(&mut self.pattern_table_right, bus, true);
    }

    /// Does the background work of a dot in the fetch region.
    fn background_step(&mut self, bus: &mut Bus)
        ensures
            (Video { ppu: *final(self), bus: *final(bus) }) == (Video {
                ppu: *old(self),
                bus: *old(bus),
            }).background_stepped(),
    {
        let dot: u16 = self.cycle;
        if dot == 256 {
            self.scroll_vertical(bus);
        }
        self.apply_shift(bus);
        if dot % 8 == 0 {
            self.scroll_horizontal(bus);
        } else if dot % 8 == 1 {
            self.load_shift(bus);
            self.set_background_next_nametable(bus);
        } else if dot % 8 == 3 {
            self.set_background_next_attribute(bus);
        } else if dot % 8 == 5 {
            self.set_background_next_pattern_low(bus);
        } else if dot % 8 == 7 {
            self.set_background_next_pattern_high(bus);
        }
    }

    /// Does the work of a dot in the fetch region.
    fn fetch_region_dot(&mut self, bus: &mut Bus)
        ensures
            (Video { ppu: *final(self), bus: *final(bus) }) == (Video {
                ppu: *old(self),
                bus: *old(bus),
            }).fetch_dot(),
    {
        let line: u16 = self.scanline;
        let dot: u16 = self.cycle;
        self.background_step(bus);
        if line < 240 && bus.ppu_data.get_sprite_enable() && dot > 64 && dot <= 256 {
            self.search_sprites(bus);
        }
        if line < 240 && dot <= 256 {
            self.render_pixel(bus);
        }
    }

    /// Does what a dot does after the fetch region's share.
    fn tail_of_dot(&mut self, bus: &mut Bus, line: u16, dot: u16)
        ensures
            (Video { ppu: *final(self), bus: *final(bus) }) == (Video {
                ppu: *old(self),
                bus: *old(bus),
            }).tail_dot(line, dot),
    {
        if dot > 256 && dot <= 320 && line != PRE_RENDER {
            if dot % 8 == 5 {
                self.set_sprite_next_pattern(bus, true);
            } else if dot % 8 == 7 {
                self.set_sprite_next_pattern(bus, false);
            }
        }
        if dot == 257 {
            self.transfer_horizontal(bus);
        }
        if line == PRE_RENDER && dot >= 280 && dot < 305 {
            self.transfer_vertical(bus);
        }
        if dot == 338 || dot == 340 {
            self.set_background_next_nametable(bus);
        }
    }

    /// Does the work of a dot on a visible or pre-render scanline.
    fn rendering_line_dot(&mut self, bus: &mut Bus)
        ensures
            (Video { ppu: *final(self), bus: *final(bus) }) == (Video {
                ppu: *old(self),
                bus: *old(bus),
            }).rendering_dot(),
    {
        reveal(Video::rendering_dot);
        let line: u16 = self.scanline;
        let dot: u16 = self.cycle;
        if line == PRE_RENDER && dot == 1 {
            self.pre_render_setup(bus);
        }
        if dot == 0 {
            self.turn_sprites();
        } else if dot <= 256 || (dot > 320 && dot <= 336) {
            self.fetch_region_dot(bus);
        }
        self.tail_of_dot(bus, line, dot);
    }

    /// Runs the PPU for one dot.
    pub fn clock(&mut self, bus: &mut Bus)
        ensures
            (Video { ppu: *final(self), bus: *final(bus) }) == (Video {
                ppu: *old(self),
                bus: *old(bus),
            }).dot(),
    {
        if bus.oam_dma_ppu {
            Self::copy_sprite_memory(bus);
            bus.oam_dma_ppu = false;
        }
        if self.scanline == 0 && self.cycle == 0 && !self.even && (
        bus.ppu_data.get_sprite_enable() || bus.ppu_data.get_background_enable()) {
            self.cycle += 1;
        }
        if self.scanline < 240 || self.scanline == PRE_RENDER {
            self.rendering_line_dot(bus);
        } else if self.scanline == 241 && self.cycle == 1 {
            self.set_vblank(bus);
        }
        self.count_dot();
    }

    /// Moves the counters to the next dot.
    fn count_dot(&mut self)
        ensures
            forall|bus: Bus|
                (Video { ppu: *final(self), bus }) == (#[trigger] Video {
                    ppu: *old(self),
                    bus,
                }.counted()),
    {
        if self.cycle < 340 {
            self.cycle += 1;
        } else {
            self.cycle = 0;
            if self.scanline < 261 {
                self.scanline += 1;
            } else {
                self.scanline = 0;
                self.even = !self.even;
                self.render_frame = true;
            }
        }
    }
}

} // verus!
