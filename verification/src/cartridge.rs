//! Cartridge images in the iNES container, and the fixed address mapping of
//! the simplest board (no bank switching).

use crate::utils::{readbuf_vec, zeroed};
use vstd::prelude::*;

verus! {

/// Size of the header that opens every image.
pub const HEADER_LEN: usize = 16;

/// Size of the optional trainer block that follows the header.
pub const TRAINER_LEN: usize = 512;

/// Size of one PRG-ROM unit.
pub const PRG_UNIT: usize = 16384;

/// Size of one CHR-ROM unit.
pub const CHR_UNIT: usize = 8192;

/// The 16 raw bytes that open an image.
pub struct NesHeader {
    /// The bytes as they stand in the image.
    pub data: [u8; 16],
}

/// A loaded cartridge.
pub struct Cart {
    /// The header the image began with.
    pub header: NesHeader,
    /// Character ROM: the pattern tables.
    pub chr: Vec<u8>,
    /// Program ROM.
    pub prg: Vec<u8>,
    /// The 512-byte trainer, where the header announces one.
    pub trainer: Option<[u8; 512]>,
}

/// Why an image was turned down.
#[derive(Clone, Copy, Debug, PartialEq, Eq, Structural)]
pub enum CartError {
    /// The image does not open with `N`, `E`, `S`, `$1A`.
    NotNes,
    /// The image is shorter than its header says it is.
    Truncated,
}

/// The image opens with the four magic bytes.
pub open spec fn has_magic(bytes: Seq<u8>) -> bool {
    &&& bytes.len() >= 4
    &&& bytes[0] == 0x4E
    &&& bytes[1] == 0x45
    &&& bytes[2] == 0x53
    &&& bytes[3] == 0x1A
}

/// Length of the trainer block that a header with flag byte `flags6` announces.
pub open spec fn trainer_len(flags6: u8) -> int {
    if flags6 & 0x04 != 0 {
        512
    } else {
        0
    }
}

/// Offset of PRG-ROM in an image with this header.
pub open spec fn prg_start(bytes: Seq<u8>) -> int {
    16 + trainer_len(bytes[6])
}

/// Offset of CHR-ROM in an image with this header.
pub open spec fn chr_start(bytes: Seq<u8>) -> int {
    prg_start(bytes) + bytes[4] * 16384
}

/// Length that the header promises: header, trainer, PRG-ROM and CHR-ROM.
pub open spec fn image_len(bytes: Seq<u8>) -> int {
    chr_start(bytes) + bytes[5] * 8192
}

/// The image holds all that its header promises.
pub open spec fn is_complete(bytes: Seq<u8>) -> bool {
    bytes.len() >= 16 && bytes.len() >= image_len(bytes)
}

impl NesHeader {
    /// `true` for vertical name-table mirroring, `false` for horizontal.
    pub fn mirror(&self) -> (b: bool)
        ensures
            b == (self.data[6] & 0x01 != 0),
    {
        (self.data[6] & 1) != 0
    }

    /// The board carries battery-backed RAM.
    pub fn battery(&self) -> (b: bool)
        ensures
            b == (self.data[6] & 0x02 != 0),
    {
        (self.data[6] & 0x02) != 0
    }

    /// A 512-byte trainer follows the header.
    pub fn trainer(&self) -> (b: bool)
        ensures
            b == (self.data[6] & 0x04 != 0),
    {
        (self.data[6] & 0x04) != 0
    }

    /// The board provides four-screen video RAM and ignores the mirroring bit.
    pub fn four_screen(&self) -> (b: bool)
        ensures
            b == (self.data[6] & 0x08 != 0),
    {
        (self.data[6] & 0x08) != 0
    }

    /// The mapper number: bits 3-6 of byte 7 over the high nibble of byte 6.
    pub fn mapper(&self) -> (m: u8)
        ensures
            m == (self.data[7] & 0x78) | ((self.data[6] & 0xF0) >> 4),
    {
        (self.data[7] & 0x78) | ((self.data[6] & 0xF0) >> 4)
    }

    /// The image is for the VS Unisystem.
    pub fn unisystem(&self) -> (b: bool)
        ensures
            b == (self.data[7] & 0x01 != 0),
    {
        (self.data[7] & 1) != 0
    }

    /// The image is for the PlayChoice-10.
    pub fn playchoice(&self) -> (b: bool)
        ensures
            b == (self.data[7] & 0x02 != 0),
    {
        (self.data[7] & 0x02) != 0
    }

    /// The header is in the NES 2.0 format: bits 2-3 of byte 7 read `0b10`.
    pub fn nes2(&self) -> (b: bool)
        ensures
            b == ((self.data[7] & 0x0C) >> 2 == 2),
    {
        ((self.data[7] & 0x0C) >> 2) == 2
    }

    /// Size of PRG-RAM in bytes; a zero count stands for one 8 KB unit.
    pub fn prg_ram(&self) -> (n: usize)
        ensures
            n == if self.data[8] == 0 {
                8192
            } else {
                self.data[8] * 8192
            },
    {
        if self.data[8] == 0 {
            8192
        } else {
            (self.data[8] as usize) * 8192
        }
    }

    /// `true` for PAL, `false` for NTSC.
    pub fn tv_system(&self) -> (b: bool)
        ensures
            b == (self.data[9] & 0x01 != 0),
    {
        (self.data[9] & 1) != 0
    }

    /// Size of PRG-ROM in bytes.
    pub fn prg_size(&self) -> (n: usize)
        ensures
            n == self.data[4] * 16384,
    {
        (self.data[4] as usize) * PRG_UNIT
    }

    /// Size of CHR-ROM in bytes.
    pub fn chr_size(&self) -> (n: usize)
        ensures
            n == self.data[5] * 8192,
    {
        (self.data[5] as usize) * CHR_UNIT
    }

    /// The header opens with `N`, `E`, `S`, `$1A`.
    pub fn magic(&self) -> (b: bool)
        ensures
            b == has_magic(self.data@),
    {
        self.data[0] == 0x4E && self.data[1] == 0x45 && self.data[2] == 0x53 && self.data[3]
            == 0x1A
    }
}

impl Cart {
    /// Loads a cartridge from the bytes of an image file.
    ///
    /// An image that lacks the magic bytes is `NotNes`. One that has them but
    /// is shorter than header, trainer, PRG-ROM and CHR-ROM together is
    /// `Truncated`. Anything behind the CHR-ROM is ignored.
    pub fn new(bytes: &[u8]) -> (loaded: Result<Cart, CartError>)
        ensures
            loaded == Err::<Cart, CartError>(CartError::NotNes) <==> !has_magic(bytes@),
            loaded == Err::<Cart, CartError>(CartError::Truncated) <==> has_magic(bytes@)
                && !is_complete(bytes@),
            loaded is Ok <==> has_magic(bytes@) && is_complete(bytes@),
            loaded matches Ok(cart) ==> {
                &&& cart.header.data@ == bytes@.subrange(0, 16)
                &&& cart.trainer is Some <==> bytes@[6] & 0x04 != 0
                &&& cart.trainer matches Some(block) ==> block@ == bytes@.subrange(16, 528)
                &&& cart.prg@ == bytes@.subrange(prg_start(bytes@), chr_start(bytes@))
                &&& cart.chr@ == bytes@.subrange(chr_start(bytes@), image_len(bytes@))
            },
    {
        if bytes.len() < 4 || bytes[0] != 0x4E || bytes[1] != 0x45 || bytes[2] != 0x53 || bytes[3]
            != 0x1A {
            return Err(CartError::NotNes);
        }
        if bytes.len() < HEADER_LEN {
            return Err(CartError::Truncated);
        }
        let mut data: [u8; 16] = [0; 16];
        let mut i: usize = 0;
        while i < HEADER_LEN
            invariant
                i <= 16,
                bytes@.len() >= 16,
                forall|k: int| 0 <= k < i ==> data[k] == bytes@[k],
            decreases 16 - i,
        {
            data[i] = bytes[i];
            i += 1;
        }
        let header = NesHeader { data };
        assert(header.data@ =~= bytes@.subrange(0, 16));
        let trainer_size: usize = if header.trainer() {
            TRAINER_LEN
        } else {
            0
        };
        let prg_size: usize = header.prg_size();
        let chr_size: usize = header.chr_size();
        if bytes.len() < HEADER_LEN + trainer_size + prg_size + chr_size {
            return Err(CartError::Truncated);
        }
        let mut ptr: usize = HEADER_LEN;
        let mut trainer: Option<[u8; 512]> = None;
        if header.trainer() {
            let mut block: [u8; 512] = [0; 512];
            let mut j: usize = 0;
            while j < TRAINER_LEN
                invariant
                    j <= 512,
                    bytes@.len() >= 16 + 512,
                    forall|k: int| 0 <= k < j ==> block[k] == bytes@[16 + k],
                decreases 512 - j,
            {
                block[j] = bytes[HEADER_LEN + j];
                j += 1;
            }
            assert(block@ =~= bytes@.subrange(16, 528));
            trainer = Some(block);
            ptr += TRAINER_LEN;
        }
        let mut prg: Vec<u8> = zeroed(prg_size);
        let mut chr: Vec<u8> = zeroed(chr_size);
        readbuf_vec(&mut prg, bytes, &mut ptr, prg_size);
        readbuf_vec(&mut chr, bytes, &mut ptr, chr_size);
        assert(prg@ =~= bytes@.subrange(prg_start(bytes@), chr_start(bytes@)));
        assert(chr@ =~= bytes@.subrange(chr_start(bytes@), image_len(bytes@)));
        Ok(Cart { header, chr, prg, trainer })
    }

    /// The byte of the flat layout at `addr`: nothing below `$8000`, CHR-ROM
    /// repeating from `$8000`, PRG-ROM repeating from `$C000`. Sizes count
    /// modulo `$10000`, and the ROM that `addr` falls in is not empty.
    pub open spec fn flat_at(self, addr: u16) -> u8 {
        if addr < 0x8000 {
            0
        } else if addr < 0xC000 {
            self.chr@[((addr - 0x8000) % (self.chr@.len() as u16) as int) as int]
        } else {
            self.prg@[((addr - 0xC000) % (self.prg@.len() as u16) as int) as int]
        }
    }

    /// Reads through the flat layout of [`Cart::flat_at`].
    pub fn read(&self, addr: u16) -> (value: u8)
        requires
            0x8000 <= addr < 0xC000 ==> self.chr@.len() as u16 != 0,
            0xC000 <= addr ==> self.prg@.len() as u16 != 0,
        ensures
            value == self.flat_at(addr),
    {
        if addr < 0x8000 {
            0
        } else if addr < 0xC000 {
            let size: u16 = self.chr.len() as u16;
            let raw_addr: u16 = (addr - 0x8000) % size;
            self.chr[raw_addr as usize]
        } else {
            let size: u16 = self.prg.len() as u16;
            let raw_addr: u16 = (addr - 0xC000) % size;
            self.prg[raw_addr as usize]
        }
    }

    /// What the CPU sees at `addr`: PRG-ROM from `$8000` up, repeated to fill
    /// the window, and zero where there is nothing.
    pub open spec fn cpu_at(self, addr: u16) -> u8 {
        if addr < 0x8000 || self.prg@.len() == 0 {
            0
        } else {
            self.prg@[(addr - 0x8000) % (self.prg@.len() as int)]
        }
    }

    /// What the PPU sees at `addr`: CHR-ROM, repeated, and zero where there is
    /// none.
    pub open spec fn ppu_at(self, addr: u16) -> u8 {
        if self.chr@.len() == 0 {
            0
        } else {
            self.chr@[(addr as int) % (self.chr@.len() as int)]
        }
    }

    /// CPU-side read of cartridge space.
    pub fn cpu_read(&self, addr: u16) -> (value: u8)
        ensures
            value == self.cpu_at(addr),
    {
        if addr < 0x8000 || self.prg.len() == 0 {
            0
        } else {
            self.prg[((addr - 0x8000) as usize) % self.prg.len()]
        }
    }

    /// PPU-side read of the pattern tables.
    pub fn ppu_read(&self, addr: u16) -> (value: u8)
        ensures
            value == self.ppu_at(addr),
    {
        if self.chr.len() == 0 {
            0
        } else {
            self.chr[(addr as usize) % self.chr.len()]
        }
    }
}

} // verus!
