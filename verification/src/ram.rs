//! Console-side memory: 2 KB of CPU work RAM and the PPU's name-table and
//! palette storage, with the mirroring rules of each.

use crate::utils::filled;
use vstd::prelude::*;

verus! {

/// Work RAM and video RAM of the console.
pub struct Ram {
    /// 2 KB internal RAM, seen by the CPU at `$0000-$1FFF`.
    pub cpu_memory: [u8; 0x800],
    /// Name tables and palette, seen by the PPU at `$2000-$3FFF`.
    pub ppu_memory: [u8; 0x2000],
    /// Name-table mirroring: `true` for vertical, `false` for horizontal.
    pub vertical_mirroring: bool,
}

/// Where a PPU address in `$2000-$3FFF` lands in video RAM.
///
/// With vertical mirroring the upper two name tables fold onto the lower two;
/// with horizontal mirroring each odd name table folds onto the one before it.
/// The four sprite-palette backdrop entries fold onto the background ones.
pub open spec fn ppu_index(vertical_mirroring: bool, addr: u16) -> int {
    let folded: int = if 0x2000 <= addr < 0x3F00 {
        if vertical_mirroring {
            if addr >= 0x2800 {
                addr - 0x800
            } else {
                addr as int
            }
        } else if (0x2400 <= addr < 0x2800) || (0x2C00 <= addr < 0x3000) {
            addr - 0x400
        } else {
            addr as int
        }
    } else if addr == 0x3F10 || addr == 0x3F14 || addr == 0x3F18 || addr == 0x3F1C {
        addr - 0x10
    } else {
        addr as int
    };
    folded - 0x2000
}

impl Ram {
    /// The memory after a CPU-side store of `value` at `addr`.
    pub open spec fn with_cpu(self, addr: u16, value: u8) -> Ram {
        Ram {
            cpu_memory: vstd::array::spec_array_update(
                self.cpu_memory,
                (addr % 0x800) as int,
                value,
            ),
            ..self
        }
    }

    /// The byte a CPU-side load at `addr` sees.
    pub open spec fn cpu_at(self, addr: u16) -> u8 {
        self.cpu_memory[(addr % 0x800) as int]
    }

    /// The memory after a PPU-side store of `value` at `addr`.
    pub open spec fn with_ppu(self, addr: u16, value: u8) -> Ram {
        Ram {
            ppu_memory: vstd::array::spec_array_update(
                self.ppu_memory,
                ppu_index(self.vertical_mirroring, addr),
                value,
            ),
            ..self
        }
    }

    /// The byte a PPU-side load at `addr` sees.
    pub open spec fn ppu_at(self, addr: u16) -> u8 {
        self.ppu_memory[ppu_index(self.vertical_mirroring, addr)]
    }

    /// Memory at power-on: every byte reads `$FF`.
    pub open spec fn fresh(vertical_mirroring: bool) -> Ram {
        Ram { cpu_memory: filled(0xFF), ppu_memory: filled(0xFF), vertical_mirroring }
    }

    /// Memory at power-on: every byte reads `$FF`.
    pub fn new(vertical_mirroring: bool) -> (ram: Ram)
        ensures
            ram == Ram::fresh(vertical_mirroring),
            forall|i: int| 0 <= i < 0x800 ==> ram.cpu_memory[i] == 0xFF,
            forall|i: int| 0 <= i < 0x2000 ==> ram.ppu_memory[i] == 0xFF,
    {
        Ram { cpu_memory: [0xFF; 0x800], ppu_memory: [0xFF; 0x2000], vertical_mirroring }
    }

    /// Loads from work RAM, which repeats every `$800` bytes.
    pub fn get_cpu_memory(&self, addr: u16) -> (value: u8)
        ensures
            value == self.cpu_at(addr),
    {
        let actual_addr: u16 = addr % 0x800;
        self.cpu_memory[actual_addr as usize]
    }

    /// Stores to work RAM, which repeats every `$800` bytes.
    pub fn set_cpu_memory(&mut self, addr: u16, value: u8)
        ensures
            *final(self) == old(self).with_cpu(addr, value),
    {
        let actual_addr: u16 = addr % 0x800;
        self.cpu_memory[actual_addr as usize] = value;
    }

    /// Folds a PPU address in `$2000-$3FFF` into an index into video RAM.
    pub fn ppu_address_mapping(&self, addr: u16) -> (index: usize)
        requires
            0x2000 <= addr < 0x4000,
        ensures
            index == ppu_index(self.vertical_mirroring, addr),
            index < 0x2000,
    {
        let mut actual_addr: u16 = addr;
        if actual_addr < 0x3F00 {
            if self.vertical_mirroring {
                if actual_addr >= 0x2800 {
                    actual_addr -= 0x800;
                }
            } else if (actual_addr >= 0x2400 && actual_addr < 0x2800) || (actual_addr >= 0x2C00
                && actual_addr < 0x3000) {
                actual_addr -= 0x400;
            }
        } else if actual_addr == 0x3F10 || actual_addr == 0x3F14 || actual_addr == 0x3F18
            || actual_addr == 0x3F1C {
            actual_addr -= 0x10;
        }
        (actual_addr - 0x2000) as usize
    }

    /// Loads from video RAM. `addr` lies in `$2000-$3FFF`; pattern tables
    /// below that live on the cartridge.
    pub fn get_ppu_memory(&self, addr: u16) -> (value: u8)
        requires
            0x2000 <= addr < 0x4000,
        ensures
            value == self.ppu_at(addr),
    {
        self.ppu_memory[self.ppu_address_mapping(addr)]
    }

    /// Stores to video RAM. `addr` lies in `$2000-$3FFF`.
    pub fn set_ppu_memory(&mut self, addr: u16, value: u8)
        requires
            0x2000 <= addr < 0x4000,
        ensures
            *final(self) == old(self).with_ppu(addr, value),
    {
        let index = self.ppu_address_mapping(addr);
        self.ppu_memory[index] = value;
    }
}

} // verus!
