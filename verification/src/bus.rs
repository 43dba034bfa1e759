//! The system bus: the 2 KiB work RAM mirrored through the low pages, the
//! ignored peripheral window, and the cartridge's PRG banks mapped at the
//! top half of the address space.

use vstd::prelude::*;

use crate::cartridge::Cartridge;
use crate::memory;
use crate::ram::RAM;

verus! {

/// The bus: RAM below, cartridge ROM above, everything between ignored. Its
/// view is the RAM contents; the cartridge is reachable as a field.
pub struct BUS {
    pub cartridge: Cartridge,
    pub ram: RAM,
}

impl View for BUS {
    type V = Seq<u8>;

    open spec fn view(&self) -> Seq<u8> {
        self.ram@
    }
}

/// The PRG byte the cartridge maps at a top-half bus address: a single
/// 16 KiB bank appears twice, a larger image is addressed directly.
pub open spec fn spec_prg_at(prg: Seq<u8>, address: u16) -> u8 {
    let offset = address - 0x8000;
    if prg.len() == 0x4000 && offset >= 0x4000 {
        prg[offset % 0x4000]
    } else {
        prg[offset]
    }
}

/// Whether a bus read of `address` is backed by something: RAM and the
/// ignored windows always are, and the ROM window is whenever the offset
/// falls inside the (possibly mirrored) PRG image.
pub open spec fn spec_prg_readable(prg: Seq<u8>, address: u16) -> bool {
    address < 0x8000 || prg.len() == 0x4000 || address - 0x8000 < prg.len()
}

/// What a bus read returns: mirrored RAM below 0x2000, zero from the ignored
/// peripheral windows, and the cartridge's PRG image from 0x8000 up.
pub open spec fn spec_bus_read(ram: Seq<u8>, prg: Seq<u8>, address: u16) -> u8 {
    if address < 0x2000 {
        ram[address as int % 0x800]
    } else if address < 0x8000 {
        0
    } else {
        spec_prg_at(prg, address)
    }
}

impl BUS {
    /// A bus over the given cartridge, with the RAM zeroed.
    pub fn new(cartridge: Cartridge) -> (r: BUS)
        ensures
            r@ == Seq::new(0x800, |i: int| 0u8),
            r.cartridge == cartridge,
    {
        BUS { ram: RAM::new(), cartridge }
    }

    /// The PRG byte at a top-half address, mirroring a single bank.
    pub fn read_prg(&self, address: u16) -> (r: u8)
        requires
            address >= 0x8000,
            spec_prg_readable(self.cartridge.prg@, address),
        ensures
            r == spec_prg_at(self.cartridge.prg@, address),
    {
        let offset = (address - 0x8000) as usize;
        if self.cartridge.prg.len() == 0x4000 && offset >= 0x4000 {
            self.cartridge.prg[offset % 0x4000]
        } else {
            self.cartridge.prg[offset]
        }
    }

    /// A bus read: RAM mirrored below 0x2000, zero from the peripheral and
    /// expansion windows, PRG from 0x8000 up.
    pub fn read_byte(&self, address: u16) -> (r: u8)
        requires
            spec_prg_readable(self.cartridge.prg@, address),
        ensures
            r == spec_bus_read(self@, self.cartridge.prg@, address),
    {
        if address < 0x2000 {
            self.ram.read_byte(address)
        } else if address < 0x8000 {
            0
        } else {
            self.read_prg(address)
        }
    }

    /// A bus write: only the RAM window is writable; the peripheral and
    /// expansion windows swallow the write. The ROM window is left out: the
    /// cartridge cannot be written.
    pub fn write_byte(&mut self, address: u16, value: u8)
        requires
            address < 0x8000,
        ensures
            final(self)@ == (if address < 0x2000 {
                old(self)@.update(address as int % 0x800, value)
            } else {
                old(self)@
            }),
            final(self).cartridge == old(self).cartridge,
    {
        if address < 0x2000 {
            self.ram.write_byte(address, value);
        }
    }
}

/// The byte read/write contract every backing store offers the core's
/// surroundings: a total mapping over the 16-bit address space. An address a
/// store does not back reads as zero and swallows writes, so the trait's
/// methods are total; each implementation states exactly what it does.
pub trait Memory {
    fn read_byte(&self, address: u16) -> u8;

    fn write_byte(&mut self, address: u16, value: u8);
}

impl Memory for memory::Memory {
    /// The flat store backs every address.
    fn read_byte(&self, address: u16) -> (r: u8)
        ensures
            r == self@[address as int],
    {
        memory::Memory::read_byte(self, address)
    }

    /// The flat store accepts every write.
    fn write_byte(&mut self, address: u16, value: u8)
        ensures
            final(self)@ == old(self)@.update(address as int, value),
    {
        memory::Memory::write_byte(self, address, value);
    }
}

impl Memory for RAM {
    /// The chip mirrors across the whole address space.
    fn read_byte(&self, address: u16) -> (r: u8)
        ensures
            r == self@[address as int % 0x800],
    {
        RAM::read_byte(self, address)
    }

    fn write_byte(&mut self, address: u16, value: u8)
        ensures
            final(self)@ == old(self)@.update(address as int % 0x800, value),
    {
        RAM::write_byte(self, address, value);
    }
}

impl Memory for BUS {
    /// The bus read, total: a top-half address outside the PRG image reads
    /// as zero rather than trapping.
    fn read_byte(&self, address: u16) -> (r: u8)
        ensures
            r == (if spec_prg_readable(self.cartridge.prg@, address) {
                spec_bus_read(self@, self.cartridge.prg@, address)
            } else {
                0u8
            }),
    {
        if address < 0x8000 {
            BUS::read_byte(self, address)
        } else {
            let offset = (address - 0x8000) as usize;
            if self.cartridge.prg.len() == 0x4000 || offset < self.cartridge.prg.len() {
                BUS::read_byte(self, address)
            } else {
                0
            }
        }
    }

    /// The bus write, total: the ROM window swallows the write instead of
    /// trapping.
    fn write_byte(&mut self, address: u16, value: u8)
        ensures
            final(self)@ == (if address < 0x2000 {
                old(self)@.update(address as int % 0x800, value)
            } else {
                old(self)@
            }),
            final(self).cartridge == old(self).cartridge,
    {
        if address < 0x8000 {
            BUS::write_byte(self, address, value);
        }
    }
}

} // verus!
