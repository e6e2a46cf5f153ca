//! The NES bus: 2 KiB of RAM mirrored over `$0000..=$1FFF` in front of the cartridge.
use vstd::prelude::*;
use super::cart::Cart;
use super::mem::{Read, Write};

verus! {

pub const RAM_SIZE: usize = 0x0800;
pub const RAM_END: u16 = 0x1FFF;
pub const PPU_REG_BEGIN: u16 = 0x2000;
pub const PPU_REG_MIRROR_END: u16 = 0x3FFF;

pub struct Bus {
    pub ram: [u8; 0x0800],
    rom: Cart,
}

/// Addresses that reach the RAM.
pub open spec fn is_ram_addr(addr: u16) -> bool {
    addr <= RAM_END
}

/// Addresses of the PPU registers, which this bus does not serve.
pub open spec fn is_ppu_addr(addr: u16) -> bool {
    PPU_REG_BEGIN <= addr <= PPU_REG_MIRROR_END
}

/// The RAM cell that a RAM address reaches.
pub open spec fn ram_index(addr: u16) -> int {
    (addr as int) % (RAM_SIZE as int)
}

impl Bus {
    pub closed spec fn ram_bytes(&self) -> Seq<u8> {
        self.ram@
    }

    /// The cartridge behind the bus.
    pub closed spec fn cart(&self) -> Cart {
        self.rom
    }

    pub fn new(rom: Cart) -> (b: Bus)
        ensures
            forall|i: int| 0 <= i < RAM_SIZE ==> b.ram_bytes()[i] == 0,
            b.ram_bytes().len() == RAM_SIZE,
            b.cart() == rom,
    {
        Bus { ram: [0; 0x0800], rom }
    }

    fn mem_write_ram(&mut self, addr: u16, byte: u8)
        ensures
            final(self).ram_bytes() == old(self).ram_bytes().update(ram_index(addr), byte),
            final(self).cart() == old(self).cart(),
    {
        self.ram[(addr % 0x0800) as usize] = byte;
    }
}

impl Read for Bus {
    open spec fn readable(&self, addr: u16) -> bool {
        !is_ppu_addr(addr)
    }

    /// RAM addresses read the mirrored cell; the rest of the space reads 0.
    open spec fn byte_at(&self, addr: u16) -> u8 {
        if is_ram_addr(addr) {
            self.ram_bytes()[ram_index(addr)]
        } else {
            0
        }
    }

    fn read(&self, addr: u16) -> (r: u8) {
        if addr <= RAM_END {
            self.ram[(addr % 0x0800) as usize]
        } else {
            0
        }
    }
}

impl Write for Bus {
    open spec fn writable(&self, addr: u16) -> bool {
        !is_ppu_addr(addr)
    }

    /// RAM addresses write the mirrored cell; writes elsewhere are ignored.
    open spec fn written(&self, before: &Self, addr: u16, val: u8) -> bool {
        &&& self.cart() == before.cart()
        &&& self.ram_bytes() == if is_ram_addr(addr) {
            before.ram_bytes().update(ram_index(addr), val)
        } else {
            before.ram_bytes()
        }
    }

    fn write(&mut self, addr: u16, val: u8) {
        if addr <= RAM_END {
            self.mem_write_ram(addr, val);
        }
    }
}

} // verus!
