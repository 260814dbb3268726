//! The 64KB address space: seven independently backed segments, a mirrored
//! echo-RAM range, one standalone interrupt-enable byte, and an unmapped gap.

use vstd::prelude::*;

use crate::EmuError;

verus! {

/// An address into the 16-bit memory space.
pub type Address = u16;

// The lowest segment is the cartridge ROM.
pub const CART_START: Address = 0x0000;

pub const CART_END: Address = 0x7FFF;

pub const CART_SIZE: usize = 0x8000;

// Video RAM follows the cartridge segment.
pub const VRAM_START: Address = 0x8000;

pub const VRAM_END: Address = 0x9FFF;

pub const VRAM_SIZE: usize = 0x2000;

// RAM on the cartridge itself, external to the console.
pub const EXRAM_START: Address = 0xA000;

pub const EXRAM_END: Address = 0xBFFF;

pub const EXRAM_SIZE: usize = 0x2000;

// Working RAM internal to the console.
pub const INRAM_START: Address = 0xC000;

pub const INRAM_END: Address = 0xDFFF;

pub const INRAM_SIZE: usize = 0x2000;

// Echo RAM: always bit-identical to internal RAM, so it is not stored
// separately; accesses are redirected to internal RAM instead.
pub const ERAM_START: Address = 0xE000;

pub const ERAM_END: Address = 0xFDFF;

// Object-attribute memory, where on-screen sprites are described.
pub const OAM_START: Address = 0xFE00;

pub const OAM_END: Address = 0xFE9F;

pub const OAM_SIZE: usize = 0xA0;

// The gap after object-attribute memory has no backing storage; accesses
// there are rejected with `UnmappedAddress`.
pub const GAP_START: Address = 0xFEA0;

pub const GAP_END: Address = 0xFEFF;

// The hardware I/O registers.
pub const IO_START: Address = 0xFF00;

pub const IO_END: Address = 0xFF7F;

pub const IO_SIZE: usize = 0x80;

// "High" RAM, a fast-access area with its own load instructions.
pub const HRAM_START: Address = 0xFF80;

pub const HRAM_END: Address = 0xFFFE;

pub const HRAM_SIZE: usize = 0x7F;

/// The address of the interrupt-enable byte.
pub const INTERRUPT_ENABLE: Address = 0xFFFF;

/// Whether an address has backing storage. Every address outside the single
/// gap maps to exactly one storage location.
pub open spec fn spec_is_mapped(addr: Address) -> bool {
    !(GAP_START <= addr <= GAP_END)
}

/// The storage location an address stands for: echo-RAM addresses resolve to
/// the mirrored internal-RAM address, every other address to itself.
pub open spec fn spec_resolve(addr: Address) -> Address {
    if ERAM_START <= addr <= ERAM_END {
        (addr - 0x2000) as Address
    } else {
        addr
    }
}

/// Represents the full memory space available to the console: seven segment
/// buffers plus the interrupt-enable byte. Echo RAM is not stored; its
/// accesses land in the internal-RAM buffer.
pub struct Memory {
    /// The cartridge ROM memory segment.
    cart: Vec<u8>,
    /// The video RAM memory segment.
    vram: Vec<u8>,
    /// The external cartridge RAM segment.
    exram: Vec<u8>,
    /// The internal working RAM segment.
    inram: Vec<u8>,
    /// The object-attribute memory segment.
    oam: Vec<u8>,
    /// The I/O registers segment.
    io: Vec<u8>,
    /// The "high" working RAM segment.
    hram: Vec<u8>,
    /// The interrupt-enable flags byte.
    interrupt: u8,
}

/// A zero-filled buffer of the given length.
fn zero_vec(n: usize) -> (v: Vec<u8>)
    ensures
        v@.len() == n,
        forall|i: int| 0 <= i < n ==> v@[i] == 0,
{
    let mut v: Vec<u8> = Vec::new();
    while v.len() < n
        invariant
            v@.len() <= n,
            forall|i: int| 0 <= i < v@.len() ==> v@[i] == 0,
        decreases n - v@.len(),
    {
        v.push(0);
    }
    v
}

impl Memory {
    /// Every segment buffer has its fixed size.
    pub closed spec fn wf(self) -> bool {
        &&& self.cart@.len() == CART_SIZE
        &&& self.vram@.len() == VRAM_SIZE
        &&& self.exram@.len() == EXRAM_SIZE
        &&& self.inram@.len() == INRAM_SIZE
        &&& self.oam@.len() == OAM_SIZE
        &&& self.io@.len() == IO_SIZE
        &&& self.hram@.len() == HRAM_SIZE
    }

    /// The byte stored for an address: the mirrored internal-RAM byte for an
    /// echo-RAM address, the segment byte otherwise. Addresses in the
    /// unmapped gap, which no accessor touches, read as zero here.
    pub closed spec fn spec_byte_at(self, addr: Address) -> u8 {
        let a = spec_resolve(addr);
        if a == INTERRUPT_ENABLE {
            self.interrupt
        } else if a <= CART_END {
            self.cart@[a as int]
        } else if a <= VRAM_END {
            self.vram@[a as int - VRAM_START as int]
        } else if a <= EXRAM_END {
            self.exram@[a as int - EXRAM_START as int]
        } else if a <= INRAM_END {
            self.inram@[a as int - INRAM_START as int]
        } else if OAM_START <= a <= OAM_END {
            self.oam@[a as int - OAM_START as int]
        } else if IO_START <= a <= IO_END {
            self.io@[a as int - IO_START as int]
        } else if HRAM_START <= a <= HRAM_END {
            self.hram@[a as int - HRAM_START as int]
        } else {
            0
        }
    }

    /// Builds the memory space from a cartridge ROM image; every RAM, I/O
    /// and object-attribute byte and the interrupt-enable byte start zeroed.
    pub fn new(cart: Vec<u8>) -> (m: Memory)
        requires
            cart@.len() == CART_SIZE,
        ensures
            m.wf(),
            forall|a: Address| #![trigger m.spec_byte_at(a)]
                m.spec_byte_at(a) == if a <= CART_END {
                    cart@[a as int]
                } else {
                    0u8
                },
    {
        let m = Memory {
            cart,
            vram: zero_vec(VRAM_SIZE),
            exram: zero_vec(EXRAM_SIZE),
            inram: zero_vec(INRAM_SIZE),
            oam: zero_vec(OAM_SIZE),
            io: zero_vec(IO_SIZE),
            hram: zero_vec(HRAM_SIZE),
            interrupt: 0,
        };
        m
    }

    /// Reads the byte an address stands for: the interrupt-enable byte at
    /// the top address, the mirrored internal-RAM byte for echo RAM, the
    /// segment byte otherwise. An address in the unmapped gap is rejected
    /// with `UnmappedAddress`, if and only if.
    pub fn read_word(&self, addr: Address) -> (r: Result<u8, EmuError>)
        requires
            self.wf(),
        ensures
            spec_is_mapped(addr) ==> r == Ok::<u8, EmuError>(self.spec_byte_at(addr)),
            !spec_is_mapped(addr) ==> r == Err::<u8, EmuError>(EmuError::UnmappedAddress),
    {
        if addr == INTERRUPT_ENABLE {
            Ok(self.interrupt)
        } else if addr <= CART_END {
            Ok(self.cart[addr as usize])
        } else if addr <= VRAM_END {
            Ok(self.vram[(addr - VRAM_START) as usize])
        } else if addr <= EXRAM_END {
            Ok(self.exram[(addr - EXRAM_START) as usize])
        } else if addr <= INRAM_END {
            Ok(self.inram[(addr - INRAM_START) as usize])
        } else if addr <= ERAM_END {
            Ok(self.inram[(addr - ERAM_START) as usize])
        } else if addr <= OAM_END {
            Ok(self.oam[(addr - OAM_START) as usize])
        } else if addr < IO_START {
            Err(EmuError::UnmappedAddress)
        } else if addr <= IO_END {
            Ok(self.io[(addr - IO_START) as usize])
        } else {
            Ok(self.hram[(addr - HRAM_START) as usize])
        }
    }

    /// Writes the byte an address stands for, with the same dispatch as
    /// `read_word`: afterwards every address resolving to the same storage
    /// location (the written address and, across the echo-RAM mirror, its
    /// alias) reads the new byte, and every other address is unchanged. An
    /// address in the unmapped gap is rejected with `UnmappedAddress` and
    /// changes nothing, if and only if.
    pub fn write_word(&mut self, addr: Address, data: u8) -> (r: Result<(), EmuError>)
        requires
            old(self).wf(),
        ensures
            final(self).wf(),
            spec_is_mapped(addr) ==> r == Ok::<(), EmuError>(()) && forall|a: Address|
                #![trigger final(self).spec_byte_at(a)]
                final(self).spec_byte_at(a) == if spec_resolve(a) == spec_resolve(addr) {
                    data
                } else {
                    old(self).spec_byte_at(a)
                },
            !spec_is_mapped(addr) ==> r == Err::<(), EmuError>(EmuError::UnmappedAddress)
                && *final(self) == *old(self),
    {
        if addr == INTERRUPT_ENABLE {
            self.interrupt = data;
            Ok(())
        } else if addr <= CART_END {
            self.cart.set(addr as usize, data);
            Ok(())
        } else if addr <= VRAM_END {
            self.vram.set((addr - VRAM_START) as usize, data);
            Ok(())
        } else if addr <= EXRAM_END {
            self.exram.set((addr - EXRAM_START) as usize, data);
            Ok(())
        } else if addr <= INRAM_END {
            self.inram.set((addr - INRAM_START) as usize, data);
            Ok(())
        } else if addr <= ERAM_END {
            self.inram.set((addr - ERAM_START) as usize, data);
            Ok(())
        } else if addr <= OAM_END {
            self.oam.set((addr - OAM_START) as usize, data);
            Ok(())
        } else if addr < IO_START {
            Err(EmuError::UnmappedAddress)
        } else if addr <= IO_END {
            self.io.set((addr - IO_START) as usize, data);
            Ok(())
        } else {
            self.hram.set((addr - HRAM_START) as usize, data);
            Ok(())
        }
    }
}

/// Law: an echo-RAM address always reads the same byte as its mirrored
/// internal-RAM address, in either direction of the mirror.
pub proof fn lemma_echo_mirror(m: Memory, addr: Address)
    requires
        ERAM_START <= addr <= ERAM_END,
    ensures
        m.spec_byte_at(addr) == m.spec_byte_at((addr - 0x2000) as Address),
{
}

} // verus!
