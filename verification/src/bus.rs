//! The memory port the processor core drives.
//!
//! The core issues byte reads and writes over the full 16-bit address
//! space and performs no decoding or mirroring of its own; all of that is
//! the bus's business.  This bus is a flat 64 KiB RAM, which is exactly
//! the total addressability the core assumes and what tests program
//! against.  Its view is the sequence of all 65536 bytes.

use vstd::prelude::*;

verus! {

/// Size of the addressable memory space in bytes.
pub const MEM_SIZE: usize = 0x10000;

/// A flat 64 KiB RAM behind the processor's memory port.
pub struct bus {
    ram: Vec<u8>,
}

impl View for bus {
    type V = Seq<u8>;

    closed spec fn view(&self) -> Seq<u8> {
        self.ram@
    }
}

impl bus {
    /// The bus always backs the full 16-bit address space.
    pub open spec fn wf(&self) -> bool {
        self@.len() == MEM_SIZE
    }

    /// A bus whose memory is all zeroes.
    pub fn new() -> (r: bus)
        ensures
            r.wf(),
            forall|i: int| 0 <= i < MEM_SIZE ==> r@[i] == 0u8,
    {
        let mut ram: Vec<u8> = Vec::new();
        while ram.len() < MEM_SIZE
            invariant
                ram@.len() <= MEM_SIZE,
                forall|i: int| 0 <= i < ram@.len() ==> ram@[i] == 0u8,
            decreases MEM_SIZE - ram@.len(),
        {
            ram.push(0);
        }
        bus { ram }
    }

    /// Read the byte at `addr`.
    pub fn cpu_read(&self, addr: u16) -> (r: u8)
        requires
            self.wf(),
        ensures
            r == self@[addr as int],
    {
        self.ram[addr as usize]
    }

    /// Write `data` to `addr`; every address is writable.
    pub fn cpu_write(&mut self, addr: u16, data: u8)
        requires
            old(self).wf(),
        ensures
            final(self).wf(),
            final(self)@ == old(self)@.update(addr as int, data),
    {
        self.ram[addr as usize] = data;
    }
}

} // verus!
