use vstd::prelude::*;

verus! {

/// Interface to an interconnect bus: the byte-addressable 16-bit memory the
/// host supplies. The processor performs every memory access through this
/// surface and assumes nothing about the backing store beyond the model
/// below.
///
/// `mem` is the specification-level view of the bus: the byte each address
/// currently holds. `read` returns exactly that byte and `write` updates
/// exactly that byte, so a verified implementation behaves as plain memory.
pub trait Bus {
    /// The byte each bus address currently holds.
    spec fn mem(&self) -> Map<u16, u8>;

    /// Writes a byte to the given address in the bus.
    fn write(&mut self, addr: u16, value: u8)
        ensures
            final(self).mem() == old(self).mem().insert(addr, value),
    ;

    /// Reads a byte from the given address in the bus.
    fn read(&self, addr: u16) -> (value: u8)
        ensures
            value == self.mem()[addr],
    ;
}

/// A flat 64 KiB RAM bus: the simplest host memory, with every address
/// readable and writable. Useful for tests and for hosts without
/// memory-mapped peripherals.
pub struct RamBus {
    cells: Vec<u8>,
}

impl RamBus {
    #[verifier::type_invariant]
    spec fn wf(self) -> bool {
        self.cells.len() == 0x10000
    }

    /// A RAM bus with every byte zero.
    pub fn new() -> (bus: RamBus)
        ensures
            forall|addr: u16| #[trigger] bus.mem()[addr] == 0u8,
    {
        let cells: Vec<u8> = vec![0u8; 0x10000];
        RamBus { cells }
    }
}

impl Bus for RamBus {
    closed spec fn mem(&self) -> Map<u16, u8> {
        Map::new(|addr: u16| true, |addr: u16| self.cells[addr as int])
    }

    fn write(&mut self, addr: u16, value: u8) {
        proof {
            use_type_invariant(&*self);
        }
        let index: usize = addr as usize;
        self.cells[index] = value;
        proof {
            assert(self.mem() =~= old(self).mem().insert(addr, value));
        }
    }

    fn read(&self, addr: u16) -> (value: u8) {
        proof {
            use_type_invariant(self);
        }
        let index: usize = addr as usize;
        self.cells[index]
    }
}

} // verus!
