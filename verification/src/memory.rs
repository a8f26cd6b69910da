//! The memory bus: a flat, byte-addressable 64 KiB address space with
//! single-byte read/write and a bulk load.

use vstd::prelude::*;

verus! {

/// The number of addressable bytes: the full 16-bit address space.
pub const MEMORY_SIZE: usize = 0x10000;

/// A flat 64 KiB byte-addressable memory, zero-initialized at creation.
/// Every 16-bit address is valid, so reads and writes cannot fail.
pub struct MemoryBus {
    memory: Vec<u8>,
}

impl View for MemoryBus {
    type V = Seq<u8>;

    closed spec fn view(&self) -> Seq<u8> {
        self.memory@
    }
}

impl MemoryBus {
    /// The bus holds exactly one byte for each of the 65536 addresses.
    pub open spec fn wf(&self) -> bool {
        self@.len() == MEMORY_SIZE
    }

    /// A fresh bus with every byte zero.
    pub fn new() -> (bus: MemoryBus)
        ensures
            bus.wf(),
            bus@ == Seq::<u8>::new(MEMORY_SIZE as nat, |i: int| 0u8),
    {
        let mut memory: Vec<u8> = Vec::new();
        let mut i: usize = 0;
        while i < MEMORY_SIZE
            invariant
                i <= MEMORY_SIZE,
                memory@.len() == i,
                forall|j: int| 0 <= j < i ==> memory@[j] == 0u8,
            decreases MEMORY_SIZE - i,
        {
            memory.push(0);
            i = i + 1;
        }
        proof {
            assert(memory@ =~= Seq::<u8>::new(MEMORY_SIZE as nat, |i: int| 0u8));
        }
        MemoryBus { memory }
    }

    /// Reads the byte at the given address.
    pub fn read_byte(&self, address: u16) -> (byte: u8)
        requires
            self.wf(),
        ensures
            byte == self@[address as int],
    {
        self.memory[address as usize]
    }

    /// Writes the byte at the given address.
    pub fn write_byte(&mut self, address: u16, byte: u8)
        requires
            old(self).wf(),
        ensures
            final(self).wf(),
            final(self)@ == old(self)@.update(address as int, byte),
    {
        self.memory.set(address as usize, byte);
    }

    /// Copies a byte sequence into memory beginning at `start_address`.
    /// A sequence that would run past the end of the address space is
    /// silently truncated at address 0xFFFF.
    pub fn copy_bytes(&mut self, start_address: u16, bytes: &[u8])
        requires
            old(self).wf(),
        ensures
            final(self).wf(),
            forall|i: int|
                0 <= i < MEMORY_SIZE ==> final(self)@[i] == if start_address <= i < start_address
                    + bytes@.len() {
                    bytes@[i - start_address]
                } else {
                    old(self)@[i]
                },
    {
        let mut j: usize = 0;
        while j < bytes.len() && start_address as usize + j < MEMORY_SIZE
            invariant
                self.wf(),
                j <= bytes@.len(),
                start_address as usize + j <= MEMORY_SIZE,
                forall|i: int|
                    0 <= i < MEMORY_SIZE ==> self@[i] == if start_address <= i < start_address
                        + j {
                        bytes@[i - start_address]
                    } else {
                        old(self)@[i]
                    },
            decreases bytes@.len() - j,
        {
            self.memory.set(start_address as usize + j, bytes[j]);
            j = j + 1;
        }
    }
}

impl Default for MemoryBus {
    /// A fresh bus with every byte zero.
    fn default() -> (bus: MemoryBus)
        ensures
            bus.wf(),
            bus@ == Seq::<u8>::new(MEMORY_SIZE as nat, |i: int| 0u8),
    {
        MemoryBus::new()
    }
}

} // verus!
