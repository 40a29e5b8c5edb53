use vstd::prelude::*;
use crate::memory::{initialized, retains, undisturbed, Memory, MemoryDevice};

verus! {

/// A memory device that does plain reads and writes to 64 KiB of memory.
pub struct DebugMemory {
    /// The memory.
    pub memory: Memory,
}

impl DebugMemory {
    /// Create a new memory filled with `0`.
    pub fn new() -> (memory: DebugMemory)
        ensures
            memory.memory == Memory::zeroed(),
            forall|address: u16| memory.spec_read(address) == 0,
    {
        DebugMemory { memory: Memory::new() }
    }

    /// Create a new memory. `init` is placed at address 0; the remaining
    /// memory is filled with `0`.
    pub fn new_with_init(init: &[u8]) -> (memory: DebugMemory)
        ensures
            initialized(memory.memory, init@),
    {
        DebugMemory { memory: Memory::new_with_init(init) }
    }
}

impl MemoryDevice for DebugMemory {
    open spec fn spec_read(&self, address: u16) -> u8 {
        self.memory.byte(address)
    }

    open spec fn spec_write(&self, address: u16, value: u8) -> Self {
        DebugMemory { memory: self.memory.with_byte(address, value) }
    }

    /// The debug memory has no peripherals.
    open spec fn spec_tick(&self) -> Self {
        *self
    }

    fn tick(&mut self) {
    }

    fn read(&self, address: u16) -> (value: u8) {
        self.memory.get(address)
    }

    fn write(&mut self, address: u16, value: u8) {
        self.memory.set(address, value);
    }
}

/// The debug memory keeps what is written to any address, and a write to
/// one address never changes what is read from another.
pub proof fn lemma_debug_memory(address: u16, other: u16)
    ensures
        retains::<DebugMemory>(address),
        other != address ==> undisturbed::<DebugMemory>(address, other),
{
}

} // verus!
