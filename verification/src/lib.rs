//! The core of a Game Boy (DMG) emulator: the register file, the memory bus
//! with its peripherals, the interrupt controller and the instructions of the
//! processor, each executed one machine cycle at a time.

/// The processor state, the interrupt controller and the instructions.
pub mod cpu;

/// A plain memory for experiments and tests.
pub mod debug_memory;

/// The memory bus, its backing memory and the peripherals behind it.
pub mod memory;

/// What can be read out of video memory.
pub mod video;

/// The machine as a whole, run one machine cycle at a time.
pub mod machine;
