use vstd::prelude::*;
use super::{load_next, Instruction, InstructionEnum, Step};
use crate::cpu::interrupt_controller::{pending_interrupt, InterruptController};
use crate::cpu::CpuState;
use crate::memory::MemoryDevice;

verus! {

/// Halt the execution until the next interrupt (`HALT`).
///
/// While no interrupt is both requested and enabled, the instruction returns
/// itself. Once one is, it is serviced if the interrupt master enable is set;
/// if it is not set, the execution goes on behind the `HALT` without a service.
#[derive(Debug, Clone, Copy, PartialEq, Eq, Structural)]
pub struct Halt {}

impl Halt {
    /// The opcode of the instruction.
    pub open spec fn spec_encode(self) -> Seq<u8> {
        seq![0x76u8]
    }

    /// One machine cycle of the instruction.
    pub open spec fn spec_execute<T: MemoryDevice>(self, cpu: CpuState, memory: T) -> Step<T> {
        if pending_interrupt(memory) is Some {
            load_next(cpu, memory)
        } else {
            Step { next: InstructionEnum::Halt(Halt {  }), cpu, memory }
        }
    }
}

impl Instruction for Halt {
    open spec fn enumerated(&self) -> InstructionEnum {
        InstructionEnum::Halt(*self)
    }

    fn execute<T: MemoryDevice>(&self, cpu: &mut CpuState, memory: &mut T) -> (next: InstructionEnum)
        ensures
            (Step { next, cpu: *final(cpu), memory: *final(memory) }) == self.spec_execute(
                *old(cpu),
                *old(memory),
            ),
    {
        match memory.pending() {
            Some(_) => cpu.load_instruction(memory),
            None => InstructionEnum::Halt(Halt {  }),
        }
    }

    fn encode(&self) -> (bytes: Vec<u8>)
        ensures
            bytes@ == self.spec_encode(),
    {
        vec![0x76u8]
    }
}

} // verus!
