use vstd::prelude::*;
use super::{decode_cb, spec_decode_cb, Instruction, InstructionEnum, Step};
use crate::cpu::{Cpu, CpuState};
use crate::memory::MemoryDevice;

verus! {

/// Decode the next opcode with the second opcode table (`CB`).
///
/// Most bit operations have opcodes that follow the prefix `0xCB`.
#[derive(Debug, Clone, Copy, PartialEq, Eq, Structural)]
pub struct PrefixCb {}

impl PrefixCb {
    /// The opcode of the instruction.
    pub open spec fn spec_encode(self) -> Seq<u8> {
        seq![0xCBu8]
    }

    /// One machine cycle of the instruction: the byte behind the prefix is
    /// fetched and decoded.
    pub open spec fn spec_execute<T: MemoryDevice>(self, cpu: CpuState, memory: T) -> Step<T> {
        Step {
            next: spec_decode_cb(memory.spec_read(cpu.program_counter)),
            cpu: cpu.advanced(),
            memory,
        }
    }
}

impl Instruction for PrefixCb {
    open spec fn enumerated(&self) -> InstructionEnum {
        InstructionEnum::PrefixCb(*self)
    }

    fn execute<T: MemoryDevice>(&self, cpu: &mut CpuState, memory: &mut T) -> (next: InstructionEnum)
        ensures
            (Step { next, cpu: *final(cpu), memory: *final(memory) }) == self.spec_execute(
                *old(cpu),
                *old(memory),
            ),
    {
        let program_counter = cpu.advance_program_counter();
        let opcode = memory.read(program_counter);
        decode_cb(opcode)
    }

    fn encode(&self) -> (bytes: Vec<u8>)
        ensures
            bytes@ == self.spec_encode(),
    {
        vec![0xCBu8]
    }
}

} // verus!
