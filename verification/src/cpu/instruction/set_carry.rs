use vstd::prelude::*;
use super::{load_next, Instruction, InstructionEnum, Step};
use crate::cpu::{Cpu, CpuState, Flag};
use crate::memory::MemoryDevice;

verus! {

/// Set the carry flag (`SCF`).
///
/// | Zero      | Subtract | HalfCarry | Carry |
/// |-----------|----------|-----------|-------|
/// | unchanged | false    | false     | true  |
#[derive(Debug, Clone, Copy, PartialEq, Eq, Structural)]
pub struct SetCarry {}

impl SetCarry {
    /// The opcode of the instruction.
    pub open spec fn spec_encode(self) -> Seq<u8> {
        seq![0x37u8]
    }

    /// The processor state after the instruction, before the next one is loaded.
    pub open spec fn effect(cpu: CpuState) -> CpuState {
        CpuState { subtract: false, half_carry: false, carry: true, ..cpu }
    }

    /// One machine cycle of the instruction.
    pub open spec fn spec_execute<T: MemoryDevice>(self, cpu: CpuState, memory: T) -> Step<T> {
        load_next(SetCarry::effect(cpu), memory)
    }
}

impl Instruction for SetCarry {
    open spec fn enumerated(&self) -> InstructionEnum {
        InstructionEnum::SetCarry(*self)
    }

    fn execute<T: MemoryDevice>(&self, cpu: &mut CpuState, memory: &mut T) -> (next: InstructionEnum)
        ensures
            (Step { next, cpu: *final(cpu), memory: *final(memory) }) == self.spec_execute(
                *old(cpu),
                *old(memory),
            ),
    {
        cpu.write_flag(Flag::Subtract, false);
        cpu.write_flag(Flag::HalfCarry, false);
        cpu.write_flag(Flag::Carry, true);
        cpu.load_instruction(memory)
    }

    fn encode(&self) -> (bytes: Vec<u8>)
        ensures
            bytes@ == self.spec_encode(),
    {
        vec![0x37u8]
    }
}

} // verus!
