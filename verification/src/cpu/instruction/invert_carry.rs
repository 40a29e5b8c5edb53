use vstd::prelude::*;
use super::{load_next, Instruction, InstructionEnum, Step};
use crate::cpu::{Cpu, CpuState, Flag};
use crate::memory::MemoryDevice;

verus! {

/// Invert the carry flag (`CCF`).
///
/// | Zero      | Subtract | HalfCarry | Carry    |
/// |-----------|----------|-----------|----------|
/// | unchanged | false    | false     | inverted |
#[derive(Debug, Clone, Copy, PartialEq, Eq, Structural)]
pub struct InvertCarry {}

impl InvertCarry {
    /// The opcode of the instruction.
    pub open spec fn spec_encode(self) -> Seq<u8> {
        seq![0x3Fu8]
    }

    /// The processor state after the instruction, before the next one is loaded.
    pub open spec fn effect(cpu: CpuState) -> CpuState {
        CpuState { subtract: false, half_carry: false, carry: !cpu.carry, ..cpu }
    }

    /// One machine cycle of the instruction.
    pub open spec fn spec_execute<T: MemoryDevice>(self, cpu: CpuState, memory: T) -> Step<T> {
        load_next(InvertCarry::effect(cpu), memory)
    }
}

impl Instruction for InvertCarry {
    open spec fn enumerated(&self) -> InstructionEnum {
        InstructionEnum::InvertCarry(*self)
    }

    fn execute<T: MemoryDevice>(&self, cpu: &mut CpuState, memory: &mut T) -> (next: InstructionEnum)
        ensures
            (Step { next, cpu: *final(cpu), memory: *final(memory) }) == self.spec_execute(
                *old(cpu),
                *old(memory),
            ),
    {
        cpu.write_flag(Flag::Subtract, false);
        cpu.write_flag(Flag::HalfCarry, false);
        let carry = cpu.read_flag(Flag::Carry);
        cpu.write_flag(Flag::Carry, !carry);
        cpu.load_instruction(memory)
    }

    fn encode(&self) -> (bytes: Vec<u8>)
        ensures
            bytes@ == self.spec_encode(),
    {
        vec![0x3Fu8]
    }
}

/// Inverting the carry flag twice changes nothing but the subtract and the
/// half carry flag, which are cleared.
pub proof fn lemma_invert_carry_twice(cpu: CpuState)
    ensures
        InvertCarry::effect(InvertCarry::effect(cpu)) == (CpuState {
            subtract: false,
            half_carry: false,
            ..cpu
        }),
{
}

} // verus!
