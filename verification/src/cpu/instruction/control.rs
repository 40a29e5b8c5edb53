use vstd::prelude::*;
use super::{load_next, Instruction, InstructionEnum, Step};
use crate::cpu::{Cpu, CpuState};
use crate::memory::MemoryDevice;

verus! {

/// Do nothing (`NOP`).
#[derive(Debug, Clone, Copy, PartialEq, Eq, Structural)]
pub struct Nop {}

impl Nop {
    /// The opcode of the instruction.
    pub open spec fn spec_encode(self) -> Seq<u8> {
        seq![0x00u8]
    }

    /// One machine cycle of the instruction.
    pub open spec fn spec_execute<T: MemoryDevice>(self, cpu: CpuState, memory: T) -> Step<T> {
        load_next(cpu, memory)
    }
}

impl Instruction for Nop {
    open spec fn enumerated(&self) -> InstructionEnum {
        InstructionEnum::Nop(*self)
    }

    fn execute<T: MemoryDevice>(&self, cpu: &mut CpuState, memory: &mut T) -> (next: InstructionEnum)
        ensures
            (Step { next, cpu: *final(cpu), memory: *final(memory) }) == self.spec_execute(
                *old(cpu),
                *old(memory),
            ),
    {
        cpu.load_instruction(memory)
    }

    fn encode(&self) -> (bytes: Vec<u8>)
        ensures
            bytes@ == self.spec_encode(),
    {
        vec![0x00u8]
    }
}

/// Clear the interrupt master enable (`DI`).
#[derive(Debug, Clone, Copy, PartialEq, Eq, Structural)]
pub struct DisableInterrupts {}

impl DisableInterrupts {
    /// The opcode of the instruction.
    pub open spec fn spec_encode(self) -> Seq<u8> {
        seq![0xF3u8]
    }

    /// One machine cycle of the instruction.
    pub open spec fn spec_execute<T: MemoryDevice>(self, cpu: CpuState, memory: T) -> Step<T> {
        load_next(cpu.with_interrupt_master_enable(false), memory)
    }
}

impl Instruction for DisableInterrupts {
    open spec fn enumerated(&self) -> InstructionEnum {
        InstructionEnum::DisableInterrupts(*self)
    }

    fn execute<T: MemoryDevice>(&self, cpu: &mut CpuState, memory: &mut T) -> (next: InstructionEnum)
        ensures
            (Step { next, cpu: *final(cpu), memory: *final(memory) }) == self.spec_execute(
                *old(cpu),
                *old(memory),
            ),
    {
        cpu.write_interrupt_master_enable(false);
        cpu.load_instruction(memory)
    }

    fn encode(&self) -> (bytes: Vec<u8>)
        ensures
            bytes@ == self.spec_encode(),
    {
        vec![0xF3u8]
    }
}

/// Set the interrupt master enable (`EI`). The enable takes effect at once:
/// a pending interrupt is serviced before the instruction that follows.
#[derive(Debug, Clone, Copy, PartialEq, Eq, Structural)]
pub struct EnableInterrupts {}

impl EnableInterrupts {
    /// The opcode of the instruction.
    pub open spec fn spec_encode(self) -> Seq<u8> {
        seq![0xFBu8]
    }

    /// One machine cycle of the instruction.
    pub open spec fn spec_execute<T: MemoryDevice>(self, cpu: CpuState, memory: T) -> Step<T> {
        load_next(cpu.with_interrupt_master_enable(true), memory)
    }
}

impl Instruction for EnableInterrupts {
    open spec fn enumerated(&self) -> InstructionEnum {
        InstructionEnum::EnableInterrupts(*self)
    }

    fn execute<T: MemoryDevice>(&self, cpu: &mut CpuState, memory: &mut T) -> (next: InstructionEnum)
        ensures
            (Step { next, cpu: *final(cpu), memory: *final(memory) }) == self.spec_execute(
                *old(cpu),
                *old(memory),
            ),
    {
        cpu.write_interrupt_master_enable(true);
        cpu.load_instruction(memory)
    }

    fn encode(&self) -> (bytes: Vec<u8>)
        ensures
            bytes@ == self.spec_encode(),
    {
        vec![0xFBu8]
    }
}

} // verus!
