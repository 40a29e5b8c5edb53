use vstd::prelude::*;
use super::phases::FourPhases;
use super::{load_next, Instruction, InstructionEnum, Step};
use crate::cpu::{get_high_byte, get_low_byte, high_byte, join_bytes, low_byte, make_word};
use crate::cpu::{Cpu, CpuState};
use crate::memory::{next_address, MemoryDevice};

verus! {

/// Return from a call (`RET`): pop an address from the stack and continue there.
///
/// The first phase reads the low byte of the program counter from the stack,
/// the second the high byte; each moves the stack pointer up by one. The
/// third phase is idle, the fourth loads the next instruction.
#[derive(Debug, Clone, Copy, PartialEq, Eq, Structural)]
pub struct Return {
    /// The current phase of the instruction.
    pub phase: FourPhases,
}

impl Return {
    /// The opcode of the instruction.
    pub open spec fn spec_encode(self) -> Seq<u8> {
        seq![0xC9u8]
    }

    /// The processor state after the low byte of the program counter was popped.
    pub open spec fn pop_low<T: MemoryDevice>(cpu: CpuState, memory: T) -> CpuState {
        CpuState {
            program_counter: join_bytes(
                high_byte(cpu.program_counter),
                memory.spec_read(cpu.stack_pointer),
            ),
            stack_pointer: next_address(cpu.stack_pointer),
            ..cpu
        }
    }

    /// The processor state after the high byte of the program counter was popped.
    pub open spec fn pop_high<T: MemoryDevice>(cpu: CpuState, memory: T) -> CpuState {
        CpuState {
            program_counter: join_bytes(
                memory.spec_read(cpu.stack_pointer),
                low_byte(cpu.program_counter),
            ),
            stack_pointer: next_address(cpu.stack_pointer),
            ..cpu
        }
    }

    /// One machine cycle of the instruction.
    pub open spec fn spec_execute<T: MemoryDevice>(self, cpu: CpuState, memory: T) -> Step<T> {
        match self.phase {
            FourPhases::First => Step {
                next: InstructionEnum::Return(Return { phase: FourPhases::Second }),
                cpu: Return::pop_low(cpu, memory),
                memory,
            },
            FourPhases::Second => Step {
                next: InstructionEnum::Return(Return { phase: FourPhases::Third }),
                cpu: Return::pop_high(cpu, memory),
                memory,
            },
            FourPhases::Third => Step {
                next: InstructionEnum::Return(Return { phase: FourPhases::Fourth }),
                cpu,
                memory,
            },
            FourPhases::Fourth => load_next(cpu, memory),
        }
    }
}

/// Pop the low byte of the program counter from the stack.
pub fn pop_program_counter_low<T: MemoryDevice>(cpu: &mut CpuState, memory: &T)
    ensures
        *final(cpu) == Return::pop_low(*old(cpu), *memory),
{
    let data = memory.read(cpu.read_stack_pointer());
    let high = get_high_byte(cpu.read_program_counter());
    cpu.write_program_counter(make_word(high, data));
    let stack_pointer = cpu.read_stack_pointer();
    cpu.write_stack_pointer(stack_pointer.wrapping_add(1));
}

/// Pop the high byte of the program counter from the stack.
pub fn pop_program_counter_high<T: MemoryDevice>(cpu: &mut CpuState, memory: &T)
    ensures
        *final(cpu) == Return::pop_high(*old(cpu), *memory),
{
    let data = memory.read(cpu.read_stack_pointer());
    let low = get_low_byte(cpu.read_program_counter());
    cpu.write_program_counter(make_word(data, low));
    let stack_pointer = cpu.read_stack_pointer();
    cpu.write_stack_pointer(stack_pointer.wrapping_add(1));
}

impl Instruction for Return {
    open spec fn enumerated(&self) -> InstructionEnum {
        InstructionEnum::Return(*self)
    }

    fn execute<T: MemoryDevice>(&self, cpu: &mut CpuState, memory: &mut T) -> (next: InstructionEnum)
        ensures
            (Step { next, cpu: *final(cpu), memory: *final(memory) }) == self.spec_execute(
                *old(cpu),
                *old(memory),
            ),
    {
        match self.phase {
            FourPhases::First => {
                pop_program_counter_low(cpu, memory);
                InstructionEnum::Return(Return { phase: FourPhases::Second })
            },
            FourPhases::Second => {
                pop_program_counter_high(cpu, memory);
                InstructionEnum::Return(Return { phase: FourPhases::Third })
            },
            FourPhases::Third => InstructionEnum::Return(Return { phase: FourPhases::Fourth }),
            FourPhases::Fourth => cpu.load_instruction(memory),
        }
    }

    fn encode(&self) -> (bytes: Vec<u8>)
        ensures
            bytes@ == self.spec_encode(),
    {
        vec![0xC9u8]
    }
}

} // verus!
