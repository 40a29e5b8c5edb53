use vstd::prelude::*;
use super::phases::{FourPhases, ThreePhases};
use super::{load_next, Instruction, InstructionEnum, Step};
use crate::cpu::{Cpu, CpuState, DoubleRegister};
use crate::memory::{next_address, previous_address, MemoryDevice};

verus! {

/// The processor state and the memory after a byte was pushed to the stack:
/// the stack pointer moves down by one, then the byte is written to where it points.
pub open spec fn spec_push_byte<T: MemoryDevice>(cpu: CpuState, memory: T, value: u8) -> (
    CpuState,
    T,
) {
    (
        cpu.with_stack_pointer(previous_address(cpu.stack_pointer)),
        memory.spec_write(previous_address(cpu.stack_pointer), value),
    )
}

/// Push a byte to the stack.
pub fn push_byte<T: MemoryDevice>(cpu: &mut CpuState, memory: &mut T, value: u8)
    ensures
        (*final(cpu), *final(memory)) == spec_push_byte(*old(cpu), *old(memory), value),
{
    let stack_pointer = cpu.read_stack_pointer().wrapping_sub(1);
    cpu.write_stack_pointer(stack_pointer);
    memory.write(stack_pointer, value);
}

/// The byte on top of the stack.
pub open spec fn spec_top_byte<T: MemoryDevice>(cpu: CpuState, memory: T) -> u8 {
    memory.spec_read(cpu.stack_pointer)
}

/// The processor state after a byte was popped from the stack: the stack
/// pointer moves up by one.
pub open spec fn spec_popped(cpu: CpuState) -> CpuState {
    cpu.with_stack_pointer(next_address(cpu.stack_pointer))
}

/// Pop a byte from the stack.
pub fn pop_byte<T: MemoryDevice>(cpu: &mut CpuState, memory: &T) -> (value: u8)
    ensures
        value == spec_top_byte(*old(cpu), *memory),
        *final(cpu) == spec_popped(*old(cpu)),
{
    let stack_pointer = cpu.read_stack_pointer();
    cpu.write_stack_pointer(stack_pointer.wrapping_add(1));
    memory.read(stack_pointer)
}

/// The position of a double register in the opcodes of `PUSH` and `POP`.
pub open spec fn spec_stack_id(register: DoubleRegister) -> u8 {
    match register {
        DoubleRegister::BC => 0,
        DoubleRegister::DE => 1,
        DoubleRegister::HL => 2,
        DoubleRegister::AF => 3,
    }
}

/// The double register at a position of the opcodes of `PUSH` and `POP`;
/// positions count modulo four.
pub open spec fn spec_from_stack_id(id: u8) -> DoubleRegister {
    match id % 4 {
        0 => DoubleRegister::BC,
        1 => DoubleRegister::DE,
        2 => DoubleRegister::HL,
        _ => DoubleRegister::AF,
    }
}

/// The position of a double register in the opcodes of `PUSH` and `POP`.
pub fn stack_id(register: DoubleRegister) -> (id: u8)
    ensures
        id == spec_stack_id(register),
        id < 4,
{
    match register {
        DoubleRegister::BC => 0,
        DoubleRegister::DE => 1,
        DoubleRegister::HL => 2,
        DoubleRegister::AF => 3,
    }
}

/// The double register at a position of the opcodes of `PUSH` and `POP`.
pub fn from_stack_id(id: u8) -> (register: DoubleRegister)
    ensures
        register == spec_from_stack_id(id),
        spec_stack_id(register) == id % 4,
{
    match id % 4 {
        0 => DoubleRegister::BC,
        1 => DoubleRegister::DE,
        2 => DoubleRegister::HL,
        _ => DoubleRegister::AF,
    }
}

/// Push a double register to the stack (`PUSH rr`), the high byte first.
///
/// The first phase is idle, the second pushes the high byte, the third the
/// low byte, the fourth loads the next instruction.
#[derive(Debug, Clone, Copy, PartialEq, Eq, Structural)]
pub struct PushDoubleRegister {
    /// The double register that is pushed.
    pub source: DoubleRegister,
    /// The current phase of the instruction.
    pub phase: FourPhases,
}

impl PushDoubleRegister {
    /// The same instruction in another phase.
    pub open spec fn at(self, phase: FourPhases) -> InstructionEnum {
        InstructionEnum::PushDoubleRegister(PushDoubleRegister { source: self.source, phase })
    }

    /// The opcode of the instruction.
    pub open spec fn spec_encode(self) -> Seq<u8> {
        seq![(0xC5 + 16 * spec_stack_id(self.source)) as u8]
    }

    /// One machine cycle of the instruction.
    pub open spec fn spec_execute<T: MemoryDevice>(self, cpu: CpuState, memory: T) -> Step<T> {
        match self.phase {
            FourPhases::First => Step { next: self.at(FourPhases::Second), cpu, memory },
            FourPhases::Second => Step {
                next: self.at(FourPhases::Third),
                cpu: spec_push_byte(cpu, memory, cpu.register(self.source.spec_id().msb)).0,
                memory: spec_push_byte(cpu, memory, cpu.register(self.source.spec_id().msb)).1,
            },
            FourPhases::Third => Step {
                next: self.at(FourPhases::Fourth),
                cpu: spec_push_byte(cpu, memory, cpu.register(self.source.spec_id().lsb)).0,
                memory: spec_push_byte(cpu, memory, cpu.register(self.source.spec_id().lsb)).1,
            },
            FourPhases::Fourth => load_next(cpu, memory),
        }
    }
}

impl Instruction for PushDoubleRegister {
    open spec fn enumerated(&self) -> InstructionEnum {
        InstructionEnum::PushDoubleRegister(*self)
    }

    fn execute<T: MemoryDevice>(&self, cpu: &mut CpuState, memory: &mut T) -> (next: InstructionEnum)
        ensures
            (Step { next, cpu: *final(cpu), memory: *final(memory) }) == self.spec_execute(
                *old(cpu),
                *old(memory),
            ),
    {
        match self.phase {
            FourPhases::First => InstructionEnum::PushDoubleRegister(
                PushDoubleRegister { source: self.source, phase: FourPhases::Second },
            ),
            FourPhases::Second => {
                let value = cpu.read_register(self.source.id().msb);
                push_byte(cpu, memory, value);
                InstructionEnum::PushDoubleRegister(
                    PushDoubleRegister { source: self.source, phase: FourPhases::Third },
                )
            },
            FourPhases::Third => {
                let value = cpu.read_register(self.source.id().lsb);
                push_byte(cpu, memory, value);
                InstructionEnum::PushDoubleRegister(
                    PushDoubleRegister { source: self.source, phase: FourPhases::Fourth },
                )
            },
            FourPhases::Fourth => cpu.load_instruction(memory),
        }
    }

    fn encode(&self) -> (bytes: Vec<u8>)
        ensures
            bytes@ == self.spec_encode(),
    {
        vec![0xC5 + 16 * stack_id(self.source)]
    }
}

/// Pop a double register from the stack (`POP rr`), the low byte first.
///
/// The first phase pops the low byte, the second the high byte, the third
/// loads the next instruction. Of a byte popped into the flags register only
/// the high four bits are kept.
#[derive(Debug, Clone, Copy, PartialEq, Eq, Structural)]
pub struct PopDoubleRegister {
    /// The double register that is popped.
    pub destination: DoubleRegister,
    /// The current phase of the instruction.
    pub phase: ThreePhases,
}

impl PopDoubleRegister {
    /// The same instruction in another phase.
    pub open spec fn at(self, phase: ThreePhases) -> InstructionEnum {
        InstructionEnum::PopDoubleRegister(
            PopDoubleRegister { destination: self.destination, phase },
        )
    }

    /// The opcode of the instruction.
    pub open spec fn spec_encode(self) -> Seq<u8> {
        seq![(0xC1 + 16 * spec_stack_id(self.destination)) as u8]
    }

    /// One machine cycle of the instruction.
    pub open spec fn spec_execute<T: MemoryDevice>(self, cpu: CpuState, memory: T) -> Step<T> {
        match self.phase {
            ThreePhases::First => Step {
                next: self.at(ThreePhases::Second),
                cpu: spec_popped(cpu).with_register(
                    self.destination.spec_id().lsb,
                    spec_top_byte(cpu, memory),
                ),
                memory,
            },
            ThreePhases::Second => Step {
                next: self.at(ThreePhases::Third),
                cpu: spec_popped(cpu).with_register(
                    self.destination.spec_id().msb,
                    spec_top_byte(cpu, memory),
                ),
                memory,
            },
            ThreePhases::Third => load_next(cpu, memory),
        }
    }
}

impl Instruction for PopDoubleRegister {
    open spec fn enumerated(&self) -> InstructionEnum {
        InstructionEnum::PopDoubleRegister(*self)
    }

    fn execute<T: MemoryDevice>(&self, cpu: &mut CpuState, memory: &mut T) -> (next: InstructionEnum)
        ensures
            (Step { next, cpu: *final(cpu), memory: *final(memory) }) == self.spec_execute(
                *old(cpu),
                *old(memory),
            ),
    {
        match self.phase {
            ThreePhases::First => {
                let value = pop_byte(cpu, memory);
                cpu.write_register(self.destination.id().lsb, value);
                InstructionEnum::PopDoubleRegister(
                    PopDoubleRegister { destination: self.destination, phase: ThreePhases::Second },
                )
            },
            ThreePhases::Second => {
                let value = pop_byte(cpu, memory);
                cpu.write_register(self.destination.id().msb, value);
                InstructionEnum::PopDoubleRegister(
                    PopDoubleRegister { destination: self.destination, phase: ThreePhases::Third },
                )
            },
            ThreePhases::Third => cpu.load_instruction(memory),
        }
    }

    fn encode(&self) -> (bytes: Vec<u8>)
        ensures
            bytes@ == self.spec_encode(),
    {
        vec![0xC1 + 16 * stack_id(self.destination)]
    }
}

} // verus!
