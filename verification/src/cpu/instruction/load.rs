use vstd::prelude::*;
use super::phases::{FivePhases, ThreePhases, TwoPhases};
use super::{load_next, Instruction, InstructionEnum, Step};
use crate::cpu::alu::{offset_address, offset_flags, spec_offset_address, spec_offset_flags};
use crate::cpu::{get_high_byte, get_low_byte, high_byte, join_bytes, low_byte, make_word};
use crate::cpu::{Cpu, CpuState, DoubleRegister, Register, WordRegister};
use crate::memory::{
    next_address,
    reinterpret_signed,
    reinterpret_unsigned,
    unsigned_byte,
    MemoryDevice,
};

verus! {

/// Copy the content of one register to another (`LD r, r'`). No flag changes.
#[derive(Debug, Clone, Copy, PartialEq, Eq, Structural)]
pub struct LoadFromRegisterToRegister {
    /// The register that is read.
    pub source: Register,
    /// The register that is written.
    pub destination: Register,
}

impl LoadFromRegisterToRegister {
    /// The opcode of the instruction.
    pub open spec fn spec_encode(self) -> Seq<u8> {
        seq![(0x40 + 8 * self.source.spec_id() + self.destination.spec_id()) as u8]
    }

    /// One machine cycle of the instruction.
    pub open spec fn spec_execute<T: MemoryDevice>(self, cpu: CpuState, memory: T) -> Step<T> {
        load_next(cpu.with_register(self.destination, cpu.register(self.source)), memory)
    }
}

impl Instruction for LoadFromRegisterToRegister {
    open spec fn enumerated(&self) -> InstructionEnum {
        InstructionEnum::LoadFromRegisterToRegister(*self)
    }

    fn execute<T: MemoryDevice>(&self, cpu: &mut CpuState, memory: &mut T) -> (next: InstructionEnum)
        ensures
            (Step { next, cpu: *final(cpu), memory: *final(memory) }) == self.spec_execute(
                *old(cpu),
                *old(memory),
            ),
    {
        let value = cpu.read_register(self.source);
        cpu.write_register(self.destination, value);
        cpu.load_instruction(memory)
    }

    fn encode(&self) -> (bytes: Vec<u8>)
        ensures
            bytes@ == self.spec_encode(),
    {
        vec![0x40 + 8 * self.source.id() + self.destination.id()]
    }
}

/// Load the byte behind the opcode into a register (`LD r, d8`).
#[derive(Debug, Clone, Copy, PartialEq, Eq, Structural)]
pub struct LoadImmediateToRegister {
    /// The register that is written.
    pub destination: Register,
    /// The byte behind the opcode, once the first phase has fetched it.
    pub value: u8,
    /// The current phase of the instruction.
    pub phase: TwoPhases,
}

impl LoadImmediateToRegister {
    /// The opcode of the instruction.
    pub open spec fn opcode(self) -> u8 {
        (0x06 + 8 * self.destination.spec_id()) as u8
    }

    /// The opcode, followed by the operand once it is fetched.
    pub open spec fn spec_encode(self) -> Seq<u8> {
        match self.phase {
            TwoPhases::First => seq![self.opcode()],
            TwoPhases::Second => seq![self.opcode()].push(self.value),
        }
    }

    /// One machine cycle of the instruction.
    pub open spec fn spec_execute<T: MemoryDevice>(self, cpu: CpuState, memory: T) -> Step<T> {
        match self.phase {
            TwoPhases::First => Step {
                next: InstructionEnum::LoadImmediateToRegister(
                    LoadImmediateToRegister {
                        destination: self.destination,
                        value: memory.spec_read(cpu.program_counter),
                        phase: TwoPhases::Second,
                    },
                ),
                cpu: cpu.advanced().with_register(
                    self.destination,
                    memory.spec_read(cpu.program_counter),
                ),
                memory,
            },
            TwoPhases::Second => load_next(cpu, memory),
        }
    }
}

impl Instruction for LoadImmediateToRegister {
    open spec fn enumerated(&self) -> InstructionEnum {
        InstructionEnum::LoadImmediateToRegister(*self)
    }

    fn execute<T: MemoryDevice>(&self, cpu: &mut CpuState, memory: &mut T) -> (next: InstructionEnum)
        ensures
            (Step { next, cpu: *final(cpu), memory: *final(memory) }) == self.spec_execute(
                *old(cpu),
                *old(memory),
            ),
    {
        match self.phase {
            TwoPhases::First => {
                let value = cpu.load_opcode(memory);
                cpu.write_register(self.destination, value);
                InstructionEnum::LoadImmediateToRegister(
                    LoadImmediateToRegister {
                        destination: self.destination,
                        value,
                        phase: TwoPhases::Second,
                    },
                )
            },
            TwoPhases::Second => cpu.load_instruction(memory),
        }
    }

    fn encode(&self) -> (bytes: Vec<u8>)
        ensures
            bytes@ == self.spec_encode(),
    {
        let mut bytes = vec![0x06 + 8 * self.destination.id()];
        match self.phase {
            TwoPhases::First => {},
            TwoPhases::Second => {
                bytes.push(self.value);
            },
        }
        bytes
    }
}

/// Load the two bytes behind the opcode into a 16-bit operand (`LD rr, d16`).
/// The low byte comes first.
#[derive(Debug, Clone, Copy, PartialEq, Eq, Structural)]
pub struct LoadImmediateToDoubleRegister {
    /// The operand that is written.
    pub destination: WordRegister,
    /// The value behind the opcode, as far as it is fetched.
    pub value: u16,
    /// The current phase of the instruction.
    pub phase: ThreePhases,
}

impl LoadImmediateToDoubleRegister {
    /// The opcode of the instruction.
    pub open spec fn opcode(self) -> u8 {
        (0x01 + 16 * self.destination.spec_id()) as u8
    }

    /// The opcode, followed by the operand bytes that are fetched.
    pub open spec fn spec_encode(self) -> Seq<u8> {
        match self.phase {
            ThreePhases::First => seq![self.opcode()],
            ThreePhases::Second => seq![self.opcode()].push(low_byte(self.value)),
            ThreePhases::Third => seq![self.opcode()].push(low_byte(self.value)).push(
                high_byte(self.value),
            ),
        }
    }

    /// One machine cycle of the instruction.
    pub open spec fn spec_execute<T: MemoryDevice>(self, cpu: CpuState, memory: T) -> Step<T> {
        match self.phase {
            ThreePhases::First => Step {
                next: InstructionEnum::LoadImmediateToDoubleRegister(
                    LoadImmediateToDoubleRegister {
                        destination: self.destination,
                        value: join_bytes(0, memory.spec_read(cpu.program_counter)),
                        phase: ThreePhases::Second,
                    },
                ),
                cpu: cpu.advanced(),
                memory,
            },
            ThreePhases::Second => {
                let value = join_bytes(
                    memory.spec_read(cpu.program_counter),
                    low_byte(self.value),
                );
                Step {
                    next: InstructionEnum::LoadImmediateToDoubleRegister(
                        LoadImmediateToDoubleRegister {
                            destination: self.destination,
                            value,
                            phase: ThreePhases::Third,
                        },
                    ),
                    cpu: cpu.advanced().with_word_register(self.destination, value),
                    memory,
                }
            },
            ThreePhases::Third => load_next(cpu, memory),
        }
    }
}

impl Instruction for LoadImmediateToDoubleRegister {
    open spec fn enumerated(&self) -> InstructionEnum {
        InstructionEnum::LoadImmediateToDoubleRegister(*self)
    }

    fn execute<T: MemoryDevice>(&self, cpu: &mut CpuState, memory: &mut T) -> (next: InstructionEnum)
        ensures
            (Step { next, cpu: *final(cpu), memory: *final(memory) }) == self.spec_execute(
                *old(cpu),
                *old(memory),
            ),
    {
        match self.phase {
            ThreePhases::First => {
                let low = cpu.load_opcode(memory);
                InstructionEnum::LoadImmediateToDoubleRegister(
                    LoadImmediateToDoubleRegister {
                        destination: self.destination,
                        value: make_word(0, low),
                        phase: ThreePhases::Second,
                    },
                )
            },
            ThreePhases::Second => {
                let high = cpu.load_opcode(memory);
                let value = make_word(high, get_low_byte(self.value));
                cpu.write_word_register(self.destination, value);
                InstructionEnum::LoadImmediateToDoubleRegister(
                    LoadImmediateToDoubleRegister {
                        destination: self.destination,
                        value,
                        phase: ThreePhases::Third,
                    },
                )
            },
            ThreePhases::Third => cpu.load_instruction(memory),
        }
    }

    fn encode(&self) -> (bytes: Vec<u8>)
        ensures
            bytes@ == self.spec_encode(),
    {
        let mut bytes = vec![0x01 + 16 * self.destination.id()];
        match self.phase {
            ThreePhases::First => {},
            ThreePhases::Second => {
                bytes.push(get_low_byte(self.value));
            },
            ThreePhases::Third => {
                bytes.push(get_low_byte(self.value));
                bytes.push(get_high_byte(self.value));
            },
        }
        bytes
    }
}

/// Copy `HL` to the stack pointer (`LD SP, HL`).
#[derive(Debug, Clone, Copy, PartialEq, Eq, Structural)]
pub struct LoadHlToStackPointer {
    /// The current phase of the instruction.
    pub phase: TwoPhases,
}

impl LoadHlToStackPointer {
    /// The opcode of the instruction.
    pub open spec fn spec_encode(self) -> Seq<u8> {
        seq![0xF9u8]
    }

    /// One machine cycle of the instruction.
    pub open spec fn spec_execute<T: MemoryDevice>(self, cpu: CpuState, memory: T) -> Step<T> {
        match self.phase {
            TwoPhases::First => Step {
                next: InstructionEnum::LoadHlToStackPointer(
                    LoadHlToStackPointer { phase: TwoPhases::Second },
                ),
                cpu: cpu.with_stack_pointer(cpu.double_register(DoubleRegister::HL)),
                memory,
            },
            TwoPhases::Second => load_next(cpu, memory),
        }
    }
}

impl Instruction for LoadHlToStackPointer {
    open spec fn enumerated(&self) -> InstructionEnum {
        InstructionEnum::LoadHlToStackPointer(*self)
    }

    fn execute<T: MemoryDevice>(&self, cpu: &mut CpuState, memory: &mut T) -> (next: InstructionEnum)
        ensures
            (Step { next, cpu: *final(cpu), memory: *final(memory) }) == self.spec_execute(
                *old(cpu),
                *old(memory),
            ),
    {
        match self.phase {
            TwoPhases::First => {
                let value = cpu.read_double_register(DoubleRegister::HL);
                cpu.write_stack_pointer(value);
                InstructionEnum::LoadHlToStackPointer(
                    LoadHlToStackPointer { phase: TwoPhases::Second },
                )
            },
            TwoPhases::Second => cpu.load_instruction(memory),
        }
    }

    fn encode(&self) -> (bytes: Vec<u8>)
        ensures
            bytes@ == self.spec_encode(),
    {
        vec![0xF9u8]
    }
}

/// Load the stack pointer plus the signed byte behind the opcode into `HL`
/// (`LD HL, SP+r8`).
///
/// | Zero  | Subtract | HalfCarry           | Carry               |
/// |-------|----------|---------------------|---------------------|
/// | false | false    | carry out of bit 3  | carry out of bit 7  |
#[derive(Debug, Clone, Copy, PartialEq, Eq, Structural)]
pub struct LoadStackPointerOffsetToHl {
    /// The signed byte behind the opcode, once the first phase has fetched it.
    pub offset: i8,
    /// The current phase of the instruction.
    pub phase: ThreePhases,
}

impl LoadStackPointerOffsetToHl {
    /// The opcode, followed by the operand once it is fetched.
    pub open spec fn spec_encode(self) -> Seq<u8> {
        match self.phase {
            ThreePhases::First => seq![0xF8u8],
            _ => seq![0xF8u8].push(reinterpret_unsigned(self.offset)),
        }
    }

    /// The processor state after the sum was loaded into `HL`.
    pub open spec fn effect(self, cpu: CpuState) -> CpuState {
        cpu.with_double_register(
            DoubleRegister::HL,
            spec_offset_address(cpu.stack_pointer, self.offset),
        ).with_flags(
            false,
            false,
            spec_offset_flags(cpu.stack_pointer, self.offset).0,
            spec_offset_flags(cpu.stack_pointer, self.offset).1,
        )
    }

    /// One machine cycle of the instruction.
    pub open spec fn spec_execute<T: MemoryDevice>(self, cpu: CpuState, memory: T) -> Step<T> {
        match self.phase {
            ThreePhases::First => Step {
                next: InstructionEnum::LoadStackPointerOffsetToHl(
                    LoadStackPointerOffsetToHl {
                        offset: reinterpret_signed(memory.spec_read(cpu.program_counter)),
                        phase: ThreePhases::Second,
                    },
                ),
                cpu: cpu.advanced(),
                memory,
            },
            ThreePhases::Second => Step {
                next: InstructionEnum::LoadStackPointerOffsetToHl(
                    LoadStackPointerOffsetToHl { offset: self.offset, phase: ThreePhases::Third },
                ),
                cpu: self.effect(cpu),
                memory,
            },
            ThreePhases::Third => load_next(cpu, memory),
        }
    }
}

impl Instruction for LoadStackPointerOffsetToHl {
    open spec fn enumerated(&self) -> InstructionEnum {
        InstructionEnum::LoadStackPointerOffsetToHl(*self)
    }

    fn execute<T: MemoryDevice>(&self, cpu: &mut CpuState, memory: &mut T) -> (next: InstructionEnum)
        ensures
            (Step { next, cpu: *final(cpu), memory: *final(memory) }) == self.spec_execute(
                *old(cpu),
                *old(memory),
            ),
    {
        match self.phase {
            ThreePhases::First => {
                let address = cpu.advance_program_counter();
                let offset = memory.read_signed(address);
                InstructionEnum::LoadStackPointerOffsetToHl(
                    LoadStackPointerOffsetToHl { offset, phase: ThreePhases::Second },
                )
            },
            ThreePhases::Second => {
                let stack_pointer = cpu.read_stack_pointer();
                let flags = offset_flags(stack_pointer, self.offset);
                cpu.write_double_register(
                    DoubleRegister::HL,
                    offset_address(stack_pointer, self.offset),
                );
                cpu.write_flags(false, false, flags.0, flags.1);
                InstructionEnum::LoadStackPointerOffsetToHl(
                    LoadStackPointerOffsetToHl { offset: self.offset, phase: ThreePhases::Third },
                )
            },
            ThreePhases::Third => cpu.load_instruction(memory),
        }
    }

    fn encode(&self) -> (bytes: Vec<u8>)
        ensures
            bytes@ == self.spec_encode(),
    {
        let mut bytes = vec![0xF8u8];
        match self.phase {
            ThreePhases::First => {},
            _ => {
                bytes.push(unsigned_byte(self.offset));
            },
        }
        bytes
    }
}

/// Store the stack pointer at the address behind the opcode (`LD (a16), SP`),
/// the low byte first.
#[derive(Debug, Clone, Copy, PartialEq, Eq, Structural)]
pub struct StoreStackPointer {
    /// The address behind the opcode, as far as it is fetched.
    pub address: u16,
    /// The current phase of the instruction.
    pub phase: FivePhases,
}

impl StoreStackPointer {
    /// The same instruction in another phase.
    pub open spec fn at(self, address: u16, phase: FivePhases) -> InstructionEnum {
        InstructionEnum::StoreStackPointer(StoreStackPointer { address, phase })
    }

    /// The opcode, followed by the operand bytes that are fetched.
    pub open spec fn spec_encode(self) -> Seq<u8> {
        match self.phase {
            FivePhases::First => seq![0x08u8],
            FivePhases::Second => seq![0x08u8].push(low_byte(self.address)),
            _ => seq![0x08u8].push(low_byte(self.address)).push(high_byte(self.address)),
        }
    }

    /// One machine cycle of the instruction.
    pub open spec fn spec_execute<T: MemoryDevice>(self, cpu: CpuState, memory: T) -> Step<T> {
        match self.phase {
            FivePhases::First => Step {
                next: self.at(
                    join_bytes(0, memory.spec_read(cpu.program_counter)),
                    FivePhases::Second,
                ),
                cpu: cpu.advanced(),
                memory,
            },
            FivePhases::Second => Step {
                next: self.at(
                    join_bytes(memory.spec_read(cpu.program_counter), low_byte(self.address)),
                    FivePhases::Third,
                ),
                cpu: cpu.advanced(),
                memory,
            },
            FivePhases::Third => Step {
                next: self.at(self.address, FivePhases::Fourth),
                cpu,
                memory: memory.spec_write(self.address, low_byte(cpu.stack_pointer)),
            },
            FivePhases::Fourth => Step {
                next: self.at(self.address, FivePhases::Fifth),
                cpu,
                memory: memory.spec_write(
                    next_address(self.address),
                    high_byte(cpu.stack_pointer),
                ),
            },
            FivePhases::Fifth => load_next(cpu, memory),
        }
    }
}

impl Instruction for StoreStackPointer {
    open spec fn enumerated(&self) -> InstructionEnum {
        InstructionEnum::StoreStackPointer(*self)
    }

    fn execute<T: MemoryDevice>(&self, cpu: &mut CpuState, memory: &mut T) -> (next: InstructionEnum)
        ensures
            (Step { next, cpu: *final(cpu), memory: *final(memory) }) == self.spec_execute(
                *old(cpu),
                *old(memory),
            ),
    {
        match self.phase {
            FivePhases::First => {
                let low = cpu.load_opcode(memory);
                InstructionEnum::StoreStackPointer(
                    StoreStackPointer { address: make_word(0, low), phase: FivePhases::Second },
                )
            },
            FivePhases::Second => {
                let high = cpu.load_opcode(memory);
                InstructionEnum::StoreStackPointer(
                    StoreStackPointer {
                        address: make_word(high, get_low_byte(self.address)),
                        phase: FivePhases::Third,
                    },
                )
            },
            FivePhases::Third => {
                memory.write(self.address, get_low_byte(cpu.read_stack_pointer()));
                InstructionEnum::StoreStackPointer(
                    StoreStackPointer { address: self.address, phase: FivePhases::Fourth },
                )
            },
            FivePhases::Fourth => {
                memory.write(
                    self.address.wrapping_add(1),
                    get_high_byte(cpu.read_stack_pointer()),
                );
                InstructionEnum::StoreStackPointer(
                    StoreStackPointer { address: self.address, phase: FivePhases::Fifth },
                )
            },
            FivePhases::Fifth => cpu.load_instruction(memory),
        }
    }

    fn encode(&self) -> (bytes: Vec<u8>)
        ensures
            bytes@ == self.spec_encode(),
    {
        let mut bytes = vec![0x08u8];
        match self.phase {
            FivePhases::First => {},
            FivePhases::Second => {
                bytes.push(get_low_byte(self.address));
            },
            _ => {
                bytes.push(get_low_byte(self.address));
                bytes.push(get_high_byte(self.address));
            },
        }
        bytes
    }
}

} // verus!
