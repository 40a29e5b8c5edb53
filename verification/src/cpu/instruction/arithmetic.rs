use vstd::prelude::*;
use super::phases::{FourPhases, TwoPhases};
use super::{load_next, Instruction, InstructionEnum, Step};
use crate::cpu::alu::{
    add_words,
    arithmetic,
    decimal_adjust,
    decrement,
    increment,
    offset_address,
    offset_flags,
    spec_add_words,
    spec_arithmetic,
    spec_decimal_adjust,
    spec_decrement,
    spec_increment,
    spec_offset_address,
    spec_offset_flags,
    AluResult,
    ArithmeticOperation,
};
use crate::cpu::{Cpu, CpuState, DoubleRegister, Flag, Register, WordRegister};
use crate::memory::{
    next_address,
    previous_address,
    reinterpret_signed,
    reinterpret_unsigned,
    unsigned_byte,
    MemoryDevice,
};

verus! {

/// The processor state after a result of the arithmetic logic unit was
/// written: first the value to a register, then the four flags.
pub open spec fn spec_apply(cpu: CpuState, register: Register, result: AluResult) -> CpuState {
    cpu.with_register(register, result.value).with_flags(
        result.zero,
        result.subtract,
        result.half_carry,
        result.carry,
    )
}

/// Write a result of the arithmetic logic unit: first the value to a
/// register, then the four flags.
pub fn apply(cpu: &mut CpuState, register: Register, result: AluResult)
    ensures
        *final(cpu) == spec_apply(*old(cpu), register, result),
{
    cpu.write_register(register, result.value);
    cpu.write_flags(result.zero, result.subtract, result.half_carry, result.carry);
}

/// Combine the accumulator with a register (`ADD`, `ADC`, `SUB`, `SBC`,
/// `AND`, `XOR`, `OR`, `CP`).
///
/// | Operation  | Zero        | Subtract | HalfCarry           | Carry               |
/// |------------|-------------|----------|---------------------|---------------------|
/// | ADD, ADC   | result is 0 | false    | carry out of bit 3  | carry out of bit 7  |
/// | SUB, SBC   | result is 0 | true     | borrow into bit 3   | borrow into bit 7   |
/// | CP         | as SUB      | true     | as SUB              | as SUB              |
/// | AND        | result is 0 | false    | true                | false               |
/// | XOR, OR    | result is 0 | false    | false               | false               |
#[derive(Debug, Clone, Copy, PartialEq, Eq, Structural)]
pub struct Arithmetic {
    /// The operation.
    pub operation: ArithmeticOperation,
    /// The register that holds the second operand.
    pub source: Register,
}

impl Arithmetic {
    /// The opcode of the instruction.
    pub open spec fn spec_encode(self) -> Seq<u8> {
        seq![(0x80 + 8 * self.operation.spec_id() + self.source.spec_id()) as u8]
    }

    /// The processor state after the operation, before the next instruction is loaded.
    pub open spec fn effect(self, cpu: CpuState) -> CpuState {
        spec_apply(
            cpu,
            Register::A,
            spec_arithmetic(self.operation, cpu.a, cpu.register(self.source), cpu.carry),
        )
    }

    /// One machine cycle of the instruction.
    pub open spec fn spec_execute<T: MemoryDevice>(self, cpu: CpuState, memory: T) -> Step<T> {
        load_next(self.effect(cpu), memory)
    }
}

impl Instruction for Arithmetic {
    open spec fn enumerated(&self) -> InstructionEnum {
        InstructionEnum::Arithmetic(*self)
    }

    fn execute<T: MemoryDevice>(&self, cpu: &mut CpuState, memory: &mut T) -> (next: InstructionEnum)
        ensures
            (Step { next, cpu: *final(cpu), memory: *final(memory) }) == self.spec_execute(
                *old(cpu),
                *old(memory),
            ),
    {
        let result = arithmetic(
            self.operation,
            cpu.read_register(Register::A),
            cpu.read_register(self.source),
            cpu.read_flag(Flag::Carry),
        );
        apply(cpu, Register::A, result);
        cpu.load_instruction(memory)
    }

    fn encode(&self) -> (bytes: Vec<u8>)
        ensures
            bytes@ == self.spec_encode(),
    {
        vec![0x80 + 8 * self.operation.id() + self.source.id()]
    }
}

/// Combine the accumulator with the byte behind the opcode (`ADD A, d8`, ...).
/// The flags are those of [`Arithmetic`].
#[derive(Debug, Clone, Copy, PartialEq, Eq, Structural)]
pub struct ArithmeticImmediate {
    /// The operation.
    pub operation: ArithmeticOperation,
    /// The byte behind the opcode, once the first phase has fetched it.
    pub value: u8,
    /// The current phase of the instruction.
    pub phase: TwoPhases,
}

impl ArithmeticImmediate {
    /// The opcode of the instruction.
    pub open spec fn opcode(self) -> u8 {
        (0xC6 + 8 * self.operation.spec_id()) as u8
    }

    /// The opcode, followed by the operand once it is fetched.
    pub open spec fn spec_encode(self) -> Seq<u8> {
        match self.phase {
            TwoPhases::First => seq![self.opcode()],
            TwoPhases::Second => seq![self.opcode()].push(self.value),
        }
    }

    /// One machine cycle of the instruction.
    pub open spec fn spec_execute<T: MemoryDevice>(self, cpu: CpuState, memory: T) -> Step<T> {
        match self.phase {
            TwoPhases::First => Step {
                next: InstructionEnum::ArithmeticImmediate(
                    ArithmeticImmediate {
                        operation: self.operation,
                        value: memory.spec_read(cpu.program_counter),
                        phase: TwoPhases::Second,
                    },
                ),
                cpu: spec_apply(
                    cpu.advanced(),
                    Register::A,
                    spec_arithmetic(
                        self.operation,
                        cpu.a,
                        memory.spec_read(cpu.program_counter),
                        cpu.carry,
                    ),
                ),
                memory,
            },
            TwoPhases::Second => load_next(cpu, memory),
        }
    }
}

impl Instruction for ArithmeticImmediate {
    open spec fn enumerated(&self) -> InstructionEnum {
        InstructionEnum::ArithmeticImmediate(*self)
    }

    fn execute<T: MemoryDevice>(&self, cpu: &mut CpuState, memory: &mut T) -> (next: InstructionEnum)
        ensures
            (Step { next, cpu: *final(cpu), memory: *final(memory) }) == self.spec_execute(
                *old(cpu),
                *old(memory),
            ),
    {
        match self.phase {
            TwoPhases::First => {
                let value = cpu.load_opcode(memory);
                let result = arithmetic(
                    self.operation,
                    cpu.read_register(Register::A),
                    value,
                    cpu.read_flag(Flag::Carry),
                );
                apply(cpu, Register::A, result);
                InstructionEnum::ArithmeticImmediate(
                    ArithmeticImmediate {
                        operation: self.operation,
                        value,
                        phase: TwoPhases::Second,
                    },
                )
            },
            TwoPhases::Second => cpu.load_instruction(memory),
        }
    }

    fn encode(&self) -> (bytes: Vec<u8>)
        ensures
            bytes@ == self.spec_encode(),
    {
        let mut bytes = vec![0xC6 + 8 * self.operation.id()];
        match self.phase {
            TwoPhases::First => {},
            TwoPhases::Second => {
                bytes.push(self.value);
            },
        }
        bytes
    }
}

/// Add one to a register (`INC r`).
///
/// | Zero        | Subtract | HalfCarry           | Carry     |
/// |-------------|----------|---------------------|-----------|
/// | result is 0 | false    | carry out of bit 3  | unchanged |
#[derive(Debug, Clone, Copy, PartialEq, Eq, Structural)]
pub struct IncrementRegister {
    /// The register that is incremented.
    pub register: Register,
}

impl IncrementRegister {
    /// The opcode of the instruction.
    pub open spec fn spec_encode(self) -> Seq<u8> {
        seq![(0x04 + 8 * self.register.spec_id()) as u8]
    }

    /// The processor state after the operation, before the next instruction is loaded.
    pub open spec fn effect(self, cpu: CpuState) -> CpuState {
        spec_apply(cpu, self.register, spec_increment(cpu.register(self.register), cpu.carry))
    }

    /// One machine cycle of the instruction.
    pub open spec fn spec_execute<T: MemoryDevice>(self, cpu: CpuState, memory: T) -> Step<T> {
        load_next(self.effect(cpu), memory)
    }
}

impl Instruction for IncrementRegister {
    open spec fn enumerated(&self) -> InstructionEnum {
        InstructionEnum::IncrementRegister(*self)
    }

    fn execute<T: MemoryDevice>(&self, cpu: &mut CpuState, memory: &mut T) -> (next: InstructionEnum)
        ensures
            (Step { next, cpu: *final(cpu), memory: *final(memory) }) == self.spec_execute(
                *old(cpu),
                *old(memory),
            ),
    {
        let result = increment(cpu.read_register(self.register), cpu.read_flag(Flag::Carry));
        apply(cpu, self.register, result);
        cpu.load_instruction(memory)
    }

    fn encode(&self) -> (bytes: Vec<u8>)
        ensures
            bytes@ == self.spec_encode(),
    {
        vec![0x04 + 8 * self.register.id()]
    }
}

/// Subtract one from a register (`DEC r`).
///
/// | Zero        | Subtract | HalfCarry          | Carry     |
/// |-------------|----------|--------------------|-----------|
/// | result is 0 | true     | borrow into bit 3  | unchanged |
#[derive(Debug, Clone, Copy, PartialEq, Eq, Structural)]
pub struct DecrementRegister {
    /// The register that is decremented.
    pub register: Register,
}

impl DecrementRegister {
    /// The opcode of the instruction.
    pub open spec fn spec_encode(self) -> Seq<u8> {
        seq![(0x05 + 8 * self.register.spec_id()) as u8]
    }

    /// The processor state after the operation, before the next instruction is loaded.
    pub open spec fn effect(self, cpu: CpuState) -> CpuState {
        spec_apply(cpu, self.register, spec_decrement(cpu.register(self.register), cpu.carry))
    }

    /// One machine cycle of the instruction.
    pub open spec fn spec_execute<T: MemoryDevice>(self, cpu: CpuState, memory: T) -> Step<T> {
        load_next(self.effect(cpu), memory)
    }
}

impl Instruction for DecrementRegister {
    open spec fn enumerated(&self) -> InstructionEnum {
        InstructionEnum::DecrementRegister(*self)
    }

    fn execute<T: MemoryDevice>(&self, cpu: &mut CpuState, memory: &mut T) -> (next: InstructionEnum)
        ensures
            (Step { next, cpu: *final(cpu), memory: *final(memory) }) == self.spec_execute(
                *old(cpu),
                *old(memory),
            ),
    {
        let result = decrement(cpu.read_register(self.register), cpu.read_flag(Flag::Carry));
        apply(cpu, self.register, result);
        cpu.load_instruction(memory)
    }

    fn encode(&self) -> (bytes: Vec<u8>)
        ensures
            bytes@ == self.spec_encode(),
    {
        vec![0x05 + 8 * self.register.id()]
    }
}

/// Add one to a 16-bit operand (`INC rr`). No flag changes.
#[derive(Debug, Clone, Copy, PartialEq, Eq, Structural)]
pub struct IncrementDoubleRegister {
    /// The operand that is incremented.
    pub register: WordRegister,
    /// The current phase of the instruction.
    pub phase: TwoPhases,
}

impl IncrementDoubleRegister {
    /// The opcode of the instruction.
    pub open spec fn spec_encode(self) -> Seq<u8> {
        seq![(0x03 + 16 * self.register.spec_id()) as u8]
    }

    /// One machine cycle of the instruction.
    pub open spec fn spec_execute<T: MemoryDevice>(self, cpu: CpuState, memory: T) -> Step<T> {
        match self.phase {
            TwoPhases::First => Step {
                next: InstructionEnum::IncrementDoubleRegister(
                    IncrementDoubleRegister { register: self.register, phase: TwoPhases::Second },
                ),
                cpu: cpu.with_word_register(
                    self.register,
                    next_address(cpu.word_register(self.register)),
                ),
                memory,
            },
            TwoPhases::Second => load_next(cpu, memory),
        }
    }
}

impl Instruction for IncrementDoubleRegister {
    open spec fn enumerated(&self) -> InstructionEnum {
        InstructionEnum::IncrementDoubleRegister(*self)
    }

    fn execute<T: MemoryDevice>(&self, cpu: &mut CpuState, memory: &mut T) -> (next: InstructionEnum)
        ensures
            (Step { next, cpu: *final(cpu), memory: *final(memory) }) == self.spec_execute(
                *old(cpu),
                *old(memory),
            ),
    {
        match self.phase {
            TwoPhases::First => {
                let value = cpu.read_word_register(self.register);
                cpu.write_word_register(self.register, value.wrapping_add(1));
                InstructionEnum::IncrementDoubleRegister(
                    IncrementDoubleRegister { register: self.register, phase: TwoPhases::Second },
                )
            },
            TwoPhases::Second => cpu.load_instruction(memory),
        }
    }

    fn encode(&self) -> (bytes: Vec<u8>)
        ensures
            bytes@ == self.spec_encode(),
    {
        vec![0x03 + 16 * self.register.id()]
    }
}

/// Subtract one from a 16-bit operand (`DEC rr`). No flag changes.
#[derive(Debug, Clone, Copy, PartialEq, Eq, Structural)]
pub struct DecrementDoubleRegister {
    /// The operand that is decremented.
    pub register: WordRegister,
    /// The current phase of the instruction.
    pub phase: TwoPhases,
}

impl DecrementDoubleRegister {
    /// The opcode of the instruction.
    pub open spec fn spec_encode(self) -> Seq<u8> {
        seq![(0x0B + 16 * self.register.spec_id()) as u8]
    }

    /// One machine cycle of the instruction.
    pub open spec fn spec_execute<T: MemoryDevice>(self, cpu: CpuState, memory: T) -> Step<T> {
        match self.phase {
            TwoPhases::First => Step {
                next: InstructionEnum::DecrementDoubleRegister(
                    DecrementDoubleRegister { register: self.register, phase: TwoPhases::Second },
                ),
                cpu: cpu.with_word_register(
                    self.register,
                    previous_address(cpu.word_register(self.register)),
                ),
                memory,
            },
            TwoPhases::Second => load_next(cpu, memory),
        }
    }
}

impl Instruction for DecrementDoubleRegister {
    open spec fn enumerated(&self) -> InstructionEnum {
        InstructionEnum::DecrementDoubleRegister(*self)
    }

    fn execute<T: MemoryDevice>(&self, cpu: &mut CpuState, memory: &mut T) -> (next: InstructionEnum)
        ensures
            (Step { next, cpu: *final(cpu), memory: *final(memory) }) == self.spec_execute(
                *old(cpu),
                *old(memory),
            ),
    {
        match self.phase {
            TwoPhases::First => {
                let value = cpu.read_word_register(self.register);
                cpu.write_word_register(self.register, value.wrapping_sub(1));
                InstructionEnum::DecrementDoubleRegister(
                    DecrementDoubleRegister { register: self.register, phase: TwoPhases::Second },
                )
            },
            TwoPhases::Second => cpu.load_instruction(memory),
        }
    }

    fn encode(&self) -> (bytes: Vec<u8>)
        ensures
            bytes@ == self.spec_encode(),
    {
        vec![0x0B + 16 * self.register.id()]
    }
}

/// Add a 16-bit operand to `HL` (`ADD HL, rr`).
///
/// | Zero      | Subtract | HalfCarry            | Carry                |
/// |-----------|----------|----------------------|----------------------|
/// | unchanged | false    | carry out of bit 11  | carry out of bit 15  |
#[derive(Debug, Clone, Copy, PartialEq, Eq, Structural)]
pub struct AddToHl {
    /// The operand that is added.
    pub source: WordRegister,
    /// The current phase of the instruction.
    pub phase: TwoPhases,
}

impl AddToHl {
    /// The opcode of the instruction.
    pub open spec fn spec_encode(self) -> Seq<u8> {
        seq![(0x09 + 16 * self.source.spec_id()) as u8]
    }

    /// The processor state after the addition.
    pub open spec fn effect(self, cpu: CpuState) -> CpuState {
        let sum = spec_add_words(
            cpu.double_register(DoubleRegister::HL),
            cpu.word_register(self.source),
        );
        cpu.with_double_register(DoubleRegister::HL, sum.0).with_flags(
            cpu.zero,
            false,
            sum.1,
            sum.2,
        )
    }

    /// One machine cycle of the instruction.
    pub open spec fn spec_execute<T: MemoryDevice>(self, cpu: CpuState, memory: T) -> Step<T> {
        match self.phase {
            TwoPhases::First => Step {
                next: InstructionEnum::AddToHl(
                    AddToHl { source: self.source, phase: TwoPhases::Second },
                ),
                cpu: self.effect(cpu),
                memory,
            },
            TwoPhases::Second => load_next(cpu, memory),
        }
    }
}

impl Instruction for AddToHl {
    open spec fn enumerated(&self) -> InstructionEnum {
        InstructionEnum::AddToHl(*self)
    }

    fn execute<T: MemoryDevice>(&self, cpu: &mut CpuState, memory: &mut T) -> (next: InstructionEnum)
        ensures
            (Step { next, cpu: *final(cpu), memory: *final(memory) }) == self.spec_execute(
                *old(cpu),
                *old(memory),
            ),
    {
        match self.phase {
            TwoPhases::First => {
                let sum = add_words(
                    cpu.read_double_register(DoubleRegister::HL),
                    cpu.read_word_register(self.source),
                );
                let zero = cpu.read_flag(Flag::Zero);
                cpu.write_double_register(DoubleRegister::HL, sum.0);
                cpu.write_flags(zero, false, sum.1, sum.2);
                InstructionEnum::AddToHl(AddToHl { source: self.source, phase: TwoPhases::Second })
            },
            TwoPhases::Second => cpu.load_instruction(memory),
        }
    }

    fn encode(&self) -> (bytes: Vec<u8>)
        ensures
            bytes@ == self.spec_encode(),
    {
        vec![0x09 + 16 * self.source.id()]
    }
}

/// Add the signed byte behind the opcode to the stack pointer (`ADD SP, r8`).
///
/// | Zero  | Subtract | HalfCarry           | Carry               |
/// |-------|----------|---------------------|---------------------|
/// | false | false    | carry out of bit 3  | carry out of bit 7  |
#[derive(Debug, Clone, Copy, PartialEq, Eq, Structural)]
pub struct AddOffsetToStackPointer {
    /// The signed byte behind the opcode, once the first phase has fetched it.
    pub offset: i8,
    /// The current phase of the instruction.
    pub phase: FourPhases,
}

impl AddOffsetToStackPointer {
    /// The same instruction with another operand and phase.
    pub open spec fn at(offset: i8, phase: FourPhases) -> InstructionEnum {
        InstructionEnum::AddOffsetToStackPointer(AddOffsetToStackPointer { offset, phase })
    }

    /// The opcode, followed by the operand once it is fetched.
    pub open spec fn spec_encode(self) -> Seq<u8> {
        match self.phase {
            FourPhases::First => seq![0xE8u8],
            _ => seq![0xE8u8].push(reinterpret_unsigned(self.offset)),
        }
    }

    /// The processor state after the addition.
    pub open spec fn effect(self, cpu: CpuState) -> CpuState {
        cpu.with_stack_pointer(spec_offset_address(cpu.stack_pointer, self.offset)).with_flags(
            false,
            false,
            spec_offset_flags(cpu.stack_pointer, self.offset).0,
            spec_offset_flags(cpu.stack_pointer, self.offset).1,
        )
    }

    /// One machine cycle of the instruction.
    pub open spec fn spec_execute<T: MemoryDevice>(self, cpu: CpuState, memory: T) -> Step<T> {
        match self.phase {
            FourPhases::First => Step {
                next: AddOffsetToStackPointer::at(
                    reinterpret_signed(memory.spec_read(cpu.program_counter)),
                    FourPhases::Second,
                ),
                cpu: cpu.advanced(),
                memory,
            },
            FourPhases::Second => Step {
                next: AddOffsetToStackPointer::at(self.offset, FourPhases::Third),
                cpu: self.effect(cpu),
                memory,
            },
            FourPhases::Third => Step {
                next: AddOffsetToStackPointer::at(self.offset, FourPhases::Fourth),
                cpu,
                memory,
            },
            FourPhases::Fourth => load_next(cpu, memory),
        }
    }
}

impl Instruction for AddOffsetToStackPointer {
    open spec fn enumerated(&self) -> InstructionEnum {
        InstructionEnum::AddOffsetToStackPointer(*self)
    }

    fn execute<T: MemoryDevice>(&self, cpu: &mut CpuState, memory: &mut T) -> (next: InstructionEnum)
        ensures
            (Step { next, cpu: *final(cpu), memory: *final(memory) }) == self.spec_execute(
                *old(cpu),
                *old(memory),
            ),
    {
        match self.phase {
            FourPhases::First => {
                let address = cpu.advance_program_counter();
                let offset = memory.read_signed(address);
                InstructionEnum::AddOffsetToStackPointer(
                    AddOffsetToStackPointer { offset, phase: FourPhases::Second },
                )
            },
            FourPhases::Second => {
                let stack_pointer = cpu.read_stack_pointer();
                let flags = offset_flags(stack_pointer, self.offset);
                cpu.write_stack_pointer(offset_address(stack_pointer, self.offset));
                cpu.write_flags(false, false, flags.0, flags.1);
                InstructionEnum::AddOffsetToStackPointer(
                    AddOffsetToStackPointer { offset: self.offset, phase: FourPhases::Third },
                )
            },
            FourPhases::Third => InstructionEnum::AddOffsetToStackPointer(
                AddOffsetToStackPointer { offset: self.offset, phase: FourPhases::Fourth },
            ),
            FourPhases::Fourth => cpu.load_instruction(memory),
        }
    }

    fn encode(&self) -> (bytes: Vec<u8>)
        ensures
            bytes@ == self.spec_encode(),
    {
        let mut bytes = vec![0xE8u8];
        match self.phase {
            FourPhases::First => {},
            _ => {
                bytes.push(unsigned_byte(self.offset));
            },
        }
        bytes
    }
}

/// Adjust the accumulator to a binary coded decimal after an addition or a
/// subtraction (`DAA`).
///
/// | Zero        | Subtract  | HalfCarry | Carry                                   |
/// |-------------|-----------|-----------|-----------------------------------------|
/// | result is 0 | unchanged | false     | set if 0x60 was added, else unchanged   |
#[derive(Debug, Clone, Copy, PartialEq, Eq, Structural)]
pub struct DecimalAdjust {}

impl DecimalAdjust {
    /// The opcode of the instruction.
    pub open spec fn spec_encode(self) -> Seq<u8> {
        seq![0x27u8]
    }

    /// The processor state after the adjustment, before the next instruction is loaded.
    pub open spec fn effect(cpu: CpuState) -> CpuState {
        spec_apply(
            cpu,
            Register::A,
            spec_decimal_adjust(cpu.a, cpu.subtract, cpu.half_carry, cpu.carry),
        )
    }

    /// One machine cycle of the instruction.
    pub open spec fn spec_execute<T: MemoryDevice>(self, cpu: CpuState, memory: T) -> Step<T> {
        load_next(DecimalAdjust::effect(cpu), memory)
    }
}

impl Instruction for DecimalAdjust {
    open spec fn enumerated(&self) -> InstructionEnum {
        InstructionEnum::DecimalAdjust(*self)
    }

    fn execute<T: MemoryDevice>(&self, cpu: &mut CpuState, memory: &mut T) -> (next: InstructionEnum)
        ensures
            (Step { next, cpu: *final(cpu), memory: *final(memory) }) == self.spec_execute(
                *old(cpu),
                *old(memory),
            ),
    {
        let result = decimal_adjust(
            cpu.read_register(Register::A),
            cpu.read_flag(Flag::Subtract),
            cpu.read_flag(Flag::HalfCarry),
            cpu.read_flag(Flag::Carry),
        );
        apply(cpu, Register::A, result);
        cpu.load_instruction(memory)
    }

    fn encode(&self) -> (bytes: Vec<u8>)
        ensures
            bytes@ == self.spec_encode(),
    {
        vec![0x27u8]
    }
}

/// Invert every bit of the accumulator (`CPL`).
///
/// | Zero      | Subtract | HalfCarry | Carry     |
/// |-----------|----------|-----------|-----------|
/// | unchanged | true     | true      | unchanged |
#[derive(Debug, Clone, Copy, PartialEq, Eq, Structural)]
pub struct Complement {}

impl Complement {
    /// The opcode of the instruction.
    pub open spec fn spec_encode(self) -> Seq<u8> {
        seq![0x2Fu8]
    }

    /// The processor state after the operation, before the next instruction is loaded.
    pub open spec fn effect(cpu: CpuState) -> CpuState {
        CpuState { a: !cpu.a, subtract: true, half_carry: true, ..cpu }
    }

    /// One machine cycle of the instruction.
    pub open spec fn spec_execute<T: MemoryDevice>(self, cpu: CpuState, memory: T) -> Step<T> {
        load_next(Complement::effect(cpu), memory)
    }
}

impl Instruction for Complement {
    open spec fn enumerated(&self) -> InstructionEnum {
        InstructionEnum::Complement(*self)
    }

    fn execute<T: MemoryDevice>(&self, cpu: &mut CpuState, memory: &mut T) -> (next: InstructionEnum)
        ensures
            (Step { next, cpu: *final(cpu), memory: *final(memory) }) == self.spec_execute(
                *old(cpu),
                *old(memory),
            ),
    {
        let value = cpu.read_register(Register::A);
        cpu.write_register(Register::A, !value);
        cpu.write_flag(Flag::Subtract, true);
        cpu.write_flag(Flag::HalfCarry, true);
        cpu.load_instruction(memory)
    }

    fn encode(&self) -> (bytes: Vec<u8>)
        ensures
            bytes@ == self.spec_encode(),
    {
        vec![0x2Fu8]
    }
}

} // verus!
