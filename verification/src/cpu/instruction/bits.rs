use vstd::prelude::*;
use super::arithmetic::{apply, spec_apply};
use super::{load_next, Instruction, InstructionEnum, Step};
use crate::cpu::alu::{shift, spec_shift, AluResult, ShiftOperation};
use crate::cpu::{Cpu, CpuState, Flag, Register};
use crate::memory::MemoryDevice;

verus! {

/// The four rotations of the accumulator that have an opcode in the first table.
#[derive(Debug, Clone, Copy, PartialEq, Eq, Structural)]
pub enum AccumulatorRotation {
    /// `RLCA`: rotate left; bit 7 goes to bit 0 and to the carry flag.
    LeftCircular,
    /// `RRCA`: rotate right; bit 0 goes to bit 7 and to the carry flag.
    RightCircular,
    /// `RLA`: rotate left through the carry flag.
    Left,
    /// `RRA`: rotate right through the carry flag.
    Right,
}

impl AccumulatorRotation {
    /// The position of the rotation in the opcode table.
    pub open spec fn spec_id(self) -> u8 {
        match self {
            AccumulatorRotation::LeftCircular => 0,
            AccumulatorRotation::RightCircular => 1,
            AccumulatorRotation::Left => 2,
            AccumulatorRotation::Right => 3,
        }
    }

    /// The rotation at a position of the opcode table; positions count modulo four.
    pub open spec fn spec_from_id(id: u8) -> AccumulatorRotation {
        match id % 4 {
            0 => AccumulatorRotation::LeftCircular,
            1 => AccumulatorRotation::RightCircular,
            2 => AccumulatorRotation::Left,
            _ => AccumulatorRotation::Right,
        }
    }

    /// The rotation as an operation of the arithmetic logic unit.
    pub open spec fn spec_operation(self) -> ShiftOperation {
        match self {
            AccumulatorRotation::LeftCircular => ShiftOperation::RotateLeftCircular,
            AccumulatorRotation::RightCircular => ShiftOperation::RotateRightCircular,
            AccumulatorRotation::Left => ShiftOperation::RotateLeft,
            AccumulatorRotation::Right => ShiftOperation::RotateRight,
        }
    }

    /// The position of the rotation in the opcode table.
    pub fn id(&self) -> (id: u8)
        ensures
            id == self.spec_id(),
            id < 4,
    {
        match self {
            AccumulatorRotation::LeftCircular => 0,
            AccumulatorRotation::RightCircular => 1,
            AccumulatorRotation::Left => 2,
            AccumulatorRotation::Right => 3,
        }
    }

    /// The rotation at a position of the opcode table.
    pub fn from_id(id: u8) -> (rotation: AccumulatorRotation)
        ensures
            rotation == AccumulatorRotation::spec_from_id(id),
            rotation.spec_id() == id % 4,
    {
        match id % 4 {
            0 => AccumulatorRotation::LeftCircular,
            1 => AccumulatorRotation::RightCircular,
            2 => AccumulatorRotation::Left,
            _ => AccumulatorRotation::Right,
        }
    }

    /// The rotation as an operation of the arithmetic logic unit.
    pub fn operation(&self) -> (operation: ShiftOperation)
        ensures
            operation == self.spec_operation(),
    {
        match self {
            AccumulatorRotation::LeftCircular => ShiftOperation::RotateLeftCircular,
            AccumulatorRotation::RightCircular => ShiftOperation::RotateRightCircular,
            AccumulatorRotation::Left => ShiftOperation::RotateLeft,
            AccumulatorRotation::Right => ShiftOperation::RotateRight,
        }
    }
}

/// Rotate the accumulator (`RLCA`, `RRCA`, `RLA`, `RRA`).
///
/// | Zero  | Subtract | HalfCarry | Carry                   |
/// |-------|----------|-----------|-------------------------|
/// | false | false    | false     | the bit that moved out  |
#[derive(Debug, Clone, Copy, PartialEq, Eq, Structural)]
pub struct RotateAccumulator {
    /// The rotation.
    pub rotation: AccumulatorRotation,
}

impl RotateAccumulator {
    /// The opcode of the instruction.
    pub open spec fn spec_encode(self) -> Seq<u8> {
        seq![(0x07 + 8 * self.rotation.spec_id()) as u8]
    }

    /// The processor state after the rotation, before the next instruction is loaded.
    pub open spec fn effect(self, cpu: CpuState) -> CpuState {
        spec_apply(
            cpu,
            Register::A,
            AluResult {
                zero: false,
                ..spec_shift(self.rotation.spec_operation(), cpu.a, cpu.carry)
            },
        )
    }

    /// One machine cycle of the instruction.
    pub open spec fn spec_execute<T: MemoryDevice>(self, cpu: CpuState, memory: T) -> Step<T> {
        load_next(self.effect(cpu), memory)
    }
}

impl Instruction for RotateAccumulator {
    open spec fn enumerated(&self) -> InstructionEnum {
        InstructionEnum::RotateAccumulator(*self)
    }

    fn execute<T: MemoryDevice>(&self, cpu: &mut CpuState, memory: &mut T) -> (next: InstructionEnum)
        ensures
            (Step { next, cpu: *final(cpu), memory: *final(memory) }) == self.spec_execute(
                *old(cpu),
                *old(memory),
            ),
    {
        let result = shift(
            self.rotation.operation(),
            cpu.read_register(Register::A),
            cpu.read_flag(Flag::Carry),
        );
        apply(
            cpu,
            Register::A,
            AluResult {
                value: result.value,
                zero: false,
                subtract: result.subtract,
                half_carry: result.half_carry,
                carry: result.carry,
            },
        );
        cpu.load_instruction(memory)
    }

    fn encode(&self) -> (bytes: Vec<u8>)
        ensures
            bytes@ == self.spec_encode(),
    {
        vec![0x07 + 8 * self.rotation.id()]
    }
}

/// Rotate or shift a register (`RLC`, `RRC`, `RL`, `RR`, `SLA`, `SRA`,
/// `SWAP`, `SRL`, behind the prefix `0xCB`).
///
/// | Zero        | Subtract | HalfCarry | Carry                                  |
/// |-------------|----------|-----------|----------------------------------------|
/// | result is 0 | false    | false     | the bit that moved out; false for SWAP |
#[derive(Debug, Clone, Copy, PartialEq, Eq, Structural)]
pub struct Shift {
    /// The operation.
    pub operation: ShiftOperation,
    /// The register that is rotated or shifted.
    pub register: Register,
}

impl Shift {
    /// The opcode of the instruction, behind the prefix.
    pub open spec fn spec_encode(self) -> Seq<u8> {
        seq![(8 * self.operation.spec_id() + self.register.spec_id()) as u8]
    }

    /// The processor state after the operation, before the next instruction is loaded.
    pub open spec fn effect(self, cpu: CpuState) -> CpuState {
        spec_apply(
            cpu,
            self.register,
            spec_shift(self.operation, cpu.register(self.register), cpu.carry),
        )
    }

    /// One machine cycle of the instruction.
    pub open spec fn spec_execute<T: MemoryDevice>(self, cpu: CpuState, memory: T) -> Step<T> {
        load_next(self.effect(cpu), memory)
    }
}

impl Instruction for Shift {
    open spec fn enumerated(&self) -> InstructionEnum {
        InstructionEnum::Shift(*self)
    }

    fn execute<T: MemoryDevice>(&self, cpu: &mut CpuState, memory: &mut T) -> (next: InstructionEnum)
        ensures
            (Step { next, cpu: *final(cpu), memory: *final(memory) }) == self.spec_execute(
                *old(cpu),
                *old(memory),
            ),
    {
        let result = shift(
            self.operation,
            cpu.read_register(self.register),
            cpu.read_flag(Flag::Carry),
        );
        apply(cpu, self.register, result);
        cpu.load_instruction(memory)
    }

    fn encode(&self) -> (bytes: Vec<u8>)
        ensures
            bytes@ == self.spec_encode(),
    {
        vec![8 * self.operation.id() + self.register.id()]
    }
}

/// The byte in which only one bit is set; bits count modulo eight.
pub open spec fn spec_bit_mask(bit: u8) -> u8 {
    1u8 << (bit % 8)
}

/// The byte in which only one bit is set.
pub fn bit_mask(bit: u8) -> (mask: u8)
    ensures
        mask == spec_bit_mask(bit),
{
    1u8 << (bit % 8)
}

/// Test a bit of a register (`BIT b, r`, behind the prefix `0xCB`).
///
/// | Zero                | Subtract | HalfCarry | Carry     |
/// |---------------------|----------|-----------|-----------|
/// | the bit is not set  | false    | true      | unchanged |
#[derive(Debug, Clone, Copy, PartialEq, Eq, Structural)]
pub struct TestBit {
    /// The number of the bit; it counts modulo eight.
    pub bit: u8,
    /// The register that is tested.
    pub register: Register,
}

impl TestBit {
    /// The opcode of the instruction, behind the prefix.
    pub open spec fn spec_encode(self) -> Seq<u8> {
        seq![(0x40 + 8 * (self.bit % 8) + self.register.spec_id()) as u8]
    }

    /// The processor state after the test, before the next instruction is loaded.
    pub open spec fn effect(self, cpu: CpuState) -> CpuState {
        cpu.with_flags(
            cpu.register(self.register) & spec_bit_mask(self.bit) == 0,
            false,
            true,
            cpu.carry,
        )
    }

    /// One machine cycle of the instruction.
    pub open spec fn spec_execute<T: MemoryDevice>(self, cpu: CpuState, memory: T) -> Step<T> {
        load_next(self.effect(cpu), memory)
    }
}

impl Instruction for TestBit {
    open spec fn enumerated(&self) -> InstructionEnum {
        InstructionEnum::TestBit(*self)
    }

    fn execute<T: MemoryDevice>(&self, cpu: &mut CpuState, memory: &mut T) -> (next: InstructionEnum)
        ensures
            (Step { next, cpu: *final(cpu), memory: *final(memory) }) == self.spec_execute(
                *old(cpu),
                *old(memory),
            ),
    {
        let value = cpu.read_register(self.register);
        let carry = cpu.read_flag(Flag::Carry);
        cpu.write_flags(value & bit_mask(self.bit) == 0, false, true, carry);
        cpu.load_instruction(memory)
    }

    fn encode(&self) -> (bytes: Vec<u8>)
        ensures
            bytes@ == self.spec_encode(),
    {
        vec![0x40 + 8 * (self.bit % 8) + self.register.id()]
    }
}

/// Clear a bit of a register (`RES b, r`, behind the prefix `0xCB`). No flag changes.
#[derive(Debug, Clone, Copy, PartialEq, Eq, Structural)]
pub struct ResetBit {
    /// The number of the bit; it counts modulo eight.
    pub bit: u8,
    /// The register that is changed.
    pub register: Register,
}

impl ResetBit {
    /// The opcode of the instruction, behind the prefix.
    pub open spec fn spec_encode(self) -> Seq<u8> {
        seq![(0x80 + 8 * (self.bit % 8) + self.register.spec_id()) as u8]
    }

    /// The processor state after the operation, before the next instruction is loaded.
    pub open spec fn effect(self, cpu: CpuState) -> CpuState {
        cpu.with_register(self.register, cpu.register(self.register) & !spec_bit_mask(self.bit))
    }

    /// One machine cycle of the instruction.
    pub open spec fn spec_execute<T: MemoryDevice>(self, cpu: CpuState, memory: T) -> Step<T> {
        load_next(self.effect(cpu), memory)
    }
}

impl Instruction for ResetBit {
    open spec fn enumerated(&self) -> InstructionEnum {
        InstructionEnum::ResetBit(*self)
    }

    fn execute<T: MemoryDevice>(&self, cpu: &mut CpuState, memory: &mut T) -> (next: InstructionEnum)
        ensures
            (Step { next, cpu: *final(cpu), memory: *final(memory) }) == self.spec_execute(
                *old(cpu),
                *old(memory),
            ),
    {
        let value = cpu.read_register(self.register);
        cpu.write_register(self.register, value & !bit_mask(self.bit));
        cpu.load_instruction(memory)
    }

    fn encode(&self) -> (bytes: Vec<u8>)
        ensures
            bytes@ == self.spec_encode(),
    {
        vec![0x80 + 8 * (self.bit % 8) + self.register.id()]
    }
}

/// Set a bit of a register (`SET b, r`, behind the prefix `0xCB`). No flag changes.
#[derive(Debug, Clone, Copy, PartialEq, Eq, Structural)]
pub struct SetBit {
    /// The number of the bit; it counts modulo eight.
    pub bit: u8,
    /// The register that is changed.
    pub register: Register,
}

impl SetBit {
    /// The opcode of the instruction, behind the prefix.
    pub open spec fn spec_encode(self) -> Seq<u8> {
        seq![(0xC0 + 8 * (self.bit % 8) + self.register.spec_id()) as u8]
    }

    /// The processor state after the operation, before the next instruction is loaded.
    pub open spec fn effect(self, cpu: CpuState) -> CpuState {
        cpu.with_register(self.register, cpu.register(self.register) | spec_bit_mask(self.bit))
    }

    /// One machine cycle of the instruction.
    pub open spec fn spec_execute<T: MemoryDevice>(self, cpu: CpuState, memory: T) -> Step<T> {
        load_next(self.effect(cpu), memory)
    }
}

impl Instruction for SetBit {
    open spec fn enumerated(&self) -> InstructionEnum {
        InstructionEnum::SetBit(*self)
    }

    fn execute<T: MemoryDevice>(&self, cpu: &mut CpuState, memory: &mut T) -> (next: InstructionEnum)
        ensures
            (Step { next, cpu: *final(cpu), memory: *final(memory) }) == self.spec_execute(
                *old(cpu),
                *old(memory),
            ),
    {
        let value = cpu.read_register(self.register);
        cpu.write_register(self.register, value | bit_mask(self.bit));
        cpu.load_instruction(memory)
    }

    fn encode(&self) -> (bytes: Vec<u8>)
        ensures
            bytes@ == self.spec_encode(),
    {
        vec![0xC0 + 8 * (self.bit % 8) + self.register.id()]
    }
}

} // verus!
