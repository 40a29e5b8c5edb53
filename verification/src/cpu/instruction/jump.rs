use vstd::prelude::*;
use super::phases::{FourPhases, ThreePhases};
use super::{load_next, Instruction, InstructionEnum, Step};
use crate::cpu::alu::{offset_address, spec_offset_address};
use crate::cpu::{get_high_byte, get_low_byte, high_byte, join_bytes, low_byte, make_word};
use crate::cpu::{Cpu, CpuState, DoubleRegister, Flag};
use crate::memory::{reinterpret_signed, reinterpret_unsigned, unsigned_byte, MemoryDevice};

verus! {

/// The condition of a conditional jump, call or return.
#[derive(Debug, Clone, Copy, PartialEq, Eq, Structural)]
pub enum Condition {
    /// The zero flag is not set.
    NotZero,
    /// The zero flag is set.
    Zero,
    /// The carry flag is not set.
    NotCarry,
    /// The carry flag is set.
    Carry,
}

impl Condition {
    /// The position of the condition in the opcode table.
    pub open spec fn spec_id(self) -> u8 {
        match self {
            Condition::NotZero => 0,
            Condition::Zero => 1,
            Condition::NotCarry => 2,
            Condition::Carry => 3,
        }
    }

    /// The condition at a position of the opcode table; positions count modulo four.
    pub open spec fn spec_from_id(id: u8) -> Condition {
        match id % 4 {
            0 => Condition::NotZero,
            1 => Condition::Zero,
            2 => Condition::NotCarry,
            _ => Condition::Carry,
        }
    }

    /// Whether the condition holds in a processor state.
    pub open spec fn spec_holds(self, cpu: CpuState) -> bool {
        match self {
            Condition::NotZero => !cpu.zero,
            Condition::Zero => cpu.zero,
            Condition::NotCarry => !cpu.carry,
            Condition::Carry => cpu.carry,
        }
    }

    /// The position of the condition in the opcode table.
    pub fn id(&self) -> (id: u8)
        ensures
            id == self.spec_id(),
            id < 4,
    {
        match self {
            Condition::NotZero => 0,
            Condition::Zero => 1,
            Condition::NotCarry => 2,
            Condition::Carry => 3,
        }
    }

    /// The condition at a position of the opcode table.
    pub fn from_id(id: u8) -> (condition: Condition)
        ensures
            condition == Condition::spec_from_id(id),
            condition.spec_id() == id % 4,
    {
        match id % 4 {
            0 => Condition::NotZero,
            1 => Condition::Zero,
            2 => Condition::NotCarry,
            _ => Condition::Carry,
        }
    }

    /// Whether the condition holds in a processor state.
    pub fn holds(&self, cpu: &CpuState) -> (holds: bool)
        ensures
            holds == self.spec_holds(*cpu),
    {
        match self {
            Condition::NotZero => !cpu.read_flag(Flag::Zero),
            Condition::Zero => cpu.read_flag(Flag::Zero),
            Condition::NotCarry => !cpu.read_flag(Flag::Carry),
            Condition::Carry => cpu.read_flag(Flag::Carry),
        }
    }
}

/// The bytes of an instruction with a 16-bit operand, as far as its phases
/// have fetched them: the first phase has fetched nothing, the second the
/// low byte, the later ones both bytes.
pub open spec fn spec_encode_word(opcode: u8, operand: u16, fetched: nat) -> Seq<u8> {
    if fetched == 0 {
        seq![opcode]
    } else if fetched == 1 {
        seq![opcode].push(low_byte(operand))
    } else {
        seq![opcode].push(low_byte(operand)).push(high_byte(operand))
    }
}

/// The bytes of an instruction with a 16-bit operand, as far as they are fetched.
pub fn encode_word(opcode: u8, operand: u16, fetched: u8) -> (bytes: Vec<u8>)
    ensures
        bytes@ == spec_encode_word(opcode, operand, fetched as nat),
{
    let mut bytes = vec![opcode];
    if fetched >= 1 {
        bytes.push(get_low_byte(operand));
    }
    if fetched >= 2 {
        bytes.push(get_high_byte(operand));
    }
    bytes
}

/// How many operand bytes an instruction of four phases has fetched.
pub open spec fn spec_fetched(phase: FourPhases) -> nat {
    match phase {
        FourPhases::First => 0,
        FourPhases::Second => 1,
        _ => 2,
    }
}

/// How many operand bytes an instruction of four phases has fetched.
pub fn fetched(phase: FourPhases) -> (count: u8)
    ensures
        count == spec_fetched(phase),
{
    match phase {
        FourPhases::First => 0,
        FourPhases::Second => 1,
        _ => 2,
    }
}

/// Continue at the address behind the opcode (`JP a16`).
///
/// The first phase fetches the low byte of the address, the second the high
/// byte and sets the program counter; the third is idle, the fourth loads
/// the next instruction.
#[derive(Debug, Clone, Copy, PartialEq, Eq, Structural)]
pub struct Jump {
    /// The address behind the opcode, as far as it is fetched.
    pub address: u16,
    /// The current phase of the instruction.
    pub phase: FourPhases,
}

impl Jump {
    /// The same instruction with another address and phase.
    pub open spec fn at(address: u16, phase: FourPhases) -> InstructionEnum {
        InstructionEnum::Jump(Jump { address, phase })
    }

    /// The opcode, followed by the operand bytes that are fetched.
    pub open spec fn spec_encode(self) -> Seq<u8> {
        spec_encode_word(0xC3, self.address, spec_fetched(self.phase))
    }

    /// One machine cycle of the instruction.
    pub open spec fn spec_execute<T: MemoryDevice>(self, cpu: CpuState, memory: T) -> Step<T> {
        match self.phase {
            FourPhases::First => Step {
                next: Jump::at(
                    join_bytes(0, memory.spec_read(cpu.program_counter)),
                    FourPhases::Second,
                ),
                cpu: cpu.advanced(),
                memory,
            },
            FourPhases::Second => {
                let address = join_bytes(
                    memory.spec_read(cpu.program_counter),
                    low_byte(self.address),
                );
                Step {
                    next: Jump::at(address, FourPhases::Third),
                    cpu: cpu.with_program_counter(address),
                    memory,
                }
            },
            FourPhases::Third => Step {
                next: Jump::at(self.address, FourPhases::Fourth),
                cpu,
                memory,
            },
            FourPhases::Fourth => load_next(cpu, memory),
        }
    }
}

impl Instruction for Jump {
    open spec fn enumerated(&self) -> InstructionEnum {
        InstructionEnum::Jump(*self)
    }

    fn execute<T: MemoryDevice>(&self, cpu: &mut CpuState, memory: &mut T) -> (next: InstructionEnum)
        ensures
            (Step { next, cpu: *final(cpu), memory: *final(memory) }) == self.spec_execute(
                *old(cpu),
                *old(memory),
            ),
    {
        match self.phase {
            FourPhases::First => {
                let low = cpu.load_opcode(memory);
                InstructionEnum::Jump(Jump { address: make_word(0, low), phase: FourPhases::Second })
            },
            FourPhases::Second => {
                let high = memory.read(cpu.read_program_counter());
                let address = make_word(high, get_low_byte(self.address));
                cpu.write_program_counter(address);
                InstructionEnum::Jump(Jump { address, phase: FourPhases::Third })
            },
            FourPhases::Third => InstructionEnum::Jump(
                Jump { address: self.address, phase: FourPhases::Fourth },
            ),
            FourPhases::Fourth => cpu.load_instruction(memory),
        }
    }

    fn encode(&self) -> (bytes: Vec<u8>)
        ensures
            bytes@ == self.spec_encode(),
    {
        encode_word(0xC3, self.address, fetched(self.phase))
    }
}

/// Continue at the address behind the opcode if a condition holds
/// (`JP cc, a16`).
///
/// The first phase fetches the low byte of the address, the second the high
/// byte. If the condition holds, the second phase sets the program counter
/// and an idle third phase follows; if not, the fourth phase follows at once.
/// The fourth phase loads the next instruction.
#[derive(Debug, Clone, Copy, PartialEq, Eq, Structural)]
pub struct JumpConditional {
    /// The condition under which the jump is taken.
    pub condition: Condition,
    /// The address behind the opcode, as far as it is fetched.
    pub address: u16,
    /// The current phase of the instruction.
    pub phase: FourPhases,
}

impl JumpConditional {
    /// The same instruction with another address and phase.
    pub open spec fn at(self, address: u16, phase: FourPhases) -> InstructionEnum {
        InstructionEnum::JumpConditional(
            JumpConditional { condition: self.condition, address, phase },
        )
    }

    /// The opcode, followed by the operand bytes that are fetched.
    pub open spec fn spec_encode(self) -> Seq<u8> {
        spec_encode_word(
            (0xC2 + 8 * self.condition.spec_id()) as u8,
            self.address,
            spec_fetched(self.phase),
        )
    }

    /// One machine cycle of the instruction.
    pub open spec fn spec_execute<T: MemoryDevice>(self, cpu: CpuState, memory: T) -> Step<T> {
        match self.phase {
            FourPhases::First => Step {
                next: self.at(
                    join_bytes(0, memory.spec_read(cpu.program_counter)),
                    FourPhases::Second,
                ),
                cpu: cpu.advanced(),
                memory,
            },
            FourPhases::Second => {
                let address = join_bytes(
                    memory.spec_read(cpu.program_counter),
                    low_byte(self.address),
                );
                if self.condition.spec_holds(cpu) {
                    Step {
                        next: self.at(address, FourPhases::Third),
                        cpu: cpu.with_program_counter(address),
                        memory,
                    }
                } else {
                    Step { next: self.at(address, FourPhases::Fourth), cpu: cpu.advanced(), memory }
                }
            },
            FourPhases::Third => Step {
                next: self.at(self.address, FourPhases::Fourth),
                cpu,
                memory,
            },
            FourPhases::Fourth => load_next(cpu, memory),
        }
    }
}

impl Instruction for JumpConditional {
    open spec fn enumerated(&self) -> InstructionEnum {
        InstructionEnum::JumpConditional(*self)
    }

    fn execute<T: MemoryDevice>(&self, cpu: &mut CpuState, memory: &mut T) -> (next: InstructionEnum)
        ensures
            (Step { next, cpu: *final(cpu), memory: *final(memory) }) == self.spec_execute(
                *old(cpu),
                *old(memory),
            ),
    {
        match self.phase {
            FourPhases::First => {
                let low = cpu.load_opcode(memory);
                InstructionEnum::JumpConditional(
                    JumpConditional {
                        condition: self.condition,
                        address: make_word(0, low),
                        phase: FourPhases::Second,
                    },
                )
            },
            FourPhases::Second => {
                let high = cpu.load_opcode(memory);
                let address = make_word(high, get_low_byte(self.address));
                if self.condition.holds(cpu) {
                    cpu.write_program_counter(address);
                    InstructionEnum::JumpConditional(
                        JumpConditional {
                            condition: self.condition,
                            address,
                            phase: FourPhases::Third,
                        },
                    )
                } else {
                    InstructionEnum::JumpConditional(
                        JumpConditional {
                            condition: self.condition,
                            address,
                            phase: FourPhases::Fourth,
                        },
                    )
                }
            },
            FourPhases::Third => InstructionEnum::JumpConditional(
                JumpConditional {
                    condition: self.condition,
                    address: self.address,
                    phase: FourPhases::Fourth,
                },
            ),
            FourPhases::Fourth => cpu.load_instruction(memory),
        }
    }

    fn encode(&self) -> (bytes: Vec<u8>)
        ensures
            bytes@ == self.spec_encode(),
    {
        encode_word(0xC2 + 8 * self.condition.id(), self.address, fetched(self.phase))
    }
}

/// Continue at a signed distance, the byte behind the opcode, from the
/// instruction that follows (`JR r8`).
///
/// The first phase fetches the distance, the second sets the program
/// counter, the third loads the next instruction.
#[derive(Debug, Clone, Copy, PartialEq, Eq, Structural)]
pub struct JumpRelative {
    /// The signed byte behind the opcode, once the first phase has fetched it.
    pub offset: i8,
    /// The current phase of the instruction.
    pub phase: ThreePhases,
}

impl JumpRelative {
    /// The opcode, followed by the operand once it is fetched.
    pub open spec fn spec_encode(self) -> Seq<u8> {
        match self.phase {
            ThreePhases::First => seq![0x18u8],
            _ => seq![0x18u8].push(reinterpret_unsigned(self.offset)),
        }
    }

    /// One machine cycle of the instruction.
    pub open spec fn spec_execute<T: MemoryDevice>(self, cpu: CpuState, memory: T) -> Step<T> {
        match self.phase {
            ThreePhases::First => Step {
                next: InstructionEnum::JumpRelative(
                    JumpRelative {
                        offset: reinterpret_signed(memory.spec_read(cpu.program_counter)),
                        phase: ThreePhases::Second,
                    },
                ),
                cpu: cpu.advanced(),
                memory,
            },
            ThreePhases::Second => Step {
                next: InstructionEnum::JumpRelative(
                    JumpRelative { offset: self.offset, phase: ThreePhases::Third },
                ),
                cpu: cpu.with_program_counter(
                    spec_offset_address(cpu.program_counter, self.offset),
                ),
                memory,
            },
            ThreePhases::Third => load_next(cpu, memory),
        }
    }
}

impl Instruction for JumpRelative {
    open spec fn enumerated(&self) -> InstructionEnum {
        InstructionEnum::JumpRelative(*self)
    }

    fn execute<T: MemoryDevice>(&self, cpu: &mut CpuState, memory: &mut T) -> (next: InstructionEnum)
        ensures
            (Step { next, cpu: *final(cpu), memory: *final(memory) }) == self.spec_execute(
                *old(cpu),
                *old(memory),
            ),
    {
        match self.phase {
            ThreePhases::First => {
                let address = cpu.advance_program_counter();
                let offset = memory.read_signed(address);
                InstructionEnum::JumpRelative(JumpRelative { offset, phase: ThreePhases::Second })
            },
            ThreePhases::Second => {
                let target = offset_address(cpu.read_program_counter(), self.offset);
                cpu.write_program_counter(target);
                InstructionEnum::JumpRelative(
                    JumpRelative { offset: self.offset, phase: ThreePhases::Third },
                )
            },
            ThreePhases::Third => cpu.load_instruction(memory),
        }
    }

    fn encode(&self) -> (bytes: Vec<u8>)
        ensures
            bytes@ == self.spec_encode(),
    {
        let mut bytes = vec![0x18u8];
        match self.phase {
            ThreePhases::First => {},
            _ => {
                bytes.push(unsigned_byte(self.offset));
            },
        }
        bytes
    }
}

/// Continue at a signed distance from the instruction that follows if a
/// condition holds (`JR cc, r8`).
///
/// The first phase fetches the distance. If the condition holds, the second
/// phase sets the program counter; if not, the third phase follows at once.
/// The third phase loads the next instruction.
#[derive(Debug, Clone, Copy, PartialEq, Eq, Structural)]
pub struct JumpRelativeConditional {
    /// The condition under which the jump is taken.
    pub condition: Condition,
    /// The signed byte behind the opcode, once the first phase has fetched it.
    pub offset: i8,
    /// The current phase of the instruction.
    pub phase: ThreePhases,
}

impl JumpRelativeConditional {
    /// The same instruction with another distance and phase.
    pub open spec fn at(self, offset: i8, phase: ThreePhases) -> InstructionEnum {
        InstructionEnum::JumpRelativeConditional(
            JumpRelativeConditional { condition: self.condition, offset, phase },
        )
    }

    /// The opcode of the instruction.
    pub open spec fn opcode(self) -> u8 {
        (0x20 + 8 * self.condition.spec_id()) as u8
    }

    /// The opcode, followed by the operand once it is fetched.
    pub open spec fn spec_encode(self) -> Seq<u8> {
        match self.phase {
            ThreePhases::First => seq![self.opcode()],
            _ => seq![self.opcode()].push(reinterpret_unsigned(self.offset)),
        }
    }

    /// One machine cycle of the instruction.
    pub open spec fn spec_execute<T: MemoryDevice>(self, cpu: CpuState, memory: T) -> Step<T> {
        match self.phase {
            ThreePhases::First => Step {
                next: self.at(
                    reinterpret_signed(memory.spec_read(cpu.program_counter)),
                    if self.condition.spec_holds(cpu) {
                        ThreePhases::Second
                    } else {
                        ThreePhases::Third
                    },
                ),
                cpu: cpu.advanced(),
                memory,
            },
            ThreePhases::Second => Step {
                next: self.at(self.offset, ThreePhases::Third),
                cpu: cpu.with_program_counter(
                    spec_offset_address(cpu.program_counter, self.offset),
                ),
                memory,
            },
            ThreePhases::Third => load_next(cpu, memory),
        }
    }
}

impl Instruction for JumpRelativeConditional {
    open spec fn enumerated(&self) -> InstructionEnum {
        InstructionEnum::JumpRelativeConditional(*self)
    }

    fn execute<T: MemoryDevice>(&self, cpu: &mut CpuState, memory: &mut T) -> (next: InstructionEnum)
        ensures
            (Step { next, cpu: *final(cpu), memory: *final(memory) }) == self.spec_execute(
                *old(cpu),
                *old(memory),
            ),
    {
        match self.phase {
            ThreePhases::First => {
                let address = cpu.advance_program_counter();
                let offset = memory.read_signed(address);
                let phase = if self.condition.holds(cpu) {
                    ThreePhases::Second
                } else {
                    ThreePhases::Third
                };
                InstructionEnum::JumpRelativeConditional(
                    JumpRelativeConditional { condition: self.condition, offset, phase },
                )
            },
            ThreePhases::Second => {
                let target = offset_address(cpu.read_program_counter(), self.offset);
                cpu.write_program_counter(target);
                InstructionEnum::JumpRelativeConditional(
                    JumpRelativeConditional {
                        condition: self.condition,
                        offset: self.offset,
                        phase: ThreePhases::Third,
                    },
                )
            },
            ThreePhases::Third => cpu.load_instruction(memory),
        }
    }

    fn encode(&self) -> (bytes: Vec<u8>)
        ensures
            bytes@ == self.spec_encode(),
    {
        let mut bytes = vec![0x20 + 8 * self.condition.id()];
        match self.phase {
            ThreePhases::First => {},
            _ => {
                bytes.push(unsigned_byte(self.offset));
            },
        }
        bytes
    }
}

/// Continue at the address in `HL` (`JP HL`).
#[derive(Debug, Clone, Copy, PartialEq, Eq, Structural)]
pub struct JumpToHl {}

impl JumpToHl {
    /// The opcode of the instruction.
    pub open spec fn spec_encode(self) -> Seq<u8> {
        seq![0xE9u8]
    }

    /// One machine cycle of the instruction.
    pub open spec fn spec_execute<T: MemoryDevice>(self, cpu: CpuState, memory: T) -> Step<T> {
        load_next(cpu.with_program_counter(cpu.double_register(DoubleRegister::HL)), memory)
    }
}

impl Instruction for JumpToHl {
    open spec fn enumerated(&self) -> InstructionEnum {
        InstructionEnum::JumpToHl(*self)
    }

    fn execute<T: MemoryDevice>(&self, cpu: &mut CpuState, memory: &mut T) -> (next: InstructionEnum)
        ensures
            (Step { next, cpu: *final(cpu), memory: *final(memory) }) == self.spec_execute(
                *old(cpu),
                *old(memory),
            ),
    {
        let address = cpu.read_double_register(DoubleRegister::HL);
        cpu.write_program_counter(address);
        cpu.load_instruction(memory)
    }

    fn encode(&self) -> (bytes: Vec<u8>)
        ensures
            bytes@ == self.spec_encode(),
    {
        vec![0xE9u8]
    }
}

} // verus!
