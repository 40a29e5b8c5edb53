use vstd::prelude::*;
use super::phases::{FourPhases, ThreePhases, TwoPhases};
use super::{load_next, Instruction, InstructionEnum, Step};
use crate::cpu::{get_high_byte, get_low_byte, high_byte, join_bytes, low_byte, make_word};
use crate::cpu::{Cpu, CpuState, DoubleRegister, Register};
use crate::memory::{next_address, previous_address, MemoryDevice};

verus! {

/// The direction of a transfer between the accumulator and the memory.
#[derive(Debug, Clone, Copy, PartialEq, Eq, Structural)]
pub enum Direction {
    /// The accumulator is written to the memory.
    Store,
    /// The accumulator is read from the memory.
    Load,
}

/// The processor state and the memory after a transfer between the
/// accumulator and the byte at an address.
pub open spec fn spec_transfer<T: MemoryDevice>(
    direction: Direction,
    cpu: CpuState,
    memory: T,
    address: u16,
) -> (CpuState, T) {
    match direction {
        Direction::Store => (cpu, memory.spec_write(address, cpu.a)),
        Direction::Load => (cpu.with_register(Register::A, memory.spec_read(address)), memory),
    }
}

/// Transfer a byte between the accumulator and the memory.
pub fn transfer<T: MemoryDevice>(
    direction: Direction,
    cpu: &mut CpuState,
    memory: &mut T,
    address: u16,
)
    ensures
        (*final(cpu), *final(memory)) == spec_transfer(direction, *old(cpu), *old(memory), address),
{
    match direction {
        Direction::Store => {
            memory.write(address, cpu.read_register(Register::A));
        },
        Direction::Load => {
            let value = memory.read(address);
            cpu.write_register(Register::A, value);
        },
    }
}

/// The address in the last page of the memory, `0xFF00` to `0xFFFF`, at an offset.
pub open spec fn spec_high_address(offset: u8) -> u16 {
    (0xFF00 + offset) as u16
}

/// The address in the last page of the memory at an offset.
pub fn high_address(offset: u8) -> (address: u16)
    ensures
        address == spec_high_address(offset),
{
    0xFF00 + offset as u16
}

/// Where an indirect transfer finds its address.
#[derive(Debug, Clone, Copy, PartialEq, Eq, Structural)]
pub enum IndirectAddress {
    /// The address is in `BC`.
    BC,
    /// The address is in `DE`.
    DE,
    /// The address is in `HL`, which is incremented after the transfer.
    HLIncrement,
    /// The address is in `HL`, which is decremented after the transfer.
    HLDecrement,
}

impl IndirectAddress {
    /// The position in the opcode table.
    pub open spec fn spec_id(self) -> u8 {
        match self {
            IndirectAddress::BC => 0,
            IndirectAddress::DE => 1,
            IndirectAddress::HLIncrement => 2,
            IndirectAddress::HLDecrement => 3,
        }
    }

    /// The way to find an address at a position of the opcode table;
    /// positions count modulo four.
    pub open spec fn spec_from_id(id: u8) -> IndirectAddress {
        match id % 4 {
            0 => IndirectAddress::BC,
            1 => IndirectAddress::DE,
            2 => IndirectAddress::HLIncrement,
            _ => IndirectAddress::HLDecrement,
        }
    }

    /// The double register that holds the address.
    pub open spec fn spec_register(self) -> DoubleRegister {
        match self {
            IndirectAddress::BC => DoubleRegister::BC,
            IndirectAddress::DE => DoubleRegister::DE,
            _ => DoubleRegister::HL,
        }
    }

    /// The content of the double register after the transfer.
    pub open spec fn spec_adjusted(self, address: u16) -> u16 {
        match self {
            IndirectAddress::HLIncrement => next_address(address),
            IndirectAddress::HLDecrement => previous_address(address),
            _ => address,
        }
    }

    /// The position in the opcode table.
    pub fn id(&self) -> (id: u8)
        ensures
            id == self.spec_id(),
            id < 4,
    {
        match self {
            IndirectAddress::BC => 0,
            IndirectAddress::DE => 1,
            IndirectAddress::HLIncrement => 2,
            IndirectAddress::HLDecrement => 3,
        }
    }

    /// The way to find an address at a position of the opcode table.
    pub fn from_id(id: u8) -> (address: IndirectAddress)
        ensures
            address == IndirectAddress::spec_from_id(id),
            address.spec_id() == id % 4,
    {
        match id % 4 {
            0 => IndirectAddress::BC,
            1 => IndirectAddress::DE,
            2 => IndirectAddress::HLIncrement,
            _ => IndirectAddress::HLDecrement,
        }
    }

    /// The double register that holds the address.
    pub fn register(&self) -> (register: DoubleRegister)
        ensures
            register == self.spec_register(),
    {
        match self {
            IndirectAddress::BC => DoubleRegister::BC,
            IndirectAddress::DE => DoubleRegister::DE,
            _ => DoubleRegister::HL,
        }
    }

    /// The content of the double register after the transfer.
    pub fn adjusted(&self, address: u16) -> (adjusted: u16)
        ensures
            adjusted == self.spec_adjusted(address),
    {
        match self {
            IndirectAddress::HLIncrement => address.wrapping_add(1),
            IndirectAddress::HLDecrement => address.wrapping_sub(1),
            _ => address,
        }
    }
}

/// Transfer a byte between the accumulator and the address in a double
/// register (`LD (BC), A`, `LD A, (DE)`, `LD (HL+), A`, `LD A, (HL-)`, ...).
#[derive(Debug, Clone, Copy, PartialEq, Eq, Structural)]
pub struct AccumulatorIndirect {
    /// Whether the accumulator is stored or loaded.
    pub direction: Direction,
    /// Where the address is found.
    pub address: IndirectAddress,
    /// The current phase of the instruction.
    pub phase: TwoPhases,
}

impl AccumulatorIndirect {
    /// The opcode of the instruction.
    pub open spec fn spec_encode(self) -> Seq<u8> {
        seq![(match self.direction {
            Direction::Store => 0x02int,
            Direction::Load => 0x0Aint,
        } + 16 * self.address.spec_id()) as u8]
    }

    /// The processor state and the memory after the transfer.
    pub open spec fn effect<T: MemoryDevice>(self, cpu: CpuState, memory: T) -> (CpuState, T) {
        let address = cpu.double_register(self.address.spec_register());
        let transferred = spec_transfer(self.direction, cpu, memory, address);
        (
            transferred.0.with_double_register(
                self.address.spec_register(),
                self.address.spec_adjusted(address),
            ),
            transferred.1,
        )
    }

    /// One machine cycle of the instruction.
    pub open spec fn spec_execute<T: MemoryDevice>(self, cpu: CpuState, memory: T) -> Step<T> {
        match self.phase {
            TwoPhases::First => Step {
                next: InstructionEnum::AccumulatorIndirect(
                    AccumulatorIndirect { phase: TwoPhases::Second, ..self },
                ),
                cpu: self.effect(cpu, memory).0,
                memory: self.effect(cpu, memory).1,
            },
            TwoPhases::Second => load_next(cpu, memory),
        }
    }
}

impl Instruction for AccumulatorIndirect {
    open spec fn enumerated(&self) -> InstructionEnum {
        InstructionEnum::AccumulatorIndirect(*self)
    }

    fn execute<T: MemoryDevice>(&self, cpu: &mut CpuState, memory: &mut T) -> (next: InstructionEnum)
        ensures
            (Step { next, cpu: *final(cpu), memory: *final(memory) }) == self.spec_execute(
                *old(cpu),
                *old(memory),
            ),
    {
        match self.phase {
            TwoPhases::First => {
                let register = self.address.register();
                let address = cpu.read_double_register(register);
                transfer(self.direction, cpu, memory, address);
                cpu.write_double_register(register, self.address.adjusted(address));
                InstructionEnum::AccumulatorIndirect(
                    AccumulatorIndirect {
                        direction: self.direction,
                        address: self.address,
                        phase: TwoPhases::Second,
                    },
                )
            },
            TwoPhases::Second => cpu.load_instruction(memory),
        }
    }

    fn encode(&self) -> (bytes: Vec<u8>)
        ensures
            bytes@ == self.spec_encode(),
    {
        let base: u8 = match self.direction {
            Direction::Store => 0x02,
            Direction::Load => 0x0A,
        };
        vec![base + 16 * self.address.id()]
    }
}

/// Transfer a byte between the accumulator and the address `0xFF00` plus the
/// byte behind the opcode (`LDH (a8), A` and `LDH A, (a8)`).
#[derive(Debug, Clone, Copy, PartialEq, Eq, Structural)]
pub struct AccumulatorHigh {
    /// Whether the accumulator is stored or loaded.
    pub direction: Direction,
    /// The byte behind the opcode, once the first phase has fetched it.
    pub offset: u8,
    /// The current phase of the instruction.
    pub phase: ThreePhases,
}

impl AccumulatorHigh {
    /// The opcode of the instruction.
    pub open spec fn opcode(self) -> u8 {
        match self.direction {
            Direction::Store => 0xE0,
            Direction::Load => 0xF0,
        }
    }

    /// The opcode, followed by the operand once it is fetched.
    pub open spec fn spec_encode(self) -> Seq<u8> {
        match self.phase {
            ThreePhases::First => seq![self.opcode()],
            _ => seq![self.opcode()].push(self.offset),
        }
    }

    /// One machine cycle of the instruction.
    pub open spec fn spec_execute<T: MemoryDevice>(self, cpu: CpuState, memory: T) -> Step<T> {
        match self.phase {
            ThreePhases::First => Step {
                next: InstructionEnum::AccumulatorHigh(
                    AccumulatorHigh {
                        offset: memory.spec_read(cpu.program_counter),
                        phase: ThreePhases::Second,
                        ..self
                    },
                ),
                cpu: cpu.advanced(),
                memory,
            },
            ThreePhases::Second => Step {
                next: InstructionEnum::AccumulatorHigh(
                    AccumulatorHigh { phase: ThreePhases::Third, ..self },
                ),
                cpu: spec_transfer(self.direction, cpu, memory, spec_high_address(self.offset)).0,
                memory: spec_transfer(
                    self.direction,
                    cpu,
                    memory,
                    spec_high_address(self.offset),
                ).1,
            },
            ThreePhases::Third => load_next(cpu, memory),
        }
    }
}

impl Instruction for AccumulatorHigh {
    open spec fn enumerated(&self) -> InstructionEnum {
        InstructionEnum::AccumulatorHigh(*self)
    }

    fn execute<T: MemoryDevice>(&self, cpu: &mut CpuState, memory: &mut T) -> (next: InstructionEnum)
        ensures
            (Step { next, cpu: *final(cpu), memory: *final(memory) }) == self.spec_execute(
                *old(cpu),
                *old(memory),
            ),
    {
        match self.phase {
            ThreePhases::First => {
                let offset = cpu.load_opcode(memory);
                InstructionEnum::AccumulatorHigh(
                    AccumulatorHigh {
                        direction: self.direction,
                        offset,
                        phase: ThreePhases::Second,
                    },
                )
            },
            ThreePhases::Second => {
                transfer(self.direction, cpu, memory, high_address(self.offset));
                InstructionEnum::AccumulatorHigh(
                    AccumulatorHigh {
                        direction: self.direction,
                        offset: self.offset,
                        phase: ThreePhases::Third,
                    },
                )
            },
            ThreePhases::Third => cpu.load_instruction(memory),
        }
    }

    fn encode(&self) -> (bytes: Vec<u8>)
        ensures
            bytes@ == self.spec_encode(),
    {
        let mut bytes = vec![match self.direction {
            Direction::Store => 0xE0u8,
            Direction::Load => 0xF0u8,
        }];
        match self.phase {
            ThreePhases::First => {},
            _ => {
                bytes.push(self.offset);
            },
        }
        bytes
    }
}

/// Transfer a byte between the accumulator and the address `0xFF00` plus the
/// content of register `C` (`LD (C), A` and `LD A, (C)`).
#[derive(Debug, Clone, Copy, PartialEq, Eq, Structural)]
pub struct AccumulatorAtC {
    /// Whether the accumulator is stored or loaded.
    pub direction: Direction,
    /// The current phase of the instruction.
    pub phase: TwoPhases,
}

impl AccumulatorAtC {
    /// The opcode of the instruction.
    pub open spec fn spec_encode(self) -> Seq<u8> {
        seq![match self.direction {
            Direction::Store => 0xE2u8,
            Direction::Load => 0xF2u8,
        }]
    }

    /// One machine cycle of the instruction.
    pub open spec fn spec_execute<T: MemoryDevice>(self, cpu: CpuState, memory: T) -> Step<T> {
        match self.phase {
            TwoPhases::First => Step {
                next: InstructionEnum::AccumulatorAtC(
                    AccumulatorAtC { phase: TwoPhases::Second, ..self },
                ),
                cpu: spec_transfer(self.direction, cpu, memory, spec_high_address(cpu.c)).0,
                memory: spec_transfer(self.direction, cpu, memory, spec_high_address(cpu.c)).1,
            },
            TwoPhases::Second => load_next(cpu, memory),
        }
    }
}

impl Instruction for AccumulatorAtC {
    open spec fn enumerated(&self) -> InstructionEnum {
        InstructionEnum::AccumulatorAtC(*self)
    }

    fn execute<T: MemoryDevice>(&self, cpu: &mut CpuState, memory: &mut T) -> (next: InstructionEnum)
        ensures
            (Step { next, cpu: *final(cpu), memory: *final(memory) }) == self.spec_execute(
                *old(cpu),
                *old(memory),
            ),
    {
        match self.phase {
            TwoPhases::First => {
                let offset = cpu.read_register(Register::C);
                transfer(self.direction, cpu, memory, high_address(offset));
                InstructionEnum::AccumulatorAtC(
                    AccumulatorAtC { direction: self.direction, phase: TwoPhases::Second },
                )
            },
            TwoPhases::Second => cpu.load_instruction(memory),
        }
    }

    fn encode(&self) -> (bytes: Vec<u8>)
        ensures
            bytes@ == self.spec_encode(),
    {
        vec![match self.direction {
            Direction::Store => 0xE2u8,
            Direction::Load => 0xF2u8,
        }]
    }
}

/// Transfer a byte between the accumulator and the address behind the opcode
/// (`LD (a16), A` and `LD A, (a16)`).
#[derive(Debug, Clone, Copy, PartialEq, Eq, Structural)]
pub struct AccumulatorDirect {
    /// Whether the accumulator is stored or loaded.
    pub direction: Direction,
    /// The address behind the opcode, as far as it is fetched.
    pub address: u16,
    /// The current phase of the instruction.
    pub phase: FourPhases,
}

impl AccumulatorDirect {
    /// The opcode of the instruction.
    pub open spec fn opcode(self) -> u8 {
        match self.direction {
            Direction::Store => 0xEA,
            Direction::Load => 0xFA,
        }
    }

    /// The opcode, followed by the operand bytes that are fetched.
    pub open spec fn spec_encode(self) -> Seq<u8> {
        match self.phase {
            FourPhases::First => seq![self.opcode()],
            FourPhases::Second => seq![self.opcode()].push(low_byte(self.address)),
            _ => seq![self.opcode()].push(low_byte(self.address)).push(high_byte(self.address)),
        }
    }

    /// One machine cycle of the instruction.
    pub open spec fn spec_execute<T: MemoryDevice>(self, cpu: CpuState, memory: T) -> Step<T> {
        match self.phase {
            FourPhases::First => Step {
                next: InstructionEnum::AccumulatorDirect(
                    AccumulatorDirect {
                        address: join_bytes(0, memory.spec_read(cpu.program_counter)),
                        phase: FourPhases::Second,
                        ..self
                    },
                ),
                cpu: cpu.advanced(),
                memory,
            },
            FourPhases::Second => Step {
                next: InstructionEnum::AccumulatorDirect(
                    AccumulatorDirect {
                        address: join_bytes(
                            memory.spec_read(cpu.program_counter),
                            low_byte(self.address),
                        ),
                        phase: FourPhases::Third,
                        ..self
                    },
                ),
                cpu: cpu.advanced(),
                memory,
            },
            FourPhases::Third => Step {
                next: InstructionEnum::AccumulatorDirect(
                    AccumulatorDirect { phase: FourPhases::Fourth, ..self },
                ),
                cpu: spec_transfer(self.direction, cpu, memory, self.address).0,
                memory: spec_transfer(self.direction, cpu, memory, self.address).1,
            },
            FourPhases::Fourth => load_next(cpu, memory),
        }
    }
}

impl Instruction for AccumulatorDirect {
    open spec fn enumerated(&self) -> InstructionEnum {
        InstructionEnum::AccumulatorDirect(*self)
    }

    fn execute<T: MemoryDevice>(&self, cpu: &mut CpuState, memory: &mut T) -> (next: InstructionEnum)
        ensures
            (Step { next, cpu: *final(cpu), memory: *final(memory) }) == self.spec_execute(
                *old(cpu),
                *old(memory),
            ),
    {
        match self.phase {
            FourPhases::First => {
                let low = cpu.load_opcode(memory);
                InstructionEnum::AccumulatorDirect(
                    AccumulatorDirect {
                        direction: self.direction,
                        address: make_word(0, low),
                        phase: FourPhases::Second,
                    },
                )
            },
            FourPhases::Second => {
                let high = cpu.load_opcode(memory);
                InstructionEnum::AccumulatorDirect(
                    AccumulatorDirect {
                        direction: self.direction,
                        address: make_word(high, get_low_byte(self.address)),
                        phase: FourPhases::Third,
                    },
                )
            },
            FourPhases::Third => {
                transfer(self.direction, cpu, memory, self.address);
                InstructionEnum::AccumulatorDirect(
                    AccumulatorDirect {
                        direction: self.direction,
                        address: self.address,
                        phase: FourPhases::Fourth,
                    },
                )
            },
            FourPhases::Fourth => cpu.load_instruction(memory),
        }
    }

    fn encode(&self) -> (bytes: Vec<u8>)
        ensures
            bytes@ == self.spec_encode(),
    {
        let mut bytes = vec![match self.direction {
            Direction::Store => 0xEAu8,
            Direction::Load => 0xFAu8,
        }];
        match self.phase {
            FourPhases::First => {},
            FourPhases::Second => {
                bytes.push(get_low_byte(self.address));
            },
            _ => {
                bytes.push(get_low_byte(self.address));
                bytes.push(get_high_byte(self.address));
            },
        }
        bytes
    }
}

} // verus!
