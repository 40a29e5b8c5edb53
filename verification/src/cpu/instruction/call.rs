use vstd::prelude::*;
use super::jump::{encode_word, spec_encode_word, Condition};
use super::phases::{FivePhases, FourPhases, SixPhases};
use super::return_instruction::{pop_program_counter_high, pop_program_counter_low, Return};
use super::stack::{push_byte, spec_push_byte};
use super::{load_next, Instruction, InstructionEnum, Step};
use crate::cpu::{get_high_byte, get_low_byte, high_byte, join_bytes, low_byte, make_word};
use crate::cpu::{Cpu, CpuState};
use crate::memory::MemoryDevice;

verus! {

/// How many operand bytes an instruction of six phases has fetched.
pub open spec fn spec_fetched(phase: SixPhases) -> nat {
    match phase {
        SixPhases::First => 0,
        SixPhases::Second => 1,
        _ => 2,
    }
}

/// How many operand bytes an instruction of six phases has fetched.
pub fn fetched(phase: SixPhases) -> (count: u8)
    ensures
        count == spec_fetched(phase),
{
    match phase {
        SixPhases::First => 0,
        SixPhases::Second => 1,
        _ => 2,
    }
}

/// The processor state and the memory after the high byte of the program
/// counter was pushed to the stack.
pub open spec fn spec_push_high<T: MemoryDevice>(cpu: CpuState, memory: T) -> (CpuState, T) {
    spec_push_byte(cpu, memory, high_byte(cpu.program_counter))
}

/// The processor state and the memory after the low byte of the program
/// counter was pushed to the stack and the program counter was set.
pub open spec fn spec_push_low_and_jump<T: MemoryDevice>(
    cpu: CpuState,
    memory: T,
    target: u16,
) -> (CpuState, T) {
    (
        spec_push_byte(cpu, memory, low_byte(cpu.program_counter)).0.with_program_counter(target),
        spec_push_byte(cpu, memory, low_byte(cpu.program_counter)).1,
    )
}

/// Push the high byte of the program counter to the stack.
pub fn push_high<T: MemoryDevice>(cpu: &mut CpuState, memory: &mut T)
    ensures
        (*final(cpu), *final(memory)) == spec_push_high(*old(cpu), *old(memory)),
{
    let value = get_high_byte(cpu.read_program_counter());
    push_byte(cpu, memory, value);
}

/// Push the low byte of the program counter to the stack and continue at `target`.
pub fn push_low_and_jump<T: MemoryDevice>(cpu: &mut CpuState, memory: &mut T, target: u16)
    ensures
        (*final(cpu), *final(memory)) == spec_push_low_and_jump(*old(cpu), *old(memory), target),
{
    let value = get_low_byte(cpu.read_program_counter());
    push_byte(cpu, memory, value);
    cpu.write_program_counter(target);
}

/// Call the routine at the address behind the opcode (`CALL a16`).
///
/// The first two phases fetch the address, the low byte first. The third
/// phase is idle. The fourth pushes the high byte of the program counter,
/// the fifth pushes its low byte and sets the program counter to the
/// address. The sixth loads the next instruction.
#[derive(Debug, Clone, Copy, PartialEq, Eq, Structural)]
pub struct Call {
    /// The address behind the opcode, as far as it is fetched.
    pub address: u16,
    /// The current phase of the instruction.
    pub phase: SixPhases,
}

impl Call {
    /// The same instruction with another address and phase.
    pub open spec fn at(address: u16, phase: SixPhases) -> InstructionEnum {
        InstructionEnum::Call(Call { address, phase })
    }

    /// The opcode, followed by the operand bytes that are fetched.
    pub open spec fn spec_encode(self) -> Seq<u8> {
        spec_encode_word(0xCD, self.address, spec_fetched(self.phase))
    }

    /// One machine cycle of the instruction.
    pub open spec fn spec_execute<T: MemoryDevice>(self, cpu: CpuState, memory: T) -> Step<T> {
        match self.phase {
            SixPhases::First => Step {
                next: Call::at(
                    join_bytes(0, memory.spec_read(cpu.program_counter)),
                    SixPhases::Second,
                ),
                cpu: cpu.advanced(),
                memory,
            },
            SixPhases::Second => Step {
                next: Call::at(
                    join_bytes(memory.spec_read(cpu.program_counter), low_byte(self.address)),
                    SixPhases::Third,
                ),
                cpu: cpu.advanced(),
                memory,
            },
            SixPhases::Third => Step { next: Call::at(self.address, SixPhases::Fourth), cpu, memory },
            SixPhases::Fourth => Step {
                next: Call::at(self.address, SixPhases::Fifth),
                cpu: spec_push_high(cpu, memory).0,
                memory: spec_push_high(cpu, memory).1,
            },
            SixPhases::Fifth => Step {
                next: Call::at(self.address, SixPhases::Sixth),
                cpu: spec_push_low_and_jump(cpu, memory, self.address).0,
                memory: spec_push_low_and_jump(cpu, memory, self.address).1,
            },
            SixPhases::Sixth => load_next(cpu, memory),
        }
    }
}

impl Instruction for Call {
    open spec fn enumerated(&self) -> InstructionEnum {
        InstructionEnum::Call(*self)
    }

    fn execute<T: MemoryDevice>(&self, cpu: &mut CpuState, memory: &mut T) -> (next: InstructionEnum)
        ensures
            (Step { next, cpu: *final(cpu), memory: *final(memory) }) == self.spec_execute(
                *old(cpu),
                *old(memory),
            ),
    {
        match self.phase {
            SixPhases::First => {
                let low = cpu.load_opcode(memory);
                InstructionEnum::Call(Call { address: make_word(0, low), phase: SixPhases::Second })
            },
            SixPhases::Second => {
                let high = cpu.load_opcode(memory);
                InstructionEnum::Call(
                    Call {
                        address: make_word(high, get_low_byte(self.address)),
                        phase: SixPhases::Third,
                    },
                )
            },
            SixPhases::Third => InstructionEnum::Call(
                Call { address: self.address, phase: SixPhases::Fourth },
            ),
            SixPhases::Fourth => {
                push_high(cpu, memory);
                InstructionEnum::Call(Call { address: self.address, phase: SixPhases::Fifth })
            },
            SixPhases::Fifth => {
                push_low_and_jump(cpu, memory, self.address);
                InstructionEnum::Call(Call { address: self.address, phase: SixPhases::Sixth })
            },
            SixPhases::Sixth => cpu.load_instruction(memory),
        }
    }

    fn encode(&self) -> (bytes: Vec<u8>)
        ensures
            bytes@ == self.spec_encode(),
    {
        encode_word(0xCD, self.address, fetched(self.phase))
    }
}

/// Call the routine at the address behind the opcode if a condition holds
/// (`CALL cc, a16`).
///
/// The phases are those of [`Call`]; if the condition does not hold, the
/// sixth phase follows the second at once.
#[derive(Debug, Clone, Copy, PartialEq, Eq, Structural)]
pub struct CallConditional {
    /// The condition under which the call is made.
    pub condition: Condition,
    /// The address behind the opcode, as far as it is fetched.
    pub address: u16,
    /// The current phase of the instruction.
    pub phase: SixPhases,
}

impl CallConditional {
    /// The same instruction with another address and phase.
    pub open spec fn at(self, address: u16, phase: SixPhases) -> InstructionEnum {
        InstructionEnum::CallConditional(
            CallConditional { condition: self.condition, address, phase },
        )
    }

    /// The opcode, followed by the operand bytes that are fetched.
    pub open spec fn spec_encode(self) -> Seq<u8> {
        spec_encode_word(
            (0xC4 + 8 * self.condition.spec_id()) as u8,
            self.address,
            spec_fetched(self.phase),
        )
    }

    /// One machine cycle of the instruction.
    pub open spec fn spec_execute<T: MemoryDevice>(self, cpu: CpuState, memory: T) -> Step<T> {
        match self.phase {
            SixPhases::First => Step {
                next: self.at(
                    join_bytes(0, memory.spec_read(cpu.program_counter)),
                    SixPhases::Second,
                ),
                cpu: cpu.advanced(),
                memory,
            },
            SixPhases::Second => Step {
                next: self.at(
                    join_bytes(memory.spec_read(cpu.program_counter), low_byte(self.address)),
                    if self.condition.spec_holds(cpu) {
                        SixPhases::Third
                    } else {
                        SixPhases::Sixth
                    },
                ),
                cpu: cpu.advanced(),
                memory,
            },
            SixPhases::Third => Step { next: self.at(self.address, SixPhases::Fourth), cpu, memory },
            SixPhases::Fourth => Step {
                next: self.at(self.address, SixPhases::Fifth),
                cpu: spec_push_high(cpu, memory).0,
                memory: spec_push_high(cpu, memory).1,
            },
            SixPhases::Fifth => Step {
                next: self.at(self.address, SixPhases::Sixth),
                cpu: spec_push_low_and_jump(cpu, memory, self.address).0,
                memory: spec_push_low_and_jump(cpu, memory, self.address).1,
            },
            SixPhases::Sixth => load_next(cpu, memory),
        }
    }
}

impl Instruction for CallConditional {
    open spec fn enumerated(&self) -> InstructionEnum {
        InstructionEnum::CallConditional(*self)
    }

    fn execute<T: MemoryDevice>(&self, cpu: &mut CpuState, memory: &mut T) -> (next: InstructionEnum)
        ensures
            (Step { next, cpu: *final(cpu), memory: *final(memory) }) == self.spec_execute(
                *old(cpu),
                *old(memory),
            ),
    {
        let condition = self.condition;
        match self.phase {
            SixPhases::First => {
                let low = cpu.load_opcode(memory);
                InstructionEnum::CallConditional(
                    CallConditional {
                        condition,
                        address: make_word(0, low),
                        phase: SixPhases::Second,
                    },
                )
            },
            SixPhases::Second => {
                let holds = condition.holds(cpu);
                let high = cpu.load_opcode(memory);
                InstructionEnum::CallConditional(
                    CallConditional {
                        condition,
                        address: make_word(high, get_low_byte(self.address)),
                        phase: if holds {
                            SixPhases::Third
                        } else {
                            SixPhases::Sixth
                        },
                    },
                )
            },
            SixPhases::Third => InstructionEnum::CallConditional(
                CallConditional { condition, address: self.address, phase: SixPhases::Fourth },
            ),
            SixPhases::Fourth => {
                push_high(cpu, memory);
                InstructionEnum::CallConditional(
                    CallConditional { condition, address: self.address, phase: SixPhases::Fifth },
                )
            },
            SixPhases::Fifth => {
                push_low_and_jump(cpu, memory, self.address);
                InstructionEnum::CallConditional(
                    CallConditional { condition, address: self.address, phase: SixPhases::Sixth },
                )
            },
            SixPhases::Sixth => cpu.load_instruction(memory),
        }
    }

    fn encode(&self) -> (bytes: Vec<u8>)
        ensures
            bytes@ == self.spec_encode(),
    {
        encode_word(0xC4 + 8 * self.condition.id(), self.address, fetched(self.phase))
    }
}

/// Call one of the eight routines at the start of the memory (`RST`).
///
/// The first phase is idle. The second pushes the high byte of the program
/// counter, the third pushes its low byte and sets the program counter to
/// eight times the number of the routine. The fourth loads the next instruction.
#[derive(Debug, Clone, Copy, PartialEq, Eq, Structural)]
pub struct Restart {
    /// The number of the routine; it counts modulo eight.
    pub routine: u8,
    /// The current phase of the instruction.
    pub phase: FourPhases,
}

impl Restart {
    /// The same instruction in another phase.
    pub open spec fn at(self, phase: FourPhases) -> InstructionEnum {
        InstructionEnum::Restart(Restart { routine: self.routine, phase })
    }

    /// The address of the routine.
    pub open spec fn spec_target(self) -> u16 {
        (8 * (self.routine % 8)) as u16
    }

    /// The opcode of the instruction.
    pub open spec fn spec_encode(self) -> Seq<u8> {
        seq![(0xC7 + 8 * (self.routine % 8)) as u8]
    }

    /// One machine cycle of the instruction.
    pub open spec fn spec_execute<T: MemoryDevice>(self, cpu: CpuState, memory: T) -> Step<T> {
        match self.phase {
            FourPhases::First => Step { next: self.at(FourPhases::Second), cpu, memory },
            FourPhases::Second => Step {
                next: self.at(FourPhases::Third),
                cpu: spec_push_high(cpu, memory).0,
                memory: spec_push_high(cpu, memory).1,
            },
            FourPhases::Third => Step {
                next: self.at(FourPhases::Fourth),
                cpu: spec_push_low_and_jump(cpu, memory, self.spec_target()).0,
                memory: spec_push_low_and_jump(cpu, memory, self.spec_target()).1,
            },
            FourPhases::Fourth => load_next(cpu, memory),
        }
    }
}

impl Instruction for Restart {
    open spec fn enumerated(&self) -> InstructionEnum {
        InstructionEnum::Restart(*self)
    }

    fn execute<T: MemoryDevice>(&self, cpu: &mut CpuState, memory: &mut T) -> (next: InstructionEnum)
        ensures
            (Step { next, cpu: *final(cpu), memory: *final(memory) }) == self.spec_execute(
                *old(cpu),
                *old(memory),
            ),
    {
        match self.phase {
            FourPhases::First => InstructionEnum::Restart(
                Restart { routine: self.routine, phase: FourPhases::Second },
            ),
            FourPhases::Second => {
                push_high(cpu, memory);
                InstructionEnum::Restart(Restart { routine: self.routine, phase: FourPhases::Third })
            },
            FourPhases::Third => {
                push_low_and_jump(cpu, memory, 8 * (self.routine % 8) as u16);
                InstructionEnum::Restart(
                    Restart { routine: self.routine, phase: FourPhases::Fourth },
                )
            },
            FourPhases::Fourth => cpu.load_instruction(memory),
        }
    }

    fn encode(&self) -> (bytes: Vec<u8>)
        ensures
            bytes@ == self.spec_encode(),
    {
        vec![0xC7 + 8 * (self.routine % 8)]
    }
}

/// Return from a call if a condition holds (`RET cc`).
///
/// The first phase tests the condition. If it holds, the second phase pops
/// the low byte of the program counter, the third the high byte, and the
/// fourth is idle; if not, the fifth phase follows the first at once. The
/// fifth phase loads the next instruction.
#[derive(Debug, Clone, Copy, PartialEq, Eq, Structural)]
pub struct ReturnConditional {
    /// The condition under which the return is made.
    pub condition: Condition,
    /// The current phase of the instruction.
    pub phase: FivePhases,
}

impl ReturnConditional {
    /// The same instruction in another phase.
    pub open spec fn at(self, phase: FivePhases) -> InstructionEnum {
        InstructionEnum::ReturnConditional(
            ReturnConditional { condition: self.condition, phase },
        )
    }

    /// The opcode of the instruction.
    pub open spec fn spec_encode(self) -> Seq<u8> {
        seq![(0xC0 + 8 * self.condition.spec_id()) as u8]
    }

    /// One machine cycle of the instruction.
    pub open spec fn spec_execute<T: MemoryDevice>(self, cpu: CpuState, memory: T) -> Step<T> {
        match self.phase {
            FivePhases::First => Step {
                next: self.at(
                    if self.condition.spec_holds(cpu) {
                        FivePhases::Second
                    } else {
                        FivePhases::Fifth
                    },
                ),
                cpu,
                memory,
            },
            FivePhases::Second => Step {
                next: self.at(FivePhases::Third),
                cpu: Return::pop_low(cpu, memory),
                memory,
            },
            FivePhases::Third => Step {
                next: self.at(FivePhases::Fourth),
                cpu: Return::pop_high(cpu, memory),
                memory,
            },
            FivePhases::Fourth => Step { next: self.at(FivePhases::Fifth), cpu, memory },
            FivePhases::Fifth => load_next(cpu, memory),
        }
    }
}

impl Instruction for ReturnConditional {
    open spec fn enumerated(&self) -> InstructionEnum {
        InstructionEnum::ReturnConditional(*self)
    }

    fn execute<T: MemoryDevice>(&self, cpu: &mut CpuState, memory: &mut T) -> (next: InstructionEnum)
        ensures
            (Step { next, cpu: *final(cpu), memory: *final(memory) }) == self.spec_execute(
                *old(cpu),
                *old(memory),
            ),
    {
        let condition = self.condition;
        match self.phase {
            FivePhases::First => InstructionEnum::ReturnConditional(
                ReturnConditional {
                    condition,
                    phase: if condition.holds(cpu) {
                        FivePhases::Second
                    } else {
                        FivePhases::Fifth
                    },
                },
            ),
            FivePhases::Second => {
                pop_program_counter_low(cpu, memory);
                InstructionEnum::ReturnConditional(
                    ReturnConditional { condition, phase: FivePhases::Third },
                )
            },
            FivePhases::Third => {
                pop_program_counter_high(cpu, memory);
                InstructionEnum::ReturnConditional(
                    ReturnConditional { condition, phase: FivePhases::Fourth },
                )
            },
            FivePhases::Fourth => InstructionEnum::ReturnConditional(
                ReturnConditional { condition, phase: FivePhases::Fifth },
            ),
            FivePhases::Fifth => cpu.load_instruction(memory),
        }
    }

    fn encode(&self) -> (bytes: Vec<u8>)
        ensures
            bytes@ == self.spec_encode(),
    {
        vec![0xC0 + 8 * self.condition.id()]
    }
}

/// Return from an interrupt service routine (`RETI`): return as [`Return`]
/// does, and set the interrupt master enable in the third phase.
#[derive(Debug, Clone, Copy, PartialEq, Eq, Structural)]
pub struct ReturnFromInterrupt {
    /// The current phase of the instruction.
    pub phase: FourPhases,
}

impl ReturnFromInterrupt {
    /// The same instruction in another phase.
    pub open spec fn at(phase: FourPhases) -> InstructionEnum {
        InstructionEnum::ReturnFromInterrupt(ReturnFromInterrupt { phase })
    }

    /// The opcode of the instruction.
    pub open spec fn spec_encode(self) -> Seq<u8> {
        seq![0xD9u8]
    }

    /// One machine cycle of the instruction.
    pub open spec fn spec_execute<T: MemoryDevice>(self, cpu: CpuState, memory: T) -> Step<T> {
        match self.phase {
            FourPhases::First => Step {
                next: ReturnFromInterrupt::at(FourPhases::Second),
                cpu: Return::pop_low(cpu, memory),
                memory,
            },
            FourPhases::Second => Step {
                next: ReturnFromInterrupt::at(FourPhases::Third),
                cpu: Return::pop_high(cpu, memory),
                memory,
            },
            FourPhases::Third => Step {
                next: ReturnFromInterrupt::at(FourPhases::Fourth),
                cpu: cpu.with_interrupt_master_enable(true),
                memory,
            },
            FourPhases::Fourth => load_next(cpu, memory),
        }
    }
}

impl Instruction for ReturnFromInterrupt {
    open spec fn enumerated(&self) -> InstructionEnum {
        InstructionEnum::ReturnFromInterrupt(*self)
    }

    fn execute<T: MemoryDevice>(&self, cpu: &mut CpuState, memory: &mut T) -> (next: InstructionEnum)
        ensures
            (Step { next, cpu: *final(cpu), memory: *final(memory) }) == self.spec_execute(
                *old(cpu),
                *old(memory),
            ),
    {
        match self.phase {
            FourPhases::First => {
                pop_program_counter_low(cpu, memory);
                InstructionEnum::ReturnFromInterrupt(
                    ReturnFromInterrupt { phase: FourPhases::Second },
                )
            },
            FourPhases::Second => {
                pop_program_counter_high(cpu, memory);
                InstructionEnum::ReturnFromInterrupt(
                    ReturnFromInterrupt { phase: FourPhases::Third },
                )
            },
            FourPhases::Third => {
                cpu.write_interrupt_master_enable(true);
                InstructionEnum::ReturnFromInterrupt(
                    ReturnFromInterrupt { phase: FourPhases::Fourth },
                )
            },
            FourPhases::Fourth => cpu.load_instruction(memory),
        }
    }

    fn encode(&self) -> (bytes: Vec<u8>)
        ensures
            bytes@ == self.spec_encode(),
    {
        vec![0xD9u8]
    }
}

} // verus!
