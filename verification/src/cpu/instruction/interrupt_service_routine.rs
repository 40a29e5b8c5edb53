use vstd::prelude::*;
use super::call::{push_high, push_low_and_jump, spec_push_high, spec_push_low_and_jump};
use super::phases::FivePhases;
use super::{load_next, Instruction, InstructionEnum, Step};
use crate::cpu::interrupt_controller::{with_bits, InterruptController};
use crate::cpu::{Cpu, CpuState, Interrupt};
use crate::memory::memory_addresses::INTERRUPT_FLAG_ADDRESS;
use crate::memory::MemoryDevice;

verus! {

/// The service of an interrupt. It is no instruction of a program: it takes
/// the place of the next instruction when an interrupt is pending and the
/// interrupt master enable is set.
///
/// The first phase clears the interrupt master enable and the request of the
/// interrupt. The second pushes the high byte of the program counter, the
/// third pushes its low byte and sets the program counter to the vector of
/// the interrupt. The fourth is idle, the fifth loads the next instruction.
#[derive(Debug, Clone, Copy, PartialEq, Eq, Structural)]
pub struct InterruptServiceRoutine {
    /// The interrupt that is serviced.
    pub interrupt: Interrupt,
    /// The current phase of the service.
    pub phase: FivePhases,
}

impl InterruptServiceRoutine {
    /// The same service in another phase.
    pub open spec fn at(self, phase: FivePhases) -> InstructionEnum {
        InstructionEnum::InterruptServiceRoutine(
            InterruptServiceRoutine { interrupt: self.interrupt, phase },
        )
    }

    /// The service has no opcode.
    pub open spec fn spec_encode(self) -> Seq<u8> {
        Seq::empty()
    }

    /// The memory after the request of the interrupt was cleared.
    pub open spec fn acknowledged<T: MemoryDevice>(self, memory: T) -> T {
        memory.spec_write(
            INTERRUPT_FLAG_ADDRESS,
            with_bits(memory.spec_read(INTERRUPT_FLAG_ADDRESS), self.interrupt.spec_mask(), false),
        )
    }

    /// One machine cycle of the service.
    pub open spec fn spec_execute<T: MemoryDevice>(self, cpu: CpuState, memory: T) -> Step<T> {
        match self.phase {
            FivePhases::First => Step {
                next: self.at(FivePhases::Second),
                cpu: cpu.with_interrupt_master_enable(false),
                memory: self.acknowledged(memory),
            },
            FivePhases::Second => Step {
                next: self.at(FivePhases::Third),
                cpu: spec_push_high(cpu, memory).0,
                memory: spec_push_high(cpu, memory).1,
            },
            FivePhases::Third => Step {
                next: self.at(FivePhases::Fourth),
                cpu: spec_push_low_and_jump(cpu, memory, self.interrupt.spec_vector()).0,
                memory: spec_push_low_and_jump(cpu, memory, self.interrupt.spec_vector()).1,
            },
            FivePhases::Fourth => Step { next: self.at(FivePhases::Fifth), cpu, memory },
            FivePhases::Fifth => load_next(cpu, memory),
        }
    }
}

impl Instruction for InterruptServiceRoutine {
    open spec fn enumerated(&self) -> InstructionEnum {
        InstructionEnum::InterruptServiceRoutine(*self)
    }

    fn execute<T: MemoryDevice>(&self, cpu: &mut CpuState, memory: &mut T) -> (next: InstructionEnum)
        ensures
            (Step { next, cpu: *final(cpu), memory: *final(memory) }) == self.spec_execute(
                *old(cpu),
                *old(memory),
            ),
    {
        let interrupt = self.interrupt;
        match self.phase {
            FivePhases::First => {
                cpu.write_interrupt_master_enable(false);
                memory.write_interrupt_flag(interrupt, false);
                InstructionEnum::InterruptServiceRoutine(
                    InterruptServiceRoutine { interrupt, phase: FivePhases::Second },
                )
            },
            FivePhases::Second => {
                push_high(cpu, memory);
                InstructionEnum::InterruptServiceRoutine(
                    InterruptServiceRoutine { interrupt, phase: FivePhases::Third },
                )
            },
            FivePhases::Third => {
                push_low_and_jump(cpu, memory, interrupt.vector());
                InstructionEnum::InterruptServiceRoutine(
                    InterruptServiceRoutine { interrupt, phase: FivePhases::Fourth },
                )
            },
            FivePhases::Fourth => InstructionEnum::InterruptServiceRoutine(
                InterruptServiceRoutine { interrupt, phase: FivePhases::Fifth },
            ),
            FivePhases::Fifth => cpu.load_instruction(memory),
        }
    }

    fn encode(&self) -> (bytes: Vec<u8>)
        ensures
            bytes@ == self.spec_encode(),
    {
        Vec::new()
    }
}

} // verus!
