use vstd::prelude::*;
use crate::cpu::instruction::{load_next, Instruction, InstructionEnum};
use crate::cpu::CpuState;
use crate::memory::MemoryDevice;

verus! {

/// The whole machine: the processor, the memory device with its
/// peripherals, and the instruction that the next machine cycle executes.
pub struct Machine<M: MemoryDevice> {
    /// The processor.
    pub cpu: CpuState,
    /// The memory device.
    pub memory: M,
    /// The instruction that the next machine cycle executes.
    pub instruction: InstructionEnum,
}

impl<M: MemoryDevice> Machine<M> {
    /// The machine that starts a processor state on a memory device: the first
    /// instruction is loaded.
    pub open spec fn started(cpu: CpuState, memory: M) -> Machine<M> {
        Machine {
            cpu: load_next(cpu, memory).cpu,
            memory,
            instruction: load_next(cpu, memory).next,
        }
    }

    /// The machine after one machine cycle: first the instruction executes
    /// one of its machine cycles, then the peripherals advance by one cycle.
    pub open spec fn spec_step(self) -> Machine<M> {
        let step = self.instruction.spec_execute(self.cpu, self.memory);
        Machine { cpu: step.cpu, memory: step.memory.spec_tick(), instruction: step.next }
    }

    /// The machine after a number of machine cycles.
    pub open spec fn spec_run(self, cycles: nat) -> Machine<M>
        decreases cycles,
    {
        if cycles == 0 {
            self
        } else {
            self.spec_step().spec_run((cycles - 1) as nat)
        }
    }

    /// Start a fresh processor on a memory device.
    pub fn new(memory: M) -> (machine: Machine<M>)
        ensures
            machine == Machine::started(CpuState::initial(), memory),
    {
        Machine::start(CpuState::new(), memory)
    }

    /// Start a processor state on a memory device.
    pub fn start(cpu: CpuState, memory: M) -> (machine: Machine<M>)
        ensures
            machine == Machine::started(cpu, memory),
    {
        let mut cpu = cpu;
        let instruction = cpu.load_instruction(&memory);
        Machine { cpu, memory, instruction }
    }

    /// Run one machine cycle.
    pub fn step(&mut self)
        ensures
            *final(self) == old(self).spec_step(),
    {
        let next = self.instruction.execute(&mut self.cpu, &mut self.memory);
        self.instruction = next;
        self.memory.tick();
    }

    /// Run a number of machine cycles.
    pub fn run(&mut self, cycles: u64)
        ensures
            *final(self) == old(self).spec_run(cycles as nat),
    {
        let mut done: u64 = 0;
        while done < cycles
            invariant
                done <= cycles,
                self.spec_run((cycles - done) as nat) == old(self).spec_run(cycles as nat),
            decreases cycles - done,
        {
            self.step();
            done = done + 1;
        }
    }
}

} // verus!
