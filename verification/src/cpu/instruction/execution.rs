use vstd::prelude::*;
use super::call::Call;
use super::control::{DisableInterrupts, EnableInterrupts};
use super::halt::Halt;
use super::phases::{FivePhases, FourPhases, SixPhases, ThreePhases, TwoPhases};
use super::return_instruction::Return;
use super::stack::{PopDoubleRegister, PushDoubleRegister};
use super::{load_next, spec_decode, InstructionEnum, Step};
use crate::cpu::interrupt_controller::pending_interrupt;
use crate::cpu::{lemma_double_register_write_read, lemma_join_split, lemma_split_join};
use crate::cpu::{CpuState, DoubleRegister};
use crate::memory::{next_address, previous_address, retains, undisturbed, MemoryDevice};

verus! {

/// The outcome of a number of machine cycles, the first of which executes
/// `instruction`: each cycle executes what the cycle before has returned.
pub open spec fn run<T: MemoryDevice>(
    instruction: InstructionEnum,
    cpu: CpuState,
    memory: T,
    cycles: nat,
) -> Step<T>
    decreases cycles,
{
    if cycles == 0 {
        Step { next: instruction, cpu, memory }
    } else {
        let step = instruction.spec_execute(cpu, memory);
        run(step.next, step.cpu, step.memory, (cycles - 1) as nat)
    }
}

/// The address a few bytes behind another; addresses wrap around.
pub open spec fn address_after(address: u16, bytes: nat) -> u16 {
    if address + bytes > 0xFFFF {
        (address + bytes - 0x10000) as u16
    } else {
        (address + bytes) as u16
    }
}

/// The number of operand bytes that follow the opcode of an instruction.
pub open spec fn operand_bytes(instruction: InstructionEnum) -> nat {
    match instruction {
        InstructionEnum::LoadImmediateToRegister(_)
        | InstructionEnum::ArithmeticImmediate(_)
        | InstructionEnum::AccumulatorHigh(_)
        | InstructionEnum::JumpRelative(_)
        | InstructionEnum::JumpRelativeConditional(_)
        | InstructionEnum::AddOffsetToStackPointer(_)
        | InstructionEnum::LoadStackPointerOffsetToHl(_)
        | InstructionEnum::PrefixCb(_) => 1,
        InstructionEnum::LoadImmediateToDoubleRegister(_)
        | InstructionEnum::StoreStackPointer(_)
        | InstructionEnum::AccumulatorDirect(_)
        | InstructionEnum::Jump(_)
        | InstructionEnum::JumpConditional(_)
        | InstructionEnum::Call(_)
        | InstructionEnum::CallConditional(_) => 2,
        _ => 0,
    }
}

/// Whether an instruction is in its first phase.
pub open spec fn in_first_phase(instruction: InstructionEnum) -> bool {
    match instruction {
        InstructionEnum::AccumulatorAtC(i) => i.phase == TwoPhases::First,
        InstructionEnum::AccumulatorDirect(i) => i.phase == FourPhases::First,
        InstructionEnum::AccumulatorHigh(i) => i.phase == ThreePhases::First,
        InstructionEnum::AccumulatorIndirect(i) => i.phase == TwoPhases::First,
        InstructionEnum::AddOffsetToStackPointer(i) => i.phase == FourPhases::First,
        InstructionEnum::AddToHl(i) => i.phase == TwoPhases::First,
        InstructionEnum::ArithmeticImmediate(i) => i.phase == TwoPhases::First,
        InstructionEnum::Call(i) => i.phase == SixPhases::First,
        InstructionEnum::CallConditional(i) => i.phase == SixPhases::First,
        InstructionEnum::DecrementDoubleRegister(i) => i.phase == TwoPhases::First,
        InstructionEnum::IncrementDoubleRegister(i) => i.phase == TwoPhases::First,
        InstructionEnum::InterruptServiceRoutine(i) => i.phase == FivePhases::First,
        InstructionEnum::Jump(i) => i.phase == FourPhases::First,
        InstructionEnum::JumpConditional(i) => i.phase == FourPhases::First,
        InstructionEnum::JumpRelative(i) => i.phase == ThreePhases::First,
        InstructionEnum::JumpRelativeConditional(i) => i.phase == ThreePhases::First,
        InstructionEnum::LoadHlToStackPointer(i) => i.phase == TwoPhases::First,
        InstructionEnum::LoadImmediateToDoubleRegister(i) => i.phase == ThreePhases::First,
        InstructionEnum::LoadImmediateToRegister(i) => i.phase == TwoPhases::First,
        InstructionEnum::LoadStackPointerOffsetToHl(i) => i.phase == ThreePhases::First,
        InstructionEnum::PopDoubleRegister(i) => i.phase == ThreePhases::First,
        InstructionEnum::PushDoubleRegister(i) => i.phase == FourPhases::First,
        InstructionEnum::Restart(i) => i.phase == FourPhases::First,
        InstructionEnum::Return(i) => i.phase == FourPhases::First,
        InstructionEnum::ReturnConditional(i) => i.phase == FivePhases::First,
        InstructionEnum::ReturnFromInterrupt(i) => i.phase == FourPhases::First,
        InstructionEnum::StoreStackPointer(i) => i.phase == FivePhases::First,
        _ => true,
    }
}

/// Whether an instruction, started in a processor state, goes on with the
/// instruction behind it: it is no jump, call or return, or a conditional
/// one whose condition does not hold; and it does not stop the processor.
pub open spec fn falls_through(instruction: InstructionEnum, cpu: CpuState) -> bool {
    match instruction {
        InstructionEnum::JumpConditional(i) => !i.condition.spec_holds(cpu),
        InstructionEnum::JumpRelativeConditional(i) => !i.condition.spec_holds(cpu),
        InstructionEnum::CallConditional(i) => !i.condition.spec_holds(cpu),
        InstructionEnum::ReturnConditional(i) => !i.condition.spec_holds(cpu),
        InstructionEnum::Jump(_)
        | InstructionEnum::JumpRelative(_)
        | InstructionEnum::JumpToHl(_)
        | InstructionEnum::Call(_)
        | InstructionEnum::Restart(_)
        | InstructionEnum::Return(_)
        | InstructionEnum::ReturnFromInterrupt(_)
        | InstructionEnum::InterruptServiceRoutine(_)
        | InstructionEnum::Halt(_)
        | InstructionEnum::Unknown(_) => false,
        _ => true,
    }
}

/// The number of machine cycles that an instruction which falls through
/// takes, the cycle that loads the next instruction included.
pub open spec fn machine_cycles(instruction: InstructionEnum) -> nat {
    match instruction {
        InstructionEnum::LoadImmediateToRegister(_)
        | InstructionEnum::ArithmeticImmediate(_)
        | InstructionEnum::AccumulatorIndirect(_)
        | InstructionEnum::AccumulatorAtC(_)
        | InstructionEnum::IncrementDoubleRegister(_)
        | InstructionEnum::DecrementDoubleRegister(_)
        | InstructionEnum::AddToHl(_)
        | InstructionEnum::LoadHlToStackPointer(_)
        | InstructionEnum::PrefixCb(_)
        | InstructionEnum::JumpRelativeConditional(_)
        | InstructionEnum::ReturnConditional(_) => 2,
        InstructionEnum::LoadImmediateToDoubleRegister(_)
        | InstructionEnum::AccumulatorHigh(_)
        | InstructionEnum::LoadStackPointerOffsetToHl(_)
        | InstructionEnum::PopDoubleRegister(_)
        | InstructionEnum::JumpConditional(_)
        | InstructionEnum::CallConditional(_) => 3,
        InstructionEnum::AccumulatorDirect(_)
        | InstructionEnum::AddOffsetToStackPointer(_)
        | InstructionEnum::PushDoubleRegister(_) => 4,
        InstructionEnum::StoreStackPointer(_) => 5,
        _ => 1,
    }
}

/// Whether a step is the loading of the next instruction from a processor
/// state whose program counter is `address`.
pub open spec fn loads_next_at<T: MemoryDevice>(step: Step<T>, address: u16) -> bool {
    exists|cpu: CpuState|
        cpu.program_counter == address && #[trigger] load_next(cpu, step.memory) == step
}

/// Where the program counter stands after the next instruction was loaded
/// from `address`: if the service of an interrupt took its place, at
/// `address`, the first byte of the next instruction; otherwise the opcode
/// at `address` is decoded and the program counter is one behind it.
pub proof fn lemma_loaded_next<T: MemoryDevice>(step: Step<T>, address: u16)
    requires
        loads_next_at(step, address),
    ensures
        step.next is InterruptServiceRoutine ==> step.cpu.program_counter == address,
        !(step.next is InterruptServiceRoutine) ==> step.cpu.program_counter == next_address(address)
            && step.next == spec_decode(step.memory.spec_read(address)),
{
    let cpu = choose|cpu: CpuState|
        cpu.program_counter == address && #[trigger] load_next(cpu, step.memory) == step;
    super::lemma_decode_is_an_opcode(step.memory.spec_read(address));
}

/// Whether an instruction computes with the arithmetic logic unit in a single machine cycle.
spec fn computes(instruction: InstructionEnum) -> bool {
    instruction is Arithmetic || instruction is IncrementRegister || instruction
        is DecrementRegister || instruction is RotateAccumulator || instruction is DecimalAdjust
        || instruction is Shift
}

/// The law of [`lemma_falls_through_to_next`] for the instructions of one
/// machine cycle that compute with the arithmetic logic unit.
proof fn lemma_falls_through_computing<T: MemoryDevice>(
    instruction: InstructionEnum,
    cpu: CpuState,
    memory: T,
)
    requires
        computes(instruction),
    ensures
        loads_next_at(instruction.spec_execute(cpu, memory), cpu.program_counter),
{
}

/// The law of [`lemma_falls_through_to_next`] for the instructions of one machine cycle.
proof fn lemma_falls_through_one<T: MemoryDevice>(
    instruction: InstructionEnum,
    cpu: CpuState,
    memory: T,
)
    requires
        in_first_phase(instruction),
        falls_through(instruction, cpu),
        machine_cycles(instruction) == 1,
    ensures
        loads_next_at(instruction.spec_execute(cpu, memory), cpu.program_counter),
{
    if computes(instruction) {
        lemma_falls_through_computing(instruction, cpu, memory);
    }
}

/// The law of [`lemma_falls_through_to_next`] for the instructions of two machine cycles.
proof fn lemma_falls_through_two<T: MemoryDevice>(
    instruction: InstructionEnum,
    cpu: CpuState,
    memory: T,
)
    requires
        in_first_phase(instruction),
        falls_through(instruction, cpu),
        machine_cycles(instruction) == 2,
    ensures
        loads_next_at(
            run(instruction, cpu, memory, 2),
            address_after(cpu.program_counter, operand_bytes(instruction)),
        ),
{
    reveal_with_fuel(run, 3);
    let first = instruction.spec_execute(cpu, memory);
    assert(run(instruction, cpu, memory, 2) == first.next.spec_execute(first.cpu, first.memory));
    if instruction is PrefixCb {
        lemma_falls_through_one(first.next, first.cpu, first.memory);
    }
}

/// The law of [`lemma_falls_through_to_next`] for the instructions of three machine cycles.
proof fn lemma_falls_through_three<T: MemoryDevice>(
    instruction: InstructionEnum,
    cpu: CpuState,
    memory: T,
)
    requires
        in_first_phase(instruction),
        falls_through(instruction, cpu),
        machine_cycles(instruction) == 3,
    ensures
        loads_next_at(
            run(instruction, cpu, memory, 3),
            address_after(cpu.program_counter, operand_bytes(instruction)),
        ),
{
    reveal_with_fuel(run, 4);
    let first = instruction.spec_execute(cpu, memory);
    let second = first.next.spec_execute(first.cpu, first.memory);
    assert(run(instruction, cpu, memory, 3) == second.next.spec_execute(second.cpu, second.memory));
}

/// The law of [`lemma_falls_through_to_next`] for the instructions of four
/// and of five machine cycles.
proof fn lemma_falls_through_more<T: MemoryDevice>(
    instruction: InstructionEnum,
    cpu: CpuState,
    memory: T,
)
    requires
        in_first_phase(instruction),
        falls_through(instruction, cpu),
        machine_cycles(instruction) >= 4,
    ensures
        loads_next_at(
            run(instruction, cpu, memory, machine_cycles(instruction)),
            address_after(cpu.program_counter, operand_bytes(instruction)),
        ),
{
    reveal_with_fuel(run, 6);
    let first = instruction.spec_execute(cpu, memory);
    let second = first.next.spec_execute(first.cpu, first.memory);
    let third = second.next.spec_execute(second.cpu, second.memory);
    let fourth = third.next.spec_execute(third.cpu, third.memory);
    if machine_cycles(instruction) == 4 {
        assert(run(instruction, cpu, memory, 4) == fourth);
    } else {
        assert(run(instruction, cpu, memory, 5) == fourth.next.spec_execute(
            fourth.cpu,
            fourth.memory,
        ));
    }
}

/// An instruction that falls through ends with the loading of the next
/// instruction from the address behind its last byte: behind its opcode and
/// its operands.
pub proof fn lemma_falls_through_to_next<T: MemoryDevice>(
    instruction: InstructionEnum,
    cpu: CpuState,
    memory: T,
)
    requires
        in_first_phase(instruction),
        falls_through(instruction, cpu),
    ensures
        loads_next_at(
            run(instruction, cpu, memory, machine_cycles(instruction)),
            address_after(cpu.program_counter, operand_bytes(instruction)),
        ),
{
    if machine_cycles(instruction) == 1 {
        lemma_falls_through_one(instruction, cpu, memory);
        reveal_with_fuel(run, 2);
    } else if machine_cycles(instruction) == 2 {
        lemma_falls_through_two(instruction, cpu, memory);
    } else if machine_cycles(instruction) == 3 {
        lemma_falls_through_three(instruction, cpu, memory);
    } else {
        lemma_falls_through_more(instruction, cpu, memory);
    }
}

/// Every opcode decodes to an instruction in its first phase.
pub proof fn lemma_decoded_in_first_phase(opcode: u8)
    ensures
        in_first_phase(spec_decode(opcode)),
        in_first_phase(super::spec_decode_cb(opcode)),
{
}

/// Whether the two bytes below an address behave as memory on a device of
/// type `T`: each keeps what is written to it, and a write to the lower one
/// leaves the upper one as it was.
pub open spec fn stack_is_memory<T: MemoryDevice>(stack_pointer: u16) -> bool {
    &&& retains::<T>(previous_address(stack_pointer))
    &&& retains::<T>(previous_address(previous_address(stack_pointer)))
    &&& undisturbed::<T>(
        previous_address(stack_pointer),
        previous_address(previous_address(stack_pointer)),
    )
}

/// A double register that is pushed to the stack and popped again, into the
/// same or another double register, arrives as it was, and the stack pointer
/// is back where it was. Of a value that is popped into `AF` the low four
/// bits are lost.
///
/// The push takes three machine cycles and the pop two, each without the
/// cycle that loads the next instruction. The two bytes below the stack
/// pointer must behave as memory.
pub proof fn lemma_push_then_pop<T: MemoryDevice>(
    cpu: CpuState,
    memory: T,
    source: DoubleRegister,
    destination: DoubleRegister,
)
    requires
        stack_is_memory::<T>(cpu.stack_pointer),
    ensures
        ({
            let pushed = run(
                InstructionEnum::PushDoubleRegister(
                    PushDoubleRegister { source, phase: FourPhases::First },
                ),
                cpu,
                memory,
                3,
            );
            let popped = run(
                InstructionEnum::PopDoubleRegister(
                    PopDoubleRegister { destination, phase: ThreePhases::First },
                ),
                pushed.cpu,
                pushed.memory,
                2,
            );
            &&& pushed.cpu == cpu.with_stack_pointer(
                previous_address(previous_address(cpu.stack_pointer)),
            )
            &&& popped.cpu.stack_pointer == cpu.stack_pointer
            &&& popped.memory == pushed.memory
            &&& popped.cpu.double_register(destination) == if destination == DoubleRegister::AF {
                cpu.double_register(source) & 0xFFF0
            } else {
                cpu.double_register(source)
            }
        }),
{
    reveal_with_fuel(run, 4);
    let high = cpu.register(source.spec_id().msb);
    let low = cpu.register(source.spec_id().lsb);
    let upper = previous_address(cpu.stack_pointer);
    let lower = previous_address(upper);
    let first = memory.spec_write(upper, high);
    let second = first.spec_write(lower, low);
    assert(second.spec_read(lower) == low);
    assert(second.spec_read(upper) == first.spec_read(upper));
    assert(first.spec_read(upper) == high);
    let pushed = run(
        InstructionEnum::PushDoubleRegister(PushDoubleRegister { source, phase: FourPhases::First }),
        cpu,
        memory,
        3,
    );
    assert(pushed.memory == second);
    assert(pushed.cpu == cpu.with_stack_pointer(lower));
    let value = cpu.double_register(source);
    crate::cpu::lemma_join_split(high, low);
    lemma_double_register_write_read(pushed.cpu, destination, value);
}

/// A call followed by a return restores the program counter and the stack
/// pointer: the program counter is behind the two operand bytes of the call,
/// where it was when the call pushed it, and the stack pointer is where it
/// was before the call.
///
/// The call takes five machine cycles and the return three, each without the
/// cycle that loads the next instruction. The two bytes below the stack
/// pointer must behave as memory.
pub proof fn lemma_call_then_return<T: MemoryDevice>(cpu: CpuState, memory: T)
    requires
        stack_is_memory::<T>(cpu.stack_pointer),
    ensures
        ({
            let called = run(
                InstructionEnum::Call(Call { address: 0, phase: SixPhases::First }),
                cpu,
                memory,
                5,
            );
            let returned = run(
                InstructionEnum::Return(Return { phase: FourPhases::First }),
                called.cpu,
                called.memory,
                3,
            );
            &&& called.cpu.program_counter == crate::cpu::join_bytes(
                memory.spec_read(next_address(cpu.program_counter)),
                memory.spec_read(cpu.program_counter),
            )
            &&& called.cpu.stack_pointer == previous_address(previous_address(cpu.stack_pointer))
            &&& returned.cpu.program_counter == address_after(cpu.program_counter, 2)
            &&& returned.cpu.stack_pointer == cpu.stack_pointer
            &&& returned.cpu == (CpuState {
                program_counter: returned.cpu.program_counter,
                ..cpu
            })
            &&& returned.memory == called.memory
        }),
{
    reveal_with_fuel(run, 6);
    let target = crate::cpu::join_bytes(
        memory.spec_read(next_address(cpu.program_counter)),
        memory.spec_read(cpu.program_counter),
    );
    let saved = address_after(cpu.program_counter, 2);
    let upper = previous_address(cpu.stack_pointer);
    let lower = previous_address(upper);
    let first = memory.spec_write(upper, crate::cpu::high_byte(saved));
    let second = first.spec_write(lower, crate::cpu::low_byte(saved));
    assert(second.spec_read(lower) == crate::cpu::low_byte(saved));
    assert(second.spec_read(upper) == first.spec_read(upper));
    assert(first.spec_read(upper) == crate::cpu::high_byte(saved));
    crate::cpu::lemma_join_split(0, memory.spec_read(cpu.program_counter));
    let called = run(
        InstructionEnum::Call(Call { address: 0, phase: SixPhases::First }),
        cpu,
        memory,
        5,
    );
    assert(called.memory == second);
    assert(called.cpu == (CpuState { program_counter: target, stack_pointer: lower, ..cpu }));
    crate::cpu::lemma_join_split(crate::cpu::high_byte(target), crate::cpu::low_byte(saved));
    lemma_split_join(saved);
}

/// `HALT` with the interrupt master enable cleared and an interrupt pending
/// wakes up without a service: the instruction behind the `HALT` is fetched
/// and decoded, and nothing else changes.
pub proof fn lemma_halt_wakes_without_service<T: MemoryDevice>(cpu: CpuState, memory: T)
    requires
        !cpu.interrupt_master_enable,
        pending_interrupt(memory) is Some,
    ensures
        (Halt {  }).spec_execute(cpu, memory) == (Step {
            next: spec_decode(memory.spec_read(cpu.program_counter)),
            cpu: cpu.advanced(),
            memory,
        }),
{
}

/// `HALT` returns itself and changes nothing while no interrupt is pending;
/// with the interrupt master enable set and an interrupt pending, the
/// service of the interrupt is next.
pub proof fn lemma_halt_waits_for_interrupt<T: MemoryDevice>(cpu: CpuState, memory: T)
    ensures
        pending_interrupt(memory) is None ==> (Halt {  }).spec_execute(cpu, memory) == (Step {
            next: InstructionEnum::Halt(Halt {  }),
            cpu,
            memory,
        }),
        cpu.interrupt_master_enable && pending_interrupt(memory) is Some ==> (Halt {  }).spec_execute(
            cpu,
            memory,
        ) == (Step {
            next: InstructionEnum::InterruptServiceRoutine(
                super::InterruptServiceRoutine {
                    interrupt: pending_interrupt(memory).unwrap(),
                    phase: FivePhases::First,
                },
            ),
            cpu,
            memory,
        }),
{
}

/// `EI` followed at once by `DI` leaves the interrupt master enable cleared.
/// This holds also where an interrupt is pending: its service takes the
/// place of the `DI`, and its first machine cycle clears the enable.
pub proof fn lemma_enable_then_disable<T: MemoryDevice>(cpu: CpuState, memory: T)
    requires
        memory.spec_read(cpu.program_counter) == 0xF3,
    ensures
        ({
            let enabled = (EnableInterrupts {  }).spec_execute(cpu, memory);
            let disabled = enabled.next.spec_execute(enabled.cpu, enabled.memory);
            &&& enabled.cpu.interrupt_master_enable
            &&& enabled.next == InstructionEnum::DisableInterrupts(DisableInterrupts {  })
                || enabled.next is InterruptServiceRoutine
            &&& !disabled.cpu.interrupt_master_enable
        }),
{
}

/// The service of an interrupt, once its four machine cycles before the
/// loading of the next instruction have run: the interrupt master enable is
/// cleared, the request of the interrupt is cleared first of all, the
/// program counter is at the vector of the interrupt and the stack pointer
/// is two below where it was.
pub proof fn lemma_service_reaches_vector<T: MemoryDevice>(
    service: super::InterruptServiceRoutine,
    cpu: CpuState,
    memory: T,
)
    requires
        service.phase == FivePhases::First,
    ensures
        ({
            let served = run(InstructionEnum::InterruptServiceRoutine(service), cpu, memory, 4);
            &&& served.cpu == (CpuState {
                program_counter: service.interrupt.spec_vector(),
                stack_pointer: previous_address(previous_address(cpu.stack_pointer)),
                interrupt_master_enable: false,
                ..cpu
            })
            &&& served.memory == service.acknowledged(memory).spec_write(
                previous_address(cpu.stack_pointer),
                crate::cpu::high_byte(cpu.program_counter),
            ).spec_write(
                previous_address(previous_address(cpu.stack_pointer)),
                crate::cpu::low_byte(cpu.program_counter),
            )
            &&& served.next == service.at(FivePhases::Fifth)
        }),
{
    reveal_with_fuel(run, 5);
}

} // verus!
