use vstd::prelude::*;
use self::phases::{FivePhases, FourPhases, SixPhases, ThreePhases, TwoPhases};
use crate::cpu::alu::{ArithmeticOperation, ShiftOperation};
use crate::cpu::interrupt_controller::pending_interrupt;
use crate::cpu::{CpuState, Interrupt, Register, WordRegister};
use crate::memory::MemoryDevice;

/// The arithmetic instructions.
pub mod arithmetic;

/// The rotations, the shifts and the instructions on single bits.
pub mod bits;

/// The calls and the returns from them.
pub mod call;

/// The instructions that control the processor.
pub mod control;

/// What sequences of machine cycles do.
pub mod execution;

/// The `HALT` instruction.
pub mod halt;

/// The service of an interrupt.
pub mod interrupt_service_routine;

/// The `CCF` instruction.
pub mod invert_carry;

/// The jumps.
pub mod jump;

/// The loads of registers.
pub mod load;

/// The phases of instructions that take more than one machine cycle.
pub mod phases;

/// The `CB` prefix.
pub mod prefix_cb;

/// The `RET` instruction.
pub mod return_instruction;

/// The `SCF` instruction.
pub mod set_carry;

/// The instructions that push to and pop from the stack.
pub mod stack;

/// The transfers between the accumulator and the memory.
pub mod transfer;

pub use self::arithmetic::AddOffsetToStackPointer;
pub use self::arithmetic::AddToHl;
pub use self::arithmetic::Arithmetic;
pub use self::arithmetic::ArithmeticImmediate;
pub use self::arithmetic::Complement;
pub use self::arithmetic::DecimalAdjust;
pub use self::arithmetic::DecrementDoubleRegister;
pub use self::arithmetic::DecrementRegister;
pub use self::arithmetic::IncrementDoubleRegister;
pub use self::arithmetic::IncrementRegister;
pub use self::bits::AccumulatorRotation;
pub use self::bits::ResetBit;
pub use self::bits::RotateAccumulator;
pub use self::bits::SetBit;
pub use self::bits::Shift;
pub use self::bits::TestBit;
pub use self::call::Call;
pub use self::call::CallConditional;
pub use self::call::Restart;
pub use self::call::ReturnConditional;
pub use self::call::ReturnFromInterrupt;
pub use self::control::DisableInterrupts;
pub use self::control::EnableInterrupts;
pub use self::control::Nop;
pub use self::halt::Halt;
pub use self::interrupt_service_routine::InterruptServiceRoutine;
pub use self::invert_carry::InvertCarry;
pub use self::jump::Condition;
pub use self::jump::Jump;
pub use self::jump::JumpConditional;
pub use self::jump::JumpRelative;
pub use self::jump::JumpRelativeConditional;
pub use self::jump::JumpToHl;
pub use self::load::LoadFromRegisterToRegister;
pub use self::load::LoadHlToStackPointer;
pub use self::load::LoadImmediateToDoubleRegister;
pub use self::load::LoadImmediateToRegister;
pub use self::load::LoadStackPointerOffsetToHl;
pub use self::load::StoreStackPointer;
pub use self::prefix_cb::PrefixCb;
pub use self::return_instruction::Return;
pub use self::set_carry::SetCarry;
pub use self::stack::PopDoubleRegister;
pub use self::stack::PushDoubleRegister;
pub use self::transfer::AccumulatorAtC;
pub use self::transfer::AccumulatorDirect;
pub use self::transfer::AccumulatorHigh;
pub use self::transfer::AccumulatorIndirect;
pub use self::transfer::Direction;
pub use self::transfer::IndirectAddress;

verus! {

/// The outcome of one machine cycle of an instruction: the instruction to
/// execute in the next machine cycle, and the processor and the memory as
/// the cycle has left them.
pub struct Step<T> {
    /// The instruction to execute in the next machine cycle.
    pub next: InstructionEnum,
    /// The processor state after the machine cycle.
    pub cpu: CpuState,
    /// The memory after the machine cycle.
    pub memory: T,
}

/// What every instruction can do.
///
/// What an instruction does is stated on [`InstructionEnum`], of which every
/// instruction is a variant: [`InstructionEnum::spec_execute`] gives the
/// [`Step`] that a machine cycle takes from a processor state and a memory,
/// and [`InstructionEnum::spec_encode`] gives the bytes.
pub trait Instruction {
    /// The instruction as a variant of [`InstructionEnum`].
    spec fn enumerated(&self) -> InstructionEnum;

    /// Execute one machine cycle of the instruction. Returns the instruction
    /// to execute in the next machine cycle: the same instruction in its
    /// next phase, or the instruction that follows.
    fn execute<T: MemoryDevice>(&self, cpu: &mut CpuState, memory: &mut T) -> (next:
        InstructionEnum)
        ensures
            (Step { next, cpu: *final(cpu), memory: *final(memory) })
                == self.enumerated().spec_execute(*old(cpu), *old(memory)),
    ;

    /// The bytes of the instruction: its opcode, followed by the operand
    /// bytes that it has fetched so far.
    fn encode(&self) -> (bytes: Vec<u8>)
        ensures
            bytes@ == self.enumerated().spec_encode(),
    ;
}

/// An instruction that the processor does not know. It stops the processor:
/// the instruction returns itself and changes nothing.
#[derive(Debug, Clone, Copy, PartialEq, Eq, Structural)]
pub struct Unknown {
    /// The opcode that no instruction is assigned to.
    pub opcode: u8,
}

impl Unknown {
    /// The opcode of the instruction.
    pub open spec fn spec_encode(self) -> Seq<u8> {
        seq![self.opcode]
    }

    /// One machine cycle of the instruction.
    pub open spec fn spec_execute<T: MemoryDevice>(self, cpu: CpuState, memory: T) -> Step<T> {
        Step { next: InstructionEnum::Unknown(self), cpu, memory }
    }
}

impl Instruction for Unknown {
    open spec fn enumerated(&self) -> InstructionEnum {
        InstructionEnum::Unknown(*self)
    }

    fn execute<T: MemoryDevice>(&self, cpu: &mut CpuState, memory: &mut T) -> (next: InstructionEnum)
        ensures
            (Step { next, cpu: *final(cpu), memory: *final(memory) }) == self.spec_execute(
                *old(cpu),
                *old(memory),
            ),
    {
        InstructionEnum::Unknown(*self)
    }

    fn encode(&self) -> (bytes: Vec<u8>)
        ensures
            bytes@ == self.spec_encode(),
    {
        vec![self.opcode]
    }
}

/// All instructions of the processor, each with its operands and its phase.
#[derive(Debug, Clone, Copy, PartialEq, Eq, Structural)]
pub enum InstructionEnum {
    /// See [`AccumulatorAtC`].
    AccumulatorAtC(AccumulatorAtC),
    /// See [`AccumulatorDirect`].
    AccumulatorDirect(AccumulatorDirect),
    /// See [`AccumulatorHigh`].
    AccumulatorHigh(AccumulatorHigh),
    /// See [`AccumulatorIndirect`].
    AccumulatorIndirect(AccumulatorIndirect),
    /// See [`AddOffsetToStackPointer`].
    AddOffsetToStackPointer(AddOffsetToStackPointer),
    /// See [`AddToHl`].
    AddToHl(AddToHl),
    /// See [`Arithmetic`].
    Arithmetic(Arithmetic),
    /// See [`ArithmeticImmediate`].
    ArithmeticImmediate(ArithmeticImmediate),
    /// See [`Call`].
    Call(Call),
    /// See [`CallConditional`].
    CallConditional(CallConditional),
    /// See [`Complement`].
    Complement(Complement),
    /// See [`DecimalAdjust`].
    DecimalAdjust(DecimalAdjust),
    /// See [`DecrementDoubleRegister`].
    DecrementDoubleRegister(DecrementDoubleRegister),
    /// See [`DecrementRegister`].
    DecrementRegister(DecrementRegister),
    /// See [`DisableInterrupts`].
    DisableInterrupts(DisableInterrupts),
    /// See [`EnableInterrupts`].
    EnableInterrupts(EnableInterrupts),
    /// See [`Halt`].
    Halt(Halt),
    /// See [`IncrementDoubleRegister`].
    IncrementDoubleRegister(IncrementDoubleRegister),
    /// See [`IncrementRegister`].
    IncrementRegister(IncrementRegister),
    /// See [`InterruptServiceRoutine`].
    InterruptServiceRoutine(InterruptServiceRoutine),
    /// See [`InvertCarry`].
    InvertCarry(InvertCarry),
    /// See [`Jump`].
    Jump(Jump),
    /// See [`JumpConditional`].
    JumpConditional(JumpConditional),
    /// See [`JumpRelative`].
    JumpRelative(JumpRelative),
    /// See [`JumpRelativeConditional`].
    JumpRelativeConditional(JumpRelativeConditional),
    /// See [`JumpToHl`].
    JumpToHl(JumpToHl),
    /// See [`LoadFromRegisterToRegister`].
    LoadFromRegisterToRegister(LoadFromRegisterToRegister),
    /// See [`LoadHlToStackPointer`].
    LoadHlToStackPointer(LoadHlToStackPointer),
    /// See [`LoadImmediateToDoubleRegister`].
    LoadImmediateToDoubleRegister(LoadImmediateToDoubleRegister),
    /// See [`LoadImmediateToRegister`].
    LoadImmediateToRegister(LoadImmediateToRegister),
    /// See [`LoadStackPointerOffsetToHl`].
    LoadStackPointerOffsetToHl(LoadStackPointerOffsetToHl),
    /// See [`Nop`].
    Nop(Nop),
    /// See [`PopDoubleRegister`].
    PopDoubleRegister(PopDoubleRegister),
    /// See [`PrefixCb`].
    PrefixCb(PrefixCb),
    /// See [`PushDoubleRegister`].
    PushDoubleRegister(PushDoubleRegister),
    /// See [`ResetBit`].
    ResetBit(ResetBit),
    /// See [`Restart`].
    Restart(Restart),
    /// See [`Return`].
    Return(Return),
    /// See [`ReturnConditional`].
    ReturnConditional(ReturnConditional),
    /// See [`ReturnFromInterrupt`].
    ReturnFromInterrupt(ReturnFromInterrupt),
    /// See [`RotateAccumulator`].
    RotateAccumulator(RotateAccumulator),
    /// See [`SetBit`].
    SetBit(SetBit),
    /// See [`SetCarry`].
    SetCarry(SetCarry),
    /// See [`Shift`].
    Shift(Shift),
    /// See [`StoreStackPointer`].
    StoreStackPointer(StoreStackPointer),
    /// See [`TestBit`].
    TestBit(TestBit),
    /// See [`Unknown`].
    Unknown(Unknown),
}

/// The instruction that an opcode from `0x00` to `0x3F` stands for. `y` is
/// the opcode's bits 3 to 5 and `z` its bits 0 to 2.
pub open spec fn spec_decode_first_quarter(opcode: u8, y: u8, z: u8) -> InstructionEnum {
    if z == 0 {
        if y == 0 {
            InstructionEnum::Nop(Nop {  })
        } else if y == 1 {
            InstructionEnum::StoreStackPointer(
                StoreStackPointer { address: 0, phase: FivePhases::First },
            )
        } else if y == 2 {
            InstructionEnum::Unknown(Unknown { opcode })
        } else if y == 3 {
            InstructionEnum::JumpRelative(JumpRelative { offset: 0, phase: ThreePhases::First })
        } else {
            InstructionEnum::JumpRelativeConditional(
                JumpRelativeConditional {
                    condition: Condition::spec_from_id(y),
                    offset: 0,
                    phase: ThreePhases::First,
                },
            )
        }
    } else if z == 1 {
        if y % 2 == 0 {
            InstructionEnum::LoadImmediateToDoubleRegister(
                LoadImmediateToDoubleRegister {
                    destination: WordRegister::spec_from_id(y / 2),
                    value: 0,
                    phase: ThreePhases::First,
                },
            )
        } else {
            InstructionEnum::AddToHl(
                AddToHl { source: WordRegister::spec_from_id(y / 2), phase: TwoPhases::First },
            )
        }
    } else if z == 2 {
        InstructionEnum::AccumulatorIndirect(
            AccumulatorIndirect {
                direction: if y % 2 == 0 {
                    Direction::Store
                } else {
                    Direction::Load
                },
                address: IndirectAddress::spec_from_id(y / 2),
                phase: TwoPhases::First,
            },
        )
    } else if z == 3 {
        if y % 2 == 0 {
            InstructionEnum::IncrementDoubleRegister(
                IncrementDoubleRegister {
                    register: WordRegister::spec_from_id(y / 2),
                    phase: TwoPhases::First,
                },
            )
        } else {
            InstructionEnum::DecrementDoubleRegister(
                DecrementDoubleRegister {
                    register: WordRegister::spec_from_id(y / 2),
                    phase: TwoPhases::First,
                },
            )
        }
    } else if z == 4 {
        InstructionEnum::IncrementRegister(IncrementRegister { register: Register::spec_from_id(y) })
    } else if z == 5 {
        InstructionEnum::DecrementRegister(DecrementRegister { register: Register::spec_from_id(y) })
    } else if z == 6 {
        InstructionEnum::LoadImmediateToRegister(
            LoadImmediateToRegister {
                destination: Register::spec_from_id(y),
                value: 0,
                phase: TwoPhases::First,
            },
        )
    } else {
        if y < 4 {
            InstructionEnum::RotateAccumulator(
                RotateAccumulator { rotation: AccumulatorRotation::spec_from_id(y) },
            )
        } else if y == 4 {
            InstructionEnum::DecimalAdjust(DecimalAdjust {  })
        } else if y == 5 {
            InstructionEnum::Complement(Complement {  })
        } else if y == 6 {
            InstructionEnum::SetCarry(SetCarry {  })
        } else {
            InstructionEnum::InvertCarry(InvertCarry {  })
        }
    }
}

/// The instruction that an opcode from `0xC0` to `0xFF` stands for. `y` is
/// the opcode's bits 3 to 5 and `z` its bits 0 to 2.
pub open spec fn spec_decode_last_quarter(opcode: u8, y: u8, z: u8) -> InstructionEnum {
    if z == 0 {
        if y < 4 {
            InstructionEnum::ReturnConditional(
                ReturnConditional { condition: Condition::spec_from_id(y), phase: FivePhases::First },
            )
        } else if y == 4 {
            InstructionEnum::AccumulatorHigh(
                AccumulatorHigh { direction: Direction::Store, offset: 0, phase: ThreePhases::First },
            )
        } else if y == 5 {
            InstructionEnum::AddOffsetToStackPointer(
                AddOffsetToStackPointer { offset: 0, phase: FourPhases::First },
            )
        } else if y == 6 {
            InstructionEnum::AccumulatorHigh(
                AccumulatorHigh { direction: Direction::Load, offset: 0, phase: ThreePhases::First },
            )
        } else {
            InstructionEnum::LoadStackPointerOffsetToHl(
                LoadStackPointerOffsetToHl { offset: 0, phase: ThreePhases::First },
            )
        }
    } else if z == 1 {
        if y % 2 == 0 {
            InstructionEnum::PopDoubleRegister(
                PopDoubleRegister {
                    destination: self::stack::spec_from_stack_id(y / 2),
                    phase: ThreePhases::First,
                },
            )
        } else if y == 1 {
            InstructionEnum::Return(Return { phase: FourPhases::First })
        } else if y == 3 {
            InstructionEnum::ReturnFromInterrupt(ReturnFromInterrupt { phase: FourPhases::First })
        } else if y == 5 {
            InstructionEnum::JumpToHl(JumpToHl {  })
        } else {
            InstructionEnum::LoadHlToStackPointer(LoadHlToStackPointer { phase: TwoPhases::First })
        }
    } else if z == 2 {
        if y < 4 {
            InstructionEnum::JumpConditional(
                JumpConditional {
                    condition: Condition::spec_from_id(y),
                    address: 0,
                    phase: FourPhases::First,
                },
            )
        } else if y == 4 {
            InstructionEnum::AccumulatorAtC(
                AccumulatorAtC { direction: Direction::Store, phase: TwoPhases::First },
            )
        } else if y == 5 {
            InstructionEnum::AccumulatorDirect(
                AccumulatorDirect { direction: Direction::Store, address: 0, phase: FourPhases::First },
            )
        } else if y == 6 {
            InstructionEnum::AccumulatorAtC(
                AccumulatorAtC { direction: Direction::Load, phase: TwoPhases::First },
            )
        } else {
            InstructionEnum::AccumulatorDirect(
                AccumulatorDirect { direction: Direction::Load, address: 0, phase: FourPhases::First },
            )
        }
    } else if z == 3 {
        if y == 0 {
            InstructionEnum::Jump(Jump { address: 0, phase: FourPhases::First })
        } else if y == 1 {
            InstructionEnum::PrefixCb(PrefixCb {  })
        } else if y == 6 {
            InstructionEnum::DisableInterrupts(DisableInterrupts {  })
        } else if y == 7 {
            InstructionEnum::EnableInterrupts(EnableInterrupts {  })
        } else {
            InstructionEnum::Unknown(Unknown { opcode })
        }
    } else if z == 4 {
        if y < 4 {
            InstructionEnum::CallConditional(
                CallConditional {
                    condition: Condition::spec_from_id(y),
                    address: 0,
                    phase: SixPhases::First,
                },
            )
        } else {
            InstructionEnum::Unknown(Unknown { opcode })
        }
    } else if z == 5 {
        if y % 2 == 0 {
            InstructionEnum::PushDoubleRegister(
                PushDoubleRegister {
                    source: self::stack::spec_from_stack_id(y / 2),
                    phase: FourPhases::First,
                },
            )
        } else if y == 1 {
            InstructionEnum::Call(Call { address: 0, phase: SixPhases::First })
        } else {
            InstructionEnum::Unknown(Unknown { opcode })
        }
    } else if z == 6 {
        InstructionEnum::ArithmeticImmediate(
            ArithmeticImmediate {
                operation: ArithmeticOperation::spec_from_id(y),
                value: 0,
                phase: TwoPhases::First,
            },
        )
    } else {
        InstructionEnum::Restart(Restart { routine: y, phase: FourPhases::First })
    }
}

/// The instruction that an opcode of the first table stands for, in its
/// first phase and with no operand fetched yet.
///
/// Bits 6 and 7 of the opcode select a quarter of the table. In the second
/// quarter are the loads from register to register, with `HALT` in the place
/// of the load of `H` to itself; in the third the arithmetic on the
/// accumulator and a register. An operand field of three bits names a
/// register by its position in the register file. The opcodes that no
/// instruction is assigned to, and `STOP`, stand for [`Unknown`].
pub open spec fn spec_decode(opcode: u8) -> InstructionEnum {
    let y = (opcode / 8) % 8;
    let z = opcode % 8;
    if opcode < 0x40 {
        spec_decode_first_quarter(opcode, y, z)
    } else if opcode == 0x76 {
        InstructionEnum::Halt(Halt {  })
    } else if opcode < 0x80 {
        InstructionEnum::LoadFromRegisterToRegister(
            LoadFromRegisterToRegister {
                source: Register::spec_from_id(y),
                destination: Register::spec_from_id(z),
            },
        )
    } else if opcode < 0xC0 {
        InstructionEnum::Arithmetic(
            Arithmetic {
                operation: ArithmeticOperation::spec_from_id(y),
                source: Register::spec_from_id(z),
            },
        )
    } else {
        spec_decode_last_quarter(opcode, y, z)
    }
}

/// The instruction that an opcode of the second table, behind the prefix
/// `0xCB`, stands for: a rotation or a shift, the test of a bit, the
/// clearing of a bit or the setting of a bit, by bits 6 and 7 of the opcode.
pub open spec fn spec_decode_cb(opcode: u8) -> InstructionEnum {
    let y = (opcode / 8) % 8;
    let register = Register::spec_from_id(opcode % 8);
    if opcode < 0x40 {
        InstructionEnum::Shift(Shift { operation: ShiftOperation::spec_from_id(y), register })
    } else if opcode < 0x80 {
        InstructionEnum::TestBit(TestBit { bit: y, register })
    } else if opcode < 0xC0 {
        InstructionEnum::ResetBit(ResetBit { bit: y, register })
    } else {
        InstructionEnum::SetBit(SetBit { bit: y, register })
    }
}

/// The interrupt whose service is due: the pending one, if the interrupt
/// master enable is set.
pub open spec fn service_due<T: MemoryDevice>(cpu: CpuState, memory: T) -> Option<Interrupt> {
    if cpu.interrupt_master_enable {
        pending_interrupt(memory)
    } else {
        None
    }
}

/// What happens when an instruction has completed. If the service of an
/// interrupt is due, the service is next and nothing changes. Otherwise the
/// opcode at the program counter is fetched and decoded.
pub open spec fn load_next<T: MemoryDevice>(cpu: CpuState, memory: T) -> Step<T> {
    match service_due(cpu, memory) {
        Some(interrupt) => Step {
            next: InstructionEnum::InterruptServiceRoutine(
                InterruptServiceRoutine { interrupt, phase: FivePhases::First },
            ),
            cpu,
            memory,
        },
        None => Step {
            next: spec_decode(memory.spec_read(cpu.program_counter)),
            cpu: cpu.advanced(),
            memory,
        },
    }
}

/// Decode an opcode from `0x00` to `0x3F`.
fn decode_first_quarter(opcode: u8, y: u8, z: u8) -> (instruction: InstructionEnum)
    requires
        y < 8,
        z < 8,
    ensures
        instruction == spec_decode_first_quarter(opcode, y, z),
{
    if z == 0 {
        if y == 0 {
            InstructionEnum::Nop(Nop {  })
        } else if y == 1 {
            InstructionEnum::StoreStackPointer(
                StoreStackPointer { address: 0, phase: FivePhases::First },
            )
        } else if y == 2 {
            InstructionEnum::Unknown(Unknown { opcode })
        } else if y == 3 {
            InstructionEnum::JumpRelative(JumpRelative { offset: 0, phase: ThreePhases::First })
        } else {
            InstructionEnum::JumpRelativeConditional(
                JumpRelativeConditional {
                    condition: Condition::from_id(y),
                    offset: 0,
                    phase: ThreePhases::First,
                },
            )
        }
    } else if z == 1 {
        if y % 2 == 0 {
            InstructionEnum::LoadImmediateToDoubleRegister(
                LoadImmediateToDoubleRegister {
                    destination: WordRegister::from_id(y / 2),
                    value: 0,
                    phase: ThreePhases::First,
                },
            )
        } else {
            InstructionEnum::AddToHl(
                AddToHl { source: WordRegister::from_id(y / 2), phase: TwoPhases::First },
            )
        }
    } else if z == 2 {
        InstructionEnum::AccumulatorIndirect(
            AccumulatorIndirect {
                direction: if y % 2 == 0 {
                    Direction::Store
                } else {
                    Direction::Load
                },
                address: IndirectAddress::from_id(y / 2),
                phase: TwoPhases::First,
            },
        )
    } else if z == 3 {
        if y % 2 == 0 {
            InstructionEnum::IncrementDoubleRegister(
                IncrementDoubleRegister {
                    register: WordRegister::from_id(y / 2),
                    phase: TwoPhases::First,
                },
            )
        } else {
            InstructionEnum::DecrementDoubleRegister(
                DecrementDoubleRegister {
                    register: WordRegister::from_id(y / 2),
                    phase: TwoPhases::First,
                },
            )
        }
    } else if z == 4 {
        InstructionEnum::IncrementRegister(IncrementRegister { register: Register::from_id(y) })
    } else if z == 5 {
        InstructionEnum::DecrementRegister(DecrementRegister { register: Register::from_id(y) })
    } else if z == 6 {
        InstructionEnum::LoadImmediateToRegister(
            LoadImmediateToRegister {
                destination: Register::from_id(y),
                value: 0,
                phase: TwoPhases::First,
            },
        )
    } else {
        if y < 4 {
            InstructionEnum::RotateAccumulator(
                RotateAccumulator { rotation: AccumulatorRotation::from_id(y) },
            )
        } else if y == 4 {
            InstructionEnum::DecimalAdjust(DecimalAdjust {  })
        } else if y == 5 {
            InstructionEnum::Complement(Complement {  })
        } else if y == 6 {
            InstructionEnum::SetCarry(SetCarry {  })
        } else {
            InstructionEnum::InvertCarry(InvertCarry {  })
        }
    }
}

/// Decode an opcode from `0xC0` to `0xFF`.
fn decode_last_quarter(opcode: u8, y: u8, z: u8) -> (instruction: InstructionEnum)
    requires
        y < 8,
        z < 8,
    ensures
        instruction == spec_decode_last_quarter(opcode, y, z),
{
    if z == 0 {
        if y < 4 {
            InstructionEnum::ReturnConditional(
                ReturnConditional { condition: Condition::from_id(y), phase: FivePhases::First },
            )
        } else if y == 4 {
            InstructionEnum::AccumulatorHigh(
                AccumulatorHigh { direction: Direction::Store, offset: 0, phase: ThreePhases::First },
            )
        } else if y == 5 {
            InstructionEnum::AddOffsetToStackPointer(
                AddOffsetToStackPointer { offset: 0, phase: FourPhases::First },
            )
        } else if y == 6 {
            InstructionEnum::AccumulatorHigh(
                AccumulatorHigh { direction: Direction::Load, offset: 0, phase: ThreePhases::First },
            )
        } else {
            InstructionEnum::LoadStackPointerOffsetToHl(
                LoadStackPointerOffsetToHl { offset: 0, phase: ThreePhases::First },
            )
        }
    } else if z == 1 {
        if y % 2 == 0 {
            InstructionEnum::PopDoubleRegister(
                PopDoubleRegister {
                    destination: self::stack::from_stack_id(y / 2),
                    phase: ThreePhases::First,
                },
            )
        } else if y == 1 {
            InstructionEnum::Return(Return { phase: FourPhases::First })
        } else if y == 3 {
            InstructionEnum::ReturnFromInterrupt(ReturnFromInterrupt { phase: FourPhases::First })
        } else if y == 5 {
            InstructionEnum::JumpToHl(JumpToHl {  })
        } else {
            InstructionEnum::LoadHlToStackPointer(LoadHlToStackPointer { phase: TwoPhases::First })
        }
    } else if z == 2 {
        if y < 4 {
            InstructionEnum::JumpConditional(
                JumpConditional {
                    condition: Condition::from_id(y),
                    address: 0,
                    phase: FourPhases::First,
                },
            )
        } else if y == 4 {
            InstructionEnum::AccumulatorAtC(
                AccumulatorAtC { direction: Direction::Store, phase: TwoPhases::First },
            )
        } else if y == 5 {
            InstructionEnum::AccumulatorDirect(
                AccumulatorDirect { direction: Direction::Store, address: 0, phase: FourPhases::First },
            )
        } else if y == 6 {
            InstructionEnum::AccumulatorAtC(
                AccumulatorAtC { direction: Direction::Load, phase: TwoPhases::First },
            )
        } else {
            InstructionEnum::AccumulatorDirect(
                AccumulatorDirect { direction: Direction::Load, address: 0, phase: FourPhases::First },
            )
        }
    } else if z == 3 {
        if y == 0 {
            InstructionEnum::Jump(Jump { address: 0, phase: FourPhases::First })
        } else if y == 1 {
            InstructionEnum::PrefixCb(PrefixCb {  })
        } else if y == 6 {
            InstructionEnum::DisableInterrupts(DisableInterrupts {  })
        } else if y == 7 {
            InstructionEnum::EnableInterrupts(EnableInterrupts {  })
        } else {
            InstructionEnum::Unknown(Unknown { opcode })
        }
    } else if z == 4 {
        if y < 4 {
            InstructionEnum::CallConditional(
                CallConditional {
                    condition: Condition::from_id(y),
                    address: 0,
                    phase: SixPhases::First,
                },
            )
        } else {
            InstructionEnum::Unknown(Unknown { opcode })
        }
    } else if z == 5 {
        if y % 2 == 0 {
            InstructionEnum::PushDoubleRegister(
                PushDoubleRegister {
                    source: self::stack::from_stack_id(y / 2),
                    phase: FourPhases::First,
                },
            )
        } else if y == 1 {
            InstructionEnum::Call(Call { address: 0, phase: SixPhases::First })
        } else {
            InstructionEnum::Unknown(Unknown { opcode })
        }
    } else if z == 6 {
        InstructionEnum::ArithmeticImmediate(
            ArithmeticImmediate {
                operation: ArithmeticOperation::from_id(y),
                value: 0,
                phase: TwoPhases::First,
            },
        )
    } else {
        InstructionEnum::Restart(Restart { routine: y, phase: FourPhases::First })
    }
}

/// Decode an opcode of the first table.
pub fn decode(opcode: u8) -> (instruction: InstructionEnum)
    ensures
        instruction == spec_decode(opcode),
{
    let y = (opcode / 8) % 8;
    let z = opcode % 8;
    if opcode < 0x40 {
        decode_first_quarter(opcode, y, z)
    } else if opcode == 0x76 {
        InstructionEnum::Halt(Halt {  })
    } else if opcode < 0x80 {
        InstructionEnum::LoadFromRegisterToRegister(
            LoadFromRegisterToRegister {
                source: Register::from_id(y),
                destination: Register::from_id(z),
            },
        )
    } else if opcode < 0xC0 {
        InstructionEnum::Arithmetic(
            Arithmetic { operation: ArithmeticOperation::from_id(y), source: Register::from_id(z) },
        )
    } else {
        decode_last_quarter(opcode, y, z)
    }
}

/// Decode an opcode of the second table, behind the prefix `0xCB`.
pub fn decode_cb(opcode: u8) -> (instruction: InstructionEnum)
    ensures
        instruction == spec_decode_cb(opcode),
{
    let y = (opcode / 8) % 8;
    let register = Register::from_id(opcode % 8);
    if opcode < 0x40 {
        InstructionEnum::Shift(Shift { operation: ShiftOperation::from_id(y), register })
    } else if opcode < 0x80 {
        InstructionEnum::TestBit(TestBit { bit: y, register })
    } else if opcode < 0xC0 {
        InstructionEnum::ResetBit(ResetBit { bit: y, register })
    } else {
        InstructionEnum::SetBit(SetBit { bit: y, register })
    }
}

impl InstructionEnum {
    /// The bytes of the instruction.
    pub open spec fn spec_encode(self) -> Seq<u8> {
        match self {
            InstructionEnum::AccumulatorAtC(instruction) => instruction.spec_encode(),
            InstructionEnum::AccumulatorDirect(instruction) => instruction.spec_encode(),
            InstructionEnum::AccumulatorHigh(instruction) => instruction.spec_encode(),
            InstructionEnum::AccumulatorIndirect(instruction) => instruction.spec_encode(),
            InstructionEnum::AddOffsetToStackPointer(instruction) => instruction.spec_encode(),
            InstructionEnum::AddToHl(instruction) => instruction.spec_encode(),
            InstructionEnum::Arithmetic(instruction) => instruction.spec_encode(),
            InstructionEnum::ArithmeticImmediate(instruction) => instruction.spec_encode(),
            InstructionEnum::Call(instruction) => instruction.spec_encode(),
            InstructionEnum::CallConditional(instruction) => instruction.spec_encode(),
            InstructionEnum::Complement(instruction) => instruction.spec_encode(),
            InstructionEnum::DecimalAdjust(instruction) => instruction.spec_encode(),
            InstructionEnum::DecrementDoubleRegister(instruction) => instruction.spec_encode(),
            InstructionEnum::DecrementRegister(instruction) => instruction.spec_encode(),
            InstructionEnum::DisableInterrupts(instruction) => instruction.spec_encode(),
            InstructionEnum::EnableInterrupts(instruction) => instruction.spec_encode(),
            InstructionEnum::Halt(instruction) => instruction.spec_encode(),
            InstructionEnum::IncrementDoubleRegister(instruction) => instruction.spec_encode(),
            InstructionEnum::IncrementRegister(instruction) => instruction.spec_encode(),
            InstructionEnum::InterruptServiceRoutine(instruction) => instruction.spec_encode(),
            InstructionEnum::InvertCarry(instruction) => instruction.spec_encode(),
            InstructionEnum::Jump(instruction) => instruction.spec_encode(),
            InstructionEnum::JumpConditional(instruction) => instruction.spec_encode(),
            InstructionEnum::JumpRelative(instruction) => instruction.spec_encode(),
            InstructionEnum::JumpRelativeConditional(instruction) => instruction.spec_encode(),
            InstructionEnum::JumpToHl(instruction) => instruction.spec_encode(),
            InstructionEnum::LoadFromRegisterToRegister(instruction) => instruction.spec_encode(),
            InstructionEnum::LoadHlToStackPointer(instruction) => instruction.spec_encode(),
            InstructionEnum::LoadImmediateToDoubleRegister(instruction) => instruction.spec_encode(),
            InstructionEnum::LoadImmediateToRegister(instruction) => instruction.spec_encode(),
            InstructionEnum::LoadStackPointerOffsetToHl(instruction) => instruction.spec_encode(),
            InstructionEnum::Nop(instruction) => instruction.spec_encode(),
            InstructionEnum::PopDoubleRegister(instruction) => instruction.spec_encode(),
            InstructionEnum::PrefixCb(instruction) => instruction.spec_encode(),
            InstructionEnum::PushDoubleRegister(instruction) => instruction.spec_encode(),
            InstructionEnum::ResetBit(instruction) => instruction.spec_encode(),
            InstructionEnum::Restart(instruction) => instruction.spec_encode(),
            InstructionEnum::Return(instruction) => instruction.spec_encode(),
            InstructionEnum::ReturnConditional(instruction) => instruction.spec_encode(),
            InstructionEnum::ReturnFromInterrupt(instruction) => instruction.spec_encode(),
            InstructionEnum::RotateAccumulator(instruction) => instruction.spec_encode(),
            InstructionEnum::SetBit(instruction) => instruction.spec_encode(),
            InstructionEnum::SetCarry(instruction) => instruction.spec_encode(),
            InstructionEnum::Shift(instruction) => instruction.spec_encode(),
            InstructionEnum::StoreStackPointer(instruction) => instruction.spec_encode(),
            InstructionEnum::TestBit(instruction) => instruction.spec_encode(),
            InstructionEnum::Unknown(instruction) => instruction.spec_encode(),
        }
    }

    /// One machine cycle of the instruction.
    pub open spec fn spec_execute<T: MemoryDevice>(self, cpu: CpuState, memory: T) -> Step<T> {
        match self {
            InstructionEnum::AccumulatorAtC(instruction) => instruction.spec_execute(cpu, memory),
            InstructionEnum::AccumulatorDirect(instruction) => instruction.spec_execute(cpu, memory),
            InstructionEnum::AccumulatorHigh(instruction) => instruction.spec_execute(cpu, memory),
            InstructionEnum::AccumulatorIndirect(instruction) => instruction.spec_execute(cpu, memory),
            InstructionEnum::AddOffsetToStackPointer(instruction) => instruction.spec_execute(cpu, memory),
            InstructionEnum::AddToHl(instruction) => instruction.spec_execute(cpu, memory),
            InstructionEnum::Arithmetic(instruction) => instruction.spec_execute(cpu, memory),
            InstructionEnum::ArithmeticImmediate(instruction) => instruction.spec_execute(cpu, memory),
            InstructionEnum::Call(instruction) => instruction.spec_execute(cpu, memory),
            InstructionEnum::CallConditional(instruction) => instruction.spec_execute(cpu, memory),
            InstructionEnum::Complement(instruction) => instruction.spec_execute(cpu, memory),
            InstructionEnum::DecimalAdjust(instruction) => instruction.spec_execute(cpu, memory),
            InstructionEnum::DecrementDoubleRegister(instruction) => instruction.spec_execute(cpu, memory),
            InstructionEnum::DecrementRegister(instruction) => instruction.spec_execute(cpu, memory),
            InstructionEnum::DisableInterrupts(instruction) => instruction.spec_execute(cpu, memory),
            InstructionEnum::EnableInterrupts(instruction) => instruction.spec_execute(cpu, memory),
            InstructionEnum::Halt(instruction) => instruction.spec_execute(cpu, memory),
            InstructionEnum::IncrementDoubleRegister(instruction) => instruction.spec_execute(cpu, memory),
            InstructionEnum::IncrementRegister(instruction) => instruction.spec_execute(cpu, memory),
            InstructionEnum::InterruptServiceRoutine(instruction) => instruction.spec_execute(cpu, memory),
            InstructionEnum::InvertCarry(instruction) => instruction.spec_execute(cpu, memory),
            InstructionEnum::Jump(instruction) => instruction.spec_execute(cpu, memory),
            InstructionEnum::JumpConditional(instruction) => instruction.spec_execute(cpu, memory),
            InstructionEnum::JumpRelative(instruction) => instruction.spec_execute(cpu, memory),
            InstructionEnum::JumpRelativeConditional(instruction) => instruction.spec_execute(cpu, memory),
            InstructionEnum::JumpToHl(instruction) => instruction.spec_execute(cpu, memory),
            InstructionEnum::LoadFromRegisterToRegister(instruction) => instruction.spec_execute(cpu, memory),
            InstructionEnum::LoadHlToStackPointer(instruction) => instruction.spec_execute(cpu, memory),
            InstructionEnum::LoadImmediateToDoubleRegister(instruction) => instruction.spec_execute(cpu, memory),
            InstructionEnum::LoadImmediateToRegister(instruction) => instruction.spec_execute(cpu, memory),
            InstructionEnum::LoadStackPointerOffsetToHl(instruction) => instruction.spec_execute(cpu, memory),
            InstructionEnum::Nop(instruction) => instruction.spec_execute(cpu, memory),
            InstructionEnum::PopDoubleRegister(instruction) => instruction.spec_execute(cpu, memory),
            InstructionEnum::PrefixCb(instruction) => instruction.spec_execute(cpu, memory),
            InstructionEnum::PushDoubleRegister(instruction) => instruction.spec_execute(cpu, memory),
            InstructionEnum::ResetBit(instruction) => instruction.spec_execute(cpu, memory),
            InstructionEnum::Restart(instruction) => instruction.spec_execute(cpu, memory),
            InstructionEnum::Return(instruction) => instruction.spec_execute(cpu, memory),
            InstructionEnum::ReturnConditional(instruction) => instruction.spec_execute(cpu, memory),
            InstructionEnum::ReturnFromInterrupt(instruction) => instruction.spec_execute(cpu, memory),
            InstructionEnum::RotateAccumulator(instruction) => instruction.spec_execute(cpu, memory),
            InstructionEnum::SetBit(instruction) => instruction.spec_execute(cpu, memory),
            InstructionEnum::SetCarry(instruction) => instruction.spec_execute(cpu, memory),
            InstructionEnum::Shift(instruction) => instruction.spec_execute(cpu, memory),
            InstructionEnum::StoreStackPointer(instruction) => instruction.spec_execute(cpu, memory),
            InstructionEnum::TestBit(instruction) => instruction.spec_execute(cpu, memory),
            InstructionEnum::Unknown(instruction) => instruction.spec_execute(cpu, memory),
        }
    }
}

impl Instruction for InstructionEnum {
    open spec fn enumerated(&self) -> InstructionEnum {
        *self
    }

    fn execute<T: MemoryDevice>(&self, cpu: &mut CpuState, memory: &mut T) -> (next: InstructionEnum)
        ensures
            (Step { next, cpu: *final(cpu), memory: *final(memory) }) == self.spec_execute(
                *old(cpu),
                *old(memory),
            ),
    {
        match self {
            InstructionEnum::AccumulatorAtC(instruction) => instruction.execute(cpu, memory),
            InstructionEnum::AccumulatorDirect(instruction) => instruction.execute(cpu, memory),
            InstructionEnum::AccumulatorHigh(instruction) => instruction.execute(cpu, memory),
            InstructionEnum::AccumulatorIndirect(instruction) => instruction.execute(cpu, memory),
            InstructionEnum::AddOffsetToStackPointer(instruction) => instruction.execute(cpu, memory),
            InstructionEnum::AddToHl(instruction) => instruction.execute(cpu, memory),
            InstructionEnum::Arithmetic(instruction) => instruction.execute(cpu, memory),
            InstructionEnum::ArithmeticImmediate(instruction) => instruction.execute(cpu, memory),
            InstructionEnum::Call(instruction) => instruction.execute(cpu, memory),
            InstructionEnum::CallConditional(instruction) => instruction.execute(cpu, memory),
            InstructionEnum::Complement(instruction) => instruction.execute(cpu, memory),
            InstructionEnum::DecimalAdjust(instruction) => instruction.execute(cpu, memory),
            InstructionEnum::DecrementDoubleRegister(instruction) => instruction.execute(cpu, memory),
            InstructionEnum::DecrementRegister(instruction) => instruction.execute(cpu, memory),
            InstructionEnum::DisableInterrupts(instruction) => instruction.execute(cpu, memory),
            InstructionEnum::EnableInterrupts(instruction) => instruction.execute(cpu, memory),
            InstructionEnum::Halt(instruction) => instruction.execute(cpu, memory),
            InstructionEnum::IncrementDoubleRegister(instruction) => instruction.execute(cpu, memory),
            InstructionEnum::IncrementRegister(instruction) => instruction.execute(cpu, memory),
            InstructionEnum::InterruptServiceRoutine(instruction) => instruction.execute(cpu, memory),
            InstructionEnum::InvertCarry(instruction) => instruction.execute(cpu, memory),
            InstructionEnum::Jump(instruction) => instruction.execute(cpu, memory),
            InstructionEnum::JumpConditional(instruction) => instruction.execute(cpu, memory),
            InstructionEnum::JumpRelative(instruction) => instruction.execute(cpu, memory),
            InstructionEnum::JumpRelativeConditional(instruction) => instruction.execute(cpu, memory),
            InstructionEnum::JumpToHl(instruction) => instruction.execute(cpu, memory),
            InstructionEnum::LoadFromRegisterToRegister(instruction) => instruction.execute(cpu, memory),
            InstructionEnum::LoadHlToStackPointer(instruction) => instruction.execute(cpu, memory),
            InstructionEnum::LoadImmediateToDoubleRegister(instruction) => instruction.execute(cpu, memory),
            InstructionEnum::LoadImmediateToRegister(instruction) => instruction.execute(cpu, memory),
            InstructionEnum::LoadStackPointerOffsetToHl(instruction) => instruction.execute(cpu, memory),
            InstructionEnum::Nop(instruction) => instruction.execute(cpu, memory),
            InstructionEnum::PopDoubleRegister(instruction) => instruction.execute(cpu, memory),
            InstructionEnum::PrefixCb(instruction) => instruction.execute(cpu, memory),
            InstructionEnum::PushDoubleRegister(instruction) => instruction.execute(cpu, memory),
            InstructionEnum::ResetBit(instruction) => instruction.execute(cpu, memory),
            InstructionEnum::Restart(instruction) => instruction.execute(cpu, memory),
            InstructionEnum::Return(instruction) => instruction.execute(cpu, memory),
            InstructionEnum::ReturnConditional(instruction) => instruction.execute(cpu, memory),
            InstructionEnum::ReturnFromInterrupt(instruction) => instruction.execute(cpu, memory),
            InstructionEnum::RotateAccumulator(instruction) => instruction.execute(cpu, memory),
            InstructionEnum::SetBit(instruction) => instruction.execute(cpu, memory),
            InstructionEnum::SetCarry(instruction) => instruction.execute(cpu, memory),
            InstructionEnum::Shift(instruction) => instruction.execute(cpu, memory),
            InstructionEnum::StoreStackPointer(instruction) => instruction.execute(cpu, memory),
            InstructionEnum::TestBit(instruction) => instruction.execute(cpu, memory),
            InstructionEnum::Unknown(instruction) => instruction.execute(cpu, memory),
        }
    }

    fn encode(&self) -> (bytes: Vec<u8>)
        ensures
            bytes@ == self.spec_encode(),
    {
        match self {
            InstructionEnum::AccumulatorAtC(instruction) => instruction.encode(),
            InstructionEnum::AccumulatorDirect(instruction) => instruction.encode(),
            InstructionEnum::AccumulatorHigh(instruction) => instruction.encode(),
            InstructionEnum::AccumulatorIndirect(instruction) => instruction.encode(),
            InstructionEnum::AddOffsetToStackPointer(instruction) => instruction.encode(),
            InstructionEnum::AddToHl(instruction) => instruction.encode(),
            InstructionEnum::Arithmetic(instruction) => instruction.encode(),
            InstructionEnum::ArithmeticImmediate(instruction) => instruction.encode(),
            InstructionEnum::Call(instruction) => instruction.encode(),
            InstructionEnum::CallConditional(instruction) => instruction.encode(),
            InstructionEnum::Complement(instruction) => instruction.encode(),
            InstructionEnum::DecimalAdjust(instruction) => instruction.encode(),
            InstructionEnum::DecrementDoubleRegister(instruction) => instruction.encode(),
            InstructionEnum::DecrementRegister(instruction) => instruction.encode(),
            InstructionEnum::DisableInterrupts(instruction) => instruction.encode(),
            InstructionEnum::EnableInterrupts(instruction) => instruction.encode(),
            InstructionEnum::Halt(instruction) => instruction.encode(),
            InstructionEnum::IncrementDoubleRegister(instruction) => instruction.encode(),
            InstructionEnum::IncrementRegister(instruction) => instruction.encode(),
            InstructionEnum::InterruptServiceRoutine(instruction) => instruction.encode(),
            InstructionEnum::InvertCarry(instruction) => instruction.encode(),
            InstructionEnum::Jump(instruction) => instruction.encode(),
            InstructionEnum::JumpConditional(instruction) => instruction.encode(),
            InstructionEnum::JumpRelative(instruction) => instruction.encode(),
            InstructionEnum::JumpRelativeConditional(instruction) => instruction.encode(),
            InstructionEnum::JumpToHl(instruction) => instruction.encode(),
            InstructionEnum::LoadFromRegisterToRegister(instruction) => instruction.encode(),
            InstructionEnum::LoadHlToStackPointer(instruction) => instruction.encode(),
            InstructionEnum::LoadImmediateToDoubleRegister(instruction) => instruction.encode(),
            InstructionEnum::LoadImmediateToRegister(instruction) => instruction.encode(),
            InstructionEnum::LoadStackPointerOffsetToHl(instruction) => instruction.encode(),
            InstructionEnum::Nop(instruction) => instruction.encode(),
            InstructionEnum::PopDoubleRegister(instruction) => instruction.encode(),
            InstructionEnum::PrefixCb(instruction) => instruction.encode(),
            InstructionEnum::PushDoubleRegister(instruction) => instruction.encode(),
            InstructionEnum::ResetBit(instruction) => instruction.encode(),
            InstructionEnum::Restart(instruction) => instruction.encode(),
            InstructionEnum::Return(instruction) => instruction.encode(),
            InstructionEnum::ReturnConditional(instruction) => instruction.encode(),
            InstructionEnum::ReturnFromInterrupt(instruction) => instruction.encode(),
            InstructionEnum::RotateAccumulator(instruction) => instruction.encode(),
            InstructionEnum::SetBit(instruction) => instruction.encode(),
            InstructionEnum::SetCarry(instruction) => instruction.encode(),
            InstructionEnum::Shift(instruction) => instruction.encode(),
            InstructionEnum::StoreStackPointer(instruction) => instruction.encode(),
            InstructionEnum::TestBit(instruction) => instruction.encode(),
            InstructionEnum::Unknown(instruction) => instruction.encode(),
        }
    }
}

/// An instruction that was decoded from an opcode between `0x00` and `0x3F`
/// encodes to that opcode.
proof fn lemma_first_quarter_round_trip(opcode: u8)
    requires
        opcode < 0x40,
    ensures
        spec_decode(opcode).spec_encode() == seq![opcode],
{
    let y = (opcode / 8) % 8;
    let z = opcode % 8;
    assert(opcode == 8 * y + z);
    assert(y % 2 == 0 ==> y == 2 * (y / 2));
    assert(y % 2 != 0 ==> y == 2 * (y / 2) + 1);
}

/// An instruction that was decoded from an opcode between `0xC0` and `0xFF`
/// encodes to that opcode.
proof fn lemma_last_quarter_round_trip(opcode: u8)
    requires
        opcode >= 0xC0,
    ensures
        spec_decode(opcode).spec_encode() == seq![opcode],
{
    let y = (opcode / 8) % 8;
    let z = opcode % 8;
    assert(opcode == 0xC0 + 8 * y + z);
    assert(y % 2 == 0 ==> y == 2 * (y / 2));
    assert(y % 2 != 0 ==> y == 2 * (y / 2) + 1);
}

/// An instruction that was decoded from an opcode of the first table encodes
/// to that opcode, and to nothing else: decoding loses nothing.
pub proof fn lemma_decode_round_trip(opcode: u8)
    ensures
        spec_decode(opcode).spec_encode() == seq![opcode],
{
    let y = (opcode / 8) % 8;
    let z = opcode % 8;
    if opcode < 0x40 {
        lemma_first_quarter_round_trip(opcode);
    } else if opcode < 0x80 {
        assert(opcode == 0x40 + 8 * y + z);
    } else if opcode < 0xC0 {
        assert(opcode == 0x80 + 8 * y + z);
    } else {
        lemma_last_quarter_round_trip(opcode);
    }
}

/// An instruction that was decoded from an opcode of the second table
/// encodes to that opcode.
pub proof fn lemma_decode_cb_round_trip(opcode: u8)
    ensures
        spec_decode_cb(opcode).spec_encode() == seq![opcode],
{
    let y = (opcode / 8) % 8;
    let z = opcode % 8;
    assert(opcode == 64 * (opcode / 64) + 8 * y + z);
}

/// No opcode of either table decodes to the service of an interrupt, and
/// only the prefix `0xCB` decodes to the prefix instruction.
pub proof fn lemma_decode_is_an_opcode(opcode: u8)
    ensures
        !(spec_decode(opcode) is InterruptServiceRoutine),
        !(spec_decode_cb(opcode) is InterruptServiceRoutine),
        spec_decode(opcode) is PrefixCb <==> opcode == 0xCB,
{
}

} // verus!
