use rust_gameboy_library::cpu::instruction::phases::FourPhases;
use rust_gameboy_library::cpu::instruction::{
    Halt, Instruction, InstructionEnum, InvertCarry, PrefixCb, Return, SetCarry,
};
use rust_gameboy_library::cpu::interrupt_controller::InterruptController;
use rust_gameboy_library::cpu::{Cpu, CpuState, Flag, Interrupt};
use rust_gameboy_library::debug_memory::DebugMemory;
use rust_gameboy_library::memory::{MemoryController, MemoryDevice};

#[test]
fn halt_works() {
    let mut cpu = CpuState::new();
    let mut memory = MemoryController::new_for_tests();

    cpu.write_interrupt_master_enable(false);

    let instruction = Halt {};

    let instruction = instruction.execute(&mut cpu, &mut memory);
    let instruction = instruction.execute(&mut cpu, &mut memory);
    let instruction = instruction.execute(&mut cpu, &mut memory);
    let instruction = instruction.execute(&mut cpu, &mut memory);
    let instruction = instruction.execute(&mut cpu, &mut memory);
    let instruction = instruction.execute(&mut cpu, &mut memory);

    assert!(matches!(instruction, InstructionEnum::Halt(Halt {})));

    cpu.write_interrupt_master_enable(true);
    memory.write_interrupt_enable(Interrupt::VBlank, true);
    memory.write_interrupt_flag(Interrupt::VBlank, true);

    let instruction = instruction.execute(&mut cpu, &mut memory);

    assert!(matches!(
        instruction,
        InstructionEnum::InterruptServiceRoutine(_)
    ));

    assert_eq!(cpu.read_interrupt_master_enable(), true);
}

#[test]
fn invert_carry_invert_carry_works() {
    let mut cpu = CpuState::new();
    let mut memory = MemoryController::new_for_tests();

    cpu.write_flag(Flag::Carry, false);
    let instruction = InvertCarry {};
    instruction.execute(&mut cpu, &mut memory);
    assert_eq!(cpu.read_flag(Flag::Subtract), false);
    assert_eq!(cpu.read_flag(Flag::HalfCarry), false);
    assert_eq!(cpu.read_flag(Flag::Carry), true);
}

#[test]
fn instruction_works() {
    let mut cpu = CpuState::new();
    let mut memory = MemoryController::new_with_init(&[1, 1, 1, 1]);

    let instruction = PrefixCb {};

    instruction.execute(&mut cpu, &mut memory);
}

#[test]
fn return_works() {
    let mut cpu = CpuState::new();
    let mut memory = MemoryController::new_for_tests();

    cpu.write_stack_pointer(0x1234 - 2);
    memory.write(0x1234 - 2, 0x34);
    memory.write(0x1234 - 1, 0x12);

    let instruction = Return {
        phase: FourPhases::First,
    };

    let instruction = instruction.execute(&mut cpu, &mut memory);
    let instruction = instruction.execute(&mut cpu, &mut memory);
    let instruction = instruction.execute(&mut cpu, &mut memory);

    assert!(matches!(
        instruction,
        InstructionEnum::Return(Return {
            phase: FourPhases::Fourth,
        })
    ));

    assert_eq!(cpu.read_stack_pointer(), 0x1234);
    assert_eq!(cpu.read_program_counter(), 0x1234);
    assert_eq!(memory.read(0x1234 - 2), 0x34);
    assert_eq!(memory.read(0x1234 - 1), 0x12);
}

#[test]
fn set_carry_invert_carry_works() {
    let mut cpu = CpuState::new();
    let mut memory = DebugMemory::new();

    let instruction = SetCarry {};
    instruction.execute(&mut cpu, &mut memory);
    assert_eq!(cpu.read_flag(Flag::Subtract), false);
    assert_eq!(cpu.read_flag(Flag::HalfCarry), false);
    assert_eq!(cpu.read_flag(Flag::Carry), true);
}
