use rust_gameboy_library::cpu::instruction::phases::{FivePhases, FourPhases, TwoPhases};
use rust_gameboy_library::cpu::instruction::{
    AccumulatorAtC, AccumulatorIndirect, Condition, Direction, IndirectAddress, Instruction,
    InstructionEnum, LoadFromRegisterToRegister, Restart, ReturnConditional,
};
use rust_gameboy_library::cpu::{Cpu, CpuState, DoubleRegister, Flag, Register};
use rust_gameboy_library::debug_memory::DebugMemory;
use rust_gameboy_library::memory::MemoryDevice;

fn run(
    mut instruction: InstructionEnum,
    cpu: &mut CpuState,
    memory: &mut DebugMemory,
    cycles: usize,
) -> InstructionEnum {
    for _ in 0..cycles {
        instruction = instruction.execute(cpu, memory);
    }
    instruction
}

#[test]
fn a_load_copies_one_register_to_another_without_touching_flags() {
    let mut cpu = CpuState::new();
    let mut memory = DebugMemory::new();
    cpu.write_register(Register::A, 100);
    cpu.write_register(Register::F, 0xF0);
    let load = LoadFromRegisterToRegister { source: Register::A, destination: Register::C };
    assert_eq!(load.encode(), vec![0x42]);
    load.execute(&mut cpu, &mut memory);
    assert_eq!(cpu.read_register(Register::C), 100);
    assert_eq!(cpu.read_register(Register::A), 100);
    assert_eq!(cpu.read_register(Register::F), 0xF0);
    let load = LoadFromRegisterToRegister { source: Register::A, destination: Register::F };
    load.execute(&mut cpu, &mut memory);
    assert_eq!(cpu.read_register(Register::F), 0x60);
}

#[test]
fn immediate_loads_fetch_their_operands_through_the_program_counter() {
    let mut cpu = CpuState::new();
    let mut memory = DebugMemory::new_with_init(&[0x3E, 0x99, 0x31, 0xFE, 0xCF, 0xF9, 0x00]);
    let instruction = cpu.load_instruction(&memory);
    let instruction = run(instruction, &mut cpu, &mut memory, 1);
    assert_eq!(cpu.read_register(Register::L), 0x99);
    assert_eq!(instruction.encode(), vec![0x3E, 0x99]);
    let instruction = run(instruction, &mut cpu, &mut memory, 1);
    let instruction = run(instruction, &mut cpu, &mut memory, 1);
    assert_eq!(instruction.encode(), vec![0x31, 0xFE]);
    assert_eq!(cpu.read_stack_pointer(), 0xFFFE);
    let instruction = run(instruction, &mut cpu, &mut memory, 1);
    assert_eq!(instruction.encode(), vec![0x31, 0xFE, 0xCF]);
    assert_eq!(cpu.read_stack_pointer(), 0xCFFE);
    let instruction = run(instruction, &mut cpu, &mut memory, 1);
    cpu.write_double_register(DoubleRegister::HL, 0xD123);
    let instruction = run(instruction, &mut cpu, &mut memory, 1);
    assert_eq!(cpu.read_stack_pointer(), 0xD123);
    let instruction = run(instruction, &mut cpu, &mut memory, 1);
    assert!(matches!(instruction, InstructionEnum::Nop(_)));
    assert_eq!(cpu.read_program_counter(), 7);
}

#[test]
fn indirect_transfers_use_and_adjust_the_double_register() {
    let mut cpu = CpuState::new();
    let mut memory = DebugMemory::new();
    cpu.write_register(Register::A, 0x42);
    cpu.write_double_register(DoubleRegister::HL, 0xC000);
    let store = AccumulatorIndirect {
        direction: Direction::Store,
        address: IndirectAddress::HLIncrement,
        phase: TwoPhases::First,
    };
    assert_eq!(store.encode(), vec![0x22]);
    store.execute(&mut cpu, &mut memory);
    assert_eq!(memory.read(0xC000), 0x42);
    assert_eq!(cpu.read_double_register(DoubleRegister::HL), 0xC001);

    memory.write(0xC001, 0x17);
    let load = AccumulatorIndirect {
        direction: Direction::Load,
        address: IndirectAddress::HLDecrement,
        phase: TwoPhases::First,
    };
    assert_eq!(load.encode(), vec![0x3A]);
    load.execute(&mut cpu, &mut memory);
    assert_eq!(cpu.read_register(Register::A), 0x17);
    assert_eq!(cpu.read_double_register(DoubleRegister::HL), 0xC000);

    cpu.write_double_register(DoubleRegister::BC, 0xC100);
    let store = AccumulatorIndirect {
        direction: Direction::Store,
        address: IndirectAddress::BC,
        phase: TwoPhases::First,
    };
    assert_eq!(store.encode(), vec![0x02]);
    store.execute(&mut cpu, &mut memory);
    assert_eq!(memory.read(0xC100), 0x17);
    assert_eq!(cpu.read_double_register(DoubleRegister::BC), 0xC100);

    memory.write(0xC200, 0x55);
    cpu.write_double_register(DoubleRegister::DE, 0xC200);
    let load = AccumulatorIndirect {
        direction: Direction::Load,
        address: IndirectAddress::DE,
        phase: TwoPhases::First,
    };
    assert_eq!(load.encode(), vec![0x1A]);
    load.execute(&mut cpu, &mut memory);
    assert_eq!(cpu.read_register(Register::A), 0x55);
    for id in 0..=255u8 {
        assert_eq!(IndirectAddress::from_id(id).id(), id % 4);
    }
}

#[test]
fn high_page_transfers_address_ff00_plus_an_offset() {
    let mut cpu = CpuState::new();
    let mut memory = DebugMemory::new_with_init(&[0xE0, 0x80, 0xF0, 0x81, 0xFA, 0x80, 0xFF, 0x00]);
    cpu.write_register(Register::A, 0x77);
    memory.write(0xFF81, 0x99);
    let instruction = cpu.load_instruction(&memory);
    let instruction = run(instruction, &mut cpu, &mut memory, 3);
    assert_eq!(memory.read(0xFF80), 0x77);
    let instruction = run(instruction, &mut cpu, &mut memory, 3);
    assert_eq!(cpu.read_register(Register::A), 0x99);
    let instruction = run(instruction, &mut cpu, &mut memory, 4);
    assert_eq!(cpu.read_register(Register::A), 0x77);
    assert!(matches!(instruction, InstructionEnum::Nop(_)));

    cpu.write_register(Register::C, 0x90);
    let store = AccumulatorAtC { direction: Direction::Store, phase: TwoPhases::First };
    assert_eq!(store.encode(), vec![0xE2]);
    store.execute(&mut cpu, &mut memory);
    assert_eq!(memory.read(0xFF90), 0x77);
    memory.write(0xFF90, 0x12);
    let load = AccumulatorAtC { direction: Direction::Load, phase: TwoPhases::First };
    assert_eq!(load.encode(), vec![0xF2]);
    load.execute(&mut cpu, &mut memory);
    assert_eq!(cpu.read_register(Register::A), 0x12);
}

#[test]
fn relative_jumps_count_from_the_next_instruction() {
    let mut cpu = CpuState::new();
    let mut memory = DebugMemory::new_with_init(&[0x18, 0xFE]);
    let instruction = cpu.load_instruction(&memory);
    let instruction = run(instruction, &mut cpu, &mut memory, 2);
    assert_eq!(cpu.read_program_counter(), 0x0000);
    let instruction = run(instruction, &mut cpu, &mut memory, 1);
    assert!(matches!(instruction, InstructionEnum::JumpRelative(_)));

    let mut cpu = CpuState::new();
    let mut memory = DebugMemory::new_with_init(&[0x30, 0x10]);
    cpu.write_flag(Flag::Carry, true);
    let instruction = cpu.load_instruction(&memory);
    run(instruction, &mut cpu, &mut memory, 2);
    assert_eq!(cpu.read_program_counter(), 0x0003);
    let mut cpu = CpuState::new();
    cpu.write_flag(Flag::Carry, false);
    let instruction = cpu.load_instruction(&memory);
    run(instruction, &mut cpu, &mut memory, 2);
    assert_eq!(cpu.read_program_counter(), 0x0012);
}

#[test]
fn jumps_to_hl_and_to_an_address() {
    let mut cpu = CpuState::new();
    let mut memory = DebugMemory::new_with_init(&[0xE9]);
    memory.write(0x4000, 0xC3);
    memory.write(0x4001, 0x00);
    memory.write(0x4002, 0x50);
    cpu.write_double_register(DoubleRegister::HL, 0x4000);
    let instruction = cpu.load_instruction(&memory);
    let instruction = run(instruction, &mut cpu, &mut memory, 1);
    assert!(matches!(instruction, InstructionEnum::Jump(_)));
    assert_eq!(cpu.read_program_counter(), 0x4001);
    let instruction = run(instruction, &mut cpu, &mut memory, 2);
    assert_eq!(cpu.read_program_counter(), 0x5000);
    assert_eq!(instruction.encode(), vec![0xC3, 0x00, 0x50]);
    run(instruction, &mut cpu, &mut memory, 2);
    assert_eq!(cpu.read_program_counter(), 0x5001);
}

#[test]
fn conditions_read_the_zero_and_the_carry_flag() {
    let mut cpu = CpuState::new();
    assert!(Condition::NotZero.holds(&cpu));
    assert!(!Condition::Zero.holds(&cpu));
    assert!(Condition::NotCarry.holds(&cpu));
    assert!(!Condition::Carry.holds(&cpu));
    cpu.write_flags(true, false, false, true);
    assert!(!Condition::NotZero.holds(&cpu));
    assert!(Condition::Zero.holds(&cpu));
    assert!(!Condition::NotCarry.holds(&cpu));
    assert!(Condition::Carry.holds(&cpu));
    for id in 0..=255u8 {
        assert_eq!(Condition::from_id(id).id(), id % 4);
    }
}

#[test]
fn conditional_calls_and_returns_skip_their_work_when_not_taken() {
    let mut cpu = CpuState::new();
    let mut memory = DebugMemory::new_with_init(&[0xC4, 0x00, 0x30, 0xC8, 0x00]);
    cpu.write_flag(Flag::Zero, true);
    cpu.write_stack_pointer(0xD000);
    let instruction = cpu.load_instruction(&memory);
    let instruction = run(instruction, &mut cpu, &mut memory, 3);
    assert!(matches!(instruction, InstructionEnum::ReturnConditional(_)));
    assert_eq!(cpu.read_stack_pointer(), 0xD000);
    assert_eq!(cpu.read_program_counter(), 4);

    memory.write(0xD000, 0x00);
    memory.write(0xD001, 0x30);
    let instruction = run(instruction, &mut cpu, &mut memory, 1);
    assert_eq!(
        instruction,
        InstructionEnum::ReturnConditional(ReturnConditional {
            condition: Condition::Zero,
            phase: FivePhases::Second,
        })
    );
    run(instruction, &mut cpu, &mut memory, 3);
    assert_eq!(cpu.read_program_counter(), 0x3000);
    assert_eq!(cpu.read_stack_pointer(), 0xD002);

    let mut cpu = CpuState::new();
    cpu.write_stack_pointer(0xD000);
    let instruction = cpu.load_instruction(&memory);
    let instruction = run(instruction, &mut cpu, &mut memory, 5);
    assert_eq!(cpu.read_program_counter(), 0x3000);
    assert_eq!(cpu.read_stack_pointer(), 0xCFFE);
    assert_eq!(memory.read(0xCFFE), 0x03);
    assert_eq!(memory.read(0xCFFF), 0x00);
    assert_eq!(instruction.encode(), vec![0xC4, 0x00, 0x30]);
}

#[test]
fn restart_calls_a_routine_at_the_start_of_the_memory() {
    let mut cpu = CpuState::new();
    let mut memory = DebugMemory::new();
    cpu.write_program_counter(0x1235);
    cpu.write_stack_pointer(0xD000);
    let restart = InstructionEnum::Restart(Restart { routine: 5, phase: FourPhases::First });
    assert_eq!(restart.encode(), vec![0xEF]);
    run(restart, &mut cpu, &mut memory, 3);
    assert_eq!(cpu.read_program_counter(), 0x0028);
    assert_eq!(cpu.read_stack_pointer(), 0xCFFE);
    assert_eq!(memory.read(0xCFFF), 0x12);
    assert_eq!(memory.read(0xCFFE), 0x35);
}

#[test]
fn return_from_interrupt_enables_interrupts_again() {
    let mut cpu = CpuState::new();
    let mut memory = DebugMemory::new_with_init(&[0xD9]);
    cpu.write_stack_pointer(0xD000);
    memory.write(0xD000, 0x34);
    memory.write(0xD001, 0x12);
    let instruction = cpu.load_instruction(&memory);
    let instruction = run(instruction, &mut cpu, &mut memory, 2);
    assert_eq!(cpu.read_interrupt_master_enable(), false);
    run(instruction, &mut cpu, &mut memory, 1);
    assert_eq!(cpu.read_interrupt_master_enable(), true);
    assert_eq!(cpu.read_program_counter(), 0x1234);
    assert_eq!(cpu.read_stack_pointer(), 0xD002);
}

#[test]
fn store_stack_pointer_writes_the_low_byte_first() {
    let mut cpu = CpuState::new();
    let mut memory = DebugMemory::new_with_init(&[0x08, 0xFF, 0xC0]);
    cpu.write_stack_pointer(0xABCD);
    let instruction = cpu.load_instruction(&memory);
    let instruction = run(instruction, &mut cpu, &mut memory, 3);
    assert_eq!(memory.read(0xC0FF), 0xCD);
    assert_eq!(memory.read(0xC100), 0x00);
    run(instruction, &mut cpu, &mut memory, 1);
    assert_eq!(memory.read(0xC100), 0xAB);
}
