use rust_gameboy_library::cpu::instruction::{InstructionEnum, LoadFromRegisterToRegister};
use rust_gameboy_library::cpu::{Cpu, CpuState, DoubleRegister, Register};
use rust_gameboy_library::debug_memory::DebugMemory;

#[test]
fn read_double_register() {
    let mut cpu = CpuState::new();
    cpu.write_register(Register::B, 1);
    cpu.write_register(Register::C, 3);
    let double_value = cpu.read_double_register(DoubleRegister::BC);
    assert_eq!(double_value, 259)
}

#[test]
fn write_double_register() {
    let mut cpu = CpuState::new();
    cpu.write_double_register(DoubleRegister::BC, 259);
    assert_eq!(cpu.read_register(Register::B), 1);
    assert_eq!(cpu.read_register(Register::C), 3);
}

#[test]
fn write_read_double_register() {
    let mut cpu = CpuState::new();
    cpu.write_double_register(DoubleRegister::BC, 9874);
    assert_eq!(cpu.read_double_register(DoubleRegister::BC), 9874);
}

#[test]
fn cpu_read_program_counter_works() {
    let mut cpu = CpuState::new();

    let memory = DebugMemory::new_with_init(&[0b01000010u8, 8]);
    let opcode = cpu.load_opcode(&memory);

    assert_eq!(opcode, 0b01000010u8);

    let opcode = cpu.load_opcode(&memory);
    assert_eq!(opcode, 8);
}

#[test]
fn cpu_can_fetch_and_decode_instructions() {
    let mut cpu = CpuState::new();
    cpu.write_register(Register::A, 100);

    let memory = DebugMemory::new_with_init(&[0b01000010u8]);
    let instruction = cpu.load_instruction(&memory);
    assert!(matches!(
        instruction,
        InstructionEnum::LoadFromRegisterToRegister(LoadFromRegisterToRegister {
            source: Register::A,
            destination: Register::C
        })
    ))
}
