use rust_gameboy_library::cpu::instruction::phases::{FivePhases, FourPhases, SixPhases, ThreePhases};
use rust_gameboy_library::cpu::instruction::{
    Call, Halt, Instruction, InstructionEnum, InterruptServiceRoutine, InvertCarry,
    JumpConditional, PopDoubleRegister, PushDoubleRegister, Return,
};
use rust_gameboy_library::cpu::interrupt_controller::InterruptController;
use rust_gameboy_library::cpu::{Cpu, CpuState, DoubleRegister, Flag, Interrupt, Register};
use rust_gameboy_library::debug_memory::DebugMemory;
use rust_gameboy_library::machine::Machine;
use rust_gameboy_library::memory::memory_addresses::INTERRUPT_FLAG_ADDRESS;
use rust_gameboy_library::memory::{MemoryController, MemoryDevice};

fn run(
    mut instruction: InstructionEnum,
    cpu: &mut CpuState,
    memory: &mut DebugMemory,
    cycles: usize,
) -> InstructionEnum {
    for _ in 0..cycles {
        instruction = instruction.execute(cpu, memory);
    }
    instruction
}

fn program(bytes: &[u8]) -> (CpuState, DebugMemory, InstructionEnum) {
    let mut cpu = CpuState::new();
    let memory = DebugMemory::new_with_init(bytes);
    let instruction = cpu.load_instruction(&memory);
    (cpu, memory, instruction)
}

#[test]
fn load_bc_with_an_immediate_value() {
    let (mut cpu, mut memory, instruction) = program(&[0x01, 0x34, 0x12]);
    run(instruction, &mut cpu, &mut memory, 2);
    assert_eq!(cpu.read_double_register(DoubleRegister::BC), 0x1234);
    assert_eq!(cpu.read_program_counter(), 3);
}

#[test]
fn return_pops_the_program_counter_across_its_phases() {
    let mut cpu = CpuState::new();
    let mut memory = DebugMemory::new();
    cpu.write_stack_pointer(0x1232);
    memory.write(0x1232, 0x34);
    memory.write(0x1233, 0x12);
    let instruction = InstructionEnum::Return(Return { phase: FourPhases::First });
    let instruction = run(instruction, &mut cpu, &mut memory, 1);
    assert_eq!(instruction, InstructionEnum::Return(Return { phase: FourPhases::Second }));
    assert_eq!(cpu.read_program_counter(), 0x0034);
    assert_eq!(cpu.read_stack_pointer(), 0x1233);
    let instruction = run(instruction, &mut cpu, &mut memory, 2);
    assert_eq!(instruction, InstructionEnum::Return(Return { phase: FourPhases::Fourth }));
    assert_eq!(cpu.read_program_counter(), 0x1234);
    assert_eq!(cpu.read_stack_pointer(), 0x1234);
    memory.write(0x1234, 0x76);
    let instruction = run(instruction, &mut cpu, &mut memory, 1);
    assert_eq!(instruction, InstructionEnum::Halt(Halt {}));
    assert_eq!(cpu.read_program_counter(), 0x1235);
}

#[test]
fn invert_carry_from_cleared_flags() {
    for zero in [false, true] {
        let mut cpu = CpuState::new();
        let mut memory = DebugMemory::new();
        cpu.write_register(Register::F, if zero { 0x80 } else { 0x00 });
        (InvertCarry {}).execute(&mut cpu, &mut memory);
        assert_eq!(cpu.read_flag(Flag::Carry), true);
        assert_eq!(cpu.read_flag(Flag::HalfCarry), false);
        assert_eq!(cpu.read_flag(Flag::Subtract), false);
        assert_eq!(cpu.read_flag(Flag::Zero), zero);
    }
}

#[test]
fn inverting_the_carry_twice_only_clears_subtract_and_half_carry() {
    for flags in 0..16u8 {
        let mut cpu = CpuState::new();
        let mut memory = DebugMemory::new_with_init(&[0x3F, 0x3F]);
        cpu.write_register(Register::F, flags << 4);
        let instruction = cpu.load_instruction(&memory);
        run(instruction, &mut cpu, &mut memory, 2);
        assert_eq!(cpu.read_register(Register::F), (flags << 4) & 0x90);
    }
}

#[test]
fn halt_waits_while_nothing_is_pending() {
    for enabled in [false, true] {
        let mut cpu = CpuState::new();
        let mut memory = MemoryController::new_for_tests();
        cpu.write_interrupt_master_enable(enabled);
        memory.write_interrupt_flag(Interrupt::VBlank, true);
        memory.write_interrupt_enable(Interrupt::Timer, true);
        let before = cpu;
        let next = (Halt {}).execute(&mut cpu, &mut memory);
        assert_eq!(next, InstructionEnum::Halt(Halt {}));
        assert_eq!(cpu, before);
    }
}

#[test]
fn halt_wakes_without_a_service_when_interrupts_are_disabled() {
    let mut cpu = CpuState::new();
    let mut memory = MemoryController::new_with_init(&[0x76, 0x3C]);
    memory.write_interrupt_enable(Interrupt::VBlank, true);
    memory.write_interrupt_flag(Interrupt::VBlank, true);
    cpu.write_interrupt_master_enable(false);
    let halt = cpu.load_instruction(&memory);
    assert_eq!(halt, InstructionEnum::Halt(Halt {}));
    let next = halt.execute(&mut cpu, &mut memory);
    assert!(matches!(next, InstructionEnum::IncrementRegister(_)));
    assert_eq!(cpu.read_program_counter(), 2);
    assert_eq!(cpu.read_stack_pointer(), 0xFFFE);
    assert_eq!(cpu.read_interrupt_master_enable(), false);
    assert_eq!(memory.read_interrupt_flag(Interrupt::VBlank), true);
}

#[test]
fn a_pending_interrupt_is_serviced_at_the_instruction_boundary() {
    let mut memory = MemoryController::new_with_init(&[0x00, 0x00, 0x00]);
    memory.write(0x0040, 0x3C);
    let mut cpu = CpuState::new();
    cpu.write_interrupt_master_enable(true);
    cpu.write_stack_pointer(0xD000);
    let mut machine = Machine::start(cpu, memory);
    assert!(matches!(machine.instruction, InstructionEnum::Nop(_)));
    machine.memory.write_interrupt_enable(Interrupt::VBlank, true);
    machine.memory.write_interrupt_flag(Interrupt::VBlank, true);
    machine.step();
    assert_eq!(
        machine.instruction,
        InstructionEnum::InterruptServiceRoutine(InterruptServiceRoutine {
            interrupt: Interrupt::VBlank,
            phase: FivePhases::First,
        })
    );
    assert_eq!(machine.cpu.read_program_counter(), 1);
    machine.run(4);
    assert_eq!(machine.cpu.read_program_counter(), 0x0040);
    assert_eq!(machine.cpu.read_interrupt_master_enable(), false);
    assert_eq!(machine.memory.read_interrupt_flag(Interrupt::VBlank), false);
    assert_eq!(machine.cpu.read_stack_pointer(), 0xCFFE);
    assert_eq!(machine.memory.read(0xCFFF), 0x00);
    assert_eq!(machine.memory.read(0xCFFE), 0x01);
    machine.step();
    assert!(matches!(machine.instruction, InstructionEnum::IncrementRegister(_)));
    assert_eq!(machine.cpu.read_program_counter(), 0x0041);
}

#[test]
fn each_interrupt_is_serviced_at_its_vector() {
    let cases = [
        (Interrupt::VBlank, 0x40u16),
        (Interrupt::LcdStat, 0x48),
        (Interrupt::Timer, 0x50),
        (Interrupt::Serial, 0x58),
        (Interrupt::Joypad, 0x60),
    ];
    for (interrupt, vector) in cases {
        let mut cpu = CpuState::new();
        let mut memory = DebugMemory::new();
        cpu.write_interrupt_master_enable(true);
        cpu.write_program_counter(0x1234);
        memory.write(INTERRUPT_FLAG_ADDRESS, 0xFF);
        memory.write_interrupt_enable(interrupt, true);
        let service = cpu.get_pending_interrupt(&memory).unwrap();
        run(service, &mut cpu, &mut memory, 4);
        assert_eq!(cpu.read_program_counter(), vector);
        assert_eq!(memory.read(INTERRUPT_FLAG_ADDRESS), 0xFF & !interrupt.mask());
        assert_eq!(memory.read(0xFFFD), 0x12);
        assert_eq!(memory.read(0xFFFC), 0x34);
        assert_eq!(cpu.read_interrupt_master_enable(), false);
    }
    let mut cpu = CpuState::new();
    let mut memory = DebugMemory::new();
    memory.write(INTERRUPT_FLAG_ADDRESS, 0xFF);
    memory.write_interrupt_enable(Interrupt::Timer, true);
    assert_eq!(cpu.get_pending_interrupt(&memory), None);
    cpu.write_interrupt_master_enable(true);
    memory.write(INTERRUPT_FLAG_ADDRESS, 0x00);
    assert_eq!(cpu.get_pending_interrupt(&memory), None);
}

#[test]
fn enable_then_disable_leaves_interrupts_disabled() {
    let (mut cpu, mut memory, instruction) = program(&[0xFB, 0xF3, 0x00]);
    let instruction = run(instruction, &mut cpu, &mut memory, 1);
    assert_eq!(cpu.read_interrupt_master_enable(), true);
    assert!(matches!(instruction, InstructionEnum::DisableInterrupts(_)));
    run(instruction, &mut cpu, &mut memory, 1);
    assert_eq!(cpu.read_interrupt_master_enable(), false);

    let (mut cpu, mut memory, instruction) = program(&[0xFB, 0xF3, 0x00]);
    memory.write_interrupt_enable(Interrupt::Joypad, true);
    memory.write_interrupt_flag(Interrupt::Joypad, true);
    let instruction = run(instruction, &mut cpu, &mut memory, 1);
    assert!(matches!(instruction, InstructionEnum::InterruptServiceRoutine(_)));
    run(instruction, &mut cpu, &mut memory, 1);
    assert_eq!(cpu.read_interrupt_master_enable(), false);
}

#[test]
fn push_then_pop_restores_the_value_and_the_stack_pointer() {
    for value in [0x0000u16, 0x1234, 0x00FF, 0xFF00, 0xFFFF, 0xABCD] {
        let mut cpu = CpuState::new();
        let mut memory = DebugMemory::new();
        cpu.write_stack_pointer(0xD000);
        cpu.write_double_register(DoubleRegister::BC, value);
        let push = InstructionEnum::PushDoubleRegister(PushDoubleRegister {
            source: DoubleRegister::BC,
            phase: FourPhases::First,
        });
        run(push, &mut cpu, &mut memory, 3);
        assert_eq!(cpu.read_stack_pointer(), 0xCFFE);
        assert_eq!(memory.read(0xCFFF), (value >> 8) as u8);
        assert_eq!(memory.read(0xCFFE), (value & 0xFF) as u8);
        let pop = InstructionEnum::PopDoubleRegister(PopDoubleRegister {
            destination: DoubleRegister::HL,
            phase: ThreePhases::First,
        });
        run(pop, &mut cpu, &mut memory, 2);
        assert_eq!(cpu.read_double_register(DoubleRegister::HL), value);
        assert_eq!(cpu.read_stack_pointer(), 0xD000);

        run(push, &mut cpu, &mut memory, 3);
        let pop = InstructionEnum::PopDoubleRegister(PopDoubleRegister {
            destination: DoubleRegister::AF,
            phase: ThreePhases::First,
        });
        run(pop, &mut cpu, &mut memory, 2);
        assert_eq!(cpu.read_double_register(DoubleRegister::AF), value & 0xFFF0);
        assert_eq!(cpu.read_stack_pointer(), 0xD000);
    }
}

#[test]
fn the_stack_wraps_around_the_ends_of_the_memory() {
    let mut cpu = CpuState::new();
    let mut memory = DebugMemory::new();
    cpu.write_stack_pointer(0x0001);
    cpu.write_double_register(DoubleRegister::DE, 0xBEEF);
    let push = InstructionEnum::PushDoubleRegister(PushDoubleRegister {
        source: DoubleRegister::DE,
        phase: FourPhases::First,
    });
    run(push, &mut cpu, &mut memory, 3);
    assert_eq!(cpu.read_stack_pointer(), 0xFFFF);
    assert_eq!(memory.read(0x0000), 0xBE);
    assert_eq!(memory.read(0xFFFF), 0xEF);
    let pop = InstructionEnum::PopDoubleRegister(PopDoubleRegister {
        destination: DoubleRegister::BC,
        phase: ThreePhases::First,
    });
    run(pop, &mut cpu, &mut memory, 2);
    assert_eq!(cpu.read_double_register(DoubleRegister::BC), 0xBEEF);
    assert_eq!(cpu.read_stack_pointer(), 0x0001);
}

#[test]
fn call_then_return_restores_the_program_counter_and_the_stack_pointer() {
    let (mut cpu, mut memory, instruction) = program(&[0xCD, 0x00, 0x20, 0x3C]);
    memory.write(0x2000, 0xC9);
    cpu.write_stack_pointer(0xD000);
    assert_eq!(instruction, InstructionEnum::Call(Call { address: 0, phase: SixPhases::First }));
    let instruction = run(instruction, &mut cpu, &mut memory, 5);
    assert_eq!(
        instruction,
        InstructionEnum::Call(Call { address: 0x2000, phase: SixPhases::Sixth })
    );
    assert_eq!(cpu.read_program_counter(), 0x2000);
    assert_eq!(cpu.read_stack_pointer(), 0xCFFE);
    assert_eq!(memory.read(0xCFFF), 0x00);
    assert_eq!(memory.read(0xCFFE), 0x03);
    let instruction = run(instruction, &mut cpu, &mut memory, 1);
    assert_eq!(instruction, InstructionEnum::Return(Return { phase: FourPhases::First }));
    let instruction = run(instruction, &mut cpu, &mut memory, 3);
    assert_eq!(cpu.read_program_counter(), 0x0003);
    assert_eq!(cpu.read_stack_pointer(), 0xD000);
    let instruction = run(instruction, &mut cpu, &mut memory, 1);
    assert!(matches!(instruction, InstructionEnum::IncrementRegister(_)));
}

#[test]
fn a_push_into_the_cartridge_is_lost() {
    let mut cpu = CpuState::new();
    let mut memory = MemoryController::new();
    cpu.write_stack_pointer(0x0002);
    cpu.write_double_register(DoubleRegister::BC, 0x1234);
    let mut instruction = InstructionEnum::PushDoubleRegister(PushDoubleRegister {
        source: DoubleRegister::BC,
        phase: FourPhases::First,
    });
    for _ in 0..3 {
        instruction = instruction.execute(&mut cpu, &mut memory);
    }
    let mut instruction = InstructionEnum::PopDoubleRegister(PopDoubleRegister {
        destination: DoubleRegister::DE,
        phase: ThreePhases::First,
    });
    for _ in 0..2 {
        instruction = instruction.execute(&mut cpu, &mut memory);
    }
    assert_eq!(cpu.read_double_register(DoubleRegister::DE), 0x0000);
    assert_eq!(cpu.read_stack_pointer(), 0x0002);
}

#[test]
fn the_program_counter_follows_the_length_of_each_instruction() {
    let bytes = [
        0x00, // NOP
        0x06, 0x11, // LD A, d8
        0x01, 0x22, 0x33, // LD BC, d16
        0x42, // LD C <- A
        0xCB, 0x37, // SWAP L
        0xE0, 0x80, // LDH (a8), A
        0xEA, 0x00, 0xC0, // LD (a16), A
        0x08, 0x10, 0xC0, // LD (a16), SP
        0xC5, // PUSH BC
        0xC1, // POP BC
        0xC2, 0x00, 0x90, // JP NZ: not taken below
        0x28, 0x05, // JR Z: taken below
    ];
    let cycles = [1usize, 2, 3, 1, 2, 3, 4, 5, 4, 3];
    let lengths = [1u16, 2, 3, 1, 2, 2, 3, 3, 1, 1];
    let (mut cpu, mut memory, mut instruction) = program(&bytes);
    cpu.write_stack_pointer(0xD000);
    let mut address = 0u16;
    for index in 0..cycles.len() {
        assert_eq!(instruction.encode(), vec![bytes[address as usize]]);
        instruction = run(instruction, &mut cpu, &mut memory, cycles[index]);
        address += lengths[index];
        assert_eq!(cpu.read_program_counter(), address + 1);
    }
    cpu.write_flag(Flag::Zero, true);
    assert!(matches!(instruction, InstructionEnum::JumpConditional(_)));
    instruction = run(instruction, &mut cpu, &mut memory, 3);
    address += 3;
    assert_eq!(cpu.read_program_counter(), address + 1);
    assert!(matches!(instruction, InstructionEnum::JumpRelativeConditional(_)));
    run(instruction, &mut cpu, &mut memory, 3);
    assert_eq!(cpu.read_program_counter(), address + 2 + 5 + 1);
    assert_eq!(memory.read(0xFF80), 0x11);
    assert_eq!(memory.read(0xC000), 0x11);
    assert_eq!(memory.read(0xC010), 0x00);
    assert_eq!(memory.read(0xC011), 0xD0);
}

#[test]
fn a_conditional_jump_that_is_taken_has_an_idle_third_phase() {
    let mut cpu = CpuState::new();
    let mut memory = DebugMemory::new_with_init(&[0xCA, 0x34, 0x12]);
    cpu.write_flag(Flag::Zero, true);
    let instruction = cpu.load_instruction(&memory);
    let instruction = run(instruction, &mut cpu, &mut memory, 2);
    assert_eq!(
        instruction,
        InstructionEnum::JumpConditional(JumpConditional {
            condition: rust_gameboy_library::cpu::instruction::Condition::Zero,
            address: 0x1234,
            phase: FourPhases::Third,
        })
    );
    assert_eq!(cpu.read_program_counter(), 0x1234);
    let instruction = run(instruction, &mut cpu, &mut memory, 1);
    assert_eq!(cpu.read_program_counter(), 0x1234);
    run(instruction, &mut cpu, &mut memory, 1);
    assert_eq!(cpu.read_program_counter(), 0x1235);
}

#[test]
fn the_machine_runs_the_instruction_and_then_the_peripherals() {
    let mut machine = Machine::new(MemoryController::new_with_init(&[0x04, 0x04, 0x18, 0xFC]));
    assert!(matches!(machine.instruction, InstructionEnum::IncrementRegister(_)));
    assert_eq!(machine.cpu.read_program_counter(), 1);
    machine.step();
    assert_eq!(machine.cpu.read_register(Register::A), 1);
    assert_eq!(machine.memory.timer.divider_cycles, 1);
    assert_eq!(machine.memory.graphics.dot, 1);
    machine.run(63);
    assert_eq!(machine.memory.read(0xFF04), 1);
    assert_eq!(machine.memory.graphics.dot, 64);
    machine.run(0);
    assert_eq!(machine.memory.graphics.dot, 64);
    machine.run(17556 - 64);
    assert_eq!(machine.memory.graphics.dot, 0);
    assert_eq!(machine.memory.graphics.line, 0);
    assert_eq!(machine.memory.read_interrupt_flag(Interrupt::VBlank), true);
}
