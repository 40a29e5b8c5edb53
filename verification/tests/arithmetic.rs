use rust_gameboy_library::cpu::alu::{
    add_bytes, add_words, arithmetic, decimal_adjust, decrement, increment, offset_address,
    offset_flags, shift, subtract_bytes, AluResult, ArithmeticOperation, ShiftOperation,
};
use rust_gameboy_library::cpu::instruction::phases::{FourPhases, ThreePhases, TwoPhases};
use rust_gameboy_library::cpu::instruction::{
    AccumulatorRotation, AddOffsetToStackPointer, AddToHl, Arithmetic, Complement,
    DecimalAdjust, DecrementDoubleRegister, DecrementRegister, IncrementDoubleRegister,
    IncrementRegister, Instruction, InstructionEnum, LoadStackPointerOffsetToHl, ResetBit,
    RotateAccumulator, SetBit, Shift, TestBit,
};
use rust_gameboy_library::cpu::{Cpu, CpuState, DoubleRegister, Flag, Register, WordRegister};
use rust_gameboy_library::debug_memory::DebugMemory;

fn result(value: u8, zero: bool, subtract: bool, half_carry: bool, carry: bool) -> AluResult {
    AluResult { value, zero, subtract, half_carry, carry }
}

fn flags(cpu: &CpuState) -> (bool, bool, bool, bool) {
    (
        cpu.read_flag(Flag::Zero),
        cpu.read_flag(Flag::Subtract),
        cpu.read_flag(Flag::HalfCarry),
        cpu.read_flag(Flag::Carry),
    )
}

#[test]
fn addition_sets_half_carry_and_carry() {
    assert_eq!(add_bytes(0x3A, 0xC6, false), result(0x00, true, false, true, true));
    assert_eq!(add_bytes(0x3C, 0xFF, false), result(0x3B, false, false, true, true));
    assert_eq!(add_bytes(0x3C, 0x12, false), result(0x4E, false, false, false, false));
    assert_eq!(add_bytes(0xE1, 0x0F, true), result(0xF1, false, false, true, false));
    assert_eq!(add_bytes(0xE1, 0x3B, true), result(0x1D, false, false, false, true));
    assert_eq!(add_bytes(0xE1, 0x1E, true), result(0x00, true, false, true, true));
    assert_eq!(add_bytes(0xFF, 0xFF, true), result(0xFF, false, false, true, true));
    assert_eq!(add_bytes(0x00, 0x00, false), result(0x00, true, false, false, false));
}

#[test]
fn subtraction_sets_the_borrows() {
    assert_eq!(subtract_bytes(0x3E, 0x3E, false), result(0x00, true, true, false, false));
    assert_eq!(subtract_bytes(0x3E, 0x0F, false), result(0x2F, false, true, true, false));
    assert_eq!(subtract_bytes(0x3E, 0x40, false), result(0xFE, false, true, false, true));
    assert_eq!(subtract_bytes(0x3B, 0x2A, true), result(0x10, false, true, false, false));
    assert_eq!(subtract_bytes(0x3B, 0x3A, true), result(0x00, true, true, false, false));
    assert_eq!(subtract_bytes(0x3B, 0x4F, true), result(0xEB, false, true, true, true));
    assert_eq!(subtract_bytes(0x00, 0xFF, true), result(0x00, true, true, true, true));
    assert_eq!(subtract_bytes(0x00, 0x00, true), result(0xFF, false, true, true, true));
}

#[test]
fn the_eight_operations_on_the_accumulator() {
    assert_eq!(arithmetic(ArithmeticOperation::Add, 0x0F, 0x01, true), result(0x10, false, false, true, false));
    assert_eq!(arithmetic(ArithmeticOperation::AddWithCarry, 0x0F, 0x01, true), result(0x11, false, false, true, false));
    assert_eq!(arithmetic(ArithmeticOperation::Subtract, 0x10, 0x01, true), result(0x0F, false, true, true, false));
    assert_eq!(
        arithmetic(ArithmeticOperation::SubtractWithCarry, 0x10, 0x01, true),
        result(0x0E, false, true, true, false)
    );
    assert_eq!(arithmetic(ArithmeticOperation::And, 0x5A, 0x3F, true), result(0x1A, false, false, true, false));
    assert_eq!(arithmetic(ArithmeticOperation::And, 0x5A, 0x00, false), result(0x00, true, false, true, false));
    assert_eq!(arithmetic(ArithmeticOperation::Xor, 0xFF, 0x0F, true), result(0xF0, false, false, false, false));
    assert_eq!(arithmetic(ArithmeticOperation::Xor, 0xFF, 0xFF, true), result(0x00, true, false, false, false));
    assert_eq!(arithmetic(ArithmeticOperation::Or, 0x5A, 0x03, true), result(0x5B, false, false, false, false));
    assert_eq!(arithmetic(ArithmeticOperation::Or, 0x00, 0x00, true), result(0x00, true, false, false, false));
    assert_eq!(arithmetic(ArithmeticOperation::Compare, 0x3C, 0x2F, false), result(0x3C, false, true, true, false));
    assert_eq!(arithmetic(ArithmeticOperation::Compare, 0x3C, 0x3C, false), result(0x3C, true, true, false, false));
    assert_eq!(arithmetic(ArithmeticOperation::Compare, 0x3C, 0x40, true), result(0x3C, false, true, false, true));
}

#[test]
fn operations_convert_to_positions_and_back() {
    for id in 0..=255u8 {
        assert_eq!(ArithmeticOperation::from_id(id).id(), id % 8);
        assert_eq!(ShiftOperation::from_id(id).id(), id % 8);
        assert_eq!(AccumulatorRotation::from_id(id).id(), id % 4);
    }
    assert_eq!(ArithmeticOperation::from_id(7), ArithmeticOperation::Compare);
    assert_eq!(ShiftOperation::from_id(6), ShiftOperation::Swap);
    assert_eq!(AccumulatorRotation::Right.operation(), ShiftOperation::RotateRight);
}

#[test]
fn increment_and_decrement_keep_the_carry() {
    assert_eq!(increment(0xFF, true), result(0x00, true, false, true, true));
    assert_eq!(increment(0x50, false), result(0x51, false, false, false, false));
    assert_eq!(increment(0x0F, false), result(0x10, false, false, true, false));
    assert_eq!(decrement(0x01, true), result(0x00, true, true, false, true));
    assert_eq!(decrement(0x00, false), result(0xFF, false, true, true, false));
    assert_eq!(decrement(0x10, false), result(0x0F, false, true, true, false));
}

#[test]
fn rotations_and_shifts_move_a_bit_into_the_carry() {
    assert_eq!(shift(ShiftOperation::RotateLeftCircular, 0x85, false), result(0x0B, false, false, false, true));
    assert_eq!(shift(ShiftOperation::RotateLeftCircular, 0x00, true), result(0x00, true, false, false, false));
    assert_eq!(shift(ShiftOperation::RotateRightCircular, 0x01, false), result(0x80, false, false, false, true));
    assert_eq!(shift(ShiftOperation::RotateRightCircular, 0x3B, false), result(0x9D, false, false, false, true));
    assert_eq!(shift(ShiftOperation::RotateLeft, 0x80, false), result(0x00, true, false, false, true));
    assert_eq!(shift(ShiftOperation::RotateLeft, 0x95, true), result(0x2B, false, false, false, true));
    assert_eq!(shift(ShiftOperation::RotateRight, 0x01, false), result(0x00, true, false, false, true));
    assert_eq!(shift(ShiftOperation::RotateRight, 0x81, false), result(0x40, false, false, false, true));
    assert_eq!(shift(ShiftOperation::RotateRight, 0x8A, true), result(0xC5, false, false, false, false));
    assert_eq!(shift(ShiftOperation::ShiftLeft, 0x80, true), result(0x00, true, false, false, true));
    assert_eq!(shift(ShiftOperation::ShiftLeft, 0xFF, false), result(0xFE, false, false, false, true));
    assert_eq!(shift(ShiftOperation::ShiftRightArithmetic, 0x8A, true), result(0xC5, false, false, false, false));
    assert_eq!(shift(ShiftOperation::ShiftRightArithmetic, 0x01, false), result(0x00, true, false, false, true));
    assert_eq!(shift(ShiftOperation::Swap, 0xF1, true), result(0x1F, false, false, false, false));
    assert_eq!(shift(ShiftOperation::Swap, 0x00, true), result(0x00, true, false, false, false));
    assert_eq!(shift(ShiftOperation::ShiftRightLogical, 0x01, false), result(0x00, true, false, false, true));
    assert_eq!(shift(ShiftOperation::ShiftRightLogical, 0xFF, false), result(0x7F, false, false, false, true));
}

#[test]
fn decimal_adjust_corrects_binary_coded_decimals() {
    let sum = add_bytes(0x45, 0x38, false);
    assert_eq!(sum.value, 0x7D);
    assert_eq!(
        decimal_adjust(sum.value, sum.subtract, sum.half_carry, sum.carry),
        result(0x83, false, false, false, false)
    );
    let difference = subtract_bytes(0x83, 0x38, false);
    assert_eq!(difference.value, 0x4B);
    assert_eq!(
        decimal_adjust(
            difference.value,
            difference.subtract,
            difference.half_carry,
            difference.carry
        ),
        result(0x45, false, true, false, false)
    );
    assert_eq!(decimal_adjust(0x9A, false, false, false), result(0x00, true, false, false, true));
    assert_eq!(decimal_adjust(0x00, false, false, true), result(0x60, false, false, false, true));
    assert_eq!(decimal_adjust(0x0A, false, false, false), result(0x10, false, false, false, false));
    assert_eq!(decimal_adjust(0x00, true, true, true), result(0x9A, false, true, false, true));
    assert_eq!(decimal_adjust(0xFF, true, false, false), result(0xFF, false, true, false, false));
}

#[test]
fn decimal_adjust_gives_the_decimal_sum_of_any_two_digit_numbers() {
    for a in 0..100u8 {
        for b in 0..100u8 {
            let coded = |n: u8| (n / 10) * 16 + n % 10;
            let sum = add_bytes(coded(a), coded(b), false);
            let adjusted = decimal_adjust(sum.value, sum.subtract, sum.half_carry, sum.carry);
            assert_eq!(adjusted.value, coded((a + b) % 100));
            assert_eq!(adjusted.carry, a + b >= 100);
            let difference = subtract_bytes(coded(a), coded(b), false);
            let adjusted = decimal_adjust(
                difference.value,
                difference.subtract,
                difference.half_carry,
                difference.carry,
            );
            assert_eq!(adjusted.value, coded((100 + a - b) % 100));
            assert_eq!(adjusted.carry, a < b);
        }
    }
}

#[test]
fn wide_additions_carry_out_of_bits_11_and_15() {
    assert_eq!(add_words(0x8A23, 0x0605), (0x9028, true, false));
    assert_eq!(add_words(0x8A23, 0x8A23), (0x1446, true, true));
    assert_eq!(add_words(0x0001, 0x0001), (0x0002, false, false));
    assert_eq!(add_words(0xFFFF, 0x0001), (0x0000, true, true));
    assert_eq!(add_words(0xF000, 0x1000), (0x0000, false, true));
}

#[test]
fn signed_offsets_wrap_around_the_address_space() {
    assert_eq!(offset_address(0xFFF8, 2), 0xFFFA);
    assert_eq!(offset_address(0x0000, -1), 0xFFFF);
    assert_eq!(offset_address(0xFFFF, 1), 0x0000);
    assert_eq!(offset_address(0x1000, -128), 0x0F80);
    assert_eq!(offset_address(0x1000, 127), 0x107F);
    assert_eq!(offset_flags(0xFFF8, 2), (false, false));
    assert_eq!(offset_flags(0x0000, -1), (false, false));
    assert_eq!(offset_flags(0x0001, -1), (true, true));
    assert_eq!(offset_flags(0x000F, 1), (true, false));
    assert_eq!(offset_flags(0x00F0, 0x10), (false, true));
}

#[test]
fn arithmetic_on_registers_changes_the_accumulator_and_the_flags() {
    let mut cpu = CpuState::new();
    let mut memory = DebugMemory::new();
    cpu.write_register(Register::A, 0x3A);
    cpu.write_register(Register::B, 0xC6);
    let add = Arithmetic { operation: ArithmeticOperation::Add, source: Register::B };
    assert_eq!(add.encode(), vec![0x81]);
    add.execute(&mut cpu, &mut memory);
    assert_eq!(cpu.read_register(Register::A), 0x00);
    assert_eq!(flags(&cpu), (true, false, true, true));
    assert_eq!(cpu.read_program_counter(), 1);

    cpu.write_register(Register::A, 0x3C);
    cpu.write_register(Register::E, 0x40);
    let compare = Arithmetic { operation: ArithmeticOperation::Compare, source: Register::E };
    assert_eq!(compare.encode(), vec![0xBC]);
    compare.execute(&mut cpu, &mut memory);
    assert_eq!(cpu.read_register(Register::A), 0x3C);
    assert_eq!(flags(&cpu), (false, true, false, true));

    let carry = Arithmetic { operation: ArithmeticOperation::AddWithCarry, source: Register::A };
    carry.execute(&mut cpu, &mut memory);
    assert_eq!(cpu.read_register(Register::A), 0x79);
    assert_eq!(flags(&cpu), (false, false, true, false));
}

#[test]
fn immediate_arithmetic_takes_two_cycles() {
    let mut cpu = CpuState::new();
    let mut memory = DebugMemory::new_with_init(&[0xD6, 0x0F, 0xE6, 0x0F, 0x00]);
    cpu.write_register(Register::A, 0x3E);
    let instruction = cpu.load_instruction(&memory);
    let instruction = instruction.execute(&mut cpu, &mut memory);
    assert_eq!(instruction.encode(), vec![0xD6, 0x0F]);
    assert_eq!(cpu.read_register(Register::A), 0x2F);
    assert_eq!(flags(&cpu), (false, true, true, false));
    assert_eq!(cpu.read_program_counter(), 2);
    let instruction = instruction.execute(&mut cpu, &mut memory);
    assert_eq!(instruction.encode(), vec![0xE6]);
    let instruction = instruction.execute(&mut cpu, &mut memory);
    assert_eq!(cpu.read_register(Register::A), 0x0F);
    assert_eq!(flags(&cpu), (false, false, true, false));
    let instruction = instruction.execute(&mut cpu, &mut memory);
    assert!(matches!(instruction, InstructionEnum::Nop(_)));
    assert_eq!(cpu.read_program_counter(), 5);
}

#[test]
fn increments_and_decrements_of_registers() {
    let mut cpu = CpuState::new();
    let mut memory = DebugMemory::new();
    cpu.write_register(Register::D, 0xFF);
    cpu.write_flag(Flag::Carry, true);
    let increment = IncrementRegister { register: Register::D };
    assert_eq!(increment.encode(), vec![0x1C]);
    increment.execute(&mut cpu, &mut memory);
    assert_eq!(cpu.read_register(Register::D), 0x00);
    assert_eq!(flags(&cpu), (true, false, true, true));
    let decrement = DecrementRegister { register: Register::D };
    assert_eq!(decrement.encode(), vec![0x1D]);
    decrement.execute(&mut cpu, &mut memory);
    assert_eq!(cpu.read_register(Register::D), 0xFF);
    assert_eq!(flags(&cpu), (false, true, true, true));

    cpu.write_double_register(DoubleRegister::HL, 0xFFFF);
    let before = flags(&cpu);
    let wide = IncrementDoubleRegister { register: WordRegister::HL, phase: TwoPhases::First };
    assert_eq!(wide.encode(), vec![0x23]);
    wide.execute(&mut cpu, &mut memory);
    assert_eq!(cpu.read_double_register(DoubleRegister::HL), 0x0000);
    assert_eq!(flags(&cpu), before);
    let wide = DecrementDoubleRegister { register: WordRegister::SP, phase: TwoPhases::First };
    assert_eq!(wide.encode(), vec![0x3B]);
    cpu.write_stack_pointer(0);
    wide.execute(&mut cpu, &mut memory);
    assert_eq!(cpu.read_stack_pointer(), 0xFFFF);
    assert_eq!(flags(&cpu), before);
}

#[test]
fn accumulator_rotations_always_clear_zero() {
    let mut cpu = CpuState::new();
    let mut memory = DebugMemory::new();
    cpu.write_register(Register::A, 0x80);
    cpu.write_flag(Flag::Zero, true);
    let rotate = RotateAccumulator { rotation: AccumulatorRotation::Left };
    assert_eq!(rotate.encode(), vec![0x17]);
    rotate.execute(&mut cpu, &mut memory);
    assert_eq!(cpu.read_register(Register::A), 0x00);
    assert_eq!(flags(&cpu), (false, false, false, true));
    let rotate = RotateAccumulator { rotation: AccumulatorRotation::RightCircular };
    cpu.write_register(Register::A, 0x3B);
    rotate.execute(&mut cpu, &mut memory);
    assert_eq!(cpu.read_register(Register::A), 0x9D);
    assert_eq!(flags(&cpu), (false, false, false, true));
    let rotate = RotateAccumulator { rotation: AccumulatorRotation::LeftCircular };
    cpu.write_register(Register::A, 0x85);
    rotate.execute(&mut cpu, &mut memory);
    assert_eq!(cpu.read_register(Register::A), 0x0B);
    let rotate = RotateAccumulator { rotation: AccumulatorRotation::Right };
    cpu.write_register(Register::A, 0x81);
    cpu.write_flag(Flag::Carry, false);
    rotate.execute(&mut cpu, &mut memory);
    assert_eq!(cpu.read_register(Register::A), 0x40);
    assert_eq!(flags(&cpu), (false, false, false, true));
}

#[test]
fn prefixed_shifts_set_zero_from_the_result() {
    let mut cpu = CpuState::new();
    let mut memory = DebugMemory::new_with_init(&[0xCB, 0x21, 0x00]);
    cpu.write_register(Register::B, 0x80);
    let prefix = cpu.load_instruction(&memory);
    let shift = prefix.execute(&mut cpu, &mut memory);
    assert_eq!(
        shift,
        InstructionEnum::Shift(Shift { operation: ShiftOperation::ShiftLeft, register: Register::B })
    );
    let next = shift.execute(&mut cpu, &mut memory);
    assert!(matches!(next, InstructionEnum::Nop(_)));
    assert_eq!(cpu.read_register(Register::B), 0x00);
    assert_eq!(flags(&cpu), (true, false, false, true));
    assert_eq!(cpu.read_program_counter(), 3);
}

#[test]
fn bit_instructions_test_set_and_clear_single_bits() {
    let mut cpu = CpuState::new();
    let mut memory = DebugMemory::new();
    cpu.write_register(Register::C, 0x80);
    cpu.write_flag(Flag::Carry, true);
    (TestBit { bit: 7, register: Register::C }).execute(&mut cpu, &mut memory);
    assert_eq!(flags(&cpu), (false, false, true, true));
    (TestBit { bit: 4, register: Register::C }).execute(&mut cpu, &mut memory);
    assert_eq!(flags(&cpu), (true, false, true, true));
    (SetBit { bit: 3, register: Register::C }).execute(&mut cpu, &mut memory);
    assert_eq!(cpu.read_register(Register::C), 0x88);
    (ResetBit { bit: 7, register: Register::C }).execute(&mut cpu, &mut memory);
    assert_eq!(cpu.read_register(Register::C), 0x08);
    (SetBit { bit: 8, register: Register::C }).execute(&mut cpu, &mut memory);
    assert_eq!(cpu.read_register(Register::C), 0x09);
    assert_eq!(flags(&cpu), (true, false, true, true));
    (SetBit { bit: 0, register: Register::F }).execute(&mut cpu, &mut memory);
    assert_eq!(cpu.read_register(Register::F), 0xB0);
}

#[test]
fn complement_and_decimal_adjust_work_on_the_accumulator() {
    let mut cpu = CpuState::new();
    let mut memory = DebugMemory::new();
    cpu.write_register(Register::A, 0x35);
    (Complement {}).execute(&mut cpu, &mut memory);
    assert_eq!(cpu.read_register(Register::A), 0xCA);
    assert_eq!(flags(&cpu), (false, true, true, false));
    cpu.write_register(Register::A, 0x7D);
    cpu.write_flags(false, false, false, false);
    (DecimalAdjust {}).execute(&mut cpu, &mut memory);
    assert_eq!(cpu.read_register(Register::A), 0x83);
    assert_eq!(flags(&cpu), (false, false, false, false));
}

#[test]
fn additions_to_hl_and_to_the_stack_pointer() {
    let mut cpu = CpuState::new();
    let mut memory = DebugMemory::new();
    cpu.write_double_register(DoubleRegister::HL, 0x8A23);
    cpu.write_double_register(DoubleRegister::BC, 0x0605);
    cpu.write_flag(Flag::Zero, true);
    let add = AddToHl { source: WordRegister::BC, phase: TwoPhases::First };
    assert_eq!(add.encode(), vec![0x09]);
    add.execute(&mut cpu, &mut memory);
    assert_eq!(cpu.read_double_register(DoubleRegister::HL), 0x9028);
    assert_eq!(flags(&cpu), (true, false, true, false));

    cpu.write_stack_pointer(0x0001);
    let add = AddOffsetToStackPointer { offset: -1, phase: FourPhases::Second };
    assert_eq!(add.encode(), vec![0xE8, 0xFF]);
    add.execute(&mut cpu, &mut memory);
    assert_eq!(cpu.read_stack_pointer(), 0x0000);
    assert_eq!(flags(&cpu), (false, false, true, true));

    cpu.write_stack_pointer(0xFFF8);
    let load = LoadStackPointerOffsetToHl { offset: 2, phase: ThreePhases::Second };
    load.execute(&mut cpu, &mut memory);
    assert_eq!(cpu.read_double_register(DoubleRegister::HL), 0xFFFA);
    assert_eq!(cpu.read_stack_pointer(), 0xFFF8);
    assert_eq!(flags(&cpu), (false, false, false, false));
}
