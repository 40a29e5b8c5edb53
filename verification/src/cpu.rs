use vstd::prelude::*;

/// The interrupt requests and the interrupt enable mask, as they live in memory.
pub mod interrupt_controller;

/// The arithmetic logic unit: what the operations compute, flags included.
pub mod alu;

/// The instructions, which change the processor state and the memory.
pub mod instruction;

use self::instruction::phases::FivePhases;
use self::instruction::{
    decode,
    load_next,
    service_due,
    InstructionEnum,
    InterruptServiceRoutine,
    Step,
};
use self::interrupt_controller::InterruptController;
use crate::memory::{next_address, MemoryDevice};

verus! {

/// A register of the processor.
///
/// The processor has eight 8-bit registers. An operand field of an opcode
/// names a register by its position in this enumeration.
#[derive(Debug, Clone, Copy, PartialEq, Eq, Structural)]
pub enum Register {
    /// The accumulator.
    A,
    /// A general purpose register.
    B,
    /// A general purpose register.
    C,
    /// A general purpose register.
    D,
    /// A general purpose register.
    E,
    /// The flags register. Its low four bits always read zero.
    F,
    /// The high part of the address register `HL`.
    H,
    /// The low part of the address register `HL`.
    L,
}

impl Register {
    /// The position of the register in the register file.
    pub open spec fn spec_id(self) -> u8 {
        match self {
            Register::A => 0,
            Register::B => 1,
            Register::C => 2,
            Register::D => 3,
            Register::E => 4,
            Register::F => 5,
            Register::H => 6,
            Register::L => 7,
        }
    }

    /// The register at a position of the register file; positions count modulo eight.
    pub open spec fn spec_from_id(id: u8) -> Register {
        match id % 8 {
            0 => Register::A,
            1 => Register::B,
            2 => Register::C,
            3 => Register::D,
            4 => Register::E,
            5 => Register::F,
            6 => Register::H,
            _ => Register::L,
        }
    }

    /// The position of the register in the register file.
    pub fn id(&self) -> (id: u8)
        ensures
            id == self.spec_id(),
            id < 8,
            Register::spec_from_id(id) == *self,
    {
        match self {
            Register::A => 0,
            Register::B => 1,
            Register::C => 2,
            Register::D => 3,
            Register::E => 4,
            Register::F => 5,
            Register::H => 6,
            Register::L => 7,
        }
    }

    /// The register at a position of the register file; positions count modulo eight.
    pub fn from_id(id: u8) -> (register: Register)
        ensures
            register == Register::spec_from_id(id),
            register.spec_id() == id % 8,
    {
        match id % 8 {
            0 => Register::A,
            1 => Register::B,
            2 => Register::C,
            3 => Register::D,
            4 => Register::E,
            5 => Register::F,
            6 => Register::H,
            _ => Register::L,
        }
    }
}

/// The two registers that a double register consists of.
#[derive(Debug, Clone, Copy, PartialEq, Eq, Structural)]
pub struct RegisterCombination {
    /// The register that holds the low byte.
    pub lsb: Register,
    /// The register that holds the high byte.
    pub msb: Register,
}

/// Two registers combined to a single 16-bit value; the first named register
/// holds the high byte.
#[derive(Debug, Clone, Copy, PartialEq, Eq, Structural)]
pub enum DoubleRegister {
    /// The accumulator and the flags register. The low four bits always read zero.
    AF,
    /// The registers `B` and `C`.
    BC,
    /// The registers `D` and `E`.
    DE,
    /// The registers `H` and `L`; holds memory addresses for some instructions.
    HL,
}

impl DoubleRegister {
    /// The two registers that make up the double register.
    pub open spec fn spec_id(self) -> RegisterCombination {
        match self {
            DoubleRegister::AF => RegisterCombination { msb: Register::A, lsb: Register::F },
            DoubleRegister::BC => RegisterCombination { msb: Register::B, lsb: Register::C },
            DoubleRegister::DE => RegisterCombination { msb: Register::D, lsb: Register::E },
            DoubleRegister::HL => RegisterCombination { msb: Register::H, lsb: Register::L },
        }
    }

    /// The position of the double register in this enumeration.
    pub open spec fn spec_numerical_id(self) -> u8 {
        match self {
            DoubleRegister::AF => 0,
            DoubleRegister::BC => 1,
            DoubleRegister::DE => 2,
            DoubleRegister::HL => 3,
        }
    }

    /// The double register at a position of this enumeration; positions count modulo four.
    pub open spec fn spec_from_numerical_id(id: u8) -> DoubleRegister {
        match id % 4 {
            0 => DoubleRegister::AF,
            1 => DoubleRegister::BC,
            2 => DoubleRegister::DE,
            _ => DoubleRegister::HL,
        }
    }

    /// The two registers that make up the double register.
    pub fn id(&self) -> (registers: RegisterCombination)
        ensures
            registers == self.spec_id(),
    {
        match self {
            DoubleRegister::AF => RegisterCombination { msb: Register::A, lsb: Register::F },
            DoubleRegister::BC => RegisterCombination { msb: Register::B, lsb: Register::C },
            DoubleRegister::DE => RegisterCombination { msb: Register::D, lsb: Register::E },
            DoubleRegister::HL => RegisterCombination { msb: Register::H, lsb: Register::L },
        }
    }

    /// The position of the double register in this enumeration.
    pub fn numerical_id(&self) -> (id: u8)
        ensures
            id == self.spec_numerical_id(),
            id < 4,
            DoubleRegister::spec_from_numerical_id(id) == *self,
    {
        match self {
            DoubleRegister::AF => 0,
            DoubleRegister::BC => 1,
            DoubleRegister::DE => 2,
            DoubleRegister::HL => 3,
        }
    }

    /// The double register at a position of this enumeration; positions count modulo four.
    pub fn from_numerical_id(id: u8) -> (register: DoubleRegister)
        ensures
            register == DoubleRegister::spec_from_numerical_id(id),
            register.spec_numerical_id() == id % 4,
    {
        match id % 4 {
            0 => DoubleRegister::AF,
            1 => DoubleRegister::BC,
            2 => DoubleRegister::DE,
            _ => DoubleRegister::HL,
        }
    }
}

/// A 16-bit operand of the instructions that load, increment, decrement or
/// add 16-bit values.
#[derive(Debug, Clone, Copy, PartialEq, Eq, Structural)]
pub enum WordRegister {
    /// The registers `B` and `C`.
    BC,
    /// The registers `D` and `E`.
    DE,
    /// The registers `H` and `L`.
    HL,
    /// The stack pointer.
    SP,
}

impl WordRegister {
    /// The position of the operand in this enumeration.
    pub open spec fn spec_id(self) -> u8 {
        match self {
            WordRegister::BC => 0,
            WordRegister::DE => 1,
            WordRegister::HL => 2,
            WordRegister::SP => 3,
        }
    }

    /// The operand at a position of this enumeration; positions count modulo four.
    pub open spec fn spec_from_id(id: u8) -> WordRegister {
        match id % 4 {
            0 => WordRegister::BC,
            1 => WordRegister::DE,
            2 => WordRegister::HL,
            _ => WordRegister::SP,
        }
    }

    /// The position of the operand in this enumeration.
    pub fn id(&self) -> (id: u8)
        ensures
            id == self.spec_id(),
            id < 4,
            WordRegister::spec_from_id(id) == *self,
    {
        match self {
            WordRegister::BC => 0,
            WordRegister::DE => 1,
            WordRegister::HL => 2,
            WordRegister::SP => 3,
        }
    }

    /// The operand at a position of this enumeration; positions count modulo four.
    pub fn from_id(id: u8) -> (register: WordRegister)
        ensures
            register == WordRegister::spec_from_id(id),
            register.spec_id() == id % 4,
    {
        match id % 4 {
            0 => WordRegister::BC,
            1 => WordRegister::DE,
            2 => WordRegister::HL,
            _ => WordRegister::SP,
        }
    }
}

/// A flag of the flags register.
#[derive(Debug, Clone, Copy, PartialEq, Eq, Structural)]
pub enum Flag {
    /// Bit 7: the result of the last operation was zero.
    Zero,
    /// Bit 6: the last operation was a subtraction.
    Subtract,
    /// Bit 5: the last operation carried out of bit 3.
    HalfCarry,
    /// Bit 4: the last operation carried out of bit 7.
    Carry,
}

/// A source of interrupts, in the order of priority.
#[derive(Debug, Clone, Copy, PartialEq, Eq, Structural)]
pub enum Interrupt {
    /// The display has finished a frame.
    VBlank,
    /// A condition selected in the LCD status register holds.
    LcdStat,
    /// The timer counter has overflowed.
    Timer,
    /// A serial transfer has completed.
    Serial,
    /// A button was pressed.
    Joypad,
}

impl Interrupt {
    /// The bit that stands for the interrupt in the request flags and in the enable mask.
    pub open spec fn spec_mask(self) -> u8 {
        match self {
            Interrupt::VBlank => 0x01,
            Interrupt::LcdStat => 0x02,
            Interrupt::Timer => 0x04,
            Interrupt::Serial => 0x08,
            Interrupt::Joypad => 0x10,
        }
    }

    /// The address at which the service routine of the interrupt starts.
    pub open spec fn spec_vector(self) -> u16 {
        match self {
            Interrupt::VBlank => 0x40,
            Interrupt::LcdStat => 0x48,
            Interrupt::Timer => 0x50,
            Interrupt::Serial => 0x58,
            Interrupt::Joypad => 0x60,
        }
    }

    /// The position of the interrupt in the order of priority.
    pub open spec fn spec_index(self) -> u8 {
        match self {
            Interrupt::VBlank => 0,
            Interrupt::LcdStat => 1,
            Interrupt::Timer => 2,
            Interrupt::Serial => 3,
            Interrupt::Joypad => 4,
        }
    }

    /// The bit that stands for the interrupt in the request flags and in the enable mask.
    pub fn mask(&self) -> (mask: u8)
        ensures
            mask == self.spec_mask(),
    {
        match self {
            Interrupt::VBlank => 0x01,
            Interrupt::LcdStat => 0x02,
            Interrupt::Timer => 0x04,
            Interrupt::Serial => 0x08,
            Interrupt::Joypad => 0x10,
        }
    }

    /// The address at which the service routine of the interrupt starts.
    pub fn vector(&self) -> (vector: u16)
        ensures
            vector == self.spec_vector(),
            vector == 0x40 + 8 * self.spec_index(),
    {
        match self {
            Interrupt::VBlank => 0x40,
            Interrupt::LcdStat => 0x48,
            Interrupt::Timer => 0x50,
            Interrupt::Serial => 0x58,
            Interrupt::Joypad => 0x60,
        }
    }
}

/// The byte that the flags register reads as.
pub open spec fn flags_to_byte(zero: bool, subtract: bool, half_carry: bool, carry: bool) -> u8 {
    (if zero { 0x80u8 } else { 0u8 }) | (if subtract { 0x40u8 } else { 0u8 }) | (if half_carry {
        0x20u8
    } else {
        0u8
    }) | (if carry { 0x10u8 } else { 0u8 })
}

/// The high byte of a 16-bit value.
pub open spec fn high_byte(value: u16) -> u8 {
    (value >> 8) as u8
}

/// The low byte of a 16-bit value.
pub open spec fn low_byte(value: u16) -> u8 {
    (value & 0xFF) as u8
}

/// The 16-bit value with the given high and low bytes.
pub open spec fn join_bytes(high: u8, low: u8) -> u16 {
    ((high as u16) << 8) | (low as u16)
}

/// The high byte of a 16-bit value.
pub fn get_high_byte(value: u16) -> (byte: u8)
    ensures
        byte == high_byte(value),
{
    assert((value >> 8) < 256) by (bit_vector);
    (value >> 8) as u8
}

/// The low byte of a 16-bit value.
pub fn get_low_byte(value: u16) -> (byte: u8)
    ensures
        byte == low_byte(value),
{
    assert((value & 0xFF) < 256) by (bit_vector);
    (value & 0xFF) as u8
}

/// The 16-bit value with the given high and low bytes.
pub fn make_word(high: u8, low: u8) -> (value: u16)
    ensures
        value == join_bytes(high, low),
{
    ((high as u16) << 8) | (low as u16)
}

/// Splitting a 16-bit value into its bytes and joining them again gives the value back.
pub proof fn lemma_split_join(value: u16)
    ensures
        join_bytes(high_byte(value), low_byte(value)) == value,
{
    assert((((value >> 8) as u8 as u16) << 8) | ((value & 0xFF) as u8 as u16) == value)
        by (bit_vector);
}

/// Joining two bytes and splitting the result gives the bytes back.
pub proof fn lemma_join_split(high: u8, low: u8)
    ensures
        high_byte(join_bytes(high, low)) == high,
        low_byte(join_bytes(high, low)) == low,
{
    assert(((((high as u16) << 8) | (low as u16)) >> 8) as u8 == high) by (bit_vector);
    assert(((((high as u16) << 8) | (low as u16)) & 0xFF) as u8 == low) by (bit_vector);
}

/// The state of the processor: program counter, stack pointer, the eight
/// registers and the interrupt master enable.
///
/// The flags register is held as its four flags, so that its low four bits
/// are zero in every state.
#[derive(Debug, Clone, Copy, PartialEq, Eq, Structural)]
pub struct CpuState {
    /// The address of the next byte that is fetched.
    pub program_counter: u16,
    /// The address of the top of the stack.
    pub stack_pointer: u16,
    /// The accumulator.
    pub a: u8,
    /// Register `B`.
    pub b: u8,
    /// Register `C`.
    pub c: u8,
    /// Register `D`.
    pub d: u8,
    /// Register `E`.
    pub e: u8,
    /// Register `H`.
    pub h: u8,
    /// Register `L`.
    pub l: u8,
    /// Bit 7 of the flags register.
    pub zero: bool,
    /// Bit 6 of the flags register.
    pub subtract: bool,
    /// Bit 5 of the flags register.
    pub half_carry: bool,
    /// Bit 4 of the flags register.
    pub carry: bool,
    /// Whether interrupts are serviced at all.
    pub interrupt_master_enable: bool,
}

impl CpuState {
    /// The state of a processor that was just switched on.
    pub open spec fn initial() -> CpuState {
        CpuState {
            program_counter: 0,
            stack_pointer: 0xFFFE,
            a: 0,
            b: 0,
            c: 0,
            d: 0,
            e: 0,
            h: 0,
            l: 0,
            zero: false,
            subtract: false,
            half_carry: false,
            carry: false,
            interrupt_master_enable: false,
        }
    }

    /// The content of a register.
    pub open spec fn register(self, register: Register) -> u8 {
        match register {
            Register::A => self.a,
            Register::B => self.b,
            Register::C => self.c,
            Register::D => self.d,
            Register::E => self.e,
            Register::F => flags_to_byte(self.zero, self.subtract, self.half_carry, self.carry),
            Register::H => self.h,
            Register::L => self.l,
        }
    }

    /// The state after a write to a register. Of a value written to the
    /// flags register only the high four bits are kept.
    pub open spec fn with_register(self, register: Register, value: u8) -> CpuState {
        match register {
            Register::A => CpuState { a: value, ..self },
            Register::B => CpuState { b: value, ..self },
            Register::C => CpuState { c: value, ..self },
            Register::D => CpuState { d: value, ..self },
            Register::E => CpuState { e: value, ..self },
            Register::F => CpuState {
                zero: value & 0x80 != 0,
                subtract: value & 0x40 != 0,
                half_carry: value & 0x20 != 0,
                carry: value & 0x10 != 0,
                ..self
            },
            Register::H => CpuState { h: value, ..self },
            Register::L => CpuState { l: value, ..self },
        }
    }

    /// The content of a double register.
    pub open spec fn double_register(self, register: DoubleRegister) -> u16 {
        join_bytes(self.register(register.spec_id().msb), self.register(register.spec_id().lsb))
    }

    /// The state after a write to a double register.
    pub open spec fn with_double_register(self, register: DoubleRegister, value: u16) -> CpuState {
        self.with_register(register.spec_id().msb, high_byte(value)).with_register(
            register.spec_id().lsb,
            low_byte(value),
        )
    }

    /// The value of a flag.
    pub open spec fn flag(self, flag: Flag) -> bool {
        match flag {
            Flag::Zero => self.zero,
            Flag::Subtract => self.subtract,
            Flag::HalfCarry => self.half_carry,
            Flag::Carry => self.carry,
        }
    }

    /// The state after a flag was written.
    pub open spec fn with_flag(self, flag: Flag, value: bool) -> CpuState {
        match flag {
            Flag::Zero => CpuState { zero: value, ..self },
            Flag::Subtract => CpuState { subtract: value, ..self },
            Flag::HalfCarry => CpuState { half_carry: value, ..self },
            Flag::Carry => CpuState { carry: value, ..self },
        }
    }

    /// The state after all four flags were written.
    pub open spec fn with_flags(
        self,
        zero: bool,
        subtract: bool,
        half_carry: bool,
        carry: bool,
    ) -> CpuState {
        CpuState { zero, subtract, half_carry, carry, ..self }
    }

    /// The content of a 16-bit operand.
    pub open spec fn word_register(self, register: WordRegister) -> u16 {
        match register {
            WordRegister::BC => self.double_register(DoubleRegister::BC),
            WordRegister::DE => self.double_register(DoubleRegister::DE),
            WordRegister::HL => self.double_register(DoubleRegister::HL),
            WordRegister::SP => self.stack_pointer,
        }
    }

    /// The state after a write to a 16-bit operand.
    pub open spec fn with_word_register(self, register: WordRegister, value: u16) -> CpuState {
        match register {
            WordRegister::BC => self.with_double_register(DoubleRegister::BC, value),
            WordRegister::DE => self.with_double_register(DoubleRegister::DE, value),
            WordRegister::HL => self.with_double_register(DoubleRegister::HL, value),
            WordRegister::SP => self.with_stack_pointer(value),
        }
    }

    /// The state with another program counter.
    pub open spec fn with_program_counter(self, value: u16) -> CpuState {
        CpuState { program_counter: value, ..self }
    }

    /// The state with another stack pointer.
    pub open spec fn with_stack_pointer(self, value: u16) -> CpuState {
        CpuState { stack_pointer: value, ..self }
    }

    /// The state with another interrupt master enable.
    pub open spec fn with_interrupt_master_enable(self, value: bool) -> CpuState {
        CpuState { interrupt_master_enable: value, ..self }
    }

    /// The state after one byte was fetched through the program counter.
    pub open spec fn advanced(self) -> CpuState {
        CpuState { program_counter: next_address(self.program_counter), ..self }
    }

    /// Initialize a new processor state: the program counter is 0, the stack
    /// pointer is 0xFFFE, the registers are 0 and interrupts are disabled.
    pub fn new() -> (cpu: CpuState)
        ensures
            cpu == CpuState::initial(),
    {
        CpuState {
            program_counter: 0,
            stack_pointer: 0xFFFE,
            a: 0,
            b: 0,
            c: 0,
            d: 0,
            e: 0,
            h: 0,
            l: 0,
            zero: false,
            subtract: false,
            half_carry: false,
            carry: false,
            interrupt_master_enable: false,
        }
    }

    /// Read the value of a 16-bit operand.
    pub fn read_word_register(&self, register: WordRegister) -> (value: u16)
        ensures
            value == self.word_register(register),
    {
        match register {
            WordRegister::BC => self.read_double_register(DoubleRegister::BC),
            WordRegister::DE => self.read_double_register(DoubleRegister::DE),
            WordRegister::HL => self.read_double_register(DoubleRegister::HL),
            WordRegister::SP => self.read_stack_pointer(),
        }
    }

    /// Write the value of a 16-bit operand.
    pub fn write_word_register(&mut self, register: WordRegister, value: u16)
        ensures
            *final(self) == old(self).with_word_register(register, value),
    {
        match register {
            WordRegister::BC => self.write_double_register(DoubleRegister::BC, value),
            WordRegister::DE => self.write_double_register(DoubleRegister::DE, value),
            WordRegister::HL => self.write_double_register(DoubleRegister::HL, value),
            WordRegister::SP => self.write_stack_pointer(value),
        }
    }

    /// Write all four flags at once.
    pub fn write_flags(&mut self, zero: bool, subtract: bool, half_carry: bool, carry: bool)
        ensures
            *final(self) == old(self).with_flags(zero, subtract, half_carry, carry),
    {
        self.zero = zero;
        self.subtract = subtract;
        self.half_carry = half_carry;
        self.carry = carry;
    }

    /// Load the byte at the program counter and advance the program counter.
    pub fn load_opcode<T: MemoryDevice>(&mut self, memory: &T) -> (opcode: u8)
        ensures
            opcode == memory.spec_read(old(self).program_counter),
            *final(self) == old(self).advanced(),
    {
        let address = self.advance_program_counter();
        memory.read(address)
    }

    /// The service routine of the pending interrupt, if the interrupt master
    /// enable is set and an interrupt is pending.
    pub fn get_pending_interrupt<T: MemoryDevice>(&self, memory: &T) -> (service: Option<
        InstructionEnum,
    >)
        ensures
            service == match service_due(*self, *memory) {
                Some(interrupt) => Some(
                    InstructionEnum::InterruptServiceRoutine(
                        InterruptServiceRoutine { interrupt, phase: FivePhases::First },
                    ),
                ),
                None => None,
            },
    {
        if self.interrupt_master_enable {
            match memory.pending() {
                Some(interrupt) => Some(
                    InstructionEnum::InterruptServiceRoutine(
                        InterruptServiceRoutine { interrupt, phase: FivePhases::First },
                    ),
                ),
                None => None,
            }
        } else {
            None
        }
    }

    /// Load the next instruction. If the interrupt master enable is set and
    /// an interrupt is pending, this is its service routine, and the program
    /// counter stays. Otherwise the opcode at the program counter is fetched
    /// and decoded, and the program counter advances.
    pub fn load_instruction<T: MemoryDevice>(&mut self, memory: &T) -> (instruction:
        InstructionEnum)
        ensures
            (Step { next: instruction, cpu: *final(self), memory: *memory }) == load_next(
                *old(self),
                *memory,
            ),
    {
        match self.get_pending_interrupt(memory) {
            Some(service) => service,
            None => {
                let opcode = self.load_opcode(memory);
                decode(opcode)
            },
        }
    }
}

/// The accessors of a processor state.
pub trait Cpu {
    /// The processor state that the accessors read and write.
    spec fn state(&self) -> CpuState;

    /// Get the program counter and advance it by one.
    fn advance_program_counter(&mut self) -> (address: u16)
        ensures
            address == old(self).state().program_counter,
            final(self).state() == old(self).state().advanced(),
    ;

    /// Get the program counter.
    fn read_program_counter(&self) -> (value: u16)
        ensures
            value == self.state().program_counter,
    ;

    /// Set the program counter.
    fn write_program_counter(&mut self, value: u16)
        ensures
            final(self).state() == old(self).state().with_program_counter(value),
    ;

    /// Get the stack pointer.
    fn read_stack_pointer(&self) -> (value: u16)
        ensures
            value == self.state().stack_pointer,
    ;

    /// Set the stack pointer.
    fn write_stack_pointer(&mut self, value: u16)
        ensures
            final(self).state() == old(self).state().with_stack_pointer(value),
    ;

    /// Get the interrupt master enable.
    fn read_interrupt_master_enable(&self) -> (value: bool)
        ensures
            value == self.state().interrupt_master_enable,
    ;

    /// Set the interrupt master enable.
    fn write_interrupt_master_enable(&mut self, value: bool)
        ensures
            final(self).state() == old(self).state().with_interrupt_master_enable(value),
    ;

    /// Get the content of a register.
    fn read_register(&self, register: Register) -> (value: u8)
        ensures
            value == self.state().register(register),
    ;

    /// Write a value to a register. Of a value written to the flags register
    /// only the high four bits are kept.
    fn write_register(&mut self, register: Register, value: u8)
        ensures
            final(self).state() == old(self).state().with_register(register, value),
    ;

    /// Read the value of two registers at once.
    fn read_double_register(&self, register: DoubleRegister) -> (value: u16)
        ensures
            value == self.state().double_register(register),
    ;

    /// Write the value of two registers at once.
    fn write_double_register(&mut self, register: DoubleRegister, value: u16)
        ensures
            final(self).state() == old(self).state().with_double_register(register, value),
    ;

    /// Get the value of a flag.
    fn read_flag(&self, flag: Flag) -> (value: bool)
        ensures
            value == self.state().flag(flag),
    ;

    /// Set the value of a flag.
    fn write_flag(&mut self, flag: Flag, value: bool)
        ensures
            final(self).state() == old(self).state().with_flag(flag, value),
    ;
}

impl Cpu for CpuState {
    open spec fn state(&self) -> CpuState {
        *self
    }

    fn advance_program_counter(&mut self) -> (address: u16)
        ensures
            address == old(self).program_counter,
            *final(self) == old(self).advanced(),
    {
        let address = self.program_counter;
        self.program_counter = if address == 0xFFFF {
            0
        } else {
            address + 1
        };
        address
    }

    fn read_program_counter(&self) -> (value: u16)
        ensures
            value == self.program_counter,
    {
        self.program_counter
    }

    fn write_program_counter(&mut self, value: u16)
        ensures
            *final(self) == old(self).with_program_counter(value),
    {
        self.program_counter = value;
    }

    fn read_stack_pointer(&self) -> (value: u16)
        ensures
            value == self.stack_pointer,
    {
        self.stack_pointer
    }

    fn write_stack_pointer(&mut self, value: u16)
        ensures
            *final(self) == old(self).with_stack_pointer(value),
    {
        self.stack_pointer = value;
    }

    fn read_interrupt_master_enable(&self) -> (value: bool)
        ensures
            value == self.interrupt_master_enable,
    {
        self.interrupt_master_enable
    }

    fn write_interrupt_master_enable(&mut self, value: bool)
        ensures
            *final(self) == old(self).with_interrupt_master_enable(value),
    {
        self.interrupt_master_enable = value;
    }

    fn read_register(&self, register: Register) -> (value: u8)
        ensures
            value == self.register(register),
    {
        match register {
            Register::A => self.a,
            Register::B => self.b,
            Register::C => self.c,
            Register::D => self.d,
            Register::E => self.e,
            Register::F => {
                (if self.zero { 0x80u8 } else { 0u8 }) | (if self.subtract { 0x40u8 } else { 0u8 })
                    | (if self.half_carry { 0x20u8 } else { 0u8 }) | (if self.carry {
                    0x10u8
                } else {
                    0u8
                })
            },
            Register::H => self.h,
            Register::L => self.l,
        }
    }

    fn write_register(&mut self, register: Register, value: u8)
        ensures
            *final(self) == old(self).with_register(register, value),
    {
        match register {
            Register::A => { self.a = value; },
            Register::B => { self.b = value; },
            Register::C => { self.c = value; },
            Register::D => { self.d = value; },
            Register::E => { self.e = value; },
            Register::F => {
                self.zero = value & 0x80 != 0;
                self.subtract = value & 0x40 != 0;
                self.half_carry = value & 0x20 != 0;
                self.carry = value & 0x10 != 0;
            },
            Register::H => { self.h = value; },
            Register::L => { self.l = value; },
        }
    }

    fn read_double_register(&self, register: DoubleRegister) -> (value: u16)
        ensures
            value == self.double_register(register),
    {
        let registers = register.id();
        let low = self.read_register(registers.lsb);
        let high = self.read_register(registers.msb);
        make_word(high, low)
    }

    fn write_double_register(&mut self, register: DoubleRegister, value: u16)
        ensures
            *final(self) == old(self).with_double_register(register, value),
    {
        let registers = register.id();
        self.write_register(registers.msb, get_high_byte(value));
        self.write_register(registers.lsb, get_low_byte(value));
    }

    fn read_flag(&self, flag: Flag) -> (value: bool)
        ensures
            value == self.flag(flag),
    {
        match flag {
            Flag::Zero => self.zero,
            Flag::Subtract => self.subtract,
            Flag::HalfCarry => self.half_carry,
            Flag::Carry => self.carry,
        }
    }

    fn write_flag(&mut self, flag: Flag, value: bool)
        ensures
            *final(self) == old(self).with_flag(flag, value),
    {
        match flag {
            Flag::Zero => { self.zero = value; },
            Flag::Subtract => { self.subtract = value; },
            Flag::HalfCarry => { self.half_carry = value; },
            Flag::Carry => { self.carry = value; },
        }
    }
}

/// The flags register reads as the byte that was written to it, without its low four bits.
pub proof fn lemma_flags_register_masked(cpu: CpuState, value: u8)
    ensures
        cpu.with_register(Register::F, value).register(Register::F) == value & 0xF0,
{
    assert(flags_to_byte(
        value & 0x80 != 0,
        value & 0x40 != 0,
        value & 0x20 != 0,
        value & 0x10 != 0,
    ) == value & 0xF0) by (bit_vector);
}

/// The low four bits of the flags register are zero in every state.
pub proof fn lemma_flags_low_nibble_zero(cpu: CpuState)
    ensures
        cpu.register(Register::F) & 0x0F == 0,
{
    let (z, n, h, c) = (cpu.zero, cpu.subtract, cpu.half_carry, cpu.carry);
    assert(flags_to_byte(z, n, h, c) & 0x0F == 0) by (bit_vector);
}

/// A register other than the flags register reads as what was written to it,
/// and a write to one register leaves every other register as it was.
pub proof fn lemma_register_write_read(cpu: CpuState, register: Register, value: u8, other: Register)
    ensures
        register != Register::F ==> cpu.with_register(register, value).register(register) == value,
        other != register ==> cpu.with_register(register, value).register(other) == cpu.register(
            other,
        ),
{
}

/// A double register reads as what was written to it; of a value written to
/// `AF` the low four bits are lost.
pub proof fn lemma_double_register_write_read(cpu: CpuState, register: DoubleRegister, value: u16)
    ensures
        register != DoubleRegister::AF ==> cpu.with_double_register(register, value).double_register(
            register,
        ) == value,
        register == DoubleRegister::AF ==> cpu.with_double_register(register, value).double_register(
            register,
        ) == value & 0xFFF0,
{
    lemma_split_join(value);
    if register == DoubleRegister::AF {
        let low = low_byte(value);
        let high = high_byte(value);
        lemma_flags_register_masked(cpu.with_register(Register::A, high), low);
        assert(join_bytes(high, low & 0xF0) == value & 0xFFF0) by (bit_vector)
            requires
                join_bytes(high, low) == value,
        ;
    }
}

/// The content of a double register is its first register's content as the
/// high byte and its second register's content as the low byte.
pub proof fn lemma_double_register_pairing(cpu: CpuState, register: DoubleRegister)
    ensures
        cpu.double_register(register) == ((cpu.register(register.spec_id().msb) as u16) << 8) | (
        cpu.register(register.spec_id().lsb) as u16),
{
}

} // verus!
