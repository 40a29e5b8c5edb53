use vstd::prelude::*;

verus! {

/// What an operation of the arithmetic logic unit yields: a value and the four flags.
#[derive(Debug, Clone, Copy, PartialEq, Eq, Structural)]
pub struct AluResult {
    /// The value that the operation computes.
    pub value: u8,
    /// Whether the value is zero.
    pub zero: bool,
    /// Whether the operation was a subtraction.
    pub subtract: bool,
    /// Whether the operation carried out of, or borrowed into, bit 3.
    pub half_carry: bool,
    /// Whether the operation carried out of, or borrowed into, bit 7, or the
    /// bit that a shift has moved out.
    pub carry: bool,
}

/// The operations on the accumulator and a second operand.
#[derive(Debug, Clone, Copy, PartialEq, Eq, Structural)]
pub enum ArithmeticOperation {
    /// `ADD`: add the operand.
    Add,
    /// `ADC`: add the operand and the carry flag.
    AddWithCarry,
    /// `SUB`: subtract the operand.
    Subtract,
    /// `SBC`: subtract the operand and the carry flag.
    SubtractWithCarry,
    /// `AND`: bitwise and.
    And,
    /// `XOR`: bitwise exclusive or.
    Xor,
    /// `OR`: bitwise or.
    Or,
    /// `CP`: subtract the operand, set the flags and keep the accumulator.
    Compare,
}

/// The rotations and shifts of a byte.
#[derive(Debug, Clone, Copy, PartialEq, Eq, Structural)]
pub enum ShiftOperation {
    /// `RLC`: rotate left; bit 7 goes to bit 0 and to the carry flag.
    RotateLeftCircular,
    /// `RRC`: rotate right; bit 0 goes to bit 7 and to the carry flag.
    RotateRightCircular,
    /// `RL`: rotate left through the carry flag.
    RotateLeft,
    /// `RR`: rotate right through the carry flag.
    RotateRight,
    /// `SLA`: shift left; bit 0 becomes 0.
    ShiftLeft,
    /// `SRA`: shift right; bit 7 stays as it is.
    ShiftRightArithmetic,
    /// `SWAP`: exchange the two halves of the byte.
    Swap,
    /// `SRL`: shift right; bit 7 becomes 0.
    ShiftRightLogical,
}

impl ArithmeticOperation {
    /// The position of the operation in the opcode tables.
    pub open spec fn spec_id(self) -> u8 {
        match self {
            ArithmeticOperation::Add => 0,
            ArithmeticOperation::AddWithCarry => 1,
            ArithmeticOperation::Subtract => 2,
            ArithmeticOperation::SubtractWithCarry => 3,
            ArithmeticOperation::And => 4,
            ArithmeticOperation::Xor => 5,
            ArithmeticOperation::Or => 6,
            ArithmeticOperation::Compare => 7,
        }
    }

    /// The operation at a position of the opcode tables; positions count modulo eight.
    pub open spec fn spec_from_id(id: u8) -> ArithmeticOperation {
        match id % 8 {
            0 => ArithmeticOperation::Add,
            1 => ArithmeticOperation::AddWithCarry,
            2 => ArithmeticOperation::Subtract,
            3 => ArithmeticOperation::SubtractWithCarry,
            4 => ArithmeticOperation::And,
            5 => ArithmeticOperation::Xor,
            6 => ArithmeticOperation::Or,
            _ => ArithmeticOperation::Compare,
        }
    }

    /// The position of the operation in the opcode tables.
    pub fn id(&self) -> (id: u8)
        ensures
            id == self.spec_id(),
            id < 8,
    {
        match self {
            ArithmeticOperation::Add => 0,
            ArithmeticOperation::AddWithCarry => 1,
            ArithmeticOperation::Subtract => 2,
            ArithmeticOperation::SubtractWithCarry => 3,
            ArithmeticOperation::And => 4,
            ArithmeticOperation::Xor => 5,
            ArithmeticOperation::Or => 6,
            ArithmeticOperation::Compare => 7,
        }
    }

    /// The operation at a position of the opcode tables; positions count modulo eight.
    pub fn from_id(id: u8) -> (operation: ArithmeticOperation)
        ensures
            operation == ArithmeticOperation::spec_from_id(id),
            operation.spec_id() == id % 8,
    {
        match id % 8 {
            0 => ArithmeticOperation::Add,
            1 => ArithmeticOperation::AddWithCarry,
            2 => ArithmeticOperation::Subtract,
            3 => ArithmeticOperation::SubtractWithCarry,
            4 => ArithmeticOperation::And,
            5 => ArithmeticOperation::Xor,
            6 => ArithmeticOperation::Or,
            _ => ArithmeticOperation::Compare,
        }
    }
}

impl ShiftOperation {
    /// The position of the operation in the opcode tables.
    pub open spec fn spec_id(self) -> u8 {
        match self {
            ShiftOperation::RotateLeftCircular => 0,
            ShiftOperation::RotateRightCircular => 1,
            ShiftOperation::RotateLeft => 2,
            ShiftOperation::RotateRight => 3,
            ShiftOperation::ShiftLeft => 4,
            ShiftOperation::ShiftRightArithmetic => 5,
            ShiftOperation::Swap => 6,
            ShiftOperation::ShiftRightLogical => 7,
        }
    }

    /// The operation at a position of the opcode tables; positions count modulo eight.
    pub open spec fn spec_from_id(id: u8) -> ShiftOperation {
        match id % 8 {
            0 => ShiftOperation::RotateLeftCircular,
            1 => ShiftOperation::RotateRightCircular,
            2 => ShiftOperation::RotateLeft,
            3 => ShiftOperation::RotateRight,
            4 => ShiftOperation::ShiftLeft,
            5 => ShiftOperation::ShiftRightArithmetic,
            6 => ShiftOperation::Swap,
            _ => ShiftOperation::ShiftRightLogical,
        }
    }

    /// The position of the operation in the opcode tables.
    pub fn id(&self) -> (id: u8)
        ensures
            id == self.spec_id(),
            id < 8,
    {
        match self {
            ShiftOperation::RotateLeftCircular => 0,
            ShiftOperation::RotateRightCircular => 1,
            ShiftOperation::RotateLeft => 2,
            ShiftOperation::RotateRight => 3,
            ShiftOperation::ShiftLeft => 4,
            ShiftOperation::ShiftRightArithmetic => 5,
            ShiftOperation::Swap => 6,
            ShiftOperation::ShiftRightLogical => 7,
        }
    }

    /// The operation at a position of the opcode tables; positions count modulo eight.
    pub fn from_id(id: u8) -> (operation: ShiftOperation)
        ensures
            operation == ShiftOperation::spec_from_id(id),
            operation.spec_id() == id % 8,
    {
        match id % 8 {
            0 => ShiftOperation::RotateLeftCircular,
            1 => ShiftOperation::RotateRightCircular,
            2 => ShiftOperation::RotateLeft,
            3 => ShiftOperation::RotateRight,
            4 => ShiftOperation::ShiftLeft,
            5 => ShiftOperation::ShiftRightArithmetic,
            6 => ShiftOperation::Swap,
            _ => ShiftOperation::ShiftRightLogical,
        }
    }
}

/// The number 1 for a set flag and 0 for a cleared one.
pub open spec fn flag_bit(flag: bool) -> int {
    if flag {
        1
    } else {
        0
    }
}

/// The sum of two bytes and a carry: the low eight bits of the sum, the half
/// carry flag for a carry out of bit 3 and the carry flag for one out of bit 7.
pub open spec fn spec_add_bytes(a: u8, b: u8, carry: bool) -> AluResult {
    AluResult {
        value: ((a + b + flag_bit(carry)) % 256) as u8,
        zero: (a + b + flag_bit(carry)) % 256 == 0,
        subtract: false,
        half_carry: a % 16 + b % 16 + flag_bit(carry) > 15,
        carry: a + b + flag_bit(carry) > 255,
    }
}

/// The difference of two bytes and a borrow: the low eight bits of the
/// difference, the half carry flag for a borrow into bit 3 and the carry flag
/// for one into bit 7.
pub open spec fn spec_subtract_bytes(a: u8, b: u8, borrow: bool) -> AluResult {
    AluResult {
        value: ((a - b - flag_bit(borrow)) % 256) as u8,
        zero: (a - b - flag_bit(borrow)) % 256 == 0,
        subtract: true,
        half_carry: a % 16 < b % 16 + flag_bit(borrow),
        carry: a < b + flag_bit(borrow),
    }
}

/// What an operation on the accumulator `a` and the operand `b` yields.
/// `Compare` yields the accumulator itself with the flags of the subtraction.
pub open spec fn spec_arithmetic(
    operation: ArithmeticOperation,
    a: u8,
    b: u8,
    carry: bool,
) -> AluResult {
    match operation {
        ArithmeticOperation::Add => spec_add_bytes(a, b, false),
        ArithmeticOperation::AddWithCarry => spec_add_bytes(a, b, carry),
        ArithmeticOperation::Subtract => spec_subtract_bytes(a, b, false),
        ArithmeticOperation::SubtractWithCarry => spec_subtract_bytes(a, b, carry),
        ArithmeticOperation::And => AluResult {
            value: a & b,
            zero: a & b == 0,
            subtract: false,
            half_carry: true,
            carry: false,
        },
        ArithmeticOperation::Xor => AluResult {
            value: a ^ b,
            zero: a ^ b == 0,
            subtract: false,
            half_carry: false,
            carry: false,
        },
        ArithmeticOperation::Or => AluResult {
            value: a | b,
            zero: a | b == 0,
            subtract: false,
            half_carry: false,
            carry: false,
        },
        ArithmeticOperation::Compare => AluResult { value: a, ..spec_subtract_bytes(a, b, false) },
    }
}

/// A byte plus one. The carry flag is handed through.
pub open spec fn spec_increment(a: u8, carry: bool) -> AluResult {
    AluResult {
        value: ((a + 1) % 256) as u8,
        zero: a == 255,
        subtract: false,
        half_carry: a % 16 == 15,
        carry,
    }
}

/// A byte minus one. The carry flag is handed through.
pub open spec fn spec_decrement(a: u8, carry: bool) -> AluResult {
    AluResult {
        value: ((a - 1) % 256) as u8,
        zero: a == 1,
        subtract: true,
        half_carry: a % 16 == 0,
        carry,
    }
}

/// The value that a rotation or a shift makes of a byte.
pub open spec fn spec_shifted(operation: ShiftOperation, a: u8, carry: bool) -> u8 {
    match operation {
        ShiftOperation::RotateLeftCircular => (a << 1) | (a >> 7),
        ShiftOperation::RotateRightCircular => (a >> 1) | (a << 7),
        ShiftOperation::RotateLeft => (a << 1) | (if carry { 0x01u8 } else { 0u8 }),
        ShiftOperation::RotateRight => (a >> 1) | (if carry { 0x80u8 } else { 0u8 }),
        ShiftOperation::ShiftLeft => a << 1,
        ShiftOperation::ShiftRightArithmetic => (a >> 1) | (a & 0x80),
        ShiftOperation::Swap => (a << 4) | (a >> 4),
        ShiftOperation::ShiftRightLogical => a >> 1,
    }
}

/// The bit that a rotation or a shift moves out of a byte.
pub open spec fn spec_shifted_out(operation: ShiftOperation, a: u8) -> bool {
    match operation {
        ShiftOperation::RotateLeftCircular | ShiftOperation::RotateLeft | ShiftOperation::ShiftLeft => a
            & 0x80 != 0,
        ShiftOperation::Swap => false,
        _ => a & 0x01 != 0,
    }
}

/// What a rotation or a shift yields: the value, the zero flag for it, and
/// the bit that was moved out as the carry flag.
pub open spec fn spec_shift(operation: ShiftOperation, a: u8, carry: bool) -> AluResult {
    AluResult {
        value: spec_shifted(operation, a, carry),
        zero: spec_shifted(operation, a, carry) == 0,
        subtract: false,
        half_carry: false,
        carry: spec_shifted_out(operation, a),
    }
}

/// The correction that the decimal adjustment applies to the accumulator.
pub open spec fn spec_decimal_correction(a: u8, subtract: bool, half_carry: bool, carry: bool) -> u8 {
    ((if half_carry || (!subtract && a % 16 > 9) { 0x06int } else { 0int }) + (if carry || (
    !subtract && a > 0x99) { 0x60int } else { 0int })) as u8
}

/// The decimal adjustment of the accumulator after an addition or a
/// subtraction of two binary coded decimals.
///
/// After an addition, 0x06 is added if the low digit is above 9 or the half
/// carry flag is set, and 0x60 if the accumulator is above 0x99 or the carry
/// flag is set. After a subtraction, 0x06 is subtracted if the half carry
/// flag is set and 0x60 if the carry flag is set. The carry flag is set if
/// 0x60 was applied after an addition, and is kept after a subtraction.
pub open spec fn spec_decimal_adjust(
    a: u8,
    subtract: bool,
    half_carry: bool,
    carry: bool,
) -> AluResult {
    let correction = spec_decimal_correction(a, subtract, half_carry, carry);
    let value = if subtract {
        ((a - correction) % 256) as u8
    } else {
        ((a + correction) % 256) as u8
    };
    AluResult {
        value,
        zero: value == 0,
        subtract,
        half_carry: false,
        carry: carry || (!subtract && a > 0x99),
    }
}

/// The sum of two 16-bit values: its low sixteen bits, the half carry flag
/// for a carry out of bit 11 and the carry flag for one out of bit 15.
pub open spec fn spec_add_words(a: u16, b: u16) -> (u16, bool, bool) {
    (((a + b) % 0x10000) as u16, a % 0x1000 + b % 0x1000 > 0xFFF, a + b > 0xFFFF)
}

/// The address at a signed distance from another; addresses wrap around.
pub open spec fn spec_offset_address(base: u16, offset: i8) -> u16 {
    ((base + offset) % 0x10000) as u16
}

/// The flags of an addition of a signed byte to a 16-bit value: the half
/// carry flag for a carry out of bit 3 and the carry flag for one out of bit
/// 7, the signed byte taken as an unsigned one.
pub open spec fn spec_offset_flags(base: u16, offset: i8) -> (bool, bool) {
    (base % 16 + (offset + 256) % 16 > 15, base % 256 + (offset + 256) % 256 > 255)
}

/// Add two bytes and a carry.
pub fn add_bytes(a: u8, b: u8, carry: bool) -> (result: AluResult)
    ensures
        result == spec_add_bytes(a, b, carry),
{
    let carry_in: u16 = if carry { 1 } else { 0 };
    let sum: u16 = a as u16 + b as u16 + carry_in;
    AluResult {
        value: (sum % 256) as u8,
        zero: sum % 256 == 0,
        subtract: false,
        half_carry: (a % 16) as u16 + (b % 16) as u16 + carry_in > 15,
        carry: sum > 255,
    }
}

/// Subtract a byte and a borrow from a byte.
pub fn subtract_bytes(a: u8, b: u8, borrow: bool) -> (result: AluResult)
    ensures
        result == spec_subtract_bytes(a, b, borrow),
{
    let borrow_in: u16 = if borrow { 1 } else { 0 };
    let difference: u16 = 256 + a as u16 - b as u16 - borrow_in;
    AluResult {
        value: (difference % 256) as u8,
        zero: difference % 256 == 0,
        subtract: true,
        half_carry: ((a % 16) as u16) < (b % 16) as u16 + borrow_in,
        carry: (a as u16) < b as u16 + borrow_in,
    }
}

/// Apply an operation to the accumulator `a` and the operand `b`.
pub fn arithmetic(operation: ArithmeticOperation, a: u8, b: u8, carry: bool) -> (result: AluResult)
    ensures
        result == spec_arithmetic(operation, a, b, carry),
{
    match operation {
        ArithmeticOperation::Add => add_bytes(a, b, false),
        ArithmeticOperation::AddWithCarry => add_bytes(a, b, carry),
        ArithmeticOperation::Subtract => subtract_bytes(a, b, false),
        ArithmeticOperation::SubtractWithCarry => subtract_bytes(a, b, carry),
        ArithmeticOperation::And => AluResult {
            value: a & b,
            zero: a & b == 0,
            subtract: false,
            half_carry: true,
            carry: false,
        },
        ArithmeticOperation::Xor => AluResult {
            value: a ^ b,
            zero: a ^ b == 0,
            subtract: false,
            half_carry: false,
            carry: false,
        },
        ArithmeticOperation::Or => AluResult {
            value: a | b,
            zero: a | b == 0,
            subtract: false,
            half_carry: false,
            carry: false,
        },
        ArithmeticOperation::Compare => {
            let difference = subtract_bytes(a, b, false);
            AluResult {
                value: a,
                zero: difference.zero,
                subtract: difference.subtract,
                half_carry: difference.half_carry,
                carry: difference.carry,
            }
        },
    }
}

/// Add one to a byte.
pub fn increment(a: u8, carry: bool) -> (result: AluResult)
    ensures
        result == spec_increment(a, carry),
{
    AluResult {
        value: if a == 255 { 0 } else { a + 1 },
        zero: a == 255,
        subtract: false,
        half_carry: a % 16 == 15,
        carry,
    }
}

/// Subtract one from a byte.
pub fn decrement(a: u8, carry: bool) -> (result: AluResult)
    ensures
        result == spec_decrement(a, carry),
{
    AluResult {
        value: if a == 0 { 255 } else { a - 1 },
        zero: a == 1,
        subtract: true,
        half_carry: a % 16 == 0,
        carry,
    }
}

/// Rotate or shift a byte.
pub fn shift(operation: ShiftOperation, a: u8, carry: bool) -> (result: AluResult)
    ensures
        result == spec_shift(operation, a, carry),
{
    let value = match operation {
        ShiftOperation::RotateLeftCircular => (a << 1) | (a >> 7),
        ShiftOperation::RotateRightCircular => (a >> 1) | (a << 7),
        ShiftOperation::RotateLeft => (a << 1) | (if carry { 0x01u8 } else { 0u8 }),
        ShiftOperation::RotateRight => (a >> 1) | (if carry { 0x80u8 } else { 0u8 }),
        ShiftOperation::ShiftLeft => a << 1,
        ShiftOperation::ShiftRightArithmetic => (a >> 1) | (a & 0x80),
        ShiftOperation::Swap => (a << 4) | (a >> 4),
        ShiftOperation::ShiftRightLogical => a >> 1,
    };
    let moved_out = match operation {
        ShiftOperation::RotateLeftCircular | ShiftOperation::RotateLeft | ShiftOperation::ShiftLeft => a
            & 0x80 != 0,
        ShiftOperation::Swap => false,
        _ => a & 0x01 != 0,
    };
    AluResult { value, zero: value == 0, subtract: false, half_carry: false, carry: moved_out }
}

/// Adjust the accumulator to a binary coded decimal.
pub fn decimal_adjust(a: u8, subtract: bool, half_carry: bool, carry: bool) -> (result: AluResult)
    ensures
        result == spec_decimal_adjust(a, subtract, half_carry, carry),
{
    let low: u8 = if half_carry || (!subtract && a % 16 > 9) { 0x06 } else { 0 };
    let high: u8 = if carry || (!subtract && a > 0x99) { 0x60 } else { 0 };
    let correction: u8 = low + high;
    let value = if subtract {
        a.wrapping_sub(correction)
    } else {
        a.wrapping_add(correction)
    };
    AluResult {
        value,
        zero: value == 0,
        subtract,
        half_carry: false,
        carry: carry || (!subtract && a > 0x99),
    }
}

/// Add two 16-bit values. Returns the sum, the half carry flag and the carry flag.
pub fn add_words(a: u16, b: u16) -> (result: (u16, bool, bool))
    ensures
        result == spec_add_words(a, b),
{
    let sum: u32 = a as u32 + b as u32;
    ((sum % 0x10000) as u16, (a % 0x1000) as u32 + (b % 0x1000) as u32 > 0xFFF, sum > 0xFFFF)
}

/// The address at a signed distance from another.
pub fn offset_address(base: u16, offset: i8) -> (address: u16)
    ensures
        address == spec_offset_address(base, offset),
{
    let sum: i32 = base as i32 + offset as i32;
    if sum < 0 {
        (sum + 0x10000) as u16
    } else if sum > 0xFFFF {
        (sum - 0x10000) as u16
    } else {
        sum as u16
    }
}

/// The half carry flag and the carry flag of an addition of a signed byte to
/// a 16-bit value.
pub fn offset_flags(base: u16, offset: i8) -> (flags: (bool, bool))
    ensures
        flags == spec_offset_flags(base, offset),
{
    let unsigned: u16 = (offset as i16 + 256) as u16 % 256;
    (base % 16 + unsigned % 16 > 15, base % 256 + unsigned > 255)
}

} // verus!
