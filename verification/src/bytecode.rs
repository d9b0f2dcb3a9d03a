use vstd::prelude::*;

pub mod reader;
pub mod writer;

pub use reader::BytecodeReader;
pub use reader::Fetch;
pub use writer::BytecodeWriter;
pub use writer::Definition;
pub use writer::Emit;

use crate::host::Operation;
use crate::host::Operator;
use crate::value::Equality;

verus! {

/// The type of constant index in a [`Bytecode`].
pub type ConstantIndex = u16;

/// The type of the index of a global variable.
pub type GlobalIndex = u8;

/// The type of the offset of a local variable from the start of its call frame.
pub type LocalOffset = u8;

/// The type of a jump offset. A negative offset jumps backward.
pub type JumpOffset = i16;

/// The type of the absolute position of a function entry.
pub type CallPosition = u16;

/// The most constants that one pool holds: every index fits a [`ConstantIndex`].
pub const CONSTANTS_CAPACITY: usize = 65536;

/// The operation codes.
///
/// Operation codes form the instruction set of the machine. Code is a dense,
/// linear sequence of them, each one byte wide and followed by its operands
/// in little-endian order. Control flow is built from jumps.
#[derive(Clone, Copy, Debug, PartialEq, Eq, Structural)]
pub enum OperationCode {
    /// Push a constant; followed by its [`ConstantIndex`].
    Constant,
    /// Push nil.
    Nil,
    /// Push the boolean true.
    True,
    /// Push the boolean false.
    False,
    /// Create a function pointer from a [`CallPosition`] and a [`LocalOffset`] (the arity).
    Fun,
    /// Replace the number on top by its negation.
    Negate,
    /// Replace the value on top by the negation of its truthiness.
    Not,
    /// Add two numbers or concatenate two strings.
    Add,
    /// Subtract the number on top from the one below it.
    Subtract,
    /// Multiply two numbers.
    Multiply,
    /// Divide the number below the top by the one on top.
    Divide,
    /// Compare the two values on top for equality.
    Equal,
    /// Whether the number below the top is greater than the one on top.
    Greater,
    /// Whether the number below the top is less than the one on top.
    Less,
    /// Push a global variable; followed by its [`GlobalIndex`].
    GetGlobal,
    /// Assign the value on top to a global variable; followed by its [`GlobalIndex`].
    SetGlobal,
    /// Push a local variable; followed by its [`LocalOffset`].
    GetLocal,
    /// Assign the value on top to a local variable; followed by its [`LocalOffset`].
    SetLocal,
    /// Drop the value on top.
    Pop,
    /// Create a closure from a [`CallPosition`] and a [`LocalOffset`] (the arity).
    Closure,
    /// Box the local at a [`LocalOffset`] as an upvalue unless it is one
    /// already, and bind it to the closure on top.
    Capture,
    /// Push an upvalue of the executing closure; followed by its index as a [`LocalOffset`].
    GetUpvalue,
    /// Assign the value on top to an upvalue of the executing closure.
    SetUpvalue,
    /// Jump by a [`JumpOffset`] if the value on top is falsey.
    JumpIfFalse,
    /// Jump by a [`JumpOffset`].
    Jump,
    /// Start a call frame and jump to a [`CallPosition`]; the second operand,
    /// a [`LocalOffset`], is the number of arguments on the stack.
    Call,
    /// Call the function pointer or closure on top of the stack.
    Invoke,
    /// Return to the caller with the value on top, or stop where there is no caller.
    Return,
    /// Print the value on top.
    Print,
}

impl OperationCode {
    /// The number of operation codes; their bytes are those below this bound.
    pub open spec fn count() -> int {
        29
    }

    /// The byte that stands for this operation code.
    pub open spec fn byte(self) -> u8 {
        match self {
            OperationCode::Constant => 0,
            OperationCode::Nil => 1,
            OperationCode::True => 2,
            OperationCode::False => 3,
            OperationCode::Fun => 4,
            OperationCode::Negate => 5,
            OperationCode::Not => 6,
            OperationCode::Add => 7,
            OperationCode::Subtract => 8,
            OperationCode::Multiply => 9,
            OperationCode::Divide => 10,
            OperationCode::Equal => 11,
            OperationCode::Greater => 12,
            OperationCode::Less => 13,
            OperationCode::GetGlobal => 14,
            OperationCode::SetGlobal => 15,
            OperationCode::GetLocal => 16,
            OperationCode::SetLocal => 17,
            OperationCode::Pop => 18,
            OperationCode::Closure => 19,
            OperationCode::Capture => 20,
            OperationCode::GetUpvalue => 21,
            OperationCode::SetUpvalue => 22,
            OperationCode::JumpIfFalse => 23,
            OperationCode::Jump => 24,
            OperationCode::Call => 25,
            OperationCode::Invoke => 26,
            OperationCode::Return => 27,
            OperationCode::Print => 28,
        }
    }

    /// The operation code that `byte` stands for, if it stands for one.
    pub open spec fn decode(byte: u8) -> Option<OperationCode> {
        match byte {
            0 => Some(OperationCode::Constant),
            1 => Some(OperationCode::Nil),
            2 => Some(OperationCode::True),
            3 => Some(OperationCode::False),
            4 => Some(OperationCode::Fun),
            5 => Some(OperationCode::Negate),
            6 => Some(OperationCode::Not),
            7 => Some(OperationCode::Add),
            8 => Some(OperationCode::Subtract),
            9 => Some(OperationCode::Multiply),
            10 => Some(OperationCode::Divide),
            11 => Some(OperationCode::Equal),
            12 => Some(OperationCode::Greater),
            13 => Some(OperationCode::Less),
            14 => Some(OperationCode::GetGlobal),
            15 => Some(OperationCode::SetGlobal),
            16 => Some(OperationCode::GetLocal),
            17 => Some(OperationCode::SetLocal),
            18 => Some(OperationCode::Pop),
            19 => Some(OperationCode::Closure),
            20 => Some(OperationCode::Capture),
            21 => Some(OperationCode::GetUpvalue),
            22 => Some(OperationCode::SetUpvalue),
            23 => Some(OperationCode::JumpIfFalse),
            24 => Some(OperationCode::Jump),
            25 => Some(OperationCode::Call),
            26 => Some(OperationCode::Invoke),
            27 => Some(OperationCode::Return),
            28 => Some(OperationCode::Print),
            _ => None,
        }
    }

    /// The byte that stands for this operation code.
    pub fn to_byte(self) -> (byte: u8)
        ensures
            byte == self.byte(),
    {
        match self {
            OperationCode::Constant => 0,
            OperationCode::Nil => 1,
            OperationCode::True => 2,
            OperationCode::False => 3,
            OperationCode::Fun => 4,
            OperationCode::Negate => 5,
            OperationCode::Not => 6,
            OperationCode::Add => 7,
            OperationCode::Subtract => 8,
            OperationCode::Multiply => 9,
            OperationCode::Divide => 10,
            OperationCode::Equal => 11,
            OperationCode::Greater => 12,
            OperationCode::Less => 13,
            OperationCode::GetGlobal => 14,
            OperationCode::SetGlobal => 15,
            OperationCode::GetLocal => 16,
            OperationCode::SetLocal => 17,
            OperationCode::Pop => 18,
            OperationCode::Closure => 19,
            OperationCode::Capture => 20,
            OperationCode::GetUpvalue => 21,
            OperationCode::SetUpvalue => 22,
            OperationCode::JumpIfFalse => 23,
            OperationCode::Jump => 24,
            OperationCode::Call => 25,
            OperationCode::Invoke => 26,
            OperationCode::Return => 27,
            OperationCode::Print => 28,
        }
    }

    /// The operation code that `byte` stands for; `None` for any other byte.
    pub fn from_byte(byte: u8) -> (code: Option<OperationCode>)
        ensures
            code == OperationCode::decode(byte),
    {
        match byte {
            0 => Some(OperationCode::Constant),
            1 => Some(OperationCode::Nil),
            2 => Some(OperationCode::True),
            3 => Some(OperationCode::False),
            4 => Some(OperationCode::Fun),
            5 => Some(OperationCode::Negate),
            6 => Some(OperationCode::Not),
            7 => Some(OperationCode::Add),
            8 => Some(OperationCode::Subtract),
            9 => Some(OperationCode::Multiply),
            10 => Some(OperationCode::Divide),
            11 => Some(OperationCode::Equal),
            12 => Some(OperationCode::Greater),
            13 => Some(OperationCode::Less),
            14 => Some(OperationCode::GetGlobal),
            15 => Some(OperationCode::SetGlobal),
            16 => Some(OperationCode::GetLocal),
            17 => Some(OperationCode::SetLocal),
            18 => Some(OperationCode::Pop),
            19 => Some(OperationCode::Closure),
            20 => Some(OperationCode::Capture),
            21 => Some(OperationCode::GetUpvalue),
            22 => Some(OperationCode::SetUpvalue),
            23 => Some(OperationCode::JumpIfFalse),
            24 => Some(OperationCode::Jump),
            25 => Some(OperationCode::Call),
            26 => Some(OperationCode::Invoke),
            27 => Some(OperationCode::Return),
            28 => Some(OperationCode::Print),
            _ => None,
        }
    }

    /// Every operation code is decoded from its own byte, and a byte that
    /// decodes to an operation code is the byte of that code.
    pub proof fn byte_round_trip(code: OperationCode, byte: u8)
        ensures
            OperationCode::decode(code.byte()) == Some(code),
            OperationCode::decode(byte) == Some(code) ==> byte == code.byte(),
            OperationCode::decode(byte) is Some <==> byte < OperationCode::count(),
    {
    }
}

/// The constants stored in a [`Bytecode`].
///
/// Only numbers and strings are stored as constants: booleans and nil have
/// operation codes of their own, and objects are made at run time.
///
/// A number is held as the bit pattern of an IEEE-754 binary64 value. The
/// library moves such patterns about and never computes with them.
///
/// A constant is hashed by what it holds: a number by its bit pattern, a
/// string by its text.
#[derive(Clone, Debug, Hash)]
pub enum Constant {
    Number(u64),
    String(String),
}

/// What a [`Constant`] holds, as a mathematical value.
pub enum ConstantView {
    Number(u64),
    String(Seq<char>),
}

impl View for Constant {
    type V = ConstantView;

    open spec fn view(&self) -> ConstantView {
        match self {
            Constant::Number(bits) => ConstantView::Number(*bits),
            Constant::String(text) => ConstantView::String(text@),
        }
    }
}

/// Whether two constants are equal.
///
/// Constants of different kinds are unequal, and strings are equal when
/// their texts are. Two numbers are for the host to compare: they are equal
/// when their absolute difference is below the machine epsilon.
pub open spec fn constant_equality(left: ConstantView, right: ConstantView) -> Equality {
    match (left, right) {
        (ConstantView::Number(a), ConstantView::Number(b)) => Equality::Ask(
            Operation { operator: Operator::Equal, left: a, right: b },
        ),
        (ConstantView::String(a), ConstantView::String(b)) => Equality::Known(a == b),
        _ => Equality::Known(false),
    }
}

impl Constant {
    /// Whether this constant and `other` are equal.
    pub fn equals(&self, other: &Constant) -> (equal: Equality)
        ensures
            equal == constant_equality(self@, other@),
    {
        match (self, other) {
            (Constant::Number(a), Constant::Number(b)) => Equality::Ask(
                Operation { operator: Operator::Equal, left: *a, right: *b },
            ),
            (Constant::String(a), Constant::String(b)) => Equality::Known(*a == *b),
            _ => Equality::Known(false),
        }
    }

    /// A copy of this constant.
    pub fn duplicate(&self) -> (copy: Constant)
        ensures
            copy@ == self@,
    {
        match self {
            Constant::Number(bits) => Constant::Number(*bits),
            Constant::String(text) => Constant::String(text.clone()),
        }
    }
}

/// The bytecode: the binary form of a program.
///
/// It consists of the code, a sequence of operation codes and their operands,
/// and of the pool of constants that the code refers to by index.
pub struct Bytecode {
    pub code: Vec<u8>,
    pub constants: Vec<Constant>,
}

impl Bytecode {
    /// The pool of constants, as mathematical values.
    pub open spec fn pool(&self) -> Seq<ConstantView> {
        Seq::new(self.constants@.len(), |i: int| self.constants@[i]@)
    }
}

} // verus!
