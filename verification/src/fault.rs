use vstd::prelude::*;

verus! {

/// The conditions that stop the machine, or one of its parts, for good.
///
/// None of them is recovered from: the caller may drop the machine and start
/// over with other bytecode.
#[derive(Clone, Copy, Debug, PartialEq, Eq, Structural)]
pub enum Fault {
    /// The code ended where an operation code or an operand was expected.
    EndOfCode,
    /// The byte at the cursor is no operation code.
    UnknownOperationCode(u8),
    /// A constant index beyond the end of the pool.
    ConstantOutOfRange,
    /// The pool already holds 65,536 constants.
    TooManyConstants,
    /// A relative jump to before the start of the code.
    InvalidJump,
    /// A push onto a full stack.
    StackOverflow,
    /// An operation found fewer values on the stack than it consumes or inspects.
    StackUnderflow,
    /// An arithmetic or ordering operation on something other than numbers
    /// (or, for `Add`, other than two numbers or two strings).
    TypeMismatch,
    /// An invocation of something that is neither a function nor a closure.
    NotCallable,
    /// A capture while the top of the stack is no closure.
    NoClosureOnTop,
    /// An upvalue access while no closure is executing.
    NoActiveClosure,
    /// A local slot at or above the top of the stack.
    LocalOutOfRange,
    /// An upvalue index beyond what the executing closure captured.
    UpvalueOutOfRange,
    /// A call with more arguments than the stack holds.
    MissingArguments,
    /// The host answered with a number where a boolean was due, or the reverse.
    UnfitAnswer,
    /// A reference to no object of the expected kind.
    DanglingReference,
}

impl Fault {
    /// A message that names the condition.
    pub fn message(&self) -> (text: &'static str)
        ensures
            text@ == self.message_text(),
    {
        match self {
            Fault::EndOfCode => "unexpected end of code",
            Fault::UnknownOperationCode(_) => "invalid operation code",
            Fault::ConstantOutOfRange => "constant index out of bounds",
            Fault::TooManyConstants => "too many constants",
            Fault::InvalidJump => "jump to before the start of the code",
            Fault::StackOverflow => "stack overflow",
            Fault::StackUnderflow => "stack underflow",
            Fault::TypeMismatch => "operator cannot be applied to these operands",
            Fault::NotCallable => "object is not callable",
            Fault::NoClosureOnTop => "trying to capture value without closure at the stack top",
            Fault::NoActiveClosure => "trying to access upvalue outside a closure",
            Fault::LocalOutOfRange => "local slot out of bounds",
            Fault::UpvalueOutOfRange => "upvalue index out of bounds",
            Fault::MissingArguments => "call with more arguments than the stack holds",
            Fault::UnfitAnswer => "the host's answer does not fit the operation",
            Fault::DanglingReference => "reference to no object of the expected kind",
        }
    }

    /// The text of `message`.
    pub open spec fn message_text(&self) -> Seq<char> {
        match self {
            Fault::EndOfCode => "unexpected end of code"@,
            Fault::UnknownOperationCode(_) => "invalid operation code"@,
            Fault::ConstantOutOfRange => "constant index out of bounds"@,
            Fault::TooManyConstants => "too many constants"@,
            Fault::InvalidJump => "jump to before the start of the code"@,
            Fault::StackOverflow => "stack overflow"@,
            Fault::StackUnderflow => "stack underflow"@,
            Fault::TypeMismatch => "operator cannot be applied to these operands"@,
            Fault::NotCallable => "object is not callable"@,
            Fault::NoClosureOnTop => "trying to capture value without closure at the stack top"@,
            Fault::NoActiveClosure => "trying to access upvalue outside a closure"@,
            Fault::LocalOutOfRange => "local slot out of bounds"@,
            Fault::UpvalueOutOfRange => "upvalue index out of bounds"@,
            Fault::MissingArguments => "call with more arguments than the stack holds"@,
            Fault::UnfitAnswer => "the host's answer does not fit the operation"@,
            Fault::DanglingReference => "reference to no object of the expected kind"@,
        }
    }
}

} // verus!
