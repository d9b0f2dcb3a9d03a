use vstd::prelude::*;

use crate::bytecode::reader::byte_at;
use crate::bytecode::reader::i16_at;
use crate::bytecode::reader::operation_at;
use crate::bytecode::reader::u16_at;
use crate::bytecode::ConstantView;
use crate::bytecode::OperationCode;
use crate::fault::Fault;
use crate::gc::allocated;
use crate::gc::bound;
use crate::gc::interned;
use crate::gc::is_closure;
use crate::gc::is_function;
use crate::gc::is_string;
use crate::gc::is_upvalue;
use crate::gc::place_of;
use crate::gc::stored;
use crate::gc::ClosureView;
use crate::gc::FunctionPointer;
use crate::gc::Heap;
use crate::gc::ObjectView;
use crate::gc::Reference;
use crate::host::Answer;
use crate::host::Operation;
use crate::host::Operator;
use crate::host::OutputView;
use crate::value::equality;
use crate::value::shown;
use crate::value::unboxed;
use crate::value::Equality;
use crate::value::Value;
use crate::vm::CallFrame;
use crate::vm::GLOBALS_CAPACITY;
use crate::vm::LOCALS_CAPACITY;

verus! {

/// The state of the machine as a mathematical value.
pub struct Machine {
    /// The evaluation stack, bottom first.
    pub stack: Seq<Value>,
    /// The global variables.
    pub globals: Seq<Value>,
    /// The heap.
    pub heap: Heap,
    /// The stack index at which the locals of the executing function begin.
    pub frame: int,
    /// The executing closure, if a closure is executing.
    pub closure: Option<Reference>,
    /// The frames of the callers, the outermost first.
    pub callstack: Seq<CallFrame>,
    /// The position in code of the next instruction.
    pub position: int,
}

/// What the machine tells its host after it has run.
pub enum SignalView {
    /// The machine is running: the next instruction is ready to execute.
    Running,
    /// The machine printed: the host is to write the output and a line break.
    Print(OutputView),
    /// The next instruction operates on two numbers: the host is to carry
    /// out the operation and to hand the answer in.
    Compute(Operation),
    /// The outermost function returned: the program has ended, and the value
    /// that it returned is discarded.
    Terminated,
}

/// What one instruction makes of the machine: the machine after it and a
/// signal, or the fault that stopped it.
pub type Step = Result<(Machine, SignalView), Fault>;

/// The bit pattern of the negation of the number with bit pattern `bits`:
/// the sign bit is flipped, and nothing else.
pub open spec fn negated(bits: u64) -> u64 {
    bits ^ 0x8000_0000_0000_0000u64
}

/// The value that the host's answer stands for.
pub open spec fn answered(answer: Answer) -> Value {
    match answer {
        Answer::Number(bits) => Value::Number(bits),
        Answer::Boolean(truth) => Value::Boolean(truth),
    }
}

/// The operator that the host carries out for an operation code on two numbers.
pub open spec fn operator_of(code: OperationCode) -> Operator {
    match code {
        OperationCode::Add => Operator::Add,
        OperationCode::Subtract => Operator::Subtract,
        OperationCode::Multiply => Operator::Multiply,
        OperationCode::Divide => Operator::Divide,
        OperationCode::Greater => Operator::Greater,
        OperationCode::Less => Operator::Less,
        _ => Operator::Equal,
    }
}

impl Machine {
    /// The machine as it is created: nothing on the stack or the heap, every
    /// global nil, no caller, and the first instruction next.
    pub open spec fn initial() -> Machine {
        Machine {
            stack: Seq::empty(),
            globals: Seq::new(GLOBALS_CAPACITY as nat, |i: int| Value::Nil),
            heap: Seq::empty(),
            frame: 0,
            closure: None,
            callstack: Seq::empty(),
            position: 0,
        }
    }

    /// The plain value on top of the stack: the top itself, or the value in
    /// its cell where the top is an upvalue.
    pub open spec fn top(self) -> Result<Value, Fault> {
        if self.stack.len() == 0 {
            Err(Fault::StackUnderflow)
        } else {
            unboxed(self.heap, self.stack.last())
        }
    }

    /// The stack index of the local at `offset` in the executing function's
    /// frame; a fault where the stack does not reach that far.
    pub open spec fn slot(self, offset: u8) -> Result<int, Fault> {
        if 0 <= self.frame && self.frame + offset < self.stack.len() {
            Ok(self.frame + offset)
        } else {
            Err(Fault::LocalOutOfRange)
        }
    }

    /// The cell of the upvalue at `offset` among those that the executing
    /// closure captured.
    pub open spec fn upvalue(self, offset: u8) -> Result<Reference, Fault> {
        match self.closure {
            None => Err(Fault::NoActiveClosure),
            Some(closure) => if !is_closure(self.heap, closure) {
                Err(Fault::DanglingReference)
            } else if offset >= self.heap[closure.index as int]->Closure_0.upvalues.len() {
                Err(Fault::UpvalueOutOfRange)
            } else {
                Ok(self.heap[closure.index as int]->Closure_0.upvalues[offset as int])
            },
        }
    }

    /// Push `value` and go on at `next`; a fault on a full stack.
    pub open spec fn push(self, value: Value, next: int) -> Step {
        if self.stack.len() >= LOCALS_CAPACITY {
            Err(Fault::StackOverflow)
        } else {
            Ok((Machine { stack: self.stack.push(value), position: next, ..self }, SignalView::Running))
        }
    }

    /// Replace the `count` values on top by `value` and go on at `next`.
    pub open spec fn replace(self, count: int, value: Value, next: int) -> Step {
        Ok(
            (
                Machine {
                    stack: self.stack.take(self.stack.len() - count).push(value),
                    position: next,
                    ..self
                },
                SignalView::Running,
            ),
        )
    }

    /// `Constant`: push the constant at the index that follows.
    ///
    /// A number is pushed as it is. A string is allocated, which shares a
    /// string of the same text that is on the heap already, and the
    /// reference is pushed.
    pub open spec fn constant(self, code: Seq<u8>, pool: Seq<ConstantView>) -> Step {
        match u16_at(code, self.position + 1) {
            Err(fault) => Err(fault),
            Ok(index) => if index >= pool.len() {
                Err(Fault::ConstantOutOfRange)
            } else {
                match pool[index as int] {
                    ConstantView::Number(bits) => self.push(Value::Number(bits), self.position + 3),
                    ConstantView::String(text) => self.intern(text, 0, self.position + 3),
                }
            },
        }
    }

    /// Allocate a string with this text, and put the reference to it in the
    /// place of the `count` values on top.
    pub open spec fn intern(self, text: Seq<char>, count: int, next: int) -> Step {
        if self.stack.len() - count >= LOCALS_CAPACITY {
            Err(Fault::StackOverflow)
        } else {
            Machine { heap: allocated(self.heap, ObjectView::String(text)), ..self }.replace(
                count,
                Value::String(
                    Reference { index: place_of(self.heap, ObjectView::String(text)) as usize },
                ),
                next,
            )
        }
    }

    /// `Fun` and `Closure`: allocate a function pointer, or a closure that
    /// has captured nothing yet, from the position and the arity that
    /// follow, and push the reference.
    pub open spec fn callable(self, code: Seq<u8>, closure: bool) -> Step {
        match u16_at(code, self.position + 1) {
            Err(fault) => Err(fault),
            Ok(position) => match byte_at(code, self.position + 3) {
                Err(fault) => Err(fault),
                Ok(arity) => if self.stack.len() >= LOCALS_CAPACITY {
                    Err(Fault::StackOverflow)
                } else {
                    let reference = Reference { index: self.heap.len() as usize };
                    if closure {
                        Machine {
                            heap: self.heap.push(
                                ObjectView::Closure(
                                    ClosureView { position, arity, upvalues: Seq::empty() },
                                ),
                            ),
                            ..self
                        }.push(Value::Closure(reference), self.position + 4)
                    } else {
                        Machine {
                            heap: self.heap.push(
                                ObjectView::Function(FunctionPointer { position, arity }),
                            ),
                            ..self
                        }.push(Value::FunctionPointer(reference), self.position + 4)
                    }
                },
            },
        }
    }

    /// `Negate`: replace the number on top by its negation.
    pub open spec fn negate(self) -> Step {
        match self.top() {
            Err(fault) => Err(fault),
            Ok(Value::Number(bits)) => self.replace(
                1,
                Value::Number(negated(bits)),
                self.position + 1,
            ),
            Ok(_) => Err(Fault::TypeMismatch),
        }
    }

    /// `Not`: replace the value on top by the negation of its truthiness.
    pub open spec fn not(self) -> Step {
        match self.top() {
            Err(fault) => Err(fault),
            Ok(value) => self.replace(1, Value::Boolean(!value.truthy()), self.position + 1),
        }
    }

    /// The two plain values on top of the stack: the one below the top,
    /// then the top.
    pub open spec fn operands(self) -> Result<(Value, Value), Fault> {
        if self.stack.len() < 2 {
            Err(Fault::StackUnderflow)
        } else {
            match unboxed(self.heap, self.stack[self.stack.len() - 1]) {
                Err(fault) => Err(fault),
                Ok(right) => match unboxed(self.heap, self.stack[self.stack.len() - 2]) {
                    Err(fault) => Err(fault),
                    Ok(left) => Ok((left, right)),
                },
            }
        }
    }

    /// An operation on the two numbers on top, which is the host's to carry out.
    ///
    /// Without an answer the machine stays as it is and asks for one. With
    /// an answer of the kind that the operator results in, the answer takes
    /// the place of the two numbers.
    pub open spec fn compute(self, operation: Operation, answer: Option<Answer>) -> Step {
        match answer {
            None => Ok((self, SignalView::Compute(operation))),
            Some(result) => if result.fits(operation.operator) {
                self.replace(2, answered(result), self.position + 1)
            } else {
                Err(Fault::UnfitAnswer)
            },
        }
    }

    /// `Add`, `Subtract`, `Multiply`, `Divide`, `Greater` and `Less`: an
    /// operation on two numbers; `Add` also concatenates two strings.
    pub open spec fn binary(self, code: OperationCode, answer: Option<Answer>) -> Step {
        match self.operands() {
            Err(fault) => Err(fault),
            Ok((Value::Number(left), Value::Number(right))) => self.compute(
                Operation { operator: operator_of(code), left, right },
                answer,
            ),
            Ok((Value::String(left), Value::String(right))) => if code != OperationCode::Add {
                Err(Fault::TypeMismatch)
            } else if !is_string(self.heap, left) || !is_string(self.heap, right) {
                Err(Fault::DanglingReference)
            } else {
                self.intern(
                    self.heap[left.index as int]->String_0 + self.heap[right.index as int]->String_0,
                    2,
                    self.position + 1,
                )
            },
            Ok(_) => Err(Fault::TypeMismatch),
        }
    }

    /// `Equal`: replace the two values on top by whether they are equal.
    pub open spec fn equal(self, answer: Option<Answer>) -> Step {
        match self.operands() {
            Err(fault) => Err(fault),
            Ok((left, right)) => match equality(self.heap, left, right) {
                Err(fault) => Err(fault),
                Ok(Equality::Known(truth)) => self.replace(
                    2,
                    Value::Boolean(truth),
                    self.position + 1,
                ),
                Ok(Equality::Ask(operation)) => self.compute(operation, answer),
            },
        }
    }

    /// Read the variable in `slot`: the value in it, or the value in its
    /// cell where the slot holds an upvalue, is pushed.
    pub open spec fn read(self, slot: Value, next: int) -> Step {
        match unboxed(self.heap, slot) {
            Err(fault) => Err(fault),
            Ok(value) => self.push(value, next),
        }
    }

    /// `GetGlobal`: push the global at the index that follows.
    pub open spec fn get_global(self, code: Seq<u8>) -> Step {
        match byte_at(code, self.position + 1) {
            Err(fault) => Err(fault),
            Ok(index) => self.read(self.globals[index as int], self.position + 2),
        }
    }

    /// `GetLocal`: push the local at the offset that follows.
    pub open spec fn get_local(self, code: Seq<u8>) -> Step {
        match byte_at(code, self.position + 1) {
            Err(fault) => Err(fault),
            Ok(offset) => match self.slot(offset) {
                Err(fault) => Err(fault),
                Ok(slot) => self.read(self.stack[slot], self.position + 2),
            },
        }
    }

    /// `GetUpvalue`: push the value in the cell of the upvalue at the
    /// offset that follows.
    pub open spec fn get_upvalue(self, code: Seq<u8>) -> Step {
        match byte_at(code, self.position + 1) {
            Err(fault) => Err(fault),
            Ok(offset) => match self.upvalue(offset) {
                Err(fault) => Err(fault),
                Ok(cell) => self.read(Value::Upvalue(cell), self.position + 2),
            },
        }
    }

    /// `SetGlobal`: assign the value on top, which stays there, to the
    /// global at the index that follows. Where the global holds an upvalue,
    /// the value is written into its cell.
    pub open spec fn set_global(self, code: Seq<u8>) -> Step {
        match byte_at(code, self.position + 1) {
            Err(fault) => Err(fault),
            Ok(index) => match self.top() {
                Err(fault) => Err(fault),
                Ok(value) => match self.globals[index as int] {
                    Value::Upvalue(cell) => self.write(cell, value, self.position + 2),
                    _ => Ok(
                        (
                            Machine {
                                globals: self.globals.update(index as int, value),
                                position: self.position + 2,
                                ..self
                            },
                            SignalView::Running,
                        ),
                    ),
                },
            },
        }
    }

    /// `SetLocal`: assign the value on top, which stays there, to the local
    /// at the offset that follows. Where the local holds an upvalue, the
    /// value is written into its cell.
    pub open spec fn set_local(self, code: Seq<u8>) -> Step {
        match byte_at(code, self.position + 1) {
            Err(fault) => Err(fault),
            Ok(offset) => match self.top() {
                Err(fault) => Err(fault),
                Ok(value) => match self.slot(offset) {
                    Err(fault) => Err(fault),
                    Ok(slot) => match self.stack[slot] {
                        Value::Upvalue(cell) => self.write(cell, value, self.position + 2),
                        _ => Ok(
                            (
                                Machine {
                                    stack: self.stack.update(slot, value),
                                    position: self.position + 2,
                                    ..self
                                },
                                SignalView::Running,
                            ),
                        ),
                    },
                },
            },
        }
    }

    /// `SetUpvalue`: write the value on top, which stays there, into the
    /// cell of the upvalue at the offset that follows.
    pub open spec fn set_upvalue(self, code: Seq<u8>) -> Step {
        match byte_at(code, self.position + 1) {
            Err(fault) => Err(fault),
            Ok(offset) => match self.upvalue(offset) {
                Err(fault) => Err(fault),
                Ok(cell) => match self.top() {
                    Err(fault) => Err(fault),
                    Ok(value) => self.write(cell, value, self.position + 2),
                },
            },
        }
    }

    /// Write `value` into the upvalue cell `cell` and go on at `next`.
    pub open spec fn write(self, cell: Reference, value: Value, next: int) -> Step {
        if is_upvalue(self.heap, cell) {
            Ok(
                (
                    Machine { heap: stored(self.heap, cell, value), position: next, ..self },
                    SignalView::Running,
                ),
            )
        } else {
            Err(Fault::DanglingReference)
        }
    }

    /// `Pop`: drop the value on top.
    pub open spec fn pop(self) -> Step {
        if self.stack.len() == 0 {
            Err(Fault::StackUnderflow)
        } else {
            Ok(
                (
                    Machine { stack: self.stack.drop_last(), position: self.position + 1, ..self },
                    SignalView::Running,
                ),
            )
        }
    }

    /// `Capture`: bind the local at the offset that follows to the closure
    /// on top of the stack.
    ///
    /// Where the local holds an upvalue, its cell is added to what the
    /// closure captured. Otherwise a cell is allocated for the value of the
    /// local, the local is made an upvalue of that cell, and the cell is
    /// added to what the closure captured.
    pub open spec fn capture(self, code: Seq<u8>) -> Step {
        match byte_at(code, self.position + 1) {
            Err(fault) => Err(fault),
            Ok(offset) => match self.slot(offset) {
                Err(fault) => Err(fault),
                Ok(slot) => match self.stack.last() {
                    Value::Closure(closure) => if !is_closure(self.heap, closure) {
                        Err(Fault::DanglingReference)
                    } else {
                        match self.stack[slot] {
                            Value::Upvalue(cell) => Ok(
                                (
                                    Machine {
                                        heap: bound(self.heap, closure, cell),
                                        position: self.position + 2,
                                        ..self
                                    },
                                    SignalView::Running,
                                ),
                            ),
                            local => {
                                let cell = Reference { index: self.heap.len() as usize };
                                Ok(
                                    (
                                        Machine {
                                            heap: bound(
                                                self.heap.push(ObjectView::Upvalue(local)),
                                                closure,
                                                cell,
                                            ),
                                            stack: self.stack.update(slot, Value::Upvalue(cell)),
                                            position: self.position + 2,
                                            ..self
                                        },
                                        SignalView::Running,
                                    ),
                                )
                            },
                        }
                    },
                    _ => Err(Fault::NoClosureOnTop),
                },
            },
        }
    }

    /// Go on at `target`; a fault where it lies before the start of the
    /// code, or beyond what a position can hold.
    pub open spec fn go(self, target: int) -> Step {
        if 0 <= target <= usize::MAX {
            Ok((Machine { position: target, ..self }, SignalView::Running))
        } else {
            Err(Fault::InvalidJump)
        }
    }

    /// `Jump`: go on at the position behind the offset that follows, moved
    /// by that offset.
    pub open spec fn jump(self, code: Seq<u8>) -> Step {
        match i16_at(code, self.position + 1) {
            Err(fault) => Err(fault),
            Ok(offset) => self.go(self.position + 3 + offset),
        }
    }

    /// `JumpIfFalse`: jump as `Jump` does where the value on top, which
    /// stays there, is falsey; go on behind the offset otherwise.
    pub open spec fn jump_if_false(self, code: Seq<u8>) -> Step {
        match i16_at(code, self.position + 1) {
            Err(fault) => Err(fault),
            Ok(offset) => match self.top() {
                Err(fault) => Err(fault),
                Ok(condition) => if condition.truthy() {
                    self.go(self.position + 3)
                } else {
                    self.go(self.position + 3 + offset)
                },
            },
        }
    }

    /// Enter a function at `position` that takes the `arity` values on top
    /// as its arguments, to return to `back`.
    ///
    /// The frame and the closure of the caller are saved, the frame of the
    /// callee begins at its first argument, and `closure` executes.
    pub open spec fn enter(
        self,
        position: u16,
        arity: u8,
        closure: Option<Reference>,
        back: int,
    ) -> Step {
        if arity > self.stack.len() {
            Err(Fault::MissingArguments)
        } else {
            Ok(
                (
                    Machine {
                        callstack: self.callstack.push(
                            CallFrame {
                                position: back as usize,
                                frame: self.frame as usize,
                                closure: self.closure,
                            },
                        ),
                        frame: self.stack.len() - arity,
                        closure,
                        position: position as int,
                        ..self
                    },
                    SignalView::Running,
                ),
            )
        }
    }

    /// `Call`: enter the function at the position that follows, with as
    /// many arguments as the operand after it says.
    pub open spec fn call(self, code: Seq<u8>) -> Step {
        match u16_at(code, self.position + 1) {
            Err(fault) => Err(fault),
            Ok(position) => match byte_at(code, self.position + 3) {
                Err(fault) => Err(fault),
                Ok(arity) => self.enter(position, arity, None, self.position + 4),
            },
        }
    }

    /// `Invoke`: take the function pointer or the closure off the top of the
    /// stack and enter it.
    pub open spec fn invoke(self) -> Step {
        match self.top() {
            Err(fault) => Err(fault),
            Ok(Value::FunctionPointer(function)) => if !is_function(self.heap, function) {
                Err(Fault::DanglingReference)
            } else {
                Machine { stack: self.stack.drop_last(), ..self }.enter(
                    self.heap[function.index as int]->Function_0.position,
                    self.heap[function.index as int]->Function_0.arity,
                    None,
                    self.position + 1,
                )
            },
            Ok(Value::Closure(closure)) => if !is_closure(self.heap, closure) {
                Err(Fault::DanglingReference)
            } else {
                Machine { stack: self.stack.drop_last(), ..self }.enter(
                    self.heap[closure.index as int]->Closure_0.position,
                    self.heap[closure.index as int]->Closure_0.arity,
                    Some(closure),
                    self.position + 1,
                )
            },
            Ok(_) => Err(Fault::NotCallable),
        }
    }

    /// `Return`: where there is no caller, the program ends: the value on
    /// top, if there is one, is discarded, and the machine stays at the
    /// `Return`. Otherwise the value on top becomes the only thing left of
    /// the frame, and the caller goes on with its own frame and closure
    /// where it left off.
    pub open spec fn leave(self) -> Step {
        if self.callstack.len() == 0 {
            Ok(
                (
                    Machine {
                        stack: if self.stack.len() > 0 {
                            self.stack.drop_last()
                        } else {
                            self.stack
                        },
                        ..self
                    },
                    SignalView::Terminated,
                ),
            )
        } else if self.stack.len() == 0 {
            Err(Fault::StackUnderflow)
        } else if !(0 <= self.frame < self.stack.len()) {
            Err(Fault::LocalOutOfRange)
        } else {
            Ok(
                (
                    Machine {
                        stack: self.stack.take(self.frame).push(self.stack.last()),
                        frame: self.callstack.last().frame as int,
                        closure: self.callstack.last().closure,
                        position: self.callstack.last().position as int,
                        callstack: self.callstack.drop_last(),
                        ..self
                    },
                    SignalView::Running,
                ),
            )
        }
    }

    /// `Print`: take the value off the top of the stack and have it printed.
    pub open spec fn print(self) -> Step {
        if self.stack.len() == 0 {
            Err(Fault::StackUnderflow)
        } else {
            match shown(self.heap, self.stack.last()) {
                Err(fault) => Err(fault),
                Ok(output) => Ok(
                    (
                        Machine {
                            stack: self.stack.drop_last(),
                            position: self.position + 1,
                            ..self
                        },
                        SignalView::Print(output),
                    ),
                ),
            }
        }
    }

    /// What the instruction with operation code `operation` at the
    /// machine's position makes of the machine.
    pub open spec fn execute(
        self,
        operation: OperationCode,
        code: Seq<u8>,
        pool: Seq<ConstantView>,
        answer: Option<Answer>,
    ) -> Step {
        match operation {
            OperationCode::Constant => self.constant(code, pool),
            OperationCode::Nil => self.push(Value::Nil, self.position + 1),
            OperationCode::True => self.push(Value::Boolean(true), self.position + 1),
            OperationCode::False => self.push(Value::Boolean(false), self.position + 1),
            OperationCode::Fun => self.callable(code, false),
            OperationCode::Negate => self.negate(),
            OperationCode::Not => self.not(),
            OperationCode::Add => self.binary(operation, answer),
            OperationCode::Subtract => self.binary(operation, answer),
            OperationCode::Multiply => self.binary(operation, answer),
            OperationCode::Divide => self.binary(operation, answer),
            OperationCode::Equal => self.equal(answer),
            OperationCode::Greater => self.binary(operation, answer),
            OperationCode::Less => self.binary(operation, answer),
            OperationCode::GetGlobal => self.get_global(code),
            OperationCode::SetGlobal => self.set_global(code),
            OperationCode::GetLocal => self.get_local(code),
            OperationCode::SetLocal => self.set_local(code),
            OperationCode::Pop => self.pop(),
            OperationCode::Closure => self.callable(code, true),
            OperationCode::Capture => self.capture(code),
            OperationCode::GetUpvalue => self.get_upvalue(code),
            OperationCode::SetUpvalue => self.set_upvalue(code),
            OperationCode::JumpIfFalse => self.jump_if_false(code),
            OperationCode::Jump => self.jump(code),
            OperationCode::Call => self.call(code),
            OperationCode::Invoke => self.invoke(),
            OperationCode::Return => self.leave(),
            OperationCode::Print => self.print(),
        }
    }

    /// What the next instruction makes of the machine.
    ///
    /// `answer` is the host's result of the operation that the machine asked
    /// for last, if it asked for one.
    pub open spec fn step(self, code: Seq<u8>, pool: Seq<ConstantView>, answer: Option<Answer>) -> Step {
        match operation_at(code, self.position) {
            Err(fault) => Err(fault),
            Ok(operation) => self.execute(operation, code, pool, answer),
        }
    }

    /// What up to `budget` instructions make of the machine: the machine
    /// where it stopped, and the signal or the fault that stopped it.
    ///
    /// The machine runs while its instructions leave it running. It stops
    /// at the first instruction that prints, asks the host for an answer,
    /// ends the program or faults, and when the budget is spent. A fault
    /// leaves the machine as it was before the faulting instruction. Only
    /// the first instruction sees `answer`.
    pub open spec fn run(
        self,
        code: Seq<u8>,
        pool: Seq<ConstantView>,
        answer: Option<Answer>,
        budget: nat,
    ) -> (Machine, Result<SignalView, Fault>)
        decreases budget,
    {
        if budget == 0 {
            (self, Ok(SignalView::Running))
        } else {
            match self.step(code, pool, answer) {
                Ok((next, SignalView::Running)) => next.run(code, pool, None, (budget - 1) as nat),
                Ok((next, signal)) => (next, Ok(signal)),
                Err(fault) => (self, Err(fault)),
            }
        }
    }

    /// The stack is within its capacity, every global is there, no two
    /// strings on the heap have the same text, and the heap, the frame and
    /// the position are within what the machine can address.
    pub open spec fn wf(self) -> bool {
        &&& self.stack.len() <= LOCALS_CAPACITY
        &&& self.globals.len() == GLOBALS_CAPACITY
        &&& interned(self.heap)
        &&& self.heap.len() <= usize::MAX
        &&& 0 <= self.frame <= usize::MAX
        &&& 0 <= self.position <= usize::MAX
    }
}

} // verus!
