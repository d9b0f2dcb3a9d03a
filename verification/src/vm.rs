use vstd::prelude::*;

pub mod laws;
pub mod runs;
pub mod semantics;
pub mod validity;

pub use semantics::Machine;
pub use semantics::SignalView;
pub use semantics::Step;

use crate::bytecode::reader::byte_at;
use crate::bytecode::reader::i16_at;
use crate::bytecode::reader::operation_at;
use crate::bytecode::reader::u16_at;
use crate::bytecode::Bytecode;
use crate::bytecode::BytecodeReader;
use crate::bytecode::Constant;
use crate::bytecode::Fetch;
use crate::bytecode::GlobalIndex;
use crate::bytecode::OperationCode;
use crate::fault::Fault;
use crate::gc::Allocate;
use crate::gc::Closure;
use crate::gc::FunctionPointer;
use crate::gc::GarbageCollector;
use crate::gc::Object;
use crate::gc::Reference;
use crate::host::Answer;
use crate::host::Operation;
use crate::host::Operator;
use crate::host::Output;
use crate::stack::Stack;
use crate::value::Equality;
use crate::value::Value;

verus! {

/// The number of global variables.
pub const GLOBALS_CAPACITY: usize = 256;

/// The capacity of the evaluation stack: one more than the largest local offset.
pub const LOCALS_CAPACITY: usize = 256;

/// What a call saves of its caller.
#[derive(Clone, Copy, Debug, PartialEq, Eq, Structural)]
pub struct CallFrame {
    /// The position in code at which the caller goes on.
    pub position: usize,
    /// The stack index at which the locals of the caller begin.
    pub frame: usize,
    /// The closure that the caller executes, if it executes one.
    pub closure: Option<Reference>,
}

/// What the machine tells its host after it has run.
#[derive(Clone, Debug)]
pub enum Signal {
    /// The machine is running: the next instruction is ready to execute.
    Running,
    /// The machine printed: the host is to write the output and a line break.
    Print(Output),
    /// The next instruction operates on two numbers: the host is to carry
    /// out the operation and to hand the answer in.
    Compute(Operation),
    /// The outermost function returned: the program has ended, and the value
    /// that it returned is discarded.
    Terminated,
}

impl View for Signal {
    type V = SignalView;

    open spec fn view(&self) -> SignalView {
        match self {
            Signal::Running => SignalView::Running,
            Signal::Print(output) => SignalView::Print(output@),
            Signal::Compute(operation) => SignalView::Compute(*operation),
            Signal::Terminated => SignalView::Terminated,
        }
    }
}

/// Whether a run from `before` that ended in `after` with `result` is what
/// `step` says: on success the machine and the signal of `step`, on a fault
/// that fault and the machine unchanged.
pub open spec fn agrees(
    before: Machine,
    after: Machine,
    result: Result<Signal, Fault>,
    step: Step,
) -> bool {
    match step {
        Ok((machine, signal)) => result is Ok && result->Ok_0@ == signal && after == machine,
        Err(fault) => result is Err && result->Err_0 == fault && after == before,
    }
}

/// The operator that the host carries out for an operation code on two numbers.
fn operator_for(code: OperationCode) -> (operator: Operator)
    ensures
        operator == semantics::operator_of(code),
{
    match code {
        OperationCode::Add => Operator::Add,
        OperationCode::Subtract => Operator::Subtract,
        OperationCode::Multiply => Operator::Multiply,
        OperationCode::Divide => Operator::Divide,
        OperationCode::Greater => Operator::Greater,
        OperationCode::Less => Operator::Less,
        _ => Operator::Equal,
    }
}

/// The bit pattern of the negation of the number with bit pattern `bits`.
pub fn negate_number(bits: u64) -> (negation: u64)
    ensures
        negation == semantics::negated(bits),
{
    bits ^ 0x8000_0000_0000_0000u64
}

/// Fetch a one-byte operand.
fn operand_u8(reader: &mut BytecodeReader) -> (operand: Result<u8, Fault>)
    ensures
        operand == byte_at(old(reader).code(), old(reader).cursor()),
        final(reader).code() == old(reader).code(),
        final(reader).pool() == old(reader).pool(),
        operand is Ok ==> final(reader).cursor() == old(reader).cursor() + 1,
{
    proof {
        if reader.cursor() < reader.code().len() {
            reader.moved_on_is_a_move(1);
        }
    }
    reader.fetch()
}

/// Fetch an unsigned two-byte operand.
fn operand_u16(reader: &mut BytecodeReader) -> (operand: Result<u16, Fault>)
    ensures
        operand == u16_at(old(reader).code(), old(reader).cursor()),
        final(reader).code() == old(reader).code(),
        final(reader).pool() == old(reader).pool(),
        operand is Ok ==> final(reader).cursor() == old(reader).cursor() + 2,
{
    proof {
        if reader.cursor() + 2 <= reader.code().len() {
            reader.moved_on_is_a_move(2);
        }
    }
    reader.fetch()
}

/// Fetch a signed two-byte operand.
fn operand_i16(reader: &mut BytecodeReader) -> (operand: Result<i16, Fault>)
    ensures
        operand == i16_at(old(reader).code(), old(reader).cursor()),
        final(reader).code() == old(reader).code(),
        final(reader).pool() == old(reader).pool(),
        operand is Ok ==> final(reader).cursor() == old(reader).cursor() + 2,
{
    proof {
        if reader.cursor() + 2 <= reader.code().len() {
            reader.moved_on_is_a_move(2);
        }
    }
    reader.fetch()
}

/// Fetch an operation code.
fn operation(reader: &mut BytecodeReader) -> (operation: Result<OperationCode, Fault>)
    ensures
        operation == operation_at(old(reader).code(), old(reader).cursor()),
        final(reader).code() == old(reader).code(),
        final(reader).pool() == old(reader).pool(),
        operation is Ok ==> final(reader).cursor() == old(reader).cursor() + 1,
{
    proof {
        if reader.cursor() < reader.code().len() {
            reader.moved_on_is_a_move(1);
        }
    }
    reader.fetch()
}

/// The machine.
///
/// A stack machine: it keeps the locals of the executing function and the
/// operands of its expressions on one evaluation stack, the global variables
/// in a table, and every object on a heap of its own.
///
/// The machine computes nothing on numbers and prints nothing itself. Where
/// an instruction operates on two numbers, it asks its host to carry the
/// operation out; where one prints, it hands the output to its host.
pub struct VirtualMachine {
    globals: Vec<Value>,
    stack: Stack<Value, LOCALS_CAPACITY>,
    gc: GarbageCollector,
    frame: usize,
    closure: Option<Reference>,
    callstack: Vec<CallFrame>,
    position: usize,
}

impl View for VirtualMachine {
    type V = Machine;

    closed spec fn view(&self) -> Machine {
        Machine {
            stack: self.stack@,
            globals: self.globals@,
            heap: self.gc@,
            frame: self.frame as int,
            closure: self.closure,
            callstack: self.callstack@,
            position: self.position as int,
        }
    }
}

impl VirtualMachine {
    /// The machine is well-formed, and no reference in it dangles.
    pub open spec fn wf(&self) -> bool {
        self@.sound()
    }

    /// Create a machine.
    pub fn new() -> (machine: Self)
        ensures
            machine.wf(),
            machine@ == Machine::initial(),
    {
        let mut globals: Vec<Value> = Vec::new();
        while globals.len() < GLOBALS_CAPACITY
            invariant
                globals@.len() <= GLOBALS_CAPACITY,
                forall|i: int| 0 <= i < globals@.len() ==> globals@[i] == Value::Nil,
            decreases GLOBALS_CAPACITY - globals@.len(),
        {
            globals.push(Value::Nil);
        }
        let machine = VirtualMachine {
            globals,
            stack: Stack::new(),
            gc: GarbageCollector::new(),
            frame: 0,
            closure: None,
            callstack: Vec::new(),
            position: 0,
        };
        assert(machine@.globals =~= Machine::initial().globals);
        machine
    }

    /// Reset the state of the program, as if the machine were just created
    /// and ready to execute bytecode. The heap is kept as it is.
    pub fn reset(&mut self)
        requires
            old(self).wf(),
        ensures
            final(self).wf(),
            final(self)@ == (Machine { heap: old(self)@.heap, ..Machine::initial() }),
    {
        let mut index: usize = 0;
        while index < GLOBALS_CAPACITY
            invariant
                index <= GLOBALS_CAPACITY,
                self.globals@.len() == GLOBALS_CAPACITY,
                forall|i: int| 0 <= i < index ==> self.globals@[i] == Value::Nil,
                self.gc@ == old(self).gc@,
            decreases GLOBALS_CAPACITY - index,
        {
            self.globals.set(index, Value::Nil);
            index = index + 1;
        }
        self.stack.clear();
        self.frame = 0;
        self.closure = None;
        self.callstack.clear();
        self.position = 0;
        assert(self@.globals =~= Machine::initial().globals);
    }

    /// The evaluation stack.
    pub fn stack(&self) -> (stack: &Stack<Value, LOCALS_CAPACITY>)
        ensures
            stack@ == self@.stack,
    {
        &self.stack
    }

    /// The heap.
    pub fn heap(&self) -> (heap: &GarbageCollector)
        ensures
            heap@ == self@.heap,
    {
        &self.gc
    }

    /// The global variable at `index`, as the table holds it.
    pub fn global(&self, index: GlobalIndex) -> (value: Value)
        requires
            self.wf(),
        ensures
            value == self@.globals[index as int],
    {
        self.globals[index as usize]
    }

    /// The stack index at which the locals of the executing function begin.
    pub fn frame(&self) -> (frame: usize)
        ensures
            frame == self@.frame,
    {
        self.frame
    }

    /// The executing closure, if a closure is executing.
    pub fn closure(&self) -> (closure: Option<Reference>)
        ensures
            closure == self@.closure,
    {
        self.closure
    }

    /// The number of calls that have not returned.
    pub fn depth(&self) -> (depth: usize)
        ensures
            depth == self@.callstack.len(),
    {
        self.callstack.len()
    }

    /// The position in code of the next instruction.
    pub fn position(&self) -> (position: usize)
        ensures
            position == self@.position,
    {
        self.position
    }

    /// The plain value on top of the stack.
    fn top(&self) -> (value: Result<Value, Fault>)
        ensures
            value == self@.top(),
    {
        if self.stack.is_empty() {
            return Err(Fault::StackUnderflow);
        }
        self.stack.top().unbox(&self.gc)
    }

    /// The two plain values on top of the stack.
    fn operands(&self) -> (values: Result<(Value, Value), Fault>)
        ensures
            values == self@.operands(),
    {
        if self.stack.len() < 2 {
            return Err(Fault::StackUnderflow);
        }
        let right = match self.stack.peek(0).unbox(&self.gc) {
            Ok(value) => value,
            Err(fault) => {
                return Err(fault);
            },
        };
        let left = match self.stack.peek(1).unbox(&self.gc) {
            Ok(value) => value,
            Err(fault) => {
                return Err(fault);
            },
        };
        Ok((left, right))
    }

    /// The stack index of the local at `offset`.
    fn slot(&self, offset: u8) -> (slot: Result<usize, Fault>)
        ensures
            match self@.slot(offset) {
                Ok(index) => slot == Ok::<usize, Fault>(index as usize) && index < self@.stack.len(),
                Err(fault) => slot == Err::<usize, Fault>(fault),
            },
    {
        let depth = self.stack.len();
        if self.frame >= depth || offset as usize >= depth - self.frame {
            return Err(Fault::LocalOutOfRange);
        }
        Ok(self.frame + offset as usize)
    }

    /// The cell of the upvalue at `offset` of the executing closure.
    fn upvalue(&self, offset: u8) -> (cell: Result<Reference, Fault>)
        ensures
            cell == self@.upvalue(offset),
    {
        let closure = match self.closure {
            Some(closure) => closure,
            None => {
                return Err(Fault::NoActiveClosure);
            },
        };
        match self.gc.get(closure) {
            Some(Object::Closure(executing)) => {
                if offset as usize >= executing.upvalues.len() {
                    return Err(Fault::UpvalueOutOfRange);
                }
                Ok(executing.upvalues[offset as usize])
            },
            _ => Err(Fault::DanglingReference),
        }
    }

    /// Push `value` and go on at `next`.
    fn push(&mut self, value: Value, next: usize) -> (signal: Result<Signal, Fault>)
        requires
            old(self)@.wf(),
        ensures
            final(self)@.wf(),
            agrees(old(self)@, final(self)@, signal, old(self)@.push(value, next as int)),
    {
        if self.stack.len() >= LOCALS_CAPACITY {
            return Err(Fault::StackOverflow);
        }
        self.stack.push(value);
        self.position = next;
        Ok(Signal::Running)
    }

    /// Replace the `count` values on top by `value` and go on at `next`.
    fn replace(&mut self, count: usize, value: Value, next: usize) -> (signal: Result<Signal, Fault>)
        requires
            old(self)@.wf(),
            count <= old(self)@.stack.len(),
            old(self)@.stack.len() - count < LOCALS_CAPACITY,
        ensures
            final(self)@.wf(),
            agrees(old(self)@, final(self)@, signal, old(self)@.replace(count as int, value, next as int)),
    {
        let mut dropped: usize = 0;
        while dropped < count
            invariant
                dropped <= count <= old(self)@.stack.len(),
                self.stack@ == old(self)@.stack.take(old(self)@.stack.len() - dropped),
                self.globals == old(self).globals,
                self.gc == old(self).gc,
                self.frame == old(self).frame,
                self.closure == old(self).closure,
                self.callstack == old(self).callstack,
                self.position == old(self).position,
            decreases count - dropped,
        {
            self.stack.pop();
            dropped = dropped + 1;
            assert(self.stack@ =~= old(self)@.stack.take(old(self)@.stack.len() - dropped));
        }
        self.stack.push(value);
        self.position = next;
        Ok(Signal::Running)
    }

    /// Allocate a string with this text, and put the reference to it in the
    /// place of the `count` values on top.
    fn intern(&mut self, text: String, count: usize, next: usize) -> (signal: Result<Signal, Fault>)
        requires
            old(self)@.wf(),
            count <= old(self)@.stack.len(),
        ensures
            final(self)@.wf(),
            agrees(old(self)@, final(self)@, signal, old(self)@.intern(text@, count as int, next as int)),
    {
        if self.stack.len() - count >= LOCALS_CAPACITY {
            return Err(Fault::StackOverflow);
        }
        let reference = self.gc.allocate(text);
        proof {
            self.gc.heap_is_addressable();
        }
        self.replace(count, Value::String(reference), next)
    }

    /// Write `value` into the upvalue cell `cell` and go on at `next`.
    fn write(&mut self, cell: Reference, value: Value, next: usize) -> (signal: Result<Signal, Fault>)
        requires
            old(self)@.wf(),
        ensures
            final(self)@.wf(),
            agrees(old(self)@, final(self)@, signal, old(self)@.write(cell, value, next as int)),
    {
        match self.gc.store(cell, value) {
            Ok(()) => {
                self.position = next;
                Ok(Signal::Running)
            },
            Err(fault) => Err(fault),
        }
    }

    /// Read the variable in `slot` and push what it holds.
    fn read(&mut self, slot: Value, next: usize) -> (signal: Result<Signal, Fault>)
        requires
            old(self)@.wf(),
        ensures
            final(self)@.wf(),
            agrees(old(self)@, final(self)@, signal, old(self)@.read(slot, next as int)),
    {
        match slot.unbox(&self.gc) {
            Ok(value) => self.push(value, next),
            Err(fault) => Err(fault),
        }
    }

    /// Go on at the position that `reader` has reached after a jump by
    /// `offset`.
    fn go(&mut self, reader: &mut BytecodeReader, offset: i16) -> (signal: Result<Signal, Fault>)
        requires
            old(self)@.wf(),
        ensures
            final(self)@.wf(),
            agrees(
                old(self)@,
                final(self)@,
                signal,
                old(self)@.go(old(reader).cursor() + offset),
            ),
    {
        match reader.jump(offset as isize) {
            Ok(()) => {
                self.position = reader.position();
                Ok(Signal::Running)
            },
            Err(fault) => Err(fault),
        }
    }

    /// An operation on the two numbers on top, which is the host's to carry out.
    fn compute(&mut self, operation: Operation, answer: Option<Answer>, next: usize) -> (signal:
        Result<Signal, Fault>)
        requires
            old(self)@.wf(),
            old(self)@.stack.len() >= 2,
            next == old(self)@.position + 1,
        ensures
            final(self)@.wf(),
            agrees(old(self)@, final(self)@, signal, old(self)@.compute(operation, answer)),
    {
        match answer {
            None => Ok(Signal::Compute(operation)),
            Some(result) => {
                if !result.answers(operation.operator) {
                    return Err(Fault::UnfitAnswer);
                }
                let value = match result {
                    Answer::Number(bits) => Value::Number(bits),
                    Answer::Boolean(truth) => Value::Boolean(truth),
                };
                self.replace(2, value, next)
            },
        }
    }

    /// Enter a function.
    fn enter(
        &mut self,
        position: u16,
        arity: u8,
        closure: Option<Reference>,
        back: usize,
    ) -> (signal: Result<Signal, Fault>)
        requires
            old(self)@.wf(),
        ensures
            final(self)@.wf(),
            agrees(
                old(self)@,
                final(self)@,
                signal,
                old(self)@.enter(position, arity, closure, back as int),
            ),
    {
        let depth = self.stack.len();
        if arity as usize > depth {
            return Err(Fault::MissingArguments);
        }
        self.callstack.push(
            CallFrame { position: back, frame: self.frame, closure: self.closure },
        );
        self.frame = depth - arity as usize;
        self.closure = closure;
        self.position = position as usize;
        Ok(Signal::Running)
    }

    /// `Constant`.
    fn constant(&mut self, bytecode: &Bytecode, reader: &mut BytecodeReader) -> (signal: Result<
        Signal,
        Fault,
    >)
        requires
            old(self)@.wf(),
            old(reader).code() == bytecode.code@,
            old(reader).pool() == bytecode.pool(),
            old(reader).cursor() == old(self)@.position + 1,
        ensures
            final(self)@.wf(),
            agrees(
                old(self)@,
                final(self)@,
                signal,
                old(self)@.constant(bytecode.code@, bytecode.pool()),
            ),
    {
        let index = match operand_u16(reader) {
            Ok(index) => index,
            Err(fault) => {
                return Err(fault);
            },
        };
        match reader.load(index as usize) {
            Ok(Constant::Number(bits)) => self.push(Value::Number(bits), reader.position()),
            Ok(Constant::String(text)) => self.intern(text, 0, reader.position()),
            Err(fault) => Err(fault),
        }
    }

    /// `Fun` and `Closure`.
    fn callable(&mut self, reader: &mut BytecodeReader, closure: bool) -> (signal: Result<
        Signal,
        Fault,
    >)
        requires
            old(self)@.wf(),
            old(reader).cursor() == old(self)@.position + 1,
        ensures
            final(self)@.wf(),
            agrees(
                old(self)@,
                final(self)@,
                signal,
                old(self)@.callable(old(reader).code(), closure),
            ),
    {
        let position = match operand_u16(reader) {
            Ok(position) => position,
            Err(fault) => {
                return Err(fault);
            },
        };
        let arity = match operand_u8(reader) {
            Ok(arity) => arity,
            Err(fault) => {
                return Err(fault);
            },
        };
        if self.stack.len() >= LOCALS_CAPACITY {
            return Err(Fault::StackOverflow);
        }
        if closure {
            let reference = self.gc.allocate(Closure { position, arity, upvalues: Vec::new() });
            proof {
                self.gc.heap_is_addressable();
            }
            self.push(Value::Closure(reference), reader.position())
        } else {
            let reference = self.gc.allocate(FunctionPointer { position, arity });
            proof {
                self.gc.heap_is_addressable();
            }
            self.push(Value::FunctionPointer(reference), reader.position())
        }
    }

    /// `Negate`.
    fn negate(&mut self, next: usize) -> (signal: Result<Signal, Fault>)
        requires
            old(self)@.wf(),
            next == old(self)@.position + 1,
        ensures
            final(self)@.wf(),
            agrees(old(self)@, final(self)@, signal, old(self)@.negate()),
    {
        match self.top() {
            Ok(Value::Number(bits)) => self.replace(1, Value::Number(negate_number(bits)), next),
            Ok(_) => Err(Fault::TypeMismatch),
            Err(fault) => Err(fault),
        }
    }

    /// `Not`.
    fn not(&mut self, next: usize) -> (signal: Result<Signal, Fault>)
        requires
            old(self)@.wf(),
            next == old(self)@.position + 1,
        ensures
            final(self)@.wf(),
            agrees(old(self)@, final(self)@, signal, old(self)@.not()),
    {
        match self.top() {
            Ok(value) => self.replace(1, Value::Boolean(!value.as_boolean()), next),
            Err(fault) => Err(fault),
        }
    }

    /// `Add`, `Subtract`, `Multiply`, `Divide`, `Greater` and `Less`.
    fn binary(&mut self, code: OperationCode, answer: Option<Answer>, next: usize) -> (signal:
        Result<Signal, Fault>)
        requires
            old(self)@.wf(),
            next == old(self)@.position + 1,
        ensures
            final(self)@.wf(),
            agrees(old(self)@, final(self)@, signal, old(self)@.binary(code, answer)),
    {
        let (left, right) = match self.operands() {
            Ok(values) => values,
            Err(fault) => {
                return Err(fault);
            },
        };
        match (left, right) {
            (Value::Number(left), Value::Number(right)) => self.compute(
                Operation { operator: operator_for(code), left, right },
                answer,
                next,
            ),
            (Value::String(left), Value::String(right)) => {
                match code {
                    OperationCode::Add => {},
                    _ => {
                        return Err(Fault::TypeMismatch);
                    },
                }
                let text = match (self.gc.get(left), self.gc.get(right)) {
                    (Some(Object::String(first)), Some(Object::String(second))) => {
                        let mut text = first.clone();
                        text.append(second.as_str());
                        text
                    },
                    _ => {
                        return Err(Fault::DanglingReference);
                    },
                };
                self.intern(text, 2, next)
            },
            _ => Err(Fault::TypeMismatch),
        }
    }

    /// `Equal`.
    fn equal(&mut self, answer: Option<Answer>, next: usize) -> (signal: Result<Signal, Fault>)
        requires
            old(self)@.wf(),
            next == old(self)@.position + 1,
        ensures
            final(self)@.wf(),
            agrees(old(self)@, final(self)@, signal, old(self)@.equal(answer)),
    {
        let (left, right) = match self.operands() {
            Ok(values) => values,
            Err(fault) => {
                return Err(fault);
            },
        };
        match left.equals(&right, &self.gc) {
            Ok(Equality::Known(truth)) => self.replace(2, Value::Boolean(truth), next),
            Ok(Equality::Ask(operation)) => self.compute(operation, answer, next),
            Err(fault) => Err(fault),
        }
    }

    /// `GetGlobal`.
    fn get_global(&mut self, reader: &mut BytecodeReader) -> (signal: Result<Signal, Fault>)
        requires
            old(self)@.wf(),
            old(reader).cursor() == old(self)@.position + 1,
        ensures
            final(self)@.wf(),
            agrees(old(self)@, final(self)@, signal, old(self)@.get_global(old(reader).code())),
    {
        let index = match operand_u8(reader) {
            Ok(index) => index,
            Err(fault) => {
                return Err(fault);
            },
        };
        let slot = self.globals[index as usize];
        self.read(slot, reader.position())
    }

    /// `GetLocal`.
    fn get_local(&mut self, reader: &mut BytecodeReader) -> (signal: Result<Signal, Fault>)
        requires
            old(self)@.wf(),
            old(reader).cursor() == old(self)@.position + 1,
        ensures
            final(self)@.wf(),
            agrees(old(self)@, final(self)@, signal, old(self)@.get_local(old(reader).code())),
    {
        let offset = match operand_u8(reader) {
            Ok(offset) => offset,
            Err(fault) => {
                return Err(fault);
            },
        };
        let index = match self.slot(offset) {
            Ok(index) => index,
            Err(fault) => {
                return Err(fault);
            },
        };
        let slot = *self.stack.get(index);
        self.read(slot, reader.position())
    }

    /// `GetUpvalue`.
    fn get_upvalue(&mut self, reader: &mut BytecodeReader) -> (signal: Result<Signal, Fault>)
        requires
            old(self)@.wf(),
            old(reader).cursor() == old(self)@.position + 1,
        ensures
            final(self)@.wf(),
            agrees(old(self)@, final(self)@, signal, old(self)@.get_upvalue(old(reader).code())),
    {
        let offset = match operand_u8(reader) {
            Ok(offset) => offset,
            Err(fault) => {
                return Err(fault);
            },
        };
        let cell = match self.upvalue(offset) {
            Ok(cell) => cell,
            Err(fault) => {
                return Err(fault);
            },
        };
        self.read(Value::Upvalue(cell), reader.position())
    }

    /// `SetGlobal`.
    fn set_global(&mut self, reader: &mut BytecodeReader) -> (signal: Result<Signal, Fault>)
        requires
            old(self)@.wf(),
            old(reader).cursor() == old(self)@.position + 1,
        ensures
            final(self)@.wf(),
            agrees(old(self)@, final(self)@, signal, old(self)@.set_global(old(reader).code())),
    {
        let index = match operand_u8(reader) {
            Ok(index) => index,
            Err(fault) => {
                return Err(fault);
            },
        };
        let value = match self.top() {
            Ok(value) => value,
            Err(fault) => {
                return Err(fault);
            },
        };
        match self.globals[index as usize] {
            Value::Upvalue(cell) => self.write(cell, value, reader.position()),
            _ => {
                self.globals.set(index as usize, value);
                self.position = reader.position();
                Ok(Signal::Running)
            },
        }
    }

    /// `SetLocal`.
    fn set_local(&mut self, reader: &mut BytecodeReader) -> (signal: Result<Signal, Fault>)
        requires
            old(self)@.wf(),
            old(reader).cursor() == old(self)@.position + 1,
        ensures
            final(self)@.wf(),
            agrees(old(self)@, final(self)@, signal, old(self)@.set_local(old(reader).code())),
    {
        let offset = match operand_u8(reader) {
            Ok(offset) => offset,
            Err(fault) => {
                return Err(fault);
            },
        };
        let value = match self.top() {
            Ok(value) => value,
            Err(fault) => {
                return Err(fault);
            },
        };
        let index = match self.slot(offset) {
            Ok(index) => index,
            Err(fault) => {
                return Err(fault);
            },
        };
        match *self.stack.get(index) {
            Value::Upvalue(cell) => self.write(cell, value, reader.position()),
            _ => {
                self.stack.set(index, value);
                self.position = reader.position();
                Ok(Signal::Running)
            },
        }
    }

    /// `SetUpvalue`.
    fn set_upvalue(&mut self, reader: &mut BytecodeReader) -> (signal: Result<Signal, Fault>)
        requires
            old(self)@.wf(),
            old(reader).cursor() == old(self)@.position + 1,
        ensures
            final(self)@.wf(),
            agrees(old(self)@, final(self)@, signal, old(self)@.set_upvalue(old(reader).code())),
    {
        let offset = match operand_u8(reader) {
            Ok(offset) => offset,
            Err(fault) => {
                return Err(fault);
            },
        };
        let cell = match self.upvalue(offset) {
            Ok(cell) => cell,
            Err(fault) => {
                return Err(fault);
            },
        };
        let value = match self.top() {
            Ok(value) => value,
            Err(fault) => {
                return Err(fault);
            },
        };
        self.write(cell, value, reader.position())
    }

    /// `Pop`.
    fn pop(&mut self, next: usize) -> (signal: Result<Signal, Fault>)
        requires
            old(self)@.wf(),
            next == old(self)@.position + 1,
        ensures
            final(self)@.wf(),
            agrees(old(self)@, final(self)@, signal, old(self)@.pop()),
    {
        if self.stack.is_empty() {
            return Err(Fault::StackUnderflow);
        }
        self.stack.pop();
        self.position = next;
        Ok(Signal::Running)
    }

    /// `Capture`.
    fn capture(&mut self, reader: &mut BytecodeReader) -> (signal: Result<Signal, Fault>)
        requires
            old(self)@.wf(),
            old(reader).cursor() == old(self)@.position + 1,
        ensures
            final(self)@.wf(),
            agrees(old(self)@, final(self)@, signal, old(self)@.capture(old(reader).code())),
    {
        let offset = match operand_u8(reader) {
            Ok(offset) => offset,
            Err(fault) => {
                return Err(fault);
            },
        };
        let index = match self.slot(offset) {
            Ok(index) => index,
            Err(fault) => {
                return Err(fault);
            },
        };
        let closure = match self.stack.top() {
            Value::Closure(closure) => *closure,
            _ => {
                return Err(Fault::NoClosureOnTop);
            },
        };
        match self.gc.get(closure) {
            Some(Object::Closure(_)) => {},
            _ => {
                return Err(Fault::DanglingReference);
            },
        }
        let local = *self.stack.get(index);
        let cell = match local {
            Value::Upvalue(cell) => cell,
            _ => {
                let cell = self.gc.allocate(local);
                self.stack.set(index, Value::Upvalue(cell));
                cell
            },
        };
        let _ = self.gc.bind(closure, cell);
        proof {
            self.gc.heap_is_addressable();
        }
        self.position = reader.position();
        Ok(Signal::Running)
    }

    /// `Jump`.
    fn jump(&mut self, reader: &mut BytecodeReader) -> (signal: Result<Signal, Fault>)
        requires
            old(self)@.wf(),
            old(reader).cursor() == old(self)@.position + 1,
        ensures
            final(self)@.wf(),
            agrees(old(self)@, final(self)@, signal, old(self)@.jump(old(reader).code())),
    {
        let offset = match operand_i16(reader) {
            Ok(offset) => offset,
            Err(fault) => {
                return Err(fault);
            },
        };
        self.go(reader, offset)
    }

    /// `JumpIfFalse`.
    fn jump_if_false(&mut self, reader: &mut BytecodeReader) -> (signal: Result<Signal, Fault>)
        requires
            old(self)@.wf(),
            old(reader).cursor() == old(self)@.position + 1,
        ensures
            final(self)@.wf(),
            agrees(old(self)@, final(self)@, signal, old(self)@.jump_if_false(old(reader).code())),
    {
        let offset = match operand_i16(reader) {
            Ok(offset) => offset,
            Err(fault) => {
                return Err(fault);
            },
        };
        let condition = match self.top() {
            Ok(condition) => condition,
            Err(fault) => {
                return Err(fault);
            },
        };
        if condition.as_boolean() {
            self.go(reader, 0)
        } else {
            self.go(reader, offset)
        }
    }

    /// `Call`.
    fn call(&mut self, reader: &mut BytecodeReader) -> (signal: Result<Signal, Fault>)
        requires
            old(self)@.wf(),
            old(reader).cursor() == old(self)@.position + 1,
        ensures
            final(self)@.wf(),
            agrees(old(self)@, final(self)@, signal, old(self)@.call(old(reader).code())),
    {
        let position = match operand_u16(reader) {
            Ok(position) => position,
            Err(fault) => {
                return Err(fault);
            },
        };
        let arity = match operand_u8(reader) {
            Ok(arity) => arity,
            Err(fault) => {
                return Err(fault);
            },
        };
        self.enter(position, arity, None, reader.position())
    }

    /// `Invoke`.
    fn invoke(&mut self, next: usize) -> (signal: Result<Signal, Fault>)
        requires
            old(self)@.wf(),
            next == old(self)@.position + 1,
        ensures
            final(self)@.wf(),
            agrees(old(self)@, final(self)@, signal, old(self)@.invoke()),
    {
        let callee = match self.top() {
            Ok(callee) => callee,
            Err(fault) => {
                return Err(fault);
            },
        };
        let (position, arity, closure) = match callee {
            Value::FunctionPointer(function) => match self.gc.get(function) {
                Some(Object::Function(target)) => (target.position, target.arity, None),
                _ => {
                    return Err(Fault::DanglingReference);
                },
            },
            Value::Closure(closure) => match self.gc.get(closure) {
                Some(Object::Closure(target)) => (target.position, target.arity, Some(closure)),
                _ => {
                    return Err(Fault::DanglingReference);
                },
            },
            _ => {
                return Err(Fault::NotCallable);
            },
        };
        if arity as usize > self.stack.len() - 1 {
            return Err(Fault::MissingArguments);
        }
        self.stack.pop();
        self.enter(position, arity, closure, next)
    }

    /// `Return`.
    fn leave(&mut self) -> (signal: Result<Signal, Fault>)
        requires
            old(self)@.wf(),
        ensures
            final(self)@.wf(),
            agrees(old(self)@, final(self)@, signal, old(self)@.leave()),
    {
        if self.callstack.len() == 0 {
            if !self.stack.is_empty() {
                self.stack.pop();
            }
            return Ok(Signal::Terminated);
        }
        if self.stack.is_empty() {
            return Err(Fault::StackUnderflow);
        }
        if self.frame >= self.stack.len() {
            return Err(Fault::LocalOutOfRange);
        }
        let result = *self.stack.top();
        self.stack.set(self.frame, result);
        while self.stack.len() > self.frame + 1
            invariant
                self.frame < self.stack@.len() <= old(self)@.stack.len(),
                self.stack@ == old(self)@.stack.update(self.frame as int, result).take(
                    self.stack@.len() as int,
                ),
                self.globals == old(self).globals,
                self.gc == old(self).gc,
                self.frame == old(self).frame,
                self.closure == old(self).closure,
                self.callstack == old(self).callstack,
                self.position == old(self).position,
            decreases self.stack@.len(),
        {
            self.stack.pop();
            assert(self.stack@ =~= old(self)@.stack.update(self.frame as int, result).take(
                self.stack@.len() as int,
            ));
        }
        assert(self.stack@ =~= old(self)@.stack.take(self.frame as int).push(result));
        let caller = self.callstack.pop().unwrap();
        self.frame = caller.frame;
        self.closure = caller.closure;
        self.position = caller.position;
        Ok(Signal::Running)
    }

    /// `Print`.
    fn print(&mut self, next: usize) -> (signal: Result<Signal, Fault>)
        requires
            old(self)@.wf(),
            next == old(self)@.position + 1,
        ensures
            final(self)@.wf(),
            agrees(old(self)@, final(self)@, signal, old(self)@.print()),
    {
        if self.stack.is_empty() {
            return Err(Fault::StackUnderflow);
        }
        let output = match self.stack.top().display(&self.gc) {
            Ok(output) => output,
            Err(fault) => {
                return Err(fault);
            },
        };
        self.stack.pop();
        self.position = next;
        Ok(Signal::Print(output))
    }

    /// Execute the next instruction.
    ///
    /// `answer` is the host's result of the operation that the machine asked
    /// for last, if it asked for one. A fault leaves the machine as it was.
    /// No reference of the machine dangles, so that fault does not occur.
    pub fn step(&mut self, bytecode: &Bytecode, answer: Option<Answer>) -> (signal: Result<
        Signal,
        Fault,
    >)
        requires
            old(self).wf(),
        ensures
            final(self).wf(),
            agrees(
                old(self)@,
                final(self)@,
                signal,
                old(self)@.step(bytecode.code@, bytecode.pool(), answer),
            ),
            signal != Err::<Signal, Fault>(Fault::DanglingReference),
    {
        proof {
            validity::sound_machines_never_dangle(
                self@,
                bytecode.code@,
                bytecode.pool(),
                answer,
            );
        }
        let mut reader = BytecodeReader::new(bytecode);
        reader.seek(self.position);
        let code = match operation(&mut reader) {
            Ok(code) => code,
            Err(fault) => {
                return Err(fault);
            },
        };
        let next = reader.position();
        let signal = match code {
            OperationCode::Constant => self.constant(bytecode, &mut reader),
            OperationCode::Nil => self.push(Value::Nil, next),
            OperationCode::True => self.push(Value::Boolean(true), next),
            OperationCode::False => self.push(Value::Boolean(false), next),
            OperationCode::Fun => self.callable(&mut reader, false),
            OperationCode::Negate => self.negate(next),
            OperationCode::Not => self.not(next),
            OperationCode::Add => self.binary(code, answer, next),
            OperationCode::Subtract => self.binary(code, answer, next),
            OperationCode::Multiply => self.binary(code, answer, next),
            OperationCode::Divide => self.binary(code, answer, next),
            OperationCode::Equal => self.equal(answer, next),
            OperationCode::Greater => self.binary(code, answer, next),
            OperationCode::Less => self.binary(code, answer, next),
            OperationCode::GetGlobal => self.get_global(&mut reader),
            OperationCode::SetGlobal => self.set_global(&mut reader),
            OperationCode::GetLocal => self.get_local(&mut reader),
            OperationCode::SetLocal => self.set_local(&mut reader),
            OperationCode::Pop => self.pop(next),
            OperationCode::Closure => self.callable(&mut reader, true),
            OperationCode::Capture => self.capture(&mut reader),
            OperationCode::GetUpvalue => self.get_upvalue(&mut reader),
            OperationCode::SetUpvalue => self.set_upvalue(&mut reader),
            OperationCode::JumpIfFalse => self.jump_if_false(&mut reader),
            OperationCode::Jump => self.jump(&mut reader),
            OperationCode::Call => self.call(&mut reader),
            OperationCode::Invoke => self.invoke(next),
            OperationCode::Return => self.leave(),
            OperationCode::Print => self.print(next),
        };
        proof {
            self.gc.heap_is_addressable();
            assert(bytecode.code.len() == bytecode.code@.len());
            if signal is Ok {
                validity::steps_keep_the_machine_sound(
                    old(self)@,
                    bytecode.code@,
                    bytecode.pool(),
                    answer,
                );
            }
        }
        signal
    }

    /// Execute the bytecode from where the machine stands, for at most
    /// `budget` instructions.
    ///
    /// The machine is not reset first, so that bytecode can be executed on
    /// the state that an earlier run left. It runs until an instruction
    /// prints, asks the host for an answer, ends the program or faults, or
    /// until the budget is spent, and says which in its signal. `answer` is
    /// the host's result of the operation that the machine asked for last,
    /// if it asked for one. A fault leaves the machine as it was before the
    /// faulting instruction.
    pub fn interpret(&mut self, bytecode: &Bytecode, answer: Option<Answer>, budget: usize) -> (signal:
        Result<Signal, Fault>)
        requires
            old(self).wf(),
        ensures
            final(self).wf(),
            final(self)@ == old(self)@.run(bytecode.code@, bytecode.pool(), answer, budget as nat).0,
            match old(self)@.run(bytecode.code@, bytecode.pool(), answer, budget as nat).1 {
                Ok(view) => signal is Ok && signal->Ok_0@ == view,
                Err(fault) => signal is Err && signal->Err_0 == fault,
            },
            signal != Err::<Signal, Fault>(Fault::DanglingReference),
    {
        let mut pending = answer;
        let mut left = budget;
        while left > 0
            invariant
                self.wf(),
                self@.run(bytecode.code@, bytecode.pool(), pending, left as nat) == old(self)@.run(
                    bytecode.code@,
                    bytecode.pool(),
                    answer,
                    budget as nat,
                ),
            decreases left,
        {
            match self.step(bytecode, pending) {
                Ok(Signal::Running) => {
                    pending = None;
                    left = left - 1;
                },
                other => {
                    return other;
                },
            }
        }
        Ok(Signal::Running)
    }
}

} // verus!
