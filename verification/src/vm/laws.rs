use vstd::prelude::*;

use crate::bytecode::reader::byte_at;
use crate::bytecode::reader::i16_at;
use crate::bytecode::reader::operation_at;
use crate::bytecode::reader::u16_at;
use crate::bytecode::ConstantView;
use crate::bytecode::OperationCode;
use crate::fault::Fault;
use crate::gc::is_closure;
use crate::gc::is_upvalue;
use crate::gc::Reference;
use crate::host::Answer;
use crate::host::Operation;
use crate::host::Operator;
use crate::value::unboxed;
use crate::value::Value;
use crate::vm::semantics::Machine;
use crate::vm::semantics::SignalView;
use crate::vm::LOCALS_CAPACITY;

verus! {

/// The `Return` of the outermost function ends the program and discards the
/// value on top: the stack is one value less deep than before, so that a
/// program that returns with one value on the stack leaves no stack. Nothing
/// else changes. Where the stack is empty, the program ends all the same.
pub proof fn outermost_return_discards_the_top(
    machine: Machine,
    code: Seq<u8>,
    pool: Seq<ConstantView>,
    answer: Option<Answer>,
)
    requires
        operation_at(code, machine.position) == Ok::<OperationCode, Fault>(OperationCode::Return),
        machine.callstack.len() == 0,
    ensures
        machine.step(code, pool, answer) is Ok,
        machine.step(code, pool, answer)->Ok_0.1 == SignalView::Terminated,
        machine.stack.len() > 0 ==> machine.step(code, pool, answer)->Ok_0.0 == (Machine {
            stack: machine.stack.drop_last(),
            ..machine
        }) && machine.step(code, pool, answer)->Ok_0.0.stack.len() == machine.stack.len() - 1,
        machine.stack.len() == 1 ==> machine.step(code, pool, answer)->Ok_0.0.stack
            == Seq::<Value>::empty(),
        machine.stack.len() == 0 ==> machine.step(code, pool, answer)->Ok_0.0 == machine,
{
    if machine.stack.len() == 1 {
        assert(machine.stack.drop_last() =~= Seq::<Value>::empty());
    }
}

/// A `Jump` with offset `offset` sets the position of the next instruction
/// to the position behind the offset, moved by `offset`, and changes nothing
/// else. Where that lies before the start of the code, or beyond what a
/// position can hold, the jump is a fault.
pub proof fn jump_lands_relative_to_the_end_of_its_offset(
    machine: Machine,
    code: Seq<u8>,
    pool: Seq<ConstantView>,
    answer: Option<Answer>,
    offset: i16,
)
    requires
        operation_at(code, machine.position) == Ok::<OperationCode, Fault>(OperationCode::Jump),
        i16_at(code, machine.position + 1) == Ok::<i16, Fault>(offset),
    ensures
        0 <= machine.position + 3 + offset <= usize::MAX ==> machine.step(code, pool, answer)
            == Ok::<(Machine, SignalView), Fault>(
            (Machine { position: machine.position + 3 + offset, ..machine }, SignalView::Running),
        ),
        !(0 <= machine.position + 3 + offset <= usize::MAX) ==> machine.step(code, pool, answer)
            == Err::<(Machine, SignalView), Fault>(Fault::InvalidJump),
{
}

/// After a `Call` the frame begins at the first argument: it is the depth
/// of the stack less the number of arguments, and no closure executes.
pub proof fn call_puts_the_frame_below_the_arguments(
    machine: Machine,
    code: Seq<u8>,
    pool: Seq<ConstantView>,
    answer: Option<Answer>,
    position: u16,
    arity: u8,
)
    requires
        operation_at(code, machine.position) == Ok::<OperationCode, Fault>(OperationCode::Call),
        u16_at(code, machine.position + 1) == Ok::<u16, Fault>(position),
        byte_at(code, machine.position + 3) == Ok::<u8, Fault>(arity),
    ensures
        arity > machine.stack.len() ==> machine.step(code, pool, answer) == Err::<
            (Machine, SignalView),
            Fault,
        >(Fault::MissingArguments),
        arity <= machine.stack.len() ==> machine.step(code, pool, answer) is Ok && ({
            let after = machine.step(code, pool, answer)->Ok_0.0;
            &&& after.stack == machine.stack
            &&& after.frame == after.stack.len() - arity
            &&& after.closure is None
            &&& after.position == position
        }),
{
}

/// A `Call` followed by the `Return` from the function it entered restores
/// the frame and the closure of the caller, and goes on at the instruction
/// behind the `Call`.
///
/// `callee` is the machine at that `Return`: whatever the function did, its
/// caller's frame is the innermost on the call stack again.
pub proof fn return_restores_what_call_saved(
    caller: Machine,
    callee: Machine,
    code: Seq<u8>,
    pool: Seq<ConstantView>,
    answer: Option<Answer>,
)
    requires
        caller.wf(),
        code.len() <= usize::MAX,
        operation_at(code, caller.position) == Ok::<OperationCode, Fault>(OperationCode::Call),
        caller.step(code, pool, answer) is Ok,
        callee.callstack == caller.step(code, pool, answer)->Ok_0.0.callstack,
        operation_at(code, callee.position) == Ok::<OperationCode, Fault>(OperationCode::Return),
        callee.step(code, pool, answer) is Ok,
    ensures
        callee.step(code, pool, answer)->Ok_0.0.frame == caller.frame,
        callee.step(code, pool, answer)->Ok_0.0.closure == caller.closure,
        callee.step(code, pool, answer)->Ok_0.0.position == caller.position + 4,
        callee.step(code, pool, answer)->Ok_0.0.callstack == caller.callstack,
{
    let entered = caller.step(code, pool, answer)->Ok_0.0;
    assert(entered.callstack.drop_last() =~= caller.callstack);
}

/// A `Call` whose function returns at once: the machine is back in the
/// caller's frame and closure, behind the `Call`, with the last argument in
/// the place of the arguments.
pub proof fn call_and_immediate_return(
    caller: Machine,
    code: Seq<u8>,
    pool: Seq<ConstantView>,
    position: u16,
    arity: u8,
)
    requires
        caller.wf(),
        code.len() <= usize::MAX,
        operation_at(code, caller.position) == Ok::<OperationCode, Fault>(OperationCode::Call),
        u16_at(code, caller.position + 1) == Ok::<u16, Fault>(position),
        byte_at(code, caller.position + 3) == Ok::<u8, Fault>(arity),
        operation_at(code, position as int) == Ok::<OperationCode, Fault>(OperationCode::Return),
        1 <= arity <= caller.stack.len(),
    ensures
        caller.step(code, pool, None) is Ok,
        caller.step(code, pool, None)->Ok_0.0.step(code, pool, None) == Ok::<
            (Machine, SignalView),
            Fault,
        >(
            (
                Machine {
                    stack: caller.stack.take(caller.stack.len() - arity).push(caller.stack.last()),
                    position: caller.position + 4,
                    ..caller
                },
                SignalView::Running,
            ),
        ),
{
    let entered = caller.step(code, pool, None)->Ok_0.0;
    assert(entered.callstack.drop_last() =~= caller.callstack);
}

/// Pushing onto a stack that is at its capacity is a fault.
pub proof fn push_onto_full_stack_faults(
    machine: Machine,
    code: Seq<u8>,
    pool: Seq<ConstantView>,
    answer: Option<Answer>,
    value: Value,
    next: int,
)
    requires
        machine.stack.len() == LOCALS_CAPACITY,
    ensures
        machine.push(value, next) == Err::<(Machine, SignalView), Fault>(Fault::StackOverflow),
        operation_at(code, machine.position) == Ok::<OperationCode, Fault>(OperationCode::Nil)
            || operation_at(code, machine.position) == Ok::<OperationCode, Fault>(
            OperationCode::True,
        ) || operation_at(code, machine.position) == Ok::<OperationCode, Fault>(
            OperationCode::False,
        ) ==> machine.step(code, pool, answer) == Err::<(Machine, SignalView), Fault>(
            Fault::StackOverflow,
        ),
{
}

/// A `Pop` on an empty stack is a fault.
pub proof fn pop_of_empty_stack_faults(
    machine: Machine,
    code: Seq<u8>,
    pool: Seq<ConstantView>,
    answer: Option<Answer>,
)
    requires
        operation_at(code, machine.position) == Ok::<OperationCode, Fault>(OperationCode::Pop),
        machine.stack.len() == 0,
    ensures
        machine.step(code, pool, answer) == Err::<(Machine, SignalView), Fault>(
            Fault::StackUnderflow,
        ),
{
}

/// A `Divide` on two numbers is no fault, whatever the numbers are: the
/// machine asks its host for the quotient, and takes any number for it.
pub proof fn divide_on_numbers_is_no_fault(
    machine: Machine,
    code: Seq<u8>,
    pool: Seq<ConstantView>,
    left: u64,
    right: u64,
    quotient: u64,
)
    requires
        operation_at(code, machine.position) == Ok::<OperationCode, Fault>(OperationCode::Divide),
        machine.operands() == Ok::<(Value, Value), Fault>(
            (Value::Number(left), Value::Number(right)),
        ),
    ensures
        machine.step(code, pool, None) == Ok::<(Machine, SignalView), Fault>(
            (
                machine,
                SignalView::Compute(Operation { operator: Operator::Divide, left, right }),
            ),
        ),
        machine.step(code, pool, Some(Answer::Number(quotient))) == machine.replace(
            2,
            Value::Number(quotient),
            machine.position + 1,
        ),
        machine.step(code, pool, Some(Answer::Number(quotient))) is Ok,
{
}

/// `Not` is defined on every value: where the stack holds a value, and that
/// value is no upvalue without a cell, `Not` replaces it by the negation of
/// its truthiness.
pub proof fn not_is_defined_on_every_value(
    machine: Machine,
    code: Seq<u8>,
    pool: Seq<ConstantView>,
    answer: Option<Answer>,
)
    requires
        operation_at(code, machine.position) == Ok::<OperationCode, Fault>(OperationCode::Not),
        machine.stack.len() > 0,
        machine.stack.last() is Upvalue ==> is_upvalue(
            machine.heap,
            machine.stack.last()->Upvalue_0,
        ),
    ensures
        machine.top() is Ok,
        machine.step(code, pool, answer) == Ok::<(Machine, SignalView), Fault>(
            (
                Machine {
                    stack: machine.stack.drop_last().push(
                        Value::Boolean(!machine.top()->Ok_0.truthy()),
                    ),
                    position: machine.position + 1,
                    ..machine
                },
                SignalView::Running,
            ),
        ),
{
    assert(machine.stack.take(machine.stack.len() - 1) =~= machine.stack.drop_last());
}

/// After a `Capture`, the captured local and the closure share one cell: the
/// local holds an upvalue of the cell that the closure captured last, and
/// the cell holds the value that the local had.
pub proof fn capture_shares_one_cell(
    machine: Machine,
    code: Seq<u8>,
    pool: Seq<ConstantView>,
    answer: Option<Answer>,
    offset: u8,
    closure: Reference,
)
    requires
        operation_at(code, machine.position) == Ok::<OperationCode, Fault>(OperationCode::Capture),
        byte_at(code, machine.position + 1) == Ok::<u8, Fault>(offset),
        machine.wf(),
        machine.slot(offset) is Ok,
        machine.stack.last() == Value::Closure(closure),
        unboxed(machine.heap, machine.stack[machine.frame + offset]) is Ok,
        machine.step(code, pool, answer) is Ok,
    ensures
        ({
            let after = machine.step(code, pool, answer)->Ok_0.0;
            let slot = machine.frame + offset;
            &&& after.stack[slot] is Upvalue
            &&& is_closure(after.heap, closure)
            &&& after.heap[closure.index as int]->Closure_0.upvalues.last()
                == after.stack[slot]->Upvalue_0
            &&& unboxed(after.heap, after.stack[slot]) == unboxed(machine.heap, machine.stack[slot])
            &&& after.shares(
                slot,
                after.stack[slot]->Upvalue_0,
                closure,
                after.heap[closure.index as int]->Closure_0.upvalues.len() - 1,
            )
        }),
{
}

/// A local and an upvalue of the executing closure that share a cell read
/// the same value: `GetLocal` and `GetUpvalue` make the same of the machine.
pub proof fn shared_cell_reads_agree(
    machine: Machine,
    local_code: Seq<u8>,
    upvalue_code: Seq<u8>,
    pool: Seq<ConstantView>,
    answer: Option<Answer>,
    offset: u8,
    index: u8,
    cell: Reference,
)
    requires
        operation_at(local_code, machine.position) == Ok::<OperationCode, Fault>(
            OperationCode::GetLocal,
        ),
        byte_at(local_code, machine.position + 1) == Ok::<u8, Fault>(offset),
        operation_at(upvalue_code, machine.position) == Ok::<OperationCode, Fault>(
            OperationCode::GetUpvalue,
        ),
        byte_at(upvalue_code, machine.position + 1) == Ok::<u8, Fault>(index),
        machine.slot(offset) is Ok,
        machine.stack[machine.frame + offset] == Value::Upvalue(cell),
        machine.upvalue(index) == Ok::<Reference, Fault>(cell),
    ensures
        machine.step(local_code, pool, answer) == machine.step(upvalue_code, pool, answer),
{
}

/// A read of a local that holds an upvalue, and a read of an upvalue of
/// the executing closure, push the plain value in the cell.
pub proof fn reads_push_what_the_cell_holds(
    machine: Machine,
    code: Seq<u8>,
    pool: Seq<ConstantView>,
    answer: Option<Answer>,
    operand: u8,
    cell: Reference,
    value: Value,
)
    requires
        byte_at(code, machine.position + 1) == Ok::<u8, Fault>(operand),
        unboxed(machine.heap, Value::Upvalue(cell)) == Ok::<Value, Fault>(value),
    ensures
        operation_at(code, machine.position) == Ok::<OperationCode, Fault>(OperationCode::GetLocal)
            && machine.slot(operand) is Ok && machine.stack[machine.frame + operand]
            == Value::Upvalue(cell) ==> machine.step(code, pool, answer) == machine.push(
            value,
            machine.position + 2,
        ),
        operation_at(code, machine.position) == Ok::<OperationCode, Fault>(
            OperationCode::GetUpvalue,
        ) && machine.upvalue(operand) == Ok::<Reference, Fault>(cell) ==> machine.step(
            code,
            pool,
            answer,
        ) == machine.push(value, machine.position + 2),
{
}

/// A write through a local that shares a cell with an upvalue of the
/// executing closure is read through both at once: after `SetLocal`, the
/// local and the upvalue hold the value that was on top of the stack.
pub proof fn write_through_local_is_read_through_both(
    machine: Machine,
    code: Seq<u8>,
    pool: Seq<ConstantView>,
    answer: Option<Answer>,
    offset: u8,
    index: u8,
    cell: Reference,
)
    requires
        operation_at(code, machine.position) == Ok::<OperationCode, Fault>(OperationCode::SetLocal),
        byte_at(code, machine.position + 1) == Ok::<u8, Fault>(offset),
        machine.slot(offset) is Ok,
        machine.stack[machine.frame + offset] == Value::Upvalue(cell),
        machine.upvalue(index) == Ok::<Reference, Fault>(cell),
        machine.step(code, pool, answer) is Ok,
    ensures
        ({
            let after = machine.step(code, pool, answer)->Ok_0.0;
            &&& after.slot(offset) is Ok
            &&& after.upvalue(index) == Ok::<Reference, Fault>(cell)
            &&& unboxed(after.heap, after.stack[after.frame + offset]) == machine.top()
            &&& unboxed(after.heap, Value::Upvalue(cell)) == machine.top()
        }),
{
}

/// A write through an upvalue of the executing closure that shares a cell
/// with a local is read through both at once: after `SetUpvalue`, the
/// upvalue and the local hold the value that was on top of the stack.
pub proof fn write_through_upvalue_is_read_through_both(
    machine: Machine,
    code: Seq<u8>,
    pool: Seq<ConstantView>,
    answer: Option<Answer>,
    offset: u8,
    index: u8,
    cell: Reference,
)
    requires
        operation_at(code, machine.position) == Ok::<OperationCode, Fault>(
            OperationCode::SetUpvalue,
        ),
        byte_at(code, machine.position + 1) == Ok::<u8, Fault>(index),
        machine.slot(offset) is Ok,
        machine.stack[machine.frame + offset] == Value::Upvalue(cell),
        machine.upvalue(index) == Ok::<Reference, Fault>(cell),
        machine.step(code, pool, answer) is Ok,
    ensures
        ({
            let after = machine.step(code, pool, answer)->Ok_0.0;
            &&& after.slot(offset) is Ok
            &&& after.upvalue(index) == Ok::<Reference, Fault>(cell)
            &&& unboxed(after.heap, after.stack[after.frame + offset]) == machine.top()
            &&& unboxed(after.heap, Value::Upvalue(cell)) == machine.top()
        }),
{
}

} // verus!
