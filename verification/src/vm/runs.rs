use vstd::prelude::*;

use crate::bytecode::reader::byte_at;
use crate::bytecode::reader::operation_at;
use crate::bytecode::ConstantView;
use crate::bytecode::OperationCode;
use crate::fault::Fault;
use crate::gc::is_closure;
use crate::gc::is_upvalue;
use crate::gc::Reference;
use crate::host::Answer;
use crate::value::unboxed;
use crate::value::Value;
use crate::vm::semantics::Machine;
use crate::vm::CallFrame;

verus! {

/// Whether `after` is what one instruction makes of `before`, for some
/// answer of the host.
#[verifier::opaque]
pub open spec fn follows(
    before: Machine,
    after: Machine,
    code: Seq<u8>,
    pool: Seq<ConstantView>,
) -> bool {
    exists|answer: Option<Answer>|
        (#[trigger] before.step(code, pool, answer)) is Ok && before.step(code, pool, answer)->Ok_0.0
            == after
}

/// Whether `trace` is a run of the machine: each state in it is what one
/// instruction makes of the state before it.
pub open spec fn is_run(trace: Seq<Machine>, code: Seq<u8>, pool: Seq<ConstantView>) -> bool {
    forall|i: int| 0 <= i < trace.len() - 1 ==> follows(#[trigger] trace[i], trace[i + 1], code, pool)
}

impl Machine {
    /// The number of slots from the bottom of the stack that the next
    /// instruction neither changes nor removes.
    ///
    /// An instruction that consumes values leaves what lies below them; an
    /// assignment to a local, or its capture, leaves what lies below that
    /// local, and the whole stack where the local is an upvalue already; a
    /// `Return` leaves what lies below the frame. Everything else leaves
    /// the whole stack.
    pub open spec fn kept(self, code: Seq<u8>) -> int {
        let depth = self.stack.len() as int;
        match operation_at(code, self.position) {
            Err(_) => depth,
            Ok(operation) => match operation {
                OperationCode::Negate | OperationCode::Not | OperationCode::Pop
                | OperationCode::Print | OperationCode::Invoke => depth - 1,
                OperationCode::Add | OperationCode::Subtract | OperationCode::Multiply
                | OperationCode::Divide | OperationCode::Equal | OperationCode::Greater
                | OperationCode::Less => depth - 2,
                OperationCode::SetLocal | OperationCode::Capture => match byte_at(
                    code,
                    self.position + 1,
                ) {
                    Err(_) => depth,
                    Ok(offset) => match self.slot(offset) {
                        Err(_) => depth,
                        Ok(slot) => if self.stack[slot] is Upvalue {
                            depth
                        } else {
                            slot
                        },
                    },
                },
                OperationCode::Return => if self.callstack.len() == 0 {
                    depth - 1
                } else {
                    self.frame
                },
                _ => depth,
            },
        }
    }

    /// The upvalue cell that the next instruction writes into, if it writes
    /// into one: the cell of the upvalue that `SetUpvalue` names, or the
    /// cell of the upvalue that the target of `SetLocal` or `SetGlobal`
    /// holds.
    pub open spec fn written(self, code: Seq<u8>) -> Option<Reference> {
        match (operation_at(code, self.position), byte_at(code, self.position + 1)) {
            (Ok(OperationCode::SetUpvalue), Ok(offset)) => match self.upvalue(offset) {
                Ok(cell) => Some(cell),
                Err(_) => None,
            },
            (Ok(OperationCode::SetLocal), Ok(offset)) => match self.slot(offset) {
                Ok(slot) => match self.stack[slot] {
                    Value::Upvalue(cell) => Some(cell),
                    _ => None,
                },
                Err(_) => None,
            },
            (Ok(OperationCode::SetGlobal), Ok(index)) => match self.globals[index as int] {
                Value::Upvalue(cell) => Some(cell),
                _ => None,
            },
            _ => None,
        }
    }

    /// Whether the local in `slot` and the upvalue at `index` of the closure
    /// `closure` share the cell `cell`.
    pub open spec fn shares(self, slot: int, cell: Reference, closure: Reference, index: int) -> bool {
        &&& 0 <= slot < self.stack.len()
        &&& self.stack[slot] == Value::Upvalue(cell)
        &&& is_upvalue(self.heap, cell)
        &&& is_closure(self.heap, closure)
        &&& 0 <= index < self.heap[closure.index as int]->Closure_0.upvalues.len()
        &&& self.heap[closure.index as int]->Closure_0.upvalues[index] == cell
    }
}

/// An instruction leaves the slots that it keeps as they are.
pub proof fn steps_keep_the_lower_slots(
    machine: Machine,
    code: Seq<u8>,
    pool: Seq<ConstantView>,
    answer: Option<Answer>,
)
    requires
        machine.step(code, pool, answer) is Ok,
    ensures
        machine.kept(code) <= machine.stack.len(),
        machine.kept(code) <= machine.step(code, pool, answer)->Ok_0.0.stack.len(),
        forall|i: int|
            0 <= i < machine.kept(code) ==> machine.step(code, pool, answer)->Ok_0.0.stack[i]
                == machine.stack[i],
{
}

/// An instruction changes the call stack by one frame at most. One that
/// leaves it as it is leaves the frame and the closure too; one that adds a
/// frame saves the frame and the closure in it; and one that takes the last
/// frame off goes on with the frame, the closure and the position saved in
/// it.
pub proof fn steps_move_the_call_stack_by_one_frame(
    machine: Machine,
    code: Seq<u8>,
    pool: Seq<ConstantView>,
    answer: Option<Answer>,
)
    requires
        machine.step(code, pool, answer) is Ok,
    ensures
        ({
            let after = machine.step(code, pool, answer)->Ok_0.0;
            ||| after.callstack == machine.callstack && after.frame == machine.frame
                && after.closure == machine.closure
            ||| after.callstack.len() == machine.callstack.len() + 1 && after.callstack.drop_last()
                == machine.callstack && after.callstack.last().frame == machine.frame as usize
                && after.callstack.last().closure == machine.closure
            ||| machine.callstack.len() > 0 && operation_at(code, machine.position) == Ok::<
                OperationCode,
                Fault,
            >(OperationCode::Return) && after.callstack == machine.callstack.drop_last()
                && after.frame == machine.callstack.last().frame && after.closure
                == machine.callstack.last().closure && after.position
                == machine.callstack.last().position
        }),
{
    let after = machine.step(code, pool, answer)->Ok_0.0;
    if after.callstack.len() == machine.callstack.len() + 1 {
        assert(after.callstack.drop_last() =~= machine.callstack);
    }
}

/// An instruction that does not write into a cell leaves in it what it
/// holds, and every instruction leaves a cell a cell.
pub proof fn steps_keep_the_cells_they_do_not_write(
    machine: Machine,
    code: Seq<u8>,
    pool: Seq<ConstantView>,
    answer: Option<Answer>,
    cell: Reference,
)
    requires
        machine.step(code, pool, answer) is Ok,
        is_upvalue(machine.heap, cell),
    ensures
        is_upvalue(machine.step(code, pool, answer)->Ok_0.0.heap, cell),
        machine.written(code) != Some(cell) ==> machine.step(code, pool, answer)->Ok_0.0.heap[cell.index as int]
            == machine.heap[cell.index as int],
{
}

/// An instruction leaves a closure a closure, with what it had captured
/// where it was: a capture only adds to it.
pub proof fn steps_keep_what_closures_captured(
    machine: Machine,
    code: Seq<u8>,
    pool: Seq<ConstantView>,
    answer: Option<Answer>,
    closure: Reference,
)
    requires
        machine.step(code, pool, answer) is Ok,
        is_closure(machine.heap, closure),
    ensures
        ({
            let before = machine.heap[closure.index as int]->Closure_0.upvalues;
            let after = machine.step(code, pool, answer)->Ok_0.0.heap;
            &&& is_closure(after, closure)
            &&& before.len() <= after[closure.index as int]->Closure_0.upvalues.len()
            &&& forall|k: int|
                0 <= k < before.len() ==> after[closure.index as int]->Closure_0.upvalues[k]
                    == before[k]
        }),
{
}

/// What an instruction makes of a machine follows that machine.
pub proof fn steps_follow(
    machine: Machine,
    code: Seq<u8>,
    pool: Seq<ConstantView>,
    answer: Option<Answer>,
)
    requires
        machine.step(code, pool, answer) is Ok,
    ensures
        follows(machine, machine.step(code, pool, answer)->Ok_0.0, code, pool),
{
    reveal(follows);
}

/// The answer of the host with which `after` follows `before`.
spec fn answer_between(
    before: Machine,
    after: Machine,
    code: Seq<u8>,
    pool: Seq<ConstantView>,
) -> Option<Answer> {
    choose|answer: Option<Answer>|
        (#[trigger] before.step(code, pool, answer)) is Ok && before.step(code, pool, answer)->Ok_0.0
            == after
}

/// What follows a machine has the slots that its next instruction keeps as
/// they were, keeps every cell a cell and every closure a closure with what
/// it had captured, and holds in a cell that the instruction does not write
/// into what the cell held.
pub proof fn what_follows_keeps(
    before: Machine,
    after: Machine,
    code: Seq<u8>,
    pool: Seq<ConstantView>,
)
    requires
        follows(before, after, code, pool),
    ensures
        before.kept(code) <= before.stack.len(),
        before.kept(code) <= after.stack.len(),
        forall|i: int| 0 <= i < before.kept(code) ==> after.stack[i] == before.stack[i],
        forall|cell: Reference| #[trigger]
            is_upvalue(before.heap, cell) ==> is_upvalue(after.heap, cell) && (before.written(code)
                != Some(cell) ==> after.heap[cell.index as int] == before.heap[cell.index as int]),
        forall|closure: Reference| #[trigger]
            is_closure(before.heap, closure) ==> {
                let captured = before.heap[closure.index as int]->Closure_0.upvalues;
                &&& is_closure(after.heap, closure)
                &&& captured.len() <= after.heap[closure.index as int]->Closure_0.upvalues.len()
                &&& forall|k: int|
                    0 <= k < captured.len() ==> after.heap[closure.index as int]->Closure_0.upvalues[k]
                        == captured[k]
            },
{
    reveal(follows);
    let answer = answer_between(before, after, code, pool);
    steps_keep_the_lower_slots(before, code, pool, answer);
    assert forall|cell: Reference| #[trigger] is_upvalue(before.heap, cell) implies is_upvalue(
        after.heap,
        cell,
    ) && (before.written(code) != Some(cell) ==> after.heap[cell.index as int]
        == before.heap[cell.index as int]) by {
        steps_keep_the_cells_they_do_not_write(before, code, pool, answer, cell);
    }
    assert forall|closure: Reference| #[trigger] is_closure(before.heap, closure) implies {
        let captured = before.heap[closure.index as int]->Closure_0.upvalues;
        &&& is_closure(after.heap, closure)
        &&& captured.len() <= after.heap[closure.index as int]->Closure_0.upvalues.len()
        &&& forall|k: int|
            0 <= k < captured.len() ==> after.heap[closure.index as int]->Closure_0.upvalues[k]
                == captured[k]
    } by {
        steps_keep_what_closures_captured(before, code, pool, answer, closure);
    }
}

/// What follows a machine has its call stack, with one frame more or less
/// at most: where the call stack is the same, so are the frame and the
/// closure; a frame more holds the frame and the closure of the machine; a
/// frame less comes from a `Return`, which goes on with what the frame
/// held.
pub proof fn what_follows_moves_the_call_stack_by_one_frame(
    before: Machine,
    after: Machine,
    code: Seq<u8>,
    pool: Seq<ConstantView>,
)
    requires
        follows(before, after, code, pool),
    ensures
        ({
            ||| after.callstack == before.callstack && after.frame == before.frame && after.closure
                == before.closure
            ||| after.callstack.len() == before.callstack.len() + 1 && after.callstack.drop_last()
                == before.callstack && after.callstack.last().frame == before.frame as usize
                && after.callstack.last().closure == before.closure
            ||| before.callstack.len() > 0 && operation_at(code, before.position) == Ok::<
                OperationCode,
                Fault,
            >(OperationCode::Return) && after.callstack == before.callstack.drop_last()
                && after.frame == before.callstack.last().frame && after.closure
                == before.callstack.last().closure && after.position
                == before.callstack.last().position
        }),
{
    reveal(follows);
    steps_move_the_call_stack_by_one_frame(
        before,
        code,
        pool,
        answer_between(before, after, code, pool),
    );
}

/// What follows a machine at a `Call`: the stack is as it was, the frame
/// begins at the first argument, and the call stack holds one frame more,
/// with the frame and the closure of the caller and the position behind the
/// `Call`.
pub proof fn what_follows_a_call(
    before: Machine,
    after: Machine,
    code: Seq<u8>,
    pool: Seq<ConstantView>,
    arity: u8,
)
    requires
        follows(before, after, code, pool),
        before.wf(),
        code.len() <= usize::MAX,
        operation_at(code, before.position) == Ok::<OperationCode, Fault>(OperationCode::Call),
        byte_at(code, before.position + 3) == Ok::<u8, Fault>(arity),
    ensures
        arity <= before.stack.len(),
        after.stack == before.stack,
        after.frame == before.stack.len() - arity,
        after.callstack.len() == before.callstack.len() + 1,
        after.callstack.drop_last() == before.callstack,
        after.callstack.last().frame == before.frame,
        after.callstack.last().closure == before.closure,
        after.callstack.last().position == before.position + 4,
{
    reveal(follows);
    assert(after.callstack.drop_last() =~= before.callstack);
}

/// What follows a machine at the `Return` of a function that was called:
/// the value on top stands where the frame began, with nothing above it,
/// and the caller goes on with what the last frame of the call stack held.
pub proof fn what_follows_a_return(
    before: Machine,
    after: Machine,
    code: Seq<u8>,
    pool: Seq<ConstantView>,
)
    requires
        follows(before, after, code, pool),
        operation_at(code, before.position) == Ok::<OperationCode, Fault>(OperationCode::Return),
        before.callstack.len() > 0,
    ensures
        0 <= before.frame < before.stack.len(),
        after.stack == before.stack.take(before.frame).push(before.stack.last()),
        after.callstack == before.callstack.drop_last(),
        after.frame == before.callstack.last().frame,
        after.closure == before.callstack.last().closure,
        after.position == before.callstack.last().position,
{
    reveal(follows);
}

/// A local that a closure captured stays shared with it over a whole run:
/// as long as no instruction changes or removes the slot of the local, the
/// local and the upvalue of the closure hold the same cell.
pub proof fn captured_local_stays_shared(
    trace: Seq<Machine>,
    code: Seq<u8>,
    pool: Seq<ConstantView>,
    slot: int,
    cell: Reference,
    closure: Reference,
    index: int,
    at: int,
)
    requires
        is_run(trace, code, pool),
        0 <= at < trace.len(),
        trace[0].shares(slot, cell, closure, index),
        forall|i: int| 0 <= i < at ==> slot < (#[trigger] trace[i]).kept(code),
    ensures
        trace[at].shares(slot, cell, closure, index),
    decreases at,
{
    if at > 0 {
        captured_local_stays_shared(trace, code, pool, slot, cell, closure, index, at - 1);
        let before = trace[at - 1];
        assert(follows(before, trace[at - 1 + 1], code, pool));
        what_follows_keeps(before, trace[at], code, pool);
        assert(is_upvalue(before.heap, cell));
        assert(is_closure(before.heap, closure));
    }
}

/// What was written last into a shared cell is what both the local and the
/// upvalue read, over a whole run: as long as no instruction changes or
/// removes the slot of the local or writes into the cell, the cell holds
/// what it held, and the local and the upvalue are unboxed to it.
pub proof fn shared_cell_keeps_what_was_written(
    trace: Seq<Machine>,
    code: Seq<u8>,
    pool: Seq<ConstantView>,
    slot: int,
    cell: Reference,
    closure: Reference,
    index: int,
    at: int,
)
    requires
        is_run(trace, code, pool),
        0 <= at < trace.len(),
        trace[0].shares(slot, cell, closure, index),
        forall|i: int|
            0 <= i < at ==> slot < (#[trigger] trace[i]).kept(code) && trace[i].written(code)
                != Some(cell),
    ensures
        trace[at].shares(slot, cell, closure, index),
        trace[at].heap[cell.index as int] == trace[0].heap[cell.index as int],
        unboxed(trace[at].heap, trace[at].stack[slot]) == unboxed(
            trace[0].heap,
            Value::Upvalue(cell),
        ),
        unboxed(
            trace[at].heap,
            Value::Upvalue(trace[at].heap[closure.index as int]->Closure_0.upvalues[index]),
        ) == unboxed(trace[0].heap, Value::Upvalue(cell)),
    decreases at,
{
    captured_local_stays_shared(trace, code, pool, slot, cell, closure, index, at);
    if at > 0 {
        shared_cell_keeps_what_was_written(trace, code, pool, slot, cell, closure, index, at - 1);
        let before = trace[at - 1];
        assert(follows(before, trace[at - 1 + 1], code, pool));
        what_follows_keeps(before, trace[at], code, pool);
        assert(is_upvalue(before.heap, cell));
    }
}

/// What follows a machine whose next instruction writes into a cell holds
/// in that cell the plain value that was on top of the stack.
pub proof fn what_follows_a_write(
    before: Machine,
    after: Machine,
    code: Seq<u8>,
    pool: Seq<ConstantView>,
    cell: Reference,
)
    requires
        follows(before, after, code, pool),
        before.written(code) == Some(cell),
    ensures
        before.top() is Ok,
        is_upvalue(after.heap, cell),
        unboxed(after.heap, Value::Upvalue(cell)) == before.top(),
{
    reveal(follows);
}

/// A part of a run is a run.
proof fn part_of_a_run(trace: Seq<Machine>, code: Seq<u8>, pool: Seq<ConstantView>, from: int, to: int)
    requires
        is_run(trace, code, pool),
        0 <= from <= to <= trace.len(),
    ensures
        is_run(trace.subrange(from, to), code, pool),
{
    let part = trace.subrange(from, to);
    assert forall|i: int| 0 <= i < part.len() - 1 implies follows(
        #[trigger] part[i],
        part[i + 1],
        code,
        pool,
    ) by {
        assert(follows(trace[from + i], trace[from + i + 1], code, pool));
    }
}

/// Reads of a shared cell see the last write, over a whole run.
///
/// The run begins where the local in `slot` and the upvalue at `index` of
/// `closure` share `cell`. Whatever is executed and written from there on,
/// as long as the slot of the local is neither changed nor removed: where
/// the instruction at `write` is the last that writes into the cell, be it
/// through the local or through the upvalue, the local and the upvalue are
/// both unboxed at `at` to the value that was on top of the stack at that
/// write.
pub proof fn reads_see_the_last_write(
    trace: Seq<Machine>,
    code: Seq<u8>,
    pool: Seq<ConstantView>,
    slot: int,
    cell: Reference,
    closure: Reference,
    index: int,
    write: int,
    at: int,
)
    requires
        is_run(trace, code, pool),
        0 <= write < at < trace.len(),
        trace[0].shares(slot, cell, closure, index),
        forall|i: int| 0 <= i < at ==> slot < (#[trigger] trace[i]).kept(code),
        trace[write].written(code) == Some(cell),
        forall|i: int| write < i < at ==> (#[trigger] trace[i]).written(code) != Some(cell),
    ensures
        trace[at].shares(slot, cell, closure, index),
        trace[write].top() is Ok,
        unboxed(trace[at].heap, trace[at].stack[slot]) == trace[write].top(),
        unboxed(
            trace[at].heap,
            Value::Upvalue(trace[at].heap[closure.index as int]->Closure_0.upvalues[index]),
        ) == trace[write].top(),
{
    captured_local_stays_shared(trace, code, pool, slot, cell, closure, index, write + 1);
    assert(follows(trace[write], trace[write + 1], code, pool));
    what_follows_a_write(trace[write], trace[write + 1], code, pool, cell);
    let rest = trace.subrange(write + 1, at + 1);
    part_of_a_run(trace, code, pool, write + 1, at + 1);
    assert forall|i: int| 0 <= i < at - write - 1 implies slot < (#[trigger] rest[i]).kept(code)
        && rest[i].written(code) != Some(cell) by {
        assert(rest[i] == trace[write + 1 + i]);
    }
    shared_cell_keeps_what_was_written(
        rest,
        code,
        pool,
        slot,
        cell,
        closure,
        index,
        at - write - 1,
    );
    assert(rest[at - write - 1] == trace[at]);
    assert(rest[0] == trace[write + 1]);
}

/// What holds of every state of a function that was called, up to its
/// `Return`: the call stack of the caller lies below with the frame that
/// the call saved on it, the slots below the frame of the function are as
/// they were, and whenever the function itself executes, and not one that
/// it called, its frame is where the call put it.
pub open spec fn inside(state: Machine, callstack: Seq<CallFrame>, lower: Seq<Value>) -> bool {
    &&& state.callstack.len() >= callstack.len()
    &&& state.callstack.take(callstack.len() as int) == callstack
    &&& state.stack.len() >= lower.len()
    &&& state.stack.take(lower.len() as int) == lower
    &&& state.callstack.len() == callstack.len() ==> state.frame == lower.len()
    &&& state.callstack.len() > callstack.len() ==> state.callstack[callstack.len() as int].frame
        == lower.len()
}

/// One instruction of a function that keeps to its frame, and does not
/// return from its call, leaves the machine inside the call.
proof fn one_step_inside(
    before: Machine,
    after: Machine,
    code: Seq<u8>,
    pool: Seq<ConstantView>,
    callstack: Seq<CallFrame>,
    lower: Seq<Value>,
)
    requires
        follows(before, after, code, pool),
        inside(before, callstack, lower),
        lower.len() <= usize::MAX,
        lower.len() <= before.kept(code),
        after.callstack.len() >= callstack.len(),
    ensures
        inside(after, callstack, lower),
{
    what_follows_keeps(before, after, code, pool);
    what_follows_moves_the_call_stack_by_one_frame(before, after, code, pool);
    assert(after.stack.take(lower.len() as int) =~= lower) by {
        assert forall|j: int| 0 <= j < lower.len() implies after.stack[j] == lower[j] by {
            assert(before.stack.take(lower.len() as int)[j] == before.stack[j]);
        }
    }
    let depth = callstack.len() as int;
    assert(after.callstack.take(depth) =~= callstack) by {
        assert forall|j: int| 0 <= j < depth implies after.callstack[j] == callstack[j] by {
            assert(before.callstack.take(depth)[j] == before.callstack[j]);
            if after.callstack.len() == before.callstack.len() + 1 {
                assert(after.callstack.drop_last()[j] == after.callstack[j]);
            } else if after.callstack.len() < before.callstack.len() {
                assert(before.callstack.drop_last()[j] == before.callstack[j]);
            }
        }
    }
    if after.callstack.len() > depth {
        if after.callstack.len() == before.callstack.len() + 1 {
            if before.callstack.len() > depth {
                assert(after.callstack.drop_last()[depth] == after.callstack[depth]);
            }
        } else if after.callstack.len() < before.callstack.len() {
            assert(before.callstack.drop_last()[depth] == before.callstack[depth]);
        }
    } else {
        if after.callstack.len() < before.callstack.len() {
            assert(before.callstack.last() == before.callstack[depth]);
        }
    }
}

/// A function that keeps to its frame stays inside its call: as long as no
/// instruction returns from the call, or changes or removes a slot below
/// the frame, every state is inside the call.
proof fn callee_stays_inside(
    trace: Seq<Machine>,
    code: Seq<u8>,
    pool: Seq<ConstantView>,
    callstack: Seq<CallFrame>,
    lower: Seq<Value>,
    at: int,
)
    requires
        is_run(trace, code, pool),
        1 <= at < trace.len(),
        inside(trace[1], callstack, lower),
        lower.len() <= usize::MAX,
        forall|i: int|
            1 <= i < at ==> lower.len() <= (#[trigger] trace[i]).kept(code) && trace[i
                + 1].callstack.len() >= callstack.len(),
    ensures
        inside(trace[at], callstack, lower),
    decreases at,
{
    if at > 1 {
        callee_stays_inside(trace, code, pool, callstack, lower, at - 1);
        assert(follows(trace[at - 1], trace[at - 1 + 1], code, pool));
        assert(lower.len() <= trace[at - 1].kept(code));
        one_step_inside(trace[at - 1], trace[at], code, pool, callstack, lower);
    }
}

/// A `Call` followed by the matching `Return` of the function it entered,
/// whatever the function executed in between: the caller goes on behind the
/// `Call` with its own frame, closure and call stack; the value that was on
/// top at the `Return` takes the place of the arguments, so that the stack
/// is as deep as before the `Call`, less the arguments, and one; and the
/// slots below the arguments are as they were.
///
/// `trace` begins with the machine at the `Call` and ends with the machine
/// behind the `Return`. In between the function keeps to its frame: no
/// instruction changes or removes a slot below its first argument.
pub proof fn call_and_matching_return(
    trace: Seq<Machine>,
    code: Seq<u8>,
    pool: Seq<ConstantView>,
    arity: u8,
)
    requires
        is_run(trace, code, pool),
        trace.len() >= 3,
        trace[0].wf(),
        code.len() <= usize::MAX,
        operation_at(code, trace[0].position) == Ok::<OperationCode, Fault>(OperationCode::Call),
        byte_at(code, trace[0].position + 3) == Ok::<u8, Fault>(arity),
        forall|i: int|
            1 <= i < trace.len() - 2 ==> trace[0].stack.len() - arity <= (#[trigger] trace[i]).kept(
                code,
            ) && trace[i + 1].callstack.len() > trace[0].callstack.len(),
        operation_at(code, trace[trace.len() - 2].position) == Ok::<OperationCode, Fault>(
            OperationCode::Return,
        ),
        trace[trace.len() - 2].callstack.len() == trace[0].callstack.len() + 1,
    ensures
        ({
            let caller = trace[0];
            let callee = trace[trace.len() - 2];
            let end = trace.last();
            &&& arity <= caller.stack.len()
            &&& callee.stack.len() > 0
            &&& end.frame == caller.frame
            &&& end.closure == caller.closure
            &&& end.callstack == caller.callstack
            &&& end.position == caller.position + 4
            &&& end.stack == caller.stack.take(caller.stack.len() - arity).push(callee.stack.last())
            &&& end.stack.len() == caller.stack.len() - arity + 1
            &&& end.stack.last() == callee.stack.last()
            &&& forall|j: int|
                0 <= j < caller.stack.len() - arity ==> end.stack[j] == caller.stack[j]
        }),
{
    let caller = trace[0];
    let entered = trace[1];
    let last = trace.len() - 2;
    let callee = trace[last];
    let end = trace.last();
    assert(follows(caller, trace[0int + 1], code, pool));
    what_follows_a_call(caller, entered, code, pool, arity);
    let lower = caller.stack.take(caller.stack.len() - arity);
    assert(entered.callstack.take(entered.callstack.len() as int) =~= entered.callstack);
    assert(entered.stack.take(lower.len() as int) =~= lower);
    assert(inside(entered, entered.callstack, lower));
    assert forall|i: int| 1 <= i < last implies lower.len() <= (#[trigger] trace[i]).kept(code)
        && trace[i + 1].callstack.len() >= entered.callstack.len() by {}
    callee_stays_inside(trace, code, pool, entered.callstack, lower, last);
    assert(follows(callee, trace[last + 1], code, pool));
    what_follows_a_return(callee, end, code, pool);
    assert(callee.callstack.take(entered.callstack.len() as int) =~= callee.callstack);
    assert(callee.callstack == entered.callstack);
    assert(callee.stack.take(callee.frame) =~= lower);
}

} // verus!
