use vstd::prelude::*;

use crate::bytecode::reader::operation_at;
use crate::bytecode::ConstantView;
use crate::bytecode::OperationCode;
use crate::fault::Fault;
use crate::gc::allocated;
use crate::gc::bound;
use crate::gc::is_closure;
use crate::gc::is_function;
use crate::gc::is_string;
use crate::gc::is_upvalue;
use crate::gc::place_of;
use crate::gc::stored;
use crate::gc::Heap;
use crate::gc::ObjectView;
use crate::gc::Reference;
use crate::host::Answer;
use crate::value::equality;
use crate::value::shown;
use crate::value::unboxed;
use crate::value::Value;
use crate::vm::semantics::Machine;

verus! {

/// Whether `value` refers to nothing, or to an object on the heap of the
/// kind that the value says.
pub open spec fn valid(heap: Heap, value: Value) -> bool {
    match value {
        Value::String(reference) => is_string(heap, reference),
        Value::FunctionPointer(reference) => is_function(heap, reference),
        Value::Closure(reference) => is_closure(heap, reference),
        Value::Upvalue(reference) => is_upvalue(heap, reference),
        _ => true,
    }
}

/// Whether `object` refers only to objects on the heap of the right kind: a
/// closure has captured upvalue cells, and an upvalue cell holds a valid
/// value that is no upvalue itself.
pub open spec fn sound_object(heap: Heap, object: ObjectView) -> bool {
    match object {
        ObjectView::Closure(closure) => forall|k: int|
            0 <= k < closure.upvalues.len() ==> is_upvalue(heap, #[trigger] closure.upvalues[k]),
        ObjectView::Upvalue(value) => !(value is Upvalue) && valid(heap, value),
        _ => true,
    }
}

/// Whether every object on the heap is sound.
pub open spec fn sound_heap(heap: Heap) -> bool {
    forall|i: int| 0 <= i < heap.len() ==> sound_object(heap, #[trigger] heap[i])
}

/// Whether `after` holds every object of `before` at its index, as an object
/// of the same kind.
pub open spec fn grown(before: Heap, after: Heap) -> bool {
    &&& before.len() <= after.len()
    &&& forall|i: int|
        0 <= i < before.len() ==> {
            &&& (#[trigger] before[i] is String) == (after[i] is String)
            &&& (before[i] is Function) == (after[i] is Function)
            &&& (before[i] is Closure) == (after[i] is Closure)
            &&& (before[i] is Upvalue) == (after[i] is Upvalue)
        }
}

impl Machine {
    /// Whether the machine is well-formed and no reference in it dangles:
    /// every value on the stack and among the globals, the executing
    /// closure, the closures of the callers and every object on the heap
    /// refer to objects on the heap of the right kind, and no upvalue cell
    /// holds an upvalue.
    pub open spec fn sound(self) -> bool {
        &&& self.wf()
        &&& sound_heap(self.heap)
        &&& forall|i: int| 0 <= i < self.stack.len() ==> valid(self.heap, #[trigger] self.stack[i])
        &&& forall|i: int|
            0 <= i < self.globals.len() ==> valid(self.heap, #[trigger] self.globals[i])
        &&& self.closure matches Some(closure) ==> is_closure(self.heap, closure)
        &&& forall|i: int|
            0 <= i < self.callstack.len() ==> ((#[trigger] self.callstack[i]).closure matches Some(
                closure,
            ) ==> is_closure(self.heap, closure))
    }

    /// Whether the machine stays sound on the heap `heap`, which has grown
    /// from its own.
    pub open spec fn sound_on(self, heap: Heap) -> bool {
        (Machine { heap, ..self }).sound()
    }
}

/// A value that is valid on a heap is valid on every heap grown from it.
pub proof fn valid_values_stay_valid(before: Heap, after: Heap, value: Value)
    requires
        grown(before, after),
        valid(before, value),
    ensures
        valid(after, value),
{
}

/// A sound heap that takes one more sound object is sound.
proof fn pushing_a_sound_object(heap: Heap, object: ObjectView)
    requires
        sound_heap(heap),
        sound_object(heap, object),
    ensures
        sound_heap(heap.push(object)),
        grown(heap, heap.push(object)),
{
    let after = heap.push(object);
    assert(grown(heap, after));
    assert forall|i: int| 0 <= i < after.len() implies sound_object(after, #[trigger] after[i]) by {
        let present = if i < heap.len() {
            heap[i]
        } else {
            object
        };
        assert(after[i] == present);
        assert(sound_object(heap, present));
        match present {
            ObjectView::Closure(closure) => {
                assert forall|k: int| 0 <= k < closure.upvalues.len() implies is_upvalue(
                    after,
                    #[trigger] closure.upvalues[k],
                ) by {
                    assert(is_upvalue(heap, closure.upvalues[k]));
                }
            },
            ObjectView::Upvalue(value) => {
                valid_values_stay_valid(heap, after, value);
            },
            _ => {},
        }
    }
}

/// A sound heap stays sound where a valid value that is no upvalue is
/// written into one of its cells.
proof fn storing_a_plain_value(heap: Heap, cell: Reference, value: Value)
    requires
        sound_heap(heap),
        is_upvalue(heap, cell),
        valid(heap, value),
        !(value is Upvalue),
    ensures
        sound_heap(stored(heap, cell, value)),
        grown(heap, stored(heap, cell, value)),
{
    let after = stored(heap, cell, value);
    assert(grown(heap, after));
    assert forall|i: int| 0 <= i < after.len() implies sound_object(after, #[trigger] after[i]) by {
        if i == cell.index {
            valid_values_stay_valid(heap, after, value);
        } else {
            assert(after[i] == heap[i]);
            assert(sound_object(heap, heap[i]));
            match heap[i] {
                ObjectView::Closure(closure) => {
                    assert forall|k: int| 0 <= k < closure.upvalues.len() implies is_upvalue(
                        after,
                        #[trigger] closure.upvalues[k],
                    ) by {
                        assert(is_upvalue(heap, closure.upvalues[k]));
                    }
                },
                ObjectView::Upvalue(inner) => {
                    valid_values_stay_valid(heap, after, inner);
                },
                _ => {},
            }
        }
    }
}

/// A sound heap stays sound where a closure on it captures one more cell.
proof fn binding_a_cell(heap: Heap, closure: Reference, cell: Reference)
    requires
        sound_heap(heap),
        is_closure(heap, closure),
        is_upvalue(heap, cell),
    ensures
        sound_heap(bound(heap, closure, cell)),
        grown(heap, bound(heap, closure, cell)),
{
    let after = bound(heap, closure, cell);
    assert(grown(heap, after));
    assert forall|i: int| 0 <= i < after.len() implies sound_object(after, #[trigger] after[i]) by {
        assert(sound_object(heap, heap[i]));
        if i == closure.index {
            let before = heap[i]->Closure_0;
            let captured = after[i]->Closure_0;
            assert(captured.upvalues == before.upvalues.push(cell));
            assert forall|k: int| 0 <= k < captured.upvalues.len() implies is_upvalue(
                after,
                #[trigger] captured.upvalues[k],
            ) by {
                if k < before.upvalues.len() {
                    assert(captured.upvalues[k] == before.upvalues[k]);
                    assert(is_upvalue(heap, before.upvalues[k]));
                }
            }
        } else {
            assert(after[i] == heap[i]);
            match heap[i] {
                ObjectView::Closure(other) => {
                    assert forall|k: int| 0 <= k < other.upvalues.len() implies is_upvalue(
                        after,
                        #[trigger] other.upvalues[k],
                    ) by {
                        assert(is_upvalue(heap, other.upvalues[k]));
                    }
                },
                ObjectView::Upvalue(inner) => {
                    valid_values_stay_valid(heap, after, inner);
                },
                _ => {},
            }
        }
    }
}

/// A sound machine is sound on every sound heap that has grown from its own
/// and keeps the strings interned.
proof fn sound_on_grown_heap(machine: Machine, heap: Heap)
    requires
        machine.sound(),
        grown(machine.heap, heap),
        sound_heap(heap),
        crate::gc::interned(heap),
        heap.len() <= usize::MAX,
    ensures
        machine.sound_on(heap),
{
    assert forall|i: int| 0 <= i < machine.stack.len() implies valid(
        heap,
        #[trigger] machine.stack[i],
    ) by {
        valid_values_stay_valid(machine.heap, heap, machine.stack[i]);
    }
    assert forall|i: int| 0 <= i < machine.globals.len() implies valid(
        heap,
        #[trigger] machine.globals[i],
    ) by {
        valid_values_stay_valid(machine.heap, heap, machine.globals[i]);
    }
}

/// The value in a cell of a sound heap is valid and is no upvalue, and so
/// is what a valid value is unboxed to.
pub proof fn unboxed_values_are_plain(heap: Heap, value: Value)
    requires
        sound_heap(heap),
        valid(heap, value),
    ensures
        unboxed(heap, value) is Ok,
        valid(heap, unboxed(heap, value)->Ok_0),
        !(unboxed(heap, value)->Ok_0 is Upvalue),
{
    if let Value::Upvalue(cell) = value {
        assert(sound_object(heap, heap[cell.index as int]));
    }
}

/// The machine as it is created is sound.
pub proof fn initial_machine_is_sound()
    ensures
        Machine::initial().sound(),
{
}

/// A machine that takes the place of `count` values on top of the stack of
/// a sound machine by a valid value, on a sound heap grown from that of the
/// machine, is sound.
proof fn replacing_keeps_sound(machine: Machine, heap: Heap, count: int, value: Value, next: int)
    requires
        machine.sound(),
        grown(machine.heap, heap),
        sound_heap(heap),
        crate::gc::interned(heap),
        heap.len() <= usize::MAX,
        valid(heap, value),
        0 <= count <= machine.stack.len(),
        machine.stack.len() - count < crate::vm::LOCALS_CAPACITY,
        0 <= next <= usize::MAX,
    ensures
        (Machine { heap, ..machine }).replace(count, value, next)->Ok_0.0.sound(),
{
    sound_on_grown_heap(machine, heap);
    let after = (Machine { heap, ..machine }).replace(count, value, next)->Ok_0.0;
    assert forall|i: int| 0 <= i < after.stack.len() implies valid(
        heap,
        #[trigger] after.stack[i],
    ) by {
        if i < machine.stack.len() - count {
            assert(after.stack[i] == machine.stack[i]);
        }
    }
}

/// Interning a text on the heap of a sound machine, in the place of `count`
/// values on top of its stack, leaves a sound machine.
proof fn interning_keeps_sound(machine: Machine, text: Seq<char>, count: int, next: int)
    requires
        machine.sound(),
        allocated(machine.heap, ObjectView::String(text)).len() <= usize::MAX,
        0 <= count <= machine.stack.len(),
        0 <= next <= usize::MAX,
        machine.intern(text, count, next) is Ok,
    ensures
        machine.intern(text, count, next)->Ok_0.0.sound(),
{
    let object = ObjectView::String(text);
    let heap = allocated(machine.heap, object);
    crate::gc::allocation_keeps_strings_interned(machine.heap, object);
    if heap != machine.heap {
        pushing_a_sound_object(machine.heap, object);
    }
    assert(grown(machine.heap, heap));
    replacing_keeps_sound(
        machine,
        heap,
        count,
        Value::String(Reference { index: place_of(machine.heap, object) as usize }),
        next,
    );
}

/// Writing a valid value that is no upvalue into a cell on the heap of a
/// sound machine leaves a sound machine.
proof fn writing_keeps_sound(machine: Machine, cell: Reference, value: Value, next: int)
    requires
        machine.sound(),
        valid(machine.heap, value),
        !(value is Upvalue),
        0 <= next <= usize::MAX,
        machine.write(cell, value, next) is Ok,
    ensures
        machine.write(cell, value, next)->Ok_0.0.sound(),
{
    storing_a_plain_value(machine.heap, cell, value);
    sound_on_grown_heap(machine, stored(machine.heap, cell, value));
}

/// Reading a valid slot of a sound machine leaves a sound machine.
proof fn reading_keeps_sound(machine: Machine, slot: Value, next: int)
    requires
        machine.sound(),
        valid(machine.heap, slot),
        0 <= next <= usize::MAX,
        machine.read(slot, next) is Ok,
    ensures
        machine.read(slot, next)->Ok_0.0.sound(),
{
    unboxed_values_are_plain(machine.heap, slot);
    let after = machine.read(slot, next)->Ok_0.0;
    assert forall|i: int| 0 <= i < after.stack.len() implies valid(
        after.heap,
        #[trigger] after.stack[i],
    ) by {
        if i < machine.stack.len() {
            assert(after.stack[i] == machine.stack[i]);
        }
    }
}

/// The plain value on top of the stack of a sound machine is valid and is
/// no upvalue.
proof fn top_is_plain(machine: Machine)
    requires
        machine.sound(),
        machine.stack.len() > 0,
    ensures
        machine.top() is Ok,
        valid(machine.heap, machine.top()->Ok_0),
        !(machine.top()->Ok_0 is Upvalue),
{
    assert(valid(machine.heap, machine.stack[machine.stack.len() - 1]));
    unboxed_values_are_plain(machine.heap, machine.stack.last());
}

/// The cell of an upvalue of the executing closure of a sound machine is a
/// cell on the heap.
proof fn captured_cells_are_cells(machine: Machine, offset: u8)
    requires
        machine.sound(),
        machine.upvalue(offset) is Ok,
    ensures
        is_upvalue(machine.heap, machine.upvalue(offset)->Ok_0),
{
    let closure = machine.closure->Some_0;
    assert(sound_object(machine.heap, machine.heap[closure.index as int]));
}

/// `Capture` leaves a sound machine sound.
proof fn capturing_keeps_sound(machine: Machine, code: Seq<u8>)
    requires
        machine.sound(),
        machine.capture(code)->Ok_0.0.heap.len() <= usize::MAX,
        machine.position + 2 <= usize::MAX,
        machine.capture(code) is Ok,
    ensures
        machine.capture(code)->Ok_0.0.sound(),
{
    let offset = crate::bytecode::reader::byte_at(code, machine.position + 1)->Ok_0;
    let slot = machine.slot(offset)->Ok_0;
    let closure = machine.stack.last()->Closure_0;
    let after = machine.capture(code)->Ok_0.0;
    assert(valid(machine.heap, machine.stack[slot]));
    match machine.stack[slot] {
        Value::Upvalue(cell) => {
            binding_a_cell(machine.heap, closure, cell);
            assert(crate::gc::interned(after.heap));
            sound_on_grown_heap(machine, after.heap);
        },
        local => {
            let cell = Reference { index: machine.heap.len() as usize };
            let wider = machine.heap.push(ObjectView::Upvalue(local));
            pushing_a_sound_object(machine.heap, ObjectView::Upvalue(local));
            binding_a_cell(wider, closure, cell);
            assert(grown(machine.heap, after.heap));
            assert(crate::gc::interned(after.heap));
            sound_on_grown_heap(machine, after.heap);
            assert forall|i: int| 0 <= i < after.stack.len() implies valid(
                after.heap,
                #[trigger] after.stack[i],
            ) by {
                if i != slot {
                    assert(after.stack[i] == machine.stack[i]);
                    assert(valid(after.heap, machine.stack[i]));
                }
            }
        },
    }
}

/// Entering a function leaves a sound machine sound.
proof fn entering_keeps_sound(
    machine: Machine,
    position: u16,
    arity: u8,
    closure: Option<Reference>,
    back: int,
)
    requires
        machine.sound(),
        closure matches Some(entered) ==> is_closure(machine.heap, entered),
        machine.enter(position, arity, closure, back) is Ok,
    ensures
        machine.enter(position, arity, closure, back)->Ok_0.0.sound(),
{
    let after = machine.enter(position, arity, closure, back)->Ok_0.0;
    assert forall|i: int| 0 <= i < after.callstack.len() implies ((
    #[trigger] after.callstack[i]).closure matches Some(saved) ==> is_closure(after.heap, saved)) by {
        if i < machine.callstack.len() {
            assert(after.callstack[i] == machine.callstack[i]);
        }
    }
}

/// Whatever a sound machine executes, it stays sound: no instruction makes
/// a reference dangle, or puts an upvalue into an upvalue cell. (The code and
/// the heap are taken to be of a size that the machine can address, as the
/// code of every bytecode and the heap of every machine are.)
pub proof fn steps_keep_the_machine_sound(
    machine: Machine,
    code: Seq<u8>,
    pool: Seq<ConstantView>,
    answer: Option<Answer>,
)
    requires
        machine.sound(),
        code.len() <= usize::MAX,
        machine.step(code, pool, answer) is Ok,
        machine.step(code, pool, answer)->Ok_0.0.heap.len() <= usize::MAX,
    ensures
        machine.step(code, pool, answer)->Ok_0.0.sound(),
{
    let operation = operation_at(code, machine.position)->Ok_0;
    let after = machine.step(code, pool, answer)->Ok_0.0;
    let next = machine.position + 1;
    match operation {
        OperationCode::Constant => {
            let index = crate::bytecode::reader::u16_at(code, machine.position + 1)->Ok_0;
            match pool[index as int] {
                ConstantView::Number(bits) => {
                    replacing_keeps_sound(
                        machine,
                        machine.heap,
                        0,
                        Value::Number(bits),
                        machine.position + 3,
                    );
                    assert(machine.stack.take(machine.stack.len() as int) =~= machine.stack);
                },
                ConstantView::String(text) => {
                    interning_keeps_sound(machine, text, 0, machine.position + 3);
                },
            }
        },
        OperationCode::Nil | OperationCode::True | OperationCode::False => {
            let value = after.stack.last();
            replacing_keeps_sound(machine, machine.heap, 0, value, next);
            assert(machine.stack.take(machine.stack.len() as int) =~= machine.stack);
        },
        OperationCode::Fun | OperationCode::Closure => {
            let object = after.heap.last();
            pushing_a_sound_object(machine.heap, object);
            assert(crate::gc::interned(after.heap));
            replacing_keeps_sound(
                machine,
                after.heap,
                0,
                after.stack.last(),
                machine.position + 4,
            );
            assert(machine.stack.take(machine.stack.len() as int) =~= machine.stack);
        },
        OperationCode::Negate | OperationCode::Not => {
            replacing_keeps_sound(machine, machine.heap, 1, after.stack.last(), next);
        },
        OperationCode::Add | OperationCode::Subtract | OperationCode::Multiply
        | OperationCode::Divide | OperationCode::Greater | OperationCode::Less => {
            match machine.operands()->Ok_0 {
                (Value::String(left), Value::String(right)) => {
                    interning_keeps_sound(
                        machine,
                        machine.heap[left.index as int]->String_0
                            + machine.heap[right.index as int]->String_0,
                        2,
                        next,
                    );
                },
                _ => {
                    if answer is Some {
                        replacing_keeps_sound(machine, machine.heap, 2, after.stack.last(), next);
                    }
                },
            }
        },
        OperationCode::Equal => {
            if after != machine {
                replacing_keeps_sound(machine, machine.heap, 2, after.stack.last(), next);
            }
        },
        OperationCode::GetGlobal => {
            let index = crate::bytecode::reader::byte_at(code, machine.position + 1)->Ok_0;
            assert(valid(machine.heap, machine.globals[index as int]));
            reading_keeps_sound(machine, machine.globals[index as int], machine.position + 2);
        },
        OperationCode::GetLocal => {
            let offset = crate::bytecode::reader::byte_at(code, machine.position + 1)->Ok_0;
            let slot = machine.slot(offset)->Ok_0;
            assert(valid(machine.heap, machine.stack[slot]));
            reading_keeps_sound(machine, machine.stack[slot], machine.position + 2);
        },
        OperationCode::GetUpvalue => {
            let offset = crate::bytecode::reader::byte_at(code, machine.position + 1)->Ok_0;
            captured_cells_are_cells(machine, offset);
            reading_keeps_sound(
                machine,
                Value::Upvalue(machine.upvalue(offset)->Ok_0),
                machine.position + 2,
            );
        },
        OperationCode::SetGlobal => {
            let index = crate::bytecode::reader::byte_at(code, machine.position + 1)->Ok_0;
            top_is_plain(machine);
            let value = machine.top()->Ok_0;
            match machine.globals[index as int] {
                Value::Upvalue(cell) => {
                    writing_keeps_sound(machine, cell, value, machine.position + 2);
                },
                _ => {
                    assert forall|i: int| 0 <= i < after.globals.len() implies valid(
                        after.heap,
                        #[trigger] after.globals[i],
                    ) by {
                        if i != index {
                            assert(after.globals[i] == machine.globals[i]);
                        }
                    }
                },
            }
        },
        OperationCode::SetLocal => {
            let offset = crate::bytecode::reader::byte_at(code, machine.position + 1)->Ok_0;
            let slot = machine.slot(offset)->Ok_0;
            top_is_plain(machine);
            let value = machine.top()->Ok_0;
            match machine.stack[slot] {
                Value::Upvalue(cell) => {
                    writing_keeps_sound(machine, cell, value, machine.position + 2);
                },
                _ => {
                    assert forall|i: int| 0 <= i < after.stack.len() implies valid(
                        after.heap,
                        #[trigger] after.stack[i],
                    ) by {
                        if i != slot {
                            assert(after.stack[i] == machine.stack[i]);
                        }
                    }
                },
            }
        },
        OperationCode::SetUpvalue => {
            let offset = crate::bytecode::reader::byte_at(code, machine.position + 1)->Ok_0;
            top_is_plain(machine);
            writing_keeps_sound(
                machine,
                machine.upvalue(offset)->Ok_0,
                machine.top()->Ok_0,
                machine.position + 2,
            );
        },
        OperationCode::Pop | OperationCode::Print => {
            assert forall|i: int| 0 <= i < after.stack.len() implies valid(
                after.heap,
                #[trigger] after.stack[i],
            ) by {
                assert(after.stack[i] == machine.stack[i]);
            }
        },
        OperationCode::Capture => {
            capturing_keeps_sound(machine, code);
        },
        OperationCode::JumpIfFalse | OperationCode::Jump => {},
        OperationCode::Call => {
            let position = crate::bytecode::reader::u16_at(code, machine.position + 1)->Ok_0;
            let arity = crate::bytecode::reader::byte_at(code, machine.position + 3)->Ok_0;
            entering_keeps_sound(machine, position, arity, None, machine.position + 4);
        },
        OperationCode::Invoke => {
            top_is_plain(machine);
            let popped = Machine { stack: machine.stack.drop_last(), ..machine };
            assert forall|i: int| 0 <= i < popped.stack.len() implies valid(
                popped.heap,
                #[trigger] popped.stack[i],
            ) by {
                assert(popped.stack[i] == machine.stack[i]);
            }
            match machine.top()->Ok_0 {
                Value::FunctionPointer(function) => {
                    entering_keeps_sound(
                        popped,
                        machine.heap[function.index as int]->Function_0.position,
                        machine.heap[function.index as int]->Function_0.arity,
                        None,
                        next,
                    );
                },
                Value::Closure(closure) => {
                    entering_keeps_sound(
                        popped,
                        machine.heap[closure.index as int]->Closure_0.position,
                        machine.heap[closure.index as int]->Closure_0.arity,
                        Some(closure),
                        next,
                    );
                },
                _ => {},
            }
        },
        OperationCode::Return => {
            if machine.callstack.len() == 0 {
                assert forall|i: int| 0 <= i < after.stack.len() implies valid(
                    after.heap,
                    #[trigger] after.stack[i],
                ) by {
                    assert(after.stack[i] == machine.stack[i]);
                }
            } else {
                assert(machine.callstack[machine.callstack.len() - 1] == machine.callstack.last());
                assert forall|i: int| 0 <= i < after.stack.len() implies valid(
                    after.heap,
                    #[trigger] after.stack[i],
                ) by {
                    if i < machine.frame {
                        assert(after.stack[i] == machine.stack[i]);
                    } else {
                        assert(after.stack[i] == machine.stack[machine.stack.len() - 1]);
                    }
                }
                assert forall|i: int| 0 <= i < after.callstack.len() implies ((
                #[trigger] after.callstack[i]).closure matches Some(saved) ==> is_closure(
                    after.heap,
                    saved,
                )) by {
                    assert(after.callstack[i] == machine.callstack[i]);
                }
            }
        },
    }
}

/// In a sound machine no reference dangles: whatever it executes, the fault
/// of a dangling reference does not occur.
pub proof fn sound_machines_never_dangle(
    machine: Machine,
    code: Seq<u8>,
    pool: Seq<ConstantView>,
    answer: Option<Answer>,
)
    requires
        machine.sound(),
    ensures
        machine.step(code, pool, answer) != Err::<
            (Machine, crate::vm::semantics::SignalView),
            Fault,
        >(Fault::DanglingReference),
{
    if machine.stack.len() > 0 {
        top_is_plain(machine);
        unboxed_values_are_plain(machine.heap, machine.stack[machine.stack.len() - 1]);
        let plain = machine.top()->Ok_0;
        assert(shown(machine.heap, machine.stack.last()) is Ok);
    }
    if machine.stack.len() > 1 {
        assert(valid(machine.heap, machine.stack[machine.stack.len() - 1]));
        assert(valid(machine.heap, machine.stack[machine.stack.len() - 2]));
        unboxed_values_are_plain(machine.heap, machine.stack[machine.stack.len() - 1]);
        unboxed_values_are_plain(machine.heap, machine.stack[machine.stack.len() - 2]);
        let (left, right) = machine.operands()->Ok_0;
        assert(equality(machine.heap, left, right) is Ok);
    }
    if let Ok(operation) = operation_at(code, machine.position) {
        if let Ok(operand) = crate::bytecode::reader::byte_at(code, machine.position + 1) {
            assert(valid(machine.heap, machine.globals[operand as int]));
            unboxed_values_are_plain(machine.heap, machine.globals[operand as int]);
            if let Ok(slot) = machine.slot(operand) {
                assert(valid(machine.heap, machine.stack[slot]));
                unboxed_values_are_plain(machine.heap, machine.stack[slot]);
            }
            if machine.upvalue(operand) is Ok {
                captured_cells_are_cells(machine, operand);
            }
        }
    }
}

/// One instruction allocates at most one object, and frees none.
pub proof fn steps_allocate_at_most_one_object(
    machine: Machine,
    code: Seq<u8>,
    pool: Seq<ConstantView>,
    answer: Option<Answer>,
)
    requires
        machine.step(code, pool, answer) is Ok,
    ensures
        machine.heap.len() <= machine.step(code, pool, answer)->Ok_0.0.heap.len()
            <= machine.heap.len() + 1,
{
}

/// A run of a sound machine ends in a sound machine, and never in the fault
/// of a dangling reference. (The code is taken to be of a size that the
/// machine can address, and the heap to have room for one object for each
/// instruction of the run.)
pub proof fn runs_keep_the_machine_sound(
    machine: Machine,
    code: Seq<u8>,
    pool: Seq<ConstantView>,
    answer: Option<Answer>,
    budget: nat,
)
    requires
        machine.sound(),
        code.len() <= usize::MAX,
        machine.heap.len() + budget <= usize::MAX,
    ensures
        machine.run(code, pool, answer, budget).0.sound(),
        machine.run(code, pool, answer, budget).1 != Err::<
            crate::vm::semantics::SignalView,
            Fault,
        >(Fault::DanglingReference),
    decreases budget,
{
    if budget > 0 {
        sound_machines_never_dangle(machine, code, pool, answer);
        if let Ok((next, signal)) = machine.step(code, pool, answer) {
            steps_allocate_at_most_one_object(machine, code, pool, answer);
            steps_keep_the_machine_sound(machine, code, pool, answer);
            if signal is Running {
                runs_keep_the_machine_sound(next, code, pool, None, (budget - 1) as nat);
            }
        }
    }
}

/// In a sound machine strings are interned: two strings on its stack that
/// have the same text are the same reference.
pub proof fn equal_strings_on_the_stack_are_one_allocation(machine: Machine, first: int, second: int)
    requires
        machine.sound(),
        0 <= first < machine.stack.len(),
        0 <= second < machine.stack.len(),
        machine.stack[first] is String,
        machine.stack[second] is String,
        machine.heap[machine.stack[first]->String_0.index as int]->String_0
            == machine.heap[machine.stack[second]->String_0.index as int]->String_0,
    ensures
        machine.stack[first] == machine.stack[second],
{
    assert(valid(machine.heap, machine.stack[first]));
    assert(valid(machine.heap, machine.stack[second]));
}

} // verus!
