use vstd::prelude::*;

pub mod reference;
pub mod types;

pub use reference::Downcast;
pub use reference::Object;
pub use reference::ObjectView;
pub use reference::Reference;
pub use types::Closure;
pub use types::ClosureView;
pub use types::FunctionPointer;

use crate::fault::Fault;
use crate::value::Value;

verus! {

/// The heap as a mathematical value: every object allocated so far, in the
/// order of allocation. A [`Reference`] is an index into it.
pub type Heap = Seq<ObjectView>;

/// Whether no two strings on the heap have the same text.
pub open spec fn interned(heap: Heap) -> bool {
    forall|i: int, j: int|
        0 <= i < heap.len() && 0 <= j < heap.len() && heap[i] is String && heap[j] is String
            && heap[i]->String_0 == heap[j]->String_0 ==> i == j
}

/// Whether a string with this text is on the heap.
pub open spec fn holds_text(heap: Heap, text: Seq<char>) -> bool {
    exists|i: int| 0 <= i < heap.len() && heap[i] == ObjectView::String(text)
}

/// The heap after the allocation of `object`: a string whose text is on the
/// heap already is shared, and anything else is appended.
pub open spec fn allocated(heap: Heap, object: ObjectView) -> Heap {
    if object is String && holds_text(heap, object->String_0) {
        heap
    } else {
        heap.push(object)
    }
}

/// The index at which the allocation of `object` finds or puts it.
pub open spec fn place_of(heap: Heap, object: ObjectView) -> int {
    if object is String && holds_text(heap, object->String_0) {
        choose|i: int| 0 <= i < heap.len() && heap[i] == object
    } else {
        heap.len() as int
    }
}

/// Whether `reference` refers to a string on the heap.
pub open spec fn is_string(heap: Heap, reference: Reference) -> bool {
    reference.index < heap.len() && heap[reference.index as int] is String
}

/// Whether `reference` refers to a function pointer on the heap.
pub open spec fn is_function(heap: Heap, reference: Reference) -> bool {
    reference.index < heap.len() && heap[reference.index as int] is Function
}

/// Whether `reference` refers to a closure on the heap.
pub open spec fn is_closure(heap: Heap, reference: Reference) -> bool {
    reference.index < heap.len() && heap[reference.index as int] is Closure
}

/// Whether `reference` refers to an upvalue cell on the heap.
pub open spec fn is_upvalue(heap: Heap, reference: Reference) -> bool {
    reference.index < heap.len() && heap[reference.index as int] is Upvalue
}

/// The heap after `value` was written into the upvalue cell `cell`.
pub open spec fn stored(heap: Heap, cell: Reference, value: Value) -> Heap {
    heap.update(cell.index as int, ObjectView::Upvalue(value))
}

/// The heap after `upvalue` was added to what the closure `closure` captured.
pub open spec fn bound(heap: Heap, closure: Reference, upvalue: Reference) -> Heap {
    let before = heap[closure.index as int]->Closure_0;
    heap.update(
        closure.index as int,
        ObjectView::Closure(
            ClosureView {
                position: before.position,
                arity: before.arity,
                upvalues: before.upvalues.push(upvalue),
            },
        ),
    )
}

/// Strings are interned: two references to strings of the same text are the
/// same reference.
pub proof fn equal_strings_are_one_allocation(heap: Heap, first: Reference, second: Reference)
    requires
        interned(heap),
        is_string(heap, first),
        is_string(heap, second),
        heap[first.index as int]->String_0 == heap[second.index as int]->String_0,
    ensures
        first == second,
{
}

/// An allocation keeps the strings interned, leaves every object that was on
/// the heap where and what it was, and puts the allocated object at the
/// index that `place_of` gives. A string whose text was on the heap leaves
/// the heap as it was.
pub proof fn allocation_keeps_strings_interned(heap: Heap, object: ObjectView)
    requires
        interned(heap),
    ensures
        interned(allocated(heap, object)),
        0 <= place_of(heap, object) < allocated(heap, object).len(),
        allocated(heap, object)[place_of(heap, object)] == object,
        forall|i: int| 0 <= i < heap.len() ==> allocated(heap, object)[i] == heap[i],
        object is String && holds_text(heap, object->String_0) ==> allocated(heap, object) == heap,
{
}

/// The owner of every object on the heap.
///
/// Nothing else makes or frees an object. A string is allocated once: a
/// second allocation of the same text hands out the reference of the first.
/// Nothing is freed while the collector lives, so that a reference, once
/// handed out, stays valid, and the object it refers to stays of its kind.
/// All objects are released together, in the order of their allocation, when
/// the collector is dropped.
pub struct GarbageCollector {
    allocations: Vec<Object>,
}

impl View for GarbageCollector {
    type V = Heap;

    closed spec fn view(&self) -> Heap {
        Seq::new(self.allocations@.len(), |i: int| self.allocations@[i]@)
    }
}

impl GarbageCollector {
    /// No two strings on the heap have the same text.
    pub open spec fn wf(&self) -> bool {
        interned(self@)
    }

    /// Every object on the heap has an index that a reference can hold.
    pub proof fn heap_is_addressable(&self)
        ensures
            self@.len() <= usize::MAX,
    {
        assert(self.allocations.len() == self.allocations@.len());
    }

    /// Create a collector with an empty heap.
    pub fn new() -> (collector: Self)
        ensures
            collector.wf(),
            collector@ == Seq::<ObjectView>::empty(),
    {
        let collector = GarbageCollector { allocations: Vec::new() };
        assert(collector@ =~= Seq::<ObjectView>::empty());
        collector
    }

    /// The number of objects on the heap.
    pub fn len(&self) -> (count: usize)
        ensures
            count == self@.len(),
    {
        self.allocations.len()
    }

    /// The object that `reference` refers to; `None` where it refers to none.
    pub fn get(&self, reference: Reference) -> (object: Option<&Object>)
        ensures
            reference.index < self@.len() ==> object is Some && object->Some_0@ == self@[
                reference.index as int],
            reference.index >= self@.len() ==> object is None,
    {
        if reference.index < self.allocations.len() {
            Some(&self.allocations[reference.index])
        } else {
            None
        }
    }

    /// Write `value` into the upvalue cell that `cell` refers to. Where
    /// `cell` refers to no upvalue cell, nothing is written.
    pub fn store(&mut self, cell: Reference, value: Value) -> (written: Result<(), Fault>)
        ensures
            old(self).wf() ==> final(self).wf(),
            cell.index < old(self)@.len() && old(self)@[cell.index as int] is Upvalue ==> written
                is Ok && final(self)@ == stored(old(self)@, cell, value),
            !(cell.index < old(self)@.len() && old(self)@[cell.index as int] is Upvalue)
                ==> written == Err::<(), Fault>(Fault::DanglingReference) && final(self)@ == old(
                self,
            )@,
    {
        if cell.index >= self.allocations.len() {
            return Err(Fault::DanglingReference);
        }
        match &self.allocations[cell.index] {
            Object::Upvalue(_) => {},
            _ => {
                return Err(Fault::DanglingReference);
            },
        }
        self.allocations.set(cell.index, Object::Upvalue(value));
        assert(self@ =~= stored(old(self)@, cell, value));
        Ok(())
    }

    /// Add `upvalue` to what the closure that `closure` refers to has
    /// captured. Where `closure` refers to no closure, nothing changes.
    pub fn bind(&mut self, closure: Reference, upvalue: Reference) -> (added: Result<(), Fault>)
        ensures
            old(self).wf() ==> final(self).wf(),
            closure.index < old(self)@.len() && old(self)@[closure.index as int] is Closure
                ==> added is Ok && final(self)@ == bound(old(self)@, closure, upvalue),
            !(closure.index < old(self)@.len() && old(self)@[closure.index as int] is Closure)
                ==> added == Err::<(), Fault>(Fault::DanglingReference) && final(self)@ == old(
                self,
            )@,
    {
        if closure.index >= self.allocations.len() {
            return Err(Fault::DanglingReference);
        }
        match &self.allocations[closure.index] {
            Object::Closure(_) => {},
            _ => {
                return Err(Fault::DanglingReference);
            },
        }
        match &mut self.allocations[closure.index] {
            Object::Closure(target) => {
                target.upvalues.push(upvalue);
            },
            _ => {},
        }
        assert(self@ =~= bound(old(self)@, closure, upvalue));
        Ok(())
    }

    /// The index of the string with this text, if the heap holds one.
    fn find(&self, text: &String) -> (index: Option<usize>)
        ensures
            match index {
                Some(i) => i < self@.len() && self@[i as int] == ObjectView::String(text@),
                None => !holds_text(self@, text@),
            },
    {
        let mut index: usize = 0;
        while index < self.allocations.len()
            invariant
                index <= self.allocations@.len(),
                forall|i: int| 0 <= i < index ==> self@[i] != ObjectView::String(text@),
            decreases self.allocations@.len() - index,
        {
            match &self.allocations[index] {
                Object::String(present) => {
                    if *present == *text {
                        return Some(index);
                    }
                },
                _ => {},
            }
            index = index + 1;
        }
        None
    }

    /// Put `object` at the end of the heap.
    fn append(&mut self, object: Object) -> (reference: Reference)
        ensures
            final(self)@ == old(self)@.push(object@),
            reference.index == old(self)@.len(),
    {
        let index = self.allocations.len();
        self.allocations.push(object);
        assert(self@ =~= old(self)@.push(object@));
        Reference { index }
    }
}

/// Allocating a payload of type `T` as an object on the heap.
///
/// The collector implements it for each kind of object.
pub trait Allocate<T> {
    /// The heap.
    spec fn heap(&self) -> Heap;

    /// The object that `value` is allocated as.
    spec fn object(value: T) -> ObjectView;

    /// Allocate `value` and hand out the reference to it.
    ///
    /// A string whose text is on the heap already is not allocated again:
    /// the reference to the string on the heap is handed out. Anything else
    /// becomes a new object at the end of the heap.
    fn allocate(&mut self, value: T) -> (reference: Reference)
        requires
            interned(old(self).heap()),
        ensures
            interned(final(self).heap()),
            final(self).heap() == allocated(old(self).heap(), Self::object(value)),
            reference.index == place_of(old(self).heap(), Self::object(value)),
            reference.index < final(self).heap().len(),
            final(self).heap()[reference.index as int] == Self::object(value),
    ;
}

impl Allocate<String> for GarbageCollector {
    open spec fn heap(&self) -> Heap {
        self@
    }

    open spec fn object(value: String) -> ObjectView {
        ObjectView::String(value@)
    }

    fn allocate(&mut self, value: String) -> Reference {
        match self.find(&value) {
            Some(index) => Reference { index },
            None => self.append(Object::String(value)),
        }
    }
}

impl Allocate<FunctionPointer> for GarbageCollector {
    open spec fn heap(&self) -> Heap {
        self@
    }

    open spec fn object(value: FunctionPointer) -> ObjectView {
        ObjectView::Function(value)
    }

    fn allocate(&mut self, value: FunctionPointer) -> Reference {
        self.append(Object::Function(value))
    }
}

impl Allocate<Closure> for GarbageCollector {
    open spec fn heap(&self) -> Heap {
        self@
    }

    open spec fn object(value: Closure) -> ObjectView {
        ObjectView::Closure(value@)
    }

    fn allocate(&mut self, value: Closure) -> Reference {
        self.append(Object::Closure(value))
    }
}

impl Allocate<Value> for GarbageCollector {
    open spec fn heap(&self) -> Heap {
        self@
    }

    /// A value is allocated as an upvalue cell that holds it.
    open spec fn object(value: Value) -> ObjectView {
        ObjectView::Upvalue(value)
    }

    fn allocate(&mut self, value: Value) -> Reference {
        self.append(Object::Upvalue(value))
    }
}

} // verus!
