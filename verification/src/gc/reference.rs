use vstd::prelude::*;

use crate::gc::Closure;
use crate::gc::ClosureView;
use crate::gc::FunctionPointer;
use crate::value::Value;

verus! {

/// A reference to an object on the heap.
///
/// A reference is the place of the object among all allocations, in the
/// order in which they were made. It is copied freely; two references are
/// equal when they refer to the same allocation.
#[derive(Clone, Copy, Debug, PartialEq, Eq, Structural)]
pub struct Reference {
    pub index: usize,
}

/// An object on the heap: its kind, and the payload of that kind.
#[derive(Debug)]
pub enum Object {
    String(String),
    Function(FunctionPointer),
    Closure(Closure),
    Upvalue(Value),
}

/// An [`Object`] as a mathematical value.
pub enum ObjectView {
    String(Seq<char>),
    Function(FunctionPointer),
    Closure(ClosureView),
    Upvalue(Value),
}

impl View for Object {
    type V = ObjectView;

    open spec fn view(&self) -> ObjectView {
        match self {
            Object::String(text) => ObjectView::String(text@),
            Object::Function(function) => ObjectView::Function(*function),
            Object::Closure(closure) => ObjectView::Closure(closure@),
            Object::Upvalue(value) => ObjectView::Upvalue(*value),
        }
    }
}

/// Looking at an object as a payload of type `T`.
///
/// The kind of the object is checked: the payload is handed out where the
/// object is of the kind that holds a `T`, and `None` otherwise.
pub trait Downcast<T>: Sized {
    /// Whether the object is of the kind that holds a `T`.
    spec fn holds(&self) -> bool;

    /// The payload, where the object is of the kind that holds a `T`.
    spec fn payload(&self) -> T;

    /// The payload if the object is of the kind that holds a `T`.
    fn downcast(&self) -> (payload: Option<&T>)
        ensures
            payload is Some <==> self.holds(),
            payload is Some ==> *payload->Some_0 == self.payload(),
    ;

    /// The payload, to be changed in place, if the object is of the kind
    /// that holds a `T`. The object stays of its kind, and holds in the end
    /// what the payload was changed to.
    fn downcast_mut(&mut self) -> (payload: Option<&mut T>)
        ensures
            payload is Some <==> old(self).holds(),
            payload is Some ==> *payload->Some_0 == old(self).payload() && final(self).holds()
                && final(self).payload() == *final(payload->Some_0),
            payload is None ==> *final(self) == *old(self),
    ;
}

impl Downcast<String> for Object {
    open spec fn holds(&self) -> bool {
        self is String
    }

    open spec fn payload(&self) -> String {
        self->String_0
    }

    fn downcast(&self) -> Option<&String> {
        match self {
            Object::String(text) => Some(text),
            _ => None,
        }
    }

    fn downcast_mut(&mut self) -> Option<&mut String> {
        match self {
            Object::String(text) => Some(text),
            _ => None,
        }
    }
}

impl Downcast<FunctionPointer> for Object {
    open spec fn holds(&self) -> bool {
        self is Function
    }

    open spec fn payload(&self) -> FunctionPointer {
        self->Function_0
    }

    fn downcast(&self) -> Option<&FunctionPointer> {
        match self {
            Object::Function(function) => Some(function),
            _ => None,
        }
    }

    fn downcast_mut(&mut self) -> Option<&mut FunctionPointer> {
        match self {
            Object::Function(function) => Some(function),
            _ => None,
        }
    }
}

impl Downcast<Closure> for Object {
    open spec fn holds(&self) -> bool {
        self is Closure
    }

    open spec fn payload(&self) -> Closure {
        self->Closure_0
    }

    fn downcast(&self) -> Option<&Closure> {
        match self {
            Object::Closure(closure) => Some(closure),
            _ => None,
        }
    }

    fn downcast_mut(&mut self) -> Option<&mut Closure> {
        match self {
            Object::Closure(closure) => Some(closure),
            _ => None,
        }
    }
}

impl Downcast<Value> for Object {
    open spec fn holds(&self) -> bool {
        self is Upvalue
    }

    open spec fn payload(&self) -> Value {
        self->Upvalue_0
    }

    fn downcast(&self) -> Option<&Value> {
        match self {
            Object::Upvalue(value) => Some(value),
            _ => None,
        }
    }

    fn downcast_mut(&mut self) -> Option<&mut Value> {
        match self {
            Object::Upvalue(value) => Some(value),
            _ => None,
        }
    }
}

} // verus!
