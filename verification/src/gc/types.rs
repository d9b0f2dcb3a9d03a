use vstd::prelude::*;

use crate::bytecode::CallPosition;
use crate::bytecode::LocalOffset;
use crate::gc::Reference;

verus! {

/// A function without captured state: where its code starts, and how many
/// arguments it takes.
#[derive(Clone, Copy, Debug, PartialEq, Eq, Structural)]
pub struct FunctionPointer {
    pub position: CallPosition,
    pub arity: LocalOffset,
}

/// A function together with the variables it captured, each as a reference
/// to the heap cell that holds the variable.
#[derive(Debug)]
pub struct Closure {
    pub position: CallPosition,
    pub arity: LocalOffset,
    pub upvalues: Vec<Reference>,
}

/// A [`Closure`] as a mathematical value.
pub struct ClosureView {
    pub position: CallPosition,
    pub arity: LocalOffset,
    pub upvalues: Seq<Reference>,
}

impl View for Closure {
    type V = ClosureView;

    open spec fn view(&self) -> ClosureView {
        ClosureView { position: self.position, arity: self.arity, upvalues: self.upvalues@ }
    }
}

} // verus!
