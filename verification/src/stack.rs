use vstd::prelude::*;

verus! {

/// A bounded last-in, first-out store of at most `N` elements.
///
/// The elements are kept bottom first: index `0` is the element pushed
/// earliest, and the last index is the top.
pub struct Stack<T, const N: usize> {
    elements: Vec<T>,
}

impl<T, const N: usize> View for Stack<T, N> {
    type V = Seq<T>;

    /// The elements, bottom first.
    closed spec fn view(&self) -> Seq<T> {
        self.elements@
    }
}

impl<T, const N: usize> Stack<T, N> {
    /// A well-formed stack holds at most `N` elements.
    pub open spec fn wf(&self) -> bool {
        self@.len() <= N
    }

    /// Create an empty stack.
    pub fn new() -> (stack: Self)
        ensures
            stack.wf(),
            stack@ == Seq::<T>::empty(),
    {
        Stack { elements: Vec::new() }
    }

    /// The number of elements on the stack.
    pub fn len(&self) -> (depth: usize)
        ensures
            depth == self@.len(),
    {
        self.elements.len()
    }

    /// Whether the stack holds no element.
    pub fn is_empty(&self) -> (empty: bool)
        ensures
            empty == (self@.len() == 0),
    {
        self.elements.len() == 0
    }

    /// Whether the stack holds `N` elements, so that nothing more can be pushed.
    pub fn is_full(&self) -> (full: bool)
        requires
            self.wf(),
        ensures
            full == (self@.len() == N),
    {
        self.elements.len() >= N
    }

    /// The `n`-th element counted from the top; `peek(0)` is the top itself.
    pub fn peek(&self, n: usize) -> (element: &T)
        requires
            n < self@.len(),
        ensures
            *element == self@[self@.len() - 1 - n],
    {
        &self.elements[self.elements.len() - 1 - n]
    }

    /// The element pushed last.
    pub fn top(&self) -> (element: &T)
        requires
            self@.len() > 0,
        ensures
            *element == self@.last(),
    {
        self.peek(0)
    }

    /// Put `value` on top of the stack.
    pub fn push(&mut self, value: T)
        requires
            old(self)@.len() < N,
        ensures
            final(self).wf(),
            final(self)@ == old(self)@.push(value),
    {
        self.elements.push(value);
    }

    /// Take the top element off the stack and return it.
    pub fn pop(&mut self) -> (value: T)
        requires
            old(self)@.len() > 0,
        ensures
            value == old(self)@.last(),
            final(self)@ == old(self)@.drop_last(),
            old(self).wf() ==> final(self).wf(),
    {
        let value = self.elements.pop();
        value.unwrap()
    }

    /// Remove every element.
    pub fn clear(&mut self)
        ensures
            final(self).wf(),
            final(self)@ == Seq::<T>::empty(),
    {
        self.elements.clear();
    }

    /// The element at `index`, counted from the bottom.
    pub fn get(&self, index: usize) -> (element: &T)
        requires
            index < self@.len(),
        ensures
            *element == self@[index as int],
    {
        &self.elements[index]
    }

    /// Replace the element at `index`, counted from the bottom, by `value`.
    pub fn set(&mut self, index: usize, value: T)
        requires
            index < old(self)@.len(),
        ensures
            final(self)@ == old(self)@.update(index as int, value),
            old(self).wf() ==> final(self).wf(),
    {
        self.elements.set(index, value);
    }
}

} // verus!
