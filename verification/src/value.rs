use vstd::prelude::*;

use crate::bytecode::CallPosition;
use crate::bytecode::LocalOffset;
use crate::fault::Fault;
use crate::gc::interned;
use crate::gc::is_string;
use crate::gc::GarbageCollector;
use crate::gc::Heap;
use crate::gc::Object;
use crate::gc::Reference;
use crate::host::Operation;
use crate::host::Operator;
use crate::host::Output;
use crate::host::OutputView;

verus! {

/// The values of the machine.
///
/// Numbers, booleans and nil are held in the value itself. Strings,
/// functions and closures live on the heap, and the value refers to them.
/// An upvalue is a box: a reference to a heap cell that holds the value of a
/// captured variable.
///
/// A number is held as the bit pattern of an IEEE-754 binary64 value.
///
/// The derived `==` tells whether two values are the same representation.
/// The equality of the language, which looks through references, is
/// [`Value::equals`].
#[derive(Clone, Copy, Debug, PartialEq, Eq, Structural)]
pub enum Value {
    Number(u64),
    Boolean(bool),
    Nil,
    String(Reference),
    FunctionPointer(Reference),
    Closure(Reference),
    Upvalue(Reference),
}

/// Whether two values are equal in the language.
#[derive(Clone, Copy, Debug, PartialEq, Eq, Structural)]
pub enum Equality {
    /// They are, or they are not.
    Known(bool),
    /// Both are numbers: the host decides by carrying out the operation.
    Ask(Operation),
}

/// The character for one digit below sixteen: a decimal digit, or a letter
/// from `A` to `F`.
pub open spec fn digit_char(digit: int) -> char {
    if digit == 0 {
        '0'
    } else if digit == 1 {
        '1'
    } else if digit == 2 {
        '2'
    } else if digit == 3 {
        '3'
    } else if digit == 4 {
        '4'
    } else if digit == 5 {
        '5'
    } else if digit == 6 {
        '6'
    } else if digit == 7 {
        '7'
    } else if digit == 8 {
        '8'
    } else if digit == 9 {
        '9'
    } else if digit == 10 {
        'A'
    } else if digit == 11 {
        'B'
    } else if digit == 12 {
        'C'
    } else if digit == 13 {
        'D'
    } else if digit == 14 {
        'E'
    } else {
        'F'
    }
}

/// A position in code as four hexadecimal digits, the most significant first.
pub open spec fn hex_text(position: CallPosition) -> Seq<char> {
    let number = position as int;
    seq![
        digit_char(number / 4096),
        digit_char(number / 256 % 16),
        digit_char(number / 16 % 16),
        digit_char(number % 16),
    ]
}

/// An arity in decimal, without leading zeros.
pub open spec fn decimal_text(arity: LocalOffset) -> Seq<char> {
    let number = arity as int;
    if number >= 100 {
        seq![digit_char(number / 100), digit_char(number / 10 % 10), digit_char(number % 10)]
    } else if number >= 10 {
        seq![digit_char(number / 10), digit_char(number % 10)]
    } else {
        seq![digit_char(number)]
    }
}

/// How a function or a closure is printed: its position in hexadecimal and
/// its arity in decimal, as in `<fun position=0x0023 arity=2>`.
pub open spec fn callable_text(position: CallPosition, arity: LocalOffset) -> Seq<char> {
    "<fun position=0x"@ + hex_text(position) + " arity="@ + decimal_text(arity) + ">"@
}

/// The value itself, or, for an upvalue, the value in its cell.
pub open spec fn unboxed(heap: Heap, value: Value) -> Result<Value, Fault> {
    match value {
        Value::Upvalue(cell) => if cell.index < heap.len() && heap[cell.index as int] is Upvalue {
            Ok(heap[cell.index as int]->Upvalue_0)
        } else {
            Err(Fault::DanglingReference)
        },
        _ => Ok(value),
    }
}

/// Whether `left` and `right` are equal in the language.
///
/// Values of different kinds are unequal. Booleans and nil are compared as
/// they are; strings by their text; function pointers by position and
/// arity; closures and upvalues by reference. Two numbers are for the host
/// to compare.
pub open spec fn equality(heap: Heap, left: Value, right: Value) -> Result<Equality, Fault> {
    match (left, right) {
        (Value::Number(a), Value::Number(b)) => Ok(
            Equality::Ask(Operation { operator: Operator::Equal, left: a, right: b }),
        ),
        (Value::Boolean(a), Value::Boolean(b)) => Ok(Equality::Known(a == b)),
        (Value::Nil, Value::Nil) => Ok(Equality::Known(true)),
        (Value::String(a), Value::String(b)) => if a == b {
            Ok(Equality::Known(true))
        } else if a.index < heap.len() && b.index < heap.len() && heap[a.index as int] is String
            && heap[b.index as int] is String {
            Ok(Equality::Known(heap[a.index as int]->String_0 == heap[b.index as int]->String_0))
        } else {
            Err(Fault::DanglingReference)
        },
        (Value::FunctionPointer(a), Value::FunctionPointer(b)) => if a == b {
            Ok(Equality::Known(true))
        } else if a.index < heap.len() && b.index < heap.len() && heap[a.index as int] is Function
            && heap[b.index as int] is Function {
            Ok(
                Equality::Known(
                    heap[a.index as int]->Function_0 == heap[b.index as int]->Function_0,
                ),
            )
        } else {
            Err(Fault::DanglingReference)
        },
        (Value::Closure(a), Value::Closure(b)) => Ok(Equality::Known(a == b)),
        (Value::Upvalue(a), Value::Upvalue(b)) => Ok(Equality::Known(a == b)),
        _ => Ok(Equality::Known(false)),
    }
}

/// Where strings are interned, two strings are equal in the language exactly
/// when they are the same reference.
pub proof fn string_equality_is_identity(heap: Heap, first: Reference, second: Reference)
    requires
        interned(heap),
        is_string(heap, first),
        is_string(heap, second),
    ensures
        equality(heap, Value::String(first), Value::String(second)) == Ok::<Equality, Fault>(
            Equality::Known(first == second),
        ),
{
}

/// What is printed for `value`.
///
/// A number is left to the host. A boolean is printed as `true` or `false`,
/// nil as `nil`, a string as its text, and a function or a closure as
/// [`callable_text`] says. An upvalue is printed as the value in its cell.
pub open spec fn shown(heap: Heap, value: Value) -> Result<OutputView, Fault> {
    match unboxed(heap, value) {
        Err(fault) => Err(fault),
        Ok(plain) => match plain {
            Value::Number(bits) => Ok(OutputView::Number(bits)),
            Value::Boolean(truth) => Ok(
                OutputView::Text(
                    if truth {
                        "true"@
                    } else {
                        "false"@
                    },
                ),
            ),
            Value::Nil => Ok(OutputView::Text("nil"@)),
            Value::String(text) => if text.index < heap.len() && heap[text.index as int]
                is String {
                Ok(OutputView::Text(heap[text.index as int]->String_0))
            } else {
                Err(Fault::DanglingReference)
            },
            Value::FunctionPointer(function) => if function.index < heap.len()
                && heap[function.index as int] is Function {
                Ok(
                    OutputView::Text(
                        callable_text(
                            heap[function.index as int]->Function_0.position,
                            heap[function.index as int]->Function_0.arity,
                        ),
                    ),
                )
            } else {
                Err(Fault::DanglingReference)
            },
            Value::Closure(closure) => if closure.index < heap.len()
                && heap[closure.index as int] is Closure {
                Ok(
                    OutputView::Text(
                        callable_text(
                            heap[closure.index as int]->Closure_0.position,
                            heap[closure.index as int]->Closure_0.arity,
                        ),
                    ),
                )
            } else {
                Err(Fault::DanglingReference)
            },
            Value::Upvalue(_) => Err(Fault::DanglingReference),
        },
    }
}

/// The character for one digit below sixteen, as a text.
fn digit(value: u8) -> (text: &'static str)
    requires
        value < 16,
    ensures
        text@ == seq![digit_char(value as int)],
{
    proof {
        reveal_strlit("0");
        reveal_strlit("1");
        reveal_strlit("2");
        reveal_strlit("3");
        reveal_strlit("4");
        reveal_strlit("5");
        reveal_strlit("6");
        reveal_strlit("7");
        reveal_strlit("8");
        reveal_strlit("9");
        reveal_strlit("A");
        reveal_strlit("B");
        reveal_strlit("C");
        reveal_strlit("D");
        reveal_strlit("E");
        reveal_strlit("F");
    }
    let text = match value {
        0 => "0",
        1 => "1",
        2 => "2",
        3 => "3",
        4 => "4",
        5 => "5",
        6 => "6",
        7 => "7",
        8 => "8",
        9 => "9",
        10 => "A",
        11 => "B",
        12 => "C",
        13 => "D",
        14 => "E",
        _ => "F",
    };
    assert(text@ =~= seq![digit_char(value as int)]);
    text
}

/// The text that a function or a closure is printed as.
pub fn format_callable(position: CallPosition, arity: LocalOffset) -> (text: String)
    ensures
        text@ == callable_text(position, arity),
{
    let mut text = String::from_str("<fun position=0x");
    text.append(digit((position / 4096) as u8));
    text.append(digit((position / 256 % 16) as u8));
    text.append(digit((position / 16 % 16) as u8));
    text.append(digit((position % 16) as u8));
    assert(text@ =~= "<fun position=0x"@ + hex_text(position));
    text.append(" arity=");
    if arity >= 100 {
        text.append(digit(arity / 100));
    }
    if arity >= 10 {
        text.append(digit(arity / 10 % 10));
    }
    text.append(digit(arity % 10));
    assert(text@ =~= "<fun position=0x"@ + hex_text(position) + " arity="@ + decimal_text(arity));
    text.append(">");
    text
}

impl Value {
    /// The value itself, or, for an upvalue, the value in its cell.
    pub fn unbox(&self, heap: &GarbageCollector) -> (plain: Result<Value, Fault>)
        ensures
            plain == unboxed(heap@, *self),
    {
        match self {
            Value::Upvalue(cell) => match heap.get(*cell) {
                Some(Object::Upvalue(inner)) => Ok(*inner),
                _ => Err(Fault::DanglingReference),
            },
            _ => Ok(*self),
        }
    }

    /// Whether this value and `other` are equal in the language.
    pub fn equals(&self, other: &Value, heap: &GarbageCollector) -> (equal: Result<Equality, Fault>)
        ensures
            equal == equality(heap@, *self, *other),
    {
        match (self, other) {
            (Value::Number(a), Value::Number(b)) => Ok(
                Equality::Ask(Operation { operator: Operator::Equal, left: *a, right: *b }),
            ),
            (Value::Boolean(a), Value::Boolean(b)) => Ok(Equality::Known(*a == *b)),
            (Value::Nil, Value::Nil) => Ok(Equality::Known(true)),
            (Value::String(a), Value::String(b)) => {
                if a.index == b.index {
                    return Ok(Equality::Known(true));
                }
                match (heap.get(*a), heap.get(*b)) {
                    (Some(Object::String(left)), Some(Object::String(right))) => Ok(
                        Equality::Known(*left == *right),
                    ),
                    _ => Err(Fault::DanglingReference),
                }
            },
            (Value::FunctionPointer(a), Value::FunctionPointer(b)) => {
                if a.index == b.index {
                    return Ok(Equality::Known(true));
                }
                match (heap.get(*a), heap.get(*b)) {
                    (Some(Object::Function(left)), Some(Object::Function(right))) => Ok(
                        Equality::Known(
                            left.position == right.position && left.arity == right.arity,
                        ),
                    ),
                    _ => Err(Fault::DanglingReference),
                }
            },
            (Value::Closure(a), Value::Closure(b)) => Ok(Equality::Known(a.index == b.index)),
            (Value::Upvalue(a), Value::Upvalue(b)) => Ok(Equality::Known(a.index == b.index)),
            _ => Ok(Equality::Known(false)),
        }
    }

    /// What is printed for this value.
    pub fn display(&self, heap: &GarbageCollector) -> (output: Result<Output, Fault>)
        ensures
            match shown(heap@, *self) {
                Ok(view) => output is Ok && output->Ok_0@ == view,
                Err(fault) => output is Err && output->Err_0 == fault,
            },
    {
        let plain = match self.unbox(heap) {
            Ok(plain) => plain,
            Err(fault) => {
                return Err(fault);
            },
        };
        match plain {
            Value::Number(bits) => Ok(Output::Number(bits)),
            Value::Boolean(truth) => if truth {
                Ok(Output::Text(String::from_str("true")))
            } else {
                Ok(Output::Text(String::from_str("false")))
            },
            Value::Nil => Ok(Output::Text(String::from_str("nil"))),
            Value::String(text) => match heap.get(text) {
                Some(Object::String(content)) => Ok(Output::Text(content.clone())),
                _ => Err(Fault::DanglingReference),
            },
            Value::FunctionPointer(function) => match heap.get(function) {
                Some(Object::Function(callee)) => Ok(
                    Output::Text(format_callable(callee.position, callee.arity)),
                ),
                _ => Err(Fault::DanglingReference),
            },
            Value::Closure(closure) => match heap.get(closure) {
                Some(Object::Closure(callee)) => Ok(
                    Output::Text(format_callable(callee.position, callee.arity)),
                ),
                _ => Err(Fault::DanglingReference),
            },
            Value::Upvalue(_) => Err(Fault::DanglingReference),
        }
    }

    /// The truthiness of the value: nil and false are falsey, and everything
    /// else is truthy, the number zero, the empty string and every reference
    /// included.
    pub open spec fn truthy(&self) -> bool {
        match self {
            Value::Boolean(b) => *b,
            Value::Nil => false,
            _ => true,
        }
    }

    /// The truthiness of the value.
    #[verifier::when_used_as_spec(truthy)]
    pub fn as_boolean(&self) -> (truth: bool)
        ensures
            truth == self.truthy(),
    {
        match self {
            Value::Boolean(b) => *b,
            Value::Nil => false,
            _ => true,
        }
    }
}

} // verus!
