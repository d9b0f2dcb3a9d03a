use mussel_vm::fault::Fault;
use mussel_vm::gc::Allocate;
use mussel_vm::gc::Closure;
use mussel_vm::gc::Downcast;
use mussel_vm::gc::FunctionPointer;
use mussel_vm::gc::GarbageCollector;
use mussel_vm::gc::Object;
use mussel_vm::gc::Reference;
use mussel_vm::host::Operation;
use mussel_vm::host::Operator;
use mussel_vm::host::Output;
use mussel_vm::value::format_callable;
use mussel_vm::value::Equality;
use mussel_vm::value::Value;

fn text_of(heap: &GarbageCollector, reference: Reference) -> String {
    let text: Option<&String> = heap.get(reference).unwrap().downcast();
    text.unwrap().clone()
}

#[test]
fn new_heap_is_empty() {
    let heap = GarbageCollector::new();
    assert_eq!(heap.len(), 0);
    assert!(heap.get(Reference { index: 0 }).is_none());
}

#[test]
fn strings_are_interned() {
    let mut heap = GarbageCollector::new();
    let first = heap.allocate("Hello".to_string());
    let second = heap.allocate("World".to_string());
    let third = heap.allocate("Hello".to_string());
    assert_eq!(first, Reference { index: 0 });
    assert_eq!(second, Reference { index: 1 });
    assert_eq!(third, first);
    assert_eq!(heap.len(), 2);
    assert_eq!(text_of(&heap, first), "Hello");
    assert_eq!(text_of(&heap, second), "World");
    let empty = heap.allocate(String::new());
    assert_eq!(heap.allocate(String::new()), empty);
    assert_eq!(heap.len(), 3);
}

#[test]
fn other_objects_are_allocated_anew() {
    let mut heap = GarbageCollector::new();
    let first = heap.allocate(FunctionPointer { position: 7, arity: 1 });
    let second = heap.allocate(FunctionPointer { position: 7, arity: 1 });
    assert_ne!(first, second);
    let third = heap.allocate(Value::Nil);
    let fourth = heap.allocate(Value::Nil);
    assert_ne!(third, fourth);
    let fifth = heap.allocate(Closure { position: 1, arity: 0, upvalues: Vec::new() });
    let sixth = heap.allocate(Closure { position: 1, arity: 0, upvalues: Vec::new() });
    assert_ne!(fifth, sixth);
    assert_eq!(heap.len(), 6);
    assert_eq!(sixth, Reference { index: 5 });
    // a string between them is still found
    let text = heap.allocate("text".to_string());
    assert_eq!(heap.allocate("text".to_string()), text);
    assert_eq!(heap.len(), 7);
}

#[test]
fn downcast_checks_the_kind() {
    let mut heap = GarbageCollector::new();
    let text = heap.allocate("text".to_string());
    let function = heap.allocate(FunctionPointer { position: 3, arity: 2 });
    let closure = heap.allocate(Closure { position: 4, arity: 1, upvalues: Vec::new() });
    let cell = heap.allocate(Value::Boolean(true));

    let object = heap.get(text).unwrap();
    let as_text: Option<&String> = object.downcast();
    let as_function: Option<&FunctionPointer> = object.downcast();
    let as_closure: Option<&Closure> = object.downcast();
    let as_value: Option<&Value> = object.downcast();
    assert_eq!(as_text.map(|text| text.as_str()), Some("text"));
    assert!(as_function.is_none() && as_closure.is_none() && as_value.is_none());

    let object = heap.get(function).unwrap();
    let as_text: Option<&String> = object.downcast();
    let as_function: Option<&FunctionPointer> = object.downcast();
    assert!(as_text.is_none());
    assert_eq!(as_function, Some(&FunctionPointer { position: 3, arity: 2 }));

    let object = heap.get(closure).unwrap();
    let as_closure: Option<&Closure> = object.downcast();
    let as_function: Option<&FunctionPointer> = object.downcast();
    assert!(as_function.is_none());
    assert_eq!(as_closure.unwrap().position, 4);
    assert_eq!(as_closure.unwrap().arity, 1);
    assert!(as_closure.unwrap().upvalues.is_empty());

    let object = heap.get(cell).unwrap();
    let as_value: Option<&Value> = object.downcast();
    let as_closure: Option<&Closure> = object.downcast();
    assert!(as_closure.is_none());
    assert_eq!(as_value, Some(&Value::Boolean(true)));
}

#[test]
fn store_overwrites_a_cell() {
    let mut heap = GarbageCollector::new();
    let text = heap.allocate("text".to_string());
    let cell = heap.allocate(Value::Nil);
    assert_eq!(heap.store(cell, Value::String(text)), Ok(()));
    assert!(matches!(heap.get(cell), Some(Object::Upvalue(Value::String(_)))));
    assert_eq!(Value::Upvalue(cell).unbox(&heap), Ok(Value::String(text)));
    assert_eq!(heap.store(text, Value::Nil), Err(Fault::DanglingReference));
    assert_eq!(heap.store(Reference { index: 2 }, Value::Nil), Err(Fault::DanglingReference));
    assert_eq!(text_of(&heap, text), "text");
    assert_eq!(heap.len(), 2);
}

#[test]
fn bind_appends_to_what_a_closure_captured() {
    let mut heap = GarbageCollector::new();
    let closure = heap.allocate(Closure { position: 9, arity: 0, upvalues: Vec::new() });
    let first = heap.allocate(Value::Nil);
    let second = heap.allocate(Value::Boolean(false));
    assert_eq!(heap.bind(closure, second), Ok(()));
    assert_eq!(heap.bind(closure, first), Ok(()));
    match heap.get(closure) {
        Some(Object::Closure(bound)) => {
            assert_eq!(bound.upvalues, vec![second, first]);
            assert_eq!(bound.position, 9);
        }
        other => panic!("unexpected {:?}", other),
    }
    assert_eq!(heap.bind(first, second), Err(Fault::DanglingReference));
    assert_eq!(heap.bind(Reference { index: 3 }, second), Err(Fault::DanglingReference));
    assert_eq!(heap.len(), 3);
}

#[test]
fn truthiness() {
    let mut heap = GarbageCollector::new();
    let empty = heap.allocate(String::new());
    assert!(!Value::Nil.as_boolean());
    assert!(!Value::Boolean(false).as_boolean());
    assert!(Value::Boolean(true).as_boolean());
    assert!(Value::Number(0.0f64.to_bits()).as_boolean());
    assert!(Value::Number(f64::NAN.to_bits()).as_boolean());
    assert!(Value::String(empty).as_boolean());
    assert!(Value::FunctionPointer(Reference { index: 0 }).as_boolean());
    assert!(Value::Closure(Reference { index: 0 }).as_boolean());
    assert!(Value::Upvalue(Reference { index: 0 }).as_boolean());
}

#[test]
fn unbox_looks_into_the_cell() {
    let mut heap = GarbageCollector::new();
    let cell = heap.allocate(Value::Number(7));
    let text = heap.allocate("t".to_string());
    assert_eq!(Value::Upvalue(cell).unbox(&heap), Ok(Value::Number(7)));
    assert_eq!(Value::Number(8).unbox(&heap), Ok(Value::Number(8)));
    assert_eq!(Value::String(text).unbox(&heap), Ok(Value::String(text)));
    assert_eq!(Value::Upvalue(text).unbox(&heap), Err(Fault::DanglingReference));
    assert_eq!(Value::Upvalue(Reference { index: 9 }).unbox(&heap), Err(Fault::DanglingReference));
}

#[test]
fn equality_looks_through_references() {
    let mut heap = GarbageCollector::new();
    let hello = heap.allocate("hello".to_string());
    let world = heap.allocate("world".to_string());
    let first = heap.allocate(FunctionPointer { position: 1, arity: 2 });
    let second = heap.allocate(FunctionPointer { position: 1, arity: 2 });
    let third = heap.allocate(FunctionPointer { position: 2, arity: 2 });
    let closure = heap.allocate(Closure { position: 1, arity: 2, upvalues: Vec::new() });
    let other = heap.allocate(Closure { position: 1, arity: 2, upvalues: Vec::new() });
    let known = |truth| Ok(Equality::Known(truth));
    assert_eq!(Value::Nil.equals(&Value::Nil, &heap), known(true));
    assert_eq!(Value::Nil.equals(&Value::Boolean(false), &heap), known(false));
    assert_eq!(Value::Boolean(true).equals(&Value::Boolean(true), &heap), known(true));
    assert_eq!(Value::Boolean(true).equals(&Value::Boolean(false), &heap), known(false));
    assert_eq!(Value::String(hello).equals(&Value::String(hello), &heap), known(true));
    assert_eq!(Value::String(hello).equals(&Value::String(world), &heap), known(false));
    assert_eq!(Value::FunctionPointer(first).equals(&Value::FunctionPointer(second), &heap), known(true));
    assert_eq!(Value::FunctionPointer(first).equals(&Value::FunctionPointer(third), &heap), known(false));
    assert_eq!(Value::Closure(closure).equals(&Value::Closure(closure), &heap), known(true));
    assert_eq!(Value::Closure(closure).equals(&Value::Closure(other), &heap), known(false));
    assert_eq!(Value::String(hello).equals(&Value::FunctionPointer(first), &heap), known(false));
    assert_eq!(Value::Number(1).equals(&Value::Nil, &heap), known(false));
    assert_eq!(
        Value::Number(1).equals(&Value::Number(2), &heap),
        Ok(Equality::Ask(Operation { operator: Operator::Equal, left: 1, right: 2 }))
    );
    assert_eq!(
        Value::String(hello).equals(&Value::String(first), &heap),
        Err(Fault::DanglingReference)
    );
}

#[test]
fn display_follows_the_print_format() {
    let mut heap = GarbageCollector::new();
    let text = heap.allocate("raw text".to_string());
    let function = heap.allocate(FunctionPointer { position: 0x1a2b, arity: 10 });
    let closure = heap.allocate(Closure { position: 0, arity: 0, upvalues: Vec::new() });
    let cell = heap.allocate(Value::String(text));
    let shown = |value: Value| match value.display(&heap) {
        Ok(Output::Text(text)) => text,
        other => panic!("unexpected {:?}", other),
    };
    assert_eq!(shown(Value::Nil), "nil");
    assert_eq!(shown(Value::Boolean(true)), "true");
    assert_eq!(shown(Value::Boolean(false)), "false");
    assert_eq!(shown(Value::String(text)), "raw text");
    assert_eq!(shown(Value::FunctionPointer(function)), "<fun position=0x1A2B arity=10>");
    assert_eq!(shown(Value::Closure(closure)), "<fun position=0x0000 arity=0>");
    assert_eq!(shown(Value::Upvalue(cell)), "raw text");
    assert!(matches!(Value::Number(42).display(&heap), Ok(Output::Number(42))));
    assert_eq!(Value::String(function).display(&heap).err(), Some(Fault::DanglingReference));
    assert_eq!(Value::Closure(text).display(&heap).err(), Some(Fault::DanglingReference));
}

#[test]
fn callables_are_formatted_as_the_standard_library_formats_them() {
    for (position, arity) in [(0u16, 0u8), (0x23, 2), (0xFFFF, 255), (0x0A00, 9), (4096, 100), (15, 99), (256, 101)] {
        assert_eq!(
            format_callable(position, arity),
            format!("<fun position={:#06X} arity={}>", position, arity)
        );
    }
}

#[test]
fn downcast_mut_changes_the_payload_in_place() {
    let mut object = Object::Upvalue(Value::Nil);
    {
        let text: Option<&mut String> = object.downcast_mut();
        assert!(text.is_none());
    }
    {
        let value: Option<&mut Value> = object.downcast_mut();
        *value.unwrap() = Value::Boolean(true);
    }
    assert!(matches!(object, Object::Upvalue(Value::Boolean(true))));
    let mut object = Object::String("a".to_string());
    {
        let text: Option<&mut String> = object.downcast_mut();
        text.unwrap().push('b');
    }
    let text: Option<&String> = object.downcast();
    assert_eq!(text.unwrap(), "ab");
    let mut object = Object::Closure(Closure { position: 1, arity: 2, upvalues: Vec::new() });
    {
        let closure: Option<&mut Closure> = object.downcast_mut();
        closure.unwrap().upvalues.push(Reference { index: 5 });
        let function: Option<&mut FunctionPointer> = object.downcast_mut();
        assert!(function.is_none());
    }
    let closure: Option<&Closure> = object.downcast();
    assert_eq!(closure.unwrap().upvalues, vec![Reference { index: 5 }]);
    let mut object = Object::Function(FunctionPointer { position: 1, arity: 2 });
    {
        let function: Option<&mut FunctionPointer> = object.downcast_mut();
        function.unwrap().arity = 3;
    }
    let function: Option<&FunctionPointer> = object.downcast();
    assert_eq!(function, Some(&FunctionPointer { position: 1, arity: 3 }));
}
