use mussel_vm::bytecode::Bytecode;
use mussel_vm::bytecode::BytecodeWriter;
use mussel_vm::bytecode::Constant;
use mussel_vm::bytecode::Definition;
use mussel_vm::bytecode::Emit;
use mussel_vm::bytecode::OperationCode;
use mussel_vm::fault::Fault;
use mussel_vm::host::Answer;
use mussel_vm::host::Operation;
use mussel_vm::host::Operator;
use mussel_vm::host::Output;
use mussel_vm::value::Value;
use mussel_vm::vm::Signal;
use mussel_vm::vm::VirtualMachine;

fn compute(operation: Operation) -> Answer {
    let left = f64::from_bits(operation.left);
    let right = f64::from_bits(operation.right);
    match operation.operator {
        Operator::Add => Answer::Number((left + right).to_bits()),
        Operator::Subtract => Answer::Number((left - right).to_bits()),
        Operator::Multiply => Answer::Number((left * right).to_bits()),
        Operator::Divide => Answer::Number((left / right).to_bits()),
        Operator::Equal => Answer::Boolean((left - right).abs() < f64::EPSILON),
        Operator::Greater => Answer::Boolean(left > right),
        Operator::Less => Answer::Boolean(left < right),
    }
}

fn define(writer: &mut BytecodeWriter, constant: Constant) -> u16 {
    let mut definition = writer.define(constant.clone()).unwrap();
    loop {
        match definition {
            Definition::Defined(index) => return index,
            Definition::Undecided { at, operation } => {
                let equal = compute(operation) == Answer::Boolean(true);
                definition = writer.define_after(constant.clone(), at, equal).unwrap();
            }
        }
    }
}

fn number(value: f64) -> Constant {
    Constant::Number(value.to_bits())
}

fn text(value: &str) -> Constant {
    Constant::String(value.to_string())
}

fn writer(constants: Vec<Constant>) -> BytecodeWriter {
    let mut writer = BytecodeWriter::new(Bytecode { code: Vec::new(), constants: Vec::new() });
    for constant in constants {
        define(&mut writer, constant);
    }
    writer
}

fn run_on(machine: &mut VirtualMachine, bytecode: &Bytecode) -> (Vec<String>, Result<(), Fault>) {
    let mut lines = Vec::new();
    let mut answer = None;
    for _ in 0..100_000 {
        match machine.interpret(bytecode, answer.take(), 64) {
            Ok(Signal::Running) => {}
            Ok(Signal::Print(Output::Text(line))) => lines.push(line),
            Ok(Signal::Print(Output::Number(bits))) => lines.push(format!("{}", f64::from_bits(bits))),
            Ok(Signal::Compute(operation)) => answer = Some(compute(operation)),
            Ok(Signal::Terminated) => return (lines, Ok(())),
            Err(fault) => return (lines, Err(fault)),
        }
    }
    panic!("the program did not end");
}

fn run(bytecode: &Bytecode) -> (VirtualMachine, Vec<String>, Result<(), Fault>) {
    let mut machine = VirtualMachine::new();
    let (lines, result) = run_on(&mut machine, bytecode);
    (machine, lines, result)
}

/// Runs the bytecode up to the `Return` of the outermost function, which is
/// left to be executed, so that what the program leaves on the stack can be
/// looked at.
fn run_before_end(bytecode: &Bytecode) -> (VirtualMachine, Vec<String>, Result<(), Fault>) {
    let mut machine = VirtualMachine::new();
    let mut lines = Vec::new();
    let mut answer = None;
    for _ in 0..100_000 {
        if machine.depth() == 0
            && bytecode.code.get(machine.position()) == Some(&OperationCode::Return.to_byte())
        {
            return (machine, lines, Ok(()));
        }
        match machine.step(bytecode, answer.take()) {
            Ok(Signal::Running) => {}
            Ok(Signal::Print(Output::Text(line))) => lines.push(line),
            Ok(Signal::Print(Output::Number(bits))) => lines.push(format!("{}", f64::from_bits(bits))),
            Ok(Signal::Compute(operation)) => answer = Some(compute(operation)),
            Ok(Signal::Terminated) => panic!("the program ended"),
            Err(fault) => return (machine, lines, Err(fault)),
        }
    }
    panic!("the program did not end");
}

#[test]
fn arithmetic_precedence() {
    let mut w = writer(vec![number(5.0), number(4.0), number(3.0), number(2.0)]);
    w.emit(OperationCode::Constant);
    w.emit(0u16);
    w.emit(OperationCode::Constant);
    w.emit(1u16);
    w.emit(OperationCode::Subtract);
    w.emit(OperationCode::Constant);
    w.emit(2u16);
    w.emit(OperationCode::Constant);
    w.emit(3u16);
    w.emit(OperationCode::Multiply);
    w.emit(OperationCode::Greater);
    w.emit(OperationCode::Nil);
    w.emit(OperationCode::Not);
    w.emit(OperationCode::Equal);
    w.emit(OperationCode::Not);
    w.emit(OperationCode::Return);
    let bytecode = w.finish();
    let (machine, lines, result) = run_before_end(&bytecode);
    assert_eq!(result, Ok(()));
    assert!(lines.is_empty());
    assert_eq!(machine.stack().len(), 1);
    // 5 - 4 > 3 * 2 is false, !nil is true, so `==` gives false and the last `Not` true.
    assert_eq!(*machine.stack().top(), Value::Boolean(true));

    // Before the last `Not` the top is the value of the comparison.
    let mut machine = VirtualMachine::new();
    let mut answer = None;
    while machine.position() < bytecode.code.len() - 2 {
        match machine.step(&bytecode, answer.take()) {
            Ok(Signal::Compute(operation)) => answer = Some(compute(operation)),
            Ok(Signal::Running) => {}
            other => panic!("unexpected {:?}", other),
        }
    }
    assert_eq!(*machine.stack().top(), Value::Boolean(false));

    // The program ends without output and leaves no stack.
    let (machine, lines, result) = run(&bytecode);
    assert_eq!(result, Ok(()));
    assert!(lines.is_empty());
    assert_eq!(machine.stack().len(), 0);
}

#[test]
fn string_concatenation_and_interning() {
    let mut w = writer(vec![text("Hello, "), text("World!")]);
    w.emit(OperationCode::Constant);
    w.emit(0u16);
    w.emit(OperationCode::Constant);
    w.emit(1u16);
    w.emit(OperationCode::Add);
    w.emit(OperationCode::Print);
    w.emit(OperationCode::Return);
    let (_, lines, result) = run(&w.finish());
    assert_eq!(result, Ok(()));
    assert_eq!(lines, vec!["Hello, World!".to_string()]);
}

#[test]
fn function_call() {
    let mut w = writer(vec![number(114.0), number(514.0)]);
    w.emit(OperationCode::Constant);
    w.emit(0u16);
    w.emit(OperationCode::Constant);
    w.emit(1u16);
    w.emit(OperationCode::Call);
    w.emit(12u16);
    w.emit(2u8);
    w.emit(OperationCode::Print);
    w.emit(OperationCode::Return);
    w.emit(OperationCode::GetLocal);
    w.emit(0u8);
    w.emit(OperationCode::GetLocal);
    w.emit(1u8);
    w.emit(OperationCode::Add);
    w.emit(OperationCode::Return);
    let bytecode = w.finish();
    assert_eq!(bytecode.code.len(), 18);
    let (machine, lines, result) = run(&bytecode);
    assert_eq!(result, Ok(()));
    assert_eq!(lines, vec!["628".to_string()]);
    assert_eq!(machine.stack().len(), 0);
}

#[test]
fn interned_concatenation_aliases_the_constant() {
    let mut w = writer(vec![text("Hello, "), text("World!"), text("Hello, World!")]);
    w.emit(OperationCode::Constant);
    w.emit(0u16);
    w.emit(OperationCode::Constant);
    w.emit(1u16);
    w.emit(OperationCode::Add);
    w.emit(OperationCode::Constant);
    w.emit(2u16);
    w.emit(OperationCode::Return);
    let (machine, lines, result) = run_before_end(&w.finish());
    assert_eq!(result, Ok(()));
    assert!(lines.is_empty());
    assert_eq!(machine.stack().len(), 2);
    let concatenated = *machine.stack().peek(1);
    let loaded = *machine.stack().peek(0);
    assert!(matches!(concatenated, Value::String(_)));
    assert_eq!(concatenated, loaded);
    // "Hello, ", "World!" and "Hello, World!": three strings, each allocated once.
    assert_eq!(machine.heap().len(), 3);
}

#[test]
fn globals_and_mutation() {
    let mut w = writer(vec![text("beignets"), text("cafe au lait"), text("beignets with ")]);
    w.emit(OperationCode::Constant);
    w.emit(0u16);
    w.emit(OperationCode::SetGlobal);
    w.emit(0u8);
    w.emit(OperationCode::Pop);
    w.emit(OperationCode::Constant);
    w.emit(1u16);
    w.emit(OperationCode::SetGlobal);
    w.emit(1u8);
    w.emit(OperationCode::Pop);
    w.emit(OperationCode::Constant);
    w.emit(2u16);
    w.emit(OperationCode::GetGlobal);
    w.emit(1u8);
    w.emit(OperationCode::Add);
    w.emit(OperationCode::SetGlobal);
    w.emit(0u8);
    w.emit(OperationCode::Pop);
    w.emit(OperationCode::GetGlobal);
    w.emit(0u8);
    w.emit(OperationCode::Print);
    w.emit(OperationCode::Return);
    let (machine, lines, result) = run(&w.finish());
    assert_eq!(result, Ok(()));
    assert_eq!(lines, vec!["beignets with cafe au lait".to_string()]);
    assert_eq!(machine.stack().len(), 0);
}

fn counter() -> Bytecode {
    let mut w = writer(vec![number(1.0), number(114514.0)]);
    // main
    w.emit(OperationCode::Call);
    w.emit(16u16);
    w.emit(0u8);
    w.emit(OperationCode::SetGlobal);
    w.emit(0u8);
    w.emit(OperationCode::Pop);
    w.emit(OperationCode::GetGlobal);
    w.emit(0u8);
    w.emit(OperationCode::Invoke);
    w.emit(OperationCode::Print);
    w.emit(OperationCode::GetGlobal);
    w.emit(0u8);
    w.emit(OperationCode::Invoke);
    w.emit(OperationCode::Print);
    w.emit(OperationCode::Return);
    // hello, at 16
    w.emit(OperationCode::Constant);
    w.emit(0u16);
    w.emit(OperationCode::Closure);
    w.emit(35u16);
    w.emit(0u8);
    w.emit(OperationCode::Capture);
    w.emit(0u8);
    w.emit(OperationCode::GetLocal);
    w.emit(0u8);
    w.emit(OperationCode::Constant);
    w.emit(1u16);
    w.emit(OperationCode::Add);
    w.emit(OperationCode::SetLocal);
    w.emit(0u8);
    w.emit(OperationCode::Pop);
    w.emit(OperationCode::Return);
    // theworld, at 35
    w.emit(OperationCode::GetUpvalue);
    w.emit(0u8);
    w.emit(OperationCode::Constant);
    w.emit(0u16);
    w.emit(OperationCode::Subtract);
    w.emit(OperationCode::SetUpvalue);
    w.emit(0u8);
    w.emit(OperationCode::Pop);
    w.emit(OperationCode::GetUpvalue);
    w.emit(0u8);
    w.emit(OperationCode::Return);
    w.finish()
}

#[test]
fn closure_counts_down() {
    let bytecode = counter();
    assert_eq!(bytecode.code.len(), 47);
    let (machine, lines, result) = run(&bytecode);
    assert_eq!(result, Ok(()));
    assert_eq!(lines, vec!["114514".to_string(), "114513".to_string()]);
    assert_eq!(machine.stack().len(), 0);
    assert_eq!(machine.depth(), 0);
    assert_eq!(machine.frame(), 0);
    assert_eq!(machine.closure(), None);
    assert!(matches!(machine.global(0), Value::Closure(_)));
}

#[test]
fn conditional_branching() {
    let mut w = writer(vec![number(114.0), number(514.0), number(1919810.0), text("OK"), text("WTF")]);
    w.emit(OperationCode::Constant);
    w.emit(0u16);
    w.emit(OperationCode::Constant);
    w.emit(1u16);
    w.emit(OperationCode::Add);
    w.emit(OperationCode::Constant);
    w.emit(2u16);
    w.emit(OperationCode::Less);
    w.emit(OperationCode::JumpIfFalse);
    w.emit(8i16);
    w.emit(OperationCode::Pop);
    w.emit(OperationCode::Constant);
    w.emit(3u16);
    w.emit(OperationCode::Print);
    w.emit(OperationCode::Jump);
    w.emit(5i16);
    w.emit(OperationCode::Pop);
    w.emit(OperationCode::Constant);
    w.emit(4u16);
    w.emit(OperationCode::Print);
    w.emit(OperationCode::Return);
    let bytecode = w.finish();
    assert_eq!(bytecode.code.len(), 28);
    let (_, lines, result) = run(&bytecode);
    assert_eq!(result, Ok(()));
    assert_eq!(lines, vec!["OK".to_string()]);
}

#[test]
fn branch_not_taken_prints_the_other() {
    let mut w = writer(vec![number(114.0), number(514.0), number(1919810.0), text("OK"), text("WTF")]);
    w.emit(OperationCode::Constant);
    w.emit(0u16);
    w.emit(OperationCode::Constant);
    w.emit(1u16);
    w.emit(OperationCode::Add);
    w.emit(OperationCode::Constant);
    w.emit(2u16);
    w.emit(OperationCode::Greater);
    w.emit(OperationCode::JumpIfFalse);
    w.emit(8i16);
    w.emit(OperationCode::Pop);
    w.emit(OperationCode::Constant);
    w.emit(3u16);
    w.emit(OperationCode::Print);
    w.emit(OperationCode::Jump);
    w.emit(5i16);
    w.emit(OperationCode::Pop);
    w.emit(OperationCode::Constant);
    w.emit(4u16);
    w.emit(OperationCode::Print);
    w.emit(OperationCode::Return);
    let (_, lines, result) = run(&w.finish());
    assert_eq!(result, Ok(()));
    assert_eq!(lines, vec!["WTF".to_string()]);
}

#[test]
fn outermost_return_discards_the_top() {
    let mut w = writer(vec![]);
    w.emit(OperationCode::True);
    w.emit(OperationCode::Return);
    let bytecode = w.finish();
    let mut machine = VirtualMachine::new();
    assert!(matches!(machine.step(&bytecode, None), Ok(Signal::Running)));
    assert_eq!(machine.stack().len(), 1);
    assert_eq!(machine.position(), 1);
    assert!(matches!(machine.step(&bytecode, None), Ok(Signal::Terminated)));
    assert_eq!(machine.stack().len(), 0);
    assert_eq!(machine.position(), 1);
    assert_eq!(machine.depth(), 0);
    // Once ended, the machine stays ended.
    assert!(matches!(machine.interpret(&bytecode, None, 10), Ok(Signal::Terminated)));
    assert_eq!(machine.stack().len(), 0);
    assert_eq!(machine.position(), 1);
}

#[test]
fn outermost_return_takes_one_value_only() {
    let mut w = writer(vec![]);
    w.emit(OperationCode::Nil);
    w.emit(OperationCode::False);
    w.emit(OperationCode::True);
    w.emit(OperationCode::Return);
    let (machine, lines, result) = run(&w.finish());
    assert_eq!(result, Ok(()));
    assert!(lines.is_empty());
    assert_eq!(machine.stack().len(), 2);
    assert_eq!(*machine.stack().top(), Value::Boolean(false));
    assert_eq!(*machine.stack().get(0), Value::Nil);
}

#[test]
fn outermost_return_on_an_empty_stack_ends_without_fault() {
    let mut w = writer(vec![]);
    w.emit(OperationCode::Return);
    let (machine, lines, result) = run(&w.finish());
    assert_eq!(result, Ok(()));
    assert!(lines.is_empty());
    assert_eq!(machine.stack().len(), 0);
    assert_eq!(machine.position(), 0);
}

#[test]
fn jump_is_relative_to_the_end_of_its_offset() {
    let mut w = writer(vec![]);
    w.emit(OperationCode::Jump);
    w.emit(2i16);
    w.emit(OperationCode::Nil);
    w.emit(OperationCode::Nil);
    w.emit(OperationCode::Jump);
    w.emit(-5i16);
    let bytecode = w.finish();
    let mut machine = VirtualMachine::new();
    assert!(matches!(machine.step(&bytecode, None), Ok(Signal::Running)));
    assert_eq!(machine.position(), 5);
    assert!(matches!(machine.step(&bytecode, None), Ok(Signal::Running)));
    assert_eq!(machine.position(), 3);
    assert_eq!(machine.stack().len(), 0);
}

#[test]
fn jump_before_the_start_faults() {
    let mut w = writer(vec![]);
    w.emit(OperationCode::Jump);
    w.emit(-4i16);
    let bytecode = w.finish();
    let mut machine = VirtualMachine::new();
    assert_eq!(machine.step(&bytecode, None).err(), Some(Fault::InvalidJump));
    assert_eq!(machine.position(), 0);
}

#[test]
fn call_and_return_restore_the_caller() {
    let mut w = writer(vec![]);
    w.emit(OperationCode::True);
    w.emit(OperationCode::False);
    w.emit(OperationCode::Call);
    w.emit(7u16);
    w.emit(2u8);
    w.emit(OperationCode::Return);
    w.emit(OperationCode::Return);
    let bytecode = w.finish();
    let mut machine = VirtualMachine::new();
    assert!(matches!(machine.interpret(&bytecode, None, 2), Ok(Signal::Running)));
    let (frame, closure) = (machine.frame(), machine.closure());
    assert_eq!(machine.position(), 2);
    assert!(matches!(machine.step(&bytecode, None), Ok(Signal::Running)));
    assert_eq!(machine.position(), 7);
    assert_eq!(machine.frame(), 0);
    assert_eq!(machine.depth(), 1);
    assert!(matches!(machine.step(&bytecode, None), Ok(Signal::Running)));
    assert_eq!(machine.frame(), frame);
    assert_eq!(machine.closure(), closure);
    assert_eq!(machine.position(), 6);
    assert_eq!(machine.depth(), 0);
    assert_eq!(machine.stack().len(), 1);
    assert_eq!(*machine.stack().top(), Value::Boolean(false));
}

#[test]
fn push_onto_full_stack_faults() {
    let mut w = writer(vec![]);
    for _ in 0..257 {
        w.emit(OperationCode::Nil);
    }
    w.emit(OperationCode::Return);
    let (machine, _, result) = run(&w.finish());
    assert_eq!(result, Err(Fault::StackOverflow));
    assert_eq!(machine.stack().len(), 256);
    assert_eq!(machine.position(), 256);
}

#[test]
fn pop_of_empty_stack_faults() {
    let mut w = writer(vec![]);
    w.emit(OperationCode::Pop);
    let (machine, _, result) = run(&w.finish());
    assert_eq!(result, Err(Fault::StackUnderflow));
    assert_eq!(machine.position(), 0);
}

#[test]
fn division_by_zero_is_no_fault() {
    let mut w = writer(vec![number(1.0), number(0.0)]);
    w.emit(OperationCode::Constant);
    w.emit(0u16);
    w.emit(OperationCode::Constant);
    w.emit(1u16);
    w.emit(OperationCode::Divide);
    w.emit(OperationCode::Constant);
    w.emit(1u16);
    w.emit(OperationCode::Constant);
    w.emit(1u16);
    w.emit(OperationCode::Divide);
    w.emit(OperationCode::Return);
    let (machine, _, result) = run_before_end(&w.finish());
    assert_eq!(result, Ok(()));
    assert_eq!(*machine.stack().peek(1), Value::Number(f64::INFINITY.to_bits()));
    match *machine.stack().peek(0) {
        Value::Number(bits) => assert!(f64::from_bits(bits).is_nan()),
        other => panic!("unexpected {:?}", other),
    }
}

#[test]
fn not_is_defined_on_every_value() {
    let mut w = writer(vec![number(0.0), text("")]);
    w.emit(OperationCode::Nil);
    w.emit(OperationCode::Not);
    w.emit(OperationCode::False);
    w.emit(OperationCode::Not);
    w.emit(OperationCode::True);
    w.emit(OperationCode::Not);
    w.emit(OperationCode::Constant);
    w.emit(0u16);
    w.emit(OperationCode::Not);
    w.emit(OperationCode::Constant);
    w.emit(1u16);
    w.emit(OperationCode::Not);
    w.emit(OperationCode::Fun);
    w.emit(0u16);
    w.emit(0u8);
    w.emit(OperationCode::Not);
    w.emit(OperationCode::Closure);
    w.emit(0u16);
    w.emit(0u8);
    w.emit(OperationCode::Not);
    w.emit(OperationCode::Return);
    let (machine, _, result) = run_before_end(&w.finish());
    assert_eq!(result, Ok(()));
    let expected = [true, true, false, false, false, false, false];
    assert_eq!(machine.stack().len(), expected.len());
    for (index, truth) in expected.iter().enumerate() {
        assert_eq!(*machine.stack().get(index), Value::Boolean(*truth));
    }
}

#[test]
fn negate_flips_the_sign() {
    let mut w = writer(vec![number(5.0), number(-0.25), number(0.0)]);
    for index in 0..3u16 {
        w.emit(OperationCode::Constant);
        w.emit(index);
        w.emit(OperationCode::Negate);
    }
    w.emit(OperationCode::Return);
    let (machine, _, result) = run_before_end(&w.finish());
    assert_eq!(result, Ok(()));
    assert_eq!(*machine.stack().get(0), Value::Number((-5.0f64).to_bits()));
    assert_eq!(*machine.stack().get(1), Value::Number(0.25f64.to_bits()));
    assert_eq!(*machine.stack().get(2), Value::Number((-0.0f64).to_bits()));
    for value in [5.0f64, -0.25, 0.0, f64::INFINITY, f64::MIN_POSITIVE, 1e300] {
        assert_eq!(mussel_vm::vm::negate_number(value.to_bits()), (-value).to_bits());
    }
    assert!(f64::from_bits(mussel_vm::vm::negate_number(f64::NAN.to_bits())).is_nan());
}

#[test]
fn negate_of_a_string_faults() {
    let mut w = writer(vec![text("a")]);
    w.emit(OperationCode::Constant);
    w.emit(0u16);
    w.emit(OperationCode::Negate);
    let (machine, _, result) = run(&w.finish());
    assert_eq!(result, Err(Fault::TypeMismatch));
    assert_eq!(machine.stack().len(), 1);
    assert_eq!(machine.position(), 3);
}

#[test]
fn arithmetic_on_mixed_operands_faults() {
    for operation in [
        OperationCode::Add,
        OperationCode::Subtract,
        OperationCode::Multiply,
        OperationCode::Divide,
        OperationCode::Greater,
        OperationCode::Less,
    ] {
        let mut w = writer(vec![number(1.0), text("a")]);
        w.emit(OperationCode::Constant);
        w.emit(0u16);
        w.emit(OperationCode::Constant);
        w.emit(1u16);
        w.emit(operation);
        let (machine, _, result) = run(&w.finish());
        assert_eq!(result, Err(Fault::TypeMismatch));
        assert_eq!(machine.stack().len(), 2);
    }
}

#[test]
fn ordering_of_strings_faults() {
    let mut w = writer(vec![text("a"), text("b")]);
    w.emit(OperationCode::Constant);
    w.emit(0u16);
    w.emit(OperationCode::Constant);
    w.emit(1u16);
    w.emit(OperationCode::Less);
    let (_, _, result) = run(&w.finish());
    assert_eq!(result, Err(Fault::TypeMismatch));
}

#[test]
fn binary_operation_on_one_value_faults() {
    let mut w = writer(vec![]);
    w.emit(OperationCode::Nil);
    w.emit(OperationCode::Equal);
    let (_, _, result) = run(&w.finish());
    assert_eq!(result, Err(Fault::StackUnderflow));
}

#[test]
fn equality_of_the_language() {
    // (left, right, equal)
    let cases: Vec<(Vec<u8>, bool)> = vec![
        (vec![1, 1], true),   // nil == nil
        (vec![2, 2], true),   // true == true
        (vec![2, 3], false),  // true == false
        (vec![1, 3], false),  // nil == false
    ];
    for (codes, equal) in cases {
        let bytecode = Bytecode { code: vec![codes[0], codes[1], 11, 27], constants: Vec::new() };
        let (machine, _, result) = run_before_end(&bytecode);
        assert_eq!(result, Ok(()));
        assert_eq!(*machine.stack().top(), Value::Boolean(equal));
        assert_eq!(machine.stack().len(), 1);
    }
}

#[test]
fn equality_of_numbers_uses_the_epsilon() {
    let mut w = writer(vec![number(0.0), number(-0.0), number(0.5), number(0.5 + f64::EPSILON / 2.0)]);
    w.emit(OperationCode::Constant);
    w.emit(0u16);
    w.emit(OperationCode::Constant);
    w.emit(1u16);
    w.emit(OperationCode::Equal);
    w.emit(OperationCode::Return);
    let bytecode = w.finish();
    // 0.0 and -0.0 are one constant, and so are 0.5 and its neighbour.
    assert_eq!(bytecode.constants.len(), 2);
    let bytecode = Bytecode {
        code: vec![0, 0, 0, 0, 1, 0, 11, 0, 2, 0, 0, 2, 0, 11, 27],
        constants: vec![number(0.0), number(-0.0), number(f64::NAN)],
    };
    let (machine, _, result) = run_before_end(&bytecode);
    assert_eq!(result, Ok(()));
    assert_eq!(*machine.stack().get(0), Value::Boolean(true));
    assert_eq!(*machine.stack().get(1), Value::Boolean(false));
}

#[test]
fn equality_of_functions_is_by_position_and_arity() {
    let mut w = writer(vec![]);
    w.emit(OperationCode::Fun);
    w.emit(7u16);
    w.emit(1u8);
    w.emit(OperationCode::Fun);
    w.emit(7u16);
    w.emit(1u8);
    w.emit(OperationCode::Equal);
    w.emit(OperationCode::Fun);
    w.emit(7u16);
    w.emit(1u8);
    w.emit(OperationCode::Fun);
    w.emit(7u16);
    w.emit(2u8);
    w.emit(OperationCode::Equal);
    w.emit(OperationCode::Closure);
    w.emit(7u16);
    w.emit(1u8);
    w.emit(OperationCode::Closure);
    w.emit(7u16);
    w.emit(1u8);
    w.emit(OperationCode::Equal);
    w.emit(OperationCode::Return);
    let (machine, _, result) = run_before_end(&w.finish());
    assert_eq!(result, Ok(()));
    assert_eq!(*machine.stack().get(0), Value::Boolean(true));
    assert_eq!(*machine.stack().get(1), Value::Boolean(false));
    assert_eq!(*machine.stack().get(2), Value::Boolean(false));
}

#[test]
fn print_formats() {
    let mut w = writer(vec![number(1.5), text("raw \u{e9}")]);
    w.emit(OperationCode::Nil);
    w.emit(OperationCode::Print);
    w.emit(OperationCode::True);
    w.emit(OperationCode::Print);
    w.emit(OperationCode::False);
    w.emit(OperationCode::Print);
    w.emit(OperationCode::Constant);
    w.emit(0u16);
    w.emit(OperationCode::Print);
    w.emit(OperationCode::Constant);
    w.emit(1u16);
    w.emit(OperationCode::Print);
    w.emit(OperationCode::Fun);
    w.emit(0x23u16);
    w.emit(2u8);
    w.emit(OperationCode::Print);
    w.emit(OperationCode::Closure);
    w.emit(0xBEEFu16);
    w.emit(255u8);
    w.emit(OperationCode::Print);
    w.emit(OperationCode::Return);
    let (machine, lines, result) = run(&w.finish());
    assert_eq!(result, Ok(()));
    assert_eq!(
        lines,
        vec![
            "nil".to_string(),
            "true".to_string(),
            "false".to_string(),
            "1.5".to_string(),
            "raw \u{e9}".to_string(),
            "<fun position=0x0023 arity=2>".to_string(),
            "<fun position=0xBEEF arity=255>".to_string(),
        ]
    );
    assert_eq!(machine.stack().len(), 0);
}

#[test]
fn print_of_nothing_faults() {
    let bytecode = Bytecode { code: vec![28], constants: Vec::new() };
    let (_, lines, result) = run(&bytecode);
    assert_eq!(result, Err(Fault::StackUnderflow));
    assert!(lines.is_empty());
}

#[test]
fn unknown_operation_code_faults() {
    let bytecode = Bytecode { code: vec![1, 29], constants: Vec::new() };
    let (machine, _, result) = run(&bytecode);
    assert_eq!(result, Err(Fault::UnknownOperationCode(29)));
    assert_eq!(machine.position(), 1);
    assert_eq!(machine.stack().len(), 1);
}

#[test]
fn end_of_code_faults() {
    let (_, _, result) = run(&Bytecode { code: vec![], constants: Vec::new() });
    assert_eq!(result, Err(Fault::EndOfCode));
    let (_, _, result) = run(&Bytecode { code: vec![1], constants: Vec::new() });
    assert_eq!(result, Err(Fault::EndOfCode));
    // a constant index of which one byte is missing
    let (machine, _, result) = run(&Bytecode { code: vec![0, 0], constants: vec![number(1.0)] });
    assert_eq!(result, Err(Fault::EndOfCode));
    assert_eq!(machine.position(), 0);
}

#[test]
fn constant_out_of_range_faults() {
    let (_, _, result) = run(&Bytecode { code: vec![0, 1, 0], constants: vec![number(1.0)] });
    assert_eq!(result, Err(Fault::ConstantOutOfRange));
}

#[test]
fn invoke_of_a_number_faults() {
    let (machine, _, result) = run(&Bytecode { code: vec![0, 0, 0, 26], constants: vec![number(1.0)] });
    assert_eq!(result, Err(Fault::NotCallable));
    assert_eq!(machine.stack().len(), 1);
}

#[test]
fn invoke_of_a_function_pointer() {
    let mut w = writer(vec![number(2.0), number(3.0)]);
    w.emit(OperationCode::Constant);
    w.emit(0u16);
    w.emit(OperationCode::Constant);
    w.emit(1u16);
    w.emit(OperationCode::Fun);
    w.emit(13u16);
    w.emit(2u8);
    w.emit(OperationCode::Invoke);
    w.emit(OperationCode::Print);
    w.emit(OperationCode::Return);
    w.emit(OperationCode::GetLocal);
    w.emit(0u8);
    w.emit(OperationCode::GetLocal);
    w.emit(1u8);
    w.emit(OperationCode::Multiply);
    w.emit(OperationCode::Return);
    let (machine, lines, result) = run(&w.finish());
    assert_eq!(result, Ok(()));
    assert_eq!(lines, vec!["6".to_string()]);
    assert_eq!(machine.closure(), None);
}

#[test]
fn call_with_missing_arguments_faults() {
    let mut w = writer(vec![]);
    w.emit(OperationCode::Nil);
    w.emit(OperationCode::Call);
    w.emit(0u16);
    w.emit(2u8);
    let (machine, _, result) = run(&w.finish());
    assert_eq!(result, Err(Fault::MissingArguments));
    assert_eq!(machine.depth(), 0);
    let mut w = writer(vec![]);
    w.emit(OperationCode::Fun);
    w.emit(0u16);
    w.emit(1u8);
    w.emit(OperationCode::Invoke);
    let (machine, _, result) = run(&w.finish());
    assert_eq!(result, Err(Fault::MissingArguments));
    assert_eq!(machine.stack().len(), 1);
}

#[test]
fn capture_without_a_closure_faults() {
    let mut w = writer(vec![]);
    w.emit(OperationCode::Nil);
    w.emit(OperationCode::Capture);
    w.emit(0u8);
    let (_, _, result) = run(&w.finish());
    assert_eq!(result, Err(Fault::NoClosureOnTop));
}

#[test]
fn upvalue_access_outside_a_closure_faults() {
    let (_, _, result) = run(&Bytecode { code: vec![21, 0], constants: Vec::new() });
    assert_eq!(result, Err(Fault::NoActiveClosure));
    let (_, _, result) = run(&Bytecode { code: vec![1, 22, 0], constants: Vec::new() });
    assert_eq!(result, Err(Fault::NoActiveClosure));
}

#[test]
fn upvalue_out_of_range_faults() {
    let mut w = writer(vec![]);
    w.emit(OperationCode::Closure);
    w.emit(5u16);
    w.emit(0u8);
    w.emit(OperationCode::Invoke);
    w.emit(OperationCode::GetUpvalue);
    w.emit(0u8);
    let (machine, _, result) = run(&w.finish());
    assert_eq!(result, Err(Fault::UpvalueOutOfRange));
    assert!(machine.closure().is_some());
}

#[test]
fn local_out_of_range_faults() {
    let (_, _, result) = run(&Bytecode { code: vec![16, 0], constants: Vec::new() });
    assert_eq!(result, Err(Fault::LocalOutOfRange));
    let (_, _, result) = run(&Bytecode { code: vec![1, 17, 1], constants: Vec::new() });
    assert_eq!(result, Err(Fault::LocalOutOfRange));
    let (_, _, result) = run(&Bytecode { code: vec![1, 16, 255], constants: Vec::new() });
    assert_eq!(result, Err(Fault::LocalOutOfRange));
}

#[test]
fn unfit_answer_faults() {
    let mut w = writer(vec![number(1.0), number(2.0)]);
    w.emit(OperationCode::Constant);
    w.emit(0u16);
    w.emit(OperationCode::Constant);
    w.emit(1u16);
    w.emit(OperationCode::Add);
    w.emit(OperationCode::Return);
    let bytecode = w.finish();
    let mut machine = VirtualMachine::new();
    match machine.interpret(&bytecode, None, 10) {
        Ok(Signal::Compute(operation)) => {
            assert_eq!(
                operation,
                Operation { operator: Operator::Add, left: 1.0f64.to_bits(), right: 2.0f64.to_bits() }
            );
        }
        other => panic!("unexpected {:?}", other),
    }
    assert_eq!(machine.position(), 6);
    assert_eq!(machine.stack().len(), 2);
    assert_eq!(machine.step(&bytecode, Some(Answer::Boolean(true))).err(), Some(Fault::UnfitAnswer));
    assert_eq!(machine.stack().len(), 2);
    assert!(matches!(
        machine.step(&bytecode, Some(Answer::Number(3.0f64.to_bits()))),
        Ok(Signal::Running)
    ));
    assert_eq!(machine.position(), 7);
    assert_eq!(machine.stack().len(), 1);
    assert_eq!(*machine.stack().top(), Value::Number(3.0f64.to_bits()));
}

#[test]
fn budget_limits_a_run() {
    let mut w = writer(vec![]);
    w.emit(OperationCode::Jump);
    w.emit(-3i16);
    let bytecode = w.finish();
    let mut machine = VirtualMachine::new();
    assert!(matches!(machine.interpret(&bytecode, None, 1000), Ok(Signal::Running)));
    assert_eq!(machine.position(), 0);
    assert!(matches!(machine.interpret(&bytecode, None, 0), Ok(Signal::Running)));
}

#[test]
fn set_local_and_get_local() {
    let mut w = writer(vec![]);
    w.emit(OperationCode::Nil);
    w.emit(OperationCode::True);
    w.emit(OperationCode::SetLocal);
    w.emit(0u8);
    w.emit(OperationCode::GetLocal);
    w.emit(0u8);
    w.emit(OperationCode::Return);
    let (machine, _, result) = run_before_end(&w.finish());
    assert_eq!(result, Ok(()));
    assert_eq!(machine.stack().len(), 3);
    for index in 0..3 {
        assert_eq!(*machine.stack().get(index), Value::Boolean(true));
    }
}

#[test]
fn captured_local_and_upvalue_share_one_cell() {
    // local 0 = nil; closure captures it; the local is assigned true; the
    // closure, invoked, reads true through its upvalue, assigns false, and
    // the local reads false afterwards.
    let mut w = writer(vec![]);
    w.emit(OperationCode::Nil); // 0
    w.emit(OperationCode::Closure); // 1
    w.emit(17u16);
    w.emit(0u8);
    w.emit(OperationCode::Capture); // 5
    w.emit(0u8);
    w.emit(OperationCode::True); // 7
    w.emit(OperationCode::SetLocal); // 8
    w.emit(0u8);
    w.emit(OperationCode::Pop); // 10
    w.emit(OperationCode::Invoke); // 11
    w.emit(OperationCode::Print); // 12
    w.emit(OperationCode::GetLocal); // 13
    w.emit(0u8);
    w.emit(OperationCode::Print); // 15
    w.emit(OperationCode::Return); // 16
    w.emit(OperationCode::GetUpvalue); // 17
    w.emit(0u8);
    w.emit(OperationCode::False); // 19
    w.emit(OperationCode::SetUpvalue); // 20
    w.emit(0u8);
    w.emit(OperationCode::Pop); // 22
    w.emit(OperationCode::Return); // 23
    let (machine, lines, result) = run_before_end(&w.finish());
    assert_eq!(result, Ok(()));
    assert_eq!(lines, vec!["true".to_string(), "false".to_string()]);
    assert_eq!(machine.stack().len(), 1);
    assert!(matches!(*machine.stack().get(0), Value::Upvalue(_)));
}

#[test]
fn two_captures_of_one_local_share_its_cell() {
    let mut w = writer(vec![]);
    w.emit(OperationCode::Nil);
    w.emit(OperationCode::Closure);
    w.emit(0u16);
    w.emit(0u8);
    w.emit(OperationCode::Capture);
    w.emit(0u8);
    w.emit(OperationCode::Closure);
    w.emit(0u16);
    w.emit(0u8);
    w.emit(OperationCode::Capture);
    w.emit(0u8);
    w.emit(OperationCode::Return);
    let (machine, _, result) = run(&w.finish());
    assert_eq!(result, Ok(()));
    // two closures and one cell
    assert_eq!(machine.heap().len(), 3);
}

#[test]
fn reset_keeps_the_heap() {
    let mut w = writer(vec![text("kept")]);
    w.emit(OperationCode::Constant);
    w.emit(0u16);
    w.emit(OperationCode::SetGlobal);
    w.emit(7u8);
    w.emit(OperationCode::Return);
    let bytecode = w.finish();
    let (mut machine, _, result) = run(&bytecode);
    assert_eq!(result, Ok(()));
    assert!(matches!(machine.global(7), Value::String(_)));
    machine.reset();
    assert_eq!(machine.stack().len(), 0);
    assert_eq!(machine.position(), 0);
    assert_eq!(machine.frame(), 0);
    assert_eq!(machine.depth(), 0);
    assert_eq!(machine.global(7), Value::Nil);
    assert_eq!(machine.heap().len(), 1);
    let (_, result) = run_on(&mut machine, &bytecode);
    assert_eq!(result, Ok(()));
    assert_eq!(machine.heap().len(), 1);
}

#[test]
fn new_machine_is_empty() {
    let machine = VirtualMachine::new();
    assert_eq!(machine.stack().len(), 0);
    assert_eq!(machine.heap().len(), 0);
    assert_eq!(machine.position(), 0);
    for index in 0..=255u8 {
        assert_eq!(machine.global(index), Value::Nil);
    }
}

#[test]
fn call_and_matching_return_keep_what_lies_below() {
    // main: nil, 10, 20, 30; call f with two arguments; f computes on its
    // own frame, calls g, and returns the product of its arguments.
    let mut w = writer(vec![number(10.0), number(20.0), number(30.0)]);
    w.emit(OperationCode::Nil); // 0
    w.emit(OperationCode::Constant); // 1
    w.emit(0u16);
    w.emit(OperationCode::Constant); // 4
    w.emit(1u16);
    w.emit(OperationCode::Constant); // 7
    w.emit(2u16);
    w.emit(OperationCode::Call); // 10
    w.emit(15u16);
    w.emit(2u8);
    w.emit(OperationCode::Return); // 14
    // f, at 15
    w.emit(OperationCode::True); // 15
    w.emit(OperationCode::Pop); // 16
    w.emit(OperationCode::GetLocal); // 17
    w.emit(0u8);
    w.emit(OperationCode::Call); // 19
    w.emit(29u16);
    w.emit(1u8);
    w.emit(OperationCode::GetLocal); // 23
    w.emit(1u8);
    w.emit(OperationCode::Multiply); // 25
    w.emit(OperationCode::SetLocal); // 26
    w.emit(1u8);
    w.emit(OperationCode::Return); // 28
    // g, at 29
    w.emit(OperationCode::GetLocal); // 29
    w.emit(0u8);
    w.emit(OperationCode::Negate); // 31
    w.emit(OperationCode::Return); // 32
    let bytecode = w.finish();
    let mut machine = VirtualMachine::new();
    let mut answer = None;
    while machine.position() != 10 {
        assert!(matches!(machine.step(&bytecode, answer.take()), Ok(Signal::Running)));
    }
    let (frame, closure, depth) = (machine.frame(), machine.closure(), machine.depth());
    assert_eq!(machine.stack().len(), 4);
    loop {
        match machine.step(&bytecode, answer.take()) {
            Ok(Signal::Running) => {}
            Ok(Signal::Compute(operation)) => answer = Some(compute(operation)),
            other => panic!("unexpected {:?}", other),
        }
        if machine.depth() == depth && answer.is_none() {
            break;
        }
    }
    assert_eq!(machine.position(), 14);
    assert_eq!(machine.frame(), frame);
    assert_eq!(machine.closure(), closure);
    assert_eq!(machine.stack().len(), 4 - 2 + 1);
    assert_eq!(*machine.stack().top(), Value::Number((-600.0f64).to_bits()));
    assert_eq!(*machine.stack().get(0), Value::Nil);
    assert_eq!(*machine.stack().get(1), Value::Number(10.0f64.to_bits()));
}

#[test]
fn reads_of_a_shared_cell_see_the_last_write() {
    // local 0 is captured; it is then written through the local, through
    // the upvalue, and through the local again, and read through both.
    let mut w = writer(vec![number(1.0), number(2.0), number(3.0)]);
    w.emit(OperationCode::Nil); // 0: local 0
    w.emit(OperationCode::Closure); // 1
    w.emit(27u16);
    w.emit(0u8);
    w.emit(OperationCode::Capture); // 5
    w.emit(0u8);
    w.emit(OperationCode::SetGlobal); // 7
    w.emit(0u8);
    w.emit(OperationCode::Pop); // 9
    w.emit(OperationCode::Constant); // 10: write 1 through the local
    w.emit(0u16);
    w.emit(OperationCode::SetLocal); // 13
    w.emit(0u8);
    w.emit(OperationCode::Pop); // 15
    w.emit(OperationCode::GetGlobal); // 16: the closure writes 2, reads it
    w.emit(0u8);
    w.emit(OperationCode::Invoke); // 18
    w.emit(OperationCode::Print); // 19
    w.emit(OperationCode::GetLocal); // 20: the local reads 2
    w.emit(0u8);
    w.emit(OperationCode::Print); // 22
    w.emit(OperationCode::Jump); // 23
    w.emit(13i16);
    w.emit(OperationCode::Return); // 26
    // the closure, at 27
    w.emit(OperationCode::GetUpvalue); // 27: reads what the local wrote
    w.emit(0u8);
    w.emit(OperationCode::Print); // 29
    w.emit(OperationCode::Constant); // 30
    w.emit(1u16);
    w.emit(OperationCode::SetUpvalue); // 33
    w.emit(0u8);
    w.emit(OperationCode::Pop); // 35
    w.emit(OperationCode::GetUpvalue); // 36
    w.emit(0u8);
    w.emit(OperationCode::Return); // 38
    // main again, at 39: write 3 through the local, read through both
    w.emit(OperationCode::Constant); // 39
    w.emit(2u16);
    w.emit(OperationCode::SetLocal); // 42
    w.emit(0u8);
    w.emit(OperationCode::Pop); // 44
    w.emit(OperationCode::GetLocal); // 45
    w.emit(0u8);
    w.emit(OperationCode::Print); // 47
    w.emit(OperationCode::GetGlobal); // 48
    w.emit(0u8);
    w.emit(OperationCode::Invoke); // 50
    w.emit(OperationCode::Pop); // 51
    w.emit(OperationCode::Return); // 52
    let bytecode = w.finish();
    assert_eq!(bytecode.code.len(), 53);
    let (_, lines, result) = run(&bytecode);
    assert_eq!(result, Ok(()));
    assert_eq!(lines, vec!["1", "2", "2", "3", "3"]);
}
