use zvm::parser::attribute_info::AttributeInfo;
use zvm::parser::class_file::ClassFile;
use zvm::parser::constant_pool_info::CpInfo;
use zvm::parser::method_info::MethodInfo;
use zvm::parser::opcode::Opcode;
use zvm::vm::call_stack::{CallStack, VmEvent};
use zvm::vm::completion::{FloatOp, FloatRequest, InstructionCompleted};
use zvm::vm::error::VmError;
use zvm::vm::instruction_exec::InstructionExecutor;
use zvm::vm::runtime::RuntimeDataArea;
use zvm::vm::stack_frame::Frame;
use zvm::vm::value::Value;
use zvm::vm::vm::Vm;

fn utf8(text: &str) -> CpInfo {
    CpInfo::Utf8 { length: text.len() as u16, bytes: text.as_bytes().to_vec() }
}

// Indices of the constant pool that `program` builds.
const SYSTEM_OUT: u8 = 6;
const HELLO: u8 = 8;
const PRINTLN_STRING: u8 = 14;
const SUM: u8 = 21;
const FIELD_X: u8 = 25;
const PRINTLN_INT: u8 = 29;
const BIG_LONG: u8 = 30;
const PAIR: u8 = 36;
const MISSING: u8 = 39;
const BROKEN: u8 = 42;
const OTHER_CLASS_METHOD: u8 = 46;
const HALF: u8 = 47;
const ADD_HALF: u8 = 51;

fn pool() -> Vec<CpInfo> {
    vec![
        CpInfo::Empty,
        utf8("java/lang/System"),
        CpInfo::Class { name_index: 1 },
        utf8("out"),
        utf8("Ljava/io/PrintStream;"),
        CpInfo::NameAndType { name_index: 3, descriptor_index: 4 },
        CpInfo::Fieldref { class_index: 2, name_and_type_index: 5 },
        utf8("hello"),
        CpInfo::String { string_index: 7 },
        utf8("java/io/PrintStream"),
        CpInfo::Class { name_index: 9 },
        utf8("println"),
        utf8("(Ljava/lang/String;)V"),
        CpInfo::NameAndType { name_index: 11, descriptor_index: 12 },
        CpInfo::Methodref { class_index: 10, name_and_type_index: 13 },
        utf8("main"),
        utf8("Main"),
        CpInfo::Class { name_index: 16 },
        utf8("sum"),
        utf8("(I)I"),
        CpInfo::NameAndType { name_index: 18, descriptor_index: 19 },
        CpInfo::Methodref { class_index: 17, name_and_type_index: 20 },
        utf8("x"),
        utf8("I"),
        CpInfo::NameAndType { name_index: 22, descriptor_index: 23 },
        CpInfo::Fieldref { class_index: 17, name_and_type_index: 24 },
        utf8("<clinit>"),
        utf8("(I)V"),
        CpInfo::NameAndType { name_index: 11, descriptor_index: 27 },
        CpInfo::Methodref { class_index: 10, name_and_type_index: 28 },
        CpInfo::Long { high_bytes: 0x0123_4567, low_bytes: 0x89AB_CDEF },
        CpInfo::Empty,
        utf8("()V"),
        utf8("pair"),
        utf8("(JI)I"),
        CpInfo::NameAndType { name_index: 33, descriptor_index: 34 },
        CpInfo::Methodref { class_index: 17, name_and_type_index: 35 },
        utf8("missing"),
        CpInfo::NameAndType { name_index: 37, descriptor_index: 19 },
        CpInfo::Methodref { class_index: 17, name_and_type_index: 38 },
        utf8("broken"),
        CpInfo::NameAndType { name_index: 40, descriptor_index: 32 },
        CpInfo::Methodref { class_index: 17, name_and_type_index: 41 },
        utf8("java/lang/Object"),
        CpInfo::Class { name_index: 43 },
        CpInfo::NameAndType { name_index: 11, descriptor_index: 32 },
        CpInfo::Methodref { class_index: 44, name_and_type_index: 45 },
        CpInfo::Float { bytes: 0x3F00_0000 },
        utf8("addHalf"),
        utf8("(F)F"),
        CpInfo::NameAndType { name_index: 48, descriptor_index: 49 },
        CpInfo::Methodref { class_index: 17, name_and_type_index: 50 },
    ]
}

fn code_attribute(max_stack: u16, max_locals: u16, code: &[u8]) -> AttributeInfo {
    let mut info = Vec::new();
    info.extend_from_slice(&max_stack.to_be_bytes());
    info.extend_from_slice(&max_locals.to_be_bytes());
    info.extend_from_slice(&(code.len() as u32).to_be_bytes());
    info.extend_from_slice(code);
    // An empty exception table and no attributes, which the machine ignores.
    info.extend_from_slice(&[0, 0, 0, 0]);
    AttributeInfo { attribute_name_index: 0, attribute_length: info.len() as u32, info }
}

fn method(name_index: u16, descriptor_index: u16, max_locals: u16, code: &[u8]) -> MethodInfo {
    MethodInfo {
        access_flags: 0x0009,
        name_index,
        descriptor_index,
        attributes_count: 1,
        attributes: vec![code_attribute(4, max_locals, code)],
    }
}

// static int sum(int n) { int s = 0; for (int i = 1; i <= n; i++) s += i; return s; }
// The jump back to the loop head is a branch that is always taken.
fn sum_code() -> Vec<u8> {
    vec![
        0x03, // 0: iconst_0
        0x3C, // 1: istore_1
        0x04, // 2: iconst_1
        0x3D, // 3: istore_2
        0x1C, // 4: iload_2
        0x1A, // 5: iload_0
        0xA3, 0x00, 0x0E, // 6: if_icmpgt 20
        0x1B, // 9: iload_1
        0x1C, // 10: iload_2
        0x60, // 11: iadd
        0x3C, // 12: istore_1
        0x84, 0x02, 0x01, // 13: iinc 2 1
        0x03, // 16: iconst_0
        0x99, 0xFF, 0xF3, // 17: ifeq 4
        0x1B, // 20: iload_1
        0xAC, // 21: ireturn
    ]
}

fn program(main: &[u8], clinit: Option<&[u8]>) -> ClassFile {
    let mut class_file = ClassFile::new();
    class_file.constant_pool = pool();
    class_file.constant_pool_count = class_file.constant_pool.len() as u16;
    class_file.methods.push(method(15, 32, 2, main));
    class_file.methods.push(method(18, 19, 3, &sum_code()));
    // static int pair(long a, int b) { return b; }
    class_file.methods.push(method(33, 34, 3, &[0x1C, 0xAC]));
    // A method whose first attribute is too short to hold code.
    class_file.methods.push(MethodInfo {
        access_flags: 0x0009,
        name_index: 40,
        descriptor_index: 32,
        attributes_count: 1,
        attributes: vec![AttributeInfo {
            attribute_name_index: 0,
            attribute_length: 3,
            info: vec![0, 1, 0],
        }],
    });
    // static float addHalf(float f) { return f + 0.5f; }
    class_file.methods.push(method(48, 49, 1, &[0x22, 0x12, HALF, 0x62, 0xAE]));
    if let Some(code) = clinit {
        class_file.methods.push(method(26, 32, 0, code));
    }
    class_file.methods_count = class_file.methods.len() as u16;
    class_file
}

fn render(value: &Value) -> String {
    if let Some(text) = value.text() {
        return text;
    }
    match value {
        Value::Float(bits) => format!("{}", f32::from_bits(*bits)),
        Value::Double(bits) => format!("{}", f64::from_bits(*bits)),
        other => format!("{:?}", other),
    }
}

fn answer(request: FloatRequest) -> Value {
    fn apply32(op: FloatOp, a: f32, b: f32) -> f32 {
        match op {
            FloatOp::Add => a + b,
            FloatOp::Sub => a - b,
            FloatOp::Mul => a * b,
            FloatOp::Div => a / b,
            FloatOp::Rem => a % b,
        }
    }
    fn apply64(op: FloatOp, a: f64, b: f64) -> f64 {
        match op {
            FloatOp::Add => a + b,
            FloatOp::Sub => a - b,
            FloatOp::Mul => a * b,
            FloatOp::Div => a / b,
            FloatOp::Rem => a % b,
        }
    }
    match request {
        FloatRequest::Binary32 { op, left, right } => {
            Value::Float(apply32(op, f32::from_bits(left), f32::from_bits(right)).to_bits())
        }
        FloatRequest::Binary64 { op, left, right } => {
            Value::Double(apply64(op, f64::from_bits(left), f64::from_bits(right)).to_bits())
        }
        FloatRequest::IntToFloat(v) => Value::Float((v as f32).to_bits()),
        FloatRequest::IntToDouble(v) => Value::Double((v as f64).to_bits()),
        FloatRequest::LongToFloat(v) => Value::Float((v as f32).to_bits()),
        FloatRequest::LongToDouble(v) => Value::Double((v as f64).to_bits()),
        FloatRequest::FloatToDouble(bits) => Value::Double((f32::from_bits(bits) as f64).to_bits()),
        FloatRequest::DoubleToFloat(bits) => Value::Float((f64::from_bits(bits) as f32).to_bits()),
    }
}

/// Runs the machine to the end, as an embedding program does, and returns
/// the lines it printed.
fn drive(vm: &mut Vm, first: Result<VmEvent, VmError>) -> Result<Vec<String>, VmError> {
    let mut lines = Vec::new();
    let mut event = first?;
    for _ in 0..10_000 {
        match event {
            VmEvent::Finished => return Ok(lines),
            VmEvent::Running => {}
            VmEvent::PrintLine(value) => lines.push(render(&value)),
            VmEvent::FloatArithmetic(request) => vm.push_operand(answer(request)),
        }
        event = vm.resume(1000)?;
    }
    panic!("the program did not end");
}

fn run_program(class_file: ClassFile) -> (Vm, Result<Vec<String>, VmError>) {
    let mut vm = Vm::new();
    let first = vm.run(class_file, vec![], 1000);
    let lines = drive(&mut vm, first);
    (vm, lines)
}

fn stack_of(frame: &Frame) -> Vec<Value> {
    let mut out = Vec::new();
    let mut i = 0;
    while let Some(value) = frame.operand_stack.peek_at(i) {
        out.push(value.clone());
        i += 1;
    }
    out
}

#[test]
fn hello_world() {
    let main =
        [0xB2, 0x00, SYSTEM_OUT, 0x12, HELLO, 0xB6, 0x00, PRINTLN_STRING, 0xB1];
    let (vm, lines) = run_program(program(&main, None));
    assert_eq!(lines, Ok(vec!["hello".to_string()]));
    assert!(vm.call_stack().is_empty());
    assert_eq!(vm.call_stack().size(), 0);
}

#[test]
fn hello_world_stack_is_empty_before_return() {
    let main =
        [0xB2, 0x00, SYSTEM_OUT, 0x12, HELLO, 0xB6, 0x00, PRINTLN_STRING, 0xB1];
    let mut vm = Vm::new();
    let event = vm.run(program(&main, None), vec![], 1000);
    assert_eq!(event, Ok(VmEvent::PrintLine(Value::Reference("hello".to_string()))));
    let frame = vm.call_stack().current_frame_ref().unwrap();
    assert_eq!(stack_of(frame), vec![]);
    assert_eq!(frame.pc, 8);
    assert_eq!(vm.resume(1000), Ok(VmEvent::Finished));
    assert!(vm.call_stack().is_empty());
}

#[test]
fn integer_loop_sum() {
    let main = [
        0xB2, 0x00, SYSTEM_OUT, 0x08, 0xB8, 0x00, SUM, 0xB6, 0x00, PRINTLN_INT, 0xB1,
    ];
    let (vm, lines) = run_program(program(&main, None));
    assert_eq!(lines, Ok(vec!["15".to_string()]));
    assert!(vm.call_stack().is_empty());
}

#[test]
fn integer_loop_sum_returns_fifteen() {
    let class_file = program(&[0xB1], None);
    let mut runtime = RuntimeDataArea::new();
    let below = CallStack::new(None);
    let mut frame =
        Frame::with_arguments("sum".to_string(), 3, sum_code(), &vec![Value::Int(5)]).unwrap();
    let result = frame.execute_frame(&class_file, &mut runtime, &below, 1000);
    assert_eq!(result, Ok(InstructionCompleted::ReturnFromMethod(Some(Value::Int(15)))));
    assert_eq!(frame.local_variables.get(2), Some(&Value::Int(6)));
}

#[test]
fn long_arithmetic_round_trip() {
    let class_file = program(&[0xB1], None);
    let mut runtime = RuntimeDataArea::new();
    let below = CallStack::new(None);
    let mut frame =
        Frame::new(Some("test".to_string()), 0, vec![0x14, 0x00, BIG_LONG, 0x75, 0x75, 0xAD]);
    let result = frame.execute_frame(&class_file, &mut runtime, &below, 1000);
    assert_eq!(
        result,
        Ok(InstructionCompleted::ReturnFromMethod(Some(Value::Long(0x0123_4567_89AB_CDEF))))
    );
    assert_eq!(stack_of(&frame), vec![]);
}

#[test]
fn sipush_pushes_minus_one() {
    let class_file = program(&[0xB1], None);
    let mut runtime = RuntimeDataArea::new();
    let below = CallStack::new(None);
    let mut frame = Frame::new(Some("test".to_string()), 0, vec![0x11, 0xFF, 0xFF, 0xAC]);
    let result = frame.execute_frame(&class_file, &mut runtime, &below, 1000);
    assert_eq!(result, Ok(InstructionCompleted::ReturnFromMethod(Some(Value::Int(-1)))));
}

#[test]
fn static_field_round_trip() {
    let clinit = [0x10, 42, 0xB3, 0x00, FIELD_X, 0xB1];
    let main = [
        0xB2, 0x00, SYSTEM_OUT, 0xB2, 0x00, FIELD_X, 0xB6, 0x00, PRINTLN_INT, 0xB1,
    ];
    let (vm, lines) = run_program(program(&main, Some(&clinit)));
    assert_eq!(lines, Ok(vec!["42".to_string()]));
    assert_eq!(vm.runtime_data().get("Main.x"), Some(&Value::Int(42)));
    assert_eq!(vm.runtime_data().get("Main.y"), None);
    assert!(vm.call_stack().is_empty());
}

#[test]
fn static_field_round_trip_in_one_method() {
    let main = [
        0x10, 42, 0xB3, 0x00, FIELD_X, 0xB2, 0x00, SYSTEM_OUT, 0xB2, 0x00, FIELD_X, 0xB6, 0x00,
        PRINTLN_INT, 0xB1,
    ];
    let (_, lines) = run_program(program(&main, None));
    assert_eq!(lines, Ok(vec!["42".to_string()]));
}

#[test]
fn the_class_initializer_is_pushed_on_top_of_main() {
    let clinit = [0xB1];
    let main = [0xB1];
    let mut vm = Vm::new();
    vm.init_class_file(program(&main, Some(&clinit)));
    assert_eq!(vm.execute_main(vec![]), Ok(true));
    assert_eq!(vm.call_stack().current_method_name(), Some("main"));
    assert_eq!(vm.execute_clinit(), Ok(true));
    assert_eq!(vm.call_stack().size(), 2);
    assert_eq!(vm.call_stack().current_method_name(), Some("<clinit>"));
    assert_eq!(vm.call_stack().frames[0].method_name, Some("main".to_string()));
    assert_eq!(vm.resume(1), Ok(VmEvent::Running));
    assert_eq!(vm.call_stack().current_method_name(), Some("main"));
    assert_eq!(vm.resume(1), Ok(VmEvent::Finished));
}

#[test]
fn a_class_without_initializer_gets_no_frame_for_it() {
    let mut vm = Vm::new();
    vm.init_class_file(program(&[0xB1], None));
    assert_eq!(vm.execute_clinit(), Ok(false));
    assert_eq!(vm.call_stack().size(), 0);
    let mut vm = Vm::new();
    assert_eq!(vm.execute_main(vec![]), Ok(false));
    assert_eq!(vm.run(ClassFile::new(), vec![], 10), Ok(VmEvent::Finished));
}

#[test]
fn branch_back_edge() {
    let code = vec![
        0x10, 0x00, // 0: bipush 0
        0x3B, // 2: istore_0
        0x1A, // 3: iload_0
        0x10, 0x03, // 4: bipush 3
        0xA2, 0x00, 0x0B, // 6: if_icmpge 17
        0x84, 0x00, 0x01, // 9: iinc 0 1
        0x03, // 12: iconst_0
        0x99, 0xFF, 0xF6, // 13: ifeq 3
        0xB1, // 16: return
        0xB1, // 17: return
    ];
    let class_file = program(&[0xB1], None);
    let mut runtime = RuntimeDataArea::new();
    let below = CallStack::new(None);
    let mut frame = Frame::new(Some("loop".to_string()), 1, code);
    let result = frame.execute_frame(&class_file, &mut runtime, &below, 1000);
    assert_eq!(result, Ok(InstructionCompleted::ReturnFromMethod(None)));
    assert_eq!(frame.local_variables.get(0), Some(&Value::Int(3)));
    assert_eq!(frame.pc, 17);
}

#[test]
fn branch_back_edge_takes_three_rounds() {
    let code = vec![
        0x10, 0x00, 0x3B, 0x1A, 0x10, 0x03, 0xA2, 0x00, 0x0B, 0x84, 0x00, 0x01, 0x03, 0x99, 0xFF,
        0xF6, 0xB1, 0xB1,
    ];
    let class_file = program(&[0xB1], None);
    let mut runtime = RuntimeDataArea::new();
    let below = CallStack::new(None);
    let mut frame = Frame::new(Some("loop".to_string()), 1, code);
    let executor = InstructionExecutor::new();
    let mut increments = 0;
    loop {
        let opcode = Opcode::from(frame.bytecode[frame.pc]).unwrap();
        if opcode == Opcode::Iinc {
            increments += 1;
        }
        match executor.execute_instruction(opcode, &mut frame, &class_file, &mut runtime, &below)
        {
            Ok(InstructionCompleted::ContinueMethodExecution) => {}
            Ok(InstructionCompleted::ReturnFromMethod(None)) => break,
            other => panic!("unexpected {:?}", other),
        }
    }
    assert_eq!(increments, 3);
}

#[test]
fn wide_arguments_take_two_slots() {
    let mut stack = CallStack::new(None);
    let pushed = stack.push_frame(
        "pair".to_string(),
        vec![0xB1],
        3,
        vec![Value::Long(1 << 40), Value::Int(7)],
    );
    assert_eq!(pushed, Ok(()));
    let frame = stack.current_frame_ref().unwrap();
    assert_eq!(frame.local_variables.get(0), Some(&Value::Long(1 << 40)));
    assert_eq!(frame.local_variables.get(1), Some(&Value::Long(1 << 40)));
    assert_eq!(frame.local_variables.get(2), Some(&Value::Int(7)));
    assert_eq!(frame.pc, 0);
    assert_eq!(stack_of(frame), vec![]);
    assert_eq!(frame.method_name, Some("pair".to_string()));
}

#[test]
fn arguments_are_placed_in_order() {
    let args = vec![
        Value::Int(1),
        Value::Double(2),
        Value::Reference("three".to_string()),
        Value::Long(4),
        Value::Float(5),
    ];
    let frame = Frame::with_arguments("m".to_string(), 9, vec![], &args).unwrap();
    let expected = [
        Some(Value::Int(1)),
        Some(Value::Double(2)),
        Some(Value::Double(2)),
        Some(Value::Reference("three".to_string())),
        Some(Value::Long(4)),
        Some(Value::Long(4)),
        Some(Value::Float(5)),
        None,
        None,
    ];
    for (slot, value) in expected.iter().enumerate() {
        assert_eq!(frame.local_variables.get(slot), value.as_ref());
    }
}

#[test]
fn arguments_past_the_last_slot_are_left_out() {
    let args = vec![Value::Int(1), Value::Int(2), Value::Int(3)];
    let frame = Frame::with_arguments("m".to_string(), 2, vec![], &args).unwrap();
    assert_eq!(frame.local_variables.get(0), Some(&Value::Int(1)));
    assert_eq!(frame.local_variables.get(1), Some(&Value::Int(2)));
    assert_eq!(frame.local_variables.get(2), None);
    let frame = Frame::with_arguments("m".to_string(), 0, vec![], &args).unwrap();
    assert_eq!(frame.local_variables.len(), 0);
    let args = vec![Value::Long(1), Value::Long(2)];
    let frame = Frame::with_arguments("m".to_string(), 2, vec![], &args).unwrap();
    assert_eq!(frame.local_variables.get(1), Some(&Value::Long(1)));
}

#[test]
fn a_wide_argument_in_the_last_slot_is_an_error() {
    let args = vec![Value::Int(1), Value::Long(2)];
    assert_eq!(
        Frame::with_arguments("m".to_string(), 2, vec![], &args),
        Err(VmError::ArgumentOutOfLocals)
    );
    let mut stack = CallStack::new(None);
    assert_eq!(
        stack.push_frame("m".to_string(), vec![], 1, vec![Value::Double(2)]),
        Err(VmError::ArgumentOutOfLocals)
    );
    assert_eq!(stack.size(), 0);
}

#[test]
fn return_forwarding() {
    // iconst_5; invokestatic sum; return
    let main = [0x08, 0xB8, 0x00, SUM, 0xB1];
    let mut vm = Vm::new();
    vm.init_class_file(program(&main, None));
    assert_eq!(vm.execute_main(vec![]), Ok(true));
    assert_eq!(vm.resume(2), Ok(VmEvent::Running));
    assert_eq!(vm.call_stack().size(), 2);
    assert_eq!(vm.call_stack().current_method_name(), Some("sum"));
    assert_eq!(vm.call_stack().frames[0].pc, 4);
    assert_eq!(stack_of(&vm.call_stack().frames[0]), vec![]);
    let callee = vm.call_stack().current_frame_ref().unwrap();
    assert_eq!(callee.local_variables.get(0), Some(&Value::Int(5)));
    assert_eq!(callee.local_variables.len(), 3);
    // Run until the callee has returned.
    let mut steps = 0;
    while vm.call_stack().size() == 2 {
        assert_eq!(vm.resume(1), Ok(VmEvent::Running));
        steps += 1;
        assert!(steps < 1000);
    }
    assert_eq!(vm.call_stack().size(), 1);
    let caller = vm.call_stack().current_frame_ref().unwrap();
    assert_eq!(stack_of(caller), vec![Value::Int(15)]);
    assert_eq!(caller.pc, 4);
    assert_eq!(vm.resume(10), Ok(VmEvent::Finished));
}

#[test]
fn invokestatic_passes_arguments_in_call_order() {
    // ldc2_w big; bipush 9; invokestatic pair(JI)I; ireturn
    let main = [0x14, 0x00, BIG_LONG, 0x10, 9, 0xB8, 0x00, PAIR, 0xAC];
    let mut vm = Vm::new();
    vm.init_class_file(program(&main, None));
    assert_eq!(vm.execute_main(vec![]), Ok(true));
    assert_eq!(vm.resume(3), Ok(VmEvent::Running));
    let callee = vm.call_stack().current_frame_ref().unwrap();
    assert_eq!(callee.method_name, Some("pair".to_string()));
    assert_eq!(callee.local_variables.get(0), Some(&Value::Long(0x0123_4567_89AB_CDEF)));
    assert_eq!(callee.local_variables.get(1), Some(&Value::Long(0x0123_4567_89AB_CDEF)));
    assert_eq!(callee.local_variables.get(2), Some(&Value::Int(9)));
    assert_eq!(callee.bytecode, vec![0x1C, 0xAC]);
    assert_eq!(vm.resume(2), Ok(VmEvent::Running));
    let caller = vm.call_stack().current_frame_ref().unwrap();
    assert_eq!(stack_of(caller), vec![Value::Int(9)]);
    assert_eq!(caller.pc, 8);
    assert_eq!(vm.resume(10), Ok(VmEvent::Finished));
}

#[test]
fn invokestatic_without_its_arguments_is_an_error() {
    let main = [0xB8, 0x00, SUM, 0xB1];
    let (vm, lines) = run_program(program(&main, None));
    assert_eq!(lines, Err(VmError::StackUnderflow));
    assert_eq!(vm.call_stack().size(), 1);
    assert_eq!(vm.call_stack().frames[0].pc, 0);
}

#[test]
fn invokestatic_of_a_method_that_the_class_lacks_pops_the_arguments() {
    let main = [0x04, 0x05, 0xB8, 0x00, MISSING, 0xAC];
    let class_file = program(&main, None);
    let mut runtime = RuntimeDataArea::new();
    let below = CallStack::new(None);
    let mut frame = Frame::new(Some("main".to_string()), 0, main.to_vec());
    let result = frame.execute_frame(&class_file, &mut runtime, &below, 1000);
    assert_eq!(result, Ok(InstructionCompleted::ReturnFromMethod(Some(Value::Int(1)))));
    assert_eq!(frame.pc, 5);
}

#[test]
fn invokestatic_of_a_reference_that_does_not_resolve_does_nothing() {
    let main = [0x04, 0xB8, 0x00, HELLO, 0xAC];
    let class_file = program(&main, None);
    let mut runtime = RuntimeDataArea::new();
    let below = CallStack::new(None);
    let mut frame = Frame::new(Some("main".to_string()), 0, main.to_vec());
    let result = frame.execute_frame(&class_file, &mut runtime, &below, 1000);
    assert_eq!(result, Ok(InstructionCompleted::ReturnFromMethod(Some(Value::Int(1)))));
}

#[test]
fn invokestatic_of_a_method_without_code_is_an_error() {
    let main = [0xB8, 0x00, BROKEN, 0xB1];
    let (_, lines) = run_program(program(&main, None));
    assert_eq!(lines, Err(VmError::MalformedCode));
}

#[test]
fn invokestatic_on_a_full_call_stack_is_an_error() {
    let main = [0x08, 0xB8, 0x00, SUM, 0xB1];
    let class_file = program(&main, None);
    let mut runtime = RuntimeDataArea::new();
    let mut stack = CallStack::new(Some(1));
    assert_eq!(stack.push_frame("main".to_string(), main.to_vec(), 0, vec![]), Ok(()));
    assert_eq!(stack.step(&class_file, &mut runtime), Ok(VmEvent::Running));
    let before = stack.frames[0].clone();
    assert_eq!(stack.step(&class_file, &mut runtime), Err(VmError::StackOverflow));
    assert_eq!(stack.size(), 1);
    assert_eq!(stack.frames[0], before);
    assert_eq!(
        stack.push_frame("more".to_string(), vec![], 0, vec![]),
        Err(VmError::StackOverflow)
    );
    let mut stack = CallStack::new(Some(2));
    assert_eq!(stack.push_frame("main".to_string(), main.to_vec(), 0, vec![]), Ok(()));
    assert_eq!(stack.execute_frames(&class_file, &mut runtime, 2), Ok(VmEvent::Running));
    assert_eq!(stack.size(), 2);
    let mut stack = CallStack::new(Some(0));
    assert_eq!(
        stack.push_frame("main".to_string(), vec![], 0, vec![]),
        Err(VmError::StackOverflow)
    );
}

#[test]
fn the_default_depth_is_one_thousand() {
    let mut stack = CallStack::new(None);
    for _ in 0..1000 {
        assert_eq!(stack.push_frame("f".to_string(), vec![], 0, vec![]), Ok(()));
    }
    assert_eq!(stack.push_frame("f".to_string(), vec![], 0, vec![]), Err(VmError::StackOverflow));
    assert_eq!(stack.size(), 1000);
    assert_eq!(stack.max_depth, 1000);
}

#[test]
fn invokevirtual_prints_by_the_kind_of_value() {
    // getstatic out; ldc2_w big; invokevirtual println; return
    let main = [0xB2, 0x00, SYSTEM_OUT, 0x14, 0x00, BIG_LONG, 0xB6, 0x00, PRINTLN_INT, 0xB1];
    let (_, lines) = run_program(program(&main, None));
    assert_eq!(lines, Ok(vec!["81985529216486895".to_string()]));
    // getstatic out; ldc 0.5f; invokevirtual println; return
    let main = [0xB2, 0x00, SYSTEM_OUT, 0x12, HALF, 0xB6, 0x00, PRINTLN_INT, 0xB1];
    let (_, lines) = run_program(program(&main, None));
    assert_eq!(lines, Ok(vec!["0.5".to_string()]));
}

#[test]
fn invokevirtual_pops_the_argument_and_the_receiver() {
    let main = [0xB6, 0x00, PRINTLN_INT, 0xB1];
    let class_file = program(&main, None);
    let mut runtime = RuntimeDataArea::new();
    let below = CallStack::new(None);
    let mut frame = Frame::new(Some("main".to_string()), 0, main.to_vec());
    frame.push(Value::Int(1));
    frame.push(Value::Reference("System.out".to_string()));
    frame.push(Value::Int(2));
    let result = frame.fetch_execute(&class_file, &mut runtime, &below);
    assert_eq!(result, Ok(InstructionCompleted::PrintLine(Value::Int(2))));
    assert_eq!(stack_of(&frame), vec![Value::Int(1)]);
    assert_eq!(frame.pc, 3);
}

#[test]
fn invokevirtual_with_less_than_two_values_is_an_error() {
    let main = [0xB6, 0x00, PRINTLN_INT, 0xB1];
    let class_file = program(&main, None);
    let mut runtime = RuntimeDataArea::new();
    let below = CallStack::new(None);
    let mut frame = Frame::new(Some("main".to_string()), 0, main.to_vec());
    frame.push(Value::Int(2));
    let result = frame.fetch_execute(&class_file, &mut runtime, &below);
    assert_eq!(result, Err(VmError::StackUnderflow));
    assert_eq!(stack_of(&frame), vec![Value::Int(2)]);
    assert_eq!(frame.pc, 0);
}

#[test]
fn invokevirtual_of_another_class_does_nothing() {
    for index in [OTHER_CLASS_METHOD, HELLO, 200] {
        let main = [0xB6, 0x00, index, 0xB1];
        let class_file = program(&main, None);
        let mut runtime = RuntimeDataArea::new();
        let below = CallStack::new(None);
        let mut frame = Frame::new(Some("main".to_string()), 0, main.to_vec());
        frame.push(Value::Int(2));
        let result = frame.fetch_execute(&class_file, &mut runtime, &below);
        assert_eq!(result, Ok(InstructionCompleted::ContinueMethodExecution));
        assert_eq!(stack_of(&frame), vec![Value::Int(2)]);
        assert_eq!(frame.pc, 3);
    }
}

#[test]
fn getstatic_of_system_out_is_shimmed() {
    let main = [0xB2, 0x00, SYSTEM_OUT, 0xB0];
    let class_file = program(&main, None);
    let mut runtime = RuntimeDataArea::new();
    let below = CallStack::new(None);
    let mut frame = Frame::new(Some("main".to_string()), 0, main.to_vec());
    let result = frame.execute_frame(&class_file, &mut runtime, &below, 10);
    assert_eq!(
        result,
        Ok(InstructionCompleted::ReturnFromMethod(Some(Value::Reference(
            "System.out".to_string()
        ))))
    );
}

#[test]
fn getstatic_of_a_field_that_holds_nothing_pushes_nothing() {
    for index in [FIELD_X, HELLO, 200] {
        let main = [0xB2, 0x00, index, 0xB1];
        let class_file = program(&main, None);
        let mut runtime = RuntimeDataArea::new();
        let below = CallStack::new(None);
        let mut frame = Frame::new(Some("main".to_string()), 0, main.to_vec());
        let result = frame.fetch_execute(&class_file, &mut runtime, &below);
        assert_eq!(result, Ok(InstructionCompleted::ContinueMethodExecution));
        assert_eq!(stack_of(&frame), vec![]);
        assert_eq!(frame.pc, 3);
    }
}

#[test]
fn putstatic_stores_under_class_dot_field() {
    let main = [0xB3, 0x00, FIELD_X, 0xB3, 0x00, FIELD_X, 0xB2, 0x00, FIELD_X, 0xB1];
    let class_file = program(&main, None);
    let mut runtime = RuntimeDataArea::new();
    let below = CallStack::new(None);
    let mut frame = Frame::new(Some("main".to_string()), 0, main.to_vec());
    frame.push(Value::Long(2));
    frame.push(Value::Int(1));
    assert_eq!(
        frame.fetch_execute(&class_file, &mut runtime, &below),
        Ok(InstructionCompleted::ContinueMethodExecution)
    );
    assert_eq!(runtime.get("Main.x"), Some(&Value::Int(1)));
    assert_eq!(
        frame.fetch_execute(&class_file, &mut runtime, &below),
        Ok(InstructionCompleted::ContinueMethodExecution)
    );
    assert_eq!(runtime.get("Main.x"), Some(&Value::Long(2)));
    assert_eq!(stack_of(&frame), vec![]);
    assert_eq!(
        frame.fetch_execute(&class_file, &mut runtime, &below),
        Ok(InstructionCompleted::ContinueMethodExecution)
    );
    assert_eq!(stack_of(&frame), vec![Value::Long(2)]);
    assert_eq!(frame.pc, 9);
}

#[test]
fn putstatic_of_a_reference_that_does_not_resolve_only_pops() {
    let main = [0xB3, 0x00, HELLO, 0xB1];
    let class_file = program(&main, None);
    let mut runtime = RuntimeDataArea::new();
    let below = CallStack::new(None);
    let mut frame = Frame::new(Some("main".to_string()), 0, main.to_vec());
    frame.push(Value::Int(1));
    assert_eq!(
        frame.fetch_execute(&class_file, &mut runtime, &below),
        Ok(InstructionCompleted::ContinueMethodExecution)
    );
    assert_eq!(stack_of(&frame), vec![]);
    assert_eq!(frame.pc, 3);
    let mut frame = Frame::new(Some("main".to_string()), 0, main.to_vec());
    assert_eq!(
        frame.fetch_execute(&class_file, &mut runtime, &below),
        Err(VmError::StackUnderflow)
    );
}

#[test]
fn an_unknown_opcode_is_an_error() {
    let main = [0x03, 0xA7, 0x00, 0x00];
    let (vm, lines) = run_program(program(&main, None));
    assert_eq!(lines, Err(VmError::UnknownOpcode(0xA7)));
    assert_eq!(vm.call_stack().size(), 1);
    assert_eq!(vm.call_stack().frames[0].pc, 1);
}

#[test]
fn running_off_the_end_returns_nothing() {
    let main = [0x03];
    let (vm, lines) = run_program(program(&main, None));
    assert_eq!(lines, Ok(vec![]));
    assert!(vm.call_stack().is_empty());
    let mut frame = Frame::new(None, 0, vec![]);
    let class_file = ClassFile::new();
    let mut runtime = RuntimeDataArea::new();
    let below = CallStack::new(None);
    assert_eq!(
        frame.execute_frame(&class_file, &mut runtime, &below, 5),
        Ok(InstructionCompleted::ReturnFromMethod(None))
    );
    assert_eq!(frame.method_name, Some(String::new()));
}

#[test]
fn the_step_budget_stops_a_program_that_does_not_end() {
    // iconst_0; ifeq 0
    let main = [0x03, 0x99, 0xFF, 0xFF];
    let mut vm = Vm::new();
    assert_eq!(vm.run(program(&main, None), vec![], 1001), Ok(VmEvent::Running));
    assert_eq!(vm.call_stack().size(), 1);
    assert_eq!(vm.call_stack().frames[0].pc, 1);
    assert_eq!(vm.resume(0), Ok(VmEvent::Running));
    assert_eq!(vm.call_stack().frames[0].pc, 1);
    let class_file = program(&main, None);
    let mut runtime = RuntimeDataArea::new();
    let below = CallStack::new(None);
    let mut frame = Frame::new(Some("main".to_string()), 0, main.to_vec());
    assert_eq!(
        frame.execute_frame(&class_file, &mut runtime, &below, 4),
        Ok(InstructionCompleted::ContinueMethodExecution)
    );
    assert_eq!(frame.pc, 0);
}

#[test]
fn main_gets_the_arguments_of_the_program() {
    // aload_0; iconst_1; aaload; areturn
    let main = [0x2A, 0x04, 0x32, 0xB0];
    let mut vm = Vm::new();
    vm.init_class_file(program(&main, None));
    assert_eq!(vm.execute_main(vec!["a".to_string(), "b".to_string()]), Ok(true));
    let frame = vm.call_stack().current_frame_ref().unwrap();
    assert_eq!(
        frame.local_variables.get(0),
        Some(&Value::Array(vec![
            Value::Reference("a".to_string()),
            Value::Reference("b".to_string())
        ]))
    );
    assert_eq!(frame.local_variables.get(1), None);
    assert_eq!(vm.resume(3), Ok(VmEvent::Running));
    let frame = vm.call_stack().current_frame_ref().unwrap();
    assert_eq!(stack_of(frame), vec![Value::Reference("b".to_string())]);
    assert_eq!(vm.resume(3), Ok(VmEvent::Finished));
}

#[test]
fn float_arithmetic_goes_through_the_embedding_program() {
    // getstatic out; ldc 0.5f; invokestatic addHalf; invokevirtual println; return
    let main = [
        0xB2, 0x00, SYSTEM_OUT, 0x12, HALF, 0xB8, 0x00, ADD_HALF, 0xB6, 0x00, PRINTLN_INT, 0xB1,
    ];
    let mut vm = Vm::new();
    let event = vm.run(program(&main, None), vec![], 1000);
    assert_eq!(
        event,
        Ok(VmEvent::FloatArithmetic(FloatRequest::Binary32 {
            op: FloatOp::Add,
            left: 0.5f32.to_bits(),
            right: 0.5f32.to_bits()
        }))
    );
    assert_eq!(vm.call_stack().current_method_name(), Some("addHalf"));
    let lines = drive(&mut vm, event);
    assert_eq!(lines, Ok(vec!["1".to_string()]));
}

#[test]
fn a_void_return_pushes_nothing_on_the_invoker() {
    let mut stack = CallStack::new(None);
    let class_file = ClassFile::new();
    let mut runtime = RuntimeDataArea::new();
    assert_eq!(stack.push_frame("a".to_string(), vec![0xB1], 0, vec![]), Ok(()));
    assert_eq!(stack.push_frame("b".to_string(), vec![0xB1], 0, vec![]), Ok(()));
    assert_eq!(stack.step(&class_file, &mut runtime), Ok(VmEvent::Running));
    assert_eq!(stack.size(), 1);
    assert_eq!(stack_of(stack.current_frame_ref().unwrap()), vec![]);
    assert_eq!(stack.current_method_name(), Some("a"));
    assert_eq!(stack.step(&class_file, &mut runtime), Ok(VmEvent::Running));
    assert_eq!(stack.step(&class_file, &mut runtime), Err(VmError::NoFrame));
    assert_eq!(stack.execute_frames(&class_file, &mut runtime, 5), Ok(VmEvent::Finished));
}

#[test]
fn call_stack_hands_out_its_top_frame() {
    let mut stack = CallStack::new(Some(5));
    assert!(stack.is_empty());
    assert_eq!(stack.current_frame_ref(), None);
    assert_eq!(stack.current_method_name(), None);
    assert_eq!(stack.pop_frame(), None);
    assert!(stack.current_frame().is_none());
    assert_eq!(stack.push_frame("a".to_string(), vec![1], 1, vec![]), Ok(()));
    assert_eq!(stack.push_frame("b".to_string(), vec![2], 1, vec![]), Ok(()));
    stack.current_frame().unwrap().pc = 7;
    assert_eq!(stack.current_frame_ref().unwrap().pc, 7);
    stack.push_operand(Value::Int(3));
    assert_eq!(stack_of(&stack.frames[1]), vec![Value::Int(3)]);
    assert_eq!(stack_of(&stack.frames[0]), vec![]);
    let popped = stack.pop_frame().unwrap();
    assert_eq!(popped.method_name, Some("b".to_string()));
    assert_eq!(popped.pc, 7);
    assert_eq!(stack.size(), 1);
    assert!(!stack.is_empty());
    assert_eq!(stack.current_method_name(), Some("a"));
}

#[test]
fn a_main_without_code_is_an_error() {
    let mut class_file = program(&[0xB1], None);
    class_file.methods[0].attributes.clear();
    let mut vm = Vm::new();
    assert_eq!(vm.run(class_file, vec![], 10), Err(VmError::MalformedCode));
    assert_eq!(vm.call_stack().size(), 0);
}

#[test]
fn an_argument_beyond_the_locals_of_main_is_left_out() {
    let mut class_file = program(&[0x2A, 0xB0], None);
    class_file.methods[0] = method(15, 32, 0, &[0x2A, 0xB0]);
    let mut vm = Vm::new();
    assert_eq!(vm.run(class_file, vec!["a".to_string()], 10), Err(VmError::UninitializedLocal(0)));
    assert_eq!(vm.call_stack().size(), 1);
}

#[test]
fn invokestatic_with_a_wide_argument_in_the_last_slot_is_an_error() {
    // ldc2_w big; bipush 9; invokestatic pair(JI)I; ireturn
    let main = [0x14, 0x00, BIG_LONG, 0x10, 9, 0xB8, 0x00, PAIR, 0xAC];
    let mut class_file = program(&main, None);
    class_file.methods[2] = method(33, 34, 1, &[0x1C, 0xAC]);
    let mut runtime = RuntimeDataArea::new();
    let below = CallStack::new(None);
    let mut frame = Frame::new(Some("main".to_string()), 0, main.to_vec());
    let result = frame.execute_frame(&class_file, &mut runtime, &below, 1000);
    assert_eq!(result, Err(VmError::ArgumentOutOfLocals));
    assert_eq!(frame.pc, 5);
    assert_eq!(stack_of(&frame), vec![Value::Long(0x0123_4567_89AB_CDEF), Value::Int(9)]);
}

#[test]
fn conversions_to_floating_point_go_through_the_embedding_program() {
    // getstatic out; bipush 7; i2d; d2f; f2d; d2l; l2f; f2i; i2f; invokevirtual println; return
    let main = [
        0xB2, 0x00, SYSTEM_OUT, 0x10, 7, 0x87, 0x90, 0x8D, 0x8F, 0x89, 0x8B, 0x86, 0xB6, 0x00,
        PRINTLN_INT, 0xB1,
    ];
    let (_, lines) = run_program(program(&main, None));
    assert_eq!(lines, Ok(vec!["7".to_string()]));
}
