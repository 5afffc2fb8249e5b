use zvm::text::{chars_of, decimal_text, make_field_key, str_equal};
use zvm::vm::local::LocalVariables;
use zvm::vm::operand_stack::OperandStack;
use zvm::vm::runtime::RuntimeDataArea;
use zvm::vm::stack_frame::Frame;
use zvm::vm::value::{clone_values, Value};
use zvm::vm::error::VmError;

#[test]
fn operand_stack_is_last_in_first_out() {
    let mut stack = OperandStack::new();
    assert_eq!(stack.len(), 0);
    assert_eq!(stack.pop(), None);
    assert_eq!(stack.peek(), None);
    stack.push(Value::Int(1));
    stack.push(Value::Long(2));
    stack.push(Value::Reference("three".to_string()));
    assert_eq!(stack.len(), 3);
    assert_eq!(stack.peek(), Some(&Value::Reference("three".to_string())));
    assert_eq!(stack.peek_at(0), Some(&Value::Int(1)));
    assert_eq!(stack.peek_at(2), Some(&Value::Reference("three".to_string())));
    assert_eq!(stack.peek_at(3), None);
    assert_eq!(stack.pop(), Some(Value::Reference("three".to_string())));
    assert_eq!(stack.pop(), Some(Value::Long(2)));
    assert_eq!(stack.len(), 1);
    assert_eq!(stack.pop(), Some(Value::Int(1)));
    assert_eq!(stack.pop(), None);
}

#[test]
fn operand_stack_inserts_and_swaps() {
    let mut stack = OperandStack::new();
    stack.push(Value::Int(1));
    stack.push(Value::Int(3));
    stack.push_at(Value::Int(2), 1);
    stack.push_at(Value::Int(0), 0);
    stack.push_at(Value::Int(4), 4);
    for i in 0..5 {
        assert_eq!(stack.peek_at(i), Some(&Value::Int(i as i32)));
    }
    stack.swap(0, 4);
    stack.swap(2, 2);
    assert_eq!(stack.peek_at(0), Some(&Value::Int(4)));
    assert_eq!(stack.peek_at(4), Some(&Value::Int(0)));
    assert_eq!(stack.peek_at(2), Some(&Value::Int(2)));
    assert_eq!(stack.peek(), Some(&Value::Int(0)));
}

#[test]
fn local_variables_start_empty() {
    let mut locals = LocalVariables::new(3);
    assert_eq!(locals.len(), 3);
    for i in 0..5 {
        assert_eq!(locals.get(i), None);
    }
    locals.set(1, Value::Double(9));
    assert_eq!(locals.get(1), Some(&Value::Double(9)));
    assert_eq!(locals.get(0), None);
    assert_eq!(locals.get(2), None);
    locals.set(1, Value::Int(4));
    assert_eq!(locals.get(1), Some(&Value::Int(4)));
    locals.set(3, Value::Int(5));
    locals.set(usize::MAX, Value::Int(5));
    assert_eq!(locals.get(3), None);
    assert_eq!(locals.len(), 3);
    assert_eq!(LocalVariables::new(0).get(0), None);
}

#[test]
fn runtime_data_area_maps_keys_to_values() {
    let mut runtime = RuntimeDataArea::new();
    assert_eq!(runtime.get("Main.x"), None);
    runtime.insert("Main.x".to_string(), Value::Int(1));
    runtime.insert("Main.y".to_string(), Value::Int(2));
    runtime.insert("Other.x".to_string(), Value::Reference("r".to_string()));
    assert_eq!(runtime.get("Main.x"), Some(&Value::Int(1)));
    assert_eq!(runtime.get("Main.y"), Some(&Value::Int(2)));
    assert_eq!(runtime.get("Other.x"), Some(&Value::Reference("r".to_string())));
    assert_eq!(runtime.get("Main."), None);
    assert_eq!(runtime.get("main.x"), None);
    runtime.insert("Main.x".to_string(), Value::Long(3));
    assert_eq!(runtime.get("Main.x"), Some(&Value::Long(3)));
    assert_eq!(runtime.get("Main.y"), Some(&Value::Int(2)));
    runtime.insert(String::new(), Value::Int(0));
    assert_eq!(runtime.get(""), Some(&Value::Int(0)));
}

#[test]
fn values_are_copied_in_depth() {
    let value = Value::Array(vec![
        Value::Int(1),
        Value::Array(vec![Value::Reference("in".to_string()), Value::Double(2)]),
        Value::Float(3),
        Value::Long(4),
    ]);
    assert_eq!(value.clone(), value);
    assert_eq!(clone_values(&vec![value.clone(), Value::Int(5)]), vec![value, Value::Int(5)]);
    assert!(Value::Long(1).is_wide());
    assert!(Value::Double(1).is_wide());
    assert!(!Value::Int(1).is_wide());
    assert!(!Value::Float(1).is_wide());
    assert!(!Value::Reference(String::new()).is_wide());
    assert!(!Value::Array(vec![Value::Long(1)]).is_wide());
}

#[test]
fn frame_reads_its_operand_bytes_and_its_stack() {
    let mut frame = Frame::new(Some("m".to_string()), 2, vec![0x10, 0x20, 0x30]);
    assert_eq!(frame.pc, 0);
    assert_eq!(frame.operand(0), Some(0x10));
    assert_eq!(frame.operand(2), Some(0x30));
    assert_eq!(frame.operand(3), None);
    assert!(frame.has_operands(2));
    assert!(!frame.has_operands(3));
    frame.advance(2);
    assert_eq!(frame.pc, 2);
    assert_eq!(frame.operand(0), Some(0x30));
    assert_eq!(frame.operand(1), None);
    assert!(frame.has_operands(0));
    assert!(!frame.has_operands(1));
    frame.advance(1);
    assert!(!frame.has_operands(0));
    assert_eq!(frame.operand(0), None);
    assert_eq!(frame.value_at(0), Err(VmError::StackUnderflow));
    assert_eq!(frame.pop(), Err(VmError::StackUnderflow));
    frame.push(Value::Int(1));
    frame.push(Value::Long(2));
    frame.push(Value::Float(3));
    frame.push(Value::Double(4));
    assert_eq!(frame.double_at(0), Ok(4));
    assert_eq!(frame.float_at(1), Ok(3));
    assert_eq!(frame.long_at(2), Ok(2));
    assert_eq!(frame.int_at(3), Ok(1));
    assert_eq!(frame.int_at(0), Err(VmError::TypeMismatch));
    assert_eq!(frame.long_at(0), Err(VmError::TypeMismatch));
    assert_eq!(frame.float_at(0), Err(VmError::TypeMismatch));
    assert_eq!(frame.double_at(1), Err(VmError::TypeMismatch));
    assert_eq!(frame.int_at(4), Err(VmError::StackUnderflow));
    assert_eq!(frame.value_at(3), Ok(&Value::Int(1)));
    frame.drop_operands(2);
    assert_eq!(frame.pop(), Ok(Value::Long(2)));
    frame.drop_operands(0);
    assert_eq!(frame.pop(), Ok(Value::Int(1)));
}

#[test]
fn text_helpers() {
    assert!(str_equal("abc", "abc"));
    assert!(str_equal("", ""));
    assert!(!str_equal("abc", "abd"));
    assert!(!str_equal("abc", "ab"));
    assert!(!str_equal("", "a"));
    assert!(str_equal("gr\u{00FC}n", "gr\u{00FC}n"));
    assert!(!str_equal("gr\u{00FC}n", "grun"));
    assert_eq!(chars_of("a\u{00FC}\u{1F600}"), vec!['a', '\u{00FC}', '\u{1F600}']);
    assert_eq!(chars_of(""), Vec::<char>::new());
    assert_eq!(make_field_key("Main", "x"), "Main.x");
    assert_eq!(make_field_key("a/b/C", ""), "a/b/C.");
    assert_eq!(make_field_key("", ""), ".");
}

#[test]
fn integers_are_written_in_decimal() {
    assert_eq!(decimal_text(0), "0");
    assert_eq!(decimal_text(7), "7");
    assert_eq!(decimal_text(10), "10");
    assert_eq!(decimal_text(-1), "-1");
    assert_eq!(decimal_text(1_000_000), "1000000");
    assert_eq!(decimal_text(-90_210), "-90210");
    assert_eq!(decimal_text(i64::MAX), "9223372036854775807");
    assert_eq!(decimal_text(i64::MIN), "-9223372036854775808");
    for v in [1i64, 9, 11, 99, 100, 101, 12345, -12345, 1 << 40, -(1 << 40), i32::MIN as i64] {
        assert_eq!(decimal_text(v), format!("{}", v));
    }
}

#[test]
fn values_print_by_their_kind() {
    assert_eq!(Value::Reference("hello".to_string()).text(), Some("hello".to_string()));
    assert_eq!(Value::Reference(String::new()).text(), Some(String::new()));
    assert_eq!(Value::Int(15).text(), Some("15".to_string()));
    assert_eq!(Value::Int(i32::MIN).text(), Some("-2147483648".to_string()));
    assert_eq!(Value::Long(-42).text(), Some("-42".to_string()));
    assert_eq!(Value::Float(0).text(), None);
    assert_eq!(Value::Double(0).text(), None);
    assert_eq!(Value::Array(vec![]).text(), None);
}
