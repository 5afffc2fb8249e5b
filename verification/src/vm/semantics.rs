//! What each instruction does, as functions on the models of the frame, the
//! class and the static fields.
//!
//! An instruction that fails leaves everything as it was. The operand bytes
//! are looked at first, then the operand stack from the top down.

use vstd::prelude::*;
use crate::parser::class_file::ClassFileView;
use crate::parser::constant_pool_info::CpInfoView;
use crate::parser::opcode::Opcode;
use crate::text::field_key;
use crate::vm::completion::{CompletionView, FloatOp, FloatRequest};
use crate::vm::descriptor::count_params;
use crate::vm::error::VmError;
use crate::vm::float_bits::{f32_negated, f32_to_integer, f64_negated, f64_to_integer};
use crate::vm::local::{slot_value, slots_after_set};
use crate::vm::numeric::{
    be_u16,
    join_halves,
    trunc_div,
    trunc_rem,
    wrap_i16,
    wrap_i32,
    wrap_i64,
    wrap_i8,
};
use crate::vm::stack_frame::{FrameView, arguments_fit, invoked};
use crate::vm::value::ValueView;

verus! {

/// The static fields, by key.
pub type Statics = Map<Seq<char>, ValueView>;

/// An arithmetic operation on two integers.
#[derive(Debug, Clone, Copy, PartialEq, Eq, Structural)]
pub enum IntOp {
    Add,
    Sub,
    Mul,
    Div,
    Rem,
}

/// A comparison of two integers.
#[derive(Debug, Clone, Copy, PartialEq, Eq, Structural)]
pub enum Condition {
    Eq,
    Ne,
    Lt,
    Ge,
    Gt,
    Le,
}

/// A conversion between the kinds of number.
#[derive(Debug, Clone, Copy, PartialEq, Eq, Structural)]
pub enum Conversion {
    I2l,
    I2f,
    I2d,
    L2i,
    L2f,
    L2d,
    F2i,
    F2l,
    F2d,
    D2i,
    D2l,
    D2f,
    I2b,
    I2c,
    I2s,
}

/// The kind of value that a typed return pops.
#[derive(Debug, Clone, Copy, PartialEq, Eq, Structural)]
pub enum ReturnKind {
    Int,
    Long,
    Float,
    Double,
    Reference,
}

/// What an instruction leaves behind: the frame, the static fields, and
/// how it ended.
pub struct Effect {
    pub frame: FrameView,
    pub statics: Statics,
    pub completion: CompletionView,
}

/// What an instruction that leaves the static fields alone leaves behind:
/// the frame, and how it ended.
pub struct Step {
    pub frame: FrameView,
    pub completion: CompletionView,
}

/// The step of an instruction that ends in `completion`.
pub open spec fn ends(frame: FrameView, completion: CompletionView) -> Result<Step, VmError> {
    Ok(Step { frame, completion })
}

/// The step of an instruction that lets execution go on.
pub open spec fn goes_on(frame: FrameView) -> Result<Step, VmError> {
    Ok(Step { frame, completion: CompletionView::ContinueMethodExecution })
}

/// The effect of an instruction that changes the frame alone and lets
/// execution go on.
pub open spec fn proceed(frame: FrameView, statics: Statics) -> Result<Effect, VmError> {
    Ok(Effect { frame, statics, completion: CompletionView::ContinueMethodExecution })
}

/// The effect of an instruction that changes the frame and ends in
/// `completion`.
pub open spec fn complete(frame: FrameView, statics: Statics, completion: CompletionView) -> Result<
    Effect,
    VmError,
> {
    Ok(Effect { frame, statics, completion })
}

impl Condition {
    /// Whether the comparison holds of `left` and `right`.
    pub open spec fn holds(self, left: int, right: int) -> bool {
        match self {
            Condition::Eq => left == right,
            Condition::Ne => left != right,
            Condition::Lt => left < right,
            Condition::Ge => left >= right,
            Condition::Gt => left > right,
            Condition::Le => left <= right,
        }
    }
}

/// The result of an operation on two ints: the exact result modulo 2^32,
/// division rounded toward zero.
pub open spec fn int_result(op: IntOp, left: i32, right: i32) -> Result<i32, VmError> {
    match op {
        IntOp::Add => Ok(wrap_i32(left + right)),
        IntOp::Sub => Ok(wrap_i32(left - right)),
        IntOp::Mul => Ok(wrap_i32(left * right)),
        IntOp::Div => if right == 0 {
            Err(VmError::DivisionByZero)
        } else {
            Ok(wrap_i32(trunc_div(left as int, right as int)))
        },
        IntOp::Rem => if right == 0 {
            Err(VmError::DivisionByZero)
        } else {
            Ok(wrap_i32(trunc_rem(left as int, right as int)))
        },
    }
}

/// The result of an operation on two longs: the exact result modulo 2^64,
/// division rounded toward zero.
pub open spec fn long_result(op: IntOp, left: i64, right: i64) -> Result<i64, VmError> {
    match op {
        IntOp::Add => Ok(wrap_i64(left + right)),
        IntOp::Sub => Ok(wrap_i64(left - right)),
        IntOp::Mul => Ok(wrap_i64(left * right)),
        IntOp::Div => if right == 0 {
            Err(VmError::DivisionByZero)
        } else {
            Ok(wrap_i64(trunc_div(left as int, right as int)))
        },
        IntOp::Rem => if right == 0 {
            Err(VmError::DivisionByZero)
        } else {
            Ok(wrap_i64(trunc_rem(left as int, right as int)))
        },
    }
}

/// The constant of `iconst_m1`.
pub const MINUS_ONE: i32 = -1;

/// `iconst_<n>`: pushes the constant.
pub open spec fn push_constant(f: FrameView, value: i32) -> Result<FrameView, VmError> {
    Ok(f.pushed(ValueView::Int(value)).advanced(1))
}

/// `bipush`: pushes its operand byte, sign-extended.
pub open spec fn bipush(f: FrameView) -> Result<FrameView, VmError> {
    if !f.has_operands(1) {
        Err(VmError::TruncatedImmediate)
    } else {
        Ok(f.pushed(ValueView::Int(wrap_i8(f.operand(1)->0 as int) as i32)).advanced(2))
    }
}

/// The unsigned number in the two operand bytes, high byte first.
pub open spec fn wide_operand(f: FrameView) -> int {
    be_u16(f.operand(1)->0, f.operand(2)->0)
}

/// `sipush`: pushes its two operand bytes, read as a signed number.
pub open spec fn sipush(f: FrameView) -> Result<FrameView, VmError> {
    if !f.has_operands(2) {
        Err(VmError::TruncatedImmediate)
    } else {
        Ok(f.pushed(ValueView::Int(wrap_i16(wide_operand(f)) as i32)).advanced(3))
    }
}

/// What `ldc` pushes for the constant at `index`: an `Int`, a `Float`, or
/// the text of a `String` entry as a `Reference`. Nothing where the pool has
/// no such entry or the text does not resolve. Any other kind of entry is
/// an error.
pub open spec fn single_constant(class: ClassFileView, index: int) -> Result<
    Option<ValueView>,
    VmError,
> {
    match class.entry(index) {
        None => Ok(None),
        Some(CpInfoView::String { .. }) => match class.string(index) {
            Some(text) => Ok(Some(ValueView::Reference(text))),
            None => Ok(None),
        },
        Some(CpInfoView::Integer { .. }) => Ok(Some(ValueView::Int(class.integer(index)->0))),
        Some(CpInfoView::Float { bytes }) => Ok(Some(ValueView::Float(bytes))),
        Some(_) => Err(VmError::InvalidConstant(index as u16)),
    }
}

/// What `ldc2_w` pushes for the constant at `index`: the `Long` or the
/// `Double` whose 64 bits are the entry's two halves.
pub open spec fn double_constant(class: ClassFileView, index: int) -> Result<
    Option<ValueView>,
    VmError,
> {
    match class.entry(index) {
        None => Ok(None),
        Some(CpInfoView::Long { high_bytes, low_bytes }) => Ok(
            Some(ValueView::Long(wrap_i64(join_halves(high_bytes, low_bytes)))),
        ),
        Some(CpInfoView::Double { high_bytes, low_bytes }) => Ok(
            Some(ValueView::Double(join_halves(high_bytes, low_bytes) as u64)),
        ),
        Some(_) => Err(VmError::InvalidConstant(index as u16)),
    }
}

/// The frame with `value` pushed, where there is one.
pub open spec fn pushed_if(f: FrameView, value: Option<ValueView>) -> FrameView {
    match value {
        Some(v) => f.pushed(v),
        None => f,
    }
}

/// `ldc`: the constant at the index in the operand byte.
pub open spec fn ldc(f: FrameView, class: ClassFileView) -> Result<FrameView, VmError> {
    if !f.has_operands(1) {
        Err(VmError::TruncatedImmediate)
    } else {
        match single_constant(class, f.operand(1)->0 as int) {
            Ok(value) => Ok(pushed_if(f, value).advanced(2)),
            Err(e) => Err(e),
        }
    }
}

/// `ldc2_w`: the constant at the index in the two operand bytes.
pub open spec fn ldc2_w(f: FrameView, class: ClassFileView) -> Result<FrameView, VmError> {
    if !f.has_operands(2) {
        Err(VmError::TruncatedImmediate)
    } else {
        match double_constant(class, wide_operand(f)) {
            Ok(value) => Ok(pushed_if(f, value).advanced(3)),
            Err(e) => Err(e),
        }
    }
}

/// A load of local variable `index` by an instruction of `length` bytes:
/// pushes what the variable holds. With `strict`, an empty variable is an
/// error; else nothing is pushed.
pub open spec fn load_local(f: FrameView, index: int, length: int, strict: bool) -> Result<
    FrameView,
    VmError,
> {
    match slot_value(f.locals, index) {
        Some(v) => Ok(f.pushed(v).advanced(length)),
        None => if strict {
            Err(VmError::UninitializedLocal(index as usize))
        } else {
            Ok(f.advanced(length))
        },
    }
}

/// `iload`, `lload`, `fload`, `dload` and, with `strict`, `aload`: the
/// index is the operand byte.
pub open spec fn load(f: FrameView, strict: bool) -> Result<FrameView, VmError> {
    if !f.has_operands(1) {
        Err(VmError::TruncatedImmediate)
    } else {
        load_local(f, f.operand(1)->0 as int, 2, strict)
    }
}

/// `aaload`: pops an index and an array, pushes the array's item at the
/// index.
pub open spec fn aaload(f: FrameView) -> Result<FrameView, VmError> {
    match f.int_at(0) {
        Err(e) => Err(e),
        Ok(index) => match f.value_at(1) {
            Err(e) => Err(e),
            Ok(ValueView::Array(items)) => if 0 <= index < items.len() {
                Ok(f.dropped(2).pushed(items[index as int]).advanced(1))
            } else {
                Err(VmError::ArrayIndexOutOfBounds(index))
            },
            Ok(_) => Err(VmError::NotAnArray),
        },
    }
}

/// A store to local variable `index` by an instruction of `length` bytes:
/// pops a value and writes it there. A store past the last variable pops
/// and writes nothing.
pub open spec fn store_local(f: FrameView, index: int, length: int) -> Result<FrameView, VmError> {
    match f.value_at(0) {
        Err(e) => Err(e),
        Ok(v) => Ok(
            f.dropped(1).with_locals(slots_after_set(f.locals, index, v)).advanced(length),
        ),
    }
}

/// `istore`, `lstore`, `fstore`, `dstore`, `astore`: the index is the
/// operand byte.
pub open spec fn store(f: FrameView) -> Result<FrameView, VmError> {
    if !f.has_operands(1) {
        Err(VmError::TruncatedImmediate)
    } else {
        store_local(f, f.operand(1)->0 as int, 2)
    }
}

/// An operation on two ints: the right operand is on top, the left one
/// below it.
pub open spec fn int_binary(f: FrameView, op: IntOp) -> Result<FrameView, VmError> {
    match f.int_at(0) {
        Err(e) => Err(e),
        Ok(right) => match f.int_at(1) {
            Err(e) => Err(e),
            Ok(left) => match int_result(op, left, right) {
                Err(e) => Err(e),
                Ok(v) => Ok(f.dropped(2).pushed(ValueView::Int(v)).advanced(1)),
            },
        },
    }
}

/// An operation on two longs.
pub open spec fn long_binary(f: FrameView, op: IntOp) -> Result<FrameView, VmError> {
    match f.long_at(0) {
        Err(e) => Err(e),
        Ok(right) => match f.long_at(1) {
            Err(e) => Err(e),
            Ok(left) => match long_result(op, left, right) {
                Err(e) => Err(e),
                Ok(v) => Ok(f.dropped(2).pushed(ValueView::Long(v)).advanced(1)),
            },
        },
    }
}

/// `ineg`.
pub open spec fn int_negate(f: FrameView) -> Result<FrameView, VmError> {
    match f.int_at(0) {
        Err(e) => Err(e),
        Ok(v) => Ok(f.dropped(1).pushed(ValueView::Int(wrap_i32(-v))).advanced(1)),
    }
}

/// `lneg`.
pub open spec fn long_negate(f: FrameView) -> Result<FrameView, VmError> {
    match f.long_at(0) {
        Err(e) => Err(e),
        Ok(v) => Ok(f.dropped(1).pushed(ValueView::Long(wrap_i64(-v))).advanced(1)),
    }
}

/// `fneg`.
pub open spec fn float_negate(f: FrameView) -> Result<FrameView, VmError> {
    match f.float_at(0) {
        Err(e) => Err(e),
        Ok(bits) => Ok(f.dropped(1).pushed(ValueView::Float(f32_negated(bits))).advanced(1)),
    }
}

/// `dneg`.
pub open spec fn double_negate(f: FrameView) -> Result<FrameView, VmError> {
    match f.double_at(0) {
        Err(e) => Err(e),
        Ok(bits) => Ok(f.dropped(1).pushed(ValueView::Double(f64_negated(bits))).advanced(1)),
    }
}

/// An operation on two floats: pops both and asks for the arithmetic.
pub open spec fn float_binary(f: FrameView, op: FloatOp) -> Result<Step, VmError> {
    match f.float_at(0) {
        Err(e) => Err(e),
        Ok(right) => match f.float_at(1) {
            Err(e) => Err(e),
            Ok(left) => ends(
                f.dropped(2).advanced(1),
                CompletionView::FloatArithmetic(FloatRequest::Binary32 { op, left, right }),
            ),
        },
    }
}

/// An operation on two doubles: pops both and asks for the arithmetic.
pub open spec fn double_binary(f: FrameView, op: FloatOp) -> Result<Step, VmError> {
    match f.double_at(0) {
        Err(e) => Err(e),
        Ok(right) => match f.double_at(1) {
            Err(e) => Err(e),
            Ok(left) => ends(
                f.dropped(2).advanced(1),
                CompletionView::FloatArithmetic(FloatRequest::Binary64 { op, left, right }),
            ),
        },
    }
}

/// `iinc`: adds the signed second operand byte to the `Int` in the local
/// variable that the first names. A variable that holds no `Int` stays as
/// it is.
pub open spec fn iinc(f: FrameView) -> Result<FrameView, VmError> {
    if !f.has_operands(2) {
        Err(VmError::TruncatedImmediate)
    } else {
        let index = f.operand(1)->0 as int;
        let delta = wrap_i8(f.operand(2)->0 as int);
        match slot_value(f.locals, index) {
            Some(ValueView::Int(v)) => Ok(
                f.with_locals(f.locals.update(index, Some(ValueView::Int(wrap_i32(v + delta)))))
                    .advanced(3),
            ),
            _ => Ok(f.advanced(3)),
        }
    }
}

/// What a conversion that the machine computes makes of the value on top
/// of the stack.
pub open spec fn converted(f: FrameView, conversion: Conversion) -> Result<ValueView, VmError> {
    match conversion {
        Conversion::I2l => match f.int_at(0) {
            Ok(v) => Ok(ValueView::Long(v as i64)),
            Err(e) => Err(e),
        },
        Conversion::I2b => match f.int_at(0) {
            Ok(v) => Ok(ValueView::Int(wrap_i8(v as int) as i32)),
            Err(e) => Err(e),
        },
        Conversion::I2c => match f.int_at(0) {
            Ok(v) => Ok(ValueView::Int(((v as int) % 0x1_0000) as i32)),
            Err(e) => Err(e),
        },
        Conversion::I2s => match f.int_at(0) {
            Ok(v) => Ok(ValueView::Int(wrap_i16(v as int) as i32)),
            Err(e) => Err(e),
        },
        Conversion::L2i => match f.long_at(0) {
            Ok(v) => Ok(ValueView::Int(wrap_i32(v as int))),
            Err(e) => Err(e),
        },
        Conversion::F2i => match f.float_at(0) {
            Ok(bits) => Ok(
                ValueView::Int(f32_to_integer(bits, i32::MIN as int, i32::MAX as int) as i32),
            ),
            Err(e) => Err(e),
        },
        Conversion::F2l => match f.float_at(0) {
            Ok(bits) => Ok(
                ValueView::Long(f32_to_integer(bits, i64::MIN as int, i64::MAX as int) as i64),
            ),
            Err(e) => Err(e),
        },
        Conversion::D2i => match f.double_at(0) {
            Ok(bits) => Ok(
                ValueView::Int(f64_to_integer(bits, i32::MIN as int, i32::MAX as int) as i32),
            ),
            Err(e) => Err(e),
        },
        Conversion::D2l => match f.double_at(0) {
            Ok(bits) => Ok(
                ValueView::Long(f64_to_integer(bits, i64::MIN as int, i64::MAX as int) as i64),
            ),
            Err(e) => Err(e),
        },
        _ => Err(VmError::TypeMismatch),
    }
}

/// What a conversion to a floating-point number asks for.
pub open spec fn conversion_request(f: FrameView, conversion: Conversion) -> Result<
    FloatRequest,
    VmError,
> {
    match conversion {
        Conversion::I2f => match f.int_at(0) {
            Ok(v) => Ok(FloatRequest::IntToFloat(v)),
            Err(e) => Err(e),
        },
        Conversion::I2d => match f.int_at(0) {
            Ok(v) => Ok(FloatRequest::IntToDouble(v)),
            Err(e) => Err(e),
        },
        Conversion::L2f => match f.long_at(0) {
            Ok(v) => Ok(FloatRequest::LongToFloat(v)),
            Err(e) => Err(e),
        },
        Conversion::L2d => match f.long_at(0) {
            Ok(v) => Ok(FloatRequest::LongToDouble(v)),
            Err(e) => Err(e),
        },
        Conversion::F2d => match f.float_at(0) {
            Ok(v) => Ok(FloatRequest::FloatToDouble(v)),
            Err(e) => Err(e),
        },
        Conversion::D2f => match f.double_at(0) {
            Ok(v) => Ok(FloatRequest::DoubleToFloat(v)),
            Err(e) => Err(e),
        },
        _ => Err(VmError::TypeMismatch),
    }
}

impl Conversion {
    /// Whether the result is a floating-point number, which the machine
    /// asks for.
    pub open spec fn to_floating(self) -> bool {
        self == Conversion::I2f || self == Conversion::I2d || self == Conversion::L2f || self
            == Conversion::L2d || self == Conversion::F2d || self == Conversion::D2f
    }
}

/// A conversion: pops a number and pushes it as another kind, or, where the
/// result is a floating-point number, asks for it.
pub open spec fn convert(f: FrameView, conversion: Conversion) -> Result<Step, VmError> {
    if conversion.to_floating() {
        match conversion_request(f, conversion) {
            Ok(request) => ends(
                f.dropped(1).advanced(1),
                CompletionView::FloatArithmetic(request),
            ),
            Err(e) => Err(e),
        }
    } else {
        match converted(f, conversion) {
            Ok(v) => goes_on(f.dropped(1).pushed(v).advanced(1)),
            Err(e) => Err(e),
        }
    }
}

/// The offset of a branch: its two operand bytes, read as a signed number.
pub open spec fn branch_offset(f: FrameView) -> int {
    wrap_i16(wide_operand(f))
}

/// A branch instruction whose operands have been popped, leaving `rest`:
/// where the branch is taken, execution goes on at the address of the
/// branch instruction plus its offset; else behind the instruction.
pub open spec fn branch(f: FrameView, rest: FrameView, taken: bool) -> Result<FrameView, VmError> {
    if !taken {
        Ok(rest.advanced(3))
    } else if 0 <= f.pc + branch_offset(f) < f.bytecode.len() {
        Ok(rest.with_pc(f.pc + branch_offset(f)))
    } else {
        Err(VmError::BranchOutOfRange)
    }
}

/// `if<cond>`: pops an int and branches where the condition holds of it
/// and 0.
pub open spec fn branch_on_zero(f: FrameView, condition: Condition) -> Result<FrameView, VmError> {
    if !f.has_operands(2) {
        Err(VmError::TruncatedImmediate)
    } else {
        match f.int_at(0) {
            Err(e) => Err(e),
            Ok(v) => branch(f, f.dropped(1), condition.holds(v as int, 0)),
        }
    }
}

/// `if_icmp<cond>`: pops two ints, the right one first, and branches where
/// the condition holds of the left and the right.
pub open spec fn branch_on_pair(f: FrameView, condition: Condition) -> Result<FrameView, VmError> {
    if !f.has_operands(2) {
        Err(VmError::TruncatedImmediate)
    } else {
        match f.int_at(0) {
            Err(e) => Err(e),
            Ok(right) => match f.int_at(1) {
                Err(e) => Err(e),
                Ok(left) => branch(f, f.dropped(2), condition.holds(left as int, right as int)),
            },
        }
    }
}

/// Whether `value` is of the kind that a typed return pops.
pub open spec fn is_of_kind(value: ValueView, kind: ReturnKind) -> bool {
    match kind {
        ReturnKind::Int => value is Int,
        ReturnKind::Long => value is Long,
        ReturnKind::Float => value is Float,
        ReturnKind::Double => value is Double,
        ReturnKind::Reference => value is Reference,
    }
}

/// `ireturn`, `lreturn`, `freturn`, `dreturn`, `areturn`: pops a value of
/// the kind and returns it.
pub open spec fn return_value(f: FrameView, kind: ReturnKind) -> Result<Step, VmError> {
    match f.value_at(0) {
        Err(e) => Err(e),
        Ok(v) => if is_of_kind(v, kind) {
            ends(f.dropped(1), CompletionView::ReturnFromMethod(Some(v)))
        } else {
            Err(VmError::TypeMismatch)
        },
    }
}

/// The class whose field `out` is the standard output stream.
pub open spec fn system_class() -> Seq<char> {
    "java/lang/System"@
}

/// The name of the standard output stream in its class.
pub open spec fn out_field() -> Seq<char> {
    "out"@
}

/// The reference that stands for the standard output stream.
pub open spec fn system_out() -> Seq<char> {
    "System.out"@
}

/// The class whose methods print.
pub open spec fn print_stream_class() -> Seq<char> {
    "java/io/PrintStream"@
}

/// What `getstatic` pushes for a field: the stand-in for `System.out`, or
/// what is stored under the field's key, if anything.
pub open spec fn static_value(statics: Statics, class_name: Seq<char>, field_name: Seq<char>)
    -> Option<ValueView> {
    if class_name == system_class() && field_name == out_field() {
        Some(ValueView::Reference(system_out()))
    } else if statics.contains_key(field_key(class_name, field_name)) {
        Some(statics[field_key(class_name, field_name)])
    } else {
        None
    }
}

/// `getstatic`: pushes the value of the field that the `Fieldref` at the
/// index in the operand bytes names. Nothing is pushed where the reference
/// does not resolve or the field holds nothing.
pub open spec fn getstatic(f: FrameView, class: ClassFileView, statics: Statics) -> Result<
    FrameView,
    VmError,
> {
    if !f.has_operands(2) {
        Err(VmError::TruncatedImmediate)
    } else {
        match class.field_info(wide_operand(f)) {
            Some((class_name, field_name, _)) => Ok(
                pushed_if(f, static_value(statics, class_name, field_name)).advanced(3),
            ),
            None => Ok(f.advanced(3)),
        }
    }
}

/// `putstatic`: pops a value and stores it under the key of the field that
/// the `Fieldref` names. Where the reference does not resolve the value is
/// popped and nothing is stored.
pub open spec fn putstatic(f: FrameView, class: ClassFileView, statics: Statics) -> Result<
    Effect,
    VmError,
> {
    if !f.has_operands(2) {
        Err(VmError::TruncatedImmediate)
    } else {
        match f.value_at(0) {
            Err(e) => Err(e),
            Ok(v) => match class.field_info(wide_operand(f)) {
                Some((class_name, field_name, _)) => proceed(
                    f.dropped(1).advanced(3),
                    statics.insert(field_key(class_name, field_name), v),
                ),
                None => proceed(f.dropped(1).advanced(3), statics),
            },
        }
    }
}

/// `invokevirtual`: a method of `java/io/PrintStream` pops its argument
/// and its receiver and has the argument printed. A method of another class,
/// or a reference that does not resolve, does nothing.
pub open spec fn invokevirtual(f: FrameView, class: ClassFileView) -> Result<Step, VmError> {
    if !f.has_operands(2) {
        Err(VmError::TruncatedImmediate)
    } else {
        match class.method_info(wide_operand(f)) {
            Some((class_name, _, _)) => if class_name == print_stream_class() {
                if f.stack.len() < 2 {
                    Err(VmError::StackUnderflow)
                } else {
                    ends(f.dropped(2).advanced(3), CompletionView::PrintLine(f.top(0)))
                }
            } else {
                goes_on(f.advanced(3))
            },
            None => goes_on(f.advanced(3)),
        }
    }
}

/// `invokespecial`: does nothing.
pub open spec fn invokespecial(f: FrameView) -> Result<FrameView, VmError> {
    if !f.has_operands(2) {
        Err(VmError::TruncatedImmediate)
    } else {
        Ok(f.advanced(3))
    }
}

/// `invokestatic`: pops as many arguments as the descriptor of the
/// `Methodref` has parameters, the last argument from the top, and invokes
/// the first method of the class with the name, on the arguments in call
/// order. `room` says whether the call stack takes one more frame. Where
/// the class has no method of that name the arguments are popped and
/// nothing is invoked; where the reference does not resolve, nothing
/// happens.
pub open spec fn invokestatic(f: FrameView, class: ClassFileView, room: bool) -> Result<
    Step,
    VmError,
> {
    if !f.has_operands(2) {
        Err(VmError::TruncatedImmediate)
    } else {
        match class.method_info(wide_operand(f)) {
            None => goes_on(f.advanced(3)),
            Some((_, method_name, descriptor)) => {
                let count = count_params(descriptor) as int;
                let args = f.stack.subrange(f.stack.len() - count, f.stack.len() as int);
                if f.stack.len() < count {
                    Err(VmError::StackUnderflow)
                } else {
                    match class.find_method(method_name) {
                        None => goes_on(f.dropped(count).advanced(3)),
                        Some(i) => match class.methods[i].code() {
                            None => Err(VmError::MalformedCode),
                            Some(code) => if !arguments_fit(args, code.max_locals as nat) {
                                Err(VmError::ArgumentOutOfLocals)
                            } else if !room {
                                Err(VmError::StackOverflow)
                            } else {
                                ends(
                                    f.dropped(count).advanced(3),
                                    CompletionView::InvokeMethod(
                                        invoked(
                                            method_name,
                                            code.max_locals as nat,
                                            code.bytecode,
                                            args,
                                        ),
                                    ),
                                )
                            },
                        },
                    }
                }
            },
        }
    }
}

/// The effect of an instruction that leaves the static fields as they
/// are.
pub open spec fn on_step(result: Result<Step, VmError>, statics: Statics) -> Result<
    Effect,
    VmError,
> {
    match result {
        Ok(step) => complete(step.frame, statics, step.completion),
        Err(e) => Err(e),
    }
}

/// With a frame-only result, the effect of an instruction that lets
/// execution go on.
pub open spec fn on_frame(result: Result<FrameView, VmError>, statics: Statics) -> Result<
    Effect,
    VmError,
> {
    match result {
        Ok(frame) => proceed(frame, statics),
        Err(e) => Err(e),
    }
}

/// What the instruction `opcode` does to a frame and the static fields.
/// `room` says whether the call stack takes one more frame.
pub open spec fn execute(
    opcode: Opcode,
    f: FrameView,
    class: ClassFileView,
    statics: Statics,
    room: bool,
) -> Result<Effect, VmError> {
    if !f.has_operands(0) {
        Err(VmError::PcOutOfRange)
    } else {
        match opcode {
            Opcode::Iconstm1 => on_frame(push_constant(f, MINUS_ONE), statics),
            Opcode::Iconst0 => on_frame(push_constant(f, 0), statics),
            Opcode::Iconst1 => on_frame(push_constant(f, 1), statics),
            Opcode::Iconst2 => on_frame(push_constant(f, 2), statics),
            Opcode::Iconst3 => on_frame(push_constant(f, 3), statics),
            Opcode::Iconst4 => on_frame(push_constant(f, 4), statics),
            Opcode::Iconst5 => on_frame(push_constant(f, 5), statics),
            Opcode::Bipush => on_frame(bipush(f), statics),
            Opcode::Sipush => on_frame(sipush(f), statics),
            Opcode::Ldc => on_frame(ldc(f, class), statics),
            Opcode::Ldc2_w => on_frame(ldc2_w(f, class), statics),
            Opcode::Iload | Opcode::Lload | Opcode::Fload | Opcode::Dload => on_frame(
                load(f, false),
                statics,
            ),
            Opcode::Iload0 | Opcode::Lload0 | Opcode::Fload0 | Opcode::Dload0 => on_frame(
                load_local(f, 0, 1, false),
                statics,
            ),
            Opcode::Iload1 | Opcode::Lload1 | Opcode::Fload1 | Opcode::Dload1 => on_frame(
                load_local(f, 1, 1, false),
                statics,
            ),
            Opcode::Iload2 | Opcode::Lload2 | Opcode::Fload2 | Opcode::Dload2 => on_frame(
                load_local(f, 2, 1, false),
                statics,
            ),
            Opcode::Iload3 | Opcode::Lload3 | Opcode::Fload3 | Opcode::Dload3 => on_frame(
                load_local(f, 3, 1, false),
                statics,
            ),
            Opcode::Aload => on_frame(load(f, true), statics),
            Opcode::Aload_0 => on_frame(load_local(f, 0, 1, true), statics),
            Opcode::Aload_1 => on_frame(load_local(f, 1, 1, true), statics),
            Opcode::Aload_2 => on_frame(load_local(f, 2, 1, true), statics),
            Opcode::Aload_3 => on_frame(load_local(f, 3, 1, true), statics),
            Opcode::Aaload => on_frame(aaload(f), statics),
            Opcode::Istore
            | Opcode::Lstore
            | Opcode::Fstore
            | Opcode::Dstore
            | Opcode::Astore => on_frame(store(f), statics),
            Opcode::Istore_0
            | Opcode::Lstore_0
            | Opcode::Fstore_0
            | Opcode::Dstore_0
            | Opcode::Astore_0 => on_frame(store_local(f, 0, 1), statics),
            Opcode::Istore_1
            | Opcode::Lstore_1
            | Opcode::Fstore_1
            | Opcode::Dstore_1
            | Opcode::Astore_1 => on_frame(store_local(f, 1, 1), statics),
            Opcode::Istore_2
            | Opcode::Lstore_2
            | Opcode::Fstore_2
            | Opcode::Dstore_2
            | Opcode::Astore_2 => on_frame(store_local(f, 2, 1), statics),
            Opcode::Istore_3
            | Opcode::Lstore_3
            | Opcode::Fstore_3
            | Opcode::Dstore_3
            | Opcode::Astore_3 => on_frame(store_local(f, 3, 1), statics),
            Opcode::Iadd => on_frame(int_binary(f, IntOp::Add), statics),
            Opcode::Ladd => on_frame(long_binary(f, IntOp::Add), statics),
            Opcode::Fadd => on_step(float_binary(f, FloatOp::Add), statics),
            Opcode::Dadd => on_step(double_binary(f, FloatOp::Add), statics),
            Opcode::Isub => on_frame(int_binary(f, IntOp::Sub), statics),
            Opcode::Lsub => on_frame(long_binary(f, IntOp::Sub), statics),
            Opcode::Fsub => on_step(float_binary(f, FloatOp::Sub), statics),
            Opcode::Dsub => on_step(double_binary(f, FloatOp::Sub), statics),
            Opcode::Imul => on_frame(int_binary(f, IntOp::Mul), statics),
            Opcode::Lmul => on_frame(long_binary(f, IntOp::Mul), statics),
            Opcode::Fmul => on_step(float_binary(f, FloatOp::Mul), statics),
            Opcode::Dmul => on_step(double_binary(f, FloatOp::Mul), statics),
            Opcode::Idiv => on_frame(int_binary(f, IntOp::Div), statics),
            Opcode::Ldiv => on_frame(long_binary(f, IntOp::Div), statics),
            Opcode::Fdiv => on_step(float_binary(f, FloatOp::Div), statics),
            Opcode::Ddiv => on_step(double_binary(f, FloatOp::Div), statics),
            Opcode::Irem => on_frame(int_binary(f, IntOp::Rem), statics),
            Opcode::Lrem => on_frame(long_binary(f, IntOp::Rem), statics),
            Opcode::Frem => on_step(float_binary(f, FloatOp::Rem), statics),
            Opcode::Drem => on_step(double_binary(f, FloatOp::Rem), statics),
            Opcode::Ineg => on_frame(int_negate(f), statics),
            Opcode::Lneg => on_frame(long_negate(f), statics),
            Opcode::Fneg => on_frame(float_negate(f), statics),
            Opcode::Dneg => on_frame(double_negate(f), statics),
            Opcode::Iinc => on_frame(iinc(f), statics),
            Opcode::I2l => on_step(convert(f, Conversion::I2l), statics),
            Opcode::I2f => on_step(convert(f, Conversion::I2f), statics),
            Opcode::I2d => on_step(convert(f, Conversion::I2d), statics),
            Opcode::L2i => on_step(convert(f, Conversion::L2i), statics),
            Opcode::L2f => on_step(convert(f, Conversion::L2f), statics),
            Opcode::L2d => on_step(convert(f, Conversion::L2d), statics),
            Opcode::F2i => on_step(convert(f, Conversion::F2i), statics),
            Opcode::F2l => on_step(convert(f, Conversion::F2l), statics),
            Opcode::F2d => on_step(convert(f, Conversion::F2d), statics),
            Opcode::D2i => on_step(convert(f, Conversion::D2i), statics),
            Opcode::D2l => on_step(convert(f, Conversion::D2l), statics),
            Opcode::D2f => on_step(convert(f, Conversion::D2f), statics),
            Opcode::I2b => on_step(convert(f, Conversion::I2b), statics),
            Opcode::I2c => on_step(convert(f, Conversion::I2c), statics),
            Opcode::I2s => on_step(convert(f, Conversion::I2s), statics),
            Opcode::Ifeq => on_frame(branch_on_zero(f, Condition::Eq), statics),
            Opcode::Ifne => on_frame(branch_on_zero(f, Condition::Ne), statics),
            Opcode::Iflt => on_frame(branch_on_zero(f, Condition::Lt), statics),
            Opcode::Ifge => on_frame(branch_on_zero(f, Condition::Ge), statics),
            Opcode::Ifgt => on_frame(branch_on_zero(f, Condition::Gt), statics),
            Opcode::Ifle => on_frame(branch_on_zero(f, Condition::Le), statics),
            Opcode::If_icmpeq => on_frame(branch_on_pair(f, Condition::Eq), statics),
            Opcode::If_icmpne => on_frame(branch_on_pair(f, Condition::Ne), statics),
            Opcode::If_icmplt => on_frame(branch_on_pair(f, Condition::Lt), statics),
            Opcode::If_icmpge => on_frame(branch_on_pair(f, Condition::Ge), statics),
            Opcode::If_icmpgt => on_frame(branch_on_pair(f, Condition::Gt), statics),
            Opcode::If_icmple => on_frame(branch_on_pair(f, Condition::Le), statics),
            Opcode::Ireturn => on_step(return_value(f, ReturnKind::Int), statics),
            Opcode::Lreturn => on_step(return_value(f, ReturnKind::Long), statics),
            Opcode::Freturn => on_step(return_value(f, ReturnKind::Float), statics),
            Opcode::Dreturn => on_step(return_value(f, ReturnKind::Double), statics),
            Opcode::Areturn => on_step(return_value(f, ReturnKind::Reference), statics),
            Opcode::Return => complete(f, statics, CompletionView::ReturnFromMethod(None)),
            Opcode::Getstatic => on_frame(getstatic(f, class, statics), statics),
            Opcode::Putstatic => putstatic(f, class, statics),
            Opcode::Invokevirtual => on_step(invokevirtual(f, class), statics),
            Opcode::Invokespecial => on_frame(invokespecial(f), statics),
            Opcode::Invokestatic => on_step(invokestatic(f, class, room), statics),
        }
    }
}

/// One turn of the fetch-decode-execute loop on a frame: the instruction at
/// the program counter is decoded and executed. A program counter behind
/// the last instruction ends the method without a value; a byte that
/// stands for no instruction is an error.
pub open spec fn fetch_execute(f: FrameView, class: ClassFileView, statics: Statics, room: bool)
    -> Result<Effect, VmError> {
    if !f.has_operands(0) {
        complete(f, statics, CompletionView::ReturnFromMethod(None))
    } else {
        match Opcode::decode(f.bytecode[f.pc]) {
            Some(opcode) => execute(opcode, f, class, statics, room),
            None => Err(VmError::UnknownOpcode(f.bytecode[f.pc])),
        }
    }
}

/// Where a run of a frame stands: the frame, the static fields, and how
/// the last instruction ended.
pub struct FrameRun {
    pub frame: FrameView,
    pub statics: Statics,
    pub outcome: Result<CompletionView, VmError>,
}

/// The fetch-decode-execute loop on a frame, for `fuel` instructions at
/// most: it runs as long as instructions let execution go on, and stops at
/// the first that ends otherwise or fails. With the fuel used up the
/// outcome is that execution goes on.
pub open spec fn frame_run(
    f: FrameView,
    class: ClassFileView,
    statics: Statics,
    room: bool,
    fuel: nat,
) -> FrameRun
    decreases fuel,
{
    if fuel == 0 {
        FrameRun { frame: f, statics, outcome: Ok(CompletionView::ContinueMethodExecution) }
    } else {
        match fetch_execute(f, class, statics, room) {
            Err(e) => FrameRun { frame: f, statics, outcome: Err(e) },
            Ok(effect) => if effect.completion is ContinueMethodExecution {
                frame_run(effect.frame, class, effect.statics, room, (fuel - 1) as nat)
            } else {
                FrameRun {
                    frame: effect.frame,
                    statics: effect.statics,
                    outcome: Ok(effect.completion),
                }
            },
        }
    }
}

} // verus!
