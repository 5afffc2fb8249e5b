use vstd::prelude::*;
use crate::parser::class_file::ClassFile;
use crate::parser::constant_pool_info::CpInfo;
use crate::parser::opcode::Opcode;
use crate::text::{chars_of, make_field_key, str_equal};
use crate::vm::call_stack::CallStack;
use crate::vm::completion::{CompletionView, FloatOp, FloatRequest, InstructionCompleted};
use crate::vm::descriptor::{ScanState, count_from, count_params, opening};
use crate::vm::error::VmError;
use crate::vm::float_bits::{d2i, d2l, dneg, f2i, f2l, fneg};
use crate::vm::numeric::{
    double_word,
    i2b,
    i2c,
    i2l,
    i2s,
    iadd,
    idiv,
    imul,
    ineg,
    irem,
    isub,
    l2i,
    ladd,
    ldiv,
    lmul,
    lneg,
    lrem,
    lsub,
    signed_byte,
    signed_long,
    signed_short,
    unsigned_short,
};
use crate::vm::runtime::RuntimeDataArea;
use crate::vm::semantics;
use crate::vm::semantics::{Condition, Conversion, Effect, IntOp, ReturnKind, Step};
use crate::vm::stack_frame::{Frame, FrameView};
use crate::vm::value::{Value, ValueView, values_view};

verus! {

/// Executes single instructions on a frame.
pub struct InstructionExecutor;

/// Whether a frame `after` and a result `r` are what `expected` asks of an
/// instruction on the frame `before` that lets execution go on.
pub open spec fn frame_step(
    expected: Result<FrameView, VmError>,
    before: FrameView,
    after: FrameView,
    r: Result<InstructionCompleted, VmError>,
) -> bool {
    match expected {
        Ok(frame) => after == frame && r is Ok && r->Ok_0@
            == CompletionView::ContinueMethodExecution,
        Err(e) => after == before && r is Err && r->Err_0 == e,
    }
}

/// Whether a frame `after` and a result `r` are what `expected` asks of
/// an instruction on the frame `before` that leaves the static fields
/// alone.
pub open spec fn ended_step(
    expected: Result<Step, VmError>,
    before: FrameView,
    after: FrameView,
    r: Result<InstructionCompleted, VmError>,
) -> bool {
    match expected {
        Ok(step) => after == step.frame && r is Ok && r->Ok_0@ == step.completion,
        Err(e) => after == before && r is Err && r->Err_0 == e,
    }
}

/// Whether a frame, static fields and a result are what `expected` asks of
/// an instruction.
pub open spec fn full_step(
    expected: Result<Effect, VmError>,
    before: FrameView,
    statics_before: semantics::Statics,
    after: FrameView,
    statics_after: semantics::Statics,
    r: Result<InstructionCompleted, VmError>,
) -> bool {
    match expected {
        Ok(effect) => after == effect.frame && statics_after == effect.statics && r is Ok
            && r->Ok_0@ == effect.completion,
        Err(e) => after == before && statics_after == statics_before && r is Err && r->Err_0
            == e,
    }
}

impl InstructionExecutor {
    pub fn new() -> Self {
        InstructionExecutor {  }
    }

    /// Executes the instruction `opcode` on `frame`, whose program counter
    /// stands at the instruction. `call_stack` holds the frames below
    /// `frame`. Where execution goes on, the program counter then stands at
    /// the instruction to execute next.
    pub fn execute_instruction(
        &self,
        opcode: Opcode,
        frame: &mut Frame,
        class_file: &ClassFile,
        runtime_data_area: &mut RuntimeDataArea,
        call_stack: &CallStack,
    ) -> (r: Result<InstructionCompleted, VmError>)
        ensures
            full_step(
                semantics::execute(
                    opcode,
                    old(frame)@,
                    class_file@,
                    old(runtime_data_area)@,
                    call_stack.room_above(),
                ),
                old(frame)@,
                old(runtime_data_area)@,
                final(frame)@,
                final(runtime_data_area)@,
                r,
            ),
    {
        if !frame.has_operands(0) {
            return Err(VmError::PcOutOfRange);
        }
        match opcode {
            Opcode::Iconstm1 => self.execute_iconst(frame, semantics::MINUS_ONE),
            Opcode::Iconst0 => self.execute_iconst(frame, 0),
            Opcode::Iconst1 => self.execute_iconst(frame, 1),
            Opcode::Iconst2 => self.execute_iconst(frame, 2),
            Opcode::Iconst3 => self.execute_iconst(frame, 3),
            Opcode::Iconst4 => self.execute_iconst(frame, 4),
            Opcode::Iconst5 => self.execute_iconst(frame, 5),
            Opcode::Bipush => self.execute_bipush(frame),
            Opcode::Sipush => self.execute_sipush(frame),
            Opcode::Ldc => self.execute_ldc(frame, class_file),
            Opcode::Ldc2_w => self.execute_ldc2_w(frame, class_file),
            Opcode::Iload | Opcode::Lload | Opcode::Fload | Opcode::Dload => self.execute_load(
                frame,
                false,
            ),
            Opcode::Iload0 | Opcode::Lload0 | Opcode::Fload0 | Opcode::Dload0 => self.load_local(
                frame,
                0,
                1,
                false,
            ),
            Opcode::Iload1 | Opcode::Lload1 | Opcode::Fload1 | Opcode::Dload1 => self.load_local(
                frame,
                1,
                1,
                false,
            ),
            Opcode::Iload2 | Opcode::Lload2 | Opcode::Fload2 | Opcode::Dload2 => self.load_local(
                frame,
                2,
                1,
                false,
            ),
            Opcode::Iload3 | Opcode::Lload3 | Opcode::Fload3 | Opcode::Dload3 => self.load_local(
                frame,
                3,
                1,
                false,
            ),
            Opcode::Aload => self.execute_load(frame, true),
            Opcode::Aload_0 => self.load_local(frame, 0, 1, true),
            Opcode::Aload_1 => self.load_local(frame, 1, 1, true),
            Opcode::Aload_2 => self.load_local(frame, 2, 1, true),
            Opcode::Aload_3 => self.load_local(frame, 3, 1, true),
            Opcode::Aaload => self.execute_aaload(frame),
            Opcode::Istore
            | Opcode::Lstore
            | Opcode::Fstore
            | Opcode::Dstore
            | Opcode::Astore => self.execute_store(frame),
            Opcode::Istore_0
            | Opcode::Lstore_0
            | Opcode::Fstore_0
            | Opcode::Dstore_0
            | Opcode::Astore_0 => self.store_local(frame, 0, 1),
            Opcode::Istore_1
            | Opcode::Lstore_1
            | Opcode::Fstore_1
            | Opcode::Dstore_1
            | Opcode::Astore_1 => self.store_local(frame, 1, 1),
            Opcode::Istore_2
            | Opcode::Lstore_2
            | Opcode::Fstore_2
            | Opcode::Dstore_2
            | Opcode::Astore_2 => self.store_local(frame, 2, 1),
            Opcode::Istore_3
            | Opcode::Lstore_3
            | Opcode::Fstore_3
            | Opcode::Dstore_3
            | Opcode::Astore_3 => self.store_local(frame, 3, 1),
            Opcode::Iadd => self.execute_int_binary(frame, IntOp::Add),
            Opcode::Ladd => self.execute_long_binary(frame, IntOp::Add),
            Opcode::Fadd => self.execute_float_binary(frame, FloatOp::Add),
            Opcode::Dadd => self.execute_double_binary(frame, FloatOp::Add),
            Opcode::Isub => self.execute_int_binary(frame, IntOp::Sub),
            Opcode::Lsub => self.execute_long_binary(frame, IntOp::Sub),
            Opcode::Fsub => self.execute_float_binary(frame, FloatOp::Sub),
            Opcode::Dsub => self.execute_double_binary(frame, FloatOp::Sub),
            Opcode::Imul => self.execute_int_binary(frame, IntOp::Mul),
            Opcode::Lmul => self.execute_long_binary(frame, IntOp::Mul),
            Opcode::Fmul => self.execute_float_binary(frame, FloatOp::Mul),
            Opcode::Dmul => self.execute_double_binary(frame, FloatOp::Mul),
            Opcode::Idiv => self.execute_int_binary(frame, IntOp::Div),
            Opcode::Ldiv => self.execute_long_binary(frame, IntOp::Div),
            Opcode::Fdiv => self.execute_float_binary(frame, FloatOp::Div),
            Opcode::Ddiv => self.execute_double_binary(frame, FloatOp::Div),
            Opcode::Irem => self.execute_int_binary(frame, IntOp::Rem),
            Opcode::Lrem => self.execute_long_binary(frame, IntOp::Rem),
            Opcode::Frem => self.execute_float_binary(frame, FloatOp::Rem),
            Opcode::Drem => self.execute_double_binary(frame, FloatOp::Rem),
            Opcode::Ineg => self.execute_ineg(frame),
            Opcode::Lneg => self.execute_lneg(frame),
            Opcode::Fneg => self.execute_fneg(frame),
            Opcode::Dneg => self.execute_dneg(frame),
            Opcode::Iinc => self.execute_iinc(frame),
            Opcode::I2l => self.execute_conversion(frame, Conversion::I2l),
            Opcode::I2f => self.execute_conversion(frame, Conversion::I2f),
            Opcode::I2d => self.execute_conversion(frame, Conversion::I2d),
            Opcode::L2i => self.execute_conversion(frame, Conversion::L2i),
            Opcode::L2f => self.execute_conversion(frame, Conversion::L2f),
            Opcode::L2d => self.execute_conversion(frame, Conversion::L2d),
            Opcode::F2i => self.execute_conversion(frame, Conversion::F2i),
            Opcode::F2l => self.execute_conversion(frame, Conversion::F2l),
            Opcode::F2d => self.execute_conversion(frame, Conversion::F2d),
            Opcode::D2i => self.execute_conversion(frame, Conversion::D2i),
            Opcode::D2l => self.execute_conversion(frame, Conversion::D2l),
            Opcode::D2f => self.execute_conversion(frame, Conversion::D2f),
            Opcode::I2b => self.execute_conversion(frame, Conversion::I2b),
            Opcode::I2c => self.execute_conversion(frame, Conversion::I2c),
            Opcode::I2s => self.execute_conversion(frame, Conversion::I2s),
            Opcode::Ifeq => self.execute_if(frame, Condition::Eq),
            Opcode::Ifne => self.execute_if(frame, Condition::Ne),
            Opcode::Iflt => self.execute_if(frame, Condition::Lt),
            Opcode::Ifge => self.execute_if(frame, Condition::Ge),
            Opcode::Ifgt => self.execute_if(frame, Condition::Gt),
            Opcode::Ifle => self.execute_if(frame, Condition::Le),
            Opcode::If_icmpeq => self.execute_if_pair(frame, Condition::Eq),
            Opcode::If_icmpne => self.execute_if_pair(frame, Condition::Ne),
            Opcode::If_icmplt => self.execute_if_pair(frame, Condition::Lt),
            Opcode::If_icmpge => self.execute_if_pair(frame, Condition::Ge),
            Opcode::If_icmpgt => self.execute_if_pair(frame, Condition::Gt),
            Opcode::If_icmple => self.execute_if_pair(frame, Condition::Le),
            Opcode::Ireturn => self.execute_return_value(frame, ReturnKind::Int),
            Opcode::Lreturn => self.execute_return_value(frame, ReturnKind::Long),
            Opcode::Freturn => self.execute_return_value(frame, ReturnKind::Float),
            Opcode::Dreturn => self.execute_return_value(frame, ReturnKind::Double),
            Opcode::Areturn => self.execute_return_value(frame, ReturnKind::Reference),
            Opcode::Return => Ok(InstructionCompleted::ReturnFromMethod(None)),
            Opcode::Getstatic => self.execute_getstatic(frame, class_file, runtime_data_area),
            Opcode::Putstatic => self.execute_putstatic(frame, class_file, runtime_data_area),
            Opcode::Invokevirtual => self.execute_invokevirtual(frame, class_file),
            Opcode::Invokespecial => self.execute_invokespecial(frame),
            Opcode::Invokestatic => self.execute_invokestatic(
                frame,
                class_file,
                call_stack.has_room_above(),
            ),
        }
    }

    /// `iconst_<n>`.
    fn execute_iconst(&self, frame: &mut Frame, value: i32) -> (r: Result<
        InstructionCompleted,
        VmError,
    >)
        requires
            old(frame).pc < old(frame).bytecode.len(),
        ensures
            frame_step(semantics::push_constant(old(frame)@, value), old(frame)@, final(frame)@, r),
    {
        frame.push(Value::Int(value));
        frame.advance(1);
        Ok(InstructionCompleted::ContinueMethodExecution)
    }

    /// `bipush`.
    fn execute_bipush(&self, frame: &mut Frame) -> (r: Result<InstructionCompleted, VmError>)
        ensures
            frame_step(semantics::bipush(old(frame)@), old(frame)@, final(frame)@, r),
    {
        if !frame.has_operands(1) {
            return Err(VmError::TruncatedImmediate);
        }
        let value = signed_byte(frame.bytecode[frame.pc + 1]);
        frame.push(Value::Int(value));
        frame.advance(2);
        Ok(InstructionCompleted::ContinueMethodExecution)
    }

    /// `sipush`.
    fn execute_sipush(&self, frame: &mut Frame) -> (r: Result<InstructionCompleted, VmError>)
        ensures
            frame_step(semantics::sipush(old(frame)@), old(frame)@, final(frame)@, r),
    {
        if !frame.has_operands(2) {
            return Err(VmError::TruncatedImmediate);
        }
        let value = signed_short(frame.bytecode[frame.pc + 1], frame.bytecode[frame.pc + 2]);
        frame.push(Value::Int(value));
        frame.advance(3);
        Ok(InstructionCompleted::ContinueMethodExecution)
    }

    /// The constant that `ldc` loads from `index`.
    fn single_constant(&self, class_file: &ClassFile, index: u16) -> (r: Result<
        Option<Value>,
        VmError,
    >)
        ensures
            match r {
                Ok(Some(v)) => semantics::single_constant(class_file@, index as int) == Ok::<
                    Option<ValueView>,
                    VmError,
                >(Some(v@)),
                Ok(None) => semantics::single_constant(class_file@, index as int) == Ok::<
                    Option<ValueView>,
                    VmError,
                >(None),
                Err(e) => semantics::single_constant(class_file@, index as int) == Err::<
                    Option<ValueView>,
                    VmError,
                >(e),
            },
    {
        if index as usize >= class_file.constant_pool.len() {
            return Ok(None);
        }
        match &class_file.constant_pool[index as usize] {
            CpInfo::String { .. } => match class_file.get_string(index) {
                Some(text) => Ok(Some(Value::Reference(text))),
                None => Ok(None),
            },
            CpInfo::Integer { .. } => match class_file.get_integer(index) {
                Some(v) => Ok(Some(Value::Int(v))),
                None => Ok(None),
            },
            CpInfo::Float { bytes } => Ok(Some(Value::Float(*bytes))),
            _ => Err(VmError::InvalidConstant(index)),
        }
    }

    /// The constant that `ldc2_w` loads from `index`.
    fn double_constant(&self, class_file: &ClassFile, index: u16) -> (r: Result<
        Option<Value>,
        VmError,
    >)
        ensures
            match r {
                Ok(Some(v)) => semantics::double_constant(class_file@, index as int) == Ok::<
                    Option<ValueView>,
                    VmError,
                >(Some(v@)),
                Ok(None) => semantics::double_constant(class_file@, index as int) == Ok::<
                    Option<ValueView>,
                    VmError,
                >(None),
                Err(e) => semantics::double_constant(class_file@, index as int) == Err::<
                    Option<ValueView>,
                    VmError,
                >(e),
            },
    {
        if index as usize >= class_file.constant_pool.len() {
            return Ok(None);
        }
        match &class_file.constant_pool[index as usize] {
            CpInfo::Long { high_bytes, low_bytes } => Ok(
                Some(Value::Long(signed_long(double_word(*high_bytes, *low_bytes)))),
            ),
            CpInfo::Double { high_bytes, low_bytes } => Ok(
                Some(Value::Double(double_word(*high_bytes, *low_bytes))),
            ),
            _ => Err(VmError::InvalidConstant(index)),
        }
    }

    /// `ldc`.
    fn execute_ldc(&self, frame: &mut Frame, class_file: &ClassFile) -> (r: Result<
        InstructionCompleted,
        VmError,
    >)
        ensures
            frame_step(semantics::ldc(old(frame)@, class_file@), old(frame)@, final(frame)@, r),
    {
        if !frame.has_operands(1) {
            return Err(VmError::TruncatedImmediate);
        }
        let index = frame.bytecode[frame.pc + 1] as u16;
        match self.single_constant(class_file, index)? {
            Some(v) => frame.push(v),
            None => {},
        }
        frame.advance(2);
        Ok(InstructionCompleted::ContinueMethodExecution)
    }

    /// `ldc2_w`.
    fn execute_ldc2_w(&self, frame: &mut Frame, class_file: &ClassFile) -> (r: Result<
        InstructionCompleted,
        VmError,
    >)
        ensures
            frame_step(semantics::ldc2_w(old(frame)@, class_file@), old(frame)@, final(frame)@, r),
    {
        if !frame.has_operands(2) {
            return Err(VmError::TruncatedImmediate);
        }
        let index = unsigned_short(frame.bytecode[frame.pc + 1], frame.bytecode[frame.pc + 2]);
        match self.double_constant(class_file, index)? {
            Some(v) => frame.push(v),
            None => {},
        }
        frame.advance(3);
        Ok(InstructionCompleted::ContinueMethodExecution)
    }

    /// A load of local variable `index` by an instruction of `length`
    /// bytes.
    fn load_local(&self, frame: &mut Frame, index: usize, length: usize, strict: bool) -> (r:
        Result<InstructionCompleted, VmError>)
        requires
            old(frame).pc + length <= old(frame).bytecode.len(),
        ensures
            frame_step(
                semantics::load_local(old(frame)@, index as int, length as int, strict),
                old(frame)@,
                final(frame)@,
                r,
            ),
    {
        let loaded = match frame.local_variables.get(index) {
            Some(v) => Some(v.clone()),
            None => None,
        };
        match loaded {
            Some(v) => frame.push(v),
            None => {
                if strict {
                    return Err(VmError::UninitializedLocal(index));
                }
            },
        }
        frame.advance(length);
        Ok(InstructionCompleted::ContinueMethodExecution)
    }

    /// `iload`, `lload`, `fload`, `dload` and, with `strict`, `aload`.
    fn execute_load(&self, frame: &mut Frame, strict: bool) -> (r: Result<
        InstructionCompleted,
        VmError,
    >)
        ensures
            frame_step(semantics::load(old(frame)@, strict), old(frame)@, final(frame)@, r),
    {
        if !frame.has_operands(1) {
            return Err(VmError::TruncatedImmediate);
        }
        let index = frame.bytecode[frame.pc + 1] as usize;
        self.load_local(frame, index, 2, strict)
    }

    /// `aaload`.
    fn execute_aaload(&self, frame: &mut Frame) -> (r: Result<InstructionCompleted, VmError>)
        requires
            old(frame).pc < old(frame).bytecode.len(),
        ensures
            frame_step(semantics::aaload(old(frame)@), old(frame)@, final(frame)@, r),
    {
        let index = frame.int_at(0)?;
        let item = match frame.value_at(1)? {
            Value::Array(items) => {
                proof {
                    crate::vm::value::lemma_array_view(*items);
                }
                if 0 <= index && (index as usize) < items.len() {
                    items[index as usize].clone()
                } else {
                    return Err(VmError::ArrayIndexOutOfBounds(index));
                }
            },
            _ => {
                return Err(VmError::NotAnArray);
            },
        };
        frame.drop_operands(2);
        frame.push(item);
        frame.advance(1);
        Ok(InstructionCompleted::ContinueMethodExecution)
    }

    /// A store to local variable `index` by an instruction of `length`
    /// bytes.
    fn store_local(&self, frame: &mut Frame, index: usize, length: usize) -> (r: Result<
        InstructionCompleted,
        VmError,
    >)
        requires
            old(frame).pc + length <= old(frame).bytecode.len(),
        ensures
            frame_step(
                semantics::store_local(old(frame)@, index as int, length as int),
                old(frame)@,
                final(frame)@,
                r,
            ),
    {
        let value = frame.pop()?;
        frame.local_variables.set(index, value);
        frame.advance(length);
        Ok(InstructionCompleted::ContinueMethodExecution)
    }

    /// `istore`, `lstore`, `fstore`, `dstore`, `astore`.
    fn execute_store(&self, frame: &mut Frame) -> (r: Result<InstructionCompleted, VmError>)
        ensures
            frame_step(semantics::store(old(frame)@), old(frame)@, final(frame)@, r),
    {
        if !frame.has_operands(1) {
            return Err(VmError::TruncatedImmediate);
        }
        let index = frame.bytecode[frame.pc + 1] as usize;
        self.store_local(frame, index, 2)
    }

    /// `iadd`, `isub`, `imul`, `idiv`, `irem`.
    fn execute_int_binary(&self, frame: &mut Frame, op: IntOp) -> (r: Result<
        InstructionCompleted,
        VmError,
    >)
        requires
            old(frame).pc < old(frame).bytecode.len(),
        ensures
            frame_step(semantics::int_binary(old(frame)@, op), old(frame)@, final(frame)@, r),
    {
        let right = frame.int_at(0)?;
        let left = frame.int_at(1)?;
        let value = match op {
            IntOp::Add => iadd(left, right),
            IntOp::Sub => isub(left, right),
            IntOp::Mul => imul(left, right),
            IntOp::Div => match idiv(left, right) {
                Some(v) => v,
                None => {
                    return Err(VmError::DivisionByZero);
                },
            },
            IntOp::Rem => match irem(left, right) {
                Some(v) => v,
                None => {
                    return Err(VmError::DivisionByZero);
                },
            },
        };
        frame.drop_operands(2);
        frame.push(Value::Int(value));
        frame.advance(1);
        Ok(InstructionCompleted::ContinueMethodExecution)
    }

    /// `ladd`, `lsub`, `lmul`, `ldiv`, `lrem`.
    fn execute_long_binary(&self, frame: &mut Frame, op: IntOp) -> (r: Result<
        InstructionCompleted,
        VmError,
    >)
        requires
            old(frame).pc < old(frame).bytecode.len(),
        ensures
            frame_step(semantics::long_binary(old(frame)@, op), old(frame)@, final(frame)@, r),
    {
        let right = frame.long_at(0)?;
        let left = frame.long_at(1)?;
        let value = match op {
            IntOp::Add => ladd(left, right),
            IntOp::Sub => lsub(left, right),
            IntOp::Mul => lmul(left, right),
            IntOp::Div => match ldiv(left, right) {
                Some(v) => v,
                None => {
                    return Err(VmError::DivisionByZero);
                },
            },
            IntOp::Rem => match lrem(left, right) {
                Some(v) => v,
                None => {
                    return Err(VmError::DivisionByZero);
                },
            },
        };
        frame.drop_operands(2);
        frame.push(Value::Long(value));
        frame.advance(1);
        Ok(InstructionCompleted::ContinueMethodExecution)
    }

    /// `ineg`.
    fn execute_ineg(&self, frame: &mut Frame) -> (r: Result<InstructionCompleted, VmError>)
        requires
            old(frame).pc < old(frame).bytecode.len(),
        ensures
            frame_step(semantics::int_negate(old(frame)@), old(frame)@, final(frame)@, r),
    {
        let value = frame.int_at(0)?;
        frame.drop_operands(1);
        frame.push(Value::Int(ineg(value)));
        frame.advance(1);
        Ok(InstructionCompleted::ContinueMethodExecution)
    }

    /// `lneg`.
    fn execute_lneg(&self, frame: &mut Frame) -> (r: Result<InstructionCompleted, VmError>)
        requires
            old(frame).pc < old(frame).bytecode.len(),
        ensures
            frame_step(semantics::long_negate(old(frame)@), old(frame)@, final(frame)@, r),
    {
        let value = frame.long_at(0)?;
        frame.drop_operands(1);
        frame.push(Value::Long(lneg(value)));
        frame.advance(1);
        Ok(InstructionCompleted::ContinueMethodExecution)
    }

    /// `fneg`.
    fn execute_fneg(&self, frame: &mut Frame) -> (r: Result<InstructionCompleted, VmError>)
        requires
            old(frame).pc < old(frame).bytecode.len(),
        ensures
            frame_step(semantics::float_negate(old(frame)@), old(frame)@, final(frame)@, r),
    {
        let bits = frame.float_at(0)?;
        frame.drop_operands(1);
        frame.push(Value::Float(fneg(bits)));
        frame.advance(1);
        Ok(InstructionCompleted::ContinueMethodExecution)
    }

    /// `dneg`.
    fn execute_dneg(&self, frame: &mut Frame) -> (r: Result<InstructionCompleted, VmError>)
        requires
            old(frame).pc < old(frame).bytecode.len(),
        ensures
            frame_step(semantics::double_negate(old(frame)@), old(frame)@, final(frame)@, r),
    {
        let bits = frame.double_at(0)?;
        frame.drop_operands(1);
        frame.push(Value::Double(dneg(bits)));
        frame.advance(1);
        Ok(InstructionCompleted::ContinueMethodExecution)
    }

    /// `fadd`, `fsub`, `fmul`, `fdiv`, `frem`.
    fn execute_float_binary(
        &self,
        frame: &mut Frame,
        op: FloatOp,
    ) -> (r: Result<InstructionCompleted, VmError>)
        requires
            old(frame).pc < old(frame).bytecode.len(),
        ensures
            ended_step(
                semantics::float_binary(old(frame)@, op),
                old(frame)@,
                final(frame)@,
                r,
            ),
    {
        let right = frame.float_at(0)?;
        let left = frame.float_at(1)?;
        frame.drop_operands(2);
        frame.advance(1);
        Ok(InstructionCompleted::FloatArithmetic(FloatRequest::Binary32 { op, left, right }))
    }

    /// `dadd`, `dsub`, `dmul`, `ddiv`, `drem`.
    fn execute_double_binary(
        &self,
        frame: &mut Frame,
        op: FloatOp,
    ) -> (r: Result<InstructionCompleted, VmError>)
        requires
            old(frame).pc < old(frame).bytecode.len(),
        ensures
            ended_step(
                semantics::double_binary(old(frame)@, op),
                old(frame)@,
                final(frame)@,
                r,
            ),
    {
        let right = frame.double_at(0)?;
        let left = frame.double_at(1)?;
        frame.drop_operands(2);
        frame.advance(1);
        Ok(InstructionCompleted::FloatArithmetic(FloatRequest::Binary64 { op, left, right }))
    }

    /// `iinc`.
    fn execute_iinc(&self, frame: &mut Frame) -> (r: Result<InstructionCompleted, VmError>)
        ensures
            frame_step(semantics::iinc(old(frame)@), old(frame)@, final(frame)@, r),
    {
        if !frame.has_operands(2) {
            return Err(VmError::TruncatedImmediate);
        }
        let index = frame.bytecode[frame.pc + 1] as usize;
        let delta = signed_byte(frame.bytecode[frame.pc + 2]);
        let current = match frame.local_variables.get(index) {
            Some(Value::Int(v)) => Some(*v),
            _ => None,
        };
        match current {
            Some(v) => {
                frame.local_variables.set(index, Value::Int(iadd(v, delta)));
            },
            None => {},
        }
        frame.advance(3);
        Ok(InstructionCompleted::ContinueMethodExecution)
    }

    /// The conversions between the kinds of number.
    fn execute_conversion(
        &self,
        frame: &mut Frame,
        conversion: Conversion
    ) -> (r: Result<InstructionCompleted, VmError>)
        requires
            old(frame).pc < old(frame).bytecode.len(),
        ensures
            ended_step(
                semantics::convert(old(frame)@, conversion),
                old(frame)@,
                final(frame)@,
                r,
            ),
    {
        let outcome = match conversion {
            Conversion::I2l => Ok(Value::Long(i2l(frame.int_at(0)?))),
            Conversion::I2b => Ok(Value::Int(i2b(frame.int_at(0)?))),
            Conversion::I2c => Ok(Value::Int(i2c(frame.int_at(0)?))),
            Conversion::I2s => Ok(Value::Int(i2s(frame.int_at(0)?))),
            Conversion::L2i => Ok(Value::Int(l2i(frame.long_at(0)?))),
            Conversion::F2i => Ok(Value::Int(f2i(frame.float_at(0)?))),
            Conversion::F2l => Ok(Value::Long(f2l(frame.float_at(0)?))),
            Conversion::D2i => Ok(Value::Int(d2i(frame.double_at(0)?))),
            Conversion::D2l => Ok(Value::Long(d2l(frame.double_at(0)?))),
            Conversion::I2f => Err(FloatRequest::IntToFloat(frame.int_at(0)?)),
            Conversion::I2d => Err(FloatRequest::IntToDouble(frame.int_at(0)?)),
            Conversion::L2f => Err(FloatRequest::LongToFloat(frame.long_at(0)?)),
            Conversion::L2d => Err(FloatRequest::LongToDouble(frame.long_at(0)?)),
            Conversion::F2d => Err(FloatRequest::FloatToDouble(frame.float_at(0)?)),
            Conversion::D2f => Err(FloatRequest::DoubleToFloat(frame.double_at(0)?)),
        };
        frame.drop_operands(1);
        match outcome {
            Ok(value) => {
                frame.push(value);
                frame.advance(1);
                Ok(InstructionCompleted::ContinueMethodExecution)
            },
            Err(request) => {
                frame.advance(1);
                Ok(InstructionCompleted::FloatArithmetic(request))
            },
        }
    }

    /// Ends a branch instruction that pops `popped` values.
    fn branch(&self, frame: &mut Frame, popped: usize, taken: bool) -> (r: Result<
        InstructionCompleted,
        VmError,
    >)
        requires
            old(frame).pc + 2 < old(frame).bytecode.len(),
            popped <= old(frame)@.stack.len(),
        ensures
            frame_step(
                semantics::branch(old(frame)@, old(frame)@.dropped(popped as int), taken),
                old(frame)@,
                final(frame)@,
                r,
            ),
    {
        if taken {
            let offset = signed_short(frame.bytecode[frame.pc + 1], frame.bytecode[frame.pc + 2]);
            let target: i128 = frame.pc as i128 + offset as i128;
            if target < 0 || target >= frame.bytecode.len() as i128 {
                return Err(VmError::BranchOutOfRange);
            }
            frame.drop_operands(popped);
            frame.pc = target as usize;
        } else {
            frame.drop_operands(popped);
            frame.advance(3);
        }
        Ok(InstructionCompleted::ContinueMethodExecution)
    }

    /// `ifeq`, `ifne`, `iflt`, `ifge`, `ifgt`, `ifle`.
    fn execute_if(&self, frame: &mut Frame, condition: Condition) -> (r: Result<
        InstructionCompleted,
        VmError,
    >)
        ensures
            frame_step(
                semantics::branch_on_zero(old(frame)@, condition),
                old(frame)@,
                final(frame)@,
                r,
            ),
    {
        if !frame.has_operands(2) {
            return Err(VmError::TruncatedImmediate);
        }
        let value = frame.int_at(0)?;
        let taken = holds(condition, value, 0);
        self.branch(frame, 1, taken)
    }

    /// The branches on two ints: the right one is on top.
    fn execute_if_pair(&self, frame: &mut Frame, condition: Condition) -> (r: Result<
        InstructionCompleted,
        VmError,
    >)
        ensures
            frame_step(
                semantics::branch_on_pair(old(frame)@, condition),
                old(frame)@,
                final(frame)@,
                r,
            ),
    {
        if !frame.has_operands(2) {
            return Err(VmError::TruncatedImmediate);
        }
        let right = frame.int_at(0)?;
        let left = frame.int_at(1)?;
        let taken = holds(condition, left, right);
        self.branch(frame, 2, taken)
    }

    /// `ireturn`, `lreturn`, `freturn`, `dreturn`, `areturn`.
    fn execute_return_value(
        &self,
        frame: &mut Frame,
        kind: ReturnKind
    ) -> (r: Result<InstructionCompleted, VmError>)
        ensures
            ended_step(
                semantics::return_value(old(frame)@, kind),
                old(frame)@,
                final(frame)@,
                r,
            ),
    {
        let fits = match (frame.value_at(0)?, kind) {
            (Value::Int(_), ReturnKind::Int) => true,
            (Value::Long(_), ReturnKind::Long) => true,
            (Value::Float(_), ReturnKind::Float) => true,
            (Value::Double(_), ReturnKind::Double) => true,
            (Value::Reference(_), ReturnKind::Reference) => true,
            _ => false,
        };
        if !fits {
            return Err(VmError::TypeMismatch);
        }
        let value = frame.pop()?;
        Ok(InstructionCompleted::ReturnFromMethod(Some(value)))
    }

    /// `getstatic`.
    fn execute_getstatic(
        &self,
        frame: &mut Frame,
        class_file: &ClassFile,
        runtime_data_area: &RuntimeDataArea,
    ) -> (r: Result<InstructionCompleted, VmError>)
        ensures
            frame_step(
                semantics::getstatic(old(frame)@, class_file@, runtime_data_area@),
                old(frame)@,
                final(frame)@,
                r,
            ),
    {
        if !frame.has_operands(2) {
            return Err(VmError::TruncatedImmediate);
        }
        let index = unsigned_short(frame.bytecode[frame.pc + 1], frame.bytecode[frame.pc + 2]);
        match class_file.get_field_info(index) {
            Some((class_name, field_name, _)) => {
                if str_equal(class_name.as_str(), "java/lang/System") && str_equal(
                    field_name.as_str(),
                    "out",
                ) {
                    frame.push(Value::Reference(String::from_str("System.out")));
                } else {
                    let key = make_field_key(class_name.as_str(), field_name.as_str());
                    let stored = match runtime_data_area.get(key.as_str()) {
                        Some(v) => Some(v.clone()),
                        None => None,
                    };
                    match stored {
                        Some(v) => frame.push(v),
                        None => {},
                    }
                }
            },
            None => {},
        }
        frame.advance(3);
        Ok(InstructionCompleted::ContinueMethodExecution)
    }

    /// `putstatic`.
    fn execute_putstatic(
        &self,
        frame: &mut Frame,
        class_file: &ClassFile,
        runtime_data_area: &mut RuntimeDataArea,
    ) -> (r: Result<InstructionCompleted, VmError>)
        ensures
            full_step(
                semantics::putstatic(old(frame)@, class_file@, old(runtime_data_area)@),
                old(frame)@,
                old(runtime_data_area)@,
                final(frame)@,
                final(runtime_data_area)@,
                r,
            ),
    {
        if !frame.has_operands(2) {
            return Err(VmError::TruncatedImmediate);
        }
        let index = unsigned_short(frame.bytecode[frame.pc + 1], frame.bytecode[frame.pc + 2]);
        let value = frame.pop()?;
        match class_file.get_field_info(index) {
            Some((class_name, field_name, _)) => {
                let key = make_field_key(class_name.as_str(), field_name.as_str());
                runtime_data_area.insert(key, value);
            },
            None => {},
        }
        frame.advance(3);
        Ok(InstructionCompleted::ContinueMethodExecution)
    }

    /// `invokevirtual`.
    fn execute_invokevirtual(
        &self,
        frame: &mut Frame,
        class_file: &ClassFile
    ) -> (r: Result<InstructionCompleted, VmError>)
        ensures
            ended_step(
                semantics::invokevirtual(old(frame)@, class_file@),
                old(frame)@,
                final(frame)@,
                r,
            ),
    {
        if !frame.has_operands(2) {
            return Err(VmError::TruncatedImmediate);
        }
        let index = unsigned_short(frame.bytecode[frame.pc + 1], frame.bytecode[frame.pc + 2]);
        let prints = match class_file.get_method_info(index) {
            Some((class_name, _, _)) => str_equal(class_name.as_str(), "java/io/PrintStream"),
            None => false,
        };
        if prints {
            if frame.operand_stack.len() < 2 {
                return Err(VmError::StackUnderflow);
            }
            let argument = frame.pop()?;
            frame.drop_operands(1);
            frame.advance(3);
            assert(frame@.stack =~= old(frame)@.dropped(2).stack);
            Ok(InstructionCompleted::PrintLine(argument))
        } else {
            frame.advance(3);
            Ok(InstructionCompleted::ContinueMethodExecution)
        }
    }

    /// `invokespecial`.
    fn execute_invokespecial(&self, frame: &mut Frame) -> (r: Result<
        InstructionCompleted,
        VmError,
    >)
        ensures
            frame_step(semantics::invokespecial(old(frame)@), old(frame)@, final(frame)@, r),
    {
        if !frame.has_operands(2) {
            return Err(VmError::TruncatedImmediate);
        }
        frame.advance(3);
        Ok(InstructionCompleted::ContinueMethodExecution)
    }

    /// Copies the `count` topmost values of the operand stack, the lowest
    /// first.
    fn arguments(&self, frame: &Frame, count: usize) -> (args: Vec<Value>)
        requires
            count <= frame@.stack.len(),
        ensures
            values_view(args@) == frame@.stack.subrange(
                frame@.stack.len() - count,
                frame@.stack.len() as int,
            ),
    {
        let depth = frame.operand_stack.len();
        let mut args: Vec<Value> = Vec::new();
        let mut i: usize = 0;
        while i < count
            invariant
                i <= count <= depth,
                depth == frame@.stack.len(),
                args.len() == i,
                forall|k: int| 0 <= k < i ==> args[k]@ == frame@.stack[depth - count + k],
            decreases count - i,
        {
            match frame.operand_stack.peek_at(depth - count + i) {
                Some(v) => args.push(v.clone()),
                None => {},
            }
            i += 1;
        }
        assert(values_view(args@) =~= frame@.stack.subrange(depth - count, depth as int));
        args
    }

    /// `invokestatic`.
    fn execute_invokestatic(
        &self,
        frame: &mut Frame,
        class_file: &ClassFile,
        room: bool
    ) -> (r: Result<InstructionCompleted, VmError>)
        ensures
            ended_step(
                semantics::invokestatic(old(frame)@, class_file@, room),
                old(frame)@,
                final(frame)@,
                r,
            ),
    {
        if !frame.has_operands(2) {
            return Err(VmError::TruncatedImmediate);
        }
        let index = unsigned_short(frame.bytecode[frame.pc + 1], frame.bytecode[frame.pc + 2]);
        let (method_name, descriptor) = match class_file.get_method_info(index) {
            Some((_, method_name, descriptor)) => (method_name, descriptor),
            None => {
                frame.advance(3);
                return Ok(InstructionCompleted::ContinueMethodExecution);
            },
        };
        let count = self.count_method_params(descriptor.as_str());
        if frame.operand_stack.len() < count {
            return Err(VmError::StackUnderflow);
        }
        let method = match class_file.find_method(method_name.as_str()) {
            Some(method) => method,
            None => {
                frame.drop_operands(count);
                frame.advance(3);
                return Ok(InstructionCompleted::ContinueMethodExecution);
            },
        };
        let code = match method.code() {
            Some(code) => code,
            None => {
                return Err(VmError::MalformedCode);
            },
        };
        let args = self.arguments(frame, count);
        let invoked = Frame::with_arguments(
            method_name,
            code.max_locals as usize,
            code.bytecode,
            &args,
        )?;
        if !room {
            return Err(VmError::StackOverflow);
        }
        frame.drop_operands(count);
        frame.advance(3);
        Ok(InstructionCompleted::InvokeMethod(invoked))
    }

    /// Counts the parameters of a method descriptor.
    pub fn count_method_params(&self, descriptor: &str) -> (r: usize)
        ensures
            r == count_params(descriptor@),
    {
        let chars = chars_of(descriptor);
        let n = chars.len();
        let mut i: usize = 0;
        while i < n && chars[i] != '('
            invariant
                i <= n,
                n == chars.len(),
                opening(chars@, 0) == opening(chars@, i as int),
            decreases n - i,
        {
            i += 1;
        }
        if i >= n {
            return 0;
        }
        assert(opening(chars@, i as int) == i);
        i += 1;
        let mut count: usize = 0;
        let mut state = ScanState::Parameter;
        let ghost start = i as int;
        loop
            invariant
                i <= n,
                n == chars.len(),
                0 <= start <= i,
                count + count_from(chars@, i as int, state) == count_from(
                    chars@,
                    start,
                    ScanState::Parameter,
                ),
                count <= i - start,
            ensures
                count == count_from(chars@, start, ScanState::Parameter),
            decreases n - i,
        {
            if i >= n {
                break ;
            }
            let c = chars[i];
            match state {
                ScanState::Parameter => {
                    if c == ')' {
                        break ;
                    } else if c == 'B' || c == 'C' || c == 'D' || c == 'F' || c == 'I' || c == 'J'
                        || c == 'S' || c == 'Z' {
                        count += 1;
                    } else if c == 'L' {
                        count += 1;
                        state = ScanState::ClassName;
                    } else if c == '[' {
                        count += 1;
                        state = ScanState::Component;
                    }
                },
                ScanState::ClassName => {
                    if c == ';' {
                        state = ScanState::Parameter;
                    }
                },
                ScanState::Component => {
                    if c == '[' {
                    } else if c == 'L' {
                        state = ScanState::ClassName;
                    } else {
                        state = ScanState::Parameter;
                    }
                },
            }
            i += 1;
        }
        count
    }
}

/// Whether `condition` holds of `left` and `right`.
pub fn holds(condition: Condition, left: i32, right: i32) -> (r: bool)
    ensures
        r == condition.holds(left as int, right as int),
{
    match condition {
        Condition::Eq => left == right,
        Condition::Ne => left != right,
        Condition::Lt => left < right,
        Condition::Ge => left >= right,
        Condition::Gt => left > right,
        Condition::Le => left <= right,
    }
}

} // verus!
