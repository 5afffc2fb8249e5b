use vstd::prelude::*;
use crate::parser::class_file::ClassFile;
use crate::parser::opcode::Opcode;
use crate::vm::call_stack::CallStack;
use crate::vm::completion::InstructionCompleted;
use crate::vm::error::VmError;
use crate::vm::instruction_exec::{InstructionExecutor, full_step};
use crate::vm::local::{LocalVariables, empty_slots, slots_after_set};
use crate::vm::operand_stack::OperandStack;
use crate::vm::runtime::RuntimeDataArea;
use crate::vm::semantics::{FrameRun, Statics, fetch_execute, frame_run};
use crate::vm::value::{Value, ValueView, values_view};

verus! {

/// The activation record of one method invocation.
#[derive(Debug, Clone, PartialEq)]
pub struct Frame {
    pub method_name: Option<String>,
    pub operand_stack: OperandStack,
    pub local_variables: LocalVariables,
    /// The offset in `bytecode` of the instruction to execute next.
    pub pc: usize,
    pub bytecode: Vec<u8>,
}

/// The model of a frame.
pub struct FrameView {
    pub method_name: Option<Seq<char>>,
    pub stack: Seq<ValueView>,
    pub locals: Seq<Option<ValueView>>,
    pub pc: int,
    pub bytecode: Seq<u8>,
}

/// The model of an optional name.
pub open spec fn name_view(name: Option<String>) -> Option<Seq<char>> {
    match name {
        Some(text) => Some(text@),
        None => None,
    }
}

impl View for Frame {
    type V = FrameView;

    open spec fn view(&self) -> FrameView {
        FrameView {
            method_name: name_view(self.method_name),
            stack: self.operand_stack@,
            locals: self.local_variables@,
            pc: self.pc as int,
            bytecode: self.bytecode@,
        }
    }
}

impl FrameView {
    /// A frame at the start of a method: nothing on the stack, nothing in
    /// the locals, the program counter at 0.
    pub open spec fn fresh(name: Seq<char>, max_locals: nat, bytecode: Seq<u8>) -> FrameView {
        FrameView {
            method_name: Some(name),
            stack: Seq::empty(),
            locals: empty_slots(max_locals),
            pc: 0,
            bytecode,
        }
    }

    /// The `k`-th byte after the program counter, where the bytecode has
    /// one.
    pub open spec fn operand(self, k: int) -> Option<u8> {
        if 0 <= self.pc + k < self.bytecode.len() {
            Some(self.bytecode[self.pc + k])
        } else {
            None
        }
    }

    pub open spec fn with_stack(self, stack: Seq<ValueView>) -> FrameView {
        FrameView { stack, ..self }
    }

    pub open spec fn with_locals(self, locals: Seq<Option<ValueView>>) -> FrameView {
        FrameView { locals, ..self }
    }

    pub open spec fn with_pc(self, pc: int) -> FrameView {
        FrameView { pc, ..self }
    }

    /// The frame with `value` pushed.
    pub open spec fn pushed(self, value: ValueView) -> FrameView {
        self.with_stack(self.stack.push(value))
    }

    /// The frame without the `n` topmost values of its stack.
    pub open spec fn dropped(self, n: int) -> FrameView {
        self.with_stack(self.stack.subrange(0, self.stack.len() - n))
    }

    /// The frame with its program counter `n` bytes further.
    pub open spec fn advanced(self, n: int) -> FrameView {
        self.with_pc(self.pc + n)
    }

    /// The value `depth` places below the top of the stack (0 is the top).
    pub open spec fn top(self, depth: int) -> ValueView {
        self.stack[self.stack.len() - 1 - depth]
    }

    /// The value `depth` places below the top, or the error of a stack that
    /// is not that deep.
    pub open spec fn value_at(self, depth: int) -> Result<ValueView, VmError> {
        if 0 <= depth < self.stack.len() {
            Ok(self.top(depth))
        } else {
            Err(VmError::StackUnderflow)
        }
    }

    /// The `Int` `depth` places below the top, or the error of a pop that
    /// expects an `Int` there.
    pub open spec fn int_at(self, depth: int) -> Result<i32, VmError> {
        match self.value_at(depth) {
            Ok(ValueView::Int(v)) => Ok(v),
            Ok(_) => Err(VmError::TypeMismatch),
            Err(e) => Err(e),
        }
    }

    /// The `Long` `depth` places below the top, or the error.
    pub open spec fn long_at(self, depth: int) -> Result<i64, VmError> {
        match self.value_at(depth) {
            Ok(ValueView::Long(v)) => Ok(v),
            Ok(_) => Err(VmError::TypeMismatch),
            Err(e) => Err(e),
        }
    }

    /// The bits of the `Float` `depth` places below the top, or the error.
    pub open spec fn float_at(self, depth: int) -> Result<u32, VmError> {
        match self.value_at(depth) {
            Ok(ValueView::Float(v)) => Ok(v),
            Ok(_) => Err(VmError::TypeMismatch),
            Err(e) => Err(e),
        }
    }

    /// The bits of the `Double` `depth` places below the top, or the error.
    pub open spec fn double_at(self, depth: int) -> Result<u64, VmError> {
        match self.value_at(depth) {
            Ok(ValueView::Double(v)) => Ok(v),
            Ok(_) => Err(VmError::TypeMismatch),
            Err(e) => Err(e),
        }
    }

    /// Whether the bytecode holds `n` operand bytes after the program
    /// counter.
    pub open spec fn has_operands(self, n: int) -> bool {
        0 <= self.pc && self.pc + n < self.bytecode.len()
    }
}

/// The local-variable slot in which argument number `k` begins: the first
/// argument begins in slot 0, and each argument after one that takes
/// `width` slots begins `width` slots further.
pub open spec fn slot_of(args: Seq<ValueView>, k: int) -> int
    decreases k,
{
    if k <= 0 {
        0
    } else {
        slot_of(args, k - 1) + args[k - 1].width()
    }
}

/// `max_locals` local variables after the first `k` arguments have been
/// written to them in order: an argument fills the slot in which it begins
/// and, where it takes two slots, the next one too. An argument that begins
/// past the last slot is not written.
pub open spec fn placed(args: Seq<ValueView>, k: int, max_locals: nat) -> Seq<Option<ValueView>>
    decreases k,
{
    if k <= 0 {
        empty_slots(max_locals)
    } else {
        let before = placed(args, k - 1, max_locals);
        let slot = slot_of(args, k - 1);
        let first = slots_after_set(before, slot, args[k - 1]);
        if args[k - 1].is_wide() {
            slots_after_set(first, slot + 1, args[k - 1])
        } else {
            first
        }
    }
}

/// Whether no two-slot argument begins in the last of `max_locals` slots.
pub open spec fn arguments_fit(args: Seq<ValueView>, max_locals: nat) -> bool {
    forall|k: int|
        0 <= k < args.len() && args[k].is_wide() ==> #[trigger] slot_of(args, k) + 1
            != max_locals
}

/// The frame of a method invoked on `args`.
pub open spec fn invoked(
    name: Seq<char>,
    max_locals: nat,
    bytecode: Seq<u8>,
    args: Seq<ValueView>,
) -> FrameView {
    FrameView::fresh(name, max_locals, bytecode).with_locals(
        placed(args, args.len() as int, max_locals),
    )
}

/// Slots only grow with the number of the argument.
pub proof fn lemma_slot_of_monotonic(args: Seq<ValueView>, i: int, j: int)
    requires
        0 <= i <= j,
    ensures
        slot_of(args, i) + (j - i) <= slot_of(args, j),
        0 <= slot_of(args, i),
    decreases j,
{
    if i < j {
        lemma_slot_of_monotonic(args, i, j - 1);
    } else if i > 0 {
        lemma_slot_of_monotonic(args, i - 1, i - 1);
    }
}

/// Writing the first `k` arguments leaves the number of slots as it is,
/// and leaves empty every slot from the one in which argument `k` begins.
pub proof fn lemma_placed_shape(args: Seq<ValueView>, k: int, max_locals: nat)
    requires
        0 <= k,
    ensures
        placed(args, k, max_locals).len() == max_locals,
        forall|j: int|
            slot_of(args, k) <= j < max_locals ==> placed(args, k, max_locals)[j] is None,
    decreases k,
{
    if k > 0 {
        lemma_placed_shape(args, k - 1, max_locals);
        lemma_slot_of_monotonic(args, 0, k - 1);
    }
}

/// Once argument `k` has been written, later arguments leave its slots as
/// they are: after `n` arguments the slot in which it begins holds it, and
/// so does the next slot where it takes two.
pub proof fn lemma_argument_placement(args: Seq<ValueView>, k: int, n: int, max_locals: nat)
    requires
        0 <= k < n <= args.len(),
        slot_of(args, k) < max_locals,
    ensures
        placed(args, n, max_locals)[slot_of(args, k)] == Some(args[k]),
        args[k].is_wide() && slot_of(args, k) + 1 < max_locals ==> placed(
            args,
            n,
            max_locals,
        )[slot_of(args, k) + 1] == Some(args[k]),
    decreases n,
{
    lemma_placed_shape(args, n - 1, max_locals);
    lemma_slot_of_monotonic(args, 0, k);
    if k < n - 1 {
        lemma_argument_placement(args, k, n - 1, max_locals);
        lemma_slot_of_monotonic(args, k + 1, n - 1);
    }
}

/// Wide-slot placement: of two arguments, the first a `Long` or a `Double`
/// and the second neither, the first stands in local variables 0 and 1 and
/// the second in local variable 2.
pub proof fn lemma_wide_then_narrow(first: ValueView, second: ValueView, max_locals: nat)
    requires
        first.is_wide(),
        !second.is_wide(),
        max_locals >= 3,
    ensures
        arguments_fit(seq![first, second], max_locals),
        placed(seq![first, second], 2, max_locals)[0] == Some(first),
        placed(seq![first, second], 2, max_locals)[1] == Some(first),
        placed(seq![first, second], 2, max_locals)[2] == Some(second),
{
    let args = seq![first, second];
    assert(slot_of(args, 0) == 0);
    assert(slot_of(args, 1) == 2) by {
        assert(args[0] == first);
    }
    lemma_argument_placement(args, 0, 2, max_locals);
    lemma_argument_placement(args, 1, 2, max_locals);
    assert forall|k: int| 0 <= k < args.len() && args[k].is_wide() implies #[trigger] slot_of(
        args,
        k,
    ) + 1 != max_locals by {
        assert(k == 0);
    }
}

/// Arguments that begin past the last slot are not written.
pub proof fn lemma_placed_rest(args: Seq<ValueView>, k: int, n: int, max_locals: nat)
    requires
        0 <= k <= n,
        slot_of(args, k) >= max_locals,
    ensures
        placed(args, n, max_locals) == placed(args, k, max_locals),
    decreases n,
{
    if k < n {
        lemma_placed_rest(args, k, n - 1, max_locals);
        lemma_slot_of_monotonic(args, k, n - 1);
        lemma_placed_shape(args, n - 1, max_locals);
    }
}

impl Frame {
    /// A frame for a method: an empty operand stack, `max_locals` empty
    /// local variables and the program counter at 0. A missing name stands
    /// as the empty name.
    pub fn new(method_name: Option<String>, max_locals: usize, bytecode: Vec<u8>) -> (r: Self)
        ensures
            r@ == FrameView::fresh(
                match method_name {
                    Some(name) => name@,
                    None => Seq::empty(),
                },
                max_locals as nat,
                bytecode@,
            ),
    {
        let name = match method_name {
            Some(name) => name,
            None => String::new(),
        };
        Frame {
            method_name: Some(name),
            operand_stack: OperandStack::new(),
            local_variables: LocalVariables::new(max_locals),
            pc: 0,
            bytecode,
        }
    }

    /// The frame of a method invoked on `args`: the arguments stand in the
    /// lowest local variables, in order, a `Long` or `Double` in two slots.
    /// An error where such an argument would begin in the last slot.
    pub fn with_arguments(
        method_name: String,
        max_locals: usize,
        bytecode: Vec<u8>,
        args: &Vec<Value>,
    ) -> (r: Result<Frame, VmError>)
        ensures
            match r {
                Ok(frame) => arguments_fit(values_view(args@), max_locals as nat) && frame@
                    == invoked(method_name@, max_locals as nat, bytecode@, values_view(args@)),
                Err(e) => !arguments_fit(values_view(args@), max_locals as nat) && e
                    == VmError::ArgumentOutOfLocals,
            },
    {
        let ghost models = values_view(args@);
        let mut frame = Frame::new(Some(method_name), max_locals, bytecode);
        let mut k: usize = 0;
        let mut slot: usize = 0;
        while k < args.len() && slot < max_locals
            invariant
                k <= args.len(),
                models == values_view(args@),
                slot == slot_of(models, k as int),
                frame@ == FrameView::fresh(method_name@, max_locals as nat, bytecode@).with_locals(
                    placed(models, k as int, max_locals as nat),
                ),
                forall|i: int|
                    0 <= i < k && models[i].is_wide() ==> #[trigger] slot_of(models, i) + 1
                        != max_locals,
            decreases args.len() - k,
        {
            let wide = args[k].is_wide();
            assert(models[k as int] == args[k as int]@);
            proof {
                lemma_placed_shape(models, k as int, max_locals as nat);
            }
            if wide {
                if slot + 1 >= max_locals {
                    return Err(VmError::ArgumentOutOfLocals);
                }
                frame.local_variables.set(slot, args[k].clone());
                frame.local_variables.set(slot + 1, args[k].clone());
                slot += 2;
            } else {
                frame.local_variables.set(slot, args[k].clone());
                slot += 1;
            }
            k += 1;
        }
        proof {
            // The arguments that were not reached begin past the last slot.
            let n = args.len() as int;
            assert forall|i: int| k <= i <= n implies placed(models, i, max_locals as nat)
                == placed(models, k as int, max_locals as nat) by {
                if i > k {
                    lemma_placed_rest(models, k as int, i, max_locals as nat);
                }
            }
            assert forall|i: int| 0 <= i < n && models[i].is_wide() implies #[trigger] slot_of(
                models,
                i,
            ) + 1 != max_locals by {
                if i >= k {
                    lemma_slot_of_monotonic(models, k as int, i);
                }
            }
        }
        Ok(frame)
    }

    /// The `k`-th byte after the program counter.
    pub fn operand(&self, k: usize) -> (r: Option<u8>)
        ensures
            r == self@.operand(k as int),
    {
        if self.pc < self.bytecode.len() && k < self.bytecode.len() - self.pc {
            Some(self.bytecode[self.pc + k])
        } else {
            None
        }
    }

    /// Whether the bytecode holds `n` operand bytes after the program
    /// counter.
    pub fn has_operands(&self, n: usize) -> (r: bool)
        ensures
            r == self@.has_operands(n as int),
            r ==> self.pc + n < self.bytecode.len() <= usize::MAX,
    {
        self.pc < self.bytecode.len() && n < self.bytecode.len() - self.pc
    }

    /// Pushes `value` on the operand stack.
    pub fn push(&mut self, value: Value)
        ensures
            final(self)@ == old(self)@.pushed(value@),
    {
        self.operand_stack.push(value);
    }

    /// The value `depth` places below the top of the operand stack.
    pub fn value_at(&self, depth: usize) -> (r: Result<&Value, VmError>)
        ensures
            match r {
                Ok(v) => self@.value_at(depth as int) == Ok::<ValueView, VmError>(v@),
                Err(e) => self@.value_at(depth as int) == Err::<ValueView, VmError>(e),
            },
    {
        let n = self.operand_stack.len();
        if depth < n {
            match self.operand_stack.peek_at(n - 1 - depth) {
                Some(v) => Ok(v),
                None => Err(VmError::StackUnderflow),
            }
        } else {
            Err(VmError::StackUnderflow)
        }
    }

    /// The `Int` `depth` places below the top of the operand stack.
    pub fn int_at(&self, depth: usize) -> (r: Result<i32, VmError>)
        ensures
            r == self@.int_at(depth as int),
    {
        match self.value_at(depth) {
            Ok(Value::Int(v)) => Ok(*v),
            Ok(_) => Err(VmError::TypeMismatch),
            Err(e) => Err(e),
        }
    }

    /// The `Long` `depth` places below the top of the operand stack.
    pub fn long_at(&self, depth: usize) -> (r: Result<i64, VmError>)
        ensures
            r == self@.long_at(depth as int),
    {
        match self.value_at(depth) {
            Ok(Value::Long(v)) => Ok(*v),
            Ok(_) => Err(VmError::TypeMismatch),
            Err(e) => Err(e),
        }
    }

    /// The bits of the `Float` `depth` places below the top.
    pub fn float_at(&self, depth: usize) -> (r: Result<u32, VmError>)
        ensures
            r == self@.float_at(depth as int),
    {
        match self.value_at(depth) {
            Ok(Value::Float(v)) => Ok(*v),
            Ok(_) => Err(VmError::TypeMismatch),
            Err(e) => Err(e),
        }
    }

    /// The bits of the `Double` `depth` places below the top.
    pub fn double_at(&self, depth: usize) -> (r: Result<u64, VmError>)
        ensures
            r == self@.double_at(depth as int),
    {
        match self.value_at(depth) {
            Ok(Value::Double(v)) => Ok(*v),
            Ok(_) => Err(VmError::TypeMismatch),
            Err(e) => Err(e),
        }
    }

    /// Removes the `n` topmost values of the operand stack.
    pub fn drop_operands(&mut self, n: usize)
        requires
            n <= old(self)@.stack.len(),
        ensures
            final(self)@ == old(self)@.dropped(n as int),
    {
        let mut i: usize = 0;
        assert(self@.stack =~= old(self)@.dropped(0).stack);
        while i < n
            invariant
                i <= n <= old(self)@.stack.len(),
                self@ == old(self)@.dropped(i as int),
            decreases n - i,
        {
            let _ = self.operand_stack.pop();
            i += 1;
            assert(self@.stack =~= old(self)@.dropped(i as int).stack);
        }
    }

    /// Removes the topmost value of the operand stack and returns it.
    pub fn pop(&mut self) -> (r: Result<Value, VmError>)
        ensures
            match r {
                Ok(v) => old(self)@.value_at(0) == Ok::<ValueView, VmError>(v@) && final(self)@
                    == old(self)@.dropped(1),
                Err(e) => old(self)@.value_at(0) == Err::<ValueView, VmError>(e) && final(self)@
                    == old(self)@,
            },
    {
        match self.operand_stack.pop() {
            Some(v) => {
                assert(self@.stack =~= old(self)@.dropped(1).stack);
                Ok(v)
            },
            None => Err(VmError::StackUnderflow),
        }
    }

    /// Moves the program counter `n` bytes further.
    pub fn advance(&mut self, n: usize)
        requires
            old(self).pc + n <= usize::MAX,
        ensures
            final(self)@ == old(self)@.advanced(n as int),
    {
        self.pc = self.pc + n;
    }
}

/// Whether a frame, static fields and a result are where `run` stands.
pub open spec fn run_is(
    run: FrameRun,
    frame: FrameView,
    statics: Statics,
    r: Result<InstructionCompleted, VmError>,
) -> bool {
    frame == run.frame && statics == run.statics && match run.outcome {
        Ok(completion) => r is Ok && r->Ok_0@ == completion,
        Err(e) => r is Err && r->Err_0 == e,
    }
}

impl Frame {
    /// Decodes the instruction at the program counter and executes it.
    /// `call_stack` holds the frames below this one.
    pub fn fetch_execute(
        &mut self,
        class_file: &ClassFile,
        runtime_data_area: &mut RuntimeDataArea,
        call_stack: &CallStack,
    ) -> (r: Result<InstructionCompleted, VmError>)
        ensures
            full_step(
                fetch_execute(
                    old(self)@,
                    class_file@,
                    old(runtime_data_area)@,
                    call_stack.room_above(),
                ),
                old(self)@,
                old(runtime_data_area)@,
                final(self)@,
                final(runtime_data_area)@,
                r,
            ),
    {
        if self.pc >= self.bytecode.len() {
            return Ok(InstructionCompleted::ReturnFromMethod(None));
        }
        let byte = self.bytecode[self.pc];
        match Opcode::from(byte) {
            Some(opcode) => {
                let executor = InstructionExecutor::new();
                executor.execute_instruction(
                    opcode,
                    self,
                    class_file,
                    runtime_data_area,
                    call_stack,
                )
            },
            None => Err(VmError::UnknownOpcode(byte)),
        }
    }

    /// Runs the fetch-decode-execute loop on this frame until an
    /// instruction ends otherwise than by letting execution go on, or fails,
    /// or `max_steps` instructions have been executed. `call_stack` holds the
    /// frames below this one.
    pub fn execute_frame(
        &mut self,
        class_file: &ClassFile,
        runtime_data_area: &mut RuntimeDataArea,
        call_stack: &CallStack,
        max_steps: usize,
    ) -> (r: Result<InstructionCompleted, VmError>)
        ensures
            run_is(
                frame_run(
                    old(self)@,
                    class_file@,
                    old(runtime_data_area)@,
                    call_stack.room_above(),
                    max_steps as nat,
                ),
                final(self)@,
                final(runtime_data_area)@,
                r,
            ),
    {
        let mut remaining = max_steps;
        let ghost room = call_stack.room_above();
        let ghost goal = frame_run(
            old(self)@,
            class_file@,
            old(runtime_data_area)@,
            room,
            max_steps as nat,
        );
        while remaining > 0
            invariant
                room == call_stack.room_above(),
                goal == frame_run(
                    old(self)@,
                    class_file@,
                    old(runtime_data_area)@,
                    room,
                    max_steps as nat,
                ),
                goal == frame_run(self@, class_file@, runtime_data_area@, room, remaining as nat),
            decreases remaining,
        {
            let ghost before = self@;
            let ghost statics = runtime_data_area@;
            let ghost expected = fetch_execute(before, class_file@, statics, room);
            assert(goal == match expected {
                Err(e) => FrameRun { frame: before, statics, outcome: Err(e) },
                Ok(effect) => if effect.completion is ContinueMethodExecution {
                    frame_run(
                        effect.frame,
                        class_file@,
                        effect.statics,
                        room,
                        (remaining - 1) as nat,
                    )
                } else {
                    FrameRun {
                        frame: effect.frame,
                        statics: effect.statics,
                        outcome: Ok(effect.completion),
                    }
                },
            });
            match self.fetch_execute(class_file, runtime_data_area, call_stack) {
                Err(e) => {
                    return Err(e);
                },
                Ok(InstructionCompleted::ContinueMethodExecution) => {
                    remaining -= 1;
                },
                Ok(other) => {
                    return Ok(other);
                },
            }
        }
        Ok(InstructionCompleted::ContinueMethodExecution)
    }
}

} // verus!
