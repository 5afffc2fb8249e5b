use vstd::prelude::*;
use crate::vm::stack_frame::{Frame, FrameView};
use crate::vm::value::{Value, ValueView};

verus! {

/// An arithmetic operation on two floating-point numbers.
#[derive(Debug, Clone, Copy, PartialEq, Eq, Structural)]
pub enum FloatOp {
    Add,
    Sub,
    Mul,
    Div,
    Rem,
}

/// IEEE-754 arithmetic that an instruction needs. The numbers are bit
/// patterns; the machine leaves the arithmetic to the program that embeds
/// it, which pushes the result on the operand stack of the current frame:
/// a `Float` for the requests that end in `32` or in `ToFloat`, a `Double`
/// for the others.
#[derive(Debug, Clone, Copy, PartialEq, Eq, Structural)]
#[allow(inconsistent_fields)]
pub enum FloatRequest {
    Binary32 { op: FloatOp, left: u32, right: u32 },
    Binary64 { op: FloatOp, left: u64, right: u64 },
    IntToFloat(i32),
    IntToDouble(i32),
    LongToFloat(i64),
    LongToDouble(i64),
    FloatToDouble(u32),
    DoubleToFloat(u64),
}

/// How an instruction ended.
#[derive(Debug, PartialEq)]
pub enum InstructionCompleted {
    /// The instruction was one of the return family: the method ends and
    /// hands this value, if any, to its invoker.
    ReturnFromMethod(Option<Value>),
    /// Execution goes on at the frame's program counter.
    ContinueMethodExecution,
    /// `println`: the embedding program writes the value and a newline to
    /// standard output; execution then goes on.
    PrintLine(Value),
    /// The embedding program computes the number asked for and pushes it;
    /// execution then goes on.
    FloatArithmetic(FloatRequest),
    /// `invokestatic`: this frame, made for the method invoked, is pushed
    /// on the call stack.
    InvokeMethod(Frame),
}

/// The model of an [`InstructionCompleted`].
pub enum CompletionView {
    ReturnFromMethod(Option<ValueView>),
    ContinueMethodExecution,
    PrintLine(ValueView),
    FloatArithmetic(FloatRequest),
    InvokeMethod(FrameView),
}

impl View for InstructionCompleted {
    type V = CompletionView;

    open spec fn view(&self) -> CompletionView {
        match self {
            InstructionCompleted::ReturnFromMethod(Some(v)) => CompletionView::ReturnFromMethod(
                Some(v@),
            ),
            InstructionCompleted::ReturnFromMethod(None) => CompletionView::ReturnFromMethod(None),
            InstructionCompleted::ContinueMethodExecution => {
                CompletionView::ContinueMethodExecution
            },
            InstructionCompleted::PrintLine(v) => CompletionView::PrintLine(v@),
            InstructionCompleted::FloatArithmetic(request) => CompletionView::FloatArithmetic(
                *request,
            ),
            InstructionCompleted::InvokeMethod(frame) => CompletionView::InvokeMethod(frame@),
        }
    }
}

} // verus!
