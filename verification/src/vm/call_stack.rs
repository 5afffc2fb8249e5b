use vstd::prelude::*;
use crate::parser::class_file::{ClassFile, ClassFileView};
use crate::vm::completion::{CompletionView, FloatRequest, InstructionCompleted};
use crate::vm::error::VmError;
use crate::vm::runtime::RuntimeDataArea;
use crate::vm::semantics::{Statics, fetch_execute};
use crate::vm::stack_frame::{Frame, FrameView, arguments_fit, invoked};
use crate::vm::value::{Value, ValueView, values_view};

verus! {

/// The stack of frames. The last frame is the one that executes.
#[derive(Debug)]
pub struct CallStack {
    pub frames: Vec<Frame>,
    /// The number of frames that the stack may hold.
    pub max_depth: usize,
}

/// The models of a sequence of frames, item by item.
pub open spec fn frames_view(frames: Seq<Frame>) -> Seq<FrameView> {
    Seq::new(frames.len(), |i: int| frames[i]@)
}

impl View for CallStack {
    type V = Seq<FrameView>;

    open spec fn view(&self) -> Seq<FrameView> {
        frames_view(self.frames@)
    }
}

/// What the machine has for the program that embeds it.
#[derive(Debug, PartialEq)]
pub enum VmEvent {
    /// Nothing: frames remain and execution can go on.
    Running,
    /// The call stack is empty: execution has ended.
    Finished,
    /// The value is to be written to standard output, with a newline.
    PrintLine(Value),
    /// The number asked for is to be computed and pushed on the operand
    /// stack of the current frame.
    FloatArithmetic(FloatRequest),
}

/// The model of a [`VmEvent`].
pub enum EventView {
    Running,
    Finished,
    PrintLine(ValueView),
    FloatArithmetic(FloatRequest),
}

impl View for VmEvent {
    type V = EventView;

    open spec fn view(&self) -> EventView {
        match self {
            VmEvent::Running => EventView::Running,
            VmEvent::Finished => EventView::Finished,
            VmEvent::PrintLine(v) => EventView::PrintLine(v@),
            VmEvent::FloatArithmetic(request) => EventView::FloatArithmetic(*request),
        }
    }
}

/// Where the machine stands: the frames, the static fields, and what the
/// last instruction had for the embedding program, or why it failed.
pub struct MachineRun {
    pub frames: Seq<FrameView>,
    pub statics: Statics,
    pub outcome: Result<EventView, VmError>,
}

/// The frames that remain when the top frame has returned `value`: the
/// value, if there is one, is pushed on the operand stack of the invoker,
/// if there is one.
pub open spec fn returned_to(below: Seq<FrameView>, value: Option<ValueView>) -> Seq<FrameView> {
    match value {
        Some(v) => if below.len() > 0 {
            below.update(below.len() - 1, below.last().pushed(v))
        } else {
            below
        },
        None => below,
    }
}

/// One instruction of the top frame, and what follows from how it ended:
/// the frame of an invoked method is pushed, a frame that returns is popped
/// and its value handed to the invoker. An instruction that fails leaves
/// everything as it was.
pub open spec fn machine_step(
    frames: Seq<FrameView>,
    class: ClassFileView,
    statics: Statics,
    limit: nat,
) -> MachineRun {
    if frames.len() == 0 {
        MachineRun { frames, statics, outcome: Err(VmError::NoFrame) }
    } else {
        let below = frames.drop_last();
        match fetch_execute(frames.last(), class, statics, below.len() + 2 <= limit) {
            Err(e) => MachineRun { frames, statics, outcome: Err(e) },
            Ok(effect) => match effect.completion {
                CompletionView::ContinueMethodExecution => MachineRun {
                    frames: below.push(effect.frame),
                    statics: effect.statics,
                    outcome: Ok(EventView::Running),
                },
                CompletionView::PrintLine(v) => MachineRun {
                    frames: below.push(effect.frame),
                    statics: effect.statics,
                    outcome: Ok(EventView::PrintLine(v)),
                },
                CompletionView::FloatArithmetic(request) => MachineRun {
                    frames: below.push(effect.frame),
                    statics: effect.statics,
                    outcome: Ok(EventView::FloatArithmetic(request)),
                },
                CompletionView::InvokeMethod(callee) => MachineRun {
                    frames: below.push(effect.frame).push(callee),
                    statics: effect.statics,
                    outcome: Ok(EventView::Running),
                },
                CompletionView::ReturnFromMethod(value) => MachineRun {
                    frames: returned_to(below, value),
                    statics: effect.statics,
                    outcome: Ok(EventView::Running),
                },
            },
        }
    }
}

/// The machine run for `fuel` instructions at most: it stops when the call
/// stack is empty, at the first instruction that has something for the
/// embedding program or fails, or, still running, when the fuel is used up.
pub open spec fn machine_run(
    frames: Seq<FrameView>,
    class: ClassFileView,
    statics: Statics,
    limit: nat,
    fuel: nat,
) -> MachineRun
    decreases fuel,
{
    if frames.len() == 0 {
        MachineRun { frames, statics, outcome: Ok(EventView::Finished) }
    } else if fuel == 0 {
        MachineRun { frames, statics, outcome: Ok(EventView::Running) }
    } else {
        let next = machine_step(frames, class, statics, limit);
        if next.outcome == Ok::<EventView, VmError>(EventView::Running) {
            machine_run(next.frames, class, next.statics, limit, (fuel - 1) as nat)
        } else {
            next
        }
    }
}

/// Whether frames, static fields and a result are where `run` stands.
pub open spec fn machine_is(
    run: MachineRun,
    frames: Seq<FrameView>,
    statics: Statics,
    r: Result<VmEvent, VmError>,
) -> bool {
    frames == run.frames && statics == run.statics && match run.outcome {
        Ok(event) => r is Ok && r->Ok_0@ == event,
        Err(e) => r is Err && r->Err_0 == e,
    }
}

/// The depth to which a call stack made without a limit may grow.
pub const DEFAULT_MAX_DEPTH: usize = 1000;

impl CallStack {
    /// The number of frames that the stack may hold.
    pub open spec fn limit(&self) -> nat {
        self.max_depth as nat
    }

    /// Whether, with one more frame on the stack, there is room for yet
    /// another.
    pub open spec fn room_above(&self) -> bool {
        self@.len() + 2 <= self.limit()
    }

    /// An empty call stack that may hold `max_depth` frames, or 1000 where
    /// none is given.
    pub fn new(max_depth: Option<usize>) -> (r: Self)
        ensures
            r@ == Seq::<FrameView>::empty(),
            r.limit() == match max_depth {
                Some(depth) => depth,
                None => DEFAULT_MAX_DEPTH,
            },
    {
        let r = CallStack {
            frames: Vec::new(),
            max_depth: match max_depth {
                Some(depth) => depth,
                None => DEFAULT_MAX_DEPTH,
            },
        };
        assert(r@ =~= Seq::<FrameView>::empty());
        r
    }

    /// Whether, with one more frame on the stack, there is room for yet
    /// another.
    pub fn has_room_above(&self) -> (r: bool)
        ensures
            r == self.room_above(),
    {
        self.max_depth >= 2 && self.frames.len() <= self.max_depth - 2
    }

    /// The number of frames on the stack.
    pub fn size(&self) -> (r: usize)
        ensures
            r == self@.len(),
    {
        self.frames.len()
    }

    /// Whether the stack holds no frame.
    pub fn is_empty(&self) -> (r: bool)
        ensures
            r == (self@.len() == 0),
    {
        self.frames.len() == 0
    }

    /// Pushes the frame of a method invoked on `args`. An error where the
    /// stack is full or the arguments do not fit the local variables; the
    /// stack is then as it was.
    pub fn push_frame(
        &mut self,
        method_name: String,
        bytecode: Vec<u8>,
        max_locals: usize,
        args: Vec<Value>,
    ) -> (r: Result<(), VmError>)
        ensures
            final(self).limit() == old(self).limit(),
            match r {
                Ok(()) => old(self)@.len() < old(self).limit() && arguments_fit(
                    values_view(args@),
                    max_locals as nat,
                ) && final(self)@ == old(self)@.push(
                    invoked(method_name@, max_locals as nat, bytecode@, values_view(args@)),
                ),
                Err(e) => final(self)@ == old(self)@ && if old(self)@.len() >= old(self).limit() {
                    e == VmError::StackOverflow
                } else {
                    e == VmError::ArgumentOutOfLocals && !arguments_fit(
                        values_view(args@),
                        max_locals as nat,
                    )
                },
            },
    {
        if self.frames.len() >= self.max_depth {
            return Err(VmError::StackOverflow);
        }
        let frame = Frame::with_arguments(method_name, max_locals, bytecode, &args)?;
        self.frames.push(frame);
        assert(self@ =~= old(self)@.push(frame@));
        Ok(())
    }

    /// Removes the top frame and returns it.
    pub fn pop_frame(&mut self) -> (r: Option<Frame>)
        ensures
            final(self).limit() == old(self).limit(),
            match r {
                Some(frame) => old(self)@.len() > 0 && frame@ == old(self)@.last() && final(self)@
                    == old(self)@.drop_last(),
                None => old(self)@.len() == 0 && final(self)@ == old(self)@,
            },
    {
        let r = self.frames.pop();
        assert(old(self)@.len() > 0 ==> self@ =~= old(self)@.drop_last());
        r
    }

    /// The top frame, to change it.
    pub fn current_frame(&mut self) -> (r: Option<&mut Frame>)
        ensures
            final(self).limit() == old(self).limit(),
            match r {
                Some(frame) => old(self)@.len() > 0 && frame@ == old(self)@.last() && final(self)@
                    == old(self)@.update(old(self)@.len() - 1, final(frame)@),
                None => old(self)@.len() == 0 && final(self)@ == old(self)@,
            },
    {
        let n = self.frames.len();
        if n == 0 {
            None
        } else {
            let ghost before = self.frames@;
            let frame = &mut self.frames[n - 1];
            proof {
                assert(frames_view(before.update(n - 1, *final(frame))) =~= frames_view(
                    before,
                ).update(n - 1, final(frame)@));
            }
            Some(frame)
        }
    }

    /// The top frame.
    pub fn current_frame_ref(&self) -> (r: Option<&Frame>)
        ensures
            match r {
                Some(frame) => self@.len() > 0 && frame@ == self@.last(),
                None => self@.len() == 0,
            },
    {
        let n = self.frames.len();
        if n == 0 {
            None
        } else {
            Some(&self.frames[n - 1])
        }
    }

    /// The name of the method that the top frame executes.
    pub fn current_method_name(&self) -> (r: Option<&str>)
        ensures
            match r {
                Some(name) => self@.len() > 0 && self@.last().method_name == Some(name@),
                None => self@.len() == 0 || self@.last().method_name is None,
            },
    {
        match self.current_frame_ref() {
            Some(frame) => match &frame.method_name {
                Some(name) => Some(name.as_str()),
                None => None,
            },
            None => None,
        }
    }

    /// Pushes `value` on the operand stack of the top frame: the way in
    /// which the embedding program hands back the number that a
    /// `FloatArithmetic` event asked for. Nothing happens on an empty stack.
    pub fn push_operand(&mut self, value: Value)
        ensures
            final(self).limit() == old(self).limit(),
            final(self)@ == returned_to(old(self)@, Some(value@)),
    {
        let n = self.frames.len();
        if n > 0 {
            self.frames[n - 1].push(value);
            assert(self@ =~= returned_to(old(self)@, Some(value@)));
        }
    }

    /// Executes one instruction of the top frame and does what follows
    /// from how it ended.
    pub fn step(&mut self, class_file: &ClassFile, runtime_data_area: &mut RuntimeDataArea) -> (r:
        Result<VmEvent, VmError>)
        ensures
            final(self).limit() == old(self).limit(),
            machine_is(
                machine_step(old(self)@, class_file@, old(runtime_data_area)@, old(self).limit()),
                final(self)@,
                final(runtime_data_area)@,
                r,
            ),
    {
        let mut frame = match self.pop_frame() {
            Some(frame) => frame,
            None => {
                return Err(VmError::NoFrame);
            },
        };
        let ghost below = self@;
        assert(below.push(frame@) =~= old(self)@);
        match frame.fetch_execute(class_file, runtime_data_area, self) {
            Err(e) => {
                self.frames.push(frame);
                assert(self@ =~= old(self)@);
                Err(e)
            },
            Ok(InstructionCompleted::ContinueMethodExecution) => {
                self.frames.push(frame);
                assert(self@ =~= below.push(frame@));
                Ok(VmEvent::Running)
            },
            Ok(InstructionCompleted::PrintLine(value)) => {
                self.frames.push(frame);
                assert(self@ =~= below.push(frame@));
                Ok(VmEvent::PrintLine(value))
            },
            Ok(InstructionCompleted::FloatArithmetic(request)) => {
                self.frames.push(frame);
                assert(self@ =~= below.push(frame@));
                Ok(VmEvent::FloatArithmetic(request))
            },
            Ok(InstructionCompleted::InvokeMethod(callee)) => {
                self.frames.push(frame);
                self.frames.push(callee);
                assert(self@ =~= below.push(frame@).push(callee@));
                Ok(VmEvent::Running)
            },
            Ok(InstructionCompleted::ReturnFromMethod(value)) => {
                match value {
                    Some(v) => {
                        self.push_operand(v);
                    },
                    None => {},
                }
                Ok(VmEvent::Running)
            },
        }
    }

    /// Drives the call stack: executes instructions of the top frame until
    /// the stack is empty, an instruction has something for the embedding
    /// program or fails, or `max_steps` instructions have been executed.
    pub fn execute_frames(
        &mut self,
        class_file: &ClassFile,
        runtime_data_area: &mut RuntimeDataArea,
        max_steps: usize,
    ) -> (r: Result<VmEvent, VmError>)
        ensures
            final(self).limit() == old(self).limit(),
            machine_is(
                machine_run(
                    old(self)@,
                    class_file@,
                    old(runtime_data_area)@,
                    old(self).limit(),
                    max_steps as nat,
                ),
                final(self)@,
                final(runtime_data_area)@,
                r,
            ),
    {
        let mut remaining = max_steps;
        let ghost limit = self.limit();
        let ghost goal = machine_run(
            old(self)@,
            class_file@,
            old(runtime_data_area)@,
            limit,
            max_steps as nat,
        );
        while remaining > 0 && !self.is_empty()
            invariant
                limit == self.limit(),
                limit == old(self).limit(),
                goal == machine_run(
                    old(self)@,
                    class_file@,
                    old(runtime_data_area)@,
                    limit,
                    max_steps as nat,
                ),
                goal == machine_run(
                    self@,
                    class_file@,
                    runtime_data_area@,
                    limit,
                    remaining as nat,
                ),
            decreases remaining,
        {
            match self.step(class_file, runtime_data_area) {
                Err(e) => {
                    return Err(e);
                },
                Ok(VmEvent::Running) => {
                    remaining -= 1;
                },
                Ok(event) => {
                    return Ok(event);
                },
            }
        }
        if self.is_empty() {
            Ok(VmEvent::Finished)
        } else {
            Ok(VmEvent::Running)
        }
    }
}

} // verus!
