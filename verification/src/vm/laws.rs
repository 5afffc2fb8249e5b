//! What holds of the machine as a whole: where a taken branch leads, and
//! how a value returns to the frame that invoked a method.

use vstd::prelude::*;
use crate::parser::class_file::ClassFileView;
use crate::parser::opcode::Opcode;
use crate::vm::call_stack::{MachineRun, machine_step, returned_to};
use crate::vm::completion::CompletionView;
use crate::vm::error::VmError;
use crate::vm::semantics::{
    Condition,
    Statics,
    branch_offset,
    execute,
    fetch_execute,
    invokestatic,
};
use crate::vm::stack_frame::FrameView;
use crate::vm::value::ValueView;

verus! {

/// The condition of a branch on one int, for the instructions that are
/// such branches.
pub open spec fn zero_branch(opcode: Opcode) -> Option<Condition> {
    match opcode {
        Opcode::Ifeq => Some(Condition::Eq),
        Opcode::Ifne => Some(Condition::Ne),
        Opcode::Iflt => Some(Condition::Lt),
        Opcode::Ifge => Some(Condition::Ge),
        Opcode::Ifgt => Some(Condition::Gt),
        Opcode::Ifle => Some(Condition::Le),
        _ => None,
    }
}

/// The condition of a branch on two ints, for the instructions that are
/// such branches.
pub open spec fn pair_branch(opcode: Opcode) -> Option<Condition> {
    match opcode {
        Opcode::If_icmpeq => Some(Condition::Eq),
        Opcode::If_icmpne => Some(Condition::Ne),
        Opcode::If_icmplt => Some(Condition::Lt),
        Opcode::If_icmpge => Some(Condition::Ge),
        Opcode::If_icmpgt => Some(Condition::Gt),
        Opcode::If_icmple => Some(Condition::Le),
        _ => None,
    }
}

/// Whether `opcode` is a branch that the frame `f` takes: its operand bytes
/// are there, the ints that it pops are on the stack, and its condition
/// holds of them.
pub open spec fn takes_branch(opcode: Opcode, f: FrameView) -> bool {
    f.has_operands(2) && match zero_branch(opcode) {
        Some(condition) => f.int_at(0) is Ok && condition.holds(f.int_at(0)->Ok_0 as int, 0),
        None => match pair_branch(opcode) {
            Some(condition) => f.int_at(0) is Ok && f.int_at(1) is Ok && condition.holds(
                f.int_at(1)->Ok_0 as int,
                f.int_at(0)->Ok_0 as int,
            ),
            None => false,
        },
    }
}

/// A branch that is taken leads to the address of the branch instruction
/// plus its offset: where the instruction succeeds, that is where the frame
/// goes on, and it fails only where that address lies outside the bytecode.
pub proof fn lemma_branch_target(
    opcode: Opcode,
    f: FrameView,
    class: ClassFileView,
    statics: Statics,
    room: bool,
)
    requires
        takes_branch(opcode, f),
    ensures
        match execute(opcode, f, class, statics, room) {
            Ok(effect) => effect.frame.pc == f.pc + branch_offset(f)
                && effect.completion is ContinueMethodExecution && effect.statics == statics,
            Err(e) => e == VmError::BranchOutOfRange && !(0 <= f.pc + branch_offset(f)
                < f.bytecode.len()),
        },
{
}

/// The frames and the static fields after `n` instructions, each executed
/// by [`machine_step`].
pub open spec fn after_steps(
    frames: Seq<FrameView>,
    class: ClassFileView,
    statics: Statics,
    limit: nat,
    n: nat,
) -> MachineRun
    decreases n,
{
    if n == 0 {
        MachineRun { frames, statics, outcome: Err(VmError::NoFrame) }
    } else if n == 1 {
        machine_step(frames, class, statics, limit)
    } else {
        let before = after_steps(frames, class, statics, limit, (n - 1) as nat);
        machine_step(before.frames, class, before.statics, limit)
    }
}

/// The frames after `n` instructions.
pub open spec fn frames_after(
    frames: Seq<FrameView>,
    class: ClassFileView,
    statics: Statics,
    limit: nat,
    n: nat,
) -> Seq<FrameView> {
    if n == 0 {
        frames
    } else {
        after_steps(frames, class, statics, limit, n).frames
    }
}

/// The static fields after `n` instructions.
pub open spec fn statics_after(
    frames: Seq<FrameView>,
    class: ClassFileView,
    statics: Statics,
    limit: nat,
    n: nat,
) -> Statics {
    if n == 0 {
        statics
    } else {
        after_steps(frames, class, statics, limit, n).statics
    }
}

/// One instruction changes no frame below the top one, unless the top
/// frame returns: the frames that lie `depth` deep stay as they are where
/// more than `depth` frames remain.
pub proof fn lemma_step_keeps_lower(
    frames: Seq<FrameView>,
    class: ClassFileView,
    statics: Statics,
    limit: nat,
    depth: int,
)
    requires
        0 <= depth < frames.len(),
        machine_step(frames, class, statics, limit).frames.len() > depth,
    ensures
        machine_step(frames, class, statics, limit).frames.subrange(0, depth) == frames.subrange(
            0,
            depth,
        ),
{
    let next = machine_step(frames, class, statics, limit).frames;
    assert(next.subrange(0, depth) =~= frames.subrange(0, depth));
}

/// As long as more than `depth` frames remain after every instruction,
/// the frames that lie `depth` deep stay as they are.
pub proof fn lemma_lower_frames_stay(
    frames: Seq<FrameView>,
    class: ClassFileView,
    statics: Statics,
    limit: nat,
    depth: int,
    n: nat,
)
    requires
        0 <= depth,
        forall|k: nat| k <= n ==> #[trigger] frames_after(frames, class, statics, limit, k).len()
            > depth,
    ensures
        frames_after(frames, class, statics, limit, n).subrange(0, depth) == frames.subrange(
            0,
            depth,
        ),
    decreases n,
{
    if n > 0 {
        let m = (n - 1) as nat;
        lemma_lower_frames_stay(frames, class, statics, limit, depth, m);
        let before = frames_after(frames, class, statics, limit, m);
        let before_statics = statics_after(frames, class, statics, limit, m);
        assert(frames_after(frames, class, statics, limit, n) == machine_step(
            before,
            class,
            before_statics,
            limit,
        ).frames);
        lemma_step_keeps_lower(before, class, before_statics, limit, depth);
    }
}

/// `invokestatic` that invokes a method leaves the frame behind the three
/// bytes of the instruction, without the arguments.
pub proof fn lemma_invoke_advances(f: FrameView, class: ClassFileView, room: bool)
    requires
        invokestatic(f, class, room) is Ok,
        invokestatic(f, class, room)->Ok_0.completion is InvokeMethod,
    ensures
        invokestatic(f, class, room)->Ok_0.frame.pc == f.pc + 3,
        invokestatic(f, class, room)->Ok_0.frame.stack.len() <= f.stack.len(),
        invokestatic(f, class, room)->Ok_0.frame.locals == f.locals,
{
}

/// Return forwarding. The top frame invokes a method with `invokestatic`;
/// the method runs for `n` instructions, its own invocations included,
/// during which its frame stays on the stack, and then returns the value
/// `v`. The frame that invoked it then is the top frame again; it stands
/// behind the three bytes of the `invokestatic`, and on top of its operand
/// stack, which is otherwise as the invocation left it, lies `v`. The
/// frames below it are as they were.
pub proof fn lemma_return_forwarding(
    frames: Seq<FrameView>,
    class: ClassFileView,
    statics: Statics,
    limit: nat,
    n: nat,
    v: ValueView,
)
    requires
        frames.len() > 0,
        frames.last().has_operands(0),
        Opcode::decode(frames.last().bytecode[frames.last().pc]) == Some(Opcode::Invokestatic),
        fetch_execute(frames.last(), class, statics, frames.len() + 1 <= limit) is Ok,
        fetch_execute(
            frames.last(),
            class,
            statics,
            frames.len() + 1 <= limit,
        )->Ok_0.completion is InvokeMethod,
        n >= 1,
        forall|k: nat|
            1 <= k <= n ==> #[trigger] frames_after(frames, class, statics, limit, k).len()
                > frames.len(),
        frames_after(frames, class, statics, limit, n).len() == frames.len() + 1,
        fetch_execute(
            frames_after(frames, class, statics, limit, n).last(),
            class,
            statics_after(frames, class, statics, limit, n),
            frames.len() + 2 <= limit,
        ) is Ok,
        fetch_execute(
            frames_after(frames, class, statics, limit, n).last(),
            class,
            statics_after(frames, class, statics, limit, n),
            frames.len() + 2 <= limit,
        )->Ok_0.completion == CompletionView::ReturnFromMethod(Some(v)),
    ensures
        ({
            let invoked = fetch_execute(
                frames.last(),
                class,
                statics,
                frames.len() + 1 <= limit,
            )->Ok_0.frame;
            &&& invoked.pc == frames.last().pc + 3
            &&& frames_after(frames, class, statics, limit, n + 1) == frames.drop_last().push(
                invoked.pushed(v),
            )
        }),
{
    let room = frames.len() + 1 <= limit;
    let effect = fetch_execute(frames.last(), class, statics, room)->Ok_0;
    let depth = frames.len() as int;
    assert(effect.frame.pc == frames.last().pc + 3) by {
        lemma_invoke_advances(frames.last(), class, room);
    }
    let first = machine_step(frames, class, statics, limit);
    assert(frames.drop_last().len() + 2 <= limit <==> room);
    assert(first.frames == frames.drop_last().push(effect.frame).push(
        effect.completion->InvokeMethod_0,
    ));
    // From the first instruction on, the frames up to the invoker stay.
    let start = first.frames;
    let start_statics = first.statics;
    assert forall|k: nat| k <= n - 1 implies #[trigger] frames_after(
        start,
        class,
        start_statics,
        limit,
        k,
    ).len() > depth by {
        lemma_steps_compose(frames, class, statics, limit, k);
        assert(frames_after(frames, class, statics, limit, k + 1).len() > frames.len());
    }
    lemma_lower_frames_stay(start, class, start_statics, limit, depth, (n - 1) as nat);
    lemma_steps_compose(frames, class, statics, limit, (n - 1) as nat);
    let late = frames_after(frames, class, statics, limit, n);
    let late_statics = statics_after(frames, class, statics, limit, n);
    assert(late.subrange(0, depth) == start.subrange(0, depth));
    assert(start.subrange(0, depth) =~= frames.drop_last().push(effect.frame));
    assert(late.drop_last() =~= late.subrange(0, depth));
    assert(frames_after(frames, class, statics, limit, n + 1) == machine_step(
        late,
        class,
        late_statics,
        limit,
    ).frames);
    assert(returned_to(late.drop_last(), Some(v)) =~= frames.drop_last().push(
        effect.frame.pushed(v),
    ));
}

/// `k` instructions after the first are `k + 1` instructions.
pub proof fn lemma_steps_compose(
    frames: Seq<FrameView>,
    class: ClassFileView,
    statics: Statics,
    limit: nat,
    k: nat,
)
    ensures
        ({
            let first = machine_step(frames, class, statics, limit);
            &&& frames_after(first.frames, class, first.statics, limit, k) == frames_after(
                frames,
                class,
                statics,
                limit,
                k + 1,
            )
            &&& statics_after(first.frames, class, first.statics, limit, k) == statics_after(
                frames,
                class,
                statics,
                limit,
                k + 1,
            )
        }),
    decreases k,
{
    if k > 0 {
        lemma_steps_compose(frames, class, statics, limit, (k - 1) as nat);
    }
}

} // verus!
