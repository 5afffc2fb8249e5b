use vstd::prelude::*;
use crate::parser::class_file::{ClassFile, ClassFileView};
use crate::vm::call_stack::{CallStack, VmEvent, machine_is, machine_run};
use crate::vm::error::VmError;
use crate::vm::runtime::RuntimeDataArea;
use crate::vm::semantics::Statics;
use crate::vm::stack_frame::{FrameView, arguments_fit, invoked};
use crate::vm::value::{Value, ValueView, lemma_array_view, values_view};

verus! {

/// The virtual machine: the loaded class, the static fields and the call
/// stack.
#[derive(Debug)]
pub struct Vm {
    runtime_data: RuntimeDataArea,
    class_file: ClassFile,
    call_stack: CallStack,
}

/// The name of the method at which a program starts.
pub open spec fn main_name() -> Seq<char> {
    "main"@
}

/// The name of the class initializer.
pub open spec fn clinit_name() -> Seq<char> {
    "<clinit>"@
}

/// The array that `main` gets: a reference for each argument of the
/// program.
pub open spec fn argv(args: Seq<String>) -> ValueView {
    ValueView::Array(Seq::new(args.len(), |i: int| ValueView::Reference(args[i]@)))
}

/// Frames that were to get one more and did, or did not and why.
pub struct Pushed {
    pub frames: Seq<FrameView>,
    pub error: Option<VmError>,
}

/// The frames with a frame on top for the first method of the class with
/// the name `name`, invoked on `args`. The frames stay as they are where the
/// class has no such method, and also, with an error, where the method's
/// code does not parse, the stack is full or the arguments do not fit.
pub open spec fn with_method(
    frames: Seq<FrameView>,
    class: ClassFileView,
    name: Seq<char>,
    args: Seq<ValueView>,
    limit: nat,
) -> Pushed {
    match class.find_method(name) {
        None => Pushed { frames, error: None },
        Some(i) => match class.methods[i].code() {
            None => Pushed { frames, error: Some(VmError::MalformedCode) },
            Some(code) => if frames.len() >= limit {
                Pushed { frames, error: Some(VmError::StackOverflow) }
            } else if !arguments_fit(args, code.max_locals as nat) {
                Pushed { frames, error: Some(VmError::ArgumentOutOfLocals) }
            } else {
                Pushed {
                    frames: frames.push(invoked(name, code.max_locals as nat, code.bytecode, args)),
                    error: None,
                }
            },
        },
    }
}

/// The frames at the start of a program: a frame for `main` on the array
/// of the program's arguments, and on top of it a frame for the class
/// initializer, each where the class has the method. The first frame that
/// cannot be pushed ends the start with its error.
pub open spec fn started(
    frames: Seq<FrameView>,
    class: ClassFileView,
    args: Seq<String>,
    limit: nat,
) -> Pushed {
    let main = with_method(frames, class, main_name(), seq![argv(args)], limit);
    if main.error is Some {
        main
    } else {
        with_method(main.frames, class, clinit_name(), Seq::empty(), limit)
    }
}

impl Vm {
    /// The call stack, frame by frame.
    pub closed spec fn frames(&self) -> Seq<FrameView> {
        self.call_stack@
    }

    /// The static fields.
    pub closed spec fn statics(&self) -> Statics {
        self.runtime_data@
    }

    /// The loaded class.
    pub closed spec fn class(&self) -> ClassFileView {
        self.class_file@
    }

    /// The number of frames that the call stack may hold.
    pub closed spec fn limit(&self) -> nat {
        self.call_stack.limit()
    }

    /// A machine with no class loaded, no static field and an empty call
    /// stack that may hold 1000 frames.
    pub fn new() -> (r: Self)
        ensures
            r.frames() == Seq::<FrameView>::empty(),
            r.statics() == Map::<Seq<char>, ValueView>::empty(),
            r.class() == ClassFileView::empty(),
            r.limit() == 1000,
    {
        Vm {
            runtime_data: RuntimeDataArea::new(),
            class_file: ClassFile::new(),
            call_stack: CallStack::new(Some(1000)),
        }
    }

    /// Loads the class to execute.
    pub fn init_class_file(&mut self, class_file: ClassFile)
        ensures
            final(self).class() == class_file@,
            final(self).frames() == old(self).frames(),
            final(self).statics() == old(self).statics(),
            final(self).limit() == old(self).limit(),
    {
        self.class_file = class_file;
    }

    /// The call stack.
    pub fn call_stack(&self) -> (r: &CallStack)
        ensures
            r@ == self.frames(),
            r.limit() == self.limit(),
    {
        &self.call_stack
    }

    /// The static fields.
    pub fn runtime_data(&self) -> (r: &RuntimeDataArea)
        ensures
            r@ == self.statics(),
    {
        &self.runtime_data
    }

    /// The loaded class.
    pub fn class_file(&self) -> (r: &ClassFile)
        ensures
            r@ == self.class(),
    {
        &self.class_file
    }

    /// Pushes a frame for the first method with the name `name`, invoked
    /// on `args`. Returns whether the class has such a method.
    fn push_method(&mut self, name: &str, args: Vec<Value>) -> (r: Result<bool, VmError>)
        ensures
            final(self).class() == old(self).class(),
            final(self).statics() == old(self).statics(),
            final(self).limit() == old(self).limit(),
            ({
                let pushed = with_method(
                    old(self).frames(),
                    old(self).class(),
                    name@,
                    values_view(args@),
                    old(self).limit(),
                );
                &&& final(self).frames() == pushed.frames
                &&& match r {
                    Ok(found) => pushed.error is None && found == (old(self).class().find_method(
                        name@,
                    ) is Some),
                    Err(e) => pushed.error == Some(e),
                }
            }),
    {
        let code = match self.class_file.find_method(name) {
            Some(method) => match method.code() {
                Some(code) => code,
                None => {
                    return Err(VmError::MalformedCode);
                },
            },
            None => {
                return Ok(false);
            },
        };
        self.call_stack.push_frame(
            String::from_str(name),
            code.bytecode,
            code.max_locals as usize,
            args,
        )?;
        Ok(true)
    }

    /// Pushes a frame for the class initializer `<clinit>`, where the class
    /// has one. Returns whether it has.
    pub fn execute_clinit(&mut self) -> (r: Result<bool, VmError>)
        ensures
            final(self).class() == old(self).class(),
            final(self).statics() == old(self).statics(),
            final(self).limit() == old(self).limit(),
            ({
                let pushed = with_method(
                    old(self).frames(),
                    old(self).class(),
                    clinit_name(),
                    Seq::empty(),
                    old(self).limit(),
                );
                &&& final(self).frames() == pushed.frames
                &&& match r {
                    Ok(found) => pushed.error is None && found == (old(self).class().find_method(
                        clinit_name(),
                    ) is Some),
                    Err(e) => pushed.error == Some(e),
                }
            }),
    {
        let args: Vec<Value> = Vec::new();
        assert(values_view(args@) =~= Seq::<ValueView>::empty());
        self.push_method("<clinit>", args)
    }

    /// Pushes a frame for `main`, where the class has one, with the array
    /// of the program's arguments in local variable 0. Returns whether it
    /// has.
    pub fn execute_main(&mut self, args: Vec<String>) -> (r: Result<bool, VmError>)
        ensures
            final(self).class() == old(self).class(),
            final(self).statics() == old(self).statics(),
            final(self).limit() == old(self).limit(),
            ({
                let pushed = with_method(
                    old(self).frames(),
                    old(self).class(),
                    main_name(),
                    seq![argv(args@)],
                    old(self).limit(),
                );
                &&& final(self).frames() == pushed.frames
                &&& match r {
                    Ok(found) => pushed.error is None && found == (old(self).class().find_method(
                        main_name(),
                    ) is Some),
                    Err(e) => pushed.error == Some(e),
                }
            }),
    {
        let mut array_values: Vec<Value> = Vec::new();
        let mut i: usize = 0;
        while i < args.len()
            invariant
                i <= args.len(),
                array_values.len() == i,
                forall|k: int|
                    0 <= k < i ==> array_values[k]@ == ValueView::Reference(args[k]@),
            decreases args.len() - i,
        {
            array_values.push(Value::Reference(args[i].clone()));
            i += 1;
        }
        proof {
            lemma_array_view(array_values);
            assert(values_view(array_values@) =~= argv(args@)->Array_0);
        }
        let mut env_args: Vec<Value> = Vec::new();
        env_args.push(Value::Array(array_values));
        assert(values_view(env_args@) =~= seq![argv(args@)]);
        self.push_method("main", env_args)
    }

    /// Pushes `value` on the operand stack of the top frame: the way in
    /// which the embedding program hands back the number that a
    /// `FloatArithmetic` event asked for.
    pub fn push_operand(&mut self, value: Value)
        ensures
            final(self).class() == old(self).class(),
            final(self).statics() == old(self).statics(),
            final(self).limit() == old(self).limit(),
            final(self).frames() == crate::vm::call_stack::returned_to(
                old(self).frames(),
                Some(value@),
            ),
    {
        self.call_stack.push_operand(value);
    }

    /// Goes on with execution, for `max_steps` instructions at most.
    pub fn resume(&mut self, max_steps: usize) -> (r: Result<VmEvent, VmError>)
        ensures
            final(self).class() == old(self).class(),
            final(self).limit() == old(self).limit(),
            machine_is(
                machine_run(
                    old(self).frames(),
                    old(self).class(),
                    old(self).statics(),
                    old(self).limit(),
                    max_steps as nat,
                ),
                final(self).frames(),
                final(self).statics(),
                r,
            ),
    {
        self.call_stack.execute_frames(&self.class_file, &mut self.runtime_data, max_steps)
    }

    /// Runs a program: loads the class, pushes a frame for `main` and then
    /// one for the class initializer, and executes for `max_steps`
    /// instructions at most.
    pub fn run(&mut self, class_file: ClassFile, args: Vec<String>, max_steps: usize) -> (r: Result<
        VmEvent,
        VmError,
    >)
        ensures
            final(self).class() == class_file@,
            final(self).limit() == old(self).limit(),
            ({
                let start = started(old(self).frames(), class_file@, args@, old(self).limit());
                match start.error {
                    Some(e) => final(self).frames() == start.frames && final(self).statics()
                        == old(self).statics() && r is Err && r->Err_0 == e,
                    None => machine_is(
                        machine_run(
                            start.frames,
                            class_file@,
                            old(self).statics(),
                            old(self).limit(),
                            max_steps as nat,
                        ),
                        final(self).frames(),
                        final(self).statics(),
                        r,
                    ),
                }
            }),
    {
        self.init_class_file(class_file);
        self.execute_main(args)?;
        self.execute_clinit()?;
        self.resume(max_steps)
    }
}

} // verus!
