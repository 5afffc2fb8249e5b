use vstd::prelude::*;

verus! {

/// Why the machine could not execute an instruction. Every error is fatal:
/// the machine's state is as it was before the instruction.
#[derive(Debug, Clone, Copy, PartialEq, Eq, Structural)]
pub enum VmError {
    /// The byte at the program counter stands for no instruction.
    UnknownOpcode(u8),
    /// The program counter lies outside the bytecode.
    PcOutOfRange,
    /// The bytecode ends before the instruction's last operand byte.
    TruncatedImmediate,
    /// The operand stack holds fewer values than the instruction pops.
    StackUnderflow,
    /// A value on the operand stack is not of the kind the instruction pops.
    TypeMismatch,
    /// `aaload` found something other than an array below the index.
    NotAnArray,
    /// `aaload` with an index outside the array.
    ArrayIndexOutOfBounds(i32),
    /// A constant-pool entry of a kind that the instruction cannot load.
    InvalidConstant(u16),
    /// `aload` of a local variable that holds nothing.
    UninitializedLocal(usize),
    /// Integer division or remainder by zero.
    DivisionByZero,
    /// A branch that leads outside the bytecode.
    BranchOutOfRange,
    /// The invoked method's first attribute does not hold its code.
    MalformedCode,
    /// The call stack already holds as many frames as it may.
    StackOverflow,
    /// A two-slot argument would begin in the last local-variable slot.
    ArgumentOutOfLocals,
    /// There is no frame to execute.
    NoFrame,
}

} // verus!
