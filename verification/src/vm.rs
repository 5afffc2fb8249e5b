//! The execution engine: values, frames, the instruction executor and the
//! call stack that drives them.

pub mod call_stack;
pub mod completion;
pub mod descriptor;
pub mod error;
pub mod float_bits;
pub mod heap;
pub mod instruction_exec;
pub mod laws;
pub mod local;
pub mod numeric;
pub mod operand_stack;
pub mod runtime;
pub mod semantics;
pub mod stack_frame;
pub mod value;
pub mod vm;
