//! A small interpreter for Java class files.
//!
//! [`parser`] reads the bytes of a class file into a constant pool and
//! tables of fields, methods and attributes. [`vm`] executes the methods of
//! a loaded class: values, frames, the instruction executor and the call
//! stack. What an instruction does is a function on the models of the
//! frame and the static fields, and the executable code is proved to do
//! just that.
//!
//! The machine neither prints nor computes with floating-point numbers:
//! floats and doubles are bit patterns to it. Where a program prints or
//! needs floating-point arithmetic, execution stops with an event that
//! says what is asked for, and goes on when the embedding program has
//! done it.

pub mod parser;
pub mod text;
pub mod vm;
