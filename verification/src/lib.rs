//! A small register machine whose code and data share one memory.
//!
//! [`ast`] holds the instruction set and its textual form, [`machine`] the
//! mathematical model of one execution step and of a whole run, [`simulator`]
//! the engine that executes it, and [`laws`] what is proved of every machine.
//! [`program`] fits a program to a part of the memory, and [`text`] is the
//! decimal notation that the trace is written in.

pub mod ast;
pub mod laws;
pub mod machine;
pub mod program;
pub mod simulator;
pub mod text;
