//! An interpreter for a two-dimensional, stack-based language of the
//! Befunge family: a fixed grid of integer cells, an instruction pointer that
//! wraps at the edges, an operand stack, and a single-step transition.

pub mod command;
pub mod execution;
pub mod field;
pub mod ops;
pub mod pointer;

pub use command::BefungeCommand;
pub use execution::{BefungeExecution, ExecutionView, StepEffect};
pub use ops::{FungeError, FungeStack};
pub use pointer::{Delta, FungePointer};
