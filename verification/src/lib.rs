//! A safe front for a graph-execution engine that works inside a fixed,
//! caller-owned memory region.
//!
//! The engine itself stays outside: it exchanges only plain data with this
//! crate (byte buffers, dimension lists, datatype tags, status codes). What is
//! verified here is everything around it: the model header check, the operator
//! table, the validation of an allocation plan against the arena, the tensor
//! views with their datatype check, and the interpreter's state machine.

pub mod error;
pub mod tensor;
pub mod plan;
pub mod model;
pub mod micro_op_resolver;
pub mod micro_error_reporter;
pub mod micro_interpreter;
