//! The logic of a line-oriented SQL shell: how a cell of a result is shown,
//! how a result set becomes a block of text, how raw input becomes lines, and
//! which step of a session follows which event.
//!
//! The shell itself (standard input and output, the database engine) lives
//! outside this library and drives it with plain values.

pub mod cell;
pub mod decimal;
pub mod prompt;
pub mod result_set;
pub mod session;
pub mod table;
pub mod text;
