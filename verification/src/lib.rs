//! Planning for "reveal this path in the file manager".
//!
//! The library decides which helper program shows a path in the native file
//! manager of a platform, and with which arguments. It starts no process and
//! reads no file: the host asks the file system and starts the program, and
//! hands the outcome back.
//!
//! - [`revealer`]: the decisions, from the path to the program to start and
//!   from the outcome of starting it to the result.
//! - [`launch`]: the helper programs and their command lines.
//! - [`path`]: the text of a path: commas, components and the parent.
//! - [`error`]: what can go wrong.
//! - [`laws`]: what holds of the decisions for every path.

pub mod error;
pub mod launch;
pub mod laws;
pub mod path;
pub mod revealer;
