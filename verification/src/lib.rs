//! Replace the current process image with another program.
//!
//! The library marshals a program name and an argument vector into the
//! null-terminated form that the operating system's `execvp` primitive
//! consumes, rejecting any string that carries an interior NUL byte, and
//! classifies the outcome when the primitive declines to run. The call
//! itself never returns on success: the whole address space is handed over
//! to the new program, so the only value these paths can ever yield is an
//! error.

pub mod command;
pub mod error;
pub mod marshal;
pub mod wide;

pub use command::Command;
pub use error::{classify_return, Error};
pub use marshal::Marshaled;
pub use wide::MarshaledWide;
