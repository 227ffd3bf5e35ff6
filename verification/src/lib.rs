//! Fluent assertions over the captured output of an external process.
//!
//! A finished process execution is captured as an [`Output`]: its optional
//! exit code, a success flag, and the bytes written to the standard output
//! and standard error streams. Wrapping an `Output` in an [`Assert`] gives a
//! chainable assertion surface: each operation either hands the wrapper back
//! (the chain continues) or yields the exact failure message, a reason line
//! followed by a diagnostic envelope holding the command line, the standard
//! input, and the formatted output.

pub mod assertion;
pub mod laws;
pub mod output;
pub mod text;

pub use assertion::Assert;
pub use assertion::EqBytes;
pub use assertion::EqCode;
pub use assertion::Matcher;
pub use assertion::OutputAssertExt;
pub use output::Output;
pub use output::output_fmt;
