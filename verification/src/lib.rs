//! Call-stack backtraces for a halted embedded target: unwinding, symbol
//! resolution, outcome classification and the display policy.

pub mod diagnostic;
pub mod frame;
pub mod image;
pub mod memory;
pub mod outcome;
pub mod policy;
pub mod pp;
pub mod settings;
pub mod symbolicate;
pub mod text;
pub mod unwind;

pub use crate::outcome::{Outcome, SIGABRT};
pub use crate::policy::print;
pub use crate::settings::{BacktraceOptions, Settings};
