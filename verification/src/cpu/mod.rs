//! What the processor says of itself: the registers that an identification
//! query returns, and the report on SGX that is drawn from them.

pub mod probe;
pub mod registers;
pub mod report;

pub use probe::{Answer, Probe, Request, Stage};
pub use registers::{is_from_intel, CpuId};
pub use report::Checker;
