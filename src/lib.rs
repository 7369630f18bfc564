//! Turns a single-shot asynchronous call on an owned object into an operation
//! that re-arms itself after every result, and into an endless sequence of those
//! results.
//!
//! The library holds the ownership hand-off as a verified state machine: an
//! object slot and an operation slot, exactly one of them occupied. The driver
//! polls the in-flight operation and hands the outcome back as a plain value.
pub mod polled;
pub mod repeating;
pub mod stream;
pub mod underlying;

pub use polled::Polled;
pub use repeating::{AdapterState, RepeatingFuture};
pub use stream::{FallibleStream, FutureStream};
pub use underlying::{Phase, UnderlyingObjectFuture};
