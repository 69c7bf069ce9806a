//! The satellite side: chunked byte streams, interkernel message buffers, the
//! per-run session and the manager that drives them.

pub mod error;
pub mod kernel_cpu;
pub mod manager;
pub mod messages;
pub mod passing;
pub mod requests;
pub mod session;
pub mod sliceable;
