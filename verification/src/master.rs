//! The master side: its own kernel CPU, and the registry of subkernels that
//! it dispatches to satellites.

pub mod kernel_cpu;
pub mod laws;
pub mod subkernel;
