//! Subkernel lifecycle and interkernel-message protocol, for both peers of a
//! master/satellite pair.
//!
//! Everything here is pure: hardware, transport and clock are reached by the
//! caller, which hands their results in as plain values and carries out the
//! effects that the functions hand back.

pub mod elf;
pub mod frame;
pub mod master;
pub mod ordered;
pub mod satellite;
pub mod text;
pub mod window;
