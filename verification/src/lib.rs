//! Memory bus of a handheld game console: address classification, per-region
//! read and write semantics, the echo mirror, the interrupt registers and the
//! register-triggered sprite copy.

pub mod region;
pub mod interrupt;
pub mod adapter;
pub mod devices;
pub mod bus;
pub mod console;
pub mod laws;
