//! Model of a minimal debugger test fixture for a Cortex-M3 target.
//!
//! The fixture owns two 32-bit cells that an attached debugger watches: a
//! counter that advances once per loop iteration and a test value that
//! changes from one sentinel to another when startup runs. This crate holds
//! the rules by which those cells change, stated and proved over plain
//! values; the binary that places the cells in memory and spins the
//! processor is built around it.

pub mod firmware;
pub mod trace;

pub use firmware::{
    test_function, Firmware, Phase, DELAY_NOPS, FAULT_ADDRESS, LINK_SENTINEL, STARTUP_SENTINEL,
};
