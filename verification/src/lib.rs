//! Taiko rules on top of the Ethereum virtual machine: hard fork identifiers,
//! the L1SLOAD precompile and its storage cache, and the balance bookkeeping
//! that Taiko adds to transaction pre- and post-execution.

mod bytes;
pub mod spec;
pub mod u256;
pub mod handler;
pub mod l1sload;
pub mod transaction;
