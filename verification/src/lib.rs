//! NCCL bindings whose argument checks, result interpretation, handle
//! ownership and configuration records are verified.
pub mod abi;
pub mod result;
pub mod types;
pub mod config;
pub mod memory;
pub mod comm;
pub mod group;
pub mod param;
