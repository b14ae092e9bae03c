//! A build-cache orchestrator for named GPU kernels.
//!
//! For a kernel name and the text of its device function, the orchestrator
//! decides whether a fresh scaffold and build are needed, drives the external
//! toolchain, and persists a status record so the decision is made correctly
//! and cheaply on the next invocation. The decision logic is verified here;
//! the filesystem and subprocess work is requested from the caller through
//! [`engine::Action`] values and answered through [`engine::Event`] values.

pub mod engine;
pub mod errors;
pub mod naming;
pub mod output;
pub mod persist;
pub mod scaffold;
pub mod state;
