//! Verified core of a GPU-accelerated window shell.
//!
//! The crate holds the decisions of the shell as plain values with
//! machine-checked contracts: how the presentation surface is configured and
//! resized, when the offscreen texture is rebuilt and which handle names it,
//! how frame statistics are kept, and in which order the steps of a frame
//! follow each other. The driver that owns the window and the GPU device
//! performs the commands that the orchestrator hands out and reports back
//! what happened.

pub mod global_state;
pub mod inbuilt;
pub mod packages;
pub mod ui;
pub mod utility;
