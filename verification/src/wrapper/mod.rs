//! Controllers for the target process and its threads.

pub mod args;
pub mod process;
pub mod thread;
