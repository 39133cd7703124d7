//! Searches and conversions that the controllers lean on.

pub mod process;
pub mod shellcode;
pub mod thread;
