//! Decision logic for queuing a payload onto every thread of a target process.
//!
//! The crate never talks to the operating system itself. Each controller
//! says which system call it needs next and folds the answer of that call
//! into its state; a driver outside the crate performs the calls.

pub mod error;
pub mod helper;
pub mod injection;
pub mod laws;
pub mod system;
pub mod wrapper;
