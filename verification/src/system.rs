//! Plain values exchanged with the operating system.

use crate::error::InjectError;
use vstd::prelude::*;

verus! {

/// An open handle to a process, as the system issued it.
#[derive(Clone, Copy, Debug, PartialEq, Eq, Structural)]
pub struct ProcessHandle(pub usize);

/// An open handle to a thread, as the system issued it.
#[derive(Clone, Copy, Debug, PartialEq, Eq, Structural)]
pub struct ThreadHandle(pub usize);

/// An address in the memory of the target process.
#[derive(Clone, Copy, Debug, PartialEq, Eq, Structural)]
pub struct Address(pub usize);

/// One row of the process table.
#[derive(Debug, PartialEq, Eq)]
pub struct ProcessEntry {
    pub process_id: u32,
    pub exe_file: String,
}

/// One row of the thread table.
#[derive(Clone, Copy, Debug, PartialEq, Eq, Structural)]
pub struct ThreadEntry {
    pub thread_id: u32,
    pub owner_process_id: u32,
}

/// The next thing the driver is to do.
#[derive(Clone, Copy, Debug, PartialEq, Eq, Structural)]
pub enum Request {
    /// Read the process table.
    SnapshotProcesses,
    /// Open the process with this identifier, with full access.
    OpenProcess { process_id: u32 },
    /// Reserve `size` bytes in the process, readable, writable and executable.
    Allocate { process: ProcessHandle, size: usize },
    /// Copy the `length` bytes of the payload to `address` in the process.
    Write { process: ProcessHandle, address: Address, length: usize },
    /// Read the thread table.
    SnapshotThreads,
    /// Open the thread with this identifier, with full access.
    OpenThread { thread_id: u32 },
    /// Queue a call of `address` on the thread.
    QueueCall { thread: ThreadHandle, address: Address },
    /// Make the calling thread run the calls that are queued on it.
    TriggerAlert,
    /// Nothing is left to do.
    Finished,
    /// Give up: the run failed for good.
    Abort(InjectError),
}

/// What the system answered.
#[derive(Debug, PartialEq, Eq)]
pub enum Reply {
    /// The rows of the process table, or nothing where no snapshot was had.
    ProcessTable(Option<Vec<ProcessEntry>>),
    /// The handle of the opened process, or the system's error code.
    ProcessOpened(Result<ProcessHandle, u32>),
    /// The address that the allocation returned, zero where it failed, and
    /// the system's error code read after the call.
    Allocated { address: usize, code: u32 },
    /// The number of bytes written, or the system's error code.
    Written(Result<usize, u32>),
    /// The rows of the thread table, or nothing where no snapshot was had.
    ThreadTable(Option<Vec<ThreadEntry>>),
    /// The handle of the opened thread, or the system's error code.
    ThreadOpened(Result<ThreadHandle, u32>),
    /// What queuing the call returned, zero where it failed, and the
    /// system's error code read after the call.
    Queued { status: u32, code: u32 },
    /// Whether the alert could be raised.
    Alerted(bool),
}

} // verus!
