//! Starting a new thread in the target at the payload.

use crate::system::{Address, ProcessHandle, ThreadHandle};
use crate::wrapper::process::{ProcessState, RemoteProcess};
use vstd::prelude::*;
use vstd::string::*;

verus! {

/// Why no thread was started.
#[derive(Clone, Copy, Debug, PartialEq, Eq, Structural)]
pub enum ThreadCreationError {
    /// The process has no handle or no payload address.
    TargetAbsent,
    /// The system refused, with this code.
    Refused(u32),
}

impl ThreadCreationError {
    /// The text shown to the user for this failure.
    pub open spec fn message_text(self) -> Seq<char> {
        match self {
            ThreadCreationError::TargetAbsent => "Cannot create thread on non-existent handle."@,
            ThreadCreationError::Refused(_) => "Failed to create thread."@,
        }
    }

    pub fn message(self) -> (text: String)
        ensures
            text@ == self.message_text(),
    {
        match self {
            ThreadCreationError::TargetAbsent => String::from_str(
                "Cannot create thread on non-existent handle.",
            ),
            ThreadCreationError::Refused(_) => String::from_str("Failed to create thread."),
        }
    }
}

/// Where a new thread would start: in the process that is held open, at the
/// payload. Both have to be there.
pub open spec fn thread_start(process: ProcessState) -> Result<
    (ProcessHandle, Address),
    ThreadCreationError,
> {
    match (process.handle, process.address) {
        (Some(handle), Some(address)) => Ok((handle, address)),
        _ => Err(ThreadCreationError::TargetAbsent),
    }
}

/// What starting a thread comes to, given the system's answer: the new
/// thread's identifier and handle, or the code of the refusal.
pub open spec fn thread_created(process: ProcessState, created: Result<(u32, ThreadHandle), u32>) -> Result<
    (u32, ThreadHandle),
    ThreadCreationError,
> {
    match thread_start(process) {
        Err(err) => Err(err),
        Ok(_) => match created {
            Ok(thread) => Ok(thread),
            Err(code) => Err(ThreadCreationError::Refused(code)),
        },
    }
}

/// The handle and the start address with which to ask the system for a new
/// thread in the process. Without both there is nothing to ask.
pub fn create_thread_request(remote_process: &RemoteProcess) -> (start: Result<
    (ProcessHandle, Address),
    ThreadCreationError,
>)
    ensures
        start == thread_start(remote_process@),
{
    match (remote_process.p_handle, remote_process.p_target_address) {
        (Some(handle), Some(address)) => Ok((handle, address)),
        _ => Err(ThreadCreationError::TargetAbsent),
    }
}

/// Judges the system's answer to the request for a new thread in the
/// process: the identifier and the handle of the thread, or the code of the
/// refusal.
pub fn create_thread(remote_process: &RemoteProcess, created: Result<(u32, ThreadHandle), u32>) -> (thread:
    Result<(u32, ThreadHandle), ThreadCreationError>)
    ensures
        thread == thread_created(remote_process@, created),
{
    if remote_process.p_handle.is_none() || remote_process.p_target_address.is_none() {
        return Err(ThreadCreationError::TargetAbsent);
    }
    match created {
        Ok(thread) => Ok(thread),
        Err(code) => Err(ThreadCreationError::Refused(code)),
    }
}

} // verus!
