//! Failures of the injection pipeline.

use vstd::prelude::*;
use vstd::string::*;

verus! {

/// The broad classes into which every failure falls.
#[derive(Clone, Copy, Debug, PartialEq, Eq, Structural)]
pub enum ErrorKind {
    /// The identifier could not be mapped to a live process.
    ResolutionFailed,
    /// The system refused to open a process or a thread.
    HandleCreationFailed,
    /// No memory could be reserved in the target.
    AllocationFailed,
    /// The payload did not reach the target in full.
    WriteFailed,
    /// A process or thread table could not be read.
    SnapshotFailed,
    /// The deferred call could not be queued.
    QueueFailed,
}

/// A failure, with the code the system reported where there is one.
#[derive(Clone, Copy, Debug, PartialEq, Eq, Structural)]
pub enum InjectError {
    /// A table snapshot could not be created.
    SnapshotFailed,
    /// The thread table held no entry at all.
    NoThreadsFound,
    /// No process name starts with the requested name.
    ProcessNotFound,
    /// A handle was offered for an identifier that is still a name.
    Unresolved,
    /// The system refused to open the process.
    HandleCreationFailed(u32),
    /// The system refused to open the thread.
    ThreadHandleCreationFailed(u32),
    /// Memory was requested before a process handle existed.
    HandleAbsent,
    /// The system refused to reserve memory.
    AllocationFailed(u32),
    /// A write was requested before a handle and an address existed.
    WriteTargetAbsent,
    /// The system refused the write.
    WriteFailed(u32),
    /// The system wrote fewer bytes than the payload holds.
    WriteIncomplete,
    /// A call was to be queued without a thread handle or without an address.
    QueueTargetAbsent,
    /// The system refused to queue the call.
    QueueFailed(u32),
}

impl InjectError {
    /// The class of this failure.
    pub open spec fn spec_kind(self) -> ErrorKind {
        match self {
            InjectError::SnapshotFailed | InjectError::NoThreadsFound => ErrorKind::SnapshotFailed,
            InjectError::ProcessNotFound | InjectError::Unresolved => ErrorKind::ResolutionFailed,
            InjectError::HandleCreationFailed(_) | InjectError::ThreadHandleCreationFailed(_) =>
                ErrorKind::HandleCreationFailed,
            InjectError::HandleAbsent | InjectError::AllocationFailed(_) => ErrorKind::AllocationFailed,
            InjectError::WriteTargetAbsent | InjectError::WriteFailed(_)
            | InjectError::WriteIncomplete => ErrorKind::WriteFailed,
            InjectError::QueueTargetAbsent | InjectError::QueueFailed(_) => ErrorKind::QueueFailed,
        }
    }

    /// The code the system reported, for the failures that carry one.
    pub open spec fn spec_os_code(self) -> Option<u32> {
        match self {
            InjectError::HandleCreationFailed(code)
            | InjectError::ThreadHandleCreationFailed(code)
            | InjectError::AllocationFailed(code)
            | InjectError::WriteFailed(code)
            | InjectError::QueueFailed(code) => Some(code),
            _ => None,
        }
    }

    /// The text shown to the user for this failure.
    pub open spec fn message_text(self) -> Seq<char> {
        match self {
            InjectError::SnapshotFailed => "Failed to create snapshot for target process."@,
            InjectError::NoThreadsFound => "No threads to enumerate on target process."@,
            InjectError::ProcessNotFound =>
                "Failed to find PID from process name. Please review the arguments."@,
            InjectError::Unresolved => "Failed to find PID to attach to."@,
            InjectError::HandleCreationFailed(_) =>
                "Handle creation failed. Ensure the correct process is targeted."@,
            InjectError::ThreadHandleCreationFailed(_) => "Handle creation to thread failed."@,
            InjectError::HandleAbsent => "Failed to retrieve handle."@,
            InjectError::AllocationFailed(_) => "Failed to allocate virtual memory."@,
            InjectError::WriteTargetAbsent => "Failed to write to memory."@,
            InjectError::WriteFailed(_) | InjectError::WriteIncomplete => "Failed to inject payload."@,
            InjectError::QueueTargetAbsent =>
                "Cannot queue APC for non-existent thread, or with non-existent function."@,
            InjectError::QueueFailed(_) => "Failed to queue APC."@,
        }
    }

    #[verifier::when_used_as_spec(spec_kind)]
    pub fn kind(self) -> (k: ErrorKind)
        ensures
            k == self.spec_kind(),
    {
        match self {
            InjectError::SnapshotFailed | InjectError::NoThreadsFound => ErrorKind::SnapshotFailed,
            InjectError::ProcessNotFound | InjectError::Unresolved => ErrorKind::ResolutionFailed,
            InjectError::HandleCreationFailed(_) | InjectError::ThreadHandleCreationFailed(_) =>
                ErrorKind::HandleCreationFailed,
            InjectError::HandleAbsent | InjectError::AllocationFailed(_) => ErrorKind::AllocationFailed,
            InjectError::WriteTargetAbsent | InjectError::WriteFailed(_)
            | InjectError::WriteIncomplete => ErrorKind::WriteFailed,
            InjectError::QueueTargetAbsent | InjectError::QueueFailed(_) => ErrorKind::QueueFailed,
        }
    }

    #[verifier::when_used_as_spec(spec_os_code)]
    pub fn os_code(self) -> (code: Option<u32>)
        ensures
            code == self.spec_os_code(),
    {
        match self {
            InjectError::HandleCreationFailed(code)
            | InjectError::ThreadHandleCreationFailed(code)
            | InjectError::AllocationFailed(code)
            | InjectError::WriteFailed(code)
            | InjectError::QueueFailed(code) => Some(code),
            _ => None,
        }
    }

    pub fn message(self) -> (text: String)
        ensures
            text@ == self.message_text(),
    {
        match self {
            InjectError::SnapshotFailed => String::from_str(
                "Failed to create snapshot for target process.",
            ),
            InjectError::NoThreadsFound => String::from_str(
                "No threads to enumerate on target process.",
            ),
            InjectError::ProcessNotFound => String::from_str(
                "Failed to find PID from process name. Please review the arguments.",
            ),
            InjectError::Unresolved => String::from_str("Failed to find PID to attach to."),
            InjectError::HandleCreationFailed(_) => String::from_str(
                "Handle creation failed. Ensure the correct process is targeted.",
            ),
            InjectError::ThreadHandleCreationFailed(_) => String::from_str(
                "Handle creation to thread failed.",
            ),
            InjectError::HandleAbsent => String::from_str("Failed to retrieve handle."),
            InjectError::AllocationFailed(_) => String::from_str("Failed to allocate virtual memory."),
            InjectError::WriteTargetAbsent => String::from_str("Failed to write to memory."),
            InjectError::WriteFailed(_) | InjectError::WriteIncomplete => String::from_str(
                "Failed to inject payload.",
            ),
            InjectError::QueueTargetAbsent => String::from_str(
                "Cannot queue APC for non-existent thread, or with non-existent function.",
            ),
            InjectError::QueueFailed(_) => String::from_str("Failed to queue APC."),
        }
    }
}

} // verus!
