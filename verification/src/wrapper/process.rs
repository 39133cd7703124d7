//! The controller of the target process.

use crate::error::InjectError;
use crate::helper::process::{first_match, get_process_by_name};
use crate::system::{Address, ProcessEntry, ProcessHandle, Request};
use crate::wrapper::args::{ProcessArgs, Target};
use vstd::prelude::*;

verus! {

/// One target process: who it is, the handle held on it, and where in its
/// memory the payload lies.
#[derive(Debug, PartialEq, Eq)]
pub struct RemoteProcess {
    /// Number or name of the process; a number once the name is resolved.
    pub identifier: ProcessArgs,
    /// The open handle, absent until one was stored.
    pub p_handle: Option<ProcessHandle>,
    /// Where memory was reserved in the target, absent until it was.
    pub p_target_address: Option<Address>,
}

/// What a [`RemoteProcess`] stands for.
pub struct ProcessState {
    pub identifier: Target,
    pub handle: Option<ProcessHandle>,
    pub address: Option<Address>,
}

impl ProcessState {
    /// An address is only known for a process that is held open, and a
    /// process is only held open under its number.
    pub open spec fn wf(self) -> bool {
        &&& self.address is Some ==> self.handle is Some
        &&& self.handle is Some ==> self.identifier is Pid
    }

    /// The call that attaching starts with: a number is opened directly, a
    /// name is looked up in the process table first.
    pub open spec fn attach_request(self) -> Request {
        match self.identifier {
            Target::Pid(p_id) => Request::OpenProcess { process_id: p_id },
            Target::Name(_) => Request::SnapshotProcesses,
        }
    }

    /// Resolving against a process table: a number stands as it is; a name
    /// becomes the number of the first row it matches.
    pub open spec fn resolve(self, table: Option<Seq<ProcessEntry>>) -> (ProcessState, Result<
        u32,
        InjectError,
    >) {
        match self.identifier {
            Target::Pid(p_id) => (self, Ok(p_id)),
            Target::Name(p_name) => match table {
                None => (self, Err(InjectError::SnapshotFailed)),
                Some(rows) => match first_match(rows, p_name) {
                    None => (self, Err(InjectError::ProcessNotFound)),
                    Some(i) => (
                        ProcessState { identifier: Target::Pid(rows[i].process_id), ..self },
                        Ok(rows[i].process_id),
                    ),
                },
            },
        }
    }

    /// Taking in the answer to an open call.
    pub open spec fn create_handle(self, opened: Result<ProcessHandle, u32>) -> (
        ProcessState,
        Result<(), InjectError>,
    ) {
        match self.identifier {
            Target::Name(_) => (self, Err(InjectError::Unresolved)),
            Target::Pid(_) => match opened {
                Ok(handle) => (ProcessState { handle: Some(handle), ..self }, Ok(())),
                Err(code) => (
                    ProcessState { handle: None, address: None, ..self },
                    Err(InjectError::HandleCreationFailed(code)),
                ),
            },
        }
    }

    /// The allocation call for a payload of `size` bytes, where there is a
    /// handle to make it on.
    pub open spec fn allocation_request(self, size: usize) -> Result<Request, InjectError> {
        match self.handle {
            Some(process) => Ok(Request::Allocate { process, size }),
            None => Err(InjectError::HandleAbsent),
        }
    }

    /// Taking in the answer to an allocation call.
    pub open spec fn allocate_memory(self, address: usize, code: u32) -> (
        ProcessState,
        Result<(), InjectError>,
    ) {
        if self.handle is None {
            (self, Err(InjectError::HandleAbsent))
        } else if address == 0 {
            (self, Err(InjectError::AllocationFailed(code)))
        } else {
            (ProcessState { address: Some(Address(address)), ..self }, Ok(()))
        }
    }

    /// The write call for a payload of `length` bytes, where there is a
    /// handle and an address to make it on.
    pub open spec fn write_request(self, length: usize) -> Result<Request, InjectError> {
        match (self.handle, self.address) {
            (Some(process), Some(address)) => Ok(Request::Write { process, address, length }),
            _ => Err(InjectError::WriteTargetAbsent),
        }
    }

    /// Judging the answer to a write call: anything short of the whole
    /// payload is a failure.
    pub open spec fn write_to_memory(self, length: usize, written: Result<usize, u32>) -> Result<
        (),
        InjectError,
    > {
        if self.handle is None || self.address is None {
            Err(InjectError::WriteTargetAbsent)
        } else {
            match written {
                Err(code) => Err(InjectError::WriteFailed(code)),
                Ok(count) => if count < length {
                    Err(InjectError::WriteIncomplete)
                } else {
                    Ok(())
                },
            }
        }
    }

    /// Giving the handle up: it is handed out once, and the state keeps none.
    pub open spec fn release(self) -> (ProcessState, Option<ProcessHandle>) {
        (ProcessState { handle: None, address: None, ..self }, self.handle)
    }
}

impl View for RemoteProcess {
    type V = ProcessState;

    open spec fn view(&self) -> ProcessState {
        ProcessState {
            identifier: self.identifier@,
            handle: self.p_handle,
            address: self.p_target_address,
        }
    }
}

impl RemoteProcess {
    /// The controller that a row of the process table gives.
    pub open spec fn spec_from(p_entry: ProcessEntry) -> RemoteProcess {
        RemoteProcess {
            identifier: ProcessArgs::PID(p_entry.process_id),
            p_handle: None,
            p_target_address: None,
        }
    }

    /// A controller for `identifier`, attached to nothing yet.
    pub fn new(identifier: ProcessArgs) -> (process: Self)
        ensures
            process.identifier == identifier,
            process.p_handle is None,
            process.p_target_address is None,
            process@.wf(),
    {
        RemoteProcess { identifier, p_handle: None, p_target_address: None }
    }

    /// The first call of an attach: opening by number, or reading the
    /// process table where only a name is known.
    pub fn attach_request(&self) -> (request: Request)
        ensures
            request == self@.attach_request(),
    {
        match &self.identifier {
            ProcessArgs::PID(p_id) => Request::OpenProcess { process_id: *p_id },
            ProcessArgs::PName(_) => Request::SnapshotProcesses,
        }
    }

    /// Settles which process is meant and returns its number. A name is
    /// looked up in `table`, and on a match the identifier becomes that
    /// number; a number needs no table.
    pub fn resolve(&mut self, table: Option<&Vec<ProcessEntry>>) -> (outcome: Result<
        u32,
        InjectError,
    >)
        ensures
            (final(self)@, outcome) == old(self)@.resolve(
                match table {
                    Some(rows) => Some(rows@),
                    None => None,
                },
            ),
            old(self)@.wf() ==> final(self)@.wf(),
    {
        let found: Option<RemoteProcess> = match &self.identifier {
            ProcessArgs::PID(p_id) => { return Ok(*p_id); },
            ProcessArgs::PName(p_name) => match table {
                None => { return Err(InjectError::SnapshotFailed); },
                Some(rows) => get_process_by_name(p_name.as_str(), rows),
            },
        };
        match found {
            None => Err(InjectError::ProcessNotFound),
            Some(p_inst) => match p_inst.identifier {
                ProcessArgs::PID(p_id) => {
                    self.identifier = ProcessArgs::PID(p_id);
                    Ok(p_id)
                },
                ProcessArgs::PName(_) => Err(InjectError::Unresolved),
            },
        }
    }

    /// Takes in the answer to the open call. On success the handle is kept;
    /// on failure the controller holds no handle.
    pub fn create_handle(&mut self, opened: Result<ProcessHandle, u32>) -> (outcome: Result<
        (),
        InjectError,
    >)
        ensures
            (final(self)@, outcome) == old(self)@.create_handle(opened),
            old(self)@.wf() ==> final(self)@.wf(),
    {
        match &self.identifier {
            ProcessArgs::PName(_) => Err(InjectError::Unresolved),
            ProcessArgs::PID(_) => match opened {
                Ok(handle) => {
                    self.p_handle = Some(handle);
                    Ok(())
                },
                Err(code) => {
                    self.p_target_address = None;
                    self.p_handle = None;
                    Err(InjectError::HandleCreationFailed(code))
                },
            },
        }
    }

    /// The allocation call for a payload of `shellcode_size` bytes. Without
    /// a handle there is no call to make.
    pub fn allocation_request(&self, shellcode_size: usize) -> (request: Result<Request, InjectError>)
        ensures
            request == self@.allocation_request(shellcode_size),
    {
        match self.p_handle {
            Some(process) => Ok(Request::Allocate { process, size: shellcode_size }),
            None => Err(InjectError::HandleAbsent),
        }
    }

    /// Takes in the answer to the allocation call: the address it returned,
    /// and the error code read after it. A zero address is a failure.
    pub fn allocate_memory(&mut self, address: usize, code: u32) -> (outcome: Result<(), InjectError>)
        ensures
            (final(self)@, outcome) == old(self)@.allocate_memory(address, code),
            old(self)@.wf() ==> final(self)@.wf(),
    {
        if self.p_handle.is_none() {
            Err(InjectError::HandleAbsent)
        } else if address == 0 {
            Err(InjectError::AllocationFailed(code))
        } else {
            self.p_target_address = Some(Address(address));
            Ok(())
        }
    }

    /// The write call for `buffer`. Without a handle and an address there
    /// is no call to make.
    pub fn write_request(&self, buffer: &Vec<u8>) -> (request: Result<Request, InjectError>)
        ensures
            request == self@.write_request(buffer.len()),
    {
        match (self.p_handle, self.p_target_address) {
            (Some(process), Some(address)) => Ok(
                Request::Write { process, address, length: buffer.len() },
            ),
            _ => Err(InjectError::WriteTargetAbsent),
        }
    }

    /// Judges the answer to the write call for `buffer`: the count of bytes
    /// written, or the error code. A short write counts as a failure.
    pub fn write_to_memory(&self, buffer: &Vec<u8>, written: Result<usize, u32>) -> (outcome: Result<
        (),
        InjectError,
    >)
        ensures
            outcome == self@.write_to_memory(buffer.len(), written),
    {
        if self.p_handle.is_none() || self.p_target_address.is_none() {
            return Err(InjectError::WriteTargetAbsent);
        }
        match written {
            Err(code) => Err(InjectError::WriteFailed(code)),
            Ok(count) => if count < buffer.len() {
                Err(InjectError::WriteIncomplete)
            } else {
                Ok(())
            },
        }
    }

    /// Gives up the handle so that the caller can close it. The handle
    /// comes out once; afterwards the controller holds none.
    pub fn release(&mut self) -> (released: Option<ProcessHandle>)
        ensures
            (final(self)@, released) == old(self)@.release(),
            final(self)@.wf(),
    {
        let released = self.p_handle;
        self.p_target_address = None;
        self.p_handle = None;
        released
    }

    /// A controller for the process that a row of the process table names.
    pub fn from(p_entry: &ProcessEntry) -> (process: Self)
        ensures
            process == Self::spec_from(*p_entry),
            process@.wf(),
    {
        RemoteProcess {
            identifier: ProcessArgs::PID(p_entry.process_id),
            p_handle: None,
            p_target_address: None,
        }
    }
}

/// Builds the controller for `identifier` and attaches it: the identifier
/// is resolved against `table`, and `opened` is the answer to opening the
/// process that it resolved to. Any failure comes back as it arose.
pub fn attach_to_process(
    identifier: ProcessArgs,
    table: Option<&Vec<ProcessEntry>>,
    opened: Result<ProcessHandle, u32>,
) -> (attached: Result<RemoteProcess, InjectError>)
    ensures
        ({
            let fresh = ProcessState { identifier: identifier@, handle: None, address: None };
            let rows = match table {
                Some(rows) => Some(rows@),
                None => None,
            };
            let (resolved, pid) = fresh.resolve(rows);
            match pid {
                Err(err) => attached == Err::<RemoteProcess, InjectError>(err),
                Ok(_) => match resolved.create_handle(opened).1 {
                    Err(err) => attached == Err::<RemoteProcess, InjectError>(err),
                    Ok(_) => attached is Ok && attached->Ok_0@ == resolved.create_handle(opened).0,
                },
            }
        }),
        attached is Ok ==> attached->Ok_0@.wf(),
{
    let mut remote_process = RemoteProcess::new(identifier);
    if let Err(err) = remote_process.resolve(table) {
        return Err(err);
    }
    if let Err(err) = remote_process.create_handle(opened) {
        Err(err)
    } else {
        Ok(remote_process)
    }
}

} // verus!
