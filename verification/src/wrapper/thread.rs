//! The controller of one thread of the target, and the collection of them.

use crate::error::InjectError;
use crate::system::{Request, ThreadEntry, ThreadHandle};
use crate::wrapper::args::{ProcessArgs, Target};
use crate::wrapper::process::{ProcessState, RemoteProcess};
use std::ops::{Deref, DerefMut};
use vstd::prelude::*;

verus! {

/// One thread of the target process.
#[derive(Debug, PartialEq, Eq)]
pub struct RemoteThread {
    /// The thread's identifier, as the thread table gave it.
    pub t_id: u32,
    /// The open handle, absent until one was stored.
    pub t_handle: Option<ThreadHandle>,
}

impl RemoteThread {
    /// The controller that a row of the thread table gives.
    pub open spec fn spec_from(t_entry: ThreadEntry) -> RemoteThread {
        RemoteThread { t_id: t_entry.thread_id, t_handle: None }
    }

    /// The call that opens this thread.
    pub open spec fn spec_open_request(self) -> Request {
        Request::OpenThread { thread_id: self.t_id }
    }

    /// Taking in the answer to an open call.
    pub open spec fn spec_create_handle(self, opened: Result<ThreadHandle, u32>) -> (
        RemoteThread,
        Result<(), InjectError>,
    ) {
        match opened {
            Ok(handle) => (RemoteThread { t_handle: Some(handle), ..self }, Ok(())),
            Err(code) => (
                RemoteThread { t_handle: None, ..self },
                Err(InjectError::ThreadHandleCreationFailed(code)),
            ),
        }
    }

    /// The queuing call that sends this thread to the payload of `process`,
    /// where there is a thread handle and a payload address.
    pub open spec fn spec_queue_request(self, process: ProcessState) -> Result<Request, InjectError> {
        match (self.t_handle, process.address) {
            (Some(thread), Some(address)) => Ok(Request::QueueCall { thread, address }),
            _ => Err(InjectError::QueueTargetAbsent),
        }
    }

    /// Judging the answer to a queuing call: a zero status is a failure.
    pub open spec fn spec_queue_apc_routine(self, process: ProcessState, status: u32, code: u32) -> Result<
        (),
        InjectError,
    > {
        if self.t_handle is None || process.address is None {
            Err(InjectError::QueueTargetAbsent)
        } else if status == 0 {
            Err(InjectError::QueueFailed(code))
        } else {
            Ok(())
        }
    }

    /// Giving the handle up: it is handed out once, and the thread keeps none.
    pub open spec fn spec_release(self) -> (RemoteThread, Option<ThreadHandle>) {
        (RemoteThread { t_handle: None, ..self }, self.t_handle)
    }

    /// A controller for the thread `t_id`, holding no handle.
    pub fn new(t_id: u32) -> (thread: Self)
        ensures
            thread == (RemoteThread { t_id, t_handle: None }),
    {
        RemoteThread { t_id, t_handle: None }
    }

    /// A controller for the thread that a row of the thread table names.
    pub fn from(t_entry: ThreadEntry) -> (thread: Self)
        ensures
            thread == Self::spec_from(t_entry),
    {
        RemoteThread { t_id: t_entry.thread_id, t_handle: None }
    }

    /// The call that opens this thread.
    pub fn open_request(&self) -> (request: Request)
        ensures
            request == self.spec_open_request(),
    {
        Request::OpenThread { thread_id: self.t_id }
    }

    /// Takes in the answer to the open call. On success the handle is kept;
    /// on failure the thread holds no handle.
    pub fn create_handle(&mut self, opened: Result<ThreadHandle, u32>) -> (outcome: Result<
        (),
        InjectError,
    >)
        ensures
            (*final(self), outcome) == old(self).spec_create_handle(opened),
    {
        match opened {
            Ok(handle) => {
                self.t_handle = Some(handle);
                Ok(())
            },
            Err(code) => {
                self.t_handle = None;
                Err(InjectError::ThreadHandleCreationFailed(code))
            },
        }
    }

    /// The call that queues the payload of `p_repr` on this thread. Without
    /// a thread handle and a payload address there is no call to make.
    pub fn queue_request(&self, p_repr: &RemoteProcess) -> (request: Result<Request, InjectError>)
        ensures
            request == self.spec_queue_request(p_repr@),
    {
        match (self.t_handle, p_repr.p_target_address) {
            (Some(thread), Some(address)) => Ok(Request::QueueCall { thread, address }),
            _ => Err(InjectError::QueueTargetAbsent),
        }
    }

    /// Judges the answer to the queuing call: the status it returned, and
    /// the error code read after it. On success the caller goes on to raise
    /// the alert; whether that works out changes nothing here.
    pub fn queue_apc_routine(&self, p_repr: &RemoteProcess, status: u32, code: u32) -> (outcome: Result<
        (),
        InjectError,
    >)
        ensures
            outcome == self.spec_queue_apc_routine(p_repr@, status, code),
    {
        if self.t_handle.is_none() || p_repr.p_target_address.is_none() {
            Err(InjectError::QueueTargetAbsent)
        } else if status == 0 {
            Err(InjectError::QueueFailed(code))
        } else {
            Ok(())
        }
    }

    /// Gives up the handle so that the caller can close it. The handle
    /// comes out once; afterwards the thread holds none.
    pub fn release(&mut self) -> (released: Option<ThreadHandle>)
        ensures
            (*final(self), released) == old(self).spec_release(),
    {
        let released = self.t_handle;
        self.t_handle = None;
        released
    }
}

/// The controller for a row that belongs to process `p_id`, none for
/// another row.
pub open spec fn owned_thread(p_id: u32) -> spec_fn(ThreadEntry) -> Option<RemoteThread> {
    |row: ThreadEntry|
        if row.owner_process_id == p_id {
            Some(RemoteThread::spec_from(row))
        } else {
            None
        }
}

/// The controllers for the rows of a thread table that belong to process
/// `p_id`, in the order of the table.
pub open spec fn owned_threads(rows: Seq<ThreadEntry>, p_id: u32) -> Seq<RemoteThread> {
    rows.filter_map(owned_thread(p_id))
}

/// What enumerating a thread table adds to the threads known before. No
/// snapshot and an empty table are failures; a table without a row of the
/// process is not.
pub open spec fn enumerated(before: Seq<RemoteThread>, p_id: u32, snapshot: Option<Seq<ThreadEntry>>) -> (
    Seq<RemoteThread>,
    Result<(), InjectError>,
) {
    match snapshot {
        None => (before, Err(InjectError::SnapshotFailed)),
        Some(rows) => if rows.len() == 0 {
            (before, Err(InjectError::NoThreadsFound))
        } else {
            (before + owned_threads(rows, p_id), Ok(()))
        },
    }
}

/// The threads that a snapshot of the thread table gives for a process. A
/// process that is known by name only has none.
pub open spec fn enumerated_for(process: ProcessState, snapshot: Option<Seq<ThreadEntry>>) -> (
    Seq<RemoteThread>,
    Result<(), InjectError>,
) {
    match process.identifier {
        Target::Name(_) => (Seq::empty(), Ok(())),
        Target::Pid(p_id) => enumerated(Seq::empty(), p_id, snapshot),
    }
}

/// The threads of one process, in the order in which the thread table
/// listed them.
pub struct RemoteThreadCollection(Vec<RemoteThread>);

impl View for RemoteThreadCollection {
    type V = Seq<RemoteThread>;

    closed spec fn view(&self) -> Seq<RemoteThread> {
        self.0@
    }
}

impl RemoteThreadCollection {
    /// A collection without threads.
    pub fn new() -> (collection: Self)
        ensures
            collection@ == Seq::<RemoteThread>::empty(),
    {
        RemoteThreadCollection(Vec::new())
    }

    /// Adds a thread at the end.
    pub fn push(&mut self, t_entry: RemoteThread) -> (outcome: Result<(), ()>)
        ensures
            outcome is Ok,
            final(self)@ == old(self)@.push(t_entry),
    {
        self.0.push(t_entry);
        Ok(())
    }

    /// Takes the last thread out.
    pub fn pop(&mut self) -> (last: Option<RemoteThread>)
        ensures
            old(self)@.len() == 0 ==> last is None && final(self)@ == old(self)@,
            old(self)@.len() > 0 ==> last == Some(old(self)@.last()) && final(self)@ == old(
                self,
            )@.drop_last(),
    {
        self.0.pop()
    }

    /// The number of threads.
    pub fn len(&self) -> (count: usize)
        ensures
            count == self@.len(),
    {
        self.0.len()
    }

    /// Takes in a snapshot of the thread table and appends a controller for
    /// each row that belongs to process `p_id`, in the order of the table.
    pub fn enumerate_threads(&mut self, p_id: u32, snapshot: Option<&Vec<ThreadEntry>>) -> (outcome:
        Result<(), InjectError>)
        ensures
            (final(self)@, outcome) == enumerated(
                old(self)@,
                p_id,
                match snapshot {
                    Some(rows) => Some(rows@),
                    None => None,
                },
            ),
    {
        let rows = match snapshot {
            None => { return Err(InjectError::SnapshotFailed); },
            Some(rows) => rows,
        };
        if rows.len() == 0 {
            return Err(InjectError::NoThreadsFound);
        }
        let mut at: usize = 0;
        while at < rows.len()
            invariant
                at <= rows.len(),
                self@ == old(self)@ + owned_threads(rows@.take(at as int), p_id),
            decreases rows.len() - at,
        {
            proof {
                rows@.lemma_filter_map_take_succ(owned_thread(p_id), at as int);
            }
            let thread_entry = rows[at];
            if thread_entry.owner_process_id == p_id {
                let _ = self.push(RemoteThread::from(thread_entry));
            }
            at += 1;
        }
        assert(rows@.take(at as int) == rows@);
        Ok(())
    }
}

impl Deref for RemoteThreadCollection {
    type Target = Vec<RemoteThread>;

    fn deref(&self) -> (threads: &Vec<RemoteThread>)
        ensures
            threads@ == self@,
    {
        &self.0
    }
}

impl DerefMut for RemoteThreadCollection {
    fn deref_mut(&mut self) -> (threads: &mut Vec<RemoteThread>)
        ensures
            threads@ == old(self)@,
            final(self)@ == final(threads)@,
    {
        &mut self.0
    }
}

/// Takes in a snapshot of the thread table and returns the threads of the
/// process that `p_repr` controls. A controller whose identifier is still a
/// name has no threads to offer.
pub fn enumerate_threads(p_repr: &RemoteProcess, snapshot: Option<&Vec<ThreadEntry>>) -> (outcome:
    Result<RemoteThreadCollection, InjectError>)
    ensures
        ({
            let (threads, verdict) = enumerated_for(
                p_repr@,
                match snapshot {
                    Some(rows) => Some(rows@),
                    None => None,
                },
            );
            match verdict {
                Ok(_) => outcome is Ok && outcome->Ok_0@ == threads,
                Err(err) => outcome is Err && outcome->Err_0 == err,
            }
        }),
{
    let mut thread_collection = RemoteThreadCollection::new();
    if let ProcessArgs::PID(p_id) = &p_repr.identifier {
        if let Err(err) = thread_collection.enumerate_threads(*p_id, snapshot) {
            return Err(err);
        }
    }
    Ok(thread_collection)
}

} // verus!
