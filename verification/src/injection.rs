//! The run as a whole: attach, allocate, write, enumerate, then one attempt
//! per thread. The run is a state machine. It names the system call it
//! waits for, takes the answer in, and names the next one.

use crate::error::InjectError;
use crate::system::{Reply, Request};
use crate::wrapper::args::{ProcessArgs, Target};
use crate::wrapper::process::{ProcessState, RemoteProcess};
use crate::wrapper::thread::{
    enumerate_threads, enumerated_for, RemoteThread, RemoteThreadCollection,
};
use std::ops::{Deref, DerefMut};
use vstd::prelude::*;

verus! {

/// How the attempt on one thread ended.
#[derive(Debug, PartialEq, Eq)]
pub struct ThreadReport {
    pub thread_id: u32,
    pub outcome: Result<(), InjectError>,
}

/// The rows of a table as a specification sees them.
pub open spec fn rows_of<T>(table: Option<Vec<T>>) -> Option<Seq<T>> {
    match table {
        Some(rows) => Some(rows@),
        None => None,
    }
}

/// The call that turns to the next thread: the open call for the first
/// thread without a report, or the end of the run where every thread has one.
pub open spec fn next_thread(threads: Seq<RemoteThread>, done: int) -> Request {
    if 0 <= done < threads.len() {
        threads[done].spec_open_request()
    } else {
        Request::Finished
    }
}

/// Attaching, one answer at a time: the process table settles a name, the
/// open call gives the handle, and the allocation is asked for next. Any
/// failure ends the run.
pub open spec fn attach_step(process: ProcessState, size: usize, pending: Request, reply: Reply) -> (
    ProcessState,
    Request,
) {
    match (pending, reply) {
        (Request::SnapshotProcesses, Reply::ProcessTable(table)) => {
            let (resolved, outcome) = process.resolve(rows_of(table));
            match outcome {
                Ok(process_id) => (resolved, Request::OpenProcess { process_id }),
                Err(err) => (resolved, Request::Abort(err)),
            }
        },
        (Request::OpenProcess { .. }, Reply::ProcessOpened(opened)) => {
            let (attached, outcome) = process.create_handle(opened);
            match outcome {
                Ok(_) => match attached.allocation_request(size) {
                    Ok(request) => (attached, request),
                    Err(err) => (attached, Request::Abort(err)),
                },
                Err(err) => (attached, Request::Abort(err)),
            }
        },
        _ => (process, pending),
    }
}

/// Placing the payload, one answer at a time: the allocation gives the
/// address, the write fills it, and the thread table is asked for next. Any
/// failure ends the run.
pub open spec fn allocate_write_step(
    process: ProcessState,
    size: usize,
    pending: Request,
    reply: Reply,
) -> (ProcessState, Request) {
    match (pending, reply) {
        (Request::Allocate { .. }, Reply::Allocated { address, code }) => {
            let (allocated, outcome) = process.allocate_memory(address, code);
            match outcome {
                Ok(_) => match allocated.write_request(size) {
                    Ok(request) => (allocated, request),
                    Err(err) => (allocated, Request::Abort(err)),
                },
                Err(err) => (allocated, Request::Abort(err)),
            }
        },
        (Request::Write { .. }, Reply::Written(written)) => match process.write_to_memory(
            size,
            written,
        ) {
            Ok(_) => (process, Request::SnapshotThreads),
            Err(err) => (process, Request::Abort(err)),
        },
        _ => (process, pending),
    }
}

/// The threads, one answer at a time. The thread table gives the threads;
/// then each thread in turn is opened, gets the call queued, and the alert
/// is raised. A thread that cannot be opened or queued on gets a report of
/// the failure, and the run turns to the next one. Only a thread table that
/// cannot be read ends the run.
pub open spec fn queue_step(
    process: ProcessState,
    threads: Seq<RemoteThread>,
    report: Seq<ThreadReport>,
    pending: Request,
    reply: Reply,
) -> (Seq<RemoteThread>, Seq<ThreadReport>, Request) {
    let at = report.len() as int;
    match (pending, reply) {
        (Request::SnapshotThreads, Reply::ThreadTable(table)) => {
            let (found, outcome) = enumerated_for(process, rows_of(table));
            match outcome {
                Ok(_) => (found, report, next_thread(found, at)),
                Err(err) => (threads, report, Request::Abort(err)),
            }
        },
        (Request::OpenThread { .. }, Reply::ThreadOpened(opened)) => if at < threads.len() {
            let (thread, outcome) = threads[at].spec_create_handle(opened);
            let opened_threads = threads.update(at, thread);
            let verdict = match outcome {
                Ok(_) => thread.spec_queue_request(process),
                Err(err) => Err(err),
            };
            match verdict {
                Ok(request) => (opened_threads, report, request),
                Err(err) => (
                    opened_threads,
                    report.push(ThreadReport { thread_id: thread.t_id, outcome: Err(err) }),
                    next_thread(opened_threads, at + 1),
                ),
            }
        } else {
            (threads, report, Request::Finished)
        },
        (Request::QueueCall { .. }, Reply::Queued { status, code }) => if at < threads.len() {
            match threads[at].spec_queue_apc_routine(process, status, code) {
                Ok(_) => (threads, report, Request::TriggerAlert),
                Err(err) => (
                    threads,
                    report.push(ThreadReport { thread_id: threads[at].t_id, outcome: Err(err) }),
                    next_thread(threads, at + 1),
                ),
            }
        } else {
            (threads, report, Request::Finished)
        },
        (Request::TriggerAlert, Reply::Alerted(_)) => if at < threads.len() {
            (
                threads,
                report.push(ThreadReport { thread_id: threads[at].t_id, outcome: Ok(()) }),
                next_thread(threads, at + 1),
            )
        } else {
            (threads, report, Request::Finished)
        },
        _ => (threads, report, pending),
    }
}

/// Takes in an answer while the run attaches. `shellcode` is the payload
/// that the allocation will be asked for.
pub fn attach_process(
    p_inst: &mut RemoteProcess,
    shellcode: &Vec<u8>,
    pending: Request,
    reply: Reply,
) -> (next: Request)
    ensures
        (final(p_inst)@, next) == attach_step(old(p_inst)@, shellcode.len(), pending, reply),
        old(p_inst)@.wf() ==> final(p_inst)@.wf(),
{
    match (pending, reply) {
        (Request::SnapshotProcesses, Reply::ProcessTable(table)) => {
            let outcome = match &table {
                Some(rows) => p_inst.resolve(Some(rows)),
                None => p_inst.resolve(None),
            };
            match outcome {
                Ok(process_id) => Request::OpenProcess { process_id },
                Err(err) => Request::Abort(err),
            }
        },
        (Request::OpenProcess { .. }, Reply::ProcessOpened(opened)) => {
            match p_inst.create_handle(opened) {
                Ok(_) => match p_inst.allocation_request(shellcode.len()) {
                    Ok(request) => request,
                    Err(err) => Request::Abort(err),
                },
                Err(err) => Request::Abort(err),
            }
        },
        (pending, _) => pending,
    }
}

/// Takes in an answer while the run places the payload `shellcode` in the
/// target.
pub fn allocate_write_shellcode(
    p_inst: &mut RemoteProcess,
    shellcode: &Vec<u8>,
    pending: Request,
    reply: Reply,
) -> (next: Request)
    ensures
        (final(p_inst)@, next) == allocate_write_step(
            old(p_inst)@,
            shellcode.len(),
            pending,
            reply,
        ),
        old(p_inst)@.wf() ==> final(p_inst)@.wf(),
{
    match (pending, reply) {
        (Request::Allocate { .. }, Reply::Allocated { address, code }) => {
            match p_inst.allocate_memory(address, code) {
                Ok(_) => match p_inst.write_request(shellcode) {
                    Ok(request) => request,
                    Err(err) => Request::Abort(err),
                },
                Err(err) => Request::Abort(err),
            }
        },
        (Request::Write { .. }, Reply::Written(written)) => {
            match p_inst.write_to_memory(shellcode, written) {
                Ok(_) => Request::SnapshotThreads,
                Err(err) => Request::Abort(err),
            }
        },
        (pending, _) => pending,
    }
}

/// The call that turns to the next thread after `done` of them.
fn turn_to(t_collection: &RemoteThreadCollection, done: usize) -> (next: Request)
    ensures
        next == next_thread(t_collection@, done as int),
{
    if done < t_collection.len() {
        t_collection.deref()[done].open_request()
    } else {
        Request::Finished
    }
}

/// Takes in an answer while the run works through the threads of the
/// process `p_inst`. `report` holds one entry for each thread that the run
/// is done with.
pub fn queue_apc_on_threads(
    p_inst: &RemoteProcess,
    t_collection: &mut RemoteThreadCollection,
    report: &mut Vec<ThreadReport>,
    pending: Request,
    reply: Reply,
) -> (next: Request)
    ensures
        (final(t_collection)@, final(report)@, next) == queue_step(
            p_inst@,
            old(t_collection)@,
            old(report)@,
            pending,
            reply,
        ),
{
    let at: usize = report.len();
    match (pending, reply) {
        (Request::SnapshotThreads, Reply::ThreadTable(table)) => {
            let outcome = match &table {
                Some(rows) => enumerate_threads(p_inst, Some(rows)),
                None => enumerate_threads(p_inst, None),
            };
            match outcome {
                Ok(found) => {
                    *t_collection = found;
                    turn_to(t_collection, at)
                },
                Err(err) => Request::Abort(err),
            }
        },
        (Request::OpenThread { .. }, Reply::ThreadOpened(opened)) => {
            if at >= t_collection.len() {
                return Request::Finished;
            }
            let t_inst: &mut RemoteThread = &mut t_collection.deref_mut()[at];
            let verdict = match t_inst.create_handle(opened) {
                Ok(_) => t_inst.queue_request(p_inst),
                Err(err) => Err(err),
            };
            let thread_id = t_inst.t_id;
            match verdict {
                Ok(request) => request,
                Err(err) => {
                    report.push(ThreadReport { thread_id, outcome: Err(err) });
                    turn_to(t_collection, at + 1)
                },
            }
        },
        (Request::QueueCall { .. }, Reply::Queued { status, code }) => {
            if at >= t_collection.len() {
                return Request::Finished;
            }
            let t_inst: &RemoteThread = &(&*t_collection).deref()[at];
            match t_inst.queue_apc_routine(p_inst, status, code) {
                Ok(_) => Request::TriggerAlert,
                Err(err) => {
                    report.push(ThreadReport { thread_id: t_inst.t_id, outcome: Err(err) });
                    turn_to(t_collection, at + 1)
                },
            }
        },
        (Request::TriggerAlert, Reply::Alerted(_)) => {
            if at >= t_collection.len() {
                return Request::Finished;
            }
            let thread_id = (&*t_collection).deref()[at].t_id;
            report.push(ThreadReport { thread_id, outcome: Ok(()) });
            turn_to(t_collection, at + 1)
        },
        (pending, _) => pending,
    }
}

/// What an [`Injection`] stands for.
pub struct InjectionState {
    pub process: ProcessState,
    pub payload: Seq<u8>,
    pub threads: Seq<RemoteThread>,
    pub report: Seq<ThreadReport>,
    pub pending: Request,
}

impl InjectionState {
    /// The run before anything was asked: attaching comes first.
    pub open spec fn initial(identifier: Target, payload: Seq<u8>) -> InjectionState {
        let process = ProcessState { identifier, handle: None, address: None };
        InjectionState {
            process,
            payload,
            threads: Seq::empty(),
            report: Seq::empty(),
            pending: process.attach_request(),
        }
    }

    /// The run after `reply`. An answer to another call than the pending
    /// one changes nothing, nor does any answer once the run has ended.
    pub open spec fn step(self, reply: Reply) -> InjectionState {
        let size = self.payload.len() as usize;
        match self.pending {
            Request::SnapshotProcesses | Request::OpenProcess { .. } => {
                let (process, pending) = attach_step(self.process, size, self.pending, reply);
                InjectionState { process, pending, ..self }
            },
            Request::Allocate { .. } | Request::Write { .. } => {
                let (process, pending) = allocate_write_step(
                    self.process,
                    size,
                    self.pending,
                    reply,
                );
                InjectionState { process, pending, ..self }
            },
            Request::SnapshotThreads
            | Request::OpenThread { .. }
            | Request::QueueCall { .. }
            | Request::TriggerAlert => {
                let (threads, report, pending) = queue_step(
                    self.process,
                    self.threads,
                    self.report,
                    self.pending,
                    reply,
                );
                InjectionState { threads, report, pending, ..self }
            },
            Request::Finished | Request::Abort(_) => self,
        }
    }

    /// The run after each of `replies` in turn.
    pub open spec fn after(self, replies: Seq<Reply>) -> InjectionState
        decreases replies.len(),
    {
        if replies.len() == 0 {
            self
        } else {
            self.after(replies.drop_last()).step(replies.last())
        }
    }

    /// Whether the run is at work on the threads: it waits for a thread to
    /// open, for a call to be queued, or for the alert.
    pub open spec fn on_threads(self) -> bool {
        self.pending is OpenThread || self.pending is QueueCall || self.pending is TriggerAlert
    }

    /// Whether the run has ended, for good or bad.
    pub open spec fn ended(self) -> bool {
        self.pending is Finished || self.pending is Abort
    }

    /// What holds of every run: the pending call fits the state it is
    /// asked in, and the reports cover the threads in order.
    pub open spec fn wf(self) -> bool {
        let at = self.report.len() as int;
        &&& self.process.wf()
        &&& self.payload.len() <= usize::MAX
        &&& at <= self.threads.len()
        &&& forall|i: int| 0 <= i < at ==> (#[trigger] self.report[i]).thread_id == self.threads[i].t_id
        &&& match self.pending {
            Request::SnapshotProcesses => self.process.identifier is Name && self.threads.len() == 0,
            Request::OpenProcess { process_id } => {
                &&& self.process.identifier == Target::Pid(process_id)
                &&& self.threads.len() == 0
            },
            Request::Allocate { process, size } => {
                &&& self.process.handle == Some(process)
                &&& size == self.payload.len()
                &&& self.threads.len() == 0
            },
            Request::Write { process, address, length } => {
                &&& self.process.handle == Some(process)
                &&& self.process.address == Some(address)
                &&& length == self.payload.len()
                &&& self.threads.len() == 0
            },
            Request::SnapshotThreads => {
                &&& self.process.handle is Some
                &&& self.process.address is Some
                &&& self.threads.len() == 0
            },
            Request::OpenThread { thread_id } => {
                &&& self.process.address is Some
                &&& at < self.threads.len()
                &&& self.threads[at].t_id == thread_id
            },
            Request::QueueCall { thread, address } => {
                &&& self.process.address == Some(address)
                &&& at < self.threads.len()
                &&& self.threads[at].t_handle == Some(thread)
            },
            Request::TriggerAlert => {
                &&& self.process.address is Some
                &&& at < self.threads.len()
                &&& self.threads[at].t_handle is Some
            },
            Request::Finished => at == self.threads.len(),
            Request::Abort(_) => true,
        }
    }
}

/// One run against one target.
pub struct Injection {
    process: RemoteProcess,
    payload: Vec<u8>,
    threads: RemoteThreadCollection,
    report: Vec<ThreadReport>,
    pending: Request,
}

impl View for Injection {
    type V = InjectionState;

    closed spec fn view(&self) -> InjectionState {
        InjectionState {
            process: self.process@,
            payload: self.payload@,
            threads: self.threads@,
            report: self.report@,
            pending: self.pending,
        }
    }
}

impl Injection {
    #[verifier::type_invariant]
    spec fn holds(self) -> bool {
        self@.wf()
    }

    /// A run that will place `payload` in the process that `identifier`
    /// names. Nothing has been asked of the system yet.
    pub fn new(identifier: ProcessArgs, payload: Vec<u8>) -> (run: Self)
        ensures
            run@ == InjectionState::initial(identifier@, payload@),
            run@.wf(),
    {
        let process = RemoteProcess::new(identifier);
        let pending = process.attach_request();
        let threads = RemoteThreadCollection::new();
        let report: Vec<ThreadReport> = Vec::new();
        proof {
            assert(payload@.len() == payload.len());
        }
        Injection { process, payload, threads, report, pending }
    }

    /// The call that the run waits for.
    pub fn pending(&self) -> (request: Request)
        ensures
            request == self@.pending,
            self@.wf(),
    {
        proof {
            use_type_invariant(self);
        }
        self.pending
    }

    /// The controller of the target process.
    pub fn process(&self) -> (process: &RemoteProcess)
        ensures
            process@ == self@.process,
    {
        &self.process
    }

    /// The bytes to place in the target.
    pub fn payload(&self) -> (payload: &Vec<u8>)
        ensures
            payload@ == self@.payload,
    {
        &self.payload
    }

    /// The threads of the target, empty until the thread table was read.
    pub fn threads(&self) -> (threads: &RemoteThreadCollection)
        ensures
            threads@ == self@.threads,
    {
        &self.threads
    }

    /// The reports of the threads that the run is done with, in the order
    /// of the threads.
    pub fn report(&self) -> (report: &Vec<ThreadReport>)
        ensures
            report@ == self@.report,
    {
        &self.report
    }

    /// Takes in the answer to the pending call and returns the run as it
    /// stands then, with the call it waits for next.
    pub fn step(self, reply: Reply) -> (next: (Self, Request))
        ensures
            next.0@ == self@.step(reply),
            next.1 == next.0@.pending,
            next.0@.wf(),
    {
        proof {
            use_type_invariant(&self);
        }
        let ghost before = self@;
        let Injection { process, payload, threads, report, pending } = self;
        let mut process = process;
        let mut threads = threads;
        let mut report = report;
        let next = match pending {
            Request::SnapshotProcesses | Request::OpenProcess { .. } => attach_process(
                &mut process,
                &payload,
                pending,
                reply,
            ),
            Request::Allocate { .. } | Request::Write { .. } => allocate_write_shellcode(
                &mut process,
                &payload,
                pending,
                reply,
            ),
            Request::SnapshotThreads
            | Request::OpenThread { .. }
            | Request::QueueCall { .. }
            | Request::TriggerAlert => queue_apc_on_threads(
                &process,
                &mut threads,
                &mut report,
                pending,
                reply,
            ),
            Request::Finished | Request::Abort(_) => pending,
        };
        proof {
            step_keeps_well_formed(before, reply);
        }
        (Injection { process, payload, threads, report, pending: next }, next)
    }

    /// Ends the run and hands out the controllers, whose handles are the
    /// caller's to release, and the reports.
    pub fn finish(self) -> (parts: (RemoteProcess, RemoteThreadCollection, Vec<ThreadReport>))
        ensures
            parts.0@ == self@.process,
            parts.1@ == self@.threads,
            parts.2@ == self@.report,
    {
        let Injection { process, payload: _, threads, report, pending: _ } = self;
        (process, threads, report)
    }
}

/// Whatever the answer, a step keeps a run well formed.
pub proof fn step_keeps_well_formed(run: InjectionState, reply: Reply)
    requires
        run.wf(),
    ensures
        run.step(reply).wf(),
{
}

} // verus!
