//! What holds of every controller and of every run, whatever the system
//! answers.

use crate::error::InjectError;
use crate::helper::process::{first_match, lemma_first_match_from, name_matches};
use crate::injection::{next_thread, step_keeps_well_formed, InjectionState, ThreadReport};
use crate::system::{ProcessEntry, ProcessHandle, Reply, Request, ThreadEntry, ThreadHandle};
use crate::wrapper::args::Target;
use crate::wrapper::process::ProcessState;
use crate::wrapper::thread::{owned_threads, RemoteThread};
use vstd::prelude::*;

verus! {

/// A run starts well formed and stays so through any answers.
pub proof fn run_stays_well_formed(identifier: Target, payload: Seq<u8>, replies: Seq<Reply>)
    requires
        payload.len() <= usize::MAX,
    ensures
        InjectionState::initial(identifier, payload).after(replies).wf(),
    decreases replies.len(),
{
    let start = InjectionState::initial(identifier, payload);
    if replies.len() > 0 {
        run_stays_well_formed(identifier, payload, replies.drop_last());
        step_keeps_well_formed(start.after(replies.drop_last()), replies.last());
    }
}

/// Every operation of the process controller keeps it well formed: an
/// address is only held together with a handle, and a handle only under a
/// number.
pub proof fn process_stays_well_formed(
    process: ProcessState,
    table: Option<Seq<ProcessEntry>>,
    opened: Result<ProcessHandle, u32>,
    address: usize,
    code: u32,
)
    requires
        process.wf(),
    ensures
        process.resolve(table).0.wf(),
        process.create_handle(opened).0.wf(),
        process.allocate_memory(address, code).0.wf(),
        process.release().0.wf(),
{
}

/// A target given by number is opened directly: its run never asks for the
/// process table, and the number stays the one that was given.
pub proof fn number_needs_no_process_table(p_id: u32, payload: Seq<u8>, replies: Seq<Reply>)
    requires
        payload.len() <= usize::MAX,
    ensures
        InjectionState::initial(Target::Pid(p_id), payload).pending == (Request::OpenProcess {
            process_id: p_id,
        }),
        InjectionState::initial(Target::Pid(p_id), payload).after(replies).pending
            != Request::SnapshotProcesses,
        InjectionState::initial(Target::Pid(p_id), payload).after(replies).process.identifier
            == Target::Pid(p_id),
    decreases replies.len(),
{
    let start = InjectionState::initial(Target::Pid(p_id), payload);
    run_stays_well_formed(Target::Pid(p_id), payload, replies);
    if replies.len() > 0 {
        number_needs_no_process_table(p_id, payload, replies.drop_last());
        run_stays_well_formed(Target::Pid(p_id), payload, replies.drop_last());
    }
}

/// A controller that knows its target by number asks to open it and
/// nothing else, and no process table changes which process that is.
pub proof fn number_is_opened_directly(
    process: ProcessState,
    p_id: u32,
    table: Option<Seq<ProcessEntry>>,
)
    requires
        process.identifier == Target::Pid(p_id),
    ensures
        process.attach_request() == (Request::OpenProcess { process_id: p_id }),
        process.resolve(table) == (process, Ok::<u32, InjectError>(p_id)),
{
}

/// A name that no row of the process table matches is not resolved: the
/// controller reports that no process was found and stays as it was, and a
/// run that waited for the table ends with that failure.
pub proof fn name_without_match_is_not_found(
    process: ProcessState,
    p_name: Seq<char>,
    rows: Seq<ProcessEntry>,
)
    requires
        process.identifier == Target::Name(p_name),
        forall|i: int| 0 <= i < rows.len() ==> !name_matches(#[trigger] rows[i], p_name),
    ensures
        process.resolve(Some(rows)) == (
            process,
            Err::<u32, InjectError>(InjectError::ProcessNotFound),
        ),
{
    lemma_first_match_from(rows, p_name, 0);
}

/// A name that rows of the process table match resolves to the first of
/// them: the identifier becomes the number of that row and no other.
pub proof fn name_resolves_to_first_match(
    process: ProcessState,
    p_name: Seq<char>,
    rows: Seq<ProcessEntry>,
    first: int,
)
    requires
        process.identifier == Target::Name(p_name),
        0 <= first < rows.len(),
        name_matches(rows[first], p_name),
        forall|i: int| 0 <= i < first ==> !name_matches(#[trigger] rows[i], p_name),
    ensures
        process.resolve(Some(rows)) == (
            ProcessState { identifier: Target::Pid(rows[first].process_id), ..process },
            Ok::<u32, InjectError>(rows[first].process_id),
        ),
{
    lemma_first_match_from(rows, p_name, 0);
}

/// In a run by name, the table decides what is opened: with a match the
/// run asks to open exactly the first matching process, and the handle it
/// is given is kept under that number; without one the run ends.
pub proof fn run_opens_the_first_match(
    run: InjectionState,
    table: Vec<ProcessEntry>,
    handle: ProcessHandle,
)
    requires
        run.wf(),
        run.pending == Request::SnapshotProcesses,
    ensures
        ({
            let resolved = run.step(Reply::ProcessTable(Some(table)));
            match first_match(table@, run.process.identifier->Name_0) {
                Some(first) => {
                    let process_id = table@[first].process_id;
                    let attached = resolved.step(Reply::ProcessOpened(Ok(handle)));
                    &&& resolved.pending == Request::OpenProcess { process_id }
                    &&& resolved.process.identifier == Target::Pid(process_id)
                    &&& attached.process.identifier == Target::Pid(process_id)
                    &&& attached.process.handle == Some(handle)
                },
                None => resolved.pending == Request::Abort(InjectError::ProcessNotFound),
            }
        }),
{
}

/// Without a handle nothing is allocated: there is no call to make, and
/// whatever answer is offered, the controller reports the missing handle
/// and stays as it was.
pub proof fn allocation_needs_a_handle(process: ProcessState, size: usize, address: usize, code: u32)
    requires
        process.handle is None,
    ensures
        process.allocation_request(size) == Err::<Request, InjectError>(InjectError::HandleAbsent),
        process.allocate_memory(address, code) == (
            process,
            Err::<(), InjectError>(InjectError::HandleAbsent),
        ),
{
}

/// Without an allocation nothing is written: there is no call to make, and
/// whatever answer is offered, the controller reports the missing target.
pub proof fn write_needs_an_allocation(
    process: ProcessState,
    length: usize,
    written: Result<usize, u32>,
)
    requires
        process.address is None,
    ensures
        process.write_request(length) == Err::<Request, InjectError>(
            InjectError::WriteTargetAbsent,
        ),
        process.write_to_memory(length, written) == Err::<(), InjectError>(
            InjectError::WriteTargetAbsent,
        ),
{
}

/// A run asks the system to allocate, to write and to queue only on what it
/// holds: the handle and the address in the call are those of its process,
/// the thread handle that of the thread it is at.
pub proof fn run_asks_on_what_it_holds(run: InjectionState)
    requires
        run.wf(),
    ensures
        run.pending matches Request::Allocate { process, size } ==> run.process.handle == Some(
            process,
        ) && size == run.payload.len(),
        run.pending matches Request::Write { process, address, length } ==> run.process.handle
            == Some(process) && run.process.address == Some(address) && length
            == run.payload.len(),
        run.pending matches Request::QueueCall { thread, address } ==> run.process.address == Some(
            address,
        ) && run.threads[run.report.len() as int].t_handle == Some(thread),
{
}

/// Whether `thread` is the controller of some row of the table that belongs
/// to process `p_id`.
pub open spec fn stands_for_a_row(thread: RemoteThread, rows: Seq<ThreadEntry>, p_id: u32) -> bool {
    exists|j: int|
        0 <= j < rows.len() && (#[trigger] rows[j]).owner_process_id == p_id && thread
            == RemoteThread::spec_from(rows[j])
}

/// Enumeration keeps the rows of the requested process and no others:
/// every thread found stands for a row of that process, wherever in the
/// table the row is, and every row of that process is among the threads. No
/// thread found holds a handle.
pub proof fn enumerated_threads_belong_to_the_process(rows: Seq<ThreadEntry>, p_id: u32)
    ensures
        forall|k: int|
            0 <= k < owned_threads(rows, p_id).len() ==> stands_for_a_row(
                #[trigger] owned_threads(rows, p_id)[k],
                rows,
                p_id,
            ),
        forall|j: int|
            0 <= j < rows.len() && (#[trigger] rows[j]).owner_process_id == p_id
                ==> owned_threads(rows, p_id).contains(RemoteThread::spec_from(rows[j])),
        owned_threads(rows, p_id).len() <= rows.len(),
    decreases rows.len(),
{
    if rows.len() > 0 {
        let rest = rows.drop_last();
        enumerated_threads_belong_to_the_process(rest, p_id);
        let found = owned_threads(rows, p_id);
        let before = owned_threads(rest, p_id);
        assert forall|k: int| 0 <= k < found.len() implies stands_for_a_row(
            #[trigger] found[k],
            rows,
            p_id,
        ) by {
            if k < before.len() {
                assert(stands_for_a_row(before[k], rest, p_id));
                let j = choose|j: int|
                    0 <= j < rest.len() && (#[trigger] rest[j]).owner_process_id == p_id
                        && before[k] == RemoteThread::spec_from(rest[j]);
                assert(rows[j] == rest[j]);
            } else {
                assert(rows[rows.len() - 1] == rows.last());
            }
        }
        assert forall|j: int|
            0 <= j < rows.len() && (#[trigger] rows[j]).owner_process_id == p_id implies found.contains(
            RemoteThread::spec_from(rows[j]),
        ) by {
            if j < rest.len() {
                assert(rest[j] == rows[j]);
                let k = choose|k: int|
                    0 <= k < before.len() && before[k] == RemoteThread::spec_from(rest[j]);
                assert(found[k] == before[k]);
            } else {
                assert(found[found.len() - 1] == RemoteThread::spec_from(rows[j]));
            }
        }
    }
}

/// Enumeration keeps the order of the table. The threads found are the rows
/// of the process, each once, at positions that rise through the table; the
/// positions are returned.
pub proof fn enumerated_threads_keep_table_order(rows: Seq<ThreadEntry>, p_id: u32) -> (at: Seq<int>)
    ensures
        at.len() == owned_threads(rows, p_id).len(),
        forall|k: int|
            0 <= k < at.len() ==> {
                &&& 0 <= #[trigger] at[k] < rows.len()
                &&& rows[at[k]].owner_process_id == p_id
                &&& owned_threads(rows, p_id)[k] == RemoteThread::spec_from(rows[at[k]])
            },
        forall|k: int, l: int| 0 <= k < l < at.len() ==> at[k] < at[l],
        forall|j: int|
            0 <= j < rows.len() && (#[trigger] rows[j]).owner_process_id == p_id ==> at.contains(j),
    decreases rows.len(),
{
    if rows.len() == 0 {
        Seq::empty()
    } else {
        let rest = rows.drop_last();
        let last = rows.len() - 1;
        let before = enumerated_threads_keep_table_order(rest, p_id);
        let at = if rows[last].owner_process_id == p_id {
            before.push(last)
        } else {
            before
        };
        assert forall|k: int| 0 <= k < at.len() implies {
            &&& 0 <= #[trigger] at[k] < rows.len()
            &&& rows[at[k]].owner_process_id == p_id
            &&& owned_threads(rows, p_id)[k] == RemoteThread::spec_from(rows[at[k]])
        } by {
            if k < before.len() {
                assert(rest[before[k]] == rows[before[k]]);
            }
        }
        assert forall|j: int|
            0 <= j < rows.len() && (#[trigger] rows[j]).owner_process_id == p_id implies at.contains(
            j,
        ) by {
            if j < last {
                assert(rest[j] == rows[j]);
                let k = choose|k: int| 0 <= k < before.len() && before[k] == j;
                assert(at[k] == j);
            } else {
                assert(at[at.len() - 1] == j);
            }
        }
        at
    }
}

/// A thread that fails does not hold up the others. While a run is at
/// work on the threads, no answer ends it with a failure, and no answer
/// changes which threads there are. An answer either leaves the run at the
/// same thread or adds the report for that thread, and then the run asks to
/// open the very next thread, or is finished where there is none.
pub proof fn thread_failure_moves_on(run: InjectionState, reply: Reply)
    requires
        run.wf(),
        run.on_threads(),
    ensures
        ({
            let next = run.step(reply);
            let at = run.report.len() as int;
            &&& !(next.pending is Abort)
            &&& next.threads.len() == run.threads.len()
            &&& forall|i: int|
                0 <= i < run.threads.len() ==> (#[trigger] next.threads[i]).t_id
                    == run.threads[i].t_id
            &&& {
                ||| next.report == run.report && (next.on_threads() || next == run)
                ||| {
                    &&& next.report.len() == at + 1
                    &&& next.report.drop_last() == run.report
                    &&& next.report.last().thread_id == run.threads[at].t_id
                    &&& next.pending == next_thread(next.threads, at + 1)
                }
            }
        }),
{
    let next = run.step(reply);
    let at = run.report.len() as int;
    if next.report != run.report {
        assert(next.report.drop_last() =~= run.report);
    }
}

/// A thread that cannot be opened is reported with the system's code, and
/// the run turns to the next thread.
pub proof fn unopened_thread_is_reported(run: InjectionState, code: u32)
    requires
        run.wf(),
        run.pending is OpenThread,
    ensures
        ({
            let next = run.step(Reply::ThreadOpened(Err(code)));
            let at = run.report.len() as int;
            &&& next.report == run.report.push(
                ThreadReport {
                    thread_id: run.threads[at].t_id,
                    outcome: Err(InjectError::ThreadHandleCreationFailed(code)),
                },
            )
            &&& next.pending == next_thread(next.threads, at + 1)
        }),
{
}

/// A thread on which the call cannot be queued is reported with the
/// system's code, and the run turns to the next thread.
pub proof fn unqueued_thread_is_reported(run: InjectionState, code: u32)
    requires
        run.wf(),
        run.pending is QueueCall,
    ensures
        ({
            let next = run.step(Reply::Queued { status: 0, code });
            let at = run.report.len() as int;
            &&& next.report == run.report.push(
                ThreadReport {
                    thread_id: run.threads[at].t_id,
                    outcome: Err(InjectError::QueueFailed(code)),
                },
            )
            &&& next.threads == run.threads
            &&& next.pending == next_thread(next.threads, at + 1)
        }),
{
}

/// Raising the alert is a best effort: whether it worked changes nothing.
pub proof fn alert_outcome_is_ignored(run: InjectionState)
    ensures
        run.step(Reply::Alerted(true)) == run.step(Reply::Alerted(false)),
{
}

/// Once the threads are being worked on, the run cannot fail any more:
/// whatever the answers, it never gives up.
pub proof fn run_on_threads_never_aborts(run: InjectionState, replies: Seq<Reply>)
    requires
        run.wf(),
        run.on_threads() || run.pending is Finished,
    ensures
        run.after(replies).wf(),
        run.after(replies).on_threads() || run.after(replies).pending is Finished,
    decreases replies.len(),
{
    if replies.len() > 0 {
        run_on_threads_never_aborts(run, replies.drop_last());
        let before = run.after(replies.drop_last());
        step_keeps_well_formed(before, replies.last());
        if before.on_threads() {
            thread_failure_moves_on(before, replies.last());
        }
    }
}

/// A run that has finished is done with every thread: there is one report
/// for each, in the order of the threads.
pub proof fn finished_run_reports_every_thread(run: InjectionState)
    requires
        run.wf(),
        run.pending is Finished,
    ensures
        run.report.len() == run.threads.len(),
        forall|i: int|
            0 <= i < run.threads.len() ==> (#[trigger] run.report[i]).thread_id
                == run.threads[i].t_id,
{
}

/// A run that has ended stays as it is, whatever it is told.
pub proof fn ended_run_stays(run: InjectionState, reply: Reply)
    requires
        run.ended(),
    ensures
        run.step(reply) == run,
{
}

/// A handle is given up once. Releasing a process controller hands out the
/// handle it holds; releasing it again hands out nothing and changes
/// nothing.
pub proof fn process_handle_is_released_once(process: ProcessState)
    ensures
        process.release().1 == process.handle,
        process.release().0.handle is None,
        process.release().0.release() == (process.release().0, None::<ProcessHandle>),
{
}

/// A handle is given up once. Releasing a thread hands out the handle it
/// holds; releasing it again hands out nothing and changes nothing.
pub proof fn thread_handle_is_released_once(thread: RemoteThread)
    ensures
        thread.spec_release().1 == thread.t_handle,
        thread.spec_release().0.t_handle is None,
        thread.spec_release().0.spec_release() == (
            thread.spec_release().0,
            None::<ThreadHandle>,
        ),
{
}

} // verus!
