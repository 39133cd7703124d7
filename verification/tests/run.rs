//! Whole runs, from the first call to the last.

use queue_cumber::error::InjectError;
use queue_cumber::injection::{
    allocate_write_shellcode, attach_process, queue_apc_on_threads, Injection, ThreadReport,
};
use queue_cumber::system::{
    Address, ProcessEntry, ProcessHandle, Reply, Request, ThreadEntry, ThreadHandle,
};
use queue_cumber::wrapper::args::ProcessArgs;
use queue_cumber::wrapper::process::RemoteProcess;
use queue_cumber::wrapper::thread::{RemoteThread, RemoteThreadCollection};

const PROCESS: ProcessHandle = ProcessHandle(0x1a4);
const BASE: Address = Address(0x7ff0_0000);

fn payload() -> Vec<u8> {
    vec![0xC3, 0x90, 0x90, 0x90, 0xC3]
}

fn thread_row(thread_id: u32, owner_process_id: u32) -> ThreadEntry {
    ThreadEntry { thread_id, owner_process_id }
}

/// A run on process 4242 that has written its payload and waits for the
/// thread table.
fn run_after_write() -> Injection {
    let run = Injection::new(ProcessArgs::PID(4242), payload());
    let (run, _) = run.step(Reply::ProcessOpened(Ok(PROCESS)));
    let (run, _) = run.step(Reply::Allocated { address: BASE.0, code: 0 });
    let (run, next) = run.step(Reply::Written(Ok(5)));
    assert_eq!(next, Request::SnapshotThreads);
    run
}

/// A run that is about to open the first of the threads 11, 12 and 13.
fn run_on_three_threads() -> Injection {
    let table = vec![thread_row(11, 4242), thread_row(12, 4242), thread_row(13, 4242)];
    let (run, next) = run_after_write().step(Reply::ThreadTable(Some(table)));
    assert_eq!(next, Request::OpenThread { thread_id: 11 });
    run
}

#[test]
fn run_on_a_process_with_one_thread() {
    let run = Injection::new(ProcessArgs::PID(4242), payload());
    assert_eq!(run.pending(), Request::OpenProcess { process_id: 4242 });

    let (run, next) = run.step(Reply::ProcessOpened(Ok(PROCESS)));
    assert_eq!(next, Request::Allocate { process: PROCESS, size: 5 });
    assert_eq!(run.process().p_handle, Some(PROCESS));

    let (run, next) = run.step(Reply::Allocated { address: BASE.0, code: 0 });
    assert_eq!(next, Request::Write { process: PROCESS, address: BASE, length: 5 });
    assert_eq!(run.process().p_target_address, Some(BASE));
    assert_eq!(run.payload(), &payload());

    let (run, next) = run.step(Reply::Written(Ok(5)));
    assert_eq!(next, Request::SnapshotThreads);

    let table = vec![thread_row(7, 4), thread_row(11, 4242), thread_row(8, 812)];
    let (run, next) = run.step(Reply::ThreadTable(Some(table)));
    assert_eq!(next, Request::OpenThread { thread_id: 11 });
    assert_eq!(run.threads().len(), 1);
    assert_eq!(run.threads()[0], RemoteThread { t_id: 11, t_handle: None });

    let (run, next) = run.step(Reply::ThreadOpened(Ok(ThreadHandle(0x2b0))));
    assert_eq!(next, Request::QueueCall { thread: ThreadHandle(0x2b0), address: BASE });

    let (run, next) = run.step(Reply::Queued { status: 1, code: 0 });
    assert_eq!(next, Request::TriggerAlert);
    assert!(run.report().is_empty());

    let (run, next) = run.step(Reply::Alerted(true));
    assert_eq!(next, Request::Finished);
    assert_eq!(run.pending(), Request::Finished);
    assert_eq!(run.report(), &vec![ThreadReport { thread_id: 11, outcome: Ok(()) }]);

    let (process, threads, report) = run.finish();
    assert_eq!(process.identifier, ProcessArgs::PID(4242));
    assert_eq!(process.p_handle, Some(PROCESS));
    assert_eq!(process.p_target_address, Some(BASE));
    assert_eq!(threads.len(), 1);
    assert_eq!(threads[0].t_handle, Some(ThreadHandle(0x2b0)));
    assert_eq!(report.len(), 1);
}

#[test]
fn run_on_a_process_that_does_not_exist() {
    let run = Injection::new(ProcessArgs::PID(31337), payload());
    assert_eq!(run.pending(), Request::OpenProcess { process_id: 31337 });
    let (run, next) = run.step(Reply::ProcessOpened(Err(87)));
    assert_eq!(next, Request::Abort(InjectError::HandleCreationFailed(87)));
    assert_eq!(run.process().p_handle, None);
    assert_eq!(run.process().p_target_address, None);

    let (run, next) = run.step(Reply::Allocated { address: BASE.0, code: 0 });
    assert_eq!(next, Request::Abort(InjectError::HandleCreationFailed(87)));
    let (run, next) = run.step(Reply::Written(Ok(5)));
    assert_eq!(next, Request::Abort(InjectError::HandleCreationFailed(87)));
    let (run, next) = run.step(Reply::ThreadTable(Some(vec![thread_row(1, 31337)])));
    assert_eq!(next, Request::Abort(InjectError::HandleCreationFailed(87)));
    assert_eq!(run.process().p_target_address, None);
    assert_eq!(run.threads().len(), 0);
    assert!(run.report().is_empty());
}

#[test]
fn run_by_number_never_asks_for_the_process_table() {
    let mut run = Injection::new(ProcessArgs::PID(4242), payload());
    let mut asked = vec![run.pending()];
    let replies = vec![
        Reply::ProcessTable(Some(vec![ProcessEntry {
            process_id: 9,
            exe_file: String::from("nine.exe"),
        }])),
        Reply::ProcessOpened(Ok(PROCESS)),
        Reply::ProcessTable(None),
        Reply::Allocated { address: BASE.0, code: 0 },
        Reply::Written(Ok(5)),
        Reply::ThreadTable(Some(vec![thread_row(11, 4242)])),
        Reply::ThreadOpened(Ok(ThreadHandle(3))),
        Reply::Queued { status: 1, code: 0 },
        Reply::Alerted(false),
    ];
    for reply in replies {
        let (next_run, next) = run.step(reply);
        run = next_run;
        asked.push(next);
    }
    assert!(!asked.contains(&Request::SnapshotProcesses));
    assert_eq!(asked.last(), Some(&Request::Finished));
    assert_eq!(run.process().identifier, ProcessArgs::PID(4242));
}

#[test]
fn run_by_name_opens_the_first_match() {
    let run = Injection::new(ProcessArgs::PName(String::from("notepad")), payload());
    assert_eq!(run.pending(), Request::SnapshotProcesses);
    let table = vec![
        ProcessEntry { process_id: 4, exe_file: String::from("System") },
        ProcessEntry { process_id: 1500, exe_file: String::from("notepad.exe") },
        ProcessEntry { process_id: 2300, exe_file: String::from("notepad.exe") },
    ];
    let (run, next) = run.step(Reply::ProcessTable(Some(table)));
    assert_eq!(next, Request::OpenProcess { process_id: 1500 });
    assert_eq!(run.process().identifier, ProcessArgs::PID(1500));
    let (run, next) = run.step(Reply::ProcessOpened(Ok(PROCESS)));
    assert_eq!(next, Request::Allocate { process: PROCESS, size: 5 });
    assert_eq!(run.process().identifier, ProcessArgs::PID(1500));
    assert_eq!(run.process().p_handle, Some(PROCESS));
}

#[test]
fn run_by_name_without_a_match_ends() {
    let run = Injection::new(ProcessArgs::PName(String::from("notepad")), payload());
    let table = vec![ProcessEntry { process_id: 4, exe_file: String::from("System") }];
    let (run, next) = run.step(Reply::ProcessTable(Some(table)));
    assert_eq!(next, Request::Abort(InjectError::ProcessNotFound));
    assert_eq!(run.process().identifier, ProcessArgs::PName(String::from("notepad")));
    assert_eq!(run.process().p_handle, None);

    let run = Injection::new(ProcessArgs::PName(String::from("notepad")), payload());
    let (_, next) = run.step(Reply::ProcessTable(None));
    assert_eq!(next, Request::Abort(InjectError::SnapshotFailed));
}

#[test]
fn run_ends_when_allocation_fails() {
    let run = Injection::new(ProcessArgs::PID(4242), payload());
    let (run, _) = run.step(Reply::ProcessOpened(Ok(PROCESS)));
    let (run, next) = run.step(Reply::Allocated { address: 0, code: 8 });
    assert_eq!(next, Request::Abort(InjectError::AllocationFailed(8)));
    assert_eq!(run.process().p_target_address, None);
    assert_eq!(run.process().p_handle, Some(PROCESS));
}

#[test]
fn run_ends_when_the_write_fails_or_falls_short() {
    let start = || {
        let run = Injection::new(ProcessArgs::PID(4242), payload());
        let (run, _) = run.step(Reply::ProcessOpened(Ok(PROCESS)));
        let (run, _) = run.step(Reply::Allocated { address: BASE.0, code: 0 });
        run
    };
    let (_, next) = start().step(Reply::Written(Err(998)));
    assert_eq!(next, Request::Abort(InjectError::WriteFailed(998)));
    let (_, next) = start().step(Reply::Written(Ok(4)));
    assert_eq!(next, Request::Abort(InjectError::WriteIncomplete));
    let (run, next) = start().step(Reply::Written(Ok(5)));
    assert_eq!(next, Request::SnapshotThreads);
    assert_eq!(run.process().p_target_address, Some(BASE));
}

#[test]
fn run_ends_when_the_thread_table_cannot_be_read() {
    let (_, next) = run_after_write().step(Reply::ThreadTable(None));
    assert_eq!(next, Request::Abort(InjectError::SnapshotFailed));
    let (_, next) = run_after_write().step(Reply::ThreadTable(Some(Vec::new())));
    assert_eq!(next, Request::Abort(InjectError::NoThreadsFound));
}

#[test]
fn run_on_a_process_without_threads_finishes_at_once() {
    let table = vec![thread_row(7, 4), thread_row(8, 812)];
    let (run, next) = run_after_write().step(Reply::ThreadTable(Some(table)));
    assert_eq!(next, Request::Finished);
    assert_eq!(run.threads().len(), 0);
    assert!(run.report().is_empty());
}

#[test]
fn thread_that_cannot_be_opened_does_not_stop_the_next() {
    let run = run_on_three_threads();
    let (run, next) = run.step(Reply::ThreadOpened(Err(5)));
    assert_eq!(next, Request::OpenThread { thread_id: 12 });
    let (run, next) = run.step(Reply::ThreadOpened(Ok(ThreadHandle(0x20))));
    assert_eq!(next, Request::QueueCall { thread: ThreadHandle(0x20), address: BASE });
    let (run, next) = run.step(Reply::Queued { status: 1, code: 0 });
    assert_eq!(next, Request::TriggerAlert);
    let (run, next) = run.step(Reply::Alerted(true));
    assert_eq!(next, Request::OpenThread { thread_id: 13 });
    let (run, next) = run.step(Reply::ThreadOpened(Err(6)));
    assert_eq!(next, Request::Finished);
    assert_eq!(
        run.report(),
        &vec![
            ThreadReport {
                thread_id: 11,
                outcome: Err(InjectError::ThreadHandleCreationFailed(5))
            },
            ThreadReport { thread_id: 12, outcome: Ok(()) },
            ThreadReport {
                thread_id: 13,
                outcome: Err(InjectError::ThreadHandleCreationFailed(6))
            },
        ]
    );
    assert_eq!(run.threads()[0].t_handle, None);
    assert_eq!(run.threads()[1].t_handle, Some(ThreadHandle(0x20)));
    assert_eq!(run.threads()[2].t_handle, None);
}

#[test]
fn thread_that_cannot_be_queued_on_does_not_stop_the_next() {
    let run = run_on_three_threads();
    let (run, _) = run.step(Reply::ThreadOpened(Ok(ThreadHandle(0x10))));
    let (run, next) = run.step(Reply::Queued { status: 0, code: 31 });
    assert_eq!(next, Request::OpenThread { thread_id: 12 });
    let (run, _) = run.step(Reply::ThreadOpened(Ok(ThreadHandle(0x20))));
    let (run, next) = run.step(Reply::Queued { status: 0, code: 32 });
    assert_eq!(next, Request::OpenThread { thread_id: 13 });
    let (run, _) = run.step(Reply::ThreadOpened(Ok(ThreadHandle(0x30))));
    let (run, next) = run.step(Reply::Queued { status: 1, code: 0 });
    assert_eq!(next, Request::TriggerAlert);
    let (run, next) = run.step(Reply::Alerted(false));
    assert_eq!(next, Request::Finished);
    assert_eq!(
        run.report(),
        &vec![
            ThreadReport { thread_id: 11, outcome: Err(InjectError::QueueFailed(31)) },
            ThreadReport { thread_id: 12, outcome: Err(InjectError::QueueFailed(32)) },
            ThreadReport { thread_id: 13, outcome: Ok(()) },
        ]
    );
}

#[test]
fn alert_that_fails_counts_as_queued() {
    let run = run_on_three_threads();
    let (run, _) = run.step(Reply::ThreadOpened(Ok(ThreadHandle(0x10))));
    let (run, _) = run.step(Reply::Queued { status: 1, code: 0 });
    let (run, next) = run.step(Reply::Alerted(false));
    assert_eq!(next, Request::OpenThread { thread_id: 12 });
    assert_eq!(run.report(), &vec![ThreadReport { thread_id: 11, outcome: Ok(()) }]);
}

#[test]
fn answer_to_another_call_changes_nothing() {
    let run = Injection::new(ProcessArgs::PID(4242), payload());
    let (run, next) = run.step(Reply::Written(Ok(5)));
    assert_eq!(next, Request::OpenProcess { process_id: 4242 });
    let (run, next) = run.step(Reply::ThreadOpened(Ok(ThreadHandle(1))));
    assert_eq!(next, Request::OpenProcess { process_id: 4242 });
    assert_eq!(run.process().p_handle, None);
    let (run, next) = run.step(Reply::ProcessOpened(Ok(PROCESS)));
    assert_eq!(next, Request::Allocate { process: PROCESS, size: 5 });
    let (run, next) = run.step(Reply::ProcessOpened(Ok(ProcessHandle(0x999))));
    assert_eq!(next, Request::Allocate { process: PROCESS, size: 5 });
    assert_eq!(run.process().p_handle, Some(PROCESS));

    let run = run_on_three_threads();
    let (run, next) = run.step(Reply::Queued { status: 0, code: 1 });
    assert_eq!(next, Request::OpenThread { thread_id: 11 });
    assert!(run.report().is_empty());
}

#[test]
fn finished_run_stays_finished() {
    let table = vec![thread_row(7, 4)];
    let (run, next) = run_after_write().step(Reply::ThreadTable(Some(table)));
    assert_eq!(next, Request::Finished);
    let (run, next) = run.step(Reply::ThreadTable(Some(vec![thread_row(1, 4242)])));
    assert_eq!(next, Request::Finished);
    let (run, next) = run.step(Reply::ProcessOpened(Err(5)));
    assert_eq!(next, Request::Finished);
    assert_eq!(run.threads().len(), 0);
}

#[test]
fn empty_payload_asks_for_nothing_to_write() {
    let run = Injection::new(ProcessArgs::PID(4242), Vec::new());
    let (run, next) = run.step(Reply::ProcessOpened(Ok(PROCESS)));
    assert_eq!(next, Request::Allocate { process: PROCESS, size: 0 });
    let (run, next) = run.step(Reply::Allocated { address: BASE.0, code: 0 });
    assert_eq!(next, Request::Write { process: PROCESS, address: BASE, length: 0 });
    let (_, next) = run.step(Reply::Written(Ok(0)));
    assert_eq!(next, Request::SnapshotThreads);
}

#[test]
fn attach_phase_alone() {
    let shellcode = payload();
    let mut process = RemoteProcess::new(ProcessArgs::PID(7));
    let pending = process.attach_request();
    let next = attach_process(&mut process, &shellcode, pending, Reply::ProcessOpened(Ok(PROCESS)));
    assert_eq!(next, Request::Allocate { process: PROCESS, size: 5 });
    let mut other = RemoteProcess::new(ProcessArgs::PID(7));
    let next = attach_process(&mut other, &shellcode, pending, Reply::ProcessOpened(Err(5)));
    assert_eq!(next, Request::Abort(InjectError::HandleCreationFailed(5)));
}

#[test]
fn payload_phase_alone() {
    let shellcode = payload();
    let mut process = RemoteProcess::new(ProcessArgs::PID(7));
    assert_eq!(process.create_handle(Ok(PROCESS)), Ok(()));
    let pending = process.allocation_request(shellcode.len()).unwrap();
    let next = allocate_write_shellcode(
        &mut process,
        &shellcode,
        pending,
        Reply::Allocated { address: BASE.0, code: 0 },
    );
    assert_eq!(next, Request::Write { process: PROCESS, address: BASE, length: 5 });
    let next = allocate_write_shellcode(&mut process, &shellcode, next, Reply::Written(Ok(5)));
    assert_eq!(next, Request::SnapshotThreads);

    let mut detached = RemoteProcess::new(ProcessArgs::PID(7));
    let next = allocate_write_shellcode(
        &mut detached,
        &shellcode,
        pending,
        Reply::Allocated { address: BASE.0, code: 0 },
    );
    assert_eq!(next, Request::Abort(InjectError::HandleAbsent));
    assert_eq!(detached.p_target_address, None);
}

#[test]
fn thread_phase_alone() {
    let mut process = RemoteProcess::new(ProcessArgs::PID(7));
    assert_eq!(process.create_handle(Ok(PROCESS)), Ok(()));
    assert_eq!(process.allocate_memory(BASE.0, 0), Ok(()));
    let mut threads = RemoteThreadCollection::new();
    let mut report: Vec<ThreadReport> = Vec::new();
    let table = vec![thread_row(1, 7), thread_row(2, 8), thread_row(3, 7)];
    let next = queue_apc_on_threads(
        &process,
        &mut threads,
        &mut report,
        Request::SnapshotThreads,
        Reply::ThreadTable(Some(table)),
    );
    assert_eq!(next, Request::OpenThread { thread_id: 1 });
    assert_eq!(threads.len(), 2);
    let next = queue_apc_on_threads(
        &process,
        &mut threads,
        &mut report,
        next,
        Reply::ThreadOpened(Err(5)),
    );
    assert_eq!(next, Request::OpenThread { thread_id: 3 });
    assert_eq!(report.len(), 1);
    let next = queue_apc_on_threads(
        &process,
        &mut threads,
        &mut report,
        next,
        Reply::ThreadOpened(Ok(ThreadHandle(9))),
    );
    assert_eq!(next, Request::QueueCall { thread: ThreadHandle(9), address: BASE });
}

#[test]
fn thread_without_a_payload_address_is_reported() {
    let mut process = RemoteProcess::new(ProcessArgs::PID(7));
    assert_eq!(process.create_handle(Ok(PROCESS)), Ok(()));
    let mut threads = RemoteThreadCollection::new();
    assert_eq!(threads.push(RemoteThread::new(1)), Ok(()));
    let mut report: Vec<ThreadReport> = Vec::new();
    let next = queue_apc_on_threads(
        &process,
        &mut threads,
        &mut report,
        Request::OpenThread { thread_id: 1 },
        Reply::ThreadOpened(Ok(ThreadHandle(9))),
    );
    assert_eq!(next, Request::Finished);
    assert_eq!(
        report,
        vec![ThreadReport { thread_id: 1, outcome: Err(InjectError::QueueTargetAbsent) }]
    );
}
