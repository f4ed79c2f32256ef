use hangdetect::cuda_funcs::{CuLaunchConfig, CudaLaunchConfig, Dim3, VendorApi};
use std::cell::{Cell, RefCell};
use std::collections::HashMap;
use hangdetect::cuda_funcs::{CUDAError, CUDAEvent};
use hangdetect::monitor::event_logger::{
    discard_event, release_event, EventLogger, Notification, QueryResult, TaskEvent, TaskOutcome,
    TaskPhase, TaskRequest, TaskRun, TimingTask, Waiting, WAIT_SLICE_MS,
};
use hangdetect::monitor::event_pool::EventPool;
use hangdetect::monitor::log_entry::{LogEntry, LogLevel};

/// A scripted vendor: every entry point answers with the status set for it
/// and notes the call.
struct MockVendor {
    calls: RefCell<Vec<String>>,
    names: RefCell<HashMap<usize, String>>,
    next_event: Cell<usize>,
    launch_status: Cell<i32>,
    name_status: Cell<i32>,
    stream_status: Cell<i32>,
    create_status: Cell<i32>,
    destroy_status: Cell<i32>,
    record_status: Cell<i32>,
    query_status: Cell<i32>,
    elapsed_status: Cell<i32>,
    elapsed_bits: Cell<u32>,
}

impl MockVendor {
    fn new() -> MockVendor {
        MockVendor {
            calls: RefCell::new(Vec::new()),
            names: RefCell::new(HashMap::new()),
            next_event: Cell::new(1000),
            launch_status: Cell::new(0),
            name_status: Cell::new(0),
            stream_status: Cell::new(0),
            create_status: Cell::new(0),
            destroy_status: Cell::new(0),
            record_status: Cell::new(0),
            query_status: Cell::new(0),
            elapsed_status: Cell::new(0),
            elapsed_bits: Cell::new(0),
        }
    }

    fn with_name(func: usize, symbol: &str) -> MockVendor {
        let vendor = MockVendor::new();
        vendor.names.borrow_mut().insert(func, symbol.to_string());
        vendor
    }

    fn note(&self, call: String) {
        self.calls.borrow_mut().push(call);
    }

    fn count(&self, prefix: &str) -> usize {
        self.calls.borrow().iter().filter(|c| c.starts_with(prefix)).count()
    }

    fn has(&self, call: &str) -> bool {
        self.calls.borrow().iter().any(|c| c == call)
    }
}

impl VendorApi for MockVendor {
    fn cuda_launch_kernel(
        &self,
        func: usize,
        grid_dim: Dim3,
        block_dim: Dim3,
        args: usize,
        shared_mem: usize,
        stream: usize,
    ) -> i32 {
        self.note(format!(
            "cuda_launch_kernel({},{}x{}x{},{}x{}x{},{},{},{})",
            func,
            grid_dim.x,
            grid_dim.y,
            grid_dim.z,
            block_dim.x,
            block_dim.y,
            block_dim.z,
            args,
            shared_mem,
            stream
        ));
        self.launch_status.get()
    }

    fn cuda_launch_kernel_ex_c(&self, config: &CudaLaunchConfig, func: usize, args: usize) -> i32 {
        self.note(format!("cuda_launch_kernel_ex_c({},{},{})", config.stream, func, args));
        self.launch_status.get()
    }

    fn cu_launch_kernel(
        &self,
        func: usize,
        grid_dim_x: u32,
        grid_dim_y: u32,
        grid_dim_z: u32,
        block_dim_x: u32,
        block_dim_y: u32,
        block_dim_z: u32,
        shared_mem: u32,
        stream: usize,
        kernel_params: usize,
        extra: usize,
    ) -> i32 {
        self.note(format!(
            "cu_launch_kernel({},{}x{}x{},{}x{}x{},{},{},{},{})",
            func,
            grid_dim_x,
            grid_dim_y,
            grid_dim_z,
            block_dim_x,
            block_dim_y,
            block_dim_z,
            shared_mem,
            stream,
            kernel_params,
            extra
        ));
        self.launch_status.get()
    }

    fn cu_launch_kernel_ex(&self, config: &CuLaunchConfig, func: usize, args: usize) -> i32 {
        self.note(format!("cu_launch_kernel_ex({},{},{})", config.stream, func, args));
        self.launch_status.get()
    }

    fn cuda_func_get_name(&self, func: usize) -> (i32, String) {
        self.note(format!("cuda_func_get_name({})", func));
        let name = self.names.borrow().get(&func).cloned().unwrap_or_default();
        (self.name_status.get(), name)
    }

    fn cu_func_get_name(&self, func: usize) -> (i32, String) {
        self.note(format!("cu_func_get_name({})", func));
        let name = self.names.borrow().get(&func).cloned().unwrap_or_default();
        (self.name_status.get(), name)
    }

    fn cuda_stream_get_id(&self, stream: usize) -> (i32, u64) {
        self.note(format!("cuda_stream_get_id({})", stream));
        (self.stream_status.get(), stream as u64)
    }

    fn cuda_event_create_with_flags(&self, flags: u32) -> (i32, usize) {
        self.note(format!("cuda_event_create_with_flags({})", flags));
        let event = self.next_event.get();
        self.next_event.set(event + 1);
        (self.create_status.get(), event)
    }

    fn cuda_event_destroy(&self, event: usize) -> i32 {
        self.note(format!("cuda_event_destroy({})", event));
        self.destroy_status.get()
    }

    fn cuda_event_record(&self, event: usize, stream: usize) -> i32 {
        self.note(format!("cuda_event_record({},{})", event, stream));
        self.record_status.get()
    }

    fn cuda_event_elapsed_time(&self, begin: usize, end: usize) -> (i32, u32) {
        self.note(format!("cuda_event_elapsed_time({},{})", begin, end));
        (self.elapsed_status.get(), self.elapsed_bits.get())
    }

    fn cuda_event_query(&self, event: usize) -> i32 {
        self.note(format!("cuda_event_query({})", event));
        self.query_status.get()
    }
}

fn task(start: usize, end: usize) -> TimingTask {
    TimingTask {
        start: CUDAEvent { event: start },
        end: CUDAEvent { event: end },
        kern_label: "<Runtime Kernel: k on stream 0>".to_string(),
        user_label: "user".to_string(),
    }
}

fn ready() -> TaskEvent {
    TaskEvent::Queried(Ok(true))
}

fn not_ready() -> TaskEvent {
    TaskEvent::Queried(Ok(false))
}

fn failed(code: i32) -> TaskEvent {
    TaskEvent::Queried(Err(CUDAError { code }))
}

/// Runs a task against the mock vendor the way a worker does, with a signal
/// that fires after `fire_after` waits, and collects what is written.
fn drive(
    vendor: &MockVendor,
    pool: &mut EventPool,
    task: TimingTask,
    fire_after: usize,
) -> (TaskPhase, Vec<LogEntry>) {
    let mut run = TaskRun::new(task);
    let mut written: Vec<LogEntry> = Vec::new();
    let mut waits = 0;
    loop {
        let event = match run.request() {
            TaskRequest::Query(event) => TaskEvent::Queried(CUDAEvent { event }.query(vendor)),
            TaskRequest::Wait(millis) => {
                assert_eq!(millis, 100);
                waits += 1;
                TaskEvent::Waited(waits > fire_after)
            }
            TaskRequest::Elapsed { begin, end } => {
                let measured = CUDAEvent { event: end }.since(vendor, &CUDAEvent { event: begin });
                TaskEvent::Measured(measured.map(|bits| format!("{:?}", f32::from_bits(bits))))
            }
            TaskRequest::Release | TaskRequest::Discard => break,
        };
        if let Some(line) = run.step(event) {
            written.push(line);
        }
    }
    let phase = run.phase();
    written.extend(run.finish(pool, vendor));
    (phase, written)
}

fn count_records(written: &[LogEntry], tag: &str) -> usize {
    written
        .iter()
        .filter(|line| line.level == LogLevel::Info)
        .filter(|line| {
            let parsed: serde_json::Value = serde_json::from_str(&line.message).unwrap();
            parsed["type"] == tag
        })
        .count()
}

#[test]
fn signal_is_latched() {
    let mut signal = Notification::new();
    assert!(!signal.is_notified());
    assert_eq!(signal.wait_for(false), Waiting::Sleep);
    assert_eq!(signal.wait_for(true), Waiting::TimedOut);
    signal.notify();
    assert!(signal.is_notified());
    assert_eq!(signal.wait_for(false), Waiting::Fired);
    signal.notify();
    assert!(signal.is_notified());
    assert_eq!(signal.wait_for(false), Waiting::Fired);
    assert_eq!(signal.wait_for(true), Waiting::TimedOut);
}

#[test]
fn released_event_goes_to_the_pool_or_is_destroyed() {
    let vendor = MockVendor::new();
    let mut pool = EventPool::empty();
    let mut log: Vec<LogEntry> = Vec::new();
    release_event(&vendor, &mut pool, CUDAEvent { event: 4 }, &mut log);
    assert_eq!(pool.len(), 1);
    assert!(log.is_empty());
    assert_eq!(vendor.count("cuda_event_destroy"), 0);
    let mut pool = EventPool::new(&vendor).unwrap();
    release_event(&vendor, &mut pool, CUDAEvent { event: 4 }, &mut log);
    assert_eq!(pool.len(), 8192);
    assert!(log.is_empty());
    assert!(vendor.has("cuda_event_destroy(4)"));
    vendor.destroy_status.set(7);
    release_event(&vendor, &mut pool, CUDAEvent { event: 5 }, &mut log);
    assert_eq!(pool.len(), 8192);
    assert_eq!(log.len(), 1);
    assert_eq!(log[0].message, "failed to destroy CUDA event: 7");
}

#[test]
fn wait_slice_is_100_ms() {
    assert_eq!(WAIT_SLICE_MS, 100);
}

#[test]
fn queue_is_first_in_first_out() {
    let mut logger = EventLogger::new();
    assert_eq!(logger.len(), 0);
    assert!(logger.next_task().is_none());
    for i in 0..3 {
        logger.add_event(
            CUDAEvent { event: 10 + i },
            CUDAEvent { event: 20 + i },
            format!("kern {}", i),
            format!("user {}", i),
        );
    }
    assert_eq!(logger.len(), 3);
    for i in 0..3 {
        let next = logger.next_task().unwrap();
        assert_eq!(next.start.event, 10 + i);
        assert_eq!(next.end.event, 20 + i);
        assert_eq!(next.kern_label, format!("kern {}", i));
        assert_eq!(next.user_label, format!("user {}", i));
    }
    assert!(logger.next_task().is_none());
    assert_eq!(logger.len(), 0);
}

#[test]
fn a_run_begins_by_querying_the_start_event() {
    let run = TaskRun::new(task(1, 2));
    assert_eq!(run.phase(), TaskPhase::QueryStart);
    assert_eq!(run.request(), TaskRequest::Query(1));
}

#[test]
fn a_ready_task_writes_start_then_complete() {
    let mut run = TaskRun::new(task(1, 2));
    let line = run.step(ready()).unwrap();
    assert_eq!(line.level, LogLevel::Info);
    assert_eq!(
        line.message,
        "{\"type\":\"Start\",\"data\":{\"kern_label\":\"<Runtime Kernel: k on stream 0>\",\"user_label\":\"user\"}}"
    );
    assert_eq!(run.phase(), TaskPhase::QueryEnd);
    assert_eq!(run.request(), TaskRequest::Query(2));
    assert!(run.step(ready()).is_none());
    assert_eq!(run.phase(), TaskPhase::Measure);
    assert_eq!(run.request(), TaskRequest::Elapsed { begin: 1, end: 2 });
    let line = run.step(TaskEvent::Measured(Ok("50.0".to_string()))).unwrap();
    assert_eq!(line.level, LogLevel::Info);
    assert_eq!(
        line.message,
        "{\"type\":\"Complete\",\"data\":{\"kern_label\":\"<Runtime Kernel: k on stream 0>\",\"user_label\":\"user\",\"duration_ms\":50.0}}"
    );
    assert_eq!(run.phase(), TaskPhase::Finished(TaskOutcome::Completed));
    assert_eq!(run.request(), TaskRequest::Release);
}

#[test]
fn an_event_that_is_not_ready_is_waited_for_and_queried_again() {
    let mut run = TaskRun::new(task(1, 2));
    assert!(run.step(not_ready()).is_none());
    assert_eq!(run.phase(), TaskPhase::SleepStart);
    assert_eq!(run.request(), TaskRequest::Wait(100));
    assert!(run.step(TaskEvent::Waited(false)).is_none());
    assert_eq!(run.phase(), TaskPhase::QueryStart);
    assert_eq!(run.request(), TaskRequest::Query(1));
    assert!(run.step(ready()).is_some());
    assert!(run.step(not_ready()).is_none());
    assert_eq!(run.phase(), TaskPhase::SleepEnd);
    assert_eq!(run.request(), TaskRequest::Wait(100));
    assert!(run.step(TaskEvent::Waited(false)).is_none());
    assert_eq!(run.phase(), TaskPhase::QueryEnd);
    assert_eq!(run.request(), TaskRequest::Query(2));
}

#[test]
fn the_signal_cuts_the_wait_for_the_start_event_short() {
    let mut run = TaskRun::new(task(1, 2));
    assert!(run.step(not_ready()).is_none());
    assert!(run.step(TaskEvent::Waited(true)).is_none());
    assert_eq!(
        run.phase(),
        TaskPhase::Finished(TaskOutcome::Abandoned { started: false, cause: QueryResult::Exited })
    );
    assert_eq!(run.request(), TaskRequest::Discard);
}

#[test]
fn the_signal_cuts_the_wait_for_the_end_event_short() {
    let mut run = TaskRun::new(task(1, 2));
    assert!(run.step(ready()).is_some());
    assert!(run.step(not_ready()).is_none());
    assert!(run.step(TaskEvent::Waited(true)).is_none());
    assert_eq!(
        run.phase(),
        TaskPhase::Finished(TaskOutcome::Abandoned { started: true, cause: QueryResult::Exited })
    );
    assert_eq!(run.request(), TaskRequest::Discard);
}

#[test]
fn a_failed_query_abandons_the_task_with_an_error_line() {
    let mut run = TaskRun::new(task(1, 2));
    let line = run.step(failed(4)).unwrap();
    assert_eq!(line.level, LogLevel::Error);
    assert_eq!(line.message, "failed to query CUDA event: CUDA error code: 4");
    assert_eq!(
        run.phase(),
        TaskPhase::Finished(TaskOutcome::Abandoned { started: false, cause: QueryResult::Error })
    );
    let mut run = TaskRun::new(task(1, 2));
    assert!(run.step(ready()).is_some());
    let line = run.step(failed(-2)).unwrap();
    assert_eq!(line.level, LogLevel::Error);
    assert_eq!(line.message, "failed to query CUDA event: CUDA error code: -2");
    assert_eq!(
        run.phase(),
        TaskPhase::Finished(TaskOutcome::Abandoned { started: true, cause: QueryResult::Error })
    );
}

#[test]
fn a_failed_measurement_is_logged_and_the_events_still_go_back() {
    let mut run = TaskRun::new(task(1, 2));
    assert!(run.step(ready()).is_some());
    assert!(run.step(ready()).is_none());
    let line = run.step(TaskEvent::Measured(Err(CUDAError { code: 8 }))).unwrap();
    assert_eq!(line.level, LogLevel::Error);
    assert_eq!(line.message, "failed to compute elapsed time: CUDA error code: 8");
    assert_eq!(run.phase(), TaskPhase::Finished(TaskOutcome::Unmeasured));
    assert_eq!(run.request(), TaskRequest::Release);
    let vendor = MockVendor::new();
    let mut pool = EventPool::empty();
    assert!(run.finish(&mut pool, &vendor).is_empty());
    assert_eq!(pool.len(), 2);
}

#[test]
fn an_answer_to_another_request_changes_nothing() {
    let mut run = TaskRun::new(task(1, 2));
    assert!(run.step(TaskEvent::Waited(true)).is_none());
    assert_eq!(run.phase(), TaskPhase::QueryStart);
    assert!(run.step(TaskEvent::Measured(Ok("1.0".to_string()))).is_none());
    assert_eq!(run.phase(), TaskPhase::QueryStart);
    assert!(run.step(not_ready()).is_none());
    assert!(run.step(ready()).is_none());
    assert_eq!(run.phase(), TaskPhase::SleepStart);
    assert!(run.step(TaskEvent::Waited(true)).is_none());
    let done = run.phase();
    assert!(run.step(ready()).is_none());
    assert!(run.step(TaskEvent::Waited(false)).is_none());
    assert_eq!(run.phase(), done);
}

#[test]
fn a_completed_task_returns_its_events_start_first() {
    let vendor = MockVendor::new();
    let mut pool = EventPool::empty();
    let (phase, written) = drive(&vendor, &mut pool, task(1, 2), 0);
    assert_eq!(phase, TaskPhase::Finished(TaskOutcome::Completed));
    assert_eq!(written.len(), 2);
    assert_eq!(pool.len(), 2);
    assert_eq!(pool.acquire(&vendor).unwrap().event, 2);
    assert_eq!(pool.acquire(&vendor).unwrap().event, 1);
    assert_eq!(vendor.count("cuda_event_destroy"), 0);
}

#[test]
fn an_abandoned_task_has_its_events_destroyed() {
    let vendor = MockVendor::new();
    vendor.query_status.set(600);
    let mut pool = EventPool::empty();
    let (phase, written) = drive(&vendor, &mut pool, task(1, 2), 0);
    assert_eq!(
        phase,
        TaskPhase::Finished(TaskOutcome::Abandoned { started: false, cause: QueryResult::Exited })
    );
    assert!(written.is_empty());
    assert_eq!(pool.len(), 0);
    assert!(vendor.has("cuda_event_destroy(1)"));
    assert!(vendor.has("cuda_event_destroy(2)"));
}

#[test]
fn a_failed_destroy_is_logged_and_swallowed() {
    let vendor = MockVendor::new();
    vendor.destroy_status.set(30);
    let mut log: Vec<LogEntry> = Vec::new();
    discard_event(&vendor, CUDAEvent { event: 9 }, &mut log);
    assert_eq!(log.len(), 1);
    assert_eq!(log[0].level, LogLevel::Error);
    assert_eq!(log[0].message, "failed to destroy CUDA event: 30");
    vendor.destroy_status.set(0);
    discard_event(&vendor, CUDAEvent { event: 9 }, &mut log);
    assert_eq!(log.len(), 1);
    vendor.destroy_status.set(30);
    vendor.query_status.set(5);
    let mut pool = EventPool::empty();
    let (_, written) = drive(&vendor, &mut pool, task(1, 2), 0);
    assert_eq!(written.len(), 3);
    assert_eq!(written[0].message, "failed to query CUDA event: CUDA error code: 5");
    assert_eq!(written[1].message, "failed to destroy CUDA event: 30");
    assert_eq!(written[2].message, "failed to destroy CUDA event: 30");
}

#[test]
fn a_task_waits_as_long_as_the_signal_is_silent() {
    let vendor = MockVendor::new();
    vendor.query_status.set(600);
    let mut pool = EventPool::empty();
    let (phase, _) = drive(&vendor, &mut pool, task(1, 2), 25);
    assert_eq!(
        phase,
        TaskPhase::Finished(TaskOutcome::Abandoned { started: false, cause: QueryResult::Exited })
    );
    assert_eq!(vendor.count("cuda_event_query(1)"), 26);
    assert_eq!(vendor.count("cuda_event_query(2)"), 0);
}

#[test]
fn shutdown_during_wait_completes_nothing() {
    let vendor = MockVendor::new();
    vendor.query_status.set(600);
    let mut pool = EventPool::empty();
    let mut logger = EventLogger::new();
    for i in 0..100 {
        logger.add_event(
            CUDAEvent { event: 2 * i },
            CUDAEvent { event: 2 * i + 1 },
            "kern".to_string(),
            String::new(),
        );
    }
    let mut written: Vec<LogEntry> = Vec::new();
    let mut abandoned = 0;
    while let Some(next) = logger.next_task() {
        let (phase, lines) = drive(&vendor, &mut pool, next, 0);
        if let TaskPhase::Finished(TaskOutcome::Abandoned { cause, .. }) = phase {
            assert_eq!(cause, QueryResult::Exited);
            abandoned += 1;
        }
        written.extend(lines);
    }
    assert_eq!(abandoned, 100);
    assert_eq!(count_records(&written, "Complete"), 0);
    assert_eq!(count_records(&written, "Start"), 0);
    assert_eq!(vendor.count("cuda_event_query"), 100);
    assert_eq!(vendor.count("cuda_event_destroy"), 200);
    assert_eq!(pool.len(), 0);
}

#[test]
fn start_records_balance_complete_records_and_abandoned_tasks() {
    let vendor = MockVendor::new();
    let mut pool = EventPool::empty();
    let mut written: Vec<LogEntry> = Vec::new();
    let mut after_start = 0;
    for i in 0..30usize {
        let mut run = TaskRun::new(task(2 * i, 2 * i + 1));
        let script: Vec<TaskEvent> = match i % 3 {
            0 => vec![ready(), ready(), TaskEvent::Measured(Ok("1.5".to_string()))],
            1 => vec![not_ready(), TaskEvent::Waited(false), ready(), not_ready(), TaskEvent::Waited(true)],
            _ => vec![ready(), failed(3)],
        };
        for event in script {
            written.extend(run.step(event));
        }
        match run.phase() {
            TaskPhase::Finished(TaskOutcome::Abandoned { started: true, .. }) => after_start += 1,
            TaskPhase::Finished(TaskOutcome::Completed) => {}
            other => panic!("unexpected end {:?}", other),
        }
        written.extend(run.finish(&mut pool, &vendor));
    }
    let starts = count_records(&written, "Start");
    let completes = count_records(&written, "Complete");
    assert_eq!(starts, 30);
    assert_eq!(completes, 10);
    assert_eq!(after_start, 20);
    assert_eq!(starts, completes + after_start);
}
