//! The logger of kernel execution times.
//!
//! A launch hands over its two timing events and its labels as a
//! [`TimingTask`]. A single worker takes the tasks in the order in which they
//! were queued and runs each through a [`TaskRun`]: it waits for the start
//! event, writes a `Start` record, waits for the end event, measures, and
//! writes a `Complete` record. Waiting and measuring are the worker's part:
//! a run says what it needs next ([`TaskRun::request`]) and is told what came
//! of it ([`TaskRun::step`]).

use crate::cuda_funcs::{event_destroyed, CUDAError, CUDAEvent, VendorApi};
use crate::monitor::event_pool::{EventPool, Release};
use crate::monitor::log_entry::{entry_view, error_line, info_line, lines, push_line};
use crate::monitor::log_entry::{LogEntry, LogEntryView, LogLevel};
use vstd::prelude::*;

verus! {

/// How long, in milliseconds, one wait on the cancellation signal lasts.
pub const WAIT_SLICE_MS: u64 = 100;

/// `serde_json::Error`, carried from the serialiser to the place where it is
/// turned into a `SerializeError`. Nothing of its inside is visible here.
#[verifier::external_type_specification]
#[verifier::external_body]
pub struct ExJsonError(serde_json::Error);

/// The lower-case hexadecimal digit of a value below sixteen.
pub open spec fn hex_digit(d: nat) -> char
    recommends
        d < 16,
{
    if d < 10 {
        ((48 + d) as u8) as char
    } else {
        ((87 + d) as u8) as char
    }
}

/// How one character stands in a JSON string literal. The double quote and
/// the backslash get a backslash in front. The control characters below
/// U+0020 are escaped: backspace, tab, line feed, form feed and carriage
/// return by their letter, the others as `\u00` and two hexadecimal digits.
/// Every other character stands for itself.
pub open spec fn json_escape(c: char) -> Seq<char> {
    if c == '"' {
        seq!['\\', '"']
    } else if c == '\\' {
        seq!['\\', '\\']
    } else if c == '\u{8}' {
        seq!['\\', 'b']
    } else if c == '\t' {
        seq!['\\', 't']
    } else if c == '\n' {
        seq!['\\', 'n']
    } else if c == '\u{c}' {
        seq!['\\', 'f']
    } else if c == '\r' {
        seq!['\\', 'r']
    } else if (c as u32) < 0x20 {
        seq!['\\', 'u', '0', '0', hex_digit(c as nat / 16), hex_digit(c as nat % 16)]
    } else {
        seq![c]
    }
}

/// The characters of a text, each as it stands in a JSON string literal.
pub open spec fn json_escaped(text: Seq<char>) -> Seq<char>
    decreases text.len(),
{
    if text.len() == 0 {
        Seq::empty()
    } else {
        json_escape(text.first()) + json_escaped(text.drop_first())
    }
}

/// The JSON string literal for a text: the escaped text between double
/// quotes.
pub open spec fn json_string(text: Seq<char>) -> Seq<char> {
    seq!['"'] + json_escaped(text) + seq!['"']
}

/// Whether a character stands for itself in a JSON string literal.
pub open spec fn is_json_plain(c: char) -> bool {
    c != '"' && c != '\\' && (c as u32) >= 0x20
}

/// A text without quotes, backslashes and control characters is its own
/// escaped form: its literal is the text between double quotes.
pub proof fn lemma_plain_text_is_quoted(text: Seq<char>)
    requires
        forall|i: int| 0 <= i < text.len() ==> is_json_plain(#[trigger] text[i]),
    ensures
        json_escaped(text) == text,
        json_string(text) == seq!['"'] + text + seq!['"'],
    decreases text.len(),
{
    if text.len() > 0 {
        assert forall|i: int| 0 <= i < text.drop_first().len() implies is_json_plain(
            #[trigger] text.drop_first()[i],
        ) by {
            assert(text.drop_first()[i] == text[i + 1]);
        }
        lemma_plain_text_is_quoted(text.drop_first());
        assert(is_json_plain(text[0]));
        assert(seq![text.first()] + text.drop_first() =~= text);
    }
}

/// Escaping goes character by character: the escaped form of two texts in a
/// row is the escaped forms in a row.
pub proof fn lemma_json_escaped_concat(a: Seq<char>, b: Seq<char>)
    ensures
        json_escaped(a + b) == json_escaped(a) + json_escaped(b),
    decreases a.len(),
{
    if a.len() == 0 {
        assert(a + b =~= b);
        assert(json_escaped(a) + json_escaped(b) =~= json_escaped(b));
    } else {
        assert((a + b).first() == a.first());
        assert((a + b).drop_first() =~= a.drop_first() + b);
        lemma_json_escaped_concat(a.drop_first(), b);
        assert(json_escape(a.first()) + (json_escaped(a.drop_first()) + json_escaped(b))
            =~= json_escape(a.first()) + json_escaped(a.drop_first()) + json_escaped(b));
    }
}

/// `serde_json::to_string` on a string slice. Serialising a string writes to
/// memory only and cannot fail. The result is the compact JSON string
/// literal: an opening quote, every character of the text as `json_escape`
/// gives it, and a closing quote.
#[verifier::external_body]
fn to_json_string(text: &str) -> (r: Result<String, serde_json::Error>)
    ensures
        match r {
            Ok(s) => s@ == json_string(text@),
            Err(_) => false,
        },
{
    serde_json::to_string(text)
}

/// A record could not be serialised.
#[derive(Clone, Copy, Debug, PartialEq, Eq)]
pub struct SerializeError;

/// A record of the execution-time log.
#[derive(Debug)]
pub enum LogMessage {
    /// The kernel has started.
    Start { kern_label: String, user_label: String },
    /// The kernel has completed. `duration_ms` is the JSON number of the
    /// elapsed milliseconds.
    Complete { kern_label: String, user_label: String, duration_ms: String },
}

/// The text of a `Start` record around two JSON string literals.
pub open spec fn start_frame(kern_json: Seq<char>, user_json: Seq<char>) -> Seq<char> {
    "{\"type\":\"Start\",\"data\":{\"kern_label\":"@ + kern_json + ",\"user_label\":"@ + user_json
        + "}}"@
}

/// The text of a `Complete` record around two JSON string literals and a JSON
/// number.
pub open spec fn complete_frame(
    kern_json: Seq<char>,
    user_json: Seq<char>,
    duration_json: Seq<char>,
) -> Seq<char> {
    "{\"type\":\"Complete\",\"data\":{\"kern_label\":"@ + kern_json + ",\"user_label\":"@
        + user_json + ",\"duration_ms\":"@ + duration_json + "}}"@
}

/// The `Start` record for two labels.
pub open spec fn start_record(kern_label: Seq<char>, user_label: Seq<char>) -> Seq<char> {
    start_frame(json_string(kern_label), json_string(user_label))
}

/// The `Complete` record for two labels and a duration.
pub open spec fn complete_record(
    kern_label: Seq<char>,
    user_label: Seq<char>,
    duration_ms: Seq<char>,
) -> Seq<char> {
    complete_frame(json_string(kern_label), json_string(user_label), duration_ms)
}

/// Frames a `Start` record around the JSON literals of its labels.
pub fn frame_start(kern_json: &str, user_json: &str) -> (r: String)
    ensures
        r@ == start_frame(kern_json@, user_json@),
{
    let mut out = String::from_str("{\"type\":\"Start\",\"data\":{\"kern_label\":");
    out.append(kern_json);
    out.append(",\"user_label\":");
    out.append(user_json);
    out.append("}}");
    out
}

/// Frames a `Complete` record around the JSON literals of its labels and the
/// JSON number of its duration.
pub fn frame_complete(kern_json: &str, user_json: &str, duration_json: &str) -> (r: String)
    ensures
        r@ == complete_frame(kern_json@, user_json@, duration_json@),
{
    let mut out = String::from_str("{\"type\":\"Complete\",\"data\":{\"kern_label\":");
    out.append(kern_json);
    out.append(",\"user_label\":");
    out.append(user_json);
    out.append(",\"duration_ms\":");
    out.append(duration_json);
    out.append("}}");
    out
}

impl LogMessage {
    /// The JSON document of the record.
    pub open spec fn json_text(&self) -> Seq<char> {
        match self {
            LogMessage::Start { kern_label, user_label } => start_record(
                kern_label@,
                user_label@,
            ),
            LogMessage::Complete { kern_label, user_label, duration_ms } => complete_record(
                kern_label@,
                user_label@,
                duration_ms@,
            ),
        }
    }

    /// Serialises the record as one JSON document: an object with the tag
    /// under `"type"` and the fields under `"data"`.
    pub fn to_json(&self) -> (r: Result<String, SerializeError>)
        ensures
            r matches Ok(s) && s@ == self.json_text(),
    {
        match self {
            LogMessage::Start { kern_label, user_label } => {
                let kern = match to_json_string(kern_label.as_str()) {
                    Ok(s) => s,
                    Err(_) => {
                        return Err(SerializeError);
                    },
                };
                let user = match to_json_string(user_label.as_str()) {
                    Ok(s) => s,
                    Err(_) => {
                        return Err(SerializeError);
                    },
                };
                Ok(frame_start(kern.as_str(), user.as_str()))
            },
            LogMessage::Complete { kern_label, user_label, duration_ms } => {
                let kern = match to_json_string(kern_label.as_str()) {
                    Ok(s) => s,
                    Err(_) => {
                        return Err(SerializeError);
                    },
                };
                let user = match to_json_string(user_label.as_str()) {
                    Ok(s) => s,
                    Err(_) => {
                        return Err(SerializeError);
                    },
                };
                Ok(frame_complete(kern.as_str(), user.as_str(), duration_ms.as_str()))
            },
        }
    }
}

/// One measurement to make: the events recorded before and after a launch,
/// and the labels under which the result is logged.
#[derive(Debug)]
pub struct TimingTask {
    pub start: CUDAEvent,
    pub end: CUDAEvent,
    pub kern_label: String,
    pub user_label: String,
}

/// The content of a `TimingTask`.
pub struct TimingTaskView {
    pub start: usize,
    pub end: usize,
    pub kern_label: Seq<char>,
    pub user_label: Seq<char>,
}

impl View for TimingTask {
    type V = TimingTaskView;

    open spec fn view(&self) -> TimingTaskView {
        TimingTaskView {
            start: self.start@,
            end: self.end@,
            kern_label: self.kern_label@,
            user_label: self.user_label@,
        }
    }
}

/// The queue between the launching threads and the worker. Tasks leave in the
/// order in which they came.
pub struct EventLogger {
    queue: Vec<TimingTask>,
}

impl View for EventLogger {
    type V = Seq<TimingTaskView>;

    closed spec fn view(&self) -> Seq<TimingTaskView> {
        self.queue@.map_values(|t: TimingTask| t@)
    }
}

impl EventLogger {
    /// A logger with nothing queued.
    pub fn new() -> (r: EventLogger)
        ensures
            r@ == Seq::<TimingTaskView>::empty(),
    {
        let r = EventLogger { queue: Vec::new() };
        r
    }

    /// The number of queued tasks.
    pub fn len(&self) -> (n: usize)
        ensures
            n == self@.len(),
    {
        self.queue.len()
    }

    /// Queues a measurement behind those already queued.
    pub fn add_event(
        &mut self,
        start: CUDAEvent,
        end: CUDAEvent,
        kern_label: String,
        user_label: String,
    )
        ensures
            final(self)@ == old(self)@.push(
                TimingTaskView {
                    start: start@,
                    end: end@,
                    kern_label: kern_label@,
                    user_label: user_label@,
                },
            ),
    {
        let task = TimingTask { start, end, kern_label, user_label };
        self.queue.push(task);
    }

    /// Takes the task that has waited longest, if any.
    pub fn next_task(&mut self) -> (r: Option<TimingTask>)
        ensures
            old(self)@.len() == 0 ==> r is None && final(self)@ == old(self)@,
            old(self)@.len() > 0 ==> {
                &&& r matches Some(task) && task@ == old(self)@.first()
                &&& final(self)@ == old(self)@.drop_first()
            },
    {
        if self.queue.len() == 0 {
            None
        } else {
            let task = self.queue.remove(0);
            Some(task)
        }
    }
}

/// The cancellation signal of the logger: a flag that is set once and stays
/// set. The host keeps it behind a lock and wakes every waiter when it is set.
#[derive(Debug)]
pub struct Notification {
    notified: bool,
}

/// What a waiter on the signal does next.
#[derive(Clone, Copy, Debug, PartialEq, Eq)]
pub enum Waiting {
    /// The signal has fired: the wait ends with `true`.
    Fired,
    /// The time is up: the wait ends with `false`.
    TimedOut,
    /// Neither: the waiter sleeps until it is woken or the time is up.
    Sleep,
}

impl Notification {
    /// Whether the signal has fired.
    pub closed spec fn fired(&self) -> bool {
        self.notified
    }

    /// A signal that has not fired.
    pub fn new() -> (r: Notification)
        ensures
            !r.fired(),
    {
        Notification { notified: false }
    }

    /// Fires the signal. Firing it again changes nothing.
    pub fn notify(&mut self)
        ensures
            final(self).fired(),
    {
        self.notified = true;
    }

    /// Whether the signal has fired.
    pub fn is_notified(&self) -> (r: bool)
        ensures
            r == self.fired(),
    {
        self.notified
    }

    /// One round of a bounded wait. `timed_out` says whether the sleep that
    /// has just ended, if any, ended because the time was up. A sleep that ran
    /// out of time ends the wait at once; otherwise the wait ends when the
    /// signal has fired and goes on sleeping when it has not.
    pub fn wait_for(&self, timed_out: bool) -> (r: Waiting)
        ensures
            r == if timed_out {
                Waiting::TimedOut
            } else if self.fired() {
                Waiting::Fired
            } else {
                Waiting::Sleep
            },
    {
        if timed_out {
            Waiting::TimedOut
        } else if self.notified {
            Waiting::Fired
        } else {
            Waiting::Sleep
        }
    }
}

/// How the wait for one event ended.
#[derive(Clone, Copy, Debug, PartialEq, Eq)]
pub enum QueryResult {
    /// The event has completed.
    Completed,
    /// The cancellation signal fired while the event was not ready.
    Exited,
    /// The vendor failed to answer the query.
    Error,
}

/// How a task ended.
#[derive(Clone, Copy, Debug, PartialEq, Eq)]
pub enum TaskOutcome {
    /// Both records were written.
    Completed,
    /// Both events completed, but the vendor failed to measure the time
    /// between them: a `Start` record without a `Complete` record.
    Unmeasured,
    /// The wait for one of the events was cut short. `started` says whether
    /// the `Start` record had been written; `cause` is `Exited` or `Error`.
    Abandoned { started: bool, cause: QueryResult },
}

/// Where a task stands.
#[derive(Clone, Copy, Debug, PartialEq, Eq)]
pub enum TaskPhase {
    /// The start event is to be queried.
    QueryStart,
    /// The start event was not ready: the worker sleeps on the signal.
    SleepStart,
    /// The end event is to be queried.
    QueryEnd,
    /// The end event was not ready: the worker sleeps on the signal.
    SleepEnd,
    /// Both events have completed: the time between them is to be measured.
    Measure,
    /// Nothing more to wait for.
    Finished(TaskOutcome),
}

/// What a run needs from the worker next.
#[derive(Clone, Copy, Debug, PartialEq, Eq)]
pub enum TaskRequest {
    /// Query the event with this handle.
    Query(usize),
    /// Wait on the cancellation signal for up to this many milliseconds.
    Wait(u64),
    /// Measure the milliseconds from `begin` to `end`.
    Elapsed { begin: usize, end: usize },
    /// The task is over: call `finish`, which returns both events to the pool.
    Release,
    /// The task was abandoned: call `finish`, which destroys both events.
    Discard,
}

/// What came of a request.
#[derive(Debug)]
pub enum TaskEvent {
    /// The answer to a query: whether the event has completed.
    Queried(Result<bool, CUDAError>),
    /// The wait is over; `true` if the cancellation signal fired.
    Waited(bool),
    /// The elapsed milliseconds as a JSON number.
    Measured(Result<String, CUDAError>),
}

/// The request that belongs to a phase.
pub open spec fn request_of(task: TimingTaskView, phase: TaskPhase) -> TaskRequest {
    match phase {
        TaskPhase::QueryStart => TaskRequest::Query(task.start),
        TaskPhase::QueryEnd => TaskRequest::Query(task.end),
        TaskPhase::SleepStart | TaskPhase::SleepEnd => TaskRequest::Wait(WAIT_SLICE_MS),
        TaskPhase::Measure => TaskRequest::Elapsed { begin: task.start, end: task.end },
        TaskPhase::Finished(TaskOutcome::Abandoned { .. }) => TaskRequest::Discard,
        TaskPhase::Finished(_) => TaskRequest::Release,
    }
}

/// The phase after a wait for an event that was queried as `queried`:
/// `ready` if it has completed, `sleep` if it has not, abandoned on a failure.
pub open spec fn after_query(
    queried: Result<bool, CUDAError>,
    ready: TaskPhase,
    sleep: TaskPhase,
    started: bool,
) -> TaskPhase {
    match queried {
        Ok(true) => ready,
        Ok(false) => sleep,
        Err(_) => TaskPhase::Finished(
            TaskOutcome::Abandoned { started, cause: QueryResult::Error },
        ),
    }
}

/// The phase after a sleep: abandoned if the signal fired, else `again`.
pub open spec fn after_wait(fired: bool, again: TaskPhase, started: bool) -> TaskPhase {
    if fired {
        TaskPhase::Finished(TaskOutcome::Abandoned { started, cause: QueryResult::Exited })
    } else {
        again
    }
}

/// The phase that follows `phase` on `event`. An event that does not answer
/// the request of the phase changes nothing.
pub open spec fn next_phase(phase: TaskPhase, event: TaskEvent) -> TaskPhase {
    match (phase, event) {
        (TaskPhase::QueryStart, TaskEvent::Queried(q)) => after_query(
            q,
            TaskPhase::QueryEnd,
            TaskPhase::SleepStart,
            false,
        ),
        (TaskPhase::SleepStart, TaskEvent::Waited(fired)) => after_wait(
            fired,
            TaskPhase::QueryStart,
            false,
        ),
        (TaskPhase::QueryEnd, TaskEvent::Queried(q)) => after_query(
            q,
            TaskPhase::Measure,
            TaskPhase::SleepEnd,
            true,
        ),
        (TaskPhase::SleepEnd, TaskEvent::Waited(fired)) => after_wait(
            fired,
            TaskPhase::QueryEnd,
            true,
        ),
        (TaskPhase::Measure, TaskEvent::Measured(Ok(_))) => TaskPhase::Finished(
            TaskOutcome::Completed,
        ),
        (TaskPhase::Measure, TaskEvent::Measured(Err(_))) => TaskPhase::Finished(
            TaskOutcome::Unmeasured,
        ),
        _ => phase,
    }
}

/// Whether `event` in `phase` writes the `Start` record.
pub open spec fn writes_start(phase: TaskPhase, event: TaskEvent) -> bool {
    phase == TaskPhase::QueryStart && event == TaskEvent::Queried(Ok(true))
}

/// Whether `event` in `phase` writes the `Complete` record.
pub open spec fn writes_complete(phase: TaskPhase, event: TaskEvent) -> bool {
    phase == TaskPhase::Measure && event matches TaskEvent::Measured(Ok(_))
}

/// The line reporting a failed query.
pub open spec fn query_failed_line(e: CUDAError) -> LogEntryView {
    error_line("failed to query CUDA event: "@ + e.message_text())
}

/// The line reporting a failed measurement.
pub open spec fn elapsed_failed_line(e: CUDAError) -> LogEntryView {
    error_line("failed to compute elapsed time: "@ + e.message_text())
}

/// The line that `event` in `phase` writes, if any: the `Start` record when
/// the start event has completed, the `Complete` record when the time was
/// measured, an error line when the vendor failed.
pub open spec fn emission(task: TimingTaskView, phase: TaskPhase, event: TaskEvent) -> Option<
    LogEntryView,
> {
    match (phase, event) {
        (TaskPhase::QueryStart, TaskEvent::Queried(Ok(true))) => Some(
            info_line(start_record(task.kern_label, task.user_label)),
        ),
        (TaskPhase::QueryStart, TaskEvent::Queried(Err(e))) => Some(query_failed_line(e)),
        (TaskPhase::QueryEnd, TaskEvent::Queried(Err(e))) => Some(query_failed_line(e)),
        (TaskPhase::Measure, TaskEvent::Measured(Ok(duration))) => Some(
            info_line(complete_record(task.kern_label, task.user_label, duration@)),
        ),
        (TaskPhase::Measure, TaskEvent::Measured(Err(e))) => Some(elapsed_failed_line(e)),
        _ => None,
    }
}

/// The records are the info lines: a step that writes the `Start` or the
/// `Complete` record writes it as an info line, and every other line that a
/// step writes is an error line.
pub proof fn lemma_records_are_the_info_lines(
    task: TimingTaskView,
    phase: TaskPhase,
    event: TaskEvent,
)
    ensures
        writes_start(phase, event) ==> emission(task, phase, event) == Some(
            info_line(start_record(task.kern_label, task.user_label)),
        ),
        writes_complete(phase, event) ==> (emission(task, phase, event) matches Some(line)
            && line.level == LogLevel::Info),
        !writes_start(phase, event) && !writes_complete(phase, event) ==> (emission(
            task,
            phase,
            event,
        ) matches Some(line) ==> line.level == LogLevel::Error),
{
}

/// The phase reached from `phase` by a sequence of events.
pub open spec fn run_phase(phase: TaskPhase, events: Seq<TaskEvent>) -> TaskPhase
    decreases events.len(),
{
    if events.len() == 0 {
        phase
    } else {
        run_phase(next_phase(phase, events.first()), events.drop_first())
    }
}

/// The number of `Start` records written on the way from `phase` through
/// `events`.
pub open spec fn starts_written(phase: TaskPhase, events: Seq<TaskEvent>) -> nat
    decreases events.len(),
{
    if events.len() == 0 {
        0
    } else {
        (if writes_start(phase, events.first()) {
            1nat
        } else {
            0nat
        }) + starts_written(next_phase(phase, events.first()), events.drop_first())
    }
}

/// The number of `Complete` records written on the way from `phase` through
/// `events`.
pub open spec fn completes_written(phase: TaskPhase, events: Seq<TaskEvent>) -> nat
    decreases events.len(),
{
    if events.len() == 0 {
        0
    } else {
        (if writes_complete(phase, events.first()) {
            1nat
        } else {
            0nat
        }) + completes_written(next_phase(phase, events.first()), events.drop_first())
    }
}

/// 1 if a task in this phase has written its `Start` record, else 0.
pub open spec fn started(phase: TaskPhase) -> nat {
    match phase {
        TaskPhase::QueryStart | TaskPhase::SleepStart => 0,
        TaskPhase::Finished(TaskOutcome::Abandoned { started, .. }) => if started {
            1
        } else {
            0
        },
        _ => 1,
    }
}

/// 1 if a task in this phase has written its `Complete` record, else 0.
pub open spec fn completed(phase: TaskPhase) -> nat {
    if phase == TaskPhase::Finished(TaskOutcome::Completed) {
        1
    } else {
        0
    }
}

/// 1 if the task was abandoned after its `Start` record, else 0.
pub open spec fn abandoned_after_start(phase: TaskPhase) -> nat {
    match phase {
        TaskPhase::Finished(TaskOutcome::Abandoned { started: true, .. }) => 1,
        _ => 0,
    }
}

/// 1 if the task was abandoned, before or after its `Start` record, else 0.
pub open spec fn abandoned(phase: TaskPhase) -> nat {
    match phase {
        TaskPhase::Finished(TaskOutcome::Abandoned { .. }) => 1,
        _ => 0,
    }
}

/// 1 if the task ended without a measurement though both events completed,
/// else 0.
pub open spec fn unmeasured(phase: TaskPhase) -> nat {
    if phase == TaskPhase::Finished(TaskOutcome::Unmeasured) {
        1
    } else {
        0
    }
}

/// The records written on a way are those that the phases at its two ends
/// account for.
pub proof fn lemma_records_follow_phase(phase: TaskPhase, events: Seq<TaskEvent>)
    ensures
        started(run_phase(phase, events)) == started(phase) + starts_written(phase, events),
        completed(run_phase(phase, events)) == completed(phase) + completes_written(
            phase,
            events,
        ),
    decreases events.len(),
{
    if events.len() > 0 {
        lemma_records_follow_phase(next_phase(phase, events.first()), events.drop_first());
    }
}

/// A finished task stays finished, whatever it is told.
pub proof fn lemma_finished_is_final(outcome: TaskOutcome, events: Seq<TaskEvent>)
    ensures
        run_phase(TaskPhase::Finished(outcome), events) == TaskPhase::Finished(outcome),
        starts_written(TaskPhase::Finished(outcome), events) == 0,
        completes_written(TaskPhase::Finished(outcome), events) == 0,
    decreases events.len(),
{
    if events.len() > 0 {
        lemma_finished_is_final(outcome, events.drop_first());
    }
}

/// For one task, run from its beginning through any events to its end: the
/// `Start` records written are as many as the `Complete` records written, plus
/// one if the task was abandoned after its `Start` record, plus one if its
/// time could not be measured. No task writes more than one record of a kind.
pub proof fn lemma_task_records_balance(events: Seq<TaskEvent>)
    ensures
        ({
            let end = run_phase(TaskPhase::QueryStart, events);
            &&& starts_written(TaskPhase::QueryStart, events) <= 1
            &&& completes_written(TaskPhase::QueryStart, events) <= starts_written(
                TaskPhase::QueryStart,
                events,
            )
            &&& end is Finished ==> starts_written(TaskPhase::QueryStart, events)
                == completes_written(TaskPhase::QueryStart, events) + abandoned_after_start(end)
                + unmeasured(end)
        }),
{
    lemma_records_follow_phase(TaskPhase::QueryStart, events);
}

/// The `Start` records written by a sequence of tasks, each given by the
/// events it was told.
pub open spec fn total_starts(runs: Seq<Seq<TaskEvent>>) -> nat
    decreases runs.len(),
{
    if runs.len() == 0 {
        0
    } else {
        total_starts(runs.drop_last()) + starts_written(TaskPhase::QueryStart, runs.last())
    }
}

/// The `Complete` records written by a sequence of tasks.
pub open spec fn total_completes(runs: Seq<Seq<TaskEvent>>) -> nat
    decreases runs.len(),
{
    if runs.len() == 0 {
        0
    } else {
        total_completes(runs.drop_last()) + completes_written(
            TaskPhase::QueryStart,
            runs.last(),
        )
    }
}

/// The tasks of a sequence that were abandoned.
pub open spec fn total_abandoned(runs: Seq<Seq<TaskEvent>>) -> nat
    decreases runs.len(),
{
    if runs.len() == 0 {
        0
    } else {
        total_abandoned(runs.drop_last()) + abandoned(
            run_phase(TaskPhase::QueryStart, runs.last()),
        )
    }
}

/// Whether a task that was told `events` ended, and ended in one of the ways
/// that the balance of records counts: completed, or abandoned after its
/// `Start` record.
pub open spec fn ends_counted(events: Seq<TaskEvent>) -> bool {
    let end = run_phase(TaskPhase::QueryStart, events);
    end == TaskPhase::Finished(TaskOutcome::Completed) || abandoned_after_start(end) == 1
}

/// Over any number of tasks that all ended either completed or abandoned
/// after their `Start` record: the `Start` records written are as many as the
/// `Complete` records written plus the tasks abandoned.
pub proof fn lemma_records_balance(runs: Seq<Seq<TaskEvent>>)
    requires
        forall|i: int| 0 <= i < runs.len() ==> ends_counted(#[trigger] runs[i]),
    ensures
        total_starts(runs) == total_completes(runs) + total_abandoned(runs),
    decreases runs.len(),
{
    if runs.len() > 0 {
        assert forall|i: int| 0 <= i < runs.drop_last().len() implies ends_counted(
            #[trigger] runs.drop_last()[i],
        ) by {
        }
        lemma_records_balance(runs.drop_last());
        lemma_task_records_balance(runs.last());
    }
}

/// Once the cancellation signal has fired, a task whose events never become
/// ready writes no `Complete` record: told "not ready" and "the signal fired"
/// in turn, it ends abandoned.
pub proof fn lemma_cancelled_task_is_abandoned(phase: TaskPhase)
    requires
        !(phase is Finished),
        phase != TaskPhase::Measure,
    ensures
        ({
            let events = seq![TaskEvent::Queried(Ok(false)), TaskEvent::Waited(true)];
            &&& abandoned(run_phase(phase, events)) == 1
            &&& completes_written(phase, events) == 0
        }),
{
    let events = seq![TaskEvent::Queried(Ok(false)), TaskEvent::Waited(true)];
    reveal_with_fuel(run_phase, 3);
    reveal_with_fuel(completes_written, 3);
}

/// The line reporting an event that the vendor failed to destroy.
pub open spec fn destroy_failed_line(e: CUDAError) -> LogEntryView {
    error_line("failed to destroy CUDA event: "@ + crate::decimal::signed_decimal(e.code as int))
}

/// The pool after an event was handed back to it.
pub open spec fn pool_after_release(pool: Seq<usize>, event: usize) -> Seq<usize> {
    if pool.len() < crate::monitor::event_pool::EVENT_POOL_CAPACITY {
        pool.push(event)
    } else {
        pool
    }
}

/// Whether a task in this phase hands its events back to the pool when it is
/// finished. An abandoned task does not: its events are destroyed.
pub open spec fn returns_events(phase: TaskPhase) -> bool {
    phase == TaskPhase::Finished(TaskOutcome::Completed) || phase == TaskPhase::Finished(
        TaskOutcome::Unmeasured,
    )
}

/// One task on its way through the worker.
pub struct TaskRun {
    task: TimingTask,
    phase: TaskPhase,
}

impl TaskRun {
    /// The task of this run.
    pub closed spec fn task(&self) -> TimingTaskView {
        self.task@
    }

    /// Where the run stands.
    pub closed spec fn spec_phase(&self) -> TaskPhase {
        self.phase
    }

    /// A run at its beginning.
    pub fn new(task: TimingTask) -> (r: TaskRun)
        ensures
            r.task() == task@,
            r.phase() == TaskPhase::QueryStart,
    {
        TaskRun { task, phase: TaskPhase::QueryStart }
    }

    /// Where the run stands.
    #[verifier::when_used_as_spec(spec_phase)]
    pub fn phase(&self) -> (r: TaskPhase)
        ensures
            r == self.spec_phase(),
    {
        self.phase
    }

    /// What the worker has to do next.
    pub fn request(&self) -> (r: TaskRequest)
        ensures
            r == request_of(self.task(), self.phase()),
    {
        match self.phase {
            TaskPhase::QueryStart => TaskRequest::Query(self.task.start.event),
            TaskPhase::QueryEnd => TaskRequest::Query(self.task.end.event),
            TaskPhase::SleepStart => TaskRequest::Wait(WAIT_SLICE_MS),
            TaskPhase::SleepEnd => TaskRequest::Wait(WAIT_SLICE_MS),
            TaskPhase::Measure => TaskRequest::Elapsed {
                begin: self.task.start.event,
                end: self.task.end.event,
            },
            TaskPhase::Finished(TaskOutcome::Abandoned { .. }) => TaskRequest::Discard,
            TaskPhase::Finished(_) => TaskRequest::Release,
        }
    }

    /// Takes the answer to the last request, moves to the next phase and
    /// returns the line to write, if any.
    pub fn step(&mut self, event: TaskEvent) -> (line: Option<LogEntry>)
        ensures
            final(self).task() == old(self).task(),
            final(self).phase() == next_phase(old(self).phase(), event),
            entry_view(line) == emission(old(self).task(), old(self).phase(), event),
    {
        match (self.phase, event) {
            (TaskPhase::QueryStart, TaskEvent::Queried(Ok(true))) => {
                self.phase = TaskPhase::QueryEnd;
                Some(start_line(&self.task))
            },
            (TaskPhase::QueryStart, TaskEvent::Queried(Ok(false))) => {
                self.phase = TaskPhase::SleepStart;
                None
            },
            (TaskPhase::QueryStart, TaskEvent::Queried(Err(e))) => {
                self.phase = TaskPhase::Finished(
                    TaskOutcome::Abandoned { started: false, cause: QueryResult::Error },
                );
                Some(failure_line("failed to query CUDA event: ", &e))
            },
            (TaskPhase::SleepStart, TaskEvent::Waited(fired)) => {
                if fired {
                    self.phase = TaskPhase::Finished(
                        TaskOutcome::Abandoned { started: false, cause: QueryResult::Exited },
                    );
                } else {
                    self.phase = TaskPhase::QueryStart;
                }
                None
            },
            (TaskPhase::QueryEnd, TaskEvent::Queried(Ok(true))) => {
                self.phase = TaskPhase::Measure;
                None
            },
            (TaskPhase::QueryEnd, TaskEvent::Queried(Ok(false))) => {
                self.phase = TaskPhase::SleepEnd;
                None
            },
            (TaskPhase::QueryEnd, TaskEvent::Queried(Err(e))) => {
                self.phase = TaskPhase::Finished(
                    TaskOutcome::Abandoned { started: true, cause: QueryResult::Error },
                );
                Some(failure_line("failed to query CUDA event: ", &e))
            },
            (TaskPhase::SleepEnd, TaskEvent::Waited(fired)) => {
                if fired {
                    self.phase = TaskPhase::Finished(
                        TaskOutcome::Abandoned { started: true, cause: QueryResult::Exited },
                    );
                } else {
                    self.phase = TaskPhase::QueryEnd;
                }
                None
            },
            (TaskPhase::Measure, TaskEvent::Measured(Ok(duration))) => {
                self.phase = TaskPhase::Finished(TaskOutcome::Completed);
                Some(complete_line(&self.task, duration))
            },
            (TaskPhase::Measure, TaskEvent::Measured(Err(e))) => {
                self.phase = TaskPhase::Finished(TaskOutcome::Unmeasured);
                Some(failure_line("failed to compute elapsed time: ", &e))
            },
            _ => None,
        }
    }

    /// Ends the run. A task that went through both waits hands its events
    /// back to the pool, the start event first; any other task has its events
    /// discarded. The lines report the events that the vendor failed to
    /// destroy.
    pub fn finish<V: VendorApi>(self, pool: &mut EventPool, vendor: &V) -> (report: Vec<LogEntry>)
        requires
            old(pool).wf(),
        ensures
            final(pool).wf(),
            returns_events(self.phase()) ==> exists|
                pool_between: Seq<usize>,
                between: Seq<LogEntryView>,
            |
                #![trigger released(vendor, self.task().start, old(pool)@, pool_between, Seq::empty(), between)]
                {
                    &&& released(
                        vendor,
                        self.task().start,
                        old(pool)@,
                        pool_between,
                        Seq::empty(),
                        between,
                    )
                    &&& released(
                        vendor,
                        self.task().end,
                        pool_between,
                        final(pool)@,
                        between,
                        lines(report),
                    )
                },
            !returns_events(self.phase()) ==> final(pool)@ == old(pool)@ && exists|
                between: Seq<LogEntryView>,
            |
                #![trigger discarded(vendor, self.task().start, Seq::empty(), between)]
                {
                    &&& discarded(vendor, self.task().start, Seq::empty(), between)
                    &&& discarded(vendor, self.task().end, between, lines(report))
                },
    {
        let mut report: Vec<LogEntry> = Vec::new();
        assert(lines(report) =~= Seq::<LogEntryView>::empty());
        let task = self.task;
        let pooled = match self.phase {
            TaskPhase::Finished(TaskOutcome::Completed) => true,
            TaskPhase::Finished(TaskOutcome::Unmeasured) => true,
            _ => false,
        };
        if pooled {
            release_event(vendor, pool, task.start, &mut report);
            let ghost pool_between = pool@;
            let ghost between = lines(report);
            release_event(vendor, pool, task.end, &mut report);
            assert(released(
                vendor,
                self.task().start,
                old(pool)@,
                pool_between,
                Seq::empty(),
                between,
            ));
        } else {
            discard_event(vendor, task.start, &mut report);
            let ghost between = lines(report);
            discard_event(vendor, task.end, &mut report);
            assert(discarded(vendor, self.task().start, Seq::empty(), between));
        }
        report
    }
}

/// A finished run adds at most two lines, and none when the pool has room
/// for both events.
pub proof fn lemma_finish_report<V: VendorApi>(
    vendor: &V,
    start: usize,
    end: usize,
    pool: Seq<usize>,
    pool_between: Seq<usize>,
    pool_after: Seq<usize>,
    between: Seq<LogEntryView>,
    report: Seq<LogEntryView>,
)
    requires
        released(vendor, start, pool, pool_between, Seq::empty(), between),
        released(vendor, end, pool_between, pool_after, between, report),
    ensures
        report.len() <= 2,
        pool_after == pool_after_release(pool_after_release(pool, start), end),
        pool.len() + 2 <= crate::monitor::event_pool::EVENT_POOL_CAPACITY ==> report.len() == 0,
{
}

/// The lines that destroying an event adds: none if the vendor destroyed it,
/// one error line if it failed to.
pub open spec fn destroy_lines(destroyed: Result<(), CUDAError>) -> Seq<LogEntryView> {
    match destroyed {
        Ok(_) => Seq::empty(),
        Err(e) => seq![destroy_failed_line(e)],
    }
}

/// What discarding an event does to the lines: the vendor is asked to destroy
/// the event, and a failure adds one error line.
pub open spec fn discarded<V: VendorApi>(
    vendor: &V,
    event: usize,
    log: Seq<LogEntryView>,
    log_after: Seq<LogEntryView>,
) -> bool {
    exists|destroyed: Result<(), CUDAError>| #[trigger]
        event_destroyed(vendor, event, destroyed) && log_after =~= log + destroy_lines(destroyed)
}

/// What handing an event back does to the pool and the lines: with room in
/// the pool the event goes on top of it and nothing is written; without, the
/// pool stays as it is and the event is discarded.
pub open spec fn released<V: VendorApi>(
    vendor: &V,
    event: usize,
    pool: Seq<usize>,
    pool_after: Seq<usize>,
    log: Seq<LogEntryView>,
    log_after: Seq<LogEntryView>,
) -> bool {
    &&& pool_after == pool_after_release(pool, event)
    &&& if pool.len() < crate::monitor::event_pool::EVENT_POOL_CAPACITY {
        log_after == log
    } else {
        discarded(vendor, event, log, log_after)
    }
}

/// Destroys an event that is no longer needed. A failure is logged and goes
/// no further.
pub fn discard_event<V: VendorApi>(vendor: &V, event: CUDAEvent, log: &mut Vec<LogEntry>)
    ensures
        discarded(vendor, event@, lines(*old(log)), lines(*final(log))),
{
    let destroyed = event.destroy(vendor);
    if let Err(e) = destroyed {
        push_line(log, destroy_line(&e));
    }
}

/// Hands an event back to the pool. If the pool is full the event is
/// destroyed instead; a failure to destroy it is logged and goes no further.
pub fn release_event<V: VendorApi>(
    vendor: &V,
    pool: &mut EventPool,
    event: CUDAEvent,
    log: &mut Vec<LogEntry>,
)
    requires
        old(pool).wf(),
    ensures
        final(pool).wf(),
        released(
            vendor,
            event@,
            old(pool)@,
            final(pool)@,
            lines(*old(log)),
            lines(*final(log)),
        ),
{
    let r = pool.release(vendor, event);
    if let Release::DestroyFailed(e) = r {
        push_line(log, destroy_line(&e));
    }
    proof {
        if old(pool)@.len() >= crate::monitor::event_pool::EVENT_POOL_CAPACITY {
            let destroyed = choose|destroyed: Result<(), CUDAError>| #[trigger]
                event_destroyed(vendor, event@, destroyed) && r
                    == crate::monitor::event_pool::dropped(destroyed);
        }
    }
}

/// The `Start` line of a task.
fn start_line(task: &TimingTask) -> (r: LogEntry)
    ensures
        r@ == info_line(start_record(task.kern_label@, task.user_label@)),
{
    let message = LogMessage::Start {
        kern_label: task.kern_label.clone(),
        user_label: task.user_label.clone(),
    };
    match message.to_json() {
        Ok(text) => LogEntry::info(text),
        Err(_) => LogEntry::error(String::from_str("Failed to serialize CUDA event")),
    }
}

/// The `Complete` line of a task.
fn complete_line(task: &TimingTask, duration_ms: String) -> (r: LogEntry)
    ensures
        r@ == info_line(complete_record(task.kern_label@, task.user_label@, duration_ms@)),
{
    let message = LogMessage::Complete {
        kern_label: task.kern_label.clone(),
        user_label: task.user_label.clone(),
        duration_ms,
    };
    match message.to_json() {
        Ok(text) => LogEntry::info(text),
        Err(_) => LogEntry::error(String::from_str("Failed to serialize CUDA event")),
    }
}

/// An error line made of a prefix and the text of a vendor error.
fn failure_line(prefix: &str, e: &CUDAError) -> (r: LogEntry)
    ensures
        r@ == error_line(prefix@ + e.message_text()),
{
    let mut message = String::from_str(prefix);
    message.append(e.message().as_str());
    LogEntry::error(message)
}

/// The line reporting an event that the vendor failed to destroy.
fn destroy_line(e: &CUDAError) -> (r: LogEntry)
    ensures
        r@ == destroy_failed_line(*e),
{
    let mut message = String::from_str("failed to destroy CUDA event: ");
    crate::decimal::push_signed(&mut message, e.code);
    LogEntry::error(message)
}

} // verus!
