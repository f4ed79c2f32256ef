//! The state that the aspects work on.
//!
//! [`ThreadState`] belongs to one host thread and is never shared.
//! [`SharedState`] exists once per process; the host serialises access to it.

use crate::cuda_funcs::{CUDAError, CUDAEvent, VendorApi};
use crate::monitor::event_logger::{EventLogger, TimingTaskView};
use crate::monitor::event_pool::EventPool;
use crate::monitor::launch_cuda_kernel::{FuncNameView, KernelNames};
use crate::monitor::log_entry::{lines, LogEntry, LogEntryView};
use vstd::prelude::*;

verus! {

/// What one host thread keeps between calls.
pub struct ThreadState {
    /// Whether launches of this thread are observed. `None` until the first
    /// launch or the first explicit setting.
    pub enabled: Option<bool>,
    /// The start event of the launch that is under way, if any.
    pub start_event: Option<CUDAEvent>,
    /// The display form of the launch that is under way.
    pub label: String,
    /// The label that the host set for this thread's kernels.
    pub user_label: String,
    /// The lines that wait to be handed to the sink.
    pub log: Vec<LogEntry>,
}

impl ThreadState {
    /// The state of a thread that has launched nothing yet.
    pub fn new() -> (r: ThreadState)
        ensures
            r.enabled is None,
            r.start_event is None,
            r.label@ == Seq::<char>::empty(),
            r.user_label@ == Seq::<char>::empty(),
            lines(r.log) == Seq::<LogEntryView>::empty(),
    {
        let r = ThreadState {
            enabled: None,
            start_event: None,
            label: String::new(),
            user_label: String::new(),
            log: Vec::new(),
        };
        r
    }

    /// Whether `later` differs from `self` in nothing but its lines.
    pub open spec fn same_but_log(&self, later: &ThreadState) -> bool {
        &&& later.enabled == self.enabled
        &&& later.start_event == self.start_event
        &&& later.label == self.label
        &&& later.user_label == self.user_label
    }

    /// Whether `later` has the lines of `self` and then `added`.
    pub open spec fn logged(&self, later: &ThreadState, added: Seq<LogEntryView>) -> bool {
        lines(later.log) =~= lines(self.log) + added
    }

    /// Takes the lines that wait for the sink, oldest first, and leaves none.
    pub fn take_log(&mut self) -> (taken: Vec<LogEntry>)
        ensures
            lines(taken) == lines(old(self).log),
            lines(final(self).log) == Seq::<LogEntryView>::empty(),
            old(self).same_but_log(final(self)),
    {
        let mut taken: Vec<LogEntry> = Vec::new();
        std::mem::swap(&mut self.log, &mut taken);
        taken
    }
}

/// What the process keeps: the name caches, the event pool and the queue of
/// the execution-time logger.
pub struct SharedState {
    pub names: KernelNames,
    pub pool: EventPool,
    pub logger: EventLogger,
}

impl SharedState {
    /// The pool keeps its bound.
    pub open spec fn wf(&self) -> bool {
        self.pool.wf()
    }

    /// Empty caches, an empty queue, and the given pool.
    pub fn with_pool(pool: EventPool) -> (r: SharedState)
        requires
            pool.wf(),
        ensures
            r.wf(),
            r.pool == pool,
            r.logger@ == Seq::<TimingTaskView>::empty(),
            r.names.runtime@ == Map::<usize, FuncNameView>::empty(),
            r.names.driver@ == Map::<usize, FuncNameView>::empty(),
    {
        SharedState { names: KernelNames::new(), pool, logger: EventLogger::new() }
    }

    /// Empty caches, an empty queue, and a pool filled with fresh events.
    /// Fails if the vendor fails to create one of them.
    pub fn new<V: VendorApi>(vendor: &V) -> (r: Result<SharedState, CUDAError>)
        ensures
            match r {
                Ok(s) => {
                    &&& s.wf()
                    &&& s.pool@.len() == crate::monitor::event_pool::EVENT_POOL_CAPACITY
                    &&& s.logger@ == Seq::<TimingTaskView>::empty()
                    &&& s.names.runtime@ == Map::<usize, FuncNameView>::empty()
                    &&& s.names.driver@ == Map::<usize, FuncNameView>::empty()
                },
                Err(e) => crate::cuda_funcs::event_created(
                    vendor,
                    Err::<CUDAEvent, CUDAError>(e),
                ),
            },
    {
        match EventPool::new(vendor) {
            Ok(pool) => Ok(SharedState::with_pool(pool)),
            Err(e) => Err(e),
        }
    }
}

} // verus!
