//! The aspect that times every kernel.
//!
//! Before the launch it records a start event on the launch's stream and
//! keeps it in the thread's pending slot; after the launch it records an end
//! event on the same stream and hands both to the execution-time logger.

use crate::cuda_funcs::{event_created, event_recorded};
use crate::cuda_funcs::{CUDAError, CUDAEvent, VendorApi};
use crate::monitor::error::launch_format_failed;
use crate::monitor::error::{start_event_already_set, start_event_not_set};
use crate::monitor::error::{FormatError, MonitorError};
use crate::monitor::event_logger::{discard_event, discarded, TimingTaskView};
use crate::monitor::launch_cuda_kernel::{lemma_displayed_keeps_names, LaunchCUDAKernel};
use crate::monitor::log_entry::{lines, LogEntryView};
use crate::monitor::monitor_aspect::MonitorAspect;
use crate::monitor::state::{SharedState, ThreadState};
use vstd::prelude::*;

verus! {

/// Times kernels with pairs of vendor events.
pub struct KernelExecTimeAspect;

/// The pool after an event was acquired from it: without its top, or still
/// empty.
pub open spec fn pool_after_acquire(pool: Seq<usize>) -> Seq<usize> {
    if pool.len() > 0 {
        pool.drop_last()
    } else {
        pool
    }
}

/// Whether `event` is what an acquisition from `pool` gives: the top of the
/// pool, or, from an empty pool, an event that the vendor has just created.
pub open spec fn acquired<V: VendorApi>(vendor: &V, pool: Seq<usize>, event: usize) -> bool {
    if pool.len() > 0 {
        event == pool.last()
    } else {
        event_created(vendor, Ok::<CUDAEvent, CUDAError>(CUDAEvent { event }))
    }
}

/// Whether an acquisition from `pool` failed with `e`: the pool was empty and
/// the vendor answered the creation of an event with that error.
pub open spec fn acquisition_failed<V: VendorApi>(
    vendor: &V,
    pool: Seq<usize>,
    e: CUDAError,
) -> bool {
    pool.len() == 0 && event_created(vendor, Err::<CUDAEvent, CUDAError>(e))
}

impl<V: VendorApi> MonitorAspect<V> for KernelExecTimeAspect {
    /// With a start event pending, the hook fails with an internal error and
    /// changes nothing. Otherwise an event is acquired and recorded on the
    /// launch's stream, and the launch is rendered.
    ///
    /// - On success the event is pending and the rendered text is the
    ///   thread's label.
    /// - If the vendor fails to create the event or to record it, its error is
    ///   the result, with its code; if the launch cannot be rendered, the
    ///   result is an internal error. In each of these cases nothing is
    ///   pending, the label is as before, and an event that was acquired is
    ///   discarded.
    ///
    /// The pool loses its top, if it had one. Names are only added. The
    /// logger's queue, the thread's switch and its user label are untouched.
    /// Lines are only added: a warning for a symbol that does not demangle,
    /// an error for an event that the vendor fails to destroy.
    open spec fn before_rel(
        &self,
        vendor: &V,
        launch: LaunchCUDAKernel,
        thread: ThreadState,
        shared: SharedState,
        thread_after: ThreadState,
        shared_after: SharedState,
        r: Result<(), MonitorError>,
    ) -> bool {
        if thread.start_event is Some {
            &&& r matches Err(e) && e.is_internal(start_event_already_set())
            &&& thread_after == thread
            &&& shared_after == shared
        } else {
            &&& thread_after.enabled == thread.enabled
            &&& thread_after.user_label == thread.user_label
            &&& shared_after.logger == shared.logger
            &&& shared.names.kept_by(&shared_after.names)
            &&& shared_after.pool@ == pool_after_acquire(shared.pool@)
            &&& match r {
                Ok(_) => {
                    &&& thread_after.start_event matches Some(event) && acquired(
                        vendor,
                        shared.pool@,
                        event@,
                    ) && event_recorded(vendor, event@, launch.stream(), Ok::<(), CUDAError>(()))
                    &&& exists|text: String| #[trigger]
                        launch.displayed(
                            vendor,
                            &shared.names,
                            &shared_after.names,
                            lines(thread.log),
                            lines(thread_after.log),
                            Ok::<String, FormatError>(text),
                        ) && thread_after.label@ == text@
                },
                Err(MonitorError::CUDAError(e)) => {
                    &&& thread_after.start_event is None
                    &&& thread_after.label == thread.label
                    &&& shared_after.names == shared.names
                    &&& {
                        ||| {
                            &&& acquisition_failed(vendor, shared.pool@, e)
                            &&& thread.logged(&thread_after, Seq::empty())
                        }
                        ||| exists|event: usize| #[trigger]
                            acquired(vendor, shared.pool@, event) && event_recorded(
                                vendor,
                                event,
                                launch.stream(),
                                Err::<(), CUDAError>(e),
                            ) && discarded(
                                vendor,
                                event,
                                lines(thread.log),
                                lines(thread_after.log),
                            )
                    }
                },
                Err(MonitorError::Internal(m)) => {
                    &&& thread_after.start_event is None
                    &&& thread_after.label == thread.label
                    &&& m@ == launch_format_failed()
                    &&& exists|event: usize, shown: Seq<LogEntryView>|
                        #![trigger acquired(vendor, shared.pool@, event), discarded(vendor, event, shown, lines(thread_after.log))]
                        {
                            &&& acquired(vendor, shared.pool@, event)
                            &&& event_recorded(
                                vendor,
                                event,
                                launch.stream(),
                                Ok::<(), CUDAError>(()),
                            )
                            &&& launch.displayed(
                                vendor,
                                &shared.names,
                                &shared_after.names,
                                lines(thread.log),
                                shown,
                                Err::<String, FormatError>(FormatError),
                            )
                            &&& discarded(vendor, event, shown, lines(thread_after.log))
                        }
                },
            }
        }
    }

    /// With no start event pending, the hook fails with an internal error and
    /// changes nothing. Otherwise the pending event is taken, so that nothing
    /// is pending afterwards whatever follows, and an end event is acquired
    /// and recorded on the launch's stream.
    ///
    /// - On success both events go to the back of the logger's queue, with the
    ///   thread's label, which is cleared, and a copy of its user label.
    /// - If the vendor fails to create the end event or to record it, its
    ///   error is the result, with its code. The queue and the label are as
    ///   before and the events at hand are discarded, the start event first.
    ///
    /// With a start event pending the hook never fails with an internal
    /// error.
    ///
    /// The pool loses its top, if it had one. The name caches, the thread's
    /// switch and its user label are untouched.
    open spec fn after_rel(
        &self,
        vendor: &V,
        launch: LaunchCUDAKernel,
        thread: ThreadState,
        shared: SharedState,
        thread_after: ThreadState,
        shared_after: SharedState,
        r: Result<(), MonitorError>,
    ) -> bool {
        if thread.start_event is None {
            &&& r matches Err(e) && e.is_internal(start_event_not_set())
            &&& thread_after == thread
            &&& shared_after == shared
        } else {
            &&& thread_after.start_event is None
            &&& thread_after.enabled == thread.enabled
            &&& thread_after.user_label == thread.user_label
            &&& shared_after.names == shared.names
            &&& shared_after.pool@ == pool_after_acquire(shared.pool@)
            &&& match r {
                Ok(_) => {
                    &&& exists|end: usize| #[trigger]
                        acquired(vendor, shared.pool@, end) && event_recorded(
                            vendor,
                            end,
                            launch.stream(),
                            Ok::<(), CUDAError>(()),
                        ) && shared_after.logger@ == shared.logger@.push(
                            TimingTaskView {
                                start: thread.start_event->0@,
                                end,
                                kern_label: thread.label@,
                                user_label: thread.user_label@,
                            },
                        )
                    &&& thread_after.label@ == Seq::<char>::empty()
                    &&& thread.logged(&thread_after, Seq::empty())
                },
                Err(MonitorError::CUDAError(e)) => {
                    &&& shared_after.logger == shared.logger
                    &&& thread_after.label == thread.label
                    &&& {
                        ||| {
                            &&& acquisition_failed(vendor, shared.pool@, e)
                            &&& discarded(
                                vendor,
                                thread.start_event->0@,
                                lines(thread.log),
                                lines(thread_after.log),
                            )
                        }
                        ||| exists|end: usize, between: Seq<LogEntryView>|
                            #![trigger acquired(vendor, shared.pool@, end), discarded(vendor, end, between, lines(thread_after.log))]
                            {
                                &&& acquired(vendor, shared.pool@, end)
                                &&& event_recorded(
                                    vendor,
                                    end,
                                    launch.stream(),
                                    Err::<(), CUDAError>(e),
                                )
                                &&& discarded(
                                    vendor,
                                    thread.start_event->0@,
                                    lines(thread.log),
                                    between,
                                )
                                &&& discarded(vendor, end, between, lines(thread_after.log))
                            }
                    }
                },
                Err(MonitorError::Internal(_)) => false,
            }
        }
    }

    fn before_call(
        &self,
        thread: &mut ThreadState,
        shared: &mut SharedState,
        vendor: &V,
        launch: &LaunchCUDAKernel,
    ) -> (r: Result<(), MonitorError>) {
        if thread.start_event.is_some() {
            return Err(MonitorError::internal("START_EVENT is already set"));
        }
        let event = match shared.pool.acquire(vendor) {
            Ok(event) => event,
            Err(e) => {
                return Err(MonitorError::CUDAError(e));
            },
        };
        assert(acquired(vendor, old(shared).pool@, event@));
        if let Err(e) = event.record(vendor, launch.stream()) {
            discard_event(vendor, event, &mut thread.log);
            return Err(MonitorError::CUDAError(e));
        }
        let rendered = launch.display(&mut shared.names, vendor, &mut thread.log);
        let ghost shown = lines(thread.log);
        proof {
            lemma_displayed_keeps_names(
                *launch,
                vendor,
                &old(shared).names,
                &shared.names,
                lines(old(thread).log),
                shown,
                rendered,
            );
        }
        match rendered {
            Ok(text) => {
                thread.label = text;
                thread.start_event = Some(event);
                assert(launch.displayed(
                    vendor,
                    &old(shared).names,
                    &shared.names,
                    lines(old(thread).log),
                    lines(thread.log),
                    Ok::<String, FormatError>(text),
                ));
                Ok(())
            },
            Err(_) => {
                discard_event(vendor, event, &mut thread.log);
                Err(MonitorError::internal("failed to format the launch"))
            },
        }
    }

    fn after_call(
        &self,
        thread: &mut ThreadState,
        shared: &mut SharedState,
        vendor: &V,
        launch: &LaunchCUDAKernel,
    ) -> (r: Result<(), MonitorError>) {
        let begin = match thread.start_event.take() {
            Some(begin) => begin,
            None => {
                return Err(MonitorError::internal("START_EVENT is not set"));
            },
        };
        let end = match shared.pool.acquire(vendor) {
            Ok(end) => end,
            Err(e) => {
                discard_event(vendor, begin, &mut thread.log);
                return Err(MonitorError::CUDAError(e));
            },
        };
        if let Err(e) = end.record(vendor, launch.stream()) {
            discard_event(vendor, begin, &mut thread.log);
            let ghost between = lines(thread.log);
            discard_event(vendor, end, &mut thread.log);
            assert(acquired(vendor, old(shared).pool@, end@) && discarded(
                vendor,
                end@,
                between,
                lines(thread.log),
            ));
            return Err(MonitorError::CUDAError(e));
        }
        let mut label = String::new();
        std::mem::swap(&mut thread.label, &mut label);
        let user_label = thread.user_label.clone();
        shared.logger.add_event(begin, end, label, user_label);
        Ok(())
    }
}

/// Whatever `after_call` finds and whatever the vendor answers, no start event
/// is pending when it returns.
pub proof fn lemma_after_call_leaves_nothing_pending<V: VendorApi>(
    vendor: &V,
    launch: LaunchCUDAKernel,
    thread: ThreadState,
    shared: SharedState,
    thread_after: ThreadState,
    shared_after: SharedState,
    r: Result<(), MonitorError>,
)
    requires
        KernelExecTimeAspect.after_rel(
            vendor,
            launch,
            thread,
            shared,
            thread_after,
            shared_after,
            r,
        ),
    ensures
        thread_after.start_event is None,
{
}

/// A `before_call` that starts with nothing pending leaves an event pending
/// exactly when it succeeds. In particular, when the vendor fails to create
/// or to record the start event, nothing is pending afterwards.
pub proof fn lemma_before_call_pends_iff_ok<V: VendorApi>(
    vendor: &V,
    launch: LaunchCUDAKernel,
    thread: ThreadState,
    shared: SharedState,
    thread_after: ThreadState,
    shared_after: SharedState,
    r: Result<(), MonitorError>,
)
    requires
        thread.start_event is None,
        KernelExecTimeAspect.before_rel(
            vendor,
            launch,
            thread,
            shared,
            thread_after,
            shared_after,
            r,
        ),
    ensures
        thread_after.start_event is Some <==> r is Ok,
{
}

/// Sets the label under which the thread's kernels are logged from now on.
pub fn set_kernel_exec_time_user_label(thread: &mut ThreadState, label: &str)
    ensures
        final(thread).user_label@ == label@,
        final(thread).enabled == old(thread).enabled,
        final(thread).start_event == old(thread).start_event,
        final(thread).label == old(thread).label,
        final(thread).log == old(thread).log,
{
    thread.user_label = String::from_str(label);
}

} // verus!
