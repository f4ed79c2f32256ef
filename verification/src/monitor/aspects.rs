//! Aspects in sequence, and the chain that observes every launch.

use crate::cuda_funcs::{result_status, CUDAError, VendorApi};
use crate::monitor::error::MonitorError;
use crate::monitor::filter::{merge_filter, AspectWithBlock, Filter};
use crate::monitor::kernel_exec_time_aspect::KernelExecTimeAspect;
use crate::monitor::launch_cuda_kernel::LaunchCUDAKernel;
use crate::monitor::logging_aspect::LoggingAspect;
use crate::monitor::monitor_aspect::MonitorAspect;
use crate::monitor::state::{SharedState, ThreadState};
use crate::monitor::thread_local_enabler::ThreadLocalEnabler;
use crate::monitor::{forwarded_and_observed, launch_monitored, outcome_view};
use vstd::prelude::*;

verus! {

/// Two aspects, run one after the other.
pub struct MergeAspects<A, B> {
    pub aspect_a: A,
    pub aspect_b: B,
}

/// The aspect that runs `a`, then `b`.
pub fn merge_aspect<A, B>(a: A, b: B) -> (r: MergeAspects<A, B>)
    ensures
        r.aspect_a == a,
        r.aspect_b == b,
{
    MergeAspects { aspect_a: a, aspect_b: b }
}

impl<V: VendorApi, A: MonitorAspect<V>, B: MonitorAspect<V>> MonitorAspect<V> for MergeAspects<
    A,
    B,
> {
    /// The first aspect's hook runs. If it fails, its error is the result and
    /// the second aspect does not run; what the first one did stays done. If
    /// it succeeds, the second aspect's hook runs on the state that the first
    /// one left, and its result is the result.
    open spec fn before_rel(
        &self,
        vendor: &V,
        launch: LaunchCUDAKernel,
        thread: ThreadState,
        shared: SharedState,
        thread_after: ThreadState,
        shared_after: SharedState,
        r: Result<(), MonitorError>,
    ) -> bool {
        exists|thread_mid: ThreadState, shared_mid: SharedState, first: Result<(), MonitorError>| #[trigger]
            self.aspect_a.before_rel(
                vendor,
                launch,
                thread,
                shared,
                thread_mid,
                shared_mid,
                first,
            ) && match first {
                Err(_) => r == first && thread_after == thread_mid && shared_after == shared_mid,
                Ok(_) => self.aspect_b.before_rel(
                    vendor,
                    launch,
                    thread_mid,
                    shared_mid,
                    thread_after,
                    shared_after,
                    r,
                ),
            }
    }

    /// As for `before_call`, with the `after_call` hooks, in the same order.
    open spec fn after_rel(
        &self,
        vendor: &V,
        launch: LaunchCUDAKernel,
        thread: ThreadState,
        shared: SharedState,
        thread_after: ThreadState,
        shared_after: SharedState,
        r: Result<(), MonitorError>,
    ) -> bool {
        exists|thread_mid: ThreadState, shared_mid: SharedState, first: Result<(), MonitorError>| #[trigger]
            self.aspect_a.after_rel(
                vendor,
                launch,
                thread,
                shared,
                thread_mid,
                shared_mid,
                first,
            ) && match first {
                Err(_) => r == first && thread_after == thread_mid && shared_after == shared_mid,
                Ok(_) => self.aspect_b.after_rel(
                    vendor,
                    launch,
                    thread_mid,
                    shared_mid,
                    thread_after,
                    shared_after,
                    r,
                ),
            }
    }

    fn before_call(
        &self,
        thread: &mut ThreadState,
        shared: &mut SharedState,
        vendor: &V,
        launch: &LaunchCUDAKernel,
    ) -> (r: Result<(), MonitorError>) {
        let first = self.aspect_a.before_call(thread, shared, vendor, launch);
        match first {
            Err(e) => Err(e),
            Ok(_) => self.aspect_b.before_call(thread, shared, vendor, launch),
        }
    }

    fn after_call(
        &self,
        thread: &mut ThreadState,
        shared: &mut SharedState,
        vendor: &V,
        launch: &LaunchCUDAKernel,
    ) -> (r: Result<(), MonitorError>) {
        let first = self.aspect_a.after_call(thread, shared, vendor, launch);
        match first {
            Err(e) => Err(e),
            Ok(_) => self.aspect_b.after_call(thread, shared, vendor, launch),
        }
    }
}

/// The chain that observes every launch: behind the per-thread switch, the
/// announcement of the launch, then the timing of the kernel.
pub type Aspects = AspectWithBlock<
    MergeAspects<LoggingAspect, KernelExecTimeAspect>,
    ThreadLocalEnabler,
>;

/// Builds the chain around the given switch.
pub fn aspects(enabler: ThreadLocalEnabler) -> (r: Aspects)
    ensures
        r.filter == enabler,
{
    let aspect = LoggingAspect {  };
    let aspect = merge_aspect(aspect, KernelExecTimeAspect);
    merge_filter(enabler, aspect)
}

/// On a thread for which observation is switched off, neither hook of the
/// chain does anything beyond the filter: it succeeds, asks nothing of the
/// vendor's state, and leaves both states as they are, but for the value that
/// a thread without one takes on and the line that reports it.
pub proof fn lemma_disabled_hook_is_idle<V: VendorApi>(
    chain: Aspects,
    vendor: &V,
    launch: LaunchCUDAKernel,
    thread: ThreadState,
    shared: SharedState,
    thread_after: ThreadState,
    shared_after: SharedState,
    r: Result<(), MonitorError>,
)
    requires
        !chain.filter.value_for(thread),
        chain.before_rel(vendor, launch, thread, shared, thread_after, shared_after, r)
            || chain.after_rel(vendor, launch, thread, shared, thread_after, shared_after, r),
    ensures
        r is Ok,
        chain.filter.filter_rel(launch, thread, thread_after, false),
        thread.enabled is Some ==> thread.same_but_log(&thread_after) && thread.logged(
            &thread_after,
            Seq::empty(),
        ),
        shared_after == shared,
{
}

/// What `before_call` of the chain leaves when it starts with nothing pending:
/// the thread's switch has a value, and an event is pending exactly when the
/// hook succeeded on a thread that is switched on.
pub proof fn lemma_chain_before_call<V: VendorApi>(
    chain: Aspects,
    vendor: &V,
    launch: LaunchCUDAKernel,
    thread: ThreadState,
    shared: SharedState,
    thread_after: ThreadState,
    shared_after: SharedState,
    r: Result<(), MonitorError>,
)
    requires
        thread.start_event is None,
        chain.before_rel(vendor, launch, thread, shared, thread_after, shared_after, r),
    ensures
        thread_after.enabled == Some(chain.filter.value_for(thread)),
        thread_after.start_event is Some <==> r is Ok && chain.filter.value_for(thread),
{
}

/// What `after_call` of the chain leaves: on a thread that is switched on,
/// nothing pending; on a thread that is switched off, what was pending before.
pub proof fn lemma_chain_after_call<V: VendorApi>(
    chain: Aspects,
    vendor: &V,
    launch: LaunchCUDAKernel,
    thread: ThreadState,
    shared: SharedState,
    thread_after: ThreadState,
    shared_after: SharedState,
    r: Result<(), MonitorError>,
)
    requires
        chain.after_rel(vendor, launch, thread, shared, thread_after, shared_after, r),
    ensures
        thread_after.enabled == Some(chain.filter.value_for(thread)),
        chain.filter.value_for(thread) ==> thread_after.start_event is None,
        !chain.filter.value_for(thread) ==> thread_after.start_event == thread.start_event,
{
}

/// A monitored launch that starts with nothing pending ends with nothing
/// pending, whatever the vendor answers and whether or not the thread is
/// switched on: the switch has the same value in `after_call` as it had in
/// `before_call`, so an event that the one left pending is taken by the other.
pub proof fn lemma_launch_leaves_nothing_pending<V: VendorApi>(
    chain: Aspects,
    vendor: &V,
    launch: LaunchCUDAKernel,
    answers: spec_fn(Result<(), CUDAError>) -> bool,
    thread: ThreadState,
    shared: SharedState,
    thread_after: ThreadState,
    shared_after: SharedState,
    r: Result<i32, String>,
)
    requires
        thread.start_event is None,
        launch_monitored(
            &chain,
            vendor,
            launch,
            answers,
            thread,
            shared,
            thread_after,
            shared_after,
            r,
        ),
    ensures
        thread_after.start_event is None,
        thread_after.enabled == Some(chain.filter.value_for(thread)),
{
    let (thread_mid, shared_mid, before) = choose|
        thread_mid: ThreadState,
        shared_mid: SharedState,
        before: Result<(), MonitorError>,
    | #[trigger]
        chain.before_rel(vendor, launch, thread, shared, thread_mid, shared_mid, before)
            && match before {
            Err(_) => {
                &&& thread_after == thread_mid
                &&& shared_after == shared_mid
                &&& crate::monitor::refusal(before) == Some(outcome_view(r))
            },
            Ok(_) => forwarded_and_observed(
                &chain,
                vendor,
                launch,
                answers,
                thread_mid,
                shared_mid,
                thread_after,
                shared_after,
                r,
            ),
        };
    lemma_chain_before_call(
        chain,
        vendor,
        launch,
        thread,
        shared,
        thread_mid,
        shared_mid,
        before,
    );
    if before is Ok {
        let (forwarded, after) = choose|
            forwarded: Result<(), CUDAError>,
            after: Result<(), MonitorError>,
        |
            #![trigger answers(forwarded), chain.after_rel(vendor, launch, thread_mid, shared_mid, thread_after, shared_after, after)]
            {
                &&& answers(forwarded)
                &&& chain.after_rel(
                    vendor,
                    launch,
                    thread_mid,
                    shared_mid,
                    thread_after,
                    shared_after,
                    after,
                )
                &&& outcome_view(r) == crate::monitor::settlement(forwarded, after)
            };
        lemma_chain_after_call(
            chain,
            vendor,
            launch,
            thread_mid,
            shared_mid,
            thread_after,
            shared_after,
            after,
        );
    }
}

/// On a thread for which observation is switched off, a monitored launch
/// hands back exactly what the vendor answered, enqueues nothing and leaves
/// the shared state as it is. Of the thread's state only the switch can
/// change: a thread without a value takes on the default and reports it.
pub proof fn lemma_disabled_launch_passes_through<V: VendorApi>(
    chain: Aspects,
    vendor: &V,
    launch: LaunchCUDAKernel,
    answers: spec_fn(Result<(), CUDAError>) -> bool,
    thread: ThreadState,
    shared: SharedState,
    thread_after: ThreadState,
    shared_after: SharedState,
    r: Result<i32, String>,
)
    requires
        !chain.filter.value_for(thread),
        launch_monitored(
            &chain,
            vendor,
            launch,
            answers,
            thread,
            shared,
            thread_after,
            shared_after,
            r,
        ),
    ensures
        exists|forwarded: Result<(), CUDAError>| #[trigger]
            answers(forwarded) && outcome_view(r) == Ok::<i32, Seq<char>>(
                result_status(forwarded),
            ),
        chain.filter.filter_rel(launch, thread, thread_after, false),
        thread.enabled is Some ==> thread.same_but_log(&thread_after) && thread.logged(
            &thread_after,
            Seq::empty(),
        ),
        shared_after == shared,
{
    let (thread_mid, shared_mid, before) = choose|
        thread_mid: ThreadState,
        shared_mid: SharedState,
        before: Result<(), MonitorError>,
    | #[trigger]
        chain.before_rel(vendor, launch, thread, shared, thread_mid, shared_mid, before)
            && match before {
            Err(_) => {
                &&& thread_after == thread_mid
                &&& shared_after == shared_mid
                &&& crate::monitor::refusal(before) == Some(outcome_view(r))
            },
            Ok(_) => forwarded_and_observed(
                &chain,
                vendor,
                launch,
                answers,
                thread_mid,
                shared_mid,
                thread_after,
                shared_after,
                r,
            ),
        };
    lemma_disabled_hook_is_idle(
        chain,
        vendor,
        launch,
        thread,
        shared,
        thread_mid,
        shared_mid,
        before,
    );
    let (forwarded, after) = choose|
        forwarded: Result<(), CUDAError>,
        after: Result<(), MonitorError>,
    |
        #![trigger answers(forwarded), chain.after_rel(vendor, launch, thread_mid, shared_mid, thread_after, shared_after, after)]
        {
            &&& answers(forwarded)
            &&& chain.after_rel(
                vendor,
                launch,
                thread_mid,
                shared_mid,
                thread_after,
                shared_after,
                after,
            )
            &&& outcome_view(r) == crate::monitor::settlement(forwarded, after)
        };
    lemma_disabled_hook_is_idle(
        chain,
        vendor,
        launch,
        thread_mid,
        shared_mid,
        thread_after,
        shared_after,
        after,
    );
}

} // verus!
