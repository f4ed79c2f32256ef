//! Aspects behind a gate.

use crate::cuda_funcs::VendorApi;
use crate::monitor::error::MonitorError;
use crate::monitor::launch_cuda_kernel::LaunchCUDAKernel;
use crate::monitor::monitor_aspect::MonitorAspect;
use crate::monitor::state::{SharedState, ThreadState};
use vstd::prelude::*;

verus! {

/// A predicate on launches, evaluated on the launching thread. Evaluating it
/// may change the thread's state; the relation says how.
pub trait Filter {
    /// What `filter` does. A filter that states nothing promises nothing.
    open spec fn filter_rel(
        &self,
        launch: LaunchCUDAKernel,
        thread: ThreadState,
        thread_after: ThreadState,
        r: bool,
    ) -> bool {
        true
    }

    /// Whether the launch is to be observed.
    fn filter(&self, thread: &mut ThreadState, launch: &LaunchCUDAKernel) -> (r: bool)
        ensures
            self.filter_rel(*launch, *old(thread), *final(thread), r),
    ;
}

/// An aspect that runs only for the launches that a filter lets through.
pub struct AspectWithBlock<A, F> {
    pub aspect: A,
    pub filter: F,
}

/// Puts `other` behind the filter `f`.
pub fn merge_filter<F, A>(f: F, other: A) -> (r: AspectWithBlock<A, F>)
    ensures
        r.aspect == other,
        r.filter == f,
{
    AspectWithBlock { aspect: other, filter: f }
}

impl<V: VendorApi, A: MonitorAspect<V>, F: Filter> MonitorAspect<V> for AspectWithBlock<A, F> {
    /// The filter is evaluated; if it lets the launch through, the inner
    /// aspect's hook runs on the state that the filter left, else the hook
    /// succeeds and changes nothing more.
    open spec fn before_rel(
        &self,
        vendor: &V,
        launch: LaunchCUDAKernel,
        thread: ThreadState,
        shared: SharedState,
        thread_after: ThreadState,
        shared_after: SharedState,
        r: Result<(), MonitorError>,
    ) -> bool {
        exists|thread_mid: ThreadState, pass: bool| #[trigger]
            self.filter.filter_rel(launch, thread, thread_mid, pass) && if pass {
                self.aspect.before_rel(
                    vendor,
                    launch,
                    thread_mid,
                    shared,
                    thread_after,
                    shared_after,
                    r,
                )
            } else {
                r is Ok && thread_after == thread_mid && shared_after == shared
            }
    }

    /// As for `before_call`, with the inner aspect's `after_call`.
    open spec fn after_rel(
        &self,
        vendor: &V,
        launch: LaunchCUDAKernel,
        thread: ThreadState,
        shared: SharedState,
        thread_after: ThreadState,
        shared_after: SharedState,
        r: Result<(), MonitorError>,
    ) -> bool {
        exists|thread_mid: ThreadState, pass: bool| #[trigger]
            self.filter.filter_rel(launch, thread, thread_mid, pass) && if pass {
                self.aspect.after_rel(
                    vendor,
                    launch,
                    thread_mid,
                    shared,
                    thread_after,
                    shared_after,
                    r,
                )
            } else {
                r is Ok && thread_after == thread_mid && shared_after == shared
            }
    }

    fn before_call(
        &self,
        thread: &mut ThreadState,
        shared: &mut SharedState,
        vendor: &V,
        launch: &LaunchCUDAKernel,
    ) -> (r: Result<(), MonitorError>) {
        let pass = self.filter.filter(thread, launch);
        if pass {
            self.aspect.before_call(thread, shared, vendor, launch)
        } else {
            Ok(())
        }
    }

    fn after_call(
        &self,
        thread: &mut ThreadState,
        shared: &mut SharedState,
        vendor: &V,
        launch: &LaunchCUDAKernel,
    ) -> (r: Result<(), MonitorError>) {
        let pass = self.filter.filter(thread, launch);
        if pass {
            self.aspect.after_call(thread, shared, vendor, launch)
        } else {
            Ok(())
        }
    }
}

} // verus!
