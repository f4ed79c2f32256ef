//! What an aspect is.

use crate::cuda_funcs::VendorApi;
use crate::monitor::error::MonitorError;
use crate::monitor::launch_cuda_kernel::LaunchCUDAKernel;
use crate::monitor::state::{SharedState, ThreadState};
use vstd::prelude::*;

verus! {

/// A pair of hooks around an intercepted launch, for a vendor binding `V`.
///
/// Each hook comes with a relation between the state before the call, the
/// state after it and the result. An implementation chooses its relations and
/// proves that its hooks keep them; combinators state theirs in terms of those
/// of their parts.
pub trait MonitorAspect<V: VendorApi> {
    /// What `before_call` does. An aspect that states nothing promises
    /// nothing.
    open spec fn before_rel(
        &self,
        vendor: &V,
        launch: LaunchCUDAKernel,
        thread: ThreadState,
        shared: SharedState,
        thread_after: ThreadState,
        shared_after: SharedState,
        r: Result<(), MonitorError>,
    ) -> bool {
        true
    }

    /// What `after_call` does. An aspect that states nothing promises
    /// nothing.
    open spec fn after_rel(
        &self,
        vendor: &V,
        launch: LaunchCUDAKernel,
        thread: ThreadState,
        shared: SharedState,
        thread_after: ThreadState,
        shared_after: SharedState,
        r: Result<(), MonitorError>,
    ) -> bool {
        true
    }

    /// Runs before the launch is forwarded to the vendor.
    fn before_call(
        &self,
        thread: &mut ThreadState,
        shared: &mut SharedState,
        vendor: &V,
        launch: &LaunchCUDAKernel,
    ) -> (r: Result<(), MonitorError>)
        requires
            old(shared).wf(),
        ensures
            final(shared).wf(),
            self.before_rel(
                vendor,
                *launch,
                *old(thread),
                *old(shared),
                *final(thread),
                *final(shared),
                r,
            ),
    ;

    /// Runs after the vendor has returned from the launch.
    fn after_call(
        &self,
        thread: &mut ThreadState,
        shared: &mut SharedState,
        vendor: &V,
        launch: &LaunchCUDAKernel,
    ) -> (r: Result<(), MonitorError>)
        requires
            old(shared).wf(),
        ensures
            final(shared).wf(),
            self.after_rel(
                vendor,
                *launch,
                *old(thread),
                *old(shared),
                *final(thread),
                *final(shared),
                r,
            ),
    ;
}

} // verus!
