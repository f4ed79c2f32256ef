//! The aspects that observe a launch, the state they work on, and the
//! function that wraps a launch in them.

pub mod aspects;
pub mod error;
pub mod event_logger;
pub mod event_pool;
pub mod filter;
pub mod kernel_exec_time_aspect;
pub mod launch_cuda_kernel;
pub mod log_entry;
pub mod logging_aspect;
pub mod monitor_aspect;
pub mod state;
pub mod thread_local_enabler;

pub use crate::monitor::kernel_exec_time_aspect::set_kernel_exec_time_user_label;
pub use crate::monitor::launch_cuda_kernel::LaunchCUDAKernel;
pub use crate::monitor::thread_local_enabler::set_hang_detection_enabled;

use crate::cuda_funcs::{result_status, status_code, CUDAError, VendorApi};
use crate::monitor::error::MonitorError;
use crate::monitor::monitor_aspect::MonitorAspect;
use crate::monitor::state::{SharedState, ThreadState};
use vstd::prelude::*;

verus! {

/// The content of what a monitored launch hands back: the status for the
/// host, or the message with which the process is to stop.
pub open spec fn outcome_view(r: Result<i32, String>) -> Result<i32, Seq<char>> {
    match r {
        Ok(code) => Ok(code),
        Err(message) => Err(message@),
    }
}

/// What a failed `before_call` means for the launch: a vendor error is handed
/// to the host as the launch's status, an internal error stops the process.
/// `None` when `before_call` succeeded and the launch goes ahead.
pub open spec fn refusal(before: Result<(), MonitorError>) -> Option<Result<i32, Seq<char>>> {
    match before {
        Ok(_) => None,
        Err(MonitorError::CUDAError(e)) => Some(Ok(e.code)),
        Err(MonitorError::Internal(m)) => Some(
            Err("monitor before call internal error: "@ + m@),
        ),
    }
}

/// What a forwarded launch hands back: the vendor's status if `after_call`
/// succeeded; the code of `after_call`'s vendor error in place of it if there
/// is one; the message to stop with on an internal error.
pub open spec fn settlement(forwarded: Result<(), CUDAError>, after: Result<(), MonitorError>) -> Result<
    i32,
    Seq<char>,
> {
    match after {
        Ok(_) => Ok(result_status(forwarded)),
        Err(MonitorError::CUDAError(e)) => Ok(e.code),
        Err(MonitorError::Internal(m)) => Err("monitor after call internal error: "@ + m@),
    }
}

/// Decides from the result of `before_call` whether the launch goes ahead
/// (`None`) or what is handed back instead.
pub fn refuse(before: Result<(), MonitorError>) -> (r: Option<Result<i32, String>>)
    ensures
        match r {
            Some(outcome) => refusal(before) == Some(outcome_view(outcome)),
            None => refusal(before) is None,
        },
{
    match before {
        Ok(_) => None,
        Err(MonitorError::CUDAError(e)) => Some(Ok(e.code)),
        Err(MonitorError::Internal(m)) => {
            let mut message = String::from_str("monitor before call internal error: ");
            message.append(m.as_str());
            Some(Err(message))
        },
    }
}

/// Decides from the vendor's answer to the launch and the result of
/// `after_call` what is handed back.
pub fn settle(forwarded: Result<(), CUDAError>, after: Result<(), MonitorError>) -> (r: Result<
    i32,
    String,
>)
    ensures
        outcome_view(r) == settlement(forwarded, after),
{
    match after {
        Ok(_) => Ok(status_code(&forwarded)),
        Err(MonitorError::CUDAError(e)) => Ok(e.code),
        Err(MonitorError::Internal(m)) => {
            let mut message = String::from_str("monitor after call internal error: ");
            message.append(m.as_str());
            Err(message)
        },
    }
}

/// What happens from the forwarding of a launch on: the vendor answers, then
/// `after_call` runs on the state that `before_call` left. `answers` says
/// which answers the forwarding call can give.
pub open spec fn forwarded_and_observed<V: VendorApi, A: MonitorAspect<V>>(
    aspects: &A,
    vendor: &V,
    launch: LaunchCUDAKernel,
    answers: spec_fn(Result<(), CUDAError>) -> bool,
    thread: ThreadState,
    shared: SharedState,
    thread_after: ThreadState,
    shared_after: SharedState,
    r: Result<i32, String>,
) -> bool {
    exists|forwarded: Result<(), CUDAError>, after: Result<(), MonitorError>|
        #![trigger answers(forwarded), aspects.after_rel(vendor, launch, thread, shared, thread_after, shared_after, after)]
        {
            &&& answers(forwarded)
            &&& aspects.after_rel(vendor, launch, thread, shared, thread_after, shared_after, after)
            &&& outcome_view(r) == settlement(forwarded, after)
        }
}

/// What a monitored launch does. `before_call` runs. If it fails, the launch
/// is not forwarded and the failure decides what is handed back. Otherwise
/// the launch is forwarded and `after_call` runs, whatever the vendor
/// answered.
pub open spec fn launch_monitored<V: VendorApi, A: MonitorAspect<V>>(
    aspects: &A,
    vendor: &V,
    launch: LaunchCUDAKernel,
    answers: spec_fn(Result<(), CUDAError>) -> bool,
    thread: ThreadState,
    shared: SharedState,
    thread_after: ThreadState,
    shared_after: SharedState,
    r: Result<i32, String>,
) -> bool {
    exists|thread_mid: ThreadState, shared_mid: SharedState, before: Result<(), MonitorError>| #[trigger]
        aspects.before_rel(vendor, launch, thread, shared, thread_mid, shared_mid, before)
            && match before {
            Err(_) => {
                &&& thread_after == thread_mid
                &&& shared_after == shared_mid
                &&& refusal(before) == Some(outcome_view(r))
            },
            Ok(_) => forwarded_and_observed(
                aspects,
                vendor,
                launch,
                answers,
                thread_mid,
                shared_mid,
                thread_after,
                shared_after,
                r,
            ),
        }
}

/// Wraps a launch in the aspects: `before_call`, then the launch itself,
/// which `f` forwards to the vendor, then `after_call`.
///
/// The result is the status for the host, or, when an aspect reports an
/// internal error, the message with which the process is to stop.
///
/// The launch is forwarded only after `before_call` has succeeded: `f` has to
/// be callable only in a state that a successful `before_call` can leave, so
/// a launch whose `before_call` fails is never forwarded.
pub fn monitor_launch_cuda_kernel<V: VendorApi, A: MonitorAspect<V>, F: FnOnce() -> Result<
    (),
    CUDAError,
>>(
    aspects: &A,
    thread: &mut ThreadState,
    shared: &mut SharedState,
    vendor: &V,
    launch: LaunchCUDAKernel,
    f: F,
) -> (r: Result<i32, String>)
    requires
        old(shared).wf(),
        forall|thread_mid: ThreadState, shared_mid: SharedState, before: Result<(), MonitorError>|
            #[trigger] aspects.before_rel(
                vendor,
                launch,
                *old(thread),
                *old(shared),
                thread_mid,
                shared_mid,
                before,
            ) && before is Ok ==> f.requires(()),
    ensures
        final(shared).wf(),
        launch_monitored(
            aspects,
            vendor,
            launch,
            |forwarded: Result<(), CUDAError>| f.ensures((), forwarded),
            *old(thread),
            *old(shared),
            *final(thread),
            *final(shared),
            r,
        ),
{
    let ghost answers = |forwarded: Result<(), CUDAError>| f.ensures((), forwarded);
    let before = aspects.before_call(thread, shared, vendor, &launch);
    let ghost thread_mid = *thread;
    let ghost shared_mid = *shared;
    if let Some(outcome) = refuse(before) {
        return outcome;
    }
    assert(before is Ok);
    let forwarded = f();
    let after = aspects.after_call(thread, shared, vendor, &launch);
    assert(answers(forwarded) && aspects.after_rel(
        vendor,
        launch,
        thread_mid,
        shared_mid,
        *thread,
        *shared,
        after,
    ));
    settle(forwarded, after)
}

/// A monitored launch stays one when more answers are allowed to the
/// forwarding call.
pub proof fn lemma_launch_monitored_weaken<V: VendorApi, A: MonitorAspect<V>>(
    aspects: &A,
    vendor: &V,
    launch: LaunchCUDAKernel,
    answers: spec_fn(Result<(), CUDAError>) -> bool,
    wider: spec_fn(Result<(), CUDAError>) -> bool,
    thread: ThreadState,
    shared: SharedState,
    thread_after: ThreadState,
    shared_after: SharedState,
    r: Result<i32, String>,
)
    requires
        forall|forwarded: Result<(), CUDAError>| #[trigger]
            answers(forwarded) ==> wider(forwarded),
        launch_monitored(
            aspects,
            vendor,
            launch,
            answers,
            thread,
            shared,
            thread_after,
            shared_after,
            r,
        ),
    ensures
        launch_monitored(
            aspects,
            vendor,
            launch,
            wider,
            thread,
            shared,
            thread_after,
            shared_after,
            r,
        ),
{
    let (thread_mid, shared_mid, before) = choose|
        thread_mid: ThreadState,
        shared_mid: SharedState,
        before: Result<(), MonitorError>,
    | #[trigger]
        aspects.before_rel(vendor, launch, thread, shared, thread_mid, shared_mid, before)
            && match before {
            Err(_) => {
                &&& thread_after == thread_mid
                &&& shared_after == shared_mid
                &&& refusal(before) == Some(outcome_view(r))
            },
            Ok(_) => forwarded_and_observed(
                aspects,
                vendor,
                launch,
                answers,
                thread_mid,
                shared_mid,
                thread_after,
                shared_after,
                r,
            ),
        };
    if before is Ok {
        let (forwarded, after) = choose|
            forwarded: Result<(), CUDAError>,
            after: Result<(), MonitorError>,
        |
            #![trigger answers(forwarded), aspects.after_rel(vendor, launch, thread_mid, shared_mid, thread_after, shared_after, after)]
            {
                &&& answers(forwarded)
                &&& aspects.after_rel(
                    vendor,
                    launch,
                    thread_mid,
                    shared_mid,
                    thread_after,
                    shared_after,
                    after,
                )
                &&& outcome_view(r) == settlement(forwarded, after)
            };
    }
}

/// When `before_call` and `after_call` both succeed, what is handed back is
/// the vendor's status, unchanged, whether it reports success or failure.
pub proof fn lemma_status_passes_through(status: i32)
    ensures
        refusal(Ok(())) is None,
        settlement(crate::cuda_funcs::status_result(status), Ok(())) == Ok::<i32, Seq<char>>(
            status,
        ),
{
}

/// A vendor error of `after_call` takes the place of the vendor's answer to
/// the launch, and a vendor error of `before_call` is handed back without the
/// launch being forwarded.
pub proof fn lemma_aspect_error_is_handed_back(forwarded: Result<(), CUDAError>, e: CUDAError)
    ensures
        refusal(Err(MonitorError::CUDAError(e))) == Some(Ok::<i32, Seq<char>>(e.code)),
        settlement(forwarded, Err(MonitorError::CUDAError(e))) == Ok::<i32, Seq<char>>(e.code),
{
}

} // verus!
