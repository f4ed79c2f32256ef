//! Observation pipeline around GPU kernel launches.
//!
//! Every intercepted launch is wrapped by a chain of aspects that announce the
//! launch and time the kernel with a pair of vendor timing events. The vendor
//! is reached through [`cuda_funcs::VendorApi`]; the state of the pipeline is
//! passed in by the host, which keeps one [`monitor::state::ThreadState`] per
//! thread and one [`monitor::state::SharedState`] per process.
//!
//! The functions of this file are the entry points: one per interposed
//! launch, and the two settings.

pub mod cuda_funcs;
pub mod decimal;
pub mod logger;
pub mod monitor;

use crate::cuda_funcs::{cu_kernel_launched, cu_kernel_launched_ex};
use crate::cuda_funcs::{cuda_kernel_launched, cuda_kernel_launched_ex_c};
use crate::cuda_funcs::{launch_cu_kernel, launch_cu_kernel_ex};
use crate::cuda_funcs::{launch_cuda_kernel, launch_cuda_kernel_ex_c};
use crate::cuda_funcs::{CUDAError, CuLaunchConfig, CudaLaunchConfig, Dim3, VendorApi};
use crate::monitor::kernel_exec_time_aspect::set_kernel_exec_time_user_label;
use crate::monitor::launch_cuda_kernel::LaunchCUDAKernel;
use crate::monitor::log_entry::{lines, push_line, warn_line, LogEntry};
use crate::monitor::monitor_aspect::MonitorAspect;
use crate::monitor::state::{SharedState, ThreadState};
use crate::monitor::thread_local_enabler::set_hang_detection_enabled;
use crate::monitor::{launch_monitored, lemma_launch_monitored_weaken, monitor_launch_cuda_kernel};
use vstd::prelude::*;
use vstd::string::StringSliceAdditionalSpecFns;
use vstd::utf8::{decode_utf8, valid_utf8};

verus! {

/// Runtime launch, positional form: observed as a runtime launch of `func` on
/// `stream`, forwarded with every argument unchanged.
#[allow(non_snake_case)]
pub fn cudaLaunchKernel<V: VendorApi, A: MonitorAspect<V>>(
    aspects: &A,
    thread: &mut ThreadState,
    shared: &mut SharedState,
    vendor: &V,
    func: usize,
    grid_dim: Dim3,
    block_dim: Dim3,
    args: usize,
    shared_mem: usize,
    stream: usize,
) -> (r: Result<i32, String>)
    requires
        old(shared).wf(),
    ensures
        final(shared).wf(),
        launch_monitored(
            aspects,
            vendor,
            LaunchCUDAKernel::Runtime { func, stream },
            |forwarded: Result<(), CUDAError>|
                cuda_kernel_launched(
                    vendor,
                    func,
                    grid_dim,
                    block_dim,
                    args,
                    shared_mem,
                    stream,
                    forwarded,
                ),
            *old(thread),
            *old(shared),
            *final(thread),
            *final(shared),
            r,
        ),
{
    let launch = LaunchCUDAKernel::Runtime { func, stream };
    let f = || -> (forwarded: Result<(), CUDAError>)
        ensures
            cuda_kernel_launched(
                vendor,
                func,
                grid_dim,
                block_dim,
                args,
                shared_mem,
                stream,
                forwarded,
            ),
        { launch_cuda_kernel(vendor, func, grid_dim, block_dim, args, shared_mem, stream) };
    let r = monitor_launch_cuda_kernel(aspects, thread, shared, vendor, launch, f);
    proof {
        lemma_launch_monitored_weaken(
            aspects,
            vendor,
            launch,
            |forwarded: Result<(), CUDAError>| f.ensures((), forwarded),
            |forwarded: Result<(), CUDAError>|
                cuda_kernel_launched(
                    vendor,
                    func,
                    grid_dim,
                    block_dim,
                    args,
                    shared_mem,
                    stream,
                    forwarded,
                ),
            *old(thread),
            *old(shared),
            *thread,
            *shared,
            r,
        );
    }
    r
}

/// Runtime launch, extended-config form: observed as a runtime launch of
/// `func` on the stream that the configuration names.
#[allow(non_snake_case)]
pub fn cudaLaunchKernelExC<V: VendorApi, A: MonitorAspect<V>>(
    aspects: &A,
    thread: &mut ThreadState,
    shared: &mut SharedState,
    vendor: &V,
    config: &CudaLaunchConfig,
    func: usize,
    args: usize,
) -> (r: Result<i32, String>)
    requires
        old(shared).wf(),
    ensures
        final(shared).wf(),
        launch_monitored(
            aspects,
            vendor,
            LaunchCUDAKernel::Runtime { func, stream: config.stream },
            |forwarded: Result<(), CUDAError>|
                cuda_kernel_launched_ex_c(vendor, config, func, args, forwarded),
            *old(thread),
            *old(shared),
            *final(thread),
            *final(shared),
            r,
        ),
{
    let launch = LaunchCUDAKernel::Runtime { func, stream: config.stream };
    let f = || -> (forwarded: Result<(), CUDAError>)
        ensures
            cuda_kernel_launched_ex_c(vendor, config, func, args, forwarded),
        { launch_cuda_kernel_ex_c(vendor, config, func, args) };
    let r = monitor_launch_cuda_kernel(aspects, thread, shared, vendor, launch, f);
    proof {
        lemma_launch_monitored_weaken(
            aspects,
            vendor,
            launch,
            |forwarded: Result<(), CUDAError>| f.ensures((), forwarded),
            |forwarded: Result<(), CUDAError>|
                cuda_kernel_launched_ex_c(vendor, config, func, args, forwarded),
            *old(thread),
            *old(shared),
            *thread,
            *shared,
            r,
        );
    }
    r
}

/// Driver launch, positional form: observed as a driver launch of `func` on
/// `stream`, forwarded with every argument unchanged.
#[allow(non_snake_case)]
pub fn cuLaunchKernel<V: VendorApi, A: MonitorAspect<V>>(
    aspects: &A,
    thread: &mut ThreadState,
    shared: &mut SharedState,
    vendor: &V,
    func: usize,
    grid_dim_x: u32,
    grid_dim_y: u32,
    grid_dim_z: u32,
    block_dim_x: u32,
    block_dim_y: u32,
    block_dim_z: u32,
    shared_mem: u32,
    stream: usize,
    kernel_params: usize,
    extra: usize,
) -> (r: Result<i32, String>)
    requires
        old(shared).wf(),
    ensures
        final(shared).wf(),
        launch_monitored(
            aspects,
            vendor,
            LaunchCUDAKernel::Driver { func, stream },
            |forwarded: Result<(), CUDAError>|
                cu_kernel_launched(
                    vendor,
                    func,
                    Dim3 { x: grid_dim_x, y: grid_dim_y, z: grid_dim_z },
                    Dim3 { x: block_dim_x, y: block_dim_y, z: block_dim_z },
                    shared_mem,
                    stream,
                    kernel_params,
                    extra,
                    forwarded,
                ),
            *old(thread),
            *old(shared),
            *final(thread),
            *final(shared),
            r,
        ),
{
    let launch = LaunchCUDAKernel::Driver { func, stream };
    let f = || -> (forwarded: Result<(), CUDAError>)
        ensures
            cu_kernel_launched(
                vendor,
                func,
                Dim3 { x: grid_dim_x, y: grid_dim_y, z: grid_dim_z },
                Dim3 { x: block_dim_x, y: block_dim_y, z: block_dim_z },
                shared_mem,
                stream,
                kernel_params,
                extra,
                forwarded,
            ),
        {
            launch_cu_kernel(
                vendor,
                func,
                grid_dim_x,
                grid_dim_y,
                grid_dim_z,
                block_dim_x,
                block_dim_y,
                block_dim_z,
                shared_mem,
                stream,
                kernel_params,
                extra,
            )
        };
    let r = monitor_launch_cuda_kernel(aspects, thread, shared, vendor, launch, f);
    proof {
        lemma_launch_monitored_weaken(
            aspects,
            vendor,
            launch,
            |forwarded: Result<(), CUDAError>| f.ensures((), forwarded),
            |forwarded: Result<(), CUDAError>|
                cu_kernel_launched(
                    vendor,
                    func,
                    Dim3 { x: grid_dim_x, y: grid_dim_y, z: grid_dim_z },
                    Dim3 { x: block_dim_x, y: block_dim_y, z: block_dim_z },
                    shared_mem,
                    stream,
                    kernel_params,
                    extra,
                    forwarded,
                ),
            *old(thread),
            *old(shared),
            *thread,
            *shared,
            r,
        );
    }
    r
}

/// Driver launch, extended-config form: observed as a driver launch of `func`
/// on the stream that the configuration names.
#[allow(non_snake_case)]
pub fn cuLaunchKernelEx<V: VendorApi, A: MonitorAspect<V>>(
    aspects: &A,
    thread: &mut ThreadState,
    shared: &mut SharedState,
    vendor: &V,
    config: &CuLaunchConfig,
    func: usize,
    args: usize,
) -> (r: Result<i32, String>)
    requires
        old(shared).wf(),
    ensures
        final(shared).wf(),
        launch_monitored(
            aspects,
            vendor,
            LaunchCUDAKernel::Driver { func, stream: config.stream },
            |forwarded: Result<(), CUDAError>|
                cu_kernel_launched_ex(vendor, config, func, args, forwarded),
            *old(thread),
            *old(shared),
            *final(thread),
            *final(shared),
            r,
        ),
{
    let launch = LaunchCUDAKernel::Driver { func, stream: config.stream };
    let f = || -> (forwarded: Result<(), CUDAError>)
        ensures
            cu_kernel_launched_ex(vendor, config, func, args, forwarded),
        { launch_cu_kernel_ex(vendor, config, func, args) };
    let r = monitor_launch_cuda_kernel(aspects, thread, shared, vendor, launch, f);
    proof {
        lemma_launch_monitored_weaken(
            aspects,
            vendor,
            launch,
            |forwarded: Result<(), CUDAError>| f.ensures((), forwarded),
            |forwarded: Result<(), CUDAError>|
                cu_kernel_launched_ex(vendor, config, func, args, forwarded),
            *old(thread),
            *old(shared),
            *thread,
            *shared,
            r,
        );
    }
    r
}

/// Switches observation on or off for the calling thread.
pub fn hangdetect_set_enable(thread: &mut ThreadState, enabled: bool)
    ensures
        final(thread).enabled == Some(enabled),
        final(thread).start_event == old(thread).start_event,
        final(thread).label == old(thread).label,
        final(thread).user_label == old(thread).user_label,
        final(thread).log == old(thread).log,
{
    set_hang_detection_enabled(thread, enabled);
}

/// `core::str::from_utf8`: the string slice made of exactly these bytes when
/// they are valid UTF-8, nothing when they are not.
#[verifier::external_body]
fn utf8_text(bytes: &[u8]) -> (r: Option<&str>)
    ensures
        r is Some <==> valid_utf8(bytes@),
        r matches Some(text) ==> text.spec_bytes() == bytes@,
{
    std::str::from_utf8(bytes).ok()
}

/// The line that reports a label that is not valid UTF-8.
pub open spec fn invalid_label_line() -> crate::monitor::log_entry::LogEntryView {
    warn_line("hangdetect_set_kernel_exec_label: invalid UTF-8 string"@)
}

/// Sets the calling thread's user label from the bytes of a C string, the
/// terminator not included. Without a string (a null pointer) the label
/// becomes empty. Bytes that are not valid UTF-8 leave the label as it is and
/// write a warning.
pub fn hangdetect_set_kernel_exec_label(thread: &mut ThreadState, label: Option<&[u8]>)
    ensures
        final(thread).enabled == old(thread).enabled,
        final(thread).start_event == old(thread).start_event,
        final(thread).label == old(thread).label,
        match label {
            None => {
                &&& final(thread).user_label@ == Seq::<char>::empty()
                &&& final(thread).log == old(thread).log
            },
            Some(bytes) => if valid_utf8(bytes@) {
                &&& final(thread).user_label@ == decode_utf8(bytes@)
                &&& final(thread).log == old(thread).log
            } else {
                &&& final(thread).user_label == old(thread).user_label
                &&& lines(final(thread).log) == lines(old(thread).log).push(invalid_label_line())
            },
        },
{
    match label {
        None => {
            proof {
                reveal_strlit("");
            }
            set_kernel_exec_time_user_label(thread, "");
        },
        Some(bytes) => match utf8_text(bytes) {
            Some(text) => {
                proof {
                    vstd::utf8::encode_utf8_decode_utf8(text@);
                }
                set_kernel_exec_time_user_label(thread, text);
            },
            None => {
                push_line(
                    &mut thread.log,
                    LogEntry::warn(
                        String::from_str("hangdetect_set_kernel_exec_label: invalid UTF-8 string"),
                    ),
                );
            },
        },
    }
}

} // verus!
