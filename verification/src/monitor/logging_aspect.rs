//! The aspect that announces every launch.

use crate::cuda_funcs::VendorApi;
use crate::monitor::error::{launch_format_failed, FormatError, MonitorError};
use crate::monitor::launch_cuda_kernel::LaunchCUDAKernel;
use crate::monitor::log_entry::{info_line, lines, push_line, LogEntry, LogEntryView};
use crate::monitor::monitor_aspect::MonitorAspect;
use crate::monitor::state::{SharedState, ThreadState};
use vstd::prelude::*;

verus! {

/// Writes one info line per launch.
pub struct LoggingAspect {}

/// The line that announces a launch with the given display form.
pub open spec fn launching_line(display: Seq<char>) -> LogEntryView {
    info_line("Launching CUDA kernel: "@ + display)
}

impl<V: VendorApi> MonitorAspect<V> for LoggingAspect {
    /// The launch is rendered, which may add a name to the caches and write a
    /// warning. If that succeeds, one more line announces the launch; if not,
    /// the hook fails with an internal error. Nothing else changes.
    open spec fn before_rel(
        &self,
        vendor: &V,
        launch: LaunchCUDAKernel,
        thread: ThreadState,
        shared: SharedState,
        thread_after: ThreadState,
        shared_after: SharedState,
        r: Result<(), MonitorError>,
    ) -> bool {
        &&& thread.same_but_log(&thread_after)
        &&& shared_after.pool == shared.pool
        &&& shared_after.logger == shared.logger
        &&& exists|rendered: Result<String, FormatError>, shown: Seq<LogEntryView>|
            #![trigger launch.displayed(vendor, &shared.names, &shared_after.names, lines(thread.log), shown, rendered)]
            launch.displayed(
                vendor,
                &shared.names,
                &shared_after.names,
                lines(thread.log),
                shown,
                rendered,
            ) && match rendered {
                Ok(text) => r is Ok && lines(thread_after.log) =~= shown.push(
                    launching_line(text@),
                ),
                Err(_) => {
                    &&& r matches Err(e) && e.is_internal(launch_format_failed())
                    &&& lines(thread_after.log) =~= shown
                },
            }
    }

    /// Nothing happens after the launch.
    open spec fn after_rel(
        &self,
        vendor: &V,
        launch: LaunchCUDAKernel,
        thread: ThreadState,
        shared: SharedState,
        thread_after: ThreadState,
        shared_after: SharedState,
        r: Result<(), MonitorError>,
    ) -> bool {
        &&& r is Ok
        &&& thread_after == thread
        &&& shared_after == shared
    }

    fn before_call(
        &self,
        thread: &mut ThreadState,
        shared: &mut SharedState,
        vendor: &V,
        launch: &LaunchCUDAKernel,
    ) -> (r: Result<(), MonitorError>) {
        let rendered = launch.display(&mut shared.names, vendor, &mut thread.log);
        let ghost shown = lines(thread.log);
        assert(launch.displayed(
            vendor,
            &old(shared).names,
            &shared.names,
            lines(old(thread).log),
            shown,
            rendered,
        ));
        match rendered {
            Ok(text) => {
                let mut message = String::from_str("Launching CUDA kernel: ");
                message.append(text.as_str());
                push_line(&mut thread.log, LogEntry::info(message));
                Ok(())
            },
            Err(_) => Err(MonitorError::internal("failed to format the launch")),
        }
    }

    fn after_call(
        &self,
        thread: &mut ThreadState,
        shared: &mut SharedState,
        vendor: &V,
        launch: &LaunchCUDAKernel,
    ) -> (r: Result<(), MonitorError>) {
        Ok(())
    }
}

} // verus!
