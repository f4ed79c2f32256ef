//! The per-thread switch of the observation pipeline.

use crate::monitor::filter::Filter;
use crate::monitor::launch_cuda_kernel::LaunchCUDAKernel;
use crate::monitor::log_entry::{info_line, push_line, LogEntry, LogEntryView};
use crate::monitor::state::ThreadState;
use vstd::prelude::*;

verus! {

/// Whether an option string switches the pipeline on: only `"1"` does.
pub open spec fn option_enables(option: Option<Seq<char>>) -> bool {
    option == Some(seq!['1'])
}

/// Whether an option string, as found in the environment, switches the
/// pipeline on.
pub fn enabled_by_option(option: Option<&str>) -> (r: bool)
    ensures
        r == option_enables(
            match option {
                Some(s) => Some(s@),
                None => None,
            },
        ),
{
    match option {
        Some(s) => {
            let on = s.unicode_len() == 1 && s.get_char(0) == '1';
            assert(on == (s@ =~= seq!['1']));
            on
        },
        None => false,
    }
}

/// The line that reports the value a thread starts with.
pub open spec fn enabled_line(enabled: bool) -> LogEntryView {
    info_line(
        if enabled {
            "HANG_DETECTION_ENABLED [true]"@
        } else {
            "HANG_DETECTION_ENABLED [false]"@
        },
    )
}

/// The filter that lets a launch through when observation is switched on for
/// the launching thread. A thread that has no value yet takes the default and
/// keeps it.
pub struct ThreadLocalEnabler {
    /// The value a thread starts with.
    pub default_enabled: bool,
}

impl ThreadLocalEnabler {
    /// The enabler whose default comes from an option string.
    pub fn new(option: Option<&str>) -> (r: ThreadLocalEnabler)
        ensures
            r.default_enabled == option_enables(
                match option {
                    Some(s) => Some(s@),
                    None => None,
                },
            ),
    {
        ThreadLocalEnabler { default_enabled: enabled_by_option(option) }
    }

    /// The value that the filter gives for a thread in this state.
    pub open spec fn value_for(&self, thread: ThreadState) -> bool {
        match thread.enabled {
            Some(enabled) => enabled,
            None => self.default_enabled,
        }
    }
}

impl Filter for ThreadLocalEnabler {
    /// The result is the thread's value, or the default if it has none; the
    /// thread then has that value. A thread that had no value writes one line
    /// reporting it. Nothing else changes.
    open spec fn filter_rel(
        &self,
        launch: LaunchCUDAKernel,
        thread: ThreadState,
        thread_after: ThreadState,
        r: bool,
    ) -> bool {
        &&& r == self.value_for(thread)
        &&& thread_after.enabled == Some(r)
        &&& thread_after.start_event == thread.start_event
        &&& thread_after.label == thread.label
        &&& thread_after.user_label == thread.user_label
        &&& thread.logged(
            &thread_after,
            if thread.enabled is None {
                seq![enabled_line(r)]
            } else {
                Seq::empty()
            },
        )
    }

    fn filter(&self, thread: &mut ThreadState, launch: &LaunchCUDAKernel) -> (r: bool) {
        match thread.enabled {
            Some(enabled) => enabled,
            None => {
                let enabled = self.default_enabled;
                thread.enabled = Some(enabled);
                let message = if enabled {
                    String::from_str("HANG_DETECTION_ENABLED [true]")
                } else {
                    String::from_str("HANG_DETECTION_ENABLED [false]")
                };
                push_line(&mut thread.log, LogEntry::info(message));
                enabled
            },
        }
    }
}

/// Switches observation on or off for a thread, whatever value it had.
pub fn set_hang_detection_enabled(thread: &mut ThreadState, enabled: bool)
    ensures
        final(thread).enabled == Some(enabled),
        final(thread).start_event == old(thread).start_event,
        final(thread).label == old(thread).label,
        final(thread).user_label == old(thread).user_label,
        final(thread).log == old(thread).log,
{
    thread.enabled = Some(enabled);
}

/// Under a stable per-thread value the filter gives the same answer each time
/// it is asked, and only the first evaluation on a thread writes a line: if a
/// second evaluation starts from the value that the first one left, it returns
/// what the first returned, leaves the value as it is and writes nothing.
pub proof fn lemma_filter_is_stable(
    enabler: ThreadLocalEnabler,
    launch: LaunchCUDAKernel,
    first_before: ThreadState,
    first_after: ThreadState,
    first: bool,
    second_before: ThreadState,
    second_after: ThreadState,
    second: bool,
)
    requires
        enabler.filter_rel(launch, first_before, first_after, first),
        second_before.enabled == first_after.enabled,
        enabler.filter_rel(launch, second_before, second_after, second),
    ensures
        second == first,
        second_after.enabled == second_before.enabled,
        second_before.logged(&second_after, Seq::empty()),
{
}

} // verus!
