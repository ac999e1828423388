use vstd::prelude::*;

use std::time::Instant;

use std::time::Duration;

use crate::clock::{elapsed_ns, epoch_ns_reading, unix_time_ns, whole_ns};
use crate::proto::messages::VsyncReport;

verus! {

/// Vsync period of a 60 Hz display, in nanoseconds.
pub const DEFAULT_VSYNC_PERIOD_NS: u64 = 16666666;

/// Builds vsync timing reports for the host.
#[derive(Debug)]
pub struct VsyncReporter {
    start_time: Instant,
    last_report_ns: u64,
    reports_sent: u64,
    vsync_period_ns: u64,
}

impl VsyncReporter {
    /// The vsync period reported.
    pub closed spec fn period_spec(&self) -> u64 {
        self.vsync_period_ns
    }

    /// Reports built so far.
    pub closed spec fn sent_spec(&self) -> u64 {
        self.reports_sent
    }

    /// Phase carried by the last report.
    pub closed spec fn last_spec(&self) -> u64 {
        self.last_report_ns
    }

    /// Starts timing now, at the 60 Hz period, with no report built.
    pub fn new() -> (r: Self)
        ensures
            r.period_spec() == DEFAULT_VSYNC_PERIOD_NS,
            r.sent_spec() == 0,
            r.last_spec() == 0,
    {
        VsyncReporter {
            start_time: Instant::now(),
            last_report_ns: 0,
            reports_sent: 0,
            vsync_period_ns: DEFAULT_VSYNC_PERIOD_NS,
        }
    }

    /// Sets the display's vsync period; zero is ignored.
    pub fn set_period_ns(&mut self, period_ns: u64)
        ensures
            final(self).period_spec() == if period_ns > 0 {
                period_ns
            } else {
                old(self).period_spec()
            },
            final(self).sent_spec() == old(self).sent_spec(),
            final(self).last_spec() == old(self).last_spec(),
    {
        if period_ns > 0 {
            self.vsync_period_ns = period_ns;
        }
    }

    /// The vsync period reported.
    pub fn vsync_period_ns(&self) -> (n: u64)
        ensures
            n == self.period_spec(),
    {
        self.vsync_period_ns
    }

    /// Reports built so far.
    pub fn reports_sent(&self) -> (n: u64)
        ensures
            n == self.sent_spec(),
    {
        self.reports_sent
    }

    /// Phase carried by the last report.
    pub fn last_report_ns(&self) -> (n: u64)
        ensures
            n == self.last_spec(),
    {
        self.last_report_ns
    }

    /// Builds a report: the configured period, the time since the reporter started as
    /// phase in whole nanoseconds, and the wall-clock time in nanoseconds since the Unix
    /// epoch. The phase is remembered and the report counted.
    pub fn create_vsync_report(&mut self) -> (report: VsyncReport)
        requires
            old(self).sent_spec() < u64::MAX,
        ensures
            report.vsync_period_ns == old(self).period_spec(),
            exists|elapsed: Duration| report.vsync_phase_ns == #[trigger] whole_ns(elapsed),
            exists|since: Option<Duration>| report.clock_epoch_ns == #[trigger] epoch_ns_reading(
                since,
            ),
            final(self).last_spec() == report.vsync_phase_ns,
            final(self).sent_spec() == old(self).sent_spec() + 1,
            final(self).period_spec() == old(self).period_spec(),
    {
        let (period, phase) = match self.query_dwm_timing() {
            Some(timing) => timing,
            None => (self.vsync_period_ns, elapsed_ns(&self.start_time)),
        };
        let epoch = unix_time_ns();
        self.last_report_ns = phase;
        self.reports_sent = self.reports_sent + 1;
        VsyncReport { vsync_period_ns: period, vsync_phase_ns: phase, clock_epoch_ns: epoch }
    }
}

impl VsyncReporter {
    /// Period and phase from the compositor's timing query; the query reports nothing,
    /// so reports fall back to the configured period and the reporter's own clock.
    fn query_dwm_timing(&self) -> (timing: Option<(u64, u64)>)
        ensures
            timing is None,
    {
        if self.vsync_period_ns == 0 {
            return None;
        }
        None
    }
}

impl Default for VsyncReporter {
    fn default() -> (r: Self)
        ensures
            r.period_spec() == DEFAULT_VSYNC_PERIOD_NS,
            r.sent_spec() == 0,
            r.last_spec() == 0,
    {
        VsyncReporter::new()
    }
}

} // verus!
