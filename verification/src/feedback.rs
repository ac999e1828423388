use vstd::prelude::*;

use std::time::{Duration, Instant};

use crate::clock::duration_nanos;

use crate::proto::messages::{KeyframeRequest, PeriodicStats};

verus! {

/// Jitter reported in short-term statistics, in microseconds.
pub const REPORTED_JITTER_US: u32 = 150;

/// Bandwidth estimate before any measurement: 50 000 kbps as `f32` bits.
pub const INITIAL_BANDWIDTH_KBPS_BITS: u32 = 0x4743_5000;

/// Short-term receive counts since the last short-term export.
#[derive(Debug, Clone, Copy, PartialEq, Eq, Structural)]
pub struct ReactiveCounts {
    /// Frames lost.
    pub lost_frames: u64,
    /// Frames received plus frames lost.
    pub total_frames: u64,
    /// Id of the newest frame received.
    pub last_frame_id: u64,
}

/// A `u128` as `u64`, zero when it does not fit.
pub open spec fn fit_u64(n: int) -> u64 {
    if n <= u64::MAX {
        n as u64
    } else {
        0
    }
}

/// Mean time per sample in microseconds, from a total in nanoseconds; zero without
/// samples or when the mean does not fit `u32`.
pub open spec fn mean_micros(total_ns: u128, samples: u32) -> u32 {
    if samples == 0 {
        0
    } else {
        let micros = fit_u64((total_ns / 1000) as int);
        let mean = (micros as int) / (samples as int);
        if mean <= u32::MAX {
            mean as u32
        } else {
            0
        }
    }
}

/// The mean is the whole microseconds of the total shared evenly among the samples: with
/// `n > 0` samples whose total `t` nanoseconds holds `u` whole microseconds (`u` within
/// `u64` and `u / n` within `u32`), the mean `m` is the largest value with `n * m <= u`.
/// In particular `n` samples of `d` microseconds each have a mean of exactly `d`.
pub proof fn lemma_mean_micros_shares_evenly(total_ns: u128, samples: u32, d: u32)
    requires
        samples > 0,
        total_ns / 1000 <= u64::MAX,
        ((total_ns / 1000) as int) / (samples as int) <= u32::MAX,
    ensures
        samples * mean_micros(total_ns, samples) <= total_ns / 1000 < samples * (mean_micros(
            total_ns,
            samples,
        ) + 1),
        total_ns == (samples as int) * (d as int) * 1000 ==> mean_micros(total_ns, samples) == d,
{
    let u = (total_ns / 1000) as int;
    let n = samples as int;
    let m = mean_micros(total_ns, samples) as int;
    assert(m == u / n);
    vstd::arithmetic::div_mod::lemma_fundamental_div_mod(u, n);
    vstd::arithmetic::div_mod::lemma_mod_bound(u, n);
    assert(n * m <= u < n * (m + 1)) by (nonlinear_arith)
        requires
            n > 0,
            u == n * m + u % n,
            0 <= u % n < n,
    ;
    if total_ns == n * (d as int) * 1000 {
        assert(u == n * (d as int)) by (nonlinear_arith)
            requires
                total_ns == n * (d as int) * 1000,
                u == total_ns / 1000,
        ;
        assert(m == d) by (nonlinear_arith)
            requires
                n > 0,
                n * m <= u < n * (m + 1),
                u == n * (d as int),
        ;
    }
}

fn mean_micros_of(total_ns: u128, samples: u32) -> (m: u32)
    ensures
        m == mean_micros(total_ns, samples),
{
    if samples == 0 {
        return 0;
    }
    let micros128 = total_ns / 1000;
    let micros: u64 = if micros128 <= u64::MAX as u128 {
        micros128 as u64
    } else {
        0
    };
    let mean = micros / (samples as u64);
    if mean <= u32::MAX as u64 {
        mean as u32
    } else {
        0
    }
}

/// `a + b` on a nanosecond sum, saturating at `u128::MAX`.
pub open spec fn saturating_sum(a: u128, b: u128) -> u128 {
    if a + b > u128::MAX {
        u128::MAX
    } else {
        (a + b) as u128
    }
}

/// Receive telemetry kept for the host's rate control, exported at two timescales.
#[derive(Debug)]
pub struct FeedbackExporter {
    last_reactive_time: Instant,
    last_periodic_time: Instant,
    reactive_interval: Duration,
    periodic_interval: Duration,
    received_frames: u64,
    lost_frames: u64,
    last_frame_id: u64,
    total_decode_ns: u128,
    total_render_ns: u128,
    decode_sample_count: u32,
    render_sample_count: u32,
    frames_displayed: u64,
    frames_dropped: u64,
    receive_bandwidth_kbps_bits: u32,
}

impl FeedbackExporter {
    /// Frames received since the last short-term export.
    pub closed spec fn received_spec(&self) -> u64 {
        self.received_frames
    }

    /// Frames lost since the last short-term export.
    pub closed spec fn lost_spec(&self) -> u64 {
        self.lost_frames
    }

    /// Id of the newest frame received.
    pub closed spec fn last_frame_spec(&self) -> u64 {
        self.last_frame_id
    }

    /// Decode time summed since the last long-term export, in nanoseconds.
    pub closed spec fn decode_total_spec(&self) -> u128 {
        self.total_decode_ns
    }

    /// Render time summed since the last long-term export, in nanoseconds.
    pub closed spec fn render_total_spec(&self) -> u128 {
        self.total_render_ns
    }

    /// Decode samples since the last long-term export.
    pub closed spec fn decode_samples_spec(&self) -> u32 {
        self.decode_sample_count
    }

    /// Render samples since the last long-term export.
    pub closed spec fn render_samples_spec(&self) -> u32 {
        self.render_sample_count
    }

    /// Frames shown.
    pub closed spec fn displayed_spec(&self) -> u64 {
        self.frames_displayed
    }

    /// Frames lost or dropped.
    pub closed spec fn dropped_spec(&self) -> u64 {
        self.frames_dropped
    }

    /// Receive bandwidth estimate, as `f32` bits.
    pub closed spec fn bandwidth_bits_spec(&self) -> u32 {
        self.receive_bandwidth_kbps_bits
    }

    /// When the last short-term export happened (or the exporter was made).
    pub closed spec fn last_reactive_spec(&self) -> Instant {
        self.last_reactive_time
    }

    /// When the last long-term export happened (or the exporter was made).
    pub closed spec fn last_periodic_spec(&self) -> Instant {
        self.last_periodic_time
    }

    /// Least time between two short-term exports.
    pub closed spec fn reactive_interval_spec(&self) -> Duration {
        self.reactive_interval
    }

    /// Least time between two long-term exports.
    pub closed spec fn periodic_interval_spec(&self) -> Duration {
        self.periodic_interval
    }

    /// Starts with zeroed counts, the initial bandwidth estimate, and export intervals of
    /// 100 ms and 500 ms timed from now.
    pub fn new() -> (e: Self)
        ensures
            e.received_spec() == 0,
            e.lost_spec() == 0,
            e.last_frame_spec() == 0,
            e.decode_total_spec() == 0,
            e.render_total_spec() == 0,
            e.decode_samples_spec() == 0,
            e.render_samples_spec() == 0,
            e.displayed_spec() == 0,
            e.dropped_spec() == 0,
            e.bandwidth_bits_spec() == INITIAL_BANDWIDTH_KBPS_BITS,
            duration_nanos(e.reactive_interval_spec()) == 100_000_000,
            duration_nanos(e.periodic_interval_spec()) == 500_000_000,
            e.last_reactive_spec() == e.last_periodic_spec(),
    {
        let now = Instant::now();
        FeedbackExporter {
            last_reactive_time: now,
            last_periodic_time: now,
            reactive_interval: Duration::from_millis(100),
            periodic_interval: Duration::from_millis(500),
            received_frames: 0,
            lost_frames: 0,
            last_frame_id: 0,
            total_decode_ns: 0,
            total_render_ns: 0,
            decode_sample_count: 0,
            render_sample_count: 0,
            frames_displayed: 0,
            frames_dropped: 0,
            receive_bandwidth_kbps_bits: INITIAL_BANDWIDTH_KBPS_BITS,
        }
    }

    /// Sets the short-term and long-term export intervals.
    pub fn set_intervals(&mut self, reactive: Duration, periodic: Duration)
        ensures
            final(self).reactive_interval_spec() == reactive,
            final(self).periodic_interval_spec() == periodic,
            final(self).decode_total_spec() == old(self).decode_total_spec(),
            final(self).render_total_spec() == old(self).render_total_spec(),
            final(self).decode_samples_spec() == old(self).decode_samples_spec(),
            final(self).render_samples_spec() == old(self).render_samples_spec(),
            final(self).bandwidth_bits_spec() == old(self).bandwidth_bits_spec(),
            final(self).received_spec() == old(self).received_spec(),
            final(self).lost_spec() == old(self).lost_spec(),
            final(self).last_frame_spec() == old(self).last_frame_spec(),
            final(self).displayed_spec() == old(self).displayed_spec(),
            final(self).dropped_spec() == old(self).dropped_spec(),
    {
        self.reactive_interval = reactive;
        self.periodic_interval = periodic;
    }

    /// Records a shown frame with its decode and render times. A gap after the previous
    /// frame id (once one was seen) counts the missing frames as lost and dropped.
    pub fn record_frame(&mut self, frame_id: u64, decode_duration: Duration, render_duration: Duration)
        requires
            old(self).received_spec() < u64::MAX,
            old(self).displayed_spec() < u64::MAX,
            old(self).decode_samples_spec() < u32::MAX,
            old(self).render_samples_spec() < u32::MAX,
            old(self).last_frame_spec() < u64::MAX,
            old(self).last_frame_spec() > 0 && frame_id > old(self).last_frame_spec() + 1 ==> {
                &&& old(self).lost_spec() + (frame_id - old(self).last_frame_spec() - 1) <= u64::MAX
                &&& old(self).dropped_spec() + (frame_id - old(self).last_frame_spec() - 1)
                    <= u64::MAX
            },
        ensures
            ({
                let gap = if old(self).last_frame_spec() > 0 && frame_id > old(
                    self,
                ).last_frame_spec() + 1 {
                    frame_id - old(self).last_frame_spec() - 1
                } else {
                    0
                };
                &&& final(self).lost_spec() == old(self).lost_spec() + gap
                &&& final(self).dropped_spec() == old(self).dropped_spec() + gap
            }),
            final(self).last_frame_spec() == frame_id,
            final(self).received_spec() == old(self).received_spec() + 1,
            final(self).displayed_spec() == old(self).displayed_spec() + 1,
            final(self).decode_samples_spec() == old(self).decode_samples_spec() + 1,
            final(self).render_samples_spec() == old(self).render_samples_spec() + 1,
            final(self).decode_total_spec() == saturating_sum(
                old(self).decode_total_spec(),
                duration_nanos(decode_duration),
            ),
            final(self).render_total_spec() == saturating_sum(
                old(self).render_total_spec(),
                duration_nanos(render_duration),
            ),
            final(self).bandwidth_bits_spec() == old(self).bandwidth_bits_spec(),
    {
        if self.last_frame_id > 0 && frame_id > self.last_frame_id + 1 {
            let gap = frame_id - self.last_frame_id - 1;
            self.lost_frames = self.lost_frames + gap;
            self.frames_dropped = self.frames_dropped + gap;
        }
        self.last_frame_id = frame_id;
        self.received_frames = self.received_frames + 1;
        self.frames_displayed = self.frames_displayed + 1;
        self.total_decode_ns = self.total_decode_ns.saturating_add(decode_duration.as_nanos());
        self.decode_sample_count = self.decode_sample_count + 1;
        self.total_render_ns = self.total_render_ns.saturating_add(render_duration.as_nanos());
        self.render_sample_count = self.render_sample_count + 1;
    }

    /// Records `count` lost frames.
    pub fn record_frame_loss(&mut self, count: u64)
        requires
            old(self).lost_spec() + count <= u64::MAX,
            old(self).dropped_spec() + count <= u64::MAX,
        ensures
            final(self).lost_spec() == old(self).lost_spec() + count,
            final(self).dropped_spec() == old(self).dropped_spec() + count,
            final(self).received_spec() == old(self).received_spec(),
            final(self).last_frame_spec() == old(self).last_frame_spec(),
            final(self).displayed_spec() == old(self).displayed_spec(),
            final(self).bandwidth_bits_spec() == old(self).bandwidth_bits_spec(),
    {
        self.lost_frames = self.lost_frames + count;
        self.frames_dropped = self.frames_dropped + count;
    }

    /// Sets the receive bandwidth estimate (kbps, as `f32` bits).
    pub fn update_bandwidth(&mut self, bw_kbps_bits: u32)
        ensures
            final(self).bandwidth_bits_spec() == bw_kbps_bits,
            final(self).received_spec() == old(self).received_spec(),
            final(self).lost_spec() == old(self).lost_spec(),
            final(self).last_frame_spec() == old(self).last_frame_spec(),
    {
        self.receive_bandwidth_kbps_bits = bw_kbps_bits;
    }

    /// The receive bandwidth estimate (kbps, as `f32` bits).
    pub fn bandwidth_kbps_bits(&self) -> (b: u32)
        ensures
            b == self.bandwidth_bits_spec(),
    {
        self.receive_bandwidth_kbps_bits
    }

    /// A keyframe request after the newest frame received, with the given bandwidth hint.
    pub fn create_keyframe_request(&self, bandwidth_hint_kbps: u32) -> (r: KeyframeRequest)
        ensures
            r == (KeyframeRequest {
                after_frame_id: self.last_frame_spec(),
                bandwidth_hint_kbps,
            }),
    {
        KeyframeRequest { after_frame_id: self.last_frame_id, bandwidth_hint_kbps }
    }

    /// Once the short-term interval has passed, returns the loss counts since the last
    /// export and restarts them; before that, returns `None` and changes nothing. The time
    /// since the last export is read from the monotonic clock and handed to
    /// [`Self::export_reactive_after`], which decides; with a zero interval every call
    /// exports.
    pub fn maybe_export_reactive(&mut self) -> (r: Option<ReactiveCounts>)
        requires
            old(self).received_spec() + old(self).lost_spec() <= u64::MAX,
        ensures
            r is None ==> duration_nanos(old(self).reactive_interval_spec()) > 0,
            r is None ==> final(self).last_reactive_spec() == old(self).last_reactive_spec(),
            final(self).last_periodic_spec() == old(self).last_periodic_spec(),
            final(self).reactive_interval_spec() == old(self).reactive_interval_spec(),
            final(self).periodic_interval_spec() == old(self).periodic_interval_spec(),
            r matches Some(c) ==> c == (ReactiveCounts {
                lost_frames: old(self).lost_spec(),
                total_frames: (old(self).received_spec() + old(self).lost_spec()) as u64,
                last_frame_id: old(self).last_frame_spec(),
            }) && final(self).received_spec() == 0 && final(self).lost_spec() == 0,
            r is None ==> final(self).received_spec() == old(self).received_spec()
                && final(self).lost_spec() == old(self).lost_spec(),
            final(self).last_frame_spec() == old(self).last_frame_spec(),
            final(self).displayed_spec() == old(self).displayed_spec(),
            final(self).dropped_spec() == old(self).dropped_spec(),
            final(self).bandwidth_bits_spec() == old(self).bandwidth_bits_spec(),
            final(self).decode_total_spec() == old(self).decode_total_spec(),
            final(self).decode_samples_spec() == old(self).decode_samples_spec(),
            final(self).render_total_spec() == old(self).render_total_spec(),
            final(self).render_samples_spec() == old(self).render_samples_spec(),
    {
        let now = Instant::now();
        let since = now.duration_since(self.last_reactive_time);
        let since_ns = since.as_nanos();
        self.export_reactive_after(now, since_ns)
    }

    /// The short-term export step, for a call made at `now`, `since_ns` nanoseconds after
    /// the last short-term export: exports exactly when the short-term interval has passed,
    /// returning the loss counts since that export, restarting them and remembering
    /// `now`; otherwise returns `None` and changes nothing.
    pub fn export_reactive_after(&mut self, now: Instant, since_ns: u128) -> (r: Option<ReactiveCounts>)
        requires
            old(self).received_spec() + old(self).lost_spec() <= u64::MAX,
        ensures
            r is Some <==> since_ns >= duration_nanos(old(self).reactive_interval_spec()),
            r matches Some(c) ==> c == (ReactiveCounts {
                lost_frames: old(self).lost_spec(),
                total_frames: (old(self).received_spec() + old(self).lost_spec()) as u64,
                last_frame_id: old(self).last_frame_spec(),
            }) && final(self).received_spec() == 0 && final(self).lost_spec() == 0
                && final(self).last_reactive_spec() == now,
            r is None ==> final(self).received_spec() == old(self).received_spec()
                && final(self).lost_spec() == old(self).lost_spec()
                && final(self).last_reactive_spec() == old(self).last_reactive_spec(),
            final(self).last_periodic_spec() == old(self).last_periodic_spec(),
            final(self).reactive_interval_spec() == old(self).reactive_interval_spec(),
            final(self).periodic_interval_spec() == old(self).periodic_interval_spec(),
            final(self).last_frame_spec() == old(self).last_frame_spec(),
            final(self).displayed_spec() == old(self).displayed_spec(),
            final(self).dropped_spec() == old(self).dropped_spec(),
            final(self).bandwidth_bits_spec() == old(self).bandwidth_bits_spec(),
            final(self).decode_total_spec() == old(self).decode_total_spec(),
            final(self).decode_samples_spec() == old(self).decode_samples_spec(),
            final(self).render_total_spec() == old(self).render_total_spec(),
            final(self).render_samples_spec() == old(self).render_samples_spec(),
    {
        let interval_ns = self.reactive_interval.as_nanos();
        if since_ns < interval_ns {
            return None;
        }
        self.last_reactive_time = now;
        let counts = ReactiveCounts {
            lost_frames: self.lost_frames,
            total_frames: self.received_frames + self.lost_frames,
            last_frame_id: self.last_frame_id,
        };
        self.received_frames = 0;
        self.lost_frames = 0;
        Some(counts)
    }

    /// Once the long-term interval has passed, returns the mean decode and render times
    /// since the last export with the bandwidth estimate and display counts, and restarts
    /// the timing sums; before that, returns `None` and changes nothing. The time since
    /// the last export is read from the monotonic clock and handed to
    /// [`Self::export_periodic_after`], which decides; with a zero interval every call
    /// exports.
    pub fn maybe_export_periodic(&mut self) -> (r: Option<PeriodicStats>)
        ensures
            r is None ==> duration_nanos(old(self).periodic_interval_spec()) > 0,
            r is None ==> final(self).last_periodic_spec() == old(self).last_periodic_spec(),
            final(self).last_reactive_spec() == old(self).last_reactive_spec(),
            final(self).reactive_interval_spec() == old(self).reactive_interval_spec(),
            final(self).periodic_interval_spec() == old(self).periodic_interval_spec(),
            r matches Some(s) ==> s == (PeriodicStats {
                receive_bandwidth_kbps_bits: old(self).bandwidth_bits_spec(),
                decode_time_us: mean_micros(
                    old(self).decode_total_spec(),
                    old(self).decode_samples_spec(),
                ),
                render_time_us: mean_micros(
                    old(self).render_total_spec(),
                    old(self).render_samples_spec(),
                ),
                frames_displayed: old(self).displayed_spec(),
                frames_dropped: old(self).dropped_spec(),
            }) && final(self).decode_total_spec() == 0 && final(self).decode_samples_spec() == 0
                && final(self).render_total_spec() == 0 && final(self).render_samples_spec() == 0,
            r is None ==> final(self).decode_total_spec() == old(self).decode_total_spec()
                && final(self).decode_samples_spec() == old(self).decode_samples_spec()
                && final(self).render_total_spec() == old(self).render_total_spec()
                && final(self).render_samples_spec() == old(self).render_samples_spec(),
            final(self).received_spec() == old(self).received_spec(),
            final(self).lost_spec() == old(self).lost_spec(),
            final(self).last_frame_spec() == old(self).last_frame_spec(),
            final(self).displayed_spec() == old(self).displayed_spec(),
            final(self).dropped_spec() == old(self).dropped_spec(),
            final(self).bandwidth_bits_spec() == old(self).bandwidth_bits_spec(),
    {
        let now = Instant::now();
        let since = now.duration_since(self.last_periodic_time);
        let since_ns = since.as_nanos();
        self.export_periodic_after(now, since_ns)
    }

    /// The long-term export step, for a call made at `now`, `since_ns` nanoseconds after
    /// the last long-term export: exports exactly when the long-term interval has passed,
    /// returning the mean decode and render times since that export with the bandwidth
    /// estimate and display counts, restarting the timing sums and remembering `now`;
    /// otherwise returns `None` and changes nothing.
    pub fn export_periodic_after(&mut self, now: Instant, since_ns: u128) -> (r: Option<PeriodicStats>)
        ensures
            r is Some <==> since_ns >= duration_nanos(old(self).periodic_interval_spec()),
            r matches Some(s) ==> s == (PeriodicStats {
                receive_bandwidth_kbps_bits: old(self).bandwidth_bits_spec(),
                decode_time_us: mean_micros(
                    old(self).decode_total_spec(),
                    old(self).decode_samples_spec(),
                ),
                render_time_us: mean_micros(
                    old(self).render_total_spec(),
                    old(self).render_samples_spec(),
                ),
                frames_displayed: old(self).displayed_spec(),
                frames_dropped: old(self).dropped_spec(),
            }) && final(self).decode_total_spec() == 0 && final(self).decode_samples_spec() == 0
                && final(self).render_total_spec() == 0 && final(self).render_samples_spec() == 0
                && final(self).last_periodic_spec() == now,
            r is None ==> final(self).decode_total_spec() == old(self).decode_total_spec()
                && final(self).decode_samples_spec() == old(self).decode_samples_spec()
                && final(self).render_total_spec() == old(self).render_total_spec()
                && final(self).render_samples_spec() == old(self).render_samples_spec()
                && final(self).last_periodic_spec() == old(self).last_periodic_spec(),
            final(self).last_reactive_spec() == old(self).last_reactive_spec(),
            final(self).reactive_interval_spec() == old(self).reactive_interval_spec(),
            final(self).periodic_interval_spec() == old(self).periodic_interval_spec(),
            final(self).received_spec() == old(self).received_spec(),
            final(self).lost_spec() == old(self).lost_spec(),
            final(self).last_frame_spec() == old(self).last_frame_spec(),
            final(self).displayed_spec() == old(self).displayed_spec(),
            final(self).dropped_spec() == old(self).dropped_spec(),
            final(self).bandwidth_bits_spec() == old(self).bandwidth_bits_spec(),
    {
        let interval_ns = self.periodic_interval.as_nanos();
        if since_ns < interval_ns {
            return None;
        }
        self.last_periodic_time = now;
        let decode_time_us = mean_micros_of(self.total_decode_ns, self.decode_sample_count);
        let render_time_us = mean_micros_of(self.total_render_ns, self.render_sample_count);
        self.total_decode_ns = 0;
        self.decode_sample_count = 0;
        self.total_render_ns = 0;
        self.render_sample_count = 0;
        Some(
            PeriodicStats {
                receive_bandwidth_kbps_bits: self.receive_bandwidth_kbps_bits,
                decode_time_us,
                render_time_us,
                frames_displayed: self.frames_displayed,
                frames_dropped: self.frames_dropped,
            },
        )
    }
}

} // verus!
