use vstd::prelude::*;

use crate::error::ViewerError;
use crate::frame_queue::FrameQueue;
use crate::renderer::Renderer;

verus! {

/// Platform hooks run before the window opens; this build needs none.
pub fn init_platform() -> (r: Result<(), ViewerError>)
    ensures
        r is Ok,
{
    Ok(())
}

/// Whether the display stack supports tearing presentation; this build has no such
/// support.
pub fn check_tearing_support() -> (supported: bool)
    ensures
        !supported,
{
    false
}

/// Why a background task woke the event loop.
#[derive(Debug, Clone, Copy, PartialEq, Eq, Structural)]
pub enum WakeReason {
    /// A decoded frame is queued; present it.
    Frame,
    /// The connection state changed; refresh the status.
    ConnectionChanged,
}

/// Whether a wake-up asks for a redraw: every reason does, once a window exists.
pub fn wake_requests_redraw(reason: WakeReason, has_window: bool) -> (redraw: bool)
    ensures
        redraw == has_window,
{
    match reason {
        WakeReason::Frame => has_window,
        WakeReason::ConnectionChanged => has_window,
    }
}

/// Delay before the first reconnect after a stream ends, in milliseconds.
pub const INITIAL_RECONNECT_BACKOFF_MS: u64 = 250;

/// Longest reconnect delay, in milliseconds.
pub const MAX_RECONNECT_BACKOFF_MS: u64 = 5000;

/// Interval between looks for a host to connect to, in milliseconds.
pub const CONNECT_POLL_MS: u64 = 250;

/// Shortest interval between two keyframe requests, in milliseconds.
pub const KEYFRAME_DEBOUNCE_MS: u64 = 500;

/// The reconnect delay after `attempts` consecutive attempts since the last reset:
/// doubled each time from the initial delay, capped at the maximum.
pub open spec fn reconnect_delay(attempts: nat) -> u64
    decreases attempts,
{
    if attempts == 0 {
        INITIAL_RECONNECT_BACKOFF_MS
    } else {
        let d = 2 * reconnect_delay((attempts - 1) as nat);
        if d > MAX_RECONNECT_BACKOFF_MS {
            MAX_RECONNECT_BACKOFF_MS
        } else {
            d as u64
        }
    }
}

/// Exponential delay between connection attempts to the host.
#[derive(Debug)]
pub struct ReconnectBackoff {
    backoff_ms: u64,
}

impl ReconnectBackoff {
    /// The current delay.
    pub closed spec fn delay_spec(&self) -> u64 {
        self.backoff_ms
    }

    /// Starts at the initial delay.
    pub fn new() -> (b: Self)
        ensures
            b.delay_spec() == INITIAL_RECONNECT_BACKOFF_MS,
    {
        ReconnectBackoff { backoff_ms: INITIAL_RECONNECT_BACKOFF_MS }
    }

    /// The current delay in milliseconds.
    pub fn current_ms(&self) -> (ms: u64)
        ensures
            ms == self.delay_spec(),
    {
        self.backoff_ms
    }

    /// Back to the initial delay: no host is known, or a session was established.
    pub fn reset(&mut self)
        ensures
            final(self).delay_spec() == INITIAL_RECONNECT_BACKOFF_MS,
    {
        self.backoff_ms = INITIAL_RECONNECT_BACKOFF_MS;
    }

    /// A session attempt ended: doubles the delay up to the maximum and returns the
    /// time to wait before the next one.
    pub fn after_attempt(&mut self) -> (wait_ms: u64)
        requires
            old(self).delay_spec() <= MAX_RECONNECT_BACKOFF_MS,
        ensures
            wait_ms == final(self).delay_spec(),
            final(self).delay_spec() == if 2 * old(self).delay_spec() > MAX_RECONNECT_BACKOFF_MS {
                MAX_RECONNECT_BACKOFF_MS
            } else {
                (2 * old(self).delay_spec()) as u64
            },
    {
        let doubled = self.backoff_ms * 2;
        self.backoff_ms = if doubled > MAX_RECONNECT_BACKOFF_MS {
            MAX_RECONNECT_BACKOFF_MS
        } else {
            doubled
        };
        self.backoff_ms
    }
}

/// Every delay stays between the initial one and the maximum, and delays never shrink
/// from one attempt to the next.
pub proof fn lemma_reconnect_delay_bounded(attempts: nat)
    ensures
        INITIAL_RECONNECT_BACKOFF_MS <= reconnect_delay(attempts) <= MAX_RECONNECT_BACKOFF_MS,
        reconnect_delay(attempts) <= reconnect_delay(attempts + 1),
    decreases attempts,
{
    if attempts > 0 {
        lemma_reconnect_delay_bounded((attempts - 1) as nat);
    }
}

/// Whether a keyframe may be requested `elapsed_ms` after the last request.
pub fn keyframe_request_due(elapsed_ms: u64) -> (due: bool)
    ensures
        due == (elapsed_ms >= KEYFRAME_DEBOUNCE_MS),
{
    elapsed_ms >= KEYFRAME_DEBOUNCE_MS
}

/// The number of lost frames to record for a loss report: at least one.
pub fn loss_to_record(reported: u64) -> (n: u64)
    ensures
        n == if reported < 1 {
            1
        } else {
            reported
        },
{
    if reported < 1 {
        1
    } else {
        reported
    }
}

/// What presenting the newest frame came to.
#[derive(Debug)]
pub enum PresentOutcome {
    /// Nothing was queued.
    Idle,
    /// The frame with this id was shown; `stale` older frames were discarded.
    Presented { frame_id: u64, stale: usize },
    /// Drawing the frame failed.
    RenderFailed(ViewerError),
    /// Showing the drawn frame failed.
    PresentFailed(ViewerError),
}

/// Takes the newest queued frame, discarding older ones, and draws and shows it.
pub fn present_next_frame<R: Renderer>(queue: &mut FrameQueue, renderer: &mut R) -> (outcome:
    PresentOutcome)
    requires
        old(queue).wf(),
    ensures
        final(queue).wf(),
        final(queue).frames().len() == 0,
        old(queue).frames().len() == 0 ==> outcome is Idle,
        outcome matches PresentOutcome::Presented { frame_id, stale } ==> old(queue).frames().len()
            > 0 && frame_id == old(queue).frames().last().frame_id && stale == old(
        queue).frames().len() - 1,
        old(queue).frames().len() > 0 ==> !(outcome is Idle),
{
    let (latest, stale) = queue.pop_latest();
    match latest {
        None => PresentOutcome::Idle,
        Some(frame) => {
            if let Err(e) = renderer.render_frame(&frame) {
                return PresentOutcome::RenderFailed(e);
            }
            if let Err(e) = renderer.present() {
                return PresentOutcome::PresentFailed(e);
            }
            PresentOutcome::Presented { frame_id: frame.frame_id, stale }
        },
    }
}

} // verus!
