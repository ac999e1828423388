use vstd::prelude::*;

use std::time::{Duration, Instant};

verus! {

/// Connection state of the viewer.
#[derive(Debug, Clone, Copy, PartialEq, Eq, Structural)]
pub enum ConnectionState {
    /// Not connected.
    Disconnected,
    /// Looking for the host's address.
    Discovering,
    /// Performing the pairing and TLS handshake.
    Handshaking,
    /// Receiving the video stream.
    Connected,
    /// Connection lost; reconnecting.
    Reconnecting,
}

impl Default for ConnectionState {
    fn default() -> (s: Self)
        ensures
            s == ConnectionState::Disconnected,
    {
        ConnectionState::Disconnected
    }
}

/// Runtime counters of the viewer.
#[derive(Debug, Clone, Copy, PartialEq, Eq, Structural)]
pub struct ViewerMetrics {
    /// Frame packets received.
    pub frames_received: u64,
    /// Frames decoded.
    pub frames_decoded: u64,
    /// Frames rendered and presented.
    pub frames_rendered: u64,
    /// Frames dropped by congestion or staleness.
    pub frames_dropped: u64,
    /// Latest round-trip time in microseconds.
    pub rtt_us: u64,
}

impl Default for ViewerMetrics {
    fn default() -> (m: Self)
        ensures
            m == (ViewerMetrics {
                frames_received: 0,
                frames_decoded: 0,
                frames_rendered: 0,
                frames_dropped: 0,
                rtt_us: 0,
            }),
    {
        ViewerMetrics {
            frames_received: 0,
            frames_decoded: 0,
            frames_rendered: 0,
            frames_dropped: 0,
            rtt_us: 0,
        }
    }
}

/// Central state of the viewer: connection state, counters, the running flag and the
/// launch time.
#[derive(Debug)]
pub struct AppState {
    connection_state: ConnectionState,
    metrics: ViewerMetrics,
    is_running: bool,
    start_time: Instant,
}

impl AppState {
    /// The current connection state.
    pub closed spec fn state_spec(&self) -> ConnectionState {
        self.connection_state
    }

    /// The counters.
    pub closed spec fn metrics_spec(&self) -> ViewerMetrics {
        self.metrics
    }

    /// Whether the viewer keeps running.
    pub closed spec fn running_spec(&self) -> bool {
        self.is_running
    }

    /// Starts disconnected and running, with zeroed counters, timed from now.
    pub fn new() -> (s: Self)
        ensures
            s.state_spec() == ConnectionState::Disconnected,
            s.running_spec(),
            s.metrics_spec() == (ViewerMetrics {
                frames_received: 0,
                frames_decoded: 0,
                frames_rendered: 0,
                frames_dropped: 0,
                rtt_us: 0,
            }),
    {
        AppState {
            connection_state: ConnectionState::Disconnected,
            metrics: ViewerMetrics::default(),
            is_running: true,
            start_time: Instant::now(),
        }
    }

    /// The current connection state.
    pub fn connection_state(&self) -> (s: ConnectionState)
        ensures
            s == self.state_spec(),
    {
        self.connection_state
    }

    /// Sets the connection state.
    pub fn set_connection_state(&mut self, state: ConnectionState)
        ensures
            final(self).state_spec() == state,
            final(self).metrics_spec() == old(self).metrics_spec(),
            final(self).running_spec() == old(self).running_spec(),
    {
        self.connection_state = state;
    }

    /// The counters.
    pub fn metrics(&self) -> (m: &ViewerMetrics)
        ensures
            *m == self.metrics_spec(),
    {
        &self.metrics
    }

    /// Replaces the counters.
    pub fn set_metrics(&mut self, metrics: ViewerMetrics)
        ensures
            final(self).metrics_spec() == metrics,
            final(self).state_spec() == old(self).state_spec(),
            final(self).running_spec() == old(self).running_spec(),
    {
        self.metrics = metrics;
    }

    /// Whether the viewer keeps running.
    pub fn is_running(&self) -> (b: bool)
        ensures
            b == self.running_spec(),
    {
        self.is_running
    }

    /// Asks the viewer to stop.
    pub fn stop(&mut self)
        ensures
            !final(self).running_spec(),
            final(self).state_spec() == old(self).state_spec(),
            final(self).metrics_spec() == old(self).metrics_spec(),
    {
        self.is_running = false;
    }

    /// Time since launch.
    pub fn uptime(&self) -> Duration {
        self.start_time.elapsed()
    }
}

impl Default for AppState {
    fn default() -> (s: Self)
        ensures
            s.state_spec() == ConnectionState::Disconnected,
            s.running_spec(),
    {
        AppState::new()
    }
}

} // verus!
