use vstd::prelude::*;

verus! {

/// Newest protocol version this build speaks.
pub const PROTOCOL_VERSION: u32 = 1;

/// Geometry and timing of the viewer's display. Floating-point fields travel as their
/// IEEE-754 bit patterns.
#[derive(Debug, Clone, Copy, PartialEq, Eq, Structural)]
pub struct DisplayInfo {
    /// Width in physical pixels.
    pub width: u32,
    /// Height in physical pixels.
    pub height: u32,
    /// Refresh rate in hertz, as the bits of an `f32`.
    pub refresh_rate_bits: u32,
    /// Whether the display supports variable refresh.
    pub vrr_supported: bool,
}

/// The viewer's opening handshake message.
#[derive(Debug, Clone, PartialEq, Eq)]
pub struct SessionHello {
    /// Protocol version the viewer speaks.
    pub protocol_version: u32,
    /// Oldest protocol version the viewer accepts.
    pub min_required_version: u32,
    /// The viewer's UUID, as text.
    pub viewer_id: String,
    /// Codecs the viewer decodes, most preferred first.
    pub supported_codecs: Vec<String>,
    /// Highest bitrate the viewer decodes, in kbps.
    pub max_decode_bitrate_kbps: u32,
    /// The viewer's display, if known.
    pub display: Option<DisplayInfo>,
    /// Whether hardware decoding is available.
    pub hw_decode_available: bool,
    /// Fresh random nonce identifying this session attempt.
    pub session_nonce: String,
}

impl Default for SessionHello {
    fn default() -> (h: Self)
        ensures
            h.protocol_version == 0,
            h.min_required_version == 0,
            h.viewer_id@ == Seq::<char>::empty(),
            h.supported_codecs@ == Seq::<String>::empty(),
            h.max_decode_bitrate_kbps == 0,
            h.display is None,
            !h.hw_decode_available,
            h.session_nonce@ == Seq::<char>::empty(),
    {
        SessionHello {
            protocol_version: 0,
            min_required_version: 0,
            viewer_id: String::new(),
            supported_codecs: Vec::new(),
            max_decode_bitrate_kbps: 0,
            display: None,
            hw_decode_available: false,
            session_nonce: String::new(),
        }
    }
}

/// The host's session configuration answer.
#[derive(Debug, Clone, PartialEq, Eq)]
pub struct SessionConfig {
    /// Codec the host encodes with.
    pub selected_codec: String,
    /// Stream width in pixels.
    pub width: u32,
    /// Stream height in pixels.
    pub height: u32,
    /// Frame rate in frames per second, as the bits of an `f32`.
    pub frame_rate_bits: u32,
    /// Starting bitrate in kbps.
    pub initial_bitrate_kbps: u32,
    /// Codec parameter sets, if sent ahead of the stream.
    pub codec_extra_data: Vec<u8>,
    /// Whether capture is phase-locked to the viewer's vsync.
    pub phase_sync_enabled: bool,
}

/// The viewer's display timing report.
#[derive(Debug, Clone, Copy, PartialEq, Eq, Structural)]
pub struct VsyncReport {
    /// Vsync period in nanoseconds.
    pub vsync_period_ns: u64,
    /// Phase of the last vsync in nanoseconds.
    pub vsync_phase_ns: u64,
    /// Wall-clock time of the report, nanoseconds since the Unix epoch.
    pub clock_epoch_ns: u64,
}

/// Short-term receive statistics.
#[derive(Debug, Clone, Copy, PartialEq, Eq, Structural)]
pub struct ReactiveStats {
    /// Fraction of frames lost, as the bits of an `f32`.
    pub loss_rate_bits: u32,
    /// Arrival jitter in microseconds.
    pub jitter_us: u32,
    /// Id of the newest frame received.
    pub last_frame_id: u64,
}

/// Long-term receive and playback statistics.
#[derive(Debug, Clone, Copy, PartialEq, Eq, Structural)]
pub struct PeriodicStats {
    /// Estimated receive bandwidth in kbps, as the bits of an `f32`.
    pub receive_bandwidth_kbps_bits: u32,
    /// Mean decode time in microseconds.
    pub decode_time_us: u32,
    /// Mean render time in microseconds.
    pub render_time_us: u32,
    /// Frames shown.
    pub frames_displayed: u64,
    /// Frames lost or dropped.
    pub frames_dropped: u64,
}

/// Request for an immediate keyframe.
#[derive(Debug, Clone, Copy, PartialEq, Eq, Structural)]
pub struct KeyframeRequest {
    /// Id of the last frame the viewer holds.
    pub after_frame_id: u64,
    /// Bandwidth the viewer can take, in kbps.
    pub bandwidth_hint_kbps: u32,
}

/// Bitrate decision announced by the host.
#[derive(Debug, Clone, Copy, PartialEq, Eq, Structural)]
pub struct BitrateAdjust {}

/// Stream reconfiguration announced by the host.
#[derive(Debug, Clone, Copy, PartialEq, Eq, Structural)]
pub struct StreamReconfigure {}

/// Error notification from the peer.
#[derive(Debug, Clone, PartialEq, Eq)]
pub struct ErrorMessage {
    /// Error code.
    pub code: u32,
    /// Human-readable description.
    pub message: String,
}

/// The message an envelope carries.
#[derive(Debug, Clone, PartialEq, Eq)]
pub enum Payload {
    /// Handshake hello.
    Hello(SessionHello),
    /// Session configuration.
    Config(SessionConfig),
    /// Vsync report.
    VsyncReport(VsyncReport),
    /// Short-term statistics.
    ReactiveStats(ReactiveStats),
    /// Long-term statistics.
    PeriodicStats(PeriodicStats),
    /// Keyframe request.
    KeyframeRequest(KeyframeRequest),
    /// Bitrate adjustment.
    BitrateAdjust(BitrateAdjust),
    /// Stream reconfiguration.
    StreamReconfigure(StreamReconfigure),
    /// Error notification.
    Error(ErrorMessage),
}

/// A control-plane message frame.
#[derive(Debug, Clone, PartialEq, Eq)]
pub struct Envelope {
    /// The carried message, if any.
    pub payload: Option<Payload>,
}

} // verus!
