use vstd::prelude::*;

use crate::proto::error::{is_incompatible, is_invalid_value, is_missing_field, ProtoError};
use crate::proto::messages::{Envelope, Payload, SessionConfig, SessionHello};
use crate::proto::types::{is_uuid_text, parses_as_uuid};
use crate::text::text_eq;

verus! {

/// Which message an envelope carries.
#[derive(Debug, Clone, Copy, PartialEq, Eq, Hash, Structural)]
pub enum MessageKind {
    /// Handshake hello.
    SessionHello,
    /// Session configuration.
    SessionConfig,
    /// Vsync report.
    VsyncReport,
    /// Short-term statistics.
    ReactiveStats,
    /// Long-term statistics.
    PeriodicStats,
    /// Keyframe request.
    KeyframeRequest,
    /// Bitrate adjustment.
    BitrateAdjust,
    /// Stream reconfiguration.
    StreamReconfigure,
    /// Error notification.
    Error,
    /// No payload.
    Unknown,
}

/// The kind of a payload, `Unknown` for none.
pub open spec fn kind_of(payload: Option<Payload>) -> MessageKind {
    match payload {
        Some(Payload::Hello(_)) => MessageKind::SessionHello,
        Some(Payload::Config(_)) => MessageKind::SessionConfig,
        Some(Payload::VsyncReport(_)) => MessageKind::VsyncReport,
        Some(Payload::ReactiveStats(_)) => MessageKind::ReactiveStats,
        Some(Payload::PeriodicStats(_)) => MessageKind::PeriodicStats,
        Some(Payload::KeyframeRequest(_)) => MessageKind::KeyframeRequest,
        Some(Payload::BitrateAdjust(_)) => MessageKind::BitrateAdjust,
        Some(Payload::StreamReconfigure(_)) => MessageKind::StreamReconfigure,
        Some(Payload::Error(_)) => MessageKind::Error,
        None => MessageKind::Unknown,
    }
}

impl Envelope {
    /// The kind of message this envelope carries.
    pub fn kind(&self) -> (k: MessageKind)
        ensures
            k == kind_of(self.payload),
    {
        match &self.payload {
            Some(Payload::Hello(_)) => MessageKind::SessionHello,
            Some(Payload::Config(_)) => MessageKind::SessionConfig,
            Some(Payload::VsyncReport(_)) => MessageKind::VsyncReport,
            Some(Payload::ReactiveStats(_)) => MessageKind::ReactiveStats,
            Some(Payload::PeriodicStats(_)) => MessageKind::PeriodicStats,
            Some(Payload::KeyframeRequest(_)) => MessageKind::KeyframeRequest,
            Some(Payload::BitrateAdjust(_)) => MessageKind::BitrateAdjust,
            Some(Payload::StreamReconfigure(_)) => MessageKind::StreamReconfigure,
            Some(Payload::Error(_)) => MessageKind::Error,
            None => MessageKind::Unknown,
        }
    }
}

/// Codec names both ends understand.
pub open spec fn is_known_codec(c: Seq<char>) -> bool {
    c == "hevc"@ || c == "h264"@
}

/// The `f32` with bit pattern `bits` compares `<= 0.0`: zero of either sign, or a
/// negative number (negative infinity included). NaN compares false.
pub open spec fn f32_bits_at_most_zero(bits: u32) -> bool {
    let magnitude = bits % 0x8000_0000;
    magnitude == 0 || (bits >= 0x8000_0000 && magnitude <= 0x7F80_0000)
}

/// Whether the `f32` with bit pattern `bits` compares `<= 0.0`.
pub fn f32_at_most_zero(bits: u32) -> (b: bool)
    ensures
        b == f32_bits_at_most_zero(bits),
{
    let magnitude = bits % 0x8000_0000;
    magnitude == 0 || (bits >= 0x8000_0000 && magnitude <= 0x7F80_0000)
}

/// Index of the first codec both ends do not understand, if any.
pub open spec fn first_unknown_codec(codecs: Seq<String>) -> Option<int> {
    if exists|i: int| 0 <= i < codecs.len() && !is_known_codec(#[trigger] codecs[i]@) {
        Some(
            choose|i: int|
                0 <= i < codecs.len() && !is_known_codec(#[trigger] codecs[i]@) && forall|j: int|
                    0 <= j < i ==> is_known_codec(#[trigger] codecs[j]@),
        )
    } else {
        None
    }
}

/// Validation of a received or outgoing hello.
pub trait ValidateHello {
    /// Checks the hello against `local_version` and the field constraints.
    fn validate(&self, local_version: u32) -> Result<(), ProtoError>;
}

/// Validation of a session configuration.
pub trait ValidateConfig {
    /// Checks the configuration's field constraints.
    fn validate(&self) -> Result<(), ProtoError>;
}

fn unknown_codec_position(codecs: &Vec<String>) -> (r: Option<usize>)
    ensures
        match r {
            Some(i) => i < codecs@.len() && !is_known_codec(codecs@[i as int]@) && forall|j: int|
                0 <= j < i ==> is_known_codec(#[trigger] codecs@[j]@),
            None => forall|j: int| 0 <= j < codecs@.len() ==> is_known_codec(#[trigger] codecs@[j]@),
        },
{
    let mut i: usize = 0;
    while i < codecs.len()
        invariant
            i <= codecs@.len(),
            forall|j: int| 0 <= j < i ==> is_known_codec(#[trigger] codecs@[j]@),
        decreases codecs@.len() - i,
    {
        let c = codecs[i].as_str();
        if !(text_eq(c, "hevc") || text_eq(c, "h264")) {
            return Some(i);
        }
        i = i + 1;
    }
    None
}

proof fn lemma_first_unknown(codecs: Seq<String>, i: int)
    requires
        0 <= i < codecs.len(),
        !is_known_codec(codecs[i]@),
        forall|j: int| 0 <= j < i ==> is_known_codec(#[trigger] codecs[j]@),
    ensures
        first_unknown_codec(codecs) == Some(i),
{
    let k = choose|k: int|
        0 <= k < codecs.len() && !is_known_codec(#[trigger] codecs[k]@) && forall|j: int|
            0 <= j < k ==> is_known_codec(#[trigger] codecs[j]@);
    assert(0 <= i < codecs.len() && !is_known_codec(codecs[i]@) && forall|j: int|
        0 <= j < i ==> is_known_codec(#[trigger] codecs[j]@));
    if k < i {
        assert(is_known_codec(codecs[k]@));
    }
    if i < k {
        assert(is_known_codec(codecs[i]@));
    }
}

impl ValidateHello for SessionHello {
    /// Checks, in order: the version, a viewer id that is a UUID, a non-empty list of
    /// known codecs, a session nonce, a display with non-zero size and a positive refresh
    /// rate. The first failed check is reported.
    fn validate(&self, local_version: u32) -> (r: Result<(), ProtoError>)
        ensures
            ({
                let c0 = self.min_required_version > local_version;
                let c1 = self.viewer_id@.len() == 0;
                let c2 = !is_uuid_text(self.viewer_id@);
                let c3 = self.supported_codecs@.len() == 0;
                let c4 = first_unknown_codec(self.supported_codecs@) is Some;
                let c5 = self.session_nonce@.len() == 0;
                let c6 = self.display is None;
                let c7 = self.display matches Some(d) && (d.width == 0 || d.height == 0);
                let c8 = self.display matches Some(d) && f32_bits_at_most_zero(d.refresh_rate_bits);
                &&& c0 ==> is_incompatible(r, self.min_required_version, local_version)
                &&& !c0 && c1 ==> is_missing_field(r, "viewer_id"@)
                &&& !c0 && !c1 && c2 ==> is_invalid_value(r, "viewer_id"@, "Must be a valid UUID string"@)
                &&& !c0 && !c1 && !c2 && c3 ==> is_missing_field(r, "supported_codecs"@)
                &&& !c0 && !c1 && !c2 && !c3 && c4 ==> is_invalid_value(
                    r,
                    "supported_codecs"@,
                    "Unsupported codec '"@ + self.supported_codecs@[first_unknown_codec(
                        self.supported_codecs@,
                    ).unwrap()]@ + "'; must be 'hevc' or 'h264'"@,
                )
                &&& !c0 && !c1 && !c2 && !c3 && !c4 && c5 ==> is_missing_field(r, "session_nonce"@)
                &&& !c0 && !c1 && !c2 && !c3 && !c4 && !c5 && c6 ==> is_missing_field(r, "display"@)
                &&& !c0 && !c1 && !c2 && !c3 && !c4 && !c5 && !c6 && c7 ==> is_invalid_value(
                    r,
                    "display"@,
                    "Display dimensions must be greater than zero"@,
                )
                &&& !c0 && !c1 && !c2 && !c3 && !c4 && !c5 && !c6 && !c7 && c8 ==> is_invalid_value(
                    r,
                    "display.refresh_rate"@,
                    "Refresh rate must be positive"@,
                )
                &&& !c0 && !c1 && !c2 && !c3 && !c4 && !c5 && !c6 && !c7 && !c8 ==> r is Ok
            }),
    {
        proof {
            reveal_strlit("viewer_id");
            reveal_strlit("supported_codecs");
            reveal_strlit("session_nonce");
            reveal_strlit("display");
            reveal_strlit("display.refresh_rate");
        }
        if self.min_required_version > local_version {
            return Err(
                ProtoError::IncompatibleVersion {
                    required: self.min_required_version,
                    supported: local_version,
                },
            );
        }
        if self.viewer_id.as_str().is_empty() {
            return Err(ProtoError::MissingField("viewer_id"));
        }
        if !parses_as_uuid(self.viewer_id.as_str()) {
            return Err(
                ProtoError::InvalidValue {
                    field: "viewer_id",
                    reason: String::from_str("Must be a valid UUID string"),
                },
            );
        }
        if self.supported_codecs.len() == 0 {
            return Err(ProtoError::MissingField("supported_codecs"));
        }
        match unknown_codec_position(&self.supported_codecs) {
            Some(i) => {
                proof {
                    lemma_first_unknown(self.supported_codecs@, i as int);
                }
                let mut reason = String::from_str("Unsupported codec '");
                reason.append(self.supported_codecs[i].as_str());
                reason.append("'; must be 'hevc' or 'h264'");
                return Err(ProtoError::InvalidValue { field: "supported_codecs", reason });
            },
            None => {},
        }
        if self.session_nonce.as_str().is_empty() {
            return Err(ProtoError::MissingField("session_nonce"));
        }
        let display = match &self.display {
            Some(d) => d,
            None => {
                return Err(ProtoError::MissingField("display"));
            },
        };
        if display.width == 0 || display.height == 0 {
            return Err(
                ProtoError::InvalidValue {
                    field: "display",
                    reason: String::from_str("Display dimensions must be greater than zero"),
                },
            );
        }
        if f32_at_most_zero(display.refresh_rate_bits) {
            return Err(
                ProtoError::InvalidValue {
                    field: "display.refresh_rate",
                    reason: String::from_str("Refresh rate must be positive"),
                },
            );
        }
        Ok(())
    }
}

/// The first check a session configuration fails, as the refused field and the reason;
/// `None` when it passes them all: a known codec, a non-zero size, a positive frame rate
/// and a non-zero starting bitrate, in that order.
pub open spec fn config_check(c: SessionConfig) -> Option<(Seq<char>, Seq<char>)> {
    if !is_known_codec(c.selected_codec@) {
        Some(
            (
                "selected_codec"@,
                "Invalid selected codec '"@ + c.selected_codec@ + "'; must be 'hevc' or 'h264'"@,
            ),
        )
    } else if c.width == 0 || c.height == 0 {
        Some(("dimensions"@, "Width and height must be greater than zero"@))
    } else if f32_bits_at_most_zero(c.frame_rate_bits) {
        Some(("frame_rate"@, "Frame rate must be positive"@))
    } else if c.initial_bitrate_kbps == 0 {
        Some(("initial_bitrate_kbps"@, "Initial bitrate must be greater than zero"@))
    } else {
        None
    }
}

impl ValidateConfig for SessionConfig {
    /// Reports the first check of [`config_check`] that fails.
    fn validate(&self) -> (r: Result<(), ProtoError>)
        ensures
            match config_check(*self) {
                None => r is Ok,
                Some((field, reason)) => is_invalid_value(r, field, reason),
            },
    {
        proof {
            reveal_strlit("selected_codec");
            reveal_strlit("dimensions");
            reveal_strlit("frame_rate");
            reveal_strlit("initial_bitrate_kbps");
        }
        let codec = self.selected_codec.as_str();
        if !(text_eq(codec, "hevc") || text_eq(codec, "h264")) {
            let mut reason = String::from_str("Invalid selected codec '");
            reason.append(codec);
            reason.append("'; must be 'hevc' or 'h264'");
            return Err(ProtoError::InvalidValue { field: "selected_codec", reason });
        }
        if self.width == 0 || self.height == 0 {
            return Err(
                ProtoError::InvalidValue {
                    field: "dimensions",
                    reason: String::from_str("Width and height must be greater than zero"),
                },
            );
        }
        if f32_at_most_zero(self.frame_rate_bits) {
            return Err(
                ProtoError::InvalidValue {
                    field: "frame_rate",
                    reason: String::from_str("Frame rate must be positive"),
                },
            );
        }
        if self.initial_bitrate_kbps == 0 {
            return Err(
                ProtoError::InvalidValue {
                    field: "initial_bitrate_kbps",
                    reason: String::from_str("Initial bitrate must be greater than zero"),
                },
            );
        }
        Ok(())
    }
}

} // verus!
