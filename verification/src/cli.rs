use vstd::prelude::*;

use crate::decode::{preferred_codecs, TargetOs};

verus! {

/// Port the host listens on when none is given.
pub const DEFAULT_HOST_PORT: u16 = 4433;

/// Codec preference override.
#[derive(Debug, Clone, Copy, PartialEq, Eq, Structural)]
pub enum CodecChoice {
    /// The platform's preference order.
    Auto,
    /// Only H.264.
    H264,
    /// Only HEVC.
    Hevc,
}

impl Default for CodecChoice {
    fn default() -> (c: Self)
        ensures
            c == CodecChoice::Auto,
    {
        CodecChoice::Auto
    }
}

impl CodecChoice {
    /// The codecs to offer in the hello on `target`.
    pub fn codecs(self, target: TargetOs) -> (codecs: Vec<String>)
        ensures
            self == CodecChoice::Auto ==> codecs@.len() == 2 && (target == TargetOs::Windows
                ==> codecs@[0]@ == "h264"@ && codecs@[1]@ == "hevc"@) && (target
                != TargetOs::Windows ==> codecs@[0]@ == "hevc"@ && codecs@[1]@ == "h264"@),
            self == CodecChoice::H264 ==> codecs@.len() == 1 && codecs@[0]@ == "h264"@,
            self == CodecChoice::Hevc ==> codecs@.len() == 1 && codecs@[0]@ == "hevc"@,
    {
        match self {
            CodecChoice::Auto => preferred_codecs(target),
            CodecChoice::H264 => vec![String::from_str("h264")],
            CodecChoice::Hevc => vec![String::from_str("hevc")],
        }
    }
}

/// Video decoder implementation to use on Windows.
#[derive(Debug, Clone, Copy, PartialEq, Eq, Structural)]
pub enum DecoderBackend {
    /// Media Foundation decoder transform.
    Mf,
    /// Direct3D 12 video decoder.
    D3d12,
}

impl Default for DecoderBackend {
    fn default() -> (b: Self)
        ensures
            b == DecoderBackend::Mf,
    {
        DecoderBackend::Mf
    }
}

/// Command-line options of the viewer.
#[derive(Debug, Clone, PartialEq, Eq)]
pub struct ViewerCli {
    /// Host address to connect to, skipping discovery.
    pub host: Option<String>,
    /// Logging level.
    pub log_level: String,
    /// Start in borderless fullscreen.
    pub fullscreen: bool,
    /// Initial window width.
    pub width: Option<u32>,
    /// Initial window height.
    pub height: Option<u32>,
    /// Codec preference.
    pub codec: CodecChoice,
    /// Decoder backend on Windows.
    pub decoder: DecoderBackend,
}

/// Which decoder a viewer build uses.
#[derive(Debug, Clone, Copy, PartialEq, Eq, Structural)]
pub enum DecoderKind {
    /// VideoToolbox (macOS).
    VideoToolbox,
    /// Media Foundation (Windows).
    MediaFoundation,
    /// Direct3D 12 (Windows, development).
    D3d12,
    /// The null decoder (other systems).
    Null,
}

/// The decoder for a build target and configured backend: VideoToolbox on macOS, the
/// configured backend on Windows, the null decoder elsewhere.
pub fn decoder_kind_for(target: TargetOs, backend: DecoderBackend) -> (k: DecoderKind)
    ensures
        target == TargetOs::MacOs ==> k == DecoderKind::VideoToolbox,
        target == TargetOs::Windows && backend == DecoderBackend::Mf ==> k
            == DecoderKind::MediaFoundation,
        target == TargetOs::Windows && backend == DecoderBackend::D3d12 ==> k == DecoderKind::D3d12,
        target == TargetOs::Other ==> k == DecoderKind::Null,
{
    match target {
        TargetOs::MacOs => DecoderKind::VideoToolbox,
        TargetOs::Windows => match backend {
            DecoderBackend::Mf => DecoderKind::MediaFoundation,
            DecoderBackend::D3d12 => DecoderKind::D3d12,
        },
        TargetOs::Other => DecoderKind::Null,
    }
}

} // verus!
