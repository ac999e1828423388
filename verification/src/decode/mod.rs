use vstd::prelude::*;

pub mod d3d12_decode;
pub mod mf_decode;
pub mod videotoolbox_decode;

pub use d3d12_decode::D3D12Decoder;
pub use mf_decode::MediaFoundationDecoder;
pub use videotoolbox_decode::VideoToolboxDecoder;


verus! {

/// The operating system a viewer build targets, as far as codec choice depends on it.
#[derive(Debug, Clone, Copy, PartialEq, Eq, Structural)]
pub enum TargetOs {
    /// Windows 10 or later.
    Windows,
    /// macOS.
    MacOs,
    /// Any other system.
    Other,
}

/// Codecs offered to the host, most preferred first: the host picks the first it can
/// encode. Windows leads with H.264, whose decoder every install ships, since HEVC needs
/// an optional extension; elsewhere HEVC leads.
pub fn preferred_codecs(target: TargetOs) -> (codecs: Vec<String>)
    ensures
        codecs@.len() == 2,
        target == TargetOs::Windows ==> codecs@[0]@ == "h264"@ && codecs@[1]@ == "hevc"@,
        target != TargetOs::Windows ==> codecs@[0]@ == "hevc"@ && codecs@[1]@ == "h264"@,
{
    match target {
        TargetOs::Windows => vec![String::from_str("h264"), String::from_str("hevc")],
        _ => vec![String::from_str("hevc"), String::from_str("h264")],
    }
}

} // verus!
