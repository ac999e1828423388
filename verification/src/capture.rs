use vstd::prelude::*;

use crate::text::{decimal, decimal_text};

verus! {

/// Errors of screen capture.
#[derive(Debug, Clone, PartialEq, Eq)]
pub enum ScError {
    /// Screen recording permission is denied by system policy.
    PermissionDenied,
    /// No active display exists.
    NoDisplaysFound,
    /// A content filter could not be built.
    FilterCreationFailed(String),
    /// The capture stream failed.
    StreamFailed(String),
    /// The stream configuration is invalid.
    InvalidConfiguration(String),
}

impl ScError {
    /// Human-readable description of the error.
    pub fn message(&self) -> (s: String)
        ensures
            *self == ScError::PermissionDenied ==> s@
                == "Screen recording permission denied by macOS system settings (TCC)"@,
            *self == ScError::NoDisplaysFound ==> s@ == "No active displays found for screen capture"@,
            self matches ScError::FilterCreationFailed(d) ==> s@
                == "Failed to create ScreenCaptureKit content filter: "@ + d@,
            self matches ScError::StreamFailed(d) ==> s@ == "ScreenCaptureKit stream error: "@ + d@,
            self matches ScError::InvalidConfiguration(d) ==> s@
                == "Invalid ScreenCaptureKit stream configuration: "@ + d@,
    {
        match self {
            ScError::PermissionDenied => String::from_str(
                "Screen recording permission denied by macOS system settings (TCC)",
            ),
            ScError::NoDisplaysFound => String::from_str("No active displays found for screen capture"),
            ScError::FilterCreationFailed(d) => crate::error::join_text(
                "Failed to create ScreenCaptureKit content filter: ",
                d.as_str(),
            ),
            ScError::StreamFailed(d) => crate::error::join_text(
                "ScreenCaptureKit stream error: ",
                d.as_str(),
            ),
            ScError::InvalidConfiguration(d) => crate::error::join_text(
                "Invalid ScreenCaptureKit stream configuration: ",
                d.as_str(),
            ),
        }
    }
}

/// Screen recording authorization.
#[derive(Debug, Clone, Copy, PartialEq, Eq, Hash, Structural)]
pub enum PermissionStatus {
    /// Granted by the user or a system profile.
    Granted,
    /// Denied, restricted or not yet granted.
    Denied,
}

impl PermissionStatus {
    /// Whether recording is authorized.
    pub fn is_granted(self) -> (b: bool)
        ensures
            b == (self == PermissionStatus::Granted),
    {
        match self {
            PermissionStatus::Granted => true,
            PermissionStatus::Denied => false,
        }
    }

    /// The status a preflight query's answer stands for.
    pub fn from_preflight(granted: bool) -> (s: Self)
        ensures
            s == if granted {
                PermissionStatus::Granted
            } else {
                PermissionStatus::Denied
            },
    {
        if granted {
            PermissionStatus::Granted
        } else {
            PermissionStatus::Denied
        }
    }
}

impl Default for PermissionStatus {
    fn default() -> (s: Self)
        ensures
            s == PermissionStatus::Denied,
    {
        PermissionStatus::Denied
    }
}

/// Screen recording permission manager; its queries go to the platform.
pub struct ScreenRecordingPermission;

/// Errors of virtual display creation.
#[derive(Debug)]
pub enum VirtualDisplayError {
    /// The virtual display classes are absent from this system.
    Unavailable,
    /// A constructor returned nil; names which object.
    Allocation(&'static str),
    /// The system refused the requested mode.
    Rejected {
        /// Requested width in pixels.
        width: u32,
        /// Requested height in pixels.
        height: u32,
        /// Requested refresh rate in hertz.
        refresh_hz: u32,
    },
    /// The requested size has a zero side.
    InvalidSize(u32, u32),
}

impl VirtualDisplayError {
    /// Human-readable description of the error.
    pub fn message(&self) -> (s: String)
        ensures
            self is Unavailable ==> s@ == "CGVirtualDisplay is not available on this macOS version"@,
            self matches VirtualDisplayError::Allocation(what) ==> s@
                == "virtual display allocation failed: "@ + what@,
            self matches VirtualDisplayError::Rejected { width, height, refresh_hz } ==> s@
                == "CoreGraphics rejected the virtual display mode "@ + decimal(width as nat) + "x"@
                + decimal(height as nat) + "@"@ + decimal(refresh_hz as nat),
            self matches VirtualDisplayError::InvalidSize(w, h) ==> s@
                == "virtual display size must be non-zero, got "@ + decimal(w as nat) + "x"@
                + decimal(h as nat),
    {
        match self {
            VirtualDisplayError::Unavailable => String::from_str(
                "CGVirtualDisplay is not available on this macOS version",
            ),
            VirtualDisplayError::Allocation(what) => crate::error::join_text(
                "virtual display allocation failed: ",
                what,
            ),
            VirtualDisplayError::Rejected { width, height, refresh_hz } => {
                let mut s = String::from_str("CoreGraphics rejected the virtual display mode ");
                let a = decimal_text(*width as u64);
                s.append(a.as_str());
                s.append("x");
                let b = decimal_text(*height as u64);
                s.append(b.as_str());
                s.append("@");
                let c = decimal_text(*refresh_hz as u64);
                s.append(c.as_str());
                s
            },
            VirtualDisplayError::InvalidSize(w, h) => {
                let mut s = String::from_str("virtual display size must be non-zero, got ");
                let a = decimal_text(*w as u64);
                s.append(a.as_str());
                s.append("x");
                let b = decimal_text(*h as u64);
                s.append(b.as_str());
                s
            },
        }
    }
}

/// Geometry of a virtual display.
#[derive(Debug, Clone, Copy, PartialEq, Eq, Structural)]
pub struct VirtualDisplayConfig {
    /// Framebuffer width in physical pixels.
    pub width: u32,
    /// Framebuffer height in physical pixels.
    pub height: u32,
    /// Refresh rate advertised, in hertz.
    pub refresh_hz: u32,
    /// Present the display as Retina (UI at twice the scale).
    pub hidpi: bool,
}

/// Framebuffers taller than this are presented as Retina panels.
pub const HIDPI_HEIGHT_THRESHOLD: u32 = 1800;

impl VirtualDisplayConfig {
    /// Geometry with HiDPI chosen by height: a framebuffer taller than 1800 pixels is
    /// treated as a Retina-class panel.
    pub fn new(width: u32, height: u32, refresh_hz: u32) -> (c: Self)
        ensures
            c == (VirtualDisplayConfig {
                width,
                height,
                refresh_hz,
                hidpi: height > HIDPI_HEIGHT_THRESHOLD,
            }),
    {
        VirtualDisplayConfig { width, height, refresh_hz, hidpi: height > HIDPI_HEIGHT_THRESHOLD }
    }

    /// Refuses a geometry with a zero side before any system object is made.
    pub fn check_size(&self) -> (r: Result<(), VirtualDisplayError>)
        ensures
            (self.width == 0 || self.height == 0) ==> (r matches Err(
                VirtualDisplayError::InvalidSize(w, h),
            ) && w == self.width && h == self.height),
            (self.width != 0 && self.height != 0) ==> r is Ok,
    {
        if self.width == 0 || self.height == 0 {
            return Err(VirtualDisplayError::InvalidSize(self.width, self.height));
        }
        Ok(())
    }

    /// The logical resolution macOS reports: half the framebuffer on HiDPI displays.
    pub fn logical_size(&self) -> (size: (u32, u32))
        ensures
            size == if self.hidpi {
                (self.width / 2, self.height / 2)
            } else {
                (self.width, self.height)
            },
    {
        if self.hidpi {
            (self.width / 2, self.height / 2)
        } else {
            (self.width, self.height)
        }
    }

    /// The refresh rate given to the display mode: at least one hertz.
    pub fn mode_refresh_hz(&self) -> (hz: u32)
        ensures
            hz == if self.refresh_hz < 1 {
                1
            } else {
                self.refresh_hz
            },
    {
        if self.refresh_hz < 1 {
            1
        } else {
            self.refresh_hz
        }
    }
}

/// Integer division rounding toward zero, as Rust's `/` on signed integers does.
pub open spec fn div_toward_zero(n: int, d: int) -> int {
    if n >= 0 {
        n / d
    } else {
        -((-n) / d)
    }
}

/// A presentation timestamp in nanoseconds from a media time of `value` ticks at
/// `timescale` ticks per second; zero for a non-positive timescale.
pub fn media_time_to_ns(value: i64, timescale: i32) -> (ns: i64)
    requires
        timescale > 0 ==> i64::MIN <= value * 1_000_000_000 <= i64::MAX,
    ensures
        timescale > 0 ==> ns == div_toward_zero(value * 1_000_000_000, timescale as int),
        timescale <= 0 ==> ns == 0,
{
    if timescale > 0 {
        (value * 1_000_000_000) / (timescale as i64)
    } else {
        0
    }
}

} // verus!
