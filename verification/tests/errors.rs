use renderd::capture::{
    media_time_to_ns, PermissionStatus, ScError, VirtualDisplayConfig, VirtualDisplayError,
};
use renderd::error::ViewerError;
use renderd::keychain::KeychainError;
use renderd::net::NetError;

#[test]
fn test_viewer_error_display() {
    let err = ViewerError::Window("creation failed".to_string());
    assert_eq!(err.message(), "Window error: creation failed");
}

#[test]
fn viewer_error_kinds_have_their_prefixes() {
    assert_eq!(ViewerError::Renderer("x".into()).message(), "Renderer error: x");
    assert_eq!(ViewerError::Decoder("y".into()).message(), "Decoder error: y");
    assert_eq!(ViewerError::Config("z".into()).message(), "Configuration error: z");
    assert_eq!(ViewerError::Network("n".into()).message(), "Network error: n");
    let io = std::io::Error::other("disk");
    assert_eq!(ViewerError::Io(io).message(), "I/O error: disk");
}

#[test]
fn test_error_display_formatting() {
    assert_eq!(
        ScError::PermissionDenied.message(),
        "Screen recording permission denied by macOS system settings (TCC)"
    );
    assert_eq!(
        ScError::NoDisplaysFound.message(),
        "No active displays found for screen capture"
    );
    assert_eq!(
        ScError::FilterCreationFailed("display ID 1 not found".into()).message(),
        "Failed to create ScreenCaptureKit content filter: display ID 1 not found"
    );
    assert_eq!(
        ScError::StreamFailed("stream start timeout".into()).message(),
        "ScreenCaptureKit stream error: stream start timeout"
    );
    assert_eq!(
        ScError::InvalidConfiguration("fps must be > 0".into()).message(),
        "Invalid ScreenCaptureKit stream configuration: fps must be > 0"
    );
}

#[test]
fn test_error_trait_impl() {
    let err = ScError::PermissionDenied;
    assert!(err.message().contains("TCC"));
}

#[test]
fn test_config_picks_hidpi_for_4k() {
    assert!(!VirtualDisplayConfig::new(1920, 1080, 60).hidpi);
    assert!(VirtualDisplayConfig::new(3840, 2160, 60).hidpi);
}

#[test]
fn hidpi_starts_above_eighteen_hundred_rows() {
    assert!(!VirtualDisplayConfig::new(2880, 1800, 60).hidpi);
    assert!(VirtualDisplayConfig::new(2880, 1801, 60).hidpi);
}

#[test]
fn test_zero_size_rejected_before_touching_objc() {
    let err = VirtualDisplayConfig::new(0, 1080, 60).check_size().unwrap_err();
    assert!(matches!(err, VirtualDisplayError::InvalidSize(0, 1080)));
    assert_eq!(err.message(), "virtual display size must be non-zero, got 0x1080");
}

#[test]
fn virtual_display_geometry_helpers() {
    let cfg = VirtualDisplayConfig::new(3840, 2160, 0);
    assert_eq!(cfg.logical_size(), (1920, 1080));
    assert_eq!(cfg.mode_refresh_hz(), 1);
    assert_eq!(VirtualDisplayConfig::new(1280, 720, 60).logical_size(), (1280, 720));
    let rejected = VirtualDisplayError::Rejected { width: 1280, height: 720, refresh_hz: 60 };
    assert_eq!(
        rejected.message(),
        "CoreGraphics rejected the virtual display mode 1280x720@60"
    );
}

#[test]
fn permission_status_defaults_to_denied() {
    assert!(!PermissionStatus::default().is_granted());
    assert!(PermissionStatus::from_preflight(true).is_granted());
    assert_eq!(PermissionStatus::from_preflight(false), PermissionStatus::Denied);
}

#[test]
fn media_time_rounds_toward_zero() {
    assert_eq!(media_time_to_ns(3, 600), 5_000_000);
    assert_eq!(media_time_to_ns(-1, 3), -333_333_333);
    assert_eq!(media_time_to_ns(42, 0), 0);
}

#[test]
fn keychain_and_net_error_texts() {
    assert_eq!(
        KeychainError::NotFound("abc".into()).message(),
        "Pairing entry not found for peer abc"
    );
    assert_eq!(
        KeychainError::Platform("p".into()).message(),
        "Keychain platform failure: p"
    );
    assert_eq!(
        KeychainError::Serialization("s".into()).message(),
        "Serialization error: s"
    );
    assert_eq!(NetError::Tls("t".into()).message(), "TLS configuration error: t");
    assert_eq!(NetError::Framing("f".into()).message(), "Framing error: f");
    assert_eq!(
        NetError::DatagramTooLarge { size: 2000, max: 1452 }.message(),
        "Datagram of 2000 bytes exceeds the path maximum of 1452"
    );
}
