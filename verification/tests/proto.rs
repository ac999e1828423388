use renderd::proto::envelope::{f32_at_most_zero, MessageKind, ValidateConfig, ValidateHello};
use renderd::proto::error::ProtoError;
use renderd::proto::messages::{
    DisplayInfo, Envelope, Payload, SessionConfig, SessionHello, VsyncReport, PROTOCOL_VERSION,
};
use renderd::proto::types::{BitrateKbps, FragmentId, FrameId, HostId, VsyncPeriodNs, ViewerId};
use uuid::Uuid;

fn test_display() -> DisplayInfo {
    DisplayInfo { width: 1920, height: 1080, refresh_rate_bits: 60.0f32.to_bits(), vrr_supported: false }
}

#[test]
fn test_envelope_kind() {
    let env_empty = Envelope { payload: None };
    assert_eq!(env_empty.kind(), MessageKind::Unknown);

    let env_hello = Envelope { payload: Some(Payload::Hello(SessionHello::default())) };
    assert_eq!(env_hello.kind(), MessageKind::SessionHello);

    let env_vsync = Envelope {
        payload: Some(Payload::VsyncReport(VsyncReport {
            vsync_period_ns: 1,
            vsync_phase_ns: 2,
            clock_epoch_ns: 3,
        })),
    };
    assert_eq!(env_vsync.kind(), MessageKind::VsyncReport);
}

#[test]
fn test_validate_hello() {
    let mut hello = SessionHello {
        protocol_version: 1,
        min_required_version: 1,
        viewer_id: Uuid::new_v4().to_string(),
        supported_codecs: vec!["hevc".to_string()],
        max_decode_bitrate_kbps: 50000,
        display: Some(test_display()),
        hw_decode_available: true,
        session_nonce: "nonce_123".to_string(),
    };

    assert!(hello.validate(1).is_ok());

    hello.min_required_version = 2;
    assert!(matches!(hello.validate(1), Err(ProtoError::IncompatibleVersion { .. })));
    hello.min_required_version = 1;

    hello.viewer_id = String::new();
    assert_eq!(hello.validate(1), Err(ProtoError::MissingField("viewer_id")));
}

#[test]
fn hello_checks_follow_their_order() {
    let mut hello = SessionHello {
        protocol_version: 1,
        min_required_version: 1,
        viewer_id: "not-a-uuid".to_string(),
        supported_codecs: vec!["hevc".to_string(), "vp9".to_string()],
        max_decode_bitrate_kbps: 1,
        display: None,
        hw_decode_available: false,
        session_nonce: String::new(),
    };
    assert_eq!(
        hello.validate(1),
        Err(ProtoError::InvalidValue {
            field: "viewer_id",
            reason: "Must be a valid UUID string".to_string()
        })
    );
    hello.viewer_id = format!("{{{}}}", Uuid::new_v4());
    assert_eq!(
        hello.validate(1),
        Err(ProtoError::InvalidValue {
            field: "supported_codecs",
            reason: "Unsupported codec 'vp9'; must be 'hevc' or 'h264'".to_string()
        })
    );
    hello.supported_codecs = vec!["h264".to_string()];
    assert_eq!(hello.validate(1), Err(ProtoError::MissingField("session_nonce")));
    hello.session_nonce = "n".to_string();
    assert_eq!(hello.validate(1), Err(ProtoError::MissingField("display")));
    hello.display = Some(DisplayInfo { width: 0, ..test_display() });
    assert!(matches!(hello.validate(1), Err(ProtoError::InvalidValue { field: "display", .. })));
    hello.display = Some(DisplayInfo { refresh_rate_bits: (-0.0f32).to_bits(), ..test_display() });
    assert!(matches!(
        hello.validate(1),
        Err(ProtoError::InvalidValue { field: "display.refresh_rate", .. })
    ));
    hello.display = Some(test_display());
    assert!(hello.validate(1).is_ok());
    hello.supported_codecs.clear();
    assert_eq!(hello.validate(1), Err(ProtoError::MissingField("supported_codecs")));
}

#[test]
fn test_session_hello_fields_valid() {
    let hello = SessionHello {
        protocol_version: PROTOCOL_VERSION,
        min_required_version: 1,
        viewer_id: Uuid::new_v4().to_string(),
        supported_codecs: vec!["hevc".to_string()],
        max_decode_bitrate_kbps: 30_000,
        display: Some(test_display()),
        hw_decode_available: true,
        session_nonce: Uuid::new_v4().to_string(),
    };
    assert!(hello.validate(PROTOCOL_VERSION).is_ok());
}

#[test]
fn test_validate_config() {
    let mut config = SessionConfig {
        selected_codec: "hevc".to_string(),
        width: 1920,
        height: 1080,
        frame_rate_bits: 60.0f32.to_bits(),
        initial_bitrate_kbps: 30000,
        codec_extra_data: vec![],
        phase_sync_enabled: true,
    };

    assert!(config.validate().is_ok());

    config.selected_codec = "vp9".to_string();
    assert!(matches!(config.validate(), Err(ProtoError::InvalidValue { .. })));
}

#[test]
fn config_checks_size_rate_and_bitrate() {
    let mut config = SessionConfig {
        selected_codec: "h264".to_string(),
        width: 0,
        height: 1080,
        frame_rate_bits: f32::NAN.to_bits(),
        initial_bitrate_kbps: 0,
        codec_extra_data: vec![1],
        phase_sync_enabled: false,
    };
    assert!(matches!(config.validate(), Err(ProtoError::InvalidValue { field: "dimensions", .. })));
    config.width = 1;
    assert!(matches!(
        config.validate(),
        Err(ProtoError::InvalidValue { field: "initial_bitrate_kbps", .. })
    ));
    config.frame_rate_bits = (-30.0f32).to_bits();
    assert!(matches!(config.validate(), Err(ProtoError::InvalidValue { field: "frame_rate", .. })));
}

#[test]
fn float_sign_checks_match_comparison_with_zero() {
    for v in [0.0f32, -0.0, 1.0, -1.0, f32::INFINITY, f32::NEG_INFINITY, f32::NAN, 1e-40, -1e-40] {
        assert_eq!(f32_at_most_zero(v.to_bits()), v <= 0.0, "value {v}");
    }
}

#[test]
fn proto_error_messages() {
    assert_eq!(
        ProtoError::MissingField("display").message(),
        "Missing required field: display"
    );
    assert_eq!(
        ProtoError::InvalidValue { field: "frame_rate", reason: "bad".to_string() }.message(),
        "Invalid field 'frame_rate': bad"
    );
    assert_eq!(
        ProtoError::IncompatibleVersion { required: 3, supported: 1 }.message(),
        "Incompatible protocol version: peer requires 3, supported is 1"
    );
}

#[test]
fn test_types_conversions_and_display() {
    let frame_id = FrameId::from(42);
    assert_eq!(u64::from(frame_id), 42);
    assert_eq!(frame_id.to_text(), "FrameId(42)");

    let frag_id = FragmentId::from(5);
    assert_eq!(u16::from(frag_id), 5);
    assert_eq!(frag_id.to_text(), "FragmentId(5)");

    let bitrate = BitrateKbps::from(30000);
    assert_eq!(u32::from(bitrate), 30000);
    assert_eq!(bitrate.to_text(), "30000 kbps");

    let vsync = VsyncPeriodNs::from(16_666_666);
    assert_eq!(u64::from(vsync), 16_666_666);
    assert_eq!(vsync.to_text(), "16666666 ns");

    let uuid = Uuid::new_v4();
    let viewer_id = ViewerId::from(uuid.as_u128());
    assert_eq!(Uuid::from_u128(u128::from(viewer_id)), uuid);
    assert_eq!(viewer_id.to_text(), format!("ViewerId({uuid})"));

    let host_id = HostId::from(uuid.as_u128());
    assert_eq!(Uuid::from_u128(u128::from(host_id)), uuid);
    assert_eq!(host_id.to_text(), format!("HostId({uuid})"));
}

#[test]
fn id_texts_of_fixed_values() {
    let v = 0xa1a2a3a4b1b2c1c2d1d2d3d4d5d6d7d8u128;
    assert_eq!(
        HostId(v).to_text(),
        "HostId(a1a2a3a4-b1b2-c1c2-d1d2-d3d4d5d6d7d8)"
    );
    assert_eq!(FrameId(0).to_text(), "FrameId(0)");
    assert_eq!(FrameId(u64::MAX).to_text(), "FrameId(18446744073709551615)");
}
