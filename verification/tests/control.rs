use renderd::control::{ViewerControlClient, MIN_REQUIRED_VERSION};
use renderd::error::ViewerError;
use renderd::proto::envelope::ValidateHello;
use renderd::proto::messages::{
    DisplayInfo, Envelope, ErrorMessage, KeyframeRequest, Payload, SessionConfig, PROTOCOL_VERSION,
};
use uuid::Uuid;

fn test_display() -> DisplayInfo {
    DisplayInfo { width: 1920, height: 1080, refresh_rate_bits: 60.0f32.to_bits(), vrr_supported: false }
}

fn network_text<T: std::fmt::Debug>(r: Result<T, ViewerError>) -> String {
    match r {
        Err(ViewerError::Network(m)) => m,
        other => panic!("expected a network error, got {other:?}"),
    }
}

fn good_config() -> SessionConfig {
    SessionConfig {
        selected_codec: "hevc".to_string(),
        width: 1920,
        height: 1080,
        frame_rate_bits: 60.0f32.to_bits(),
        initial_bitrate_kbps: 30_000,
        codec_extra_data: Vec::new(),
        phase_sync_enabled: true,
    }
}

#[test]
fn test_viewer_control_client_construction() {
    let vid = Uuid::new_v4();
    let client = ViewerControlClient::new(vid.as_u128());
    assert_eq!(client.viewer_id(), vid.as_u128());
}

#[test]
fn session_hello_carries_the_viewer_and_a_uuid_nonce() {
    let vid = Uuid::new_v4();
    let client = ViewerControlClient::new(vid.as_u128());
    let hello = client
        .session_hello(test_display(), vec!["hevc".to_string()], 30_000, true)
        .expect("valid hello");
    assert_eq!(hello.protocol_version, PROTOCOL_VERSION);
    assert_eq!(hello.min_required_version, MIN_REQUIRED_VERSION);
    assert_eq!(hello.viewer_id, vid.to_string());
    assert_eq!(hello.supported_codecs, vec!["hevc".to_string()]);
    assert_eq!(hello.max_decode_bitrate_kbps, 30_000);
    assert_eq!(hello.display, Some(test_display()));
    assert!(hello.hw_decode_available);
    assert!(Uuid::parse_str(&hello.session_nonce).is_ok());
    assert_eq!(hello.session_nonce.len(), 36);
    assert!(hello.validate(PROTOCOL_VERSION).is_ok());
}

#[test]
fn build_hello_keeps_the_given_nonce() {
    let client = ViewerControlClient::new(0x67e5_5044_10b1_426f_9247_bb68_0e5f_e0c8);
    let hello = client
        .build_hello(test_display(), vec!["h264".to_string()], 1, false, "nonce".to_string())
        .expect("valid hello");
    assert_eq!(hello.viewer_id, "67e55044-10b1-426f-9247-bb680e5fe0c8");
    assert_eq!(hello.session_nonce, "nonce");
}

#[test]
fn build_hello_reports_its_first_failed_check() {
    let client = ViewerControlClient::new(1);
    assert_eq!(
        network_text(client.build_hello(test_display(), Vec::new(), 1, true, "n".to_string())),
        "SessionHello is invalid: Missing required field: supported_codecs"
    );
    assert_eq!(
        network_text(client.build_hello(
            test_display(),
            vec!["hevc".to_string(), "vp9".to_string()],
            1,
            true,
            String::new()
        )),
        "SessionHello is invalid: Invalid field 'supported_codecs': Unsupported codec 'vp9'; must be 'hevc' or 'h264'"
    );
    assert_eq!(
        network_text(client.build_hello(test_display(), vec!["hevc".to_string()], 1, true, String::new())),
        "SessionHello is invalid: Missing required field: session_nonce"
    );
    let flat = DisplayInfo { width: 0, ..test_display() };
    assert_eq!(
        network_text(client.build_hello(flat, vec!["hevc".to_string()], 1, true, "n".to_string())),
        "SessionHello is invalid: Invalid field 'display': Display dimensions must be greater than zero"
    );
    let still = DisplayInfo { refresh_rate_bits: 0.0f32.to_bits(), ..test_display() };
    assert_eq!(
        network_text(client.session_hello(still, vec!["hevc".to_string()], 1, true)),
        "SessionHello is invalid: Invalid field 'display.refresh_rate': Refresh rate must be positive"
    );
}

#[test]
fn accept_config_takes_a_valid_configuration() {
    let client = ViewerControlClient::new(1);
    let got = client
        .accept_config(Envelope { payload: Some(Payload::Config(good_config())) })
        .expect("valid config");
    assert_eq!(got, good_config());
}

#[test]
fn accept_config_reports_an_invalid_configuration() {
    let client = ViewerControlClient::new(1);
    let bad = SessionConfig { selected_codec: "vp9".to_string(), ..good_config() };
    assert_eq!(
        network_text(client.accept_config(Envelope { payload: Some(Payload::Config(bad)) })),
        "Received invalid SessionConfig: Invalid field 'selected_codec': Invalid selected codec 'vp9'; must be 'hevc' or 'h264'"
    );
    let no_bitrate = SessionConfig { initial_bitrate_kbps: 0, ..good_config() };
    assert_eq!(
        network_text(client.accept_config(Envelope { payload: Some(Payload::Config(no_bitrate)) })),
        "Received invalid SessionConfig: Invalid field 'initial_bitrate_kbps': Initial bitrate must be greater than zero"
    );
}

#[test]
fn accept_config_reports_a_rejection_and_other_replies() {
    let client = ViewerControlClient::new(1);
    let refusal = ErrorMessage { code: 403, message: "not paired".to_string() };
    assert_eq!(
        network_text(client.accept_config(Envelope { payload: Some(Payload::Error(refusal)) })),
        "Host rejected session: code=403 msg=not paired"
    );
    assert_eq!(
        network_text(client.accept_config(Envelope { payload: None })),
        "Expected SessionConfig, got unexpected variant: None"
    );
    let other = Payload::KeyframeRequest(KeyframeRequest { after_frame_id: 1, bandwidth_hint_kbps: 2 });
    assert_eq!(
        network_text(client.accept_config(Envelope { payload: Some(other) })),
        "Expected SessionConfig, got unexpected variant: Some(Discriminant(5))"
    );
}

#[test]
fn session_nonces_are_version_four_uuids() {
    let client = ViewerControlClient::new(1);
    let hello = client.session_hello(test_display(), vec!["hevc".to_string()], 1, true).unwrap();
    let nonce = Uuid::parse_str(&hello.session_nonce).unwrap();
    assert_eq!(nonce.get_version_num(), 4);
    assert_eq!(nonce.get_variant(), uuid::Variant::RFC4122);
}
