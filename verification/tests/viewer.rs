use std::time::Duration;

use renderd::cli::{decoder_kind_for, CodecChoice, DecoderBackend, DecoderKind};
use renderd::clock_sync::VsyncReporter;
use renderd::decode::{preferred_codecs, TargetOs};
use renderd::feedback::FeedbackExporter;
use renderd::session::{
    check_tearing_support, keyframe_request_due, loss_to_record, present_next_frame, wake_requests_redraw,
    PresentOutcome, ReconnectBackoff, WakeReason,
};
use renderd::state::{AppState, ConnectionState};
use renderd::decoder::{DecodedFrame, PixelFormat};
use renderd::frame_queue::FrameQueue;
use renderd::render_backends::NullRenderer;
use renderd::renderer::{Renderer, ViewportSize};

#[test]
fn test_vsync_reporter_default_period() {
    let mut reporter = VsyncReporter::new();
    assert_eq!(reporter.vsync_period_ns(), 16_666_666);
    assert_eq!(reporter.reports_sent(), 0);

    let report = reporter.create_vsync_report();
    assert_eq!(report.vsync_period_ns, 16_666_666);
    assert!(report.clock_epoch_ns > 0);
    assert_eq!(reporter.reports_sent(), 1);
}

#[test]
fn test_vsync_reporter_custom_period() {
    let mut reporter = VsyncReporter::new();
    reporter.set_period_ns(8_333_333);
    assert_eq!(reporter.vsync_period_ns(), 8_333_333);

    let report = reporter.create_vsync_report();
    assert_eq!(report.vsync_period_ns, 8_333_333);
}

#[test]
fn vsync_reporter_ignores_zero_period_and_remembers_phase() {
    let mut reporter = VsyncReporter::new();
    reporter.set_period_ns(0);
    assert_eq!(reporter.vsync_period_ns(), 16_666_666);
    let report = reporter.create_vsync_report();
    assert_eq!(reporter.last_report_ns(), report.vsync_phase_ns);
}

#[test]
fn test_app_state_lifecycle() {
    let mut state = AppState::new();
    assert_eq!(state.connection_state(), ConnectionState::Disconnected);
    state.set_connection_state(ConnectionState::Connected);
    assert_eq!(state.connection_state(), ConnectionState::Connected);
    assert!(state.is_running());
    state.stop();
    assert!(!state.is_running());
    assert_eq!(state.metrics().frames_received, 0);
}

#[test]
fn test_codec_choice_auto_matches_platform_preference() {
    for target in [TargetOs::Windows, TargetOs::MacOs, TargetOs::Other] {
        assert_eq!(CodecChoice::Auto.codecs(target), preferred_codecs(target));
    }
}

#[test]
fn test_codec_choice_pins_a_single_codec() {
    assert_eq!(CodecChoice::H264.codecs(TargetOs::Windows), vec!["h264".to_string()]);
    assert_eq!(CodecChoice::Hevc.codecs(TargetOs::Other), vec!["hevc".to_string()]);
}

#[test]
fn defaults_pick_auto_codecs_and_media_foundation() {
    assert_eq!(CodecChoice::default(), CodecChoice::Auto);
    assert_eq!(DecoderBackend::default(), DecoderBackend::Mf);
    assert_eq!(decoder_kind_for(TargetOs::Windows, DecoderBackend::Mf), DecoderKind::MediaFoundation);
    assert_eq!(decoder_kind_for(TargetOs::Windows, DecoderBackend::D3d12), DecoderKind::D3d12);
    assert_eq!(decoder_kind_for(TargetOs::MacOs, DecoderBackend::D3d12), DecoderKind::VideoToolbox);
    assert_eq!(decoder_kind_for(TargetOs::Other, DecoderBackend::Mf), DecoderKind::Null);
}

#[test]
fn test_feedback_exporter_keyframe_request() {
    let mut exporter = FeedbackExporter::new();
    exporter.record_frame(42, Duration::from_micros(500), Duration::from_micros(200));
    exporter.update_bandwidth(15_000.0f32.to_bits());

    let bw = f32::from_bits(exporter.bandwidth_kbps_bits());
    let hint = if bw >= 0.0 { bw as u32 } else { 50_000 };
    let req = exporter.create_keyframe_request(hint);
    assert_eq!(req.after_frame_id, 42);
    assert_eq!(req.bandwidth_hint_kbps, 15_000);
}

#[test]
fn feedback_exporter_counts_gaps_and_means() {
    let mut exporter = FeedbackExporter::new();
    exporter.set_intervals(Duration::ZERO, Duration::ZERO);
    exporter.record_frame(1, Duration::from_micros(400), Duration::from_micros(100));
    exporter.record_frame(4, Duration::from_micros(600), Duration::from_micros(300));
    exporter.record_frame_loss(1);

    let reactive = exporter.maybe_export_reactive().unwrap();
    assert_eq!(reactive.lost_frames, 3);
    assert_eq!(reactive.total_frames, 5);
    assert_eq!(reactive.last_frame_id, 4);

    let periodic = exporter.maybe_export_periodic().unwrap();
    assert_eq!(periodic.decode_time_us, 500);
    assert_eq!(periodic.render_time_us, 200);
    assert_eq!(periodic.frames_displayed, 2);
    assert_eq!(periodic.frames_dropped, 3);

    let again = exporter.maybe_export_periodic().unwrap();
    assert_eq!(again.decode_time_us, 0);
}

#[test]
fn feedback_exporter_waits_for_its_interval() {
    let mut exporter = FeedbackExporter::new();
    exporter.set_intervals(Duration::from_secs(3600), Duration::from_secs(3600));
    exporter.record_frame_loss(2);
    assert!(exporter.maybe_export_reactive().is_none());
    assert!(exporter.maybe_export_periodic().is_none());
}

#[test]
fn reconnect_backoff_doubles_to_its_ceiling() {
    let mut backoff = ReconnectBackoff::new();
    assert_eq!(backoff.current_ms(), 250);
    let waits: Vec<u64> = (0..6).map(|_| backoff.after_attempt()).collect();
    assert_eq!(waits, vec![500, 1000, 2000, 4000, 5000, 5000]);
    backoff.reset();
    assert_eq!(backoff.current_ms(), 250);
}

#[test]
fn session_decisions() {
    assert!(!keyframe_request_due(499));
    assert!(keyframe_request_due(500));
    assert_eq!(loss_to_record(0), 1);
    assert_eq!(loss_to_record(7), 7);
    assert!(wake_requests_redraw(WakeReason::Frame, true));
    assert!(!wake_requests_redraw(WakeReason::ConnectionChanged, false));
}

#[test]
fn present_next_frame_shows_the_newest() {
    let mut queue = FrameQueue::new(4);
    let mut renderer = NullRenderer::new();
    assert!(matches!(present_next_frame(&mut queue, &mut renderer), PresentOutcome::Idle));
    for id in 1..=3u64 {
        queue.push(DecodedFrame {
            frame_id: id,
            pts_ns: id,
            width: 1,
            height: 1,
            format: PixelFormat::Bgra8,
            buffer: vec![0; 4],
            decode_duration: Duration::from_millis(1),
        });
    }
    assert!(matches!(
        present_next_frame(&mut queue, &mut renderer),
        PresentOutcome::RenderFailed(_)
    ));
    queue.push(DecodedFrame {
        frame_id: 9,
        pts_ns: 9,
        width: 1,
        height: 1,
        format: PixelFormat::Bgra8,
        buffer: vec![0; 4],
        decode_duration: Duration::from_millis(1),
    });
    renderer.initialize(ViewportSize { width: 1, height: 1 }).unwrap();
    match present_next_frame(&mut queue, &mut renderer) {
        PresentOutcome::Presented { frame_id, stale } => {
            assert_eq!(frame_id, 9);
            assert_eq!(stale, 0);
        }
        other => panic!("unexpected {other:?}"),
    }
    assert!(queue.is_empty());
}

#[test]
fn test_check_tearing_support_does_not_panic() {
    let supported = check_tearing_support();
    assert!(!supported);
}

#[test]
fn feedback_exporter_keeps_decode_and_render_sums_apart() {
    let mut exporter = FeedbackExporter::new();
    exporter.set_intervals(Duration::ZERO, Duration::ZERO);
    exporter.record_frame(1, Duration::from_micros(400), Duration::from_micros(100));
    let periodic = exporter.maybe_export_periodic().unwrap();
    assert_eq!(periodic.decode_time_us, 400);
    assert_eq!(periodic.render_time_us, 100);
}

#[test]
fn export_steps_follow_their_intervals() {
    let mut exporter = FeedbackExporter::new();
    exporter.record_frame(1, Duration::from_micros(300), Duration::from_micros(100));
    exporter.record_frame_loss(2);
    let now = std::time::Instant::now();
    assert!(exporter.export_reactive_after(now, 99_999_999).is_none());
    let counts = exporter.export_reactive_after(now, 100_000_000).unwrap();
    assert_eq!(counts.lost_frames, 2);
    assert_eq!(counts.total_frames, 3);
    assert!(exporter.export_reactive_after(now, 100_000_000).unwrap().total_frames == 0);

    assert!(exporter.export_periodic_after(now, 499_999_999).is_none());
    let stats = exporter.export_periodic_after(now, 500_000_000).unwrap();
    assert_eq!(stats.decode_time_us, 300);
    assert_eq!(stats.render_time_us, 100);
}
