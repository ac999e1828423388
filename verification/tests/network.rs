use renderd::net::{
    alpn_protocol, certificate_matches_pin, frame_control_payload, initial_mtu_for,
    parse_length_prefix, FragmentBurst, NetError, MAX_CONTROL_MESSAGE_SIZE,
};
use renderd::decoder::{Decoder, NullDecoder};
use renderd::error::ViewerError;
use renderd::network::{
    deliver_frame, frame_pts_ns, DatagramReceiver, FrameAction, ReceiveLoopState, RecoverySignal,
};

#[test]
fn test_burst_empty_slice() {
    let _ = FragmentBurst;
}

#[test]
fn test_datagram_receiver_short_header_drop() {
    let mut receiver = DatagramReceiver::new(4);
    let short_pkt = vec![0u8; 10];
    let res = receiver.accept_datagram(short_pkt.len());
    assert!(res.is_err());
    assert_eq!(receiver.dropped_fragments(), 1);
    assert_eq!(receiver.received_datagrams(), 1);
    match res {
        Err(e) => assert_eq!(e.message(), "Network error: Datagram length 10 under 16-byte header size"),
        Ok(()) => unreachable!(),
    }
}

#[test]
fn receiver_counts_reassembled_frames_and_refusals() {
    let mut receiver = DatagramReceiver::default();
    assert_eq!(receiver.window_size(), 4);
    assert!(receiver.accept_datagram(16).is_ok());
    receiver.record_reassembled();
    let err = receiver.reject_fragment("Reassembly error: ", "Duplicate");
    assert_eq!(err.message(), "Network error: Reassembly error: Duplicate");
    assert_eq!(receiver.received_datagrams(), 1);
    assert_eq!(receiver.reassembled_frames(), 1);
    assert_eq!(receiver.dropped_fragments(), 1);
}

#[test]
fn backlog_skips_non_keyframes_until_a_keyframe_and_never_reports_loss() {
    let mut state = ReceiveLoopState::new(0);
    assert_eq!(state.on_batch(1), None);
    assert_eq!(state.on_frame(true), FrameAction::Decode);

    assert_eq!(state.on_batch(19), Some(RecoverySignal::DecodeBacklog));
    assert!(state.is_awaiting_keyframe());
    let decided: Vec<FrameAction> = (2..=20u64).map(|id| state.on_frame(id == 15)).collect();
    for (i, action) in decided.iter().enumerate() {
        let id = i as u64 + 2;
        if id < 15 {
            assert_eq!(*action, FrameAction::Skip, "frame {id}");
        } else {
            assert_eq!(*action, FrameAction::Decode, "frame {id}");
        }
    }
    assert!(!state.is_awaiting_keyframe());
    assert_eq!(state.on_window_drops(0), None);
}

#[test]
fn window_evictions_are_reported_once() {
    let mut state = ReceiveLoopState::new(2);
    assert_eq!(state.on_window_drops(2), None);
    assert_eq!(state.on_window_drops(5), Some(RecoverySignal::FragmentLoss(3)));
    assert_eq!(state.on_window_drops(5), None);
    assert_eq!(state.on_reassembly_error(), RecoverySignal::FragmentLoss(1));
    assert!(ReceiveLoopState::keep_draining(4095));
    assert!(!ReceiveLoopState::keep_draining(4096));
    assert_eq!(frame_pts_ns(1000), 1_000_000);
}

#[test]
fn control_frames_round_trip_through_the_length_prefix() {
    let payload = vec![9u8; 300];
    let framed = frame_control_payload(&payload).unwrap();
    assert_eq!(&framed[..4], &[0, 0, 1, 44]);
    let prefix = [framed[0], framed[1], framed[2], framed[3]];
    assert_eq!(parse_length_prefix(prefix).unwrap(), 300);
    assert_eq!(&framed[4..], payload.as_slice());
}

#[test]
fn oversized_control_lengths_are_refused() {
    let too_big = (MAX_CONTROL_MESSAGE_SIZE as u32 + 1).to_be_bytes();
    match parse_length_prefix(too_big) {
        Err(NetError::Framing(m)) => assert_eq!(
            m,
            "Incoming payload size 16777217 exceeds maximum allowed size 16777216"
        ),
        other => panic!("unexpected {other:?}"),
    }
    let payload = vec![0u8; MAX_CONTROL_MESSAGE_SIZE + 1];
    assert!(matches!(frame_control_payload(&payload), Err(NetError::Framing(_))));
}

#[test]
fn test_transport_config_clamps_mtu() {
    assert_eq!(initial_mtu_for(100), 1200);
    assert_eq!(initial_mtu_for(9000), 1500);
    assert_eq!(initial_mtu_for(1400), 1400);
}

#[test]
fn pinning_compares_whole_certificates() {
    assert!(certificate_matches_pin(b"abc", b"abc"));
    assert!(!certificate_matches_pin(b"abc", b"abd"));
    assert!(!certificate_matches_pin(b"ab", b"abc"));
    assert_eq!(alpn_protocol(), b"renderd-v1".to_vec());
}

#[test]
fn delivered_frames_reach_the_decoder_with_their_time() {
    let mut decoder = NullDecoder::new();
    assert!(matches!(deliver_frame(&mut decoder, &[1, 2, 3], 7, 10), Err(ViewerError::Decoder(_))));

    decoder.initialize("hevc", 2, 2).unwrap();
    assert_eq!(deliver_frame(&mut decoder, &[0u8; 16], 7, 10).unwrap(), 7);
    let frame = decoder.receive_frame().unwrap().unwrap();
    assert_eq!(frame.frame_id, 7);
    assert_eq!(frame.pts_ns, 10_000);
    assert_eq!(frame.buffer, vec![0u8; 16]);
}

#[test]
fn a_backlog_batch_skips_until_its_first_keyframe() {
    let mut state = ReceiveLoopState::new(0);
    let (signal, actions) = state.decide_batch(3, &[false, true, false]);
    assert_eq!(signal, Some(RecoverySignal::DecodeBacklog));
    assert_eq!(actions, vec![FrameAction::Skip, FrameAction::Decode, FrameAction::Decode]);
    assert!(!state.is_awaiting_keyframe());

    let (signal, actions) = state.decide_batch(1, &[false]);
    assert_eq!(signal, None);
    assert_eq!(actions, vec![FrameAction::Decode]);

    let (_, actions) = state.decide_batch(2, &[false, false]);
    assert_eq!(actions, vec![FrameAction::Skip, FrameAction::Skip]);
    assert!(state.is_awaiting_keyframe());
}
