use std::time::Duration;

use renderd::decode::mf_decode::{
    copy_nv12_planes, ns_to_mf_ticks, pack_size, subtype_for_codec, unpack_size, MfSubtype,
    SampleLayout,
};
use renderd::decode::videotoolbox_decode::{callback_frame, vt_codec_for, VtCodec};
use renderd::decode::{preferred_codecs, D3D12Decoder, MediaFoundationDecoder, TargetOs, VideoToolboxDecoder};
use renderd::decoder::{Decoder, NullDecoder, PixelFormat};

const MF_TICKS_PER_SECOND: i64 = 10_000_000;

#[test]
fn test_null_decoder_lifecycle() {
    let mut decoder = NullDecoder::new();
    assert!(!decoder.is_initialized());
    assert!(decoder.decode_packet(&[1, 2, 3], 1, 100).is_err());

    decoder.initialize("hevc", 1920, 1080).unwrap();
    assert!(decoder.is_initialized());
    assert!(decoder.decode_packet(&[1, 2, 3], 1, 100).is_ok());
    assert!(decoder.receive_frame().unwrap().is_some());
    assert!(decoder.reset().is_ok());
}

#[test]
fn null_decoder_generates_the_gradient_pattern() {
    let mut decoder = NullDecoder::new();
    decoder.initialize("h264", 2, 2).unwrap();
    decoder.decode_packet(&[9], 3, 55).unwrap();
    let frame = decoder.receive_frame().unwrap().unwrap();
    assert_eq!(frame.frame_id, 3);
    assert_eq!(frame.pts_ns, 55);
    assert_eq!(frame.format, PixelFormat::Bgra8);
    // red = x*255/2, green = y*255/2, blue = red + green + 21 (mod 256), alpha opaque.
    assert_eq!(
        frame.buffer,
        vec![21, 0, 0, 255, 148, 0, 127, 255, 148, 127, 0, 255, 19, 127, 127, 255]
    );
    assert!(decoder.receive_frame().unwrap().is_none());
}

#[test]
fn null_decoder_passes_through_a_full_image() {
    let mut decoder = NullDecoder::new();
    decoder.initialize("hevc", 1, 2).unwrap();
    let image = [1u8, 2, 3, 4, 5, 6, 7, 8];
    decoder.decode_packet(&image, 1, 0).unwrap();
    let frame = decoder.receive_frame().unwrap().unwrap();
    assert_eq!(frame.buffer, image.to_vec());
}

#[test]
fn test_d3d12_decoder_lifecycle() {
    let mut decoder = D3D12Decoder::new();
    assert!(decoder.receive_frame().is_err() || decoder.codec().is_empty());

    decoder.initialize("hevc", 1920, 1080).unwrap();
    assert_eq!(decoder.codec(), "hevc");

    let test_packet = vec![0x00, 0x00, 0x00, 0x01, 0x40, 0x01];
    decoder.decode_packet(&test_packet, 1, 16_666_666).unwrap();

    let frame = decoder.receive_frame().unwrap().expect("Decoded frame output");
    assert_eq!(frame.frame_id, 1);
    assert_eq!(frame.format, PixelFormat::Nv12);
    assert_eq!(frame.buffer[0], 0x00);

    assert_eq!(decoder.decoded_count(), 1);
    assert!(decoder.reset().is_ok());
}

#[test]
fn d3d12_decoder_lowercases_codec_and_fills_neutral_chroma() {
    let mut decoder = D3D12Decoder::new();
    decoder.initialize("HEVC", 2, 2).unwrap();
    assert_eq!(decoder.codec(), "hevc");
    decoder.decode_packet(&[7, 9], 4, 8).unwrap();
    let frame = decoder.receive_frame().unwrap().unwrap();
    assert_eq!(frame.buffer, vec![7, 128, 128, 128, 128, 128]);
}

#[test]
fn test_new_decoder_is_empty() {
    let decoder = MediaFoundationDecoder::new();
    assert!(decoder.codec().is_empty());
    assert_eq!(decoder.decoded_count(), 0);
    assert_eq!(decoder.output_dimensions(), (0, 0));
}

#[test]
fn test_zero_dimensions_rejected() {
    let mut decoder = MediaFoundationDecoder::new();
    let err = decoder.initialize("h264", 0, 0).unwrap_err();
    assert!(err.message().contains("0x0"), "got: {}", err.message());
}

#[test]
fn test_decode_before_initialize_is_error() {
    let mut decoder = MediaFoundationDecoder::new();
    assert!(decoder.decode_packet(&[0u8; 8], 1, 0).is_err());
}

#[test]
fn test_reset_clears_state() {
    let mut decoder = MediaFoundationDecoder::new();
    assert!(decoder.reset().is_ok());
    assert_eq!(decoder.decoded_count(), 0);
}

#[test]
fn test_frame_size_packing_roundtrips() {
    for (w, h) in [(1920, 1080), (3840, 2160), (1, 1), (u32::MAX, u32::MAX)] {
        assert_eq!(unpack_size(pack_size(w, h)), (w, h));
    }
}

#[test]
fn test_ns_to_mf_ticks() {
    assert_eq!(ns_to_mf_ticks(0), 0);
    assert_eq!(ns_to_mf_ticks(1_000_000_000), MF_TICKS_PER_SECOND);
    assert_eq!(ns_to_mf_ticks(u64::MAX), i64::MAX);
}

#[test]
fn pack_size_puts_width_in_the_high_half() {
    assert_eq!(pack_size(1920, 1080), (1920u64 << 32) | 1080);
}

#[test]
fn media_foundation_initialize_reports_platform() {
    let mut decoder = MediaFoundationDecoder::new();
    let err = decoder.initialize("H264", 640, 480).unwrap_err();
    assert_eq!(
        err.message(),
        "Decoder error: MediaFoundationDecoder is only available on Windows"
    );
    assert_eq!(decoder.codec(), "h264");
    assert_eq!(decoder.output_dimensions(), (640, 480));
}

#[test]
fn subtype_names_cover_both_codecs() {
    assert!(matches!(subtype_for_codec("avc1"), Ok(MfSubtype::H264)));
    assert!(matches!(subtype_for_codec("h265"), Ok(MfSubtype::Hevc)));
    match subtype_for_codec("vp9") {
        Err(e) => assert_eq!(
            e.message(),
            "Decoder error: unsupported codec 'vp9'; expected h264 or hevc"
        ),
        Ok(_) => panic!("vp9 must be refused"),
    }
}

#[test]
fn copy_nv12_planes_skips_padding_rows_and_columns() {
    // 3x2 visible inside a 4-byte pitch, coded height 2: luma rows then chroma row.
    let src: Vec<u8> = vec![1, 2, 3, 0, 4, 5, 6, 0, 7, 8, 9, 0];
    let mut out = Vec::new();
    assert!(copy_nv12_planes(&src, 4, 3, 2, 2, &mut out));
    assert_eq!(out, vec![1, 2, 3, 4, 5, 6, 7, 8, 9]);

    let mut untouched = vec![42u8];
    assert!(!copy_nv12_planes(&src, 2, 3, 2, 2, &mut untouched));
    assert_eq!(untouched, vec![42]);
}

#[test]
fn sample_to_frame_checks_contiguous_length() {
    let decoder = MediaFoundationDecoder::new();
    let frame = decoder
        .sample_to_frame(&[], SampleLayout::Contiguous, 1, 2, Duration::from_millis(1))
        .unwrap();
    assert!(frame.buffer.is_empty());
    assert_eq!(frame.format, PixelFormat::Nv12);
    let err = decoder
        .sample_to_frame(&[], SampleLayout::Strided { pitch: -4 }, 1, 2, Duration::from_millis(1))
        .unwrap_err();
    assert_eq!(
        err.message(),
        "Decoder error: NV12 sample reported a negative stride (-4)"
    );
}

#[test]
fn test_preferred_codecs_are_negotiable_and_ordered() {
    for target in [TargetOs::Windows, TargetOs::MacOs, TargetOs::Other] {
        let codecs = preferred_codecs(target);
        assert_eq!(codecs.len(), 2, "both codecs must be offered as a fallback");
        for codec in &codecs {
            assert!(
                codec == "h264" || codec == "hevc",
                "offered codec must be one the host can encode: {codec}"
            );
        }
        if target == TargetOs::Windows {
            assert_eq!(
                codecs[0], "h264",
                "Windows must lead with the codec that always has a decoder present"
            );
        }
    }
    assert_eq!(preferred_codecs(TargetOs::Other)[0], "hevc");
}

#[test]
fn test_videotoolbox_decoder_lifecycle() {
    let mut decoder = VideoToolboxDecoder::new();
    assert!(decoder.receive_frame().is_err() || decoder.codec().is_empty());

    decoder.initialize("hevc", 1920, 1080).unwrap();
    assert_eq!(decoder.codec(), "hevc");

    let test_packet = vec![0x00, 0x00, 0x00, 0x01, 0x40, 0x01];
    decoder.decode_packet(&test_packet, 1, 16_666_666).unwrap();

    assert_eq!(decoder.decoded_count(), 1);
    assert!(decoder.reset().is_ok());
}

#[test]
fn videotoolbox_session_codec_and_callback_frames() {
    assert_eq!(vt_codec_for("avc"), VtCodec::H264);
    assert_eq!(vt_codec_for("hevc"), VtCodec::Hevc);
    assert_eq!(vt_codec_for("vp8"), VtCodec::Hevc);

    assert!(callback_frame(-1, false, Some((2, 2)), 5, 0, 10, vec![]).is_none());
    assert!(callback_frame(0, true, Some((2, 2)), 5, 0, 10, vec![]).is_none());
    assert!(callback_frame(0, false, None, 5, 0, 10, vec![]).is_none());

    let frame = callback_frame(0, false, Some((2, 1)), 0, 6, -3, vec![1; 8]).unwrap();
    assert_eq!(frame.frame_id, 7);
    assert_eq!(frame.pts_ns, 0);
    assert_eq!((frame.width, frame.height), (2, 1));

    let frame = callback_frame(0, false, Some((2, 1)), 9, 6, 44, vec![]).unwrap();
    assert_eq!(frame.frame_id, 9);
    assert_eq!(frame.pts_ns, 44);
}

#[test]
fn sample_frames_are_packed_at_their_own_size() {
    let mut decoder = MediaFoundationDecoder::new();
    assert!(decoder.initialize("h264", 4, 2).is_err());
    let sample: Vec<u8> = (0u8..12).collect();
    let frame = decoder
        .sample_to_frame(&sample, SampleLayout::Contiguous, 3, 4, Duration::from_millis(2))
        .unwrap();
    assert_eq!((frame.width, frame.height), (4, 2));
    assert_eq!(frame.buffer.len(), 4 * 2 + 4 * (2 / 2));
    assert_eq!(frame.buffer, sample);
}

#[test]
fn null_decoder_frames_report_one_millisecond() {
    let mut decoder = NullDecoder::new();
    decoder.initialize("hevc", 2, 1).unwrap();
    decoder.decode_packet(&[1, 2, 3], 1, 5).unwrap();
    let frame = decoder.receive_frame().unwrap().unwrap();
    assert_eq!(frame.decode_duration, Duration::from_millis(1));
    assert_eq!(frame.buffer, vec![7, 0, 0, 255, 134, 0, 127, 255]);
}
