use std::time::Duration;

use renderd::decoder::{DecodedFrame, PixelFormat};
use renderd::render_backends::{D3D12Renderer, NullRenderer};
use renderd::renderer::{blit_frame, compute_aspect_fit_rect, nv12_to_bgra, Renderer, ViewportSize};

#[test]
fn test_null_renderer_lifecycle() {
    let mut renderer = NullRenderer::new();
    assert!(!renderer.is_initialized());
    assert!(renderer.present().is_err());

    let sz = ViewportSize { width: 1920, height: 1080 };
    renderer.initialize(sz).unwrap();
    assert!(renderer.is_initialized());
    assert_eq!(renderer.viewport_size(), sz);

    let new_sz = ViewportSize { width: 2560, height: 1440 };
    renderer.resize(new_sz).unwrap();
    assert_eq!(renderer.viewport_size(), new_sz);

    assert!(renderer.present().is_ok());
    renderer.shutdown().unwrap();
    assert!(!renderer.is_initialized());
}

#[test]
fn test_nv12_to_bgra_matches_float_reference() {
    fn reference(luma: u8, chroma_b: u8, chroma_r: u8) -> (u32, u32, u32) {
        let luma = f32::from(luma);
        let chroma_b = f32::from(chroma_b) - 128.0;
        let chroma_r = f32::from(chroma_r) - 128.0;
        (
            (luma + 1.402 * chroma_r).clamp(0.0, 255.0) as u32,
            (luma - 0.344_136 * chroma_b - 0.714_136 * chroma_r).clamp(0.0, 255.0) as u32,
            (luma + 1.772 * chroma_b).clamp(0.0, 255.0) as u32,
        )
    }

    for luma in (0..=255u8).step_by(17) {
        for chroma_b in (0..=255u8).step_by(51) {
            for chroma_r in (0..=255u8).step_by(51) {
                let mut out = 0u32;
                nv12_to_bgra(luma, chroma_b, chroma_r, &mut out);
                let got = ((out >> 16) & 0xFF, (out >> 8) & 0xFF, out & 0xFF);
                let want = reference(luma, chroma_b, chroma_r);
                assert!(
                    got.0.abs_diff(want.0) <= 1
                        && got.1.abs_diff(want.1) <= 1
                        && got.2.abs_diff(want.2) <= 1,
                    "luma={luma} cb={chroma_b} cr={chroma_r}: got {got:?} want {want:?}"
                );
                assert_eq!(out >> 24, 0xFF, "alpha must be opaque");
            }
        }
    }
}

#[test]
fn test_nv12_to_bgra_black_is_reported_blank() {
    let mut out = 0u32;
    assert_eq!(nv12_to_bgra(0, 128, 128, &mut out), 0);
    assert_eq!(out & 0x00FF_FFFF, 0);

    assert_eq!(nv12_to_bgra(255, 128, 128, &mut out), 1);
    assert_eq!(out & 0x00FF_FFFF, 0x00FF_FFFF);
}

#[test]
fn test_odd_dimension_nv12_frame_is_within_bounds() {
    let (width, height) = (5usize, 3usize);
    let uv_width = width.div_ceil(2) * 2;
    let uv_rows = height.div_ceil(2);
    let y_len = width * height;
    let uv_len = uv_rows * uv_width;

    let src = vec![128u8; y_len + uv_len];
    let mut dest = vec![0u32; y_len];

    for row in 0..height {
        let uv_row_base = (row / 2) * uv_width;
        for col in 0..width {
            let y_idx = row * width + col;
            let uv_offset = uv_row_base + (col & !1);
            assert!(
                y_len + uv_offset + 1 < src.len(),
                "chroma read at row {row} col {col} is out of bounds"
            );
            nv12_to_bgra(
                src[y_idx],
                src[y_len + uv_offset],
                src[y_len + uv_offset + 1],
                &mut dest[y_idx],
            );
        }
    }
}

#[test]
fn test_compute_aspect_fit_rect() {
    assert_eq!(compute_aspect_fit_rect(1920, 1080, 1920, 1080), (0, 0, 1920, 1080));
    assert_eq!(compute_aspect_fit_rect(1920, 1080, 1280, 720), (0, 0, 1280, 720));
    assert_eq!(compute_aspect_fit_rect(1920, 1080, 1920, 1200), (0, 60, 1920, 1080));

    let (x, y, w, h) = compute_aspect_fit_rect(1920, 1080, 3440, 1440);
    assert_eq!(y, 0);
    assert_eq!(h, 1440);
    assert_eq!(w, 2560);
    assert_eq!(x, (3440 - 2560) / 2);

    assert_eq!(compute_aspect_fit_rect(1920, 1080, 1536, 864), (0, 0, 1536, 864));
}

#[test]
fn test_d3d12_renderer_lifecycle() {
    let mut renderer = D3D12Renderer::new();
    assert!(!renderer.shader_source().is_empty());

    let sz = ViewportSize { width: 1920, height: 1080 };
    renderer.initialize(sz).unwrap();
    assert_eq!(renderer.frame_count(), 0);

    let test_frame = D3D12Renderer::create_synthetic_nv12_frame(1920, 1080, 1);
    renderer.render_frame(&test_frame).unwrap();
    renderer.present().unwrap();

    assert_eq!(renderer.frame_count(), 1);
    renderer.shutdown().unwrap();
}

#[test]
fn test_synthetic_nv12_pattern_rendering() {
    let mut renderer = D3D12Renderer::new();
    renderer.initialize(ViewportSize { width: 1280, height: 720 }).unwrap();

    let frame = D3D12Renderer::create_synthetic_nv12_frame(1280, 720, 100);
    assert_eq!(frame.format, PixelFormat::Nv12);
    assert_eq!(frame.buffer.len(), (1280 * 720 + 1280 * 720 / 2) as usize);

    assert!(renderer.render_frame(&frame).is_ok());
    assert!(renderer.present().is_ok());
}

#[test]
fn d3d12_renderer_refuses_p010_and_uninitialized_use() {
    let mut renderer = D3D12Renderer::new();
    let mut frame = D3D12Renderer::create_synthetic_nv12_frame(4, 2, 0);
    match renderer.render_frame(&frame) {
        Err(e) => assert_eq!(e.message(), "Renderer error: Renderer not initialized"),
        Ok(()) => panic!("uninitialized render must fail"),
    }
    assert!(renderer.resize(ViewportSize { width: 1, height: 1 }).is_err());
    renderer.initialize(ViewportSize { width: 4, height: 2 }).unwrap();
    frame.format = PixelFormat::P010;
    match renderer.render_frame(&frame) {
        Err(e) => assert_eq!(e.message(), "Renderer error: Unsupported pixel format P010"),
        Ok(()) => panic!("P010 must be refused"),
    }
    assert_eq!(renderer.frame_count(), 0);
}

#[test]
fn synthetic_frame_holds_gradient_and_neutral_chroma() {
    let frame = D3D12Renderer::create_synthetic_nv12_frame(3, 2, 7);
    assert_eq!(frame.pts_ns, 7 * 16_666_666);
    assert_eq!(frame.buffer, vec![0, 1, 2, 1, 2, 3, 128, 128, 128]);
}

fn bgra_frame(width: u32, height: u32, pixels: &[[u8; 4]]) -> DecodedFrame {
    DecodedFrame {
        frame_id: 1,
        pts_ns: 0,
        width,
        height,
        format: PixelFormat::Bgra8,
        buffer: pixels.iter().flatten().copied().collect(),
        decode_duration: Duration::from_millis(1),
    }
}

#[test]
fn blit_copies_a_frame_that_fills_the_viewport() {
    let frame = bgra_frame(2, 1, &[[1, 2, 3, 4], [5, 6, 7, 8]]);
    let mut dest = vec![0u32; 2];
    blit_frame(&frame, 2, 1, &mut dest);
    assert_eq!(dest, vec![0x0403_0201, 0x0807_0605]);
}

#[test]
fn blit_letterboxes_with_black_bars() {
    let frame = bgra_frame(2, 1, &[[10, 20, 30, 255], [40, 50, 60, 255]]);
    let mut dest = vec![7u32; 6];
    blit_frame(&frame, 2, 3, &mut dest);
    assert_eq!(dest[0], 0xFF00_0000);
    assert_eq!(dest[1], 0xFF00_0000);
    assert_eq!(dest[2], 0xFF1E_140A);
    assert_eq!(dest[3], 0xFF3C_3228);
    assert_eq!(dest[4], 0xFF00_0000);
    assert_eq!(dest[5], 0xFF00_0000);
}

#[test]
fn blit_leaves_a_too_small_surface_alone() {
    let frame = bgra_frame(1, 1, &[[1, 1, 1, 1]]);
    let mut dest = vec![9u32; 3];
    blit_frame(&frame, 2, 2, &mut dest);
    assert_eq!(dest, vec![9, 9, 9]);
}

#[test]
fn synthetic_frames_report_half_a_millisecond() {
    let frame = D3D12Renderer::create_synthetic_nv12_frame(4, 2, 3);
    assert_eq!(frame.decode_duration, Duration::from_micros(500));
    assert_eq!(frame.pts_ns, 3 * 16_666_666);
}
