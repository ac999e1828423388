use vstd::prelude::*;

use std::time::Duration;

use crate::clock::duration_nanos;
use crate::decoder::{DecodedFrame, PixelFormat};
use crate::error::ViewerError;
use crate::renderer::{Renderer, ViewportSize};

verus! {

/// The error every renderer reports when used before `initialize`.
pub fn not_initialized_error() -> (e: ViewerError)
    ensures
        e matches ViewerError::Renderer(m) && m@ == "Renderer not initialized"@,
{
    ViewerError::Renderer(String::from_str("Renderer not initialized"))
}

/// Renderer that draws nothing, for tests and headless runs.
#[derive(Debug)]
pub struct NullRenderer {
    initialized: bool,
    size: ViewportSize,
}

impl NullRenderer {
    /// Whether `initialize` has run since creation or the last `shutdown`.
    pub closed spec fn initialized_spec(&self) -> bool {
        self.initialized
    }

    /// The current viewport size.
    pub closed spec fn size_spec(&self) -> ViewportSize {
        self.size
    }

    /// Creates an uninitialized renderer with a zero viewport.
    pub fn new() -> (r: Self)
        ensures
            !r.initialized_spec(),
            r.size_spec() == (ViewportSize { width: 0, height: 0 }),
    {
        NullRenderer { initialized: false, size: ViewportSize { width: 0, height: 0 } }
    }

    /// Whether the renderer is initialized.
    pub fn is_initialized(&self) -> (b: bool)
        ensures
            b == self.initialized_spec(),
    {
        self.initialized
    }

    /// The current viewport size.
    pub fn viewport_size(&self) -> (s: ViewportSize)
        ensures
            s == self.size_spec(),
    {
        self.size
    }
}

impl Renderer for NullRenderer {
    fn initialize(&mut self, initial_size: ViewportSize) -> (r: Result<(), ViewerError>)
        ensures
            r is Ok,
            final(self).initialized_spec(),
            final(self).size_spec() == initial_size,
    {
        self.size = initial_size;
        self.initialized = true;
        Ok(())
    }

    fn resize(&mut self, new_size: ViewportSize) -> (r: Result<(), ViewerError>)
        ensures
            r is Ok,
            final(self).size_spec() == new_size,
            final(self).initialized_spec() == old(self).initialized_spec(),
    {
        self.size = new_size;
        Ok(())
    }

    fn render_frame(&mut self, frame: &DecodedFrame) -> (r: Result<(), ViewerError>)
        ensures
            r is Ok == old(self).initialized_spec(),
            r matches Err(e) ==> e matches ViewerError::Renderer(m) && m@
                == "Renderer not initialized"@,
            *final(self) == *old(self),
    {
        if !self.initialized {
            return Err(not_initialized_error());
        }
        Ok(())
    }

    fn present(&mut self) -> (r: Result<(), ViewerError>)
        ensures
            r is Ok == old(self).initialized_spec(),
            r matches Err(e) ==> e matches ViewerError::Renderer(m) && m@
                == "Renderer not initialized"@,
            *final(self) == *old(self),
    {
        if !self.initialized {
            return Err(not_initialized_error());
        }
        Ok(())
    }

    fn shutdown(&mut self) -> (r: Result<(), ViewerError>)
        ensures
            r is Ok,
            !final(self).initialized_spec(),
            final(self).size_spec() == old(self).size_spec(),
    {
        self.initialized = false;
        Ok(())
    }
}

/// Pixel shader converting the NV12 luma and chroma planes to RGB with the same BT.601
/// full-range coefficients as the software path, written as 16.16 fixed-point ratios.
pub const YUV_TO_RGB_SHADER: &'static str = "Texture2D<float> LumaPlane : register(t0);
Texture2D<float2> ChromaPlane : register(t1);
SamplerState PlaneSampler : register(s0);

struct PixelInput
{
    float4 position : SV_POSITION;
    float2 uv : TEXCOORD0;
};

static const float R_CR = float(91881) / float(65536);
static const float G_CB = float(22554) / float(65536);
static const float G_CR = float(46802) / float(65536);
static const float B_CB = float(116130) / float(65536);
static const float CHROMA_ZERO = float(128) / float(255);

float4 main(PixelInput input) : SV_TARGET
{
    float luma = LumaPlane.Sample(PlaneSampler, input.uv);
    float2 chroma = ChromaPlane.Sample(PlaneSampler, input.uv) - CHROMA_ZERO;
    float3 rgb = float3(
        luma + R_CR * chroma.y,
        luma - G_CB * chroma.x - G_CR * chroma.y,
        luma + B_CB * chroma.x);
    return float4(saturate(rgb), 1);
}
";

/// Direct3D 12 renderer state: initialization, viewport and presented-frame count.
#[derive(Debug)]
pub struct D3D12Renderer {
    initialized: bool,
    tearing_supported: bool,
    size: ViewportSize,
    frame_count: u64,
    shader_source: String,
}

impl D3D12Renderer {
    /// Whether `initialize` has run since creation or the last `shutdown`.
    pub closed spec fn initialized_spec(&self) -> bool {
        self.initialized
    }

    /// The current viewport size.
    pub closed spec fn size_spec(&self) -> ViewportSize {
        self.size
    }

    /// Number of frames rendered.
    pub closed spec fn frame_count_spec(&self) -> u64 {
        self.frame_count
    }

    /// Whether variable-refresh tearing presentation is available.
    pub closed spec fn tearing_spec(&self) -> bool {
        self.tearing_supported
    }

    /// The YUV-to-RGB shader source.
    pub closed spec fn shader_spec(&self) -> Seq<char> {
        self.shader_source@
    }

    /// Creates an uninitialized renderer carrying the NV12 shader, with tearing support
    /// as the display stack reports it.
    pub fn new() -> (r: Self)
        ensures
            !r.initialized_spec(),
            !r.tearing_spec(),
            r.frame_count_spec() == 0,
            r.size_spec() == (ViewportSize { width: 0, height: 0 }),
            r.shader_spec() == YUV_TO_RGB_SHADER@,
    {
        D3D12Renderer {
            initialized: false,
            tearing_supported: crate::session::check_tearing_support(),
            size: ViewportSize { width: 0, height: 0 },
            frame_count: 0,
            shader_source: String::from_str(YUV_TO_RGB_SHADER),
        }
    }

    /// Whether variable-refresh tearing presentation is available.
    pub fn is_tearing_supported(&self) -> (b: bool)
        ensures
            b == self.tearing_spec(),
    {
        self.tearing_supported
    }

    /// Number of frames rendered.
    pub fn frame_count(&self) -> (n: u64)
        ensures
            n == self.frame_count_spec(),
    {
        self.frame_count
    }

    /// The YUV-to-RGB shader source.
    pub fn shader_source(&self) -> (s: &str)
        ensures
            s@ == self.shader_spec(),
    {
        self.shader_source.as_str()
    }
}

/// Luma of the synthetic test pattern at column `x`, row `y`: a diagonal gradient.
pub open spec fn synthetic_luma(x: int, y: int) -> u8 {
    ((x + y) % 256) as u8
}

impl D3D12Renderer {
    /// Builds a `width` x `height` NV12 test frame: a diagonal luma gradient over neutral
    /// (128) chroma, stamped 16 666 666 ns per frame id, with a decode time of 0.5 ms.
    pub fn create_synthetic_nv12_frame(width: u32, height: u32, frame_id: u64) -> (f: DecodedFrame)
        requires
            width * height <= u32::MAX,
            width * height + width * height / 2 <= usize::MAX,
            frame_id * 16_666_666 <= u64::MAX,
        ensures
            f.frame_id == frame_id,
            f.pts_ns == frame_id * 16_666_666,
            f.width == width,
            f.height == height,
            f.format == PixelFormat::Nv12,
            f.buffer@.len() == width * height + width * height / 2,
            forall|y: int, x: int|
                0 <= y < height && 0 <= x < width ==> #[trigger] f.buffer@[y * width + x]
                    == synthetic_luma(x, y),
            forall|i: int|
                width * height <= i < f.buffer@.len() ==> #[trigger] f.buffer@[i] == 128u8,
            duration_nanos(f.decode_duration) == 500_000,
    {
        let y_plane_size = (width * height) as usize;
        let uv_plane_size = (width * height / 2) as usize;
        let mut buffer: Vec<u8> = vec![128u8; y_plane_size + uv_plane_size];
        let ghost total = buffer@.len();
        let mut y: u32 = 0;
        while y < height
            invariant
                buffer@.len() == total,
                total == width * height + width * height / 2,
                width * height <= u32::MAX,
                y <= height,
                forall|yy: int, xx: int|
                    0 <= yy < y && 0 <= xx < width ==> #[trigger] buffer@[yy * width + xx]
                        == synthetic_luma(xx, yy),
                forall|i: int| y * width <= i < total ==> #[trigger] buffer@[i] == 128u8,
            decreases height - y,
        {
            let mut x: u32 = 0;
            while x < width
                invariant
                    buffer@.len() == total,
                    total == width * height + width * height / 2,
                    width * height <= u32::MAX,
                    y < height,
                    x <= width,
                    forall|yy: int, xx: int|
                        0 <= yy < y && 0 <= xx < width ==> #[trigger] buffer@[yy * width + xx]
                            == synthetic_luma(xx, yy),
                    forall|xx: int| 0 <= xx < x ==> #[trigger] buffer@[y * width + xx]
                        == synthetic_luma(xx, y as int),
                    forall|i: int| y * width + x <= i < total ==> #[trigger] buffer@[i] == 128u8,
                decreases width - x,
            {
                proof {
                    assert((y as int) * (width as int) + (x as int) < (width as int) * (height as int))
                        by (nonlinear_arith)
                        requires
                            x < width,
                            y < height,
                    ;
                }
                let idx = (y * width + x) as usize;
                let ghost before = buffer@;
                buffer.set(idx, (((x as u64) + (y as u64)) % 256) as u8);
                proof {
                    assert forall|yy: int, xx: int|
                        0 <= yy < y && 0 <= xx < width implies #[trigger] buffer@[yy * width + xx]
                            == synthetic_luma(xx, yy) by {
                        assert(yy * width + xx < (y as int) * (width as int)) by (nonlinear_arith)
                            requires
                                0 <= yy < y,
                                0 <= xx < width,
                        ;
                        assert(buffer@[yy * width + xx] == before[yy * width + xx]);
                    }
                }
                x = x + 1;
            }
            proof {
                assert forall|yy: int, xx: int|
                    0 <= yy < y + 1 && 0 <= xx < width implies #[trigger] buffer@[yy * width + xx]
                        == synthetic_luma(xx, yy) by {
                    if yy < y {
                    } else {
                        assert(buffer@[y * width + xx] == synthetic_luma(xx, y as int));
                    }
                }
                assert((y + 1) * width == y * width + width) by (nonlinear_arith);
            }
            y = y + 1;
        }
        proof {
            assert((y as int) * (width as int) == (width as int) * (height as int)) by (nonlinear_arith)
                requires
                    y == height,
            ;
        }
        DecodedFrame {
            frame_id,
            pts_ns: frame_id * 16_666_666,
            width,
            height,
            format: PixelFormat::Nv12,
            buffer,
            decode_duration: Duration::from_micros(500),
        }
    }
}

impl D3D12Renderer {
    /// Readies the device and swap chain; refused before `initialize`.
    fn init_d3d12_device_and_swapchain(&self) -> (r: Result<(), ViewerError>)
        ensures
            r is Ok == self.initialized_spec(),
            r is Err ==> crate::error::renderer_failure(r, "Renderer not initialized"@),
    {
        if !self.initialized {
            return Err(not_initialized_error());
        }
        Ok(())
    }

    /// Presents the swap chain; refused before `initialize`.
    fn present_d3d12(&self) -> (r: Result<(), ViewerError>)
        ensures
            r is Ok == self.initialized_spec(),
            r is Err ==> crate::error::renderer_failure(r, "Renderer not initialized"@),
    {
        if !self.initialized {
            return Err(not_initialized_error());
        }
        Ok(())
    }
}

impl Default for D3D12Renderer {
    fn default() -> (r: Self)
        ensures
            !r.initialized_spec(),
            r.frame_count_spec() == 0,
            r.shader_spec() == YUV_TO_RGB_SHADER@,
    {
        D3D12Renderer::new()
    }
}

impl Renderer for D3D12Renderer {
    fn initialize(&mut self, initial_size: ViewportSize) -> (r: Result<(), ViewerError>)
        ensures
            r is Ok,
            final(self).initialized_spec(),
            final(self).size_spec() == initial_size,
            final(self).frame_count_spec() == old(self).frame_count_spec(),
            final(self).tearing_spec() == old(self).tearing_spec(),
            final(self).shader_spec() == old(self).shader_spec(),
    {
        self.size = initial_size;
        self.initialized = true;
        self.init_d3d12_device_and_swapchain()
    }

    fn resize(&mut self, new_size: ViewportSize) -> (r: Result<(), ViewerError>)
        ensures
            r is Ok == old(self).initialized_spec(),
            r matches Err(e) ==> e matches ViewerError::Renderer(m) && m@
                == "Renderer not initialized"@,
            r is Ok ==> final(self).size_spec() == new_size,
            r is Err ==> final(self).size_spec() == old(self).size_spec(),
            final(self).initialized_spec() == old(self).initialized_spec(),
            final(self).frame_count_spec() == old(self).frame_count_spec(),
            final(self).tearing_spec() == old(self).tearing_spec(),
            final(self).shader_spec() == old(self).shader_spec(),
    {
        if !self.initialized {
            return Err(not_initialized_error());
        }
        self.size = new_size;
        Ok(())
    }

    /// Counts the frame; only NV12 and BGRA frames can be drawn.
    fn render_frame(&mut self, frame: &DecodedFrame) -> (r: Result<(), ViewerError>)
        ensures
            r is Ok == (old(self).initialized_spec() && frame.format != PixelFormat::P010),
            !old(self).initialized_spec() ==> (r matches Err(e) && e matches ViewerError::Renderer(
                m,
            ) && m@ == "Renderer not initialized"@),
            old(self).initialized_spec() && frame.format == PixelFormat::P010 ==> (r matches Err(e)
                && e matches ViewerError::Renderer(m) && m@ == "Unsupported pixel format P010"@),
            r is Ok ==> final(self).frame_count_spec() == crate::frame_queue::counter_add(
                old(self).frame_count_spec(),
                1,
            ),
            r is Err ==> final(self).frame_count_spec() == old(self).frame_count_spec(),
            final(self).initialized_spec() == old(self).initialized_spec(),
            final(self).size_spec() == old(self).size_spec(),
            final(self).tearing_spec() == old(self).tearing_spec(),
            final(self).shader_spec() == old(self).shader_spec(),
    {
        if !self.initialized {
            return Err(not_initialized_error());
        }
        match frame.format {
            PixelFormat::Nv12 | PixelFormat::Bgra8 => {},
            PixelFormat::P010 => {
                return Err(ViewerError::Renderer(String::from_str("Unsupported pixel format P010")));
            },
        }
        self.frame_count = self.frame_count.wrapping_add(1);
        Ok(())
    }

    fn present(&mut self) -> (r: Result<(), ViewerError>)
        ensures
            r is Ok == old(self).initialized_spec(),
            r matches Err(e) ==> e matches ViewerError::Renderer(m) && m@
                == "Renderer not initialized"@,
            *final(self) == *old(self),
    {
        if !self.initialized {
            return Err(not_initialized_error());
        }
        self.present_d3d12()
    }

    fn shutdown(&mut self) -> (r: Result<(), ViewerError>)
        ensures
            r is Ok,
            !final(self).initialized_spec(),
            final(self).size_spec() == old(self).size_spec(),
            final(self).frame_count_spec() == old(self).frame_count_spec(),
            final(self).tearing_spec() == old(self).tearing_spec(),
            final(self).shader_spec() == old(self).shader_spec(),
    {
        self.initialized = false;
        Ok(())
    }
}

} // verus!
