use vstd::prelude::*;

use std::time::Duration;

use crate::clock::duration_nanos;
use crate::error::ViewerError;

verus! {

/// Pixel format of a decoded video frame.
#[derive(Debug, Clone, Copy, PartialEq, Eq, Structural)]
pub enum PixelFormat {
    /// 32-bit BGRA uncompressed color format.
    Bgra8,
    /// NV12 bi-planar YUV 4:2:0 format.
    Nv12,
    /// P010 10-bit YUV 4:2:0 format.
    P010,
}

impl Default for PixelFormat {
    fn default() -> (f: Self)
        ensures
            f == PixelFormat::Bgra8,
    {
        PixelFormat::Bgra8
    }
}

/// Uncompressed decoded video frame ready for rendering.
#[derive(Debug, Clone, PartialEq, Eq)]
pub struct DecodedFrame {
    /// Frame sequence identifier.
    pub frame_id: u64,
    /// Presentation timestamp in nanoseconds.
    pub pts_ns: u64,
    /// Frame width in physical pixels.
    pub width: u32,
    /// Frame height in physical pixels.
    pub height: u32,
    /// Pixel format of the raw buffer.
    pub format: PixelFormat,
    /// Raw uncompressed image buffer bytes.
    pub buffer: Vec<u8>,
    /// Time spent by the decoder on this frame.
    pub decode_duration: Duration,
}

/// A video decoder turning compressed packets into [`DecodedFrame`]s.
pub trait Decoder: Sized + Send + Sync {
    /// Whether `decode_packet` can run on this state with a packet of these bytes and
    /// this frame id without overflowing a size or index computation.
    spec fn admits_packet(&self, packet: Seq<u8>, frame_id: u64) -> bool;

    /// Whether `decode_packet` takes a packet of these bytes and this frame id in this
    /// state.
    spec fn accepts_packet(&self, packet: Seq<u8>, frame_id: u64) -> bool;

    /// Whether `after` is this state once it has taken `packet` as frame `frame_id`
    /// shown at `pts_ns`.
    spec fn decoded_into(&self, after: Self, packet: Seq<u8>, frame_id: u64, pts_ns: u64) -> bool;

    /// Prepares the decoder for `codec` at `width` x `height`.
    fn initialize(&mut self, codec: &str, width: u32, height: u32) -> (r: Result<(), ViewerError>);

    /// Submits one compressed packet.
    fn decode_packet(&mut self, packet: &[u8], frame_id: u64, pts_ns: u64) -> (r: Result<
        (),
        ViewerError,
    >)
        requires
            old(self).admits_packet(packet@, frame_id),
        ensures
            r is Ok == old(self).accepts_packet(packet@, frame_id),
            r is Ok ==> old(self).decoded_into(*final(self), packet@, frame_id, pts_ns),
    ;

    /// Takes the next decoded frame, if any.
    fn receive_frame(&mut self) -> (r: Result<Option<DecodedFrame>, ViewerError>);

    /// Drops every queued frame.
    fn reset(&mut self) -> (r: Result<(), ViewerError>);
}


/// The error a decoder reports when used before `initialize`.
pub fn not_initialized() -> (e: ViewerError)
    ensures
        e matches ViewerError::Decoder(m) && m@ == "Decoder not initialized"@,
{
    ViewerError::Decoder(String::from_str("Decoder not initialized"))
}

/// Red channel of the generated BGRA pattern at column `x` of a `width`-pixel row.
pub open spec fn pattern_red(x: int, width: int) -> u8 {
    ((x * 255) / width) as u8
}

/// Green channel of the generated pattern at row `y` of a `height`-row frame.
pub open spec fn pattern_green(y: int, height: int) -> u8 {
    ((y * 255) / height) as u8
}

/// Blue channel: red plus green plus seven times the frame id, all modulo 256.
pub open spec fn pattern_blue(x: int, y: int, width: int, height: int, frame_id: u64) -> u8 {
    ((pattern_red(x, width) + pattern_green(y, height) + (frame_id * 7) % 256) % 256) as u8
}

/// Pixel `p` (row-major, `width` pixels per row) of `buf` holds the generated pattern
/// as blue, green, red, opaque alpha.
pub open spec fn pattern_pixel_at(buf: Seq<u8>, p: int, width: int, height: int, frame_id: u64) -> bool {
    &&& buf[4 * p] == pattern_blue(p % width, p / width, width, height, frame_id)
    &&& buf[4 * p + 1] == pattern_green(p / width, height)
    &&& buf[4 * p + 2] == pattern_red(p % width, width)
    &&& buf[4 * p + 3] == 255u8
}

/// `buf` is the full generated BGRA pattern of a `width` x `height` frame.
pub open spec fn is_pattern(buf: Seq<u8>, width: int, height: int, frame_id: u64) -> bool {
    &&& buf.len() == 4 * width * height
    &&& forall|p: int|
        0 <= p < width * height ==> #[trigger] pattern_pixel_at(buf, p, width, height, frame_id)
}

/// Sizes for which the null decoder's arithmetic stays in range for a packet of
/// `len` bytes: the pixel count fits `u32` and the byte count fits `usize`; when the
/// pattern is generated, the frame offset, byte offsets and channel products fit too.
pub open spec fn null_decode_admits(width: u32, height: u32, len: nat, frame_id: u64) -> bool {
    &&& width * height <= u32::MAX
    &&& width * height * 4 <= usize::MAX
    &&& len != width * height * 4 ==> {
        &&& frame_id * 7 <= u64::MAX
        &&& width * height > 0 ==> {
            &&& (width * height - 1) * 4 <= u32::MAX
            &&& (width - 1) * 255 <= u32::MAX
            &&& (height - 1) * 255 <= u32::MAX
        }
    }
}

proof fn lemma_pattern_channels(x: int, y: int, width: int, height: int)
    requires
        0 <= x < width,
        0 <= y < height,
    ensures
        0 <= (x * 255) / width <= 255,
        0 <= (y * 255) / height <= 255,
{
    assert(0 <= (x * 255) / width <= 255) by (nonlinear_arith)
        requires
            0 <= x < width,
    ;
    assert(0 <= (y * 255) / height <= 255) by (nonlinear_arith)
        requires
            0 <= y < height,
    ;
}

/// Fills a `width` x `height` BGRA frame with the moving gradient pattern.
fn generate_pattern(width: u32, height: u32, frame_id: u64) -> (buf: Vec<u8>)
    requires
        width * height * 4 <= usize::MAX,
        frame_id * 7 <= u64::MAX,
    ensures
        is_pattern(buf@, width as int, height as int, frame_id),
{
    let offset: u8 = ((frame_id * 7) % 256) as u8;
    let mut buffer: Vec<u8> = Vec::new();
    let mut y: u32 = 0;
    let ghost w = width as int;
    let ghost h = height as int;
    while y < height
        invariant
            y <= height,
            w == width,
            h == height,
            offset == (frame_id * 7) % 256,
            width * height * 4 <= usize::MAX,
            buffer@.len() == 4 * (y * w),
            forall|p: int| 0 <= p < y * w ==> #[trigger] pattern_pixel_at(buffer@, p, w, h, frame_id),
        decreases height - y,
    {
        proof {
            assert(y * w + w <= w * h) by (nonlinear_arith)
                requires
                    y < h,
                    0 <= w,
            ;
        }
        let mut x: u32 = 0;
        while x < width
            invariant
                x <= width,
                y < height,
                w == width,
                h == height,
                offset == (frame_id * 7) % 256,
                width * height * 4 <= usize::MAX,
                y * w + w <= w * h,
                buffer@.len() == 4 * (y * w + x),
                forall|p: int|
                    0 <= p < y * w + x ==> #[trigger] pattern_pixel_at(buffer@, p, w, h, frame_id),
            decreases width - x,
        {
            proof {
                lemma_pattern_channels(x as int, y as int, w, h);
            }
            let r: u8 = ((x as u64 * 255) / (width as u64)) as u8;
            let g: u8 = ((y as u64 * 255) / (height as u64)) as u8;
            let b: u8 = r.wrapping_add(g).wrapping_add(offset);
            let ghost before = buffer@;
            buffer.push(b);
            buffer.push(g);
            buffer.push(r);
            buffer.push(255u8);
            proof {
                let p = y * w + x;
                vstd::arithmetic::div_mod::lemma_fundamental_div_mod_converse(
                    p,
                    w,
                    y as int,
                    x as int,
                );
                assert(pattern_pixel_at(buffer@, p, w, h, frame_id));
                assert forall|q: int| 0 <= q < p + 1 implies #[trigger] pattern_pixel_at(
                    buffer@,
                    q,
                    w,
                    h,
                    frame_id,
                ) by {
                    if q < p {
                        assert(pattern_pixel_at(before, q, w, h, frame_id));
                    }
                }
            }
            x = x + 1;
        }
        proof {
            assert((y + 1) * w == y * w + w) by (nonlinear_arith);
        }
        y = y + 1;
    }
    proof {
        assert(y * w == w * h) by (nonlinear_arith)
            requires
                y == h,
        ;
        assert(4 * (w * h) == 4 * w * h) by (nonlinear_arith);
    }
    buffer
}

/// Decoder that synthesizes BGRA frames instead of decoding, for tests and headless runs:
/// a packet of exactly one frame's bytes is taken as the image, anything else yields the
/// generated gradient pattern.
#[derive(Debug)]
pub struct NullDecoder {
    initialized: bool,
    width: u32,
    height: u32,
    last_frame: Option<DecodedFrame>,
}

impl NullDecoder {
    /// Whether `initialize` has run.
    pub closed spec fn initialized_spec(&self) -> bool {
        self.initialized
    }

    /// Width set by `initialize`.
    pub closed spec fn width_spec(&self) -> u32 {
        self.width
    }

    /// Height set by `initialize`.
    pub closed spec fn height_spec(&self) -> u32 {
        self.height
    }

    /// The frame waiting to be received.
    pub closed spec fn pending_spec(&self) -> Option<DecodedFrame> {
        self.last_frame
    }

    /// Creates an uninitialized decoder with no pending frame.
    pub fn new() -> (d: Self)
        ensures
            !d.initialized_spec(),
            d.width_spec() == 0,
            d.height_spec() == 0,
            d.pending_spec() is None,
    {
        NullDecoder { initialized: false, width: 0, height: 0, last_frame: None }
    }

    /// Whether the decoder has been initialized.
    pub fn is_initialized(&self) -> (b: bool)
        ensures
            b == self.initialized_spec(),
    {
        self.initialized
    }
}

impl Default for NullDecoder {
    fn default() -> (d: Self)
        ensures
            !d.initialized_spec(),
            d.width_spec() == 0,
            d.height_spec() == 0,
            d.pending_spec() is None,
    {
        NullDecoder::new()
    }
}

impl Decoder for NullDecoder {
    open spec fn admits_packet(&self, packet: Seq<u8>, frame_id: u64) -> bool {
        self.initialized_spec() ==> null_decode_admits(
            self.width_spec(),
            self.height_spec(),
            packet.len(),
            frame_id,
        )
    }

    /// Every packet is taken once the decoder is initialized.
    open spec fn accepts_packet(&self, packet: Seq<u8>, frame_id: u64) -> bool {
        self.initialized_spec()
    }

    /// The pending frame becomes the packet itself when it holds exactly
    /// `width * height * 4` bytes, the generated pattern otherwise, with a decode time
    /// of 1 ms.
    open spec fn decoded_into(&self, after: Self, packet: Seq<u8>, frame_id: u64, pts_ns: u64) -> bool {
        &&& after.initialized_spec()
        &&& after.width_spec() == self.width_spec()
        &&& after.height_spec() == self.height_spec()
        &&& after.pending_spec() matches Some(f) && {
            &&& f.frame_id == frame_id
            &&& f.pts_ns == pts_ns
            &&& f.width == self.width_spec()
            &&& f.height == self.height_spec()
            &&& f.format == PixelFormat::Bgra8
            &&& duration_nanos(f.decode_duration) == 1_000_000
            &&& if packet.len() == self.width_spec() * self.height_spec() * 4 {
                f.buffer@ == packet
            } else {
                is_pattern(f.buffer@, self.width_spec() as int, self.height_spec() as int, frame_id)
            }
        }
    }

    fn initialize(&mut self, codec: &str, width: u32, height: u32) -> (r: Result<(), ViewerError>)
        ensures
            r is Ok,
            final(self).initialized_spec(),
            final(self).width_spec() == width,
            final(self).height_spec() == height,
            final(self).pending_spec() == old(self).pending_spec(),
    {
        self.width = width;
        self.height = height;
        self.initialized = true;
        Ok(())
    }

    /// Produces the frame for `packet`: the packet itself when it holds exactly
    /// `width * height * 4` bytes, the generated pattern otherwise.
    fn decode_packet(&mut self, packet: &[u8], frame_id: u64, pts_ns: u64) -> (r: Result<
        (),
        ViewerError,
    >)
        ensures
            r is Ok == old(self).initialized_spec(),
            r matches Err(e) ==> e matches ViewerError::Decoder(m) && m@
                == "Decoder not initialized"@,
            r is Err ==> *final(self) == *old(self),
    {
        if !self.initialized {
            return Err(not_initialized());
        }
        let width = self.width;
        let height = self.height;
        let num_pixels: usize = (width as usize) * (height as usize);
        let buffer: Vec<u8> = if packet.len() == num_pixels * 4 {
            vstd::slice::slice_to_vec(packet)
        } else {
            generate_pattern(width, height, frame_id)
        };
        self.last_frame = Some(
            DecodedFrame {
                frame_id,
                pts_ns,
                width,
                height,
                format: PixelFormat::Bgra8,
                buffer,
                decode_duration: Duration::from_millis(1),
            },
        );
        Ok(())
    }

    fn receive_frame(&mut self) -> (r: Result<Option<DecodedFrame>, ViewerError>)
        ensures
            r is Ok == old(self).initialized_spec(),
            r matches Err(e) ==> e matches ViewerError::Decoder(m) && m@
                == "Decoder not initialized"@,
            r matches Ok(f) ==> f == old(self).pending_spec() && final(self).pending_spec() is None,
            r is Err ==> *final(self) == *old(self),
            final(self).initialized_spec() == old(self).initialized_spec(),
            final(self).width_spec() == old(self).width_spec(),
            final(self).height_spec() == old(self).height_spec(),
    {
        if !self.initialized {
            return Err(not_initialized());
        }
        Ok(self.last_frame.take())
    }

    fn reset(&mut self) -> (r: Result<(), ViewerError>)
        ensures
            r is Ok,
            final(self).pending_spec() is None,
            final(self).initialized_spec() == old(self).initialized_spec(),
            final(self).width_spec() == old(self).width_spec(),
            final(self).height_spec() == old(self).height_spec(),
    {
        self.last_frame = None;
        Ok(())
    }
}

} // verus!
