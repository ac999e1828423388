use vstd::prelude::*;

use std::collections::VecDeque;
use std::time::Duration;

use crate::decoder::{not_initialized, DecodedFrame, Decoder, PixelFormat};
use crate::error::{decoder_failure, ViewerError};
use crate::text::{
    concat3, decimal, decimal_text, lowercase, signed_decimal, signed_decimal_text, text_eq,
    to_lowercase,
};

verus! {

/// Most frames the output queue keeps; older ones are dropped first.
pub const OUTPUT_QUEUE_LIMIT: usize = 4;

/// Media Foundation input subtype for a codec.
#[derive(Debug, Clone, Copy, PartialEq, Eq, Structural)]
pub enum MfSubtype {
    /// H.264 / AVC.
    H264,
    /// H.265 / HEVC.
    Hevc,
}

/// Codec names that select H.264.
pub open spec fn is_h264_name(c: Seq<char>) -> bool {
    c == "h264"@ || c == "avc"@ || c == "avc1"@
}

/// Codec names that select HEVC.
pub open spec fn is_hevc_name(c: Seq<char>) -> bool {
    c == "hevc"@ || c == "h265"@ || c == "hvc1"@
}

/// Every codec name a session can negotiate selects a decoder for that same codec:
/// `h264` is an H.264 name and not an HEVC one, `hevc` an HEVC name and not an H.264 one.
pub proof fn lemma_negotiated_codecs_select_their_decoder(c: Seq<char>)
    requires
        crate::proto::envelope::is_known_codec(c),
    ensures
        c == "h264"@ ==> is_h264_name(c) && !is_hevc_name(c),
        c == "hevc"@ ==> is_hevc_name(c) && !is_h264_name(c),
        is_h264_name(c) || is_hevc_name(c),
{
    lemma_codec_names_differ();
}

/// The H.264 names and the HEVC names are six different texts.
pub(crate) proof fn lemma_codec_names_differ()
    ensures
        !is_hevc_name("h264"@),
        !is_hevc_name("avc"@),
        !is_hevc_name("avc1"@),
        !is_h264_name("hevc"@),
        !is_h264_name("h265"@),
        !is_h264_name("hvc1"@),
        is_h264_name("h264"@),
        is_hevc_name("hevc"@),
{
    reveal_strlit("h264");
    reveal_strlit("hevc");
    reveal_strlit("avc");
    reveal_strlit("avc1");
    reveal_strlit("h265");
    reveal_strlit("hvc1");
    assert("h264"@[1] != "hevc"@[1]);
    assert("h264"@[3] != "h265"@[3]);
    assert("h264"@[1] != "hvc1"@[1]);
    assert("avc1"@[0] != "hevc"@[0]);
    assert("avc1"@[0] != "h265"@[0]);
    assert("avc1"@[0] != "hvc1"@[0]);
}

/// The error text for a codec the decoder does not handle.
pub open spec fn unsupported_codec_text(c: Seq<char>) -> Seq<char> {
    "unsupported codec '"@ + c + "'; expected h264 or hevc"@
}

/// The error text for a zero-sized stream.
pub open spec fn invalid_dimensions_text(width: u32, height: u32) -> Seq<char> {
    "invalid decode dimensions "@ + decimal(width as nat) + "x"@ + decimal(height as nat)
}

/// Maps a codec name to its Media Foundation input subtype.
pub fn subtype_for_codec(codec: &str) -> (r: Result<MfSubtype, ViewerError>)
    ensures
        codec@ == "h264"@ ==> r matches Ok(MfSubtype::H264),
        codec@ == "hevc"@ ==> r matches Ok(MfSubtype::Hevc),
        is_h264_name(codec@) ==> r matches Ok(MfSubtype::H264),
        !is_h264_name(codec@) && is_hevc_name(codec@) ==> r matches Ok(MfSubtype::Hevc),
        !is_h264_name(codec@) && !is_hevc_name(codec@) ==> decoder_failure(r, unsupported_codec_text(codec@)),
{
    proof {
        lemma_codec_names_differ();
    }
    if text_eq(codec, "h264") || text_eq(codec, "avc") || text_eq(codec, "avc1") {
        Ok(MfSubtype::H264)
    } else if text_eq(codec, "hevc") || text_eq(codec, "h265") || text_eq(codec, "hvc1") {
        Ok(MfSubtype::Hevc)
    } else {
        Err(ViewerError::Decoder(concat3("unsupported codec '", codec, "'; expected h264 or hevc")))
    }
}

/// The `MF_MT_FRAME_SIZE` value for a frame size: width in the high 32 bits, height in
/// the low 32 bits.
pub open spec fn packed_frame_size(width: u32, height: u32) -> u64 {
    (width * 0x1_0000_0000 + height) as u64
}

/// Packs a width and height into the `MF_MT_FRAME_SIZE` layout.
pub fn pack_size(width: u32, height: u32) -> (packed: u64)
    ensures
        packed == packed_frame_size(width, height),
        packed == width * 0x1_0000_0000 + height,
{
    let w = width as u64;
    let h = height as u64;
    assert(((w << 32u64) | h) == w * 0x1_0000_0000 + h) by (bit_vector)
        requires
            w < 0x1_0000_0000,
            h < 0x1_0000_0000,
    ;
    (w << 32u64) | h
}

/// Splits an `MF_MT_FRAME_SIZE` value into width and height.
pub fn unpack_size(packed: u64) -> (size: (u32, u32))
    ensures
        size.0 == packed / 0x1_0000_0000,
        size.1 == packed % 0x1_0000_0000,
{
    assert((packed >> 32u64) == packed / 0x1_0000_0000) by (bit_vector);
    assert((packed & 0xFFFF_FFFFu64) == packed % 0x1_0000_0000) by (bit_vector);
    ((packed >> 32u64) as u32, (packed & 0xFFFF_FFFFu64) as u32)
}

/// Unpacking a packed frame size gives back the width and height that went in.
pub proof fn lemma_frame_size_roundtrip(width: u32, height: u32)
    ensures
        packed_frame_size(width, height) / 0x1_0000_0000 == width,
        packed_frame_size(width, height) % 0x1_0000_0000 == height,
{
    let p = width * 0x1_0000_0000 + height;
    assert(p <= u64::MAX) by (nonlinear_arith)
        requires
            width <= u32::MAX,
            height <= u32::MAX,
            p == width * 0x1_0000_0000 + height,
    ;
    vstd::arithmetic::div_mod::lemma_fundamental_div_mod_converse(
        p,
        0x1_0000_0000,
        width as int,
        height as int,
    );
}

/// Converts nanoseconds to Media Foundation's 100 ns ticks, saturating: a timestamp
/// beyond the signed 64-bit range maps to `i64::MAX`.
pub fn ns_to_mf_ticks(pts_ns: u64) -> (ticks: i64)
    ensures
        ticks == if pts_ns > i64::MAX {
            i64::MAX as int
        } else {
            (pts_ns / 100) as int
        },
{
    if pts_ns > i64::MAX as u64 {
        i64::MAX
    } else {
        (pts_ns / 100) as i64
    }
}

/// `rows` rows of `width` bytes read from `src`, the first starting at `base` and each
/// next one `pitch` bytes further, laid end to end.
pub open spec fn strided_rows(src: Seq<u8>, base: int, pitch: int, width: int, rows: int) -> Seq<u8> {
    Seq::new((rows * width) as nat, |i: int| src[base + (i / width) * pitch + i % width])
}

/// A tightly packed NV12 image cut from a strided buffer: `height` luma rows from the
/// start, then `height / 2` chroma rows from after the `coded_height` luma rows.
pub open spec fn packed_nv12(src: Seq<u8>, pitch: int, width: int, height: int, coded_height: int) -> Seq<u8> {
    strided_rows(src, 0, pitch, width, height) + strided_rows(
        src,
        coded_height * pitch,
        pitch,
        width,
        height / 2,
    )
}

fn copy_rows(src: &[u8], base: usize, pitch: usize, width: usize, rows: usize, out: &mut Vec<u8>)
    requires
        width <= pitch,
        rows > 0 ==> base + (rows - 1) * pitch + width <= src@.len(),
        old(out)@.len() + rows * width <= usize::MAX,
    ensures
        final(out)@ == old(out)@ + strided_rows(src@, base as int, pitch as int, width as int, rows as int),
{
    let ghost start = out@;
    let n = src.len();
    let mut row: usize = 0;
    while row < rows
        invariant
            n == src@.len(),
            row <= rows,
            width <= pitch,
            rows > 0 ==> base + (rows - 1) * pitch + width <= src@.len(),
            start.len() + rows * width <= usize::MAX,
            out@ == start + strided_rows(src@, base as int, pitch as int, width as int, row as int),
        decreases rows - row,
    {
        proof {
            assert(row * pitch <= (rows - 1) * pitch) by (nonlinear_arith)
                requires
                    row < rows,
            ;
            assert(row * width + width <= rows * width) by (nonlinear_arith)
                requires
                    row < rows,
            ;
        }
        let row_start = base + row * pitch;
        let ghost before = out@;
        let mut col: usize = 0;
        while col < width
            invariant
                n == src@.len(),
                col <= width,
                row < rows,
                row_start == base + row * pitch,
                row_start + width <= src@.len(),
                before.len() == start.len() + row * width,
                start.len() + rows * width <= usize::MAX,
                row * width + width <= rows * width,
                out@ == before + src@.subrange(row_start as int, row_start + col),
            decreases width - col,
        {
            out.push(src[row_start + col]);
            assert(out@ =~= before + src@.subrange(row_start as int, row_start + col + 1));
            col = col + 1;
        }
        proof {
            let w = width as int;
            let r = row as int;
            let next = strided_rows(src@, base as int, pitch as int, w, r + 1);
            assert((r + 1) * w == r * w + w) by (nonlinear_arith);
            assert forall|i: int| 0 <= i < next.len() implies #[trigger] next[i] == (
            strided_rows(src@, base as int, pitch as int, w, r) + src@.subrange(
                row_start as int,
                row_start + width,
            ))[i] by {
                if i < r * w {
                } else {
                    vstd::arithmetic::div_mod::lemma_fundamental_div_mod_converse(i, w, r, i - r * w);
                }
            }
            assert(next =~= strided_rows(src@, base as int, pitch as int, w, r) + src@.subrange(
                row_start as int,
                row_start + width,
            ));
            assert(out@ =~= start + next);
        }
        row = row + 1;
    }
}

/// Copies an NV12 image out of a strided decoder buffer into tightly packed rows.
///
/// `pitch` is the source stride, `width` x `height` the visible region to keep, and
/// `coded_height` the luma height the decoder wrote: the chroma plane starts after that
/// many rows. Returns `false`, leaving `out` untouched, when the stride is narrower than a
/// row or the coded height is below the visible one.
pub fn copy_nv12_planes(
    src: &[u8],
    pitch: usize,
    width: usize,
    height: usize,
    coded_height: usize,
    out: &mut Vec<u8>,
) -> (copied: bool)
    requires
        src@.len() >= pitch * coded_height * 3 / 2,
        old(out)@.len() + (height + height / 2) * width <= usize::MAX,
    ensures
        copied == (pitch >= width && coded_height >= height),
        copied ==> final(out)@ == old(out)@ + packed_nv12(
            src@,
            pitch as int,
            width as int,
            height as int,
            coded_height as int,
        ),
        !copied ==> final(out)@ == old(out)@,
{
    if pitch < width || coded_height < height {
        return false;
    }
    proof {
        assert(pitch * coded_height + (coded_height / 2) * pitch <= pitch * coded_height * 3 / 2)
            by (nonlinear_arith);
        assert(height > 0 ==> (height - 1) * pitch + width <= pitch * coded_height)
            by (nonlinear_arith)
            requires
                width <= pitch,
                height <= coded_height,
        ;
        assert(height / 2 > 0 ==> coded_height * pitch + (height / 2 - 1) * pitch + width
            <= pitch * coded_height + (coded_height / 2) * pitch) by (nonlinear_arith)
            requires
                width <= pitch,
                height <= coded_height,
        ;
        assert((height + height / 2) * width == height * width + (height / 2) * width)
            by (nonlinear_arith);
        assert(coded_height * pitch == pitch * coded_height) by (nonlinear_arith);
    }
    let n = src.len();
    assert(pitch * coded_height <= n) by (nonlinear_arith)
        requires
            n >= pitch * coded_height * 3 / 2,
    ;
    let ghost start = out@;
    copy_rows(src, 0, pitch, width, height, out);
    let ghost luma = out@;
    copy_rows(src, coded_height * pitch, pitch, width, height / 2, out);
    assert(out@ =~= start + packed_nv12(
        src@,
        pitch as int,
        width as int,
        height as int,
        coded_height as int,
    ));
    true
}

/// How a decoder output sample exposes its bytes.
#[derive(Debug, Clone, Copy, PartialEq, Eq, Structural)]
pub enum SampleLayout {
    /// A two-dimensional buffer that reports its own row stride.
    Strided { pitch: i32 },
    /// A contiguous buffer whose rows are packed at the coded width.
    Contiguous,
}

/// Media Foundation software video decoder state producing NV12 frames.
#[derive(Debug)]
pub struct MediaFoundationDecoder {
    initialized: bool,
    codec: String,
    width: u32,
    height: u32,
    out_width: u32,
    out_height: u32,
    output_queue: VecDeque<DecodedFrame>,
    decoded_count: u64,
}

/// The error every decode call reports on a build without Media Foundation.
pub open spec fn windows_only_text() -> Seq<char> {
    "MediaFoundationDecoder is only available on Windows"@
}

impl MediaFoundationDecoder {
    /// Whether a decoder transform is ready.
    pub closed spec fn initialized_spec(&self) -> bool {
        self.initialized
    }

    /// The configured codec name.
    pub closed spec fn codec_spec(&self) -> Seq<char> {
        self.codec@
    }

    /// The requested frame width.
    pub closed spec fn width_spec(&self) -> u32 {
        self.width
    }

    /// The requested frame height.
    pub closed spec fn height_spec(&self) -> u32 {
        self.height
    }

    /// The frame size the negotiated output type produces.
    pub closed spec fn output_size_spec(&self) -> (u32, u32) {
        (self.out_width, self.out_height)
    }

    /// Decoded frames waiting to be received, oldest first.
    pub closed spec fn queue_spec(&self) -> Seq<DecodedFrame> {
        self.output_queue@
    }

    /// Number of frames decoded since the last `initialize` or `reset`.
    pub closed spec fn decoded_spec(&self) -> u64 {
        self.decoded_count
    }

    /// Creates a decoder with nothing configured.
    pub fn new() -> (d: Self)
        ensures
            !d.initialized_spec(),
            d.codec_spec() == Seq::<char>::empty(),
            d.width_spec() == 0,
            d.height_spec() == 0,
            d.output_size_spec() == (0u32, 0u32),
            d.queue_spec() == Seq::<DecodedFrame>::empty(),
            d.decoded_spec() == 0,
    {
        MediaFoundationDecoder {
            initialized: false,
            codec: String::new(),
            width: 0,
            height: 0,
            out_width: 0,
            out_height: 0,
            output_queue: VecDeque::new(),
            decoded_count: 0,
        }
    }

    /// The configured codec name (empty before `initialize`).
    pub fn codec(&self) -> (s: &str)
        ensures
            s@ == self.codec_spec(),
    {
        self.codec.as_str()
    }

    /// Number of frames decoded since the last `initialize` or `reset`.
    pub fn decoded_count(&self) -> (n: u64)
        ensures
            n == self.decoded_spec(),
    {
        self.decoded_count
    }

    /// The frame size the negotiated output type produces.
    pub fn output_dimensions(&self) -> (size: (u32, u32))
        ensures
            size == self.output_size_spec(),
    {
        (self.out_width, self.out_height)
    }

    /// The input subtype for the configured codec.
    pub fn input_subtype(&self) -> (r: Result<MfSubtype, ViewerError>)
        ensures
            is_h264_name(self.codec_spec()) ==> r matches Ok(MfSubtype::H264),
            !is_h264_name(self.codec_spec()) && is_hevc_name(self.codec_spec()) ==> r matches Ok(
                MfSubtype::Hevc,
            ),
            !is_h264_name(self.codec_spec()) && !is_hevc_name(self.codec_spec()) ==> decoder_failure(r, unsupported_codec_text(
                self.codec_spec(),
            )),
    {
        subtype_for_codec(self.codec.as_str())
    }

    /// Appends a decoded frame, first dropping the oldest ones so that at most
    /// [`OUTPUT_QUEUE_LIMIT`] frames are held, and counts it.
    pub fn enqueue_frame(&mut self, frame: DecodedFrame)
        requires
            old(self).decoded_spec() < u64::MAX,
        ensures
            final(self).queue_spec() == if old(self).queue_spec().len() >= OUTPUT_QUEUE_LIMIT {
                old(self).queue_spec().skip(old(self).queue_spec().len() - (OUTPUT_QUEUE_LIMIT - 1))
            } else {
                old(self).queue_spec()
            }.push(frame),
            final(self).decoded_spec() == old(self).decoded_spec() + 1,
            final(self).initialized_spec() == old(self).initialized_spec(),
            final(self).codec_spec() == old(self).codec_spec(),
            final(self).width_spec() == old(self).width_spec(),
            final(self).height_spec() == old(self).height_spec(),
            final(self).output_size_spec() == old(self).output_size_spec(),
    {
        let ghost q0 = self.output_queue@;
        while self.output_queue.len() >= OUTPUT_QUEUE_LIMIT
            invariant
                q0.len() >= OUTPUT_QUEUE_LIMIT ==> self.output_queue@.len() >= OUTPUT_QUEUE_LIMIT
                    - 1,
                q0.len() < OUTPUT_QUEUE_LIMIT ==> self.output_queue@ == q0,
                self.output_queue@ == q0.skip(q0.len() - self.output_queue@.len()),
                self.output_queue@.len() <= q0.len(),
                self.decoded_count == old(self).decoded_count,
                self.decoded_count < u64::MAX,
                self.initialized == old(self).initialized,
                self.codec == old(self).codec,
                self.width == old(self).width,
                self.height == old(self).height,
                self.out_width == old(self).out_width,
                self.out_height == old(self).out_height,
            decreases self.output_queue@.len(),
        {
            let ghost before = self.output_queue@;
            let _ = self.output_queue.pop_front();
            assert(self.output_queue@ =~= q0.skip(q0.len() - self.output_queue@.len()));
        }
        self.output_queue.push_back(frame);
        self.decoded_count = self.decoded_count + 1;
    }

    /// Builds the NV12 frame for a decoder output sample whose bytes are `sample`.
    ///
    /// The frame is tightly packed at its own size, the visible size: the smaller of the
    /// requested and negotiated sizes, so the padding rows and columns a decoder adds to
    /// the coded size stay behind. A strided sample copies with its own pitch past the
    /// negotiated luma height; a contiguous one walks rows at the negotiated width and must
    /// hold a whole negotiated NV12 image.
    pub fn sample_to_frame(
        &self,
        sample: &[u8],
        layout: SampleLayout,
        frame_id: u64,
        pts_ns: u64,
        decode_duration: Duration,
    ) -> (r: Result<DecodedFrame, ViewerError>)
        requires
            self.output_size_spec().0 * self.output_size_spec().1 * 3 <= usize::MAX,
            layout matches SampleLayout::Strided { pitch } ==> pitch >= 0 ==> sample@.len()
                >= pitch * self.output_size_spec().1 * 3 / 2,
            layout matches SampleLayout::Strided { pitch } ==> pitch >= 0 ==> 3 * pitch
                * self.output_size_spec().1 <= usize::MAX,
        ensures
            ({
                let vw = if self.width_spec() < self.output_size_spec().0 {
                    self.width_spec()
                } else {
                    self.output_size_spec().0
                } as int;
                let vh = if self.height_spec() < self.output_size_spec().1 {
                    self.height_spec()
                } else {
                    self.output_size_spec().1
                } as int;
                let cw = self.output_size_spec().0 as int;
                let ch = self.output_size_spec().1 as int;
                let needed = cw * ch * 3 / 2;
                match layout {
                    SampleLayout::Strided { pitch } => {
                        &&& pitch < 0 ==> decoder_failure(r, "NV12 sample reported a negative stride ("@ + signed_decimal(
                            pitch as int,
                        ) + ")"@)
                        &&& pitch >= 0 && pitch < vw ==> decoder_failure(r, "NV12 sample had an unusable stride or null scanline"@)
                        &&& pitch >= vw ==> (r matches Ok(f) && f.buffer@ == packed_nv12(
                            sample@,
                            pitch as int,
                            vw,
                            vh,
                            ch,
                        ))
                    },
                    SampleLayout::Contiguous => {
                        &&& sample@.len() < needed ==> decoder_failure(r, "NV12 sample is "@ + decimal(sample@.len()) + " bytes, need "@
                            + decimal(needed as nat) + " for coded "@ + decimal(cw as nat) + "x"@
                            + decimal(ch as nat))
                        &&& sample@.len() >= needed ==> (r matches Ok(f) && f.buffer@ == packed_nv12(
                            sample@,
                            cw,
                            vw,
                            vh,
                            ch,
                        ))
                    },
                }
            }),
            r matches Ok(f) ==> {
                &&& f.frame_id == frame_id
                &&& f.pts_ns == pts_ns
                &&& f.width == if self.width_spec() < self.output_size_spec().0 {
                    self.width_spec()
                } else {
                    self.output_size_spec().0
                }
                &&& f.height == if self.height_spec() < self.output_size_spec().1 {
                    self.height_spec()
                } else {
                    self.output_size_spec().1
                }
                &&& f.buffer@.len() == f.width * f.height + f.width * (f.height / 2)
                &&& f.format == PixelFormat::Nv12
                &&& f.decode_duration == decode_duration
            },
    {
        let width: usize = if self.width < self.out_width {
            self.width
        } else {
            self.out_width
        } as usize;
        let height: usize = if self.height < self.out_height {
            self.height
        } else {
            self.out_height
        } as usize;
        let mut nv12: Vec<u8> = Vec::new();
        proof {
            assert((height + height / 2) * width <= (self.out_width as int) * (self.out_height as int) * 3) by (nonlinear_arith)
                requires
                    width <= self.out_width,
                    height <= self.out_height,
            ;
        }
        match layout {
            SampleLayout::Strided { pitch } => {
                if pitch < 0 {
                    let mut m = String::from_str("NV12 sample reported a negative stride (");
                    let digits = signed_decimal_text(pitch as i64);
                    m.append(digits.as_str());
                    m.append(")");
                    return Err(ViewerError::Decoder(m));
                }
                let pitch = pitch as usize;
                let coded_height = self.out_height as usize;
                let copied = copy_nv12_planes(sample, pitch, width, height, coded_height, &mut nv12);
                if !copied {
                    return Err(
                        ViewerError::Decoder(
                            String::from_str("NV12 sample had an unusable stride or null scanline"),
                        ),
                    );
                }
            },
            SampleLayout::Contiguous => {
                let coded_width = self.out_width as usize;
                let coded_height = self.out_height as usize;
                let needed = coded_width * coded_height * 3 / 2;
                if sample.len() < needed {
                    let mut m = String::from_str("NV12 sample is ");
                    let len_text = decimal_text(sample.len() as u64);
                    m.append(len_text.as_str());
                    m.append(" bytes, need ");
                    let needed_text = decimal_text(needed as u64);
                    m.append(needed_text.as_str());
                    m.append(" for coded ");
                    let w_text = decimal_text(coded_width as u64);
                    m.append(w_text.as_str());
                    m.append("x");
                    let h_text = decimal_text(coded_height as u64);
                    m.append(h_text.as_str());
                    return Err(ViewerError::Decoder(m));
                }
                let copied = copy_nv12_planes(
                    sample,
                    coded_width,
                    width,
                    height,
                    coded_height,
                    &mut nv12,
                );
                if !copied {
                    return Err(
                        ViewerError::Decoder(
                            String::from_str("NV12 contiguous buffer had an unusable layout"),
                        ),
                    );
                }
            },
        }
        proof {
            assert(nv12@.len() == height * width + (height / 2) * width);
            assert(height * width + (height / 2) * width == width * height + width * (height / 2))
                by (nonlinear_arith);
        }
        Ok(
            DecodedFrame {
                frame_id,
                pts_ns,
                width: width as u32,
                height: height as u32,
                format: PixelFormat::Nv12,
                buffer: nv12,
                decode_duration,
            },
        )
    }
}

impl Default for MediaFoundationDecoder {
    fn default() -> (d: Self)
        ensures
            !d.initialized_spec(),
            d.codec_spec() == Seq::<char>::empty(),
            d.output_size_spec() == (0u32, 0u32),
            d.queue_spec() == Seq::<DecodedFrame>::empty(),
            d.decoded_spec() == 0,
    {
        MediaFoundationDecoder::new()
    }
}

impl Decoder for MediaFoundationDecoder {
    open spec fn admits_packet(&self, packet: Seq<u8>, frame_id: u64) -> bool {
        true
    }

    /// Only empty packets, and only once initialized: other packets need a transform.
    open spec fn accepts_packet(&self, packet: Seq<u8>, frame_id: u64) -> bool {
        self.initialized_spec() && packet.len() == 0
    }

    /// An empty packet leaves the decoder as it was.
    open spec fn decoded_into(&self, after: Self, packet: Seq<u8>, frame_id: u64, pts_ns: u64) -> bool {
        after == *self
    }

    /// Records the stream parameters and clears earlier output. Zero-sized streams are
    /// refused; on this build no Media Foundation transform exists, so every other
    /// request is refused too and the decoder stays uninitialized.
    fn initialize(&mut self, codec: &str, width: u32, height: u32) -> (r: Result<(), ViewerError>)
        ensures
            r is Err,
            width == 0 || height == 0 ==> decoder_failure(r, invalid_dimensions_text(width, height)),
            width != 0 && height != 0 ==> decoder_failure(r, windows_only_text()),
            final(self).codec_spec() == lowercase(codec@),
            final(self).width_spec() == width,
            final(self).height_spec() == height,
            final(self).output_size_spec() == (width, height),
            final(self).queue_spec() == Seq::<DecodedFrame>::empty(),
            final(self).decoded_spec() == 0,
            final(self).initialized_spec() == old(self).initialized_spec(),
    {
        self.codec = to_lowercase(codec);
        self.width = width;
        self.height = height;
        self.out_width = width;
        self.out_height = height;
        self.output_queue.clear();
        self.decoded_count = 0;
        if width == 0 || height == 0 {
            let mut m = String::from_str("invalid decode dimensions ");
            let w_text = decimal_text(width as u64);
            m.append(w_text.as_str());
            m.append("x");
            let h_text = decimal_text(height as u64);
            m.append(h_text.as_str());
            return Err(ViewerError::Decoder(m));
        }
        Err(ViewerError::Decoder(String::from_str("MediaFoundationDecoder is only available on Windows")))
    }

    /// Empty packets are accepted and ignored; any other packet needs a transform, which
    /// this build cannot create.
    fn decode_packet(&mut self, packet: &[u8], frame_id: u64, pts_ns: u64) -> (r: Result<
        (),
        ViewerError,
    >)
        ensures
            !old(self).initialized_spec() ==> decoder_failure(r, "Decoder not initialized"@),
            old(self).initialized_spec() && packet@.len() == 0 ==> r is Ok,
            old(self).initialized_spec() && packet@.len() > 0 ==> decoder_failure(r, windows_only_text()),
            *final(self) == *old(self),
    {
        if !self.initialized {
            return Err(not_initialized());
        }
        if packet.len() == 0 {
            return Ok(());
        }
        Err(ViewerError::Decoder(String::from_str("MediaFoundationDecoder is only available on Windows")))
    }

    fn receive_frame(&mut self) -> (r: Result<Option<DecodedFrame>, ViewerError>)
        ensures
            r is Ok == old(self).initialized_spec(),
            r matches Err(e) ==> e matches ViewerError::Decoder(m) && m@
                == "Decoder not initialized"@,
            r is Err ==> *final(self) == *old(self),
            r matches Ok(f) ==> if old(self).queue_spec().len() == 0 {
                f is None && final(self).queue_spec() == old(self).queue_spec()
            } else {
                f == Some(old(self).queue_spec()[0]) && final(self).queue_spec()
                    == old(self).queue_spec().drop_first()
            },
            final(self).initialized_spec() == old(self).initialized_spec(),
            final(self).decoded_spec() == old(self).decoded_spec(),
    {
        if !self.initialized {
            return Err(not_initialized());
        }
        Ok(self.output_queue.pop_front())
    }

    /// Drops queued frames and the transform; the next `initialize` starts afresh.
    fn reset(&mut self) -> (r: Result<(), ViewerError>)
        ensures
            r is Ok,
            !final(self).initialized_spec(),
            final(self).queue_spec() == Seq::<DecodedFrame>::empty(),
            final(self).decoded_spec() == 0,
            final(self).codec_spec() == old(self).codec_spec(),
            final(self).output_size_spec() == old(self).output_size_spec(),
    {
        self.output_queue.clear();
        self.decoded_count = 0;
        self.initialized = false;
        Ok(())
    }
}

} // verus!
