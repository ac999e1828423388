use vstd::prelude::*;

use std::collections::VecDeque;
use std::time::Duration;

use crate::decode::mf_decode::is_h264_name;
use crate::decoder::{not_initialized, DecodedFrame, Decoder, PixelFormat};
use crate::error::{decoder_failure, ViewerError};
use crate::text::{lowercase, text_eq, to_lowercase};

verus! {

/// Codec a VideoToolbox decompression session is opened for.
#[derive(Debug, Clone, Copy, PartialEq, Eq, Structural)]
pub enum VtCodec {
    /// H.264 / AVC.
    H264,
    /// H.265 / HEVC.
    Hevc,
}

/// The session codec for a configured codec name: the H.264 names select H.264 and
/// everything else HEVC.
pub fn vt_codec_for(codec: &str) -> (c: VtCodec)
    ensures
        codec@ == "h264"@ ==> c == VtCodec::H264,
        codec@ == "hevc"@ ==> c == VtCodec::Hevc,
        c == if is_h264_name(codec@) {
            VtCodec::H264
        } else {
            VtCodec::Hevc
        },
{
    proof {
        crate::decode::mf_decode::lemma_codec_names_differ();
    }
    if text_eq(codec, "h264") || text_eq(codec, "avc") || text_eq(codec, "avc1") {
        VtCodec::H264
    } else {
        VtCodec::Hevc
    }
}

/// The frame a session's output callback queues, if any.
///
/// Nothing is queued when the session reports a non-zero status, hands over no image, or
/// the image could not be copied. Otherwise the frame carries the copied size, takes the
/// frame id passed through the session (or, when that is zero, its position among the
/// delivered frames) and the session timestamp (negative ones read as zero).
pub fn callback_frame(
    status: i32,
    image_missing: bool,
    copied: Option<(u32, u32)>,
    context_frame_id: u64,
    delivered_before: u64,
    session_pts_ns: i64,
    buffer: Vec<u8>,
) -> (f: Option<DecodedFrame>)
    requires
        delivered_before < u64::MAX,
    ensures
        status != 0 || image_missing || copied is None ==> f is None,
        status == 0 && !image_missing && copied is Some ==> (f matches Some(frame) && {
            &&& frame.width == copied.unwrap().0
            &&& frame.height == copied.unwrap().1
            &&& frame.frame_id == if context_frame_id > 0 {
                context_frame_id
            } else {
                (delivered_before + 1) as u64
            }
            &&& frame.pts_ns == if session_pts_ns >= 0 {
                session_pts_ns as u64
            } else {
                0u64
            }
            &&& frame.format == PixelFormat::Bgra8
            &&& frame.buffer == buffer
        }),
{
    if status != 0 || image_missing {
        return None;
    }
    match copied {
        None => None,
        Some((width, height)) => {
            let count = delivered_before + 1;
            let frame_id = if context_frame_id > 0 {
                context_frame_id
            } else {
                count
            };
            let pts_ns: u64 = if session_pts_ns >= 0 {
                session_pts_ns as u64
            } else {
                0
            };
            Some(
                DecodedFrame {
                    frame_id,
                    pts_ns,
                    width,
                    height,
                    format: PixelFormat::Bgra8,
                    buffer,
                    decode_duration: Duration::from_millis(1),
                },
            )
        },
    }
}

/// macOS VideoToolbox hardware decoder state: configuration, decoded-packet count and
/// the frames the session has delivered.
#[derive(Debug)]
pub struct VideoToolboxDecoder {
    initialized: bool,
    codec: String,
    width: u32,
    height: u32,
    output_queue: VecDeque<DecodedFrame>,
    decoded_count: u64,
}

impl VideoToolboxDecoder {
    /// Whether `initialize` has run.
    pub closed spec fn initialized_spec(&self) -> bool {
        self.initialized
    }

    /// The configured codec name.
    pub closed spec fn codec_spec(&self) -> Seq<char> {
        self.codec@
    }

    /// The configured frame width.
    pub closed spec fn width_spec(&self) -> u32 {
        self.width
    }

    /// The configured frame height.
    pub closed spec fn height_spec(&self) -> u32 {
        self.height
    }

    /// Delivered frames waiting to be received, oldest first.
    pub closed spec fn queue_spec(&self) -> Seq<DecodedFrame> {
        self.output_queue@
    }

    /// Number of packets submitted.
    pub closed spec fn decoded_spec(&self) -> u64 {
        self.decoded_count
    }

    /// Creates an uninitialized decoder.
    pub fn new() -> (d: Self)
        ensures
            !d.initialized_spec(),
            d.codec_spec() == Seq::<char>::empty(),
            d.width_spec() == 0,
            d.height_spec() == 0,
            d.queue_spec() == Seq::<DecodedFrame>::empty(),
            d.decoded_spec() == 0,
    {
        VideoToolboxDecoder {
            initialized: false,
            codec: String::new(),
            width: 0,
            height: 0,
            output_queue: VecDeque::new(),
            decoded_count: 0,
        }
    }

    /// The configured codec name (empty before `initialize`).
    pub fn codec(&self) -> (s: &str)
        ensures
            s@ == self.codec_spec(),
    {
        self.codec.as_str()
    }

    /// Number of packets submitted.
    pub fn decoded_count(&self) -> (n: u64)
        ensures
            n == self.decoded_spec(),
    {
        self.decoded_count
    }

    /// Queues a frame the session delivered.
    pub fn deliver_frame(&mut self, frame: DecodedFrame)
        ensures
            final(self).queue_spec() == old(self).queue_spec().push(frame),
            final(self).initialized_spec() == old(self).initialized_spec(),
            final(self).codec_spec() == old(self).codec_spec(),
            final(self).decoded_spec() == old(self).decoded_spec(),
    {
        self.output_queue.push_back(frame);
    }
}

impl Default for VideoToolboxDecoder {
    fn default() -> (d: Self)
        ensures
            !d.initialized_spec(),
            d.codec_spec() == Seq::<char>::empty(),
            d.queue_spec() == Seq::<DecodedFrame>::empty(),
            d.decoded_spec() == 0,
    {
        VideoToolboxDecoder::new()
    }
}

impl Decoder for VideoToolboxDecoder {
    open spec fn admits_packet(&self, packet: Seq<u8>, frame_id: u64) -> bool {
        self.initialized_spec() ==> self.decoded_spec() < u64::MAX
    }

    /// Every packet is taken once the decoder is initialized.
    open spec fn accepts_packet(&self, packet: Seq<u8>, frame_id: u64) -> bool {
        self.initialized_spec()
    }

    /// The packet is counted; its frame arrives later through the session's callback.
    open spec fn decoded_into(&self, after: Self, packet: Seq<u8>, frame_id: u64, pts_ns: u64) -> bool {
        &&& after.initialized_spec()
        &&& after.codec_spec() == self.codec_spec()
        &&& after.queue_spec() == self.queue_spec()
        &&& after.decoded_spec() == self.decoded_spec() + 1
    }

    fn initialize(&mut self, codec: &str, width: u32, height: u32) -> (r: Result<(), ViewerError>)
        ensures
            r is Ok,
            final(self).initialized_spec(),
            final(self).codec_spec() == lowercase(codec@),
            final(self).width_spec() == width,
            final(self).height_spec() == height,
            final(self).queue_spec() == old(self).queue_spec(),
            final(self).decoded_spec() == old(self).decoded_spec(),
    {
        self.codec = to_lowercase(codec);
        self.width = width;
        self.height = height;
        self.initialized = true;
        Ok(())
    }

    /// Counts the packet; frames arrive later through the session's callback.
    fn decode_packet(&mut self, packet: &[u8], frame_id: u64, pts_ns: u64) -> (r: Result<
        (),
        ViewerError,
    >)
        ensures
            r is Ok == old(self).initialized_spec(),
            r is Err ==> decoder_failure(r, "Decoder not initialized"@) && *final(self) == *old(self),
            final(self).initialized_spec() == old(self).initialized_spec(),
            final(self).codec_spec() == old(self).codec_spec(),
            final(self).queue_spec() == old(self).queue_spec(),
    {
        if !self.initialized {
            return Err(not_initialized());
        }
        self.decoded_count = self.decoded_count + 1;
        Ok(())
    }

    fn receive_frame(&mut self) -> (r: Result<Option<DecodedFrame>, ViewerError>)
        ensures
            r is Ok == old(self).initialized_spec(),
            r is Err ==> decoder_failure(r, "Decoder not initialized"@) && *final(self) == *old(self),
            r matches Ok(f) ==> if old(self).queue_spec().len() == 0 {
                f is None && final(self).queue_spec() == old(self).queue_spec()
            } else {
                f == Some(old(self).queue_spec()[0]) && final(self).queue_spec()
                    == old(self).queue_spec().drop_first()
            },
            final(self).initialized_spec() == old(self).initialized_spec(),
            final(self).decoded_spec() == old(self).decoded_spec(),
    {
        if !self.initialized {
            return Err(not_initialized());
        }
        Ok(self.output_queue.pop_front())
    }

    fn reset(&mut self) -> (r: Result<(), ViewerError>)
        ensures
            r is Ok,
            final(self).queue_spec() == Seq::<DecodedFrame>::empty(),
            final(self).initialized_spec() == old(self).initialized_spec(),
            final(self).codec_spec() == old(self).codec_spec(),
            final(self).decoded_spec() == old(self).decoded_spec(),
    {
        self.output_queue.clear();
        Ok(())
    }
}

} // verus!
