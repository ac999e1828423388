use vstd::prelude::*;

use std::collections::VecDeque;
use std::time::Instant;

use crate::decoder::{not_initialized, DecodedFrame, Decoder, PixelFormat};
use crate::error::{decoder_failure, ViewerError};
use crate::text::{lowercase, to_lowercase};

verus! {

/// Bytes of an NV12 frame: a full-size luma plane and a half-size interleaved chroma plane.
pub open spec fn nv12_len(width: int, height: int) -> int {
    width * height + (width * height) / 2
}

/// The frame the Direct3D 12 path produces for `packet`: neutral NV12 (every byte 128)
/// whose first byte carries the packet's first byte when there is one.
pub open spec fn d3d12_output_frame(buf: Seq<u8>, packet: Seq<u8>, width: int, height: int) -> bool {
    &&& buf.len() == nv12_len(width, height)
    &&& forall|i: int|
        0 <= i < buf.len() ==> #[trigger] buf[i] == if i == 0 && packet.len() > 0 {
            packet[0]
        } else {
            128u8
        }
}

/// Direct3D 12 video decoder: accepts packets for the configured stream and queues one
/// NV12 frame per packet.
#[derive(Debug)]
pub struct D3D12Decoder {
    initialized: bool,
    codec: String,
    width: u32,
    height: u32,
    output_queue: VecDeque<DecodedFrame>,
    decoded_count: u64,
}

impl D3D12Decoder {
    /// Whether `initialize` has run.
    pub closed spec fn initialized_spec(&self) -> bool {
        self.initialized
    }

    /// The configured codec name.
    pub closed spec fn codec_spec(&self) -> Seq<char> {
        self.codec@
    }

    /// The configured frame width.
    pub closed spec fn width_spec(&self) -> u32 {
        self.width
    }

    /// The configured frame height.
    pub closed spec fn height_spec(&self) -> u32 {
        self.height
    }

    /// Decoded frames waiting to be received, oldest first.
    pub closed spec fn queue_spec(&self) -> Seq<DecodedFrame> {
        self.output_queue@
    }

    /// Number of packets decoded.
    pub closed spec fn decoded_spec(&self) -> u64 {
        self.decoded_count
    }

    /// Creates an uninitialized decoder.
    pub fn new() -> (d: Self)
        ensures
            !d.initialized_spec(),
            d.codec_spec() == Seq::<char>::empty(),
            d.width_spec() == 0,
            d.height_spec() == 0,
            d.queue_spec() == Seq::<DecodedFrame>::empty(),
            d.decoded_spec() == 0,
    {
        D3D12Decoder {
            initialized: false,
            codec: String::new(),
            width: 0,
            height: 0,
            output_queue: VecDeque::new(),
            decoded_count: 0,
        }
    }

    /// The configured codec name (empty before `initialize`).
    pub fn codec(&self) -> (s: &str)
        ensures
            s@ == self.codec_spec(),
    {
        self.codec.as_str()
    }

    /// Number of packets decoded.
    pub fn decoded_count(&self) -> (n: u64)
        ensures
            n == self.decoded_spec(),
    {
        self.decoded_count
    }

    /// Readies the hardware video decoder; refused before `initialize`.
    fn init_d3d12_video_decoder(&self) -> (r: Result<(), ViewerError>)
        ensures
            r is Ok == self.initialized_spec(),
            r is Err ==> decoder_failure(r, "Decoder not initialized"@),
    {
        if !self.initialized {
            return Err(not_initialized());
        }
        Ok(())
    }

    /// Submits a packet to the hardware decoder; refused before `initialize`.
    fn decode_packet_d3d12(&self, packet: &[u8], frame_id: u64, pts_ns: u64) -> (r: Result<
        (),
        ViewerError,
    >)
        ensures
            r is Ok == self.initialized_spec(),
            r is Err ==> decoder_failure(r, "Decoder not initialized"@),
    {
        if !self.initialized {
            return Err(not_initialized());
        }
        Ok(())
    }
}

impl Default for D3D12Decoder {
    fn default() -> (d: Self)
        ensures
            !d.initialized_spec(),
            d.codec_spec() == Seq::<char>::empty(),
            d.queue_spec() == Seq::<DecodedFrame>::empty(),
            d.decoded_spec() == 0,
    {
        D3D12Decoder::new()
    }
}

impl Decoder for D3D12Decoder {
    /// Decoding needs the frame sizes to fit `u32` and `usize`, a non-empty frame when the
    /// packet has a byte to carry, and room in the decode counter.
    open spec fn admits_packet(&self, packet: Seq<u8>, frame_id: u64) -> bool {
        self.initialized_spec() ==> {
            &&& self.width_spec() * self.height_spec() <= u32::MAX
            &&& nv12_len(self.width_spec() as int, self.height_spec() as int) <= usize::MAX
            &&& packet.len() > 0 ==> nv12_len(self.width_spec() as int, self.height_spec() as int)
                > 0
            &&& self.decoded_spec() < u64::MAX
        }
    }

    /// Every packet is taken once the decoder is initialized.
    open spec fn accepts_packet(&self, packet: Seq<u8>, frame_id: u64) -> bool {
        self.initialized_spec()
    }

    /// One more frame is counted and queued: NV12 at the configured size, from
    /// [`d3d12_output_frame`].
    open spec fn decoded_into(&self, after: Self, packet: Seq<u8>, frame_id: u64, pts_ns: u64) -> bool {
        &&& after.initialized_spec()
        &&& after.codec_spec() == self.codec_spec()
        &&& after.width_spec() == self.width_spec()
        &&& after.height_spec() == self.height_spec()
        &&& after.decoded_spec() == self.decoded_spec() + 1
        &&& after.queue_spec().len() == self.queue_spec().len() + 1
        &&& after.queue_spec().drop_last() == self.queue_spec()
        &&& after.queue_spec().last().frame_id == frame_id
        &&& after.queue_spec().last().pts_ns == pts_ns
        &&& after.queue_spec().last().width == self.width_spec()
        &&& after.queue_spec().last().height == self.height_spec()
        &&& after.queue_spec().last().format == PixelFormat::Nv12
        &&& d3d12_output_frame(
            after.queue_spec().last().buffer@,
            packet,
            self.width_spec() as int,
            self.height_spec() as int,
        )
    }

    fn initialize(&mut self, codec: &str, width: u32, height: u32) -> (r: Result<(), ViewerError>)
        ensures
            r is Ok,
            final(self).initialized_spec(),
            final(self).codec_spec() == lowercase(codec@),
            final(self).width_spec() == width,
            final(self).height_spec() == height,
            final(self).queue_spec() == old(self).queue_spec(),
            final(self).decoded_spec() == old(self).decoded_spec(),
    {
        self.codec = to_lowercase(codec);
        self.width = width;
        self.height = height;
        self.initialized = true;
        self.init_d3d12_video_decoder()
    }

    fn decode_packet(&mut self, packet: &[u8], frame_id: u64, pts_ns: u64) -> (r: Result<
        (),
        ViewerError,
    >)
        ensures
            r is Ok == old(self).initialized_spec(),
            r matches Err(e) ==> e matches ViewerError::Decoder(m) && m@
                == "Decoder not initialized"@,
            r is Err ==> *final(self) == *old(self),
    {
        if !self.initialized {
            return Err(not_initialized());
        }
        let start_time = Instant::now();
        if let Err(e) = self.decode_packet_d3d12(packet, frame_id, pts_ns) {
            return Err(e);
        }
        let y_size = (self.width * self.height) as usize;
        let uv_size = (self.width * self.height / 2) as usize;
        let mut buffer: Vec<u8> = vec![128u8; y_size + uv_size];
        if packet.len() > 0 {
            buffer.set(0, packet[0]);
        }
        let frame = DecodedFrame {
            frame_id,
            pts_ns,
            width: self.width,
            height: self.height,
            format: PixelFormat::Nv12,
            buffer,
            decode_duration: start_time.elapsed(),
        };
        let ghost before = self.output_queue@;
        self.output_queue.push_back(frame);
        assert(self.output_queue@.drop_last() =~= before);
        self.decoded_count = self.decoded_count + 1;
        Ok(())
    }

    fn receive_frame(&mut self) -> (r: Result<Option<DecodedFrame>, ViewerError>)
        ensures
            r is Ok == old(self).initialized_spec(),
            r matches Err(e) ==> e matches ViewerError::Decoder(m) && m@
                == "Decoder not initialized"@,
            r is Err ==> *final(self) == *old(self),
            r matches Ok(f) ==> if old(self).queue_spec().len() == 0 {
                f is None && final(self).queue_spec() == old(self).queue_spec()
            } else {
                f == Some(old(self).queue_spec()[0]) && final(self).queue_spec()
                    == old(self).queue_spec().drop_first()
            },
            final(self).initialized_spec() == old(self).initialized_spec(),
            final(self).codec_spec() == old(self).codec_spec(),
            final(self).decoded_spec() == old(self).decoded_spec(),
    {
        if !self.initialized {
            return Err(not_initialized());
        }
        Ok(self.output_queue.pop_front())
    }

    fn reset(&mut self) -> (r: Result<(), ViewerError>)
        ensures
            r is Ok,
            final(self).queue_spec() == Seq::<DecodedFrame>::empty(),
            final(self).initialized_spec() == old(self).initialized_spec(),
            final(self).codec_spec() == old(self).codec_spec(),
            final(self).width_spec() == old(self).width_spec(),
            final(self).height_spec() == old(self).height_spec(),
            final(self).decoded_spec() == old(self).decoded_spec(),
    {
        self.output_queue.clear();
        Ok(())
    }
}

} // verus!
