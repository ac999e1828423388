use vstd::prelude::*;

use crate::decoder::Decoder;
use crate::error::ViewerError;
use crate::text::{decimal, decimal_text};

verus! {

/// Bytes of the fragment header that starts every media datagram.
pub const HEADER_SIZE: usize = 16;

/// Most already-queued datagrams one drain pass pulls before decoding.
pub const DRAIN_CAP: usize = 4096;

/// What the receive loop tells the feedback task.
///
/// Both cases ask for a keyframe, but only fragment loss is evidence that the network
/// struggles: a decode backlog is local and must never count as loss.
#[derive(Debug, Clone, Copy, PartialEq, Eq, Structural)]
pub enum RecoverySignal {
    /// Fragments were lost in transit or evicted from the window incomplete.
    FragmentLoss(u64),
    /// Decoding fell behind arrival and frames were skipped to catch up.
    DecodeBacklog,
}

/// What to do with a reassembled frame.
#[derive(Debug, Clone, Copy, PartialEq, Eq, Structural)]
pub enum FrameAction {
    /// Hand the frame to the decoder.
    Decode,
    /// Drop the frame: its reference was skipped, so decoding it shows corrupted motion.
    Skip,
}

/// Decisions of the receive loop between datagram batches.
///
/// After a batch shows that arrival outran decoding, non-keyframes are skipped until a
/// keyframe is decoded; window evictions are reported as fragment loss once each.
#[derive(Debug)]
pub struct ReceiveLoopState {
    awaiting_keyframe: bool,
    last_dropped_frames: u64,
}

impl ReceiveLoopState {
    /// Whether non-keyframes are being skipped until the next keyframe.
    pub closed spec fn awaiting_spec(&self) -> bool {
        self.awaiting_keyframe
    }

    /// The window's eviction count when loss was last reported.
    pub closed spec fn reported_drops_spec(&self) -> u64 {
        self.last_dropped_frames
    }

    /// Starts decoding normally, with the window's current eviction count as baseline.
    pub fn new(window_dropped_frames: u64) -> (s: Self)
        ensures
            !s.awaiting_spec(),
            s.reported_drops_spec() == window_dropped_frames,
    {
        ReceiveLoopState { awaiting_keyframe: false, last_dropped_frames: window_dropped_frames }
    }

    /// Whether non-keyframes are being skipped until the next keyframe.
    pub fn is_awaiting_keyframe(&self) -> (b: bool)
        ensures
            b == self.awaiting_spec(),
    {
        self.awaiting_keyframe
    }

    /// Whether a drain pass holding `batch_len` datagrams may pull another.
    pub fn keep_draining(batch_len: usize) -> (more: bool)
        ensures
            more == (batch_len < DRAIN_CAP),
    {
        batch_len < DRAIN_CAP
    }

    /// Takes note of a drained batch. More than one datagram means decoding fell behind:
    /// skipping starts and a keyframe is requested as a backlog, never as loss.
    pub fn on_batch(&mut self, batch_len: usize) -> (signal: Option<RecoverySignal>)
        ensures
            batch_len > 1 ==> signal == Some(RecoverySignal::DecodeBacklog) && final(self).awaiting_spec(),
            batch_len <= 1 ==> signal is None && final(self).awaiting_spec() == old(self).awaiting_spec(),
            final(self).reported_drops_spec() == old(self).reported_drops_spec(),
    {
        if batch_len > 1 {
            self.awaiting_keyframe = true;
            Some(RecoverySignal::DecodeBacklog)
        } else {
            None
        }
    }

    /// Decides about a reassembled frame: while skipping, only a keyframe is decoded, and
    /// decoding one ends the skipping.
    pub fn on_frame(&mut self, is_keyframe: bool) -> (action: FrameAction)
        ensures
            old(self).awaiting_spec() && !is_keyframe ==> action == FrameAction::Skip
                && final(self).awaiting_spec(),
            !(old(self).awaiting_spec() && !is_keyframe) ==> action == FrameAction::Decode
                && !final(self).awaiting_spec(),
            final(self).reported_drops_spec() == old(self).reported_drops_spec(),
    {
        if self.awaiting_keyframe && !is_keyframe {
            FrameAction::Skip
        } else {
            self.awaiting_keyframe = false;
            FrameAction::Decode
        }
    }

    /// Decides a drained batch of `batch_len` datagrams whose completed frames are, in
    /// arrival order, keyframes where `kinds` says so: the batch is noted as
    /// [`Self::on_batch`] does, then each frame is decided as [`Self::on_frame`] does. This
    /// is one step of [`run_decided`].
    pub fn decide_batch(&mut self, batch_len: usize, kinds: &[bool]) -> (r: (
        Option<RecoverySignal>,
        Vec<FrameAction>,
    ))
        ensures
            r.0 == if batch_len > 1 {
                Some(RecoverySignal::DecodeBacklog)
            } else {
                None::<RecoverySignal>
            },
            r.1@.len() == kinds@.len(),
            ({
                let step = run_decided(old(self).awaiting_spec(), seq![(batch_len as nat, kinds@)]);
                &&& final(self).awaiting_spec() == step.0
                &&& forall|i: int|
                    0 <= i < kinds@.len() ==> (#[trigger] r.1@[i] == FrameAction::Decode) == step.1[0][i]
            }),
            final(self).reported_drops_spec() == old(self).reported_drops_spec(),
    {
        let ghost a0 = batch_len > 1 || self.awaiting_keyframe;
        let signal = self.on_batch(batch_len);
        let mut actions: Vec<FrameAction> = Vec::new();
        let mut i: usize = 0;
        while i < kinds.len()
            invariant
                i <= kinds@.len(),
                actions@.len() == i,
                self.awaiting_keyframe == frames_decided(a0, kinds@.take(i as int)).0,
                frames_decided(a0, kinds@.take(i as int)).1.len() == i,
                forall|j: int|
                    0 <= j < i ==> (#[trigger] actions@[j] == FrameAction::Decode) == frames_decided(
                        a0,
                        kinds@.take(i as int),
                    ).1[j],
                self.last_dropped_frames == old(self).last_dropped_frames,
            decreases kinds@.len() - i,
        {
            proof {
                lemma_frames_decided_push(a0, kinds@.take(i as int), kinds@[i as int]);
                assert(kinds@.take(i as int).push(kinds@[i as int]) =~= kinds@.take(i + 1));
            }
            let action = self.on_frame(kinds[i]);
            actions.push(action);
            i = i + 1;
        }
        proof {
            assert(kinds@.take(kinds@.len() as int) =~= kinds@);
            let batches = seq![(batch_len as nat, kinds@)];
            assert(batches.drop_first() =~= Seq::<(nat, Seq<bool>)>::empty());
            reveal_with_fuel(run_decided, 2);
            let d = frames_decided(a0, kinds@);
            assert(run_decided(old(self).awaiting_spec(), batches) == (d.0, seq![d.1] + Seq::<
                Seq<bool>,
            >::empty()));
            assert((seq![d.1] + Seq::<Seq<bool>>::empty())[0] == d.1);
        }
        (signal, actions)
    }

    /// The signal for a datagram the window refused: one lost fragment.
    pub fn on_reassembly_error(&self) -> (signal: RecoverySignal)
        ensures
            signal == RecoverySignal::FragmentLoss(1),
    {
        RecoverySignal::FragmentLoss(1)
    }

    /// Compares the window's eviction count with the last one reported and reports the
    /// increase, if any, as fragment loss.
    pub fn on_window_drops(&mut self, current: u64) -> (signal: Option<RecoverySignal>)
        ensures
            current > old(self).reported_drops_spec() ==> signal == Some(
                RecoverySignal::FragmentLoss((current - old(self).reported_drops_spec()) as u64),
            ) && final(self).reported_drops_spec() == current,
            current <= old(self).reported_drops_spec() ==> signal is None && final(self).reported_drops_spec() == old(self).reported_drops_spec(),
            final(self).awaiting_spec() == old(self).awaiting_spec(),
    {
        if current > self.last_dropped_frames {
            let diff = current - self.last_dropped_frames;
            self.last_dropped_frames = current;
            Some(RecoverySignal::FragmentLoss(diff))
        } else {
            None
        }
    }
}

/// The receive loop's state after frames of the given kinds (keyframe or not), and
/// whether each was decoded.
pub open spec fn frames_decided(awaiting: bool, kinds: Seq<bool>) -> (bool, Seq<bool>)
    decreases kinds.len(),
{
    if kinds.len() == 0 {
        (awaiting, Seq::empty())
    } else {
        let decode = !(awaiting && !kinds[0]);
        let rest = frames_decided(awaiting && !decode, kinds.drop_first());
        (rest.0, seq![decode] + rest.1)
    }
}

/// Deciding one more frame extends the decisions of the frames before it.
pub proof fn lemma_frames_decided_push(awaiting: bool, kinds: Seq<bool>, kind: bool)
    ensures
        ({
            let before = frames_decided(awaiting, kinds);
            let decode = !(before.0 && !kind);
            frames_decided(awaiting, kinds.push(kind)) == (before.0 && !decode, before.1.push(decode))
        }),
    decreases kinds.len(),
{
    if kinds.len() == 0 {
        reveal_with_fuel(frames_decided, 2);
        assert(kinds.push(kind).drop_first() =~= Seq::<bool>::empty());
        assert(kinds.push(kind)[0] == kind);
        assert(seq![!(awaiting && !kind)] + Seq::<bool>::empty() =~= Seq::<bool>::empty().push(
            !(awaiting && !kind),
        ));
    } else {
        let decode0 = !(awaiting && !kinds[0]);
        lemma_frames_decided_push(awaiting && !decode0, kinds.drop_first(), kind);
        assert(kinds.push(kind).drop_first() =~= kinds.drop_first().push(kind));
        let rest = frames_decided(awaiting && !decode0, kinds.drop_first());
        let d = !(rest.0 && !kind);
        assert(seq![decode0] + rest.1.push(d) =~= (seq![decode0] + rest.1).push(d));
    }
}

/// Once skipping has started, no non-keyframe is decoded until a keyframe is: over any
/// run of frames, frame `i` is decoded exactly when some frame up to `i` is a keyframe.
pub proof fn lemma_backlog_skips_until_keyframe(kinds: Seq<bool>)
    ensures
        frames_decided(true, kinds).1.len() == kinds.len(),
        forall|i: int|
            0 <= i < kinds.len() ==> (#[trigger] frames_decided(true, kinds).1[i] <==> exists|
                j: int,
            | 0 <= j <= i && kinds[j]),
    decreases kinds.len(),
{
    if kinds.len() > 0 {
        let rest = kinds.drop_first();
        if kinds[0] {
            lemma_decoding_continues(rest);
            assert forall|i: int| 0 <= i < kinds.len() implies (#[trigger] frames_decided(
                true,
                kinds,
            ).1[i] <==> exists|j: int| 0 <= j <= i && kinds[j]) by {
                assert(0 <= 0 <= i && kinds[0]);
                if i > 0 {
                    assert(frames_decided(true, kinds).1[i] == frames_decided(false, rest).1[i - 1]);
                }
            }
        } else {
            lemma_backlog_skips_until_keyframe(rest);
            assert forall|i: int| 0 <= i < kinds.len() implies (#[trigger] frames_decided(
                true,
                kinds,
            ).1[i] <==> exists|j: int| 0 <= j <= i && kinds[j]) by {
                if i == 0 {
                    assert(!frames_decided(true, kinds).1[0]);
                } else {
                    assert(frames_decided(true, kinds).1[i] == frames_decided(true, rest).1[i - 1]);
                    if frames_decided(true, rest).1[i - 1] {
                        let j = choose|j: int| 0 <= j <= i - 1 && rest[j];
                        assert(0 <= j + 1 <= i && kinds[j + 1]);
                    }
                    if exists|j: int| 0 <= j <= i && kinds[j] {
                        let j = choose|j: int| 0 <= j <= i && kinds[j];
                        assert(j > 0);
                        assert(0 <= j - 1 <= i - 1 && rest[j - 1]);
                    }
                }
            }
        }
    }
}

/// Without a backlog every frame is decoded.
pub proof fn lemma_decoding_continues(kinds: Seq<bool>)
    ensures
        !frames_decided(false, kinds).0,
        frames_decided(false, kinds).1.len() == kinds.len(),
        forall|i: int| 0 <= i < kinds.len() ==> #[trigger] frames_decided(false, kinds).1[i],
    decreases kinds.len(),
{
    if kinds.len() > 0 {
        lemma_decoding_continues(kinds.drop_first());
        assert forall|i: int| 0 <= i < kinds.len() implies #[trigger] frames_decided(
            false,
            kinds,
        ).1[i] by {
            if i > 0 {
                assert(frames_decided(false, kinds).1[i] == frames_decided(
                    false,
                    kinds.drop_first(),
                ).1[i - 1]);
            }
        }
    }
}

/// The receive loop's state after a run of drained batches, each given as its datagram
/// count and the kinds (keyframe or not) of the frames it completed, and whether each
/// frame of each batch was decoded: a batch of more than one datagram starts skipping
/// ([`ReceiveLoopState::on_batch`]), then its frames are decided in order
/// ([`ReceiveLoopState::on_frame`]).
pub open spec fn run_decided(awaiting: bool, batches: Seq<(nat, Seq<bool>)>) -> (bool, Seq<Seq<bool>>)
    decreases batches.len(),
{
    if batches.len() == 0 {
        (awaiting, Seq::empty())
    } else {
        let batch = frames_decided(batches[0].0 > 1 || awaiting, batches[0].1);
        let rest = run_decided(batch.0, batches.drop_first());
        (rest.0, seq![batch.1] + rest.1)
    }
}

/// Over a whole run: in every batch of more than one datagram, a frame is decoded exactly
/// when a keyframe came at or before it in that batch, whatever came before the batch.
pub proof fn lemma_run_skips_backlog_until_keyframe(awaiting: bool, batches: Seq<(nat, Seq<bool>)>)
    ensures
        run_decided(awaiting, batches).1.len() == batches.len(),
        forall|b: int, i: int|
            0 <= b < batches.len() && batches[b].0 > 1 && 0 <= i < batches[b].1.len() ==> (
            #[trigger] run_decided(awaiting, batches).1[b][i] <==> exists|k: int|
                0 <= k <= i && batches[b].1[k]),
    decreases batches.len(),
{
    if batches.len() > 0 {
        let first = batches[0];
        let batch = frames_decided(first.0 > 1 || awaiting, first.1);
        let tail = batches.drop_first();
        lemma_run_skips_backlog_until_keyframe(batch.0, tail);
        lemma_backlog_skips_until_keyframe(first.1);
        assert forall|b: int, i: int|
            0 <= b < batches.len() && batches[b].0 > 1 && 0 <= i < batches[b].1.len() implies (
            #[trigger] run_decided(awaiting, batches).1[b][i] <==> exists|k: int|
                0 <= k <= i && batches[b].1[k]) by {
            if b > 0 {
                assert(run_decided(awaiting, batches).1[b] == run_decided(batch.0, tail).1[b - 1]);
                assert(tail[b - 1] == batches[b]);
            }
        }
    }
}

/// Over a whole run that starts decoding normally and never drains more than one
/// datagram at a time, every frame is decoded.
pub proof fn lemma_run_without_backlog_decodes_all(batches: Seq<(nat, Seq<bool>)>)
    requires
        forall|b: int| 0 <= b < batches.len() ==> #[trigger] batches[b].0 <= 1,
    ensures
        !run_decided(false, batches).0,
        run_decided(false, batches).1.len() == batches.len(),
        forall|b: int, i: int|
            0 <= b < batches.len() && 0 <= i < batches[b].1.len() ==> #[trigger] run_decided(
                false,
                batches,
            ).1[b][i],
    decreases batches.len(),
{
    if batches.len() > 0 {
        let first = batches[0];
        assert(first.0 <= 1);
        lemma_decoding_continues(first.1);
        let tail = batches.drop_first();
        assert forall|b: int| 0 <= b < tail.len() implies #[trigger] tail[b].0 <= 1 by {
            assert(tail[b] == batches[b + 1]);
        }
        lemma_run_without_backlog_decodes_all(tail);
        assert forall|b: int, i: int|
            0 <= b < batches.len() && 0 <= i < batches[b].1.len() implies #[trigger] run_decided(
                false,
                batches,
            ).1[b][i] by {
            if b > 0 {
                assert(run_decided(false, batches).1[b] == run_decided(false, tail).1[b - 1]);
                assert(tail[b - 1] == batches[b]);
            }
        }
    }
}

/// The presentation time of a reassembled frame, from its microsecond offset.
pub fn frame_pts_ns(pts_offset_us: u32) -> (ns: u64)
    ensures
        ns == pts_offset_us * 1000,
{
    (pts_offset_us as u64) * 1000
}

/// Hands a reassembled frame to the decoder, shown at its offset in nanoseconds, and
/// reports its id once accepted; the decoder's refusal is passed on.
pub fn deliver_frame<D: Decoder>(decoder: &mut D, payload: &[u8], frame_id: u64, pts_offset_us: u32) -> (r: Result<
    u64,
    ViewerError,
>)
    requires
        old(decoder).admits_packet(payload@, frame_id),
    ensures
        r is Ok == old(decoder).accepts_packet(payload@, frame_id),
        r matches Ok(id) ==> id == frame_id,
        r is Ok ==> old(decoder).decoded_into(
            *final(decoder),
            payload@,
            frame_id,
            (pts_offset_us * 1000) as u64,
        ),
{
    let pts_ns = frame_pts_ns(pts_offset_us);
    match decoder.decode_packet(payload, frame_id, pts_ns) {
        Ok(()) => Ok(frame_id),
        Err(e) => Err(e),
    }
}

/// The error text for a datagram too short to hold a fragment header.
pub open spec fn short_datagram_text(len: nat) -> Seq<char> {
    "Datagram length "@ + decimal(len) + " under 16-byte header size"@
}

/// Datagram counters of the media receive path: datagrams seen, frames the window
/// completed and fragments dropped. Like the atomic counters they stand for, they wrap
/// on overflow.
#[derive(Debug)]
pub struct DatagramReceiver {
    window_size: usize,
    received_datagrams: u64,
    reassembled_frames: u64,
    dropped_fragments: u64,
}

impl DatagramReceiver {
    /// Capacity of the reassembly window, in frames.
    pub closed spec fn window_size_spec(&self) -> usize {
        self.window_size
    }

    /// Datagrams seen.
    pub closed spec fn received_spec(&self) -> u64 {
        self.received_datagrams
    }

    /// Frames the window completed.
    pub closed spec fn reassembled_spec(&self) -> u64 {
        self.reassembled_frames
    }

    /// Fragments dropped.
    pub closed spec fn dropped_spec(&self) -> u64 {
        self.dropped_fragments
    }

    /// Creates a receiver for a reassembly window of `window_size` frames, all counts zero.
    pub fn new(window_size: usize) -> (r: Self)
        ensures
            r.window_size_spec() == window_size,
            r.received_spec() == 0,
            r.reassembled_spec() == 0,
            r.dropped_spec() == 0,
    {
        DatagramReceiver {
            window_size,
            received_datagrams: 0,
            reassembled_frames: 0,
            dropped_fragments: 0,
        }
    }

    /// Capacity of the reassembly window, in frames.
    pub fn window_size(&self) -> (n: usize)
        ensures
            n == self.window_size_spec(),
    {
        self.window_size
    }

    /// Counts an arriving datagram of `len` bytes and refuses it, as a dropped fragment,
    /// when it cannot hold a fragment header.
    pub fn accept_datagram(&mut self, len: usize) -> (r: Result<(), ViewerError>)
        ensures
            final(self).received_spec() == crate::frame_queue::counter_add(
                old(self).received_spec(),
                1,
            ),
            final(self).reassembled_spec() == old(self).reassembled_spec(),
            final(self).window_size_spec() == old(self).window_size_spec(),
            len >= HEADER_SIZE ==> r is Ok && final(self).dropped_spec() == old(self).dropped_spec(),
            len < HEADER_SIZE ==> (r matches Err(e) && e matches ViewerError::Network(m) && m@
                == short_datagram_text(len as nat)) && final(self).dropped_spec()
                == crate::frame_queue::counter_add(old(self).dropped_spec(), 1),
    {
        self.received_datagrams = self.received_datagrams.wrapping_add(1);
        if len < HEADER_SIZE {
            self.dropped_fragments = self.dropped_fragments.wrapping_add(1);
            let mut m = String::from_str("Datagram length ");
            let digits = decimal_text(len as u64);
            m.append(digits.as_str());
            m.append(" under 16-byte header size");
            return Err(ViewerError::Network(m));
        }
        Ok(())
    }

    /// Counts a fragment the header parser or the window refused, and builds the network
    /// error `prefix` followed by `detail`.
    pub fn reject_fragment(&mut self, prefix: &str, detail: &str) -> (e: ViewerError)
        ensures
            e matches ViewerError::Network(m) && m@ == prefix@ + detail@,
            final(self).dropped_spec() == crate::frame_queue::counter_add(
                old(self).dropped_spec(),
                1,
            ),
            final(self).received_spec() == old(self).received_spec(),
            final(self).reassembled_spec() == old(self).reassembled_spec(),
            final(self).window_size_spec() == old(self).window_size_spec(),
    {
        self.dropped_fragments = self.dropped_fragments.wrapping_add(1);
        ViewerError::Network(crate::error::join_text(prefix, detail))
    }

    /// Counts a frame the window completed.
    pub fn record_reassembled(&mut self)
        ensures
            final(self).reassembled_spec() == crate::frame_queue::counter_add(
                old(self).reassembled_spec(),
                1,
            ),
            final(self).received_spec() == old(self).received_spec(),
            final(self).dropped_spec() == old(self).dropped_spec(),
            final(self).window_size_spec() == old(self).window_size_spec(),
    {
        self.reassembled_frames = self.reassembled_frames.wrapping_add(1);
    }

    /// Datagrams seen.
    pub fn received_datagrams(&self) -> (n: u64)
        ensures
            n == self.received_spec(),
    {
        self.received_datagrams
    }

    /// Frames the window completed.
    pub fn reassembled_frames(&self) -> (n: u64)
        ensures
            n == self.reassembled_spec(),
    {
        self.reassembled_frames
    }

    /// Fragments dropped.
    pub fn dropped_fragments(&self) -> (n: u64)
        ensures
            n == self.dropped_spec(),
    {
        self.dropped_fragments
    }
}

impl Default for DatagramReceiver {
    fn default() -> (r: Self)
        ensures
            r.window_size_spec() == 4,
            r.received_spec() == 0,
            r.reassembled_spec() == 0,
            r.dropped_spec() == 0,
    {
        DatagramReceiver::new(4)
    }
}

} // verus!
