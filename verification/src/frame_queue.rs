use vstd::prelude::*;

use crate::decoder::DecodedFrame;
use std::collections::VecDeque;

verus! {

/// Smallest capacity a queue is ever created with.
pub open spec fn effective_capacity(requested: usize) -> usize {
    if requested == 0 {
        1
    } else {
        requested
    }
}

/// The frames of `s`, in order, whose presentation time is at least `min_pts_ns`.
pub open spec fn fresh_frames(s: Seq<DecodedFrame>, min_pts_ns: u64) -> Seq<DecodedFrame>
    decreases s.len(),
{
    if s.len() == 0 {
        Seq::empty()
    } else {
        let rest = fresh_frames(s.drop_last(), min_pts_ns);
        if s.last().pts_ns >= min_pts_ns {
            rest.push(s.last())
        } else {
            rest
        }
    }
}

/// `a + b` on a 64-bit event counter, wrapping as the hardware counter does.
pub open spec fn counter_add(a: u64, b: u64) -> u64 {
    if a + b > u64::MAX {
        (a + b - (u64::MAX + 1)) as u64
    } else {
        (a + b) as u64
    }
}

/// Modulus of the 64-bit event counters.
pub open spec fn counter_modulus() -> int {
    0x1_0000_0000_0000_0000
}

/// Every pushed frame is accounted for: handed out, discarded as stale, evicted on
/// overflow, or still held, counted modulo the counters' wrap-around.
pub open spec fn frames_accounted(pushed: u64, popped: u64, stale: u64, overflow: u64, held: nat) -> bool {
    (popped + stale + overflow + held) % counter_modulus() == pushed
}

/// Wrapping addition is addition modulo the counter width.
pub proof fn lemma_counter_add_mod(a: u64, b: u64)
    ensures
        counter_add(a, b) as int == (a + b) % counter_modulus(),
{
    if a + b > u64::MAX {
        vstd::arithmetic::div_mod::lemma_fundamental_div_mod_converse(
            a + b,
            counter_modulus(),
            1,
            a + b - counter_modulus(),
        );
    } else {
        vstd::arithmetic::div_mod::lemma_small_mod((a + b) as nat, counter_modulus() as nat);
    }
}

/// Congruence modulo the counter width survives adding the same amount on both sides.
pub proof fn lemma_accounted_shift(x: int, y: int, k: int)
    requires
        x % counter_modulus() == y % counter_modulus(),
    ensures
        (x + k) % counter_modulus() == (y + k) % counter_modulus(),
{
    vstd::arithmetic::div_mod::lemma_add_mod_noop(x, k, counter_modulus());
    vstd::arithmetic::div_mod::lemma_add_mod_noop(y, k, counter_modulus());
}

/// A wrapped counter stands for its unwrapped sum modulo the counter width.
pub proof fn lemma_wrapped_term(a: int, c: u64, d: u64)
    ensures
        (a + counter_add(c, d)) % counter_modulus() == (a + c + d) % counter_modulus(),
{
    if c + d > u64::MAX {
        vstd::arithmetic::div_mod::lemma_mod_add_multiples_vanish(
            a + c + d - counter_modulus(),
            counter_modulus(),
        );
    }
}

/// Bounded queue of decoded frames that drops stale frames to keep latency low.
#[derive(Debug)]
pub struct FrameQueue {
    capacity: usize,
    buffer: VecDeque<DecodedFrame>,
    total_pushed: u64,
    total_popped: u64,
    stale_dropped: u64,
    overflow_dropped: u64,
}

/// Adds to an event counter, wrapping past `u64::MAX`.
fn bump(counter: u64, by: u64) -> (r: u64)
    ensures
        r == counter_add(counter, by),
{
    counter.wrapping_add(by)
}

impl FrameQueue {
    /// The buffered frames, oldest first.
    pub closed spec fn frames(&self) -> Seq<DecodedFrame> {
        self.buffer@
    }

    /// Maximum number of frames held at once.
    pub closed spec fn capacity_spec(&self) -> nat {
        self.capacity as nat
    }

    /// Count of every frame ever pushed.
    pub closed spec fn pushed_count(&self) -> u64 {
        self.total_pushed
    }

    /// Count of every frame handed out for presentation.
    pub closed spec fn popped_count(&self) -> u64 {
        self.total_popped
    }

    /// Count of frames discarded as stale.
    pub closed spec fn stale_count(&self) -> u64 {
        self.stale_dropped
    }

    /// Count of frames evicted by a push onto a full queue.
    pub closed spec fn overflow_count(&self) -> u64 {
        self.overflow_dropped
    }

    /// Every frame pushed onto this queue is accounted for by its counters.
    pub open spec fn accounted(&self) -> bool {
        frames_accounted(
            self.pushed_count(),
            self.popped_count(),
            self.stale_count(),
            self.overflow_count(),
            self.frames().len(),
        )
    }

    /// The queue never holds more frames than its capacity, which is at least one, and
    /// its counters account for every frame pushed.
    pub closed spec fn wf(&self) -> bool {
        &&& self.capacity >= 1
        &&& self.buffer@.len() <= self.capacity
        &&& self.accounted()
    }

    /// Conservation over any run of calls: a queue made by [`Self::new`] is well formed,
    /// every operation keeps it so, and a well-formed queue's counters account for every
    /// frame pushed — each is still queued, was popped, or was dropped as stale or on
    /// overflow, exactly once (modulo the counters' wrap-around).
    pub proof fn lemma_well_formed_queue_accounts(&self)
        requires
            self.wf(),
        ensures
            self.accounted(),
            self.frames().len() <= self.capacity_spec(),
    {
    }

    /// Creates a queue holding at most `max(capacity, 1)` frames.
    pub fn new(capacity: usize) -> (q: Self)
        ensures
            q.wf(),
            q.frames() == Seq::<DecodedFrame>::empty(),
            q.capacity_spec() == effective_capacity(capacity),
            q.pushed_count() == 0,
            q.popped_count() == 0,
            q.stale_count() == 0,
            q.overflow_count() == 0,
            q.accounted(),
    {
        let cap = if capacity == 0 {
            1
        } else {
            capacity
        };
        FrameQueue {
            capacity: cap,
            buffer: VecDeque::with_capacity(capacity),
            total_pushed: 0,
            total_popped: 0,
            stale_dropped: 0,
            overflow_dropped: 0,
        }
    }

    /// Appends `frame`; when the queue is full the oldest frame is evicted first.
    /// Returns whether a frame was evicted.
    pub fn push(&mut self, frame: DecodedFrame) -> (dropped: bool)
        requires
            old(self).wf(),
        ensures
            final(self).wf(),
            dropped == (old(self).frames().len() >= old(self).capacity_spec()),
            dropped ==> final(self).frames() == old(self).frames().drop_first().push(frame),
            !dropped ==> final(self).frames() == old(self).frames().push(frame),
            final(self).capacity_spec() == old(self).capacity_spec(),
            final(self).pushed_count() == counter_add(old(self).pushed_count(), 1),
            final(self).overflow_count() == counter_add(
                old(self).overflow_count(),
                if dropped { 1 } else { 0 },
            ),
            final(self).popped_count() == old(self).popped_count(),
            final(self).stale_count() == old(self).stale_count(),
            old(self).accounted() ==> final(self).accounted(),
    {
        let ghost before = *self;
        self.total_pushed = bump(self.total_pushed, 1);
        let dropped = if self.buffer.len() >= self.capacity {
            let _ = self.buffer.pop_front();
            self.overflow_dropped = bump(self.overflow_dropped, 1);
            true
        } else {
            self.overflow_dropped = bump(self.overflow_dropped, 0);
            false
        };
        self.buffer.push_back(frame);
        proof {
            if before.accounted() {
                let a = self.total_popped + self.stale_dropped + self.buffer@.len();
                let d: u64 = if dropped { 1 } else { 0 };
                lemma_wrapped_term(a, before.overflow_dropped, d);
                assert(a + before.overflow_dropped + d == before.total_popped + before.stale_dropped
                    + before.overflow_dropped + before.buffer@.len() + 1);
                lemma_accounted_shift(
                    before.total_popped + before.stale_dropped + before.overflow_dropped
                        + before.buffer@.len(),
                    before.total_pushed as int,
                    1,
                );
                lemma_counter_add_mod(before.total_pushed, 1);
                vstd::arithmetic::div_mod::lemma_small_mod(
                    before.total_pushed as nat,
                    counter_modulus() as nat,
                );
            }
        }
        dropped
    }

    /// Removes and returns the oldest frame.
    pub fn pop(&mut self) -> (frame: Option<DecodedFrame>)
        requires
            old(self).wf(),
        ensures
            final(self).wf(),
            old(self).frames().len() == 0 ==> frame is None && final(self).frames() == old(
                self,
            ).frames() && final(self).popped_count() == old(self).popped_count(),
            old(self).frames().len() > 0 ==> frame == Some(old(self).frames()[0])
                && final(self).frames() == old(self).frames().drop_first()
                && final(self).popped_count() == counter_add(old(self).popped_count(), 1),
            final(self).capacity_spec() == old(self).capacity_spec(),
            final(self).pushed_count() == old(self).pushed_count(),
            final(self).stale_count() == old(self).stale_count(),
            final(self).overflow_count() == old(self).overflow_count(),
            old(self).accounted() ==> final(self).accounted(),
    {
        let ghost before = *self;
        let frame = self.buffer.pop_front();
        if frame.is_some() {
            self.total_popped = bump(self.total_popped, 1);
            proof {
                lemma_wrapped_term(
                    self.stale_dropped + self.overflow_dropped + self.buffer@.len(),
                    before.total_popped,
                    1,
                );
            }
        }
        frame
    }

    /// Returns the newest frame and discards every older one; the second value is how
    /// many older frames were discarded.
    pub fn pop_latest(&mut self) -> (res: (Option<DecodedFrame>, usize))
        requires
            old(self).wf(),
        ensures
            final(self).wf(),
            final(self).frames() == Seq::<DecodedFrame>::empty(),
            old(self).frames().len() == 0 ==> res.0 is None && res.1 == 0
                && final(self).popped_count() == old(self).popped_count()
                && final(self).stale_count() == old(self).stale_count(),
            old(self).frames().len() > 0 ==> res.0 == Some(old(self).frames().last()) && res.1
                == old(self).frames().len() - 1 && final(self).popped_count() == counter_add(
                old(self).popped_count(),
                1,
            ) && final(self).stale_count() == counter_add(old(self).stale_count(), res.1 as u64),
            final(self).capacity_spec() == old(self).capacity_spec(),
            final(self).pushed_count() == old(self).pushed_count(),
            final(self).overflow_count() == old(self).overflow_count(),
            old(self).accounted() ==> final(self).accounted(),
    {
        let ghost before = *self;
        let len = self.buffer.len();
        if len == 0 {
            (None, 0)
        } else {
            let stale = len - 1;
            let latest = self.buffer.pop_back();
            self.buffer.clear();
            if stale > 0 {
                self.stale_dropped = bump(self.stale_dropped, stale as u64);
            }
            if latest.is_some() {
                self.total_popped = bump(self.total_popped, 1);
            }
            proof {
                lemma_wrapped_term(
                    self.stale_dropped + self.overflow_dropped,
                    before.total_popped,
                    1,
                );
                lemma_wrapped_term(
                    before.total_popped + 1 + self.overflow_dropped,
                    before.stale_dropped,
                    stale as u64,
                );
            }
            (latest, stale)
        }
    }

    /// Removes every frame whose presentation time is before `min_pts_ns`, keeping the
    /// order of the rest. Returns how many frames were removed.
    pub fn drop_stale(&mut self, min_pts_ns: u64) -> (dropped: usize)
        requires
            old(self).wf(),
        ensures
            final(self).wf(),
            final(self).frames() == fresh_frames(old(self).frames(), min_pts_ns),
            dropped == old(self).frames().len() - final(self).frames().len(),
            final(self).stale_count() == counter_add(old(self).stale_count(), dropped as u64),
            final(self).capacity_spec() == old(self).capacity_spec(),
            final(self).pushed_count() == old(self).pushed_count(),
            final(self).popped_count() == old(self).popped_count(),
            final(self).overflow_count() == old(self).overflow_count(),
            old(self).accounted() ==> final(self).accounted(),
    {
        let ghost before = *self;
        let initial_len = self.buffer.len();
        let ghost original = self.buffer@;
        let mut kept: VecDeque<DecodedFrame> = VecDeque::new();
        let mut i: usize = 0;
        while i < initial_len
            invariant
                initial_len == original.len(),
                i <= initial_len,
                self.buffer@ == original.subrange(i as int, initial_len as int),
                kept@ == fresh_frames(original.subrange(0, i as int), min_pts_ns),
                kept@.len() <= i,
                self.capacity == old(self).capacity,
                old(self).wf(),
                self.stale_dropped == old(self).stale_dropped,
                self.total_pushed == old(self).total_pushed,
                self.total_popped == old(self).total_popped,
                self.overflow_dropped == old(self).overflow_dropped,
            decreases initial_len - i,
        {
            proof {
                lemma_fresh_frames_len(original.subrange(0, i as int), min_pts_ns);
            }
            let f = self.buffer.pop_front();
            match f {
                Some(frame) => {
                    proof {
                        assert(original.subrange(0, i + 1).drop_last() =~= original.subrange(
                            0,
                            i as int,
                        ));
                        assert(original.subrange(0, i + 1).last() == frame);
                    }
                    if frame.pts_ns >= min_pts_ns {
                        kept.push_back(frame);
                    }
                },
                None => {},
            }
            proof {
                assert(self.buffer@ =~= original.subrange(i + 1, initial_len as int));
            }
            i = i + 1;
        }
        proof {
            assert(original.subrange(0, initial_len as int) =~= original);
            lemma_fresh_frames_len(original, min_pts_ns);
        }
        self.buffer = kept;
        let dropped = initial_len - self.buffer.len();
        if dropped > 0 {
            self.stale_dropped = bump(self.stale_dropped, dropped as u64);
            proof {
                lemma_wrapped_term(
                    self.total_popped + self.overflow_dropped + self.buffer@.len(),
                    before.stale_dropped,
                    dropped as u64,
                );
            }
        }
        dropped
    }

    /// Number of buffered frames.
    pub fn len(&self) -> (n: usize)
        requires
            self.wf(),
        ensures
            n == self.frames().len(),
            n <= self.capacity_spec(),
    {
        self.buffer.len()
    }

    /// Whether no frame is buffered.
    pub fn is_empty(&self) -> (b: bool)
        requires
            self.wf(),
        ensures
            b == (self.frames().len() == 0),
    {
        self.len() == 0
    }

    /// Discards every buffered frame, counting them as stale.
    pub fn clear(&mut self)
        requires
            old(self).wf(),
        ensures
            final(self).wf(),
            final(self).frames() == Seq::<DecodedFrame>::empty(),
            final(self).stale_count() == counter_add(
                old(self).stale_count(),
                old(self).frames().len() as u64,
            ),
            final(self).capacity_spec() == old(self).capacity_spec(),
            final(self).pushed_count() == old(self).pushed_count(),
            final(self).popped_count() == old(self).popped_count(),
            final(self).overflow_count() == old(self).overflow_count(),
            old(self).accounted() ==> final(self).accounted(),
    {
        let ghost before = *self;
        let len = self.buffer.len();
        if len > 0 {
            self.stale_dropped = bump(self.stale_dropped, len as u64);
        }
        self.buffer.clear();
        proof {
            if len > 0 {
                lemma_wrapped_term(
                    self.total_popped + self.overflow_dropped,
                    before.stale_dropped,
                    len as u64,
                );
            }
        }
    }

    /// Total number of frames pushed.
    pub fn total_pushed(&self) -> (n: u64)
        ensures
            n == self.pushed_count(),
    {
        self.total_pushed
    }

    /// Total number of frames handed out for presentation.
    pub fn total_popped(&self) -> (n: u64)
        ensures
            n == self.popped_count(),
    {
        self.total_popped
    }

    /// Total number of frames discarded as stale.
    pub fn stale_dropped(&self) -> (n: u64)
        ensures
            n == self.stale_count(),
    {
        self.stale_dropped
    }

    /// Total number of frames evicted by pushes onto a full queue.
    pub fn overflow_dropped(&self) -> (n: u64)
        ensures
            n == self.overflow_count(),
    {
        self.overflow_dropped
    }
}

/// Filtering never lengthens a sequence of frames.
pub proof fn lemma_fresh_frames_len(s: Seq<DecodedFrame>, min_pts_ns: u64)
    ensures
        fresh_frames(s, min_pts_ns).len() <= s.len(),
    decreases s.len(),
{
    if s.len() > 0 {
        lemma_fresh_frames_len(s.drop_last(), min_pts_ns);
    }
}

} // verus!
