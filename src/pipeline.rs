use vstd::prelude::*;

use crate::engine::SoundEngine;
use crate::wavetable::WavetableInstance;

verus! {

/// Whole frames that may wait ahead of playback.
pub const FRAME_QUEUE_CAPACITY: usize = 2;

/// The producer end of the frame queue, owned by the thread that renders.
/// The other end is drained concurrently, so how full the queue is can only
/// be learnt by asking, and only a free slot stays true until the next push.
#[verifier::external_body]
pub struct FrameProducer {
    producer: rtrb::Producer<Vec<u64>>,
}

/// The consumer end of the frame queue, owned by the real-time callback.
#[verifier::external_body]
pub struct FrameConsumer {
    consumer: rtrb::Consumer<Vec<u64>>,
}

/// The number of frames the queue was made to hold.
pub uninterp spec fn frame_capacity(p: FrameProducer) -> nat;

/// The queue has a free slot for this producer. Only this producer fills
/// slots, so once true it stays true until this producer pushes.
pub uninterp spec fn frame_has_room(p: FrameProducer) -> bool;

/// Relies on `rtrb::RingBuffer::new`: the two ends of one new ring that holds
/// up to `capacity` items.
#[verifier::external_body]
fn ring_new(capacity: usize) -> (r: (FrameProducer, FrameConsumer))
    ensures
        frame_capacity(r.0) == capacity,
{
    let (producer, consumer) = rtrb::RingBuffer::new(capacity);
    (FrameProducer { producer }, FrameConsumer { consumer })
}

/// Relies on `rtrb::Producer::is_full`: `true` may already be stale, but
/// `false` guarantees a free slot, which the consumer cannot take away.
#[verifier::external_body]
fn ring_is_full(p: &FrameProducer) -> (r: bool)
    ensures
        !r ==> frame_has_room(*p),
{
    p.producer.is_full()
}

/// Relies on `rtrb::Producer::push`: with a free slot the push succeeds; a
/// refused frame is handed back whole; the capacity does not change.
#[verifier::external_body]
fn ring_push(p: &mut FrameProducer, frame: Vec<u64>) -> (r: Result<(), Vec<u64>>)
    ensures
        frame_capacity(*final(p)) == frame_capacity(*old(p)),
        frame_has_room(*old(p)) ==> r is Ok,
        r is Err ==> r->Err_0 == frame,
{
    match p.producer.push(frame) {
        Ok(()) => Ok(()),
        Err(rtrb::PushError::Full(f)) => Err(f),
    }
}

/// Relies on `rtrb::Consumer::pop`: the oldest frame, if one is queued.
#[verifier::external_body]
fn ring_pop(c: &mut FrameConsumer) -> Option<Vec<u64>> {
    c.consumer.pop().ok()
}

/// A new frame queue of `FRAME_QUEUE_CAPACITY` frames, as its two ends.
pub fn frame_queue() -> (r: (FrameProducer, FrameConsumer))
    ensures
        frame_capacity(r.0) == FRAME_QUEUE_CAPACITY,
{
    ring_new(FRAME_QUEUE_CAPACITY)
}

impl FrameProducer {
    /// Whether the queue had no free slot when asked; `false` means the next
    /// push succeeds.
    pub fn is_full(&self) -> (r: bool)
        ensures
            !r ==> frame_has_room(*self),
    {
        ring_is_full(self)
    }

    /// Queues a frame. It succeeds when the queue has room; otherwise the
    /// frame is handed back, so it never overwrites a queued one.
    pub fn try_push(&mut self, frame: Vec<u64>) -> (r: Result<(), Vec<u64>>)
        ensures
            frame_capacity(*final(self)) == frame_capacity(*old(self)),
            frame_has_room(*old(self)) ==> r is Ok,
            r is Err ==> r->Err_0 == frame,
    {
        ring_push(self, frame)
    }
}

impl FrameConsumer {
    /// The oldest queued frame, if any.
    pub fn pop(&mut self) -> Option<Vec<u64>> {
        ring_pop(self)
    }
}

/// What one producer step did.
#[derive(Clone, Copy, Debug, PartialEq, Eq, Structural)]
pub enum Produced {
    /// The queue was full: nothing was rendered.
    Deferred,
    /// A frame was rendered and queued.
    Pushed,
}

/// The producer's decision for a single voice, given whether the queue was
/// found full: render `frame_length` samples and queue them, or leave the
/// voice alone. A rendered frame is always queued, never dropped.
pub fn produce_voice_frame_when(
    full: bool,
    producer: &mut FrameProducer,
    voice: &mut WavetableInstance,
    frame_length: usize,
) -> (r: Produced)
    requires
        old(voice).wf(),
        !full ==> frame_has_room(*old(producer)),
    ensures
        final(voice).wf(),
        frame_capacity(*final(producer)) == frame_capacity(*old(producer)),
        full ==> r == Produced::Deferred && *final(voice) == *old(voice),
        !full ==> r == Produced::Pushed && *final(voice) == old(voice).stepped_by(
            frame_length as nat,
        ),
{
    if full {
        Produced::Deferred
    } else {
        let frame = voice.tick_many(frame_length);
        let pushed = producer.try_push(frame);
        assert(pushed is Ok);
        Produced::Pushed
    }
}

/// One producer step for a single voice: asks whether the queue is full,
/// then decides as `produce_voice_frame_when`.
pub fn produce_voice_frame(
    producer: &mut FrameProducer,
    voice: &mut WavetableInstance,
    frame_length: usize,
) -> (r: Produced)
    requires
        old(voice).wf(),
    ensures
        final(voice).wf(),
        frame_capacity(*final(producer)) == frame_capacity(*old(producer)),
        r == Produced::Deferred ==> *final(voice) == *old(voice),
        r == Produced::Pushed ==> *final(voice) == old(voice).stepped_by(frame_length as nat),
{
    let full = producer.is_full();
    produce_voice_frame_when(full, producer, voice, frame_length)
}

/// The producer's decision for the engine, given whether the queue was found
/// full: render one frame (draining the inbox first) and queue it, or leave
/// the engine alone. A rendered frame is always queued, never dropped.
pub fn produce_engine_frame_when(
    full: bool,
    producer: &mut FrameProducer,
    engine: &mut SoundEngine,
    frame_length: usize,
) -> (r: Produced)
    requires
        old(engine).wf(),
        !full ==> frame_has_room(*old(producer)),
    ensures
        final(engine).wf(),
        frame_capacity(*final(producer)) == frame_capacity(*old(producer)),
        full ==> r == Produced::Deferred && *final(engine) == *old(engine),
        !full ==> r == Produced::Pushed && final(engine).inbox@.len() == 0 && final(engine).data@
            == old(engine).data@.drained(old(engine).inbox@).stepped_by(frame_length as nat),
{
    if full {
        Produced::Deferred
    } else {
        let frame = engine.render_frame(frame_length);
        let pushed = producer.try_push(frame);
        assert(pushed is Ok);
        Produced::Pushed
    }
}

/// One producer step for the engine: asks whether the queue is full, then
/// decides as `produce_engine_frame_when`.
pub fn produce_engine_frame(
    producer: &mut FrameProducer,
    engine: &mut SoundEngine,
    frame_length: usize,
) -> (r: Produced)
    requires
        old(engine).wf(),
    ensures
        final(engine).wf(),
        frame_capacity(*final(producer)) == frame_capacity(*old(producer)),
        r == Produced::Deferred ==> *final(engine) == *old(engine),
        r == Produced::Pushed ==> final(engine).inbox@.len() == 0 && final(engine).data@ == old(
            engine,
        ).data@.drained(old(engine).inbox@).stepped_by(frame_length as nat),
{
    let full = producer.is_full();
    produce_engine_frame_when(full, producer, engine, frame_length)
}

/// The callback's side of playback: the frame being played, how many of its
/// samples are played (`read`), and how many samples were handed out since
/// the last refill point, which comes every `frame_length` samples.
#[derive(Clone, Debug)]
pub struct FramePlayer {
    pub current: Vec<u64>,
    pub read: usize,
    pub frame_length: usize,
    pub frames_read: usize,
}

/// One sample handed to the audio device, and what went wrong getting it.
/// `starved`: the current frame had no sample left, so silence was played.
/// `no_next_frame`: at a refill point no frame was queued.
#[derive(Clone, Copy, Debug, PartialEq, Eq, Structural)]
pub struct PlayedSample {
    pub sample: u64,
    pub starved: bool,
    pub no_next_frame: bool,
}

/// The value of a player.
pub struct PlayerState {
    pub current: Seq<u64>,
    pub read: int,
    pub frame_length: int,
    pub frames_read: int,
}

impl View for FramePlayer {
    type V = PlayerState;

    open spec fn view(&self) -> PlayerState {
        PlayerState {
            current: self.current@,
            read: self.read as int,
            frame_length: self.frame_length as int,
            frames_read: self.frames_read as int,
        }
    }
}

/// The samples of a popped frame.
pub open spec fn frame_view(popped: Option<Vec<u64>>) -> Option<Seq<u64>> {
    match popped {
        Some(f) => Some(f@),
        None => None,
    }
}

impl PlayerState {
    /// The next sample hands out the last one of a frame's worth.
    pub open spec fn at_refill_point(self) -> bool {
        self.frames_read + 1 == self.frame_length
    }

    /// The sample handed out when `popped` is what the queue gave at this
    /// step (nothing is asked of it away from a refill point).
    pub open spec fn next_played(self, popped: Option<Seq<u64>>) -> PlayedSample {
        let starved = self.read >= self.current.len();
        PlayedSample {
            sample: if starved { 0 } else { self.current[self.read] },
            starved,
            no_next_frame: self.at_refill_point() && popped is None,
        }
    }

    /// The state after one sample: the read position moves on unless
    /// starved; at a refill point a popped frame becomes the current one.
    pub open spec fn played_with(self, popped: Option<Seq<u64>>) -> PlayerState {
        let read = if self.read >= self.current.len() { self.read } else { self.read + 1 };
        if !self.at_refill_point() {
            PlayerState { read, frames_read: self.frames_read + 1, ..self }
        } else {
            match popped {
                Some(f) => PlayerState { current: f, read: 0, frames_read: 0, ..self },
                None => PlayerState { read, frames_read: 0, ..self },
            }
        }
    }

    /// The state after `n` samples with no frame arriving.
    pub open spec fn starved_by(self, n: nat) -> PlayerState
        decreases n,
    {
        if n == 0 {
            self
        } else {
            self.starved_by((n - 1) as nat).played_with(None)
        }
    }

    /// The next `n` samples with no frame arriving.
    pub open spec fn starved_plays(self, n: nat) -> Seq<PlayedSample>
        decreases n,
    {
        if n == 0 {
            Seq::empty()
        } else {
            self.starved_plays((n - 1) as nat).push(
                self.starved_by((n - 1) as nat).next_played(None),
            )
        }
    }
}

impl FramePlayer {
    pub open spec fn wf(&self) -> bool {
        &&& 0 < self.frame_length
        &&& self.frames_read < self.frame_length
        &&& self.read <= self.current.len()
    }

    /// A player whose current frame is `frame_length` samples of silence.
    pub fn new(frame_length: usize) -> (r: Self)
        requires
            0 < frame_length,
        ensures
            r.wf(),
            r@.current == Seq::new(frame_length as nat, |i: int| 0u64),
            r.read == 0,
            r.frames_read == 0,
            r.frame_length == frame_length,
    {
        let mut current: Vec<u64> = Vec::new();
        let mut k: usize = 0;
        while k < frame_length
            invariant
                k <= frame_length,
                current@ == Seq::new(k as nat, |i: int| 0u64),
            decreases frame_length - k,
        {
            current.push(0);
            k = k + 1;
            assert(current@ =~= Seq::new(k as nat, |i: int| 0u64));
        }
        FramePlayer { current, read: 0, frame_length, frames_read: 0 }
    }

    /// Whether the next sample is the last of a frame's worth, after which
    /// the next queued frame is due.
    pub fn at_refill_point(&self) -> (r: bool)
        ensures
            r == (self.frames_read + 1 == self.frame_length),
    {
        self.frame_length > 0 && self.frames_read == self.frame_length - 1
    }

    /// Hands out one sample of the current frame, or silence when it is used
    /// up. At a refill point `popped` is what the queue gave: a frame becomes
    /// the current one; none leaves the old one and is reported.
    pub fn play(&mut self, popped: Option<Vec<u64>>) -> (r: PlayedSample)
        requires
            old(self).wf(),
            popped is Some ==> old(self)@.at_refill_point(),
        ensures
            final(self).wf(),
            r == old(self)@.next_played(frame_view(popped)),
            final(self)@ == old(self)@.played_with(frame_view(popped)),
    {
        let starved = self.read >= self.current.len();
        let sample = if starved {
            0
        } else {
            let s = self.current[self.read];
            self.read = self.read + 1;
            s
        };
        let mut no_next_frame = false;
        if self.frames_read + 1 < self.frame_length {
            self.frames_read = self.frames_read + 1;
        } else {
            self.frames_read = 0;
            match popped {
                Some(next) => {
                    self.current = next;
                    self.read = 0;
                },
                None => {
                    no_next_frame = true;
                },
            }
        }
        PlayedSample { sample, starved, no_next_frame }
    }

    /// One sample for the audio device: pops the queue only at a refill
    /// point, then plays. Whatever the queue gave, the result is what `play`
    /// says of it; away from a refill point the queue is not touched.
    pub fn play_from(&mut self, consumer: &mut FrameConsumer) -> (r: PlayedSample)
        requires
            old(self).wf(),
        ensures
            final(self).wf(),
            !old(self)@.at_refill_point() ==> r == old(self)@.next_played(None) && final(self)@
                == old(self)@.played_with(None),
            exists|p: Option<Seq<u64>>|
                r == old(self)@.next_played(p) && final(self)@ == old(self)@.played_with(p),
    {
        let popped = if self.at_refill_point() {
            consumer.pop()
        } else {
            None
        };
        self.play(popped)
    }
}

/// With the current frame used up and no frame arriving, any number of
/// samples is silence, each reported as starved, and the frame and read
/// position stay as they were.
pub proof fn lemma_underrun_plays_silence(s: PlayerState, n: nat)
    requires
        s.read >= s.current.len(),
    ensures
        s.starved_plays(n).len() == n,
        forall|k: int| 0 <= k < n ==> (#[trigger] s.starved_plays(n)[k]).sample == 0,
        forall|k: int| 0 <= k < n ==> (#[trigger] s.starved_plays(n)[k]).starved,
        s.starved_by(n).current == s.current,
        s.starved_by(n).read == s.read,
    decreases n,
{
    if n > 0 {
        let m = (n - 1) as nat;
        lemma_underrun_plays_silence(s, m);
        assert(s.starved_plays(n) == s.starved_plays(m).push(s.starved_by(m).next_played(None)));
    }
}

/// Playback continues with the next delivered frame: a frame popped at a
/// refill point is played from its first sample on.
pub proof fn lemma_delivered_frame_resumes(s: PlayerState, f: Seq<u64>)
    requires
        s.at_refill_point(),
        f.len() > 0,
    ensures
        s.played_with(Some(f)).current == f,
        s.played_with(Some(f)).read == 0,
        s.played_with(Some(f)).next_played(None).sample == f[0],
        !s.played_with(Some(f)).next_played(None).starved,
{
}

} // verus!
