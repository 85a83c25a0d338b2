//! Audio bookkeeping: sample normalisation, slot allocation and playback cursors.

use vstd::prelude::*;

verus! {

/// Number of sound buffer slots of the audio backend.
pub const BUFFERS_CAPACITY: usize = 72;

/// Number of playback slots of the audio backend.
pub const PLAYBACK_CAPACITY: usize = 64;

/// Errors of the audio subsystem; `E` is the error type of the sample decoder.
#[derive(Debug)]
pub enum AudioError<E> {
    AudioBackendUnavailable,
    OutOfSoundBufferCapacity,
    OutOfPlaybackCapacity,
    UnexpectedBitdepth { found: u16 },
    UnexpectedChannelCount { found: u16 },
    UnexpectedWAVEOF,
    WavParsingError(E),
}

/// `x * 127`, clamped to the range of `i16`.
pub open spec fn saturating_mul_127(x: i16) -> i16 {
    if x * 127 > i16::MAX {
        i16::MAX
    } else if x * 127 < i16::MIN {
        i16::MIN
    } else {
        (x * 127) as i16
    }
}

/// A sample of the given bit depth brought to the 16-bit range: 8-bit
/// samples are scaled up by `i8::MAX` (saturating), 16-bit samples are kept.
pub open spec fn scale_sample(bits_per_sample: u16, x: i16) -> i16 {
    if bits_per_sample == 8 {
        saturating_mul_127(x)
    } else {
        x
    }
}

/// The stereo frames of a decoded stream, or the error that stops it.
///
/// `samples` are the samples read before the stream ended, and `failure` is
/// the decoding error it ended with, if it did not end normally. Mono
/// samples are doubled into both channels; stereo samples are taken in
/// (left, right) pairs, and a stream that ends normally between the two
/// samples of a pair is refused with `UnexpectedWAVEOF`.
pub open spec fn normalize_spec<E>(
    bits_per_sample: u16,
    channels: u16,
    samples: Seq<i16>,
    failure: Option<E>,
) -> Result<Seq<(i16, i16)>, AudioError<E>> {
    if bits_per_sample != 8 && bits_per_sample != 16 {
        Err(AudioError::UnexpectedBitdepth { found: bits_per_sample })
    } else if channels != 1 && channels != 2 {
        Err(AudioError::UnexpectedChannelCount { found: channels })
    } else if failure is Some {
        Err(AudioError::WavParsingError(failure->0))
    } else if channels == 1 {
        Ok(
            Seq::new(
                samples.len(),
                |i: int|
                    (
                        scale_sample(bits_per_sample, samples[i]),
                        scale_sample(bits_per_sample, samples[i]),
                    ),
            ),
        )
    } else if samples.len() % 2 == 1 {
        Err(AudioError::UnexpectedWAVEOF)
    } else {
        Ok(
            Seq::new(
                samples.len() / 2,
                |i: int|
                    (
                        scale_sample(bits_per_sample, samples[2 * i]),
                        scale_sample(bits_per_sample, samples[2 * i + 1]),
                    ),
            ),
        )
    }
}

/// Scales one sample to the 16-bit range.
fn scale(bits_per_sample: u16, x: i16) -> (r: i16)
    ensures
        r == scale_sample(bits_per_sample, x),
{
    if bits_per_sample == 8 {
        let wide: i32 = (x as i32) * 127;
        if wide > i16::MAX as i32 {
            i16::MAX
        } else if wide < i16::MIN as i32 {
            i16::MIN
        } else {
            wide as i16
        }
    } else {
        x
    }
}

/// Checks the sample format of a stream before any sample is read: only 8-
/// and 16-bit samples in one or two channels are taken. The bit depth is
/// checked first.
pub fn check_wav_format<E>(bits_per_sample: u16, channels: u16) -> (r: Result<(), AudioError<E>>)
    ensures
        match r {
            Ok(()) => (bits_per_sample == 8 || bits_per_sample == 16) && (channels == 1 || channels
                == 2),
            Err(AudioError::UnexpectedBitdepth { found }) => bits_per_sample != 8
                && bits_per_sample != 16 && found == bits_per_sample,
            Err(AudioError::UnexpectedChannelCount { found }) => (bits_per_sample == 8
                || bits_per_sample == 16) && channels != 1 && channels != 2 && found == channels,
            Err(_) => false,
        },
{
    if bits_per_sample != 8 && bits_per_sample != 16 {
        return Err(AudioError::UnexpectedBitdepth { found: bits_per_sample });
    }
    if channels != 1 && channels != 2 {
        return Err(AudioError::UnexpectedChannelCount { found: channels });
    }
    Ok(())
}

/// Converts decoded audio samples into stereo 16-bit frames.
///
/// `samples` are the samples the decoder produced before it stopped, and
/// `failure` the error it stopped with, if any.
pub fn normalize_audio<E>(
    bits_per_sample: u16,
    channels: u16,
    samples: Vec<i16>,
    failure: Option<E>,
) -> (r: Result<Vec<(i16, i16)>, AudioError<E>>)
    ensures
        match (r, normalize_spec(bits_per_sample, channels, samples@, failure)) {
            (Ok(frames), Ok(expected)) => frames@ == expected,
            (Err(AudioError::UnexpectedBitdepth { found: a }), Err(AudioError::UnexpectedBitdepth { found: b })) => a == b,
            (Err(AudioError::UnexpectedChannelCount { found: a }), Err(AudioError::UnexpectedChannelCount { found: b })) => a == b,
            (Err(AudioError::UnexpectedWAVEOF), Err(AudioError::UnexpectedWAVEOF)) => true,
            (Err(AudioError::WavParsingError(a)), Err(AudioError::WavParsingError(b))) => a == b,
            _ => false,
        },
{
    if bits_per_sample != 8 && bits_per_sample != 16 {
        return Err(AudioError::UnexpectedBitdepth { found: bits_per_sample });
    }
    if channels != 1 && channels != 2 {
        return Err(AudioError::UnexpectedChannelCount { found: channels });
    }
    if let Some(e) = failure {
        return Err(AudioError::WavParsingError(e));
    }
    let ghost expected = normalize_spec(bits_per_sample, channels, samples@, None::<E>);
    let mut frames: Vec<(i16, i16)> = Vec::new();
    if channels == 1 {
        let mut i: usize = 0;
        while i < samples.len()
            invariant
                i <= samples@.len(),
                channels == 1,
                bits_per_sample == 8 || bits_per_sample == 16,
                expected == normalize_spec(bits_per_sample, channels, samples@, None::<E>),
                expected matches Ok(e) && frames@ =~= e.take(i as int),
            decreases samples@.len() - i,
        {
            let x = scale(bits_per_sample, samples[i]);
            frames.push((x, x));
            i = i + 1;
        }
        proof {
            assert(expected matches Ok(e) && frames@ =~= e);
        }
        Ok(frames)
    } else {
        if samples.len() % 2 == 1 {
            return Err(AudioError::UnexpectedWAVEOF);
        }
        let mut i: usize = 0;
        while i < samples.len() / 2
            invariant
                i <= samples@.len() / 2,
                samples@.len() % 2 == 0,
                channels == 2,
                bits_per_sample == 8 || bits_per_sample == 16,
                expected == normalize_spec(bits_per_sample, channels, samples@, None::<E>),
                expected matches Ok(e) && frames@ =~= e.take(i as int),
            decreases samples@.len() / 2 - i,
        {
            let l = scale(bits_per_sample, samples[2 * i]);
            let r = scale(bits_per_sample, samples[2 * i + 1]);
            frames.push((l, r));
            i = i + 1;
        }
        proof {
            assert(expected matches Ok(e) && frames@ =~= e);
        }
        Ok(frames)
    }
}


/// A pool of slot ids: ids given back are reused last-in first-out, and new
/// ids are counted up while they stay below `capacity - 1`.
pub struct SlotPool {
    pub next: usize,
    pub freelist: Seq<usize>,
}

/// The pool after an allocation and the id it hands out, if any.
pub open spec fn pool_alloc(p: SlotPool, capacity: usize) -> (SlotPool, Option<usize>) {
    if p.freelist.len() > 0 {
        (SlotPool { next: p.next, freelist: p.freelist.drop_last() }, Some(p.freelist.last()))
    } else if p.next + 1 < capacity {
        (SlotPool { next: (p.next + 1) as usize, freelist: p.freelist }, Some(p.next))
    } else {
        (p, None)
    }
}

/// The pool after `id` is given back.
pub open spec fn pool_release(p: SlotPool, id: usize) -> SlotPool {
    SlotPool { next: p.next, freelist: p.freelist.push(id) }
}

/// Bookkeeping of the sound buffer and playback slots in use.
pub struct AudioContextState {
    next_buffer_id: usize,
    buffer_id_freelist: Vec<usize>,
    next_playback_id: usize,
    playback_id_freelist: Vec<usize>,
}

/// The two slot pools of the audio context.
pub struct AudioSlots {
    pub buffers: SlotPool,
    pub playbacks: SlotPool,
}

impl View for AudioContextState {
    type V = AudioSlots;

    closed spec fn view(&self) -> AudioSlots {
        AudioSlots {
            buffers: SlotPool { next: self.next_buffer_id, freelist: self.buffer_id_freelist@ },
            playbacks: SlotPool {
                next: self.next_playback_id,
                freelist: self.playback_id_freelist@,
            },
        }
    }
}

/// Takes a slot id from a pool: the last one given back, or else the next
/// fresh id while it stays below `capacity - 1`.
fn take_slot(next: &mut usize, freelist: &mut Vec<usize>, capacity: usize) -> (r: Option<usize>)
    ensures
        (SlotPool { next: *final(next), freelist: final(freelist)@ }, r) == pool_alloc(
            SlotPool { next: *old(next), freelist: old(freelist)@ },
            capacity,
        ),
{
    match freelist.pop() {
        Some(x) => Some(x),
        None => {
            if capacity > 0 && *next < capacity - 1 {
                let res = *next;
                *next = *next + 1;
                Some(res)
            } else {
                None
            }
        },
    }
}

impl AudioContextState {
    /// No slot is in use.
    pub fn new() -> (r: AudioContextState)
        ensures
            r@.buffers == (SlotPool { next: 0, freelist: Seq::empty() }),
            r@.playbacks == (SlotPool { next: 0, freelist: Seq::empty() }),
    {
        AudioContextState {
            next_buffer_id: 0,
            buffer_id_freelist: Vec::new(),
            next_playback_id: 0,
            playback_id_freelist: Vec::new(),
        }
    }

    /// Takes a sound buffer slot.
    pub fn alloc_buffer_id<E>(&mut self) -> (r: Result<usize, AudioError<E>>)
        ensures
            final(self)@.playbacks == old(self)@.playbacks,
            final(self)@.buffers == pool_alloc(old(self)@.buffers, BUFFERS_CAPACITY).0,
            match pool_alloc(old(self)@.buffers, BUFFERS_CAPACITY).1 {
                Some(id) => r matches Ok(x) && x == id,
                None => r matches Err(AudioError::OutOfSoundBufferCapacity),
            },
    {
        match take_slot(&mut self.next_buffer_id, &mut self.buffer_id_freelist, BUFFERS_CAPACITY) {
            Some(id) => Ok(id),
            None => Err(AudioError::OutOfSoundBufferCapacity),
        }
    }

    /// Takes a playback slot. Running out of playback slots is reported as
    /// running out of sound buffer slots.
    pub fn alloc_playback_id<E>(&mut self) -> (r: Result<usize, AudioError<E>>)
        ensures
            final(self)@.buffers == old(self)@.buffers,
            final(self)@.playbacks == pool_alloc(old(self)@.playbacks, PLAYBACK_CAPACITY).0,
            match pool_alloc(old(self)@.playbacks, PLAYBACK_CAPACITY).1 {
                Some(id) => r matches Ok(x) && x == id,
                None => r matches Err(AudioError::OutOfSoundBufferCapacity),
            },
    {
        match take_slot(
            &mut self.next_playback_id,
            &mut self.playback_id_freelist,
            PLAYBACK_CAPACITY,
        ) {
            Some(id) => Ok(id),
            None => Err(AudioError::OutOfSoundBufferCapacity),
        }
    }

    /// Gives a sound buffer slot back.
    pub fn release_buffer_id(&mut self, id: usize)
        ensures
            final(self)@.playbacks == old(self)@.playbacks,
            final(self)@.buffers == pool_release(old(self)@.buffers, id),
    {
        self.buffer_id_freelist.push(id);
    }

    /// Gives a playback slot back.
    pub fn release_playback_id(&mut self, id: usize)
        ensures
            final(self)@.buffers == old(self)@.buffers,
            final(self)@.playbacks == pool_release(old(self)@.playbacks, id),
    {
        self.playback_id_freelist.push(id);
    }
}

/// A pool whose given-back ids were all handed out before, each at most once.
pub open spec fn pool_wf(p: SlotPool, capacity: usize) -> bool {
    &&& p.next <= capacity
    &&& p.next < capacity || capacity == 0
    &&& forall|i: int| 0 <= i < p.freelist.len() ==> #[trigger] p.freelist[i] < p.next
    &&& forall|i: int, j: int|
        0 <= i < j < p.freelist.len() ==> #[trigger] p.freelist[i] != #[trigger] p.freelist[j]
}

/// Giving an id back and taking one hands out that same id and restores the pool.
pub proof fn lemma_release_then_alloc(p: SlotPool, id: usize, capacity: usize)
    ensures
        pool_alloc(pool_release(p, id), capacity) == (p, Some(id)),
{
    assert(p.freelist.push(id).drop_last() =~= p.freelist);
}

/// Every id a well-formed pool hands out is below `capacity - 1`, is not
/// left among the given-back ids, and the pool stays well formed; an
/// allocation fails only when nothing was given back and `capacity - 1` ids
/// have been counted out.
pub proof fn lemma_alloc_in_range(p: SlotPool, capacity: usize)
    requires
        capacity > 0,
        pool_wf(p, capacity),
    ensures
        pool_wf(pool_alloc(p, capacity).0, capacity),
        pool_alloc(p, capacity).1 matches Some(id) ==> id + 1 < capacity && !pool_alloc(
            p,
            capacity,
        ).0.freelist.contains(id),
        pool_alloc(p, capacity).1 is None <==> p.freelist.len() == 0 && p.next + 1 == capacity,
{
    let (q, r) = pool_alloc(p, capacity);
    if p.freelist.len() > 0 {
        let id = p.freelist.last();
        assert(q.freelist =~= p.freelist.drop_last());
        if q.freelist.contains(id) {
            let k = choose|k: int| 0 <= k < q.freelist.len() && q.freelist[k] == id;
            assert(p.freelist[k] == p.freelist[p.freelist.len() - 1]);
        }
        assert forall|i: int, j: int| 0 <= i < j < q.freelist.len() implies #[trigger] q.freelist[i]
            != #[trigger] q.freelist[j] by {
            assert(q.freelist[i] == p.freelist[i]);
            assert(q.freelist[j] == p.freelist[j]);
        }
        assert forall|i: int| 0 <= i < q.freelist.len() implies #[trigger] q.freelist[i] < q.next by {
            assert(q.freelist[i] == p.freelist[i]);
        }
    }
}

/// Giving back an id that was handed out and is not given back already keeps
/// the pool well formed.
pub proof fn lemma_release_keeps_wf(p: SlotPool, id: usize, capacity: usize)
    requires
        pool_wf(p, capacity),
        id < p.next,
        !p.freelist.contains(id),
    ensures
        pool_wf(pool_release(p, id), capacity),
{
    let q = pool_release(p, id);
    assert forall|i: int, j: int| 0 <= i < j < q.freelist.len() implies #[trigger] q.freelist[i]
        != #[trigger] q.freelist[j] by {
        if j == p.freelist.len() {
            assert(q.freelist[i] == p.freelist[i]);
        } else {
            assert(q.freelist[i] == p.freelist[i]);
            assert(q.freelist[j] == p.freelist[j]);
        }
    }
    assert forall|i: int| 0 <= i < q.freelist.len() implies #[trigger] q.freelist[i] < q.next by {
        if i < p.freelist.len() {
            assert(q.freelist[i] == p.freelist[i]);
        }
    }
}

/// The ids of a pool that are handed out and not given back: the ids its
/// live sounds or playbacks hold.
pub open spec fn live_ids(p: SlotPool) -> Set<usize> {
    Set::new(|i: usize| i < p.next && !p.freelist.contains(i))
}

/// A request made to a slot pool: take an id, or give one back.
pub enum PoolEvent {
    Take,
    GiveBack(usize),
}

/// The pool after one request.
pub open spec fn pool_step(p: SlotPool, capacity: usize, e: PoolEvent) -> SlotPool {
    match e {
        PoolEvent::Take => pool_alloc(p, capacity).0,
        PoolEvent::GiveBack(id) => pool_release(p, id),
    }
}

/// The pool after the requests `events`, in order.
pub open spec fn pool_run(p: SlotPool, capacity: usize, events: Seq<PoolEvent>) -> SlotPool
    decreases events.len(),
{
    if events.len() == 0 {
        p
    } else {
        pool_run(pool_step(p, capacity, events[0]), capacity, events.drop_first())
    }
}

/// Every id of `events` that is given back is live at that point.
pub open spec fn gives_back_live(p: SlotPool, capacity: usize, events: Seq<PoolEvent>) -> bool
    decreases events.len(),
{
    events.len() == 0 || {
        &&& (events[0] matches PoolEvent::GiveBack(id) ==> live_ids(p).contains(id))
        &&& gives_back_live(pool_step(p, capacity, events[0]), capacity, events.drop_first())
    }
}

/// Taking an id from `p` hands out an id that no live holder has, below
/// `capacity - 1`, which is live from then on; the id given back last is
/// taken first, and a fresh id only when none is given back. A take fails
/// only when nothing is given back and `capacity - 1` ids are live.
pub open spec fn take_is_free(p: SlotPool, capacity: usize) -> bool {
    match pool_alloc(p, capacity).1 {
        Some(id) => {
            &&& !live_ids(p).contains(id)
            &&& id + 1 < capacity
            &&& live_ids(pool_alloc(p, capacity).0) == live_ids(p).insert(id)
            &&& (p.freelist.len() > 0 ==> id == p.freelist.last())
            &&& (p.freelist.len() == 0 ==> id == p.next)
        },
        None => p.freelist.len() == 0 && p.next + 1 == capacity,
    }
}

/// Every take of `events` hands out a free id, and every give-back makes
/// its id free again.
pub open spec fn requests_respect_live(p: SlotPool, capacity: usize, events: Seq<PoolEvent>) -> bool
    decreases events.len(),
{
    events.len() == 0 || {
        &&& (events[0] is Take ==> take_is_free(p, capacity))
        &&& (events[0] matches PoolEvent::GiveBack(id) ==> live_ids(
            pool_release(p, id),
        ) == live_ids(p).remove(id))
        &&& requests_respect_live(pool_step(p, capacity, events[0]), capacity, events.drop_first())
    }
}

/// One take from a well-formed pool hands out a free id and keeps the pool
/// well formed.
proof fn lemma_take_is_free(p: SlotPool, capacity: usize)
    requires
        capacity > 0,
        pool_wf(p, capacity),
    ensures
        take_is_free(p, capacity),
        pool_wf(pool_alloc(p, capacity).0, capacity),
{
    lemma_alloc_in_range(p, capacity);
    let (q, r) = pool_alloc(p, capacity);
    if p.freelist.len() > 0 {
        let id = p.freelist.last();
        assert(p.freelist.contains(id));
        assert(p.freelist =~= q.freelist.push(id));
        assert(live_ids(q) =~= live_ids(p).insert(id)) by {
            assert forall|i: usize| #[trigger] live_ids(q).contains(i) <==> live_ids(p).insert(
                id,
            ).contains(i) by {
                if i != id {
                    if q.freelist.contains(i) {
                        let k = choose|k: int| 0 <= k < q.freelist.len() && q.freelist[k] == i;
                        assert(p.freelist[k] == i);
                    }
                    if p.freelist.contains(i) {
                        let k = choose|k: int| 0 <= k < p.freelist.len() && p.freelist[k] == i;
                        assert(k != p.freelist.len() - 1);
                        assert(q.freelist[k] == i);
                    }
                }
            }
        }
    } else if r is Some {
        assert(!p.freelist.contains(p.next));
        assert(live_ids(q) =~= live_ids(p).insert(p.next));
    }
}

/// Giving back a live id of a well-formed pool makes it free and keeps the
/// pool well formed.
proof fn lemma_give_back_live(p: SlotPool, id: usize, capacity: usize)
    requires
        pool_wf(p, capacity),
        live_ids(p).contains(id),
    ensures
        pool_wf(pool_release(p, id), capacity),
        live_ids(pool_release(p, id)) == live_ids(p).remove(id),
{
    lemma_release_keeps_wf(p, id, capacity);
    let q = pool_release(p, id);
    assert forall|i: usize| #[trigger] live_ids(q).contains(i) <==> live_ids(p).remove(id).contains(
        i,
    ) by {
        if q.freelist.contains(i) && i != id {
            let k = choose|k: int| 0 <= k < q.freelist.len() && q.freelist[k] == i;
            assert(k < p.freelist.len());
            assert(p.freelist[k] == i);
        }
        if p.freelist.contains(i) {
            let k = choose|k: int| 0 <= k < p.freelist.len() && p.freelist[k] == i;
            assert(q.freelist[k] == i);
        }
        if i == id {
            assert(q.freelist[p.freelist.len() as int] == id);
        }
    }
    assert(live_ids(q) =~= live_ids(p).remove(id));
}

/// Slot reuse under any interleaving of takes and give-backs: starting from
/// a well-formed pool and giving back only live ids, every take hands out an
/// id below `capacity - 1` that no live holder has (so the ids of all live
/// holders stay pairwise distinct), the id given back most recently is taken
/// again before any fresh id, and the pool stays well formed with every live
/// id below `capacity - 1`.
pub proof fn lemma_slot_reuse(p: SlotPool, capacity: usize, events: Seq<PoolEvent>)
    requires
        capacity > 0,
        pool_wf(p, capacity),
        gives_back_live(p, capacity, events),
    ensures
        requests_respect_live(p, capacity, events),
        pool_wf(pool_run(p, capacity, events), capacity),
        forall|i: usize| #[trigger] live_ids(pool_run(p, capacity, events)).contains(i) ==> i + 1
            < capacity,
    decreases events.len(),
{
    if events.len() == 0 {
        assert forall|i: usize| #[trigger] live_ids(p).contains(i) implies i + 1 < capacity by {}
    } else {
        match events[0] {
            PoolEvent::Take => lemma_take_is_free(p, capacity),
            PoolEvent::GiveBack(id) => lemma_give_back_live(p, id, capacity),
        }
        lemma_slot_reuse(pool_step(p, capacity, events[0]), capacity, events.drop_first());
    }
}

/// The sound buffer slots of a new audio context, under any interleaving of
/// buffer creations and drops: the slot reuse law from the empty pool with
/// the buffer capacity.
pub proof fn lemma_buffer_slot_reuse(events: Seq<PoolEvent>)
    requires
        gives_back_live(SlotPool { next: 0, freelist: Seq::empty() }, BUFFERS_CAPACITY, events),
    ensures
        requests_respect_live(
            SlotPool { next: 0, freelist: Seq::empty() },
            BUFFERS_CAPACITY,
            events,
        ),
        forall|i: usize| #[trigger]
            live_ids(
                pool_run(SlotPool { next: 0, freelist: Seq::empty() }, BUFFERS_CAPACITY, events),
            ).contains(i) ==> i + 1 < BUFFERS_CAPACITY,
{
    lemma_slot_reuse(SlotPool { next: 0, freelist: Seq::empty() }, BUFFERS_CAPACITY, events);
}

/// The position of a playback in its sound buffer.
#[derive(Clone, Copy, Debug, PartialEq, Eq, Structural)]
pub struct PlaybackCursor {
    pub src: usize,
    pub looping: bool,
    pub pause: bool,
    pub current_sample: usize,
}

/// The sample after `i`, wrapping around at the end of the `usize` range.
pub open spec fn next_sample(i: usize) -> usize {
    if i == usize::MAX {
        0
    } else {
        (i + 1) as usize
    }
}

/// The cursor after one sample period over a buffer of `len` samples.
pub open spec fn advance_spec(c: PlaybackCursor, len: usize) -> PlaybackCursor {
    if c.pause {
        c
    } else if next_sample(c.current_sample) < len {
        PlaybackCursor { current_sample: next_sample(c.current_sample), ..c }
    } else if c.looping {
        PlaybackCursor { current_sample: 0, ..c }
    } else {
        PlaybackCursor { pause: true, ..c }
    }
}

impl PlaybackCursor {
    /// An idle (paused) playback of buffer 0.
    pub fn idle() -> (r: PlaybackCursor)
        ensures
            r == (PlaybackCursor { src: 0, looping: false, pause: true, current_sample: 0 }),
    {
        PlaybackCursor { src: 0, looping: false, pause: true, current_sample: 0 }
    }

    /// A playback of buffer `src` from its first sample.
    pub fn start(src: usize, looping: bool) -> (r: PlaybackCursor)
        ensures
            r == (PlaybackCursor { src, looping, pause: false, current_sample: 0 }),
    {
        PlaybackCursor { src, looping, pause: false, current_sample: 0 }
    }

    /// Pauses or resumes the playback.
    pub fn set_pause(&mut self, pause: bool)
        ensures
            *final(self) == (PlaybackCursor { pause, ..*old(self) }),
    {
        self.pause = pause;
    }

    /// Plays again from the first sample.
    pub fn restart(&mut self)
        ensures
            *final(self) == (PlaybackCursor { current_sample: 0, pause: false, ..*old(self) }),
    {
        self.current_sample = 0;
        self.pause = false;
    }

    /// The sample the playback contributes now from a buffer of `len`
    /// samples: none while paused or past the end.
    pub fn sample_index(&self, len: usize) -> (r: Option<usize>)
        ensures
            r == (if self.pause || self.current_sample >= len {
                None
            } else {
                Some(self.current_sample)
            }),
    {
        if self.pause || self.current_sample >= len {
            None
        } else {
            Some(self.current_sample)
        }
    }

    /// Moves one sample on in a buffer of `len` samples: a looping playback
    /// wraps to the start at the end, any other playback pauses there.
    pub fn advance(&mut self, len: usize)
        ensures
            *final(self) == advance_spec(*old(self), len),
    {
        if self.pause {
            return;
        }
        let next_sample = self.current_sample.wrapping_add(1);
        if next_sample < len {
            self.current_sample = next_sample;
        } else if self.looping {
            self.current_sample = 0;
        } else {
            self.pause = true;
        }
    }
}

/// A command to the playbacks of the audio backend, naming a playback slot.
#[derive(Clone, Copy, Debug, PartialEq, Eq, Structural)]
pub enum PlaybackCommand {
    /// Starts playing buffer `src` from its first sample.
    Start { playback_id: usize, src: usize, looping: bool },
    /// Pauses or resumes the playback.
    SetPause { playback_id: usize, pause: bool },
    /// Plays again from the first sample.
    Restart { playback_id: usize },
}

/// The playback slot a command names.
pub open spec fn command_slot(cmd: PlaybackCommand) -> usize {
    match cmd {
        PlaybackCommand::Start { playback_id, .. } => playback_id,
        PlaybackCommand::SetPause { playback_id, .. } => playback_id,
        PlaybackCommand::Restart { playback_id } => playback_id,
    }
}

/// The cursor of the named slot after the command.
pub open spec fn command_effect(c: PlaybackCursor, cmd: PlaybackCommand) -> PlaybackCursor {
    match cmd {
        PlaybackCommand::Start { src, looping, .. } => PlaybackCursor {
            src,
            looping,
            pause: false,
            current_sample: 0,
        },
        PlaybackCommand::SetPause { pause, .. } => PlaybackCursor { pause, ..c },
        PlaybackCommand::Restart { .. } => PlaybackCursor { current_sample: 0, pause: false, ..c },
    }
}

/// Applies a command to the cursors of the playback slots. A command that
/// names a slot out of range is skipped; the result tells whether the
/// command was applied.
pub fn apply_playback_command(cursors: &mut Vec<PlaybackCursor>, cmd: PlaybackCommand) -> (applied: bool)
    ensures
        applied == (command_slot(cmd) < old(cursors)@.len()),
        final(cursors)@ == (if applied {
            old(cursors)@.update(
                command_slot(cmd) as int,
                command_effect(old(cursors)@[command_slot(cmd) as int], cmd),
            )
        } else {
            old(cursors)@
        }),
{
    let id = match cmd {
        PlaybackCommand::Start { playback_id, .. } => playback_id,
        PlaybackCommand::SetPause { playback_id, .. } => playback_id,
        PlaybackCommand::Restart { playback_id } => playback_id,
    };
    if id >= cursors.len() {
        return false;
    }
    let mut c = cursors[id];
    match cmd {
        PlaybackCommand::Start { src, looping, .. } => {
            c = PlaybackCursor::start(src, looping);
        },
        PlaybackCommand::SetPause { pause, .. } => {
            c.set_pause(pause);
        },
        PlaybackCommand::Restart { .. } => {
            c.restart();
        },
    }
    cursors.set(id, c);
    true
}

/// Moves every playback one sample on in its buffer; `buffer_lens[b]` is the
/// number of samples of buffer `b`, and a playback of a buffer out of range
/// stays where it is.
pub fn advance_playbacks(cursors: &mut Vec<PlaybackCursor>, buffer_lens: &[usize])
    ensures
        final(cursors)@.len() == old(cursors)@.len(),
        forall|i: int| 0 <= i < old(cursors)@.len() ==> #[trigger] final(cursors)@[i] == (
        if old(cursors)@[i].src < buffer_lens@.len() {
            advance_spec(old(cursors)@[i], buffer_lens@[old(cursors)@[i].src as int])
        } else {
            old(cursors)@[i]
        }),
{
    let ghost start = cursors@;
    let mut i: usize = 0;
    while i < cursors.len()
        invariant
            i <= cursors@.len(),
            cursors@.len() == start.len(),
            forall|j: int| i <= j < start.len() ==> #[trigger] cursors@[j] == start[j],
            forall|j: int| 0 <= j < i ==> #[trigger] cursors@[j] == (if start[j].src
                < buffer_lens@.len() {
                advance_spec(start[j], buffer_lens@[start[j].src as int])
            } else {
                start[j]
            }),
        decreases start.len() - i,
    {
        let mut c = cursors[i];
        if c.src < buffer_lens.len() {
            c.advance(buffer_lens[c.src]);
        }
        cursors.set(i, c);
        i = i + 1;
    }
}

/// A playing cursor over a buffer stays inside it: after a step its sample
/// is in range unless it paused, and a looping cursor over a non-empty
/// buffer never pauses on its own.
pub proof fn lemma_advance_stays_in_buffer(c: PlaybackCursor, len: usize)
    requires
        !c.pause,
    ensures
        c.looping ==> !advance_spec(c, len).pause,
        len > 0 && !advance_spec(c, len).pause ==> advance_spec(c, len).current_sample < len,
{
}


/// The 16-bit level of a decoded sample: an 8-bit sample times 127, held to
/// the range of `i16`; a 16-bit sample as it is.
pub open spec fn sample_level(bits_per_sample: u16, x: i16) -> int {
    if bits_per_sample == 8 {
        if 127 * x > 32767 {
            32767
        } else if 127 * x < -32768 {
            -32768
        } else {
            127 * x
        }
    } else {
        x as int
    }
}

/// `frames` are the frames of the mono stream `samples`: one per sample,
/// with the sample's level in both channels.
pub open spec fn mono_levels(bits_per_sample: u16, samples: Seq<i16>, frames: Seq<(i16, i16)>) -> bool {
    &&& frames.len() == samples.len()
    &&& forall|i: int|
        0 <= i < samples.len() ==> (#[trigger] frames[i]).0 == sample_level(
            bits_per_sample,
            samples[i],
        ) && frames[i].1 == sample_level(bits_per_sample, samples[i])
}

/// `frames` are the frames of the stereo stream `samples`: one per pair of
/// samples, with the levels of its left and right sample.
pub open spec fn stereo_levels(bits_per_sample: u16, samples: Seq<i16>, frames: Seq<(i16, i16)>) -> bool {
    &&& frames.len() * 2 == samples.len()
    &&& forall|i: int|
        0 <= i < frames.len() ==> (#[trigger] frames[i]).0 == sample_level(
            bits_per_sample,
            samples[2 * i],
        ) && frames[i].1 == sample_level(bits_per_sample, samples[2 * i + 1])
}

/// The stereo frames are the levels of the mono frames taken two by two.
pub open spec fn pairs_of(stereo: Seq<(i16, i16)>, mono: Seq<(i16, i16)>) -> bool {
    &&& stereo.len() * 2 == mono.len()
    &&& forall|i: int|
        0 <= i < stereo.len() ==> #[trigger] stereo[i] == (mono[2 * i].0, mono[2 * i + 1].0)
}

/// What normalisation does to a stream that ends normally, for every
/// stream of 8- or 16-bit samples: a mono stream gives one frame per sample,
/// its level in both channels; a stereo stream of an even number of samples
/// gives one frame per pair, the levels of its left and right samples; a
/// stereo stream that stops inside a pair is refused. The level of a sample
/// depends on the bit depth alone, not on the channel count: the stereo
/// frames are the mono frames' levels taken two by two.
pub proof fn lemma_normalized_levels<E>(bits_per_sample: u16, samples: Seq<i16>)
    requires
        bits_per_sample == 8 || bits_per_sample == 16,
    ensures
        normalize_spec(bits_per_sample, 1, samples, None::<E>) matches Ok(mono) && mono_levels(
            bits_per_sample,
            samples,
            mono,
        ),
        samples.len() % 2 == 0 ==> (normalize_spec(bits_per_sample, 2, samples, None::<E>) matches Ok(
            stereo,
        ) && stereo_levels(bits_per_sample, samples, stereo)),
        samples.len() % 2 == 0 ==> (normalize_spec(bits_per_sample, 2, samples, None::<E>) matches Ok(
            stereo,
        ) && normalize_spec(bits_per_sample, 1, samples, None::<E>) matches Ok(mono) && pairs_of(
            stereo,
            mono,
        )),
        samples.len() % 2 == 1 ==> (normalize_spec(bits_per_sample, 2, samples, None::<E>) matches Err(
            AudioError::UnexpectedWAVEOF,
        )),
{
}

/// What the playback commands do to the cursor of the slot they name, for
/// every cursor: a start plays its buffer from the first sample, unpaused,
/// looping as asked; a pause command sets the pause flag to the value asked
/// for (so a paused playback is resumed by asking for `false`) and keeps the
/// buffer, the looping and the position; a restart goes back to the first
/// sample, unpaused, keeping buffer and looping. Pausing and resuming a
/// playing cursor gives it back unchanged.
pub proof fn lemma_playback_command_effects(c: PlaybackCursor, playback_id: usize, src: usize, looping: bool, pause: bool)
    ensures
        ({
            let d = command_effect(c, PlaybackCommand::SetPause { playback_id, pause });
            d.pause == pause && d.src == c.src && d.looping == c.looping && d.current_sample
                == c.current_sample
        }),
        ({
            let d = command_effect(c, PlaybackCommand::Start { playback_id, src, looping });
            d.src == src && d.looping == looping && !d.pause && d.current_sample == 0
        }),
        ({
            let d = command_effect(c, PlaybackCommand::Restart { playback_id });
            d.src == c.src && d.looping == c.looping && !d.pause && d.current_sample == 0
        }),
        !c.pause ==> command_effect(
            command_effect(c, PlaybackCommand::SetPause { playback_id, pause: true }),
            PlaybackCommand::SetPause { playback_id, pause: false },
        ) == c,
        command_slot(PlaybackCommand::SetPause { playback_id, pause }) == playback_id,
        command_slot(PlaybackCommand::Start { playback_id, src, looping }) == playback_id,
        command_slot(PlaybackCommand::Restart { playback_id }) == playback_id,
{
}


/// When normalisation refuses a stream, for every stream: a bit depth other
/// than 8 or 16 is reported first, then a channel count other than 1 or 2,
/// each with the value found; a well-formed stream that stopped on a
/// decoding error reports that error, whatever samples came before it.
pub proof fn lemma_normalize_refusals<E>(
    bits_per_sample: u16,
    channels: u16,
    samples: Seq<i16>,
    failure: Option<E>,
)
    ensures
        bits_per_sample != 8 && bits_per_sample != 16 ==> (normalize_spec(
            bits_per_sample,
            channels,
            samples,
            failure,
        ) matches Err(AudioError::UnexpectedBitdepth { found }) && found == bits_per_sample),
        (bits_per_sample == 8 || bits_per_sample == 16) && channels != 1 && channels != 2 ==> (
        normalize_spec(bits_per_sample, channels, samples, failure) matches Err(
            AudioError::UnexpectedChannelCount { found },
        ) && found == channels),
        (bits_per_sample == 8 || bits_per_sample == 16) && (channels == 1 || channels == 2)
            && failure is Some ==> (normalize_spec(bits_per_sample, channels, samples, failure)
            matches Err(AudioError::WavParsingError(e)) && e == failure->0),
{
}

/// What one sample period does to a cursor over a buffer of `len` samples,
/// for every cursor: a paused cursor stays as it is; a playing cursor moves
/// to the next sample while there is one; at the end a looping cursor goes
/// back to the first sample and keeps playing, and any other cursor pauses
/// where it is. The buffer and the looping never change.
pub proof fn lemma_advance_steps(c: PlaybackCursor, len: usize)
    ensures
        advance_spec(c, len).src == c.src,
        advance_spec(c, len).looping == c.looping,
        c.pause ==> advance_spec(c, len) == c,
        !c.pause && c.current_sample + 1 < len ==> !advance_spec(c, len).pause
            && advance_spec(c, len).current_sample == c.current_sample + 1,
        !c.pause && c.current_sample + 1 >= len && c.current_sample < usize::MAX && c.looping
            ==> !advance_spec(c, len).pause && advance_spec(c, len).current_sample == 0,
        !c.pause && c.current_sample + 1 >= len && c.current_sample < usize::MAX && !c.looping
            ==> advance_spec(c, len).pause && advance_spec(c, len).current_sample
            == c.current_sample,
{
}

} // verus!
