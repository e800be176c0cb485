//! Queue of decoded buffers and the playback cursor.

use crate::audio::types::{frame_us, AudioBuffer};
use std::collections::VecDeque;
use vstd::prelude::*;
use vstd::slice::slice_subrange;

verus! {

/// What a [`PlaybackQueue`] holds.
pub struct QueueState {
    /// Buffers waiting to be played, in the order they will be played.
    pub queue: Seq<AudioBuffer>,
    /// The buffer being played.
    pub current: Option<AudioBuffer>,
    /// Samples of the current buffer that have been played. Without a current
    /// buffer it has no meaning.
    pub index: int,
    /// Server time of the next frame, in microseconds.
    pub cursor_us: int,
    /// Fraction of a microsecond that the cursor has not been moved by yet, in
    /// units of one microsecond over the sample rate.
    pub cursor_remainder: int,
    /// Whether the cursor has been placed on the server's timeline.
    pub initialized: bool,
    /// How often the queue was cleared, wrapping.
    pub generation: u64,
    /// Whether the next synchronised callback must re-anchor the cursor.
    pub force_reanchor: bool,
    /// Buffers enqueued in this generation.
    pub enqueue_count: u64,
}

/// Whether `buffer` shares at least one frame of playing time with `existing`.
/// Less than a frame cannot hold a duplicated sample: it is timestamp rounding.
pub open spec fn replaces(buffer: AudioBuffer, existing: AudioBuffer) -> bool {
    buffer.overlap_us(existing) >= crate::audio::types::frame_length_us(
        buffer.format.sample_rate,
    )
}

/// The buffers of `queue` that `buffer` does not replace, in order.
pub open spec fn survivors(queue: Seq<AudioBuffer>, buffer: AudioBuffer) -> Seq<AudioBuffer> {
    queue.filter(|existing: AudioBuffer| !replaces(buffer, existing))
}

/// Buffers are ordered by timestamp.
pub open spec fn ordered(queue: Seq<AudioBuffer>) -> bool {
    forall|i: int, j: int|
        0 <= i <= j < queue.len() ==> (#[trigger] queue[i]).timestamp <= (
        #[trigger] queue[j]).timestamp
}

/// Index of the first buffer that starts after `timestamp`.
pub open spec fn first_later(queue: Seq<AudioBuffer>, timestamp: int) -> int
    decreases queue.len(),
{
    if queue.len() == 0 || queue[0].timestamp > timestamp {
        0
    } else {
        1 + first_later(queue.drop_first(), timestamp)
    }
}

/// The queue with the buffers at its front that ended before `cursor_us` dropped.
pub open spec fn without_stale(queue: Seq<AudioBuffer>, cursor_us: int) -> Seq<AudioBuffer>
    decreases queue.len(),
{
    if queue.len() > 0 && queue[0].end_us() < cursor_us {
        without_stale(queue.drop_first(), cursor_us)
    } else {
        queue
    }
}

/// Frames between the start of `buffer` and `cursor_us`, rounded down.
pub open spec fn frames_behind(buffer: AudioBuffer, cursor_us: int, sample_rate: u32) -> int {
    if buffer.timestamp < cursor_us {
        let scaled = (cursor_us - buffer.timestamp) * sample_rate;
        (if scaled > i64::MAX {
            i64::MAX as int
        } else {
            scaled
        }) / 1_000_000
    } else {
        0
    }
}

/// Number of samples of `buffer` that lie behind `cursor_us`.
pub open spec fn samples_behind(
    buffer: AudioBuffer,
    cursor_us: int,
    channels: int,
    sample_rate: u32,
) -> int {
    let samples = frames_behind(buffer, cursor_us, sample_rate) * channels;
    if samples < buffer.samples@.len() {
        samples
    } else {
        buffer.samples@.len() as int
    }
}

/// What is left of a queue once its first playable buffer was taken.
pub struct Taken {
    /// The buffer, if there was one.
    pub current: Option<AudioBuffer>,
    /// Samples of the buffer taken or discarded last that lie behind the cursor.
    pub index: int,
    /// The buffers behind it.
    pub queue: Seq<AudioBuffer>,
}

/// Takes the first buffer of `queue` with a whole frame left past `cursor_us`,
/// skipping the samples behind it. The buffers before that one are discarded.
pub open spec fn take_playable(
    queue: Seq<AudioBuffer>,
    cursor_us: int,
    channels: int,
    sample_rate: u32,
) -> Taken
    decreases queue.len(),
{
    if queue.len() == 0 {
        Taken { current: None, index: 0, queue }
    } else {
        let skip = samples_behind(queue[0], cursor_us, channels, sample_rate);
        let rest = queue.drop_first();
        if skip + channels <= queue[0].samples@.len() {
            Taken { current: Some(queue[0]), index: skip, queue: rest }
        } else if rest.len() == 0 {
            Taken { current: None, index: skip, queue: rest }
        } else {
            take_playable(rest, cursor_us, channels, sample_rate)
        }
    }
}

/// The first buffer of `queue` that is not over at `server_time_us`.
pub open spec fn first_ending_after(
    queue: Seq<AudioBuffer>,
    server_time_us: int,
) -> Option<AudioBuffer>
    decreases queue.len(),
{
    if queue.len() == 0 {
        None
    } else if queue[0].end_us() > server_time_us {
        Some(queue[0])
    } else {
        first_ending_after(queue.drop_first(), server_time_us)
    }
}

/// Whole frames held by the buffers of `queue`.
pub open spec fn frames_in(queue: Seq<AudioBuffer>, channels: int) -> int
    decreases queue.len(),
{
    if queue.len() == 0 {
        0
    } else {
        frames_in(queue.drop_last(), channels) + queue.last().samples@.len() as int / channels
    }
}

/// The larger of two numbers.
pub open spec fn larger(a: int, b: int) -> int {
    if a >= b {
        a
    } else {
        b
    }
}

/// The smaller of two numbers.
pub open spec fn smaller(a: int, b: int) -> int {
    if a <= b {
        a
    } else {
        b
    }
}

impl QueueState {
    /// A queue that nothing has been put in yet.
    pub open spec fn empty() -> Self {
        QueueState {
            queue: Seq::empty(),
            current: None,
            index: 0,
            cursor_us: 0,
            cursor_remainder: 0,
            initialized: false,
            generation: 0,
            force_reanchor: true,
            enqueue_count: 0,
        }
    }

    /// The queue after it was emptied: a new generation starts.
    pub open spec fn cleared(self) -> Self {
        QueueState {
            generation: if self.generation == u64::MAX {
                0
            } else {
                (self.generation + 1) as u64
            },
            ..Self::empty()
        }
    }

    /// Buffers are ordered by timestamp.
    pub open spec fn sorted(self) -> bool {
        ordered(self.queue)
    }

    /// No buffer plays before the cursor is placed, the position in the current
    /// buffer is inside it, and buffers are ordered by timestamp.
    pub open spec fn wf(self) -> bool {
        &&& self.sorted()
        &&& !self.initialized ==> self.queue.len() == 0 && self.current is None
        &&& self.current matches Some(buffer) ==> 0 <= self.index <= buffer.samples@.len()
        &&& 0 <= self.cursor_remainder <= u32::MAX
    }

    /// The queue after `buffer` was pushed: it replaces the buffers that it
    /// overlaps by a frame or more and takes its place by timestamp. The first
    /// buffer of a generation places the cursor.
    pub open spec fn pushed(self, buffer: AudioBuffer) -> Self {
        let kept = survivors(self.queue, buffer);
        QueueState {
            queue: kept.insert(first_later(kept, buffer.timestamp as int), buffer),
            cursor_us: if self.initialized {
                self.cursor_us
            } else {
                buffer.timestamp as int
            },
            cursor_remainder: if self.initialized {
                self.cursor_remainder
            } else {
                0
            },
            initialized: true,
            ..self
        }
    }

    /// Whether the current buffer still holds a whole frame.
    pub open spec fn has_frame(self, channels: int) -> bool {
        self.current matches Some(buffer) && self.index + channels <= buffer.samples@.len()
    }

    /// The queue with a buffer to play from: the current one while it holds a
    /// frame, else the next one with audio past the cursor.
    pub open spec fn refilled(self, channels: int, sample_rate: u32) -> Self {
        if self.has_frame(channels) {
            self
        } else {
            let taken = take_playable(
                without_stale(self.queue, self.cursor_us),
                self.cursor_us,
                channels,
                sample_rate,
            );
            QueueState {
                current: taken.current,
                index: taken.index,
                queue: taken.queue,
                ..self
            }
        }
    }

    /// Where the cursor stands once `frames` more frames were played; the fraction
    /// of a microsecond left over stays in `cursor_remainder`.
    pub open spec fn cursor_after(self, frames: int, sample_rate: u32) -> int {
        self.cursor_us + (self.cursor_remainder + frames * 1_000_000) / (sample_rate as int)
    }

    /// The cursor one frame on.
    pub open spec fn advanced(self, sample_rate: u32) -> Self {
        QueueState {
            cursor_us: self.cursor_after(1, sample_rate),
            cursor_remainder: (self.cursor_remainder + 1_000_000) % (sample_rate as int),
            ..self
        }
    }

    /// Whether the cursor stays on the timeline over `frames` more frames.
    pub open spec fn can_advance(self, frames: int, sample_rate: u32) -> bool {
        self.cursor_after(frames, sample_rate) <= i64::MAX
    }

    /// The frame that plays next, or `None` on an underrun.
    pub open spec fn upcoming(self, channels: int, sample_rate: u32) -> Option<Seq<i32>> {
        let refilled = self.refilled(channels, sample_rate);
        match refilled.current {
            Some(buffer) => Some(
                buffer.samples@.subrange(refilled.index, refilled.index + channels),
            ),
            None => None,
        }
    }

    /// The queue after that frame was taken. An underrun leaves the cursor where
    /// it is, so that audio that arrives late is not taken for stale.
    pub open spec fn consumed(self, channels: int, sample_rate: u32) -> Self {
        let refilled = self.refilled(channels, sample_rate);
        match refilled.current {
            Some(_) => (QueueState {
                index: refilled.index + channels,
                ..refilled
            }).advanced(sample_rate),
            None => refilled,
        }
    }

    /// Earliest server time at or after `server_time_us` that can be played.
    pub open spec fn first_playable(self, server_time_us: int) -> Option<int> {
        let queued = match first_ending_after(self.queue, server_time_us) {
            Some(buffer) => Some(larger(buffer.timestamp as int, server_time_us)),
            None => None,
        };
        match self.current {
            Some(buffer) => {
                let remaining_start = larger(buffer.timestamp as int, self.cursor_us);
                if buffer.end_us() > larger(server_time_us, remaining_start) {
                    Some(larger(remaining_start, server_time_us))
                } else {
                    queued
                }
            },
            None => queued,
        }
    }

    /// The cursor put on `server_time_us`.
    pub open spec fn anchored(self, server_time_us: int) -> Self {
        QueueState { cursor_us: server_time_us, cursor_remainder: 0, ..self }
    }

    /// Where a handoff for `generation` puts the cursor: nowhere if the queue
    /// was cleared since, or if nothing is left to play at `server_time_us`.
    pub open spec fn handoff_cursor(self, generation: u64, server_time_us: int) -> Option<int> {
        if self.generation == generation && self.initialized {
            self.first_playable(server_time_us)
        } else {
            None
        }
    }

    /// The queue after that handoff.
    pub open spec fn handed_off(self, generation: u64, server_time_us: int) -> Self {
        match self.handoff_cursor(generation, server_time_us) {
            Some(cursor_us) => QueueState { force_reanchor: false, ..self.anchored(cursor_us) },
            None => self,
        }
    }

    /// Whole frames waiting to be played.
    pub open spec fn frames(self, channels: int) -> int {
        (match self.current {
            Some(buffer) => (buffer.samples@.len() - self.index) / channels,
            None => 0,
        }) + frames_in(self.queue, channels)
    }

    /// Buffers held, the current one counted.
    pub open spec fn buffers(self) -> int {
        self.queue.len() + if self.current is Some {
            1int
        } else {
            0
        }
    }
}

/// Timing state of a [`PlaybackQueue`], read together at the start of a callback.
#[derive(Debug, Clone, Copy)]
pub struct QueueSnapshot {
    pub generation: u64,
    /// The cursor, once it has been placed.
    pub cursor_us: Option<i64>,
    pub force_reanchor: bool,
}

/// What became of a handoff.
#[derive(Debug, Clone, Copy, PartialEq, Eq, Structural)]
pub enum Handoff {
    /// The cursor was put on this server time.
    Applied { cursor_us: i64 },
    /// All queued audio ends before the requested time.
    NothingPlayable,
    /// The queue was cleared since the handoff was planned.
    Superseded,
}

/// Buffers scheduled by server time, and the position of playback among them.
pub struct PlaybackQueue {
    pub queue: VecDeque<AudioBuffer>,
    pub current: Option<AudioBuffer>,
    pub index: usize,
    /// Current playback position in **server-time microseconds**. Periodically
    /// reanchored to the server's clock during clock-sync correction, so this
    /// represents "what server timestamp is playing right now", not how much
    /// audio content has been consumed.
    pub cursor_us: i64,
    pub cursor_remainder: i64,
    pub initialized: bool,
    pub generation: u64,
    pub force_reanchor: bool,
    /// Buffers enqueued in this generation. Reset by `clear()`.
    pub enqueue_count: u64,
}

impl View for PlaybackQueue {
    type V = QueueState;

    open spec fn view(&self) -> QueueState {
        QueueState {
            queue: self.queue@,
            current: self.current,
            index: self.index as int,
            cursor_us: self.cursor_us as int,
            cursor_remainder: self.cursor_remainder as int,
            initialized: self.initialized,
            generation: self.generation,
            force_reanchor: self.force_reanchor,
            enqueue_count: self.enqueue_count,
        }
    }
}

impl PlaybackQueue {
    /// Create an empty queue.
    pub fn new() -> (r: Self)
        ensures
            r@ == QueueState::empty(),
            r@.wf(),
    {
        PlaybackQueue {
            queue: VecDeque::new(),
            current: None,
            index: 0,
            cursor_us: 0,
            cursor_remainder: 0,
            initialized: false,
            generation: 0,
            force_reanchor: true,
            enqueue_count: 0,
        }
    }

    /// Drop all queued audio and start a new generation.
    pub fn clear(&mut self)
        ensures
            final(self)@ == old(self)@.cleared(),
            final(self)@.wf(),
    {
        self.queue.clear();
        self.current = None;
        self.index = 0;
        self.cursor_us = 0;
        self.cursor_remainder = 0;
        self.initialized = false;
        self.generation = self.generation.wrapping_add(1);
        self.force_reanchor = true;
        self.enqueue_count = 0;
    }

    /// Put a buffer in its place by timestamp.
    ///
    /// When the server rebases its timeline backward, new chunks arrive with
    /// timestamps that overlap chunks already in the queue. All overlapping
    /// buffers are removed, so that no audio plays twice; the server sends fresh
    /// buffers for any gaps. The overlap must be at least one frame to count: a
    /// sub-frame overlap is timestamp rounding, not a rebase.
    pub fn push(&mut self, buffer: AudioBuffer)
        requires
            old(self)@.wf(),
        ensures
            final(self)@ == old(self)@.pushed(buffer),
            final(self)@.wf(),
    {
        // The first buffer places the cursor, so that the audio callback sees a
        // valid cursor before it starts reading.
        if !self.initialized {
            self.cursor_us = buffer.timestamp;
            self.cursor_remainder = 0;
            self.initialized = true;
        }
        self.remove_replaced(&buffer);
        let pos: usize = self.insert_position(buffer.timestamp);
        self.queue.insert(pos, buffer);
        proof {
            lemma_push_keeps_order(old(self)@, buffer);
        }
    }

    /// Remove the buffers that `buffer` overlaps by a frame or more.
    fn remove_replaced(&mut self, buffer: &AudioBuffer)
        ensures
            final(self)@ == (QueueState {
                queue: survivors(old(self)@.queue, *buffer),
                ..old(self)@
            }),
    {
        let frame: i64 = frame_us(buffer.format.sample_rate);
        let count: usize = self.queue.len();
        let ghost before = self.queue@;
        assert(before.take(0) =~= Seq::empty());
        assert(before.skip(0) =~= before);
        assert(survivors(Seq::empty(), *buffer) =~= Seq::empty()) by {
            reveal(Seq::filter);
        }
        for i in 0..count
            invariant
                count == before.len(),
                frame == crate::audio::types::frame_length_us(buffer.format.sample_rate),
                before == old(self)@.queue,
                self@ == (QueueState {
                    queue: before.skip(i as int) + survivors(before.take(i as int), *buffer),
                    ..old(self)@
                }),
        {
            let ghost held = self.queue@;
            proof {
                lemma_survivors_of_one_more(before, *buffer, i as int);
                assert(held[0] == before[i as int]);
                assert(before.skip(i as int).skip(1) =~= before.skip(i + 1));
            }
            if let Some(existing) = self.queue.pop_front() {
                if buffer.overlap(&existing) < frame as i128 {
                    self.queue.push_back(existing);
                }
            }
            assert(self.queue@ =~= before.skip(i + 1) + survivors(before.take(i + 1), *buffer));
        }
        assert(before.skip(count as int) =~= Seq::empty());
        assert(before.take(count as int) =~= before);
        assert(self.queue@ =~= survivors(before, *buffer));
    }

    /// Where a buffer with this timestamp belongs.
    fn insert_position(&self, timestamp: i64) -> (r: usize)
        ensures
            r == first_later(self@.queue, timestamp as int),
            r <= self@.queue.len(),
    {
        let mut pos: usize = 0;
        while pos < self.queue.len() && self.queue[pos].timestamp <= timestamp
            invariant
                pos <= self.queue@.len(),
                forall|i: int| 0 <= i < pos ==> (#[trigger] self.queue@[i]).timestamp <= timestamp,
            decreases self.queue@.len() - pos,
        {
            pos += 1;
        }
        proof {
            lemma_first_later_is(self@.queue, timestamp as int, pos as int);
        }
        pos
    }
}

impl PlaybackQueue {
    /// Take the next frame, moving the cursor past it; `None` on an underrun.
    pub fn next_frame(&mut self, channels: usize, sample_rate: u32) -> (r: Option<&[i32]>)
        requires
            old(self)@.wf(),
            sample_rate > 0,
            old(self)@.can_advance(1, sample_rate),
        ensures
            final(self)@ == old(self)@.consumed(channels as int, sample_rate),
            final(self)@.wf(),
            match r {
                Some(frame) => old(self)@.upcoming(channels as int, sample_rate) == Some(frame@)
                    && frame@.len() == channels,
                None => old(self)@.upcoming(channels as int, sample_rate) is None,
            },
    {
        let needs_buffer: bool = match &self.current {
            None => true,
            Some(current) => channels > current.samples.len() - self.index,
        };
        if needs_buffer {
            self.refill(channels, sample_rate);
        }
        // Bail before advancing cursor/index when the queue is empty. Without
        // this the cursor races ahead during underruns, causing valid buffers to
        // be taken for stale when audio resumes.
        match &self.current {
            None => {
                return None;
            },
            Some(current) => {
                assert(self.index + channels <= current.samples.len());
            },
        }
        let start: usize = self.index;
        let end: usize = start + channels;
        self.index = end;
        self.advance_cursor(sample_rate);
        match &self.current {
            Some(current) => Some(slice_subrange(current.samples.as_slice(), start, end)),
            None => None,
        }
    }

    /// Make the next buffer with audio past the cursor the current one.
    fn refill(&mut self, channels: usize, sample_rate: u32)
        requires
            old(self)@.wf(),
            !old(self)@.has_frame(channels as int),
        ensures
            final(self)@ == old(self)@.refilled(channels as int, sample_rate),
            final(self)@.wf(),
            final(self)@.current is Some ==> final(self)@.has_frame(channels as int),
    {
        self.drop_stale();
        let ghost stale_dropped = self@;
        loop
            invariant_except_break
                take_playable(
                    stale_dropped.queue,
                    old(self)@.cursor_us,
                    channels as int,
                    sample_rate,
                ) == take_playable(
                    self@.queue,
                    old(self)@.cursor_us,
                    channels as int,
                    sample_rate,
                ),
            invariant
                self@.sorted(),
                self@ == (QueueState {
                    queue: self@.queue,
                    current: self@.current,
                    index: self@.index,
                    ..old(self)@
                }),
            ensures
                (Taken { current: self@.current, index: self@.index, queue: self@.queue })
                    == take_playable(
                    stale_dropped.queue,
                    old(self)@.cursor_us,
                    channels as int,
                    sample_rate,
                ),
                self@.current is Some ==> self@.has_frame(channels as int),
            decreases self.queue@.len(),
        {
            match self.queue.pop_front() {
                None => {
                    self.current = None;
                    self.index = 0;
                    break;
                },
                Some(buffer) => {
                    // Skip past samples that are behind the cursor. Playing from
                    // the start of such a buffer would repeat audio the cursor
                    // has already passed, an audible stutter.
                    let skip: usize = self.samples_to_skip(&buffer, channels, sample_rate);
                    let playable: bool = channels <= buffer.samples.len() - skip;
                    self.index = skip;
                    if playable {
                        self.current = Some(buffer);
                        break;
                    }
                    // The skip consumed the entire buffer (or left fewer samples
                    // than one frame): discard it and try the next one.
                    self.current = None;
                    if self.queue.len() == 0 {
                        break;
                    }
                },
            }
        }
    }

    /// Drop the buffers at the front that ended before the cursor.
    fn drop_stale(&mut self)
        requires
            old(self)@.sorted(),
        ensures
            final(self)@ == (QueueState {
                queue: without_stale(old(self)@.queue, old(self)@.cursor_us),
                ..old(self)@
            }),
            final(self)@.sorted(),
    {
        while self.queue.len() > 0 && self.queue[0].end() < self.cursor_us as i128
            invariant
                self@.sorted(),
                self@ == (QueueState { queue: self@.queue, ..old(self)@ }),
                without_stale(old(self)@.queue, old(self)@.cursor_us) == without_stale(
                    self@.queue,
                    old(self)@.cursor_us,
                ),
            decreases self.queue@.len(),
        {
            let _ = self.queue.pop_front();
        }
    }

    /// How many samples of `buffer` lie behind the cursor.
    fn samples_to_skip(&self, buffer: &AudioBuffer, channels: usize, sample_rate: u32) -> (r: usize)
        ensures
            r == samples_behind(*buffer, self@.cursor_us, channels as int, sample_rate),
            r <= buffer.samples@.len(),
    {
        if buffer.timestamp >= self.cursor_us {
            assert(0 * (channels as int) == 0) by (nonlinear_arith);
            return 0;
        }
        let skip_us: i128 = self.cursor_us as i128 - buffer.timestamp as i128;
        assert(0 <= skip_us * sample_rate <= 0x1_0000_0000_0000_0000 * 0x1_0000_0000)
            by (nonlinear_arith)
            requires
                0 <= skip_us <= 0x1_0000_0000_0000_0000,
                0 <= sample_rate <= 0x1_0000_0000,
        ;
        let scaled: i128 = skip_us * sample_rate as i128;
        let capped: i128 = if scaled > i64::MAX as i128 {
            i64::MAX as i128
        } else {
            scaled
        };
        let skip_frames: u128 = (capped / 1_000_000) as u128;
        assert(skip_frames * channels <= 0x8000_0000_0000_0000 * 0x1_0000_0000_0000_0000)
            by (nonlinear_arith)
            requires
                skip_frames <= 0x8000_0000_0000_0000,
                channels <= 0x1_0000_0000_0000_0000,
        ;
        let samples: u128 = skip_frames * channels as u128;
        if samples < buffer.samples.len() as u128 {
            samples as usize
        } else {
            buffer.samples.len()
        }
    }

    /// Move the cursor one frame on, carrying the fraction of a microsecond.
    fn advance_cursor(&mut self, sample_rate: u32)
        requires
            sample_rate > 0,
            0 <= old(self)@.cursor_remainder <= u32::MAX,
            old(self)@.can_advance(1, sample_rate),
        ensures
            final(self)@ == old(self)@.advanced(sample_rate),
            0 <= final(self)@.cursor_remainder <= u32::MAX,
    {
        let rate: i64 = sample_rate as i64;
        let remainder: i64 = self.cursor_remainder + 1_000_000;
        proof {
            vstd::arithmetic::div_mod::lemma_div_pos_is_pos(remainder as int, rate as int);
            vstd::arithmetic::div_mod::lemma_mod_bound(remainder as int, rate as int);
        }
        self.cursor_us = self.cursor_us + remainder / rate;
        self.cursor_remainder = remainder % rate;
    }

    /// Earliest position at or after `server_time_us` that has audio to play.
    pub fn first_playable_cursor_at_or_after(&self, server_time_us: i64) -> (r: Option<i64>)
        ensures
            match r {
                Some(cursor_us) => self@.first_playable(server_time_us as int) == Some(
                    cursor_us as int,
                ),
                None => self@.first_playable(server_time_us as int) is None,
            },
    {
        if let Some(buffer) = &self.current {
            let remaining_start: i64 = if buffer.timestamp >= self.cursor_us {
                buffer.timestamp
            } else {
                self.cursor_us
            };
            let resume_at: i64 = if remaining_start >= server_time_us {
                remaining_start
            } else {
                server_time_us
            };
            if buffer.end() > resume_at as i128 {
                return Some(resume_at);
            }
        }
        let mut i: usize = 0;
        assert(self.queue@.skip(0) =~= self.queue@);
        while i < self.queue.len()
            invariant
                i <= self.queue@.len(),
                first_ending_after(self.queue@, server_time_us as int) == first_ending_after(
                    self.queue@.skip(i as int),
                    server_time_us as int,
                ),
                self@.first_playable(server_time_us as int) == (match first_ending_after(
                    self.queue@,
                    server_time_us as int,
                ) {
                    Some(buffer) => Some(larger(buffer.timestamp as int, server_time_us as int)),
                    None => None,
                }),
            decreases self.queue@.len() - i,
        {
            let buffer: &AudioBuffer = &self.queue[i];
            assert(self.queue@.skip(i as int).drop_first() =~= self.queue@.skip(i + 1));
            assert(self.queue@.skip(i as int)[0] == buffer);
            if buffer.end() > server_time_us as i128 {
                return Some(
                    if buffer.timestamp >= server_time_us {
                        buffer.timestamp
                    } else {
                        server_time_us
                    },
                );
            }
            i += 1;
        }
        None
    }

    /// Whole frames waiting to be played, saturating.
    pub fn queued_frames(&self, channels: usize) -> (r: usize)
        requires
            self@.wf(),
            channels > 0,
        ensures
            r == smaller(self@.frames(channels as int), usize::MAX as int),
    {
        let mut frames: usize = match &self.current {
            Some(current) => (current.samples.len() - self.index) / channels,
            None => 0,
        };
        let ghost current_frames = frames as int;
        assert(self.queue@.take(0) =~= Seq::empty());
        for i in 0..self.queue.len()
            invariant
                channels > 0,
                0 <= current_frames,
                0 <= frames_in(self.queue@.take(i as int), channels as int),
                frames == smaller(
                    current_frames + frames_in(self.queue@.take(i as int), channels as int),
                    usize::MAX as int,
                ),
        {
            let held: usize = self.queue[i].samples.len() / channels;
            assert(self.queue@.take(i + 1).drop_last() =~= self.queue@.take(i as int));
            frames = frames.saturating_add(held);
        }
        assert(self.queue@.take(self.queue@.len() as int) =~= self.queue@);
        frames
    }

    /// Playing time of the queued frames in microseconds, saturating.
    pub fn queued_duration_us(&self, channels: usize, sample_rate: u32) -> (r: u64)
        requires
            self@.wf(),
            channels > 0,
        ensures
            r == smaller(
                smaller(self@.frames(channels as int), usize::MAX as int) * 1_000_000 / larger(
                    sample_rate as int,
                    1,
                ),
                u64::MAX as int,
            ),
            sample_rate > 0 && r < u64::MAX && self@.frames(channels as int) <= usize::MAX ==> r
                * sample_rate <= self@.frames(channels as int) * 1_000_000 < (r + 1)
                * sample_rate,
    {
        let frames: u128 = self.queued_frames(channels) as u128;
        let rate: u128 = if sample_rate == 0 {
            1
        } else {
            sample_rate as u128
        };
        let duration: u128 = frames * 1_000_000 / rate;
        proof {
            let total = frames * 1_000_000;
            let divisor = rate as int;
            let whole = total / divisor;
            vstd::arithmetic::div_mod::lemma_fundamental_div_mod(total, divisor);
            vstd::arithmetic::div_mod::lemma_mod_bound(total, divisor);
            assert(whole * divisor <= total < (whole + 1) * divisor) by (nonlinear_arith)
                requires
                    total == divisor * whole + total % divisor,
                    0 <= total % divisor < divisor,
            ;
        }
        if duration < u64::MAX as u128 {
            duration as u64
        } else {
            u64::MAX
        }
    }

    /// Buffers held, the current one counted, saturating.
    pub fn buffer_count(&self) -> (r: usize)
        ensures
            r == smaller(self@.buffers(), usize::MAX as int),
    {
        if self.current.is_some() {
            self.queue.len().saturating_add(1)
        } else {
            self.queue.len()
        }
    }
}

impl PlaybackQueue {
    /// Push a buffer and count it.
    pub fn enqueue(&mut self, buffer: AudioBuffer)
        requires
            old(self)@.wf(),
            old(self)@.enqueue_count < u64::MAX,
        ensures
            final(self)@ == (QueueState {
                enqueue_count: (old(self)@.enqueue_count + 1) as u64,
                ..old(self)@.pushed(buffer)
            }),
            final(self)@.wf(),
    {
        self.push(buffer);
        self.enqueue_count = self.enqueue_count + 1;
    }

    /// Whether the cursor stays on the timeline over `frames` more frames.
    pub fn has_timeline_for(&self, frames: u64, sample_rate: u32) -> (r: bool)
        requires
            self@.wf(),
            sample_rate > 0,
        ensures
            r == self@.can_advance(frames as int, sample_rate),
    {
        let total: i128 = self.cursor_remainder as i128 + frames as i128 * 1_000_000;
        proof {
            vstd::arithmetic::div_mod::lemma_div_nonincreasing(total as int, sample_rate as int);
            vstd::arithmetic::div_mod::lemma_div_pos_is_pos(total as int, sample_rate as int);
        }
        self.cursor_us as i128 + total / sample_rate as i128 <= i64::MAX as i128
    }

    /// Read the timing state.
    pub fn snapshot(&self) -> (r: QueueSnapshot)
        ensures
            r.generation == self@.generation,
            r.force_reanchor == self@.force_reanchor,
            match r.cursor_us {
                Some(cursor_us) => self@.initialized && cursor_us == self@.cursor_us,
                None => !self@.initialized,
            },
    {
        QueueSnapshot {
            generation: self.generation,
            cursor_us: if self.initialized {
                Some(self.cursor_us)
            } else {
                None
            },
            force_reanchor: self.force_reanchor,
        }
    }

    /// Ask for a one-shot re-anchor of a cursor that has been placed, after an
    /// intentional change of the local timing.
    pub fn request_reanchor(&mut self)
        ensures
            final(self)@ == (QueueState {
                force_reanchor: old(self)@.force_reanchor || old(self)@.initialized,
                ..old(self)@
            }),
            old(self)@.wf() ==> final(self)@.wf(),
    {
        if self.initialized {
            self.force_reanchor = true;
        }
    }

    /// Put the cursor on `server_time_us`.
    pub fn anchor(&mut self, server_time_us: i64)
        ensures
            final(self)@ == old(self)@.anchored(server_time_us as int),
            old(self)@.wf() ==> final(self)@.wf(),
    {
        self.cursor_us = server_time_us;
        self.cursor_remainder = 0;
    }

    /// Put the cursor on the first playable position at or after
    /// `server_time_us` and settle the request for a re-anchor.
    ///
    /// `generation` is the one that the handoff was planned for: a `clear()`
    /// since then leaves the request of the next startup alone.
    pub fn hand_off(&mut self, generation: u64, server_time_us: i64) -> (r: Handoff)
        ensures
            final(self)@ == old(self)@.handed_off(generation, server_time_us as int),
            old(self)@.wf() ==> final(self)@.wf(),
            match r {
                Handoff::Applied { cursor_us } => old(self)@.handoff_cursor(
                    generation,
                    server_time_us as int,
                ) == Some(cursor_us as int),
                Handoff::NothingPlayable => old(self)@.generation == generation
                    && old(self)@.initialized && old(self)@.first_playable(
                    server_time_us as int,
                ) is None,
                Handoff::Superseded => old(self)@.generation != generation
                    || !old(self)@.initialized,
            },
    {
        if self.generation != generation || !self.initialized {
            return Handoff::Superseded;
        }
        match self.first_playable_cursor_at_or_after(server_time_us) {
            Some(cursor_us) => {
                self.anchor(cursor_us);
                self.force_reanchor = false;
                Handoff::Applied { cursor_us }
            },
            None => Handoff::NothingPlayable,
        }
    }
}

// -- Laws --

/// No two buffers share `frame_us` or more of playing time.
pub open spec fn no_duplicate_audio(queue: Seq<AudioBuffer>, frame_us: int) -> bool {
    forall|i: int, j: int|
        0 <= i < j < queue.len() ==> (#[trigger] queue[i]).overlap_us(#[trigger] queue[j])
            < frame_us
}

/// No audio plays twice: as long as the stream keeps its sample rate, no two
/// queued buffers ever overlap by a frame or more, whatever timestamps the
/// server sends.
pub proof fn law_push_leaves_no_duplicate_audio(state: QueueState, buffer: AudioBuffer)
    requires
        no_duplicate_audio(
            state.queue,
            crate::audio::types::frame_length_us(buffer.format.sample_rate),
        ),
    ensures
        no_duplicate_audio(
            state.pushed(buffer).queue,
            crate::audio::types::frame_length_us(buffer.format.sample_rate),
        ),
{
    let frame = crate::audio::types::frame_length_us(buffer.format.sample_rate);
    let kept = survivors(state.queue, buffer);
    let pos = first_later(kept, buffer.timestamp as int);
    assert forall|i: int, j: int| 0 <= i < j < kept.len() implies (#[trigger] kept[i]).overlap_us(
        #[trigger] kept[j],
    ) < frame by {
        let (k, l) = lemma_survivors_are_a_subsequence(state.queue, buffer, i, j);
        assert(state.queue[k].overlap_us(state.queue[l]) < frame);
    }
    assert forall|i: int| 0 <= i < kept.len() implies !replaces(buffer, #[trigger] kept[i]) by {
        let _ = lemma_survivors_are_a_subsequence(state.queue, buffer, i, i);
    }
    lemma_first_later_bounds(kept, buffer.timestamp as int);
    let queue = kept.insert(pos, buffer);
    assert forall|i: int, j: int| 0 <= i < j < queue.len() implies (
    #[trigger] queue[i]).overlap_us(#[trigger] queue[j]) < frame by {
        let a = if i < pos {
            i
        } else {
            i - 1
        };
        let b = if j < pos {
            j
        } else {
            j - 1
        };
        if i != pos {
            assert(queue[i] == kept[a]);
        }
        if j != pos {
            assert(queue[j] == kept[b]);
        }
    }
}

/// A pushed buffer is always queued, and it evicts exactly the buffers that it
/// overlaps by a frame or more: timestamp rounding evicts nothing.
pub proof fn law_push_evicts_exactly_the_overlapped(
    state: QueueState,
    buffer: AudioBuffer,
    other: AudioBuffer,
)
    ensures
        state.pushed(buffer).queue.contains(other) <==> other == buffer || (state.queue.contains(
            other,
        ) && !replaces(buffer, other)),
{
    let kept = survivors(state.queue, buffer);
    let keeps = |existing: AudioBuffer| !replaces(buffer, existing);
    let pos = first_later(kept, buffer.timestamp as int);
    let queue = kept.insert(pos, buffer);
    lemma_first_later_bounds(kept, buffer.timestamp as int);
    assert(queue[pos] == buffer);
    assert(kept == state.queue.filter(keeps));
    if state.queue.contains(other) && !replaces(buffer, other) {
        let k = state.queue.index_of(other);
        assert(keeps(state.queue[k]));
        state.queue.lemma_filter_contains(keeps, k);
        let i = kept.index_of(other);
        assert(kept[i] == other);
        assert(queue[if i < pos {
            i
        } else {
            i + 1
        }] == other);
    }
    if queue.contains(other) && other != buffer {
        let i = queue.index_of(other);
        assert(queue[i] == other);
        let a = if i < pos {
            i
        } else {
            i - 1
        };
        assert(kept[a] == other);
        state.queue.lemma_filter_pred(keeps, a);
        assert(kept.contains(other));
        state.queue.lemma_filter_contains_rev(keeps, other);
    }
}

/// The queue after `n` calls of `next_frame`.
pub open spec fn after_frames(state: QueueState, n: nat, channels: int, sample_rate: u32) -> QueueState
    decreases n,
{
    if n == 0 {
        state
    } else {
        after_frames(state, (n - 1) as nat, channels, sample_rate).consumed(channels, sample_rate)
    }
}

/// How many of these calls returned a frame.
pub open spec fn frames_played(state: QueueState, n: nat, channels: int, sample_rate: u32) -> nat
    decreases n,
{
    if n == 0 {
        0
    } else {
        let before = (n - 1) as nat;
        frames_played(state, before, channels, sample_rate) + if after_frames(
            state,
            before,
            channels,
            sample_rate,
        ).upcoming(channels, sample_rate) is Some {
            1nat
        } else {
            0nat
        }
    }
}

/// The cursor does not drift: however many frames were played, it stands
/// exactly where that number of frames at the sample rate puts it, rounded
/// down once, and underruns do not move it.
pub proof fn law_cursor_counts_played_frames(
    state: QueueState,
    n: nat,
    channels: int,
    sample_rate: u32,
)
    requires
        sample_rate > 0,
        0 <= state.cursor_remainder < sample_rate,
    ensures
        ({
            let played = frames_played(state, n, channels, sample_rate) as int;
            let after = after_frames(state, n, channels, sample_rate);
            &&& after.cursor_us == state.cursor_after(played, sample_rate)
            &&& after.cursor_remainder == (state.cursor_remainder + played * 1_000_000) % (
            sample_rate as int)
        }),
    decreases n,
{
    let rate = sample_rate as int;
    if n == 0 {
        vstd::arithmetic::div_mod::lemma_small_mod(
            state.cursor_remainder as nat,
            sample_rate as nat,
        );
        vstd::arithmetic::div_mod::lemma_basic_div(state.cursor_remainder, rate);
    } else {
        let m = (n - 1) as nat;
        law_cursor_counts_played_frames(state, m, channels, sample_rate);
        let before = after_frames(state, m, channels, sample_rate);
        let total = state.cursor_remainder + frames_played(state, m, channels, sample_rate)
            * 1_000_000;
        if before.upcoming(channels, sample_rate) is Some {
            lemma_carry(total, 1_000_000, rate);
        }
    }
}

/// A second of frames moves the cursor by exactly a second.
pub proof fn law_one_second_of_frames_is_one_second(
    state: QueueState,
    channels: int,
    sample_rate: u32,
)
    requires
        sample_rate > 0,
        0 <= state.cursor_remainder < sample_rate,
        frames_played(state, sample_rate as nat, channels, sample_rate) == sample_rate,
    ensures
        after_frames(state, sample_rate as nat, channels, sample_rate).cursor_us == state.cursor_us
            + 1_000_000,
        after_frames(state, sample_rate as nat, channels, sample_rate).cursor_remainder
            == state.cursor_remainder,
{
    law_cursor_counts_played_frames(state, sample_rate as nat, channels, sample_rate);
    let rate = sample_rate as int;
    assert(state.cursor_remainder + rate * 1_000_000 == 1_000_000 * rate + state.cursor_remainder);
    vstd::arithmetic::div_mod::lemma_fundamental_div_mod_converse(
        state.cursor_remainder + rate * 1_000_000,
        rate,
        1_000_000,
        state.cursor_remainder,
    );
}

/// Dividing with a carried remainder is dividing the sum.
proof fn lemma_carry(total: int, step: int, d: int)
    requires
        0 < d,
    ensures
        total / d + (total % d + step) / d == (total + step) / d,
        (total % d + step) % d == (total + step) % d,
{
    vstd::arithmetic::div_mod::lemma_fundamental_div_mod(total, d);
    let r = total % d + step;
    vstd::arithmetic::div_mod::lemma_fundamental_div_mod(r, d);
    vstd::arithmetic::div_mod::lemma_mod_bound(r, d);
    let q = total / d + r / d;
    assert(total + step == q * d + r % d) by (nonlinear_arith)
        requires
            total == d * (total / d) + total % d,
            r == total % d + step,
            r == d * (r / d) + r % d,
            q == total / d + r / d,
    ;
    vstd::arithmetic::div_mod::lemma_fundamental_div_mod_converse(total + step, d, q, r % d);
}

/// Whether no whole frame of `buffer` is left past `cursor_us`.
pub open spec fn used_up(
    buffer: AudioBuffer,
    cursor_us: int,
    channels: int,
    sample_rate: u32,
) -> bool {
    ||| buffer.end_us() < cursor_us
    ||| samples_behind(buffer, cursor_us, channels, sample_rate) + channels
        > buffer.samples@.len()
}

/// An underrun leaves the cursor where it was, and discards only buffers without
/// a whole frame past it.
pub proof fn law_underrun_holds_the_cursor(state: QueueState, channels: int, sample_rate: u32)
    requires
        state.upcoming(channels, sample_rate) is None,
    ensures
        state.consumed(channels, sample_rate).cursor_us == state.cursor_us,
        state.consumed(channels, sample_rate).cursor_remainder == state.cursor_remainder,
        state.consumed(channels, sample_rate).current is None,
        state.consumed(channels, sample_rate).queue.len() == 0,
        forall|i: int|
            0 <= i < state.queue.len() ==> used_up(
                #[trigger] state.queue[i],
                state.cursor_us,
                channels,
                sample_rate,
            ),
{
    lemma_nothing_playable_empties(state.queue, state.cursor_us, channels, sample_rate);
}

proof fn lemma_nothing_playable_empties(
    queue: Seq<AudioBuffer>,
    cursor_us: int,
    channels: int,
    sample_rate: u32,
)
    requires
        ({
            let fresh = without_stale(queue, cursor_us);
            ||| take_playable(queue, cursor_us, channels, sample_rate).current is None
            ||| take_playable(fresh, cursor_us, channels, sample_rate).current is None
        }),
    ensures
        take_playable(queue, cursor_us, channels, sample_rate).current is None ==> take_playable(
            queue,
            cursor_us,
            channels,
            sample_rate,
        ).queue.len() == 0,
        ({
            let fresh = without_stale(queue, cursor_us);
            take_playable(fresh, cursor_us, channels, sample_rate).current is None ==> take_playable(
                fresh,
                cursor_us,
                channels,
                sample_rate,
            ).queue.len() == 0
        }),
        forall|i: int|
            0 <= i < queue.len() ==> used_up(
                #[trigger] queue[i],
                cursor_us,
                channels,
                sample_rate,
            ),
    decreases queue.len(),
{
    if queue.len() > 0 {
        let rest = queue.drop_first();
        let stale = queue[0].end_us() < cursor_us;
        assert(stale ==> without_stale(queue, cursor_us) == without_stale(rest, cursor_us));
        lemma_nothing_playable_empties(rest, cursor_us, channels, sample_rate);
        assert forall|i: int| 0 <= i < queue.len() implies used_up(
            #[trigger] queue[i],
            cursor_us,
            channels,
            sample_rate,
        ) by {
            if i > 0 {
                assert(rest[i - 1] == queue[i]);
            }
        }
    }
}

/// A buffer that starts behind the cursor is entered within one frame of it:
/// no frame that the cursor has passed plays again, and none ahead of it is
/// skipped.
pub proof fn law_entering_a_buffer_repeats_no_frame(
    buffer: AudioBuffer,
    cursor_us: int,
    sample_rate: u32,
)
    requires
        buffer.timestamp < cursor_us,
        (cursor_us - buffer.timestamp) * sample_rate <= i64::MAX,
    ensures
        ({
            let frames = frames_behind(buffer, cursor_us, sample_rate);
            &&& frames * 1_000_000 <= (cursor_us - buffer.timestamp) * sample_rate
            &&& (cursor_us - buffer.timestamp) * sample_rate < (frames + 1) * 1_000_000
        }),
{
}

/// A re-anchor goes to a time that is not before the requested one and at which
/// some held buffer has audio.
pub proof fn law_first_playable_has_audio(state: QueueState, server_time_us: int, cursor_us: int)
    requires
        state.first_playable(server_time_us) == Some(cursor_us),
    ensures
        server_time_us <= cursor_us,
        ({
            ||| state.current matches Some(buffer) && buffer.timestamp <= cursor_us
                < buffer.end_us()
            ||| exists|i: int|
                0 <= i < state.queue.len() && (#[trigger] state.queue[i]).timestamp <= cursor_us
                    && (cursor_us < state.queue[i].end_us() || cursor_us
                    == state.queue[i].timestamp) && server_time_us < state.queue[i].end_us()
        }),
{
    lemma_first_ending_after(state.queue, server_time_us);
    if let Some(buffer) = first_ending_after(state.queue, server_time_us) {
        let i = choose|i: int|
            0 <= i < state.queue.len() && #[trigger] state.queue[i] == buffer && forall|j: int|
                0 <= j < i ==> (#[trigger] state.queue[j]).end_us() <= server_time_us;
        assert(state.queue[i].timestamp <= larger(buffer.timestamp as int, server_time_us));
    }
}

/// The first playable time is the earliest one: unless it is in the current
/// buffer, no time from the requested one up to it lies inside a queued buffer.
/// In the current buffer it is the requested time itself or, if that was played
/// already, where playback stands.
pub proof fn law_first_playable_is_the_earliest(
    state: QueueState,
    server_time_us: int,
    cursor_us: int,
)
    requires
        state.sorted(),
        state.first_playable(server_time_us) == Some(cursor_us),
    ensures
        ({
            let current_plays = state.current matches Some(buffer) && buffer.end_us() > larger(
                server_time_us,
                larger(buffer.timestamp as int, state.cursor_us),
            );
            &&& current_plays ==> cursor_us == larger(
                server_time_us,
                larger(state.current->0.timestamp as int, state.cursor_us),
            )
            &&& !current_plays ==> forall|t: int, i: int|
                server_time_us <= t < cursor_us && 0 <= i < state.queue.len()
                    ==> !#[trigger] state.queue[i].plays_at(t)
        }),
{
    lemma_first_ending_after(state.queue, server_time_us);
    if let Some(buffer) = first_ending_after(state.queue, server_time_us) {
        let first = choose|i: int|
            0 <= i < state.queue.len() && #[trigger] state.queue[i] == buffer && forall|j: int|
                0 <= j < i ==> (#[trigger] state.queue[j]).end_us() <= server_time_us;
        assert forall|t: int, i: int|
            server_time_us <= t < larger(buffer.timestamp as int, server_time_us) && 0 <= i
                < state.queue.len() implies !#[trigger] state.queue[i].plays_at(t) by {
            if i >= first {
                assert(state.queue[first].timestamp <= state.queue[i].timestamp);
            }
        }
    }
}

/// Nothing is playable only when every queued buffer is over.
pub proof fn law_nothing_playable_means_all_over(state: QueueState, server_time_us: int)
    ensures
        state.first_playable(server_time_us) is None ==> forall|i: int|
            0 <= i < state.queue.len() ==> (#[trigger] state.queue[i]).end_us() <= server_time_us,
{
    lemma_first_ending_after(state.queue, server_time_us);
}

proof fn lemma_first_ending_after(queue: Seq<AudioBuffer>, server_time_us: int)
    ensures
        match first_ending_after(queue, server_time_us) {
            Some(buffer) => buffer.end_us() > server_time_us && exists|i: int|
                0 <= i < queue.len() && #[trigger] queue[i] == buffer && forall|j: int|
                    0 <= j < i ==> (#[trigger] queue[j]).end_us() <= server_time_us,
            None => forall|i: int|
                0 <= i < queue.len() ==> (#[trigger] queue[i]).end_us() <= server_time_us,
        },
    decreases queue.len(),
{
    if queue.len() > 0 {
        let rest = queue.drop_first();
        lemma_first_ending_after(rest, server_time_us);
        if queue[0].end_us() <= server_time_us {
            match first_ending_after(rest, server_time_us) {
                Some(buffer) => {
                    let i = choose|i: int|
                        0 <= i < rest.len() && #[trigger] rest[i] == buffer && forall|j: int|
                            0 <= j < i ==> (#[trigger] rest[j]).end_us() <= server_time_us;
                    assert(queue[i + 1] == buffer);
                    assert forall|j: int| 0 <= j < i + 1 implies (#[trigger] queue[j]).end_us()
                        <= server_time_us by {
                        if j > 0 {
                            assert(rest[j - 1] == queue[j]);
                        }
                    }
                },
                None => {
                    assert forall|i: int| 0 <= i < queue.len() implies (
                    #[trigger] queue[i]).end_us() <= server_time_us by {
                        if i > 0 {
                            assert(rest[i - 1] == queue[i]);
                        }
                    }
                },
            }
        } else {
            assert(queue[0] == queue[0]);
        }
    }
}

/// Clearing leaves nothing of the old generation: no audio, no cursor, and a
/// handoff planned before it does nothing.
pub proof fn law_clear_starts_over(state: QueueState, server_time_us: int)
    ensures
        state.cleared().queue.len() == 0,
        state.cleared().current is None,
        state.cleared().index == 0,
        !state.cleared().initialized,
        state.cleared().force_reanchor,
        state.cleared().generation != state.generation,
        state.cleared().handed_off(state.generation, server_time_us) == state.cleared(),
{
}

/// The request for a re-anchor is sticky: pushing, playing and moving the cursor
/// leave it, and a handoff settles it exactly when it is applied, at a time that
/// is not before the requested one.
pub proof fn law_reanchor_request_is_sticky(
    state: QueueState,
    buffer: AudioBuffer,
    channels: int,
    sample_rate: u32,
    generation: u64,
    server_time_us: int,
)
    requires
        state.force_reanchor,
    ensures
        state.pushed(buffer).force_reanchor,
        state.consumed(channels, sample_rate).force_reanchor,
        state.anchored(server_time_us).force_reanchor,
        ({
            let after = state.handed_off(generation, server_time_us);
            &&& !after.force_reanchor <==> state.handoff_cursor(generation, server_time_us) is Some
            &&& !after.force_reanchor ==> after.cursor_us >= server_time_us
            &&& after.force_reanchor ==> after == state
        }),
{
    if let Some(cursor_us) = state.handoff_cursor(generation, server_time_us) {
        law_first_playable_has_audio(state, server_time_us, cursor_us);
    }
}

/// Taking a frame uses up one frame of the timeline at most.
pub proof fn lemma_consuming_uses_one_frame(
    state: QueueState,
    frames: int,
    channels: int,
    sample_rate: u32,
)
    requires
        sample_rate > 0,
        frames >= 1,
        state.cursor_remainder >= 0,
        state.can_advance(frames, sample_rate),
    ensures
        state.consumed(channels, sample_rate).can_advance(frames - 1, sample_rate),
        state.consumed(channels, sample_rate).cursor_remainder >= 0,
{
    let rate = sample_rate as int;
    lemma_carry(state.cursor_remainder + 1_000_000, (frames - 1) * 1_000_000, rate);
    lemma_fewer_frames_fit(state, frames - 1, frames, sample_rate);
    vstd::arithmetic::div_mod::lemma_mod_bound(state.cursor_remainder + 1_000_000, rate);
}

/// A shorter stretch of the timeline fits where a longer one does.
pub proof fn lemma_fewer_frames_fit(state: QueueState, fewer: int, frames: int, sample_rate: u32)
    requires
        sample_rate > 0,
        fewer <= frames,
        state.can_advance(frames, sample_rate),
    ensures
        state.can_advance(fewer, sample_rate),
{
    vstd::arithmetic::div_mod::lemma_div_is_ordered(
        state.cursor_remainder + fewer * 1_000_000,
        state.cursor_remainder + frames * 1_000_000,
        sample_rate as int,
    );
}

/// The position in the current buffer is inside it.
pub open spec fn index_in_range(state: QueueState) -> bool {
    state.current matches Some(buffer) ==> 0 <= state.index <= buffer.samples@.len()
}

/// The next frame is as long as a frame is, and taking it keeps the position in
/// range.
pub proof fn lemma_upcoming_is_a_frame(state: QueueState, channels: int, sample_rate: u32)
    requires
        index_in_range(state),
        channels >= 0,
    ensures
        state.upcoming(channels, sample_rate) matches Some(frame) ==> frame.len() == channels,
        index_in_range(state.consumed(channels, sample_rate)),
{
    if !state.has_frame(channels) {
        lemma_taken_is_playable(
            without_stale(state.queue, state.cursor_us),
            state.cursor_us,
            channels,
            sample_rate,
        );
    }
}

pub(crate) proof fn lemma_taken_is_playable(
    queue: Seq<AudioBuffer>,
    cursor_us: int,
    channels: int,
    sample_rate: u32,
)
    requires
        channels >= 0,
    ensures
        ({
            let taken = take_playable(queue, cursor_us, channels, sample_rate);
            taken.current matches Some(buffer) ==> 0 <= taken.index && taken.index + channels
                <= buffer.samples@.len()
        }),
    decreases queue.len(),
{
    if queue.len() > 0 {
        let frames = frames_behind(queue[0], cursor_us, sample_rate);
        assert(0 <= frames) by {
            if queue[0].timestamp < cursor_us {
                assert(0 <= (cursor_us - queue[0].timestamp) * sample_rate) by (nonlinear_arith)
                    requires
                        queue[0].timestamp < cursor_us,
                ;
            }
        }
        assert(0 <= frames * channels) by (nonlinear_arith)
            requires
                0 <= frames,
                0 <= channels,
        ;
        lemma_taken_is_playable(queue.drop_first(), cursor_us, channels, sample_rate);
    }
}

/// Keeping or dropping the next buffer of the queue.
proof fn lemma_survivors_of_one_more(queue: Seq<AudioBuffer>, buffer: AudioBuffer, i: int)
    requires
        0 <= i < queue.len(),
    ensures
        survivors(queue.take(i + 1), buffer) == (if replaces(buffer, queue[i]) {
            survivors(queue.take(i), buffer)
        } else {
            survivors(queue.take(i), buffer).push(queue[i])
        }),
{
    reveal(Seq::filter);
    assert(queue.take(i + 1).drop_last() =~= queue.take(i));
    assert(queue.take(i + 1).last() == queue[i]);
}

/// `first_later` is the index up to which buffers start no later.
proof fn lemma_first_later_is(queue: Seq<AudioBuffer>, timestamp: int, pos: int)
    requires
        0 <= pos <= queue.len(),
        forall|i: int| 0 <= i < pos ==> (#[trigger] queue[i]).timestamp <= timestamp,
        pos < queue.len() ==> queue[pos].timestamp > timestamp,
    ensures
        first_later(queue, timestamp) == pos,
    decreases pos,
{
    if pos > 0 {
        let rest = queue.drop_first();
        assert forall|i: int| 0 <= i < pos - 1 implies (#[trigger] rest[i]).timestamp
            <= timestamp by {
            assert(rest[i] == queue[i + 1]);
        }
        assert(queue[0].timestamp <= timestamp);
        lemma_first_later_is(rest, timestamp, pos - 1);
    }
}

pub(crate) proof fn lemma_first_later_bounds(queue: Seq<AudioBuffer>, timestamp: int)
    ensures
        0 <= first_later(queue, timestamp) <= queue.len(),
        forall|i: int|
            0 <= i < first_later(queue, timestamp) ==> (#[trigger] queue[i]).timestamp <= timestamp,
        first_later(queue, timestamp) < queue.len() ==> queue[first_later(
            queue,
            timestamp,
        )].timestamp > timestamp,
    decreases queue.len(),
{
    if queue.len() > 0 && queue[0].timestamp <= timestamp {
        let rest = queue.drop_first();
        lemma_first_later_bounds(rest, timestamp);
        assert forall|i: int| 0 <= i < first_later(queue, timestamp) implies (
        #[trigger] queue[i]).timestamp <= timestamp by {
            if i > 0 {
                assert(rest[i - 1] == queue[i]);
            }
        }
    }
}

/// The survivors are a subsequence of the queue: two of them stand at positions
/// of the queue in the same order. None of them is replaced.
proof fn lemma_survivors_are_a_subsequence(
    queue: Seq<AudioBuffer>,
    buffer: AudioBuffer,
    i: int,
    j: int,
) -> (at: (int, int))
    requires
        0 <= i <= j < survivors(queue, buffer).len(),
    ensures
        0 <= at.0 <= at.1 < queue.len(),
        i < j ==> at.0 < at.1,
        queue[at.0] == survivors(queue, buffer)[i],
        queue[at.1] == survivors(queue, buffer)[j],
        !replaces(buffer, queue[at.0]),
        !replaces(buffer, queue[at.1]),
    decreases queue.len(),
{
    reveal(Seq::filter);
    let before = queue.drop_last();
    let kept_before = survivors(before, buffer);
    assert(survivors(queue, buffer) == (if replaces(buffer, queue.last()) {
        kept_before
    } else {
        kept_before.push(queue.last())
    }));
    if j < kept_before.len() {
        lemma_survivors_are_a_subsequence(before, buffer, i, j)
    } else if i < kept_before.len() {
        let at = lemma_survivors_are_a_subsequence(before, buffer, i, i);
        (at.0, queue.len() - 1)
    } else {
        (queue.len() - 1, queue.len() - 1)
    }
}

/// The survivors of an ordered queue are ordered.
pub(crate) proof fn lemma_survivors_stay_ordered(queue: Seq<AudioBuffer>, buffer: AudioBuffer)
    requires
        ordered(queue),
    ensures
        ordered(survivors(queue, buffer)),
{
    let kept = survivors(queue, buffer);
    assert forall|i: int, j: int| 0 <= i <= j < kept.len() implies (#[trigger] kept[i]).timestamp
        <= (#[trigger] kept[j]).timestamp by {
        let (k, l) = lemma_survivors_are_a_subsequence(queue, buffer, i, j);
        assert(queue[k].timestamp <= queue[l].timestamp);
    }
}

proof fn lemma_push_keeps_order(state: QueueState, buffer: AudioBuffer)
    requires
        state.sorted(),
    ensures
        state.pushed(buffer).sorted(),
{
    let kept = survivors(state.queue, buffer);
    let pos = first_later(kept, buffer.timestamp as int);
    lemma_survivors_stay_ordered(state.queue, buffer);
    lemma_first_later_bounds(kept, buffer.timestamp as int);
    let queue = kept.insert(pos, buffer);
    assert forall|i: int, j: int| 0 <= i <= j < queue.len() implies (#[trigger] queue[i]).timestamp
        <= (#[trigger] queue[j]).timestamp by {
        let a = if i < pos {
            i
        } else {
            i - 1
        };
        let b = if j < pos {
            j
        } else {
            j - 1
        };
        if i != pos {
            assert(queue[i] == kept[a]);
        }
        if j != pos {
            assert(queue[j] == kept[b]);
            if j > pos {
                assert(kept[pos].timestamp <= kept[b].timestamp);
            }
        }
    }
}

} // verus!
