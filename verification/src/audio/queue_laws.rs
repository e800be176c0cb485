//! Laws of the playback queue, stated in server times and sample positions.

use crate::audio::playback_queue::QueueState;
use crate::audio::types::AudioBuffer;
use vstd::prelude::*;

verus! {

// -- Times --

/// Whether `buffer` plays from `time_us` on for at least `length_us`.
pub open spec fn covers(buffer: AudioBuffer, time_us: int, length_us: int) -> bool {
    buffer.timestamp <= time_us && time_us + length_us <= buffer.timestamp + buffer.duration_us
}

/// Whether there is a stretch of `length_us` in which both buffers play.
pub open spec fn share(a: AudioBuffer, b: AudioBuffer, length_us: int) -> bool {
    exists|time_us: int| #[trigger]
        covers(a, time_us, length_us) && covers(b, time_us, length_us)
}

/// Whether `frame_us` is the length of a frame in microseconds, rounded up. A
/// rate of 0 counts as 1.
pub open spec fn is_frame_length(frame_us: int, sample_rate: u32) -> bool {
    let rate = if sample_rate == 0 {
        1
    } else {
        sample_rate as int
    };
    (frame_us - 1) * rate < 1_000_000 <= frame_us * rate
}

/// A buffer is over once its duration has passed since its timestamp.
pub proof fn law_a_buffer_plays_for_its_duration(buffer: AudioBuffer, time_us: int)
    ensures
        buffer.end_us() == buffer.timestamp + buffer.duration_us,
        buffer.plays_at(time_us) <==> covers(buffer, time_us, 1),
{
}

/// Two buffers overlap by the longest stretch in which both play: by `length_us`
/// or more exactly if there is a stretch of that length.
pub proof fn law_overlap_is_shared_time(a: AudioBuffer, b: AudioBuffer, length_us: int)
    ensures
        a.overlap_us(b) >= length_us <==> share(a, b, length_us),
{
    let start = if a.timestamp > b.timestamp {
        a.timestamp as int
    } else {
        b.timestamp as int
    };
    if a.overlap_us(b) >= length_us {
        assert(covers(a, start, length_us) && covers(b, start, length_us));
    }
}

/// The length of a frame is the least number of whole microseconds in which a
/// frame fits.
pub proof fn law_frame_length_is_rounded_up(sample_rate: u32, frame_us: int)
    ensures
        is_frame_length(crate::audio::types::frame_length_us(sample_rate), sample_rate),
        is_frame_length(frame_us, sample_rate) ==> frame_us
            == crate::audio::types::frame_length_us(sample_rate),
{
    let rate = if sample_rate == 0 {
        1
    } else {
        sample_rate as int
    };
    let n = 1_000_000 + rate - 1;
    let q = crate::audio::types::frame_length_us(sample_rate);
    vstd::arithmetic::div_mod::lemma_fundamental_div_mod(n, rate);
    vstd::arithmetic::div_mod::lemma_mod_bound(n, rate);
    assert((q - 1) * rate < 1_000_000 <= q * rate) by (nonlinear_arith)
        requires
            n == rate * q + n % rate,
            0 <= n % rate < rate,
            n == 1_000_000 + rate - 1,
    ;
    if is_frame_length(frame_us, sample_rate) {
        assert(frame_us == q) by (nonlinear_arith)
            requires
                rate > 0,
                (q - 1) * rate < 1_000_000 <= q * rate,
                (frame_us - 1) * rate < 1_000_000 <= frame_us * rate,
        ;
    }
}

// -- Pushing --

/// A push evicts exactly the buffers that play at the same time as the pushed one
/// for a frame or longer. The others keep their order, the pushed one comes
/// behind those that start no later and before those that start later, and the
/// first buffer of a generation places the cursor. Nothing else changes.
pub proof fn law_push_evicts_shared_time(state: QueueState, buffer: AudioBuffer, frame_us: int)
    requires
        state.sorted(),
        is_frame_length(frame_us, buffer.format.sample_rate),
    ensures
        ({
            let after = state.pushed(buffer);
            let kept = state.queue.filter(
                |existing: AudioBuffer| !share(buffer, existing, frame_us),
            );
            &&& exists|pos: int|
                {
                    &&& 0 <= pos <= kept.len()
                    &&& after.queue == #[trigger] kept.insert(pos, buffer)
                    &&& forall|i: int|
                        0 <= i < pos ==> (#[trigger] kept[i]).timestamp <= buffer.timestamp
                    &&& forall|i: int|
                        pos <= i < kept.len() ==> (#[trigger] kept[i]).timestamp > buffer.timestamp
                }
            &&& after.initialized
            &&& !state.initialized ==> after.cursor_us == buffer.timestamp
                && after.cursor_remainder == 0
            &&& state.initialized ==> after.cursor_us == state.cursor_us && after.cursor_remainder
                == state.cursor_remainder
            &&& after.current == state.current && after.index == state.index
            &&& after.generation == state.generation
            &&& after.force_reanchor == state.force_reanchor
            &&& after.enqueue_count == state.enqueue_count
        }),
{
    let kept = crate::audio::playback_queue::survivors(state.queue, buffer);
    law_frame_length_is_rounded_up(buffer.format.sample_rate, frame_us);
    let by_overlap = |existing: AudioBuffer|
        !crate::audio::playback_queue::replaces(buffer, existing);
    let by_time = |existing: AudioBuffer| !share(buffer, existing, frame_us);
    assert forall|existing: AudioBuffer| #[trigger] by_overlap(existing) == by_time(existing) by {
        law_overlap_is_shared_time(buffer, existing, frame_us);
    }
    assert(by_overlap =~= by_time);
    assert(kept == state.queue.filter(by_time));
    let pos = crate::audio::playback_queue::first_later(kept, buffer.timestamp as int);
    crate::audio::playback_queue::lemma_first_later_bounds(kept, buffer.timestamp as int);
    crate::audio::playback_queue::lemma_survivors_stay_ordered(state.queue, buffer);
    assert(state.pushed(buffer).queue == kept.insert(pos, buffer));
    assert forall|i: int| pos <= i < kept.len() implies (#[trigger] kept[i]).timestamp
        > buffer.timestamp by {
        assert(kept[pos].timestamp <= kept[i].timestamp);
    }
}

/// No audio is queued twice: as long as the stream keeps its sample rate, there is
/// never a stretch of a frame's length in which two queued buffers play, whatever
/// their timestamps and durations.
pub proof fn law_no_time_is_queued_twice(state: QueueState, buffer: AudioBuffer, frame_us: int)
    requires
        is_frame_length(frame_us, buffer.format.sample_rate),
        forall|i: int, j: int|
            0 <= i < j < state.queue.len() ==> !share(
                #[trigger] state.queue[i],
                #[trigger] state.queue[j],
                frame_us,
            ),
    ensures
        ({
            let after = state.pushed(buffer).queue;
            forall|i: int, j: int|
                0 <= i < j < after.len() ==> !share(
                    #[trigger] after[i],
                    #[trigger] after[j],
                    frame_us,
                )
        }),
{
    law_frame_length_is_rounded_up(buffer.format.sample_rate, frame_us);
    assert forall|i: int, j: int| 0 <= i < j < state.queue.len() implies (
    #[trigger] state.queue[i]).overlap_us(#[trigger] state.queue[j]) < frame_us by {
        law_overlap_is_shared_time(state.queue[i], state.queue[j], frame_us);
    }
    crate::audio::playback_queue::law_push_leaves_no_duplicate_audio(state, buffer);
    let after = state.pushed(buffer).queue;
    assert forall|i: int, j: int| 0 <= i < j < after.len() implies !share(
        #[trigger] after[i],
        #[trigger] after[j],
        frame_us,
    ) by {
        law_overlap_is_shared_time(after[i], after[j], frame_us);
    }
}

// -- Taking frames --

/// Whether `frames` whole frames lie between the start of `buffer` and the cursor.
/// The distance counts up to `i64::MAX` millionths of a frame.
pub open spec fn frames_into(
    buffer: AudioBuffer,
    cursor_us: int,
    sample_rate: u32,
    frames: int,
) -> bool {
    if buffer.timestamp >= cursor_us {
        frames == 0
    } else if (cursor_us - buffer.timestamp) * sample_rate > i64::MAX {
        frames * 1_000_000 <= i64::MAX < (frames + 1) * 1_000_000
    } else {
        frames * 1_000_000 <= (cursor_us - buffer.timestamp) * sample_rate < (frames + 1)
            * 1_000_000
    }
}

/// Whether no whole frame of `buffer` is left past the cursor.
pub open spec fn used_up(
    buffer: AudioBuffer,
    cursor_us: int,
    channels: int,
    sample_rate: u32,
) -> bool {
    exists|frames: int| #[trigger]
        frames_into(buffer, cursor_us, sample_rate, frames) && (frames + 1) * channels
            > buffer.samples@.len()
}

/// Whether `buffer` was over before the cursor.
pub open spec fn over(buffer: AudioBuffer, cursor_us: int) -> bool {
    buffer.timestamp + buffer.duration_us < cursor_us
}

/// The queue moves on to buffer `taken`, or to none if that is their number: the
/// first `stale` buffers were over before the cursor, those from there up to it
/// have no whole frame left.
pub open spec fn moves_on_to(
    state: QueueState,
    channels: int,
    sample_rate: u32,
    stale: int,
    taken: int,
) -> bool {
    &&& 0 <= stale <= taken <= state.queue.len()
    &&& forall|i: int| 0 <= i < stale ==> over(#[trigger] state.queue[i], state.cursor_us)
    &&& stale < state.queue.len() ==> !over(state.queue[stale], state.cursor_us)
    &&& forall|i: int|
        stale <= i < taken ==> used_up(
            #[trigger] state.queue[i],
            state.cursor_us,
            channels,
            sample_rate,
        )
}

/// The position left behind once all of `queue` was discarded: 0 if there was
/// nothing, else the samples skipped of its last buffer.
pub open spec fn leaves_index(
    queue: Seq<AudioBuffer>,
    cursor_us: int,
    channels: int,
    sample_rate: u32,
    index: int,
) -> bool {
    if queue.len() == 0 {
        index == 0
    } else {
        exists|frames: int|
            {
                &&& #[trigger] frames_into(queue.last(), cursor_us, sample_rate, frames)
                &&& index == if frames * channels < queue.last().samples@.len() {
                    frames * channels
                } else {
                    queue.last().samples@.len() as int
                }
            }
    }
}

/// While the current buffer holds a whole frame, the next frame is the one at the
/// current position, and the position moves behind it.
pub proof fn law_next_frame_continues_the_buffer(
    state: QueueState,
    buffer: AudioBuffer,
    channels: int,
    sample_rate: u32,
)
    requires
        state.current == Some(buffer),
        0 <= state.index,
        0 < channels,
        state.index + channels <= buffer.samples@.len(),
    ensures
        ({
            let after = state.consumed(channels, sample_rate);
            &&& state.upcoming(channels, sample_rate) matches Some(frame) && frame.len() == channels
                && forall|c: int|
                0 <= c < channels ==> #[trigger] frame[c] == buffer.samples@[state.index + c]
            &&& after.current == Some(buffer)
            &&& after.index == state.index + channels
            &&& after.queue == state.queue
        }),
{
}

/// Once the current buffer holds no whole frame, the next frame comes from the
/// first buffer that was not over before the cursor and has a frame left. It is
/// the frame at the cursor: frame `f` of that buffer, at its samples `f * channels`
/// on, where `f` whole frames lie between the buffer's timestamp and the cursor.
/// The buffers before that one are discarded, those behind it stay. Without such
/// a buffer there is no frame and nothing is left.
pub proof fn law_next_frame_enters_at_the_cursor(
    state: QueueState,
    channels: int,
    sample_rate: u32,
)
    requires
        0 < channels,
        state.current matches Some(buffer) ==> state.index + channels > buffer.samples@.len(),
    ensures
        ({
            let after = state.consumed(channels, sample_rate);
            exists|stale: int, taken: int|
                {
                    &&& #[trigger] moves_on_to(state, channels, sample_rate, stale, taken)
                    &&& taken == state.queue.len() ==> {
                        &&& state.upcoming(channels, sample_rate) is None
                        &&& after.current is None
                        &&& after.queue.len() == 0
                        &&& leaves_index(
                            state.queue.skip(stale),
                            state.cursor_us,
                            channels,
                            sample_rate,
                            after.index,
                        )
                    }
                    &&& taken < state.queue.len() ==> {
                        let buffer = state.queue[taken];
                        &&& after.current == Some(buffer)
                        &&& after.queue == state.queue.skip(taken + 1)
                        &&& exists|f: int|
                            {
                                &&& #[trigger] frames_into(
                                    buffer,
                                    state.cursor_us,
                                    sample_rate,
                                    f,
                                )
                                &&& 0 <= f && (f + 1) * channels <= buffer.samples@.len()
                                &&& after.index == (f + 1) * channels
                                &&& state.upcoming(channels, sample_rate) matches Some(frame)
                                    && frame.len() == channels && forall|c: int|
                                    0 <= c < channels ==> #[trigger] frame[c]
                                        == buffer.samples@[f * channels + c]
                            }
                    }
                }
        }),
{
    let fresh = crate::audio::playback_queue::without_stale(state.queue, state.cursor_us);
    let stale = lemma_stale_are_over(state.queue, state.cursor_us);
    let (skipped, f) = lemma_taken_at_the_cursor(fresh, state.cursor_us, channels, sample_rate);
    let taken = stale + skipped;
    assert forall|i: int| stale <= i < taken implies used_up(
        #[trigger] state.queue[i],
        state.cursor_us,
        channels,
        sample_rate,
    ) by {
        assert(state.queue[i] == fresh[i - stale]);
    }
    assert(stale < state.queue.len() ==> fresh[0] == state.queue[stale]);
    assert(moves_on_to(state, channels, sample_rate, stale, taken));
    assert(!state.has_frame(channels));
    if taken < state.queue.len() {
        assert(fresh[skipped] == state.queue[taken]);
        assert(fresh.skip(skipped + 1) =~= state.queue.skip(taken + 1));
        assert(f * channels + channels == (f + 1) * channels) by (nonlinear_arith);
        assert(frames_into(state.queue[taken], state.cursor_us, sample_rate, f));
    }
}

/// The stale buffers at the front of a queue, and what is left without them.
proof fn lemma_stale_are_over(queue: Seq<AudioBuffer>, cursor_us: int) -> (stale: int)
    ensures
        0 <= stale <= queue.len(),
        forall|i: int| 0 <= i < stale ==> over(#[trigger] queue[i], cursor_us),
        stale < queue.len() ==> !over(queue[stale], cursor_us),
        crate::audio::playback_queue::without_stale(queue, cursor_us) == queue.skip(stale),
    decreases queue.len(),
{
    if queue.len() > 0 && over(queue[0], cursor_us) {
        let rest = queue.drop_first();
        let stale = lemma_stale_are_over(rest, cursor_us);
        assert forall|i: int| 0 <= i < stale + 1 implies over(#[trigger] queue[i], cursor_us) by {
            if i > 0 {
                assert(rest[i - 1] == queue[i]);
            }
        }
        assert(rest.skip(stale) =~= queue.skip(stale + 1));
        if stale + 1 < queue.len() {
            assert(rest[stale] == queue[stale + 1]);
        }
        stale + 1
    } else {
        assert(queue.skip(0) =~= queue);
        0
    }
}

/// How many buffers of a queue have no frame left past the cursor, and how many
/// frames of the next one lie behind it.
proof fn lemma_taken_at_the_cursor(
    queue: Seq<AudioBuffer>,
    cursor_us: int,
    channels: int,
    sample_rate: u32,
) -> (r: (int, int))
    requires
        0 < channels,
    ensures
        ({
            let (skipped, f) = r;
            let taken = crate::audio::playback_queue::take_playable(
                queue,
                cursor_us,
                channels,
                sample_rate,
            );
            &&& 0 <= skipped <= queue.len()
            &&& forall|i: int|
                0 <= i < skipped ==> used_up(#[trigger] queue[i], cursor_us, channels, sample_rate)
            &&& skipped == queue.len() ==> {
                &&& taken.current is None
                &&& taken.queue.len() == 0
                &&& leaves_index(queue, cursor_us, channels, sample_rate, taken.index)
            }
            &&& skipped < queue.len() ==> {
                &&& taken.current == Some(queue[skipped])
                &&& taken.queue == queue.skip(skipped + 1)
                &&& frames_into(queue[skipped], cursor_us, sample_rate, f)
                &&& 0 <= f && (f + 1) * channels <= queue[skipped].samples@.len()
                &&& taken.index == f * channels
            }
        }),
    decreases queue.len(),
{
    if queue.len() == 0 {
        return (0, 0);
    }
    let first = queue[0];
    let f = crate::audio::playback_queue::frames_behind(first, cursor_us, sample_rate);
    if first.timestamp < cursor_us {
        assert(0 <= (cursor_us - first.timestamp) * sample_rate) by (nonlinear_arith)
            requires
                first.timestamp < cursor_us,
        ;
    }
    assert(frames_into(first, cursor_us, sample_rate, f));
    assert(0 <= f);
    assert(0 <= f * channels && (f + 1) * channels == f * channels + channels) by (nonlinear_arith)
        requires
            0 <= f,
            0 < channels,
    ;
    let rest = queue.drop_first();
    if (f + 1) * channels <= first.samples@.len() {
        assert(rest =~= queue.skip(1));
        (0, f)
    } else {
        let (skipped, g) = lemma_taken_at_the_cursor(rest, cursor_us, channels, sample_rate);
        if rest.len() > 0 {
            assert(rest.last() == queue.last());
        }
        assert forall|i: int| 0 <= i < skipped + 1 implies used_up(
            #[trigger] queue[i],
            cursor_us,
            channels,
            sample_rate,
        ) by {
            if i > 0 {
                assert(rest[i - 1] == queue[i]);
            }
        }
        if skipped < rest.len() {
            assert(rest[skipped] == queue[skipped + 1]);
            assert(rest.skip(skipped + 1) =~= queue.skip(skipped + 2));
        }
        (skipped + 1, g)
    }
}

/// A frame moves the cursor by its exact length, the fraction of a microsecond
/// carried: `cursor * rate + remainder` grows by 1,000,000. An underrun leaves the
/// cursor alone. Neither touches anything but the buffers and the cursor.
pub proof fn law_next_frame_moves_the_cursor(state: QueueState, channels: int, sample_rate: u32)
    requires
        sample_rate > 0,
    ensures
        ({
            let after = state.consumed(channels, sample_rate);
            let rate = sample_rate as int;
            &&& state.upcoming(channels, sample_rate) is Some ==> {
                &&& after.cursor_us * rate + after.cursor_remainder == state.cursor_us * rate
                    + state.cursor_remainder + 1_000_000
                &&& 0 <= after.cursor_remainder < rate
            }
            &&& state.upcoming(channels, sample_rate) is None ==> {
                &&& after.cursor_us == state.cursor_us
                &&& after.cursor_remainder == state.cursor_remainder
            }
            &&& after.initialized == state.initialized
            &&& after.generation == state.generation
            &&& after.force_reanchor == state.force_reanchor
            &&& after.enqueue_count == state.enqueue_count
        }),
{
    let rate = sample_rate as int;
    let total = state.cursor_remainder + 1_000_000;
    vstd::arithmetic::div_mod::lemma_fundamental_div_mod(total, rate);
    vstd::arithmetic::div_mod::lemma_mod_bound(total, rate);
    let q = total / rate;
    assert((state.cursor_us + q) * rate == state.cursor_us * rate + rate * q) by (nonlinear_arith);
}

/// There is timeline for `frames` more frames exactly if the cursor, moved by their
/// length, is still within 64 bits.
pub proof fn law_timeline_ends_with_the_cursor(state: QueueState, frames: int, sample_rate: u32)
    requires
        sample_rate > 0,
    ensures
        state.can_advance(frames, sample_rate) <==> state.cursor_us * sample_rate
            + state.cursor_remainder + frames * 1_000_000 < 0x8000_0000_0000_0000 * sample_rate,
{
    let rate = sample_rate as int;
    let total = state.cursor_remainder + frames * 1_000_000;
    let q = total / rate;
    let c = state.cursor_us;
    vstd::arithmetic::div_mod::lemma_fundamental_div_mod(total, rate);
    vstd::arithmetic::div_mod::lemma_mod_bound(total, rate);
    assert(c + q <= 0x7fff_ffff_ffff_ffff <==> c * rate + total < 0x8000_0000_0000_0000 * rate)
        by (nonlinear_arith)
        requires
            rate > 0,
            total == rate * q + total % rate,
            0 <= total % rate < rate,
    ;
}

// -- Handing off --

/// The first playable time at or after `server_time_us`, in times. If the current
/// buffer plays beyond that time and beyond the cursor, it is the latest of that
/// time, the cursor and the buffer's start. Else it is in the first queued buffer
/// that is not over by then: that time, or the buffer's start if that is later.
pub proof fn law_first_playable_by_times(state: QueueState, server_time_us: int)
    ensures
        ({
            let found = state.first_playable(server_time_us);
            let in_current = state.current matches Some(buffer) && {
                let end = buffer.timestamp + buffer.duration_us;
                end > server_time_us && end > state.cursor_us && end > buffer.timestamp
            };
            &&& in_current ==> {
                let start = state.current->0.timestamp;
                found matches Some(time) && time >= server_time_us && time >= state.cursor_us
                    && time >= start && (time == server_time_us || time == state.cursor_us || time
                    == start)
            }
            &&& !in_current ==> exists|p: int|
                {
                    &&& 0 <= p <= state.queue.len()
                    &&& #[trigger] over_up_to(state, server_time_us, p)
                    &&& p == state.queue.len() ==> found is None
                    &&& p < state.queue.len() ==> {
                        let buffer = state.queue[p];
                        &&& buffer.timestamp + buffer.duration_us > server_time_us
                        &&& found matches Some(time) && time >= server_time_us && time
                            >= buffer.timestamp && (time == server_time_us || time
                            == buffer.timestamp)
                    }
                }
        }),
{
    let p = lemma_first_not_over(state.queue, server_time_us);
    assert(over_up_to(state, server_time_us, p));
}

/// The first `p` queued buffers are over at `server_time_us`.
pub open spec fn over_up_to(state: QueueState, server_time_us: int, p: int) -> bool {
    forall|i: int|
        0 <= i < p ==> (#[trigger] state.queue[i]).timestamp + state.queue[i].duration_us
            <= server_time_us
}

proof fn lemma_first_not_over(queue: Seq<AudioBuffer>, server_time_us: int) -> (p: int)
    ensures
        0 <= p <= queue.len(),
        forall|i: int|
            0 <= i < p ==> (#[trigger] queue[i]).timestamp + queue[i].duration_us
                <= server_time_us,
        p == queue.len() ==> crate::audio::playback_queue::first_ending_after(
            queue,
            server_time_us,
        ) is None,
        p < queue.len() ==> queue[p].timestamp + queue[p].duration_us > server_time_us
            && crate::audio::playback_queue::first_ending_after(queue, server_time_us) == Some(
            queue[p],
        ),
    decreases queue.len(),
{
    if queue.len() > 0 && queue[0].timestamp + queue[0].duration_us <= server_time_us {
        let rest = queue.drop_first();
        let p = lemma_first_not_over(rest, server_time_us);
        assert forall|i: int| 0 <= i < p + 1 implies (#[trigger] queue[i]).timestamp
            + queue[i].duration_us <= server_time_us by {
            if i > 0 {
                assert(rest[i - 1] == queue[i]);
            }
        }
        p + 1
    } else {
        0
    }
}

/// A handoff puts the cursor on the first playable time and settles the request,
/// if the queue is still the one it was planned for and something is playable.
/// Else it does nothing. It takes no audio.
pub proof fn law_handoff_places_the_cursor(state: QueueState, generation: u64, server_time_us: int)
    ensures
        ({
            let after = state.handed_off(generation, server_time_us);
            let target = state.first_playable(server_time_us);
            let applied = state.generation == generation && state.initialized && target is Some;
            &&& applied ==> {
                &&& after.cursor_us == target->0
                &&& after.cursor_remainder == 0
                &&& !after.force_reanchor
            }
            &&& !applied ==> after == state
            &&& state.handoff_cursor(generation, server_time_us) is Some <==> applied
            &&& applied ==> state.handoff_cursor(generation, server_time_us) == target
            &&& after.queue == state.queue
            &&& after.current == state.current
            &&& after.index == state.index
            &&& after.initialized == state.initialized
            &&& after.generation == state.generation
            &&& after.enqueue_count == state.enqueue_count
        }),
{
}

/// Anchoring moves the cursor, to the exact microsecond, and nothing else.
pub proof fn law_anchoring_moves_the_cursor_only(state: QueueState, server_time_us: int)
    ensures
        ({
            let after = state.anchored(server_time_us);
            &&& after.cursor_us == server_time_us
            &&& after.cursor_remainder == 0
            &&& after.queue == state.queue
            &&& after.current == state.current
            &&& after.index == state.index
            &&& after.initialized == state.initialized
            &&& after.generation == state.generation
            &&& after.force_reanchor == state.force_reanchor
            &&& after.enqueue_count == state.enqueue_count
        }),
{
}

// -- Depth --

/// A queue that nothing was put in holds nothing, and a cleared one is like it but
/// for the generation, which is the next one.
pub proof fn law_a_cleared_queue_is_a_new_one(state: QueueState, channels: int)
    ensures
        ({
            let fresh = QueueState::empty();
            &&& fresh.queue.len() == 0 && fresh.current is None && fresh.index == 0
            &&& fresh.cursor_us == 0 && fresh.cursor_remainder == 0
            &&& !fresh.initialized && fresh.force_reanchor
            &&& fresh.generation == 0 && fresh.enqueue_count == 0
            &&& fresh.frames(channels) == 0 && fresh.buffers() == 0
            &&& state.cleared() == QueueState { generation: state.cleared().generation, ..fresh }
            &&& state.generation < u64::MAX ==> state.cleared().generation == state.generation + 1
            &&& state.generation == u64::MAX ==> state.cleared().generation == 0
        }),
{
}

/// The depth counts whole frames: a buffer at the end of the queue adds as many as
/// fit in its samples, and taking one from the current buffer leaves one less.
pub proof fn law_depth_counts_frames(state: QueueState, buffer: AudioBuffer, channels: int)
    requires
        0 < channels,
    ensures
        ({
            let longer = QueueState { queue: state.queue.push(buffer), ..state };
            let added = longer.frames(channels) - state.frames(channels);
            added * channels <= buffer.samples@.len() < (added + 1) * channels
        }),
        state.current matches Some(current) && 0 <= state.index && state.index + channels
            <= current.samples@.len() ==> ({
            let later = QueueState { index: state.index + channels, ..state };
            later.frames(channels) == state.frames(channels) - 1
        }),
        ({
            let idle = QueueState { current: None, ..state };
            let alone = QueueState { current: Some(buffer), index: 0, ..state };
            let held = alone.frames(channels) - idle.frames(channels);
            held * channels <= buffer.samples@.len() < (held + 1) * channels
        }),
{
    let longer = state.queue.push(buffer);
    assert(longer.drop_last() =~= state.queue);
    let n = buffer.samples@.len() as int;
    let q = n / channels;
    vstd::arithmetic::div_mod::lemma_fundamental_div_mod(n, channels);
    vstd::arithmetic::div_mod::lemma_mod_bound(n, channels);
    assert(q * channels <= n < (q + 1) * channels) by (nonlinear_arith)
        requires
            n == channels * q + n % channels,
            0 <= n % channels < channels,
    ;
    if let Some(current) = state.current {
        let left = current.samples@.len() - state.index;
        vstd::arithmetic::div_mod::lemma_div_minus_one(left, channels);
    }
}

/// The buffers held are the queued ones and the current one.
pub proof fn law_buffers_count_the_current_one(state: QueueState)
    ensures
        state.current is None ==> state.buffers() == state.queue.len(),
        state.current is Some ==> state.buffers() == state.queue.len() + 1,
{
}

} // verus!
