//! Laws of the rendered frames: which audio every output frame carries.

use crate::audio::playback_queue::QueueState;
use crate::audio::renderer::{FrameAction, RendererState};
use crate::audio::types::AudioBuffer;
use vstd::prelude::*;

verus! {

/// Whether output frame `n` of a callback drops a frame: the countdown reaches
/// its end there, or whole cadences later.
pub open spec fn drops_at(renderer: RendererState, n: int) -> bool {
    renderer.schedule.drop_every_n_frames > 0 && (renderer.drop_counter - 1 - n) % (
    renderer.schedule.drop_every_n_frames as int) == 0
}

/// Whether output frame `n` of a callback repeats a frame, in the same way.
pub open spec fn repeats_at(renderer: RendererState, n: int) -> bool {
    renderer.schedule.insert_every_n_frames > 0 && (renderer.insert_counter - 1 - n) % (
    renderer.schedule.insert_every_n_frames as int) == 0
}

/// Frames taken from the queue for the first `n` output frames: one for each, none
/// for a repeated one, two where one is dropped.
pub open spec fn taken_before(renderer: RendererState, n: nat) -> nat
    decreases n,
{
    if n == 0 {
        0
    } else {
        let m = (n - 1) as nat;
        taken_before(renderer, m) + if repeats_at(renderer, m as int) {
            0nat
        } else if drops_at(renderer, m as int) {
            2nat
        } else {
            1nat
        }
    }
}

/// The audio of output frame `n`, if the queue has any for it. A repeated frame
/// takes none; a dropped one makes way for the next.
pub open spec fn audio_at(renderer: RendererState, queue: QueueState, n: nat) -> Option<Seq<i32>> {
    let taken = taken_before(renderer, n);
    let channels = renderer.channels as int;
    let rate = renderer.sample_rate;
    if repeats_at(renderer, n as int) {
        None
    } else if drops_at(renderer, n as int) {
        crate::audio::playback_queue::after_frames(queue, taken + 1, channels, rate).upcoming(
            channels,
            rate,
        )
    } else {
        crate::audio::playback_queue::after_frames(queue, taken, channels, rate).upcoming(
            channels,
            rate,
        )
    }
}

/// The audio played last before output frame `n`; before all, the frame held from
/// earlier callbacks.
pub open spec fn held_before(renderer: RendererState, queue: QueueState, n: nat) -> Seq<i32>
    decreases n,
{
    if n == 0 {
        renderer.last_frame
    } else {
        match audio_at(renderer, queue, (n - 1) as nat) {
            Some(frame) => frame,
            None => held_before(renderer, queue, (n - 1) as nat),
        }
    }
}

/// Whether output frame `n` is silence because the queue ran dry.
pub open spec fn underruns_at(renderer: RendererState, queue: QueueState, n: nat) -> bool {
    !repeats_at(renderer, n as int) && !drops_at(renderer, n as int) && audio_at(
        renderer,
        queue,
        n,
    ) is None
}

/// How many of the first `n` output frames are silence because the queue ran dry.
pub open spec fn underruns_before(renderer: RendererState, queue: QueueState, n: nat) -> nat
    decreases n,
{
    if n == 0 {
        0
    } else {
        let m = (n - 1) as nat;
        underruns_before(renderer, queue, m) + if underruns_at(renderer, queue, m) {
            1nat
        } else {
            0nat
        }
    }
}

/// Sample `c` of output frame `n`.
pub open spec fn sample_at(output: Seq<i32>, channels: nat, n: nat, c: int) -> i32 {
    output[n * channels + c]
}

/// The renderer is well-formed and does not insert and drop at once, as holds
/// between callbacks.
pub open spec fn one_cadence(renderer: RendererState) -> bool {
    &&& renderer.wf()
    &&& renderer.schedule.insert_every_n_frames == 0 || renderer.schedule.drop_every_n_frames == 0
}

/// Every output frame carries the audio that is its turn, all channels of it. A
/// repeated frame, and one whose successor to a dropped frame is missing, carries
/// the audio played last. Any other frame without audio is silence.
pub proof fn law_output_frames_carry_the_audio(
    renderer: RendererState,
    queue: QueueState,
    frames: nat,
    n: nat,
)
    requires
        one_cadence(renderer),
        queue.wf(),
        n < frames,
    ensures
        ({
            let output = crate::audio::renderer::rendered(renderer, queue, frames).output;
            forall|c: int|
                0 <= c < renderer.channels ==> #[trigger] sample_at(
                    output,
                    renderer.channels,
                    n,
                    c,
                ) == match audio_at(renderer, queue, n) {
                    Some(frame) => frame[c],
                    None => if underruns_at(renderer, queue, n) {
                        0
                    } else {
                        held_before(renderer, queue, n)[c]
                    },
                }
        }),
{
    let channels = renderer.channels;
    lemma_timeline(renderer, queue, n);
    lemma_timeline(renderer, queue, n + 1);
    lemma_output_stays(renderer, queue, n + 1, frames);
    lemma_action(renderer, queue, n);
    crate::audio::renderer_laws::lemma_rendered_keeps_shape(renderer, queue, n);
    crate::audio::renderer_laws::lemma_rendered_keeps_shape(renderer, queue, n + 1);
    crate::audio::renderer_laws::lemma_rendered_keeps_shape(renderer, queue, frames);
    let before = crate::audio::renderer::rendered(renderer, queue, n);
    let after = crate::audio::renderer::rendered(renderer, queue, n + 1);
    let all = crate::audio::renderer::rendered(renderer, queue, frames);
    let rate = renderer.sample_rate;
    crate::audio::playback_queue::lemma_upcoming_is_a_frame(before.queue, channels as int, rate);
    crate::audio::playback_queue::lemma_upcoming_is_a_frame(
        before.queue.consumed(channels as int, rate),
        channels as int,
        rate,
    );
    assert(crate::audio::playback_queue::after_frames(
        queue,
        taken_before(renderer, n) + 1,
        channels as int,
        rate,
    ) == before.queue.consumed(channels as int, rate));
    assert((n + 1) * channels == n * channels + channels) by (nonlinear_arith);
    assert forall|c: int| 0 <= c < channels implies #[trigger] sample_at(
        all.output,
        channels,
        n,
        c,
    ) == match audio_at(renderer, queue, n) {
        Some(frame) => frame[c],
        None => if underruns_at(renderer, queue, n) {
            0
        } else {
            held_before(renderer, queue, n)[c]
        },
    } by {
        let i = n * channels + c;
        assert(0 <= n * channels) by (nonlinear_arith);
        assert(all.output[i] == all.output.take(((n + 1) * channels) as int)[i]);
        assert(after.output[i] == all.output[i]);
    }
}

/// A repeated frame is the frame before it again, channel by channel; the first
/// frame of a callback repeats the frame held from earlier ones. (After an
/// underrun it is the audio played last, not the silence.)
pub proof fn law_a_repeat_repeats_every_channel(
    renderer: RendererState,
    queue: QueueState,
    frames: nat,
    n: nat,
)
    requires
        one_cadence(renderer),
        queue.wf(),
        n < frames,
        repeats_at(renderer, n as int),
        n > 0 ==> !underruns_at(renderer, queue, (n - 1) as nat),
    ensures
        ({
            let output = crate::audio::renderer::rendered(renderer, queue, frames).output;
            forall|c: int|
                0 <= c < renderer.channels ==> #[trigger] sample_at(
                    output,
                    renderer.channels,
                    n,
                    c,
                ) == if n == 0 {
                    renderer.last_frame[c]
                } else {
                    sample_at(output, renderer.channels, (n - 1) as nat, c)
                }
        }),
{
    law_output_frames_carry_the_audio(renderer, queue, frames, n);
    if n > 0 {
        law_output_frames_carry_the_audio(renderer, queue, frames, (n - 1) as nat);
    }
}

/// Audio is not made up: an output frame with audio is one frame of a buffer that
/// was held when the callback began, its samples in their order.
pub proof fn law_output_comes_from_held_buffers(
    renderer: RendererState,
    queue: QueueState,
    frames: nat,
    n: nat,
)
    requires
        one_cadence(renderer),
        queue.wf(),
        n < frames,
        audio_at(renderer, queue, n) is Some,
    ensures
        ({
            let output = crate::audio::renderer::rendered(renderer, queue, frames).output;
            exists|buffer: AudioBuffer, at: int|
                {
                    &&& holds(queue, buffer)
                    &&& 0 <= at && at + renderer.channels <= buffer.samples@.len()
                    &&& #[trigger] is_frame_of(output, renderer.channels, n, buffer, at)
                }
        }),
{
    law_output_frames_carry_the_audio(renderer, queue, frames, n);
    let channels = renderer.channels as int;
    let rate = renderer.sample_rate;
    let k = taken_before(renderer, n) + if drops_at(renderer, n as int) {
        1nat
    } else {
        0nat
    };
    lemma_buffers_are_held(queue, k, channels, rate);
    let (buffer, at) = lemma_frame_is_of_a_buffer(
        crate::audio::playback_queue::after_frames(queue, k, channels, rate),
        channels,
        rate,
    );
    let output = crate::audio::renderer::rendered(renderer, queue, frames).output;
    assert(is_frame_of(output, renderer.channels, n, buffer, at));
}

/// Whether the queue holds `buffer`, queued or current.
pub open spec fn holds(queue: QueueState, buffer: AudioBuffer) -> bool {
    queue.current == Some(buffer) || queue.queue.contains(buffer)
}

/// Whether output frame `n` is the frame of `buffer` at sample `at`.
pub open spec fn is_frame_of(
    output: Seq<i32>,
    channels: nat,
    n: nat,
    buffer: AudioBuffer,
    at: int,
) -> bool {
    forall|c: int|
        0 <= c < channels ==> #[trigger] sample_at(output, channels, n, c) == buffer.samples@[at
            + c]
}

/// What rendering leaves behind: the queue less the frames taken, the audio played
/// last, the countdowns where the cadence goes on, and the number of missing
/// frames. It changes nothing else of the renderer.
pub proof fn law_rendering_leaves_the_rest(renderer: RendererState, queue: QueueState, frames: nat)
    requires
        one_cadence(renderer),
        queue.wf(),
    ensures
        ({
            let r = crate::audio::renderer::rendered(renderer, queue, frames);
            let drop = renderer.schedule.drop_every_n_frames as int;
            let insert = renderer.schedule.insert_every_n_frames as int;
            &&& r.queue == crate::audio::playback_queue::after_frames(
                queue,
                taken_before(renderer, frames),
                renderer.channels as int,
                renderer.sample_rate,
            )
            &&& r.output.len() == frames * renderer.channels
            &&& r.missing == underruns_before(renderer, queue, frames)
            &&& r.renderer.last_frame == held_before(renderer, queue, frames)
            &&& drop > 0 ==> r.renderer.drop_counter == 1 + (renderer.drop_counter - 1 - frames)
                % drop
            &&& drop == 0 ==> r.renderer.drop_counter == renderer.drop_counter
            &&& insert > 0 ==> r.renderer.insert_counter == 1 + (renderer.insert_counter - 1
                - frames) % insert
            &&& insert == 0 ==> r.renderer.insert_counter == renderer.insert_counter
            &&& r.renderer == RendererState {
                last_frame: r.renderer.last_frame,
                drop_counter: r.renderer.drop_counter,
                insert_counter: r.renderer.insert_counter,
                ..renderer
            }
        }),
    decreases frames,
{
    lemma_timeline(renderer, queue, frames);
    crate::audio::renderer_laws::lemma_rendered_keeps_shape(renderer, queue, frames);
    lemma_rest_is_kept(renderer, queue, frames);
    lemma_cadence(renderer, queue, frames);
}

/// Cutting a callback in two changes nothing: rendering some frames and then some
/// more is rendering them all.
pub proof fn law_rendering_goes_on(
    renderer: RendererState,
    queue: QueueState,
    first: nat,
    second: nat,
)
    ensures
        ({
            let all = crate::audio::renderer::rendered(renderer, queue, first + second);
            let some = crate::audio::renderer::rendered(renderer, queue, first);
            let more = crate::audio::renderer::rendered(some.renderer, some.queue, second);
            &&& all.renderer == more.renderer
            &&& all.queue == more.queue
            &&& all.output == some.output + more.output
            &&& all.missing == some.missing + more.missing
        }),
    decreases second,
{
    if second > 0 {
        let m = (second - 1) as nat;
        law_rendering_goes_on(renderer, queue, first, m);
        let some = crate::audio::renderer::rendered(renderer, queue, first);
        let all = crate::audio::renderer::rendered(renderer, queue, first + m);
        let more = crate::audio::renderer::rendered(some.renderer, some.queue, m);
        assert(crate::audio::renderer::rendered(renderer, queue, first + second)
            == all.with_next_frame());
        assert(all.with_next_frame().output =~= some.output + more.with_next_frame().output);
    } else {
        let some = crate::audio::renderer::rendered(renderer, queue, first);
        assert(some.output + Seq::<i32>::empty() =~= some.output);
    }
}

/// A silent callback is silence in every sample of every frame.
pub proof fn law_silence_is_zero(frames: nat, channels: nat)
    ensures
        ({
            let output = crate::audio::renderer::silent_output(frames, channels);
            &&& output.len() == frames * channels
            &&& forall|i: int| 0 <= i < output.len() ==> #[trigger] output[i] == 0
        }),
{
}

// -- Lemmas --

proof fn lemma_rest_is_kept(renderer: RendererState, queue: QueueState, frames: nat)
    ensures
        ({
            let r = crate::audio::renderer::rendered(renderer, queue, frames).renderer;
            r == RendererState {
                last_frame: r.last_frame,
                drop_counter: r.drop_counter,
                insert_counter: r.insert_counter,
                ..renderer
            }
        }),
    decreases frames,
{
    if frames > 0 {
        lemma_rest_is_kept(renderer, queue, (frames - 1) as nat);
    }
}

/// The countdowns after `frames` output frames.
proof fn lemma_cadence(renderer: RendererState, queue: QueueState, frames: nat)
    requires
        one_cadence(renderer),
    ensures
        ({
            let r = crate::audio::renderer::rendered(renderer, queue, frames).renderer;
            let drop = renderer.schedule.drop_every_n_frames as int;
            let insert = renderer.schedule.insert_every_n_frames as int;
            &&& r.schedule == renderer.schedule
            &&& drop > 0 ==> r.drop_counter == 1 + (renderer.drop_counter - 1 - frames) % drop
            &&& drop == 0 ==> r.drop_counter == renderer.drop_counter
            &&& insert > 0 ==> r.insert_counter == 1 + (renderer.insert_counter - 1 - frames)
                % insert
            &&& insert == 0 ==> r.insert_counter == renderer.insert_counter
        }),
    decreases frames,
{
    crate::audio::renderer_laws::lemma_cadence_ignores_audio(renderer, queue, frames);
    if renderer.schedule.drop_every_n_frames > 0 {
        crate::audio::renderer_laws::lemma_drop_countdown(renderer, frames);
    } else if renderer.schedule.insert_every_n_frames > 0 {
        crate::audio::renderer_laws::lemma_insert_countdown(renderer, frames);
    }
    lemma_rest_is_kept(renderer, queue, frames);
    if frames > 0 {
        lemma_cadence(renderer, queue, (frames - 1) as nat);
    }
}

/// What is done for output frame `n`.
proof fn lemma_action(renderer: RendererState, queue: QueueState, n: nat)
    requires
        one_cadence(renderer),
    ensures
        ({
            let action = crate::audio::renderer::rendered(
                renderer,
                queue,
                n,
            ).renderer.frame_action();
            &&& action == FrameAction::DropOne <==> drops_at(renderer, n as int)
            &&& action == FrameAction::RepeatLast <==> repeats_at(renderer, n as int)
        }),
{
    lemma_cadence(renderer, queue, n);
}

proof fn lemma_timeline(renderer: RendererState, queue: QueueState, n: nat)
    requires
        one_cadence(renderer),
    ensures
        ({
            let r = crate::audio::renderer::rendered(renderer, queue, n);
            &&& r.queue == crate::audio::playback_queue::after_frames(
                queue,
                taken_before(renderer, n),
                renderer.channels as int,
                renderer.sample_rate,
            )
            &&& r.renderer.last_frame == held_before(renderer, queue, n)
            &&& r.missing == underruns_before(renderer, queue, n)
            &&& r.renderer.channels == renderer.channels
            &&& r.renderer.sample_rate == renderer.sample_rate
        }),
    decreases n,
{
    lemma_rest_is_kept(renderer, queue, n);
    if n > 0 {
        let m = (n - 1) as nat;
        lemma_timeline(renderer, queue, m);
        lemma_rest_is_kept(renderer, queue, m);
        lemma_action(renderer, queue, m);
        let before = crate::audio::renderer::rendered(renderer, queue, m);
        let channels = renderer.channels as int;
        let rate = renderer.sample_rate;
        let taken = taken_before(renderer, m);
        assert(crate::audio::playback_queue::after_frames(queue, taken + 1, channels, rate)
            == before.queue.consumed(channels, rate));
        assert(crate::audio::playback_queue::after_frames(queue, taken + 2, channels, rate)
            == before.queue.consumed(channels, rate).consumed(channels, rate));
    }
}

/// Later frames leave the output so far alone.
proof fn lemma_output_stays(renderer: RendererState, queue: QueueState, n: nat, frames: nat)
    requires
        renderer.wf(),
        queue.wf(),
        n <= frames,
    ensures
        crate::audio::renderer::rendered(renderer, queue, frames).output.take(
            (n * renderer.channels) as int,
        ) == crate::audio::renderer::rendered(renderer, queue, n).output,
        n * renderer.channels <= frames * renderer.channels,
    decreases frames,
{
    crate::audio::renderer_laws::lemma_rendered_keeps_shape(renderer, queue, n);
    crate::audio::renderer_laws::lemma_rendered_keeps_shape(renderer, queue, frames);
    let all = crate::audio::renderer::rendered(renderer, queue, frames).output;
    assert(n * renderer.channels <= frames * renderer.channels) by (nonlinear_arith)
        requires
            n <= frames,
    ;
    if n < frames {
        let m = (frames - 1) as nat;
        lemma_output_stays(renderer, queue, n, m);
        crate::audio::renderer_laws::lemma_rendered_keeps_shape(renderer, queue, m);
        let before = crate::audio::renderer::rendered(renderer, queue, m).output;
        assert(all.take(before.len() as int) =~= before);
        assert(all.take((n * renderer.channels) as int) =~= before.take(
            (n * renderer.channels) as int,
        ));
    } else {
        assert(all.take(all.len() as int) =~= all);
    }
}

/// Whatever was taken, the buffers left are buffers that were held.
proof fn lemma_buffers_are_held(queue: QueueState, n: nat, channels: int, sample_rate: u32)
    requires
        queue.wf(),
        channels > 0,
    ensures
        ({
            let left = crate::audio::playback_queue::after_frames(queue, n, channels, sample_rate);
            &&& forall|buffer: AudioBuffer| #[trigger] holds(left, buffer) ==> holds(queue, buffer)
            &&& crate::audio::playback_queue::index_in_range(left)
        }),
    decreases n,
{
    if n > 0 {
        lemma_buffers_are_held(queue, (n - 1) as nat, channels, sample_rate);
        let before = crate::audio::playback_queue::after_frames(
            queue,
            (n - 1) as nat,
            channels,
            sample_rate,
        );
        let after = before.consumed(channels, sample_rate);
        crate::audio::playback_queue::lemma_upcoming_is_a_frame(before, channels, sample_rate);
        lemma_fresh_are_held(before.queue, before.cursor_us);
        lemma_taken_are_held(
            crate::audio::playback_queue::without_stale(before.queue, before.cursor_us),
            before.cursor_us,
            channels,
            sample_rate,
        );
        assert forall|buffer: AudioBuffer| #[trigger] holds(after, buffer) implies holds(
            queue,
            buffer,
        ) by {
            assert(holds(before, buffer));
        }
    }
}

proof fn lemma_fresh_are_held(queue: Seq<AudioBuffer>, cursor_us: int)
    ensures
        forall|buffer: AudioBuffer| #[trigger]
            crate::audio::playback_queue::without_stale(queue, cursor_us).contains(buffer)
                ==> queue.contains(buffer),
    decreases queue.len(),
{
    let fresh = crate::audio::playback_queue::without_stale(queue, cursor_us);
    if queue.len() > 0 && queue[0].end_us() < cursor_us {
        let rest = queue.drop_first();
        lemma_fresh_are_held(rest, cursor_us);
        let fresh_rest = crate::audio::playback_queue::without_stale(rest, cursor_us);
        assert(fresh == fresh_rest);
        assert forall|buffer: AudioBuffer| #[trigger] fresh.contains(buffer) implies queue.contains(
            buffer,
        ) by {
            assert(fresh_rest.contains(buffer));
            let i = rest.index_of(buffer);
            assert(queue[i + 1] == buffer);
        }
    }
}

proof fn lemma_taken_are_held(
    queue: Seq<AudioBuffer>,
    cursor_us: int,
    channels: int,
    sample_rate: u32,
)
    ensures
        ({
            let taken = crate::audio::playback_queue::take_playable(
                queue,
                cursor_us,
                channels,
                sample_rate,
            );
            &&& taken.current matches Some(buffer) ==> queue.contains(buffer)
            &&& forall|buffer: AudioBuffer| #[trigger]
                taken.queue.contains(buffer) ==> queue.contains(buffer)
        }),
    decreases queue.len(),
{
    if queue.len() > 0 {
        let rest = queue.drop_first();
        lemma_taken_are_held(rest, cursor_us, channels, sample_rate);
        assert(queue.contains(queue[0]));
        assert forall|buffer: AudioBuffer| #[trigger] rest.contains(buffer) implies queue.contains(
            buffer,
        ) by {
            let i = rest.index_of(buffer);
            assert(queue[i + 1] == buffer);
        }
    }
}

/// The next frame of a queue, as samples of one of its buffers.
proof fn lemma_frame_is_of_a_buffer(queue: QueueState, channels: int, sample_rate: u32) -> (r: (
    AudioBuffer,
    int,
))
    requires
        crate::audio::playback_queue::index_in_range(queue),
        channels > 0,
        queue.upcoming(channels, sample_rate) is Some,
    ensures
        holds(queue, r.0),
        0 <= r.1,
        r.1 + channels <= r.0.samples@.len(),
        queue.upcoming(channels, sample_rate) == Some(
            r.0.samples@.subrange(r.1, r.1 + channels),
        ),
{
    let refilled = queue.refilled(channels, sample_rate);
    if !queue.has_frame(channels) {
        let fresh = crate::audio::playback_queue::without_stale(queue.queue, queue.cursor_us);
        lemma_fresh_are_held(queue.queue, queue.cursor_us);
        lemma_taken_are_held(fresh, queue.cursor_us, channels, sample_rate);
        crate::audio::playback_queue::lemma_taken_is_playable(
            fresh,
            queue.cursor_us,
            channels,
            sample_rate,
        );
    }
    (refilled.current->0, refilled.index)
}

} // verus!
