//! Laws of the renderer, across callbacks and output frames.

use crate::audio::playback_queue::QueueState;
use crate::audio::renderer::{
    CallbackContext, ClockStatus, FrameAction, NextStep, RendererState,
};
use crate::audio::sync_correction::CorrectionSchedule;
use vstd::prelude::*;

verus! {

// -- The steps of a callback --

/// A callback is through in four steps at most: a plan leads to a handoff, a
/// handoff to locating the cursor, and that to a re-anchor; nothing comes twice,
/// and each may end in silence or, but for the handoff, in playing.
pub proof fn law_steps_do_not_repeat(
    state: RendererState,
    context: CallbackContext,
    clock: ClockStatus,
    queue: QueueState,
    server_time_us: Option<i64>,
    expected_ns: Option<i64>,
    settled: bool,
)
    ensures
        !(state.sync_planned(context, clock).1 is Reanchor),
        ({
            let step = state.handed_off(context, queue, server_time_us).1;
            step is Silence || step is Locate
        }),
        ({
            let step = state.located(context, expected_ns, settled).1;
            step is Silence || step is Play || step is Reanchor
        }),
{
}

/// One whole callback: its timing, the queue it finds, and what the clock replies
/// to the steps that ask it.
pub struct CallbackInput {
    pub context: CallbackContext,
    pub frames: nat,
    pub queue: QueueState,
    pub clock: ClockStatus,
    /// Server time for a handoff.
    pub handoff_us: Option<i64>,
    /// Local instant of the located cursor.
    pub expected_ns: Option<i64>,
    /// Server time for a re-anchor.
    pub reanchor_us: Option<i64>,
    /// Queue depth after rendering, if it is tracked.
    pub queued_us: Option<u64>,
}

/// What a whole callback leaves behind.
pub struct CallbackOutcome {
    pub renderer: RendererState,
    pub queue: QueueState,
    /// Whether it rendered frames from the queue; a silent one did not.
    pub played: bool,
    /// Its samples, interleaved.
    pub output: Seq<i32>,
}

impl CallbackInput {
    /// The renderer and the queue after all steps from [`RendererState::begun`]
    /// on, and whether they lead to playing.
    pub open spec fn synchronised(self, state: RendererState) -> (RendererState, QueueState, bool) {
        let (planned, first) = state.sync_planned(self.context, self.clock);
        let (handed, queue, second) = if first is Handoff {
            let (handed, step) = planned.handed_off(self.context, self.queue, self.handoff_us);
            let queue = match self.handoff_us {
                Some(time) => self.queue.handed_off(self.context.snapshot.generation, time as int),
                None => self.queue,
            };
            (handed, queue, step)
        } else {
            (planned, self.queue, first)
        };
        let (located, third) = if second is Locate {
            handed.located(self.context, self.expected_ns, self.clock == ClockStatus::Settled)
        } else {
            (handed, second)
        };
        if third is Reanchor {
            let anchored = match self.reanchor_us {
                Some(time) => queue.anchored(time as int),
                None => queue,
            };
            (located.reanchored(), anchored, true)
        } else {
            (located, queue, third is Play)
        }
    }

    /// What the callback leaves behind of `state`.
    pub open spec fn outcome(self, state: RendererState) -> CallbackOutcome {
        let (synced, queue, plays) = self.synchronised(
            state.begun(self.context, self.frames as int),
        );
        if plays {
            let rendered = crate::audio::renderer::rendered(synced, queue, self.frames);
            let stats = rendered.renderer.stats.with_render(rendered.missing as u64);
            CallbackOutcome {
                renderer: RendererState {
                    stats: match self.queued_us {
                        Some(queued_us) => stats.with_depth(queued_us),
                        None => stats,
                    },
                    ..rendered.renderer
                },
                queue: rendered.queue,
                played: true,
                output: rendered.output,
            }
        } else {
            CallbackOutcome {
                renderer: synced,
                queue,
                played: false,
                output: crate::audio::renderer::silent_output(self.frames, synced.channels),
            }
        }
    }
}

/// A renderer after these callbacks, oldest first. Each finds the queue that it
/// names: buffers may come and the queue may be cleared in between.
pub open spec fn after_callbacks(state: RendererState, inputs: Seq<CallbackInput>) -> RendererState
    decreases inputs.len(),
{
    if inputs.len() == 0 {
        state
    } else {
        inputs.last().outcome(after_callbacks(state, inputs.drop_last())).renderer
    }
}

/// A silent callback consumes nothing: whichever way it came to be silent, the
/// queued buffers, the current buffer and the position in it stay as they were,
/// and every sample is silence.
pub proof fn law_silence_consumes_nothing(state: RendererState, input: CallbackInput)
    ensures
        ({
            let outcome = input.outcome(state);
            !outcome.played ==> {
                &&& outcome.queue.queue == input.queue.queue
                &&& outcome.queue.current == input.queue.current
                &&& outcome.queue.index == input.queue.index
                &&& outcome.output == crate::audio::renderer::silent_output(
                    input.frames,
                    state.channels,
                )
            }
        }),
{
}

/// Before playback has started every callback is silent, and so consumes
/// nothing: whoever plays has started.
pub proof fn law_only_started_playback_plays(state: RendererState, input: CallbackInput)
    ensures
        input.outcome(state).played ==> input.outcome(state).renderer.started,
{
    lemma_rendering_keeps_the_schedule(
        input.synchronised(state.begun(input.context, input.frames as int)).0,
        input.synchronised(state.begun(input.context, input.frames as int)).1,
        input.frames,
    );
}

proof fn lemma_rendering_keeps_the_schedule(
    renderer: RendererState,
    queue: QueueState,
    frames: nat,
)
    ensures
        ({
            let after = crate::audio::renderer::rendered(renderer, queue, frames).renderer;
            after.schedule == renderer.schedule && after.started == renderer.started
        }),
    decreases frames,
{
    if frames > 0 {
        lemma_rendering_keeps_the_schedule(renderer, queue, (frames - 1) as nat);
    }
}

/// The schedule of a renderer between callbacks: no re-anchor is pending, it does
/// not insert and drop at once, and before playback has started it is idle.
pub open spec fn settled_schedule(state: RendererState) -> bool {
    &&& !state.schedule.reanchor
    &&& !(state.schedule.insert_every_n_frames > 0 && state.schedule.drop_every_n_frames > 0)
    &&& !state.started ==> state.schedule == CorrectionSchedule::idle()
}

/// Every step keeps the schedule settled, but for locating a cursor that is
/// grossly off: that asks for a re-anchor, which settles it again.
pub proof fn law_steps_keep_the_schedule_settled(
    state: RendererState,
    context: CallbackContext,
    frames: int,
    clock: ClockStatus,
    queue: QueueState,
    server_time_us: Option<i64>,
    expected_ns: Option<i64>,
    settled: bool,
)
    requires
        settled_schedule(state),
    ensures
        settled_schedule(state.begun(context, frames)),
        settled_schedule(state.sync_planned(context, clock).0),
        settled_schedule(state.handed_off(context, queue, server_time_us).0),
        ({
            let (located, step) = state.located(context, expected_ns, settled);
            &&& step is Reanchor ==> settled_schedule(located.reanchored())
            &&& !(step is Reanchor) ==> settled_schedule(located)
        }),
{
}

/// After every callback of every history the schedule is settled: a new renderer
/// has a settled schedule and every callback keeps it so.
pub proof fn law_schedule_is_settled_between_callbacks(
    channels: nat,
    sample_rate: u32,
    inputs: Seq<CallbackInput>,
)
    ensures
        settled_schedule(after_callbacks(RendererState::fresh(channels, sample_rate), inputs)),
    decreases inputs.len(),
{
    if inputs.len() > 0 {
        law_schedule_is_settled_between_callbacks(channels, sample_rate, inputs.drop_last());
        law_callback_keeps_the_schedule_settled(
            after_callbacks(RendererState::fresh(channels, sample_rate), inputs.drop_last()),
            inputs.last(),
        );
    }
}

/// A whole callback keeps the schedule settled.
pub proof fn law_callback_keeps_the_schedule_settled(state: RendererState, input: CallbackInput)
    requires
        settled_schedule(state),
    ensures
        settled_schedule(input.outcome(state).renderer),
{
    let (synced, queue, _) = input.synchronised(
        state.begun(input.context, input.frames as int),
    );
    lemma_rendering_keeps_the_schedule(synced, queue, input.frames);
}

/// A callback that located its cursor against a clock that has not settled
/// leaves no correction running.
pub proof fn law_unsettled_clock_leaves_no_correction(state: RendererState, input: CallbackInput)
    requires
        settled_schedule(state),
        input.clock == ClockStatus::Converging,
        input.context.snapshot.cursor_us is Some,
        !input.context.snapshot.force_reanchor,
        input.expected_ns is Some,
    ensures
        input.outcome(state).renderer.schedule == CorrectionSchedule::idle(),
{
    let (synced, queue, _) = input.synchronised(
        state.begun(input.context, input.frames as int),
    );
    lemma_rendering_keeps_the_schedule(synced, queue, input.frames);
}

// -- When there is sound --

/// Once playback has started, and unless a re-anchor was asked for, no callback
/// is silent: early readings after the start are jitter, and neither a
/// contended nor an unavailable clock interrupts the audio.
pub proof fn law_started_playback_is_never_gated(
    state: RendererState,
    context: CallbackContext,
    clock: ClockStatus,
    expected_ns: Option<i64>,
    settled: bool,
)
    requires
        state.started,
        !context.snapshot.force_reanchor,
    ensures
        ({
            let (planned, step) = state.sync_planned(context, clock);
            &&& planned.started
            &&& step is Play || step is Locate
        }),
        ({
            let (located, step) = state.located(context, expected_ns, settled);
            &&& located.started
            &&& step is Play || step is Reanchor
        }),
{
}

/// Playback starts in one way only: the cursor is due, at most a millisecond
/// from now. Until then every callback is silent, the one that hands the cursor
/// off included.
pub proof fn law_playback_starts_when_the_cursor_is_due(
    state: RendererState,
    context: CallbackContext,
    clock: ClockStatus,
    queue: QueueState,
    server_time_us: Option<i64>,
    expected_ns: Option<i64>,
    settled: bool,
)
    requires
        !state.started,
    ensures
        ({
            let (planned, step) = state.sync_planned(context, clock);
            !planned.started && !(step is Play) && !(step is Reanchor)
        }),
        ({
            let (handed, step) = state.handed_off(context, queue, server_time_us);
            !handed.started && step is Silence
        }),
        ({
            let (located, step) = state.located(context, expected_ns, settled);
            &&& located.started <==> (expected_ns matches Some(expected) && context.playback_ns()
                + 1_000_000 >= expected)
            &&& step is Silence <==> !located.started
        }),
{
}

/// A new queue generation starts over: not started, nothing scheduled, nothing
/// measured, and the latency floor is this callback's.
pub proof fn law_new_generation_starts_over(
    state: RendererState,
    context: CallbackContext,
    frames: int,
)
    requires
        context.snapshot.generation != state.last_generation,
    ensures
        ({
            let begun = state.begun(context, frames);
            &&& !begun.started
            &&& !begun.schedule.correcting()
            &&& begun.filter.recent.len() == 0
            &&& begun.streak == 0
            &&& begun.min_playback_delta_us == context.delta_us()
            &&& begun.last_generation == context.snapshot.generation
            &&& begun.last_frame == crate::audio::renderer::silent_frame(state.channels)
        }),
{
}

/// Anchors use the latency floor of the generation: it is never above this
/// callback's latency, nor above the floor before it.
pub proof fn law_latency_floor_only_falls(
    state: RendererState,
    context: CallbackContext,
    frames: int,
)
    ensures
        ({
            let begun = state.begun(context, frames);
            &&& begun.min_playback_delta_us <= context.delta_us()
            &&& context.snapshot.generation == state.last_generation
                ==> begun.min_playback_delta_us <= state.min_playback_delta_us
            &&& context.callback_ns <= begun.anchor_ns(context) <= context.playback_ns()
        }),
{
}

/// The filter's window covers at most four seconds plus one callback, except that
/// it never holds fewer than 8 measurements: up to callbacks of half a second the
/// lag of the correction loop stays bounded. A steady period keeps the
/// measurements; a change from a known one discards them.
pub proof fn law_filter_window_follows_the_period(
    state: RendererState,
    context: CallbackContext,
    frames: int,
)
    requires
        state.wf(),
        frames >= 0,
    ensures
        ({
            let filter = state.begun(context, frames).filter;
            let period_us = state.period_us(frames);
            &&& filter.period_us == Some(period_us as u64)
            &&& filter.window == crate::audio::sync_correction::window_for_period(period_us)
            &&& 8 <= filter.window <= 101
            &&& filter.window > 8 ==> (filter.window - 1) * period_us < 4_000_000
            &&& state.filter.period_us == Some(period_us as u64) && context.snapshot.generation
                == state.last_generation ==> filter == state.filter
            &&& state.filter.knows_period() && state.filter.period_us != Some(period_us as u64)
                ==> filter.recent.len() == 0
        }),
{
    let rate = if state.sample_rate == 0 {
        1
    } else {
        state.sample_rate as int
    };
    vstd::arithmetic::div_mod::lemma_div_pos_is_pos(frames * 1_000_000, rate);
    crate::audio::sync_correction::law_window_span_is_bounded(state.period_us(frames) as u64);
}

// -- When audio is corrected --

/// Audio is corrected only against a settled clock and a clock that converts:
/// when a located cursor plays, a running correction implies both.
pub proof fn law_corrections_need_a_settled_clock(
    state: RendererState,
    context: CallbackContext,
    expected_ns: Option<i64>,
    settled: bool,
)
    ensures
        ({
            let (located, step) = state.located(context, expected_ns, settled);
            step is Play && located.schedule.correcting() ==> settled && expected_ns is Some
        }),
{
}

/// A correction starts only on sustained evidence: a warm filter and a streak of
/// correcting plans. A re-anchor is not held back.
pub proof fn law_corrections_start_on_evidence(
    state: RendererState,
    context: CallbackContext,
    expected_ns: Option<i64>,
    settled: bool,
)
    requires
        !state.schedule.correcting(),
    ensures
        ({
            let (located, _) = state.located(context, expected_ns, settled);
            located.schedule.correcting() && !located.schedule.reanchor ==> {
                &&& located.filter.warm()
                &&& located.streak >= crate::audio::sync_correction::ENGAGE_STREAK_PLANS
            }
        }),
{
}

/// Whenever the cursor jumps — a handoff that is applied, or a re-anchor — no
/// correction is left running and the filter and the engage gate start afresh.
pub proof fn law_cursor_jumps_discard_measurements(
    state: RendererState,
    context: CallbackContext,
    queue: QueueState,
    server_time_us: i64,
)
    ensures
        queue.handoff_cursor(context.snapshot.generation, server_time_us as int) is Some ==> ({
            let (handed, _) = state.handed_off(context, queue, Some(server_time_us));
            &&& !handed.schedule.correcting()
            &&& handed.filter.recent.len() == 0
            &&& handed.streak == 0
        }),
        !state.reanchored().schedule.correcting(),
        state.reanchored().filter.recent.len() == 0,
        state.reanchored().streak == 0,
{
}

// -- Anchoring --

/// A clock at a constant offset to the local one, asked as the steps say: the
/// static delay is added on the way to server time and taken off on the way back.
pub struct SteadyClock {
    pub offset_us: int,
    pub static_delay_us: int,
}

impl SteadyClock {
    /// Server time, in microseconds, of the audio emitted at a local instant.
    pub open spec fn server_us(self, instant_ns: int) -> int {
        instant_ns / 1_000 + self.static_delay_us + self.offset_us
    }

    /// Local instant at which the audio of a server time is to be emitted.
    pub open spec fn local_ns(self, server_us: int) -> int {
        (server_us - self.offset_us - self.static_delay_us) * 1_000
    }
}

/// A re-anchor removes the whole error, static delay or not: measured in the
/// same callback, the anchored cursor is off by no more than the callback's
/// latency is above its floor, and a microsecond of rounding.
pub proof fn law_reanchor_removes_the_error(
    state: RendererState,
    context: CallbackContext,
    queue: QueueState,
    clock: SteadyClock,
)
    requires
        state.min_playback_delta_us <= context.delta_us(),
    ensures
        ({
            let anchored = queue.anchored(clock.server_us(state.anchor_ns(context)));
            let error = crate::audio::renderer::raw_error(
                context.playback_ns(),
                clock.local_ns(anchored.cursor_us),
            );
            0 <= error <= context.delta_us() - state.min_playback_delta_us + 1
        }),
{
}

/// A startup handoff is on time: if there is audio at the time handed off to,
/// the next callback starts playing, with no more error than its latency is
/// above the floor, and a microsecond of rounding.
pub proof fn law_startup_handoff_is_on_time(
    state: RendererState,
    context: CallbackContext,
    queue: QueueState,
    clock: SteadyClock,
    server_time_us: i64,
    next: CallbackContext,
    frames: int,
    expected_ns: i64,
    settled: bool,
)
    requires
        !state.started,
        state.last_generation == context.snapshot.generation,
        server_time_us == clock.server_us(state.handoff_ns(context)),
        queue.handoff_cursor(context.snapshot.generation, server_time_us as int) == Some(
            server_time_us as int,
        ),
        next.snapshot.generation == context.snapshot.generation,
        next.callback_ns == context.callback_ns + context.period_ns,
        next.delta_us() >= state.min_playback_delta_us,
        expected_ns == clock.local_ns(server_time_us as int),
    ensures
        ({
            let (handed, step) = state.handed_off(context, queue, Some(server_time_us));
            let (started, _) = handed.begun(next, frames).located(next, Some(expected_ns), settled);
            let error = crate::audio::renderer::raw_error(next.playback_ns(), expected_ns as int);
            &&& step is Silence
            &&& started.started
            &&& 0 <= error <= next.delta_us() - state.min_playback_delta_us + 1
        }),
{
}

// -- Counters do not steer --

/// The two renderers differ in their counters at most.
pub open spec fn same_but_for_stats(a: RendererState, b: RendererState) -> bool {
    a == RendererState { stats: a.stats, ..b }
}

/// Playback decisions never read the diagnostic counters: renderers that differ
/// in them only take the same steps and stay that way.
pub proof fn law_stats_do_not_steer(
    a: RendererState,
    b: RendererState,
    context: CallbackContext,
    frames: int,
    clock: ClockStatus,
    queue: QueueState,
    server_time_us: Option<i64>,
    expected_ns: Option<i64>,
    settled: bool,
)
    requires
        same_but_for_stats(a, b),
    ensures
        same_but_for_stats(a.begun(context, frames), b.begun(context, frames)),
        same_but_for_stats(a.sync_planned(context, clock).0, b.sync_planned(context, clock).0),
        a.sync_planned(context, clock).1 == b.sync_planned(context, clock).1,
        same_but_for_stats(
            a.handed_off(context, queue, server_time_us).0,
            b.handed_off(context, queue, server_time_us).0,
        ),
        a.handed_off(context, queue, server_time_us).1 == b.handed_off(
            context,
            queue,
            server_time_us,
        ).1,
        same_but_for_stats(
            a.located(context, expected_ns, settled).0,
            b.located(context, expected_ns, settled).0,
        ),
        a.located(context, expected_ns, settled).1 == b.located(context, expected_ns, settled).1,
        same_but_for_stats(a.reanchored(), b.reanchored()),
        a.frame_action() == b.frame_action(),
        same_but_for_stats(a.counted(), b.counted()),
{
}

// -- Output frames --

/// A callback is filled completely: as many frames as asked for, of as many
/// samples as there are channels.
pub proof fn law_output_is_complete(renderer: RendererState, queue: QueueState, frames: nat)
    requires
        renderer.wf(),
        queue.wf(),
    ensures
        crate::audio::renderer::rendered(renderer, queue, frames).output.len() == frames
            * renderer.channels,
        crate::audio::renderer::rendered(renderer, queue, frames).missing <= frames,
{
    lemma_rendered_keeps_shape(renderer, queue, frames);
}

pub(crate) proof fn lemma_rendered_keeps_shape(renderer: RendererState, queue: QueueState, frames: nat)
    requires
        renderer.wf(),
        queue.wf(),
    ensures
        ({
            let r = crate::audio::renderer::rendered(renderer, queue, frames);
            &&& r.output.len() == frames * renderer.channels
            &&& r.missing <= frames
            &&& r.renderer.channels == renderer.channels
            &&& r.renderer.sample_rate == renderer.sample_rate
            &&& r.renderer.last_frame.len() == renderer.channels
            &&& crate::audio::playback_queue::index_in_range(r.queue)
        }),
    decreases frames,
{
    let channels = renderer.channels as int;
    let rate = renderer.sample_rate;
    if frames == 0 {
        assert(0 * channels == 0) by (nonlinear_arith);
    } else {
        lemma_rendered_keeps_shape(renderer, queue, (frames - 1) as nat);
        let before = crate::audio::renderer::rendered(renderer, queue, (frames - 1) as nat);
        crate::audio::playback_queue::lemma_upcoming_is_a_frame(before.queue, channels, rate);
        crate::audio::playback_queue::lemma_upcoming_is_a_frame(
            before.queue.consumed(channels, rate),
            channels,
            rate,
        );
        assert(frames * channels == (frames - 1) * channels + channels) by (nonlinear_arith);
    }
}

/// The renderer's countdowns after `frames` output frames.
pub open spec fn counted_for(renderer: RendererState, frames: nat) -> RendererState
    decreases frames,
{
    if frames == 0 {
        renderer
    } else {
        counted_for(renderer, (frames - 1) as nat).counted()
    }
}

/// What is done for output frame `frame`, counted from 0.
pub open spec fn action_at(renderer: RendererState, frame: nat) -> FrameAction {
    counted_for(renderer, frame).frame_action()
}

/// How many of the first `frames` output frames take `action`.
pub open spec fn actions(renderer: RendererState, frames: nat, action: FrameAction) -> int
    decreases frames,
{
    if frames == 0 {
        0
    } else {
        let before = (frames - 1) as nat;
        actions(renderer, before, action) + if action_at(renderer, before) == action {
            1int
        } else {
            0
        }
    }
}

/// The correction schedule and countdowns of the two renderers agree.
pub open spec fn same_cadence(a: RendererState, b: RendererState) -> bool {
    &&& a.schedule == b.schedule
    &&& a.insert_counter == b.insert_counter
    &&& a.drop_counter == b.drop_counter
}

pub(crate) proof fn lemma_cadence_ignores_audio(renderer: RendererState, queue: QueueState, frames: nat)
    ensures
        same_cadence(
            crate::audio::renderer::rendered(renderer, queue, frames).renderer,
            counted_for(renderer, frames),
        ),
    decreases frames,
{
    if frames > 0 {
        lemma_cadence_ignores_audio(renderer, queue, (frames - 1) as nat);
    }
}

/// Correction moves the timeline by exactly the frames it drops and repeats:
/// `frames` output frames take one frame each from the queue, one more for
/// every dropped frame and none for a repeated one.
pub proof fn law_correction_moves_the_timeline(
    renderer: RendererState,
    queue: QueueState,
    frames: nat,
)
    ensures
        ({
            let dropped = actions(renderer, frames, FrameAction::DropOne);
            let repeated = actions(renderer, frames, FrameAction::RepeatLast);
            &&& 0 <= repeated <= frames
            &&& 0 <= dropped <= frames
            &&& crate::audio::renderer::rendered(renderer, queue, frames).queue
                == crate::audio::playback_queue::after_frames(
                queue,
                (frames + dropped - repeated) as nat,
                renderer.channels as int,
                renderer.sample_rate,
            )
        }),
    decreases frames,
{
    lemma_rendered_keeps_format(renderer, queue, frames);
    if frames > 0 {
        let n = (frames - 1) as nat;
        law_correction_moves_the_timeline(renderer, queue, n);
        lemma_rendered_keeps_format(renderer, queue, n);
        lemma_cadence_ignores_audio(renderer, queue, n);
        let before = crate::audio::renderer::rendered(renderer, queue, n);
        let taken = (n + actions(renderer, n, FrameAction::DropOne) - actions(
            renderer,
            n,
            FrameAction::RepeatLast,
        )) as nat;
        let channels = renderer.channels as int;
        let rate = renderer.sample_rate;
        assert(before.renderer.frame_action() == action_at(renderer, n));
        assert(crate::audio::playback_queue::after_frames(queue, taken + 1, channels, rate)
            == before.queue.consumed(channels, rate));
        assert(crate::audio::playback_queue::after_frames(queue, taken + 2, channels, rate)
            == before.queue.consumed(channels, rate).consumed(channels, rate));
    }
}

proof fn lemma_rendered_keeps_format(renderer: RendererState, queue: QueueState, frames: nat)
    ensures
        crate::audio::renderer::rendered(renderer, queue, frames).renderer.channels
            == renderer.channels,
        crate::audio::renderer::rendered(renderer, queue, frames).renderer.sample_rate
            == renderer.sample_rate,
    decreases frames,
{
    if frames > 0 {
        lemma_rendered_keeps_format(renderer, queue, (frames - 1) as nat);
    }
}

/// Frames are dropped at the scheduled cadence: with `n` frames between drops
/// and a countdown of `c`, output frame `c - 1` drops one, and every `n`-th
/// frame from there.
pub proof fn law_drop_cadence(renderer: RendererState, frame: nat)
    requires
        renderer.wf(),
        renderer.schedule.drop_every_n_frames > 0,
    ensures
        action_at(renderer, frame) == FrameAction::DropOne <==> (renderer.drop_counter - 1 - frame)
            % (renderer.schedule.drop_every_n_frames as int) == 0,
{
    lemma_drop_countdown(renderer, frame);
}

pub(crate) proof fn lemma_drop_countdown(renderer: RendererState, frames: nat)
    requires
        renderer.wf(),
        renderer.schedule.drop_every_n_frames > 0,
    ensures
        ({
            let state = counted_for(renderer, frames);
            &&& state.schedule == renderer.schedule
            &&& state.drop_counter == 1 + (renderer.drop_counter - 1 - frames) % (
            renderer.schedule.drop_every_n_frames as int)
        }),
    decreases frames,
{
    let n = renderer.schedule.drop_every_n_frames as int;
    if frames == 0 {
        vstd::arithmetic::div_mod::lemma_small_mod(
            (renderer.drop_counter - 1) as nat,
            n as nat,
        );
    } else {
        lemma_drop_countdown(renderer, (frames - 1) as nat);
        lemma_countdown_step(renderer.drop_counter - frames, n);
    }
}

/// Frames are repeated at the scheduled cadence, in the same way.
pub proof fn law_insert_cadence(renderer: RendererState, frame: nat)
    requires
        renderer.wf(),
        renderer.schedule.insert_every_n_frames > 0,
        renderer.schedule.drop_every_n_frames == 0,
    ensures
        action_at(renderer, frame) == FrameAction::RepeatLast <==> (renderer.insert_counter - 1
            - frame) % (renderer.schedule.insert_every_n_frames as int) == 0,
{
    lemma_insert_countdown(renderer, frame);
}

pub(crate) proof fn lemma_insert_countdown(renderer: RendererState, frames: nat)
    requires
        renderer.wf(),
        renderer.schedule.insert_every_n_frames > 0,
        renderer.schedule.drop_every_n_frames == 0,
    ensures
        ({
            let state = counted_for(renderer, frames);
            &&& state.schedule == renderer.schedule
            &&& state.insert_counter == 1 + (renderer.insert_counter - 1 - frames) % (
            renderer.schedule.insert_every_n_frames as int)
        }),
    decreases frames,
{
    let n = renderer.schedule.insert_every_n_frames as int;
    if frames == 0 {
        vstd::arithmetic::div_mod::lemma_small_mod(
            (renderer.insert_counter - 1) as nat,
            n as nat,
        );
    } else {
        lemma_insert_countdown(renderer, (frames - 1) as nat);
        lemma_countdown_step(renderer.insert_counter - frames, n);
    }
}

/// One step of a countdown that wraps around.
proof fn lemma_countdown_step(x: int, n: int)
    requires
        n > 0,
    ensures
        (x - 1) % n == (if x % n == 0 {
            n - 1
        } else {
            x % n - 1
        }),
{
    let q = x / n;
    let m = x % n;
    vstd::arithmetic::div_mod::lemma_fundamental_div_mod(x, n);
    vstd::arithmetic::div_mod::lemma_mod_bound(x, n);
    if m == 0 {
        assert(x - 1 == (q - 1) * n + (n - 1)) by (nonlinear_arith)
            requires
                x == n * q,
        ;
        vstd::arithmetic::div_mod::lemma_fundamental_div_mod_converse(x - 1, n, q - 1, n - 1);
    } else {
        assert(x - 1 == q * n + (m - 1)) by (nonlinear_arith)
            requires
                x == n * q + m,
        ;
        vstd::arithmetic::div_mod::lemma_fundamental_div_mod_converse(x - 1, n, q, m - 1);
    }
}

/// An idle schedule plays every frame once.
pub proof fn law_idle_schedule_plays_every_frame(renderer: RendererState, frame: nat)
    requires
        !renderer.schedule.correcting(),
    ensures
        action_at(renderer, frame) == FrameAction::PlayNext,
{
    lemma_idle_stays_idle(renderer, frame);
}

pub(crate) proof fn lemma_idle_stays_idle(renderer: RendererState, frames: nat)
    ensures
        counted_for(renderer, frames).schedule == renderer.schedule,
    decreases frames,
{
    if frames > 0 {
        lemma_idle_stays_idle(renderer, (frames - 1) as nat);
    }
}

} // verus!
