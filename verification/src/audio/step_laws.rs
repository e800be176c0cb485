//! Laws of the single steps of a callback, in instants and counts.

use crate::audio::callback_stats::{CallbackStats, QueueEdge};
use crate::audio::playback_queue::QueueState;
use crate::audio::renderer::{CallbackContext, ClockStatus, NextStep, RendererState};
use vstd::prelude::*;

verus! {

/// Whether `s` is a frame of silence: a zero for every channel.
pub open spec fn all_zero(s: Seq<i32>, channels: nat) -> bool {
    s.len() == channels && forall|i: int| 0 <= i < s.len() ==> #[trigger] s[i] == 0
}

/// Whether no correction runs, no countdown is left, and nothing was measured.
pub open spec fn uncorrecting(state: RendererState) -> bool {
    &&& crate::audio::correction_laws::leaves_alone(state.schedule)
    &&& state.insert_counter == 0 && state.drop_counter == 0
    &&& state.filter.recent.len() == 0 && state.streak == 0
}

/// A new renderer has not started, corrects nothing, has measured and counted
/// nothing, and holds a frame of silence.
pub proof fn law_a_new_renderer_is_idle(channels: nat, sample_rate: u32)
    ensures
        ({
            let fresh = RendererState::fresh(channels, sample_rate);
            &&& fresh.channels == channels && fresh.sample_rate == sample_rate
            &&& !fresh.started && !fresh.handoff_warned && !fresh.sync_settle_logged
            &&& uncorrecting(fresh)
            &&& fresh.filter.window == 101 && fresh.filter.period_us is None
            &&& all_zero(fresh.last_frame, channels)
            &&& fresh.last_callback_ns is None && fresh.last_playback_delta_us is None
            &&& fresh.min_playback_delta_us == u64::MAX
            &&& fresh.last_generation == 0
            &&& fresh.stats.callbacks == 0 && counts_nothing(fresh.stats)
        }),
{
}

/// Whether all counters of the generation are at zero.
pub open spec fn counts_nothing(stats: CallbackStats) -> bool {
    &&& stats.silent_callbacks == 0
    &&& stats.sync_lock_misses == 0
    &&& stats.underrun_frames == 0
    &&& stats.underrun_callbacks == 0
    &&& stats.consecutive_underrun_callbacks == 0
    &&& stats.correction_updates == 0
    &&& stats.warmup_suppressed_corrections == 0
    &&& stats.gate_suppressed_corrections == 0
    &&& stats.correction_engagements == 0
    &&& !stats.queue_low
}

// -- The beginning --

/// A callback is on the clock exactly if the end of its frames, played when they
/// will be, is no later than the clock's last instant.
pub proof fn law_the_clock_ends(context: CallbackContext)
    ensures
        context.wf() <==> context.callback_ns + context.playback_delta_ns + context.period_ns
            <= 0x7fff_ffff_ffff_ffff,
        context.playback_ns() - context.callback_ns == context.playback_delta_ns,
{
}

/// Whether `period_us` is the playing time of `frames` frames in whole
/// microseconds, rounded down. A rate of 0 counts as 1.
pub open spec fn is_period_us(period_us: int, frames: int, sample_rate: u32) -> bool {
    let rate = if sample_rate == 0 {
        1
    } else {
        sample_rate as int
    };
    period_us * rate <= frames * 1_000_000 < (period_us + 1) * rate
}

/// The beginning of a callback in the same generation counts it, notes its timing,
/// lowers the latency floor if its latency is lower, and sets the filter's
/// period. It changes nothing else.
pub proof fn law_a_callback_notes_its_timing(
    state: RendererState,
    context: CallbackContext,
    frames: int,
)
    requires
        context.snapshot.generation == state.last_generation,
        state.stats.callbacks < u64::MAX,
    ensures
        ({
            let begun = state.begun(context, frames);
            let delta_us = begun.last_playback_delta_us->0;
            &&& begun.last_callback_ns == Some(context.callback_ns)
            &&& begun.last_playback_delta_us is Some
            &&& 1_000 * delta_us <= context.playback_delta_ns < 1_000 * (delta_us + 1)
            &&& begun.min_playback_delta_us <= delta_us
            &&& begun.min_playback_delta_us <= state.min_playback_delta_us
            &&& begun.min_playback_delta_us == delta_us || begun.min_playback_delta_us
                == state.min_playback_delta_us
            &&& begun.stats == CallbackStats {
                callbacks: (state.stats.callbacks + 1) as u64,
                ..state.stats
            }
            &&& begun == RendererState {
                last_callback_ns: begun.last_callback_ns,
                last_playback_delta_us: begun.last_playback_delta_us,
                min_playback_delta_us: begun.min_playback_delta_us,
                stats: begun.stats,
                filter: begun.filter,
                ..state
            }
        }),
{
}

/// The beginning of a callback in a new generation starts over: not started,
/// correcting and measuring nothing, holding silence, the latency floor at its
/// own latency, and all counters but that of the callbacks at zero.
pub proof fn law_a_generation_starts_over(
    state: RendererState,
    context: CallbackContext,
    frames: int,
)
    requires
        context.snapshot.generation != state.last_generation,
        state.stats.callbacks < u64::MAX,
    ensures
        ({
            let begun = state.begun(context, frames);
            let delta_us = begun.last_playback_delta_us->0;
            &&& begun.last_generation == context.snapshot.generation
            &&& begun.last_callback_ns == Some(context.callback_ns)
            &&& begun.last_playback_delta_us is Some
            &&& 1_000 * delta_us <= context.playback_delta_ns < 1_000 * (delta_us + 1)
            &&& begun.min_playback_delta_us == delta_us
            &&& !begun.started && !begun.handoff_warned
            &&& uncorrecting(begun)
            &&& all_zero(begun.last_frame, state.channels)
            &&& begun.stats.callbacks == state.stats.callbacks + 1
            &&& counts_nothing(begun.stats)
            &&& begun.channels == state.channels && begun.sample_rate == state.sample_rate
            &&& begun.sync_settle_logged == state.sync_settle_logged
        }),
{
}

/// The filter's period is the playing time of the callback's frames.
pub proof fn law_the_filter_knows_the_period(
    state: RendererState,
    context: CallbackContext,
    frames: int,
    period_us: u64,
)
    requires
        is_period_us(period_us as int, frames, state.sample_rate),
        period_us < u64::MAX,
    ensures
        ({
            let begun = state.begun(context, frames);
            &&& begun.filter.period_us == Some(period_us)
            &&& context.snapshot.generation == state.last_generation && state.filter.period_us
                == Some(period_us) ==> begun.filter == state.filter
        }),
{
    let rate = if state.sample_rate == 0 {
        1
    } else {
        state.sample_rate as int
    };
    lemma_quotient(frames * 1_000_000, rate, period_us as int);
}

/// A playing time that no period can hold counts as the longest one.
pub proof fn law_the_longest_period(state: RendererState, context: CallbackContext, frames: int)
    requires
        frames * 1_000_000 >= u64::MAX * if state.sample_rate == 0 {
            1
        } else {
            state.sample_rate as int
        },
    ensures
        state.begun(context, frames).filter.period_us == Some(u64::MAX),
{
    let n = frames * 1_000_000;
    let d = if state.sample_rate == 0 {
        1
    } else {
        state.sample_rate as int
    };
    let q = n / d;
    vstd::arithmetic::div_mod::lemma_fundamental_div_mod(n, d);
    vstd::arithmetic::div_mod::lemma_mod_bound(n, d);
    assert(q >= u64::MAX) by (nonlinear_arith)
        requires
            d > 0,
            n < d * q + d,
            n >= u64::MAX * d,
    ;
}

/// A quotient is what the divisor fits in that often.
proof fn lemma_quotient(n: int, d: int, q: int)
    requires
        d > 0,
        q * d <= n < (q + 1) * d,
    ensures
        n / d == q,
{
    assert(n == q * d + (n - q * d));
    assert((q + 1) * d == q * d + d) by (nonlinear_arith);
    vstd::arithmetic::div_mod::lemma_fundamental_div_mod_converse(n, d, q, n - q * d);
}

/// What a callback's timing shows. A changed generation is one that differs. A gap
/// is the time since the last callback, if it is two periods or more. A shift
/// tells the last latency, if it was more than a millisecond off.
pub proof fn law_notices_tell_gaps_and_shifts(
    state: RendererState,
    context: CallbackContext,
    frames: int,
    period_us: int,
)
    requires
        frames >= 0,
        is_period_us(period_us, frames, state.sample_rate),
    ensures
        ({
            let notices = state.notices(context, frames);
            let delta_us = context.playback_delta_ns / 1_000;
            &&& notices.generation_changed <==> context.snapshot.generation
                != state.last_generation
            &&& state.last_callback_ns is None ==> notices.gap_us is None
            &&& state.last_callback_ns matches Some(last) ==> {
                let since = context.callback_ns - last;
                &&& notices.gap_us is Some <==> (if since > 0 {
                    since
                } else {
                    0
                }) >= 2_000 * period_us
                &&& since >= 0 && notices.gap_us is Some ==> 1_000 * notices.gap_us->0 <= since
                    < 1_000 * (notices.gap_us->0 + 1)
                &&& since < 0 && notices.gap_us is Some ==> notices.gap_us->0 == 0
            }
            &&& state.last_playback_delta_us is None ==> notices.shifted_from_us is None
            &&& state.last_playback_delta_us matches Some(last) ==> {
                &&& notices.shifted_from_us is Some <==> last > delta_us + 1_000 || delta_us > last
                    + 1_000
                &&& notices.shifted_from_us is Some ==> notices.shifted_from_us->0 == last
            }
        }),
{
    let rate = if state.sample_rate == 0 {
        1
    } else {
        state.sample_rate as int
    };
    lemma_quotient(frames * 1_000_000, rate, period_us);
}

// -- The plan --

/// The first step. Without a cursor, or with a contended clock, a started stream
/// plays and another stays silent; only the contended clock counts as a miss.
/// Else a requested re-anchor is handed off, and without a request the cursor is
/// located where it is.
pub proof fn law_the_first_step(state: RendererState, context: CallbackContext, clock: ClockStatus)
    requires
        state.stats.has_room_for(1),
    ensures
        ({
            let (planned, step) = state.sync_planned(context, clock);
            let asks = context.snapshot.cursor_us is Some && clock != ClockStatus::Contended;
            &&& !asks ==> step == if state.started {
                NextStep::Play
            } else {
                NextStep::Silence
            }
            &&& asks && context.snapshot.force_reanchor ==> step is Handoff
            &&& asks && !context.snapshot.force_reanchor ==> step == (NextStep::Locate {
                cursor_us: context.snapshot.cursor_us->0,
            })
            &&& planned.stats.sync_lock_misses == state.stats.sync_lock_misses
                + if context.snapshot.cursor_us is Some && clock == ClockStatus::Contended {
                1int
            } else {
                0
            }
            &&& planned.stats.silent_callbacks == state.stats.silent_callbacks + if step
                == NextStep::Silence {
                1int
            } else {
                0
            }
            &&& planned.stats == CallbackStats {
                sync_lock_misses: planned.stats.sync_lock_misses,
                silent_callbacks: planned.stats.silent_callbacks,
                ..state.stats
            }
        }),
{
}

/// The first sight of a settled clock discards the measurements made before it, in
/// every generation; later ones, and a clock that has not settled, change nothing.
pub proof fn law_the_first_settled_clock_counts(
    state: RendererState,
    context: CallbackContext,
    clock: ClockStatus,
)
    ensures
        ({
            let (planned, _) = state.sync_planned(context, clock);
            let first = context.snapshot.cursor_us is Some && clock == ClockStatus::Settled
                && !state.sync_settle_logged;
            &&& first ==> {
                &&& planned.sync_settle_logged
                &&& planned.filter.recent.len() == 0 && planned.streak == 0
                &&& planned.filter.window == state.filter.window
                &&& planned.filter.period_us == state.filter.period_us
            }
            &&& !first ==> planned == RendererState { stats: planned.stats, ..state }
            &&& planned == RendererState {
                stats: planned.stats,
                filter: planned.filter,
                streak: planned.streak,
                sync_settle_logged: planned.sync_settle_logged,
                ..state
            }
        }),
{
}

// -- Jumps of the cursor --

/// A handoff. If it is applied, nothing is corrected or measured any more; started
/// playback locates the new cursor at once, another stream stays silent for this
/// callback. If not, the callback is silent, and it is noted that there was
/// nothing to play if the queue is the one that the handoff was planned for.
pub proof fn law_a_handoff_starts_afresh(
    state: RendererState,
    context: CallbackContext,
    queue: QueueState,
    server_time_us: Option<i64>,
)
    requires
        state.stats.silent_callbacks < u64::MAX,
    ensures
        ({
            let (handed, step) = state.handed_off(context, queue, server_time_us);
            let current = queue.generation == context.snapshot.generation && queue.initialized;
            let target = queue.first_playable(server_time_us->0 as int);
            let applied = server_time_us is Some && current && target is Some;
            &&& applied && state.started && i64::MIN <= target->0 <= i64::MAX ==> step == (
            NextStep::Locate { cursor_us: target->0 as i64 })
            &&& !(applied && state.started) ==> step == NextStep::Silence
            &&& applied ==> {
                &&& uncorrecting(handed)
                &&& handed.filter.window == state.filter.window
                &&& handed.filter.period_us == state.filter.period_us
                &&& handed.handoff_warned == state.handoff_warned
            }
            &&& !applied ==> {
                &&& handed == RendererState {
                    handoff_warned: handed.handoff_warned,
                    stats: handed.stats,
                    ..state
                }
                &&& handed.handoff_warned <==> state.handoff_warned || (server_time_us is Some
                    && current)
            }
            &&& handed.started == state.started && handed.last_frame == state.last_frame
            &&& handed.min_playback_delta_us == state.min_playback_delta_us
            &&& handed.stats.silent_callbacks == state.stats.silent_callbacks + if step
                == NextStep::Silence {
                1int
            } else {
                0
            }
            &&& handed.stats == CallbackStats {
                silent_callbacks: handed.stats.silent_callbacks,
                ..state.stats
            }
        }),
{
}

/// A re-anchor leaves nothing corrected and nothing measured, ends the count of
/// updates, and changes nothing else.
pub proof fn law_a_reanchor_starts_afresh(state: RendererState)
    ensures
        ({
            let after = state.reanchored();
            &&& uncorrecting(after)
            &&& after.filter.window == state.filter.window
            &&& after.filter.period_us == state.filter.period_us
            &&& after.stats == CallbackStats { correction_updates: 0, ..state.stats }
            &&& after == RendererState {
                schedule: after.schedule,
                insert_counter: after.insert_counter,
                drop_counter: after.drop_counter,
                filter: after.filter,
                streak: after.streak,
                stats: after.stats,
                ..state
            }
        }),
{
}

// -- Counting --

/// A rendered callback that lacked frames counts them and itself, and lengthens
/// the run of such callbacks; one that lacked none ends the run.
pub proof fn law_underruns_are_counted(stats: CallbackStats, missing_frames: u64)
    requires
        stats.has_room_for(1),
        stats.has_room_for(missing_frames as int),
    ensures
        ({
            let after = stats.with_render(missing_frames);
            &&& after.underrun_frames == stats.underrun_frames + missing_frames
            &&& missing_frames > 0 ==> after.underrun_callbacks == stats.underrun_callbacks + 1
                && after.consecutive_underrun_callbacks == stats.consecutive_underrun_callbacks + 1
            &&& missing_frames == 0 ==> after.underrun_callbacks == stats.underrun_callbacks
                && after.consecutive_underrun_callbacks == 0
            &&& after == CallbackStats {
                underrun_frames: after.underrun_frames,
                underrun_callbacks: after.underrun_callbacks,
                consecutive_underrun_callbacks: after.consecutive_underrun_callbacks,
                ..stats
            }
        }),
{
}

/// The queue is low from below 100 ms on, until it holds 200 ms again; each change
/// is told once.
pub proof fn law_depth_by_numbers(stats: CallbackStats, queued_us: u64)
    ensures
        ({
            let after = stats.with_depth(queued_us);
            &&& queued_us < 100_000 ==> after.queue_low
            &&& queued_us >= 200_000 ==> !after.queue_low
            &&& 100_000 <= queued_us < 200_000 ==> after.queue_low == stats.queue_low
            &&& after == CallbackStats { queue_low: after.queue_low, ..stats }
            &&& stats.depth_edge(queued_us) == if after.queue_low == stats.queue_low {
                QueueEdge::Unchanged
            } else if after.queue_low {
                QueueEdge::Low
            } else {
                QueueEdge::Recovered
            }
        }),
{
}

/// A new generation keeps the count of callbacks and starts all other counts over;
/// a silent callback counts as one.
pub proof fn law_counts_start_over(stats: CallbackStats)
    ensures
        stats.for_new_generation().callbacks == stats.callbacks,
        counts_nothing(stats.for_new_generation()),
        counts_nothing(CallbackStats::zero()),
        CallbackStats::zero().callbacks == 0,
        stats.silent_callbacks < u64::MAX ==> stats.with_silence() == (CallbackStats {
            silent_callbacks: (stats.silent_callbacks + 1) as u64,
            ..stats
        }),
{
}

/// There is room for `n` exactly if no counter overflows when it is raised by it.
pub proof fn law_room_is_for_every_counter(stats: CallbackStats, n: int)
    ensures
        stats.has_room_for(n) <==> {
            &&& stats.callbacks + n <= 0xffff_ffff_ffff_ffff
            &&& stats.silent_callbacks + n <= 0xffff_ffff_ffff_ffff
            &&& stats.sync_lock_misses + n <= 0xffff_ffff_ffff_ffff
            &&& stats.underrun_frames + n <= 0xffff_ffff_ffff_ffff
            &&& stats.underrun_callbacks + n <= 0xffff_ffff_ffff_ffff
            &&& stats.consecutive_underrun_callbacks + n <= 0xffff_ffff_ffff_ffff
            &&& stats.correction_updates + n <= 0xffff_ffff_ffff_ffff
            &&& stats.warmup_suppressed_corrections + n <= 0xffff_ffff_ffff_ffff
            &&& stats.gate_suppressed_corrections + n <= 0xffff_ffff_ffff_ffff
            &&& stats.correction_engagements + n <= 0xffff_ffff_ffff_ffff
        },
{
}

/// The playing time of frames is the nearest whole number of nanoseconds, and of
/// two equally near ones the even one. The longest one stands for all longer ones.
pub proof fn law_playing_time_is_the_nearest(frames: int, sample_rate: u32)
    requires
        frames >= 0,
        sample_rate > 0,
    ensures
        ({
            let time_ns = crate::audio::renderer::playing_time_ns(frames, sample_rate);
            let off = 2 * (time_ns * sample_rate) - 2 * (frames * 1_000_000_000);
            &&& 0 <= time_ns <= 0xffff_ffff_ffff_ffff
            &&& off <= sample_rate
            &&& time_ns < 0xffff_ffff_ffff_ffff ==> -sample_rate <= off
            &&& time_ns < 0xffff_ffff_ffff_ffff && (off == sample_rate || off == -sample_rate)
                ==> time_ns % 2 == 0
        }),
{
    let n = frames * 1_000_000_000;
    let d = sample_rate as int;
    let q = n / d;
    vstd::arithmetic::div_mod::lemma_fundamental_div_mod(n, d);
    vstd::arithmetic::div_mod::lemma_mod_bound(n, d);
    vstd::arithmetic::div_mod::lemma_div_pos_is_pos(n, d);
    assert(q * d == d * q && (q + 1) * d == d * q + d) by (nonlinear_arith);
    let time_ns = crate::audio::renderer::playing_time_ns(frames, sample_rate);
    let rounded = crate::audio::renderer::round_half_even(n, d);
    assert(time_ns * d <= rounded * d) by (nonlinear_arith)
        requires
            time_ns <= rounded,
            d > 0,
    ;
}

} // verus!
