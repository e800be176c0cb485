//! Laws of the correction loop, with its thresholds in numbers.

use crate::audio::callback_stats::CallbackStats;
use crate::audio::renderer::{CallbackContext, ClockStatus, NextStep, RendererState};
use crate::audio::sync_correction::{CorrectionSchedule, FilterState, GateInput};
use vstd::prelude::*;

verus! {

// -- The planner --

/// Whether the schedule leaves the audio alone.
pub open spec fn leaves_alone(schedule: CorrectionSchedule) -> bool {
    &&& schedule.insert_every_n_frames == 0
    &&& schedule.drop_every_n_frames == 0
    &&& !schedule.reanchor
}

/// Whether one frame in `interval` removes `magnitude` microseconds in two
/// seconds, to the nearest frame, halves up; beyond 80 ms it is one in 25.
pub open spec fn clears(interval: int, magnitude: int) -> bool {
    if magnitude <= 80_000 {
        (2 * interval - 1) * magnitude <= 4_000_000 < (2 * interval + 1) * magnitude
    } else {
        interval == 25
    }
}

/// Whether the schedule corrects `error_us`: it drops frames for a positive error
/// and repeats frames for a negative one, at the cadence that clears the error.
pub open spec fn corrects(schedule: CorrectionSchedule, error_us: int) -> bool {
    &&& !schedule.reanchor
    &&& error_us > 0 ==> {
        &&& schedule.insert_every_n_frames == 0
        &&& schedule.drop_every_n_frames > 0
        &&& clears(schedule.drop_every_n_frames as int, error_us)
    }
    &&& error_us <= 0 ==> {
        &&& schedule.drop_every_n_frames == 0
        &&& schedule.insert_every_n_frames > 0
        &&& clears(schedule.insert_every_n_frames as int, -error_us)
    }
}

/// A plan by the numbers. Up to 3 ms either way, or up to 1.5 ms while a
/// correction runs, the audio is left alone. From 500 ms on the cursor is
/// re-anchored. In between the error is corrected, unless the stream has no rate.
pub proof fn law_plan_by_numbers(error_us: i64, sample_rate: u32, currently_correcting: bool)
    ensures
        ({
            let plan = crate::audio::sync_correction::planned_schedule(
                error_us,
                sample_rate,
                currently_correcting,
            );
            let threshold: int = if currently_correcting {
                1_500
            } else {
                3_000
            };
            if -threshold <= error_us <= threshold {
                leaves_alone(plan)
            } else if error_us >= 500_000 || error_us <= -500_000 {
                &&& plan.reanchor
                &&& plan.insert_every_n_frames == 0
                &&& plan.drop_every_n_frames == 0
            } else if sample_rate == 0 {
                leaves_alone(plan)
            } else {
                corrects(plan, error_us as int)
            }
        }),
{
    let magnitude = crate::audio::sync_correction::error_magnitude(error_us);
    if 1_500 < magnitude < 500_000 {
        crate::audio::sync_correction::law_cadence_is_capped(magnitude);
        if magnitude <= 80_000 {
            let n = crate::audio::sync_correction::round_div(2_000_000, magnitude);
            let total = 4_000_000 + magnitude;
            vstd::arithmetic::div_mod::lemma_fundamental_div_mod(total, 2 * magnitude);
            vstd::arithmetic::div_mod::lemma_mod_bound(total, 2 * magnitude);
            assert((2 * n - 1) * magnitude <= 4_000_000 < (2 * n + 1) * magnitude)
                by (nonlinear_arith)
                requires
                    total == (2 * magnitude) * n + total % (2 * magnitude),
                    0 <= total % (2 * magnitude) < 2 * magnitude,
                    total == 4_000_000 + magnitude,
            ;
        }
    }
}

// -- The filter --

/// Whether `floor` is the smallest element of `s`.
pub open spec fn smallest(s: Seq<i64>, floor: i64) -> bool {
    &&& exists|i: int| 0 <= i < s.len() && #[trigger] s[i] == floor
    &&& forall|i: int| 0 <= i < s.len() ==> floor <= #[trigger] s[i]
}

/// What the filter reports as floor is the smallest measurement that it holds.
pub proof fn law_floor_is_the_smallest(recent: Seq<i64>, floor: i64)
    ensures
        crate::audio::sync_correction::is_floor(recent, floor) <==> smallest(recent, floor),
        smallest(recent, floor) ==> crate::audio::sync_correction::floor_of(recent) == floor,
{
    if smallest(recent, floor) {
        assert(recent.contains(floor));
        crate::audio::sync_correction::lemma_floor_is_unique(recent, floor);
    }
    if crate::audio::sync_correction::is_floor(recent, floor) {
        let i = recent.index_of(floor);
        assert(recent[i] == floor);
    }
}

/// A measurement is added behind the ones before it; the oldest leaves if there
/// would be more than the window holds.
pub proof fn law_measuring_drops_the_oldest(filter: FilterState, raw_error_us: i64)
    requires
        filter.recent.len() <= filter.window,
        filter.window > 0,
    ensures
        ({
            let after = filter.measured(raw_error_us);
            let old_len = filter.recent.len() as int;
            let len = after.recent.len() as int;
            &&& len == if old_len < filter.window {
                old_len + 1
            } else {
                old_len
            }
            &&& after.recent[len - 1] == raw_error_us
            &&& forall|i: int|
                0 <= i < len - 1 ==> #[trigger] after.recent[i] == filter.recent[old_len + 1 - len
                    + i]
            &&& after.window == filter.window
            &&& after.period_us == filter.period_us
            &&& after.warm() <==> len == filter.window
        }),
{
}

/// A new filter holds nothing, in a window of 101; emptying one keeps its window
/// and its period.
pub proof fn law_an_empty_filter_is_cold(filter: FilterState)
    requires
        filter.window > 0,
    ensures
        FilterState::fresh().recent.len() == 0,
        FilterState::fresh().window == 101,
        FilterState::fresh().period_us is None,
        !FilterState::fresh().warm(),
        filter.emptied().recent.len() == 0,
        filter.emptied().window == filter.window,
        filter.emptied().period_us == filter.period_us,
        !filter.emptied().warm(),
{
}

/// The window by the numbers: as many callbacks as it takes to cover four
/// seconds, but between 8 and 101, and 101 if the period is unknown.
pub proof fn law_window_by_numbers(period_us: int)
    requires
        period_us >= 0,
    ensures
        ({
            let window = crate::audio::sync_correction::window_for_period(period_us);
            &&& 8 <= window <= 101
            &&& period_us == 0 ==> window == 101
            &&& period_us > 0 && window < 101 ==> window * period_us >= 4_000_000
            &&& period_us > 0 && window > 8 ==> (window - 1) * period_us < 4_000_000
        }),
{
    if period_us > 0 {
        let n = 4_000_000 + period_us - 1;
        let fits = n / period_us;
        vstd::arithmetic::div_mod::lemma_fundamental_div_mod(n, period_us);
        vstd::arithmetic::div_mod::lemma_mod_bound(n, period_us);
        assert((fits - 1) * period_us < 4_000_000 <= fits * period_us) by (nonlinear_arith)
            requires
                n == period_us * fits + n % period_us,
                0 <= n % period_us < period_us,
                n == 4_000_000 + period_us - 1,
        ;
        let window = crate::audio::sync_correction::window_for_period(period_us);
        if window < 101 {
            assert(window * period_us >= fits * period_us) by (nonlinear_arith)
                requires
                    window >= fits,
                    period_us > 0,
            ;
        }
        if window > 8 {
            assert((window - 1) * period_us <= (fits - 1) * period_us) by (nonlinear_arith)
                requires
                    window <= fits,
                    period_us > 0,
            ;
        }
    }
}

/// A callback period by the numbers. The same period changes nothing. A change
/// from a known period, or one that changes the window, discards the measurements.
/// Learning a period that keeps the window keeps them.
pub proof fn law_period_by_numbers(filter: FilterState, period_us: u64)
    ensures
        ({
            let after = filter.at_period(period_us);
            let window = crate::audio::sync_correction::window_for_period(period_us as int);
            let known = filter.period_us is Some && filter.period_us->0 != 0;
            &&& after.period_us == Some(period_us)
            &&& filter.period_us == Some(period_us) ==> after.window == filter.window
                && after.recent == filter.recent
            &&& filter.period_us != Some(period_us) ==> {
                &&& after.window == window
                &&& known || window != filter.window ==> after.recent.len() == 0
                &&& !known && window == filter.window ==> after.recent == filter.recent
            }
        }),
{
}

// -- The engage gate --

/// Whether the plan would start a correction on an idle stream, other than by
/// re-anchoring.
pub open spec fn starts(input: GateInput) -> bool {
    &&& !input.currently_correcting
    &&& !input.planned.reanchor
    &&& input.planned.insert_every_n_frames > 0 || input.planned.drop_every_n_frames > 0
}

/// The engage gate by the numbers, over every history: a plan that would start a
/// correction passes exactly if the filter is warm and the last 50 plans, this one
/// counted, would all have started one; else the audio is left alone. Every other
/// plan passes as it is.
pub proof fn law_engaging_takes_fifty_plans(inputs: Seq<GateInput>)
    requires
        inputs.len() > 0,
    ensures
        ({
            let last = inputs.last();
            let passed = last.admitted(
                crate::audio::sync_correction::streak_after(inputs.drop_last()),
            );
            let sustained = inputs.len() >= 50 && forall|i: int|
                inputs.len() - 50 <= i < inputs.len() ==> starts(#[trigger] inputs[i]);
            &&& !starts(last) || (last.filter_warm && sustained) ==> passed == last.planned
            &&& starts(last) && !(last.filter_warm && sustained) ==> leaves_alone(passed)
        }),
{
    let last = inputs.last();
    let streak = crate::audio::sync_correction::streak_after(inputs.drop_last());
    if starts(last) && last.admitted(streak).correcting() {
        crate::audio::sync_correction::law_engagement_is_evidence_backed(inputs);
        assert forall|i: int| inputs.len() - 50 <= i < inputs.len() implies starts(
            #[trigger] inputs[i],
        ) by {
            assert(inputs[i].would_engage());
        }
    }
    if inputs.len() >= 50 && last.filter_warm && (forall|i: int|
        inputs.len() - 50 <= i < inputs.len() ==> starts(#[trigger] inputs[i])) {
        assert forall|i: int| inputs.len() - 50 <= i < inputs.len() implies #[trigger] inputs[i].would_engage() by {
            assert(starts(inputs[i]));
        }
        crate::audio::sync_correction::law_sustained_error_engages(inputs);
    }
}

// -- The loop in the renderer --

/// Whether a correction is running.
pub open spec fn running(state: RendererState) -> bool {
    state.schedule.insert_every_n_frames > 0 || state.schedule.drop_every_n_frames > 0
        || state.schedule.reanchor
}

/// Whether a cursor that is due at `expected_ns` is not held back: playback has
/// started, or it would start no more than a millisecond early.
pub open spec fn is_due(state: RendererState, context: CallbackContext, expected_ns: i64) -> bool {
    state.started || context.callback_ns + context.playback_delta_ns + 1_000_000 >= expected_ns
}

/// A located cursor is measured: the playback instant less the instant at which it
/// was due, in whole microseconds towards zero, joins the measurements. Until it is due, nothing is
/// measured and the callback is silent.
pub proof fn law_a_located_cursor_is_measured(
    state: RendererState,
    context: CallbackContext,
    expected_ns: i64,
    settled: bool,
)
    requires
        context.wf(),
        state.filter.recent.len() <= state.filter.window,
        state.filter.window > 0,
    ensures
        ({
            let (located, step) = state.located(context, Some(expected_ns), settled);
            let late_ns = context.callback_ns + context.playback_delta_ns - expected_ns;
            let recent = located.filter.recent;
            let old_len = state.filter.recent.len() as int;
            let len = recent.len() as int;
            &&& is_due(state, context, expected_ns) ==> {
                let error_us = recent[len - 1];
                &&& located.started && !(step is Silence)
                &&& late_ns >= 0 ==> 1_000 * error_us <= late_ns < 1_000 * (error_us + 1)
                &&& late_ns < 0 ==> 1_000 * (error_us - 1) < late_ns <= 1_000 * error_us
                &&& len == if old_len < state.filter.window {
                    old_len + 1
                } else {
                    old_len
                }
                &&& forall|i: int|
                    0 <= i < len - 1 ==> #[trigger] recent[i] == state.filter.recent[old_len + 1
                        - len + i]
                &&& located.filter.window == state.filter.window
                &&& located.filter.period_us == state.filter.period_us
            }
            &&& !is_due(state, context, expected_ns) ==> {
                &&& step is Silence
                &&& located == RendererState {
                    stats: CallbackStats {
                        silent_callbacks: (state.stats.silent_callbacks + 1) as u64,
                        ..state.stats
                    },
                    ..state
                }
            }
        }),
{
    if is_due(state, context, expected_ns) {
        let error = crate::audio::renderer::raw_error(
            context.callback_ns + context.playback_delta_ns,
            expected_ns as int,
        );
        law_measuring_drops_the_oldest(state.filter, error as i64);
    }
}

/// What a measured callback decides, by the numbers, for the smallest error
/// `floor` that the filter holds. From 500 ms on it re-anchors, whatever the clock
/// and the filter. Else, against a clock that has not settled, the audio is left
/// alone. A running correction goes on, adapted to the error, until the error is
/// 1.5 ms or less. None starts up to 3 ms; beyond, one starts once the filter is
/// warm and this is the 50th such plan in a row.
pub proof fn law_correction_by_numbers(
    state: RendererState,
    context: CallbackContext,
    expected_ns: i64,
    settled: bool,
    floor: i64,
)
    requires
        state.sample_rate > 0,
        is_due(state, context, expected_ns),
        smallest(state.located(context, Some(expected_ns), settled).0.filter.recent, floor),
    ensures
        ({
            let (located, step) = state.located(context, Some(expected_ns), settled);
            let schedule = located.schedule;
            let evidence = located.streak >= 50 && located.filter.recent.len()
                == located.filter.window;
            if floor >= 500_000 || floor <= -500_000 {
                &&& schedule.reanchor
                &&& step matches NextStep::Reanchor { .. }
            } else {
                &&& step == NextStep::Play
                &&& if !settled {
                    leaves_alone(schedule)
                } else if running(state) {
                    if -1_500 <= floor <= 1_500 {
                        leaves_alone(schedule)
                    } else {
                        corrects(schedule, floor as int)
                    }
                } else if -3_000 <= floor <= 3_000 {
                    leaves_alone(schedule)
                } else if evidence {
                    corrects(schedule, floor as int)
                } else {
                    leaves_alone(schedule)
                }
            }
        }),
{
    let (located, _) = state.located(context, Some(expected_ns), settled);
    law_floor_is_the_smallest(located.filter.recent, floor);
    law_plan_by_numbers(floor, state.sample_rate, running(state));
}

/// The streak of a measured callback: plans that would start a correction count on,
/// any other plan ends the streak.
pub proof fn law_streak_counts_starting_plans(
    state: RendererState,
    context: CallbackContext,
    expected_ns: i64,
    settled: bool,
    floor: i64,
)
    requires
        state.sample_rate > 0,
        is_due(state, context, expected_ns),
        smallest(state.located(context, Some(expected_ns), settled).0.filter.recent, floor),
    ensures
        ({
            let (located, _) = state.located(context, Some(expected_ns), settled);
            let starting = !running(state) && (3_000 < floor < 500_000 || -500_000 < floor
                < -3_000);
            &&& starting && state.streak < u32::MAX ==> located.streak == state.streak + 1
            &&& starting && state.streak == u32::MAX ==> located.streak == u32::MAX
            &&& !starting ==> located.streak == 0
        }),
{
    let (located, _) = state.located(context, Some(expected_ns), settled);
    law_floor_is_the_smallest(located.filter.recent, floor);
    law_plan_by_numbers(floor, state.sample_rate, running(state));
}

/// A schedule that stays the same keeps counting down; a new one starts its
/// countdowns over, so that its first correction is a whole cadence away. A
/// measured callback changes nothing else but what it measured and counted.
pub proof fn law_a_new_schedule_counts_down(
    state: RendererState,
    context: CallbackContext,
    expected_ns: i64,
    settled: bool,
)
    requires
        is_due(state, context, expected_ns),
    ensures
        ({
            let (located, _) = state.located(context, Some(expected_ns), settled);
            &&& located.schedule == state.schedule ==> located.insert_counter
                == state.insert_counter && located.drop_counter == state.drop_counter
            &&& located.schedule != state.schedule ==> located.insert_counter
                == located.schedule.insert_every_n_frames && located.drop_counter
                == located.schedule.drop_every_n_frames
            &&& located == RendererState {
                filter: located.filter,
                streak: located.streak,
                schedule: located.schedule,
                insert_counter: located.insert_counter,
                drop_counter: located.drop_counter,
                started: true,
                stats: located.stats,
                ..state
            }
        }),
{
}

/// What a measured callback counts: plans held back for want of evidence, plans
/// held back by a clock that has not settled, corrections started, and updates
/// within a correction, which end with it.
pub proof fn law_corrections_are_counted(
    state: RendererState,
    context: CallbackContext,
    expected_ns: i64,
    settled: bool,
    floor: i64,
)
    requires
        state.sample_rate > 0,
        state.stats.has_room_for(1),
        is_due(state, context, expected_ns),
        smallest(state.located(context, Some(expected_ns), settled).0.filter.recent, floor),
    ensures
        ({
            let (located, _) = state.located(context, Some(expected_ns), settled);
            let before = state.stats;
            let after = located.stats;
            let evidence = located.streak >= 50 && located.filter.recent.len()
                == located.filter.window;
            let gross = floor >= 500_000 || floor <= -500_000;
            let starting = !running(state) && !gross && (floor > 3_000 || floor < -3_000);
            let going_on = running(state) && !gross && (floor > 1_500 || floor < -1_500);
            &&& after.gate_suppressed_corrections == before.gate_suppressed_corrections + if starting
                && !evidence {
                1int
            } else {
                0
            }
            &&& after.warmup_suppressed_corrections == before.warmup_suppressed_corrections
                + if !settled && (going_on || (starting && evidence)) {
                1int
            } else {
                0
            }
            &&& after.correction_engagements == before.correction_engagements + if running(located)
                && !running(state) {
                1int
            } else {
                0
            }
            &&& after.correction_updates == if located.schedule == state.schedule {
                before.correction_updates as int
            } else if running(located) {
                before.correction_updates + 1
            } else {
                0
            }
            &&& after == CallbackStats {
                gate_suppressed_corrections: after.gate_suppressed_corrections,
                warmup_suppressed_corrections: after.warmup_suppressed_corrections,
                correction_engagements: after.correction_engagements,
                correction_updates: after.correction_updates,
                ..before
            }
        }),
{
    let (located, _) = state.located(context, Some(expected_ns), settled);
    law_floor_is_the_smallest(located.filter.recent, floor);
    law_plan_by_numbers(floor, state.sample_rate, running(state));
}

/// A clock that cannot locate the cursor stops a running correction, and its
/// measurements with it; otherwise it changes nothing. Started playback goes on,
/// else the callback is silent.
pub proof fn law_a_lost_cursor_stops_correcting(
    state: RendererState,
    context: CallbackContext,
    settled: bool,
)
    ensures
        ({
            let (located, step) = state.located(context, None, settled);
            &&& step == if state.started {
                NextStep::Play
            } else {
                NextStep::Silence
            }
            &&& leaves_alone(located.schedule)
            &&& running(state) ==> {
                &&& located.insert_counter == 0 && located.drop_counter == 0
                &&& located.filter.recent.len() == 0 && located.streak == 0
                &&& located.stats.correction_updates == 0
            }
            &&& !running(state) ==> located == RendererState { stats: located.stats, ..state }
            &&& located.filter.window == state.filter.window
            &&& located.started == state.started && located.last_frame == state.last_frame
            &&& !state.started && state.stats.silent_callbacks < u64::MAX
                ==> located.stats.silent_callbacks == state.stats.silent_callbacks + 1
            &&& state.started ==> located.stats.silent_callbacks == state.stats.silent_callbacks
        }),
{
}

/// The instants that a re-anchor and a handoff aim at: the callback plus the
/// latency floor, and before playback has started a callback's length more.
pub proof fn law_anchors_aim_at_the_floor(
    state: RendererState,
    context: CallbackContext,
    clock: ClockStatus,
    expected_ns: Option<i64>,
    settled: bool,
)
    requires
        context.wf(),
        state.min_playback_delta_us <= context.playback_delta_ns / 1_000,
    ensures
        ({
            let (_, step) = state.located(context, expected_ns, settled);
            step matches NextStep::Reanchor { instant_ns } ==> instant_ns == context.callback_ns
                + 1_000 * state.min_playback_delta_us
        }),
        ({
            let (_, step) = state.sync_planned(context, clock);
            step matches NextStep::Handoff { instant_ns } ==> instant_ns == context.callback_ns
                + 1_000 * state.min_playback_delta_us + if state.started {
                0
            } else {
                context.period_ns as int
            }
        }),
{
}

} // verus!
