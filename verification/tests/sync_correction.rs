//! Planner, filter, gate, and the three of them in closed loop.

use sendspin::audio::sync_correction::{
    window_len_for_period, CorrectionPlanner, CorrectionSchedule, EngageGate, SyncErrorFilter,
    ENGAGE_STREAK_PLANS, MIN_SYNC_ERROR_WINDOW, SYNC_ERROR_WINDOW,
};

#[test]
fn test_no_correction_within_engage_threshold() {
    let planner = CorrectionPlanner::new();
    let schedule = planner.plan(2_500, 48_000, false);
    assert!(!schedule.is_correcting(), "should not engage below 3ms");
}

#[test]
fn test_correction_engages_above_threshold() {
    let planner = CorrectionPlanner::new();
    let schedule = planner.plan(3_500, 48_000, false);
    assert!(schedule.is_correcting(), "should engage above 3ms");
    assert!(schedule.drop_every_n_frames > 0, "positive error = drop");
}

#[test]
fn test_hysteresis_keeps_correcting_above_deadband() {
    let planner = CorrectionPlanner::new();
    // 2ms error: below engage (3ms) but above deadband (1.5ms).
    // Should keep correcting if already active.
    let schedule = planner.plan(2_000, 48_000, true);
    assert!(
        schedule.is_correcting(),
        "should keep correcting above 1.5ms deadband"
    );
}

#[test]
fn test_hysteresis_stops_below_deadband() {
    let planner = CorrectionPlanner::new();
    let schedule = planner.plan(1_000, 48_000, true);
    assert!(
        !schedule.is_correcting(),
        "should stop below 1.5ms deadband"
    );
}

#[test]
fn test_negative_error_inserts() {
    let planner = CorrectionPlanner::new();
    let schedule = planner.plan(-5_000, 48_000, false);
    assert!(
        schedule.insert_every_n_frames > 0,
        "negative error = insert"
    );
    assert_eq!(schedule.drop_every_n_frames, 0);
}

#[test]
fn test_reanchor_at_large_error() {
    let planner = CorrectionPlanner::new();
    let schedule = planner.plan(500_000, 48_000, false);
    assert!(schedule.reanchor);
}

#[test]
fn test_exact_engage_threshold_does_not_engage() {
    let planner = CorrectionPlanner::new();
    let schedule = planner.plan(3_000, 48_000, false);
    assert!(
        !schedule.is_correcting(),
        "exactly at engage threshold should not engage (<=)"
    );
}

#[test]
fn test_exact_deadband_threshold_disengages() {
    let planner = CorrectionPlanner::new();
    let schedule = planner.plan(1_500, 48_000, true);
    assert!(
        !schedule.is_correcting(),
        "exactly at deadband threshold should disengage (<=)"
    );
}

#[test]
fn test_negative_hysteresis_keeps_inserting_above_deadband() {
    let planner = CorrectionPlanner::new();
    let schedule = planner.plan(-2_000, 48_000, true);
    assert!(
        schedule.is_correcting(),
        "should keep correcting negative error above deadband"
    );
    assert!(
        schedule.insert_every_n_frames > 0,
        "negative error = insert"
    );
    assert_eq!(schedule.drop_every_n_frames, 0);
}

// -- Exact interval values --
//
// The tests above only check *which* field is set (drop vs insert).
// These pin down the actual interval arithmetic: `frames_error`, the
// `desired` / `max` corrections_per_sec cap, and the `interval_frames`
// rounding. Checking a single "correction engaged" bit lets the
// arithmetic drift silently; checking the computed cadence doesn't.

#[test]
fn test_drop_interval_below_speed_cap_matches_spec() {
    // 5ms error at 48 kHz, already correcting (deadband threshold):
    //   frames_error                = 5000 * 48000 / 1_000_000 = 240 frames
    //   desired_corrections_per_sec = 240 / 2.0                = 120
    //   max_corrections_per_sec     = 48000 * 0.04             = 1920 (not binding)
    //   interval_frames             = round(48000 / 120)       = 400
    let planner = CorrectionPlanner::new();
    let s = planner.plan(5_000, 48_000, true);
    assert_eq!(
        s.drop_every_n_frames, 400,
        "5ms drift should produce drop every 400 frames"
    );
    assert_eq!(s.insert_every_n_frames, 0);
}

#[test]
fn test_insert_interval_below_speed_cap_matches_spec() {
    // Mirror of the drop test with a negative error.
    let planner = CorrectionPlanner::new();
    let s = planner.plan(-5_000, 48_000, true);
    assert_eq!(
        s.insert_every_n_frames, 400,
        "-5ms drift should produce insert every 400 frames"
    );
    assert_eq!(s.drop_every_n_frames, 0);
}

#[test]
fn test_drop_interval_hits_max_speed_cap() {
    // 200ms error — large enough that the desired rate exceeds the cap:
    //   frames_error                = 200000 * 48000 / 1_000_000 = 9600
    //   desired_corrections_per_sec = 9600 / 2.0                 = 4800
    //   max_corrections_per_sec     = 48000 * 0.04               = 1920 (binding)
    //   interval_frames             = round(48000 / 1920)        = 25
    let planner = CorrectionPlanner::new();
    let s = planner.plan(200_000, 48_000, true);
    assert_eq!(
        s.drop_every_n_frames, 25,
        "large drift should be capped at max speed correction (interval = 25 frames)"
    );
}

#[test]
fn test_filter_constant_input_passes_through() {
    let mut filter = SyncErrorFilter::new();
    for _ in 0..SYNC_ERROR_WINDOW {
        assert_eq!(filter.update(4_000), 4_000);
    }
    assert!(filter.is_warm());
}

#[test]
fn test_filter_warms_only_after_full_window() {
    let mut filter = SyncErrorFilter::new();
    for _ in 0..SYNC_ERROR_WINDOW - 1 {
        filter.update(0);
        assert!(!filter.is_warm());
    }
    filter.update(0);
    assert!(filter.is_warm());
}

#[test]
fn test_filter_floor_ignores_flap_at_any_duty() {
    // Period-quantized flapping is one-sided (+one period). Even a 90%
    // majority in the high mode — enough to drag any central-tendency
    // estimate — must not lift the floor while the quiet mode is sampled
    // at least once per window.
    let mut filter = SyncErrorFilter::new();
    for i in 0..SYNC_ERROR_WINDOW * 3 {
        let raw = if i % 10 == 0 { 0 } else { 10_000 };
        let floor = filter.update(raw);
        if i >= 1 {
            assert_eq!(floor, 0, "flap majority must not lift the floor");
        }
    }
}

#[test]
fn test_filter_floor_follows_persistent_rise_after_full_window() {
    // A real displacement shifts every reading including the floor; the
    // output must follow once the old floor ages out of the window.
    let mut filter = SyncErrorFilter::new();
    for _ in 0..SYNC_ERROR_WINDOW {
        filter.update(0);
    }
    let mut floor = 0;
    for i in 0..SYNC_ERROR_WINDOW {
        floor = filter.update(10_000);
        if i < SYNC_ERROR_WINDOW - 1 {
            assert_eq!(floor, 0, "rise must wait for the window to age out");
        }
    }
    assert_eq!(floor, 10_000, "persistent rise must reach the output");
}

#[test]
fn test_filter_floor_follows_drop_immediately() {
    // A running correction shrinks the error; the floor must track the
    // new low on the very next sample so the correction converges
    // without overshoot.
    let mut filter = SyncErrorFilter::new();
    for _ in 0..SYNC_ERROR_WINDOW {
        filter.update(10_000);
    }
    assert_eq!(filter.update(2_000), 2_000, "new low becomes the floor");
}

#[test]
fn test_filter_handles_negative_errors() {
    // Negative true error (audio early, insert side) with one-sided
    // positive excursions on top.
    let mut filter = SyncErrorFilter::new();
    for i in 0..SYNC_ERROR_WINDOW {
        let raw = if i % 3 == 0 { 10_000 } else { -5_000 };
        filter.update(raw);
    }
    assert_eq!(filter.update(-5_000), -5_000);
}

#[test]
fn test_filter_single_low_evicted_exactly_after_window() {
    // One low among highs must stop being the floor exactly WINDOW
    // updates after it was recorded.
    let mut filter = SyncErrorFilter::new();
    filter.update(1_000);
    for i in 0..SYNC_ERROR_WINDOW - 1 {
        assert_eq!(filter.update(10_000), 1_000, "low still in window at {i}");
    }
    assert_eq!(
        filter.update(10_000),
        10_000,
        "low must age out exactly one window after it was recorded"
    );
}

#[test]
fn test_filter_tracks_min_across_multiple_wraps() {
    // Distinct values across several ring cycles: the floor must always
    // equal the true minimum of the last WINDOW samples.
    let mut filter = SyncErrorFilter::new();
    let mut recent: Vec<i64> = Vec::new();
    for i in 0..(SYNC_ERROR_WINDOW as i64 * 5) {
        let value = (i * 37) % 1_000 + if i % 13 == 0 { -500 } else { 0 };
        recent.push(value);
        if recent.len() > SYNC_ERROR_WINDOW {
            recent.remove(0);
        }
        let expected = *recent.iter().min().unwrap();
        assert_eq!(filter.update(value), expected, "mismatch at update {i}");
    }
}

#[test]
fn test_filter_reset_clears_window() {
    // Fill with a LOW value so stale slots would drag the floor down if
    // reset failed to fence them off.
    let mut filter = SyncErrorFilter::new();
    for _ in 0..SYNC_ERROR_WINDOW {
        filter.update(-10_000);
    }
    filter.reset();
    assert!(!filter.is_warm());
    assert_eq!(
        filter.update(5_000),
        5_000,
        "floor after reset must reflect only new samples"
    );
}

fn correcting_plan() -> CorrectionSchedule {
    CorrectionSchedule {
        insert_every_n_frames: 0,
        drop_every_n_frames: 200,
        reanchor: false,
    }
}

#[test]
fn test_gate_requires_sustained_streak() {
    let mut gate = EngageGate::new();
    for _ in 0..ENGAGE_STREAK_PLANS - 1 {
        let admitted = gate.admit_plan(correcting_plan(), false, true);
        assert!(!admitted.is_correcting(), "streak not yet sustained");
    }
    let admitted = gate.admit_plan(correcting_plan(), false, true);
    assert!(admitted.is_correcting(), "sustained streak must engage");
}

#[test]
fn test_gate_streak_resets_on_idle_plan() {
    let mut gate = EngageGate::new();
    for _ in 0..ENGAGE_STREAK_PLANS - 1 {
        gate.admit_plan(correcting_plan(), false, true);
    }
    gate.admit_plan(CorrectionSchedule::default(), false, true);
    let admitted = gate.admit_plan(correcting_plan(), false, true);
    assert!(
        !admitted.is_correcting(),
        "an idle plan must reset the streak"
    );
}

#[test]
fn test_gate_cold_filter_never_engages() {
    let mut gate = EngageGate::new();
    for _ in 0..ENGAGE_STREAK_PLANS * 2 {
        let admitted = gate.admit_plan(correcting_plan(), false, false);
        assert!(!admitted.is_correcting(), "cold filter must not engage");
    }
}

#[test]
fn test_gate_reanchor_bypasses() {
    let mut gate = EngageGate::new();
    let reanchor = CorrectionSchedule {
        insert_every_n_frames: 0,
        drop_every_n_frames: 0,
        reanchor: true,
    };
    let admitted = gate.admit_plan(reanchor, false, false);
    assert!(admitted.reanchor, "reanchor must bypass the engage gate");
}

#[test]
fn test_gate_running_correction_replans_freely() {
    let mut gate = EngageGate::new();
    let admitted = gate.admit_plan(correcting_plan(), true, true);
    assert!(
        admitted.is_correcting(),
        "a running correction must replan without gating"
    );
    let disengage = gate.admit_plan(CorrectionSchedule::default(), true, true);
    assert!(
        !disengage.is_correcting(),
        "disengage must pass immediately"
    );
}

// -- Closed-loop stability --
//
// The planner, filter and gate are individually tested above, but the
// property that matters in the field is what they do *together* against a
// real plant. These tests close the loop: the correction the planner asks
// for is applied to a simulated audio timeline, the resulting error is fed
// back through the filter, and the loop runs for wall-clock minutes.
//
// The plant models the two forces that actually move the error:
//   1. the drop/insert cadence this module schedules, and
//   2. a constant clock-rate offset between the local sound card crystal
//      and the server clock — an ordinary tens-of-ppm mismatch that no
//      position-only controller can null out, so it re-accumulates error
//      between episodes.
//
// Parameters are measured, not invented. On a PipeWire host the process callback fires every 256.1ms (median of 66
// inter-callback intervals derived from logged callback counters; a
// 12288-frame quantum at 48kHz), and the idle-gap slope between correction
// episodes implies a ~50ppm clock offset. Those two values reproduce the
// field behaviour to within a few percent: a 148s limit cycle alternating
// a 27s 0.18% slow episode with a 7s 1.27% fast episode.

/// Measured PipeWire process-callback period (see module note above).
const PIPEWIRE_PERIOD: f64 = 0.2561;
/// Callback period the filter window was sized for ("~1s at the common
/// 10ms WASAPI period", per `SYNC_ERROR_WINDOW`).
const DESIGN_PERIOD: f64 = 0.010;
/// Sound-card/server clock-rate mismatch, as a fraction (50ppm).
const CLOCK_OFFSET: f64 = -50e-6;

/// One engaged correction episode observed by the harness.
#[derive(Debug, Clone, Copy)]
struct Episode {
    start_s: f64,
    duration_s: f64,
    /// Speed change applied, as a percentage (always positive).
    speed_pct: f64,
    error_at_engage_us: f64,
    error_at_disengage_us: f64,
}

/// Frames per second of the simulated stream.
const SAMPLE_RATE: u32 = 48_000;

/// Run the real planner/filter/gate in closed loop over `secs` of
/// simulated time and return every correction episode that engaged.
fn run_closed_loop(period_s: f64, secs: f64, planner: &CorrectionPlanner) -> Vec<Episode> {
    let mut filter = SyncErrorFilter::new();
    filter.set_callback_period((period_s * 1_000_000.0) as u64);
    let mut gate = EngageGate::new();
    let mut schedule = CorrectionSchedule::default();
    let mut error_us = 0.0f64;
    let mut t = 0.0f64;

    let mut episodes = Vec::new();
    let mut open: Option<(f64, f64, f64)> = None; // start_s, speed_pct, error at engage

    while t < secs {
        let filtered = filter.update(error_us.round() as i64);
        let planned = planner.plan(filtered, SAMPLE_RATE, schedule.is_correcting());
        schedule = gate.admit_plan(planned, schedule.is_correcting(), filter.is_warm());

        // A reanchor is a silent cursor jump, not a rate change: model it
        // as the error being zeroed and the estimator restarted.
        if schedule.reanchor {
            error_us = 0.0;
            filter.reset();
            gate.reset();
            schedule = CorrectionSchedule::default();
        }

        // Inserting frames stretches the timeline (error rises toward
        // zero); dropping frames compresses it (error falls).
        let rate = if schedule.insert_every_n_frames > 0 {
            1.0 / f64::from(schedule.insert_every_n_frames)
        } else if schedule.drop_every_n_frames > 0 {
            -1.0 / f64::from(schedule.drop_every_n_frames)
        } else {
            0.0
        };

        match (open, rate != 0.0) {
            (None, true) => open = Some((t, rate.abs() * 100.0, error_us)),
            (Some((start_s, speed_pct, engage_err)), false) => {
                episodes.push(Episode {
                    start_s,
                    duration_s: t - start_s,
                    speed_pct,
                    error_at_engage_us: engage_err,
                    error_at_disengage_us: error_us,
                });
                open = None;
            }
            _ => {}
        }

        error_us += (rate + CLOCK_OFFSET) * period_s * 1_000_000.0;
        t += period_s;
    }
    episodes
}

/// Corrections above ~1% are a clearly audible pitch shift (1% is a sixth
/// of a semitone); below ~0.5% they are inaudible on program material.
const AUDIBLE_SPEED_PCT: f64 = 1.0;

#[test]
fn test_closed_loop_is_quiet_at_the_design_callback_period() {
    // Sanity anchor for the harness: at the callback period the filter
    // window was sized for, the same loop against the same clock offset
    // stays inaudible. If this fails, the harness is wrong, not the code.
    let episodes = run_closed_loop(DESIGN_PERIOD, 1_200.0, &CorrectionPlanner::new());
    let worst = episodes.iter().map(|e| e.speed_pct).fold(0.0, f64::max);
    assert!(
        worst < AUDIBLE_SPEED_PCT,
        "at a {:.0}ms callback the loop should stay inaudible, but applied {:.2}%",
        DESIGN_PERIOD * 1000.0,
        worst,
    );
}

#[test]
fn test_closed_loop_does_not_limit_cycle_at_pipewire_callback_period() {
    // Field regression: a 256ms callback stretches SYNC_ERROR_WINDOW from
    // the ~1s it was designed for to ~26s. The floor then holds a stale
    // minimum for that whole window, so an episode planned to clear 3.6ms
    // in `target_seconds` (2s) instead runs ~27s and injects ~46ms of the
    // opposite error — which the next episode must remove at an audible
    // rate. The loop never settles.
    let episodes = run_closed_loop(PIPEWIRE_PERIOD, 1_200.0, &CorrectionPlanner::new());
    let audible: Vec<_> = episodes
        .iter()
        .filter(|e| e.speed_pct >= AUDIBLE_SPEED_PCT)
        .collect();
    assert!(
        audible.is_empty(),
        "loop limit-cycles at a {:.0}ms callback: {} audible episodes in 1200s, \
         worst {:.2}% for {:.1}s (first at t={:.0}s)",
        PIPEWIRE_PERIOD * 1000.0,
        audible.len(),
        audible.iter().map(|e| e.speed_pct).fold(0.0, f64::max),
        audible.iter().map(|e| e.duration_s).fold(0.0, f64::max),
        audible.first().map(|e| e.start_s).unwrap_or(0.0),
    );
}

#[test]
fn test_correction_episode_does_not_overshoot_past_its_target() {
    // An episode exists to remove the error it engaged on. Leaving a
    // larger error of the opposite sign means the corrector is the thing
    // creating the next episode's work.
    for &period in &[DESIGN_PERIOD, PIPEWIRE_PERIOD] {
        let episodes = run_closed_loop(period, 1_200.0, &CorrectionPlanner::new());
        for e in &episodes {
            // Some overshoot is unavoidable: the floor lags a rising error
            // by one window, and that dead time is inside the loop. What
            // must not happen is an episode leaving *grossly* more error
            // than it engaged on — that is the corrector manufacturing the
            // next episode's work, and it is what made the next episode
            // audible. One engage threshold of slop is the honest bound.
            let tolerated = e.error_at_engage_us.abs() + 3_000.0;
            assert!(
                e.error_at_disengage_us.abs() <= tolerated,
                "at a {:.0}ms callback, an episode engaged on {:.1}ms and \
                 disengaged on {:.1}ms after {:.1}s at {:.2}% — it overshot",
                period * 1000.0,
                e.error_at_engage_us / 1000.0,
                e.error_at_disengage_us / 1000.0,
                e.duration_s,
                e.speed_pct,
            );
        }
    }
}

#[test]
fn test_window_span_is_inactive_at_classic_callback_periods() {
    // The bound must not disturb backends that already work: cpal/WASAPI
    // periods keep the full sample window they were tuned with.
    for period_ms in [5, 10, 20] {
        assert_eq!(
            window_len_for_period(period_ms * 1_000),
            SYNC_ERROR_WINDOW,
            "{period_ms}ms callback should keep the full window"
        );
    }
    // 40ms is the longest classic period; 4s/40ms = 100 of 101 samples.
    assert_eq!(window_len_for_period(40_000), 100);
}

#[test]
fn test_window_shrinks_to_hold_the_span_at_long_callback_periods() {
    // PipeWire handing the stream a 12288-frame quantum at 48kHz.
    assert_eq!(window_len_for_period(256_100), 16);
    let span_s = 16.0 * 0.2561;
    assert!(
        span_s <= 4.5,
        "window should cover ~4s of wall time, covers {span_s:.1}s"
    );
}

#[test]
fn test_window_never_shrinks_below_the_floor_minimum() {
    // A floor over a couple of samples is one outlier away from useless.
    assert_eq!(window_len_for_period(10_000_000), MIN_SYNC_ERROR_WINDOW);
    assert_eq!(window_len_for_period(u64::MAX), MIN_SYNC_ERROR_WINDOW);
}

#[test]
fn test_unknown_callback_period_keeps_the_full_window() {
    assert_eq!(window_len_for_period(0), SYNC_ERROR_WINDOW);
}

#[test]
fn test_callback_period_change_discards_stale_history() {
    // Samples taken at a different wake cadence describe a different
    // window, so a period change must cool the filter rather than let a
    // stale floor decide the next engage.
    let mut filter = SyncErrorFilter::new();
    filter.set_callback_period(10_000);
    for _ in 0..SYNC_ERROR_WINDOW {
        filter.update(5_000);
    }
    assert!(
        filter.is_warm(),
        "filter should be warm after a full window"
    );

    filter.set_callback_period(256_100);
    assert!(!filter.is_warm(), "a period change must cool the filter");

    // ...and warm again on the new, shorter window.
    for _ in 0..window_len_for_period(256_100) {
        filter.update(5_000);
    }
    assert!(filter.is_warm());
}

#[test]
fn test_repeated_identical_period_does_not_cool_the_filter() {
    // The audio callback calls this every wake; it must be idempotent.
    let mut filter = SyncErrorFilter::new();
    filter.set_callback_period(256_100);
    for _ in 0..window_len_for_period(256_100) {
        filter.update(1_000);
    }
    assert!(filter.is_warm());
    filter.set_callback_period(256_100);
    assert!(filter.is_warm(), "same period must not reset the window");
}

#[test]
fn test_closed_loop_stays_inaudible_across_the_callback_period_range() {
    // Backends hand out very different quanta; none of them may push the
    // loop into an audible limit cycle.
    for period_ms in [5.0, 10.0, 20.0, 40.0, 64.0, 128.0, 256.1, 512.0] {
        let period_s = period_ms / 1000.0;
        let episodes = run_closed_loop(period_s, 2_400.0, &CorrectionPlanner::new());
        let worst = episodes.iter().map(|e| e.speed_pct).fold(0.0, f64::max);
        assert!(
            worst < AUDIBLE_SPEED_PCT,
            "at a {period_ms}ms callback the loop applied {worst:.2}%"
        );
    }
}
