//! Sync correction planner for drop/insert cadence, plus the measurement
//! filter and engage gate that keep it off phantom errors.

use vstd::prelude::*;

verus! {

/// Correction schedule for drop/insert cadence.
#[derive(Debug, Clone, Copy, PartialEq, Eq, Structural)]
pub struct CorrectionSchedule {
    /// Insert one frame every N frames (0 disables).
    pub insert_every_n_frames: u32,
    /// Drop one frame every N frames (0 disables).
    pub drop_every_n_frames: u32,
    /// True when re-anchoring is required.
    pub reanchor: bool,
}

impl CorrectionSchedule {
    /// The schedule that leaves the audio alone.
    pub open spec fn idle() -> Self {
        CorrectionSchedule { insert_every_n_frames: 0, drop_every_n_frames: 0, reanchor: false }
    }

    /// Whether any correction (insert, drop, or reanchor) is active.
    pub open spec fn correcting(self) -> bool {
        self.insert_every_n_frames > 0 || self.drop_every_n_frames > 0 || self.reanchor
    }

    /// True when any correction (insert, drop, or reanchor) is active.
    pub fn is_correcting(&self) -> (r: bool)
        ensures
            r == self.correcting(),
    {
        self.insert_every_n_frames > 0 || self.drop_every_n_frames > 0 || self.reanchor
    }
}

impl Default for CorrectionSchedule {
    fn default() -> (r: Self)
        ensures
            r == CorrectionSchedule::idle(),
    {
        CorrectionSchedule { insert_every_n_frames: 0, drop_every_n_frames: 0, reanchor: false }
    }
}

/// Error magnitude at or below which a running correction stops.
pub const DEADBAND_US: i64 = 1_500;

/// Error magnitude that must be exceeded before a correction starts.
pub const ENGAGE_US: i64 = 3_000;

/// Error magnitude from which the cursor is re-anchored instead.
pub const REANCHOR_THRESHOLD_US: i64 = 500_000;

/// Time over which a correction aims to remove the whole error.
pub const TARGET_SECONDS: u64 = 2;

/// Fastest correction allowed, in corrected frames per hundred frames played.
pub const MAX_SPEED_CORRECTION_PERCENT: u64 = 4;

/// Magnitude of `error_us`, saturating at `i64::MAX`.
pub open spec fn error_magnitude(error_us: i64) -> int {
    if error_us == i64::MIN {
        i64::MAX as int
    } else if error_us < 0 {
        -error_us
    } else {
        error_us as int
    }
}

/// `numerator / denominator` rounded to the nearest integer, halves up.
pub open spec fn round_div(numerator: int, denominator: int) -> int
    recommends
        denominator > 0,
{
    (2 * numerator + denominator) / (2 * denominator)
}

/// Frames between two corrections: one frame in every `2 s / magnitude`, so that
/// `TARGET_SECONDS` of frames remove the whole error, but never more than
/// `MAX_SPEED_CORRECTION_PERCENT` of the frames.
pub open spec fn correction_interval(magnitude: int) -> int {
    if magnitude <= 80_000 {
        round_div(2_000_000, magnitude)
    } else {
        25
    }
}

/// The schedule planned for `error_us` at `sample_rate`.
pub open spec fn planned_schedule(
    error_us: i64,
    sample_rate: u32,
    currently_correcting: bool,
) -> CorrectionSchedule {
    let magnitude = error_magnitude(error_us);
    let threshold = if currently_correcting {
        DEADBAND_US
    } else {
        ENGAGE_US
    };
    if magnitude <= threshold {
        CorrectionSchedule::idle()
    } else if magnitude >= REANCHOR_THRESHOLD_US {
        CorrectionSchedule { insert_every_n_frames: 0, drop_every_n_frames: 0, reanchor: true }
    } else if sample_rate == 0 {
        CorrectionSchedule::idle()
    } else if error_us > 0 {
        CorrectionSchedule {
            insert_every_n_frames: 0,
            drop_every_n_frames: correction_interval(error_us as int) as u32,
            reanchor: false,
        }
    } else {
        CorrectionSchedule {
            insert_every_n_frames: correction_interval(-error_us) as u32,
            drop_every_n_frames: 0,
            reanchor: false,
        }
    }
}

/// Planner that converts sync error into a correction schedule.
///
/// Uses hysteresis to prevent oscillation at the deadband boundary:
/// correction engages at `engage_us` and disengages at `deadband_us`.
#[derive(Debug, Clone, Copy)]
pub struct CorrectionPlanner {
    deadband_us: i64,
    engage_us: i64,
    reanchor_threshold_us: i64,
    target_seconds: u64,
    max_speed_correction_percent: u64,
}

impl CorrectionPlanner {
    /// The planner with the default thresholds, cadence target and speed cap.
    pub closed spec fn with_defaults() -> Self {
        CorrectionPlanner {
            deadband_us: DEADBAND_US,
            engage_us: ENGAGE_US,
            reanchor_threshold_us: REANCHOR_THRESHOLD_US,
            target_seconds: TARGET_SECONDS,
            max_speed_correction_percent: MAX_SPEED_CORRECTION_PERCENT,
        }
    }

    #[verifier::type_invariant]
    spec fn has_defaults(self) -> bool {
        self == Self::with_defaults()
    }

    /// Create a planner with default thresholds.
    pub fn new() -> (r: Self)
        ensures
            r == Self::with_defaults(),
    {
        CorrectionPlanner {
            deadband_us: DEADBAND_US,
            engage_us: ENGAGE_US,
            reanchor_threshold_us: REANCHOR_THRESHOLD_US,
            target_seconds: TARGET_SECONDS,
            max_speed_correction_percent: MAX_SPEED_CORRECTION_PERCENT,
        }
    }

    /// Plan a correction schedule from sync error and sample rate.
    ///
    /// `error_us` is the sync error in microseconds (positive = ahead, negative = behind).
    /// `currently_correcting` controls hysteresis: when already correcting, the lower
    /// deadband threshold is used instead of the engage threshold.
    pub fn plan(
        &self,
        error_us: i64,
        sample_rate: u32,
        currently_correcting: bool,
    ) -> (r: CorrectionSchedule)
        ensures
            r == planned_schedule(error_us, sample_rate, currently_correcting),
    {
        proof {
            use_type_invariant(self);
        }
        let abs_error: i64 = if error_us == i64::MIN {
            i64::MAX
        } else if error_us < 0 {
            -error_us
        } else {
            error_us
        };

        // Hysteresis: use lower threshold to keep correcting, higher to start.
        let threshold: i64 = if currently_correcting {
            self.deadband_us
        } else {
            self.engage_us
        };
        if abs_error <= threshold {
            return CorrectionSchedule::default();
        }
        if abs_error >= self.reanchor_threshold_us {
            return CorrectionSchedule {
                insert_every_n_frames: 0,
                drop_every_n_frames: 0,
                reanchor: true,
            };
        }
        if sample_rate == 0 {
            return CorrectionSchedule::default();
        }
        let interval_frames: u32 = self.interval_frames(abs_error as u64, sample_rate);
        if error_us > 0 {
            CorrectionSchedule {
                insert_every_n_frames: 0,
                drop_every_n_frames: interval_frames,
                reanchor: false,
            }
        } else {
            CorrectionSchedule {
                insert_every_n_frames: interval_frames,
                drop_every_n_frames: 0,
                reanchor: false,
            }
        }
    }

    /// Frames between corrections for an error inside the correctable range.
    fn interval_frames(&self, magnitude: u64, sample_rate: u32) -> (r: u32)
        requires
            DEADBAND_US < magnitude < REANCHOR_THRESHOLD_US,
            0 < sample_rate,
        ensures
            r == correction_interval(magnitude as int),
    {
        proof {
            use_type_invariant(self);
            assert(magnitude * sample_rate <= 500_000 * 0xffff_ffff) by (nonlinear_arith)
                requires
                    magnitude < 500_000,
                    sample_rate <= 0xffff_ffff,
            ;
            assert(0 < magnitude * sample_rate) by (nonlinear_arith)
                requires
                    0 < magnitude,
                    0 < sample_rate,
            ;
            law_cadence_is_rate_over_corrections(magnitude as int, sample_rate);
            law_cadence_is_capped(magnitude as int);
        }
        let scale: u64 = self.target_seconds * 1_000_000;
        let rate: u64 = sample_rate as u64;
        let desired: u64 = magnitude * rate;
        let max: u64 = (scale / 100 * self.max_speed_correction_percent) * rate;
        let corrections: u64 = if desired <= max {
            desired
        } else {
            max
        };
        let interval: u64 = (2 * (scale * rate) + corrections) / (2 * corrections);
        interval as u32
    }
}

impl Default for CorrectionPlanner {
    fn default() -> (r: Self)
        ensures
            r == Self::with_defaults(),
    {
        Self::new()
    }
}

/// Upper bound on measurements kept by [`SyncErrorFilter`]. 101 callbacks is
/// ~1s at the common 10ms WASAPI period (2-4s on 20-40ms periods): long enough
/// that the floor mode gets sampled even through dense flapping, short enough
/// that a real displacement reaches the output within about a second.
///
/// This is a *sample* count, so on backends with a long callback period it no
/// longer describes the same amount of time. See [`SYNC_ERROR_WINDOW_SPAN_US`].
pub const SYNC_ERROR_WINDOW: usize = 101;

/// Wall-clock span the floor window is allowed to cover.
///
/// The window exists to outlast padding-jitter flapping, which is a
/// *time*-domain phenomenon. The floor lags a rising error by one whole window,
/// so that lag is dead time in the correction loop: once it grows past a few
/// seconds the loop overshoots every episode and limit-cycles, audibly.
///
/// 10ms and 20ms callbacks still clamp to 101 samples and 40ms lands on 100,
/// while every longer period is held to the same 4s.
pub const SYNC_ERROR_WINDOW_SPAN_US: u64 = 4_000_000;

/// Floor over fewer than this many samples is too easy for a single outlier to
/// dominate, so the span bound never shrinks the window below it.
pub const MIN_SYNC_ERROR_WINDOW: usize = 8;

/// Window length for a callback period: the samples that fit in
/// [`SYNC_ERROR_WINDOW_SPAN_US`], rounded up, kept inside the supported range.
pub open spec fn window_for_period(period_us: int) -> int {
    if period_us == 0 {
        SYNC_ERROR_WINDOW as int
    } else {
        let fits = (SYNC_ERROR_WINDOW_SPAN_US + period_us - 1) / period_us;
        if fits < MIN_SYNC_ERROR_WINDOW {
            MIN_SYNC_ERROR_WINDOW as int
        } else if fits > SYNC_ERROR_WINDOW {
            SYNC_ERROR_WINDOW as int
        } else {
            fits
        }
    }
}

/// Number of samples whose span stays within [`SYNC_ERROR_WINDOW_SPAN_US`] at
/// the given callback period, clamped to the supported window range.
pub fn window_len_for_period(period_us: u64) -> (r: usize)
    ensures
        r == window_for_period(period_us as int),
{
    if period_us == 0 {
        return SYNC_ERROR_WINDOW;
    }
    let whole: u64 = SYNC_ERROR_WINDOW_SPAN_US / period_us;
    let fits: u64 = if SYNC_ERROR_WINDOW_SPAN_US % period_us == 0 {
        whole
    } else {
        whole + 1
    };
    proof {
        lemma_ceiling_division(SYNC_ERROR_WINDOW_SPAN_US as int, period_us as int);
    }
    if fits < MIN_SYNC_ERROR_WINDOW as u64 {
        MIN_SYNC_ERROR_WINDOW
    } else if fits > SYNC_ERROR_WINDOW as u64 {
        SYNC_ERROR_WINDOW
    } else {
        fits as usize
    }
}

/// Rounding a quotient up: one more than the floor unless it divides evenly.
proof fn lemma_ceiling_division(n: int, d: int)
    requires
        0 <= n,
        0 < d,
    ensures
        (n + d - 1) / d == (if n % d == 0 {
            n / d
        } else {
            n / d + 1
        }),
        0 <= n / d <= n,
{
    vstd::arithmetic::div_mod::lemma_fundamental_div_mod(n, d);
    vstd::arithmetic::div_mod::lemma_mod_bound(n, d);
    let q = n / d;
    let m = n % d;
    if m == 0 {
        assert(n + d - 1 == q * d + (d - 1)) by (nonlinear_arith)
            requires
                n == d * q,
        ;
        vstd::arithmetic::div_mod::lemma_fundamental_div_mod_converse(n + d - 1, d, q, d - 1);
    } else {
        assert(n + d - 1 == (q + 1) * d + (m - 1)) by (nonlinear_arith)
            requires
                n == d * q + m,
        ;
        vstd::arithmetic::div_mod::lemma_fundamental_div_mod_converse(
            n + d - 1,
            d,
            q + 1,
            m - 1,
        );
    }
    vstd::arithmetic::div_mod::lemma_div_pos_is_pos(n, d);
    vstd::arithmetic::div_mod::lemma_div_nonincreasing(n, d);
}

/// The last `n` elements of `s`, or all of them if there are fewer.
pub open spec fn last_n(s: Seq<i64>, n: nat) -> Seq<i64> {
    if s.len() <= n {
        s
    } else {
        s.skip(s.len() - n)
    }
}

/// `m` is the smallest element of `s`.
pub open spec fn is_floor(s: Seq<i64>, m: i64) -> bool {
    &&& s.contains(m)
    &&& forall|i: int| 0 <= i < s.len() ==> m <= #[trigger] s[i]
}

/// The smallest element of `s`.
pub open spec fn floor_of(s: Seq<i64>) -> i64 {
    choose|m: i64| is_floor(s, m)
}

/// A sequence has one smallest element at most.
pub proof fn lemma_floor_is_unique(s: Seq<i64>, m: i64)
    requires
        is_floor(s, m),
    ensures
        floor_of(s) == m,
{
    let other = floor_of(s);
    assert(is_floor(s, other));
    let i = s.index_of(m);
    let j = s.index_of(other);
    assert(s[i] == m && s[j] == other);
}

/// What a [`SyncErrorFilter`] holds: its measurements, oldest first, the number
/// of them that fill its window, and the callback period they were taken at.
pub struct FilterState {
    pub recent: Seq<i64>,
    pub window: nat,
    /// The callback period set last, in microseconds; 0 if it is unknown.
    pub period_us: Option<u64>,
}

impl FilterState {
    /// A filter that has not measured anything and knows no callback period.
    pub open spec fn fresh() -> Self {
        FilterState { recent: Seq::empty(), window: SYNC_ERROR_WINDOW as nat, period_us: None }
    }

    /// The window is the one for the callback period.
    pub open spec fn wf(self) -> bool {
        self.window == match self.period_us {
            Some(period_us) => window_for_period(period_us as int),
            None => SYNC_ERROR_WINDOW as int,
        }
    }

    /// The filter without its measurements.
    pub open spec fn emptied(self) -> Self {
        FilterState { recent: Seq::empty(), ..self }
    }

    /// The filter after one more measurement: the oldest one leaves once the
    /// window is full.
    pub open spec fn measured(self, raw_error_us: i64) -> Self {
        FilterState { recent: last_n(self.recent.push(raw_error_us), self.window), ..self }
    }

    /// Whether the callback period is known.
    pub open spec fn knows_period(self) -> bool {
        self.period_us matches Some(period_us) && period_us != 0
    }

    /// The filter for callbacks every `period_us`. A change from a known period
    /// discards the measurements, whether or not it changes the window. As long
    /// as the period is unknown, only a change of the window does.
    pub open spec fn at_period(self, period_us: u64) -> Self {
        if self.period_us == Some(period_us) {
            self
        } else if !self.knows_period() && window_for_period(period_us as int) == self.window {
            FilterState { period_us: Some(period_us), ..self }
        } else {
            FilterState {
                recent: Seq::empty(),
                window: window_for_period(period_us as int) as nat,
                period_us: Some(period_us),
            }
        }
    }

    /// Whether the window is fully populated.
    pub open spec fn warm(self) -> bool {
        self.recent.len() == self.window
    }
}

/// Windowed minimum (floor tracker) over recent sync-error measurements.
///
/// Audio presentation timestamps are quantized to the engine period: under
/// scheduler jitter the wake-time padding snapshot jumps *up* by whole
/// periods while the endpoint FIFO plays gaplessly. The noise is one-sided —
/// extra queued padding can only make a reading later, never earlier — so the
/// window floor is the honest alignment estimate: it holds regardless of
/// which mode has the majority, so long as the floor mode is sampled at
/// least once per window. A real displacement shifts every reading *including
/// the floor*, so it still reaches the planner within one window.
///
/// The response is deliberately asymmetric: a drop in error propagates
/// immediately, while a rise propagates only once the old floor ages out of
/// the window — exactly the conservatism an engage decision wants.
///
/// Allocation-free, O(window) scan per update; sized for the audio callback.
#[derive(Debug, Clone)]
pub struct SyncErrorFilter {
    samples: [i64; SYNC_ERROR_WINDOW],
    len: usize,
    next: usize,
    /// Live window length: `SYNC_ERROR_WINDOW` until a callback period is
    /// observed, then whatever fits in [`SYNC_ERROR_WINDOW_SPAN_US`].
    window: usize,
    /// The callback period that the window was sized for, once one is observed.
    period_us: Option<u64>,
}

impl View for SyncErrorFilter {
    type V = FilterState;

    closed spec fn view(&self) -> FilterState {
        FilterState {
            recent: if self.len < self.window {
                self.samples@.subrange(0, self.len as int)
            } else {
                self.samples@.subrange(self.next as int, self.window as int)
                    + self.samples@.subrange(0, self.next as int)
            },
            window: self.window as nat,
            period_us: self.period_us,
        }
    }
}

impl SyncErrorFilter {
    /// The ring indices are in range, and while the ring fills for the first
    /// time the live samples are its prefix.
    pub closed spec fn wf(&self) -> bool {
        &&& MIN_SYNC_ERROR_WINDOW <= self.window <= SYNC_ERROR_WINDOW
        &&& self.len <= self.window
        &&& self.next < self.window
        &&& self.len < self.window ==> self.next == self.len
    }

    /// Create an empty (cold) filter.
    pub fn new() -> (r: Self)
        ensures
            r.wf(),
            r@ == FilterState::fresh(),
    {
        let r = SyncErrorFilter {
            samples: [0;SYNC_ERROR_WINDOW],
            len: 0,
            next: 0,
            window: SYNC_ERROR_WINDOW,
            period_us: None,
        };
        assert(r@.recent =~= Seq::empty());
        r
    }

    /// Size the window to the observed callback period.
    ///
    /// Cheap and idempotent, so the audio callback can call it every wake; a
    /// period change discards the history, since samples taken at a different
    /// wake cadence describe a different window. A period of 0 is unknown: from
    /// there, as from a new filter, a period that keeps the window keeps the
    /// history too.
    pub fn set_callback_period(&mut self, period_us: u64)
        requires
            old(self).wf(),
        ensures
            final(self).wf(),
            final(self)@ == old(self)@.at_period(period_us),
    {
        let known: u64 = match self.period_us {
            Some(known) => {
                if known == period_us {
                    return;
                }
                known
            },
            None => 0,
        };
        let window: usize = window_len_for_period(period_us);
        self.period_us = Some(period_us);
        if known == 0 && window == self.window {
            return;
        }
        self.window = window;
        self.len = 0;
        self.next = 0;
        assert(self@.recent =~= Seq::empty());
    }

    /// Discard all samples, e.g. after a reanchor or generation change made
    /// prior measurements meaningless.
    pub fn reset(&mut self)
        requires
            old(self).wf(),
        ensures
            final(self).wf(),
            final(self)@ == old(self)@.emptied(),
    {
        self.len = 0;
        self.next = 0;
        assert(self@.recent =~= Seq::empty());
    }

    /// True once the window is fully populated. A floor over a partial
    /// window is still returned by [`SyncErrorFilter::update`], but engage
    /// decisions should wait for warmth (see [`EngageGate`]).
    pub fn is_warm(&self) -> (r: bool)
        requires
            self.wf(),
        ensures
            r == self@.warm(),
    {
        self.len == self.window
    }

    /// Record a raw error measurement (µs) and return the windowed minimum.
    pub fn update(&mut self, raw_error_us: i64) -> (r: i64)
        requires
            old(self).wf(),
        ensures
            final(self).wf(),
            final(self)@ == old(self)@.measured(raw_error_us),
            is_floor(final(self)@.recent, r),
    {
        let slot: usize = self.next;
        self.samples[slot] = raw_error_us;
        self.next = if slot + 1 == self.window {
            0
        } else {
            slot + 1
        };
        if self.len < self.window {
            self.len = self.len + 1;
        }
        assert(self@.recent =~= old(self)@.measured(raw_error_us).recent);
        // While filling, the live samples are the contiguous prefix
        // (next == len until the first wrap); afterwards the whole window.
        // Stale slots past `len` are never read.
        let mut floor: i64 = self.samples[0];
        let mut i: usize = 1;
        let ghost mut at: int = 0;
        while i < self.len
            invariant
                self.wf(),
                1 <= i <= self.len,
                0 <= at < i,
                self.samples@[at] == floor,
                forall|j: int| 0 <= j < i ==> floor <= #[trigger] self.samples@[j],
            decreases self.len - i,
        {
            let sample: i64 = self.samples[i];
            if sample < floor {
                floor = sample;
                proof {
                    at = i as int;
                }
            }
            i += 1;
        }
        proof {
            if self.len < self.window {
                assert(self@.recent[at] == floor);
            } else if at >= self.next {
                assert(self@.recent[at - self.next] == floor);
            } else {
                assert(self@.recent[self.window - self.next + at] == floor);
            }
        }
        floor
    }
}

impl Default for SyncErrorFilter {
    fn default() -> (r: Self)
        ensures
            r.wf(),
            r@ == FilterState::fresh(),
    {
        Self::new()
    }
}

/// Consecutive correcting plans required before a correction may engage from
/// idle: ~0.5s at a 10ms callback period. Filtered errors already move at
/// window timescale, so a genuine displacement holds the streak trivially;
/// the engage gate keeps engagement evidence-backed across filter resets and
/// warm-up, when the estimate is least trustworthy.
pub const ENGAGE_STREAK_PLANS: u32 = 50;

/// One planned schedule put to an [`EngageGate`], with what the engage gate is told
/// about the stream.
pub struct GateInput {
    pub planned: CorrectionSchedule,
    pub currently_correcting: bool,
    pub filter_warm: bool,
}

impl GateInput {
    /// Whether the plan would start a correction on an idle stream, other than
    /// by re-anchoring: the plans that the engage gate counts.
    pub open spec fn would_engage(self) -> bool {
        !self.planned.reanchor && !self.currently_correcting && self.planned.correcting()
    }

    /// The streak after this plan, from a streak of `streak`.
    pub open spec fn next_streak(self, streak: u32) -> u32 {
        if !self.would_engage() {
            0
        } else if streak == u32::MAX {
            u32::MAX
        } else {
            (streak + 1) as u32
        }
    }

    /// The schedule that the engage gate lets through, from a streak of `streak`.
    pub open spec fn admitted(self, streak: u32) -> CorrectionSchedule {
        if !self.would_engage() || (self.filter_warm && self.next_streak(streak)
            >= ENGAGE_STREAK_PLANS) {
            self.planned
        } else {
            CorrectionSchedule::idle()
        }
    }
}

/// Gate between the planner and the applied schedule: an idle stream only
/// starts correcting after a sustained run of correcting plans over a warm
/// filter. Every engaged correction mutates real audio (dropped or repeated
/// frames are audible as ticks), so engagement must be evidence-backed;
/// disengagement and replanning of a running correction stay immediate
/// because stopping or retuning is never audible.
#[derive(Debug, Clone)]
pub struct EngageGate {
    streak: u32,
}

impl View for EngageGate {
    type V = u32;

    /// The number of consecutive correcting plans so far.
    closed spec fn view(&self) -> u32 {
        self.streak
    }
}

impl EngageGate {
    /// Create a gate with no accumulated streak.
    pub fn new() -> (r: Self)
        ensures
            r@ == 0,
    {
        EngageGate { streak: 0 }
    }

    /// Clear the accumulated streak.
    pub fn reset(&mut self)
        ensures
            final(self)@ == 0,
    {
        self.streak = 0;
    }

    /// Admit or suppress a planned schedule.
    ///
    /// `currently_correcting` is whether a correction episode is already
    /// running; `filter_warm` is whether the error filter window is fully
    /// populated. Reanchor plans always pass: they indicate gross real
    /// displacement where a delayed reaction is worse than a rare false
    /// positive.
    pub fn admit_plan(
        &mut self,
        planned: CorrectionSchedule,
        currently_correcting: bool,
        filter_warm: bool,
    ) -> (r: CorrectionSchedule)
        ensures
            final(self)@ == (GateInput { planned, currently_correcting, filter_warm }).next_streak(
                old(self)@,
            ),
            r == (GateInput { planned, currently_correcting, filter_warm }).admitted(old(self)@),
    {
        if planned.reanchor || currently_correcting || !planned.is_correcting() {
            self.streak = 0;
            return planned;
        }
        self.streak = self.streak.saturating_add(1);
        if filter_warm && self.streak >= ENGAGE_STREAK_PLANS {
            planned
        } else {
            CorrectionSchedule::default()
        }
    }
}

impl Default for EngageGate {
    fn default() -> (r: Self)
        ensures
            r@ == 0,
    {
        Self::new()
    }
}

// -- Laws of the planner --

/// A plan does one thing at most: it inserts, or drops, or re-anchors.
pub proof fn law_plan_does_one_thing(error_us: i64, sample_rate: u32, currently_correcting: bool)
    ensures
        ({
            let plan = planned_schedule(error_us, sample_rate, currently_correcting);
            &&& !(plan.insert_every_n_frames > 0 && plan.drop_every_n_frames > 0)
            &&& plan.reanchor ==> plan.insert_every_n_frames == 0 && plan.drop_every_n_frames == 0
            &&& plan.drop_every_n_frames > 0 ==> error_us > 0
            &&& plan.insert_every_n_frames > 0 ==> error_us < 0
        }),
{
}

/// A correction engages only above 3 ms and, once running, stops only at
/// 1.5 ms or below: a plan that engages from idle is the plan of a running
/// correction too, and between the two thresholds the stream keeps doing what
/// it does. From 500 ms on the plan is a re-anchor either way.
pub proof fn law_hysteresis(error_us: i64, sample_rate: u32)
    requires
        sample_rate > 0,
    ensures
        ({
            let magnitude = error_magnitude(error_us);
            let from_idle = planned_schedule(error_us, sample_rate, false);
            let running = planned_schedule(error_us, sample_rate, true);
            &&& from_idle.correcting() <==> magnitude > 3_000
            &&& running.correcting() <==> magnitude > 1_500
            &&& from_idle.correcting() ==> running == from_idle
            &&& from_idle.reanchor <==> magnitude >= 500_000
            &&& running.reanchor <==> magnitude >= 500_000
        }),
{
    if 1_500 < error_magnitude(error_us) < 500_000 {
        law_cadence_is_capped(error_magnitude(error_us));
    }
}

/// Opposite errors get mirrored plans: one drops at the cadence at which the
/// other inserts.
pub proof fn law_plan_is_symmetric(error_us: i64, sample_rate: u32, currently_correcting: bool)
    requires
        error_us != i64::MIN,
    ensures
        ({
            let plan = planned_schedule(error_us, sample_rate, currently_correcting);
            let mirror = planned_schedule((-error_us) as i64, sample_rate, currently_correcting);
            &&& mirror.insert_every_n_frames == plan.drop_every_n_frames
            &&& mirror.drop_every_n_frames == plan.insert_every_n_frames
            &&& mirror.reanchor == plan.reanchor
        }),
{
}

/// Frames corrected per second, scaled by 2,000,000 so that it is a whole
/// number: the rate that removes `magnitude` microseconds of error in
/// `TARGET_SECONDS`, capped at `MAX_SPEED_CORRECTION_PERCENT` of the sample rate.
pub open spec fn scaled_corrections_per_sec(magnitude: int, sample_rate: int) -> int {
    let desired = magnitude * sample_rate;
    let max = 80_000 * sample_rate;
    if desired <= max {
        desired
    } else {
        max
    }
}

/// The cadence is the sample rate over the corrections per second, rounded, and
/// the sample rate cancels out of it.
pub proof fn law_cadence_is_rate_over_corrections(magnitude: int, sample_rate: u32)
    requires
        0 < magnitude,
        0 < sample_rate,
    ensures
        correction_interval(magnitude) == round_div(
            2_000_000 * sample_rate,
            scaled_corrections_per_sec(magnitude, sample_rate as int),
        ),
{
    let rate = sample_rate as int;
    let m = if magnitude <= 80_000 {
        magnitude
    } else {
        80_000int
    };
    assert(scaled_corrections_per_sec(magnitude, rate) == m * rate) by (nonlinear_arith)
        requires
            0 < rate,
            m == (if magnitude <= 80_000 {
                magnitude
            } else {
                80_000int
            }),
            scaled_corrections_per_sec(magnitude, rate) == (if magnitude * rate <= 80_000 * rate {
                magnitude * rate
            } else {
                80_000 * rate
            }),
    ;
    let a = 2 * 2_000_000 + m;
    let b = 2 * m;
    assert(2 * (2_000_000 * rate) + m * rate == rate * a) by (nonlinear_arith)
        requires
            a == 2 * 2_000_000 + m,
    ;
    assert(2 * (m * rate) == rate * b) by (nonlinear_arith)
        requires
            b == 2 * m,
    ;
    vstd::arithmetic::div_mod::lemma_div_multiples_vanish_quotient(rate, a, b);
    assert(round_div(2_000_000, 80_000) == 4_080_000int / 160_000);
}

/// Inside the correctable range one frame in 25 (4%) is corrected at most, and
/// one in 1332 at least.
pub proof fn law_cadence_is_capped(magnitude: int)
    requires
        1_500 < magnitude < 500_000,
    ensures
        25 <= correction_interval(magnitude) <= 1_332,
        magnitude >= 80_000 ==> correction_interval(magnitude) == 25,
{
    let m = if magnitude <= 80_000 {
        magnitude
    } else {
        80_000int
    };
    lemma_round_div_antitone(2_000_000, m, 80_000);
    lemma_round_div_antitone(2_000_000, 1_501, m);
    assert(round_div(2_000_000, 80_000) == 4_080_000int / 160_000);
    assert(round_div(2_000_000, 1_501) == 4_001_501int / 3_002);
}

/// A larger error is never corrected more slowly.
pub proof fn law_larger_errors_correct_faster(smaller: int, larger: int)
    requires
        0 < smaller <= larger,
    ensures
        correction_interval(larger) <= correction_interval(smaller),
{
    let s = if smaller <= 80_000 {
        smaller
    } else {
        80_000int
    };
    let l = if larger <= 80_000 {
        larger
    } else {
        80_000int
    };
    lemma_round_div_antitone(2_000_000, s, l);
    assert(round_div(2_000_000, 80_000) == 4_080_000int / 160_000);
}

proof fn lemma_round_div_antitone(n: int, d1: int, d2: int)
    requires
        0 <= n,
        0 < d1 <= d2,
    ensures
        round_div(n, d2) <= round_div(n, d1),
{
    let q = round_div(n, d2);
    let p = round_div(n, d1);
    vstd::arithmetic::div_mod::lemma_fundamental_div_mod(2 * n + d2, 2 * d2);
    vstd::arithmetic::div_mod::lemma_fundamental_div_mod(2 * n + d1, 2 * d1);
    vstd::arithmetic::div_mod::lemma_mod_bound(2 * n + d2, 2 * d2);
    vstd::arithmetic::div_mod::lemma_mod_bound(2 * n + d1, 2 * d1);
    vstd::arithmetic::div_mod::lemma_div_pos_is_pos(2 * n + d2, 2 * d2);
    // q <= (2n + d2) / 2d2 gives (2q - 1) d2 <= 2n, and p < q would give 2n < (2p + 1) d1.
    assert(p >= q) by (nonlinear_arith)
        requires
            0 < d1 <= d2,
            0 <= q,
            (2 * d2) * q <= 2 * n + d2,
            2 * n + d1 < (2 * d1) * p + 2 * d1,
            0 <= n,
    {
        if p < q {
            assert(2 * n < d1 * (2 * p + 1));
            assert((2 * q - 1) * d2 <= 2 * n);
            assert(2 * p + 1 <= 2 * q - 1);
            assert(d1 * (2 * p + 1) <= d1 * (2 * q - 1));
            assert(d1 * (2 * q - 1) <= d2 * (2 * q - 1));
        }
    }
}

// -- Laws of the filter --

/// The filter after measuring `history`.
pub open spec fn after_measuring(filter: FilterState, history: Seq<i64>) -> FilterState
    decreases history.len(),
{
    if history.len() == 0 {
        filter
    } else {
        after_measuring(filter, history.drop_last()).measured(history.last())
    }
}

/// A filter that starts empty holds exactly the last `window` measurements, whatever came
/// before them: a measurement leaves exactly `window` updates after it was
/// recorded, and the filter is warm from the `window`-th measurement on.
pub proof fn law_filter_holds_the_last_window(filter: FilterState, history: Seq<i64>)
    requires
        filter.window > 0,
        filter.recent.len() == 0,
    ensures
        after_measuring(filter, history).recent == last_n(history, filter.window),
        after_measuring(filter, history).window == filter.window,
        after_measuring(filter, history).period_us == filter.period_us,
        after_measuring(filter, history).warm() <==> history.len() >= filter.window,
    decreases history.len(),
{
    if history.len() > 0 {
        let before = history.drop_last();
        law_filter_holds_the_last_window(filter, before);
        assert(before.push(history.last()) =~= history);
        assert(last_n(last_n(before, filter.window).push(history.last()), filter.window) =~= last_n(
            history,
            filter.window,
        ));
    } else {
        assert(last_n(history, filter.window) =~= history);
    }
}

/// A drop propagates at once: a measurement no larger than those in the window
/// is the next floor.
pub proof fn law_floor_follows_a_drop_immediately(filter: FilterState, raw_error_us: i64, floor: i64)
    requires
        filter.window > 0,
        forall|i: int|
            0 <= i < filter.recent.len() ==> raw_error_us <= #[trigger] filter.recent[i],
        is_floor(filter.measured(raw_error_us).recent, floor),
    ensures
        floor == raw_error_us,
{
    let all = filter.recent.push(raw_error_us);
    let kept = filter.measured(raw_error_us).recent;
    assert(kept[kept.len() - 1] == raw_error_us);
    let i = kept.index_of(floor);
    assert(kept[i] == floor);
    assert(kept[i] == all[all.len() - kept.len() + i]);
}

/// A rise has to outlast the window: as long as a low measurement is among the
/// last `window`, the floor is not above it, however many higher ones there are.
pub proof fn law_floor_ignores_rises_while_a_low_is_in_the_window(
    filter: FilterState,
    history: Seq<i64>,
    at: int,
    floor: i64,
)
    requires
        filter.window > 0,
        filter.recent.len() == 0,
        0 <= at < history.len(),
        history.len() - filter.window <= at,
        is_floor(after_measuring(filter, history).recent, floor),
    ensures
        floor <= history[at],
        (forall|i: int|
            0 <= i < history.len() && history.len() - filter.window <= i ==> history[at]
                <= #[trigger] history[i]) ==> floor == history[at],
{
    law_filter_holds_the_last_window(filter, history);
    let kept = last_n(history, filter.window);
    let offset = history.len() - kept.len();
    assert(kept[at - offset] == history[at]);
    let i = kept.index_of(floor);
    assert(kept[i] == floor);
    assert(kept[i] == history[offset + i]);
}

/// A persistent rise reaches the output: once every measurement in the window
/// is at least `level`, so is the floor.
pub proof fn law_floor_follows_a_persistent_rise(
    filter: FilterState,
    history: Seq<i64>,
    level: i64,
    floor: i64,
)
    requires
        filter.window > 0,
        filter.recent.len() == 0,
        forall|i: int|
            0 <= i < history.len() && history.len() - filter.window <= i ==> level <= #[trigger] history[i],
        is_floor(after_measuring(filter, history).recent, floor),
    ensures
        level <= floor,
{
    law_filter_holds_the_last_window(filter, history);
    let kept = last_n(history, filter.window);
    let i = kept.index_of(floor);
    assert(kept[i] == floor);
    assert(kept[i] == history[history.len() - kept.len() + i]);
}

/// The window covers at most four seconds plus the one callback that rounding
/// up may add, except that it never holds fewer than 8 samples; it always has
/// between 8 and 101, and all 101 up to a callback period of 39 ms.
pub proof fn law_window_span_is_bounded(period_us: u64)
    ensures
        ({
            let window = window_for_period(period_us as int);
            &&& MIN_SYNC_ERROR_WINDOW <= window <= SYNC_ERROR_WINDOW
            &&& window > MIN_SYNC_ERROR_WINDOW ==> (window - 1) * period_us
                < SYNC_ERROR_WINDOW_SPAN_US
            &&& period_us < 40_000 ==> window == SYNC_ERROR_WINDOW
        }),
{
    if period_us > 0 {
        let p = period_us as int;
        let fits = (4_000_000 + p - 1) / p;
        vstd::arithmetic::div_mod::lemma_fundamental_div_mod(4_000_000 + p - 1, p);
        vstd::arithmetic::div_mod::lemma_mod_bound(4_000_000 + p - 1, p);
        assert((fits - 1) * p < 4_000_000 && 4_000_000 <= fits * p) by (nonlinear_arith)
            requires
                4_000_000 + p - 1 == p * fits + (4_000_000 + p - 1) % p,
                0 <= (4_000_000 + p - 1) % p < p,
        ;
        let window = window_for_period(p);
        if window > 8 {
            assert((window - 1) * p <= (fits - 1) * p) by (nonlinear_arith)
                requires
                    window <= fits,
                    p > 0,
            ;
        }
        if p < 40_000 {
            assert(fits >= 101) by (nonlinear_arith)
                requires
                    4_000_000 <= fits * p,
                    0 < p < 40_000,
            ;
        }
    }
}

/// A change from a known period discards the measurements, also one that leaves
/// the window as long as it was; the same period again changes nothing. Learning
/// the period keeps the measurements exactly if it keeps the window.
pub proof fn law_period_change_cools_the_filter(filter: FilterState, period_us: u64)
    ensures
        filter.at_period(period_us).period_us == Some(period_us),
        filter.period_us == Some(period_us) ==> filter.at_period(period_us) == filter,
        filter.knows_period() && filter.period_us != Some(period_us) ==> {
            &&& filter.at_period(period_us).recent.len() == 0
            &&& !filter.at_period(period_us).warm()
            &&& filter.at_period(period_us).window == window_for_period(period_us as int)
        },
        !filter.knows_period() && filter.period_us != Some(period_us) ==> {
            &&& filter.at_period(period_us).window == window_for_period(period_us as int)
            &&& filter.at_period(period_us).recent == if window_for_period(period_us as int)
                == filter.window {
                filter.recent
            } else {
                Seq::empty()
            }
        },
{
    law_window_span_is_bounded(period_us);
}

// -- Laws of the engage gate --

/// The streak of a fresh gate after these plans.
pub open spec fn streak_after(inputs: Seq<GateInput>) -> u32
    decreases inputs.len(),
{
    if inputs.len() == 0 {
        0
    } else {
        inputs.last().next_streak(streak_after(inputs.drop_last()))
    }
}

/// An idle stream engages only on sustained evidence: if a plan that would
/// start a correction is let through, the filter was warm and the 50 latest
/// plans, this one counted, would all have started one.
pub proof fn law_engagement_is_evidence_backed(inputs: Seq<GateInput>)
    requires
        inputs.len() > 0,
        inputs.last().would_engage(),
        inputs.last().admitted(streak_after(inputs.drop_last())).correcting(),
    ensures
        inputs.last().filter_warm,
        inputs.len() >= ENGAGE_STREAK_PLANS,
        forall|i: int|
            inputs.len() - ENGAGE_STREAK_PLANS <= i < inputs.len()
                ==> #[trigger] inputs[i].would_engage(),
{
    lemma_streak_counts_the_latest_run(inputs);
}

proof fn lemma_streak_counts_the_latest_run(inputs: Seq<GateInput>)
    ensures
        streak_after(inputs) <= inputs.len(),
        forall|i: int|
            inputs.len() - streak_after(inputs) <= i < inputs.len()
                ==> #[trigger] inputs[i].would_engage(),
    decreases inputs.len(),
{
    if inputs.len() > 0 {
        let before = inputs.drop_last();
        lemma_streak_counts_the_latest_run(before);
        assert forall|i: int|
            inputs.len() - streak_after(inputs) <= i < inputs.len() implies #[trigger] inputs[i].would_engage() by {
            if i < inputs.len() - 1 {
                assert(before[i] == inputs[i]);
            }
        }
    }
}

/// A sustained run over a warm filter does engage: after 50 plans in a row
/// that would start a correction, the plan passes unchanged.
pub proof fn law_sustained_error_engages(inputs: Seq<GateInput>)
    requires
        inputs.len() >= ENGAGE_STREAK_PLANS,
        inputs.last().filter_warm,
        forall|i: int|
            inputs.len() - ENGAGE_STREAK_PLANS <= i < inputs.len()
                ==> #[trigger] inputs[i].would_engage(),
    ensures
        inputs.last().admitted(streak_after(inputs.drop_last())) == inputs.last().planned,
{
    lemma_streak_reaches(inputs, ENGAGE_STREAK_PLANS as nat);
}

proof fn lemma_streak_reaches(inputs: Seq<GateInput>, run: nat)
    requires
        run <= inputs.len(),
        run <= ENGAGE_STREAK_PLANS,
        forall|i: int|
            inputs.len() - run <= i < inputs.len() ==> #[trigger] inputs[i].would_engage(),
    ensures
        streak_after(inputs) >= run,
    decreases run,
{
    if run > 0 {
        let before = inputs.drop_last();
        assert forall|i: int|
            before.len() - (run - 1) <= i < before.len() implies #[trigger] before[i].would_engage() by {
            assert(before[i] == inputs[i]);
        }
        lemma_streak_reaches(before, (run - 1) as nat);
        assert(inputs[inputs.len() - 1].would_engage());
    }
}

/// A running correction is never held back, and re-anchors and idle plans pass
/// in any state: only plans that would start a correction can be suppressed.
pub proof fn law_only_engagement_is_gated(input: GateInput, streak: u32)
    ensures
        input.currently_correcting || input.planned.reanchor || !input.planned.correcting()
            ==> input.admitted(streak) == input.planned,
        input.admitted(streak) == input.planned || input.admitted(streak)
            == CorrectionSchedule::idle(),
{
}

} // verus!
