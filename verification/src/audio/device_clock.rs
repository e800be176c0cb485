//! Audio device clock rate estimator driven by PipeWire `pw_time`: measures the
//! device-vs-system clock rate, which network sync cannot observe.

use vstd::prelude::*;

verus! {

/// Wall-clock span each short-window report covers.
pub const WINDOW_NS: i64 = 10_000_000_000;

/// Longest gap between samples before the span is considered contaminated.
/// Several quanta at any supported callback period (5-40 ms). Across such a
/// gap the device's ticks can stall or jump while wall time keeps advancing,
/// and the resulting error is too small for the plausibility bound below to
/// catch: a 500 ms tick stall inside a 10 s window reads -50,000 ppm, half
/// of `MAX_PLAUSIBLE_PPM`.
pub const MAX_SAMPLE_GAP_NS: i64 = 250_000_000;

/// Last-resort plausibility net. Deliberately loose: a bound tuned to a wired
/// DAC could silently discard the Bluetooth result this exists to find.
pub const MAX_PLAUSIBLE_PPM: i64 = 100_000;

/// One `(ticks, now)` observation used as a measurement endpoint.
#[derive(Debug, Clone, Copy, PartialEq, Eq, Structural)]
pub struct Anchor {
    pub ticks: u64,
    pub now_ns: i64,
}

/// How far a clock runs off its nominal rate, as an exact fraction:
/// `(measured - nominal) / nominal = excess / nominal`.
///
/// In parts per million that is `1,000,000 * excess / nominal`.
#[derive(Debug, Clone, Copy, PartialEq, Eq, Structural)]
pub struct RateOffset {
    pub excess: i128,
    pub nominal: i128,
}

impl RateOffset {
    /// Whether the offset is more than `MAX_PLAUSIBLE_PPM` either way.
    pub open spec fn implausible(self) -> bool {
        ||| 1_000_000 * self.excess > MAX_PLAUSIBLE_PPM * self.nominal
        ||| -1_000_000 * self.excess > MAX_PLAUSIBLE_PPM * self.nominal
    }

    /// Whether the offset is more than `MAX_PLAUSIBLE_PPM` either way.
    pub fn is_implausible(&self) -> (r: bool)
        requires
            self.nominal > 0,
        ensures
            r == self.implausible(),
    {
        let bound: i128 = self.nominal / 10;
        self.excess > bound || self.excess < -bound
    }
}

/// Rate of `d_ticks` ticks over `d_now_ns` nanoseconds, against a tick unit of
/// `rate_num / rate_denom` seconds. Nominal ticks per second are
/// `rate_denom / rate_num`, so measured over nominal is
/// `d_ticks * 1e9 * rate_num / (d_now_ns * rate_denom)`.
pub open spec fn rate_offset(
    d_ticks: int,
    d_now_ns: int,
    rate_num: u32,
    rate_denom: u32,
) -> RateOffset {
    RateOffset {
        excess: (d_ticks * 1_000_000_000 * rate_num - d_now_ns * rate_denom) as i128,
        nominal: (d_now_ns * rate_denom) as i128,
    }
}

/// Rate of `ticks` against wall time, as an offset from nominal.
///
/// `rate` is a `spa_fraction` expressing the tick unit (normally 1/48000), so
/// nominal ticks per second is `denom / num`.
pub fn ppm_from(d_ticks: u64, d_now_ns: i128, rate_num: u32, rate_denom: u32) -> (r: RateOffset)
    requires
        0 < d_now_ns <= u64::MAX,
        rate_denom > 0,
    ensures
        r == rate_offset(d_ticks as int, d_now_ns as int, rate_num, rate_denom),
        r.excess == d_ticks * 1_000_000_000 * rate_num - d_now_ns * rate_denom,
        r.nominal == d_now_ns * rate_denom,
        r.nominal > 0,
{
    proof {
        lemma_offset_in_range(d_ticks, d_now_ns as int, rate_num, rate_denom);
    }
    let measured: i128 = d_ticks as i128 * 1_000_000_000 * rate_num as i128;
    let nominal: i128 = d_now_ns * rate_denom as i128;
    RateOffset { excess: measured - nominal, nominal }
}

/// One emitted measurement.
#[derive(Debug, Clone, Copy, PartialEq, Eq, Structural)]
pub struct DeviceClockReport {
    /// Device-vs-system clock rate over the last window.
    pub short_ppm: RateOffset,
    pub short_span_ns: i128,
    /// Same, accumulated since the stream started or last reset.
    pub cumulative_ppm: RateOffset,
    pub cumulative_span_ns: i128,
    /// Discontinuities seen so far; see the reset rules.
    pub resets: u64,
}

/// Estimates the audio device's clock rate against the system clock.
///
/// Network sync can only compare the server clock to the local system clock,
/// because that is all a network timestamp exchange can see. The rate that
/// actually drives playback error is the *device's* — a sound card crystal or,
/// over Bluetooth, a remote device across an A2DP transport. PipeWire reports
/// it: `ticks` is the device's sample counter and `now` the system-monotonic
/// time at which that count was valid, so their ratio is the missing term.
pub struct DeviceClockEstimator {
    pub short: Option<Anchor>,
    pub cumulative: Option<Anchor>,
    pub last: Option<Anchor>,
    pub rate: Option<(u32, u32)>,
    pub resets: u64,
}

/// Both the counter and the clock of `a` are at or before those of `b`.
pub open spec fn at_or_before(a: Anchor, b: Anchor) -> bool {
    a.ticks <= b.ticks && a.now_ns <= b.now_ns
}

impl DeviceClockEstimator {
    /// Either nothing was observed yet, or all endpoints are set, in order, for
    /// one usable tick unit.
    pub open spec fn wf(self) -> bool {
        match (self.short, self.cumulative, self.last, self.rate) {
            (Some(short), Some(cumulative), Some(last), Some(rate)) => {
                &&& at_or_before(cumulative, short)
                &&& at_or_before(short, last)
                &&& rate.0 > 0 && rate.1 > 0
            },
            (None, None, None, None) => true,
            _ => false,
        }
    }

    /// All three endpoints on `sample`.
    pub open spec fn anchored_at(self, sample: Anchor, rate: (u32, u32)) -> Self {
        DeviceClockEstimator {
            short: Some(sample),
            cumulative: Some(sample),
            last: Some(sample),
            rate: Some(rate),
            resets: self.resets,
        }
    }

    /// The estimator after a discontinuity at `sample`.
    pub open spec fn after_reset(self, sample: Anchor, rate: (u32, u32)) -> Self {
        DeviceClockEstimator {
            resets: (self.resets + 1) as u64,
            ..self.anchored_at(sample, rate)
        }
    }

    /// Whether `sample` continues the timeline at `last`: both counters moved
    /// forward, and not across a scheduling gap.
    pub open spec fn continues(last: Anchor, sample: Anchor) -> bool {
        &&& sample.ticks > last.ticks
        &&& sample.now_ns > last.now_ns
        &&& sample.now_ns - last.now_ns <= MAX_SAMPLE_GAP_NS
    }

    /// Whether `sample` repeats the counter or the clock of `last`.
    pub open spec fn repeats(last: Anchor, sample: Anchor) -> bool {
        sample.ticks == last.ticks || sample.now_ns == last.now_ns
    }

    /// The measurement from the anchors to `sample`.
    pub open spec fn report_at(self, sample: Anchor, rate: (u32, u32)) -> DeviceClockReport
        recommends
            self.short is Some,
            self.cumulative is Some,
    {
        let short = self.short->0;
        let cumulative = self.cumulative->0;
        DeviceClockReport {
            short_ppm: rate_offset(
                sample.ticks - short.ticks,
                sample.now_ns - short.now_ns,
                rate.0,
                rate.1,
            ),
            short_span_ns: (sample.now_ns - short.now_ns) as i128,
            cumulative_ppm: rate_offset(
                sample.ticks - cumulative.ticks,
                sample.now_ns - cumulative.now_ns,
                rate.0,
                rate.1,
            ),
            cumulative_span_ns: (sample.now_ns - cumulative.now_ns) as i128,
            resets: self.resets,
        }
    }

    /// The estimator and the report after one observation.
    pub open spec fn observed(self, sample: Anchor, rate: (u32, u32)) -> (
        Self,
        Option<DeviceClockReport>,
    ) {
        if rate.0 == 0 || rate.1 == 0 {
            (self, None)
        } else if self.rate is None {
            (self.anchored_at(sample, rate), None)
        } else if self.rate != Some(rate) {
            (self.after_reset(sample, rate), None)
        } else if Self::repeats(self.last->0, sample) {
            (self, None)
        } else if !Self::continues(self.last->0, sample) {
            (self.after_reset(sample, rate), None)
        } else if sample.now_ns - self.short->0.now_ns < WINDOW_NS {
            (DeviceClockEstimator { last: Some(sample), ..self }, None)
        } else if self.report_at(sample, rate).short_ppm.implausible() {
            (self.after_reset(sample, rate), None)
        } else {
            (
                DeviceClockEstimator { last: Some(sample), short: Some(sample), ..self },
                Some(self.report_at(sample, rate)),
            )
        }
    }

    /// Create an estimator that has observed nothing.
    pub fn new() -> (r: Self)
        ensures
            r.wf(),
            r.short is None,
            r.cumulative is None,
            r.last is None,
            r.rate is None,
            r.resets == 0,
    {
        DeviceClockEstimator { short: None, cumulative: None, last: None, rate: None, resets: 0 }
    }

    /// Anchor all three endpoints on `sample` and record `rate`.
    /// Not a discontinuity by itself.
    fn anchor(&mut self, sample: Anchor, rate: (u32, u32))
        ensures
            *final(self) == old(self).anchored_at(sample, rate),
    {
        self.short = Some(sample);
        self.cumulative = Some(sample);
        self.last = Some(sample);
        self.rate = Some(rate);
    }

    /// Re-anchor every endpoint on `sample`. The span that was in flight
    /// described a timeline that no longer exists.
    fn reset(&mut self, sample: Anchor, rate: (u32, u32))
        requires
            old(self).resets < u64::MAX,
        ensures
            *final(self) == old(self).after_reset(sample, rate),
    {
        self.anchor(sample, rate);
        self.resets = self.resets + 1;
    }

    /// Feed one `pw_time` observation. Returns a report exactly when the short
    /// anchor's span reaches `WINDOW_NS`, re-anchoring at that point.
    pub fn update(&mut self, ticks: u64, now_ns: i64, rate_num: u32, rate_denom: u32) -> (r: Option<
        DeviceClockReport,
    >)
        requires
            old(self).wf(),
            old(self).resets < u64::MAX,
        ensures
            final(self).wf(),
            (*final(self), r) == old(self).observed(Anchor { ticks, now_ns }, (rate_num, rate_denom)),
    {
        if rate_num == 0 || rate_denom == 0 {
            return None;
        }
        let sample: Anchor = Anchor { ticks, now_ns };
        let rate: (u32, u32) = (rate_num, rate_denom);

        // A format or quantum renegotiation makes prior ticks incomparable.
        if let Some(known) = self.rate {
            if known.0 != rate_num || known.1 != rate_denom {
                self.reset(sample, rate);
                return None;
            }
        }
        let (short, cumulative, last): (Anchor, Anchor, Anchor) = match (
            self.short,
            self.cumulative,
            self.last,
        ) {
            (Some(short), Some(cumulative), Some(last)) => (short, cumulative, last),
            _ => {
                self.anchor(sample, rate);
                return None;
            },
        };
        let d_now: i128 = now_ns as i128 - last.now_ns as i128;
        let d_ticks: i128 = ticks as i128 - last.ticks as i128;

        // A frozen pw_time report repeats ticks and now together: no new
        // information, but not a discontinuity either. A ticks-only freeze —
        // `now` advancing while the counter sits still — is skipped the same
        // way, and surfaces at resume as a gap against the retained `last`.
        // Keep the anchors and leave `last` alone so the next real sample
        // differences correctly.
        if d_now == 0 || d_ticks == 0 {
            return None;
        }
        // The counter or the clock went backwards, or the stream was not scheduled.
        if d_now < 0 || d_ticks < 0 || d_now > MAX_SAMPLE_GAP_NS as i128 {
            self.reset(sample, rate);
            return None;
        }
        let short_span: i128 = now_ns as i128 - short.now_ns as i128;
        if short_span < WINDOW_NS as i128 {
            self.last = Some(sample);
            return None;
        }
        let short_ppm: RateOffset = ppm_from(ticks - short.ticks, short_span, rate_num, rate_denom);
        if short_ppm.is_implausible() {
            self.reset(sample, rate);
            return None;
        }
        let cumulative_span: i128 = now_ns as i128 - cumulative.now_ns as i128;
        let report: DeviceClockReport = DeviceClockReport {
            short_ppm,
            short_span_ns: short_span,
            cumulative_ppm: ppm_from(
                ticks - cumulative.ticks,
                cumulative_span,
                rate_num,
                rate_denom,
            ),
            cumulative_span_ns: cumulative_span,
            resets: self.resets,
        };
        self.last = Some(sample);
        self.short = Some(sample);
        Some(report)
    }
}

// -- Laws --

/// A report comes exactly when an undisturbed timeline has covered a window at
/// a plausible rate; it covers at least a window and at most a sampling gap
/// more, and its rates span from the anchors to the sample.
pub proof fn law_report_covers_one_window(
    before: DeviceClockEstimator,
    sample: Anchor,
    rate: (u32, u32),
)
    requires
        before.wf(),
        before.short is Some ==> before.last->0.now_ns - before.short->0.now_ns < WINDOW_NS,
    ensures
        ({
            let (after, report) = before.observed(sample, rate);
            &&& report is Some <==> {
                &&& before.rate == Some(rate)
                &&& DeviceClockEstimator::continues(before.last->0, sample)
                &&& sample.now_ns - before.short->0.now_ns >= WINDOW_NS
                &&& !before.report_at(sample, rate).short_ppm.implausible()
            }
            &&& report matches Some(r) ==> {
                &&& WINDOW_NS <= r.short_span_ns < WINDOW_NS + MAX_SAMPLE_GAP_NS
                &&& r.short_span_ns <= r.cumulative_span_ns
                &&& !r.short_ppm.implausible()
            }
            &&& after.short is Some ==> after.last->0.now_ns - after.short->0.now_ns < WINDOW_NS
        }),
{
}

/// Whether a reset at `sample` took place: every endpoint is there, and one more
/// discontinuity is counted.
pub open spec fn is_reset(
    before: DeviceClockEstimator,
    after: DeviceClockEstimator,
    sample: Anchor,
    rate: (u32, u32),
) -> bool {
    &&& after.short == Some(sample)
    &&& after.cumulative == Some(sample)
    &&& after.last == Some(sample)
    &&& after.rate == Some(rate)
    &&& after.resets == before.resets + 1
}

/// Whether `offset` is the rate of `d_ticks` ticks of `rate.0 / rate.1` seconds
/// over `d_now_ns` nanoseconds, against the nominal rate.
pub open spec fn is_rate_of(
    offset: RateOffset,
    d_ticks: int,
    d_now_ns: int,
    rate: (u32, u32),
) -> bool {
    &&& offset.nominal == d_now_ns * rate.1
    &&& offset.nominal + offset.excess == d_ticks * 1_000_000_000 * rate.0
}

/// An observation by the numbers. A tick unit that is no fraction is ignored. The
/// first observation sets every endpoint. Another tick unit, a counter or a clock
/// that goes back, and more than 250 ms since the last sample are discontinuities.
/// A repeated counter or clock is ignored. Short of ten seconds the sample is only
/// noted. From there on it ends a window: off by more than a tenth of the nominal
/// rate it is a discontinuity, else it is reported from both anchors, and the
/// short one moves on.
pub proof fn law_observation_by_numbers(
    before: DeviceClockEstimator,
    sample: Anchor,
    rate: (u32, u32),
)
    requires
        before.wf(),
        before.resets < u64::MAX,
    ensures
        ({
            let (after, report) = before.observed(sample, rate);
            let last = before.last->0;
            let short = before.short->0;
            let cumulative = before.cumulative->0;
            let d_now = sample.now_ns - last.now_ns;
            let d_ticks = sample.ticks - last.ticks;
            if rate.0 == 0 || rate.1 == 0 {
                after == before && report is None
            } else if before.rate is None {
                &&& report is None
                &&& after.short == Some(sample) && after.cumulative == Some(sample)
                &&& after.last == Some(sample) && after.rate == Some(rate)
                &&& after.resets == before.resets
            } else if before.rate->0 != rate {
                report is None && is_reset(before, after, sample, rate)
            } else if d_now == 0 || d_ticks == 0 {
                after == before && report is None
            } else if d_now < 0 || d_ticks < 0 || d_now > 250_000_000 {
                report is None && is_reset(before, after, sample, rate)
            } else if sample.now_ns - short.now_ns < 10_000_000_000 {
                &&& report is None
                &&& after == DeviceClockEstimator { last: Some(sample), ..before }
            } else {
                let nominal = (sample.now_ns - short.now_ns) * rate.1;
                let measured = (sample.ticks - short.ticks) * 1_000_000_000 * rate.0;
                if 10 * (measured - nominal) > nominal || 10 * (nominal - measured) > nominal {
                    report is None && is_reset(before, after, sample, rate)
                } else {
                    &&& after == DeviceClockEstimator {
                        last: Some(sample),
                        short: Some(sample),
                        ..before
                    }
                    &&& report matches Some(r) && {
                        &&& r.short_span_ns == sample.now_ns - short.now_ns
                        &&& r.cumulative_span_ns == sample.now_ns - cumulative.now_ns
                        &&& is_rate_of(
                            r.short_ppm,
                            sample.ticks - short.ticks,
                            sample.now_ns - short.now_ns,
                            rate,
                        )
                        &&& is_rate_of(
                            r.cumulative_ppm,
                            sample.ticks - cumulative.ticks,
                            sample.now_ns - cumulative.now_ns,
                            rate,
                        )
                        &&& r.resets == before.resets
                    }
                }
            }
        }),
{
    if before.rate == Some(rate) && rate.0 != 0 && rate.1 != 0
        && DeviceClockEstimator::continues(before.last->0, sample) {
        let short = before.short->0;
        let cumulative = before.cumulative->0;
        lemma_offset_in_range(
            (sample.ticks - short.ticks) as u64,
            sample.now_ns - short.now_ns,
            rate.0,
            rate.1,
        );
        lemma_offset_in_range(
            (sample.ticks - cumulative.ticks) as u64,
            sample.now_ns - cumulative.now_ns,
            rate.0,
            rate.1,
        );
    }
}

/// A repeated observation changes nothing: a stall is not a restart.
pub proof fn law_repeated_observation_is_ignored(
    before: DeviceClockEstimator,
    sample: Anchor,
    rate: (u32, u32),
)
    requires
        before.wf(),
        before.rate == Some(rate),
        DeviceClockEstimator::repeats(before.last->0, sample),
    ensures
        before.observed(sample, rate) == (before, None::<DeviceClockReport>),
{
}

/// Every discontinuity is counted once, re-anchors every endpoint on the sample
/// and reports nothing; nothing else moves the cumulative anchor once it is set.
pub proof fn law_discontinuities_are_counted(
    before: DeviceClockEstimator,
    sample: Anchor,
    rate: (u32, u32),
)
    requires
        before.wf(),
        before.resets < u64::MAX,
    ensures
        ({
            let (after, report) = before.observed(sample, rate);
            &&& before.resets <= after.resets <= before.resets + 1
            &&& after.resets > before.resets ==> {
                &&& report is None
                &&& after == before.after_reset(sample, rate)
            }
            &&& after.resets == before.resets && before.cumulative is Some ==> after.cumulative
                == before.cumulative && after.rate == before.rate
        }),
{
}

/// A tick unit with a zero numerator or denominator is never used.
pub proof fn law_zero_rate_never_arms(before: DeviceClockEstimator, sample: Anchor, other: u32)
    ensures
        before.observed(sample, (0, other)) == (before, None::<DeviceClockReport>),
        before.observed(sample, (other, 0)) == (before, None::<DeviceClockReport>),
{
}

/// Only the fraction of the tick unit matters: scaling numerator and
/// denominator alike leaves the offset the same fraction.
pub proof fn law_offset_depends_on_the_fraction(
    d_ticks: u64,
    d_now_ns: int,
    rate_num: u32,
    rate_denom: u32,
    scale: u32,
)
    requires
        0 < d_now_ns <= u64::MAX,
        rate_num * scale <= u32::MAX,
        rate_denom * scale <= u32::MAX,
    ensures
        ({
            let plain = rate_offset(d_ticks as int, d_now_ns, rate_num, rate_denom);
            let scaled = rate_offset(
                d_ticks as int,
                d_now_ns,
                (rate_num * scale) as u32,
                (rate_denom * scale) as u32,
            );
            scaled.excess == scale * plain.excess && scaled.nominal == scale * plain.nominal
        }),
{
    lemma_offset_in_range(d_ticks, d_now_ns, rate_num, rate_denom);
    lemma_offset_in_range(
        d_ticks,
        d_now_ns,
        (rate_num * scale) as u32,
        (rate_denom * scale) as u32,
    );
    let t = d_ticks * 1_000_000_000;
    assert(t * (rate_num * scale) == scale * (t * rate_num)) by (nonlinear_arith);
    assert(d_now_ns * (rate_denom * scale) == scale * (d_now_ns * rate_denom)) by (nonlinear_arith);
    assert(scale * (t * rate_num - d_now_ns * rate_denom) == scale * (t * rate_num) - scale * (
    d_now_ns * rate_denom)) by (nonlinear_arith);
}

/// One observation: a sample and the tick unit it came with.
pub struct Observation {
    pub sample: Anchor,
    pub rate: (u32, u32),
}

/// A new estimator after these observations, oldest first.
pub open spec fn after_observing(history: Seq<Observation>) -> DeviceClockEstimator
    decreases history.len(),
{
    if history.len() == 0 {
        DeviceClockEstimator { short: None, cumulative: None, last: None, rate: None, resets: 0 }
    } else {
        after_observing(history.drop_last()).observed(
            history.last().sample,
            history.last().rate,
        ).0
    }
}

/// Of every history: a report covers at least ten seconds and less than a
/// sampling gap more, the cumulative span is no shorter, both rates are proper
/// fractions and the short one is plausible. It comes without a reset, and moves
/// the short anchor on to the sample while the cumulative one stays.
pub proof fn law_every_report_covers_one_window(
    history: Seq<Observation>,
    sample: Anchor,
    rate: (u32, u32),
)
    ensures
        ({
            let before = after_observing(history);
            let (after, report) = before.observed(sample, rate);
            report matches Some(r) ==> {
                &&& 10_000_000_000 <= r.short_span_ns < 10_250_000_000
                &&& r.short_span_ns <= r.cumulative_span_ns
                &&& r.short_ppm.nominal > 0 && r.cumulative_ppm.nominal > 0
                &&& -100_000 * r.short_ppm.nominal <= 1_000_000 * r.short_ppm.excess <= 100_000
                    * r.short_ppm.nominal
                &&& r.resets == before.resets && after.resets == before.resets
                &&& after.short == Some(sample) && after.last == Some(sample)
                &&& after.cumulative == before.cumulative && after.rate == before.rate
            }
        }),
{
    let before = after_observing(history);
    lemma_history_is_well_formed(history);
    law_report_covers_one_window(before, sample, rate);
    if before.observed(sample, rate).1 is Some {
        let short = before.short->0;
        let cumulative = before.cumulative->0;
        lemma_offset_in_range(
            (sample.ticks - short.ticks) as u64,
            sample.now_ns - short.now_ns,
            rate.0,
            rate.1,
        );
        lemma_offset_in_range(
            (sample.ticks - cumulative.ticks) as u64,
            sample.now_ns - cumulative.now_ns,
            rate.0,
            rate.1,
        );
    }
}

/// Every history leaves the estimator well-formed, with less than a window
/// between the short anchor and the last sample.
proof fn lemma_history_is_well_formed(history: Seq<Observation>)
    ensures
        ({
            let estimator = after_observing(history);
            &&& estimator.wf()
            &&& estimator.short is Some ==> estimator.last->0.now_ns - estimator.short->0.now_ns
                < WINDOW_NS
        }),
    decreases history.len(),
{
    if history.len() > 0 {
        lemma_history_is_well_formed(history.drop_last());
    }
}

/// A tick unit with numerator and denominator scaled alike.
pub open spec fn scaled_rate(rate: (u32, u32), scale: u32) -> (u32, u32) {
    ((rate.0 * scale) as u32, (rate.1 * scale) as u32)
}

/// The two offsets are the same fraction, the second scaled.
pub open spec fn same_offset(plain: RateOffset, scaled: RateOffset, scale: u32) -> bool {
    scaled.excess == scale * plain.excess && scaled.nominal == scale * plain.nominal
}

/// Both report, or neither does; and reports say the same, their rates as
/// fractions.
pub open spec fn same_report(
    plain: Option<DeviceClockReport>,
    scaled: Option<DeviceClockReport>,
    scale: u32,
) -> bool {
    match (plain, scaled) {
        (Some(p), Some(s)) => {
            &&& same_offset(p.short_ppm, s.short_ppm, scale)
            &&& same_offset(p.cumulative_ppm, s.cumulative_ppm, scale)
            &&& s.short_span_ns == p.short_span_ns
            &&& s.cumulative_span_ns == p.cumulative_span_ns
            &&& s.resets == p.resets
        },
        (None, None) => true,
        _ => false,
    }
}

/// The two estimators differ in the scale of the tick unit `rate` at most.
pub open spec fn same_but_for_scale(
    plain: DeviceClockEstimator,
    scaled: DeviceClockEstimator,
    rate: (u32, u32),
    scale: u32,
) -> bool {
    &&& scaled.short == plain.short
    &&& scaled.cumulative == plain.cumulative
    &&& scaled.last == plain.last
    &&& scaled.resets == plain.resets
    &&& plain.rate is None && scaled.rate is None || plain.rate == Some(rate) && scaled.rate
        == Some(scaled_rate(rate, scale))
}

/// An update depends on the fraction of the tick unit only: estimators that
/// differ in its scale answer alike and stay that way.
pub proof fn law_update_depends_on_the_fraction(
    plain: DeviceClockEstimator,
    scaled: DeviceClockEstimator,
    sample: Anchor,
    rate: (u32, u32),
    scale: u32,
)
    requires
        plain.wf(),
        same_but_for_scale(plain, scaled, rate, scale),
        rate.0 > 0,
        rate.1 > 0,
        scale > 0,
        rate.0 * scale <= u32::MAX,
        rate.1 * scale <= u32::MAX,
    ensures
        same_but_for_scale(
            plain.observed(sample, rate).0,
            scaled.observed(sample, scaled_rate(rate, scale)).0,
            rate,
            scale,
        ),
        same_report(
            plain.observed(sample, rate).1,
            scaled.observed(sample, scaled_rate(rate, scale)).1,
            scale,
        ),
{
    assert(rate.0 * scale > 0 && rate.1 * scale > 0) by (nonlinear_arith)
        requires
            rate.0 > 0,
            rate.1 > 0,
            scale > 0,
    ;
    if plain.rate == Some(rate) && DeviceClockEstimator::continues(plain.last->0, sample) {
        let short = plain.short->0;
        let cumulative = plain.cumulative->0;
        law_offset_depends_on_the_fraction(
            (sample.ticks - short.ticks) as u64,
            sample.now_ns - short.now_ns,
            rate.0,
            rate.1,
            scale,
        );
        law_offset_depends_on_the_fraction(
            (sample.ticks - cumulative.ticks) as u64,
            sample.now_ns - cumulative.now_ns,
            rate.0,
            rate.1,
            scale,
        );
        lemma_scaling_keeps_plausibility(
            plain.report_at(sample, rate).short_ppm,
            scaled.report_at(sample, scaled_rate(rate, scale)).short_ppm,
            scale,
        );
    }
}

/// Of every history: two new estimators fed the same samples, one in a tick unit
/// and one in the same unit scaled, answer alike call by call.
pub proof fn law_history_depends_on_the_fraction(
    samples: Seq<Anchor>,
    sample: Anchor,
    rate: (u32, u32),
    scale: u32,
)
    requires
        rate.0 > 0,
        rate.1 > 0,
        scale > 0,
        rate.0 * scale <= u32::MAX,
        rate.1 * scale <= u32::MAX,
    ensures
        ({
            let plain = after_observing(in_unit(samples, rate));
            let scaled = after_observing(in_unit(samples, scaled_rate(rate, scale)));
            &&& same_but_for_scale(plain, scaled, rate, scale)
            &&& same_report(
                plain.observed(sample, rate).1,
                scaled.observed(sample, scaled_rate(rate, scale)).1,
                scale,
            )
        }),
    decreases samples.len(),
{
    let plain = in_unit(samples, rate);
    let scaled = in_unit(samples, scaled_rate(rate, scale));
    if samples.len() > 0 {
        let before = samples.drop_last();
        law_history_depends_on_the_fraction(before, samples.last(), rate, scale);
        assert(plain.drop_last() =~= in_unit(before, rate));
        assert(scaled.drop_last() =~= in_unit(before, scaled_rate(rate, scale)));
        lemma_history_is_well_formed(plain.drop_last());
        law_update_depends_on_the_fraction(
            after_observing(plain.drop_last()),
            after_observing(scaled.drop_last()),
            samples.last(),
            rate,
            scale,
        );
    }
    lemma_history_is_well_formed(plain);
    law_update_depends_on_the_fraction(
        after_observing(plain),
        after_observing(scaled),
        sample,
        rate,
        scale,
    );
}

/// The samples as observations in one tick unit.
pub open spec fn in_unit(samples: Seq<Anchor>, rate: (u32, u32)) -> Seq<Observation> {
    samples.map_values(|sample: Anchor| Observation { sample, rate })
}

proof fn lemma_scaling_keeps_plausibility(plain: RateOffset, scaled: RateOffset, scale: u32)
    requires
        scale > 0,
        same_offset(plain, scaled, scale),
    ensures
        scaled.implausible() == plain.implausible(),
{
    let e = plain.excess as int;
    let n = plain.nominal as int;
    let k = scale as int;
    assert(1_000_000 * (k * e) > 100_000 * (k * n) <==> 1_000_000 * e > 100_000 * n)
        by (nonlinear_arith)
        requires
            k > 0,
    ;
    assert(-1_000_000 * (k * e) > 100_000 * (k * n) <==> -1_000_000 * e > 100_000 * n)
        by (nonlinear_arith)
        requires
            k > 0,
    ;
}

proof fn lemma_offset_in_range(d_ticks: u64, d_now_ns: int, rate_num: u32, rate_denom: u32)
    requires
        0 < d_now_ns <= u64::MAX,
    ensures
        rate_offset(d_ticks as int, d_now_ns, rate_num, rate_denom).excess == d_ticks
            * 1_000_000_000 * rate_num - d_now_ns * rate_denom,
        rate_offset(d_ticks as int, d_now_ns, rate_num, rate_denom).nominal == d_now_ns
            * rate_denom,
        0 <= d_ticks * 1_000_000_000 * rate_num <= i128::MAX,
        0 <= d_now_ns * rate_denom <= i128::MAX,
        rate_denom > 0 ==> d_now_ns * rate_denom > 0,
{
    let scaled = d_ticks * 1_000_000_000;
    assert(0 <= scaled * rate_num <= 0xffff_ffff_ffff_ffff * 1_000_000_000 * 0xffff_ffff)
        by (nonlinear_arith)
        requires
            0 <= scaled <= 0xffff_ffff_ffff_ffff * 1_000_000_000,
            0 <= rate_num <= 0xffff_ffff,
    ;
    assert(0 <= d_now_ns * rate_denom <= 0xffff_ffff_ffff_ffff * 0xffff_ffff)
        by (nonlinear_arith)
        requires
            0 < d_now_ns <= 0xffff_ffff_ffff_ffff,
            0 <= rate_denom <= 0xffff_ffff,
    ;
    assert(rate_denom > 0 ==> d_now_ns * rate_denom > 0) by (nonlinear_arith)
        requires
            0 < d_now_ns,
    ;
}

} // verus!
