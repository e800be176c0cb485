//! Backend-agnostic audio renderer with drift correction.
//!
//! A backend drives one [`AudioRenderer`] from its audio callback. The renderer
//! decides; the backend holds the locks, asks the clock and converts samples:
//!
//! 1. [`AudioRenderer::begin_callback`] takes in the callback's timing.
//! 2. [`AudioRenderer::plan_sync`] says what comes next. On
//!    [`NextStep::Handoff`], [`NextStep::Locate`] and [`NextStep::Reanchor`] the
//!    backend converts a time with the clock and reports the answer to
//!    [`AudioRenderer::complete_handoff`], [`AudioRenderer::locate`] or
//!    [`AudioRenderer::complete_reanchor`], which say what comes next in turn.
//! 3. On [`NextStep::Play`], [`AudioRenderer::fill`] renders the frames; on
//!    [`NextStep::Silence`], [`AudioRenderer::fill_silence`] does.

use crate::audio::callback_stats::{CallbackStats, QueueEdge};
use crate::audio::playback_queue::{Handoff, PlaybackQueue, QueueSnapshot, QueueState};
use crate::audio::sync_correction::{
    CorrectionPlanner, CorrectionSchedule, EngageGate, FilterState, GateInput, SyncErrorFilter,
};
use crate::audio::types::AudioFormat;
use vstd::prelude::*;

verus! {

/// Sample value of silence.
pub const EQUILIBRIUM: i32 = 0;

/// How early, in nanoseconds, playback may start.
pub const EARLY_WINDOW_NS: i64 = 1_000_000;

/// Largest change of the presentation latency that counts as jitter.
pub const DELTA_SHIFT_US: u64 = 1_000;

/// Timing of one audio callback. Instants are nanoseconds on one monotonic
/// clock of the backend's choice.
#[derive(Debug, Clone, Copy)]
pub struct CallbackContext {
    /// Timing state of the queue at the start of the callback.
    pub snapshot: QueueSnapshot,
    /// When the audio callback fired.
    pub callback_ns: i64,
    /// How far in the future these samples will physically play.
    pub playback_delta_ns: u64,
    /// Playing time of the callback's frames.
    pub period_ns: u64,
}

impl CallbackContext {
    /// The callback's instants are on the clock.
    pub open spec fn wf(self) -> bool {
        self.callback_ns + self.playback_delta_ns + self.period_ns <= i64::MAX
    }

    /// Presentation latency in whole microseconds.
    pub open spec fn delta_us(self) -> u64 {
        self.playback_delta_ns / 1_000
    }

    /// When the callback's samples will physically play.
    pub open spec fn playback_ns(self) -> int {
        self.callback_ns + self.playback_delta_ns
    }

    /// Whether the callback's instants are on the clock.
    pub fn is_on_clock(&self) -> (r: bool)
        ensures
            r == self.wf(),
    {
        self.callback_ns as i128 + self.playback_delta_ns as i128 + self.period_ns as i128
            <= i64::MAX as i128
    }
}

/// `numerator / denominator` rounded to the nearest integer, halves to even.
pub open spec fn round_half_even(numerator: int, denominator: int) -> int
    recommends
        denominator > 0,
{
    let quotient = numerator / denominator;
    let twice = 2 * (numerator % denominator);
    if twice > denominator || (twice == denominator && quotient % 2 == 1) {
        quotient + 1
    } else {
        quotient
    }
}

/// Playing time of `frames` frames in nanoseconds, rounded to the nearest (halves
/// to even), saturating.
pub open spec fn playing_time_ns(frames: int, sample_rate: u32) -> int {
    crate::audio::playback_queue::smaller(
        round_half_even(frames * 1_000_000_000, sample_rate as int),
        u64::MAX as int,
    )
}

/// Playing time of `frames` frames in nanoseconds, rounded to the nearest (halves
/// to even), saturating.
pub fn period_ns(frames: usize, sample_rate: u32) -> (r: u64)
    requires
        sample_rate > 0,
    ensures
        r == playing_time_ns(frames as int, sample_rate),
{
    let rate: u128 = sample_rate as u128;
    let scaled: u128 = frames as u128 * 1_000_000_000;
    let quotient: u128 = scaled / rate;
    proof {
        vstd::arithmetic::div_mod::lemma_div_nonincreasing(scaled as int, rate as int);
        vstd::arithmetic::div_mod::lemma_mod_bound(scaled as int, rate as int);
    }
    let twice: u128 = 2 * (scaled % rate);
    let period: u128 = if twice > rate || (twice == rate && quotient % 2 == 1) {
        quotient + 1
    } else {
        quotient
    };
    if period < u64::MAX as u128 {
        period as u64
    } else {
        u64::MAX
    }
}

/// What the clock can tell in this callback.
#[derive(Debug, Clone, Copy, PartialEq, Eq, Structural)]
pub enum ClockStatus {
    /// Its lock is contended. Waiting would block the audio thread.
    Contended,
    /// Its estimate is still converging.
    Converging,
    /// Its estimate has settled.
    Settled,
}

/// What a callback has to do next.
#[derive(Debug, Clone, Copy, PartialEq, Eq, Structural)]
pub enum NextStep {
    /// Stay silent.
    Silence,
    /// Render frames from the queue.
    Play,
    /// Convert this instant, plus the static delay, to server time, for the
    /// cursor to be handed off to.
    Handoff { instant_ns: i64 },
    /// Convert this server time, less the static delay, to a local instant.
    Locate { cursor_us: i64 },
    /// Convert this instant, plus the static delay, to server time, for the
    /// cursor to be re-anchored to.
    Reanchor { instant_ns: i64 },
}

/// What a callback's timing shows, for the log.
#[derive(Debug, Clone, Copy, PartialEq, Eq, Structural)]
pub struct CallbackNotices {
    /// The queue was cleared since the previous callback.
    pub generation_changed: bool,
    /// Time since the previous callback, if it is two periods or more: the
    /// audio thread stalled.
    pub gap_us: Option<u64>,
    /// The previous presentation latency, if it was more than a millisecond
    /// off this one: the output timeline moved.
    pub shifted_from_us: Option<u64>,
}

/// What to do for one output frame.
#[derive(Debug, Clone, Copy, PartialEq, Eq, Structural)]
pub enum FrameAction {
    /// Discard one frame and play the next.
    DropOne,
    /// Play the last frame again.
    RepeatLast,
    /// Play the next frame.
    PlayNext,
}

/// What an [`AudioRenderer`] holds.
pub struct RendererState {
    pub channels: nat,
    pub sample_rate: u32,
    /// The sync-error filter.
    pub filter: FilterState,
    /// The engage gate's streak.
    pub streak: u32,
    /// The frame played last.
    pub last_frame: Seq<i32>,
    pub schedule: CorrectionSchedule,
    /// Frames up to and including the next repeated one.
    pub insert_counter: u32,
    /// Frames up to and including the next dropped one.
    pub drop_counter: u32,
    /// Whether playback has started in this generation.
    pub started: bool,
    /// Whether a handoff of this generation found nothing to play.
    pub handoff_warned: bool,
    /// Whether the clock has been seen settled.
    pub sync_settle_logged: bool,
    pub last_callback_ns: Option<i64>,
    pub last_playback_delta_us: Option<u64>,
    /// Smallest presentation latency of this generation.
    pub min_playback_delta_us: u64,
    pub last_generation: u64,
    pub stats: CallbackStats,
}

/// A frame of silence.
pub open spec fn silent_frame(channels: nat) -> Seq<i32> {
    Seq::new(channels, |i: int| EQUILIBRIUM)
}

/// The samples of `frames` frames of silence.
pub open spec fn silent_output(frames: nat, channels: nat) -> Seq<i32> {
    Seq::new(frames * channels, |i: int| EQUILIBRIUM)
}

/// Playback instant less expected instant, in microseconds, rounded toward zero.
pub open spec fn raw_error(playback_ns: int, expected_ns: int) -> int {
    if playback_ns >= expected_ns {
        (playback_ns - expected_ns) / 1_000
    } else {
        -((expected_ns - playback_ns) / 1_000)
    }
}

/// `counter` less one, but not below zero.
pub open spec fn counted_down(counter: u32) -> u32 {
    if counter == 0 {
        0
    } else {
        (counter - 1) as u32
    }
}

impl RendererState {
    /// A renderer that has not been called yet.
    pub open spec fn fresh(channels: nat, sample_rate: u32) -> Self {
        RendererState {
            channels,
            sample_rate,
            filter: FilterState::fresh(),
            streak: 0,
            last_frame: silent_frame(channels),
            schedule: CorrectionSchedule::idle(),
            insert_counter: 0,
            drop_counter: 0,
            started: false,
            handoff_warned: false,
            sync_settle_logged: false,
            last_callback_ns: None,
            last_playback_delta_us: None,
            min_playback_delta_us: u64::MAX,
            last_generation: 0,
            stats: CallbackStats::zero(),
        }
    }

    /// Frames have samples, the last frame is a frame, the filter's window is the
    /// one for its callback period, and a running countdown is within its cadence.
    pub open spec fn wf(self) -> bool {
        &&& self.channels > 0
        &&& self.last_frame.len() == self.channels
        &&& self.filter.wf()
        &&& self.schedule.insert_every_n_frames > 0 ==> 1 <= self.insert_counter
            <= self.schedule.insert_every_n_frames
        &&& self.schedule.drop_every_n_frames > 0 ==> 1 <= self.drop_counter
            <= self.schedule.drop_every_n_frames
    }

    /// The estimator started afresh: measurements so far describe another
    /// timeline.
    pub open spec fn without_measurements(self) -> Self {
        RendererState { filter: self.filter.emptied(), streak: 0, ..self }
    }

    /// The schedule replaced, its countdowns restarted.
    pub open spec fn scheduled(self, schedule: CorrectionSchedule) -> Self {
        RendererState {
            schedule,
            insert_counter: schedule.insert_every_n_frames,
            drop_counter: schedule.drop_every_n_frames,
            ..self
        }
    }

    /// No correction running and nothing measured.
    pub open spec fn uncorrected(self) -> Self {
        self.scheduled(CorrectionSchedule::idle()).without_measurements()
    }

    /// The start of a generation.
    pub open spec fn in_generation(self, generation: u64) -> Self {
        if generation == self.last_generation {
            self
        } else {
            RendererState {
                last_generation: generation,
                started: false,
                min_playback_delta_us: u64::MAX,
                last_frame: silent_frame(self.channels),
                handoff_warned: false,
                stats: self.stats.for_new_generation(),
                ..self.uncorrected()
            }
        }
    }

    /// The filter set to the period of callbacks of `frames` frames.
    pub open spec fn at_period_of(self, frames: int) -> Self {
        RendererState { filter: self.filter.at_period(self.period_us(frames) as u64), ..self }
    }

    /// The renderer once it has taken in the timing of a callback of `frames`
    /// frames.
    pub open spec fn begun(self, context: CallbackContext, frames: int) -> Self {
        let counted = RendererState {
            stats: CallbackStats { callbacks: (self.stats.callbacks + 1) as u64, ..self.stats },
            ..self
        };
        let state = counted.in_generation(context.snapshot.generation).at_period_of(frames);
        RendererState {
            last_callback_ns: Some(context.callback_ns),
            last_playback_delta_us: Some(context.delta_us()),
            min_playback_delta_us: if context.delta_us() < state.min_playback_delta_us {
                context.delta_us()
            } else {
                state.min_playback_delta_us
            },
            ..state
        }
    }

    /// Playing time of `frames` frames in whole microseconds, saturating.
    pub open spec fn period_us(self, frames: int) -> int {
        let rate = if self.sample_rate == 0 {
            1
        } else {
            self.sample_rate as int
        };
        let period = frames * 1_000_000 / rate;
        if period < u64::MAX {
            period
        } else {
            u64::MAX as int
        }
    }

    /// What the timing of a callback of `frames` frames shows.
    pub open spec fn notices(self, context: CallbackContext, frames: int) -> CallbackNotices {
        CallbackNotices {
            generation_changed: context.snapshot.generation != self.last_generation,
            gap_us: match self.last_callback_ns {
                Some(last) => {
                    let gap = if context.callback_ns >= last {
                        (context.callback_ns - last) / 1_000
                    } else {
                        0
                    };
                    let rate = if self.sample_rate == 0 {
                        1
                    } else {
                        self.sample_rate as int
                    };
                    if gap >= 2 * (frames * 1_000_000 / rate) {
                        Some(gap as u64)
                    } else {
                        None
                    }
                },
                None => None,
            },
            shifted_from_us: match self.last_playback_delta_us {
                Some(last) => if last - context.delta_us() > DELTA_SHIFT_US || context.delta_us()
                    - last > DELTA_SHIFT_US {
                    Some(last)
                } else {
                    None
                },
                None => None,
            },
        }
    }

    /// The instant that the cursor is anchored to: the callback plus the
    /// smallest presentation latency. The noise of the latency is one-sided, so
    /// a single reading may run a whole period high.
    pub open spec fn anchor_ns(self, context: CallbackContext) -> int {
        context.callback_ns + self.min_playback_delta_us * 1_000
    }

    /// The instant that a handoff aims at. Before playback has started that is
    /// the end of this callback's frames, the start of the next callback's:
    /// playing now would misalign the cursor by one buffer.
    pub open spec fn handoff_ns(self, context: CallbackContext) -> int {
        self.anchor_ns(context) + if self.started {
            0
        } else {
            context.period_ns as int
        }
    }

    /// The step once synchronisation is through, with the state it leaves.
    pub open spec fn synced(self) -> (Self, NextStep) {
        if self.started {
            (self, NextStep::Play)
        } else {
            (RendererState { stats: self.stats.with_silence(), ..self }, NextStep::Silence)
        }
    }

    /// The renderer once the clock was seen. Measurements made while the
    /// estimate converged tracked the estimate, not playback.
    pub open spec fn seen_clock(self, settled: bool) -> Self {
        if settled && !self.sync_settle_logged {
            RendererState { sync_settle_logged: true, ..self.without_measurements() }
        } else {
            self
        }
    }

    /// The first step of a callback, after [`Self::begun`].
    pub open spec fn sync_planned(self, context: CallbackContext, clock: ClockStatus) -> (
        Self,
        NextStep,
    ) {
        match context.snapshot.cursor_us {
            None => self.synced(),
            Some(cursor_us) => {
                if clock == ClockStatus::Contended {
                    (RendererState {
                        stats: CallbackStats {
                            sync_lock_misses: (self.stats.sync_lock_misses + 1) as u64,
                            ..self.stats
                        },
                        ..self
                    }).synced()
                } else {
                    let state = self.seen_clock(clock == ClockStatus::Settled);
                    if context.snapshot.force_reanchor {
                        (
                            state,
                            NextStep::Handoff { instant_ns: state.handoff_ns(context) as i64 },
                        )
                    } else {
                        (state, NextStep::Locate { cursor_us })
                    }
                }
            },
        }
    }

    /// The step after a handoff to `server_time_us`, which is `None` if the
    /// clock could not convert the instant.
    pub open spec fn handed_off(
        self,
        context: CallbackContext,
        queue: QueueState,
        server_time_us: Option<i64>,
    ) -> (Self, NextStep) {
        let generation = context.snapshot.generation;
        let cursor_us = match server_time_us {
            Some(time) => queue.handoff_cursor(generation, time as int),
            None => None,
        };
        match cursor_us {
            Some(cursor_us) => {
                let state = self.uncorrected();
                if state.started {
                    (state, NextStep::Locate { cursor_us: cursor_us as i64 })
                } else {
                    (
                        RendererState { stats: state.stats.with_silence(), ..state },
                        NextStep::Silence,
                    )
                }
            },
            None => (
                RendererState {
                    handoff_warned: self.handoff_warned || (server_time_us is Some
                        && queue.generation == generation && queue.initialized),
                    stats: self.stats.with_silence(),
                    ..self
                },
                NextStep::Silence,
            ),
        }
    }

    /// The plan put to the engage gate for a filter that has measured the
    /// current error.
    pub open spec fn gate_input(self) -> GateInput {
        GateInput {
            planned: crate::audio::sync_correction::planned_schedule(
                crate::audio::sync_correction::floor_of(self.filter.recent),
                self.sample_rate,
                self.schedule.correcting(),
            ),
            currently_correcting: self.schedule.correcting(),
            filter_warm: self.filter.warm(),
        }
    }

    /// The schedule that is let through to the audio. While the clock's estimate
    /// is still converging, measured error is mostly movement of the estimate
    /// itself: only a re-anchor passes.
    pub open spec fn next_schedule(self, settled: bool) -> CorrectionSchedule {
        let gated = self.gate_input().admitted(self.streak);
        if settled || gated.reanchor {
            gated
        } else {
            CorrectionSchedule::idle()
        }
    }

    /// The counters after the schedule was decided.
    pub open spec fn stats_after_planning(self, settled: bool) -> CallbackStats {
        let gated = self.gate_input().admitted(self.streak);
        let new = self.next_schedule(settled);
        CallbackStats {
            gate_suppressed_corrections: if gated != self.gate_input().planned {
                (self.stats.gate_suppressed_corrections + 1) as u64
            } else {
                self.stats.gate_suppressed_corrections
            },
            warmup_suppressed_corrections: if !settled && !gated.reanchor && gated.correcting() {
                (self.stats.warmup_suppressed_corrections + 1) as u64
            } else {
                self.stats.warmup_suppressed_corrections
            },
            correction_engagements: if new.correcting() && !self.schedule.correcting() {
                (self.stats.correction_engagements + 1) as u64
            } else {
                self.stats.correction_engagements
            },
            correction_updates: if new == self.schedule {
                self.stats.correction_updates
            } else if new.correcting() {
                (self.stats.correction_updates + 1) as u64
            } else {
                0
            },
            ..self.stats
        }
    }

    /// The renderer after it decided the schedule. A schedule that stays the
    /// same keeps counting down.
    pub open spec fn corrected(self, settled: bool) -> Self {
        let new = self.next_schedule(settled);
        let state = RendererState {
            streak: self.gate_input().next_streak(self.streak),
            stats: self.stats_after_planning(settled),
            ..self
        };
        if new == self.schedule {
            state
        } else {
            state.scheduled(new)
        }
    }

    /// The step once the cursor was located at `expected_ns`, which is `None` if
    /// the clock could not convert it.
    pub open spec fn located(
        self,
        context: CallbackContext,
        expected_ns: Option<i64>,
        settled: bool,
    ) -> (Self, NextStep) {
        match expected_ns {
            Some(expected) => {
                if !self.started && context.playback_ns() + EARLY_WINDOW_NS < expected {
                    (
                        RendererState { stats: self.stats.with_silence(), ..self },
                        NextStep::Silence,
                    )
                } else {
                    let state = (RendererState {
                        started: true,
                        filter: self.filter.measured(
                            raw_error(context.playback_ns(), expected as int) as i64,
                        ),
                        ..self
                    }).corrected(settled);
                    (
                        state,
                        if state.schedule.reanchor {
                            NextStep::Reanchor { instant_ns: state.anchor_ns(context) as i64 }
                        } else {
                            NextStep::Play
                        },
                    )
                }
            },
            None => {
                // Without conversions a correction would resample blind.
                let state = if self.schedule.correcting() {
                    RendererState {
                        stats: CallbackStats { correction_updates: 0, ..self.stats },
                        ..self.uncorrected()
                    }
                } else {
                    self
                };
                state.synced()
            },
        }
    }

    /// The renderer after the cursor was re-anchored.
    pub open spec fn reanchored(self) -> Self {
        RendererState {
            stats: CallbackStats { correction_updates: 0, ..self.stats },
            ..self.uncorrected()
        }
    }

    /// Frames that `frames` output frames may take from the queue: twice as many
    /// if every one of them were to drop one.
    pub open spec fn frames_reserved(self, frames: int) -> int {
        if self.schedule.drop_every_n_frames > 0 {
            2 * frames
        } else {
            frames
        }
    }

    /// What to do for the next output frame.
    pub open spec fn frame_action(self) -> FrameAction {
        if self.schedule.drop_every_n_frames > 0 && counted_down(self.drop_counter) == 0 {
            FrameAction::DropOne
        } else if self.schedule.insert_every_n_frames > 0 && counted_down(self.insert_counter)
            == 0 {
            FrameAction::RepeatLast
        } else {
            FrameAction::PlayNext
        }
    }

    /// The countdowns after the next output frame.
    pub open spec fn counted(self) -> Self {
        let drop_counter = if self.schedule.drop_every_n_frames == 0 {
            self.drop_counter
        } else if counted_down(self.drop_counter) == 0 {
            self.schedule.drop_every_n_frames
        } else {
            counted_down(self.drop_counter)
        };
        let insert_counter = if self.schedule.insert_every_n_frames == 0 || self.frame_action()
            == FrameAction::DropOne {
            self.insert_counter
        } else if counted_down(self.insert_counter) == 0 {
            self.schedule.insert_every_n_frames
        } else {
            counted_down(self.insert_counter)
        };
        RendererState { drop_counter, insert_counter, ..self }
    }
}

/// A renderer and its queue after some output frames, with the output.
pub struct Rendered {
    pub renderer: RendererState,
    pub queue: QueueState,
    /// The output samples, interleaved.
    pub output: Seq<i32>,
    /// Frames filled with silence because the queue ran dry.
    pub missing: nat,
}

impl Rendered {
    /// One more output frame.
    pub open spec fn with_next_frame(self) -> Self {
        let channels = self.renderer.channels as int;
        let rate = self.renderer.sample_rate;
        match self.renderer.frame_action() {
            FrameAction::RepeatLast => Rendered {
                renderer: self.renderer.counted(),
                output: self.output + self.renderer.last_frame,
                ..self
            },
            FrameAction::DropOne => {
                let queue = self.queue.consumed(channels, rate);
                let frame = match queue.upcoming(channels, rate) {
                    Some(frame) => frame,
                    None => self.renderer.last_frame,
                };
                Rendered {
                    renderer: RendererState { last_frame: frame, ..self.renderer.counted() },
                    queue: queue.consumed(channels, rate),
                    output: self.output + frame,
                    ..self
                }
            },
            FrameAction::PlayNext => match self.queue.upcoming(channels, rate) {
                Some(frame) => Rendered {
                    renderer: RendererState { last_frame: frame, ..self.renderer.counted() },
                    queue: self.queue.consumed(channels, rate),
                    output: self.output + frame,
                    ..self
                },
                None => Rendered {
                    renderer: self.renderer.counted(),
                    queue: self.queue.consumed(channels, rate),
                    output: self.output + silent_frame(self.renderer.channels),
                    missing: self.missing + 1,
                },
            },
        }
    }
}

/// `renderer` and `queue` after `frames` output frames.
pub open spec fn rendered(renderer: RendererState, queue: QueueState, frames: nat) -> Rendered
    decreases frames,
{
    if frames == 0 {
        Rendered { renderer, queue, output: Seq::empty(), missing: 0 }
    } else {
        rendered(renderer, queue, (frames - 1) as nat).with_next_frame()
    }
}

/// Backend-agnostic audio renderer with drift correction.
///
/// Owns all per-stream callback state: correction planner and filters, schedule
/// and countdowns, and counters.
pub struct AudioRenderer {
    channels: usize,
    sample_rate: u32,
    planner: CorrectionPlanner,
    error_filter: SyncErrorFilter,
    engage_gate: EngageGate,
    last_frame: Vec<i32>,
    schedule: CorrectionSchedule,
    insert_counter: u32,
    drop_counter: u32,
    started: bool,
    handoff_warned: bool,
    sync_settle_logged: bool,
    last_callback_ns: Option<i64>,
    last_playback_delta_us: Option<u64>,
    /// Running minimum of the presentation-latency snapshot, reset per
    /// generation. Reanchors anchor against this floor rather than one
    /// wake's reading: padding noise is one-sided (see [`SyncErrorFilter`]),
    /// so a single sample may run a whole period high, and anchoring to it
    /// bakes that period into the timeline until corrections audibly
    /// unwind it. A stale floor after a latency-regime shift costs at most
    /// one period of realignment — no worse than the shift itself.
    min_playback_delta_us: u64,
    last_generation: u64,
    stats: CallbackStats,
}

impl View for AudioRenderer {
    type V = RendererState;

    closed spec fn view(&self) -> RendererState {
        RendererState {
            channels: self.channels as nat,
            sample_rate: self.sample_rate,
            filter: self.error_filter@,
            streak: self.engage_gate@,
            last_frame: self.last_frame@,
            schedule: self.schedule,
            insert_counter: self.insert_counter,
            drop_counter: self.drop_counter,
            started: self.started,
            handoff_warned: self.handoff_warned,
            sync_settle_logged: self.sync_settle_logged,
            last_callback_ns: self.last_callback_ns,
            last_playback_delta_us: self.last_playback_delta_us,
            min_playback_delta_us: self.min_playback_delta_us,
            last_generation: self.last_generation,
            stats: self.stats,
        }
    }
}

impl AudioRenderer {
    /// The state and the filter inside it are well-formed.
    pub closed spec fn wf(&self) -> bool {
        self@.wf() && self.error_filter.wf()
    }

    /// Create a renderer for streams of this format.
    pub fn new(format: &AudioFormat) -> (r: Self)
        requires
            format.channels > 0,
        ensures
            r.wf(),
            r@ == RendererState::fresh(format.channels as nat, format.sample_rate),
    {
        let channels: usize = format.channels as usize;
        let mut last_frame: Vec<i32> = Vec::new();
        fill_silent(&mut last_frame, channels);
        AudioRenderer {
            channels,
            sample_rate: format.sample_rate,
            planner: CorrectionPlanner::new(),
            error_filter: SyncErrorFilter::new(),
            engage_gate: EngageGate::new(),
            last_frame,
            schedule: CorrectionSchedule::default(),
            insert_counter: 0,
            drop_counter: 0,
            started: false,
            handoff_warned: false,
            sync_settle_logged: false,
            last_callback_ns: None,
            last_playback_delta_us: None,
            min_playback_delta_us: u64::MAX,
            last_generation: 0,
            stats: CallbackStats::default(),
        }
    }

    /// The diagnostic counters.
    pub fn stats(&self) -> (r: &CallbackStats)
        ensures
            *r == self@.stats,
    {
        &self.stats
    }

    /// Whether playback has started in this generation.
    pub fn is_started(&self) -> (r: bool)
        ensures
            r == self@.started,
    {
        self.started
    }

    /// Whether a handoff of this generation found nothing to play.
    pub fn is_handoff_warned(&self) -> (r: bool)
        ensures
            r == self@.handoff_warned,
    {
        self.handoff_warned
    }

    /// The correction schedule being applied.
    pub fn schedule(&self) -> (r: CorrectionSchedule)
        ensures
            r == self@.schedule,
    {
        self.schedule
    }

    /// Discard the measurements: they describe another timeline.
    fn forget_measurements(&mut self)
        requires
            old(self).wf(),
        ensures
            final(self).wf(),
            final(self)@ == old(self)@.without_measurements(),
    {
        self.error_filter.reset();
        self.engage_gate.reset();
    }

    /// Stop correcting and discard the measurements.
    fn stop_correcting(&mut self)
        requires
            old(self).wf(),
        ensures
            final(self).wf(),
            final(self)@ == old(self)@.uncorrected(),
    {
        self.schedule = CorrectionSchedule::default();
        self.insert_counter = 0;
        self.drop_counter = 0;
        self.forget_measurements();
    }

    /// Take in the timing of a callback of `frames` frames. A changed queue
    /// generation starts everything over; a changed callback period discards
    /// the measurements.
    ///
    /// A backend whose callbacks keep varying in size keeps discarding them: its
    /// error filter may never be warm, and then no gradual correction starts.
    pub fn begin_callback(&mut self, context: &CallbackContext, frames: usize) -> (r:
        CallbackNotices)
        requires
            old(self).wf(),
            old(self)@.stats.callbacks < u64::MAX,
        ensures
            final(self).wf(),
            final(self)@ == old(self)@.begun(*context, frames as int),
            r == old(self)@.notices(*context, frames as int),
    {
        let notices: CallbackNotices = self.notices_of(context, frames);
        self.stats.callbacks = self.stats.callbacks + 1;
        let generation: u64 = context.snapshot.generation;
        if generation != self.last_generation {
            self.last_generation = generation;
            self.started = false;
            self.stop_correcting();
            self.min_playback_delta_us = u64::MAX;
            self.stats.reset_for_generation();
            let channels: usize = self.channels;
            fill_silent(&mut self.last_frame, channels);
            self.handoff_warned = false;
        }
        self.set_filter_period(frames);
        let playback_delta_us: u64 = context.playback_delta_ns / 1_000;
        self.last_callback_ns = Some(context.callback_ns);
        self.last_playback_delta_us = Some(playback_delta_us);
        if playback_delta_us < self.min_playback_delta_us {
            self.min_playback_delta_us = playback_delta_us;
        }
        notices
    }

    /// Set the error filter to the period of callbacks of `frames` frames.
    fn set_filter_period(&mut self, frames: usize)
        requires
            old(self).wf(),
        ensures
            final(self).wf(),
            final(self)@ == old(self)@.at_period_of(frames as int),
    {
        let rate: u128 = if self.sample_rate == 0 {
            1
        } else {
            self.sample_rate as u128
        };
        let period_us: u128 = frames as u128 * 1_000_000 / rate;
        let capped: u64 = if period_us < u64::MAX as u128 {
            period_us as u64
        } else {
            u64::MAX
        };
        self.error_filter.set_callback_period(capped);
    }

    /// What the timing of a callback shows. Both values are normally steady, so
    /// a step in either explains a sync-error step.
    fn notices_of(&self, context: &CallbackContext, frames: usize) -> (r: CallbackNotices)
        ensures
            r == self@.notices(*context, frames as int),
    {
        let gap_us: Option<u64> = match self.last_callback_ns {
            Some(last) => {
                let gap: i128 = if context.callback_ns >= last {
                    (context.callback_ns as i128 - last as i128) / 1_000
                } else {
                    0
                };
                let rate: u128 = if self.sample_rate == 0 {
                    1
                } else {
                    self.sample_rate as u128
                };
                let period_us: u128 = frames as u128 * 1_000_000 / rate;
                assert(period_us <= frames * 1_000_000) by {
                    vstd::arithmetic::div_mod::lemma_div_nonincreasing(
                        frames * 1_000_000,
                        rate as int,
                    );
                }
                if gap as u128 >= 2 * period_us {
                    Some(gap as u64)
                } else {
                    None
                }
            },
            None => None,
        };
        let delta_us: u64 = context.playback_delta_ns / 1_000;
        let shifted_from_us: Option<u64> = match self.last_playback_delta_us {
            Some(last) => {
                let shift: u64 = if last >= delta_us {
                    last - delta_us
                } else {
                    delta_us - last
                };
                if shift > DELTA_SHIFT_US {
                    Some(last)
                } else {
                    None
                }
            },
            None => None,
        };
        CallbackNotices {
            generation_changed: context.snapshot.generation != self.last_generation,
            gap_us,
            shifted_from_us,
        }
    }

    /// The step once synchronisation is through: without a start there is
    /// nothing to play yet, and the audio stays queued.
    fn after_sync(&mut self) -> (r: NextStep)
        requires
            old(self).wf(),
            old(self)@.stats.silent_callbacks < u64::MAX,
        ensures
            final(self).wf(),
            (final(self)@, r) == old(self)@.synced(),
    {
        if self.started {
            NextStep::Play
        } else {
            self.stats.note_silence();
            NextStep::Silence
        }
    }

    /// Decide the first step of a callback.
    pub fn plan_sync(&mut self, context: &CallbackContext, clock: ClockStatus) -> (r: NextStep)
        requires
            old(self).wf(),
            context.wf(),
            old(self)@.stats.has_room_for(1),
            old(self)@.min_playback_delta_us <= context.delta_us(),
        ensures
            final(self).wf(),
            (final(self)@, r) == old(self)@.sync_planned(*context, clock),
    {
        let cursor_us: i64 = match context.snapshot.cursor_us {
            Some(cursor_us) => cursor_us,
            None => {
                return self.after_sync();
            },
        };
        match clock {
            ClockStatus::Contended => {
                // Skip sync rather than block the audio thread. The request for
                // a re-anchor is sticky in the queue, so it will be retried on
                // the next callback.
                self.stats.sync_lock_misses = self.stats.sync_lock_misses + 1;
                return self.after_sync();
            },
            ClockStatus::Settled => {
                if !self.sync_settle_logged {
                    self.sync_settle_logged = true;
                    self.forget_measurements();
                }
            },
            ClockStatus::Converging => {},
        }
        if context.snapshot.force_reanchor {
            let anchor_ns: i64 = self.anchor(context);
            let instant_ns: i64 = if self.started {
                anchor_ns
            } else {
                (anchor_ns as i128 + context.period_ns as i128) as i64
            };
            NextStep::Handoff { instant_ns }
        } else {
            NextStep::Locate { cursor_us }
        }
    }

    /// The instant that the cursor is anchored to.
    fn anchor(&self, context: &CallbackContext) -> (r: i64)
        requires
            context.wf(),
            self@.min_playback_delta_us <= context.delta_us(),
        ensures
            r == self@.anchor_ns(*context),
            r + context.period_ns <= i64::MAX,
    {
        (context.callback_ns as i128 + self.min_playback_delta_us as i128 * 1_000) as i64
    }

    /// Hand the cursor off to `server_time_us`, and decide the next step.
    ///
    /// A startup handoff stays silent for this one callback; so does one that
    /// finds nothing to play.
    pub fn complete_handoff(
        &mut self,
        context: &CallbackContext,
        queue: &mut PlaybackQueue,
        server_time_us: Option<i64>,
    ) -> (r: NextStep)
        requires
            old(self).wf(),
            old(queue)@.wf(),
            old(self)@.stats.has_room_for(1),
        ensures
            final(self).wf(),
            final(queue)@.wf(),
            (final(self)@, r) == old(self)@.handed_off(*context, old(queue)@, server_time_us),
            final(queue)@ == match server_time_us {
                Some(time) => old(queue)@.handed_off(context.snapshot.generation, time as int),
                None => old(queue)@,
            },
    {
        let outcome: Handoff = match server_time_us {
            Some(time) => queue.hand_off(context.snapshot.generation, time),
            None => Handoff::Superseded,
        };
        match outcome {
            Handoff::Applied { cursor_us } => {
                // The cursor just jumped; prior measurements describe the old
                // timeline.
                self.stop_correcting();
                if self.started {
                    return NextStep::Locate { cursor_us };
                }
            },
            Handoff::NothingPlayable => {
                self.handoff_warned = true;
            },
            Handoff::Superseded => {},
        }
        self.stats.note_silence();
        NextStep::Silence
    }

    /// Decide the next step for a cursor that is due at `expected_ns`: hold the
    /// start back until then, measure the error and adapt the correction.
    pub fn locate(
        &mut self,
        context: &CallbackContext,
        expected_ns: Option<i64>,
        settled: bool,
    ) -> (r: NextStep)
        requires
            old(self).wf(),
            context.wf(),
            old(self)@.stats.has_room_for(1),
            old(self)@.min_playback_delta_us <= context.delta_us(),
        ensures
            final(self).wf(),
            (final(self)@, r) == old(self)@.located(*context, expected_ns, settled),
    {
        let expected: i128 = match expected_ns {
            Some(expected) => expected as i128,
            None => {
                if self.schedule.is_correcting() {
                    // Conversions went dark: stop correcting rather than
                    // resample blind on the stale cadence.
                    self.stop_correcting();
                    self.stats.correction_updates = 0;
                }
                return self.after_sync();
            },
        };
        let playback: i128 = context.callback_ns as i128 + context.playback_delta_ns as i128;

        // Pre-start only: hold silence until the cursor's scheduled instant.
        // After start, "early" readings are jitter — injecting silence here
        // would cause real dropouts; the planner handles sustained earliness
        // instead.
        if !self.started && playback + (EARLY_WINDOW_NS as i128) < expected {
            self.stats.note_silence();
            return NextStep::Silence;
        }
        self.started = true;
        let raw_error_us: i64 = if playback >= expected {
            ((playback - expected) / 1_000) as i64
        } else {
            -(((expected - playback) / 1_000) as i64)
        };
        // A single reading can sit a whole engine period above true alignment
        // while the FIFO plays gaplessly (see SyncErrorFilter); plan against the
        // window floor, never one wake's snapshot.
        let error_us: i64 = self.error_filter.update(raw_error_us);
        proof {
            crate::audio::sync_correction::lemma_floor_is_unique(
                self.error_filter@.recent,
                error_us,
            );
        }
        self.correct(error_us, settled);
        if self.schedule.reanchor {
            NextStep::Reanchor { instant_ns: self.anchor(context) }
        } else {
            NextStep::Play
        }
    }

    /// Adapt the correction to a measured error.
    fn correct(&mut self, error_us: i64, settled: bool)
        requires
            old(self).wf(),
            old(self)@.stats.has_room_for(1),
            error_us == crate::audio::sync_correction::floor_of(old(self)@.filter.recent),
        ensures
            final(self).wf(),
            final(self)@ == old(self)@.corrected(settled),
    {
        let correcting: bool = self.schedule.is_correcting();
        let planned: CorrectionSchedule = self.planner.plan(error_us, self.sample_rate, correcting);
        // Corrections mutate audible frames: engage only on sustained evidence
        // over a warm filter (see EngageGate).
        let warm: bool = self.error_filter.is_warm();
        let gated: CorrectionSchedule = self.engage_gate.admit_plan(planned, correcting, warm);
        if gated != planned {
            self.stats.gate_suppressed_corrections = self.stats.gate_suppressed_corrections + 1;
        }
        let new_schedule: CorrectionSchedule = if settled || gated.reanchor {
            gated
        } else {
            if gated.is_correcting() {
                self.stats.warmup_suppressed_corrections = self.stats.warmup_suppressed_corrections
                    + 1;
            }
            CorrectionSchedule::default()
        };
        if new_schedule != self.schedule {
            if new_schedule.is_correcting() {
                if !correcting {
                    self.stats.correction_engagements = self.stats.correction_engagements + 1;
                }
                self.stats.correction_updates = self.stats.correction_updates + 1;
            } else {
                self.stats.correction_updates = 0;
            }
            self.schedule = new_schedule;
            self.insert_counter = new_schedule.insert_every_n_frames;
            self.drop_counter = new_schedule.drop_every_n_frames;
        }
    }

    /// Re-anchor the cursor to `server_time_us`, if the clock could convert the
    /// instant, and start measuring afresh. Playback goes on.
    pub fn complete_reanchor(&mut self, queue: &mut PlaybackQueue, server_time_us: Option<i64>)
        requires
            old(self).wf(),
            old(queue)@.wf(),
        ensures
            final(self).wf(),
            final(queue)@.wf(),
            final(self)@ == old(self)@.reanchored(),
            final(queue)@ == match server_time_us {
                Some(time) => old(queue)@.anchored(time as int),
                None => old(queue)@,
            },
    {
        if let Some(time) = server_time_us {
            queue.anchor(time);
        }
        self.stop_correcting();
        self.stats.correction_updates = 0;
    }
}

impl AudioRenderer {
    /// Render `frames` frames into `out`, applying the correction schedule.
    /// Returns how many frames were filled with silence because the queue ran
    /// dry.
    pub fn fill(&mut self, queue: &mut PlaybackQueue, frames: usize, out: &mut Vec<i32>) -> (r: u64)
        requires
            old(self).wf(),
            old(queue)@.wf(),
            old(self)@.sample_rate > 0,
            old(queue)@.can_advance(
                old(self)@.frames_reserved(frames as int),
                old(self)@.sample_rate,
            ),
        ensures
            final(self).wf(),
            final(queue)@.wf(),
            final(self)@ == rendered(old(self)@, old(queue)@, frames as nat).renderer,
            final(queue)@ == rendered(old(self)@, old(queue)@, frames as nat).queue,
            final(out)@ == rendered(old(self)@, old(queue)@, frames as nat).output,
            r == rendered(old(self)@, old(queue)@, frames as nat).missing,
            r <= frames,
    {
        out.clear();
        let mut missing: u64 = 0;
        for done in 0..frames
            invariant
                self.wf(),
                queue@.wf(),
                old(self)@.sample_rate > 0,
                self@.sample_rate == old(self)@.sample_rate,
                queue@.can_advance(self@.frames_reserved(frames - done), self@.sample_rate),
                self@ == rendered(old(self)@, old(queue)@, done as nat).renderer,
                queue@ == rendered(old(self)@, old(queue)@, done as nat).queue,
                out@ == rendered(old(self)@, old(queue)@, done as nat).output,
                missing == rendered(old(self)@, old(queue)@, done as nat).missing,
                missing <= done,
        {
            let ghost before = rendered(old(self)@, old(queue)@, done as nat);
            proof {
                crate::audio::playback_queue::lemma_fewer_frames_fit(
                    queue@,
                    self@.frames_reserved(1),
                    self@.frames_reserved(frames - done),
                    self@.sample_rate,
                );
            }
            let lacked: bool = self.fill_frame(queue, out);
            if lacked {
                missing = missing + 1;
            }
            assert(rendered(old(self)@, old(queue)@, (done + 1) as nat)
                == before.with_next_frame());
            proof {
                let rate = self@.sample_rate;
                let left = self@.frames_reserved(frames - done);
                let next = self@.frames_reserved(frames - done - 1);
                let channels = self@.channels as int;
                crate::audio::playback_queue::lemma_consuming_uses_one_frame(
                    before.queue,
                    left,
                    channels,
                    rate,
                );
                crate::audio::playback_queue::lemma_fewer_frames_fit(
                    before.queue,
                    next,
                    left,
                    rate,
                );
                crate::audio::playback_queue::lemma_fewer_frames_fit(
                    before.queue.consumed(channels, rate),
                    next,
                    left - 1,
                    rate,
                );
                if left >= 2 {
                    crate::audio::playback_queue::lemma_consuming_uses_one_frame(
                        before.queue.consumed(channels, rate),
                        left - 1,
                        channels,
                        rate,
                    );
                }
            }
        }
        missing
    }

    /// Write the `frames` frames of a silent callback into `out`.
    pub fn fill_silence(&self, frames: usize, out: &mut Vec<i32>)
        ensures
            final(out)@ == silent_output(frames as nat, self@.channels),
    {
        out.clear();
        let channels: usize = self.channels;
        assert(0 * (channels as int) == 0) by (nonlinear_arith);
        for done in 0..frames
            invariant
                channels == self@.channels,
                out@ =~= silent_output(done as nat, channels as nat),
        {
            push_silence(out, channels);
            assert((done + 1) * channels == done * channels + channels) by (nonlinear_arith);
        }
    }

    /// Count a rendered callback that lacked `missing_frames` frames. Returns
    /// the length of the run of underrun callbacks that it ended, if it did.
    pub fn finish_render(&mut self, missing_frames: u64) -> (r: Option<u64>)
        requires
            old(self).wf(),
            old(self)@.stats.has_room_for(1),
            old(self)@.stats.has_room_for(missing_frames as int),
        ensures
            final(self).wf(),
            final(self)@ == (RendererState {
                stats: old(self)@.stats.with_render(missing_frames),
                ..old(self)@
            }),
            r == (if missing_frames == 0 && old(self)@.stats.consecutive_underrun_callbacks > 0 {
                Some(old(self)@.stats.consecutive_underrun_callbacks)
            } else {
                None
            }),
    {
        self.stats.note_render(missing_frames)
    }

    /// Track the queue depth after rendering, with hysteresis.
    pub fn note_queue_depth(&mut self, queued_us: u64) -> (r: QueueEdge)
        requires
            old(self).wf(),
        ensures
            final(self).wf(),
            final(self)@ == (RendererState {
                stats: old(self)@.stats.with_depth(queued_us),
                ..old(self)@
            }),
            r == old(self)@.stats.depth_edge(queued_us),
    {
        self.stats.note_queue_depth(queued_us)
    }

    /// Render one frame. Returns whether the queue ran dry.
    fn fill_frame(&mut self, queue: &mut PlaybackQueue, out: &mut Vec<i32>) -> (r: bool)
        requires
            old(self).wf(),
            old(queue)@.wf(),
            old(self)@.sample_rate > 0,
            old(queue)@.can_advance(old(self)@.frames_reserved(1), old(self)@.sample_rate),
        ensures
            final(self).wf(),
            final(queue)@.wf(),
            ({
                let before = Rendered {
                    renderer: old(self)@,
                    queue: old(queue)@,
                    output: old(out)@,
                    missing: 0,
                };
                let after = before.with_next_frame();
                &&& final(self)@ == after.renderer
                &&& final(queue)@ == after.queue
                &&& final(out)@ == after.output
                &&& r == (after.missing == 1)
            }),
    {
        let channels: usize = self.channels;
        let sample_rate: u32 = self.sample_rate;
        proof {
            let reserved = self@.frames_reserved(1);
            crate::audio::playback_queue::lemma_fewer_frames_fit(queue@, 1, reserved, sample_rate);
            crate::audio::playback_queue::lemma_consuming_uses_one_frame(
                queue@,
                reserved,
                channels as int,
                sample_rate,
            );
        }
        if self.schedule.drop_every_n_frames > 0 {
            self.drop_counter = self.drop_counter - 1;
            if self.drop_counter == 0 {
                // Discard one frame to catch up, and output the next one.
                let _ = queue.next_frame(channels, sample_rate);
                self.drop_counter = self.schedule.drop_every_n_frames;
                if let Some(frame) = queue.next_frame(channels, sample_rate) {
                    copy_frame(&mut self.last_frame, frame);
                }
                push_frame(out, self.last_frame.as_slice());
                return false;
            }
        }
        if self.schedule.insert_every_n_frames > 0 {
            self.insert_counter = self.insert_counter - 1;
            if self.insert_counter == 0 {
                self.insert_counter = self.schedule.insert_every_n_frames;
                push_frame(out, self.last_frame.as_slice());
                return false;
            }
        }
        match queue.next_frame(channels, sample_rate) {
            Some(frame) => {
                copy_frame(&mut self.last_frame, frame);
                push_frame(out, frame);
                false
            },
            None => {
                push_silence(out, channels);
                true
            },
        }
    }
}

/// Make `to` a copy of `frame`.
fn copy_frame(to: &mut Vec<i32>, frame: &[i32])
    ensures
        final(to)@ == frame@,
{
    to.clear();
    push_frame(to, frame);
}

/// Append a frame to the output.
fn push_frame(out: &mut Vec<i32>, frame: &[i32])
    ensures
        final(out)@ == old(out)@ + frame@,
{
    for i in 0..frame.len()
        invariant
            out@ =~= old(out)@ + frame@.take(i as int),
    {
        out.push(frame[i]);
    }
    assert(frame@.take(frame@.len() as int) =~= frame@);
}

/// Append a frame of silence to the output.
fn push_silence(out: &mut Vec<i32>, channels: usize)
    ensures
        final(out)@ == old(out)@ + silent_frame(channels as nat),
{
    for i in 0..channels
        invariant
            out@ =~= old(out)@ + silent_frame(i as nat),
    {
        out.push(EQUILIBRIUM);
    }
}

/// Make `frame` a frame of silence.
fn fill_silent(frame: &mut Vec<i32>, channels: usize)
    ensures
        final(frame)@ == silent_frame(channels as nat),
{
    frame.clear();
    push_silence(frame, channels);
    assert(frame@ =~= silent_frame(channels as nat));
}

} // verus!
