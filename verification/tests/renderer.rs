//! The renderer, driven callback by callback against a simulated clock.

use sendspin::audio::callback_stats::{CallbackStats, QueueEdge};
use sendspin::audio::playback_queue::PlaybackQueue;
use sendspin::audio::renderer::{
    period_ns, AudioRenderer, CallbackContext, CallbackNotices, ClockStatus, NextStep,
};
use sendspin::audio::sync_correction::{CorrectionSchedule, SYNC_ERROR_WINDOW};
use sendspin::audio::types::{AudioBuffer, AudioFormat, Codec};

/// Frames of a 10 ms callback at 48 kHz.
const FRAMES: usize = 480;
const PERIOD_NS: u64 = 10_000_000;
const LATENCY_NS: u64 = 5_000_000;

fn format(channels: u8) -> AudioFormat {
    AudioFormat {
        codec: Codec::Pcm,
        sample_rate: 48_000,
        channels,
        bit_depth: 24,
        codec_header: None,
    }
}

/// A mono buffer whose samples count up from `first`, at 48 kHz.
fn counting(timestamp: i64, first: i32, frames: usize) -> AudioBuffer {
    AudioBuffer {
        timestamp,
        duration_us: frames as i64 * 1_000_000 / 48_000,
        samples: (0..frames).map(|i| first + i as i32).collect(),
        format: format(1),
    }
}

fn context(queue: &PlaybackQueue, callback_ns: i64) -> CallbackContext {
    CallbackContext {
        snapshot: queue.snapshot(),
        callback_ns,
        playback_delta_ns: LATENCY_NS,
        period_ns: PERIOD_NS,
    }
}

/// A mono renderer and a queue with ten seconds of audio from server time 0.
fn setup() -> (AudioRenderer, PlaybackQueue) {
    let mut queue = PlaybackQueue::new();
    queue.push(counting(0, 0, 480_000));
    (AudioRenderer::new(&format(1)), queue)
}

/// A renderer that plays from server time 0, started by a callback at 0 whose
/// cursor was due at `LATENCY_NS`. It has not measured anything yet.
fn started() -> (AudioRenderer, PlaybackQueue) {
    let (mut renderer, mut queue) = setup();
    queue.force_reanchor = false;
    let ctx = context(&queue, 0);
    renderer.begin_callback(&ctx, FRAMES);
    assert_eq!(
        renderer.plan_sync(&ctx, ClockStatus::Settled),
        NextStep::Locate { cursor_us: 0 }
    );
    assert_eq!(
        renderer.locate(&ctx, Some(LATENCY_NS as i64), true),
        NextStep::Play
    );
    assert!(renderer.is_started());
    renderer.complete_reanchor(&mut queue, None);
    (renderer, queue)
}

/// Run `callbacks` callbacks that all measure an error of `error_us`.
fn measure(
    renderer: &mut AudioRenderer,
    queue: &PlaybackQueue,
    callbacks: usize,
    error_us: i64,
    settled: bool,
) -> NextStep {
    let mut step = NextStep::Silence;
    for i in 0..callbacks {
        let callback_ns = 1_000_000_000 + i as i64 * PERIOD_NS as i64;
        let ctx = context(queue, callback_ns);
        renderer.begin_callback(&ctx, FRAMES);
        let expected = callback_ns + LATENCY_NS as i64 - error_us * 1_000;
        step = renderer.locate(&ctx, Some(expected), settled);
    }
    step
}

const IDLE: CorrectionSchedule = CorrectionSchedule {
    insert_every_n_frames: 0,
    drop_every_n_frames: 0,
    reanchor: false,
};

// -- Startup --

#[test]
fn an_empty_queue_is_silent() {
    let queue = PlaybackQueue::new();
    let mut renderer = AudioRenderer::new(&format(2));
    let ctx = context(&queue, 0);
    renderer.begin_callback(&ctx, FRAMES);
    assert_eq!(renderer.plan_sync(&ctx, ClockStatus::Settled), NextStep::Silence);
    assert_eq!(renderer.stats().callbacks, 1);
    assert_eq!(renderer.stats().silent_callbacks, 1);
    assert_eq!(renderer.plan_sync(&ctx, ClockStatus::Contended), NextStep::Silence);
    assert_eq!(renderer.stats().sync_lock_misses, 0);
}

#[test]
fn a_contended_clock_is_not_waited_for() {
    let (mut renderer, queue) = setup();
    let ctx = context(&queue, 0);
    renderer.begin_callback(&ctx, FRAMES);
    assert_eq!(renderer.plan_sync(&ctx, ClockStatus::Contended), NextStep::Silence);
    assert_eq!(renderer.stats().sync_lock_misses, 1);
    assert_eq!(renderer.stats().silent_callbacks, 1);
}

#[test]
fn a_startup_handoff_aims_at_the_end_of_the_callback() {
    let (mut renderer, queue) = setup();
    let ctx = context(&queue, 1_000);
    renderer.begin_callback(&ctx, FRAMES);
    assert_eq!(
        renderer.plan_sync(&ctx, ClockStatus::Converging),
        NextStep::Handoff { instant_ns: 1_000 + 5_000_000 + 10_000_000 }
    );
}

#[test]
fn a_startup_handoff_is_silent_and_the_next_callback_starts() {
    let (mut renderer, mut queue) = setup();
    let ctx = context(&queue, 0);
    renderer.begin_callback(&ctx, FRAMES);
    renderer.plan_sync(&ctx, ClockStatus::Converging);
    // The server's clock is 100 ms ahead of the local one.
    let server_time = 15_000 + 100_000;
    assert_eq!(
        renderer.complete_handoff(&ctx, &mut queue, Some(server_time)),
        NextStep::Silence
    );
    assert!(!renderer.is_started());
    assert_eq!(queue.snapshot().cursor_us, Some(115_000));
    assert!(!queue.snapshot().force_reanchor);

    let next = context(&queue, PERIOD_NS as i64);
    renderer.begin_callback(&next, FRAMES);
    assert_eq!(
        renderer.plan_sync(&next, ClockStatus::Converging),
        NextStep::Locate { cursor_us: 115_000 }
    );
    assert_eq!(renderer.locate(&next, Some(15_000_000), false), NextStep::Play);
    assert!(renderer.is_started());
    let mut out = Vec::new();
    assert_eq!(renderer.fill(&mut queue, 3, &mut out), 0);
    // 115 ms into the audio.
    assert_eq!(out, vec![5_520, 5_521, 5_522]);
}

#[test]
fn a_handoff_without_audio_or_clock_stays_silent() {
    let (mut renderer, mut queue) = setup();
    let ctx = context(&queue, 0);
    renderer.begin_callback(&ctx, FRAMES);
    assert_eq!(renderer.complete_handoff(&ctx, &mut queue, None), NextStep::Silence);
    assert!(!renderer.is_handoff_warned());
    assert_eq!(
        renderer.complete_handoff(&ctx, &mut queue, Some(10_000_000)),
        NextStep::Silence
    );
    assert!(renderer.is_handoff_warned());
    assert_eq!(renderer.stats().silent_callbacks, 2);
    assert!(queue.snapshot().force_reanchor);
    assert_eq!(queue.snapshot().cursor_us, Some(0));
}

#[test]
fn the_start_waits_until_the_cursor_is_due() {
    let (mut renderer, mut queue) = setup();
    queue.force_reanchor = false;
    let ctx = context(&queue, 0);
    renderer.begin_callback(&ctx, FRAMES);
    // A nanosecond more than a millisecond early.
    assert_eq!(renderer.locate(&ctx, Some(6_000_001), true), NextStep::Silence);
    assert!(!renderer.is_started());
    assert_eq!(renderer.locate(&ctx, None, true), NextStep::Silence);
    assert_eq!(renderer.locate(&ctx, Some(6_000_000), true), NextStep::Play);
    assert!(renderer.is_started());
    assert_eq!(renderer.stats().silent_callbacks, 2);
}

#[test]
fn started_playback_ignores_early_readings_and_a_missing_clock() {
    let (mut renderer, queue) = started();
    let ctx = context(&queue, 0);
    assert_eq!(renderer.locate(&ctx, Some(100_000_000), true), NextStep::Play);
    assert_eq!(renderer.locate(&ctx, None, true), NextStep::Play);
    assert_eq!(renderer.plan_sync(&ctx, ClockStatus::Contended), NextStep::Play);
    assert_eq!(renderer.stats().silent_callbacks, 0);
}

#[test]
fn a_handoff_of_started_playback_goes_on_at_once() {
    let (mut renderer, mut queue) = started();
    queue.request_reanchor();
    let ctx = context(&queue, 20_000_000);
    renderer.begin_callback(&ctx, FRAMES);
    assert_eq!(
        renderer.plan_sync(&ctx, ClockStatus::Settled),
        NextStep::Handoff { instant_ns: 25_000_000 }
    );
    assert_eq!(
        renderer.complete_handoff(&ctx, &mut queue, Some(70_000)),
        NextStep::Locate { cursor_us: 70_000 }
    );
}

// -- Generations --

#[test]
fn a_new_generation_starts_over() {
    let (mut renderer, mut queue) = started();
    measure(&mut renderer, &queue, SYNC_ERROR_WINDOW, 5_000, true);
    assert!(renderer.schedule().is_correcting());
    queue.clear();
    queue.push(counting(0, 0, 480));
    let ctx = context(&queue, 3_000_000_000);
    let before = renderer.stats().callbacks;
    assert!(renderer.begin_callback(&ctx, FRAMES).generation_changed);
    assert!(!renderer.is_started());
    assert_eq!(renderer.schedule(), IDLE);
    let mut expected = CallbackStats::default();
    expected.callbacks = before + 1;
    assert_eq!(*renderer.stats(), expected);
}

#[test]
fn anchors_use_the_lowest_latency_of_the_generation() {
    let (mut renderer, mut queue) = setup();
    for (callback_ns, delta_ns) in [(0, 9_000_999), (10_000_000, 4_000_999), (20_000_000, 8_000_000)] {
        let mut ctx = context(&queue, callback_ns);
        ctx.playback_delta_ns = delta_ns;
        renderer.begin_callback(&ctx, FRAMES);
    }
    let mut ctx = context(&queue, 20_000_000);
    ctx.playback_delta_ns = 8_000_000;
    // Whole microseconds of the lowest latency: 4 ms.
    assert_eq!(
        renderer.plan_sync(&ctx, ClockStatus::Settled),
        NextStep::Handoff { instant_ns: 20_000_000 + 4_000_000 + 10_000_000 }
    );
    queue.clear();
    let mut ctx = context(&queue, 30_000_000);
    ctx.snapshot.cursor_us = Some(0);
    ctx.playback_delta_ns = 8_000_000;
    renderer.begin_callback(&ctx, FRAMES);
    assert_eq!(
        renderer.plan_sync(&ctx, ClockStatus::Settled),
        NextStep::Handoff { instant_ns: 30_000_000 + 8_000_000 + 10_000_000 }
    );
}

#[test]
fn a_callback_shows_gaps_and_shifts() {
    let (mut renderer, queue) = setup();
    let mut ctx = context(&queue, 0);
    let quiet = CallbackNotices {
        generation_changed: false,
        gap_us: None,
        shifted_from_us: None,
    };
    assert_eq!(renderer.begin_callback(&ctx, FRAMES), quiet);
    // One period later, a millisecond more latency: jitter.
    ctx.callback_ns = 10_000_000;
    ctx.playback_delta_ns = 6_000_000;
    assert_eq!(renderer.begin_callback(&ctx, FRAMES), quiet);
    // Two periods later: a stall.
    ctx.callback_ns = 30_000_000;
    assert_eq!(
        renderer.begin_callback(&ctx, FRAMES),
        CallbackNotices { gap_us: Some(20_000), ..quiet }
    );
    // A shift of more than a millisecond, either way.
    ctx.callback_ns = 31_000_000;
    ctx.playback_delta_ns = 4_999_000;
    assert_eq!(
        renderer.begin_callback(&ctx, FRAMES),
        CallbackNotices { shifted_from_us: Some(6_000), ..quiet }
    );
}

#[test]
fn a_period_is_rounded_to_the_nanosecond() {
    assert_eq!(period_ns(FRAMES, 48_000), PERIOD_NS);
    assert_eq!(period_ns(0, 48_000), 0);
    assert_eq!(period_ns(1, 48_000), 20_833);
    assert_eq!(period_ns(2, 48_000), 41_667);
    assert_eq!(period_ns(512, 44_100), 11_609_977);
    // 976_562.5 and 2_929_687.5: halves go to the even neighbour.
    assert_eq!(period_ns(1, 1_024), 976_562);
    assert_eq!(period_ns(3, 1_024), 2_929_688);
    assert_eq!(period_ns(44_100, 44_100), 1_000_000_000);
    assert_eq!(period_ns(usize::MAX, 1), u64::MAX);
}

#[test]
fn a_context_knows_the_end_of_the_clock() {
    let queue = PlaybackQueue::new();
    assert!(context(&queue, i64::MAX - 15_000_000).is_on_clock());
    assert!(!context(&queue, i64::MAX - 14_999_999).is_on_clock());
    assert!(context(&queue, i64::MIN).is_on_clock());
}

// -- Corrections --

#[test]
fn a_sustained_error_is_corrected_once_the_filter_is_warm() {
    let (mut renderer, queue) = started();
    measure(&mut renderer, &queue, SYNC_ERROR_WINDOW - 1, 5_000, true);
    assert_eq!(renderer.schedule(), IDLE);
    assert_eq!(
        renderer.stats().gate_suppressed_corrections,
        SYNC_ERROR_WINDOW as u64 - 1
    );
    measure(&mut renderer, &queue, 1, 5_000, true);
    assert_eq!(
        renderer.schedule(),
        CorrectionSchedule { drop_every_n_frames: 400, ..IDLE }
    );
    assert_eq!(renderer.stats().correction_engagements, 1);
    assert_eq!(renderer.stats().correction_updates, 1);
}

#[test]
fn a_late_cursor_is_corrected_by_repeating_frames() {
    let (mut renderer, queue) = started();
    measure(&mut renderer, &queue, SYNC_ERROR_WINDOW, -5_000, true);
    assert_eq!(
        renderer.schedule(),
        CorrectionSchedule { insert_every_n_frames: 400, ..IDLE }
    );
    // The error is gone: a rise, which reaches the floor after a whole window.
    measure(&mut renderer, &queue, SYNC_ERROR_WINDOW, 0, true);
    assert_eq!(renderer.schedule(), IDLE);
    assert_eq!(renderer.stats().correction_updates, 0);
}

#[test]
fn a_converging_clock_is_not_corrected_against() {
    let (mut renderer, queue) = started();
    measure(&mut renderer, &queue, 200, 5_000, false);
    assert_eq!(renderer.schedule(), IDLE);
    assert!(renderer.stats().warmup_suppressed_corrections > 0);
    assert_eq!(renderer.stats().correction_engagements, 0);
}

#[test]
fn a_settled_clock_starts_the_measurements_afresh() {
    let (mut renderer, mut queue) = setup();
    queue.force_reanchor = false;
    let ctx = context(&queue, 0);
    renderer.begin_callback(&ctx, FRAMES);
    renderer.locate(&ctx, Some(0), false);
    measure(&mut renderer, &queue, SYNC_ERROR_WINDOW, 5_000, false);
    // The first sight of the settled clock cools the filter.
    let ctx = context(&queue, 0);
    renderer.begin_callback(&ctx, FRAMES);
    renderer.plan_sync(&ctx, ClockStatus::Settled);
    measure(&mut renderer, &queue, SYNC_ERROR_WINDOW - 1, 5_000, true);
    assert_eq!(renderer.schedule(), IDLE);
    // The second does not.
    renderer.plan_sync(&context(&queue, 0), ClockStatus::Settled);
    measure(&mut renderer, &queue, 1, 5_000, true);
    assert!(renderer.schedule().is_correcting());
}

#[test]
fn a_gross_error_reanchors_at_once() {
    let (mut renderer, mut queue) = started();
    assert_eq!(queue.cursor_us, 0);
    let ctx = context(&queue, 1_000_000_000);
    renderer.begin_callback(&ctx, FRAMES);
    let expected = 1_005_000_000 - 500_000_000;
    assert_eq!(
        renderer.locate(&ctx, Some(expected), false),
        NextStep::Reanchor { instant_ns: 1_005_000_000 }
    );
    assert!(renderer.schedule().reanchor);
    renderer.complete_reanchor(&mut queue, Some(1_234));
    assert_eq!(queue.cursor_us, 1_234);
    assert_eq!(renderer.schedule(), IDLE);
    assert!(renderer.is_started());
}

#[test]
fn a_reanchor_leaves_only_jitter() {
    let (mut renderer, mut queue) = started();
    // Offset to the server's clock and static delay, in microseconds.
    let (offset, delay) = (3_600_000_000i64, 250_000i64);
    let callback_ns = 7_000_000_123i64;
    let ctx = context(&queue, callback_ns);
    renderer.begin_callback(&ctx, FRAMES);
    match renderer.locate(&ctx, Some(0), true) {
        NextStep::Reanchor { instant_ns } => {
            renderer.complete_reanchor(&mut queue, Some(instant_ns / 1_000 + delay + offset));
        }
        other => panic!("expected a re-anchor, got {other:?}"),
    }
    let expected = (queue.cursor_us - offset - delay) * 1_000;
    let error_ns = callback_ns + LATENCY_NS as i64 - expected;
    assert_eq!(error_ns, 123);
}

#[test]
fn a_clock_that_went_dark_stops_the_correction() {
    let (mut renderer, queue) = started();
    measure(&mut renderer, &queue, SYNC_ERROR_WINDOW, 5_000, true);
    assert!(renderer.schedule().is_correcting());
    assert_eq!(renderer.locate(&context(&queue, 0), None, true), NextStep::Play);
    assert_eq!(renderer.schedule(), IDLE);
    assert_eq!(renderer.stats().correction_updates, 0);
}

#[test]
fn the_counters_do_not_steer() {
    // Silent callbacks before the start differ; what follows does not.
    let (mut a, queue) = started();
    let (mut b, mut other) = setup();
    other.force_reanchor = false;
    for _ in 0..3 {
        let ctx = context(&other, 0);
        b.begin_callback(&ctx, FRAMES);
        assert_eq!(b.plan_sync(&ctx, ClockStatus::Contended), NextStep::Silence);
    }
    let ctx = context(&other, 0);
    b.plan_sync(&ctx, ClockStatus::Settled);
    b.locate(&ctx, Some(LATENCY_NS as i64), true);
    b.complete_reanchor(&mut other, None);
    assert!(a.stats().silent_callbacks != b.stats().silent_callbacks);
    for error in [4_000, 9_000, -2_000, 700_000, 0] {
        let left = measure(&mut a, &queue, 60, error, true);
        let right = measure(&mut b, &other, 60, error, true);
        assert_eq!(left, right);
        assert_eq!(a.schedule(), b.schedule());
    }
}

#[test]
fn long_callbacks_shorten_the_filter_window() {
    let (mut renderer, queue) = started();
    // 12288 frames at 48 kHz are 256 ms: 16 measurements span four seconds. The
    // streak of 50 plans is then what a correction waits for.
    let ctx = context(&queue, 0);
    for i in 0..50 {
        assert_eq!(renderer.schedule(), IDLE, "after {i} measurements");
        renderer.begin_callback(&ctx, 12_288);
        renderer.locate(&ctx, Some(0), true);
    }
    assert_eq!(renderer.schedule().drop_every_n_frames, 400);
}

#[test]
fn a_changed_period_discards_the_measurements() {
    let (mut renderer, queue) = started();
    let ctx = context(&queue, 0);
    measure(&mut renderer, &queue, SYNC_ERROR_WINDOW - 1, 5_000, true);
    // The window shrinks to 16 and grows back to 101.
    renderer.begin_callback(&ctx, 12_288);
    measure(&mut renderer, &queue, SYNC_ERROR_WINDOW - 1, 5_000, true);
    assert_eq!(renderer.schedule(), IDLE);
    measure(&mut renderer, &queue, 1, 5_000, true);
    assert!(renderer.schedule().is_correcting());
}

#[test]
fn a_period_change_within_the_window_discards_the_measurements() {
    let (mut renderer, queue) = started();
    let ctx = context(&queue, 0);
    measure(&mut renderer, &queue, SYNC_ERROR_WINDOW - 1, 5_000, true);
    // 5 ms and 10 ms callbacks both keep 101 measurements.
    renderer.begin_callback(&ctx, FRAMES / 2);
    measure(&mut renderer, &queue, SYNC_ERROR_WINDOW - 1, 5_000, true);
    assert_eq!(renderer.schedule(), IDLE);
    measure(&mut renderer, &queue, 1, 5_000, true);
    assert!(renderer.schedule().is_correcting());
}

#[test]
fn no_reanchor_stays_pending() {
    let (mut renderer, mut queue) = started();
    for error_us in [4_000i64, 700_000, -700_000, -9_000, 0] {
        for i in 0..150 {
            let ctx = context(&queue, i * PERIOD_NS as i64);
            renderer.begin_callback(&ctx, FRAMES);
            let expected = ctx.callback_ns + LATENCY_NS as i64 - error_us * 1_000;
            if let NextStep::Reanchor { .. } = renderer.locate(&ctx, Some(expected), true) {
                renderer.complete_reanchor(&mut queue, None);
            }
            let schedule = renderer.schedule();
            assert!(!schedule.reanchor);
            assert!(schedule.insert_every_n_frames == 0 || schedule.drop_every_n_frames == 0);
        }
    }
}

// -- Output --

#[test]
fn a_silent_callback_consumes_nothing() {
    let (mut renderer, mut queue) = setup();
    let mut out = vec![7; 3];
    for server_time in [None, Some(20_000_000), Some(100_000)] {
        let ctx = context(&queue, 0);
        renderer.begin_callback(&ctx, FRAMES);
        renderer.plan_sync(&ctx, ClockStatus::Converging);
        assert_eq!(
            renderer.complete_handoff(&ctx, &mut queue, server_time),
            NextStep::Silence
        );
        renderer.fill_silence(FRAMES, &mut out);
        assert_eq!(out, vec![0; FRAMES]);
        assert_eq!(queue.queue.len(), 1);
        assert!(queue.current.is_none());
        assert_eq!(queue.index, 0);
        assert_eq!(queue.queued_frames(1), 480_000);
    }
    assert!(!renderer.is_started());
}

#[test]
fn silence_has_a_sample_per_channel() {
    let renderer = AudioRenderer::new(&format(3));
    let mut out = Vec::new();
    renderer.fill_silence(2, &mut out);
    assert_eq!(out, vec![0; 6]);
    renderer.fill_silence(0, &mut out);
    assert!(out.is_empty());
}

#[test]
fn without_a_correction_every_frame_plays_once() {
    let (mut renderer, mut queue) = started();
    let mut out = vec![9; 4];
    assert_eq!(renderer.fill(&mut queue, FRAMES, &mut out), 0);
    let expected: Vec<i32> = (0..480).collect();
    assert_eq!(out, expected);
    assert_eq!(queue.cursor_us, 10_000);
}

#[test]
fn playing_needs_the_timeline_of_its_frames_only() {
    let mut queue = PlaybackQueue::new();
    queue.push(counting(i64::MAX - 1_000, 0, 48));
    let mut renderer = AudioRenderer::new(&format(1));
    let mut out = Vec::new();
    assert!(queue.has_timeline_for(48, 48_000));
    assert_eq!(renderer.fill(&mut queue, 48, &mut out), 0);
    assert_eq!(queue.cursor_us, i64::MAX);
}

#[test]
fn frames_are_dropped_at_the_cadence() {
    let (mut renderer, mut queue) = started();
    measure(&mut renderer, &queue, SYNC_ERROR_WINDOW, 200_000, true);
    assert_eq!(renderer.schedule().drop_every_n_frames, 25);
    let mut out = Vec::new();
    assert_eq!(renderer.fill(&mut queue, 60, &mut out), 0);
    // Output frames 24 and 49 discard one frame and play the next.
    let expected: Vec<i32> = (0..24).chain(25..50).chain(51..62).collect();
    assert_eq!(out, expected);
    assert_eq!(out.len(), 60);
    // 62 frames of the queue were used.
    assert_eq!(queue.queued_frames(1), 480_000 - 62);
}

#[test]
fn frames_are_repeated_at_the_cadence() {
    let (mut renderer, mut queue) = started();
    measure(&mut renderer, &queue, SYNC_ERROR_WINDOW, -200_000, true);
    assert_eq!(renderer.schedule().insert_every_n_frames, 25);
    let mut out = Vec::new();
    assert_eq!(renderer.fill(&mut queue, 60, &mut out), 0);
    let expected: Vec<i32> = (0..24)
        .chain(23..24)
        .chain(24..48)
        .chain(47..48)
        .chain(48..58)
        .collect();
    assert_eq!(out, expected);
    assert_eq!(out.len(), 60);
    assert_eq!(queue.queued_frames(1), 480_000 - 58);
}

#[test]
fn the_cadence_goes_on_across_callbacks() {
    let (mut renderer, mut queue) = started();
    measure(&mut renderer, &queue, SYNC_ERROR_WINDOW, 200_000, true);
    let mut out = Vec::new();
    let mut all = Vec::new();
    for _ in 0..6 {
        renderer.fill(&mut queue, 10, &mut out);
        all.extend_from_slice(&out);
    }
    let expected: Vec<i32> = (0..24).chain(25..50).chain(51..62).collect();
    assert_eq!(all, expected);
}

#[test]
fn an_underrun_is_filled_with_silence() {
    let mut queue = PlaybackQueue::new();
    queue.push(AudioBuffer {
        timestamp: 0,
        duration_us: 41,
        samples: vec![1, 2, 3, 4],
        format: format(2),
    });
    let mut renderer = AudioRenderer::new(&format(2));
    let mut out = Vec::new();
    let missing = renderer.fill(&mut queue, 4, &mut out);
    assert_eq!(missing, 2);
    assert_eq!(out, vec![1, 2, 3, 4, 0, 0, 0, 0]);
    assert_eq!(renderer.finish_render(missing), None);
    assert_eq!(renderer.stats().underrun_frames, 2);
    assert_eq!(renderer.stats().underrun_callbacks, 1);
    assert_eq!(renderer.finish_render(0), Some(1));
    assert_eq!(renderer.note_queue_depth(0), QueueEdge::Low);
    assert!(renderer.stats().queue_low);
}

#[test]
fn a_drop_on_an_empty_queue_repeats_the_last_frame() {
    let (mut renderer, queue) = started();
    measure(&mut renderer, &queue, SYNC_ERROR_WINDOW, 200_000, true);
    let mut short = PlaybackQueue::new();
    short.push(counting(0, 100, 24));
    let mut out = Vec::new();
    // 24 frames play, the drop finds none and repeats, then silence.
    assert_eq!(renderer.fill(&mut short, 26, &mut out), 1);
    assert_eq!(out[23..], [123, 123, 0]);
}
