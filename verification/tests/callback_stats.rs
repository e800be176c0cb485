//! The diagnostic counters.

use sendspin::audio::callback_stats::{CallbackStats, QueueEdge};

#[test]
fn a_generation_keeps_the_callback_count_only() {
    let mut stats = CallbackStats::default();
    stats.callbacks = 12;
    stats.note_silence();
    stats.note_render(5);
    stats.correction_engagements = 3;
    stats.queue_low = true;
    stats.reset_for_generation();
    let mut expected = CallbackStats::default();
    expected.callbacks = 12;
    assert_eq!(stats, expected);
}

#[test]
fn underruns_are_counted_in_runs() {
    let mut stats = CallbackStats::default();
    assert_eq!(stats.note_render(0), None);
    assert_eq!(stats.note_render(10), None);
    assert_eq!(stats.note_render(4), None);
    assert_eq!(stats.underrun_frames, 14);
    assert_eq!(stats.underrun_callbacks, 2);
    assert_eq!(stats.consecutive_underrun_callbacks, 2);
    assert_eq!(stats.note_render(0), Some(2));
    assert_eq!(stats.consecutive_underrun_callbacks, 0);
    assert_eq!(stats.note_render(0), None);
    assert_eq!(stats.underrun_callbacks, 2);
}

#[test]
fn a_hovering_queue_makes_one_edge() {
    let mut stats = CallbackStats::default();
    assert_eq!(stats.note_queue_depth(100_000), QueueEdge::Unchanged);
    assert_eq!(stats.note_queue_depth(99_999), QueueEdge::Low);
    for depth in [100_000, 99_999, 150_000, 50_000, 199_999] {
        assert_eq!(stats.note_queue_depth(depth), QueueEdge::Unchanged);
    }
    assert_eq!(stats.note_queue_depth(200_000), QueueEdge::Recovered);
    for depth in [199_999, 200_000, 100_000] {
        assert_eq!(stats.note_queue_depth(depth), QueueEdge::Unchanged);
    }
    assert_eq!(stats.note_queue_depth(0), QueueEdge::Low);
}

#[test]
fn counters_know_their_room() {
    let mut stats = CallbackStats::default();
    assert!(stats.has_room(u64::MAX));
    stats.note_silence();
    assert_eq!(stats.silent_callbacks, 1);
    assert!(!stats.has_room(u64::MAX));
    assert!(stats.has_room(u64::MAX - 1));
    stats.underrun_frames = u64::MAX;
    assert!(!stats.has_room(1));
    assert!(stats.has_room(0));
}
