//! The playback queue: order, eviction, the cursor and handoffs.

use sendspin::audio::playback_queue::{Handoff, PlaybackQueue};
use sendspin::audio::types::{frame_us, AudioBuffer, AudioFormat, Codec};

fn format(sample_rate: u32, channels: u8) -> AudioFormat {
    AudioFormat {
        codec: Codec::Pcm,
        sample_rate,
        channels,
        bit_depth: 24,
        codec_header: None,
    }
}

/// A mono buffer whose samples count up from `first`.
fn counting(timestamp: i64, duration_us: i64, first: i32, frames: usize, rate: u32) -> AudioBuffer {
    AudioBuffer {
        timestamp,
        duration_us,
        samples: (0..frames).map(|i| first + i as i32).collect(),
        format: format(rate, 1),
    }
}

/// A millisecond of mono audio at 48 kHz.
fn millisecond(timestamp: i64, first: i32) -> AudioBuffer {
    counting(timestamp, 1_000, first, 48, 48_000)
}

fn timestamps(queue: &PlaybackQueue) -> Vec<i64> {
    queue.queue.iter().map(|b| b.timestamp).collect()
}

#[test]
fn frame_length_is_rounded_up() {
    assert_eq!(frame_us(48_000), 21);
    assert_eq!(frame_us(44_100), 23);
    assert_eq!(frame_us(1_000_000), 1);
    assert_eq!(frame_us(4_000_000), 1);
    assert_eq!(frame_us(1), 1_000_000);
    assert_eq!(frame_us(0), 1_000_000);
}

#[test]
fn buffers_overlap_by_the_time_they_share() {
    let a = millisecond(1_000, 0);
    assert_eq!(a.end(), 2_000);
    assert_eq!(a.overlap(&millisecond(1_400, 0)), 600);
    assert_eq!(millisecond(1_400, 0).overlap(&a), 600);
    assert_eq!(a.overlap(&millisecond(2_000, 0)), 0);
    assert_eq!(a.overlap(&millisecond(2_500, 0)), -500);
    let edge = counting(i64::MAX, i64::MAX, 0, 1, 48_000);
    assert_eq!(edge.end(), 2 * i128::from(i64::MAX));
}

#[test]
fn a_new_queue_waits_for_a_reanchor() {
    let queue = PlaybackQueue::new();
    let snapshot = queue.snapshot();
    assert_eq!(snapshot.generation, 0);
    assert_eq!(snapshot.cursor_us, None);
    assert!(snapshot.force_reanchor);
    assert_eq!(queue.buffer_count(), 0);
    assert_eq!(queue.queued_frames(1), 0);
}

#[test]
fn the_first_buffer_places_the_cursor() {
    let mut queue = PlaybackQueue::new();
    queue.push(millisecond(5_000, 0));
    assert_eq!(queue.snapshot().cursor_us, Some(5_000));
    queue.push(millisecond(3_000, 0));
    assert_eq!(queue.snapshot().cursor_us, Some(5_000));
}

#[test]
fn buffers_are_kept_in_timestamp_order() {
    let mut queue = PlaybackQueue::new();
    for timestamp in [3_000, 1_000, 5_000, 2_000, 4_000] {
        queue.push(millisecond(timestamp, 0));
    }
    assert_eq!(timestamps(&queue), vec![1_000, 2_000, 3_000, 4_000, 5_000]);
}

#[test]
fn a_rebase_evicts_exactly_the_overlapped_buffers() {
    let mut queue = PlaybackQueue::new();
    for timestamp in [0, 1_000, 2_000, 3_000] {
        queue.push(millisecond(timestamp, 0));
    }
    // Shares 600us with the buffer at 1_000 and 400us with the one at 2_000.
    queue.push(millisecond(1_400, 7));
    assert_eq!(timestamps(&queue), vec![0, 1_400, 3_000]);
    assert_eq!(queue.queue[1].samples[0], 7);
}

#[test]
fn the_same_buffer_twice_is_kept_once() {
    let mut queue = PlaybackQueue::new();
    queue.push(millisecond(1_000, 1));
    queue.push(millisecond(1_000, 2));
    assert_eq!(timestamps(&queue), vec![1_000]);
    assert_eq!(queue.queue[0].samples[0], 2);
}

#[test]
fn an_overlap_counts_from_one_frame_on() {
    // A frame at 44.1 kHz is 22.68us, rounded up to 23us.
    let first = counting(0, 1_000, 0, 44, 44_100);
    for (overlap, kept) in [(22, 2), (23, 1)] {
        let mut queue = PlaybackQueue::new();
        queue.push(first.clone());
        queue.push(counting(1_000 - overlap, 1_000, 0, 44, 44_100));
        assert_eq!(queue.buffer_count(), kept, "overlap of {overlap}us");
    }
}

#[test]
fn timestamp_rounding_evicts_nothing() {
    // 1102 frames at 44.1 kHz are 24988.66us: the timestamps step by 24988us
    // or 24989us while every buffer measures 24989us.
    let mut queue = PlaybackQueue::new();
    for i in 0..300i64 {
        let timestamp = i * 1_102 * 1_000_000 / 44_100;
        queue.push(counting(timestamp, 24_989, 0, 1_102, 44_100));
    }
    assert_eq!(queue.buffer_count(), 300);
    assert_eq!(queue.queued_frames(1), 300 * 1_102);
}

#[test]
fn frames_play_in_order_across_buffers() {
    let mut queue = PlaybackQueue::new();
    queue.push(millisecond(1_000, 100));
    queue.push(millisecond(0, 0));
    queue.anchor(0);
    let mut played = Vec::new();
    while let Some(frame) = queue.next_frame(1, 48_000) {
        played.extend_from_slice(frame);
    }
    let expected: Vec<i32> = (0..48).chain(100..148).collect();
    assert_eq!(played, expected);
    assert_eq!(queue.cursor_us, 2_000);
}

#[test]
fn a_frame_holds_one_sample_per_channel() {
    let mut queue = PlaybackQueue::new();
    queue.push(AudioBuffer {
        timestamp: 0,
        duration_us: 42,
        samples: vec![1, 2, 3, 4, 5],
        format: format(48_000, 2),
    });
    assert_eq!(queue.next_frame(2, 48_000), Some(&[1, 2][..]));
    assert_eq!(queue.next_frame(2, 48_000), Some(&[3, 4][..]));
    // The odd sample is no frame.
    assert_eq!(queue.next_frame(2, 48_000), None);
}

#[test]
fn the_cursor_carries_the_fraction_of_a_microsecond() {
    let mut queue = PlaybackQueue::new();
    queue.push(millisecond(0, 0));
    queue.next_frame(1, 48_000);
    // 1_000_000 / 48_000 = 20 and 40_000 / 48_000.
    assert_eq!((queue.cursor_us, queue.cursor_remainder), (20, 40_000));
    queue.next_frame(1, 48_000);
    assert_eq!((queue.cursor_us, queue.cursor_remainder), (41, 32_000));
    queue.next_frame(1, 48_000);
    assert_eq!((queue.cursor_us, queue.cursor_remainder), (62, 24_000));
}

#[test]
fn a_second_of_frames_is_exactly_a_second() {
    for rate in [8_000u32, 11_025, 44_100, 48_000, 96_000, 192_000] {
        let mut queue = PlaybackQueue::new();
        queue.push(counting(7, 1_000_000, 0, rate as usize, rate));
        for _ in 0..rate {
            assert!(queue.next_frame(1, rate).is_some());
        }
        assert_eq!((queue.cursor_us, queue.cursor_remainder), (1_000_007, 0));
    }
}

#[test]
fn an_underrun_leaves_the_cursor_alone() {
    let mut queue = PlaybackQueue::new();
    queue.push(millisecond(0, 0));
    for _ in 0..48 {
        assert!(queue.next_frame(1, 48_000).is_some());
    }
    for _ in 0..1_000 {
        assert_eq!(queue.next_frame(1, 48_000), None);
    }
    assert_eq!(queue.cursor_us, 1_000);
    // Audio that arrives late is still played.
    queue.push(millisecond(1_000, 500));
    assert_eq!(queue.next_frame(1, 48_000), Some(&[500][..]));
}

#[test]
fn stale_buffers_are_dropped() {
    let mut queue = PlaybackQueue::new();
    for timestamp in [0, 1_000, 2_000] {
        queue.push(millisecond(timestamp, timestamp as i32));
    }
    queue.anchor(2_500);
    // 500us into the third buffer: 24 frames are behind the cursor.
    assert_eq!(queue.next_frame(1, 48_000), Some(&[2_024][..]));
    assert_eq!(queue.buffer_count(), 1);
}

#[test]
fn a_buffer_behind_the_cursor_repeats_no_frame() {
    let mut queue = PlaybackQueue::new();
    queue.push(millisecond(0, 0));
    queue.anchor(999);
    // 999us * 48 / 1000 = 47.952: the last frame has not been passed yet.
    assert_eq!(queue.next_frame(1, 48_000), Some(&[47][..]));
    assert_eq!(queue.next_frame(1, 48_000), None);
}

#[test]
fn a_cursor_ahead_of_everything_discards_everything() {
    let mut queue = PlaybackQueue::new();
    queue.push(millisecond(0, 0));
    queue.push(millisecond(1_000, 0));
    queue.anchor(1_000_000);
    assert_eq!(queue.next_frame(1, 48_000), None);
    assert_eq!(queue.buffer_count(), 0);
    assert_eq!(queue.cursor_us, 1_000_000);
}

#[test]
fn the_first_playable_time_has_audio() {
    let mut queue = PlaybackQueue::new();
    assert_eq!(queue.first_playable_cursor_at_or_after(0), None);
    queue.push(millisecond(1_000, 0));
    queue.push(millisecond(5_000, 0));
    // Before all audio, inside a buffer, in the gap, at the very end.
    assert_eq!(queue.first_playable_cursor_at_or_after(0), Some(1_000));
    assert_eq!(queue.first_playable_cursor_at_or_after(1_500), Some(1_500));
    assert_eq!(queue.first_playable_cursor_at_or_after(2_000), Some(5_000));
    assert_eq!(queue.first_playable_cursor_at_or_after(5_999), Some(5_999));
    assert_eq!(queue.first_playable_cursor_at_or_after(6_000), None);
}

#[test]
fn the_current_buffer_is_playable_from_the_cursor_on() {
    let mut queue = PlaybackQueue::new();
    queue.push(millisecond(1_000, 0));
    for _ in 0..24 {
        queue.next_frame(1, 48_000);
    }
    assert_eq!(queue.cursor_us, 1_500);
    assert_eq!(queue.first_playable_cursor_at_or_after(0), Some(1_500));
    assert_eq!(queue.first_playable_cursor_at_or_after(1_700), Some(1_700));
    assert_eq!(queue.first_playable_cursor_at_or_after(2_000), None);
}

#[test]
fn the_first_playable_time_is_the_earliest() {
    let mut queue = PlaybackQueue::new();
    for timestamp in [1_000, 3_000, 6_000] {
        queue.push(millisecond(timestamp, 0));
    }
    let plays = |t: i64| [1_000, 3_000, 6_000].iter().any(|s| *s <= t && t < s + 1_000);
    for from in 0..7_000 {
        let found = queue.first_playable_cursor_at_or_after(from);
        assert_eq!(found, (from..7_000).find(|t| plays(*t)));
    }
    assert_eq!(queue.first_playable_cursor_at_or_after(7_000), None);
}

#[test]
fn a_handoff_settles_the_request() {
    let mut queue = PlaybackQueue::new();
    queue.push(millisecond(1_000, 0));
    assert_eq!(
        queue.hand_off(0, 1_250),
        Handoff::Applied { cursor_us: 1_250 }
    );
    let snapshot = queue.snapshot();
    assert_eq!(snapshot.cursor_us, Some(1_250));
    assert!(!snapshot.force_reanchor);
}

#[test]
fn a_handoff_past_all_audio_keeps_the_request() {
    let mut queue = PlaybackQueue::new();
    queue.push(millisecond(1_000, 0));
    assert_eq!(queue.hand_off(0, 2_000), Handoff::NothingPlayable);
    assert_eq!(queue.snapshot().cursor_us, Some(1_000));
    assert!(queue.snapshot().force_reanchor);
}

#[test]
fn a_handoff_planned_before_a_clear_is_superseded() {
    let mut queue = PlaybackQueue::new();
    assert_eq!(queue.hand_off(0, 0), Handoff::Superseded);
    queue.push(millisecond(1_000, 0));
    queue.clear();
    queue.push(millisecond(2_000, 0));
    assert_eq!(queue.hand_off(0, 2_000), Handoff::Superseded);
    assert!(queue.snapshot().force_reanchor);
    assert_eq!(
        queue.hand_off(1, 2_000),
        Handoff::Applied { cursor_us: 2_000 }
    );
}

#[test]
fn clear_starts_a_generation() {
    let mut queue = PlaybackQueue::new();
    queue.enqueue(millisecond(1_000, 0));
    queue.enqueue(millisecond(2_000, 0));
    queue.next_frame(1, 48_000);
    assert_eq!(queue.enqueue_count, 2);
    queue.clear();
    assert_eq!(queue.generation, 1);
    assert_eq!(queue.enqueue_count, 0);
    assert_eq!(queue.buffer_count(), 0);
    assert_eq!(queue.snapshot().cursor_us, None);
    assert!(queue.snapshot().force_reanchor);
    queue.generation = u64::MAX;
    queue.clear();
    assert_eq!(queue.generation, 0);
}

#[test]
fn the_index_moves_with_playing_only() {
    let mut queue = PlaybackQueue::new();
    assert_eq!(queue.index, 0);
    queue.push(millisecond(0, 0));
    for _ in 0..7 {
        queue.next_frame(1, 48_000);
    }
    assert_eq!(queue.index, 7);
    queue.enqueue(millisecond(1_000, 0));
    queue.request_reanchor();
    queue.hand_off(0, 500);
    queue.anchor(600);
    assert_eq!(queue.index, 7);
    queue.clear();
    assert_eq!(queue.index, 0);
    // A buffer that is discarded leaves the samples skipped of it behind.
    queue.push(millisecond(0, 0));
    queue.anchor(1_000);
    assert_eq!(queue.next_frame(1, 48_000), None);
    assert_eq!(queue.index, 48);
    queue.push(millisecond(5_000, 0));
    assert_eq!(queue.index, 48);
    queue.clear();
    assert_eq!(queue.index, 0);
}

#[test]
fn only_a_placed_cursor_can_be_reanchored() {
    let mut queue = PlaybackQueue::new();
    queue.push(millisecond(0, 0));
    queue.hand_off(0, 0);
    assert!(!queue.snapshot().force_reanchor);
    queue.request_reanchor();
    assert!(queue.snapshot().force_reanchor);
    let mut empty = PlaybackQueue::new();
    empty.force_reanchor = false;
    empty.request_reanchor();
    assert!(!empty.snapshot().force_reanchor);
}

#[test]
fn a_reanchor_request_outlasts_playing() {
    let mut queue = PlaybackQueue::new();
    queue.push(millisecond(0, 0));
    queue.next_frame(1, 48_000);
    queue.push(millisecond(1_000, 0));
    queue.anchor(500);
    assert!(queue.snapshot().force_reanchor);
    assert_eq!(queue.hand_off(0, 1_100), Handoff::Applied { cursor_us: 1_100 });
    assert!(!queue.snapshot().force_reanchor);
}

#[test]
fn anchoring_moves_the_cursor_only() {
    let mut queue = PlaybackQueue::new();
    queue.push(millisecond(0, 0));
    queue.next_frame(1, 48_000);
    queue.anchor(-77);
    assert_eq!((queue.cursor_us, queue.cursor_remainder), (-77, 0));
    assert!(queue.snapshot().force_reanchor);
    assert_eq!(queue.buffer_count(), 1);
}

#[test]
fn the_depth_counts_whole_frames() {
    let mut queue = PlaybackQueue::new();
    queue.push(millisecond(0, 0));
    queue.push(millisecond(1_000, 0));
    assert_eq!(queue.queued_frames(1), 96);
    assert_eq!(queue.queued_duration_us(1, 48_000), 2_000);
    for _ in 0..12 {
        queue.next_frame(1, 48_000);
    }
    assert_eq!(queue.queued_frames(1), 84);
    assert_eq!(queue.queued_duration_us(1, 48_000), 1_750);
    assert_eq!(queue.buffer_count(), 2);
    // 36 and 48 samples in frames of 5.
    assert_eq!(queue.queued_frames(5), 7 + 9);
    // A rate of 0 counts as 1.
    assert_eq!(queue.queued_duration_us(1, 0), 84_000_000);
}

#[test]
fn the_timeline_has_an_end() {
    let mut queue = PlaybackQueue::new();
    queue.push(millisecond(i64::MAX - 1_000, 0));
    assert!(queue.has_timeline_for(48, 48_000));
    assert!(!queue.has_timeline_for(49, 48_000));
    queue.anchor(0);
    assert!(queue.has_timeline_for(u64::from(u32::MAX), 8_000));
    assert!(!queue.has_timeline_for(u64::MAX, 1));
}
