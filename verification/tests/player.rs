//! Rules of the players: formats, static delay, sink delay and stream cycle.

use sendspin::audio::pipewire_stream::{
    buffer_layout, note_sink_delay, sink_delay_ns, LoopAction, StreamPhase,
};
use sendspin::audio::player::{check_format, static_delay_ms_to_us, static_delay_us_to_ms};
use sendspin::audio::{AudioFormat, Codec};
use sendspin::error::Error;

fn format(channels: u8) -> AudioFormat {
    AudioFormat {
        codec: Codec::Pcm,
        sample_rate: 48_000,
        channels,
        bit_depth: 24,
        codec_header: None,
    }
}

#[test]
fn a_format_needs_channels() {
    assert!(check_format(&format(1)).is_ok());
    assert!(check_format(&format(255)).is_ok());
    match check_format(&format(0)) {
        Err(Error::Output(message)) => assert_eq!(message, "channels must be > 0"),
        Ok(()) => panic!("a format without channels was accepted"),
    }
}

#[test]
fn a_static_delay_reads_back_clamped() {
    for (set, read) in [(0, 0), (1, 1), (250, 250), (5_000, 5_000), (5_001, 5_000), (u16::MAX, 5_000)] {
        assert_eq!(static_delay_us_to_ms(static_delay_ms_to_us(set)), read);
    }
    assert_eq!(static_delay_ms_to_us(250), 250_000);
    assert_eq!(static_delay_ms_to_us(9_999), 5_000_000);
}

#[test]
fn a_delay_is_reported_in_whole_milliseconds() {
    assert_eq!(static_delay_us_to_ms(999), 0);
    assert_eq!(static_delay_us_to_ms(1_999), 1);
    assert_eq!(static_delay_us_to_ms(65_536_000), 0);
}

#[test]
fn a_sink_delay_is_in_nanoseconds() {
    // 4800 ticks of 1/48000 s are 100 ms.
    assert_eq!(sink_delay_ns(0, 4_800, 1, 48_000), 100_000_000);
    assert_eq!(sink_delay_ns(0, 4_800, 2, 96_000), 100_000_000);
    assert_eq!(sink_delay_ns(0, 1, 1, 44_100), 22_675);
}

#[test]
fn no_report_is_no_delay() {
    assert_eq!(sink_delay_ns(-1, 4_800, 1, 48_000), 0);
    assert_eq!(sink_delay_ns(0, 4_800, 1, 0), 0);
    assert_eq!(sink_delay_ns(0, 0, 1, 48_000), 0);
    assert_eq!(sink_delay_ns(0, -4_800, 1, 48_000), 0);
}

#[test]
fn a_huge_sink_delay_saturates() {
    assert_eq!(sink_delay_ns(0, i64::MAX, 1, 1), u64::MAX);
    assert_eq!(sink_delay_ns(0, i64::MAX, u32::MAX, 48_000), u64::MAX / 48_000);
}

#[test]
fn only_a_large_change_of_the_sink_delay_is_noted() {
    let mut last = 0u64;
    assert!(!note_sink_delay(&mut last, 1_000));
    assert_eq!(last, 0);
    assert!(note_sink_delay(&mut last, 1_001));
    assert_eq!(last, 1_001);
    assert!(!note_sink_delay(&mut last, 1));
    assert!(note_sink_delay(&mut last, 0));
    assert_eq!(last, 0);
}

#[test]
fn a_buffer_holds_whole_frames() {
    let layout = buffer_layout(4_099, 2);
    assert_eq!(layout.stride, 8);
    assert_eq!(layout.frames, 512);
    assert_eq!(layout.samples, 1_024);
    assert_eq!(layout.bytes, 4_096);
    let small = buffer_layout(7, 2);
    assert_eq!((small.frames, small.samples, small.bytes), (0, 0, 0));
}

#[test]
fn a_stream_cycles_once_its_gap_is_over() {
    let mut phase = StreamPhase::Streaming;
    assert_eq!(phase.poll(true, 0), LoopAction::Iterate);
    assert!(phase.takes_requests());
    assert_eq!(phase.take_request(&vec![5_000], 1_000), LoopAction::Disconnect);
    assert_eq!(phase, StreamPhase::Idle { deadline_ns: 6_000 });
    assert!(!phase.takes_requests());
    assert_eq!(phase.poll(true, 5_999), LoopAction::Iterate);
    assert_eq!(phase.poll(true, 6_000), LoopAction::Connect);
    assert_eq!(phase, StreamPhase::Streaming);
    assert_eq!(phase.poll(true, 6_001), LoopAction::Iterate);
}

#[test]
fn a_stopped_stream_is_not_connected_again() {
    let mut phase = StreamPhase::Idle { deadline_ns: 10 };
    assert_eq!(phase.poll(false, 20), LoopAction::Stop);
    assert_eq!(phase, StreamPhase::Idle { deadline_ns: 10 });
    let mut streaming = StreamPhase::Streaming;
    assert_eq!(streaming.poll(false, 0), LoopAction::Stop);
}

#[test]
fn pending_requests_make_one_cycle() {
    let mut phase = StreamPhase::Streaming;
    assert_eq!(phase.take_request(&Vec::new(), 100), LoopAction::Iterate);
    assert_eq!(phase, StreamPhase::Streaming);
    // The gap of the first request counts.
    assert_eq!(phase.take_request(&vec![7, 99, 3], 100), LoopAction::Disconnect);
    assert_eq!(phase, StreamPhase::Idle { deadline_ns: 107 });
    // An idle stream takes no request.
    assert_eq!(phase.take_request(&vec![50], 101), LoopAction::Iterate);
    assert_eq!(phase, StreamPhase::Idle { deadline_ns: 107 });
}
