//! What a PipeWire stream decides: the sink delay, the layout of a buffer, and
//! when to disconnect and reconnect.

use vstd::prelude::*;

verus! {

/// Bytes of one `f32` sample.
pub const SAMPLE_BYTES: usize = 4;

/// Smallest change of the sink delay that is worth a log line.
pub const DELAY_CHANGE_US: u64 = 1_000;

/// `value`, but not above `u64::MAX`.
pub open spec fn saturated(value: int) -> int {
    if value > u64::MAX {
        u64::MAX as int
    } else {
        value
    }
}

/// Downstream delay of a sink in nanoseconds, from a `pw_time` report: `delay`
/// ticks of `rate_num / rate_denom` seconds. No delay if there was no report or
/// it makes no sense.
pub open spec fn sink_delay(status: i32, delay: i64, rate_num: u32, rate_denom: u32) -> int {
    if status == 0 && rate_denom > 0 && delay > 0 {
        saturated(saturated(delay * rate_num) * 1_000_000_000) / (rate_denom as int)
    } else {
        0
    }
}

/// Downstream delay of a sink in nanoseconds, from a `pw_time` report.
///
/// `status` is what the query returned; `delay` is in graph rate units.
pub fn sink_delay_ns(status: i32, delay: i64, rate_num: u32, rate_denom: u32) -> (r: u64)
    ensures
        r == sink_delay(status, delay, rate_num, rate_denom),
{
    if status != 0 || rate_denom == 0 || delay <= 0 {
        return 0;
    }
    let delay_units: u64 = saturating_product(delay as u64, rate_num as u64);
    saturating_product(delay_units, 1_000_000_000) / rate_denom as u64
}

/// `a * b`, saturating.
fn saturating_product(a: u64, b: u64) -> (r: u64)
    ensures
        r == saturated(a * b),
{
    assert(0 <= a * b <= 0xffff_ffff_ffff_ffff * 0xffff_ffff_ffff_ffff) by (nonlinear_arith)
        requires
            0 <= a <= 0xffff_ffff_ffff_ffff,
            0 <= b <= 0xffff_ffff_ffff_ffff,
    ;
    let product: u128 = a as u128 * b as u128;
    if product > u64::MAX as u128 {
        u64::MAX
    } else {
        product as u64
    }
}

/// Take note of a sink delay. Returns whether it moved by more than a
/// millisecond from the delay noted last; a smaller change is not noted.
pub fn note_sink_delay(last_delay_us: &mut u64, delay_us: u64) -> (r: bool)
    ensures
        r == (delay_us - *old(last_delay_us) > 1_000 || *old(last_delay_us) - delay_us > 1_000),
        *final(last_delay_us) == if r {
            delay_us
        } else {
            *old(last_delay_us)
        },
{
    let diff: u64 = if delay_us >= *last_delay_us {
        delay_us - *last_delay_us
    } else {
        *last_delay_us - delay_us
    };
    if diff > DELAY_CHANGE_US {
        *last_delay_us = delay_us;
        true
    } else {
        false
    }
}

/// How frames lie in a stream buffer.
#[derive(Debug, Clone, Copy, PartialEq, Eq, Structural)]
pub struct BufferLayout {
    /// Bytes of one frame.
    pub stride: usize,
    /// Whole frames that fit.
    pub frames: usize,
    /// Samples of these frames.
    pub samples: usize,
    /// Bytes of these frames.
    pub bytes: usize,
}

/// The layout of a buffer of `byte_len` bytes: as many whole interleaved `f32`
/// frames as fit.
pub fn buffer_layout(byte_len: usize, channels: u8) -> (r: BufferLayout)
    requires
        channels > 0,
    ensures
        r.stride == 4 * channels,
        r.frames == byte_len as int / (4 * channels),
        r.samples == r.frames * channels,
        r.bytes == r.frames * r.stride,
        r.bytes == 4 * r.samples,
        r.bytes <= byte_len,
        byte_len - r.bytes < r.stride,
{
    let stride: usize = SAMPLE_BYTES * channels as usize;
    let frames: usize = byte_len / stride;
    proof {
        vstd::arithmetic::div_mod::lemma_fundamental_div_mod(byte_len as int, stride as int);
        vstd::arithmetic::div_mod::lemma_mod_bound(byte_len as int, stride as int);
        assert(frames * channels <= frames * stride && 4 * (frames * channels) == frames * stride
            && frames * stride == stride * frames) by (nonlinear_arith)
            requires
                stride == 4 * channels,
                frames >= 0,
                channels >= 0,
        ;
    }
    BufferLayout { stride, frames, samples: frames * channels as usize, bytes: frames * stride }
}

/// Where a stream is in its connection cycle.
#[derive(Debug, Clone, Copy, PartialEq, Eq, Structural)]
pub enum StreamPhase {
    /// Connected.
    Streaming,
    /// Disconnected until the deadline, so that the sink can suspend.
    Idle { deadline_ns: i64 },
}

/// What the stream's loop does next.
#[derive(Debug, Clone, Copy, PartialEq, Eq, Structural)]
pub enum LoopAction {
    /// Leave the loop.
    Stop,
    /// Run the main loop once.
    Iterate,
    /// Connect the stream again.
    Connect,
    /// Disconnect the stream.
    Disconnect,
}

impl StreamPhase {
    /// The phase and the action when the loop comes round.
    pub open spec fn polled(self, running: bool, now_ns: i64) -> (Self, LoopAction) {
        match self {
            _ if !running => (self, LoopAction::Stop),
            StreamPhase::Idle { deadline_ns } if now_ns >= deadline_ns => (
                StreamPhase::Streaming,
                LoopAction::Connect,
            ),
            _ => (self, LoopAction::Iterate),
        }
    }

    /// Decide what the loop does next.
    pub fn poll(&mut self, running: bool, now_ns: i64) -> (r: LoopAction)
        ensures
            (*final(self), r) == old(self).polled(running, now_ns),
    {
        if !running {
            return LoopAction::Stop;
        }
        match *self {
            StreamPhase::Idle { deadline_ns } => {
                if now_ns >= deadline_ns {
                    *self = StreamPhase::Streaming;
                    LoopAction::Connect
                } else {
                    LoopAction::Iterate
                }
            },
            StreamPhase::Streaming => LoopAction::Iterate,
        }
    }

    /// Whether a request to cycle the connection is taken now. While one is
    /// being carried out, further requests wait.
    pub fn takes_requests(&self) -> (r: bool)
        ensures
            r == (*self == StreamPhase::Streaming),
    {
        match *self {
            StreamPhase::Streaming => true,
            StreamPhase::Idle { .. } => false,
        }
    }

    /// The phase and the action when requests with these idle gaps are pending.
    pub open spec fn requested(self, gaps_ns: Seq<u64>, now_ns: i64) -> (Self, LoopAction) {
        if self == StreamPhase::Streaming && gaps_ns.len() > 0 {
            (
                StreamPhase::Idle { deadline_ns: (now_ns + gaps_ns[0]) as i64 },
                LoopAction::Disconnect,
            )
        } else {
            (self, LoopAction::Iterate)
        }
    }

    /// Take all pending requests to cycle the connection, each with its idle gap
    /// in nanoseconds, oldest first. They are coalesced into one cycle, with the
    /// idle gap of the first.
    pub fn take_request(&mut self, gaps_ns: &Vec<u64>, now_ns: i64) -> (r: LoopAction)
        requires
            gaps_ns@.len() > 0 ==> now_ns + gaps_ns@[0] <= i64::MAX,
        ensures
            (*final(self), r) == old(self).requested(gaps_ns@, now_ns),
    {
        if !self.takes_requests() || gaps_ns.len() == 0 {
            return LoopAction::Iterate;
        }
        let deadline_ns: i64 = (now_ns as i128 + gaps_ns[0] as i128) as i64;
        *self = StreamPhase::Idle { deadline_ns };
        LoopAction::Disconnect
    }
}

/// A disconnected stream stays so for its whole idle gap and is connected again
/// at the first poll after it, unless the player is shut down; a connected one
/// is never connected twice.
pub proof fn law_idle_gap_is_respected(phase: StreamPhase, running: bool, now_ns: i64)
    ensures
        phase.polled(running, now_ns).1 is Stop <==> !running,
        phase.polled(running, now_ns).1 is Connect <==> running && (phase matches StreamPhase::Idle {
            deadline_ns,
        } && now_ns >= deadline_ns),
        phase.polled(running, now_ns).1 is Connect ==> phase.polled(running, now_ns).0
            == StreamPhase::Streaming,
        !(phase.polled(running, now_ns).1 is Connect) ==> phase.polled(running, now_ns).0 == phase,
{
}

/// Without a report, without a rate, or with nothing delayed there is no delay. A
/// delay that does not fit saturates, before the rate divides it.
pub proof fn law_sink_delay_by_numbers(status: i32, delay: i64, rate_num: u32, rate_denom: u32)
    ensures
        status != 0 || rate_denom == 0 || delay <= 0 ==> sink_delay(
            status,
            delay,
            rate_num,
            rate_denom,
        ) == 0,
        status == 0 && rate_denom > 0 && delay > 0 && delay * rate_num * 1_000_000_000
            > 0xffff_ffff_ffff_ffff ==> sink_delay(status, delay, rate_num, rate_denom)
            == 0xffff_ffff_ffff_ffffint / (rate_denom as int),
{
    if delay > 0 {
        assert(0 <= delay * rate_num) by (nonlinear_arith)
            requires
                delay > 0,
        ;
    }
}

/// Pending requests make one cycle, however many they are: the stream is
/// disconnected once, stays idle for the first request's gap, and takes no other
/// request until it is connected again.
pub proof fn law_requests_are_coalesced(
    gaps_ns: Seq<u64>,
    later_ns: Seq<u64>,
    now_ns: i64,
    then_ns: i64,
)
    requires
        gaps_ns.len() > 0,
        now_ns + gaps_ns[0] <= i64::MAX,
    ensures
        ({
            let (idle, action) = StreamPhase::Streaming.requested(gaps_ns, now_ns);
            &&& action is Disconnect
            &&& idle.requested(later_ns, then_ns) == (idle, LoopAction::Iterate)
            &&& idle.polled(true, then_ns).1 is Connect <==> then_ns >= now_ns + gaps_ns[0]
        }),
        StreamPhase::Streaming.requested(Seq::empty(), now_ns) == (
            StreamPhase::Streaming,
            LoopAction::Iterate,
        ),
{
}

/// The sink delay is exact as long as nothing saturates: `delay` ticks of the
/// graph's rate, in nanoseconds, rounded down.
pub proof fn law_sink_delay_is_exact(delay: i64, rate_num: u32, rate_denom: u32)
    requires
        delay > 0,
        rate_denom > 0,
        delay * rate_num * 1_000_000_000 <= u64::MAX,
    ensures
        sink_delay(0, delay, rate_num, rate_denom) == delay * rate_num * 1_000_000_000 / (
        rate_denom as int),
{
    assert(0 <= delay * rate_num) by (nonlinear_arith)
        requires
            delay > 0,
    ;
}

} // verus!
