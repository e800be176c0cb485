//! Core audio type definitions.

use vstd::prelude::*;

verus! {

/// Audio codec.
#[derive(Debug, Clone, Copy, PartialEq, Eq, Structural)]
pub enum Codec {
    Pcm,
    Opus,
    Flac,
}

/// Format of an audio stream.
#[derive(Debug, Clone, PartialEq, Eq)]
pub struct AudioFormat {
    pub codec: Codec,
    /// Frames per second.
    pub sample_rate: u32,
    /// Samples per frame.
    pub channels: u8,
    pub bit_depth: u8,
    pub codec_header: Option<Vec<u8>>,
}

/// A run of decoded, interleaved samples, scheduled by server time.
#[derive(Debug, Clone)]
pub struct AudioBuffer {
    /// Server time of the first frame, in microseconds.
    pub timestamp: i64,
    /// Playing time in microseconds, as measured by the decoder. At rates where
    /// a chunk is not a whole number of microseconds this is rounded, so two
    /// consecutive buffers may appear to overlap by less than a frame.
    pub duration_us: i64,
    /// Interleaved samples.
    pub samples: Vec<i32>,
    pub format: AudioFormat,
}

impl AudioBuffer {
    /// Server time at which the buffer is over.
    pub open spec fn end_us(self) -> int {
        self.timestamp + self.duration_us
    }

    /// Whether `time_us` lies inside the buffer.
    pub open spec fn plays_at(self, time_us: int) -> bool {
        self.timestamp <= time_us < self.end_us()
    }

    /// How long both buffers play at the same time; negative across a gap.
    pub open spec fn overlap_us(self, other: Self) -> int {
        let end = if self.end_us() < other.end_us() {
            self.end_us()
        } else {
            other.end_us()
        };
        let start = if self.timestamp > other.timestamp {
            self.timestamp
        } else {
            other.timestamp
        };
        end - start
    }

    /// Server time at which the buffer is over.
    pub fn end(&self) -> (r: i128)
        ensures
            r == self.end_us(),
    {
        self.timestamp as i128 + self.duration_us as i128
    }

    /// How long both buffers play at the same time; negative across a gap.
    pub fn overlap(&self, other: &AudioBuffer) -> (r: i128)
        ensures
            r == self.overlap_us(*other),
    {
        let self_end: i128 = self.end();
        let other_end: i128 = other.end();
        let end: i128 = if self_end < other_end {
            self_end
        } else {
            other_end
        };
        let start: i64 = if self.timestamp > other.timestamp {
            self.timestamp
        } else {
            other.timestamp
        };
        end - start as i128
    }
}

/// Length of one frame in microseconds, rounded up; a rate of 0 counts as 1.
pub open spec fn frame_length_us(sample_rate: u32) -> int {
    let rate = if sample_rate == 0 {
        1
    } else {
        sample_rate as int
    };
    (1_000_000 + rate - 1) / rate
}

/// Length of one frame in microseconds, rounded up; a rate of 0 counts as 1.
pub fn frame_us(sample_rate: u32) -> (r: i64)
    ensures
        r == frame_length_us(sample_rate),
        1 <= r <= 1_000_000,
{
    let rate: i64 = if sample_rate == 0 {
        1
    } else {
        sample_rate as i64
    };
    proof {
        let n = 1_000_000 + rate - 1;
        vstd::arithmetic::div_mod::lemma_fundamental_div_mod(n, rate as int);
        vstd::arithmetic::div_mod::lemma_mod_bound(n, rate as int);
        let q = n / (rate as int);
        assert(1 <= q <= 1_000_000) by (nonlinear_arith)
            requires
                n == rate * q + n % (rate as int),
                0 <= n % (rate as int) < rate,
                n == 1_000_000 + rate - 1,
                rate >= 1,
        ;
    }
    (1_000_000 + rate - 1) / rate
}

} // verus!
