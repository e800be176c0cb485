//! Rules shared by the synced players.

use crate::audio::types::AudioFormat;
use crate::error::Error;
use vstd::prelude::*;

verus! {

/// Longest static delay in milliseconds.
pub const MAX_STATIC_DELAY_MS: u16 = 5_000;

/// Check that a stream of this format can be played: a frame needs a channel.
pub fn check_format(format: &AudioFormat) -> (r: Result<(), Error>)
    ensures
        match r {
            Ok(()) => format.channels > 0,
            Err(Error::Output(message)) => format.channels == 0 && message@
                == "channels must be > 0"@,
        },
{
    if format.channels == 0 {
        return Err(Error::Output("channels must be > 0".to_owned()));
    }
    Ok(())
}

/// Microseconds of a static delay set to `delay_ms` milliseconds.
pub open spec fn static_delay_us(delay_ms: u16) -> u64 {
    if delay_ms < MAX_STATIC_DELAY_MS {
        (delay_ms * 1_000) as u64
    } else {
        (MAX_STATIC_DELAY_MS * 1_000) as u64
    }
}

/// Milliseconds reported for a static delay of `delay_us` microseconds. They
/// wrap from 65,536 ms on, which no clamped delay reaches.
pub open spec fn static_delay_ms(delay_us: u64) -> int {
    (delay_us / 1_000) as int % 65_536
}

/// A static playback delay in microseconds, from milliseconds clamped to
/// [`MAX_STATIC_DELAY_MS`].
pub fn static_delay_ms_to_us(delay_ms: u16) -> (r: u64)
    ensures
        r == static_delay_us(delay_ms),
{
    let clamped: u16 = if delay_ms < MAX_STATIC_DELAY_MS {
        delay_ms
    } else {
        MAX_STATIC_DELAY_MS
    };
    clamped as u64 * 1_000
}

/// A static playback delay in whole milliseconds, from microseconds.
pub fn static_delay_us_to_ms(delay_us: u64) -> (r: u16)
    ensures
        r == static_delay_ms(delay_us),
{
    let delay_ms: u64 = delay_us / 1_000;
    assert(delay_ms as u16 == delay_ms % 65_536) by (bit_vector);
    #[verifier::truncate]
    let r: u16 = delay_ms as u16;
    r
}

/// A static delay is set in milliseconds, up to five seconds, and kept in
/// microseconds; it is reported in whole milliseconds.
pub proof fn law_static_delay_by_numbers(delay_ms: u16, delay_us: u64)
    ensures
        delay_ms <= 5_000 ==> static_delay_us(delay_ms) == 1_000 * delay_ms,
        delay_ms > 5_000 ==> static_delay_us(delay_ms) == 5_000_000,
        delay_us < 65_536_000 ==> ({
            let reported = static_delay_ms(delay_us);
            1_000 * reported <= delay_us < 1_000 * (reported + 1)
        }),
        0 <= static_delay_ms(delay_us) < 65_536,
        (delay_us / 1_000 - static_delay_ms(delay_us)) % 65_536 == 0,
{
}

/// A static delay reads back as it was set, clamped to five seconds.
pub proof fn law_static_delay_reads_back(delay_ms: u16)
    ensures
        static_delay_ms(static_delay_us(delay_ms)) == (if delay_ms < 5_000 {
            delay_ms as int
        } else {
            5_000
        }),
{
}

} // verus!
