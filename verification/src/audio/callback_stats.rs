//! Diagnostic counters for the audio callback.

use vstd::prelude::*;

verus! {

/// Queue depth below which the queue counts as low.
pub const QUEUE_LOW_WATER_US: u64 = 100_000;

/// Queue depth required to recover after the queue was low. Kept above
/// [`QUEUE_LOW_WATER_US`] so a queue hovering at one boundary cannot flood the
/// log with low/recovered pairs.
pub const QUEUE_RECOVERED_WATER_US: u64 = 200_000;

/// A change of the queue depth worth a log line.
#[derive(Debug, Clone, Copy, PartialEq, Eq, Structural)]
pub enum QueueEdge {
    Unchanged,
    Low,
    Recovered,
}

/// Diagnostic counters for the audio callback. Playback decisions never read
/// these.
///
/// `callbacks` counts for the lifetime of the stream. The rest are
/// per-generation — reset whenever the playback queue generation changes — so
/// each stream start reports its own startup behavior.
#[derive(Debug, Clone, Copy, PartialEq, Eq, Structural)]
pub struct CallbackStats {
    /// Data callbacks since the stream was built. Never reset.
    pub callbacks: u64,
    /// Callbacks that emitted silence (pre-start gate, reanchor wait, early).
    pub silent_callbacks: u64,
    /// Callbacks that skipped sync because the clock lock was contended.
    pub sync_lock_misses: u64,
    /// Frames filled with silence because the queue ran dry.
    pub underrun_frames: u64,
    /// Callbacks that had at least one underrun frame.
    pub underrun_callbacks: u64,
    /// Length of the current run of underrun callbacks (0 while healthy).
    pub consecutive_underrun_callbacks: u64,
    /// Schedule updates within the current correction episode. Reset when
    /// correction disengages.
    pub correction_updates: u64,
    /// Corrections the planner requested during clock warm-up that were
    /// suppressed.
    pub warmup_suppressed_corrections: u64,
    /// Corrections the planner requested that the engage gate suppressed
    /// while awaiting a sustained error.
    pub gate_suppressed_corrections: u64,
    /// Correction episodes started (idle -> correcting transitions, including
    /// reanchor engagements).
    pub correction_engagements: u64,
    /// Whether the queue was below [`QUEUE_LOW_WATER_US`] at the last render.
    pub queue_low: bool,
}

impl CallbackStats {
    /// All counters at zero.
    pub open spec fn zero() -> Self {
        CallbackStats {
            callbacks: 0,
            silent_callbacks: 0,
            sync_lock_misses: 0,
            underrun_frames: 0,
            underrun_callbacks: 0,
            consecutive_underrun_callbacks: 0,
            correction_updates: 0,
            warmup_suppressed_corrections: 0,
            gate_suppressed_corrections: 0,
            correction_engagements: 0,
            queue_low: false,
        }
    }

    /// Per-generation counters at zero, the lifetime callback count kept.
    pub open spec fn for_new_generation(self) -> Self {
        CallbackStats { callbacks: self.callbacks, ..Self::zero() }
    }

    /// Whether no counter overflows when it is raised by `n`.
    pub open spec fn has_room_for(self, n: int) -> bool {
        &&& self.callbacks + n <= u64::MAX
        &&& self.silent_callbacks + n <= u64::MAX
        &&& self.sync_lock_misses + n <= u64::MAX
        &&& self.underrun_frames + n <= u64::MAX
        &&& self.underrun_callbacks + n <= u64::MAX
        &&& self.consecutive_underrun_callbacks + n <= u64::MAX
        &&& self.correction_updates + n <= u64::MAX
        &&& self.warmup_suppressed_corrections + n <= u64::MAX
        &&& self.gate_suppressed_corrections + n <= u64::MAX
        &&& self.correction_engagements + n <= u64::MAX
    }

    /// One more silent callback.
    pub open spec fn with_silence(self) -> Self {
        CallbackStats { silent_callbacks: (self.silent_callbacks + 1) as u64, ..self }
    }

    /// A rendered callback that lacked `missing_frames` frames.
    pub open spec fn with_render(self, missing_frames: u64) -> Self {
        if missing_frames > 0 {
            CallbackStats {
                underrun_frames: (self.underrun_frames + missing_frames) as u64,
                underrun_callbacks: (self.underrun_callbacks + 1) as u64,
                consecutive_underrun_callbacks: (self.consecutive_underrun_callbacks + 1) as u64,
                ..self
            }
        } else {
            CallbackStats { consecutive_underrun_callbacks: 0, ..self }
        }
    }

    /// A queue depth of `queued_us`: low from below the low mark on, until it
    /// reaches the recovered mark.
    pub open spec fn with_depth(self, queued_us: u64) -> Self {
        CallbackStats {
            queue_low: if self.queue_low {
                queued_us < QUEUE_RECOVERED_WATER_US
            } else {
                queued_us < QUEUE_LOW_WATER_US
            },
            ..self
        }
    }

    /// The edge that a queue depth of `queued_us` makes.
    pub open spec fn depth_edge(self, queued_us: u64) -> QueueEdge {
        if self.with_depth(queued_us).queue_low == self.queue_low {
            QueueEdge::Unchanged
        } else if self.queue_low {
            QueueEdge::Recovered
        } else {
            QueueEdge::Low
        }
    }

    /// Whether no counter overflows when it is raised by `n`.
    pub fn has_room(&self, n: u64) -> (r: bool)
        ensures
            r == self.has_room_for(n as int),
    {
        let limit: u64 = u64::MAX - n;
        self.callbacks <= limit && self.silent_callbacks <= limit && self.sync_lock_misses <= limit
            && self.underrun_frames <= limit && self.underrun_callbacks <= limit
            && self.consecutive_underrun_callbacks <= limit && self.correction_updates <= limit
            && self.warmup_suppressed_corrections <= limit && self.gate_suppressed_corrections
            <= limit && self.correction_engagements <= limit
    }

    /// Reset per-generation counters, keeping the lifetime callback count.
    pub fn reset_for_generation(&mut self)
        ensures
            *final(self) == old(self).for_new_generation(),
    {
        let callbacks: u64 = self.callbacks;
        *self = CallbackStats::default();
        self.callbacks = callbacks;
    }

    /// Count a callback that emitted silence.
    pub fn note_silence(&mut self)
        requires
            old(self).silent_callbacks < u64::MAX,
        ensures
            *final(self) == old(self).with_silence(),
    {
        self.silent_callbacks = self.silent_callbacks + 1;
    }

    /// Count a rendered callback that lacked `missing_frames` frames. Returns
    /// the length of the run of underrun callbacks that it ended, if it did.
    pub fn note_render(&mut self, missing_frames: u64) -> (r: Option<u64>)
        requires
            old(self).has_room_for(1),
            old(self).has_room_for(missing_frames as int),
        ensures
            *final(self) == old(self).with_render(missing_frames),
            r == (if missing_frames == 0 && old(self).consecutive_underrun_callbacks > 0 {
                Some(old(self).consecutive_underrun_callbacks)
            } else {
                None
            }),
    {
        if missing_frames > 0 {
            self.underrun_frames = self.underrun_frames + missing_frames;
            self.underrun_callbacks = self.underrun_callbacks + 1;
            self.consecutive_underrun_callbacks = self.consecutive_underrun_callbacks + 1;
            None
        } else if self.consecutive_underrun_callbacks > 0 {
            let run: u64 = self.consecutive_underrun_callbacks;
            self.consecutive_underrun_callbacks = 0;
            Some(run)
        } else {
            None
        }
    }

    /// Track the queue depth, with hysteresis between the two marks.
    pub fn note_queue_depth(&mut self, queued_us: u64) -> (r: QueueEdge)
        ensures
            *final(self) == old(self).with_depth(queued_us),
            r == old(self).depth_edge(queued_us),
    {
        if !self.queue_low && queued_us < QUEUE_LOW_WATER_US {
            self.queue_low = true;
            QueueEdge::Low
        } else if self.queue_low && queued_us >= QUEUE_RECOVERED_WATER_US {
            self.queue_low = false;
            QueueEdge::Recovered
        } else {
            QueueEdge::Unchanged
        }
    }
}

impl Default for CallbackStats {
    fn default() -> (r: Self)
        ensures
            r == CallbackStats::zero(),
    {
        CallbackStats {
            callbacks: 0,
            silent_callbacks: 0,
            sync_lock_misses: 0,
            underrun_frames: 0,
            underrun_callbacks: 0,
            consecutive_underrun_callbacks: 0,
            correction_updates: 0,
            warmup_suppressed_corrections: 0,
            gate_suppressed_corrections: 0,
            correction_engagements: 0,
            queue_low: false,
        }
    }
}

/// A queue that hovers around one mark makes one edge at most: after an edge
/// the depth has to cross the other mark before there is another.
pub proof fn law_hovering_queue_makes_no_more_edges(stats: CallbackStats, first: u64, next: u64)
    requires
        stats.depth_edge(first) != QueueEdge::Unchanged,
        stats.with_depth(first).depth_edge(next) != QueueEdge::Unchanged,
    ensures
        stats.depth_edge(first) == QueueEdge::Low ==> first < QUEUE_LOW_WATER_US && next
            >= QUEUE_RECOVERED_WATER_US,
        stats.depth_edge(first) == QueueEdge::Recovered ==> first >= QUEUE_RECOVERED_WATER_US
            && next < QUEUE_LOW_WATER_US,
{
}

} // verus!
