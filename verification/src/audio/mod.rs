//! Audio types and processing.

/// Diagnostic counters for the audio callback
pub mod callback_stats;
/// Laws of the correction loop
pub mod correction_laws;
/// Device clock rate estimator
pub mod device_clock;
/// What a PipeWire stream decides
pub mod pipewire_stream;
/// Queue of decoded buffers and the playback cursor
pub mod playback_queue;
/// Rules shared by the synced players
pub mod player;
/// Laws of the rendered frames
pub mod output_laws;
/// Laws of the playback queue
pub mod queue_laws;
/// Backend-agnostic audio renderer with drift correction
pub mod renderer;
/// Laws of the renderer
pub mod renderer_laws;
/// Laws of the steps of a callback
pub mod step_laws;
/// Sync correction planner for drop/insert cadence
pub mod sync_correction;
/// Core audio type definitions (Codec, AudioFormat, AudioBuffer)
pub mod types;

pub use sync_correction::{CorrectionPlanner, CorrectionSchedule};
pub use types::{AudioBuffer, AudioFormat, Codec};
