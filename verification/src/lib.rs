//! Clock-synchronised audio playback: the playback queue, the drift-correction
//! loop, the device clock estimator and the client handshake of a Sendspin player.

pub mod audio;
pub mod error;
pub mod protocol;
