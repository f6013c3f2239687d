//! Decode-and-synchronize core of a media player: shared playback state,
//! stream selection and frame conversion, the realtime audio engine, the
//! adaptive-streaming segment reader and subtitle tag parsing.
//!
//! Quantities that a player usually holds as floating point are integers
//! here: volume and speed in thousandths (`1000` is full volume or normal
//! speed), times in milliseconds, audio samples as signed 32-bit PCM.

pub mod state;
pub mod stream;
pub mod audio;
pub mod hls;
pub mod subtitle;
pub mod player;
