//! Verified core of a streaming audio node: checksum listings, sample
//! buffering, download and install decisions, and the rules that decide
//! when the audio pipeline starts, waits or stops.

pub mod audio_processor;
pub mod checksum;
pub mod download_ffmpeg;
pub mod download_yt_dlp;
pub mod panic_report;
pub mod process_manager;
pub mod stream;
pub mod stream_errors;
pub mod text;

use vstd::prelude::*;

verus! {

/// `CREATE_NO_WINDOW` process creation flag for spawned helper processes.
pub const CREATE_NO_WINDOW: u32 = 0x08000000;

/// Output sample rate of the decoder, in samples per second per channel.
pub const SAMPLE_RATE: u32 = 44100;

/// Number of interleaved channels in the decoded stream.
pub const CHANNELS: u32 = 2;

/// Maximum number of samples handed to the playback per cycle.
pub const DEFAULT_BUFFER_SIZE: i32 = 4096;

/// Buffered samples needed before playback starts (one second of samples).
pub const DEFAULT_BUFFER_THRESHOLD: usize = 44100;

} // verus!
