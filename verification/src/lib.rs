//! Audio capture configuration, capture sources and the platform backends' decision logic.
use vstd::prelude::*;

pub mod capture_state;
pub mod coreaudio;
pub mod decimal;
pub mod laws;
pub mod pipewire_capture;
pub mod text;

verus! {

/// Audio sample format.
#[derive(Debug, Clone, Copy, PartialEq, Eq, Structural)]
pub enum SampleFormat {
    /// 16-bit signed little-endian.
    S16LE,
    /// 24-bit signed little-endian (packed).
    S24LE,
    /// 32-bit signed little-endian.
    S32LE,
    /// 32-bit float little-endian.
    F32LE,
}

/// Audio capture configuration.
#[derive(Debug, Clone)]
pub struct CaptureConfig {
    pub sample_rate: u32,
    pub channels: u32,
    pub format: SampleFormat,
    /// Frames per callback.
    pub buffer_frames: u32,
}

impl Default for CaptureConfig {
    /// 44.1 kHz stereo 16-bit, with one ALAC frame (352 frames) per callback.
    fn default() -> (config: Self)
        ensures
            config.sample_rate == 44100,
            config.channels == 2,
            config.format == SampleFormat::S16LE,
            config.buffer_frames == 352,
    {
        CaptureConfig { sample_rate: 44100, channels: 2, format: SampleFormat::S16LE, buffer_frames: 352 }
    }
}

/// Describes an available audio capture source.
#[derive(Debug, Clone)]
pub struct CaptureSource {
    pub id: String,
    pub name: String,
    pub is_loopback: bool,
    pub sample_rate: u32,
    pub channels: u32,
}

/// The operating systems that have a capture backend.
#[derive(Debug, Clone, Copy, PartialEq, Eq, Structural)]
pub enum Platform {
    MacOs,
    Linux,
}

/// The capture backends.
#[derive(Debug, Clone, Copy, PartialEq, Eq, Structural)]
pub enum Backend {
    /// CoreAudio AudioUnit capture (`coreaudio`).
    CoreAudio,
    /// PipeWire capture through `pw-cat`, or PulseAudio's `pacat` (`pipewire_capture`).
    PipeWire,
}

/// The backend that captures on `platform`: CoreAudio on macOS, PipeWire on Linux.
pub fn create_backend(platform: Platform) -> (backend: Backend)
    ensures
        platform == Platform::MacOs ==> backend == Backend::CoreAudio,
        platform == Platform::Linux ==> backend == Backend::PipeWire,
{
    match platform {
        Platform::MacOs => Backend::CoreAudio,
        Platform::Linux => Backend::PipeWire,
    }
}

} // verus!
