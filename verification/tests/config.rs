use audio_capture::{create_backend, Backend, CaptureConfig, Platform, SampleFormat};
use audio_capture::capture_state::CaptureState;
use audio_capture::pipewire_capture::monitor_sources;

#[test]
fn test_capture_config_default() {
    let config = CaptureConfig::default();
    assert_eq!(config.sample_rate, 44100);
    assert_eq!(config.channels, 2);
    assert_eq!(config.format, SampleFormat::S16LE);
    assert_eq!(config.buffer_frames, 352);
}

#[test]
fn test_create_backend() {
    let backend = create_backend(Platform::Linux);
    assert_eq!(backend, Backend::PipeWire);
    // Listing sources where the sound server cannot be asked gives none, without failing.
    let sources = monitor_sources(None);
    let _ = sources.len();
}

#[test]
fn create_backend_on_macos_is_coreaudio() {
    assert_eq!(create_backend(Platform::MacOs), Backend::CoreAudio);
}

#[test]
fn default_config_clone_keeps_fields() {
    let config = CaptureConfig::default();
    let copy = config.clone();
    assert_eq!(copy.sample_rate, 44100);
    assert_eq!(copy.buffer_frames, 352);
}

#[test]
fn start_stop_cycle() {
    let mut state = CaptureState::new();
    assert!(!state.refuses_start());
    state.record_start(false);
    assert!(!state.refuses_start());
    state.record_start(true);
    assert!(state.refuses_start());
    state.record_start(false);
    assert!(state.refuses_start());
    state.stop();
    assert!(!state.refuses_start());
    let once = state;
    state.stop();
    assert_eq!(state, once);
}
