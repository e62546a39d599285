use audio_capture::coreaudio::{
    build_asbd, default_output_device, description_fits, input_buffer_bytes, rendered_delivery, list_sources, Cleanup, ComponentDescription,
    PropertyValue, SetupAction, SetupEvent, SetupPhase, SetupSession, StreamDescription,
    K_AUDIO_FORMAT_LINEAR_PCM,
};
use audio_capture::pipewire_capture::{bytes_per_sample, frame_bytes};
use audio_capture::{CaptureConfig, SampleFormat};

const FORMATS: [SampleFormat; 4] =
    [SampleFormat::S16LE, SampleFormat::S24LE, SampleFormat::S32LE, SampleFormat::F32LE];

#[test]
fn asbd_of_default_config() {
    let asbd = build_asbd(&CaptureConfig::default());
    assert_eq!(
        asbd,
        StreamDescription {
            sample_rate: 44100,
            format_id: 0x6C70636D,
            format_flags: 12,
            bytes_per_packet: 4,
            frames_per_packet: 1,
            bytes_per_frame: 4,
            channels_per_frame: 2,
            bits_per_channel: 16,
            reserved: 0,
        }
    );
    assert_eq!(asbd.format_id, K_AUDIO_FORMAT_LINEAR_PCM);
}

#[test]
fn asbd_of_each_format() {
    let expected = [(16, 12, 2), (24, 12, 3), (32, 12, 4), (32, 9, 4)];
    for (format, (bits, flags, bytes)) in FORMATS.iter().zip(expected.iter()) {
        let config = CaptureConfig { sample_rate: 48000, channels: 3, format: *format, buffer_frames: 10 };
        let asbd = build_asbd(&config);
        assert_eq!(asbd.bits_per_channel, *bits);
        assert_eq!(asbd.format_flags, *flags);
        assert_eq!(asbd.bytes_per_frame, bytes * 3);
        assert_eq!(asbd.bytes_per_packet, bytes * 3);
        assert_eq!(asbd.sample_rate, 48000);
    }
}

#[test]
fn backends_agree_on_sizes() {
    for format in FORMATS {
        let config = CaptureConfig { sample_rate: 44100, channels: 2, format, buffer_frames: 352 };
        let asbd = build_asbd(&config);
        assert_eq!(asbd.bits_per_channel as usize, 8 * bytes_per_sample(format));
        assert_eq!(frame_bytes(&config), 352 * asbd.bytes_per_frame as usize);
    }
}

#[test]
fn device_query() {
    assert_eq!(default_output_device(0, 73), Ok(73));
    assert_eq!(
        default_output_device(2003332927, 0),
        Err("AudioObjectGetPropertyData failed: 2003332927".to_string())
    );
    assert_eq!(default_output_device(-50, 0), Err("AudioObjectGetPropertyData failed: -50".to_string()));
}

#[test]
fn loopback_source() {
    let sources = list_sources(Ok(73));
    assert_eq!(sources.len(), 1);
    assert_eq!(sources[0].id, "73");
    assert_eq!(sources[0].name, "Default Output (Loopback)");
    assert!(sources[0].is_loopback);
    assert_eq!(sources[0].sample_rate, 44100);
    assert_eq!(sources[0].channels, 2);
    assert!(list_sources(Err("AudioObjectGetPropertyData failed: -1".to_string())).is_empty());
}

fn failure(action: SetupAction) -> (String, Cleanup) {
    match action {
        SetupAction::Fail { message, cleanup } => (message, cleanup),
        _ => panic!("expected a failure"),
    }
}

/// A session advanced through `successes` successful events.
fn session_after(successes: usize) -> SetupSession {
    let mut session = SetupSession::new(CaptureConfig::default());
    let events = [
        SetupEvent::Requested { capturing: false },
        SetupEvent::ComponentFound { found: true },
        SetupEvent::Status { status: 0 },
        SetupEvent::Status { status: 0 },
        SetupEvent::Status { status: 0 },
        SetupEvent::DeviceQueried { status: 0, device_id: 41 },
        SetupEvent::Status { status: 0 },
        SetupEvent::Status { status: 0 },
        SetupEvent::Status { status: 0 },
        SetupEvent::Status { status: 0 },
    ];
    for event in events.into_iter().take(successes) {
        session.step(event);
    }
    session
}

#[test]
fn setup_succeeds() {
    let mut session = SetupSession::new(CaptureConfig::default());
    match session.step(SetupEvent::Requested { capturing: false }) {
        SetupAction::FindComponent { description } => assert_eq!(
            description,
            ComponentDescription {
                component_type: 0x61756F75,
                component_sub_type: 0x6168616C,
                component_manufacturer: 0x6170706C,
                component_flags: 0,
                component_flags_mask: 0,
            }
        ),
        _ => panic!("expected the component search"),
    }
    assert!(matches!(session.step(SetupEvent::ComponentFound { found: true }), SetupAction::CreateInstance));
    assert!(matches!(
        session.step(SetupEvent::Status { status: 0 }),
        SetupAction::SetProperty { property: 2003, scope: 1, element: 1, value: PropertyValue::Word(1) }
    ));
    assert!(matches!(
        session.step(SetupEvent::Status { status: 0 }),
        SetupAction::SetProperty { property: 2003, scope: 0, element: 0, value: PropertyValue::Word(0) }
    ));
    assert!(matches!(session.step(SetupEvent::Status { status: 0 }), SetupAction::QueryDevice));
    assert!(matches!(
        session.step(SetupEvent::DeviceQueried { status: 0, device_id: 41 }),
        SetupAction::SetProperty { property: 2000, scope: 0, element: 0, value: PropertyValue::Word(41) }
    ));
    match session.step(SetupEvent::Status { status: 0 }) {
        SetupAction::SetProperty { property: 8, scope: 0, element: 1, value: PropertyValue::Stream(asbd) } => {
            assert_eq!(asbd, build_asbd(&CaptureConfig::default()))
        }
        _ => panic!("expected the stream format"),
    }
    assert!(matches!(
        session.step(SetupEvent::Status { status: 0 }),
        SetupAction::SetProperty { property: 2005, scope: 0, element: 0, value: PropertyValue::InputCallback }
    ));
    assert!(matches!(session.step(SetupEvent::Status { status: 0 }), SetupAction::Initialize));
    assert!(matches!(session.step(SetupEvent::Status { status: 0 }), SetupAction::StartUnit));
    assert!(matches!(session.step(SetupEvent::Status { status: 0 }), SetupAction::Finish));
    assert_eq!(session.phase, SetupPhase::Finished);
}

#[test]
fn setup_refused_while_capturing() {
    let mut session = SetupSession::new(CaptureConfig::default());
    let (message, cleanup) = failure(session.step(SetupEvent::Requested { capturing: true }));
    assert_eq!(message, "Already capturing");
    assert_eq!(cleanup, Cleanup::Nothing);
}

#[test]
fn setup_failures() {
    let mut session = session_after(1);
    let (message, cleanup) = failure(session.step(SetupEvent::ComponentFound { found: false }));
    assert_eq!(message, "AudioComponentFindNext: HAL output not found");
    assert_eq!(cleanup, Cleanup::Nothing);

    let cases = [
        (2, "AudioComponentInstanceNew failed: -1", Cleanup::Nothing),
        (3, "Enable input IO failed: -1", Cleanup::Dispose),
        (4, "Disable output IO failed: -1", Cleanup::Dispose),
        (6, "Set device failed: -1", Cleanup::Dispose),
        (7, "Set stream format failed: -1", Cleanup::Dispose),
        (8, "Set input callback failed: -1", Cleanup::Dispose),
        (9, "AudioUnitInitialize failed: -1", Cleanup::Dispose),
        (10, "AudioOutputUnitStart failed: -1", Cleanup::UninitializeAndDispose),
    ];
    for (successes, expected, expected_cleanup) in cases {
        let mut session = session_after(successes);
        let (message, cleanup) = failure(session.step(SetupEvent::Status { status: -1 }));
        assert_eq!(message, expected);
        assert_eq!(cleanup, expected_cleanup);
        assert_eq!(session.phase, SetupPhase::Finished);
    }

    let mut session = session_after(5);
    let (message, cleanup) = failure(session.step(SetupEvent::DeviceQueried { status: 560947818, device_id: 0 }));
    assert_eq!(message, "AudioObjectGetPropertyData failed: 560947818");
    assert_eq!(cleanup, Cleanup::Nothing);
}

#[test]
fn description_fits_checks_overflow() {
    assert!(description_fits(&CaptureConfig::default()));
    let wide = |channels, format| CaptureConfig { sample_rate: 48000, channels, format, buffer_frames: 352 };
    assert!(description_fits(&wide(u32::MAX / 4, SampleFormat::F32LE)));
    assert!(!description_fits(&wide(u32::MAX / 4 + 1, SampleFormat::S32LE)));
    assert!(description_fits(&wide(u32::MAX / 3, SampleFormat::S24LE)));
    assert!(!description_fits(&wide(u32::MAX / 2 + 1, SampleFormat::S16LE)));
}

#[test]
fn input_buffer_sizes() {
    assert_eq!(input_buffer_bytes(512, 4), Some(2048));
    assert_eq!(input_buffer_bytes(0, 4), Some(0));
    assert_eq!(input_buffer_bytes(u32::MAX, 2), None);
    assert_eq!(input_buffer_bytes(u32::MAX, 1), Some(u32::MAX));
}

#[test]
fn rendered_slices_are_whole_frames() {
    assert_eq!(rendered_delivery(0, 2048, 4), Some(2048));
    assert_eq!(rendered_delivery(0, 2050, 4), Some(2048));
    assert_eq!(rendered_delivery(0, 3, 4), None);
    assert_eq!(rendered_delivery(0, 0, 4), None);
    assert_eq!(rendered_delivery(-10863, 2048, 4), None);
    assert_eq!(rendered_delivery(0, 2048, 0), None);
    let frame = build_asbd(&CaptureConfig::default()).bytes_per_frame;
    for rendered in [1u32, 4, 5, 1407, 1408, 4099] {
        if let Some(len) = rendered_delivery(0, rendered, frame) {
            assert_eq!(len % frame as usize, 0);
            assert!(len <= rendered as usize);
        }
    }
}
