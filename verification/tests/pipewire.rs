use audio_capture::pipewire_capture::{
    bytes_per_sample, detect_monitor_source, format_to_pa_format, format_to_pw_format,
    frame_bytes, frame_fits, FrameReader, ReaderAction, ReaderEvent, ReaderPhase, monitor_sources, pacat_command, pw_cat_command, Recorder, StartAction,
    StartEvent, StartPhase, StartSession,
};
use audio_capture::{CaptureConfig, CaptureSource, SampleFormat};

const FORMATS: [SampleFormat; 4] =
    [SampleFormat::S16LE, SampleFormat::S24LE, SampleFormat::S32LE, SampleFormat::F32LE];

/// The listing read as `list_sources` reads it: lines, split at tabs, second field.
fn expected_sinks(text: &str) -> Vec<String> {
    let mut names = Vec::new();
    for line in text.lines() {
        let parts: Vec<&str> = line.split('\t').collect();
        if parts.len() >= 2 {
            names.push(parts[1].to_string());
        }
    }
    names
}

fn check_listing(text: &str) {
    let sources = monitor_sources(Some(text));
    let names = expected_sinks(text);
    assert_eq!(sources.len(), names.len(), "{:?}", text);
    for (source, name) in sources.iter().zip(names.iter()) {
        assert_eq!(source.id, format!("{}.monitor", name));
        assert_eq!(source.name, format!("{} (monitor)", name));
        assert!(source.is_loopback);
        assert_eq!(source.sample_rate, 0);
        assert_eq!(source.channels, 0);
    }
}

#[test]
fn format_names() {
    assert_eq!(format_to_pw_format(SampleFormat::S16LE), "s16");
    assert_eq!(format_to_pw_format(SampleFormat::S24LE), "s24");
    assert_eq!(format_to_pw_format(SampleFormat::S32LE), "s32");
    assert_eq!(format_to_pw_format(SampleFormat::F32LE), "f32");
    assert_eq!(format_to_pa_format(SampleFormat::S16LE), "s16le");
    assert_eq!(format_to_pa_format(SampleFormat::S24LE), "s24le");
    assert_eq!(format_to_pa_format(SampleFormat::S32LE), "s32le");
    assert_eq!(format_to_pa_format(SampleFormat::F32LE), "float32le");
}

#[test]
fn format_names_are_distinct() {
    for (i, a) in FORMATS.iter().enumerate() {
        for b in FORMATS.iter().skip(i + 1) {
            assert_ne!(format_to_pw_format(*a), format_to_pw_format(*b));
            assert_ne!(format_to_pa_format(*a), format_to_pa_format(*b));
        }
    }
}

#[test]
fn sample_sizes() {
    assert_eq!(bytes_per_sample(SampleFormat::S16LE), 2);
    assert_eq!(bytes_per_sample(SampleFormat::S24LE), 3);
    assert_eq!(bytes_per_sample(SampleFormat::S32LE), 4);
    assert_eq!(bytes_per_sample(SampleFormat::F32LE), 4);
}

#[test]
fn frame_size_of_default_config() {
    assert_eq!(frame_bytes(&CaptureConfig::default()), 352 * 2 * 2);
    let config = CaptureConfig { sample_rate: 48000, channels: 6, format: SampleFormat::S24LE, buffer_frames: 1024 };
    assert_eq!(frame_bytes(&config), 1024 * 6 * 3);
}

#[test]
fn listing_of_pactl() {
    let text = "47\talsa_output.pci-0000_00_1f.3.analog-stereo\tPipeWire\ts32le 2ch 48000Hz\tSUSPENDED\n\
                52\tbluez_output.AA_BB.1\tPipeWire\ts16le 2ch 48000Hz\tRUNNING\n";
    let sources = monitor_sources(Some(text));
    assert_eq!(sources.len(), 2);
    assert_eq!(sources[0].id, "alsa_output.pci-0000_00_1f.3.analog-stereo.monitor");
    assert_eq!(sources[0].name, "alsa_output.pci-0000_00_1f.3.analog-stereo (monitor)");
    assert_eq!(sources[1].id, "bluez_output.AA_BB.1.monitor");
    check_listing(text);
}

#[test]
fn listing_edge_cases() {
    for text in [
        "",
        "\n",
        "no tabs here\n",
        "1\tonly_two",
        "1\t\tempty second field\n",
        "1\tcrlf\r\n2\tlast\r",
        "a\tb\r\n\r\n\tc\n",
        "x\ty\tz\n\n\n1\tsäünk\t\n",
        "\t",
        "1\tα\tβ",
    ] {
        check_listing(text);
    }
}

#[test]
fn no_listing_no_sources() {
    let sources: Vec<CaptureSource> = monitor_sources(None);
    assert!(sources.is_empty());
}

#[test]
fn monitor_of_default_sink() {
    assert_eq!(detect_monitor_source(None), None);
    assert_eq!(detect_monitor_source(Some("")), None);
    assert_eq!(detect_monitor_source(Some("  \n")), None);
    assert_eq!(
        detect_monitor_source(Some("alsa_output.pci.analog-stereo\n")),
        Some("alsa_output.pci.analog-stereo.monitor".to_string())
    );
    assert_eq!(detect_monitor_source(Some(" a b \t")), Some("a b.monitor".to_string()));
}

#[test]
fn default_monitor_is_listed() {
    let listing = "0\talsa_output.analog\tPipeWire\n1\tother\tPipeWire\n";
    let monitor = detect_monitor_source(Some("alsa_output.analog\n")).unwrap();
    let sources = monitor_sources(Some(listing));
    assert!(sources.iter().any(|s| s.id == monitor));
}

#[test]
fn pw_cat_arguments() {
    let command = pw_cat_command(&CaptureConfig::default());
    assert_eq!(command.program, "pw-cat");
    assert_eq!(
        command.args,
        vec!["--record", "--format", "s16", "--rate", "44100", "--channels", "2", "--quality", "0", "-"]
    );
}

#[test]
fn pacat_arguments() {
    let config = CaptureConfig { sample_rate: 48000, channels: 1, format: SampleFormat::F32LE, buffer_frames: 352 };
    let command = pacat_command(&config, "sink.monitor");
    assert_eq!(command.program, "pacat");
    assert_eq!(
        command.args,
        vec!["--record", "--format", "float32le", "--rate", "48000", "--channels", "1", "--device", "sink.monitor", "--raw"]
    );
}

fn fail_message(action: StartAction) -> String {
    match action {
        StartAction::Fail { message } => message,
        _ => panic!("expected a failure"),
    }
}

#[test]
fn start_refused_while_running() {
    let mut session = StartSession::new(CaptureConfig::default());
    let action = session.step(StartEvent::Requested { running: true });
    assert_eq!(fail_message(action), "capture already running");
    assert_eq!(session.phase, StartPhase::Finished);
}

#[test]
fn start_with_pw_cat() {
    let mut session = StartSession::new(CaptureConfig::default());
    assert!(matches!(session.step(StartEvent::Requested { running: false }), StartAction::ProbePwCat));
    match session.step(StartEvent::PwCatProbed { available: true }) {
        StartAction::Spawn { recorder, command } => {
            assert_eq!(recorder, Recorder::PwCat);
            assert_eq!(command.program, "pw-cat");
        }
        _ => panic!("expected a spawn"),
    }
    assert!(matches!(session.step(StartEvent::Spawned { error: None }), StartAction::TakeStdout));
    match session.step(StartEvent::StdoutTaken { taken: true }) {
        StartAction::Launch { frame_bytes } => assert_eq!(frame_bytes, 1408),
        _ => panic!("expected a launch"),
    }
    assert_eq!(session.phase, StartPhase::Finished);
}

#[test]
fn start_with_pacat() {
    let mut session = StartSession::new(CaptureConfig::default());
    session.step(StartEvent::Requested { running: false });
    assert!(matches!(session.step(StartEvent::PwCatProbed { available: false }), StartAction::ProbePacat));
    assert!(matches!(session.step(StartEvent::PacatProbed { available: true }), StartAction::DetectMonitor));
    match session.step(StartEvent::MonitorDetected { monitor: Some("sink.monitor".to_string()) }) {
        StartAction::Spawn { recorder, command } => {
            assert_eq!(recorder, Recorder::Pacat);
            assert_eq!(command.program, "pacat");
            assert_eq!(command.args[8], "sink.monitor");
        }
        _ => panic!("expected a spawn"),
    }
    let action = session.step(StartEvent::Spawned { error: Some("No such file or directory (os error 2)".to_string()) });
    assert_eq!(fail_message(action), "failed to start pacat: No such file or directory (os error 2)");
}

#[test]
fn start_failures() {
    let mut session = StartSession::new(CaptureConfig::default());
    session.step(StartEvent::Requested { running: false });
    session.step(StartEvent::PwCatProbed { available: false });
    let action = session.step(StartEvent::PacatProbed { available: false });
    assert_eq!(fail_message(action), "neither pw-cat nor pacat found — install PipeWire or PulseAudio");

    let mut session = StartSession::new(CaptureConfig::default());
    session.step(StartEvent::Requested { running: false });
    session.step(StartEvent::PwCatProbed { available: false });
    session.step(StartEvent::PacatProbed { available: true });
    let action = session.step(StartEvent::MonitorDetected { monitor: None });
    assert_eq!(fail_message(action), "no PulseAudio monitor source found");

    let mut session = StartSession::new(CaptureConfig::default());
    session.step(StartEvent::Requested { running: false });
    session.step(StartEvent::PwCatProbed { available: true });
    let action = session.step(StartEvent::Spawned { error: Some("denied".to_string()) });
    assert_eq!(fail_message(action), "failed to start pw-cat: denied");

    let mut session = StartSession::new(CaptureConfig::default());
    session.step(StartEvent::Requested { running: false });
    session.step(StartEvent::PwCatProbed { available: true });
    session.step(StartEvent::Spawned { error: None });
    let action = session.step(StartEvent::StdoutTaken { taken: false });
    assert_eq!(fail_message(action), "failed to capture stdout from audio process");
}

#[test]
fn frame_fits_checks_overflow() {
    assert!(frame_fits(&CaptureConfig::default()));
    let huge = CaptureConfig { sample_rate: 1, channels: u32::MAX, format: SampleFormat::S32LE, buffer_frames: u32::MAX };
    let expected = (u32::MAX as usize).checked_mul(u32::MAX as usize).and_then(|n| n.checked_mul(4)).is_some();
    assert_eq!(frame_fits(&huge), expected);
}

#[test]
fn reader_delivers_whole_frames() {
    let mut session = StartSession::new(CaptureConfig::default());
    session.step(StartEvent::Requested { running: false });
    session.step(StartEvent::PwCatProbed { available: true });
    session.step(StartEvent::Spawned { error: None });
    let frame_bytes = match session.step(StartEvent::StdoutTaken { taken: true }) {
        StartAction::Launch { frame_bytes } => frame_bytes,
        _ => panic!("expected a launch"),
    };
    assert_eq!(frame_bytes, 1408);

    let source: Vec<u8> = (0..(3 * 1408 + 100)).map(|i| (i % 251) as u8).collect();
    let mut offset = 0;
    let mut delivered: Vec<Vec<u8>> = Vec::new();
    let mut reader = FrameReader::new(frame_bytes);
    let mut event = ReaderEvent::RunningChecked { running: true };
    let report = loop {
        event = match reader.step(event) {
            ReaderAction::CheckRunning => ReaderEvent::RunningChecked { running: true },
            ReaderAction::ReadFrame { mut buffer } => {
                assert_eq!(buffer.len(), 1408);
                if offset + buffer.len() <= source.len() {
                    let n = buffer.len();
                    buffer.copy_from_slice(&source[offset..offset + n]);
                    offset += n;
                    ReaderEvent::FrameRead { frame: buffer }
                } else {
                    ReaderEvent::ReadFailed { error: "failed to fill whole buffer".to_string(), running: true }
                }
            }
            ReaderAction::Deliver { frame } => {
                delivered.push(frame.clone());
                ReaderEvent::Delivered { frame }
            }
            ReaderAction::Finish { report } => break report,
        };
    };
    assert_eq!(delivered.len(), 3);
    for (i, frame) in delivered.iter().enumerate() {
        assert_eq!(frame.len(), 1408);
        assert_eq!(&frame[..], &source[i * 1408..(i + 1) * 1408]);
    }
    assert_eq!(report, Some("[pipewire] read error: failed to fill whole buffer".to_string()));
    assert_eq!(reader.phase, ReaderPhase::Stopped);
}

#[test]
fn reader_stops_quietly() {
    let mut reader = FrameReader::new(8);
    assert!(matches!(
        reader.step(ReaderEvent::RunningChecked { running: false }),
        ReaderAction::Finish { report: None }
    ));

    let mut reader = FrameReader::new(8);
    reader.step(ReaderEvent::RunningChecked { running: true });
    assert!(matches!(
        reader.step(ReaderEvent::ReadFailed { error: "Broken pipe".to_string(), running: false }),
        ReaderAction::Finish { report: None }
    ));
}
