//! macOS CoreAudio capture backend: the decisions of capturing the default output device
//! through a HAL output AudioUnit.
//!
//! The calls into CoreAudio happen with the caller; this module says which call comes
//! next with which arguments, what each status code means, which cleanup a failure needs
//! and what error it reports, and which stream description the unit is given.
use vstd::prelude::*;
use vstd::string::*;

use crate::decimal::{decimal, i32_to_decimal, signed_decimal, u32_to_decimal};
use crate::pipewire_capture::sample_bytes;
use crate::{CaptureConfig, CaptureSource, SampleFormat};

verus! {

/// `kAudioOutputUnitProperty_EnableIO`.
pub const K_AUDIO_OUTPUT_UNIT_PROPERTY_ENABLE_IO: u32 = 2003;

/// `kAudioUnitProperty_StreamFormat`.
pub const K_AUDIO_UNIT_PROPERTY_STREAM_FORMAT: u32 = 8;

/// `kAudioOutputUnitProperty_CurrentDevice`.
pub const K_AUDIO_OUTPUT_UNIT_PROPERTY_CURRENT_DEVICE: u32 = 2000;

/// `kAudioOutputUnitProperty_SetInputCallback`.
pub const K_AUDIO_OUTPUT_UNIT_PROPERTY_SET_INPUT_CALLBACK: u32 = 2005;

/// `kAudioUnitScope_Input`.
pub const K_AUDIO_UNIT_SCOPE_INPUT: u32 = 1;

/// `kAudioUnitScope_Output`.
pub const K_AUDIO_UNIT_SCOPE_OUTPUT: u32 = 0;

/// `kAudioUnitScope_Global`.
pub const K_AUDIO_UNIT_SCOPE_GLOBAL: u32 = 0;

/// `kAudioFormatLinearPCM` ('lpcm').
pub const K_AUDIO_FORMAT_LINEAR_PCM: u32 = 0x6C70636D;

/// `kAudioFormatFlagIsFloat`.
pub const K_AUDIO_FORMAT_FLAG_IS_FLOAT: u32 = 1;

/// `kAudioFormatFlagIsSignedInteger`.
pub const K_AUDIO_FORMAT_FLAG_IS_SIGNED_INTEGER: u32 = 4;

/// `kAudioFormatFlagIsPacked`.
pub const K_AUDIO_FORMAT_FLAG_IS_PACKED: u32 = 8;

/// `kAudioHardwarePropertyDefaultOutputDevice` ('dout').
pub const K_AUDIO_HARDWARE_PROPERTY_DEFAULT_OUTPUT_DEVICE: u32 = 0x646F7574;

/// `kAudioObjectPropertyScopeGlobal` ('glob').
pub const K_AUDIO_OBJECT_PROPERTY_SCOPE_GLOBAL: u32 = 0x676C6F62;

/// `kAudioObjectPropertyElementMain`.
pub const K_AUDIO_OBJECT_PROPERTY_ELEMENT_MAIN: u32 = 0;

/// `kAudioObjectSystemObject`.
pub const K_AUDIO_OBJECT_SYSTEM_OBJECT: u32 = 1;

/// `kAudioUnitType_Output` ('auou').
pub const K_AUDIO_UNIT_TYPE_OUTPUT: u32 = 0x61756F75;

/// `kAudioUnitSubType_HALOutput` ('ahal').
pub const K_AUDIO_UNIT_SUB_TYPE_HAL_OUTPUT: u32 = 0x6168616C;

/// `kAudioUnitManufacturer_Apple` ('appl').
pub const K_AUDIO_UNIT_MANUFACTURER_APPLE: u32 = 0x6170706C;

/// An `AudioStreamBasicDescription`, with the sample rate as the whole number of hertz
/// that it is built from.
#[derive(Debug, Clone, Copy, PartialEq, Eq, Structural)]
pub struct StreamDescription {
    pub sample_rate: u32,
    pub format_id: u32,
    pub format_flags: u32,
    pub bytes_per_packet: u32,
    pub frames_per_packet: u32,
    pub bytes_per_frame: u32,
    pub channels_per_frame: u32,
    pub bits_per_channel: u32,
    pub reserved: u32,
}

/// An `AudioComponentDescription`.
#[derive(Debug, Clone, Copy, PartialEq, Eq, Structural)]
pub struct ComponentDescription {
    pub component_type: u32,
    pub component_sub_type: u32,
    pub component_manufacturer: u32,
    pub component_flags: u32,
    pub component_flags_mask: u32,
}

/// Bits per channel of `format`.
pub open spec fn format_bits(format: SampleFormat) -> nat {
    match format {
        SampleFormat::S16LE => 16,
        SampleFormat::S24LE => 24,
        SampleFormat::S32LE => 32,
        SampleFormat::F32LE => 32,
    }
}

/// Format flags of `format`: packed, and float or signed integer.
pub open spec fn format_flags(format: SampleFormat) -> u32 {
    match format {
        SampleFormat::F32LE => 9,
        _ => 12,
    }
}

/// Bytes per sample of `format`: its bits rounded up to whole bytes.
pub open spec fn asbd_sample_bytes(format: SampleFormat) -> nat {
    ((format_bits(format) + 7) / 8) as nat
}

/// Whether the description of `config` fits its 32-bit fields.
pub open spec fn asbd_fits(config: CaptureConfig) -> bool {
    asbd_sample_bytes(config.format) * config.channels <= u32::MAX
}

/// The interleaved linear PCM description of `config`: one frame per packet.
pub open spec fn asbd_of(config: CaptureConfig) -> StreamDescription {
    let frame = (asbd_sample_bytes(config.format) * config.channels) as u32;
    StreamDescription {
        sample_rate: config.sample_rate,
        format_id: K_AUDIO_FORMAT_LINEAR_PCM,
        format_flags: format_flags(config.format),
        bytes_per_packet: frame,
        frames_per_packet: 1,
        bytes_per_frame: frame,
        channels_per_frame: config.channels,
        bits_per_channel: format_bits(config.format) as u32,
        reserved: 0,
    }
}

/// Whether the stream description of `config` can be built (its bytes per frame fit
/// 32 bits).
pub fn description_fits(config: &CaptureConfig) -> (fits: bool)
    ensures
        fits == asbd_fits(*config),
{
    let bytes_per_sample: u32 = match config.format {
        SampleFormat::S16LE => 2,
        SampleFormat::S24LE => 3,
        _ => 4,
    };
    bytes_per_sample.checked_mul(config.channels).is_some()
}

/// The stream description that the unit delivers samples in, for `config`.
pub fn build_asbd(config: &CaptureConfig) -> (asbd: StreamDescription)
    requires
        asbd_fits(*config),
    ensures
        asbd == asbd_of(*config),
        asbd.sample_rate == config.sample_rate,
        asbd.format_id == K_AUDIO_FORMAT_LINEAR_PCM,
        config.format == SampleFormat::F32LE ==> asbd.format_flags == K_AUDIO_FORMAT_FLAG_IS_FLOAT
            + K_AUDIO_FORMAT_FLAG_IS_PACKED,
        config.format != SampleFormat::F32LE ==> asbd.format_flags
            == K_AUDIO_FORMAT_FLAG_IS_SIGNED_INTEGER + K_AUDIO_FORMAT_FLAG_IS_PACKED,
        asbd.channels_per_frame == config.channels,
        asbd.bits_per_channel == 8 * sample_bytes(config.format),
        asbd.bytes_per_frame * 8 == asbd.channels_per_frame * asbd.bits_per_channel,
        asbd.bytes_per_packet == asbd.bytes_per_frame,
        asbd.frames_per_packet == 1,
        asbd.reserved == 0,
{
    let (bits, flags) = match config.format {
        SampleFormat::S16LE => (16u32, K_AUDIO_FORMAT_FLAG_IS_SIGNED_INTEGER | K_AUDIO_FORMAT_FLAG_IS_PACKED),
        SampleFormat::S24LE => (24u32, K_AUDIO_FORMAT_FLAG_IS_SIGNED_INTEGER | K_AUDIO_FORMAT_FLAG_IS_PACKED),
        SampleFormat::S32LE => (32u32, K_AUDIO_FORMAT_FLAG_IS_SIGNED_INTEGER | K_AUDIO_FORMAT_FLAG_IS_PACKED),
        SampleFormat::F32LE => (32u32, K_AUDIO_FORMAT_FLAG_IS_FLOAT | K_AUDIO_FORMAT_FLAG_IS_PACKED),
    };
    assert(4u32 | 8u32 == 12u32) by (bit_vector);
    assert(1u32 | 8u32 == 9u32) by (bit_vector);
    let bytes_per_sample = (bits + 7) / 8;
    let bytes_per_frame = bytes_per_sample * config.channels;
    assert(bytes_per_frame * 8 == config.channels * bits) by (nonlinear_arith)
        requires
            bytes_per_frame == bytes_per_sample * config.channels,
            bits == 8 * bytes_per_sample,
    ;
    StreamDescription {
        sample_rate: config.sample_rate,
        format_id: K_AUDIO_FORMAT_LINEAR_PCM,
        format_flags: flags,
        bytes_per_packet: bytes_per_frame,
        frames_per_packet: 1,
        bytes_per_frame,
        channels_per_frame: config.channels,
        bits_per_channel: bits,
        reserved: 0,
    }
}

/// `prefix` followed by the decimal numeral of `status`.
fn status_message(prefix: &str, status: i32) -> (message: String)
    ensures
        message@ == prefix@ + signed_decimal(status as int),
{
    let mut message = String::from_str(prefix);
    let numeral = i32_to_decimal(status);
    message.append(numeral.as_str());
    message
}

/// The error of a failed default-output-device query with `status`.
pub open spec fn device_query_error(status: i32) -> Seq<char> {
    "AudioObjectGetPropertyData failed: "@ + signed_decimal(status as int)
}

/// The outcome of asking the system object for its default output device: `device_id`
/// where the call returned status 0, else the call's error.
pub fn default_output_device(status: i32, device_id: u32) -> (device: Result<u32, String>)
    ensures
        status == 0 ==> device == Ok::<u32, String>(device_id),
        status != 0 ==> (device matches Err(e) && e@ == device_query_error(status)),
        status != 0 ==> (device matches Err(e) && e@ == "AudioObjectGetPropertyData failed: "@
            + signed_decimal(status as int)),
{
    if status != 0 {
        return Err(status_message("AudioObjectGetPropertyData failed: ", status));
    }
    Ok(device_id)
}

/// Whether `source` is the loopback source of output device `device_id`: 44.1 kHz stereo.
pub open spec fn is_loopback_of(source: CaptureSource, device_id: u32) -> bool {
    &&& source.id@ == decimal(device_id as nat)
    &&& source.name@ == "Default Output (Loopback)"@
    &&& source.is_loopback
    &&& source.sample_rate == 44100
    &&& source.channels == 2
}

/// The capture sources: the default output device as a loopback source, or none where
/// the device could not be had.
pub fn list_sources(device: Result<u32, String>) -> (sources: Vec<CaptureSource>)
    ensures
        device is Err ==> sources.len() == 0,
        device matches Ok(id) ==> sources.len() == 1 && is_loopback_of(sources[0], id),
        device matches Ok(id) ==> {
            &&& sources.len() == 1
            &&& sources[0].id@ == decimal(id as nat)
            &&& sources[0].name@ == "Default Output (Loopback)"@
            &&& sources[0].is_loopback
            &&& sources[0].sample_rate == 44100
            &&& sources[0].channels == 2
        },
{
    match device {
        Ok(device_id) => {
            let source = CaptureSource {
                id: u32_to_decimal(device_id),
                name: String::from_str("Default Output (Loopback)"),
                is_loopback: true,
                sample_rate: 44100,
                channels: 2,
            };
            let mut sources: Vec<CaptureSource> = Vec::new();
            sources.push(source);
            sources
        },
        Err(_) => Vec::new(),
    }
}

/// The component that captures: Apple's HAL output unit.
pub open spec fn hal_output() -> ComponentDescription {
    ComponentDescription {
        component_type: K_AUDIO_UNIT_TYPE_OUTPUT,
        component_sub_type: K_AUDIO_UNIT_SUB_TYPE_HAL_OUTPUT,
        component_manufacturer: K_AUDIO_UNIT_MANUFACTURER_APPLE,
        component_flags: 0,
        component_flags_mask: 0,
    }
}

/// The value that an AudioUnit property is set to.
#[derive(Debug, Clone, Copy, PartialEq, Eq, Structural)]
pub enum PropertyValue {
    /// A `u32`, such as an enable flag or a device id.
    Word(u32),
    /// A stream description.
    Stream(StreamDescription),
    /// The capture input procedure (an `AURenderCallbackStruct`), with the capture's
    /// callback data as its context: the callback, the configuration and the unit, which
    /// are kept from then on. On each call the procedure renders the frames that arrived
    /// (see `input_buffer_bytes`) and hands the callback what `rendered_delivery` says.
    InputCallback,
}

/// What a failed start has to undo on the unit that it created.
#[derive(Debug, Clone, Copy, PartialEq, Eq, Structural)]
pub enum Cleanup {
    /// Nothing: no unit was created, or it is left as it is.
    Nothing,
    /// Dispose of the unit.
    Dispose,
    /// Uninitialize the unit, then dispose of it.
    UninitializeAndDispose,
}

/// Where a start of capture stands.
#[derive(Debug, Clone, Copy, PartialEq, Eq, Structural)]
pub enum SetupPhase {
    /// Not begun: waits for the request, with whether a unit is already capturing.
    Requested,
    /// Waits for the component search.
    FindingComponent,
    /// Waits for the status of creating the unit.
    CreatingInstance,
    /// Waits for the status of enabling input on element 1.
    EnablingInput,
    /// Waits for the status of disabling output on element 0.
    DisablingOutput,
    /// Waits for the default output device query.
    QueryingDevice,
    /// Waits for the status of selecting the device.
    SelectingDevice,
    /// Waits for the status of setting the stream format.
    SettingFormat,
    /// Waits for the status of registering the capture input procedure.
    RegisteringCallback,
    /// Waits for the status of initializing the unit.
    Initializing,
    /// Waits for the status of starting the unit.
    Starting,
    /// The start has succeeded or failed; nothing more happens.
    Finished,
}

/// What the caller learned since the last action.
pub enum SetupEvent {
    /// `start` was called while a unit was (`capturing`) or was not capturing.
    Requested { capturing: bool },
    /// Whether the component search found a component.
    ComponentFound { found: bool },
    /// The status that the last CoreAudio call returned.
    Status { status: i32 },
    /// The status and device id of the default output device query.
    DeviceQueried { status: i32, device_id: u32 },
}

/// What the caller does next.
pub enum SetupAction {
    /// Search for the first component matching `description`.
    FindComponent { description: ComponentDescription },
    /// Create an instance of the component found.
    CreateInstance,
    /// Set `property` of the unit in `scope` on `element` to `value`.
    SetProperty { property: u32, scope: u32, element: u32, value: PropertyValue },
    /// Query the system object for its default output device.
    QueryDevice,
    /// Initialize the unit.
    Initialize,
    /// Start the unit.
    StartUnit,
    /// Keep the unit as the one capturing, and report success.
    Finish,
    /// Undo `cleanup`, and report `message` as the start's error.
    Fail { message: String, cleanup: Cleanup },
}

/// The error of a call that returned `status` while the start was at `phase`, and what
/// it leaves to undo.
pub open spec fn setup_failure(phase: SetupPhase, status: i32) -> (Seq<char>, Cleanup) {
    let numeral = signed_decimal(status as int);
    match phase {
        SetupPhase::CreatingInstance => ("AudioComponentInstanceNew failed: "@ + numeral, Cleanup::Nothing),
        SetupPhase::EnablingInput => ("Enable input IO failed: "@ + numeral, Cleanup::Dispose),
        SetupPhase::DisablingOutput => ("Disable output IO failed: "@ + numeral, Cleanup::Dispose),
        SetupPhase::SelectingDevice => ("Set device failed: "@ + numeral, Cleanup::Dispose),
        SetupPhase::SettingFormat => ("Set stream format failed: "@ + numeral, Cleanup::Dispose),
        SetupPhase::RegisteringCallback => ("Set input callback failed: "@ + numeral, Cleanup::Dispose),
        SetupPhase::Initializing => ("AudioUnitInitialize failed: "@ + numeral, Cleanup::Dispose),
        _ => ("AudioOutputUnitStart failed: "@ + numeral, Cleanup::UninitializeAndDispose),
    }
}

/// How far a start has come: each step of a session raises it, and it ends at 11.
pub open spec fn setup_progress(phase: SetupPhase) -> nat {
    match phase {
        SetupPhase::Requested => 0,
        SetupPhase::FindingComponent => 1,
        SetupPhase::CreatingInstance => 2,
        SetupPhase::EnablingInput => 3,
        SetupPhase::DisablingOutput => 4,
        SetupPhase::QueryingDevice => 5,
        SetupPhase::SelectingDevice => 6,
        SetupPhase::SettingFormat => 7,
        SetupPhase::RegisteringCallback => 8,
        SetupPhase::Initializing => 9,
        SetupPhase::Starting => 10,
        SetupPhase::Finished => 11,
    }
}

/// The decisions of one call of `start`, taken one event at a time.
pub struct SetupSession {
    pub config: CaptureConfig,
    pub phase: SetupPhase,
}

impl SetupSession {
    /// Whether `event` answers what the session waits for.
    pub open spec fn accepts(&self, event: SetupEvent) -> bool {
        match self.phase {
            SetupPhase::Requested => event is Requested,
            SetupPhase::FindingComponent => event is ComponentFound,
            SetupPhase::QueryingDevice => event is DeviceQueried,
            SetupPhase::Finished => false,
            _ => event is Status,
        }
    }

    /// A session for starting capture in `config`.
    pub fn new(config: CaptureConfig) -> (session: Self)
        ensures
            session.config == config,
            session.phase == SetupPhase::Requested,
    {
        SetupSession { config, phase: SetupPhase::Requested }
    }

    /// Takes `event` and says what to do next.
    ///
    /// A start refuses while a unit captures. It finds the HAL output unit, enables its
    /// input and disables its output, points it at the default output device, sets the
    /// stream format of `config`, registers the capture input procedure that hands the
    /// callback the rendered frames, initializes and starts it; the first call that fails
    /// ends the start with that call's error.
    pub fn step(&mut self, event: SetupEvent) -> (action: SetupAction)
        requires
            old(self).accepts(event),
            (old(self).phase == SetupPhase::SelectingDevice && event == (SetupEvent::Status {
                status: 0,
            })) ==> asbd_fits(old(self).config),
        ensures
            final(self).config == old(self).config,
            setup_progress(final(self).phase) > setup_progress(old(self).phase),
            match event {
                SetupEvent::Requested { capturing } => if capturing {
                    &&& final(self).phase == SetupPhase::Finished
                    &&& action matches SetupAction::Fail { message, cleanup }
                    &&& message@ == "Already capturing"@
                    &&& cleanup == Cleanup::Nothing
                } else {
                    &&& final(self).phase == SetupPhase::FindingComponent
                    &&& action == SetupAction::FindComponent { description: hal_output() }
                },
                SetupEvent::ComponentFound { found } => if found {
                    &&& final(self).phase == SetupPhase::CreatingInstance
                    &&& action is CreateInstance
                } else {
                    &&& final(self).phase == SetupPhase::Finished
                    &&& action matches SetupAction::Fail { message, cleanup }
                    &&& message@ == "AudioComponentFindNext: HAL output not found"@
                    &&& cleanup == Cleanup::Nothing
                },
                SetupEvent::DeviceQueried { status, device_id } => if status == 0 {
                    &&& final(self).phase == SetupPhase::SelectingDevice
                    &&& action == SetupAction::SetProperty {
                        property: K_AUDIO_OUTPUT_UNIT_PROPERTY_CURRENT_DEVICE,
                        scope: K_AUDIO_UNIT_SCOPE_GLOBAL,
                        element: 0,
                        value: PropertyValue::Word(device_id),
                    }
                } else {
                    &&& final(self).phase == SetupPhase::Finished
                    &&& action matches SetupAction::Fail { message, cleanup }
                    &&& message@ == device_query_error(status)
                    &&& cleanup == Cleanup::Nothing
                },
                SetupEvent::Status { status } => if status != 0 {
                    &&& final(self).phase == SetupPhase::Finished
                    &&& action matches SetupAction::Fail { message, cleanup }
                    &&& message@ == setup_failure(old(self).phase, status).0
                    &&& cleanup == setup_failure(old(self).phase, status).1
                } else {
                    match old(self).phase {
                        SetupPhase::CreatingInstance => {
                            &&& final(self).phase == SetupPhase::EnablingInput
                            &&& action == SetupAction::SetProperty {
                                property: K_AUDIO_OUTPUT_UNIT_PROPERTY_ENABLE_IO,
                                scope: K_AUDIO_UNIT_SCOPE_INPUT,
                                element: 1,
                                value: PropertyValue::Word(1),
                            }
                        },
                        SetupPhase::EnablingInput => {
                            &&& final(self).phase == SetupPhase::DisablingOutput
                            &&& action == SetupAction::SetProperty {
                                property: K_AUDIO_OUTPUT_UNIT_PROPERTY_ENABLE_IO,
                                scope: K_AUDIO_UNIT_SCOPE_OUTPUT,
                                element: 0,
                                value: PropertyValue::Word(0),
                            }
                        },
                        SetupPhase::DisablingOutput => {
                            &&& final(self).phase == SetupPhase::QueryingDevice
                            &&& action is QueryDevice
                        },
                        SetupPhase::SelectingDevice => {
                            &&& final(self).phase == SetupPhase::SettingFormat
                            &&& action == SetupAction::SetProperty {
                                property: K_AUDIO_UNIT_PROPERTY_STREAM_FORMAT,
                                scope: K_AUDIO_UNIT_SCOPE_OUTPUT,
                                element: 1,
                                value: PropertyValue::Stream(asbd_of(old(self).config)),
                            }
                        },
                        SetupPhase::SettingFormat => {
                            &&& final(self).phase == SetupPhase::RegisteringCallback
                            &&& action == SetupAction::SetProperty {
                                property: K_AUDIO_OUTPUT_UNIT_PROPERTY_SET_INPUT_CALLBACK,
                                scope: K_AUDIO_UNIT_SCOPE_GLOBAL,
                                element: 0,
                                value: PropertyValue::InputCallback,
                            }
                        },
                        SetupPhase::RegisteringCallback => {
                            &&& final(self).phase == SetupPhase::Initializing
                            &&& action is Initialize
                        },
                        SetupPhase::Initializing => {
                            &&& final(self).phase == SetupPhase::Starting
                            &&& action is StartUnit
                        },
                        _ => {
                            &&& final(self).phase == SetupPhase::Finished
                            &&& action is Finish
                        },
                    }
                },
            },
    {
        match event {
            SetupEvent::Requested { capturing } => {
                if capturing {
                    self.phase = SetupPhase::Finished;
                    SetupAction::Fail {
                        message: String::from_str("Already capturing"),
                        cleanup: Cleanup::Nothing,
                    }
                } else {
                    self.phase = SetupPhase::FindingComponent;
                    SetupAction::FindComponent {
                        description: ComponentDescription {
                            component_type: K_AUDIO_UNIT_TYPE_OUTPUT,
                            component_sub_type: K_AUDIO_UNIT_SUB_TYPE_HAL_OUTPUT,
                            component_manufacturer: K_AUDIO_UNIT_MANUFACTURER_APPLE,
                            component_flags: 0,
                            component_flags_mask: 0,
                        },
                    }
                }
            },
            SetupEvent::ComponentFound { found } => {
                if found {
                    self.phase = SetupPhase::CreatingInstance;
                    SetupAction::CreateInstance
                } else {
                    self.phase = SetupPhase::Finished;
                    SetupAction::Fail {
                        message: String::from_str("AudioComponentFindNext: HAL output not found"),
                        cleanup: Cleanup::Nothing,
                    }
                }
            },
            SetupEvent::DeviceQueried { status, device_id } => {
                match default_output_device(status, device_id) {
                    Ok(device) => {
                        self.phase = SetupPhase::SelectingDevice;
                        SetupAction::SetProperty {
                            property: K_AUDIO_OUTPUT_UNIT_PROPERTY_CURRENT_DEVICE,
                            scope: K_AUDIO_UNIT_SCOPE_GLOBAL,
                            element: 0,
                            value: PropertyValue::Word(device),
                        }
                    },
                    Err(message) => {
                        self.phase = SetupPhase::Finished;
                        SetupAction::Fail { message, cleanup: Cleanup::Nothing }
                    },
                }
            },
            SetupEvent::Status { status } => {
                if status != 0 {
                    let (prefix, cleanup) = match self.phase {
                        SetupPhase::CreatingInstance => ("AudioComponentInstanceNew failed: ", Cleanup::Nothing),
                        SetupPhase::EnablingInput => ("Enable input IO failed: ", Cleanup::Dispose),
                        SetupPhase::DisablingOutput => ("Disable output IO failed: ", Cleanup::Dispose),
                        SetupPhase::SelectingDevice => ("Set device failed: ", Cleanup::Dispose),
                        SetupPhase::SettingFormat => ("Set stream format failed: ", Cleanup::Dispose),
                        SetupPhase::RegisteringCallback => ("Set input callback failed: ", Cleanup::Dispose),
                        SetupPhase::Initializing => ("AudioUnitInitialize failed: ", Cleanup::Dispose),
                        _ => ("AudioOutputUnitStart failed: ", Cleanup::UninitializeAndDispose),
                    };
                    self.phase = SetupPhase::Finished;
                    return SetupAction::Fail { message: status_message(prefix, status), cleanup };
                }
                match self.phase {
                    SetupPhase::CreatingInstance => {
                        self.phase = SetupPhase::EnablingInput;
                        SetupAction::SetProperty {
                            property: K_AUDIO_OUTPUT_UNIT_PROPERTY_ENABLE_IO,
                            scope: K_AUDIO_UNIT_SCOPE_INPUT,
                            element: 1,
                            value: PropertyValue::Word(1),
                        }
                    },
                    SetupPhase::EnablingInput => {
                        self.phase = SetupPhase::DisablingOutput;
                        SetupAction::SetProperty {
                            property: K_AUDIO_OUTPUT_UNIT_PROPERTY_ENABLE_IO,
                            scope: K_AUDIO_UNIT_SCOPE_OUTPUT,
                            element: 0,
                            value: PropertyValue::Word(0),
                        }
                    },
                    SetupPhase::DisablingOutput => {
                        self.phase = SetupPhase::QueryingDevice;
                        SetupAction::QueryDevice
                    },
                    SetupPhase::SelectingDevice => {
                        self.phase = SetupPhase::SettingFormat;
                        SetupAction::SetProperty {
                            property: K_AUDIO_UNIT_PROPERTY_STREAM_FORMAT,
                            scope: K_AUDIO_UNIT_SCOPE_OUTPUT,
                            element: 1,
                            value: PropertyValue::Stream(build_asbd(&self.config)),
                        }
                    },
                    SetupPhase::SettingFormat => {
                        self.phase = SetupPhase::RegisteringCallback;
                        SetupAction::SetProperty {
                            property: K_AUDIO_OUTPUT_UNIT_PROPERTY_SET_INPUT_CALLBACK,
                            scope: K_AUDIO_UNIT_SCOPE_GLOBAL,
                            element: 0,
                            value: PropertyValue::InputCallback,
                        }
                    },
                    SetupPhase::RegisteringCallback => {
                        self.phase = SetupPhase::Initializing;
                        SetupAction::Initialize
                    },
                    SetupPhase::Initializing => {
                        self.phase = SetupPhase::Starting;
                        SetupAction::StartUnit
                    },
                    _ => {
                        self.phase = SetupPhase::Finished;
                        SetupAction::Finish
                    },
                }
            },
        }
    }
}

/// The bytes that `number_frames` frames of `bytes_per_frame` bytes take, where that fits
/// the 32-bit size of an `AudioBuffer`.
pub fn input_buffer_bytes(number_frames: u32, bytes_per_frame: u32) -> (bytes: Option<u32>)
    ensures
        number_frames * bytes_per_frame <= u32::MAX ==> bytes == Some((number_frames
            * bytes_per_frame) as u32),
        number_frames * bytes_per_frame > u32::MAX ==> bytes is None,
{
    number_frames.checked_mul(bytes_per_frame)
}

/// The length of the slice that the callback receives after a render that returned
/// `status` and filled `rendered_bytes` bytes: the whole frames rendered, or nothing
/// (`None`) where the render failed or rendered no whole frame.
pub open spec fn delivery_len(status: i32, rendered_bytes: u32, bytes_per_frame: u32) -> Option<
    nat,
> {
    if status != 0 || bytes_per_frame == 0 {
        None
    } else {
        let whole = (rendered_bytes - rendered_bytes % bytes_per_frame) as nat;
        if whole == 0 {
            None
        } else {
            Some(whole)
        }
    }
}

/// How much of a render's buffer the callback receives: the interleaved samples of the
/// whole frames rendered, in the layout of the stream description.
pub fn rendered_delivery(status: i32, rendered_bytes: u32, bytes_per_frame: u32) -> (len: Option<
    usize,
>)
    ensures
        len matches Some(n) ==> delivery_len(status, rendered_bytes, bytes_per_frame) == Some(
            n as nat,
        ),
        len is None ==> delivery_len(status, rendered_bytes, bytes_per_frame) is None,
        status != 0 ==> len is None,
        bytes_per_frame == 0 ==> len is None,
        len matches Some(n) ==> (n as int) % (bytes_per_frame as int) == 0 && 0 < n <= rendered_bytes
            && rendered_bytes - n < bytes_per_frame,
        status == 0 && 0 < bytes_per_frame <= rendered_bytes ==> len is Some,
{
    if status != 0 || bytes_per_frame == 0 {
        return None;
    }
    assert(rendered_bytes % bytes_per_frame <= rendered_bytes) by (nonlinear_arith)
        requires
            bytes_per_frame > 0,
    ;
    let whole = rendered_bytes - rendered_bytes % bytes_per_frame;
    assert(whole % bytes_per_frame == 0) by (nonlinear_arith)
        requires
            whole == rendered_bytes - rendered_bytes % bytes_per_frame,
            bytes_per_frame > 0,
    ;
    if whole == 0 {
        None
    } else {
        Some(whole as usize)
    }
}

} // verus!
