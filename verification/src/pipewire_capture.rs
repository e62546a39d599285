//! Linux PipeWire capture backend: the decisions of recording through `pw-cat --record`
//! (or `pacat --record` on a PulseAudio monitor source when `pw-cat` is missing).
//!
//! The process handling, the reader thread and the callback live with the caller; this
//! module decides which recorder runs with which arguments, how many bytes make one
//! delivered frame, what a refused start answers, and which capture sources a sink
//! listing describes.
use vstd::prelude::*;
use vstd::string::*;

use crate::decimal::{decimal, u32_to_decimal};
use crate::text::{
    chars_of, find_in, has_two_fields, lemma_find_bound, lines, second_field, strip_cr, trim,
    trim_str,
};
use crate::{CaptureConfig, CaptureSource, SampleFormat};

verus! {

/// The `--format` value that `pw-cat` takes for `format`.
pub open spec fn pw_format_name(format: SampleFormat) -> Seq<char> {
    match format {
        SampleFormat::S16LE => "s16"@,
        SampleFormat::S24LE => "s24"@,
        SampleFormat::S32LE => "s32"@,
        SampleFormat::F32LE => "f32"@,
    }
}

/// The `--format` value that `pacat` takes for `format`.
pub open spec fn pa_format_name(format: SampleFormat) -> Seq<char> {
    match format {
        SampleFormat::S16LE => "s16le"@,
        SampleFormat::S24LE => "s24le"@,
        SampleFormat::S32LE => "s32le"@,
        SampleFormat::F32LE => "float32le"@,
    }
}

/// Bytes that one sample of `format` takes in the interleaved stream.
pub open spec fn sample_bytes(format: SampleFormat) -> nat {
    match format {
        SampleFormat::S16LE => 2,
        SampleFormat::S24LE => 3,
        SampleFormat::S32LE => 4,
        SampleFormat::F32LE => 4,
    }
}

/// The `pw-cat` name of `format`.
pub fn format_to_pw_format(format: SampleFormat) -> (name: &'static str)
    ensures
        name@ == pw_format_name(format),
{
    match format {
        SampleFormat::S16LE => "s16",
        SampleFormat::S24LE => "s24",
        SampleFormat::S32LE => "s32",
        SampleFormat::F32LE => "f32",
    }
}

/// The `pacat` name of `format`.
pub fn format_to_pa_format(format: SampleFormat) -> (name: &'static str)
    ensures
        name@ == pa_format_name(format),
{
    match format {
        SampleFormat::S16LE => "s16le",
        SampleFormat::S24LE => "s24le",
        SampleFormat::S32LE => "s32le",
        SampleFormat::F32LE => "float32le",
    }
}

/// Bytes per sample of `format`.
pub fn bytes_per_sample(format: SampleFormat) -> (n: usize)
    ensures
        n == sample_bytes(format),
{
    match format {
        SampleFormat::S16LE => 2,
        SampleFormat::S24LE => 3,
        SampleFormat::S32LE => 4,
        SampleFormat::F32LE => 4,
    }
}

/// The sinks that a `pactl list short sinks` listing names: the second tab-separated
/// field of each of its lines that has at least two fields, in order.
pub open spec fn sink_names(listing: Seq<char>) -> Seq<Seq<char>> {
    sinks_named_in(lines(listing))
}

/// The second tab-separated field of each of `lines` that has at least two fields.
pub open spec fn sinks_named_in(lines: Seq<Seq<char>>) -> Seq<Seq<char>> {
    lines.filter(|line: Seq<char>| has_two_fields(line)).map_values(
        |line: Seq<char>| second_field(line),
    )
}

/// Whether `source` is the monitor of the sink named `sink`, as the listing reports it:
/// loopback, with rate and channel count left to be detected (zero).
pub open spec fn is_monitor_of(source: CaptureSource, sink: Seq<char>) -> bool {
    &&& source.id@ == sink + ".monitor"@
    &&& source.name@ == sink + " (monitor)"@
    &&& source.is_loopback
    &&& source.sample_rate == 0
    &&& source.channels == 0
}

/// Whether `sources` are the monitors of `sinks`, one each, in order.
pub open spec fn are_monitors_of(sources: Seq<CaptureSource>, sinks: Seq<Seq<char>>) -> bool {
    &&& sources.len() == sinks.len()
    &&& forall|i: int| 0 <= i < sources.len() ==> is_monitor_of(#[trigger] sources[i], sinks[i])
}

proof fn lemma_sink_names_push(done: Seq<Seq<char>>, line: Seq<char>)
    ensures
        sinks_named_in(done.push(line)) == sinks_named_in(done) + if has_two_fields(line) {
            seq![second_field(line)]
        } else {
            seq![]
        },
{
    let p = |line: Seq<char>| has_two_fields(line);
    let f = |line: Seq<char>| second_field(line);
    assert(done.push(line) =~= done + seq![line]);
    Seq::filter_distributes_over_add(done, seq![line], p);
    assert(seq![line].filter(p) =~= if has_two_fields(line) {
        seq![line]
    } else {
        seq![]
    }) by {
        reveal_with_fuel(Seq::filter, 2);
        assert(seq![line].drop_last() =~= Seq::<Seq<char>>::empty());
    }
    assert((done.filter(p) + seq![line].filter(p)).map_values(f) =~= done.filter(p).map_values(f)
        + seq![line].filter(p).map_values(f));
}

/// The monitor source of the sink named by `sink`.
fn monitor_of(sink: &str) -> (source: CaptureSource)
    ensures
        is_monitor_of(source, sink@),
{
    let mut id = String::from_str(sink);
    id.append(".monitor");
    let mut name = String::from_str(sink);
    name.append(" (monitor)");
    CaptureSource { id, name, is_loopback: true, sample_rate: 0, channels: 0 }
}

/// The capture sources that a `pactl list short sinks` listing describes: the monitor of
/// each sink it names. `None` (the listing could not be had) gives no source.
pub fn monitor_sources(listing: Option<&str>) -> (sources: Vec<CaptureSource>)
    ensures
        listing is None ==> sources.len() == 0,
        listing matches Some(text) ==> are_monitors_of(sources@, sink_names(text@)),
        listing matches Some(text) ==> sources@.len() == lines(text@).filter(
            |line: Seq<char>| has_two_fields(line),
        ).len(),
        listing matches Some(text) ==> forall|i: int|
            0 <= i < sources@.len() ==> {
                let line = lines(text@).filter(|line: Seq<char>| has_two_fields(line))[i];
                &&& (#[trigger] sources@[i]).id@ == second_field(line) + ".monitor"@
                &&& sources@[i].name@ == second_field(line) + " (monitor)"@
                &&& sources@[i].is_loopback
                &&& sources@[i].sample_rate == 0
                &&& sources@[i].channels == 0
            },
{
    let text = match listing {
        None => {
            return Vec::new();
        },
        Some(text) => text,
    };
    let v = chars_of(text);
    let n = v.len();
    let mut sources: Vec<CaptureSource> = Vec::new();
    let mut pos: usize = 0;
    let ghost mut done: Seq<Seq<char>> = seq![];
    assert(text@.skip(0) =~= text@);
    while pos < n
        invariant
            v@ == text@,
            n == v.len(),
            pos <= n,
            lines(text@) == done + lines(text@.skip(pos as int)),
            are_monitors_of(sources@, sinks_named_in(done)),
        decreases n - pos,
    {
        let ghost rest = text@.skip(pos as int);
        let e = find_in(&v, pos, n, '\n');
        proof {
            assert(rest =~= v@.subrange(pos as int, n as int));
            lemma_find_bound(rest, '\n');
        }
        let mut line_end = e;
        if e < n && e > pos && v[e - 1] == '\r' {
            line_end = e - 1;
        }
        let ghost line = text@.subrange(pos as int, line_end as int);
        proof {
            if e < n {
                assert(rest.take(e - pos) =~= text@.subrange(pos as int, e as int));
                assert(rest.skip(e - pos + 1) =~= text@.skip(e + 1));
                assert(line =~= strip_cr(rest.take(e - pos)));
            } else {
                assert(line =~= rest);
            }
            assert(lines(rest) =~= seq![line] + lines(text@.skip(if e < n { e + 1 } else { n as int })))
                by {
                if e == n {
                    assert(text@.skip(n as int) =~= seq![]);
                }
            }
        }
        let t = find_in(&v, pos, line_end, '\t');
        if t < line_end {
            let f = find_in(&v, t + 1, line_end, '\t');
            let sink = text.substring_char(t + 1, f);
            proof {
                assert(v@.subrange(pos as int, line_end as int) =~= line);
                let after = line.skip(t - pos + 1);
                assert(after =~= v@.subrange(t + 1, line_end as int));
                assert(sink@ =~= second_field(line));
            }
            let source = monitor_of(sink);
            sources.push(source);
        }
        proof {
            assert(v@.subrange(pos as int, line_end as int) =~= line);
            lemma_sink_names_push(done, line);
            done = done.push(line);
        }
        pos = if e < n {
            e + 1
        } else {
            n
        };
    }
    proof {
        assert(text@.skip(n as int) =~= seq![]);
        assert(done =~= lines(text@));
    }
    sources
}

/// The monitor source of the default sink, given what `pactl get-default-sink` printed
/// (`None` where it could not be run): the trimmed sink name with `.monitor` appended, or
/// `None` where the trimmed output is empty.
pub fn detect_monitor_source(default_sink: Option<&str>) -> (monitor: Option<String>)
    ensures
        default_sink is None ==> monitor is None,
        default_sink matches Some(out) ==> {
            if trim(out@).len() == 0 {
                monitor is None
            } else {
                monitor matches Some(m) && m@ == trim(out@) + ".monitor"@
            }
        },
{
    match default_sink {
        None => None,
        Some(out) => {
            let sink = trim_str(out);
            if sink.is_empty() {
                None
            } else {
                let mut monitor = String::from_str(sink);
                monitor.append(".monitor");
                Some(monitor)
            }
        },
    }
}

/// The bytes of one frame that the callback receives: `buffer_frames` frames of
/// `channels` interleaved samples.
pub open spec fn frame_byte_count(config: CaptureConfig) -> int {
    config.buffer_frames * config.channels * sample_bytes(config.format)
}

/// Whether one frame of `config` has a size that `usize` can hold.
pub fn frame_fits(config: &CaptureConfig) -> (fits: bool)
    ensures
        fits == (frame_byte_count(*config) <= usize::MAX),
{
    let frames = config.buffer_frames as usize;
    let channels = config.channels as usize;
    let bytes = bytes_per_sample(config.format);
    match frames.checked_mul(channels) {
        None => {
            assert(frames * channels * bytes >= frames * channels) by (nonlinear_arith)
                requires
                    bytes >= 1,
            ;
            false
        },
        Some(n) => n.checked_mul(bytes).is_some(),
    }
}

/// The size of the buffer that each callback receives.
pub fn frame_bytes(config: &CaptureConfig) -> (n: usize)
    requires
        frame_byte_count(*config) <= usize::MAX,
    ensures
        n == frame_byte_count(*config),
        n == config.buffer_frames * config.channels * sample_bytes(config.format),
{
    let frames = config.buffer_frames as usize;
    let channels = config.channels as usize;
    let bytes = bytes_per_sample(config.format);
    assert(frames * channels <= frames * channels * bytes) by (nonlinear_arith)
        requires
            bytes >= 1,
    ;
    frames * channels * bytes
}

/// A recorder program and its arguments.
pub struct RecorderCommand {
    pub program: String,
    pub args: Vec<String>,
}

impl RecorderCommand {
    /// The arguments, each as text.
    pub open spec fn arg_views(&self) -> Seq<Seq<char>> {
        self.args@.map_values(|a: String| a@)
    }
}

/// The arguments of `pw-cat` recording raw PCM in `config`'s format, rate and channel
/// count to its standard output, with resampling disabled.
pub open spec fn pw_cat_args(config: CaptureConfig) -> Seq<Seq<char>> {
    seq![
        "--record"@,
        "--format"@,
        pw_format_name(config.format),
        "--rate"@,
        decimal(config.sample_rate as nat),
        "--channels"@,
        decimal(config.channels as nat),
        "--quality"@,
        "0"@,
        "-"@,
    ]
}

/// The arguments of `pacat` recording raw PCM in `config`'s format, rate and channel count
/// from the source `device`.
pub open spec fn pacat_args(config: CaptureConfig, device: Seq<char>) -> Seq<Seq<char>> {
    seq![
        "--record"@,
        "--format"@,
        pa_format_name(config.format),
        "--rate"@,
        decimal(config.sample_rate as nat),
        "--channels"@,
        decimal(config.channels as nat),
        "--device"@,
        device,
        "--raw"@,
    ]
}

fn push_arg(args: &mut Vec<String>, arg: &str)
    ensures
        final(args)@.map_values(|a: String| a@) == old(args)@.map_values(|a: String| a@).push(
            arg@,
        ),
{
    args.push(String::from_str(arg));
    assert(final(args)@.map_values(|a: String| a@) =~= old(args)@.map_values(|a: String| a@).push(
        arg@,
    ));
}

fn push_owned_arg(args: &mut Vec<String>, arg: String)
    ensures
        final(args)@.map_values(|a: String| a@) == old(args)@.map_values(|a: String| a@).push(
            arg@,
        ),
{
    let ghost a = arg@;
    args.push(arg);
    assert(final(args)@.map_values(|a: String| a@) =~= old(args)@.map_values(|a: String| a@).push(
        a,
    ));
}

/// The `pw-cat` invocation for `config`.
pub fn pw_cat_command(config: &CaptureConfig) -> (command: RecorderCommand)
    ensures
        command.program@ == "pw-cat"@,
        command.arg_views() == pw_cat_args(*config),
        command.args@.len() == 10,
        command.args@[0]@ == "--record"@,
        command.args@[1]@ == "--format"@,
        command.args@[2]@ == pw_format_name(config.format),
        command.args@[3]@ == "--rate"@,
        command.args@[4]@ == decimal(config.sample_rate as nat),
        command.args@[5]@ == "--channels"@,
        command.args@[6]@ == decimal(config.channels as nat),
        command.args@[7]@ == "--quality"@,
        command.args@[8]@ == "0"@,
        command.args@[9]@ == "-"@,
{
    let mut args: Vec<String> = Vec::new();
    push_arg(&mut args, "--record");
    push_arg(&mut args, "--format");
    push_arg(&mut args, format_to_pw_format(config.format));
    push_arg(&mut args, "--rate");
    push_owned_arg(&mut args, u32_to_decimal(config.sample_rate));
    push_arg(&mut args, "--channels");
    push_owned_arg(&mut args, u32_to_decimal(config.channels));
    push_arg(&mut args, "--quality");
    push_arg(&mut args, "0");
    push_arg(&mut args, "-");
    let command = RecorderCommand { program: String::from_str("pw-cat"), args };
    assert(command.arg_views() =~= pw_cat_args(*config));
    command
}

/// The `pacat` invocation for `config`, recording from `device`.
pub fn pacat_command(config: &CaptureConfig, device: &str) -> (command: RecorderCommand)
    ensures
        command.program@ == "pacat"@,
        command.arg_views() == pacat_args(*config, device@),
        command.args@.len() == 10,
        command.args@[0]@ == "--record"@,
        command.args@[1]@ == "--format"@,
        command.args@[2]@ == pa_format_name(config.format),
        command.args@[3]@ == "--rate"@,
        command.args@[4]@ == decimal(config.sample_rate as nat),
        command.args@[5]@ == "--channels"@,
        command.args@[6]@ == decimal(config.channels as nat),
        command.args@[7]@ == "--device"@,
        command.args@[8]@ == device@,
        command.args@[9]@ == "--raw"@,
{
    let mut args: Vec<String> = Vec::new();
    push_arg(&mut args, "--record");
    push_arg(&mut args, "--format");
    push_arg(&mut args, format_to_pa_format(config.format));
    push_arg(&mut args, "--rate");
    push_owned_arg(&mut args, u32_to_decimal(config.sample_rate));
    push_arg(&mut args, "--channels");
    push_owned_arg(&mut args, u32_to_decimal(config.channels));
    push_arg(&mut args, "--device");
    push_arg(&mut args, device);
    push_arg(&mut args, "--raw");
    let command = RecorderCommand { program: String::from_str("pacat"), args };
    assert(command.arg_views() =~= pacat_args(*config, device@));
    command
}

/// The recording program that a capture runs.
#[derive(Debug, Clone, Copy, PartialEq, Eq, Structural)]
pub enum Recorder {
    /// PipeWire's `pw-cat`.
    PwCat,
    /// PulseAudio's `pacat`.
    Pacat,
}

/// Where a start of capture stands.
#[derive(Debug, Clone, Copy, PartialEq, Eq, Structural)]
pub enum StartPhase {
    /// Not begun: waits for the request, with the current running flag.
    Requested,
    /// Waits to learn whether `pw-cat` can be run.
    ProbingPwCat,
    /// Waits to learn whether `pacat` can be run.
    ProbingPacat,
    /// Waits for the default sink's monitor source.
    DetectingMonitor,
    /// Waits for the recorder process to start.
    Spawning(Recorder),
    /// Waits for the recorder's standard output to be taken.
    TakingStdout,
    /// The start has succeeded or failed; nothing more happens.
    Finished,
}

/// What the caller learned since the last action.
pub enum StartEvent {
    /// `start` was called while the running flag was `running`.
    Requested { running: bool },
    /// Whether `pw-cat --version` could be run.
    PwCatProbed { available: bool },
    /// Whether `pacat --version` could be run.
    PacatProbed { available: bool },
    /// The default sink's monitor source, if one was found.
    MonitorDetected { monitor: Option<String> },
    /// The recorder process started, or did not, with the error's text.
    Spawned { error: Option<String> },
    /// Whether the recorder's standard output could be taken.
    StdoutTaken { taken: bool },
}

/// What the caller does next.
pub enum StartAction {
    /// Probe for `pw-cat`.
    ProbePwCat,
    /// Probe for `pacat`.
    ProbePacat,
    /// Ask for the default sink's monitor source.
    DetectMonitor,
    /// Start `command` with its standard output piped and its standard error discarded.
    Spawn { recorder: Recorder, command: RecorderCommand },
    /// Take the recorder's standard output.
    TakeStdout,
    /// Set the running flag, read frames of `frame_bytes` bytes on a reader thread and hand
    /// each to the callback, keep the process, and report success.
    Launch { frame_bytes: usize },
    /// Report `message` as the start's error.
    Fail { message: String },
}

/// The decisions of one call of `start`, taken one event at a time.
pub struct StartSession {
    pub config: CaptureConfig,
    pub phase: StartPhase,
    /// The size of one delivered frame, known once the request is accepted.
    pub frame_bytes: usize,
}

/// How far a start has come: each step of a session raises it, and it ends at 6.
pub open spec fn start_progress(phase: StartPhase) -> nat {
    match phase {
        StartPhase::Requested => 0,
        StartPhase::ProbingPwCat => 1,
        StartPhase::ProbingPacat => 2,
        StartPhase::DetectingMonitor => 3,
        StartPhase::Spawning(_) => 4,
        StartPhase::TakingStdout => 5,
        StartPhase::Finished => 6,
    }
}

/// The error text of a failed spawn of `recorder`.
pub open spec fn spawn_error(recorder: Recorder, error: Seq<char>) -> Seq<char> {
    match recorder {
        Recorder::PwCat => "failed to start pw-cat: "@ + error,
        Recorder::Pacat => "failed to start pacat: "@ + error,
    }
}

impl StartSession {
    /// The session's invariant: while the start is under way past its request, the frame
    /// size is that of the config.
    pub open spec fn wf(&self) -> bool {
        self.phase != StartPhase::Requested && self.phase != StartPhase::Finished
            ==> self.frame_bytes == frame_byte_count(self.config)
    }

    /// Whether `event` answers what the session waits for.
    pub open spec fn accepts(&self, event: StartEvent) -> bool {
        match self.phase {
            StartPhase::Requested => event is Requested,
            StartPhase::ProbingPwCat => event is PwCatProbed,
            StartPhase::ProbingPacat => event is PacatProbed,
            StartPhase::DetectingMonitor => event is MonitorDetected,
            StartPhase::Spawning(_) => event is Spawned,
            StartPhase::TakingStdout => event is StdoutTaken,
            StartPhase::Finished => false,
        }
    }

    /// A session for starting capture in `config`.
    pub fn new(config: CaptureConfig) -> (session: Self)
        ensures
            session.config == config,
            session.phase == StartPhase::Requested,
            session.wf(),
    {
        StartSession { config, phase: StartPhase::Requested, frame_bytes: 0 }
    }

    /// Takes `event` and says what to do next.
    ///
    /// A start refuses while capture runs; it prefers `pw-cat`, falls back to `pacat` on
    /// the default sink's monitor, and fails when neither can be run.
    pub fn step(&mut self, event: StartEvent) -> (action: StartAction)
        requires
            old(self).wf(),
            old(self).accepts(event),
            event matches StartEvent::Requested { running } && !running ==> frame_byte_count(
                old(self).config,
            ) <= usize::MAX,
        ensures
            final(self).wf(),
            final(self).config == old(self).config,
            start_progress(final(self).phase) > start_progress(old(self).phase),
            match event {
                StartEvent::Requested { running } => if running {
                    &&& final(self).phase == StartPhase::Finished
                    &&& action matches StartAction::Fail { message }
                    &&& message@ == "capture already running"@
                } else {
                    &&& final(self).phase == StartPhase::ProbingPwCat
                    &&& action is ProbePwCat
                },
                StartEvent::PwCatProbed { available } => if available {
                    &&& final(self).phase == StartPhase::Spawning(Recorder::PwCat)
                    &&& action matches StartAction::Spawn { recorder, command }
                    &&& recorder == Recorder::PwCat
                    &&& command.program@ == "pw-cat"@
                    &&& command.arg_views() == pw_cat_args(old(self).config)
                } else {
                    &&& final(self).phase == StartPhase::ProbingPacat
                    &&& action is ProbePacat
                },
                StartEvent::PacatProbed { available } => if available {
                    &&& final(self).phase == StartPhase::DetectingMonitor
                    &&& action is DetectMonitor
                } else {
                    &&& final(self).phase == StartPhase::Finished
                    &&& action matches StartAction::Fail { message }
                    &&& message@
                        == "neither pw-cat nor pacat found — install PipeWire or PulseAudio"@
                },
                StartEvent::MonitorDetected { monitor } => match monitor {
                    Some(device) => {
                        &&& final(self).phase == StartPhase::Spawning(Recorder::Pacat)
                        &&& action matches StartAction::Spawn { recorder, command }
                        &&& recorder == Recorder::Pacat
                        &&& command.program@ == "pacat"@
                        &&& command.arg_views() == pacat_args(old(self).config, device@)
                    },
                    None => {
                        &&& final(self).phase == StartPhase::Finished
                        &&& action matches StartAction::Fail { message }
                        &&& message@ == "no PulseAudio monitor source found"@
                    },
                },
                StartEvent::Spawned { error } => match error {
                    None => {
                        &&& final(self).phase == StartPhase::TakingStdout
                        &&& action is TakeStdout
                    },
                    Some(e) => {
                        &&& final(self).phase == StartPhase::Finished
                        &&& action matches StartAction::Fail { message }
                        &&& old(self).phase matches StartPhase::Spawning(recorder)
                        &&& message@ == spawn_error(recorder, e@)
                    },
                },
                StartEvent::StdoutTaken { taken } => if taken {
                    &&& final(self).phase == StartPhase::Finished
                    &&& action matches StartAction::Launch { frame_bytes }
                    &&& frame_bytes == frame_byte_count(old(self).config)
                } else {
                    &&& final(self).phase == StartPhase::Finished
                    &&& action matches StartAction::Fail { message }
                    &&& message@ == "failed to capture stdout from audio process"@
                },
            },
    {
        match event {
            StartEvent::Requested { running } => {
                if running {
                    self.phase = StartPhase::Finished;
                    StartAction::Fail { message: String::from_str("capture already running") }
                } else {
                    self.frame_bytes = frame_bytes(&self.config);
                    self.phase = StartPhase::ProbingPwCat;
                    StartAction::ProbePwCat
                }
            },
            StartEvent::PwCatProbed { available } => {
                if available {
                    self.phase = StartPhase::Spawning(Recorder::PwCat);
                    StartAction::Spawn { recorder: Recorder::PwCat, command: pw_cat_command(&self.config) }
                } else {
                    self.phase = StartPhase::ProbingPacat;
                    StartAction::ProbePacat
                }
            },
            StartEvent::PacatProbed { available } => {
                if available {
                    self.phase = StartPhase::DetectingMonitor;
                    StartAction::DetectMonitor
                } else {
                    self.phase = StartPhase::Finished;
                    StartAction::Fail {
                        message: String::from_str(
                            "neither pw-cat nor pacat found — install PipeWire or PulseAudio",
                        ),
                    }
                }
            },
            StartEvent::MonitorDetected { monitor } => {
                match monitor {
                    Some(device) => {
                        self.phase = StartPhase::Spawning(Recorder::Pacat);
                        StartAction::Spawn {
                            recorder: Recorder::Pacat,
                            command: pacat_command(&self.config, device.as_str()),
                        }
                    },
                    None => {
                        self.phase = StartPhase::Finished;
                        StartAction::Fail {
                            message: String::from_str("no PulseAudio monitor source found"),
                        }
                    },
                }
            },
            StartEvent::Spawned { error } => {
                match error {
                    None => {
                        self.phase = StartPhase::TakingStdout;
                        StartAction::TakeStdout
                    },
                    Some(e) => {
                        let mut message = match self.phase {
                            StartPhase::Spawning(Recorder::PwCat) => String::from_str(
                                "failed to start pw-cat: ",
                            ),
                            _ => String::from_str("failed to start pacat: "),
                        };
                        message.append(e.as_str());
                        self.phase = StartPhase::Finished;
                        StartAction::Fail { message }
                    },
                }
            },
            StartEvent::StdoutTaken { taken } => {
                self.phase = StartPhase::Finished;
                if taken {
                    StartAction::Launch { frame_bytes: self.frame_bytes }
                } else {
                    StartAction::Fail {
                        message: String::from_str("failed to capture stdout from audio process"),
                    }
                }
            },
        }
    }
}

/// Where the reader thread of a running capture stands.
#[derive(Debug, Clone, Copy, PartialEq, Eq, Structural)]
pub enum ReaderPhase {
    /// At the head of the loop: waits for the running flag.
    Checking,
    /// Waits for the read of one frame.
    Reading,
    /// Waits for the callback to have had the frame.
    Delivering,
    /// The loop has ended.
    Stopped,
}

/// What the reader thread learned since the last action.
pub enum ReaderEvent {
    /// The running flag was `running`.
    RunningChecked { running: bool },
    /// The buffer handed out by `ReadFrame` was filled completely (`read_exact` succeeded).
    FrameRead { frame: Vec<u8> },
    /// The read failed with the error's text `error`; the running flag, read afterwards,
    /// was `running`.
    ReadFailed { error: String, running: bool },
    /// The callback has had the frame and handed its buffer back.
    Delivered { frame: Vec<u8> },
}

/// What the reader thread does next.
pub enum ReaderAction {
    /// Read the running flag.
    CheckRunning,
    /// Fill all of `buffer` from the recorder's output.
    ReadFrame { buffer: Vec<u8> },
    /// Hand `frame` to the callback, then give the buffer back.
    Deliver { frame: Vec<u8> },
    /// End the thread, writing `report` to standard error where there is one.
    Finish { report: Option<String> },
}

/// The loop of the thread that reads the recorder's output in frames of `frame_bytes`
/// bytes and hands each to the callback while capture runs.
pub struct FrameReader {
    pub frame_bytes: usize,
    pub phase: ReaderPhase,
    /// The frame buffer, while the reader holds it (at the head of the loop).
    pub buffer: Option<Vec<u8>>,
    /// The frames handed to the callback so far, in order.
    pub delivered: Ghost<Seq<Seq<u8>>>,
}

/// The message that a read error `error` is reported with.
pub open spec fn read_error_report(error: Seq<char>) -> Seq<char> {
    "[pipewire] read error: "@ + error
}

impl FrameReader {
    /// The reader's invariant: at the head of the loop it holds a buffer of one frame.
    pub open spec fn wf(&self) -> bool {
        &&& self.phase == ReaderPhase::Checking ==> (self.buffer matches Some(b) && b.len()
            == self.frame_bytes)
        &&& forall|i: int|
            0 <= i < self.delivered@.len() ==> (#[trigger] self.delivered@[i]).len()
                == self.frame_bytes
    }

    /// Whether `event` answers what the reader waits for, with a buffer of one frame where
    /// it hands one back.
    pub open spec fn accepts(&self, event: ReaderEvent) -> bool {
        match self.phase {
            ReaderPhase::Checking => event is RunningChecked,
            ReaderPhase::Reading => match event {
                ReaderEvent::FrameRead { frame } => frame.len() == self.frame_bytes,
                ReaderEvent::ReadFailed { .. } => true,
                _ => false,
            },
            ReaderPhase::Delivering => match event {
                ReaderEvent::Delivered { frame } => frame.len() == self.frame_bytes,
                _ => false,
            },
            ReaderPhase::Stopped => false,
        }
    }

    /// A reader of frames of `frame_bytes` bytes, with a zeroed buffer, at the head of its
    /// loop.
    pub fn new(frame_bytes: usize) -> (reader: Self)
        ensures
            reader.frame_bytes == frame_bytes,
            reader.phase == ReaderPhase::Checking,
            reader.delivered@ == Seq::<Seq<u8>>::empty(),
            reader.wf(),
    {
        let mut buffer: Vec<u8> = Vec::new();
        while buffer.len() < frame_bytes
            invariant
                buffer.len() <= frame_bytes,
            decreases frame_bytes - buffer.len(),
        {
            buffer.push(0u8);
        }
        FrameReader {
            frame_bytes,
            phase: ReaderPhase::Checking,
            buffer: Some(buffer),
            delivered: Ghost(Seq::empty()),
        }
    }

    /// Takes `event` and says what to do next.
    ///
    /// While capture runs, the reader reads whole frames and hands each to the callback;
    /// it stops when the flag is cleared or a read fails, reporting the failure only while
    /// capture still runs. Every frame it hands out has `frame_bytes` bytes.
    pub fn step(&mut self, event: ReaderEvent) -> (action: ReaderAction)
        requires
            old(self).wf(),
            old(self).accepts(event),
        ensures
            final(self).wf(),
            final(self).frame_bytes == old(self).frame_bytes,
            event matches ReaderEvent::FrameRead { frame } ==> final(self).delivered@ == old(
                self,
            ).delivered@.push(frame@),
            !(event is FrameRead) ==> final(self).delivered@ == old(self).delivered@,
            match event {
                ReaderEvent::RunningChecked { running } => if running {
                    &&& final(self).phase == ReaderPhase::Reading
                    &&& action matches ReaderAction::ReadFrame { buffer }
                    &&& buffer.len() == old(self).frame_bytes
                } else {
                    &&& final(self).phase == ReaderPhase::Stopped
                    &&& action == ReaderAction::Finish { report: None }
                },
                ReaderEvent::FrameRead { frame } => {
                    &&& final(self).phase == ReaderPhase::Delivering
                    &&& action == ReaderAction::Deliver { frame }
                    &&& frame.len() == old(self).frame_bytes
                },
                ReaderEvent::ReadFailed { error, running } => {
                    &&& final(self).phase == ReaderPhase::Stopped
                    &&& action matches ReaderAction::Finish { report }
                    &&& if running {
                        report matches Some(r) && r@ == read_error_report(error@)
                    } else {
                        report is None
                    }
                },
                ReaderEvent::Delivered { frame } => {
                    &&& final(self).phase == ReaderPhase::Checking
                    &&& final(self).buffer == Some(frame)
                    &&& action is CheckRunning
                },
            },
    {
        match event {
            ReaderEvent::RunningChecked { running } => {
                if running {
                    let buffer = match self.buffer.take() {
                        Some(b) => b,
                        None => Vec::new(),
                    };
                    self.phase = ReaderPhase::Reading;
                    ReaderAction::ReadFrame { buffer }
                } else {
                    self.phase = ReaderPhase::Stopped;
                    ReaderAction::Finish { report: None }
                }
            },
            ReaderEvent::FrameRead { frame } => {
                self.phase = ReaderPhase::Delivering;
                self.delivered = Ghost(self.delivered@.push(frame@));
                ReaderAction::Deliver { frame }
            },
            ReaderEvent::ReadFailed { error, running } => {
                self.phase = ReaderPhase::Stopped;
                if running {
                    let mut report = String::from_str("[pipewire] read error: ");
                    report.append(error.as_str());
                    ReaderAction::Finish { report: Some(report) }
                } else {
                    ReaderAction::Finish { report: None }
                }
            },
            ReaderEvent::Delivered { frame } => {
                self.buffer = Some(frame);
                self.phase = ReaderPhase::Checking;
                ReaderAction::CheckRunning
            },
        }
    }
}

} // verus!
