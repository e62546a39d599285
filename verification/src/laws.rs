//! Properties that hold across the library's functions.
use vstd::prelude::*;

use crate::capture_state::{after_start, after_stop, start_refused, CaptureState};
use crate::coreaudio::{
    asbd_fits, asbd_of, asbd_sample_bytes, delivery_len, format_bits, setup_failure, setup_progress,
    Cleanup, SetupPhase,
};
use crate::decimal::{decimal, digit_char, signed_decimal};
use crate::pipewire_capture::{
    FrameReader, are_monitors_of, frame_byte_count, pa_format_name, pacat_args, pw_cat_args,
    pw_format_name, sample_bytes, sink_names,
};
use crate::text::{
    find, has_two_fields, is_white_space, lemma_find_bound, lines, second_field, strip_cr, trim,
    trim_end, trim_start,
};
use crate::{CaptureConfig, CaptureSource, SampleFormat};

verus! {

/// Whether `c` is one of the digits `0` to `9`.
pub open spec fn is_digit(c: char) -> bool {
    '0' <= c <= '9'
}

/// The number that the decimal digits `s` denote.
pub open spec fn numeral_value(s: Seq<char>) -> nat
    decreases s.len(),
{
    if s.len() == 0 {
        0
    } else {
        numeral_value(s.drop_last()) * 10 + ((s.last() as int) - ('0' as int)) as nat
    }
}

/// Decimal rendering is the usual numeral: digits only, no leading zero, and reading it
/// back gives the number.
pub proof fn lemma_decimal_reads_back(n: nat)
    ensures
        decimal(n).len() >= 1,
        forall|i: int| 0 <= i < decimal(n).len() ==> is_digit(#[trigger] decimal(n)[i]),
        decimal(n)[0] == '0' ==> n == 0,
        numeral_value(decimal(n)) == n,
    decreases n,
{
    assert(digit_char(n % 10) as int == ('0' as int) + n % 10);
    if n < 10 {
        assert(decimal(n).drop_last() =~= Seq::<char>::empty());
        assert(decimal(n).last() == digit_char(n));
        assert(numeral_value(decimal(n)) == numeral_value(Seq::<char>::empty()) * 10 + n);
    } else {
        lemma_decimal_reads_back(n / 10);
        let d = decimal(n);
        let d0 = decimal(n / 10);
        assert(d.drop_last() =~= d0);
        assert(d.last() == digit_char(n % 10));
        assert(numeral_value(d) == numeral_value(d0) * 10 + n % 10);
        assert(d[0] == d0[0]);
        assert forall|i: int| 0 <= i < d.len() implies is_digit(#[trigger] d[i]) by {
            if i < d0.len() {
                assert(d[i] == d0[i]);
            }
        }
    }
}

/// The two backends agree on the size of a sample: the bytes per sample that the PipeWire
/// recorder reads are the bits per channel of the CoreAudio description, in whole bytes.
pub proof fn lemma_sample_bytes_agree(format: SampleFormat)
    ensures
        sample_bytes(format) == asbd_sample_bytes(format),
        format_bits(format) == 8 * sample_bytes(format),
{
}

/// The two backends agree on the size of a callback's buffer: `buffer_frames` frames of
/// the CoreAudio description's bytes per frame.
pub proof fn lemma_frame_size_agrees(config: CaptureConfig)
    requires
        asbd_fits(config),
    ensures
        frame_byte_count(config) == config.buffer_frames * asbd_of(config).bytes_per_frame,
        asbd_of(config).bytes_per_packet == asbd_of(config).bytes_per_frame,
{
    lemma_sample_bytes_agree(config.format);
    assert(config.buffer_frames * config.channels * sample_bytes(config.format)
        == config.buffer_frames * (sample_bytes(config.format) * config.channels))
        by (nonlinear_arith);
}

/// Distinct formats are negotiated under distinct names, with `pw-cat` and with `pacat`.
pub proof fn lemma_format_names_distinct(a: SampleFormat, b: SampleFormat)
    requires
        a != b,
    ensures
        pw_format_name(a) != pw_format_name(b),
        pa_format_name(a) != pa_format_name(b),
{
    reveal_strlit("s16");
    reveal_strlit("s24");
    reveal_strlit("s32");
    reveal_strlit("f32");
    reveal_strlit("s16le");
    reveal_strlit("s24le");
    reveal_strlit("s32le");
    reveal_strlit("float32le");
    if pw_format_name(a) == pw_format_name(b) {
        assert(pw_format_name(a)[0] == pw_format_name(b)[0]);
        assert(pw_format_name(a)[1] == pw_format_name(b)[1]);
    }
    if pa_format_name(a) == pa_format_name(b) {
        assert(pa_format_name(a).len() == pa_format_name(b).len());
        assert(pa_format_name(a)[0] == pa_format_name(b)[0]);
        assert(pa_format_name(a)[1] == pa_format_name(b)[1]);
    }
}

/// The monitor that a PulseAudio start records from (the default sink's, from
/// `detect_monitor_source`) is listed among the capture sources under the same id,
/// whenever the sink listing names the default sink.
pub proof fn lemma_default_monitor_is_listed(
    sources: Seq<CaptureSource>,
    listing: Seq<char>,
    default_sink: Seq<char>,
)
    requires
        are_monitors_of(sources, sink_names(listing)),
        sink_names(listing).contains(trim(default_sink)),
    ensures
        exists|i: int|
            0 <= i < sources.len() && (#[trigger] sources[i]).id@ == trim(default_sink)
                + ".monitor"@,
{
    let i = choose|i: int|
        0 <= i < sink_names(listing).len() && sink_names(listing)[i] == trim(default_sink);
    assert(sources[i].id@ == trim(default_sink) + ".monitor"@);
}

/// The frames `frames` joined end to end, in order.
pub open spec fn joined(frames: Seq<Seq<u8>>) -> Seq<u8>
    decreases frames.len(),
{
    if frames.len() == 0 {
        seq![]
    } else {
        joined(frames.drop_last()) + frames.last()
    }
}

/// Whether `frames` are the successive frames of `size` bytes that complete reads take from
/// the start of `stream` (what `read_exact` into a buffer of `size` bytes does).
pub open spec fn read_in_order(frames: Seq<Seq<u8>>, stream: Seq<u8>, size: nat) -> bool {
    &&& frames.len() * size <= stream.len()
    &&& forall|i: int|
        0 <= i < frames.len() ==> #[trigger] frames[i] == stream.subrange(i * size, (i + 1) * size)
}

proof fn lemma_joined_prefix(frames: Seq<Seq<u8>>, stream: Seq<u8>, size: nat)
    requires
        read_in_order(frames, stream, size),
    ensures
        joined(frames) == stream.take((frames.len() * size) as int),
    decreases frames.len(),
{
    let k: int = frames.len() as int;
    if k > 0 {
        let rest = frames.drop_last();
        assert((k - 1) * size <= k * size) by (nonlinear_arith)
            requires
                k >= 1,
        ;
        assert(k * size == (k - 1) * size + size) by (nonlinear_arith);
        assert forall|i: int| 0 <= i < rest.len() implies #[trigger] rest[i] == stream.subrange(
            i * size,
            (i + 1) * size,
        ) by {
            assert(rest[i] == frames[i]);
        }
        lemma_joined_prefix(rest, stream, size);
        assert(frames.last() == frames[k - 1]);
        assert(stream.take((k * size) as int) =~= stream.take((k - 1) * size) + stream.subrange(
            (k - 1) * size,
            (k * size) as int,
        ));
    } else {
        assert(stream.take(0) =~= Seq::<u8>::empty());
    }
}

/// The frames that a reader hands to the callback, joined in order, are a prefix of the
/// recorder's output made of whole frames: no byte dropped, doubled or reordered, and no
/// trailing partial frame (every frame has the reader's frame size), given that each read
/// filled its buffer with the next bytes of the output.
pub proof fn lemma_delivered_frames_are_stream_prefix(reader: FrameReader, stream: Seq<u8>)
    requires
        reader.wf(),
        read_in_order(reader.delivered@, stream, reader.frame_bytes as nat),
    ensures
        joined(reader.delivered@) == stream.take(reader.delivered@.len() * reader.frame_bytes),
        forall|i: int|
            0 <= i < reader.delivered@.len() ==> (#[trigger] reader.delivered@[i]).len()
                == reader.frame_bytes,
{
    lemma_joined_prefix(reader.delivered@, stream, reader.frame_bytes as nat);
}

/// After a start that launched capture, the next start is refused.
pub proof fn lemma_started_refuses_start(state: CaptureState)
    ensures
        start_refused(after_start(state, true)),
{
}

/// A start that did not launch capture leaves the state as it was.
pub proof fn lemma_failed_start_changes_nothing(state: CaptureState)
    ensures
        after_start(state, false) == state,
{
}

/// After `stop`, a start is not refused.
pub proof fn lemma_stopped_allows_start(state: CaptureState)
    ensures
        !start_refused(after_stop(state)),
{
}

/// A second `stop` changes nothing.
pub proof fn lemma_stop_is_idempotent(state: CaptureState)
    ensures
        after_stop(after_stop(state)) == after_stop(state),
{
}

/// The stream description describes the capture that was asked for: the config's rate
/// and channel count, whole bytes of 8 bits per sample of the format, and frames of one
/// sample per channel.
pub proof fn lemma_asbd_describes_config(config: CaptureConfig)
    requires
        asbd_fits(config),
    ensures
        asbd_of(config).sample_rate == config.sample_rate,
        asbd_of(config).channels_per_frame == config.channels,
        asbd_of(config).bits_per_channel == 8 * sample_bytes(config.format),
        asbd_of(config).bytes_per_frame * 8 == asbd_of(config).channels_per_frame * asbd_of(
            config,
        ).bits_per_channel,
        asbd_of(config).bytes_per_packet == asbd_of(config).bytes_per_frame,
        asbd_of(config).frames_per_packet == 1,
{
    lemma_sample_bytes_agree(config.format);
    let b = sample_bytes(config.format);
    assert(b * config.channels * 8 == config.channels * (8 * b)) by (nonlinear_arith);
}

/// A render hands the callback the most whole frames that it filled, and nothing where
/// the render failed (any nonzero status) or filled less than one frame.
pub proof fn lemma_delivery_is_whole_frames(status: i32, rendered_bytes: u32, bytes_per_frame: u32)
    ensures
        status != 0 ==> delivery_len(status, rendered_bytes, bytes_per_frame) is None,
        delivery_len(status, rendered_bytes, bytes_per_frame) matches Some(n) ==> {
            &&& n % (bytes_per_frame as nat) == 0
            &&& 0 < n <= rendered_bytes
            &&& rendered_bytes - n < bytes_per_frame
        },
        status == 0 && 0 < bytes_per_frame <= rendered_bytes ==> delivery_len(
            status,
            rendered_bytes,
            bytes_per_frame,
        ) is Some,
{
    if status == 0 && bytes_per_frame > 0 {
        let r = rendered_bytes as int;
        let f = bytes_per_frame as int;
        assert((r - r % f) % f == 0 && 0 <= r % f < f && r % f <= r && (r >= f ==> r - r % f > 0))
            by (nonlinear_arith)
            requires
                f > 0,
                r >= 0,
        ;
        let whole = (rendered_bytes - rendered_bytes % bytes_per_frame) as nat;
        assert(rendered_bytes % bytes_per_frame == r % f);
        assert(whole == r - r % f);
        assert(whole % (bytes_per_frame as nat) == (r - r % f) % f);
    }
}

/// Signed decimal rendering is the usual numeral: a `-` before the magnitude's digits for
/// a negative number, the digits alone otherwise; reading it back gives the number.
pub proof fn lemma_signed_decimal_reads_back(i: int)
    ensures
        i < 0 ==> signed_decimal(i)[0] == '-' && numeral_value(signed_decimal(i).drop_first())
            == -i,
        i >= 0 ==> numeral_value(signed_decimal(i)) == i && is_digit(signed_decimal(i)[0]),
{
    if i < 0 {
        lemma_decimal_reads_back((-i) as nat);
        assert(signed_decimal(i).drop_first() =~= decimal((-i) as nat));
    } else {
        lemma_decimal_reads_back(i as nat);
    }
}

/// The value that follows the first `flag` among the command-line arguments `args`.
pub open spec fn value_after(args: Seq<Seq<char>>, flag: Seq<char>) -> Option<Seq<char>>
    decreases args.len(),
{
    if args.len() < 2 {
        None
    } else if args[0] == flag {
        Some(args[1])
    } else {
        value_after(args.drop_first(), flag)
    }
}

proof fn lemma_literal_lengths()
    ensures
        "--record"@.len() == 8,
        "--format"@.len() == 8,
        "--rate"@.len() == 6,
        "--channels"@.len() == 10,
        "--device"@.len() == 8,
        "--channels"@[0] == '-',
        "--device"@[0] == '-',
        "--format"@ != "--record"@,
        "--device"@ != "--record"@,
        "--device"@ != "--format"@,
        "--device"@ != "--rate"@,
        "--device"@ != "--channels"@,
        forall|f: SampleFormat| (#[trigger] pw_format_name(f)).len() == 3,
        forall|f: SampleFormat| (#[trigger] pa_format_name(f)).len() == 5 || pa_format_name(f).len() == 9,
{
    reveal_strlit("--record");
    reveal_strlit("--format");
    reveal_strlit("--rate");
    reveal_strlit("--channels");
    reveal_strlit("--device");
    reveal_strlit("s16");
    reveal_strlit("s24");
    reveal_strlit("s32");
    reveal_strlit("f32");
    reveal_strlit("s16le");
    reveal_strlit("s24le");
    reveal_strlit("s32le");
    reveal_strlit("float32le");
    assert("--device"@[2] != "--record"@[2]);
    assert("--format"@[2] != "--record"@[2]);
    assert("--device"@[2] != "--format"@[2]);
}

/// `pw-cat` records in the format, at the rate and with the channel count that were asked
/// for: the values of its `--format`, `--rate` and `--channels` options are the format's
/// name and the decimal numerals of the rate and the channel count.
pub proof fn lemma_pw_cat_records_what_was_asked(config: CaptureConfig)
    ensures
        value_after(pw_cat_args(config), "--format"@) == Some(pw_format_name(config.format)),
        value_after(pw_cat_args(config), "--rate"@) == Some(decimal(config.sample_rate as nat)),
        value_after(pw_cat_args(config), "--channels"@) == Some(decimal(config.channels as nat)),
        numeral_value(value_after(pw_cat_args(config), "--rate"@)->0) == config.sample_rate,
        numeral_value(value_after(pw_cat_args(config), "--channels"@)->0) == config.channels,
{
    lemma_literal_lengths();
    lemma_decimal_reads_back(config.sample_rate as nat);
    lemma_decimal_reads_back(config.channels as nat);
    let args = pw_cat_args(config);
    assert(decimal(config.sample_rate as nat) != "--channels"@) by {
        assert(is_digit(decimal(config.sample_rate as nat)[0]));
    }
    reveal_with_fuel(value_after, 8);
    assert(args.drop_first().drop_first().drop_first() =~= args.subrange(3, 10));
    assert(args.subrange(3, 10).drop_first().drop_first() =~= args.subrange(5, 10));
}

/// `pacat` records in the format, at the rate and with the channel count that were asked
/// for, from the given device: the values of its `--format`, `--rate`, `--channels` and
/// `--device` options.
pub proof fn lemma_pacat_records_what_was_asked(config: CaptureConfig, device: Seq<char>)
    ensures
        value_after(pacat_args(config, device), "--format"@) == Some(pa_format_name(config.format)),
        value_after(pacat_args(config, device), "--rate"@) == Some(decimal(config.sample_rate as nat)),
        value_after(pacat_args(config, device), "--channels"@) == Some(
            decimal(config.channels as nat),
        ),
        value_after(pacat_args(config, device), "--device"@) == Some(device),
        numeral_value(value_after(pacat_args(config, device), "--rate"@)->0) == config.sample_rate,
        numeral_value(value_after(pacat_args(config, device), "--channels"@)->0) == config.channels,
{
    lemma_literal_lengths();
    lemma_decimal_reads_back(config.sample_rate as nat);
    lemma_decimal_reads_back(config.channels as nat);
    let args = pacat_args(config, device);
    assert(decimal(config.sample_rate as nat) != "--channels"@) by {
        assert(is_digit(decimal(config.sample_rate as nat)[0]));
    }
    assert(decimal(config.sample_rate as nat) != "--device"@) by {
        assert(is_digit(decimal(config.sample_rate as nat)[0]));
    }
    assert(decimal(config.channels as nat) != "--device"@) by {
        assert(is_digit(decimal(config.channels as nat)[0]));
    }
    reveal_with_fuel(value_after, 9);
    assert(args.drop_first().drop_first().drop_first() =~= args.subrange(3, 10));
    assert(args.subrange(3, 10).drop_first().drop_first() =~= args.subrange(5, 10));
    assert(args.subrange(5, 10).drop_first().drop_first() =~= args.subrange(7, 10));
}

/// `lines` joined back, with a `\n` between each two.
pub open spec fn rejoined(lines: Seq<Seq<char>>) -> Seq<char>
    decreases lines.len(),
{
    if lines.len() == 0 {
        seq![]
    } else if lines.len() == 1 {
        lines[0]
    } else {
        lines[0] + seq!['\n'] + rejoined(lines.drop_first())
    }
}

/// Lines hold no `\n`, and (for text without carriage returns) joining them back with `\n`
/// gives the text again, less the `\n` that may end it.
pub proof fn lemma_lines_rejoin(s: Seq<char>)
    requires
        forall|k: int| 0 <= k < s.len() ==> s[k] != '\r',
    ensures
        forall|i: int, k: int|
            0 <= i < lines(s).len() && 0 <= k < lines(s)[i].len() ==> #[trigger] lines(s)[i][k]
                != '\n',
        s.len() > 0 && s.last() == '\n' ==> rejoined(lines(s)) + seq!['\n'] == s,
        !(s.len() > 0 && s.last() == '\n') ==> rejoined(lines(s)) == s,
        s.len() > 0 ==> lines(s).len() > 0,
    decreases s.len(),
{
    if s.len() > 0 {
        let i = find(s, '\n');
        lemma_find_bound(s, '\n');
        if i < s.len() {
            let first = s.take(i as int);
            let rest = s.skip(i + 1int);
            assert(forall|k: int| 0 <= k < rest.len() ==> rest[k] == s[k + i + 1]);
            lemma_lines_rejoin(rest);
            if first.len() > 0 {
                assert(first.last() == s[i - 1]);
            }
            assert(strip_cr(first) == first);
            let ls = lines(s);
            assert(ls == seq![first] + lines(rest));
            assert forall|j: int, k: int| 0 <= j < ls.len() && 0 <= k < ls[j].len() implies #[trigger] ls[j][k]
                != '\n' by {
                if j == 0 {
                    assert(ls[0][k] == s[k]);
                } else {
                    assert(ls[j] == lines(rest)[j - 1]);
                }
            }
            if rest.len() == 0 {
                assert(ls =~= seq![first]);
                assert(i == s.len() - 1);
                assert(first + seq!['\n'] =~= s);
            } else {
                assert(ls.drop_first() =~= lines(rest));
                assert(rest.last() == s.last());
                if s.last() == '\n' {
                    assert(first + seq!['\n'] + (rejoined(lines(rest)) + seq!['\n']) =~= s);
                    assert(rejoined(ls) + seq!['\n'] =~= first + seq!['\n'] + (rejoined(lines(rest))
                        + seq!['\n']));
                } else {
                    assert(first + seq!['\n'] + rest =~= s);
                }
            }
        } else {
            assert(lines(s) =~= seq![s]);
            assert forall|j: int, k: int|
                0 <= j < lines(s).len() && 0 <= k < lines(s)[j].len() implies #[trigger] lines(
                s,
            )[j][k] != '\n' by {
                assert(lines(s)[j] == s);
            }
        }
    }
}

/// A line has two tab-separated fields exactly when it holds a tab; its second field is
/// what lies between its first tab and the next tab (or the line's end).
pub proof fn lemma_second_field_between_tabs(line: Seq<char>) -> (bounds: (int, int))
    ensures
        has_two_fields(line) <==> exists|k: int| 0 <= k < line.len() && line[k] == '\t',
        has_two_fields(line) ==> {
            let (t, u) = bounds;
            &&& 0 <= t < u <= line.len()
            &&& line[t] == '\t'
            &&& forall|k: int| 0 <= k < t ==> line[k] != '\t'
            &&& second_field(line) == line.subrange(t + 1, u)
            &&& forall|k: int| t < k < u ==> line[k] != '\t'
            &&& u == line.len() || line[u] == '\t'
        },
{
    lemma_find_bound(line, '\t');
    let t = find(line, '\t') as int;
    if has_two_fields(line) {
        let rest = line.skip(t + 1);
        lemma_find_bound(rest, '\t');
        let f = find(rest, '\t') as int;
        let u = t + 1 + f;
        assert forall|k: int| t < k < u implies line[k] != '\t' by {
            assert(line[k] == rest[k - t - 1]);
        }
        if u < line.len() {
            assert(line[u] == rest[f]);
        }
        assert(second_field(line) =~= line.subrange(t + 1, u));
        (t, u)
    } else {
        (0, 0)
    }
}

/// The sinks of a listing are the second fields of all its lines that have two fields,
/// one for each such line, in order.
pub proof fn lemma_sink_names_cover_every_line(listing: Seq<char>)
    ensures
        sink_names(listing).len() == lines(listing).filter(
            |line: Seq<char>| has_two_fields(line),
        ).len(),
        forall|i: int|
            0 <= i < sink_names(listing).len() ==> #[trigger] sink_names(listing)[i]
                == second_field(lines(listing).filter(|line: Seq<char>| has_two_fields(line))[i]),
{
}

/// `trim` removes exactly the white space at both ends: it is a contiguous part of the
/// text, everything outside it is white space, and it neither starts nor ends with white
/// space.
pub proof fn lemma_trim_removes_outer_white_space(s: Seq<char>) -> (bounds: (int, int))
    ensures
        0 <= bounds.0 <= bounds.1 <= s.len(),
        trim(s) == s.subrange(bounds.0, bounds.1),
        forall|k: int| 0 <= k < bounds.0 ==> is_white_space(#[trigger] s[k]),
        forall|k: int| bounds.1 <= k < s.len() ==> is_white_space(#[trigger] s[k]),
        trim(s).len() > 0 ==> !is_white_space(trim(s)[0]) && !is_white_space(trim(s).last()),
{
    let i = lemma_trim_start_skip_shape(s);
    let rest = s.skip(i);
    let j = lemma_trim_end_take_shape(rest);
    assert(rest.take(j) =~= s.subrange(i, i + j));
    assert forall|k: int| i + j <= k < s.len() implies is_white_space(#[trigger] s[k]) by {
        assert(s[k] == rest[k - i]);
    }
    if j > 0 {
        assert(trim(s)[0] == rest[0]);
    }
    (i, i + j)
}

proof fn lemma_trim_start_skip_shape(s: Seq<char>) -> (i: int)
    ensures
        0 <= i <= s.len(),
        trim_start(s) == s.skip(i),
        forall|k: int| 0 <= k < i ==> is_white_space(#[trigger] s[k]),
        i < s.len() ==> !is_white_space(s[i]),
    decreases s.len(),
{
    if s.len() > 0 && is_white_space(s[0]) {
        let i0 = lemma_trim_start_skip_shape(s.drop_first());
        assert(s.drop_first().skip(i0) =~= s.skip(i0 + 1));
        assert forall|k: int| 0 <= k < i0 + 1 implies is_white_space(#[trigger] s[k]) by {
            if k > 0 {
                assert(s[k] == s.drop_first()[k - 1]);
            }
        }
        if i0 + 1 < s.len() {
            assert(s[i0 + 1] == s.drop_first()[i0]);
        }
        i0 + 1
    } else {
        assert(s.skip(0) =~= s);
        0
    }
}

proof fn lemma_trim_end_take_shape(s: Seq<char>) -> (j: int)
    ensures
        0 <= j <= s.len(),
        trim_end(s) == s.take(j),
        forall|k: int| j <= k < s.len() ==> is_white_space(#[trigger] s[k]),
        j > 0 ==> !is_white_space(s[j - 1]),
    decreases s.len(),
{
    if s.len() > 0 && is_white_space(s.last()) {
        let j0 = lemma_trim_end_take_shape(s.drop_last());
        assert(s.drop_last().take(j0) =~= s.take(j0));
        assert forall|k: int| j0 <= k < s.len() implies is_white_space(#[trigger] s[k]) by {
            if k < s.len() - 1 {
                assert(s[k] == s.drop_last()[k]);
            }
        }
        if j0 > 0 {
            assert(s[j0 - 1] == s.drop_last()[j0 - 1]);
        }
        j0
    } else {
        assert(s.take(s.len() as int) =~= s);
        s.len() as int
    }
}

/// The format names spell out the format: `s` (signed integer) or `f` (float) and the bits
/// per sample for `pw-cat`; `s` or `float`, the bits, and `le` (little-endian) for `pacat`.
pub proof fn lemma_format_names_spell_the_format(format: SampleFormat)
    ensures
        pw_format_name(format) == seq![
            if format == SampleFormat::F32LE {
                'f'
            } else {
                's'
            },
        ] + decimal(format_bits(format)),
        pa_format_name(format) == (if format == SampleFormat::F32LE {
            "float"@
        } else {
            "s"@
        }) + decimal(format_bits(format)) + "le"@,
{
    reveal_strlit("s16");
    reveal_strlit("s24");
    reveal_strlit("s32");
    reveal_strlit("f32");
    reveal_strlit("s16le");
    reveal_strlit("s24le");
    reveal_strlit("s32le");
    reveal_strlit("float32le");
    reveal_strlit("float");
    reveal_strlit("s");
    reveal_strlit("le");
    reveal_with_fuel(decimal, 2);
    assert(pw_format_name(format) =~= seq![
        if format == SampleFormat::F32LE {
            'f'
        } else {
            's'
        },
    ] + decimal(format_bits(format)));
    assert(pa_format_name(format) =~= (if format == SampleFormat::F32LE {
        "float"@
    } else {
        "s"@
    }) + decimal(format_bits(format)) + "le"@);
}

/// A failed CoreAudio call reports its status as a decimal numeral at the end of its
/// message, and undoes what the start has built: nothing before the unit exists, the unit
/// once it exists, and its initialization too once the unit has been initialized.
pub proof fn lemma_setup_failure_reports_and_cleans_up(phase: SetupPhase, status: i32) -> (prefix:
    Seq<char>)
    requires
        setup_progress(SetupPhase::CreatingInstance) <= setup_progress(phase) <= setup_progress(
            SetupPhase::Starting,
        ),
        phase != SetupPhase::QueryingDevice,
    ensures
        setup_failure(phase, status).0 == prefix + signed_decimal(status as int),
        setup_progress(phase) <= setup_progress(SetupPhase::CreatingInstance)
            ==> setup_failure(phase, status).1 == Cleanup::Nothing,
        setup_progress(SetupPhase::CreatingInstance) < setup_progress(phase) < setup_progress(
            SetupPhase::Starting,
        ) ==> setup_failure(phase, status).1 == Cleanup::Dispose,
        setup_progress(phase) == setup_progress(SetupPhase::Starting) ==> setup_failure(
            phase,
            status,
        ).1 == Cleanup::UninitializeAndDispose,
{
    let m = setup_failure(phase, status).0;
    let n = signed_decimal(status as int);
    let p = m.take(m.len() - n.len());
    assert(m =~= p + n);
    p
}

} // verus!
