//! The encode plan: validating an export request into a resolved plan, and the
//! exact ffmpeg argument vector that re-encodes the master WAV into the
//! delivery format. Nothing here spawns a process.

use vstd::prelude::*;

use super::format::{extension_of, needs_encoder, ExportFormat};
use crate::text::{decimal, decimal_string, lemma_decimal_parses_back, parsed_u64, push_char, push_decimal};

verus! {

/// Sample rates allowed for export, in Hz.
pub const ALLOWED_SAMPLE_RATES: [u32; 2] = [44_100, 48_000];

/// Lowest lossy bitrate accepted (kbps).
pub const MIN_BITRATE_KBPS: u32 = 64;

/// Highest lossy bitrate accepted (kbps).
pub const MAX_BITRATE_KBPS: u32 = 320;

/// Whether a format encodes losslessly (WAV and FLAC).
pub open spec fn lossless(f: ExportFormat) -> bool {
    f == ExportFormat::Wav || f == ExportFormat::Flac
}

/// The ffmpeg audio codec (`-c:a` value) of a format.
pub open spec fn codec_of(f: ExportFormat) -> Seq<char> {
    match f {
        ExportFormat::Wav => "pcm_s24le"@,
        ExportFormat::Mp3 => "libmp3lame"@,
        ExportFormat::Aac => "aac"@,
        ExportFormat::Flac => "flac"@,
    }
}

/// Whether a format encodes losslessly (no bitrate; a compression knob instead).
pub fn is_lossless(format: ExportFormat) -> (b: bool)
    ensures
        b == lossless(format),
{
    match format {
        ExportFormat::Wav | ExportFormat::Flac => true,
        _ => false,
    }
}

/// The ffmpeg audio codec for a format.
pub fn ffmpeg_codec(format: ExportFormat) -> (c: &'static str)
    ensures
        c@ == codec_of(format),
{
    match format {
        ExportFormat::Wav => "pcm_s24le",
        ExportFormat::Mp3 => "libmp3lame",
        ExportFormat::Aac => "aac",
        ExportFormat::Flac => "flac",
    }
}

/// A problem with an export request, caught before any process spawn.
#[derive(Debug, Clone, PartialEq, Eq, Structural)]
pub enum EncodePlanError {
    /// Channels was not 1 (mono) or 2 (stereo).
    BadChannels(u16),
    /// Sample rate is not one of the allowed rates.
    BadSampleRate(u32),
    /// A bitrate was supplied for a lossless format.
    BitrateOnLossless(u32),
    /// A lossy format is missing its bitrate.
    MissingBitrate,
    /// Bitrate fell outside the accepted range.
    BitrateOutOfRange(u32),
}

/// The first problem with an export request, checked in order: channels,
/// sample rate, then the bitrate rules of the format; `None` when it is valid.
pub open spec fn plan_problem(
    format: ExportFormat,
    bitrate_kbps: Option<u32>,
    channels: u16,
    sample_rate: u32,
) -> Option<EncodePlanError> {
    if channels != 1 && channels != 2 {
        Some(EncodePlanError::BadChannels(channels))
    } else if sample_rate != 44_100 && sample_rate != 48_000 {
        Some(EncodePlanError::BadSampleRate(sample_rate))
    } else if lossless(format) {
        match bitrate_kbps {
            Some(b) => Some(EncodePlanError::BitrateOnLossless(b)),
            None => None,
        }
    } else {
        match bitrate_kbps {
            None => Some(EncodePlanError::MissingBitrate),
            Some(b) => if b < 64 || b > 320 {
                Some(EncodePlanError::BitrateOutOfRange(b))
            } else {
                None
            },
        }
    }
}

/// The human-readable text of a plan problem.
pub open spec fn plan_problem_message(e: EncodePlanError) -> Seq<char> {
    match e {
        EncodePlanError::BadChannels(c) => "channels must be 1 (mono) or 2 (stereo), got "@
            + decimal(c as nat),
        EncodePlanError::BadSampleRate(r) => "sample rate must be 44100 or 48000 Hz, got "@
            + decimal(r as nat),
        EncodePlanError::BitrateOnLossless(b) => "lossless format takes no bitrate (got "@
            + decimal(b as nat) + " kbps)"@,
        EncodePlanError::MissingBitrate => "lossy format needs a bitrate"@,
        EncodePlanError::BitrateOutOfRange(b) => "bitrate must be 64–320 kbps, got "@ + decimal(
            b as nat,
        ),
    }
}

impl EncodePlanError {
    /// The human-readable text of this problem.
    pub fn message(&self) -> (m: String)
        ensures
            m@ == plan_problem_message(*self),
    {
        match self {
            EncodePlanError::BadChannels(c) => {
                let mut m = "channels must be 1 (mono) or 2 (stereo), got ".to_string();
                push_decimal(&mut m, *c as u64);
                m
            },
            EncodePlanError::BadSampleRate(r) => {
                let mut m = "sample rate must be 44100 or 48000 Hz, got ".to_string();
                push_decimal(&mut m, *r as u64);
                m
            },
            EncodePlanError::BitrateOnLossless(b) => {
                let mut m = "lossless format takes no bitrate (got ".to_string();
                push_decimal(&mut m, *b as u64);
                m.append(" kbps)");
                m
            },
            EncodePlanError::MissingBitrate => "lossy format needs a bitrate".to_string(),
            EncodePlanError::BitrateOutOfRange(b) => {
                let mut m = "bitrate must be 64–320 kbps, got ".to_string();
                push_decimal(&mut m, *b as u64);
                m
            },
        }
    }
}

/// A fully-resolved, validated encode plan.
#[derive(Debug, Clone, PartialEq, Eq)]
pub struct EncodePlan {
    pub format: ExportFormat,
    /// 1 = mono, 2 = stereo.
    pub channels: u16,
    pub sample_rate: u32,
    /// kbps for lossy formats; `None` for WAV/FLAC.
    pub bitrate_kbps: Option<u32>,
    /// ffmpeg `-c:a` codec name.
    pub codec: &'static str,
    /// True when the master WAV must be re-encoded.
    pub requires_encoder: bool,
    /// File extension (no dot).
    pub extension: &'static str,
}

/// `p` is the resolved plan of a valid request.
pub open spec fn resolves(
    p: EncodePlan,
    format: ExportFormat,
    bitrate_kbps: Option<u32>,
    channels: u16,
    sample_rate: u32,
) -> bool {
    &&& p.format == format
    &&& p.channels == channels
    &&& p.sample_rate == sample_rate
    &&& p.bitrate_kbps == bitrate_kbps
    &&& p.codec@ == codec_of(format)
    &&& p.requires_encoder == needs_encoder(format)
    &&& p.extension@ == extension_of(format)
}

/// An export request is planned exactly when it is mono or stereo, at
/// 44.1 kHz or 48 kHz whatever the format, with no bitrate for a lossless
/// format (WAV, FLAC) and a bitrate of 64 to 320 kbps for a lossy one (MP3,
/// AAC); every other request has a problem.
pub proof fn lemma_plan_accepts_exactly_valid_requests(
    format: ExportFormat,
    bitrate_kbps: Option<u32>,
    channels: u16,
    sample_rate: u32,
)
    ensures
        plan_problem(format, bitrate_kbps, channels, sample_rate) is None <==> ((channels == 1
            || channels == 2) && (sample_rate == 44_100 || sample_rate == 48_000) && (if format
            == ExportFormat::Wav || format == ExportFormat::Flac {
            bitrate_kbps is None
        } else {
            bitrate_kbps matches Some(b) && 64 <= b <= 320
        })),
{
}

/// Validate a format, bitrate, channel count and sample rate into an
/// [`EncodePlan`], or return the first problem found.
pub fn plan_encode(
    format: ExportFormat,
    bitrate_kbps: Option<u32>,
    channels: u16,
    sample_rate: u32,
) -> (r: Result<EncodePlan, EncodePlanError>)
    ensures
        match r {
            Ok(p) => plan_problem(format, bitrate_kbps, channels, sample_rate) is None && resolves(
                p,
                format,
                bitrate_kbps,
                channels,
                sample_rate,
            ),
            Err(e) => plan_problem(format, bitrate_kbps, channels, sample_rate) == Some(e),
        },
        r is Ok <==> ((channels == 1 || channels == 2) && (sample_rate == 44_100 || sample_rate
            == 48_000) && (if format == ExportFormat::Wav || format == ExportFormat::Flac {
            bitrate_kbps is None
        } else {
            bitrate_kbps matches Some(b) && 64 <= b <= 320
        })),
        r matches Ok(p) ==> p.format == format && p.channels == channels && p.sample_rate
            == sample_rate && p.bitrate_kbps == bitrate_kbps,
{
    proof {
        lemma_plan_accepts_exactly_valid_requests(format, bitrate_kbps, channels, sample_rate);
    }
    if channels != 1 && channels != 2 {
        return Err(EncodePlanError::BadChannels(channels));
    }
    if sample_rate != ALLOWED_SAMPLE_RATES[0] && sample_rate != ALLOWED_SAMPLE_RATES[1] {
        return Err(EncodePlanError::BadSampleRate(sample_rate));
    }
    let effective_bitrate = if is_lossless(format) {
        if let Some(b) = bitrate_kbps {
            return Err(EncodePlanError::BitrateOnLossless(b));
        }
        None
    } else {
        match bitrate_kbps {
            None => {
                return Err(EncodePlanError::MissingBitrate);
            },
            Some(b) => {
                if b < MIN_BITRATE_KBPS || b > MAX_BITRATE_KBPS {
                    return Err(EncodePlanError::BitrateOutOfRange(b));
                }
                Some(b)
            },
        }
    };
    Ok(
        EncodePlan {
            format,
            channels,
            sample_rate,
            bitrate_kbps: effective_bitrate,
            codec: ffmpeg_codec(format),
            requires_encoder: format.requires_encoder(),
            extension: format.extension(),
        },
    )
}

/// The ffmpeg argument vector that re-encodes the master WAV at `input` into
/// the plan's format at `output`:
/// `-y -i <in> -c:a <codec> [-b:a <k>k] [-compression_level 8] -ar <rate> -ac <ch> <out>`.
pub open spec fn ffmpeg_args(plan: EncodePlan, input: Seq<char>, output: Seq<char>) -> Seq<
    Seq<char>,
> {
    seq!["-y"@, "-i"@, input, "-c:a"@, plan.codec@] + (match plan.bitrate_kbps {
        Some(b) => seq!["-b:a"@, decimal(b as nat) + "k"@],
        None => Seq::empty(),
    }) + (if plan.format == ExportFormat::Flac {
        seq!["-compression_level"@, "8"@]
    } else {
        Seq::empty()
    }) + seq!["-ar"@, decimal(plan.sample_rate as nat), "-ac"@, decimal(plan.channels as nat), output]
}

/// `a` is an encoder argument list for `plan` from `input` to `output`, read
/// by position: it opens `-y -i <input> -c:a <codec>`, a bitrate, when the
/// plan has one, follows as `-b:a <kbps>k`, and it closes
/// `-ar <rate> -ac <channels> <output>`, each number written so that it reads
/// back as the plan's own value.
pub open spec fn carries_plan(a: Seq<Seq<char>>, plan: EncodePlan, input: Seq<char>, output: Seq<
    char,
>) -> bool {
    let n = a.len();
    &&& n >= 10
    &&& a[0] == "-y"@ && a[1] == "-i"@ && a[2] == input && a[3] == "-c:a"@
    &&& a[4] == plan.codec@
    &&& a[n - 5] == "-ar"@ && parsed_u64(a[n - 4]) == Some(plan.sample_rate as u64)
    &&& a[n - 3] == "-ac"@ && parsed_u64(a[n - 2]) == Some(plan.channels as u64)
    &&& a[n - 1] == output
    &&& (plan.bitrate_kbps matches Some(b) ==> a[5] == "-b:a"@ && a[6].last() == 'k' && parsed_u64(
        a[6].drop_last(),
    ) == Some(b as u64))
}

/// The encoder is told exactly what the plan says: in the argument list, the
/// value after `-ac` reads back as the plan's channel count, the value after
/// `-ar` as its sample rate and the `-b:a` value as its bitrate, between the
/// input and the output paths.
pub proof fn lemma_ffmpeg_args_carry_the_plan(plan: EncodePlan, input: Seq<char>, output: Seq<char>)
    ensures
        carries_plan(ffmpeg_args(plan, input, output), plan, input, output),
{
    reveal_strlit("k");
    lemma_decimal_parses_back(plan.sample_rate as u64);
    lemma_decimal_parses_back(plan.channels as u64);
    let a = ffmpeg_args(plan, input, output);
    let head = seq!["-y"@, "-i"@, input, "-c:a"@, plan.codec@];
    let rate = match plan.bitrate_kbps {
        Some(b) => seq!["-b:a"@, decimal(b as nat) + "k"@],
        None => Seq::empty(),
    };
    let level = if plan.format == ExportFormat::Flac {
        seq!["-compression_level"@, "8"@]
    } else {
        Seq::empty()
    };
    let tail = seq!["-ar"@, decimal(plan.sample_rate as nat), "-ac"@, decimal(plan.channels as nat), output];
    assert(a == head + rate + level + tail);
    let n = a.len();
    assert(a[n - 5] == tail[0]);
    assert(a[n - 4] == tail[1]);
    assert(a[n - 3] == tail[2]);
    assert(a[n - 2] == tail[3]);
    assert(a[n - 1] == tail[4]);
    if let Some(b) = plan.bitrate_kbps {
        lemma_decimal_parses_back(b as u64);
        assert(a[5] == rate[0]);
        assert(a[6] == rate[1]);
        assert((decimal(b as nat) + "k"@).drop_last() =~= decimal(b as nat));
    }
}

/// The views of a list of strings.
pub open spec fn string_views(v: Seq<String>) -> Seq<Seq<char>> {
    v.map_values(|s: String| s@)
}

fn push_arg(args: &mut Vec<String>, a: String)
    ensures
        string_views(final(args)@) == string_views(old(args)@).push(a@),
{
    args.push(a);
    assert(string_views(args@) =~= string_views(old(args)@).push(a@));
}

/// Build the ffmpeg argument vector for `plan`. A WAV plan is written natively
/// and never goes through the encoder, so it has no arguments (`None`).
pub fn build_ffmpeg_args(plan: &EncodePlan, input: &str, output: &str) -> (r: Option<Vec<String>>)
    ensures
        plan.format == ExportFormat::Wav ==> r is None,
        plan.format != ExportFormat::Wav ==> (r matches Some(v) && string_views(v@) == ffmpeg_args(
            *plan,
            input@,
            output@,
        )),
        r matches Some(v) ==> carries_plan(string_views(v@), *plan, input@, output@),
{
    proof {
        lemma_ffmpeg_args_carry_the_plan(*plan, input@, output@);
    }
    if plan.format == ExportFormat::Wav {
        return None;
    }
    let mut args: Vec<String> = Vec::new();
    push_arg(&mut args, "-y".to_string());
    push_arg(&mut args, "-i".to_string());
    push_arg(&mut args, input.to_string());
    push_arg(&mut args, "-c:a".to_string());
    push_arg(&mut args, plan.codec.to_string());
    let ghost head = string_views(args@);
    assert(head =~= seq!["-y"@, "-i"@, input@, "-c:a"@, plan.codec@]);
    if let Some(b) = plan.bitrate_kbps {
        push_arg(&mut args, "-b:a".to_string());
        let mut k = decimal_string(b as u64);
        push_char(&mut k, 'k');
        proof {
            reveal_strlit("k");
            assert(k@ =~= decimal(b as nat) + "k"@);
        }
        push_arg(&mut args, k);
    }
    let ghost with_bitrate = string_views(args@);
    assert(with_bitrate =~= head + (match plan.bitrate_kbps {
        Some(b) => seq!["-b:a"@, decimal(b as nat) + "k"@],
        None => Seq::empty(),
    }));
    if plan.format == ExportFormat::Flac {
        push_arg(&mut args, "-compression_level".to_string());
        push_arg(&mut args, "8".to_string());
    }
    let ghost with_level = string_views(args@);
    assert(with_level =~= with_bitrate + (if plan.format == ExportFormat::Flac {
        seq!["-compression_level"@, "8"@]
    } else {
        Seq::empty()
    }));
    push_arg(&mut args, "-ar".to_string());
    push_arg(&mut args, decimal_string(plan.sample_rate as u64));
    push_arg(&mut args, "-ac".to_string());
    push_arg(&mut args, decimal_string(plan.channels as u64));
    push_arg(&mut args, output.to_string());
    assert(string_views(args@) =~= ffmpeg_args(*plan, input@, output@));
    Some(args)
}

} // verus!

verus! {

/// What can go wrong when actually invoking the encoder.
#[derive(Debug)]
pub enum EncodeError {
    /// The ffmpeg binary could not be launched.
    FfmpegUnavailable(String),
    /// ffmpeg ran but exited non-zero; carries its captured stderr tail.
    FfmpegFailed { status: Option<i32>, stderr: String },
}

/// The longest stderr tail kept in an error, in characters.
pub const STDERR_TAIL_CHARS: usize = 600;

/// The last `STDERR_TAIL_CHARS` characters of `s` (all of it when shorter).
pub open spec fn stderr_tail_of(s: Seq<char>) -> Seq<char> {
    if s.len() <= 600 {
        s
    } else {
        s.subrange(s.len() - 600, s.len() as int)
    }
}

/// Keep only the tail of ffmpeg's stderr, so a chatty encoder never puts
/// megabytes into an error message.
pub fn stderr_tail(stderr: &str) -> (t: String)
    ensures
        t@ == stderr_tail_of(stderr@),
{
    let n = stderr.unicode_len();
    if n <= STDERR_TAIL_CHARS {
        return stderr.to_string();
    }
    stderr.substring_char(n - STDERR_TAIL_CHARS, n).to_string()
}

/// The decimal representation of a signed 32-bit number.
pub open spec fn signed_decimal(n: i32) -> Seq<char> {
    if n < 0 {
        seq!['-'] + decimal((-n) as nat)
    } else {
        decimal(n as nat)
    }
}

/// How an exit status reads in the error text: `Some(<code>)` or `None`.
pub open spec fn status_text(status: Option<i32>) -> Seq<char> {
    match status {
        Some(c) => "Some("@ + signed_decimal(c) + ")"@,
        None => "None"@,
    }
}

/// The human-readable text of an encode failure.
pub open spec fn encode_error_message(e: EncodeError) -> Seq<char> {
    match e {
        EncodeError::FfmpegUnavailable(m) => "ffmpeg unavailable: "@ + m@,
        EncodeError::FfmpegFailed { status, stderr } => "ffmpeg exited "@ + status_text(status)
            + ": "@ + stderr@,
    }
}

impl EncodeError {
    /// The human-readable text of this failure.
    pub fn message(&self) -> (m: String)
        ensures
            m@ == encode_error_message(*self),
    {
        match self {
            EncodeError::FfmpegUnavailable(e) => {
                let mut m = "ffmpeg unavailable: ".to_string();
                m.append(e.as_str());
                m
            },
            EncodeError::FfmpegFailed { status, stderr } => {
                let mut m = "ffmpeg exited ".to_string();
                match status {
                    Some(c) => {
                        m.append("Some(");
                        if *c < 0 {
                            push_char(&mut m, '-');
                            let mag: u64 = if *c == i32::MIN {
                                2147483648u64
                            } else {
                                (-*c) as u64
                            };
                            push_decimal(&mut m, mag);
                        } else {
                            push_decimal(&mut m, *c as u64);
                        }
                        m.append(")");
                    },
                    None => {
                        m.append("None");
                    },
                }
                m.append(": ");
                m.append(stderr.as_str());
                assert(m@ =~= encode_error_message(*self));
                m
            },
        }
    }
}

/// Every export preset is a valid encode request at either export sample rate:
/// picking a preset can never fail plan validation.
pub proof fn lemma_every_export_preset_is_encodable(i: int, sample_rate: u32)
    requires
        0 <= i < super::format::preset_catalogue().len(),
        sample_rate == 44_100 || sample_rate == 48_000,
    ensures
        ({
            let e = super::format::preset_catalogue()[i];
            plan_problem(e.format, e.bitrate_kbps, e.channels, sample_rate) is None
        }),
{
}

/// A plan needs the encoder exactly when the preset it came from says so, and
/// exactly when it has ffmpeg arguments.
pub proof fn lemma_plan_agrees_with_preset(
    p: EncodePlan,
    i: int,
    sample_rate: u32,
)
    requires
        0 <= i < super::format::preset_catalogue().len(),
        ({
            let e = super::format::preset_catalogue()[i];
            resolves(p, e.format, e.bitrate_kbps, e.channels, sample_rate)
        }),
    ensures
        p.requires_encoder == needs_encoder(super::format::preset_catalogue()[i].format),
        p.requires_encoder == (p.format != ExportFormat::Wav),
{
}

} // verus!
