use vstd::prelude::*;

use crate::config::InputMode;
use crate::error::Error;

verus! {

/// The only sample rate the model was trained on, in Hz.
pub const REQUIRED_SAMPLE_RATE: u32 = 16000;

/// Integer samples are divided by this to give amplitudes in `[-1, 1]`.
pub const PCM16_SCALE: i32 = 32768;

/// How the samples of a container are encoded.
pub enum SampleEncoding {
    Int,
    Float,
}

/// The format fields of a container header.
pub struct WavFormat {
    pub channels: u16,
    pub sample_rate: u32,
    pub bits_per_sample: u16,
    pub encoding: SampleEncoding,
}

/// Samples ready to be turned into the engine's floats.
pub enum DecodedAudio {
    /// Integer samples, to be divided by `PCM16_SCALE`.
    Int16(Vec<i16>),
    /// Bit patterns of IEEE-754 single-precision samples.
    Float32Bits(Vec<u32>),
    /// A validated container whose floating-point samples the caller reads.
    Float32Container,
}

/// The header that hound reads from `bytes`: channels, sample rate, bits per
/// sample, and whether the samples are floating point; `None` when hound
/// refuses the header.
pub uninterp spec fn wav_format_of(bytes: Seq<u8>) -> Option<(u16, u32, u16, bool)>;

/// The samples that hound reads from `bytes` as `i16`, in order; `None` when
/// reading fails.
pub uninterp spec fn wav_i16_samples_of(bytes: Seq<u8>) -> Option<Seq<i16>>;

/// Relies on `hound::WavReader::new`, which parses the header, and
/// `WavReader::spec`, which returns the format it found there.
#[verifier::external_body]
fn read_wav_format(bytes: &[u8]) -> (r: Result<WavFormat, hound::Error>)
    ensures
        match r {
            Ok(f) => wav_format_of(bytes@) == Some(
                (f.channels, f.sample_rate, f.bits_per_sample, f.encoding is Float),
            ),
            Err(_) => wav_format_of(bytes@) is None,
        },
{
    let spec = hound::WavReader::new(bytes)?.spec();
    let encoding = match spec.sample_format {
        hound::SampleFormat::Int => SampleEncoding::Int,
        hound::SampleFormat::Float => SampleEncoding::Float,
    };
    Ok(WavFormat {
        channels: spec.channels,
        sample_rate: spec.sample_rate,
        bits_per_sample: spec.bits_per_sample,
        encoding,
    })
}

/// Relies on `hound::WavReader::new` and `WavReader::into_samples::<i16>`:
/// the samples of the container in order, or the first error met while
/// parsing the header or reading them.
#[verifier::external_body]
fn read_wav_i16(bytes: &[u8]) -> (r: Result<Vec<i16>, hound::Error>)
    ensures
        match r {
            Ok(v) => wav_i16_samples_of(bytes@) == Some(v@),
            Err(_) => wav_i16_samples_of(bytes@) is None,
        },
{
    hound::WavReader::new(bytes)?.into_samples::<i16>().collect()
}

/// Whether hound's error is a failure of the underlying byte stream (its
/// `IoError` variant) rather than a refusal of what the stream holds.
pub uninterp spec fn is_stream_error(e: hound::Error) -> bool;

/// The message that hound's `Display` impl gives for an error that is not a
/// stream error: fixed text for each variant.
pub uninterp spec fn hound_message_of(e: hound::Error) -> Seq<char>;

/// Relies on the variants of `hound::Error`: `IoError` is a failure of the
/// underlying byte stream.
#[verifier::external_body]
fn hound_error_is_io(e: &hound::Error) -> (r: bool)
    ensures
        r == is_stream_error(*e),
{
    match e {
        hound::Error::IoError(_) => true,
        _ => false,
    }
}

/// Relies on the `Display` impl of `hound::Error` for a readable message. For
/// a stream error it hands on the text of `std::io::Error`, which depends on
/// the platform, so only the other variants are stated.
#[verifier::external_body]
fn hound_error_message(e: &hound::Error) -> (r: String)
    ensures
        !is_stream_error(*e) ==> r@ == hound_message_of(*e),
{
    e.to_string()
}

/// `e` is what hound's error `he` becomes: `Io` for a failure of the
/// stream, `Codec` with hound's message for any other refusal.
pub open spec fn converted_hound_error(he: hound::Error, e: Error) -> bool {
    match e {
        Error::Io(_) => is_stream_error(he),
        Error::Codec(m) => !is_stream_error(he) && m@ == hound_message_of(he),
        Error::Whisper(_) => false,
    }
}

/// A failure of the stream becomes `Io`; any other refusal of the
/// container becomes `Codec`, with hound's message.
pub fn error_from_hound(e: &hound::Error) -> (r: Error)
    ensures
        converted_hound_error(*e, r),
{
    let message = hound_error_message(e);
    if hound_error_is_io(e) {
        Error::Io(message)
    } else {
        Error::Codec(message)
    }
}

/// The model takes mono audio at its own sample rate, and nothing else.
pub open spec fn format_supported(channels: u16, sample_rate: u32) -> bool {
    channels == 1 && sample_rate == REQUIRED_SAMPLE_RATE
}

/// The sample encodings the service takes: 16-bit integers and 32-bit floats.
pub open spec fn encoding_supported(bits_per_sample: u16, is_float: bool) -> bool {
    (!is_float && bits_per_sample == 16) || (is_float && bits_per_sample == 32)
}

/// The `Codec` message for a container that is not mono at the model's rate.
pub open spec fn rate_message() -> Seq<char> {
    "WAV must be 16kHz mono"@
}

/// The `Codec` message for a container whose samples are neither 16-bit
/// integers nor 32-bit floats.
pub open spec fn encoding_message() -> Seq<char> {
    "WAV samples must be 16-bit integers or 32-bit floats"@
}

/// What checking a container format must give: channels and rate first,
/// then the sample encoding.
pub open spec fn format_checked(
    channels: u16,
    sample_rate: u32,
    bits_per_sample: u16,
    is_float: bool,
    r: Result<(), Error>,
) -> bool {
    if !format_supported(channels, sample_rate) {
        r matches Err(Error::Codec(m)) && m@ == rate_message()
    } else if !encoding_supported(bits_per_sample, is_float) {
        r matches Err(Error::Codec(m)) && m@ == encoding_message()
    } else {
        r is Ok
    }
}

/// Accepts a container format only when it is mono at the model's rate
/// with 16-bit integer or 32-bit float samples.
pub fn check_format(format: &WavFormat) -> (r: Result<(), Error>)
    ensures
        format_checked(
            format.channels,
            format.sample_rate,
            format.bits_per_sample,
            format.encoding is Float,
            r,
        ),
{
    proof {
        reveal_strlit("WAV must be 16kHz mono");
        reveal_strlit("WAV samples must be 16-bit integers or 32-bit floats");
    }
    if format.channels != 1 || format.sample_rate != REQUIRED_SAMPLE_RATE {
        return Err(Error::Codec(String::from_str("WAV must be 16kHz mono")));
    }
    let supported = match format.encoding {
        SampleEncoding::Int => format.bits_per_sample == 16,
        SampleEncoding::Float => format.bits_per_sample == 32,
    };
    if supported {
        Ok(())
    } else {
        Err(Error::Codec(String::from_str("WAV samples must be 16-bit integers or 32-bit floats")))
    }
}

/// `r` is an error that hound's reader gave, converted.
pub open spec fn hound_failure(r: Result<DecodedAudio, Error>) -> bool {
    r matches Err(e) && exists|he: hound::Error| #[trigger] converted_hound_error(he, e)
}

/// What decoding the container `bytes` must give.
pub open spec fn container_decoded(bytes: Seq<u8>, r: Result<DecodedAudio, Error>) -> bool {
    match wav_format_of(bytes) {
        None => hound_failure(r),
        Some((channels, rate, bits, is_float)) => if !format_supported(channels, rate) {
            r matches Err(Error::Codec(m)) && m@ == rate_message()
        } else if !encoding_supported(bits, is_float) {
            r matches Err(Error::Codec(m)) && m@ == encoding_message()
        } else if is_float {
            r matches Ok(d) && d is Float32Container
        } else {
            match wav_i16_samples_of(bytes) {
                Some(s) => r matches Ok(d) && (d matches DecodedAudio::Int16(v) && v@ == s),
                None => hound_failure(r),
            }
        },
    }
}

/// Parses a container, checks that it is mono at the model's rate with
/// 16-bit integer or 32-bit float samples, and reads its samples when they
/// are integers. The format is checked before
/// any sample is read: a container in another format is a `Codec` error
/// whatever its payload holds.
pub fn decode_container(bytes: &[u8]) -> (r: Result<DecodedAudio, Error>)
    ensures
        container_decoded(bytes@, r),
{
    let format = match read_wav_format(bytes) {
        Ok(f) => f,
        Err(e) => {
            let r = error_from_hound(&e);
            assert(converted_hound_error(e, r));
            return Err(r);
        },
    };
    match check_format(&format) {
        Ok(()) => {},
        Err(e) => return Err(e),
    }
    match format.encoding {
        SampleEncoding::Float => Ok(DecodedAudio::Float32Container),
        SampleEncoding::Int => match read_wav_i16(bytes) {
            Ok(v) => Ok(DecodedAudio::Int16(v)),
            Err(e) => {
                let r = error_from_hound(&e);
                assert(converted_hound_error(e, r));
                Err(r)
            },
        },
    }
}

/// A container in a format other than mono at the model's rate is refused
/// with a `Codec` error that says so, before any of its samples is read.
pub proof fn unsupported_format_is_a_codec_error(bytes: Seq<u8>, r: Result<DecodedAudio, Error>)
    requires
        container_decoded(bytes, r),
        wav_format_of(bytes) matches Some((channels, rate, _, _)) && !format_supported(
            channels,
            rate,
        ),
    ensures
        r matches Err(Error::Codec(m)) && m@ == rate_message(),
{
}

/// A container of `n` integer samples decodes to `n` samples, each of which,
/// divided by `PCM16_SCALE`, lies in `[-1, 1)`.
pub proof fn int_samples_normalize_into_unit_range(bytes: Seq<u8>, r: Result<DecodedAudio, Error>)
    requires
        container_decoded(bytes, r),
        r matches Ok(DecodedAudio::Int16(_)),
    ensures
        r matches Ok(DecodedAudio::Int16(v)) && wav_i16_samples_of(bytes) == Some(v@) && forall|i: int|
            0 <= i < v@.len() ==> -(PCM16_SCALE as int) <= (#[trigger] v@[i] as int) < PCM16_SCALE as int,
{
}

/// The little-endian 32-bit word that starts at `at`.
pub open spec fn le_u32_at(b: Seq<u8>, at: int) -> u32 {
    (b[at] as int + b[at + 1] as int * 256 + b[at + 2] as int * 65536 + b[at + 3] as int
        * 16777216) as u32
}

/// Raw mode: reads the buffer as consecutive little-endian 32-bit words, the
/// bit patterns of IEEE-754 floats. Trailing bytes that do not fill a word
/// are dropped without error.
pub fn decode_raw_float_bits(bytes: &[u8]) -> (r: Vec<u32>)
    ensures
        r@.len() == bytes@.len() / 4,
        forall|i: int| 0 <= i < r@.len() ==> #[trigger] r@[i] == le_u32_at(bytes@, 4 * i),
{
    let len: usize = bytes.len();
    let n: usize = len / 4;
    let mut out: Vec<u32> = Vec::with_capacity(n);
    let mut i: usize = 0;
    while i < n
        invariant
            len == bytes@.len(),
            n == bytes@.len() / 4,
            i <= n,
            out@.len() == i,
            forall|k: int| 0 <= k < i ==> #[trigger] out@[k] == le_u32_at(bytes@, 4 * k),
        decreases n - i,
    {
        proof {
            assert(4 * (i as int) + 4 <= len as int) by (nonlinear_arith)
                requires
                    (i as int) < (n as int),
                    n as int == len as int / 4,
            ;
        }
        let at: usize = 4 * i;
        let word: u32 = bytes[at] as u32 + bytes[at + 1] as u32 * 256 + bytes[at + 2] as u32
            * 65536 + bytes[at + 3] as u32 * 16777216;
        out.push(word);
        i = i + 1;
    }
    out
}

/// Decodes a request body in the configured mode. Raw input never fails;
/// container input fails exactly as `decode_container` does.
pub fn decode_audio(mode: InputMode, bytes: &[u8]) -> (r: Result<DecodedAudio, Error>)
    ensures
        mode == InputMode::RawFloat32 ==> (r matches Ok(DecodedAudio::Float32Bits(w)) && w@.len()
            == bytes@.len() / 4 && forall|i: int|
            0 <= i < w@.len() ==> #[trigger] w@[i] == le_u32_at(bytes@, 4 * i)),
        mode == InputMode::Container ==> container_decoded(bytes@, r),
{
    match mode {
        InputMode::RawFloat32 => Ok(DecodedAudio::Float32Bits(decode_raw_float_bits(bytes))),
        InputMode::Container => decode_container(bytes),
    }
}

} // verus!
