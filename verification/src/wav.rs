//! WAV encoding of a captured buffer, with a one-second silence fallback.

use vstd::prelude::*;

verus! {

/// Bits per sample of every container this engine writes.
pub const BITS_PER_SAMPLE: u16 = 16;

/// The error type of the `hound` crate, carried through unopened.
#[verifier::external_type_specification]
#[verifier::external_body]
pub struct ExHoundError(hound::Error);

/// Why an encoding attempt produced no container.
#[derive(Debug)]
pub enum WavFailure {
    /// The underlying writer failed; the text is the writer's own message.
    Io(String),
    /// Ill-formed WAVE data.
    Format(String),
    /// A sample needs more bits than the container offers.
    TooWide,
    /// The number of samples is not a multiple of the channel count.
    UnfinishedSample,
    /// The requested format cannot be written.
    Unsupported,
    /// The sample format differs from the container's.
    InvalidSampleFormat,
}

/// What `hound` makes of an integer PCM stream with the given channel
/// count, sample rate and bit depth, holding the given samples in order: the
/// bytes of the WAV container it writes, or `None` where it reports an
/// error instead. The writer works on memory alone, so the outcome depends
/// on nothing but these values. Of the streams that `write_wav` admits,
/// `hound` refuses those that end in the middle of a frame, and no others.
pub uninterp spec fn wav_image(channels: u16, sample_rate: u32, bits: u16, samples: Seq<i16>) -> Option<Seq<u8>>;

/// Whether an answer is what the writer makes of a stream of 16-bit
/// samples: its container where it writes one, a failure where it does not.
pub open spec fn answers_for(
    r: Result<Vec<u8>, WavFailure>,
    channels: u16,
    sample_rate: u32,
    samples: Seq<i16>,
) -> bool {
    match wav_image(channels, sample_rate, BITS_PER_SAMPLE, samples) {
        Some(image) => r matches Ok(bytes) && bytes@ == image,
        None => r is Err,
    }
}

/// Size in bytes of the header fields that follow the RIFF length field.
pub open spec fn header_rest(channels: u16) -> int {
    if channels > 2 {
        60
    } else {
        36
    }
}

/// Whether a stream of `count` 16-bit samples fits the 32-bit length fields
/// of the container, and the rate fields can be computed.
pub open spec fn fits_container(count: nat, channels: u16, sample_rate: u32) -> bool {
    &&& channels != 0
    &&& sample_rate != 0
    &&& sample_rate * 2 * channels <= u32::MAX
    &&& 2 * count + header_rest(channels) <= u32::MAX
}

/// `count` samples of silence.
pub open spec fn silence(count: nat) -> Seq<i16> {
    Seq::new(count, |i: int| 0i16)
}

/// What is written for a captured buffer: the buffer itself, or one second
/// of silence where nothing was captured.
pub open spec fn payload(samples: Seq<i16>, channels: u16, sample_rate: u32) -> Seq<i16> {
    if samples.len() == 0 {
        silence((sample_rate * channels) as nat)
    } else {
        samples
    }
}

/// Whether `encode` accepts the buffer with this channel count and rate.
pub open spec fn encodable(samples: Seq<i16>, channels: u16, sample_rate: u32) -> bool {
    fits_container(payload(samples, channels, sample_rate).len(), channels, sample_rate)
}

/// Runs `hound::WavWriter` over an in-memory cursor: `WavWriter::new` with
/// an integer spec, `write_sample` once per sample in order, then
/// `finalize`. The result is what `hound` makes of these values: the bytes
/// of the container it wrote, or its error. It succeeds exactly where the
/// sample count is a multiple of the channel count: `finalize` reports an
/// unfinished frame as an error, a bit depth of 16 with 16-bit samples is
/// never refused, and every other error of `hound` is one of the underlying
/// writer, which here appends to a vector in memory. The `requires` leaves
/// out the inputs on which `hound` divides by zero or overflows its 32-bit
/// counters.
#[verifier::external_body]
fn write_wav(samples: &[i16], channels: u16, sample_rate: u32, bits: u16) -> (r: Result<
    Vec<u8>,
    hound::Error,
>)
    requires
        bits == 16,
        fits_container(samples@.len(), channels, sample_rate),
    ensures
        match wav_image(channels, sample_rate, bits, samples@) {
            Some(image) => r matches Ok(bytes) && bytes@ == image,
            None => r is Err,
        },
        r is Ok <==> samples@.len() % (channels as nat) == 0,
{
    let spec = hound::WavSpec {
        channels,
        sample_rate,
        bits_per_sample: bits,
        sample_format: hound::SampleFormat::Int,
    };
    let mut out = std::io::Cursor::new(Vec::new());
    let mut writer = hound::WavWriter::new(&mut out, spec)?;
    for sample in samples.iter() {
        writer.write_sample(*sample)?;
    }
    writer.finalize()?;
    Ok(out.into_inner())
}

/// Tells the variants of `hound::Error` apart, keeping the message of an
/// I/O or format error as text.
#[verifier::external_body]
fn failure_of(error: hound::Error) -> (failure: WavFailure) {
    match error {
        hound::Error::IoError(inner) => WavFailure::Io(inner.to_string()),
        hound::Error::FormatError(message) => WavFailure::Format(message.to_string()),
        hound::Error::TooWide => WavFailure::TooWide,
        hound::Error::UnfinishedSample => WavFailure::UnfinishedSample,
        hound::Error::Unsupported => WavFailure::Unsupported,
        hound::Error::InvalidSampleFormat => WavFailure::InvalidSampleFormat,
    }
}

/// Builds `count` zero samples.
pub fn make_silence(count: usize) -> (out: Vec<i16>)
    ensures
        out@ == silence(count as nat),
{
    let mut out: Vec<i16> = Vec::new();
    let mut written: usize = 0;
    while written < count
        invariant
            written <= count,
            out@ == silence(written as nat),
        decreases count - written,
    {
        out.push(0i16);
        written = written + 1;
        assert(out@ =~= silence(written as nat));
    }
    out
}

/// Decides whether `encode` accepts the buffer with this channel count and
/// sample rate.
pub fn can_encode(samples: &[i16], channels: u16, sample_rate: u32) -> (ok: bool)
    ensures
        ok == encodable(samples@, channels, sample_rate),
{
    if channels == 0 || sample_rate == 0 {
        return false;
    }
    assert(0 <= sample_rate * 2 * channels <= 0xFFFF_FFFF * 2 * 0xFFFF) by (nonlinear_arith)
        requires
            0 <= sample_rate <= 0xFFFF_FFFF,
            0 <= channels <= 0xFFFF,
    ;
    assert(0 <= sample_rate * channels <= 0xFFFF_FFFF * 0xFFFF) by (nonlinear_arith)
        requires
            0 <= sample_rate <= 0xFFFF_FFFF,
            0 <= channels <= 0xFFFF,
    ;
    let rate_bytes: u64 = (sample_rate as u64) * 2 * (channels as u64);
    if rate_bytes > u32::MAX as u64 {
        return false;
    }
    let rest: u64 = if channels > 2 { 60 } else { 36 };
    let count: u64 = if samples.len() == 0 {
        (sample_rate as u64) * (channels as u64)
    } else {
        if samples.len() > u32::MAX as usize {
            return false;
        }
        samples.len() as u64
    };
    2 * count + rest <= u32::MAX as u64
}

/// The silence that stands in for an empty buffer: one second of zero
/// samples for every channel. `None` for a buffer that holds samples.
pub fn fallback_silence(samples: &[i16], channels: u16, sample_rate: u32) -> (quiet: Option<
    Vec<i16>,
>)
    requires
        sample_rate * channels <= u32::MAX,
    ensures
        samples@.len() == 0 ==> quiet is Some && quiet->Some_0@ == payload(
            samples@,
            channels,
            sample_rate,
        ),
        samples@.len() != 0 ==> quiet is None,
        quiet is Some ==> quiet->Some_0@.len() == sample_rate * channels,
{
    if samples.len() == 0 {
        let count: u32 = sample_rate * (channels as u32);
        Some(make_silence(count as usize))
    } else {
        None
    }
}

/// Turns what the writer returned into the answer of `encode`: the bytes
/// as they are, or the failure by its kind.
pub fn conclude(written: Result<Vec<u8>, hound::Error>) -> (r: Result<Vec<u8>, WavFailure>)
    ensures
        written matches Ok(bytes) ==> r == Ok::<Vec<u8>, WavFailure>(bytes),
        written is Err ==> r is Err,
{
    match written {
        Ok(bytes) => Ok(bytes),
        Err(error) => Err(failure_of(error)),
    }
}

/// Encodes a captured buffer as a 16-bit PCM WAV container. An empty buffer
/// becomes one second of silence, so that the result is always playable:
/// encoding an empty buffer always succeeds. A buffer that holds samples
/// is encoded exactly where it holds the same number for every channel.
/// The bytes are what the writer makes of the samples to be written.
pub fn encode(samples: &[i16], channels: u16, sample_rate: u32) -> (r: Result<Vec<u8>, WavFailure>)
    requires
        encodable(samples@, channels, sample_rate),
    ensures
        answers_for(r, channels, sample_rate, payload(samples@, channels, sample_rate)),
        r is Ok <==> payload(samples@, channels, sample_rate).len() % (channels as nat) == 0,
        samples@.len() == 0 ==> r is Ok,
        samples@.len() != 0 ==> (r is Ok <==> samples@.len() % (channels as nat) == 0),
{
    proof {
        lemma_silence_fills_every_channel(channels, sample_rate);
    }
    assert(sample_rate * channels <= sample_rate * 2 * channels) by (nonlinear_arith)
        requires
            0 <= sample_rate,
            0 <= channels,
    ;
    let written = match fallback_silence(samples, channels, sample_rate) {
        Some(quiet) => write_wav(quiet.as_slice(), channels, sample_rate, BITS_PER_SAMPLE),
        None => write_wav(samples, channels, sample_rate, BITS_PER_SAMPLE),
    };
    conclude(written)
}

/// One second of silence always holds the same number of samples for every
/// channel, so an empty buffer is never refused as unfinished.
pub proof fn lemma_silence_fills_every_channel(channels: u16, sample_rate: u32)
    requires
        channels != 0,
    ensures
        payload(Seq::<i16>::empty(), channels, sample_rate).len() == sample_rate * channels,
        payload(Seq::<i16>::empty(), channels, sample_rate).len() % (channels as nat) == 0,
        forall|i: int|
            0 <= i < sample_rate * channels ==> #[trigger] payload(
                Seq::<i16>::empty(),
                channels,
                sample_rate,
            )[i] == 0i16,
{
    assert((sample_rate * channels) % (channels as int) == 0) by (nonlinear_arith)
        requires
            channels != 0,
    ;
}

/// A buffer that holds samples is written as it is: the fallback touches
/// only the empty buffer.
pub proof fn lemma_captured_samples_are_kept(samples: Seq<i16>, channels: u16, sample_rate: u32)
    requires
        samples.len() > 0,
    ensures
        payload(samples, channels, sample_rate) == samples,
{
}

} // verus!
