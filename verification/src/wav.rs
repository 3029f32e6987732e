//! The audio container: uncompressed PCM in a RIFF/WAVE file, 16 bits per
//! sample, written by the `hound` crate into a byte vector.
//!
//! The byte layout below is the one `hound` produces for 16-bit integer
//! samples. It is stated here in full, and the writer is trusted to follow
//! it; everything else in this module is proved from that.

use crate::error::PipelineError;
use crate::sample::{pcm16_block, Sample};
use vstd::prelude::*;

verus! {

/// Most samples a container can take: the RIFF length fields have 32 bits,
/// and the longer of the two headers adds 60 bytes to two per sample.
pub const MAX_CONTAINER_SAMPLES: usize = 2_147_483_617;

/// A 16-bit value, low byte first.
pub open spec fn le16(x: int) -> Seq<u8> {
    seq![(x % 256) as u8, ((x / 256) % 256) as u8]
}

/// A 32-bit value, low byte first.
pub open spec fn le32(x: int) -> Seq<u8> {
    seq![
        (x % 256) as u8,
        ((x / 256) % 256) as u8,
        ((x / 65536) % 256) as u8,
        ((x / 16777216) % 256) as u8,
    ]
}

/// The sixteen-bit pattern of a signed sample: its two's complement.
pub open spec fn sample_pattern(s: i16) -> int {
    if s < 0 {
        s + 65536
    } else {
        s as int
    }
}

/// The data chunk's payload: every sample, two bytes each, low byte first.
pub open spec fn sample_bytes(samples: Seq<i16>) -> Seq<u8> {
    Seq::new(2 * samples.len(), |i: int| le16(sample_pattern(samples[i / 2]))[i % 2])
}

pub open spec fn tag_riff() -> Seq<u8> {
    seq![0x52u8, 0x49u8, 0x46u8, 0x46u8]
}

pub open spec fn tag_wave() -> Seq<u8> {
    seq![0x57u8, 0x41u8, 0x56u8, 0x45u8]
}

pub open spec fn tag_fmt() -> Seq<u8> {
    seq![0x66u8, 0x6du8, 0x74u8, 0x20u8]
}

pub open spec fn tag_data() -> Seq<u8> {
    seq![0x64u8, 0x61u8, 0x74u8, 0x61u8]
}

/// The sub-format identifier of integer PCM in the extensible format chunk.
pub open spec fn pcm_subformat() -> Seq<u8> {
    seq![
        0x01u8, 0x00u8, 0x00u8, 0x00u8, 0x00u8, 0x00u8, 0x10u8, 0x00u8,
        0x80u8, 0x00u8, 0x00u8, 0xaau8, 0x00u8, 0x38u8, 0x9bu8, 0x71u8,
    ]
}

/// Streams of more than two channels get the extensible format chunk.
pub open spec fn is_extensible(channels: u16) -> bool {
    channels > 2
}

/// One bit per channel, for at most eighteen channels.
pub open spec fn channel_mask(channels: u16) -> int {
    if channels >= 18 {
        0x3_ffff
    } else {
        vstd::arithmetic::power2::pow2(channels as nat) - 1
    }
}

/// The fields both format chunks share: channel count, sample rate, bytes
/// per second, and bytes per frame cut to sixteen bits.
pub open spec fn wave_format(channels: u16, sample_rate: u32) -> Seq<u8> {
    le16(channels as int) + le32(sample_rate as int) + le32(sample_rate * 2 * channels) + le16(
        2 * channels,
    )
}

/// The body of the format chunk.
pub open spec fn format_body(channels: u16, sample_rate: u32) -> Seq<u8> {
    if is_extensible(channels) {
        le16(0xfffe) + wave_format(channels, sample_rate) + le16(16) + le16(22) + le16(16) + le32(
            channel_mask(channels),
        ) + pcm_subformat()
    } else {
        le16(1) + wave_format(channels, sample_rate) + le16(16)
    }
}

/// Number of bytes in front of the first sample.
pub open spec fn header_len(channels: u16) -> nat {
    if is_extensible(channels) {
        68
    } else {
        44
    }
}

/// Everything in front of the first sample.
#[verifier::opaque]
pub open spec fn wav_header(channels: u16, sample_rate: u32, sample_count: nat) -> Seq<u8> {
    tag_riff() + le32(2 * sample_count + header_len(channels) - 8) + tag_wave() + tag_fmt() + le32(
        header_len(channels) - 28,
    ) + format_body(channels, sample_rate) + tag_data() + le32(2 * sample_count as int)
}

/// The whole container for the given stream and samples.
pub open spec fn wav_image(channels: u16, sample_rate: u32, samples: Seq<i16>) -> Seq<u8> {
    wav_header(channels, sample_rate, samples.len()) + sample_bytes(samples)
}

/// The stream parameters a container can describe: at least one channel, a
/// positive rate, and a byte rate that fits its 32-bit field.
pub open spec fn is_encodable(sample_rate: u32, channels: u16) -> bool {
    &&& sample_rate > 0
    &&& channels > 0
    &&& sample_rate * 2 * channels <= u32::MAX
}

/// `hound::Error`, carried through and never looked into.
#[verifier::external_type_specification]
#[verifier::external_body]
pub struct ExHoundError(hound::Error);

/// `hound::SampleFormat`: whether samples are stored as floats or integers.
#[verifier::external_type_specification]
pub struct ExSampleFormat(hound::SampleFormat);

/// `hound::WavSpec`: channel count, sample rate, bits per sample and sample
/// format of a stream.
#[verifier::external_type_specification]
pub struct ExWavSpec(hound::WavSpec);

/// A `hound::WavWriter` that writes through a cursor into a byte vector it
/// has borrowed. The writer's own type takes any seekable sink, bounded by
/// traits of `std::io`; this is the one instance the encoder needs. Nothing
/// inside it is visible to the proofs: what it holds is named by the four
/// functions below, and the three functions after them say how `hound`
/// changes it.
#[verifier::external_body]
pub struct WavSink<'a> {
    writer: hound::WavWriter<std::io::Cursor<&'a mut Vec<u8>>>,
}

/// The channel count the sink was opened with.
pub uninterp spec fn wav_sink_channels(sink: WavSink) -> u16;

/// The sample rate the sink was opened with.
pub uninterp spec fn wav_sink_rate(sink: WavSink) -> u32;

/// The samples the sink has accepted so far, oldest first.
pub uninterp spec fn wav_sink_samples(sink: WavSink) -> Seq<i16>;

/// What the borrowed vector holds once the sink has given it back. While
/// the sink lives it holds the only reference to the vector, so this is
/// the vector's content at the moment the sink is closed or dropped.
pub uninterp spec fn wav_sink_output(sink: WavSink) -> Seq<u8>;

/// `hound::WavWriter::new` over `std::io::Cursor::new(out)`, for integer
/// samples of 16 bits. The writer puts a header with empty length fields
/// into the vector at once. Trusted: the sink starts without samples,
/// remembers the stream parameters, and whatever it goes on to write ends
/// up in `out`, which must start empty because the cursor starts at offset
/// zero. Left out are the parameters on which the writer divides by zero,
/// here or when it is closed, or overflows while it computes the byte rate.
///
/// Also trusted: the call succeeds. The writer refuses only a bit depth
/// other than 8, 16, 24 or 32, and otherwise fails only where its sink does;
/// the sink is a cursor over a vector in memory, which takes every write by
/// growing the vector.
#[verifier::external_body]
pub(crate) fn wav_open<'a>(out: &'a mut Vec<u8>, spec: hound::WavSpec) -> (r: Result<
    WavSink<'a>,
    hound::Error,
>)
    requires
        old(out)@.len() == 0,
        spec.bits_per_sample == 16,
        spec.sample_format == hound::SampleFormat::Int,
        is_encodable(spec.sample_rate, spec.channels),
    ensures
        r is Ok,
        r matches Ok(sink) ==> {
            &&& wav_sink_channels(sink) == spec.channels
            &&& wav_sink_rate(sink) == spec.sample_rate
            &&& wav_sink_samples(sink) == Seq::<i16>::empty()
            &&& wav_sink_output(sink) == final(out)@
        },
{
    match hound::WavWriter::new(std::io::Cursor::new(out), spec) {
        Ok(writer) => Ok(WavSink { writer }),
        Err(e) => Err(e),
    }
}

/// `hound::WavWriter::write_sample` with a 16-bit sample: two bytes, low
/// byte first, straight to the cursor, and two more on the writer's 32-bit
/// byte count, which must have room for them. Trusted: the call succeeds,
/// since a 16-bit sample fits a 16-bit stream and the cursor over a vector
/// takes every write; the sample is then the newest of the sink's samples,
/// and the stream parameters and the vector the bytes go to stay what they
/// were.
#[verifier::external_body]
pub(crate) fn wav_push(sink: &mut WavSink, sample: i16) -> (r: Result<(), hound::Error>)
    requires
        2 * (wav_sink_samples(*old(sink)).len() + 1) <= u32::MAX,
    ensures
        r is Ok,
        wav_sink_channels(*final(sink)) == wav_sink_channels(*old(sink)),
        wav_sink_rate(*final(sink)) == wav_sink_rate(*old(sink)),
        wav_sink_output(*final(sink)) == wav_sink_output(*old(sink)),
        wav_sink_samples(*final(sink)) == wav_sink_samples(*old(sink)).push(sample),
{
    sink.writer.write_sample(sample)
}

/// `hound::WavWriter::finalize`: seeks back, fills in the two length fields
/// and flushes. It reports an unfinished frame, after writing, when the
/// sample count is no multiple of the channel count, and otherwise fails
/// only where its sink does. Trusted: the call succeeds exactly when the
/// samples fill whole frames, the cursor over a vector taking every seek
/// and write; on success the vector holds exactly `wav_image` of what the
/// sink was given. The sum of payload and header length must fit 32 bits.
#[verifier::external_body]
pub(crate) fn wav_close(sink: WavSink) -> (r: Result<(), hound::Error>)
    requires
        2 * wav_sink_samples(sink).len() + 60 <= u32::MAX,
    ensures
        r is Ok <==> wav_sink_samples(sink).len() % (wav_sink_channels(sink) as nat) == 0,
        r is Ok ==> wav_sink_output(sink) == wav_image(
            wav_sink_channels(sink),
            wav_sink_rate(sink),
            wav_sink_samples(sink),
        ),
{
    sink.writer.finalize()
}

/// Whether a container can hold `sample_count` samples of the given stream:
/// the stream is describable, the samples come in whole frames, and the
/// lengths fit their fields.
pub open spec fn fits_container(sample_rate: u32, channels: u16, sample_count: nat) -> bool {
    &&& is_encodable(sample_rate, channels)
    &&& sample_count <= MAX_CONTAINER_SAMPLES
    &&& sample_count % (channels as nat) == 0
}

/// Tests `is_encodable`.
pub fn check_encodable(sample_rate: u32, channels: u16) -> (b: bool)
    ensures
        b == is_encodable(sample_rate, channels),
{
    let rate: u64 = sample_rate as u64;
    let frame_bytes: u64 = 2 * (channels as u64);
    assert(rate * frame_bytes <= 0xffff_ffff * 131070) by (nonlinear_arith)
        requires
            rate <= 0xffff_ffff,
            frame_bytes <= 131070,
    ;
    assert(sample_rate * 2 * channels == rate * frame_bytes) by (nonlinear_arith)
        requires
            rate == sample_rate,
            frame_bytes == 2 * channels,
    ;
    sample_rate > 0 && channels > 0 && rate * frame_bytes <= u32::MAX as u64
}

/// Writes 16-bit samples into `out` as a container. True when the writer
/// reported success at every step, which it does exactly when the samples
/// fill whole frames.
fn write_container(out: &mut Vec<u8>, samples: &[i16], sample_rate: u32, channels: u16) -> (ok:
    bool)
    requires
        old(out)@.len() == 0,
        is_encodable(sample_rate, channels),
        samples@.len() <= MAX_CONTAINER_SAMPLES,
    ensures
        ok == (samples@.len() % (channels as nat) == 0),
        ok ==> final(out)@ == wav_image(channels, sample_rate, samples@),
{
    let spec = hound::WavSpec {
        channels,
        sample_rate,
        bits_per_sample: 16,
        sample_format: hound::SampleFormat::Int,
    };
    match wav_open(out, spec) {
        Ok(mut sink) => {
            let ghost output = wav_sink_output(sink);
            let mut i: usize = 0;
            while i < samples.len()
                invariant
                    i <= samples@.len() <= MAX_CONTAINER_SAMPLES,
                    wav_sink_channels(sink) == channels,
                    wav_sink_rate(sink) == sample_rate,
                    wav_sink_output(sink) == output,
                    wav_sink_samples(sink) == samples@.take(i as int),
                decreases samples@.len() - i,
            {
                if wav_push(&mut sink, samples[i]).is_err() {
                    return false;
                }
                i = i + 1;
                assert(samples@.take(i as int) == samples@.take(i - 1).push(samples@[i - 1]));
            }
            assert(samples@.take(i as int) == samples@);
            wav_close(sink).is_ok()
        },
        Err(_) => false,
    }
}

/// Encodes 16-bit samples as a container. It succeeds exactly when the
/// stream can be described and the samples come in whole frames and fit;
/// otherwise it fails with `EncodingError`.
pub fn encode_pcm16(samples: &[i16], sample_rate: u32, channels: u16) -> (r: Result<
    Vec<u8>,
    PipelineError,
>)
    ensures
        r is Ok <==> fits_container(sample_rate, channels, samples@.len()),
        r matches Ok(bytes) ==> bytes@ == wav_image(channels, sample_rate, samples@),
        r matches Err(e) ==> e == PipelineError::EncodingError,
{
    if !check_encodable(sample_rate, channels) || samples.len() > MAX_CONTAINER_SAMPLES {
        return Err(PipelineError::EncodingError);
    }
    let mut out: Vec<u8> = Vec::new();
    if write_container(&mut out, samples, sample_rate, channels) {
        Ok(out)
    } else {
        Err(PipelineError::EncodingError)
    }
}

/// What the front of a container says about the audio behind it.
#[derive(Clone, Copy, Debug, PartialEq, Eq, Structural)]
pub struct WavHeader {
    /// Interleaved channels per frame.
    pub channels: u16,
    /// Frames per second.
    pub sample_rate: u32,
    /// Index of the first sample's first byte.
    pub data_offset: usize,
    /// Number of 16-bit samples, all channels together.
    pub sample_count: usize,
}

/// The 16-bit value stored low byte first at index `i`.
pub open spec fn u16_at(bytes: Seq<u8>, i: int) -> int {
    bytes[i] + 256 * bytes[i + 1]
}

/// The 32-bit value stored low byte first at index `i`.
pub open spec fn u32_at(bytes: Seq<u8>, i: int) -> int {
    bytes[i] + 256 * bytes[i + 1] + 65536 * bytes[i + 2] + 16777216 * bytes[i + 3]
}

/// The four bytes at index `i` are `tag`.
pub open spec fn tag_at(bytes: Seq<u8>, i: int, tag: Seq<u8>) -> bool {
    bytes[i] == tag[0] && bytes[i + 1] == tag[1] && bytes[i + 2] == tag[2] && bytes[i + 3] == tag[3]
}

/// The signed sample with the given sixteen-bit pattern.
pub open spec fn sample_of_pattern(pattern: int) -> int {
    if pattern >= 32768 {
        pattern - 65536
    } else {
        pattern
    }
}

/// Reads the front of a 16-bit PCM container: a RIFF/WAVE file whose format
/// chunk comes first, in the plain or the extensible form, and whose data
/// chunk follows at once and runs to the end of the file.
pub open spec fn header_of(bytes: Seq<u8>) -> Option<WavHeader> {
    if bytes.len() < 44 || !tag_at(bytes, 0, tag_riff()) || !tag_at(bytes, 8, tag_wave()) || !tag_at(
        bytes,
        12,
        tag_fmt(),
    ) || u16_at(bytes, 34) != 16 {
        None
    } else if u32_at(bytes, 16) != 16 && u32_at(bytes, 16) != 40 {
        None
    } else {
        let data_offset = 28 + u32_at(bytes, 16);
        if bytes.len() < data_offset || !tag_at(bytes, data_offset - 8, tag_data()) || u32_at(
            bytes,
            data_offset - 4,
        ) != bytes.len() - data_offset || (bytes.len() - data_offset) % 2 != 0 {
            None
        } else {
            Some(
                WavHeader {
                    channels: u16_at(bytes, 22) as u16,
                    sample_rate: u32_at(bytes, 24) as u32,
                    data_offset: data_offset as usize,
                    sample_count: ((bytes.len() - data_offset) / 2) as usize,
                },
            )
        }
    }
}

/// The `i`-th sample behind a header that ends at `data_offset`.
pub open spec fn sample_at(bytes: Seq<u8>, data_offset: int, i: int) -> int {
    sample_of_pattern(u16_at(bytes, data_offset + 2 * i))
}

/// All samples of a container, or nothing where `header_of` finds none.
pub open spec fn samples_of(bytes: Seq<u8>) -> Option<Seq<i16>> {
    match header_of(bytes) {
        None => None,
        Some(header) => Some(
            Seq::new(
                header.sample_count as nat,
                |i: int| sample_at(bytes, header.data_offset as int, i) as i16,
            ),
        ),
    }
}

fn read_u16(bytes: &[u8], i: usize) -> (x: u16)
    requires
        i + 2 <= bytes@.len(),
    ensures
        x == u16_at(bytes@, i as int),
{
    let low: u16 = bytes[i] as u16;
    let high: u16 = bytes[i + 1] as u16;
    low + 256 * high
}

fn read_u32(bytes: &[u8], i: usize) -> (x: u32)
    requires
        i + 4 <= bytes@.len(),
    ensures
        x == u32_at(bytes@, i as int),
{
    let b0: u32 = bytes[i] as u32;
    let b1: u32 = bytes[i + 1] as u32;
    let b2: u32 = bytes[i + 2] as u32;
    let b3: u32 = bytes[i + 3] as u32;
    b0 + 256 * b1 + 65536 * b2 + 16777216 * b3
}

fn has_tag(bytes: &[u8], i: usize, t0: u8, t1: u8, t2: u8, t3: u8) -> (b: bool)
    requires
        i + 4 <= bytes@.len(),
    ensures
        b == tag_at(bytes@, i as int, seq![t0, t1, t2, t3]),
{
    bytes[i] == t0 && bytes[i + 1] == t1 && bytes[i + 2] == t2 && bytes[i + 3] == t3
}

/// Reads the front of a container.
pub fn read_header(bytes: &[u8]) -> (r: Option<WavHeader>)
    ensures
        r == header_of(bytes@),
{
    let len: usize = bytes.len();
    if len < 44 {
        return None;
    }
    if !has_tag(bytes, 0, 0x52, 0x49, 0x46, 0x46) || !has_tag(bytes, 8, 0x57, 0x41, 0x56, 0x45)
        || !has_tag(bytes, 12, 0x66, 0x6d, 0x74, 0x20) || read_u16(bytes, 34) != 16 {
        return None;
    }
    let format_len: u32 = read_u32(bytes, 16);
    if format_len != 16 && format_len != 40 {
        return None;
    }
    let data_offset: usize = 28 + format_len as usize;
    if len < data_offset {
        return None;
    }
    if !has_tag(bytes, data_offset - 8, 0x64, 0x61, 0x74, 0x61) {
        return None;
    }
    let data_len: u32 = read_u32(bytes, data_offset - 4);
    let payload: usize = len - data_offset;
    if payload > u32::MAX as usize || data_len != payload as u32 || payload % 2 != 0 {
        return None;
    }
    Some(
        WavHeader {
            channels: read_u16(bytes, 22),
            sample_rate: read_u32(bytes, 24),
            data_offset,
            sample_count: payload / 2,
        },
    )
}

/// Reads every sample of a container.
pub fn read_samples(bytes: &[u8]) -> (r: Option<Vec<i16>>)
    ensures
        match r {
            Some(samples) => samples_of(bytes@) == Some(samples@),
            None => samples_of(bytes@) is None,
        },
{
    let header = match read_header(bytes) {
        Some(header) => header,
        None => {
            return None;
        },
    };
    let len: usize = bytes.len();
    let mut samples: Vec<i16> = Vec::new();
    let mut i: usize = 0;
    while i < header.sample_count
        invariant
            header_of(bytes@) == Some(header),
            header.data_offset + 2 * header.sample_count == bytes@.len() == len,
            i <= header.sample_count,
            samples@.len() == i,
            forall|j: int|
                0 <= j < i ==> #[trigger] samples@[j] == sample_at(
                    bytes@,
                    header.data_offset as int,
                    j,
                ) as i16,
        decreases header.sample_count - i,
    {
        let pattern: u16 = read_u16(bytes, header.data_offset + 2 * i);
        let value: i16 = if pattern >= 32768 {
            (pattern as i32 - 65536) as i16
        } else {
            pattern as i16
        };
        samples.push(value);
        i = i + 1;
    }
    assert(samples@ =~= samples_of(bytes@)->0);
    Some(samples)
}

/// The bytes of a 16-bit value put together again give the value.
proof fn lemma_le16_reads_back(x: int)
    requires
        0 <= x < 65536,
    ensures
        le16(x).len() == 2,
        u16_at(le16(x), 0) == x,
{
}

/// The bytes of a 32-bit value put together again give the value.
proof fn lemma_le32_reads_back(x: int)
    requires
        0 <= x < 0x1_0000_0000,
    ensures
        le32(x).len() == 4,
        u32_at(le32(x), 0) == x,
{
    let a = x / 256;
    let b = a / 256;
    let c = b / 256;
    vstd::arithmetic::div_mod::lemma_div_denominator(x, 256, 256);
    vstd::arithmetic::div_mod::lemma_div_denominator(x, 65536, 256);
    assert(b == x / 65536);
    assert(c == x / 16777216);
    assert(x == 256 * a + x % 256);
    assert(a == 256 * b + a % 256);
    assert(b == 256 * c + b % 256);
    assert(0 <= c < 256);
    let bytes = le32(x);
    assert(bytes[0] == x % 256);
    assert(bytes[1] == a % 256);
    assert(bytes[2] == b % 256);
    assert(bytes[3] == c);
}

/// Where the fields of the format chunk's body stand.
proof fn lemma_format_body_fields(channels: u16, sample_rate: u32)
    ensures
        format_body(channels, sample_rate).len() == header_len(channels) - 28,
        u16_at(format_body(channels, sample_rate), 2) == channels,
        u32_at(format_body(channels, sample_rate), 4) == sample_rate,
        u16_at(format_body(channels, sample_rate), 14) == 16,
{
    let shared = wave_format(channels, sample_rate);
    let body = format_body(channels, sample_rate);
    lemma_le32_reads_back(sample_rate as int);
    lemma_le16_reads_back(channels as int);
    lemma_le16_reads_back(16);
    assert(shared.len() == 12);
    assert(shared[0] == le16(channels as int)[0] && shared[1] == le16(channels as int)[1]);
    assert(shared[2] == le32(sample_rate as int)[0] && shared[3] == le32(sample_rate as int)[1]
        && shared[4] == le32(sample_rate as int)[2] && shared[5] == le32(sample_rate as int)[3]);
    if is_extensible(channels) {
        let front = le16(0xfffe) + shared + le16(16);
        assert(body == front + le16(22) + le16(16) + le32(channel_mask(channels))
            + pcm_subformat());
        assert(front.len() == 16);
        assert forall|i: int| 0 <= i < 16 implies body[i] == front[i] by {}
        assert(front[2] == shared[0] && front[3] == shared[1] && front[4] == shared[2] && front[5]
            == shared[3] && front[6] == shared[4] && front[7] == shared[5]);
        assert(front[14] == le16(16)[0] && front[15] == le16(16)[1]);
    } else {
        assert(body[2] == shared[0] && body[3] == shared[1] && body[4] == shared[2] && body[5]
            == shared[3] && body[6] == shared[4] && body[7] == shared[5]);
        assert(body[14] == le16(16)[0] && body[15] == le16(16)[1]);
    }
}

/// Where the fields of the header stand.
proof fn lemma_header_fields(channels: u16, sample_rate: u32, n: nat)
    requires
        n <= MAX_CONTAINER_SAMPLES,
    ensures
        ({
            let header = wav_header(channels, sample_rate, n);
            let off = header_len(channels) as int;
            &&& header.len() == off
            &&& tag_at(header, 0, tag_riff())
            &&& tag_at(header, 8, tag_wave())
            &&& tag_at(header, 12, tag_fmt())
            &&& u32_at(header, 16) == off - 28
            &&& u16_at(header, 22) == channels
            &&& u32_at(header, 24) == sample_rate
            &&& u16_at(header, 34) == 16
            &&& tag_at(header, off - 8, tag_data())
            &&& u32_at(header, off - 4) == 2 * n
        }),
{
    reveal(wav_header);
    let off = header_len(channels) as int;
    let header = wav_header(channels, sample_rate, n);
    let body = format_body(channels, sample_rate);
    let front = tag_riff() + le32(2 * n + header_len(channels) - 8) + tag_wave() + tag_fmt() + le32(
        header_len(channels) - 28,
    );
    let tail = tag_data() + le32(2 * n as int);
    lemma_format_body_fields(channels, sample_rate);
    lemma_le32_reads_back(off - 28);
    lemma_le32_reads_back(2 * n as int);
    assert(front.len() == 20);
    assert(tail.len() == 8);
    assert(header =~= front + body + tail);
    assert forall|i: int| 0 <= i < 20 implies header[i] == front[i] by {}
    assert forall|i: int| 0 <= i < off - 28 implies header[20 + i] == body[i] by {}
    assert forall|i: int| 0 <= i < 8 implies header[off - 8 + i] == tail[i] by {}
    assert(front[16] == le32(off - 28)[0] && front[17] == le32(off - 28)[1] && front[18] == le32(
        off - 28,
    )[2] && front[19] == le32(off - 28)[3]);
    assert(tail[4] == le32(2 * n as int)[0] && tail[5] == le32(2 * n as int)[1] && tail[6] == le32(
        2 * n as int,
    )[2] && tail[7] == le32(2 * n as int)[3]);
    assert(header[22] == body[2] && header[23] == body[3]);
    assert(header[24] == body[4] && header[25] == body[5] && header[26] == body[6] && header[27]
        == body[7]);
    assert(header[34] == body[14] && header[35] == body[15]);
    assert(header[off - 8] == tail[0] && header[off - 7] == tail[1] && header[off - 6] == tail[2]
        && header[off - 5] == tail[3]);
    assert(header[off - 4] == tail[4] && header[off - 3] == tail[5] && header[off - 2] == tail[6]
        && header[off - 1] == tail[7]);
}

/// A container is its header and then its payload.
proof fn lemma_image_parts(channels: u16, sample_rate: u32, samples: Seq<i16>)
    requires
        samples.len() <= MAX_CONTAINER_SAMPLES,
    ensures
        ({
            let image = wav_image(channels, sample_rate, samples);
            let header = wav_header(channels, sample_rate, samples.len());
            let off = header_len(channels) as int;
            &&& image.len() == off + 2 * samples.len()
            &&& forall|i: int| 0 <= i < off ==> #[trigger] image[i] == header[i]
            &&& forall|i: int|
                0 <= i < 2 * samples.len() ==> image[off + i] == #[trigger] sample_bytes(samples)[i]
        }),
{
    lemma_header_fields(channels, sample_rate, samples.len());
}

/// A container is as long as its header and two bytes for every sample:
/// 44 bytes in front of the samples of one or two channels, 68 in front of
/// those of more.
pub proof fn container_length(channels: u16, sample_rate: u32, samples: Seq<i16>)
    requires
        samples.len() <= MAX_CONTAINER_SAMPLES,
    ensures
        wav_image(channels, sample_rate, samples).len() == header_len(channels) + 2
            * samples.len(),
{
    lemma_image_parts(channels, sample_rate, samples);
}

/// The header of a container reads back as what the container was made
/// from.
proof fn lemma_header_reads_back(channels: u16, sample_rate: u32, samples: Seq<i16>)
    requires
        samples.len() <= MAX_CONTAINER_SAMPLES,
    ensures
        header_of(wav_image(channels, sample_rate, samples)) == Some(
            (WavHeader {
                channels,
                sample_rate,
                data_offset: header_len(channels) as usize,
                sample_count: samples.len() as usize,
            }),
        ),
{
    let n = samples.len();
    let image = wav_image(channels, sample_rate, samples);
    let header = wav_header(channels, sample_rate, n);
    let off = header_len(channels) as int;
    lemma_header_fields(channels, sample_rate, n);
    lemma_image_parts(channels, sample_rate, samples);
    assert(image[0] == header[0] && image[1] == header[1] && image[2] == header[2] && image[3]
        == header[3]);
    assert(image[8] == header[8] && image[9] == header[9] && image[10] == header[10] && image[11]
        == header[11]);
    assert(image[12] == header[12] && image[13] == header[13] && image[14] == header[14]
        && image[15] == header[15]);
    assert(image[16] == header[16] && image[17] == header[17] && image[18] == header[18]
        && image[19] == header[19]);
    assert(image[22] == header[22] && image[23] == header[23]);
    assert(image[24] == header[24] && image[25] == header[25] && image[26] == header[26]
        && image[27] == header[27]);
    assert(image[34] == header[34] && image[35] == header[35]);
    assert(image[off - 8] == header[off - 8] && image[off - 7] == header[off - 7] && image[off
        - 6] == header[off - 6] && image[off - 5] == header[off - 5]);
    assert(image[off - 4] == header[off - 4] && image[off - 3] == header[off - 3] && image[off
        - 2] == header[off - 2] && image[off - 1] == header[off - 1]);
    assert(u32_at(image, 16) == off - 28);
    assert(u16_at(image, 22) == channels);
    assert(u32_at(image, 24) == sample_rate);
    assert(u16_at(image, 34) == 16);
    assert(u32_at(image, off - 4) == 2 * n);
    assert(tag_at(image, 0, tag_riff()));
    assert(tag_at(image, 8, tag_wave()));
    assert(tag_at(image, 12, tag_fmt()));
    assert(tag_at(image, off - 8, tag_data()));
}

/// Each sample of a container reads back as it was written.
proof fn lemma_sample_reads_back(channels: u16, sample_rate: u32, samples: Seq<i16>, i: int)
    requires
        samples.len() <= MAX_CONTAINER_SAMPLES,
        0 <= i < samples.len(),
    ensures
        sample_at(wav_image(channels, sample_rate, samples), header_len(channels) as int, i)
            == samples[i],
{
    let image = wav_image(channels, sample_rate, samples);
    let payload = sample_bytes(samples);
    let off = header_len(channels) as int;
    let pattern = sample_pattern(samples[i]);
    lemma_image_parts(channels, sample_rate, samples);
    lemma_le16_reads_back(pattern);
    assert((2 * i) / 2 == i && (2 * i) % 2 == 0);
    assert((2 * i + 1) / 2 == i && (2 * i + 1) % 2 == 1);
    assert(payload[2 * i] == le16(pattern)[0]);
    assert(payload[2 * i + 1] == le16(pattern)[1]);
    assert(image[off + 2 * i] == payload[2 * i]);
    assert(image[off + (2 * i + 1)] == payload[2 * i + 1]);
    assert(u16_at(image, off + 2 * i) == pattern);
}

/// Reading the front of a container that holds `samples` of a stream gives
/// that stream's sample rate and channel count exactly, and reading its
/// samples gives `samples`.
pub proof fn container_reads_back(channels: u16, sample_rate: u32, samples: Seq<i16>)
    requires
        samples.len() <= MAX_CONTAINER_SAMPLES,
    ensures
        header_of(wav_image(channels, sample_rate, samples)) == Some(
            (WavHeader {
                channels,
                sample_rate,
                data_offset: header_len(channels) as usize,
                sample_count: samples.len() as usize,
            }),
        ),
        samples_of(wav_image(channels, sample_rate, samples)) == Some(samples),
{
    let image = wav_image(channels, sample_rate, samples);
    lemma_header_reads_back(channels, sample_rate, samples);
    let decoded = samples_of(image)->0;
    assert(decoded.len() == samples.len());
    assert forall|i: int| 0 <= i < samples.len() implies decoded[i] == samples[i] by {
        lemma_sample_reads_back(channels, sample_rate, samples, i);
    }
    assert(decoded =~= samples);
}

/// Encoding and reading back: the header gives the session's sample rate
/// and channel count exactly, and every sample that lay in [-1.0, 1.0]
/// comes back within half a 16-bit step of where it was, which is less than
/// the one step of `1/32767` between neighbouring 16-bit values. With `x`
/// the amplitude and `q` the sample read back, the bound is
/// `|q - 32767 * x| <= 1/2`, stated times `2^-exponent` to stay in integers.
pub proof fn encoding_round_trip(channels: u16, sample_rate: u32, samples: Seq<Sample>, i: int)
    requires
        samples.len() <= MAX_CONTAINER_SAMPLES,
        0 <= i < samples.len(),
        crate::sample::is_canonical(samples[i].bits),
    ensures
        ({
            let image = wav_image(channels, sample_rate, pcm16_block(samples));
            let bits = samples[i].bits;
            let unit = vstd::arithmetic::power2::pow2((-crate::sample::exponent(bits)) as nat) as int;
            let scaled = crate::sample::significand(bits) * crate::sample::PCM_FULL_SCALE as int;
            &&& header_of(image) matches Some(header)
            &&& header.channels == channels
            &&& header.sample_rate == sample_rate
            &&& header.sample_count == samples.len()
            &&& samples_of(image) matches Some(decoded)
            &&& decoded.len() == samples.len()
            &&& if crate::sample::is_negative(bits) {
                -unit <= 2 * (decoded[i] * unit + scaled) <= unit
            } else {
                -unit <= 2 * (decoded[i] * unit - scaled) <= unit
            }
        }),
{
    container_reads_back(channels, sample_rate, pcm16_block(samples));
    crate::sample::quantization_error_is_within_half_a_step(samples[i].bits);
    crate::sample::pcm16_in_range(samples[i].bits);
}

/// Scales canonical samples to 16 bits, one for one.
pub fn quantize(samples: &[Sample]) -> (pcm: Vec<i16>)
    ensures
        pcm@ == pcm16_block(samples@),
{
    let mut pcm: Vec<i16> = Vec::new();
    let mut i: usize = 0;
    while i < samples.len()
        invariant
            i <= samples@.len(),
            pcm@ == pcm16_block(samples@.take(i as int)),
        decreases samples@.len() - i,
    {
        pcm.push(samples[i].to_pcm16());
        i = i + 1;
        assert(pcm@ == pcm16_block(samples@.take(i as int)));
    }
    assert(samples@.take(i as int) == samples@);
    pcm
}

/// Encodes a session's samples as a 16-bit PCM container: each sample is
/// scaled by 32767, rounded, clamped, and written low byte first behind a
/// header that names the sample rate and the channel count. No sample value
/// makes it fail: it succeeds exactly when the stream can be described and
/// the samples come in whole frames and fit, and otherwise fails with
/// `EncodingError`.
pub fn convert_to_wav(samples: &[Sample], sample_rate: u32, channels: u16) -> (r: Result<
    Vec<u8>,
    PipelineError,
>)
    ensures
        r is Ok <==> fits_container(sample_rate, channels, samples@.len()),
        r matches Ok(bytes) ==> bytes@ == wav_image(channels, sample_rate, pcm16_block(samples@)),
        r matches Err(e) ==> e == PipelineError::EncodingError,
{
    let pcm = quantize(samples);
    encode_pcm16(pcm.as_slice(), sample_rate, channels)
}

} // verus!
