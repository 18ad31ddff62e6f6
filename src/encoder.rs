use vstd::prelude::*;

use crate::error::CaptureError;
use crate::sample::{convert_i16, convert_u16, u16_as_i16};
use crate::wav::{header_size, lemma_wav_file_len, wav_file};

verus! {

#[verifier::external_type_specification]
#[verifier::external_body]
pub struct ExHoundError(hound::Error);

#[verifier::external_type_specification]
pub struct ExWavSpec(hound::WavSpec);

#[verifier::external_type_specification]
pub struct ExSampleFormat(hound::SampleFormat);

#[verifier::external_type_specification]
#[verifier::external_body]
#[verifier::reject_recursive_types(T)]
pub struct ExCursor<T>(std::io::Cursor<T>);

/// A hound writer of 16-bit integer samples into an in-memory buffer.
#[verifier::external_body]
pub struct WavStream<'a> {
    writer: hound::WavWriter<&'a mut std::io::Cursor<Vec<u8>>>,
}

/// The bytes a buffer holds.
pub uninterp spec fn buffer_contents(buffer: std::io::Cursor<Vec<u8>>) -> Seq<u8>;

/// The position a buffer writes at next.
pub uninterp spec fn buffer_position(buffer: std::io::Cursor<Vec<u8>>) -> nat;

/// The channel count a stream was opened with.
pub uninterp spec fn stream_channels(stream: WavStream) -> u16;

/// The sample rate a stream was opened with.
pub uninterp spec fn stream_rate(stream: WavStream) -> u32;

/// The samples written through a stream so far, in order.
pub uninterp spec fn stream_samples(stream: WavStream) -> Seq<i16>;

/// The bytes the stream's buffer holds once the stream is finished with it.
pub uninterp spec fn stream_outcome(stream: WavStream) -> Seq<u8>;

/// Relies on std::io::Cursor::new: an empty buffer positioned at its start.
#[verifier::external_body]
fn empty_buffer() -> (r: std::io::Cursor<Vec<u8>>)
    ensures
        buffer_contents(r) == Seq::<u8>::empty(),
        buffer_position(r) == 0,
{
    std::io::Cursor::new(Vec::new())
}

/// Relies on std::io::Cursor::into_inner: the bytes written into the buffer.
#[verifier::external_body]
fn buffer_bytes(buffer: std::io::Cursor<Vec<u8>>) -> (r: Vec<u8>)
    ensures
        r@ == buffer_contents(buffer),
{
    buffer.into_inner()
}

/// Relies on hound::WavWriter::new (write.rs, `new_with_spec_ex` and
/// `write_headers`): for 16-bit integers it accepts the spec and writes the
/// header at the buffer's start, which cannot fail in memory. It divides by
/// the rate and multiplies the rate by the block size in 32 bits, so those
/// must be non-zero and fit. Whatever is written through the stream ends up
/// in `buffer` once the stream is gone.
#[verifier::external_body]
fn open_wav<'a>(buffer: &'a mut std::io::Cursor<Vec<u8>>, spec: hound::WavSpec) -> (r: Result<
    WavStream<'a>,
    hound::Error,
>)
    requires
        buffer_contents(*old(buffer)) == Seq::<u8>::empty(),
        buffer_position(*old(buffer)) == 0,
        spec.channels >= 1,
        spec.sample_rate >= 1,
        2 * spec.channels * spec.sample_rate <= u32::MAX,
        spec.bits_per_sample == 16,
        spec.sample_format == hound::SampleFormat::Int,
    ensures
        r is Ok,
        r is Ok ==> stream_channels(r->Ok_0) == spec.channels && stream_rate(r->Ok_0)
            == spec.sample_rate && stream_samples(r->Ok_0) == Seq::<i16>::empty(),
        r is Ok ==> buffer_contents(*final(buffer)) == stream_outcome(r->Ok_0),
{
    hound::WavWriter::new(buffer, spec).map(|writer| WavStream { writer })
}

/// Relies on hound::WavWriter::write_sample: a 16-bit sample is written as
/// two little-endian bytes, which cannot fail in memory, and adds 2 to the
/// data length that hound counts in a `u32`.
#[verifier::external_body]
fn write_wav_sample(stream: &mut WavStream, sample: i16) -> (r: Result<(), hound::Error>)
    requires
        2 * stream_samples(*old(stream)).len() + 2 <= u32::MAX,
    ensures
        r is Ok,
        stream_samples(*final(stream)) == stream_samples(*old(stream)).push(sample),
        stream_channels(*final(stream)) == stream_channels(*old(stream)),
        stream_rate(*final(stream)) == stream_rate(*old(stream)),
        stream_outcome(*final(stream)) == stream_outcome(*old(stream)),
{
    stream.writer.write_sample(sample)
}

/// Relies on hound::WavWriter::finalize and `update_header`: it writes the
/// RIFF and data lengths into the header (adding the header size to the data
/// length in a `u32`) and flushes the buffer, which then holds the header
/// and the samples. It fails with `UnfinishedSample` exactly when the
/// samples do not fill whole frames.
#[verifier::external_body]
fn finalize_wav(stream: WavStream) -> (r: Result<(), hound::Error>)
    requires
        stream_channels(stream) >= 1,
        2 * stream_samples(stream).len() + 60 <= u32::MAX,
    ensures
        r is Ok <==> stream_samples(stream).len() % (stream_channels(stream) as nat) == 0,
        r is Ok ==> stream_outcome(stream) == wav_file(
            stream_channels(stream) as nat,
            stream_rate(stream) as nat,
            stream_samples(stream),
        ),
{
    stream.writer.finalize()
}

/// The largest data chunk a recording holds, in bytes. The WAV header stores
/// the chunk length and the file length in 32 bits, so the data stays clear
/// of `u32::MAX` by more than the largest header.
pub const MAX_DATA_BYTES: u32 = 4294967226;

/// The shape of the samples in a recording: interleaved channels at a rate,
/// always 16-bit signed integers.
#[derive(Clone, Copy, Debug, PartialEq, Eq, Structural)]
pub struct SampleSpec {
    pub channels: u16,
    pub sample_rate: u32,
}

impl SampleSpec {
    /// A spec the encoder accepts: at least one channel, a non-zero rate, and
    /// a byte rate that fits the 32-bit header field.
    pub open spec fn valid(self) -> bool {
        &&& self.channels >= 1
        &&& self.sample_rate >= 1
        &&& 2 * self.channels * self.sample_rate <= u32::MAX
    }

    /// The size of the header in front of the data chunk: the plain PCM
    /// format chunk for mono and stereo, the extensible one above that.
    pub open spec fn header_bytes(self) -> nat {
        header_size(self.channels as nat)
    }

    pub fn is_valid(&self) -> (r: bool)
        ensures
            r == self.valid(),
    {
        let block: u64 = 2 * (self.channels as u64);
        let rate: u64 = self.sample_rate as u64;
        assert(block * rate <= 0x2_0000 * 0x1_0000_0000) by (nonlinear_arith)
            requires
                block <= 0x2_0000,
                rate <= 0x1_0000_0000,
        ;
        self.channels >= 1 && self.sample_rate >= 1 && block * rate <= u32::MAX as u64
    }

    pub fn header_len(&self) -> (r: u64)
        ensures
            r == self.header_bytes(),
    {
        if self.channels <= 2 {
            44
        } else {
            68
        }
    }
}

/// A finalized recording: the encoded file, how many samples it holds, and
/// the size that its header declares.
#[derive(Debug, PartialEq, Eq)]
pub struct Artifact {
    pub bytes: Vec<u8>,
    pub sample_count: u32,
    pub byte_len: u64,
}

impl Artifact {
    /// A recording with nothing after its header.
    pub open spec fn empty(&self) -> bool {
        self.sample_count == 0
    }

    pub fn is_empty(&self) -> (r: bool)
        ensures
            r == self.empty(),
    {
        self.sample_count == 0
    }
}

/// Encodes `samples` as a 16-bit integer WAV file in memory.
fn encode(spec: SampleSpec, samples: &Vec<i16>) -> (r: Result<Vec<u8>, CaptureError>)
    requires
        spec.valid(),
        2 * samples@.len() <= MAX_DATA_BYTES,
    ensures
        r is Ok <==> samples@.len() % (spec.channels as nat) == 0,
        r is Ok ==> r->Ok_0@ == wav_file(spec.channels as nat, spec.sample_rate as nat, samples@),
        r is Err ==> r == Err::<Vec<u8>, CaptureError>(CaptureError::UnfinishedFrame),
{
    let wav_spec = hound::WavSpec {
        channels: spec.channels,
        sample_rate: spec.sample_rate,
        bits_per_sample: 16,
        sample_format: hound::SampleFormat::Int,
    };
    let mut buffer = empty_buffer();
    let mut stream = match open_wav(&mut buffer, wav_spec) {
        Ok(stream) => stream,
        Err(_) => {
            return Err(CaptureError::EncoderIo);
        },
    };
    let ghost outcome = stream_outcome(stream);
    let mut i: usize = 0;
    while i < samples.len()
        invariant
            0 <= i <= samples@.len(),
            2 * samples@.len() <= MAX_DATA_BYTES,
            stream_samples(stream) == samples@.take(i as int),
            stream_channels(stream) == spec.channels,
            stream_rate(stream) == spec.sample_rate,
            stream_outcome(stream) == outcome,
        decreases samples@.len() - i,
    {
        let _ = write_wav_sample(&mut stream, samples[i]);
        proof {
            assert(samples@.take(i + 1) == samples@.take(i as int).push(samples@[i as int]));
        }
        i = i + 1;
    }
    proof {
        assert(samples@.take(i as int) == samples@);
    }
    match finalize_wav(stream) {
        Ok(()) => Ok(buffer_bytes(buffer)),
        Err(_) => Err(CaptureError::UnfinishedFrame),
    }
}

/// The samples of one recording, converted and in arrival order, with the
/// spec they were captured at.
pub struct EncoderHandle {
    spec: SampleSpec,
    samples: Vec<i16>,
}

impl EncoderHandle {
    /// Well-formed: the spec is one the encoder writes, and the samples fit
    /// in the data chunk.
    pub closed spec fn wf(self) -> bool {
        &&& self.spec.valid()
        &&& 2 * self.samples@.len() <= MAX_DATA_BYTES
    }

    /// The samples appended so far, in order.
    pub closed spec fn view_samples(self) -> Seq<i16> {
        self.samples@
    }

    /// The sample spec the recording was opened with.
    pub closed spec fn sample_spec(self) -> SampleSpec {
        self.spec
    }

    /// Opens an empty recording; a spec the encoder cannot write is refused.
    pub fn new(spec: SampleSpec) -> (r: Result<Self, CaptureError>)
        ensures
            spec.valid() <==> r is Ok,
            !spec.valid() ==> r == Err::<Self, CaptureError>(CaptureError::StreamBuildFailed),
            r is Ok ==> r->Ok_0.wf() && r->Ok_0.view_samples() == Seq::<i16>::empty()
                && r->Ok_0.sample_spec() == spec,
    {
        if !spec.is_valid() {
            return Err(CaptureError::StreamBuildFailed);
        }
        Ok(EncoderHandle { spec, samples: Vec::new() })
    }

    pub fn spec(&self) -> (r: SampleSpec)
        ensures
            r == self.sample_spec(),
    {
        self.spec
    }

    /// The samples appended so far, in order.
    pub fn samples(&self) -> (r: &[i16])
        ensures
            r@ == self.view_samples(),
    {
        self.samples.as_slice()
    }

    /// The number of samples appended so far.
    pub fn sample_count(&self) -> (r: u32)
        requires
            self.wf(),
        ensures
            r == self.view_samples().len(),
    {
        self.samples.len() as u32
    }

    /// Appends a block of signed samples in order. A block that would
    /// overflow the data chunk is dropped whole.
    pub fn append_i16(&mut self, input: &[i16]) -> (r: Result<(), CaptureError>)
        requires
            old(self).wf(),
        ensures
            final(self).wf(),
            final(self).sample_spec() == old(self).sample_spec(),
            r is Ok <==> 2 * (old(self).view_samples().len() + input@.len()) <= MAX_DATA_BYTES,
            r is Ok ==> final(self).view_samples() == old(self).view_samples() + input@,
            r is Err ==> r == Err::<(), CaptureError>(CaptureError::CapacityExceeded)
                && final(self).view_samples() == old(self).view_samples(),
    {
        if input.len() > ((MAX_DATA_BYTES as usize - 2 * self.samples.len()) / 2) {
            return Err(CaptureError::CapacityExceeded);
        }
        let ghost start = self.samples@;
        let mut i: usize = 0;
        while i < input.len()
            invariant
                0 <= i <= input@.len(),
                self.spec == old(self).spec,
                self.spec.valid(),
                self.samples@ == start + input@.take(i as int),
                start == old(self).samples@,
                2 * (start.len() + input@.len()) <= MAX_DATA_BYTES,
            decreases input@.len() - i,
        {
            self.samples.push(convert_i16(input[i]));
            proof {
                assert(input@.take(i + 1) == input@.take(i as int).push(input@[i as int]));
            }
            i = i + 1;
        }
        proof {
            assert(input@.take(i as int) == input@);
        }
        Ok(())
    }

    /// Appends a block of unsigned samples, each converted to the signed
    /// encoding, in order; a block that would overflow is dropped whole.
    pub fn append_u16(&mut self, input: &[u16]) -> (r: Result<(), CaptureError>)
        requires
            old(self).wf(),
        ensures
            final(self).wf(),
            final(self).sample_spec() == old(self).sample_spec(),
            r is Ok <==> 2 * (old(self).view_samples().len() + input@.len()) <= MAX_DATA_BYTES,
            r is Ok ==> final(self).view_samples() == old(self).view_samples() + input@.map_values(
                |s: u16| u16_as_i16(s),
            ),
            r is Err ==> r == Err::<(), CaptureError>(CaptureError::CapacityExceeded)
                && final(self).view_samples() == old(self).view_samples(),
    {
        if input.len() > ((MAX_DATA_BYTES as usize - 2 * self.samples.len()) / 2) {
            return Err(CaptureError::CapacityExceeded);
        }
        let ghost start = self.samples@;
        let mut i: usize = 0;
        while i < input.len()
            invariant
                0 <= i <= input@.len(),
                self.spec == old(self).spec,
                self.spec.valid(),
                self.samples@ == start + input@.take(i as int).map_values(|s: u16| u16_as_i16(s)),
                start == old(self).samples@,
                2 * (start.len() + input@.len()) <= MAX_DATA_BYTES,
            decreases input@.len() - i,
        {
            self.samples.push(convert_u16(input[i]));
            proof {
                assert(input@.take(i + 1).map_values(|s: u16| u16_as_i16(s)) == input@.take(
                    i as int,
                ).map_values(|s: u16| u16_as_i16(s)).push(u16_as_i16(input@[i as int])));
            }
            i = i + 1;
        }
        proof {
            assert(input@.take(i as int) == input@);
        }
        Ok(())
    }

    /// Encodes the recording as a WAV file of 16-bit integer samples: the
    /// header for the spec's channels and rate, then every sample appended,
    /// in order. A recording that ends inside a frame is refused.
    pub fn finalize(self) -> (r: Result<Artifact, CaptureError>)
        requires
            self.wf(),
        ensures
            r is Ok <==> self.view_samples().len() % (self.sample_spec().channels as nat) == 0,
            r is Err ==> r == Err::<Artifact, CaptureError>(CaptureError::UnfinishedFrame),
            r is Ok ==> r->Ok_0.bytes@ == wav_file(
                self.sample_spec().channels as nat,
                self.sample_spec().sample_rate as nat,
                self.view_samples(),
            ),
            r is Ok ==> r->Ok_0.sample_count == self.view_samples().len() && r->Ok_0.byte_len
                == self.sample_spec().header_bytes() + 2 * self.view_samples().len()
                && r->Ok_0.bytes@.len() == r->Ok_0.byte_len,
    {
        let count = self.samples.len() as u32;
        let byte_len = self.spec.header_len() + 2 * (count as u64);
        proof {
            lemma_wav_file_len(self.spec.channels as nat, self.spec.sample_rate as nat, self.samples@);
        }
        match encode(self.spec, &self.samples) {
            Ok(bytes) => Ok(Artifact { bytes, sample_count: count, byte_len }),
            Err(e) => Err(e),
        }
    }
}

} // verus!
