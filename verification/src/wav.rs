//! Clips as WAVE data: decoding and encoding, both done by the `hound` crate.
//!
//! What `hound` computes is not proved here. Each call into it stands in a
//! function of its own, whose contract names what the call returns; the
//! functions built on them are verified against those contracts.

use crate::combine::Clip;
use crate::error::{CombineError, WavFailure};
use crate::format::{AudioSpec, SampleFormat};
use vstd::prelude::*;

verus! {

/// `hound::WavReader`, a reader of WAVE data over a source `R`. Nothing
/// inside it is visible here.
#[verifier::external_type_specification]
#[verifier::external_body]
#[verifier::reject_recursive_types(R)]
pub struct ExWavReader<R>(hound::WavReader<R>);

/// `hound::Error`, the failure that `hound` reports. Nothing inside it is
/// visible here.
#[verifier::external_type_specification]
#[verifier::external_body]
pub struct ExWavError(hound::Error);

/// What `hound::WavReader::new` makes of a byte sequence: a reader that has
/// taken in the header, or the reason why it could not.
pub uninterp spec fn wav_reader(bytes: Seq<u8>) -> Result<
    hound::WavReader<&'static [u8]>,
    hound::Error,
>;

/// The audio properties that a reader found in the header.
pub uninterp spec fn header_spec(reader: hound::WavReader<&[u8]>) -> AudioSpec;

/// What a reader has yet to yield, asked for integer samples: each item is a
/// sample or the reason why it could not be read.
pub uninterp spec fn pending(reader: hound::WavReader<&[u8]>) -> Seq<Result<i32, hound::Error>>;

/// The kind of a failure that `hound` reports.
pub uninterp spec fn failure_kind(error: hound::Error) -> WavFailure;

/// The WAVE data that `hound::WavWriter` produces for these audio properties
/// and samples, or the reason why it could not.
pub uninterp spec fn wav_image(spec: AudioSpec, samples: Seq<i32>) -> Result<Seq<u8>, hound::Error>;

/// Calls `hound::WavReader::new` on the bytes, which reads the header up to
/// the start of the sample data. The outcome depends on the bytes alone.
#[verifier::external_body]
fn open_reader<'a>(bytes: &'a [u8]) -> (r: Result<hound::WavReader<&'a [u8]>, hound::Error>)
    ensures
        r == wav_reader(bytes@),
{
    hound::WavReader::new(bytes)
}

/// Calls `hound::WavReader::spec`, which returns the audio properties found
/// in the header, and hands them over field by field.
#[verifier::external_body]
fn reader_spec(reader: &hound::WavReader<&[u8]>) -> (spec: AudioSpec)
    ensures
        spec == header_spec(*reader),
{
    let spec = reader.spec();
    AudioSpec {
        channels: spec.channels,
        sample_rate: spec.sample_rate,
        bits_per_sample: spec.bits_per_sample,
        sample_format: match spec.sample_format {
            hound::SampleFormat::Float => SampleFormat::Float,
            hound::SampleFormat::Int => SampleFormat::Int,
        },
    }
}

/// Calls `next` on `hound::WavReader::samples`, asking for an `i32`. The
/// iterator goes on where the last one stopped and yields one item for each
/// sample that the header announced; the header stays as it was.
#[verifier::external_body]
fn next_sample(reader: &mut hound::WavReader<&[u8]>) -> (item: Option<Result<i32, hound::Error>>)
    ensures
        header_spec(*final(reader)) == header_spec(*old(reader)),
        match item {
            Some(sample) => pending(*old(reader)).len() > 0 && sample == pending(*old(reader))[0]
                && pending(*final(reader)) == pending(*old(reader)).drop_first(),
            None => pending(*old(reader)).len() == 0 && pending(*final(reader)).len() == 0,
        },
{
    reader.samples::<i32>().next()
}

/// Tells the variants of `hound::Error` apart.
#[verifier::external_body]
fn failure_of(error: &hound::Error) -> (kind: WavFailure)
    ensures
        kind == failure_kind(*error),
{
    match error {
        hound::Error::IoError(_) => WavFailure::Io,
        hound::Error::FormatError(_) => WavFailure::Format,
        hound::Error::TooWide => WavFailure::TooWide,
        hound::Error::UnfinishedSample => WavFailure::UnfinishedSample,
        hound::Error::Unsupported => WavFailure::Unsupported,
        hound::Error::InvalidSampleFormat => WavFailure::InvalidSampleFormat,
    }
}

/// Writes the samples, in their order, to a `hound::WavWriter` that was made
/// by `hound::WavWriter::new` for the audio properties over a buffer in
/// memory, finalizes the writer, and returns the buffer. The writer keeps its
/// buffer for as long as it lives, so the three calls stand together. The
/// outcome depends on the audio properties and the samples alone.
///
/// Left out are the audio properties for which the writer panics, and the
/// lengths for which its 32-bit counters overflow.
#[verifier::external_body]
fn encode(spec: AudioSpec, samples: &Vec<i32>) -> (r: Result<Vec<u8>, hound::Error>)
    requires
        is_encodable(spec, samples@.len()),
    ensures
        match r {
            Ok(bytes) => wav_image(spec, samples@) == Ok::<Seq<u8>, hound::Error>(bytes@),
            Err(error) => wav_image(spec, samples@) == Err::<Seq<u8>, hound::Error>(error),
        },
{
    let sample_format = match spec.sample_format {
        SampleFormat::Float => hound::SampleFormat::Float,
        SampleFormat::Int => hound::SampleFormat::Int,
    };
    let AudioSpec { channels, sample_rate, bits_per_sample, .. } = spec;
    let wav_spec = hound::WavSpec { channels, sample_rate, bits_per_sample, sample_format };
    let mut buffer = std::io::Cursor::new(Vec::new());
    let mut writer = hound::WavWriter::new(&mut buffer, wav_spec)?;
    for sample in samples.iter() {
        writer.write_sample(*sample)?;
    }
    writer.finalize()?;
    Ok(buffer.into_inner())
}

/// Position `k` holds the first item that is a failure.
pub open spec fn is_first_failure(items: Seq<Result<i32, hound::Error>>, k: int) -> bool {
    &&& 0 <= k < items.len()
    &&& items[k] is Err
    &&& forall|j: int| 0 <= j < k ==> (#[trigger] items[j]) is Ok
}

/// The samples are what the items hold, and no item is a failure.
pub open spec fn all_read(items: Seq<Result<i32, hound::Error>>, samples: Seq<i32>) -> bool {
    &&& samples.len() == items.len()
    &&& forall|k: int| 0 <= k < items.len() ==> (#[trigger] items[k]) == Ok::<i32, hound::Error>(samples[k])
}

/// Reads all that a reader has yet to yield into a clip. The first sample
/// that cannot be read decides the failure.
pub fn clip_from_reader(reader: hound::WavReader<&[u8]>) -> (r: Result<Clip, CombineError>)
    ensures
        match r {
            Ok(clip) => clip.spec == header_spec(reader) && all_read(pending(reader), clip.samples@),
            Err(CombineError::Io(kind)) => exists|k: int|
                is_first_failure(pending(reader), k) && kind == failure_kind(
                    pending(reader)[k]->Err_0,
                ),
            Err(_) => false,
        },
{
    let ghost start = reader;
    let mut source = reader;
    let spec = reader_spec(&source);
    let mut samples: Vec<i32> = Vec::new();
    loop
        invariant
            start == reader,
            spec == header_spec(start),
            pending(start).len() == samples@.len() + pending(source).len(),
            forall|k: int|
                0 <= k < samples@.len() ==> (#[trigger] pending(start)[k]) == Ok::<i32, hound::Error>(
                    samples@[k],
                ),
            forall|k: int|
                0 <= k < pending(source).len() ==> pending(start)[samples@.len() + k]
                    == #[trigger] pending(source)[k],
        decreases pending(source).len(),
    {
        let ghost before = source;
        match next_sample(&mut source) {
            None => {
                return Ok(Clip { spec, samples });
            },
            Some(Ok(sample)) => {
                samples.push(sample);
                assert forall|k: int| 0 <= k < pending(source).len() implies pending(
                    start,
                )[samples@.len() + k] == #[trigger] pending(source)[k] by {
                    assert(pending(source)[k] == pending(before)[k + 1]);
                }
                assert(pending(start)[samples@.len() - 1] == pending(before)[0]);
            },
            Some(Err(error)) => {
                let kind = failure_of(&error);
                assert(pending(start)[samples@.len() as int] == pending(before)[0]);
                assert(is_first_failure(pending(start), samples@.len() as int));
                return Err(CombineError::Io(kind));
            },
        }
    }
}

/// Decodes WAVE data with integer samples into a clip.
///
/// The header must be one that `hound` accepts, and every sample that it
/// announces must be there. Float samples are not decoded here: their items
/// are failures of the kind `InvalidSampleFormat`.
pub fn decode_clip(bytes: &[u8]) -> (r: Result<Clip, CombineError>)
    ensures
        match wav_reader(bytes@) {
            Err(error) => r == Err::<Clip, _>(CombineError::Io(failure_kind(error))),
            Ok(reader) => match r {
                Ok(clip) => clip.spec == header_spec(reader) && all_read(
                    pending(reader),
                    clip.samples@,
                ),
                Err(CombineError::Io(kind)) => exists|k: int|
                    is_first_failure(pending(reader), k) && kind == failure_kind(
                        pending(reader)[k]->Err_0,
                    ),
                Err(_) => false,
            },
        },
{
    match open_reader(bytes) {
        Err(error) => Err(CombineError::Io(failure_of(&error))),
        Ok(reader) => clip_from_reader(reader),
    }
}

/// Whether `samples` samples of these audio properties make one WAVE file.
pub open spec fn is_encodable(spec: AudioSpec, samples: nat) -> bool {
    spec.is_writable() && samples * spec.bytes_per_sample() + spec.header_len() <= u32::MAX
}

/// Tells whether `samples` samples of these audio properties make one WAVE
/// file, and why not: the kind cannot be copied (`UnsupportedBitDepth`), a
/// WAVE header cannot express the properties (`Unsupported`), or the samples
/// are more than the length fields can describe (`TooLong`).
pub fn check_encodable(spec: &AudioSpec, samples: usize) -> (r: Result<(), CombineError>)
    ensures
        !spec.is_supported() ==> r == Err::<(), _>(CombineError::UnsupportedBitDepth),
        spec.is_supported() && !spec.is_writable() ==> r == Err::<(), _>(
            CombineError::Io(WavFailure::Unsupported),
        ),
        spec.is_writable() && !is_encodable(*spec, samples as nat) ==> r == Err::<(), _>(
            CombineError::Io(WavFailure::TooLong),
        ),
        is_encodable(*spec, samples as nat) ==> r == Ok::<_, CombineError>(()),
{
    if !spec.supported() {
        return Err(CombineError::UnsupportedBitDepth);
    }
    if !spec.writable() {
        return Err(CombineError::Io(WavFailure::Unsupported));
    }
    if !spec.fits(samples) {
        return Err(CombineError::Io(WavFailure::TooLong));
    }
    Ok(())
}

/// Encodes a clip as WAVE data.
///
/// A clip that `check_encodable` refuses is refused for the same reason.
/// Otherwise `hound` decides: it refuses a sample with more bits than the
/// clip's audio properties give it, and a number of samples that is no
/// multiple of the number of channels.
pub fn encode_clip(clip: &Clip) -> (r: Result<Vec<u8>, CombineError>)
    ensures
        !clip.spec.is_supported() ==> r == Err::<Vec<u8>, _>(CombineError::UnsupportedBitDepth),
        clip.spec.is_supported() && !clip.spec.is_writable() ==> r == Err::<Vec<u8>, _>(
            CombineError::Io(WavFailure::Unsupported),
        ),
        clip.spec.is_writable() && !is_encodable(clip.spec, clip.samples@.len()) ==> r == Err::<
            Vec<u8>,
            _,
        >(CombineError::Io(WavFailure::TooLong)),
        is_encodable(clip.spec, clip.samples@.len()) ==> match wav_image(
            clip.spec,
            clip.samples@,
        ) {
            Ok(image) => r matches Ok(bytes) && bytes@ == image,
            Err(error) => r == Err::<Vec<u8>, _>(CombineError::Io(failure_kind(error))),
        },
{
    match check_encodable(&clip.spec, clip.samples.len()) {
        Err(refusal) => {
            return Err(refusal);
        },
        Ok(_) => {},
    }
    match encode(clip.spec, &clip.samples) {
        Ok(bytes) => Ok(bytes),
        Err(error) => Err(CombineError::Io(failure_of(&error))),
    }
}

} // verus!
