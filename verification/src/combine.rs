//! Combining decoded clips: validation, the copy into one stream, and the
//! record of where each clip ends.

use crate::error::CombineError;
use crate::format::AudioSpec;
use crate::timeline::{
    clips_len, interleaved, lemma_gaps, lemma_stops, lemma_timeline_increases, silence, timeline,
};
use vstd::prelude::*;

verus! {

/// A decoded clip: its audio properties and its samples, the channels
/// alternating. A float sample is held as its bit pattern.
#[derive(Clone, Debug, PartialEq, Eq)]
pub struct Clip {
    pub spec: AudioSpec,
    pub samples: Vec<i32>,
}

/// A label and the place where its clip ends in the combined stream.
#[derive(Clone, Debug, PartialEq, Eq)]
pub struct ResultElement {
    /// The label of the clip.
    pub sentence: String,
    /// The end of the clip, in samples over all channels from the start of
    /// the stream. Divided by the number of samples per second it is the time
    /// in seconds.
    pub audio_stop: u64,
}

impl View for ResultElement {
    type V = (Seq<char>, nat);

    open spec fn view(&self) -> (Seq<char>, nat) {
        (self.sentence@, self.audio_stop as nat)
    }
}

/// The samples of each clip of a sequence.
pub open spec fn samples_of(clips: Seq<Clip>) -> Seq<Seq<i32>> {
    Seq::new(clips.len(), |i: int| clips[i].samples@)
}

/// The characters of each label of a sequence.
pub open spec fn labels_of(entries: Seq<String>) -> Seq<Seq<char>> {
    Seq::new(entries.len(), |i: int| entries[i]@)
}

/// The audio properties of the clips of both sequences, the first sequence
/// first.
pub open spec fn specs_of(clips1: Seq<Clip>, clips2: Seq<Clip>) -> Seq<AudioSpec> {
    Seq::new(
        clips1.len() + clips2.len(),
        |i: int|
            if i < clips1.len() {
                clips1[i].spec
            } else {
                clips2[i - clips1.len()].spec
            },
    )
}

/// All clips have the audio properties of the first one.
pub open spec fn uniform(specs: Seq<AudioSpec>) -> bool {
    forall|j: int| 0 <= j < specs.len() ==> #[trigger] specs[j] == specs[0]
}

/// Position `i` holds the first clip whose audio properties differ from those
/// of the first clip.
pub open spec fn is_first_mismatch(specs: Seq<AudioSpec>, i: int) -> bool {
    &&& 0 <= i < specs.len()
    &&& specs[i] != specs[0]
    &&& forall|j: int| 0 <= j < i ==> #[trigger] specs[j] == specs[0]
}

/// The four sequences are not all of the same length.
pub open spec fn lengths_differ(clips1: nat, clips2: nat, entries1: nat, entries2: nat) -> bool {
    clips1 != clips2 || clips1 != entries1 || clips2 != entries2
}

/// Checks the lengths of the two clip sequences and the two label sequences:
/// they must all be equal, and not zero. Needs no clip to be read.
pub fn check_lengths(clips1: usize, clips2: usize, entries1: usize, entries2: usize) -> (r: Result<
    (),
    CombineError,
>)
    ensures
        lengths_differ(clips1 as nat, clips2 as nat, entries1 as nat, entries2 as nat) ==> r == Err::<
            (),
            _,
        >(CombineError::LengthMismatch),
        !lengths_differ(clips1 as nat, clips2 as nat, entries1 as nat, entries2 as nat) && clips1
            == 0 ==> r == Err::<(), _>(CombineError::EmptyInput),
        !lengths_differ(clips1 as nat, clips2 as nat, entries1 as nat, entries2 as nat) && clips1
            > 0 ==> r == Ok::<_, CombineError>(()),
{
    if clips1 != clips2 || clips1 != entries1 || clips2 != entries2 {
        return Err(CombineError::LengthMismatch);
    }
    if clips1 == 0 {
        return Err(CombineError::EmptyInput);
    }
    Ok(())
}

/// Appends `sample_count` samples of silence to the stream.
pub fn write_silence(writer: &mut Vec<i32>, sample_count: u64)
    ensures
        final(writer)@ == old(writer)@ + silence(sample_count as nat),
{
    let ghost before = writer@;
    let mut written: u64 = 0;
    while written < sample_count
        invariant
            written <= sample_count,
            writer@ == before + silence(written as nat),
        decreases sample_count - written,
    {
        writer.push(0);
        written = written + 1;
        assert(writer@ =~= before + silence(written as nat));
    }
}

/// Appends the samples of a clip to the stream, unchanged, and returns the
/// clip's length in samples. A clip of a kind that cannot be copied is
/// refused, and the stream stays as it was.
pub fn write_clip_to_output(writer: &mut Vec<i32>, clip: &Clip, expected_spec: &AudioSpec) -> (r:
    Result<u64, CombineError>)
    ensures
        expected_spec.is_supported() ==> r == Ok::<u64, CombineError>(clip.samples@.len() as u64)
            && final(writer)@ == old(writer)@ + clip.samples@,
        !expected_spec.is_supported() ==> r == Err::<u64, _>(CombineError::UnsupportedBitDepth)
            && final(writer)@ == old(writer)@,
{
    if !expected_spec.supported() {
        return Err(CombineError::UnsupportedBitDepth);
    }
    let ghost before = writer@;
    let count: usize = clip.samples.len();
    let mut copied: usize = 0;
    while copied < count
        invariant
            copied <= count,
            count == clip.samples@.len(),
            writer@ == before + clip.samples@.take(copied as int),
        decreases count - copied,
    {
        writer.push(clip.samples[copied]);
        copied = copied + 1;
        assert(writer@ =~= before + clip.samples@.take(copied as int));
    }
    assert(clip.samples@.take(count as int) =~= clip.samples@);
    Ok(count as u64)
}

/// Finds the first clip, counting through `clips1` and then through `clips2`,
/// whose audio properties differ from those of the first clip of `clips1`.
fn first_spec_mismatch(clips1: &[Clip], clips2: &[Clip]) -> (found: Option<usize>)
    requires
        clips1@.len() > 0,
        clips1@.len() + clips2@.len() <= usize::MAX,
    ensures
        match found {
            Some(i) => is_first_mismatch(specs_of(clips1@, clips2@), i as int),
            None => uniform(specs_of(clips1@, clips2@)),
        },
{
    let spec: AudioSpec = clips1[0].spec;
    let ghost specs = specs_of(clips1@, clips2@);
    let len1: usize = clips1.len();
    let len2: usize = clips2.len();
    let mut i: usize = 0;
    while i < len1
        invariant
            i <= len1,
            len1 == clips1@.len(),
            spec == specs[0],
            specs == specs_of(clips1@, clips2@),
            forall|j: int| 0 <= j < i ==> #[trigger] specs[j] == specs[0],
        decreases len1 - i,
    {
        if clips1[i].spec != spec {
            return Some(i);
        }
        i = i + 1;
    }
    let mut j: usize = 0;
    while j < len2
        invariant
            j <= len2,
            len1 == clips1@.len(),
            len2 == clips2@.len(),
            len1 + len2 <= usize::MAX,
            spec == specs[0],
            specs == specs_of(clips1@, clips2@),
            forall|k: int| 0 <= k < len1 + j ==> #[trigger] specs[k] == specs[0],
        decreases len2 - j,
    {
        if clips2[j].spec != spec {
            return Some(len1 + j);
        }
        j = j + 1;
    }
    None
}

/// Combines the clips of two sequences alternately into one stream, with a
/// gap of one second of silence between consecutive clips and none after the
/// last, and records for each clip its label and where it ends.
///
/// The sequences must all be of one length (`LengthMismatch`) that is not
/// zero (`EmptyInput`); every clip must have the audio properties of the
/// first (`SpecMismatch`, with the position of the first clip that differs);
/// and those properties must be of a kind that can be copied
/// (`UnsupportedBitDepth`). The first of these that fails decides the error.
/// Otherwise the result is the combined clip and one record for each clip, in
/// the order in which the clips enter the stream.
pub fn combine_clips_alternately(
    clips1: &[Clip],
    clips2: &[Clip],
    entries1: &[String],
    entries2: &[String],
) -> (r: Result<(Clip, Vec<ResultElement>), CombineError>)
    requires
        clips1@.len() + clips2@.len() <= usize::MAX,
    ensures
        lengths_differ(clips1@.len(), clips2@.len(), entries1@.len(), entries2@.len()) ==> r
            == Err::<(Clip, Vec<ResultElement>), _>(CombineError::LengthMismatch),
        !lengths_differ(clips1@.len(), clips2@.len(), entries1@.len(), entries2@.len())
            && clips1@.len() == 0 ==> r == Err::<(Clip, Vec<ResultElement>), _>(
            CombineError::EmptyInput,
        ),
        !lengths_differ(clips1@.len(), clips2@.len(), entries1@.len(), entries2@.len())
            && clips1@.len() > 0 ==> match r {
            Err(CombineError::SpecMismatch(i)) => is_first_mismatch(
                specs_of(clips1@, clips2@),
                i as int,
            ),
            Err(CombineError::UnsupportedBitDepth) => uniform(specs_of(clips1@, clips2@))
                && !clips1@[0].spec.is_supported(),
            Err(_) => false,
            Ok((combined, entries)) => {
                &&& uniform(specs_of(clips1@, clips2@))
                &&& clips1@[0].spec.is_supported()
                &&& combined.spec == clips1@[0].spec
                &&& combined.samples@ == interleaved(
                    samples_of(clips1@),
                    samples_of(clips2@),
                    combined.spec.samples_per_second(),
                    clips1@.len(),
                )
                &&& combined.samples@.len() == clips_len(samples_of(clips1@), clips1@.len())
                    + clips_len(samples_of(clips2@), clips1@.len()) + (2 * clips1@.len() - 1)
                    * combined.spec.samples_per_second()
                &&& entries@.len() == 2 * clips1@.len()
                &&& forall|k: int|
                    0 <= k < entries@.len() ==> (#[trigger] entries@[k])@ == timeline(
                        labels_of(entries1@),
                        labels_of(entries2@),
                        samples_of(clips1@),
                        samples_of(clips2@),
                        combined.spec.samples_per_second(),
                        clips1@.len(),
                    )[k]
                &&& combined.spec.samples_per_second() > 0 ==> forall|j: int, k: int|
                    0 <= j < k < entries@.len() ==> entries@[j].audio_stop
                        < entries@[k].audio_stop
            },
        },
{
    match check_lengths(clips1.len(), clips2.len(), entries1.len(), entries2.len()) {
        Err(e) => {
            return Err(e);
        },
        Ok(_) => {},
    }
    match first_spec_mismatch(clips1, clips2) {
        Some(i) => {
            return Err(CombineError::SpecMismatch(i));
        },
        None => {},
    }
    let spec: AudioSpec = clips1[0].spec;
    let gap_samples: u64 = spec.gap_samples();
    let pairs: usize = clips1.len();

    let ghost a = samples_of(clips1@);
    let ghost b = samples_of(clips2@);
    let ghost gap = spec.samples_per_second();
    let ghost records = timeline(labels_of(entries1@), labels_of(entries2@), a, b, gap, pairs as nat);

    let mut stream: Vec<i32> = Vec::new();
    let mut current_time: u64 = 0;
    let mut result_elements: Vec<ResultElement> = Vec::new();

    let mut i: usize = 0;
    while i < pairs
        invariant
            i <= pairs,
            pairs == clips1@.len(),
            pairs == clips2@.len(),
            pairs == entries1@.len(),
            pairs == entries2@.len(),
            spec == clips1@[0].spec,
            uniform(specs_of(clips1@, clips2@)),
            gap_samples == gap,
            gap == spec.samples_per_second(),
            a == samples_of(clips1@),
            b == samples_of(clips2@),
            records == timeline(labels_of(entries1@), labels_of(entries2@), a, b, gap, pairs as nat),
            i > 0 ==> spec.is_supported(),
            stream@ == if i == 0 {
                Seq::<i32>::empty()
            } else if i < pairs {
                interleaved(a, b, gap, i as nat) + silence(gap)
            } else {
                interleaved(a, b, gap, i as nat)
            },
            current_time == stream@.len(),
            result_elements@.len() == 2 * i,
            forall|k: int| 0 <= k < 2 * i ==> (#[trigger] result_elements@[k])@ == records[k],
        ensures
            i == pairs,
        decreases pairs - i,
    {
        let ghost lead = stream@;
        proof {
            lemma_stops(a, b, gap, i as nat);
        }

        // The clip of the first sequence
        let duration1: u64 = match write_clip_to_output(&mut stream, &clips1[i], &spec) {
            Err(e) => {
                return Err(e);
            },
            Ok(duration) => duration,
        };
        assert(stream@.len() == stream.len());
        current_time = current_time + duration1;
        result_elements.push(
            ResultElement { sentence: entries1[i].clone(), audio_stop: current_time },
        );

        // One second of silence
        write_silence(&mut stream, gap_samples);
        assert(stream@.len() == stream.len());
        current_time = current_time + gap_samples;

        // The clip of the second sequence
        let duration2: u64 = match write_clip_to_output(&mut stream, &clips2[i], &spec) {
            Err(e) => {
                return Err(e);
            },
            Ok(duration) => duration,
        };
        assert(stream@.len() == stream.len());
        current_time = current_time + duration2;
        assert(stream@ =~= interleaved(a, b, gap, (i + 1) as nat)) by {
            assert(stream@ =~= lead + a[i as int] + silence(gap) + b[i as int]);
            if i > 0 {
                assert(lead + a[i as int] + silence(gap) + b[i as int] =~= interleaved(
                    a,
                    b,
                    gap,
                    i as nat,
                ) + silence(gap) + a[i as int] + silence(gap) + b[i as int]);
            }
        }
        result_elements.push(
            ResultElement { sentence: entries2[i].clone(), audio_stop: current_time },
        );

        // One second of silence after each pair but the last
        if i < pairs - 1 {
            write_silence(&mut stream, gap_samples);
            assert(stream@.len() == stream.len());
            current_time = current_time + gap_samples;
        }
        i = i + 1;
    }

    proof {
        lemma_gaps(a, b, gap, pairs as nat);
        if gap > 0 {
            lemma_timeline_increases(
                labels_of(entries1@),
                labels_of(entries2@),
                a,
                b,
                gap,
                pairs as nat,
            );
        }
    }
    Ok((Clip { spec, samples: stream }, result_elements))
}

} // verus!
