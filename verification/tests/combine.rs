use clip_combine::{
    check_lengths, combine_clips_alternately, write_clip_to_output, write_silence, AudioSpec,
    Clip, CombineError, ResultElement, SampleFormat,
};

fn spec(channels: u16, sample_rate: u32, bits_per_sample: u16) -> AudioSpec {
    AudioSpec { channels, sample_rate, bits_per_sample, sample_format: SampleFormat::Int }
}

fn clip(spec: AudioSpec, samples: &[i32]) -> Clip {
    Clip { spec, samples: samples.to_vec() }
}

fn labels(texts: &[&str]) -> Vec<String> {
    texts.iter().map(|t| t.to_string()).collect()
}

fn stops(entries: &[ResultElement]) -> Vec<u64> {
    entries.iter().map(|e| e.audio_stop).collect()
}

#[test]
fn single_pair_yields_both_stops() {
    let s = spec(1, 4, 16);
    let (combined, entries) = combine_clips_alternately(
        &[clip(s, &[7, 8])],
        &[clip(s, &[9])],
        &labels(&["a"]),
        &labels(&["b"]),
    )
    .unwrap();
    assert_eq!(combined.spec, s);
    assert_eq!(combined.samples, vec![7, 8, 0, 0, 0, 0, 9]);
    assert_eq!(
        entries,
        vec![
            ResultElement { sentence: "a".to_string(), audio_stop: 2 },
            ResultElement { sentence: "b".to_string(), audio_stop: 7 },
        ]
    );
}

#[test]
fn single_pair_stops_in_seconds() {
    // Half a second and a quarter of a second of stereo audio at 8 Hz.
    let s = spec(2, 8, 16);
    let first = vec![1; 8];
    let second = vec![2; 4];
    let (combined, entries) = combine_clips_alternately(
        &[clip(s, &first)],
        &[clip(s, &second)],
        &labels(&["a"]),
        &labels(&["b"]),
    )
    .unwrap();
    let per_second = (combined.spec.sample_rate as f64) * (combined.spec.channels as f64);
    let seconds: Vec<f64> = entries.iter().map(|e| e.audio_stop as f64 / per_second).collect();
    assert_eq!(seconds, vec![0.5, 0.5 + 1.0 + 0.25]);
    assert_eq!(entries[0].sentence, "a");
    assert_eq!(entries[1].sentence, "b");
}

#[test]
fn three_pairs_alternate_with_gaps_between() {
    let s = spec(1, 2, 16);
    let (combined, entries) = combine_clips_alternately(
        &[clip(s, &[1]), clip(s, &[3, 3]), clip(s, &[5])],
        &[clip(s, &[2, 2]), clip(s, &[4]), clip(s, &[6, 6, 6])],
        &labels(&["a0", "a1", "a2"]),
        &labels(&["b0", "b1", "b2"]),
    )
    .unwrap();
    assert_eq!(
        combined.samples,
        vec![1, 0, 0, 2, 2, 0, 0, 3, 3, 0, 0, 4, 0, 0, 5, 0, 0, 6, 6, 6]
    );
    let names: Vec<&str> = entries.iter().map(|e| e.sentence.as_str()).collect();
    assert_eq!(names, vec!["a0", "b0", "a1", "b1", "a2", "b2"]);
    assert_eq!(stops(&entries), vec![1, 5, 9, 12, 15, 20]);
}

#[test]
fn record_count_is_twice_the_pairs_and_stops_increase() {
    let s = spec(2, 3, 24);
    let first = vec![clip(s, &[]), clip(s, &[1, 2]), clip(s, &[]), clip(s, &[3, 4, 5, 6])];
    let second = vec![clip(s, &[]), clip(s, &[]), clip(s, &[7, 8]), clip(s, &[])];
    let (_, entries) = combine_clips_alternately(
        &first,
        &second,
        &labels(&["a", "b", "c", "d"]),
        &labels(&["e", "f", "g", "h"]),
    )
    .unwrap();
    assert_eq!(entries.len(), 2 * first.len());
    for pair in entries.windows(2) {
        assert!(pair[0].audio_stop < pair[1].audio_stop);
    }
    assert_eq!(stops(&entries), vec![0, 6, 14, 20, 26, 34, 44, 50]);
}

#[test]
fn stream_holds_all_clips_and_one_gap_less_than_twice_the_pairs() {
    let s = spec(2, 5, 32);
    let gap = 10;
    let first = vec![clip(s, &[1, 1]), clip(s, &[2, 2, 2, 2]), clip(s, &[3, 3])];
    let second = vec![clip(s, &[4, 4, 4, 4]), clip(s, &[5, 5]), clip(s, &[6, 6, 6, 6, 6, 6])];
    let (combined, entries) = combine_clips_alternately(
        &first,
        &second,
        &labels(&["a", "b", "c"]),
        &labels(&["d", "e", "f"]),
    )
    .unwrap();
    let clip_samples: usize =
        first.iter().chain(second.iter()).map(|c| c.samples.len()).sum();
    assert_eq!(clip_samples, 20);
    assert_eq!(combined.samples.len(), clip_samples + (2 * 3 - 1) * gap);
    assert_eq!(combined.samples.iter().filter(|v| **v == 0).count(), 5 * gap);
    // No gap follows the final pair: the stream ends with its last clip.
    assert_eq!(&combined.samples[combined.samples.len() - 6..], &[6, 6, 6, 6, 6, 6]);
    assert_eq!(entries.last().unwrap().audio_stop, combined.samples.len() as u64);
}

#[test]
fn gap_is_one_second_of_zero_samples() {
    let s = spec(2, 44100, 16);
    let (combined, entries) = combine_clips_alternately(
        &[clip(s, &[5, -5])],
        &[clip(s, &[6, -6])],
        &labels(&["x"]),
        &labels(&["y"]),
    )
    .unwrap();
    assert_eq!(combined.samples.len(), 2 + 88200 + 2);
    assert!(combined.samples[2..88202].iter().all(|v| *v == 0));
    assert_eq!(stops(&entries), vec![2, 88204]);
}

#[test]
fn float_samples_pass_through_as_bit_patterns() {
    let s = AudioSpec {
        channels: 1,
        sample_rate: 2,
        bits_per_sample: 32,
        sample_format: SampleFormat::Float,
    };
    let half = 0.5f32.to_bits() as i32;
    let minus = (-1.0f32).to_bits() as i32;
    let (combined, _) = combine_clips_alternately(
        &[clip(s, &[half])],
        &[clip(s, &[minus])],
        &labels(&["a"]),
        &labels(&["b"]),
    )
    .unwrap();
    let values: Vec<f32> = combined.samples.iter().map(|w| f32::from_bits(*w as u32)).collect();
    assert_eq!(values, vec![0.5, 0.0, 0.0, -1.0]);
}

#[test]
fn mismatched_lengths_fail() {
    let s = spec(1, 4, 16);
    let r = combine_clips_alternately(
        &[clip(s, &[1]), clip(s, &[2])],
        &[clip(s, &[3])],
        &labels(&["a", "b"]),
        &labels(&["c"]),
    );
    assert_eq!(r, Err(CombineError::LengthMismatch));
    assert_eq!(check_lengths(2, 1, 2, 1), Err(CombineError::LengthMismatch));
}

#[test]
fn mismatched_labels_fail() {
    let s = spec(1, 4, 16);
    let r = combine_clips_alternately(
        &[clip(s, &[1])],
        &[clip(s, &[3])],
        &labels(&["a", "b"]),
        &labels(&["c"]),
    );
    assert_eq!(r, Err(CombineError::LengthMismatch));
    assert_eq!(check_lengths(1, 1, 2, 1), Err(CombineError::LengthMismatch));
    assert_eq!(check_lengths(1, 1, 1, 2), Err(CombineError::LengthMismatch));
    // Lengths are looked at before emptiness.
    assert_eq!(check_lengths(0, 0, 1, 0), Err(CombineError::LengthMismatch));
}

#[test]
fn empty_sequences_fail() {
    let r = combine_clips_alternately(&[], &[], &[], &[]);
    assert_eq!(r, Err(CombineError::EmptyInput));
    assert_eq!(check_lengths(0, 0, 0, 0), Err(CombineError::EmptyInput));
}

#[test]
fn equal_lengths_pass_the_check() {
    assert_eq!(check_lengths(1, 1, 1, 1), Ok(()));
    assert_eq!(check_lengths(3, 3, 3, 3), Ok(()));
}

#[test]
fn different_sample_rate_fails_with_its_position() {
    let s = spec(1, 44100, 16);
    let other = spec(1, 48000, 16);
    let r = combine_clips_alternately(
        &[clip(s, &[1]), clip(other, &[2])],
        &[clip(s, &[3]), clip(s, &[4])],
        &labels(&["a", "b"]),
        &labels(&["c", "d"]),
    );
    assert_eq!(r, Err(CombineError::SpecMismatch(1)));
}

#[test]
fn mismatch_in_second_sequence_counts_on_from_the_first() {
    let s = spec(2, 44100, 16);
    let r = combine_clips_alternately(
        &[clip(s, &[1, 1]), clip(s, &[2, 2])],
        &[clip(s, &[3, 3]), clip(spec(1, 44100, 16), &[4])],
        &labels(&["a", "b"]),
        &labels(&["c", "d"]),
    );
    assert_eq!(r, Err(CombineError::SpecMismatch(3)));
}

#[test]
fn first_of_several_mismatches_is_reported() {
    let s = spec(1, 8000, 16);
    let float = AudioSpec { sample_format: SampleFormat::Float, ..spec(1, 8000, 16) };
    let r = combine_clips_alternately(
        &[clip(s, &[1]), clip(s, &[2])],
        &[clip(spec(1, 8000, 24), &[3]), clip(float, &[4])],
        &labels(&["a", "b"]),
        &labels(&["c", "d"]),
    );
    assert_eq!(r, Err(CombineError::SpecMismatch(2)));
}

#[test]
fn unsupported_bit_depth_fails() {
    let s = spec(1, 8000, 8);
    let r = combine_clips_alternately(
        &[clip(s, &[1])],
        &[clip(s, &[2])],
        &labels(&["a"]),
        &labels(&["b"]),
    );
    assert_eq!(r, Err(CombineError::UnsupportedBitDepth));
}

#[test]
fn mismatch_is_reported_before_bit_depth() {
    let r = combine_clips_alternately(
        &[clip(spec(1, 8000, 8), &[1])],
        &[clip(spec(1, 8000, 16), &[2])],
        &labels(&["a"]),
        &labels(&["b"]),
    );
    assert_eq!(r, Err(CombineError::SpecMismatch(1)));
}

#[test]
fn supported_kinds() {
    for bits in [16u16, 24, 32] {
        assert!(spec(1, 8000, bits).supported());
    }
    for bits in [0u16, 8, 12, 20, 40, 64] {
        assert!(!spec(1, 8000, bits).supported());
    }
    let float = |bits| AudioSpec { sample_format: SampleFormat::Float, ..spec(1, 8000, bits) };
    assert!(float(32).supported());
    assert!(!float(16).supported());
    assert!(!float(24).supported());
    assert!(!float(64).supported());
}

#[test]
fn gap_samples_is_rate_times_channels() {
    assert_eq!(spec(2, 44100, 16).gap_samples(), 88200);
    assert_eq!(spec(1, 8000, 16).gap_samples(), 8000);
    assert_eq!(spec(0, 8000, 16).gap_samples(), 0);
    assert_eq!(spec(65535, 4294967295, 16).gap_samples(), 281470681677825);
}

#[test]
fn write_silence_appends_zeros() {
    let mut stream = vec![4, 5];
    write_silence(&mut stream, 3);
    assert_eq!(stream, vec![4, 5, 0, 0, 0]);
    write_silence(&mut stream, 0);
    assert_eq!(stream, vec![4, 5, 0, 0, 0]);
}

#[test]
fn write_clip_appends_samples_and_returns_their_count() {
    let s = spec(1, 8000, 24);
    let mut stream = vec![1];
    let r = write_clip_to_output(&mut stream, &clip(s, &[-2, 3, -4]), &s);
    assert_eq!(r, Ok(3));
    assert_eq!(stream, vec![1, -2, 3, -4]);
}

#[test]
fn write_clip_refuses_unsupported_depth_and_leaves_stream() {
    let s = spec(1, 8000, 8);
    let mut stream = vec![1];
    let r = write_clip_to_output(&mut stream, &clip(s, &[2, 3]), &s);
    assert_eq!(r, Err(CombineError::UnsupportedBitDepth));
    assert_eq!(stream, vec![1]);
}
