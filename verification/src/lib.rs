//! Joins short audio clips from two sequences into one stream, alternating
//! between the sequences with a second of silence between clips, and records
//! where each clip ends.

pub mod combine;
pub mod error;
pub mod format;
pub mod timeline;
pub mod wav;

pub use combine::{
    check_lengths, combine_clips_alternately, write_clip_to_output, write_silence, Clip,
    ResultElement,
};
pub use error::{CombineError, WavFailure};
pub use format::{AudioSpec, SampleFormat};
