//! The properties of audio data that decide how samples are counted and stored.

use vstd::prelude::*;

verus! {

/// Whether samples are stored as IEEE floats or as integers.
#[derive(Clone, Copy, Debug, PartialEq, Eq, Structural)]
pub enum SampleFormat {
    /// 32-bit IEEE floats. A sample travels as its bit pattern.
    Float,
    /// Signed integers of `bits_per_sample` bits.
    Int,
}

/// The properties that all clips of one combination, and its output, share.
#[derive(Clone, Copy, Debug, PartialEq, Eq, Structural)]
pub struct AudioSpec {
    /// The number of channels. Samples of the channels alternate.
    pub channels: u16,
    /// The number of samples per second, in each channel.
    pub sample_rate: u32,
    /// The number of bits per sample.
    pub bits_per_sample: u16,
    /// Whether the samples are floats or integers.
    pub sample_format: SampleFormat,
}

impl AudioSpec {
    /// The number of samples, over all channels, that last one second.
    pub open spec fn samples_per_second(self) -> nat {
        self.sample_rate as nat * self.channels as nat
    }

    /// Whether clips of this kind can be copied: 16, 24 or 32 bits per sample
    /// for integers, 32 for floats.
    pub open spec fn is_supported(self) -> bool {
        match self.sample_format {
            SampleFormat::Int => self.bits_per_sample == 16 || self.bits_per_sample == 24
                || self.bits_per_sample == 32,
            SampleFormat::Float => self.bits_per_sample == 32,
        }
    }

    /// The number of bytes that hold one sample in WAVE data.
    pub open spec fn bytes_per_sample(self) -> nat {
        (self.bits_per_sample as nat + 7) / 8
    }

    /// The number of bytes of WAVE data that one second of audio takes.
    pub open spec fn bytes_per_second(self) -> nat {
        self.sample_rate as nat * self.bytes_per_sample() * self.channels as nat
    }

    /// Whether a WAVE header can express these properties: they are of a
    /// supported kind, neither the sample rate nor the number of channels is
    /// zero, and the number of bytes per second fits in 32 bits.
    pub open spec fn is_writable(self) -> bool {
        &&& self.is_supported()
        &&& self.sample_rate > 0
        &&& self.channels > 0
        &&& self.bytes_per_second() <= u32::MAX
    }

    /// The number of bytes of a WAVE header that follow its first length
    /// field: 36 in the plain form, for up to two channels of 16 bits, and 60
    /// in the extensible form.
    pub open spec fn header_len(self) -> nat {
        if self.channels > 2 || self.bits_per_sample > 16 {
            60
        } else {
            36
        }
    }

    /// The length of a one-second gap, in samples over all channels.
    pub fn gap_samples(&self) -> (n: u64)
        ensures
            n == self.samples_per_second(),
    {
        let rate: u64 = self.sample_rate as u64;
        let channels: u64 = self.channels as u64;
        assert(rate * channels <= 0xffff_ffff * 0xffff) by (nonlinear_arith)
            requires
                rate <= 0xffff_ffff,
                channels <= 0xffff,
        ;
        rate * channels
    }

    /// Tells whether clips of this kind can be copied.
    pub fn supported(&self) -> (ok: bool)
        ensures
            ok == self.is_supported(),
    {
        match self.sample_format {
            SampleFormat::Int => self.bits_per_sample == 16 || self.bits_per_sample == 24
                || self.bits_per_sample == 32,
            SampleFormat::Float => self.bits_per_sample == 32,
        }
    }

    /// Tells whether a WAVE header can express these properties.
    pub fn writable(&self) -> (ok: bool)
        ensures
            ok == self.is_writable(),
    {
        if !self.supported() || self.sample_rate == 0 || self.channels == 0 {
            return false;
        }
        let rate: u64 = self.sample_rate as u64;
        let width: u64 = (self.bits_per_sample as u64 + 7) / 8;
        let channels: u64 = self.channels as u64;
        assert(rate * width * channels <= 0xffff_ffff * 4 * 0xffff) by (nonlinear_arith)
            requires
                rate <= 0xffff_ffff,
                width <= 4,
                channels <= 0xffff,
        ;
        assert(rate * width <= 0xffff_ffff * 4) by (nonlinear_arith)
            requires
                rate <= 0xffff_ffff,
                width <= 4,
        ;
        rate * width * channels <= 0xffff_ffff
    }

    /// Tells whether `samples` samples, with the header, stay within what
    /// the 32-bit length fields of a WAVE file can describe.
    pub fn fits(&self, samples: usize) -> (ok: bool)
        ensures
            ok == (samples * self.bytes_per_sample() + self.header_len() <= u32::MAX),
    {
        let width: u64 = (self.bits_per_sample as u64 + 7) / 8;
        let header: u64 = if self.channels > 2 || self.bits_per_sample > 16 {
            60
        } else {
            36
        };
        if width == 0 {
            assert(samples * self.bytes_per_sample() == 0) by (nonlinear_arith)
                requires
                    self.bytes_per_sample() == 0,
            ;
            return true;
        }
        let room: u64 = (0xffff_ffff - header) / width;
        assert((samples <= room) == (samples * width + header <= 0xffff_ffff)) by (nonlinear_arith)
            requires
                width > 0,
                header <= 0xffff_ffff,
                room == (0xffff_ffff - header) / (width as int),
        ;
        samples as u64 <= room
    }
}

} // verus!
