//! Sample encodings, sample specs and the sizes that follow from them.

use vstd::prelude::*;

verus! {

/// Signed 16 bit, little endian, as an application names it.
pub const SAMPLE_S16LE: i32 = 0;

/// Signed 16 bit, big endian, as an application names it.
pub const SAMPLE_S16BE: i32 = 1;

/// 32 bit floating point, little endian, as an application names it.
pub const SAMPLE_FLOAT32LE: i32 = 2;

/// 32 bit floating point, big endian, as an application names it.
pub const SAMPLE_FLOAT32BE: i32 = 3;

/// The microseconds in one second.
pub const USEC_PER_SEC: u64 = 1_000_000;

/// A sample encoding on the wire.
#[derive(Clone, Copy, Debug, PartialEq, Eq, Structural)]
pub enum SampleFormat {
    Signed16LE,
    Signed16BE,
    Float32LE,
    Float32BE,
    /// No encoding: what an unknown application encoding maps to.
    Invalid,
}

/// The wire encoding for an application's encoding number.
pub open spec fn pulse_format_of(format: i32) -> SampleFormat {
    if format == SAMPLE_S16LE {
        SampleFormat::Signed16LE
    } else if format == SAMPLE_S16BE {
        SampleFormat::Signed16BE
    } else if format == SAMPLE_FLOAT32LE {
        SampleFormat::Float32LE
    } else if format == SAMPLE_FLOAT32BE {
        SampleFormat::Float32BE
    } else {
        SampleFormat::Invalid
    }
}

/// Whether an application's encoding number has a wire encoding.
pub open spec fn supported_format(format: i32) -> bool {
    SAMPLE_S16LE <= format <= SAMPLE_FLOAT32BE
}

/// Maps an application's encoding number to the wire encoding, and every
/// number without one to `Invalid`.
pub fn to_pulse_format(format: i32) -> (fmt: SampleFormat)
    ensures
        fmt == pulse_format_of(format),
        fmt != SampleFormat::Invalid <==> supported_format(format),
{
    if format == SAMPLE_S16LE {
        SampleFormat::Signed16LE
    } else if format == SAMPLE_S16BE {
        SampleFormat::Signed16BE
    } else if format == SAMPLE_FLOAT32LE {
        SampleFormat::Float32LE
    } else if format == SAMPLE_FLOAT32BE {
        SampleFormat::Float32BE
    } else {
        SampleFormat::Invalid
    }
}

impl SampleFormat {
    /// Bytes of one sample; none for `Invalid`.
    pub open spec fn spec_sample_size(self) -> nat {
        match self {
            SampleFormat::Signed16LE | SampleFormat::Signed16BE => 2,
            SampleFormat::Float32LE | SampleFormat::Float32BE => 4,
            SampleFormat::Invalid => 0,
        }
    }

    /// Bytes of one sample; none for `Invalid`.
    pub fn sample_size(self) -> (n: usize)
        ensures
            n == self.spec_sample_size(),
    {
        match self {
            SampleFormat::Signed16LE | SampleFormat::Signed16BE => 2,
            SampleFormat::Float32LE | SampleFormat::Float32BE => 4,
            SampleFormat::Invalid => 0,
        }
    }

    /// Whether the samples are 16 bit integers, not 32 bit floating point.
    pub open spec fn spec_is_integer(self) -> bool {
        self == SampleFormat::Signed16LE || self == SampleFormat::Signed16BE
    }

    /// Whether the samples are 16 bit integers, not 32 bit floating point.
    pub fn is_integer(self) -> (b: bool)
        ensures
            b == self.spec_is_integer(),
    {
        match self {
            SampleFormat::Signed16LE | SampleFormat::Signed16BE => true,
            _ => false,
        }
    }
}

/// Encoding, rate and channel count of one direction.
#[derive(Clone, Copy, Debug, PartialEq, Eq, Structural)]
pub struct SampleSpec {
    pub format: SampleFormat,
    pub rate: u32,
    pub channels: u8,
}

impl SampleSpec {
    /// Bytes of one frame: one sample for each channel.
    pub open spec fn spec_frame_size(self) -> nat {
        self.format.spec_sample_size() * (self.channels as nat)
    }

    /// A spec whose frames hold at least one byte.
    pub open spec fn has_frames(self) -> bool {
        self.format != SampleFormat::Invalid && self.channels > 0
    }

    /// A frame has at least one byte exactly where the spec has an
    /// encoding and a channel, and never more than 1020.
    pub proof fn lemma_frame_size_bounds(self)
        ensures
            self.has_frames() <==> self.spec_frame_size() > 0,
            self.spec_frame_size() <= 1020,
    {
        match self.format {
            SampleFormat::Signed16LE | SampleFormat::Signed16BE => {
                assert(self.spec_frame_size() == 2 * (self.channels as nat));
            },
            SampleFormat::Float32LE | SampleFormat::Float32BE => {
                assert(self.spec_frame_size() == 4 * (self.channels as nat));
            },
            SampleFormat::Invalid => {
                assert(self.spec_frame_size() == 0 * (self.channels as nat));
            },
        }
    }

    /// Bytes of one frame: one sample for each channel.
    pub fn frame_size(&self) -> (n: usize)
        ensures
            n == self.spec_frame_size(),
            n <= 1020,
            self.has_frames() <==> n > 0,
    {
        let channels: usize = self.channels as usize;
        self.format.sample_size() * channels
    }

    /// The bytes that `usec` microseconds of audio take, counted in 64
    /// bits: the frames that fit into the time, whole, times the frame
    /// size, each product cut to 64 bits.
    pub open spec fn spec_usec_to_bytes(self, usec: u64) -> int {
        ((((usec * self.rate) % 0x1_0000_0000_0000_0000) / (USEC_PER_SEC as int))
            * self.spec_frame_size()) % 0x1_0000_0000_0000_0000
    }

    /// The bytes that `usec` microseconds of audio take.
    pub fn usec_to_bytes(&self, usec: u64) -> (bytes: u64)
        ensures
            bytes == self.spec_usec_to_bytes(usec),
            usec * self.rate <= u64::MAX && (usec * self.rate / 1_000_000)
                * self.spec_frame_size() <= u64::MAX ==> bytes == (usec * self.rate / 1_000_000)
                * self.spec_frame_size(),
    {
        let rate: u64 = self.rate as u64;
        let frames: u64 = usec.wrapping_mul(rate) / USEC_PER_SEC;
        let size: u64 = self.frame_size() as u64;
        let bytes: u64 = frames.wrapping_mul(size);
        proof {
            assert(usec * self.rate <= u64::MAX ==> (usec * self.rate) % 0x1_0000_0000_0000_0000
                == usec * self.rate) by {
                if usec * self.rate <= u64::MAX {
                    assert(0 <= usec * self.rate) by (nonlinear_arith);
                    vstd::arithmetic::div_mod::lemma_small_mod(
                        (usec * self.rate) as nat,
                        0x1_0000_0000_0000_0000,
                    );
                }
            }
            assert(0 <= frames * size) by (nonlinear_arith);
            if frames * size <= u64::MAX {
                vstd::arithmetic::div_mod::lemma_small_mod(
                    (frames * size) as nat,
                    0x1_0000_0000_0000_0000,
                );
            }
        }
        bytes
    }
}

} // verus!
