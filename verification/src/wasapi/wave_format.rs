use vstd::prelude::*;

use crate::wasapi::errors::WasapiError;
use crate::wasapi::types::SampleType;

verus! {

/// Description of a PCM format: sample container width, valid bits,
/// sample representation, sample rate and channel count.
///
/// Immutable once a session is initialized; it determines the frame size
/// (`blockalign`) of the interleaved byte stream that the endpoint delivers.
#[derive(Clone, Copy, Debug, Eq, PartialEq, Structural)]
pub struct WaveFormat {
    /// Bits per sample container (a multiple of 8).
    pub storebits: u16,
    /// Bits of the container that carry information.
    pub validbits: u16,
    /// Float or integer samples.
    pub sample_type: SampleType,
    /// Sample rate in Hz.
    pub samplespersec: u32,
    /// Number of interleaved channels.
    pub channels: u16,
}

impl WaveFormat {
    /// Well-formedness: a whole number of bytes per sample, at least one
    /// meaningful bit, and at least one channel.
    pub open spec fn wf(&self) -> bool {
        &&& self.storebits % 8 == 0
        &&& 8 <= self.storebits
        &&& 1 <= self.validbits <= self.storebits
        &&& 1 <= self.samplespersec
        &&& 1 <= self.channels
    }

    /// Frame size in bytes: one sample container per channel.
    pub open spec fn spec_blockalign(&self) -> int {
        self.channels * (self.storebits / 8)
    }

    /// Build a format description.
    pub fn new(
        storebits: u16,
        validbits: u16,
        sample_type: &SampleType,
        samplespersec: u32,
        channels: u16,
    ) -> (r: WaveFormat)
        requires
            storebits % 8 == 0,
            8 <= storebits,
            1 <= validbits <= storebits,
            1 <= samplespersec,
            1 <= channels,
        ensures
            r.wf(),
            r.storebits == storebits,
            r.validbits == validbits,
            r.sample_type == *sample_type,
            r.samplespersec == samplespersec,
            r.channels == channels,
    {
        WaveFormat { storebits, validbits, sample_type: *sample_type, samplespersec, channels }
    }

    /// Frame size in bytes of the interleaved stream.
    pub fn get_blockalign(&self) -> (r: u32)
        requires
            self.wf(),
        ensures
            r == self.spec_blockalign(),
            1 <= r,
    {
        let ch: u32 = self.channels as u32;
        let bytes_per_sample: u32 = (self.storebits as u32) / 8;
        proof {
            assert(1 <= ch * bytes_per_sample <= 0xFFFF * 0x2000) by (nonlinear_arith)
                requires
                    1 <= ch <= 0xFFFF,
                    1 <= bytes_per_sample <= 0x2000,
            ;
        }
        ch * bytes_per_sample
    }

    /// Sample rate in Hz.
    pub fn get_samplespersec(&self) -> (r: u32)
        ensures
            r == self.samplespersec,
    {
        self.samplespersec
    }

    /// Validate the fields of a plain (non-extensible) wave format as
    /// an endpoint reports them. The classic format tags are 1 for
    /// integer PCM and 3 for float samples; any other tag, a sample
    /// width that is not a whole positive number of bytes, a zero
    /// channel count or a zero sample rate is rejected.
    pub fn from_raw_parts(
        format_tag: u16,
        bits_per_sample: u16,
        samplespersec: u32,
        channels: u16,
    ) -> (r: Result<WaveFormat, WasapiError>)
        ensures
            ({
                let acceptable = {
                    &&& (format_tag == 1 || format_tag == 3)
                    &&& bits_per_sample % 8 == 0
                    &&& 8 <= bits_per_sample
                    &&& 1 <= samplespersec
                    &&& 1 <= channels
                };
                match r {
                    Ok(fmt) => {
                        &&& acceptable
                        &&& fmt.wf()
                        &&& fmt.storebits == bits_per_sample
                        &&& fmt.validbits == bits_per_sample
                        &&& (fmt.sample_type is Int <==> format_tag == 1)
                        &&& (fmt.sample_type is Float <==> format_tag == 3)
                        &&& fmt.samplespersec == samplespersec
                        &&& fmt.channels == channels
                    },
                    Err(e) => !acceptable && e is UnsupportedFormat,
                }
            }),
    {
        let sample_type = match format_tag {
            1u16 => SampleType::Int,
            3u16 => SampleType::Float,
            _ => {
                return Err(WasapiError::UnsupportedFormat);
            },
        };
        if bits_per_sample % 8 != 0 || bits_per_sample < 8 || samplespersec < 1 || channels < 1 {
            return Err(WasapiError::UnsupportedFormat);
        }
        Ok(WaveFormat::new(bits_per_sample, bits_per_sample, &sample_type, samplespersec, channels))
    }

    /// The format this pipeline asks a loopback endpoint for:
    /// 32-bit float samples, two channels, 44,100 Hz, with automatic
    /// conversion left to the shared-mode engine when the endpoint's own
    /// mix format differs.
    pub fn desired_capture_format() -> (r: WaveFormat)
        ensures
            r.wf(),
            r.storebits == 32,
            r.validbits == 32,
            r.sample_type is Float,
            r.samplespersec == 44100,
            r.channels == 2,
            r.spec_blockalign() == 8,
    {
        WaveFormat::new(32, 32, &SampleType::Float, 44100, 2)
    }
}

} // verus!
