//! Sizing and banding of the magnitude spectrum.
//!
//! The numeric transform itself (windowing, the Fourier transform and
//! the magnitude averages) runs on floating-point samples outside this
//! library; everything that determines its shape is decided and proved
//! here: the padded transform length, how many frequency bins each
//! band aggregates, and which bins belong to which band.

use vstd::arithmetic::div_mod::{
    lemma_div_is_ordered, lemma_fundamental_div_mod, lemma_fundamental_div_mod_converse,
    lemma_mod_bound,
};
use vstd::arithmetic::mul::{lemma_mul_inequality, lemma_mul_is_distributive_add_other_way};
use vstd::prelude::*;

verus! {

/// The largest chunk length the analysis accepts; keeps every size and
/// byte count of the transform within machine bounds.
pub const MAX_ANALYSIS_SAMPLES: usize = 0x2000_0000;

/// Whether `n` is a power of two.
pub open spec fn spec_is_pow2(n: int) -> bool
    decreases n,
{
    if n <= 0 {
        false
    } else if n == 1 {
        true
    } else {
        n % 2 == 0 && spec_is_pow2(n / 2)
    }
}

/// The least power of two that is at least `n` (and 1 for `n <= 1`).
pub open spec fn spec_next_pow2(n: int) -> int
    decreases n,
{
    if n <= 1 {
        1
    } else {
        2 * spec_next_pow2((n + 1) / 2)
    }
}

/// `spec_next_pow2` indeed gives a power of two in `[n, 2n)`.
pub proof fn lemma_next_pow2_bounds(n: int)
    requires
        1 <= n,
    ensures
        spec_is_pow2(spec_next_pow2(n)),
        n <= spec_next_pow2(n),
        spec_next_pow2(n) < 2 * n,
    decreases n,
{
    if n == 1 {
        assert(spec_is_pow2(1));
    } else {
        let h = (n + 1) / 2;
        lemma_next_pow2_bounds(h);
        let m = spec_next_pow2(h);
        assert(spec_next_pow2(n) == 2 * m);
        if n % 2 == 0 {
            assert(2 * h == n);
        } else {
            assert(m <= n);
            if m == n {
                assert(m == 1 || m % 2 == 0);
                assert(false);
            }
        }
    }
}

/// Two powers of two in order differ at least by a factor of two.
pub proof fn lemma_pow2_strict_gap(a: int, b: int)
    requires
        spec_is_pow2(a),
        spec_is_pow2(b),
        a < b,
    ensures
        2 * a <= b,
    decreases b,
{
    if a == 1 {
        assert(b % 2 == 0);
    } else {
        assert(a % 2 == 0 && spec_is_pow2(a / 2));
        assert(b % 2 == 0 && spec_is_pow2(b / 2));
        lemma_pow2_strict_gap(a / 2, b / 2);
    }
}

/// There is only one power of two in `[n, 2n)`, so any power of two in
/// that bracket is `spec_next_pow2(n)`.
pub proof fn lemma_next_pow2_unique(n: int, p: int)
    requires
        1 <= n,
        spec_is_pow2(p),
        n <= p < 2 * n,
    ensures
        p == spec_next_pow2(n),
{
    lemma_next_pow2_bounds(n);
    let s = spec_next_pow2(n);
    if p < s {
        lemma_pow2_strict_gap(p, s);
    } else if s < p {
        lemma_pow2_strict_gap(s, p);
    }
}

/// The sample-count cap is itself a power of two, so the padded
/// transform length never exceeds it.
proof fn lemma_max_samples_pow2()
    ensures
        spec_is_pow2(MAX_ANALYSIS_SAMPLES as int),
{
    assert(spec_is_pow2(0x2000_0000)) by {
        reveal_with_fuel(spec_is_pow2, 32);
    };
}

/// The least power of two that is at least `n`.
pub fn next_power_of_two(n: usize) -> (r: usize)
    requires
        1 <= n <= MAX_ANALYSIS_SAMPLES,
    ensures
        r == spec_next_pow2(n as int),
        spec_is_pow2(r as int),
        n <= r,
        r < 2 * n,
        r <= MAX_ANALYSIS_SAMPLES,
{
    let mut p: usize = 1;
    while p < n
        invariant
            1 <= p,
            spec_is_pow2(p as int),
            p == 1 || p / 2 < n,
            n <= MAX_ANALYSIS_SAMPLES,
        decreases 2 * n as int - p as int,
    {
        proof {
            assert(spec_is_pow2(2 * p as int));
        }
        p = p * 2;
    }
    proof {
        if p > 1 {
            assert(p % 2 == 0);
        }
        lemma_next_pow2_unique(n as int, p as int);
        lemma_max_samples_pow2();
        if p > MAX_ANALYSIS_SAMPLES {
            lemma_pow2_strict_gap(MAX_ANALYSIS_SAMPLES as int, p as int);
        }
    }
    p
}

/// The shape of one banded spectrum: the padded transform length, the
/// requested band count and how many contiguous frequency bins each
/// band averages.
///
/// Of the `fft_size / 2` meaningful bins (the input is real, so only
/// the first half of the transform output carries information), band
/// `i` aggregates bins `i * bins_per_band` up to `(i+1) * bins_per_band`;
/// the remainder bins beyond `num_bands * bins_per_band` belong to no
/// band.
#[derive(Clone, Copy, Debug, Eq, PartialEq, Structural)]
pub struct SpectrumLayout {
    /// Transform length: a power of two.
    pub fft_size: usize,
    /// Number of bands requested by the caller.
    pub num_bands: usize,
    /// Bins aggregated into each band: `(fft_size / 2) / num_bands`.
    pub bins_per_band: usize,
}

impl SpectrumLayout {
    /// Well-formedness: a power-of-two transform length within machine
    /// bounds, at least one band, at least one bin per band, and all
    /// bands together within the meaningful half of the transform.
    pub open spec fn wf(&self) -> bool {
        &&& spec_is_pow2(self.fft_size as int)
        &&& 2 <= self.fft_size <= MAX_ANALYSIS_SAMPLES
        &&& 1 <= self.num_bands
        &&& self.bins_per_band == (self.fft_size as int / 2) / self.num_bands as int
        &&& 1 <= self.bins_per_band
        &&& self.num_bands * self.bins_per_band <= self.fft_size as int / 2
    }

    /// The half-open bin range `[band * bins_per_band, (band + 1) * bins_per_band)`
    /// that the given band aggregates; it lies within the meaningful
    /// half of the transform output.
    pub fn band_range(&self, band: usize) -> (r: (usize, usize))
        requires
            self.wf(),
            band < self.num_bands,
        ensures
            r.0 == band * self.bins_per_band,
            r.1 == (band + 1) * self.bins_per_band,
            r.0 < r.1,
            r.1 <= self.fft_size / 2,
    {
        proof {
            lemma_mul_inequality(
                band as int + 1,
                self.num_bands as int,
                self.bins_per_band as int,
            );
            lemma_mul_is_distributive_add_other_way(self.bins_per_band as int, band as int, 1);
        }
        (band * self.bins_per_band, (band + 1) * self.bins_per_band)
    }

    /// The band whose bin range covers a tone of the given frequency,
    /// or `None` when that bin lies beyond the banded range.
    ///
    /// A tone at `freq_hz` falls into transform bin
    /// `freq_hz * fft_size / sample_rate`.
    pub fn band_for_frequency(&self, freq_hz: u32, sample_rate: u32) -> (r: Option<usize>)
        requires
            self.wf(),
            1 <= sample_rate,
        ensures
            ({
                let bin = (freq_hz as int * self.fft_size as int) / sample_rate as int;
                match r {
                    Some(b) => bin < self.num_bands * self.bins_per_band && b == bin
                        / self.bins_per_band as int,
                    None => bin >= self.num_bands * self.bins_per_band,
                }
            }),
    {
        proof {
            assert(self.num_bands <= self.num_bands * self.bins_per_band
                && self.bins_per_band <= self.num_bands * self.bins_per_band)
                by (nonlinear_arith)
                requires
                    1 <= self.num_bands,
                    1 <= self.bins_per_band,
            ;
            assert((freq_hz as int) * (self.fft_size as int) <= 0xFFFF_FFFF * 0x2000_0000)
                by (nonlinear_arith)
                requires
                    0 <= freq_hz <= 0xFFFF_FFFFu32,
                    0 <= self.fft_size <= 0x2000_0000usize,
            ;
            assert((self.num_bands as int) * (self.bins_per_band as int)
                <= 0x2000_0000 * 0x2000_0000) by (nonlinear_arith)
                requires
                    0 <= self.num_bands <= 0x2000_0000usize,
                    0 <= self.bins_per_band <= 0x2000_0000usize,
            ;
        }
        let bin: u64 = (freq_hz as u64) * (self.fft_size as u64) / (sample_rate as u64);
        let banded: u64 = (self.num_bands as u64) * (self.bins_per_band as u64);
        if bin < banded {
            proof {
                lemma_div_is_ordered(
                    bin as int,
                    self.num_bands as int * self.bins_per_band as int,
                    self.bins_per_band as int,
                );
                lemma_fundamental_div_mod(
                    self.num_bands as int * self.bins_per_band as int,
                    self.bins_per_band as int,
                );
            }
            Some((bin / (self.bins_per_band as u64)) as usize)
        } else {
            None
        }
    }
}

/// The band reported for a transform bin covers that bin: a tone that
/// falls into bin `bin` lies inside the bin range of the band
/// `bin / bins_per_band`, and that band exists.
pub proof fn lemma_band_covers_bin(layout: SpectrumLayout, bin: int, band: int)
    requires
        layout.wf(),
        0 <= bin < layout.num_bands * layout.bins_per_band,
        band == bin / layout.bins_per_band as int,
    ensures
        0 <= band < layout.num_bands,
        band * layout.bins_per_band <= bin < (band + 1) * layout.bins_per_band,
{
    let bpb = layout.bins_per_band as int;
    let nb = layout.num_bands as int;
    lemma_fundamental_div_mod(bin, bpb);
    lemma_mod_bound(bin, bpb);
    lemma_mul_is_distributive_add_other_way(bpb, band, 1);
    lemma_div_is_ordered(bin, nb * bpb - 1, bpb);
    assert((nb * bpb - 1) / bpb == nb - 1) by {
        assert(nb * bpb - 1 == (nb - 1) * bpb + (bpb - 1)) by (nonlinear_arith);
        lemma_fundamental_div_mod_converse(nb * bpb - 1, bpb, nb - 1, bpb - 1);
    };
}

/// The banded layout for analyzing a chunk of `sample_count` samples
/// into `num_bands` bands, or `None` when the band count is zero or
/// exceeds the meaningful bin count.
pub fn plan_spectrum(sample_count: usize, num_bands: usize) -> (r: Option<SpectrumLayout>)
    requires
        1 <= sample_count <= MAX_ANALYSIS_SAMPLES,
    ensures
        ({
            let fft = spec_next_pow2(sample_count as int);
            match r {
                Some(layout) => {
                    &&& 1 <= num_bands <= fft / 2
                    &&& layout.fft_size == fft
                    &&& layout.num_bands == num_bands
                    &&& layout.wf()
                },
                None => num_bands == 0 || num_bands > fft / 2,
            }
        }),
{
    if num_bands == 0 {
        return None;
    }
    let fft_size = next_power_of_two(sample_count);
    let half = fft_size / 2;
    if num_bands > half {
        return None;
    }
    let bins_per_band = half / num_bands;
    proof {
        lemma_div_is_ordered(num_bands as int, half as int, num_bands as int);
        assert(num_bands as int / num_bands as int == 1) by (nonlinear_arith)
            requires
                1 <= num_bands,
        ;
        lemma_fundamental_div_mod(half as int, num_bands as int);
        lemma_mod_bound(half as int, num_bands as int);
    }
    Some(SpectrumLayout { fft_size, num_bands, bins_per_band })
}

} // verus!
