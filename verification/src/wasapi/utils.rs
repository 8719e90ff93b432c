use vstd::arithmetic::div_mod::{lemma_div_is_ordered, lemma_fundamental_div_mod};
use vstd::arithmetic::mul::lemma_mul_inequality;
use vstd::prelude::*;

use crate::wasapi::wave_format::WaveFormat;

verus! {

/// Greatest common divisor by Euclid's rule.
pub open spec fn spec_gcd(a: nat, b: nat) -> nat
    decreases b,
{
    if b == 0 {
        a
    } else {
        spec_gcd(b, a % b)
    }
}

/// Least common multiple, written as the callee computes it:
/// `a * (b / gcd(a, b))`, and zero when either argument is zero.
pub open spec fn spec_lcm(a: nat, b: nat) -> nat {
    if a == 0 || b == 0 {
        0
    } else {
        a * (b / spec_gcd(a, b))
    }
}

/// The greatest common divisor of `a` and a positive `b` lies between
/// 1 and `b`.
pub proof fn lemma_gcd_bounds(a: nat, b: nat)
    requires
        1 <= b,
    ensures
        1 <= spec_gcd(a, b) <= b,
    decreases b,
{
    if a % b == 0 {
        assert(spec_gcd(a, b) == spec_gcd(b, 0));
    } else {
        lemma_gcd_bounds(b, a % b);
    }
}

/// The least common multiple of two positive numbers is at least the
/// first of them, hence positive.
pub proof fn lemma_lcm_lower_bound(a: nat, b: nat)
    requires
        1 <= a,
        1 <= b,
    ensures
        a <= spec_lcm(a, b),
{
    lemma_gcd_bounds(a, b);
    let g = spec_gcd(a, b);
    lemma_div_is_ordered(g as int, b as int, g as int);
    assert(g as int / g as int == 1) by (nonlinear_arith)
        requires
            1 <= g,
    ;
    assert(1 <= b / g);
    lemma_mul_inequality(1, (b / g) as int, a as int);
}

/// Relies on `num_integer::Integer::lcm` for `u32`: the least common
/// multiple of the two arguments, computed as `a * (b / gcd(a, b))`.
/// The multiplication panics on overflow, so the result is required to fit.
#[verifier::external_body]
pub(crate) fn lcm_u32(a: u32, b: u32) -> (r: u32)
    requires
        1 <= a,
        1 <= b,
        spec_lcm(a as nat, b as nat) <= u32::MAX,
    ensures
        r == spec_lcm(a as nat, b as nat),
{
    num_integer::Integer::lcm(&a, &b)
}

/// A duration in 100-nanosecond units covering `frames` frames at
/// `samplerate` frames per second, rounded to the nearest unit:
/// the integer nearest to `10^7 * frames / samplerate`.
pub open spec fn spec_period_100ns(frames: int, samplerate: int) -> int
    recommends
        1 <= samplerate,
{
    (20_000_000 * frames + samplerate) / (2 * samplerate)
}

/// Calculate a period in units of 100 ns that corresponds to the given
/// number of buffer frames at the given sample rate, rounding to the
/// nearest unit.
pub fn calculate_period_100ns(frames: i64, samplerate: i64) -> (r: i64)
    requires
        0 <= frames <= 400_000_000_000i64,
        1 <= samplerate <= 10_000_000i64,
    ensures
        r == spec_period_100ns(frames as int, samplerate as int),
{
    (20_000_000 * frames + samplerate) / (2 * samplerate)
}

/// The aligned period near a desired value: the computation of
/// [`calculate_aligned_period_near`], over unbounded integers.
///
/// The desired period is clamped below by the device minimum, converted
/// to frames (rounded to nearest), rounded down to a whole number of
/// alignment blocks, bumped up by one block if that fell below the
/// device minimum (rounded up to frames), and converted back to a
/// 100-nanosecond period.
pub open spec fn spec_aligned_period_near(
    desired_period: int,
    min_period: int,
    align_bytes: Option<u32>,
    fmt: WaveFormat,
) -> int
    recommends
        fmt.wf(),
{
    let adjusted = if desired_period >= min_period {
        desired_period
    } else {
        min_period
    };
    let frame_bytes = fmt.spec_blockalign();
    let alignment_bytes = match align_bytes {
        Option::None => frame_bytes,
        Option::Some(b) => if b == 0 {
            frame_bytes
        } else {
            spec_lcm(frame_bytes as nat, b as nat) as int
        },
    };
    let alignment_frames = alignment_bytes / frame_bytes;
    let desired_frames = (2 * (adjusted * fmt.samplespersec) + 10_000_000) / 20_000_000;
    let min_frames = (min_period * fmt.samplespersec + 9_999_999) / 10_000_000;
    let segments = if (desired_frames / alignment_frames) * alignment_frames < min_frames {
        desired_frames / alignment_frames + 1
    } else {
        desired_frames / alignment_frames
    };
    spec_period_100ns(alignment_frames * segments, fmt.samplespersec as int)
}

/// Calculate a period in 100-nanosecond units that is near the desired
/// value, never below the device minimum, and that leads to a buffer
/// size aligned both to the format's frame size and to the optional
/// byte alignment (`None`, `Some(0)` and `Some(1)` mean no special
/// requirement beyond the frame size).
pub fn calculate_aligned_period_near(
    desired_period: i64,
    min_period: i64,
    align_bytes: Option<u32>,
    wave_fmt: &WaveFormat,
) -> (r: i64)
    requires
        wave_fmt.wf(),
        0 <= desired_period <= 10_000_000_000i64,
        0 <= min_period <= 10_000_000_000i64,
        wave_fmt.samplespersec <= 10_000_000,
        align_bytes matches Some(b) ==> (1 <= b ==> spec_lcm(
            wave_fmt.spec_blockalign() as nat,
            b as nat,
        ) <= u32::MAX),
    ensures
        r == spec_aligned_period_near(
            desired_period as int,
            min_period as int,
            align_bytes,
            *wave_fmt,
        ),
{
    let adjusted_desired_period: i64 = if desired_period >= min_period {
        desired_period
    } else {
        min_period
    };
    let frame_bytes: u32 = wave_fmt.get_blockalign();
    let period_alignment_bytes: u32 = match align_bytes {
        None => frame_bytes,
        Some(bytes) => {
            if bytes == 0 {
                frame_bytes
            } else {
                proof {
                    lemma_lcm_lower_bound(frame_bytes as nat, bytes as nat);
                }
                lcm_u32(frame_bytes, bytes)
            }
        },
    };
    assert(frame_bytes <= period_alignment_bytes);
    assert(1 <= period_alignment_bytes / frame_bytes) by (nonlinear_arith)
        requires
            1 <= frame_bytes <= period_alignment_bytes,
    ;
    let period_alignment_frames: i64 = (period_alignment_bytes / frame_bytes) as i64;
    let rate: i64 = wave_fmt.get_samplespersec() as i64;
    proof {
        assert(adjusted_desired_period * rate <= 10_000_000_000i64 * 10_000_000i64)
            by (nonlinear_arith)
            requires
                0 <= adjusted_desired_period <= 10_000_000_000i64,
                0 <= rate <= 10_000_000i64,
        ;
        assert(min_period * rate <= 10_000_000_000i64 * 10_000_000i64) by (nonlinear_arith)
            requires
                0 <= min_period <= 10_000_000_000i64,
                0 <= rate <= 10_000_000i64,
        ;
        assert(0 <= adjusted_desired_period * rate && 0 <= min_period * rate)
            by (nonlinear_arith)
            requires
                0 <= adjusted_desired_period,
                0 <= min_period,
                0 <= rate,
        ;
    }
    let adjusted_ticks: i64 = adjusted_desired_period * rate;
    let desired_period_frames: i64 = (2 * adjusted_ticks + 10_000_000) / 20_000_000;
    let min_period_frames: i64 = (min_period * rate + 9_999_999) / 10_000_000;
    let mut nbr_segments: i64 = desired_period_frames / period_alignment_frames;
    proof {
        lemma_fundamental_div_mod(
            desired_period_frames as int,
            period_alignment_frames as int,
        );
    }
    assert(nbr_segments * period_alignment_frames <= desired_period_frames)
        by (nonlinear_arith)
        requires
            1 <= period_alignment_frames,
            0 <= desired_period_frames,
            nbr_segments == desired_period_frames as int / period_alignment_frames as int,
    ;
    if nbr_segments * period_alignment_frames < min_period_frames {
        nbr_segments += 1;
    }
    proof {
        assert((nbr_segments - 1) * period_alignment_frames <= desired_period_frames
            ==> nbr_segments * period_alignment_frames <= desired_period_frames
            + period_alignment_frames) by (nonlinear_arith);
    }
    calculate_period_100ns(period_alignment_frames * nbr_segments, rate)
}

} // verus!
