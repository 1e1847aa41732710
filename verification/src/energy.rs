//! Volume estimator core: the exact integer energy of a sample window.
//!
//! The loudness score of a window is `clamp((db + 40) / 40, 0, 1)` with
//! `db = 20 * log10(max(rms, 1e-6))` and `rms = sqrt(energy / (n * 32768^2))`,
//! where `energy` is the sum of squared raw samples. Everything after
//! `energy` is floating point and lives with the caller; the exact sum is
//! computed and specified here.

use vstd::prelude::*;

verus! {

/// Sum of the squares of the samples in a window.
pub open spec fn window_energy(s: Seq<i16>) -> int
    decreases s.len(),
{
    if s.len() == 0 {
        0
    } else {
        window_energy(s.drop_last()) + s.last() * s.last()
    }
}

/// A silent window (all samples zero) has energy 0, so its loudness score
/// is floored to exactly 0.
pub proof fn lemma_silent_window_energy(s: Seq<i16>)
    requires
        forall|i: int| 0 <= i < s.len() ==> s[i] == 0,
    ensures
        window_energy(s) == 0,
    decreases s.len(),
{
    if s.len() > 0 {
        lemma_silent_window_energy(s.drop_last());
    }
}

/// A square wave at full scale (every sample +-32767) has energy exactly
/// `len * 32767^2`: an RMS within one part in thirty thousand of 1.0, so
/// its loudness score sits at the very top of the scale.
pub proof fn lemma_full_scale_energy(s: Seq<i16>)
    requires
        forall|i: int| 0 <= i < s.len() ==> s[i] == 32767 || s[i] == -32767,
    ensures
        window_energy(s) == s.len() * (32767 * 32767),
    decreases s.len(),
{
    if s.len() > 0 {
        lemma_full_scale_energy(s.drop_last());
        let x = s.last() as int;
        assert(x * x == 32767 * 32767) by (nonlinear_arith)
            requires
                x == 32767 || x == -32767,
        ;
        assert((s.len() - 1) * (32767 * 32767) + 32767 * 32767 == s.len() * (32767 * 32767))
            by (nonlinear_arith);
    }
}

/// Exact integer numerator of the RMS loudness formula for one window.
/// Volume is only defined on non-empty windows; the session loop skips
/// frames that decode to no samples before any analysis runs.
pub fn sum_squares(samples: &Vec<i16>) -> (energy: u128)
    requires
        samples@.len() > 0,
    ensures
        energy as int == window_energy(samples@),
{
    let mut total: u128 = 0;
    let mut i: usize = 0;
    while i < samples.len()
        invariant
            i <= samples.len(),
            total as int == window_energy(samples@.take(i as int)),
            total as int <= i * 0x4000_0000,
        decreases samples.len() - i,
    {
        let v: i32 = samples[i] as i32;
        let a: i64 = if v < 0 {
            -(v as i64)
        } else {
            v as i64
        };
        assert(0 <= a * a <= 0x4000_0000 && a * a == v * v) by (nonlinear_arith)
            requires
                -0x8000 <= v <= 0x7fff,
                a == if v < 0 { -(v as int) } else { v as int },
        ;
        let sq: u64 = (a * a) as u64;
        proof {
            assert(samples@.take(i + 1 as int).drop_last() =~= samples@.take(i as int));
            assert(samples@.take(i + 1 as int).last() == samples@[i as int]);
        }
        total = total + sq as u128;
        i = i + 1;
    }
    proof {
        assert(samples@.take(samples@.len() as int) =~= samples@);
    }
    total
}

} // verus!
