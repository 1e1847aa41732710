//! Pitch history tracker: a bounded first-in-first-out window of the most
//! recent valid pitch estimates, and the exact integer core of the
//! dispersion ("pitch variance") formula computed over it.
//!
//! The reported quantity is the population standard deviation of the stored
//! estimates: `sqrt((n * sum_sq - sum^2) / n^2)`. The square root is
//! floating point and lives with the caller; the count, sum and sum of
//! squares are computed and specified here.

use vstd::prelude::*;
use crate::pitch::{in_band, PITCH_BAND_HIGH_MHZ};

verus! {

/// Largest number of estimates the rolling window keeps.
pub const HISTORY_CAPACITY: usize = 25;

/// What one push does to the stored sequence: a valid (non-zero) estimate
/// is appended and, past capacity, the oldest entry leaves; 0 ("no pitch
/// this frame") leaves the history unchanged.
pub open spec fn pushed(h: Seq<u64>, pitch_mhz: u64) -> Seq<u64> {
    if pitch_mhz > 0 {
        let grown = h.push(pitch_mhz);
        if grown.len() > HISTORY_CAPACITY {
            grown.drop_first()
        } else {
            grown
        }
    } else {
        h
    }
}

/// Sum of a sequence of estimates.
pub open spec fn seq_sum(s: Seq<u64>) -> int
    decreases s.len(),
{
    if s.len() == 0 {
        0
    } else {
        seq_sum(s.drop_last()) + s.last()
    }
}

/// Sum of the squares of a sequence of estimates.
pub open spec fn seq_sum_squares(s: Seq<u64>) -> int
    decreases s.len(),
{
    if s.len() == 0 {
        0
    } else {
        seq_sum_squares(s.drop_last()) + s.last() * s.last()
    }
}

/// `n^2` times the population variance of a sequence with count `n`,
/// sum `s` and sum of squares `q`: `n * q - s^2`.
pub open spec fn dispersion_numerator(s: Seq<u64>) -> int {
    s.len() * seq_sum_squares(s) - seq_sum(s) * seq_sum(s)
}

/// The rolling window itself.
pub struct PitchHistory {
    entries: Vec<u64>,
}

impl View for PitchHistory {
    type V = Seq<u64>;

    closed spec fn view(&self) -> Seq<u64> {
        self.entries@
    }
}

impl PitchHistory {
    /// Every stored estimate already passed the band filter, and the
    /// window never outgrows its capacity.
    pub open spec fn wf(&self) -> bool {
        self@.len() <= HISTORY_CAPACITY && forall|i: int|
            0 <= i < self@.len() ==> in_band(#[trigger] self@[i])
    }

    pub fn new() -> (h: PitchHistory)
        ensures
            h.wf(),
            h@ == Seq::<u64>::empty(),
    {
        let h = PitchHistory { entries: Vec::new() };
        proof {
            assert(h@ =~= Seq::<u64>::empty());
        }
        h
    }

    /// Record one frame's band-filtered estimate. Only a valid (non-zero,
    /// hence in-band) estimate is appended; at capacity the oldest entry
    /// is evicted first.
    pub fn push(&mut self, pitch_mhz: u64)
        requires
            old(self).wf(),
            pitch_mhz == 0 || in_band(pitch_mhz),
        ensures
            final(self).wf(),
            final(self)@ == pushed(old(self)@, pitch_mhz),
    {
        if pitch_mhz > 0 {
            self.entries.push(pitch_mhz);
            if self.entries.len() > HISTORY_CAPACITY {
                self.entries.remove(0);
                proof {
                    assert(self@ =~= pushed(old(self)@, pitch_mhz));
                }
            } else {
                proof {
                    assert(self@ =~= pushed(old(self)@, pitch_mhz));
                }
            }
        }
    }

    /// Entry count, sum and sum of squares of the stored estimates, the
    /// exact integer inputs of the dispersion formula. The bounds that make
    /// the sums fit follow from the window's well-formedness.
    pub fn stats(&self) -> (r: (usize, u64, u64))
        requires
            self.wf(),
        ensures
            r.0 == self@.len(),
            r.1 as int == seq_sum(self@),
            r.2 as int == seq_sum_squares(self@),
    {
        let n = self.entries.len();
        let mut sum: u64 = 0;
        let mut sum_sq: u64 = 0;
        let mut i: usize = 0;
        while i < n
            invariant
                self.wf(),
                n == self@.len(),
                i <= n,
                sum as int == seq_sum(self@.take(i as int)),
                sum_sq as int == seq_sum_squares(self@.take(i as int)),
                sum as int <= i * 350_000,
                sum_sq as int <= i * 122_500_000_000,
            decreases n - i,
        {
            let p = self.entries[i];
            assert(in_band(p));
            assert(0 <= p * p <= 122_500_000_000) by (nonlinear_arith)
                requires
                    0 <= p <= 350_000,
            ;
            proof {
                assert(self@.take(i + 1 as int).drop_last() =~= self@.take(i as int));
                assert(self@.take(i + 1 as int).last() == self@[i as int]);
            }
            sum = sum + p;
            sum_sq = sum_sq + p * p;
            i = i + 1;
        }
        proof {
            assert(self@.take(n as int) =~= self@);
        }
        (n, sum, sum_sq)
    }
}

/// Repeated pushes, oldest first.
pub open spec fn pushed_all(h: Seq<u64>, ps: Seq<u64>) -> Seq<u64>
    decreases ps.len(),
{
    if ps.len() == 0 {
        h
    } else {
        pushed_all(pushed(h, ps.first()), ps.drop_first())
    }
}

/// Sliding-window law: pushing any run of valid (non-zero) estimates onto
/// a history within capacity keeps exactly the newest `HISTORY_CAPACITY`
/// entries of the combined stream, oldest evicted first; a stream that
/// fits entirely is kept in full.
pub proof fn lemma_history_keeps_latest(h: Seq<u64>, ps: Seq<u64>)
    requires
        h.len() <= HISTORY_CAPACITY,
        forall|i: int| 0 <= i < ps.len() ==> ps[i] > 0,
    ensures
        h.len() + ps.len() <= HISTORY_CAPACITY ==> pushed_all(h, ps) == h + ps,
        h.len() + ps.len() > HISTORY_CAPACITY ==> pushed_all(h, ps) == (h + ps).skip(
            h.len() + ps.len() - HISTORY_CAPACITY,
        ),
    decreases ps.len(),
{
    if ps.len() == 0 {
        assert(h + ps =~= h);
    } else {
        let p = ps.first();
        let rest = ps.drop_first();
        assert(p > 0);
        assert(forall|i: int| 0 <= i < rest.len() ==> #[trigger] rest[i] == ps[i + 1] && rest[i]
            > 0);
        let h2 = pushed(h, p);
        if h.len() < HISTORY_CAPACITY {
            assert(h2 =~= h.push(p));
            lemma_history_keeps_latest(h2, rest);
            assert(h2 + rest =~= h + ps);
        } else {
            assert(h.len() == HISTORY_CAPACITY);
            assert(h2 =~= h.push(p).drop_first());
            assert(h2.len() == HISTORY_CAPACITY);
            lemma_history_keeps_latest(h2, rest);
            assert(h2 + rest =~= (h + ps).skip(1));
            if rest.len() == 0 {
                assert(h2 + rest =~= h2);
                assert(pushed_all(h, ps) == (h + ps).skip(1));
                assert(h.len() + ps.len() - HISTORY_CAPACITY == 1);
            } else {
                assert(pushed_all(h, ps) == (h2 + rest).skip(
                    h2.len() + rest.len() - HISTORY_CAPACITY,
                ));
                assert((h + ps).skip(1).skip(rest.len() as int) =~= (h + ps).skip(
                    ps.len() as int,
                ));
            }
        }
    }
}

/// The dispersion of a single estimate is zero: the standard deviation of
/// one point vanishes (and over an empty history the numerator is zero by
/// definition, so both read as dispersion 0).
pub proof fn lemma_dispersion_single(p: u64)
    ensures
        dispersion_numerator(seq![p]) == 0,
{
    let s = seq![p];
    reveal_with_fuel(seq_sum, 3);
    reveal_with_fuel(seq_sum_squares, 3);
    assert(s.drop_last() =~= Seq::<u64>::empty());
    assert(seq_sum(s) == p);
    assert(seq_sum_squares(s) == p * p);
}

/// Two distinct estimates have strictly positive dispersion: the reported
/// standard deviation of two different pitches is a positive number.
pub proof fn lemma_dispersion_two_distinct(a: u64, b: u64)
    requires
        a != b,
    ensures
        dispersion_numerator(seq![a, b]) > 0,
{
    let s = seq![a, b];
    reveal_with_fuel(seq_sum, 4);
    reveal_with_fuel(seq_sum_squares, 4);
    assert(s.drop_last() =~= seq![a]);
    assert(seq![a].drop_last() =~= Seq::<u64>::empty());
    assert(seq_sum(s) == a + b);
    assert(seq_sum_squares(s) == a * a + b * b);
    assert(2 * (a * a + b * b) - (a + b) * (a + b) == (a - b) * (a - b)) by (nonlinear_arith);
    assert((a - b) * (a - b) > 0) by (nonlinear_arith)
        requires
            a != b,
    ;
}

/// For every integer `x`, `sum((p_i - x)^2) >= 0`, written out over the
/// window's sums: the quadratic in `x` built from them is never negative.
proof fn lemma_point_spread(s: Seq<u64>, x: int)
    ensures
        seq_sum_squares(s) - 2 * x * seq_sum(s) + s.len() * (x * x) >= 0,
    decreases s.len(),
{
    if s.len() > 0 {
        lemma_point_spread(s.drop_last(), x);
        let p = s.last() as int;
        let n0 = s.drop_last().len() as int;
        let s0 = seq_sum(s.drop_last());
        let q0 = seq_sum_squares(s.drop_last());
        assert((q0 + p * p) - 2 * x * (s0 + p) + (n0 + 1) * (x * x) == (q0 - 2 * x * s0 + n0 * (x
            * x)) + (p - x) * (p - x)) by (nonlinear_arith);
        assert((p - x) * (p - x) >= 0) by (nonlinear_arith);
    }
}

/// The dispersion numerator is never negative, so the variance it encodes
/// is a well-defined non-negative quantity on every reachable history.
pub proof fn lemma_dispersion_nonneg(s: Seq<u64>)
    ensures
        dispersion_numerator(s) >= 0,
    decreases s.len(),
{
    if s.len() > 0 {
        lemma_dispersion_nonneg(s.drop_last());
        lemma_point_spread(s.drop_last(), s.last() as int);
        let p = s.last() as int;
        let n0 = s.drop_last().len() as int;
        let s0 = seq_sum(s.drop_last());
        let q0 = seq_sum_squares(s.drop_last());
        assert((n0 + 1) * (q0 + p * p) - (s0 + p) * (s0 + p) == (n0 * q0 - s0 * s0) + (q0 - 2 * p
            * s0 + n0 * (p * p))) by (nonlinear_arith);
    }
}

} // verus!
