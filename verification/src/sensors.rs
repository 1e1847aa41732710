//! Per-connection audio processor: owns the pitch history and the
//! speaking-state hysteresis machine, and sequences the per-frame analyses.
//!
//! Loudness and pitch arrive here already reduced to plain values: the
//! caller computes the floating-point volume score from the window energy
//! (`crate::energy`) and compares it against the 0.3 speaking threshold,
//! and runs the external pitch estimator, handing its result over in
//! millihertz. Everything stateful is decided and recorded here.

use vstd::prelude::*;
use crate::history::{PitchHistory, pushed, seq_sum, seq_sum_squares};
use crate::pitch::{filtered, filtered_pitch, in_band};

verus! {

/// How long (ms) the speaking flag stays on after the last frame whose
/// volume crossed the speaking threshold.
pub const SPEAKING_COOLDOWN_MS: u64 = 2500;

/// Whether the detector reads "speaking" at `now_ms`, given when a frame
/// last crossed the loudness threshold: true from that moment until the
/// cooldown has fully elapsed, false before any loud frame.
pub open spec fn speaking(last_loud_ms: Option<u64>, now_ms: u64) -> bool {
    match last_loud_ms {
        Option::Some(t) => now_ms < t + SPEAKING_COOLDOWN_MS,
        Option::None => false,
    }
}

/// The hysteresis timestamp after one frame: a loud frame moves it to
/// that frame's time, a quiet frame leaves it alone.
pub open spec fn next_last_spoken(last_loud_ms: Option<u64>, loud: bool, now_ms: u64) -> Option<
    u64,
> {
    if loud {
        Option::Some(now_ms)
    } else {
        last_loud_ms
    }
}

/// The hysteresis timestamp after a run of quiet frames.
pub open spec fn after_quiet_run(last_loud_ms: Option<u64>, times: Seq<u64>) -> Option<u64>
    decreases times.len(),
{
    if times.len() == 0 {
        last_loud_ms
    } else {
        after_quiet_run(next_last_spoken(last_loud_ms, false, times.first()), times.drop_first())
    }
}

/// Integer feature record for one processed frame. The caller derives the
/// wire-format floats from it: pitch in Hz is `pitch_mhz / 1000`, and the
/// reported pitch dispersion is
/// `sqrt(pitch_count * pitch_sum_squares - pitch_sum_mhz^2) / (pitch_count * 1000)`
/// (0 when the history is empty).
pub struct FrameFeatures {
    /// Band-filtered pitch for this frame, millihertz; 0 means none.
    pub pitch_mhz: u64,
    /// Number of estimates currently in the history.
    pub pitch_count: usize,
    /// Sum of the estimates in the history, millihertz.
    pub pitch_sum_mhz: u64,
    /// Sum of the squares of the estimates in the history.
    pub pitch_sum_squares: u64,
    /// Debounced speaking state at this frame's time.
    pub is_speaking: bool,
}

/// Maintains state over time for rolling metrics (pitch dispersion) and
/// debounced states (continuous speaking). One instance per connection.
pub struct AudioProcessor {
    last_spoken_ms: Option<u64>,
    pitch_history: PitchHistory,
}

impl AudioProcessor {
    /// When a frame last crossed the loudness threshold, if ever.
    pub closed spec fn last_spoken(&self) -> Option<u64> {
        self.last_spoken_ms
    }

    /// The rolling window of recent valid pitch estimates, millihertz.
    pub closed spec fn history(&self) -> Seq<u64> {
        self.pitch_history@
    }

    pub closed spec fn wf(&self) -> bool {
        self.pitch_history.wf()
    }

    /// A fresh processor: idle, with an empty history.
    pub fn new() -> (p: AudioProcessor)
        ensures
            p.wf(),
            p.last_spoken() is None,
            p.history() == Seq::<u64>::empty(),
    {
        AudioProcessor { last_spoken_ms: None, pitch_history: PitchHistory::new() }
    }

    /// Whether the hysteresis machine reads "speaking" at `now_ms`: a
    /// loud frame was seen and fewer than `SPEAKING_COOLDOWN_MS`
    /// milliseconds have elapsed since it.
    pub fn is_speaking_check(&self, now_ms: u64) -> (r: bool)
        ensures
            r == speaking(self.last_spoken(), now_ms),
    {
        match self.last_spoken_ms {
            Option::Some(t) => {
                if now_ms >= t {
                    now_ms - t < SPEAKING_COOLDOWN_MS
                } else {
                    // A clock reading before the recorded instant elapses
                    // as zero time, well inside the cooldown.
                    true
                }
            },
            Option::None => false,
        }
    }

    /// Process one non-empty frame, already reduced to plain values:
    /// `loud` is "volume score above the 0.3 threshold", `estimate_mhz`
    /// is what the external pitch estimator returned, `now_ms` the
    /// monotonic wall clock. Updates the hysteresis timestamp and the
    /// pitch history, and returns this frame's feature record.
    pub fn process(&mut self, loud: bool, estimate_mhz: Option<u64>, now_ms: u64) -> (m:
        FrameFeatures)
        requires
            old(self).wf(),
        ensures
            final(self).wf(),
            final(self).last_spoken() == next_last_spoken(old(self).last_spoken(), loud, now_ms),
            final(self).history() == pushed(old(self).history(), filtered(estimate_mhz)),
            m.pitch_mhz == filtered(estimate_mhz),
            m.pitch_count == final(self).history().len(),
            m.pitch_sum_mhz as int == seq_sum(final(self).history()),
            m.pitch_sum_squares as int == seq_sum_squares(final(self).history()),
            m.is_speaking == speaking(final(self).last_spoken(), now_ms),
    {
        if loud {
            self.last_spoken_ms = Some(now_ms);
        }
        let pitch_mhz = filtered_pitch(estimate_mhz);
        self.pitch_history.push(pitch_mhz);
        let (pitch_count, pitch_sum_mhz, pitch_sum_squares) = self.pitch_history.stats();
        let is_speaking = self.is_speaking_check(now_ms);
        FrameFeatures { pitch_mhz, pitch_count, pitch_sum_mhz, pitch_sum_squares, is_speaking }
    }
}

/// Hysteresis law: once a frame crosses the loudness threshold at time
/// `t`, then however many quiet frames follow, the detector reads
/// "speaking" at every instant of the following cooldown window and "not
/// speaking" at every instant after it; before any loud frame it never
/// reads "speaking".
pub proof fn lemma_speaking_hysteresis(t: u64, quiet_times: Seq<u64>, now_ms: u64)
    ensures
        after_quiet_run(Option::Some(t), quiet_times) == Option::Some(t),
        now_ms < t + SPEAKING_COOLDOWN_MS ==> speaking(Option::Some(t), now_ms),
        now_ms >= t + SPEAKING_COOLDOWN_MS ==> !speaking(Option::Some(t), now_ms),
        !speaking(Option::None, now_ms),
    decreases quiet_times.len(),
{
    if quiet_times.len() > 0 {
        lemma_speaking_hysteresis(t, quiet_times.drop_first(), now_ms);
    }
}

/// Band-filter law: an out-of-band estimate is reported as "no pitch"
/// and leaves the history exactly as it was.
pub proof fn lemma_out_of_band_rejected(h: Seq<u64>, estimate_mhz: u64)
    requires
        !in_band(estimate_mhz),
    ensures
        filtered(Option::Some(estimate_mhz)) == 0,
        pushed(h, filtered(Option::Some(estimate_mhz))) == h,
{
}

} // verus!
