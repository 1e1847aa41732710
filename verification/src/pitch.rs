//! Pitch estimator adapter policy: band-filtering of external estimates.
//!
//! The external estimator hands back at most one fundamental frequency per
//! window. Frequencies are carried here in millihertz so the plausible-voice
//! band check is exact integer arithmetic; 0 stands for "no pitch detected"
//! and is never a legitimate in-band value.

use vstd::prelude::*;

verus! {

/// Lower edge of the accepted voice band, millihertz (85 Hz).
pub const PITCH_BAND_LOW_MHZ: u64 = 85_000;

/// Upper edge of the accepted voice band, millihertz (350 Hz).
pub const PITCH_BAND_HIGH_MHZ: u64 = 350_000;

/// A typical human voice fundamental: inside [85, 350] Hz.
pub open spec fn in_band(pitch_mhz: u64) -> bool {
    PITCH_BAND_LOW_MHZ <= pitch_mhz && pitch_mhz <= PITCH_BAND_HIGH_MHZ
}

/// What the adapter reports for one frame, given what the external
/// estimator returned: an in-band estimate passes through, an out-of-band
/// estimate and a missing estimate both become 0, "no pitch this frame".
pub open spec fn filtered(estimate_mhz: Option<u64>) -> u64 {
    match estimate_mhz {
        Option::Some(p) => if in_band(p) {
            p
        } else {
            0
        },
        Option::None => 0,
    }
}

/// Band-filter one frame's external pitch estimate.
pub fn filtered_pitch(estimate_mhz: Option<u64>) -> (pitch_mhz: u64)
    ensures
        pitch_mhz == filtered(estimate_mhz),
{
    match estimate_mhz {
        Option::Some(p) => {
            if PITCH_BAND_LOW_MHZ <= p && p <= PITCH_BAND_HIGH_MHZ {
                p
            } else {
                0
            }
        },
        Option::None => 0,
    }
}

} // verus!
