//! Typed payloads exchanged with the external voice model.

use vstd::prelude::*;

verus! {

/// A voice-analysis note handed to the model as tool output. The
/// connection code serializes it; the record itself is a plain value.
pub struct VoiceAnalysis {
    pub analysis: String,
}

impl VoiceAnalysis {
    pub fn new(analysis: String) -> (r: VoiceAnalysis)
        ensures
            r.analysis@ == analysis@,
    {
        VoiceAnalysis { analysis }
    }
}

} // verus!
