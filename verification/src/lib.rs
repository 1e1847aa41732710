//! Per-connection voice-activity feature extraction.
//!
//! The crate decodes raw little-endian PCM frames, accumulates the exact
//! integer quantities behind the loudness and pitch-dispersion formulas,
//! keeps a bounded history of recent pitch estimates, and runs the
//! speaking-state hysteresis machine. All quantities handled here are
//! integers (pitch in millihertz, time in milliseconds); the surrounding
//! server turns them into the floating-point wire format.

pub mod decode;
pub mod energy;
pub mod gemini_msg;
pub mod gemini_parser;
pub mod history;
pub mod pitch;
pub mod sensors;
