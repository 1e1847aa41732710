//! Selecting conversational content from a model turn.
//!
//! The external voice model streams back deeply nested JSON turns. The
//! connection code reduces a turn to its "parts" array, each part carrying
//! at most a text fragment and a base64-encoded audio payload; the policy
//! for picking the first piece of real content out of those parts is
//! implemented and specified here.

use vstd::prelude::*;
use base64::Engine;

verus! {

/// One entry of a turn's parts array, reduced to the two fields this
/// pipeline reads.
pub struct ContentPart {
    /// A transcript fragment, when the part carries one.
    pub text: Option<String>,
    /// A base64-encoded audio payload, when the part carries one.
    pub inline_data: Option<String>,
}

/// The two fundamentally different kinds of data the model streams back.
pub enum GeminiEvent {
    /// Raw decoded audio chunks (PCM) of the synthesized voice.
    Audio(Vec<u8>),
    /// A live transcript portion of what the model is saying.
    Text(String),
}

/// The abstract content of an event.
pub enum EventModel {
    Audio(Seq<u8>),
    Text(Seq<char>),
}

/// What the standard base64 engine decodes a piece of text to, if it is
/// valid base64; a function of the text alone.
pub uninterp spec fn decoded_b64(encoded: Seq<char>) -> Option<Seq<u8>>;

/// Relies on base64's `Engine::decode` with the `STANDARD` engine: it
/// returns the decoded bytes of a valid input and an error otherwise,
/// determined by the input text alone.
#[verifier::external_body]
fn decode_b64(encoded: &str) -> (r: Option<Vec<u8>>)
    ensures
        match (r, decoded_b64(encoded@)) {
            (Option::Some(v), Option::Some(d)) => v@ == d,
            (Option::None, Option::None) => true,
            _ => false,
        },
{
    base64::engine::general_purpose::STANDARD.decode(encoded).ok()
}

/// The abstract view of a concrete event.
pub open spec fn event_model(e: GeminiEvent) -> EventModel {
    match e {
        GeminiEvent::Audio(bytes) => EventModel::Audio(bytes@),
        GeminiEvent::Text(t) => EventModel::Text(t@),
    }
}

/// What one part yields: a text fragment wins over audio within a part,
/// and audio counts only when its payload decodes as base64.
pub open spec fn part_event(p: ContentPart) -> Option<EventModel> {
    if p.text.is_some() {
        Option::Some(EventModel::Text(p.text.unwrap()@))
    } else if p.inline_data.is_some() && decoded_b64(p.inline_data.unwrap()@).is_some() {
        Option::Some(EventModel::Audio(decoded_b64(p.inline_data.unwrap()@).unwrap()))
    } else {
        Option::None
    }
}

/// The content of a whole parts array: what its first yielding part
/// yields, `None` when no part carries content.
pub open spec fn turn_content(parts: Seq<ContentPart>) -> Option<EventModel>
    decreases parts.len(),
{
    if parts.len() == 0 {
        Option::None
    } else if part_event(parts.first()).is_some() {
        part_event(parts.first())
    } else {
        turn_content(parts.drop_first())
    }
}

/// A utility for tearing down the model's nested turn structure to the
/// conversational content it carries.
pub struct GeminiParser;

impl GeminiParser {
    /// Pluck the first valid piece of text or audio data from a turn's
    /// parts. Returns `None` if the turn carries no conversational
    /// content (metadata, keep-alives, undecodable payloads).
    pub fn parse_content(parts: &Vec<ContentPart>) -> (r: Option<GeminiEvent>)
        ensures
            match (r, turn_content(parts@)) {
                (Option::Some(e), Option::Some(m)) => event_model(e) == m,
                (Option::None, Option::None) => true,
                _ => false,
            },
    {
        let n = parts.len();
        let mut i: usize = 0;
        proof {
            assert(parts@.skip(0) =~= parts@);
        }
        while i < n
            invariant
                n == parts@.len(),
                i <= n,
                turn_content(parts@) == turn_content(parts@.skip(i as int)),
            decreases n - i,
        {
            proof {
                assert(parts@.skip(i as int).first() == parts@[i as int]);
            }
            let part = &parts[i];
            match &part.text {
                Option::Some(t) => {
                    return Option::Some(GeminiEvent::Text(t.clone()));
                },
                Option::None => {},
            }
            match &part.inline_data {
                Option::Some(d) => {
                    match decode_b64(d.as_str()) {
                        Option::Some(audio) => {
                            return Option::Some(GeminiEvent::Audio(audio));
                        },
                        Option::None => {},
                    }
                },
                Option::None => {},
            }
            proof {
                assert(part_event(parts@[i as int]).is_none());
                assert(parts@.skip(i as int).drop_first() =~= parts@.skip(i + 1 as int));
            }
            i = i + 1;
        }
        proof {
            assert(parts@.skip(n as int) =~= Seq::<ContentPart>::empty());
        }
        Option::None
    }
}

} // verus!
