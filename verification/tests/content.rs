use resonance::gemini_msg::VoiceAnalysis;
use resonance::gemini_parser::{ContentPart, GeminiEvent, GeminiParser};

fn text_part(t: &str) -> ContentPart {
    ContentPart { text: Some(t.to_string()), inline_data: None }
}

fn audio_part(data: &str) -> ContentPart {
    ContentPart { text: None, inline_data: Some(data.to_string()) }
}

#[test]
fn first_text_part_wins() {
    let parts = vec![
        ContentPart { text: None, inline_data: None },
        text_part("hello"),
        text_part("later"),
    ];
    match GeminiParser::parse_content(&parts) {
        Some(GeminiEvent::Text(t)) => assert_eq!(t, "hello"),
        _ => panic!("expected the first text part"),
    }
}

#[test]
fn text_wins_over_audio_within_a_part() {
    let parts = vec![ContentPart {
        text: Some("caption".to_string()),
        inline_data: Some("AQID".to_string()),
    }];
    match GeminiParser::parse_content(&parts) {
        Some(GeminiEvent::Text(t)) => assert_eq!(t, "caption"),
        _ => panic!("expected text to win over audio"),
    }
}

#[test]
fn audio_payload_is_base64_decoded() {
    // "AQID" is the standard base64 encoding of the bytes [1, 2, 3]; the
    // event must carry the decoded bytes, not the encoded text.
    let parts = vec![audio_part("AQID")];
    match GeminiParser::parse_content(&parts) {
        Some(GeminiEvent::Audio(bytes)) => assert_eq!(bytes, vec![1u8, 2, 3]),
        _ => panic!("expected decoded audio"),
    }
}

#[test]
fn undecodable_audio_is_skipped_in_favor_of_a_later_part() {
    let parts = vec![audio_part("@@not-base64@@"), audio_part("BAUG")];
    match GeminiParser::parse_content(&parts) {
        Some(GeminiEvent::Audio(bytes)) => assert_eq!(bytes, vec![4u8, 5, 6]),
        _ => panic!("expected the second part's audio"),
    }
}

#[test]
fn contentless_turn_yields_none() {
    assert!(GeminiParser::parse_content(&vec![]).is_none());
    let parts = vec![
        ContentPart { text: None, inline_data: None },
        audio_part("!!!"),
    ];
    assert!(GeminiParser::parse_content(&parts).is_none());
}

#[test]
fn voice_analysis_carries_its_note() {
    let v = VoiceAnalysis::new("steady pitch".to_string());
    assert_eq!(v.analysis, "steady pitch");
}
