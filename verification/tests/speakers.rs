use meetily_diarization::{is_blank_text, validate_display_name, MeetingSpeaker};

#[test]
fn blank_display_names_are_rejected() {
    let err = Err("Display name cannot be empty".to_string());
    assert_eq!(validate_display_name(""), err);
    assert_eq!(validate_display_name("   "), err);
    assert_eq!(validate_display_name("\t\n\u{3000}\u{a0}"), err);
    assert_eq!(validate_display_name("Anna"), Ok(()));
    assert_eq!(validate_display_name("  Anna "), Ok(()));
}

#[test]
fn blank_matches_trim() {
    for s in ["", " ", "\u{2028}x", "\u{200b}", "\u{85}\u{1680}", "a"] {
        assert_eq!(is_blank_text(s), s.trim().is_empty(), "{:?}", s);
    }
}

#[test]
fn meeting_speaker_holds_its_fields() {
    let s = MeetingSpeaker {
        meeting_id: "m".to_string(),
        speaker_key: "speaker_00".to_string(),
        display_name: "Anna".to_string(),
    };
    assert_eq!(s.clone().display_name, "Anna");
}
