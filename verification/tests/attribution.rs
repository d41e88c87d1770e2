use meetily_diarization::{
    count_distinct_speakers, dominant_speaker_for_range, dominant_speaker_key_for_range,
    plan_speaker_assignments, speaker_key, summarize_diarization, DiarizedSegment, TranscriptSpan,
};

fn segment(start_s: u64, end_s: u64, speaker_index: i32) -> DiarizedSegment {
    DiarizedSegment { start_us: start_s * 1_000_000, end_us: end_s * 1_000_000, speaker_index }
}

fn span(id: &str, speaker: Option<&str>, start_s: Option<u64>, end_s: Option<u64>) -> TranscriptSpan {
    TranscriptSpan {
        id: id.to_string(),
        speaker: speaker.map(|s| s.to_string()),
        start_us: start_s.map(|s| s * 1_000_000),
        end_us: end_s.map(|s| s * 1_000_000),
    }
}

#[test]
fn test_dominant_speaker_key_aggregates_overlap_per_speaker() {
    let diarized = vec![segment(0, 2, 0), segment(2, 5, 1), segment(5, 7, 0)];
    assert_eq!(
        dominant_speaker_key_for_range(&diarized, 0, 7_000_000),
        Some("speaker_00".to_string())
    );
}

#[test]
fn dominant_speaker_is_none_without_overlap() {
    let diarized = vec![segment(0, 2, 0), segment(5, 7, 1)];
    assert_eq!(dominant_speaker_key_for_range(&diarized, 2_000_000, 5_000_000), None);
    assert_eq!(dominant_speaker_key_for_range(&[], 0, 10_000_000), None);
    // An empty (or reversed) range overlaps nothing.
    assert_eq!(dominant_speaker_for_range(&diarized, 1_000_000, 1_000_000), None);
    assert_eq!(dominant_speaker_for_range(&diarized, 6_000_000, 1_000_000), None);
}

#[test]
fn dominant_speaker_ties_go_to_the_smaller_index() {
    let diarized = vec![segment(0, 3, 4), segment(3, 6, 2)];
    assert_eq!(dominant_speaker_for_range(&diarized, 0, 6_000_000), Some(2));
    let diarized = vec![segment(3, 6, 2), segment(0, 3, 4)];
    assert_eq!(dominant_speaker_for_range(&diarized, 0, 6_000_000), Some(2));
}

#[test]
fn dominant_speaker_counts_only_the_overlapping_part() {
    // Speaker 1's long segment barely overlaps the range; speaker 0's short one lies inside it.
    let diarized = vec![segment(0, 100, 1), segment(101, 103, 0)];
    assert_eq!(dominant_speaker_for_range(&diarized, 99_000_000, 104_000_000), Some(0));
}

#[test]
fn speaker_key_pads_to_two_digits() {
    assert_eq!(speaker_key(0), "speaker_00");
    assert_eq!(speaker_key(7), "speaker_07");
    assert_eq!(speaker_key(12), "speaker_12");
    assert_eq!(speaker_key(123), "speaker_123");
    assert_eq!(speaker_key(-1), "speaker_-1");
    assert_eq!(speaker_key(-42), "speaker_-42");
    assert_eq!(speaker_key(i32::MAX), format!("speaker_{:02}", i32::MAX));
    assert_eq!(speaker_key(i32::MIN), format!("speaker_{:02}", i32::MIN));
}

#[test]
fn count_distinct_speakers_ignores_repeats() {
    let diarized = vec![segment(0, 1, 3), segment(1, 2, 0), segment(2, 3, 3), segment(3, 4, 1)];
    assert_eq!(count_distinct_speakers(&diarized), 3);
    assert_eq!(count_distinct_speakers(&[]), 0);
}

#[test]
fn plan_keeps_mic_and_untimed_segments() {
    let diarized = vec![segment(0, 4, 0), segment(4, 10, 1)];
    let transcripts = vec![
        span("a", Some("mic"), Some(0), Some(4)),
        span("b", Some("system"), Some(0), Some(3)),
        span("c", None, Some(5), Some(9)),
        span("d", None, None, Some(9)),
        span("e", Some("speaker_00"), Some(20), Some(30)),
        span("f", Some("Mic"), Some(4), Some(10)),
    ];
    let plan = plan_speaker_assignments(&transcripts, &diarized);
    assert_eq!(
        plan,
        vec![
            ("b".to_string(), "speaker_00".to_string()),
            ("c".to_string(), "speaker_01".to_string()),
            ("f".to_string(), "speaker_01".to_string()),
        ]
    );
}

#[test]
fn summary_counts_speakers_and_updates() {
    let diarized = vec![segment(0, 4, 0), segment(4, 10, 1), segment(10, 12, 0)];
    let transcripts = vec![span("x", None, Some(0), Some(5)), span("y", Some("mic"), Some(5), Some(9))];
    let (result, assignments) = summarize_diarization("m1".to_string(), &transcripts, &diarized);
    assert_eq!(result.meeting_id, "m1");
    assert_eq!(result.num_speakers, 2);
    assert_eq!(result.segments_updated, 1);
    assert_eq!(assignments, vec![("x".to_string(), "speaker_00".to_string())]);
}

#[test]
fn distinct_clusters_get_distinct_keys() {
    let mut keys: Vec<String> = (-150..150).map(speaker_key).collect();
    let n = keys.len();
    keys.sort();
    keys.dedup();
    assert_eq!(keys.len(), n);
}

#[test]
fn attribution_ignores_segment_order() {
    let forward = vec![segment(0, 2, 0), segment(2, 5, 1), segment(5, 7, 0), segment(7, 8, 2)];
    let mut backward = forward.clone();
    backward.reverse();
    for (start, end) in [(0, 8), (1, 6), (2, 5), (4, 8), (7, 8)] {
        assert_eq!(
            dominant_speaker_for_range(&forward, start * 1_000_000, end * 1_000_000),
            dominant_speaker_for_range(&backward, start * 1_000_000, end * 1_000_000)
        );
    }
}

#[test]
fn more_speech_keeps_the_dominant_speaker() {
    let mut diarized = vec![segment(0, 3, 1), segment(3, 5, 0)];
    assert_eq!(dominant_speaker_for_range(&diarized, 0, 10_000_000), Some(1));
    diarized.push(segment(5, 6, 1));
    assert_eq!(dominant_speaker_for_range(&diarized, 0, 10_000_000), Some(1));
}
