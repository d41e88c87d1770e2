use vstd::prelude::*;

use crate::attribution::{dominant_speaker, dominant_speaker_key_for_range, DiarizedSegment};
use crate::speaker_key::speaker_key_text;

verus! {

/// The speaker label and timing of one stored transcript segment, as the
/// attribution step reads it. Times are in microseconds from the start of the
/// recording.
#[derive(Clone, Debug)]
pub struct TranscriptSpan {
    pub id: String,
    pub speaker: Option<String>,
    pub start_us: Option<u64>,
    pub end_us: Option<u64>,
}

/// Outcome of one diarization run for a meeting.
#[derive(Clone, Debug)]
pub struct SpeakerDiarizationResult {
    pub meeting_id: String,
    pub num_speakers: i32,
    pub segments_updated: usize,
}

/// The label of segments captured from the caller's own microphone.
pub open spec fn mic_label() -> Seq<char> {
    seq!['m', 'i', 'c']
}

/// The segment carries the high-confidence `mic` label, which attribution keeps.
pub open spec fn is_mic_segment(t: TranscriptSpan) -> bool {
    t.speaker matches Some(s) && s@ == mic_label()
}

/// The `(transcript id, speaker key)` pair that attribution produces for `t`, if any.
pub open spec fn planned_assignment(t: TranscriptSpan, segs: Seq<DiarizedSegment>) -> Option<
    (Seq<char>, Seq<char>),
> {
    if is_mic_segment(t) {
        None
    } else {
        match (t.start_us, t.end_us) {
            (Some(start), Some(end)) => match dominant_speaker(segs, start as int, end as int) {
                Some(s) => Some((t.id@, speaker_key_text(s))),
                None => None,
            },
            _ => None,
        }
    }
}

/// The assignments for all transcripts, in transcript order.
pub open spec fn planned_assignments(ts: Seq<TranscriptSpan>, segs: Seq<DiarizedSegment>) -> Seq<
    (Seq<char>, Seq<char>),
>
    decreases ts.len(),
{
    if ts.len() == 0 {
        seq![]
    } else {
        let rest = planned_assignments(ts.drop_last(), segs);
        match planned_assignment(ts.last(), segs) {
            Some(a) => rest.push(a),
            None => rest,
        }
    }
}

/// The views of a list of `(transcript id, speaker key)` pairs.
pub open spec fn pairs_view(v: Seq<(String, String)>) -> Seq<(Seq<char>, Seq<char>)> {
    v.map_values(|p: (String, String)| (p.0@, p.1@))
}

/// The distinct speaker indices among the diarized segments.
pub open spec fn speaker_indices(segs: Seq<DiarizedSegment>) -> Set<i32> {
    segs.map_values(|g: DiarizedSegment| g.speaker_index).to_set()
}

/// Whether the segment is labelled `mic`.
fn is_mic(t: &TranscriptSpan) -> (b: bool)
    ensures
        b == is_mic_segment(*t),
{
    match &t.speaker {
        Some(s) => {
            proof {
                reveal_strlit("mic");
                assert("mic"@ =~= mic_label());
            }
            let mic = String::from_str("mic");
            *s == mic
        },
        None => false,
    }
}

/// New speaker keys for the transcript segments, in transcript order: every
/// segment that is not labelled `mic`, has both a start and an end time, and
/// overlaps some diarized speech gets the key of its dominant speaker.
pub fn plan_speaker_assignments(transcripts: &[TranscriptSpan], diarized: &[DiarizedSegment]) -> (r:
    Vec<(String, String)>)
    ensures
        pairs_view(r@) == planned_assignments(transcripts@, diarized@),
{
    let mut assignments: Vec<(String, String)> = Vec::new();
    let n = transcripts.len();
    let mut i: usize = 0;
    while i < n
        invariant
            n == transcripts@.len(),
            i <= n,
            pairs_view(assignments@) == planned_assignments(transcripts@.take(i as int), diarized@),
        decreases n - i,
    {
        let t = &transcripts[i];
        let ghost prev = transcripts@.take(i as int);
        assert(transcripts@.take(i + 1).drop_last() =~= prev);
        assert(transcripts@.take(i + 1).last() == transcripts@[i as int]);
        let ghost before = assignments@;
        if !is_mic(t) {
            match (t.start_us, t.end_us) {
                (Some(start), Some(end)) => {
                    match dominant_speaker_key_for_range(diarized, start, end) {
                        Some(key) => {
                            assignments.push((t.id.clone(), key));
                            assert(pairs_view(assignments@) =~= pairs_view(before).push(
                                (t.id@, assignments@.last().1@),
                            ));
                        },
                        None => {},
                    }
                },
                _ => {},
            }
        }
        i = i + 1;
    }
    assert(transcripts@.take(n as int) =~= transcripts@);
    assignments
}

/// Number of distinct speaker indices among the diarized segments (as `i32`).
pub fn count_distinct_speakers(diarized: &[DiarizedSegment]) -> (count: i32)
    ensures
        count == speaker_indices(diarized@).len() as i32,
{
    let mut seen: Vec<i32> = Vec::new();
    let n = diarized.len();
    let mut j: usize = 0;
    while j < n
        invariant
            n == diarized@.len(),
            j <= n,
            seen@.no_duplicates(),
            forall|x: i32|
                seen@.contains(x) <==> exists|k: int|
                    0 <= k < j && (#[trigger] diarized@[k]).speaker_index == x,
        decreases n - j,
    {
        let s = diarized[j].speaker_index;
        let mut p: usize = 0;
        let mut found = false;
        while p < seen.len()
            invariant_except_break
                !found,
            invariant
                p <= seen@.len(),
                forall|q: int| 0 <= q < p ==> seen@[q] != s,
            ensures
                found <==> seen@.contains(s),
            decreases seen@.len() - p,
        {
            if seen[p] == s {
                found = true;
                break;
            }
            p = p + 1;
        }
        let ghost before = seen@;
        if !found {
            seen.push(s);
        }
        proof {
            assert forall|x: i32|
                seen@.contains(x) <==> exists|k: int|
                    0 <= k < j + 1 && (#[trigger] diarized@[k]).speaker_index == x by {
                if seen@.contains(x) {
                    let q = choose|q: int| 0 <= q < seen@.len() && seen@[q] == x;
                    if q < before.len() {
                        assert(before[q] == x);
                        assert(before.contains(x));
                    } else {
                        assert(diarized@[j as int].speaker_index == x);
                    }
                }
                if exists|k: int| 0 <= k < j + 1 && (#[trigger] diarized@[k]).speaker_index == x {
                    let k = choose|k: int| 0 <= k < j + 1 && (#[trigger] diarized@[k]).speaker_index == x;
                    if k < j {
                        assert(before.contains(x));
                        let q = choose|q: int| 0 <= q < before.len() && before[q] == x;
                        assert(seen@[q] == x);
                    } else if found {
                        assert(seen@ == before);
                    } else {
                        assert(seen@[before.len() as int] == x);
                    }
                }
            }
        }
        j = j + 1;
    }
    proof {
        let ids = diarized@.map_values(|g: DiarizedSegment| g.speaker_index);
        assert forall|x: i32| seen@.to_set().contains(x) <==> ids.to_set().contains(x) by {
            if ids.contains(x) {
                let k = choose|k: int| 0 <= k < ids.len() && ids[k] == x;
                assert(diarized@[k].speaker_index == x);
            }
            if seen@.contains(x) {
                let k = choose|k: int| 0 <= k < n && (#[trigger] diarized@[k]).speaker_index == x;
                assert(ids[k] == x);
            }
        }
        assert(seen@.to_set() =~= ids.to_set());
        seen@.unique_seq_to_set();
    }
    let count = seen.len();
    count as i32
}

/// The bookkeeping that follows a successful inference: the new speaker keys
/// to store and the summary returned to the caller.
pub fn summarize_diarization(
    meeting_id: String,
    transcripts: &[TranscriptSpan],
    diarized: &[DiarizedSegment],
) -> (r: (SpeakerDiarizationResult, Vec<(String, String)>))
    ensures
        r.0.meeting_id == meeting_id,
        r.0.num_speakers == speaker_indices(diarized@).len() as i32,
        pairs_view(r.1@) == planned_assignments(transcripts@, diarized@),
        r.0.segments_updated == r.1@.len(),
{
    let num_speakers = count_distinct_speakers(diarized);
    let assignments = plan_speaker_assignments(transcripts, diarized);
    let segments_updated = assignments.len();
    (SpeakerDiarizationResult { meeting_id, num_speakers, segments_updated }, assignments)
}

} // verus!
