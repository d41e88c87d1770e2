use vstd::prelude::*;

use crate::assignment::{
    is_mic_segment, planned_assignment, planned_assignments, speaker_indices, TranscriptSpan,
};
use crate::attribution::{
    dominant_speaker, has_overlapping_speech, is_dominant_speaker, lemma_dominant_speaker_exists,
    DiarizedSegment,
};
use crate::speaker_key::speaker_key_text;
use crate::jobs::{claimed, is_claimed, released};

verus! {

/// Every planned assignment is the one planned for some transcript segment.
proof fn lemma_assignment_origin(ts: Seq<TranscriptSpan>, segs: Seq<DiarizedSegment>, k: int) -> (i:
    int)
    requires
        0 <= k < planned_assignments(ts, segs).len(),
    ensures
        0 <= i < ts.len(),
        planned_assignment(ts[i], segs) == Some(planned_assignments(ts, segs)[k]),
    decreases ts.len(),
{
    let rest = planned_assignments(ts.drop_last(), segs);
    if k < rest.len() {
        let i = lemma_assignment_origin(ts.drop_last(), segs, k);
        assert(ts.drop_last()[i] == ts[i]);
        i
    } else {
        (ts.len() - 1) as int
    }
}

/// Segments labelled `mic` keep their label: when transcript ids are unique,
/// no planned assignment targets a `mic` segment.
pub proof fn lemma_mic_segments_are_never_relabelled(
    ts: Seq<TranscriptSpan>,
    segs: Seq<DiarizedSegment>,
)
    requires
        ts.map_values(|t: TranscriptSpan| t.id@).no_duplicates(),
    ensures
        forall|k: int, j: int|
            0 <= k < planned_assignments(ts, segs).len() && 0 <= j < ts.len() && is_mic_segment(
                #[trigger] ts[j],
            ) ==> (#[trigger] planned_assignments(ts, segs)[k]).0 != ts[j].id@,
{
    let ids = ts.map_values(|t: TranscriptSpan| t.id@);
    assert forall|k: int, j: int|
        0 <= k < planned_assignments(ts, segs).len() && 0 <= j < ts.len() && is_mic_segment(
            #[trigger] ts[j],
        ) implies (#[trigger] planned_assignments(ts, segs)[k]).0 != ts[j].id@ by {
        let i = lemma_assignment_origin(ts, segs, k);
        assert(!is_mic_segment(ts[i]));
        assert(planned_assignments(ts, segs)[k].0 == ts[i].id@);
        assert(ids[i] == ts[i].id@ && ids[j] == ts[j].id@);
    }
}

/// The segment gets a new speaker key: it is not labelled `mic`, it has both
/// a start and an end time, and some diarized speech overlaps it. Its current
/// label, if it is not `mic`, plays no part.
pub open spec fn is_relabelled(t: TranscriptSpan, segs: Seq<DiarizedSegment>) -> bool {
    &&& !(t.speaker matches Some(label) && label@ == seq!['m', 'i', 'c'])
    &&& t.start_us is Some
    &&& t.end_us is Some
    &&& has_overlapping_speech(segs, t.start_us->0 as int, t.end_us->0 as int)
}

/// Every segment that gets a new key, whatever its current label, appears in
/// the plan with its id and the key of its dominant speaker; the plan has one
/// entry per such segment and no other.
pub proof fn lemma_every_eligible_segment_is_relabelled(
    ts: Seq<TranscriptSpan>,
    segs: Seq<DiarizedSegment>,
)
    ensures
        planned_assignments(ts, segs).len() == ts.filter(
            |t: TranscriptSpan| is_relabelled(t, segs),
        ).len(),
        forall|i: int|
            0 <= i < ts.len() && is_relabelled(#[trigger] ts[i], segs) ==> exists|k: int, s: i32|
                0 <= k < planned_assignments(ts, segs).len() && is_dominant_speaker(
                    segs,
                    ts[i].start_us->0 as int,
                    ts[i].end_us->0 as int,
                    s,
                ) && planned_assignments(ts, segs)[k] == (ts[i].id@, speaker_key_text(s)),
    decreases ts.len(),
{
    let p = |t: TranscriptSpan| is_relabelled(t, segs);
    if ts.len() == 0 {
        reveal(Seq::filter);
    } else {
        let rest = ts.drop_last();
        let t = ts.last();
        lemma_every_eligible_segment_is_relabelled(rest, segs);
        assert(ts =~= rest.push(t));
        rest.lemma_filter_push(t, p);
        assert(is_mic_segment(t) == (t.speaker matches Some(label) && label@ == seq![
            'm',
            'i',
            'c',
        ]));
        if is_relabelled(t, segs) {
            lemma_dominant_speaker_exists(segs, t.start_us->0 as int, t.end_us->0 as int);
        }
        assert(planned_assignment(t, segs) is Some <==> is_relabelled(t, segs));
        let plan = planned_assignments(ts, segs);
        let prev = planned_assignments(rest, segs);
        assert forall|i: int|
            0 <= i < ts.len() && is_relabelled(#[trigger] ts[i], segs) implies exists|
                k: int,
                s: i32,
            |
                0 <= k < plan.len() && is_dominant_speaker(
                    segs,
                    ts[i].start_us->0 as int,
                    ts[i].end_us->0 as int,
                    s,
                ) && plan[k] == (ts[i].id@, speaker_key_text(s)) by {
            if i < ts.len() - 1 {
                assert(rest[i] == ts[i]);
                let (k, s) = choose|k: int, s: i32|
                    0 <= k < prev.len() && is_dominant_speaker(
                        segs,
                        rest[i].start_us->0 as int,
                        rest[i].end_us->0 as int,
                        s,
                    ) && prev[k] == (rest[i].id@, speaker_key_text(s));
                assert(plan[k] == prev[k]);
            } else {
                let s = dominant_speaker(segs, t.start_us->0 as int, t.end_us->0 as int)->0;
                assert(plan[prev.len() as int] == (t.id@, speaker_key_text(s)));
            }
        }
    }
}

/// The counted speakers are exactly the speaker indices of the diarized
/// segments: each segment's index is among them, and each of them is some
/// segment's index.
pub proof fn lemma_counted_speakers_are_the_segment_speakers(segs: Seq<DiarizedSegment>)
    ensures
        forall|k: int| 0 <= k < segs.len() ==> speaker_indices(segs).contains(
            (#[trigger] segs[k]).speaker_index,
        ),
        forall|x: i32|
            speaker_indices(segs).contains(x) ==> exists|k: int|
                0 <= k < segs.len() && (#[trigger] segs[k]).speaker_index == x,
{
    let ids = segs.map_values(|g: DiarizedSegment| g.speaker_index);
    assert forall|k: int| 0 <= k < segs.len() implies speaker_indices(segs).contains(
        (#[trigger] segs[k]).speaker_index,
    ) by {
        assert(ids[k] == segs[k].speaker_index);
        assert(ids.contains(segs[k].speaker_index));
    }
    assert forall|x: i32| speaker_indices(segs).contains(x) implies exists|k: int|
        0 <= k < segs.len() && (#[trigger] segs[k]).speaker_index == x by {
        assert(ids.contains(x));
        let k = choose|k: int| 0 <= k < ids.len() && ids[k] == x;
        assert(segs[k].speaker_index == x);
    }
}

/// Claims are exclusive until released: right after a successful claim for
/// a meeting, that meeting is reported running and a second claim for it is
/// refused; once the claim is released the meeting can be claimed again, and
/// the claims of other meetings are as they were before. A fresh registry
/// refuses no claim.
pub proof fn lemma_claims_are_exclusive_until_released(
    running: Set<Seq<char>>,
    meeting: Seq<char>,
    other: Seq<char>,
)
    requires
        other != meeting,
    ensures
        claimed(Set::<Seq<char>>::empty(), meeting) is Some,
        claimed(running, meeting) is None ==> is_claimed(running, meeting),
        claimed(running, meeting) matches Some(after) ==> {
            &&& is_claimed(after, meeting)
            &&& claimed(after, meeting) is None
            &&& claimed(released(after, meeting), meeting) is Some
            &&& is_claimed(released(after, meeting), other) == is_claimed(running, other)
        },
{
}

} // verus!
