use vstd::prelude::*;

use crate::speaker_key::{speaker_key, speaker_key_text};

verus! {

/// One speaker-attributed time range of the diarization result, with its
/// bounds in microseconds from the start of the recording.
#[derive(Clone, Copy, Debug, PartialEq, Eq)]
pub struct DiarizedSegment {
    pub start_us: u64,
    pub end_us: u64,
    /// 0-based cluster index assigned by the clustering step.
    pub speaker_index: i32,
}

/// Signed length of the intersection of `seg` with `[start, end]`
/// (zero or negative when they do not overlap).
pub open spec fn overlap_with(seg: DiarizedSegment, start: int, end: int) -> int {
    let hi = if seg.end_us < end { seg.end_us as int } else { end };
    let lo = if seg.start_us > start { seg.start_us as int } else { start };
    hi - lo
}

/// The part of an overlap that counts toward a speaker: only positive overlaps.
pub open spec fn counted_overlap(seg: DiarizedSegment, start: int, end: int) -> int {
    if overlap_with(seg, start, end) > 0 {
        overlap_with(seg, start, end)
    } else {
        0
    }
}

/// Total overlap of `speaker`'s segments with `[start, end]`.
pub open spec fn speaker_overlap(
    segs: Seq<DiarizedSegment>,
    speaker: i32,
    start: int,
    end: int,
) -> int
    decreases segs.len(),
{
    if segs.len() == 0 {
        0
    } else {
        speaker_overlap(segs.drop_last(), speaker, start, end) + if segs.last().speaker_index
            == speaker {
            counted_overlap(segs.last(), start, end)
        } else {
            0
        }
    }
}

/// `speaker` has the greatest cumulative overlap with `[start, end]`, that
/// overlap is positive, and no speaker with an equal total has a smaller index.
pub open spec fn is_dominant_speaker(
    segs: Seq<DiarizedSegment>,
    start: int,
    end: int,
    speaker: i32,
) -> bool {
    &&& speaker_overlap(segs, speaker, start, end) > 0
    &&& forall|other: i32|
        #![trigger speaker_overlap(segs, other, start, end)]
        speaker_overlap(segs, other, start, end) <= speaker_overlap(segs, speaker, start, end)
    &&& forall|other: i32|
        #![trigger speaker_overlap(segs, other, start, end)]
        speaker_overlap(segs, other, start, end) == speaker_overlap(segs, speaker, start, end)
            ==> speaker <= other
}

/// Some diarized segment overlaps `[start, end]` by a positive duration.
pub open spec fn has_overlapping_speech(segs: Seq<DiarizedSegment>, start: int, end: int) -> bool {
    exists|i: int| 0 <= i < segs.len() && overlap_with(#[trigger] segs[i], start, end) > 0
}

/// The dominant speaker of a range, as a function (it is unique when it exists).
pub open spec fn dominant_speaker(segs: Seq<DiarizedSegment>, start: int, end: int) -> Option<i32> {
    if has_overlapping_speech(segs, start, end) {
        Some(choose|s: i32| is_dominant_speaker(segs, start, end, s))
    } else {
        None
    }
}

/// At most one speaker is dominant for a range.
pub proof fn lemma_dominant_speaker_unique(
    segs: Seq<DiarizedSegment>,
    start: int,
    end: int,
    a: i32,
    b: i32,
)
    requires
        is_dominant_speaker(segs, start, end, a),
        is_dominant_speaker(segs, start, end, b),
    ensures
        a == b,
{
    assert(speaker_overlap(segs, b, start, end) <= speaker_overlap(segs, a, start, end));
    assert(speaker_overlap(segs, a, start, end) <= speaker_overlap(segs, b, start, end));
}

/// The largest value a single counted overlap can take.
pub open spec fn max_overlap() -> int {
    0xFFFF_FFFF_FFFF_FFFFint
}

proof fn lemma_speaker_overlap_bounds(segs: Seq<DiarizedSegment>, speaker: i32, start: int, end: int)
    requires
        0 <= start,
        end <= max_overlap(),
    ensures
        0 <= speaker_overlap(segs, speaker, start, end) <= segs.len() * max_overlap(),
    decreases segs.len(),
{
    if segs.len() > 0 {
        lemma_speaker_overlap_bounds(segs.drop_last(), speaker, start, end);
    }
}

/// Every counted overlap of one of `speaker`'s segments is part of its total.
proof fn lemma_segment_counts_toward_speaker(
    segs: Seq<DiarizedSegment>,
    k: int,
    start: int,
    end: int,
)
    requires
        0 <= k < segs.len(),
    ensures
        counted_overlap(segs[k], start, end) <= speaker_overlap(
            segs,
            segs[k].speaker_index,
            start,
            end,
        ),
    decreases segs.len(),
{
    lemma_speaker_overlap_nonneg(segs.drop_last(), segs[k].speaker_index, start, end);
    if k < segs.len() - 1 {
        lemma_segment_counts_toward_speaker(segs.drop_last(), k, start, end);
    }
}

proof fn lemma_speaker_overlap_nonneg(segs: Seq<DiarizedSegment>, speaker: i32, start: int, end: int)
    ensures
        0 <= speaker_overlap(segs, speaker, start, end),
    decreases segs.len(),
{
    if segs.len() > 0 {
        lemma_speaker_overlap_nonneg(segs.drop_last(), speaker, start, end);
    }
}

/// A positive total comes from some segment of that speaker with a positive overlap.
proof fn lemma_positive_total_has_witness(
    segs: Seq<DiarizedSegment>,
    speaker: i32,
    start: int,
    end: int,
) -> (k: int)
    requires
        speaker_overlap(segs, speaker, start, end) > 0,
    ensures
        0 <= k < segs.len(),
        segs[k].speaker_index == speaker,
        overlap_with(segs[k], start, end) > 0,
    decreases segs.len(),
{
    let rest = segs.drop_last();
    if speaker_overlap(rest, speaker, start, end) > 0 {
        let k = lemma_positive_total_has_witness(rest, speaker, start, end);
        assert(rest[k] == segs[k]);
        k
    } else {
        (segs.len() - 1) as int
    }
}

/// The candidate among the speakers of `segs[0..k]` with the greatest total,
/// ties to the smaller index.
proof fn lemma_best_among_first(segs: Seq<DiarizedSegment>, start: int, end: int, k: int) -> (b: i32)
    requires
        1 <= k <= segs.len(),
    ensures
        exists|j: int| 0 <= j < k && (#[trigger] segs[j]).speaker_index == b,
        forall|j: int|
            0 <= j < k ==> speaker_overlap(segs, (#[trigger] segs[j]).speaker_index, start, end)
                < speaker_overlap(segs, b, start, end) || (speaker_overlap(
                segs,
                segs[j].speaker_index,
                start,
                end,
            ) == speaker_overlap(segs, b, start, end) && b <= segs[j].speaker_index),
    decreases k,
{
    let c = segs[k - 1].speaker_index;
    if k == 1 {
        c
    } else {
        let p = lemma_best_among_first(segs, start, end, k - 1);
        let tc = speaker_overlap(segs, c, start, end);
        let tp = speaker_overlap(segs, p, start, end);
        if tc > tp || (tc == tp && c < p) {
            c
        } else {
            p
        }
    }
}

/// Whenever some segment overlaps the range, a dominant speaker exists.
pub proof fn lemma_dominant_speaker_exists(segs: Seq<DiarizedSegment>, start: int, end: int)
    requires
        has_overlapping_speech(segs, start, end),
    ensures
        exists|s: i32| is_dominant_speaker(segs, start, end, s),
        dominant_speaker(segs, start, end) matches Some(s) && is_dominant_speaker(
            segs,
            start,
            end,
            s,
        ),
{
    let i = choose|i: int| 0 <= i < segs.len() && overlap_with(#[trigger] segs[i], start, end) > 0;
    let b = lemma_best_among_first(segs, start, end, segs.len() as int);
    lemma_segment_counts_toward_speaker(segs, i, start, end);
    assert(speaker_overlap(segs, segs[i].speaker_index, start, end) > 0);
    assert forall|u: i32|
        #![trigger speaker_overlap(segs, u, start, end)]
        speaker_overlap(segs, u, start, end) <= speaker_overlap(segs, b, start, end) && (
        speaker_overlap(segs, u, start, end) == speaker_overlap(segs, b, start, end) ==> b
            <= u) by {
        if speaker_overlap(segs, u, start, end) > 0 {
            let k = lemma_positive_total_has_witness(segs, u, start, end);
            assert(segs[k].speaker_index == u);
        } else {
            lemma_speaker_overlap_nonneg(segs, u, start, end);
        }
    }
    assert(is_dominant_speaker(segs, start, end, b));
    let c = choose|c: i32| is_dominant_speaker(segs, start, end, c);
    lemma_dominant_speaker_unique(segs, start, end, b, c);
}

/// Removing the `k`-th segment takes exactly its own contribution off its speaker's total.
proof fn lemma_speaker_overlap_remove(
    segs: Seq<DiarizedSegment>,
    k: int,
    speaker: i32,
    start: int,
    end: int,
)
    requires
        0 <= k < segs.len(),
    ensures
        speaker_overlap(segs, speaker, start, end) == speaker_overlap(
            segs.remove(k),
            speaker,
            start,
            end,
        ) + if segs[k].speaker_index == speaker {
            counted_overlap(segs[k], start, end)
        } else {
            0
        },
    decreases segs.len(),
{
    if k == segs.len() - 1 {
        assert(segs.remove(k) =~= segs.drop_last());
    } else {
        let r = segs.remove(k);
        assert(r.drop_last() =~= segs.drop_last().remove(k));
        assert(r.last() == segs.last());
        lemma_speaker_overlap_remove(segs.drop_last(), k, speaker, start, end);
    }
}

/// Segments that are a reordering of each other give every speaker the same total.
proof fn lemma_speaker_overlap_permutation(
    a: Seq<DiarizedSegment>,
    b: Seq<DiarizedSegment>,
    speaker: i32,
    start: int,
    end: int,
)
    requires
        a.to_multiset() == b.to_multiset(),
    ensures
        speaker_overlap(a, speaker, start, end) == speaker_overlap(b, speaker, start, end),
    decreases a.len(),
{
    broadcast use vstd::seq_lib::group_to_multiset_ensures;

    if a.len() == 0 {
        assert(b.to_multiset().len() == 0);
        assert(b.len() == 0);
    } else {
        let x = a.last();
        let rest = a.drop_last();
        assert(a =~= rest.push(x));
        assert(a.to_multiset() =~= rest.to_multiset().insert(x));
        assert(b.to_multiset().count(x) > 0);
        assert(b.contains(x));
        let k = choose|k: int| 0 <= k < b.len() && b[k] == x;
        assert(b.remove(k).to_multiset() =~= b.to_multiset().remove(x));
        assert(rest.to_multiset() =~= rest.to_multiset().insert(x).remove(x));
        lemma_speaker_overlap_permutation(rest, b.remove(k), speaker, start, end);
        lemma_speaker_overlap_remove(b, k, speaker, start, end);
    }
}

/// Attribution does not depend on the order of the diarized segments: any
/// reordering gives every speaker the same total and picks the same speaker.
pub proof fn lemma_attribution_ignores_segment_order(
    a: Seq<DiarizedSegment>,
    b: Seq<DiarizedSegment>,
    start: int,
    end: int,
)
    requires
        a.to_multiset() == b.to_multiset(),
    ensures
        forall|speaker: i32|
            #![trigger speaker_overlap(a, speaker, start, end)]
            #![trigger speaker_overlap(b, speaker, start, end)]
            speaker_overlap(a, speaker, start, end) == speaker_overlap(b, speaker, start, end),
        has_overlapping_speech(a, start, end) == has_overlapping_speech(b, start, end),
        dominant_speaker(a, start, end) == dominant_speaker(b, start, end),
{
    broadcast use vstd::seq_lib::group_to_multiset_ensures;

    assert forall|speaker: i32|
        #![trigger speaker_overlap(a, speaker, start, end)]
        #![trigger speaker_overlap(b, speaker, start, end)]
        speaker_overlap(a, speaker, start, end) == speaker_overlap(b, speaker, start, end) by {
        lemma_speaker_overlap_permutation(a, b, speaker, start, end);
    }
    if has_overlapping_speech(a, start, end) {
        let i = choose|i: int| 0 <= i < a.len() && overlap_with(#[trigger] a[i], start, end) > 0;
        assert(a.contains(a[i]));
        assert(a.to_multiset().count(a[i]) > 0);
        assert(b.to_multiset().count(a[i]) > 0);
        assert(b.contains(a[i]));
        let j = choose|j: int| 0 <= j < b.len() && b[j] == a[i];
        assert(overlap_with(b[j], start, end) > 0);
    }
    if has_overlapping_speech(b, start, end) {
        let i = choose|i: int| 0 <= i < b.len() && overlap_with(#[trigger] b[i], start, end) > 0;
        assert(b.contains(b[i]));
        assert(b.to_multiset().count(b[i]) > 0);
        assert(a.to_multiset().count(b[i]) > 0);
        assert(a.contains(b[i]));
        let j = choose|j: int| 0 <= j < a.len() && a[j] == b[i];
        assert(overlap_with(a[j], start, end) > 0);
    }
    if has_overlapping_speech(a, start, end) {
        lemma_dominant_speaker_exists(a, start, end);
        lemma_dominant_speaker_exists(b, start, end);
        let sa = dominant_speaker(a, start, end)->0;
        let sb = dominant_speaker(b, start, end)->0;
        assert(is_dominant_speaker(b, start, end, sa));
        lemma_dominant_speaker_unique(b, start, end, sa, sb);
    }
}

/// More speech from the dominant speaker keeps that speaker dominant.
pub proof fn lemma_more_speech_keeps_the_dominant_speaker(
    segs: Seq<DiarizedSegment>,
    seg: DiarizedSegment,
    start: int,
    end: int,
)
    requires
        dominant_speaker(segs, start, end) is Some,
        seg.speaker_index == dominant_speaker(segs, start, end)->0,
    ensures
        dominant_speaker(segs.push(seg), start, end) == dominant_speaker(segs, start, end),
{
    let s = seg.speaker_index;
    let longer = segs.push(seg);
    lemma_dominant_speaker_exists(segs, start, end);
    assert(longer.drop_last() =~= segs);
    assert(speaker_overlap(longer, s, start, end) >= speaker_overlap(segs, s, start, end));
    assert forall|u: i32|
        #![trigger speaker_overlap(longer, u, start, end)]
        speaker_overlap(longer, u, start, end) <= speaker_overlap(longer, s, start, end) && (
        speaker_overlap(longer, u, start, end) == speaker_overlap(longer, s, start, end) ==> s
            <= u) by {
        if u != s {
            assert(speaker_overlap(longer, u, start, end) == speaker_overlap(segs, u, start, end));
            assert(speaker_overlap(segs, u, start, end) <= speaker_overlap(segs, s, start, end));
        }
    }
    assert(is_dominant_speaker(longer, start, end, s));
    let k = lemma_positive_total_has_witness(longer, s, start, end);
    assert(has_overlapping_speech(longer, start, end));
    lemma_dominant_speaker_exists(longer, start, end);
    lemma_dominant_speaker_unique(longer, start, end, s, dominant_speaker(longer, start, end)->0);
}

/// A segment adds to its speaker's total exactly the length of its
/// intersection with `[start, end]`, measured on the raw bounds, and nothing
/// when they do not intersect; other speakers' totals are unchanged, and with
/// no segments every total is zero.
pub proof fn lemma_totals_add_exact_intersection_lengths(
    segs: Seq<DiarizedSegment>,
    seg: DiarizedSegment,
    speaker: i32,
    start: int,
    end: int,
)
    ensures
        speaker_overlap(Seq::<DiarizedSegment>::empty(), speaker, start, end) == 0,
        ({
            let hi = if seg.end_us <= end { seg.end_us as int } else { end };
            let lo = if seg.start_us >= start { seg.start_us as int } else { start };
            let length = if hi > lo { hi - lo } else { 0 };
            &&& counted_overlap(seg, start, end) == length
            &&& speaker_overlap(segs.push(seg), speaker, start, end) == speaker_overlap(
                segs,
                speaker,
                start,
                end,
            ) + if seg.speaker_index == speaker {
                length
            } else {
                0
            }
        }),
{
    assert(segs.push(seg).drop_last() =~= segs);
}

/// A speaker whose total intersection with the range is strictly larger than
/// another speaker's is never passed over for that other speaker.
pub proof fn lemma_larger_total_is_never_passed_over(
    segs: Seq<DiarizedSegment>,
    start: int,
    end: int,
    larger: i32,
    smaller: i32,
)
    requires
        speaker_overlap(segs, larger, start, end) > speaker_overlap(segs, smaller, start, end),
    ensures
        dominant_speaker(segs, start, end) != Some(smaller),
{
    if dominant_speaker(segs, start, end) == Some(smaller) {
        lemma_dominant_speaker_exists(segs, start, end);
        assert(speaker_overlap(segs, larger, start, end) <= speaker_overlap(
            segs,
            smaller,
            start,
            end,
        ));
    }
}

fn counted_overlap_exec(seg: &DiarizedSegment, start_us: u64, end_us: u64) -> (o: u64)
    ensures
        o == counted_overlap(*seg, start_us as int, end_us as int),
{
    let hi = if seg.end_us < end_us {
        seg.end_us
    } else {
        end_us
    };
    let lo = if seg.start_us > start_us {
        seg.start_us
    } else {
        start_us
    };
    if hi > lo {
        hi - lo
    } else {
        0
    }
}

/// The speaker whose diarized segments overlap `[start_us, end_us]` the most in
/// total. Ties go to the smallest speaker index; `None` when no segment overlaps
/// the range by a positive duration.
pub fn dominant_speaker_for_range(diarized: &[DiarizedSegment], start_us: u64, end_us: u64) -> (r:
    Option<i32>)
    ensures
        r is None <==> !has_overlapping_speech(diarized@, start_us as int, end_us as int),
        r matches Some(s) ==> is_dominant_speaker(diarized@, start_us as int, end_us as int, s),
        r == dominant_speaker(diarized@, start_us as int, end_us as int),
{
    let ghost segs = diarized@;
    let ghost lo = start_us as int;
    let ghost hi = end_us as int;
    // Cumulative overlap per speaker, in order of first appearance.
    let mut totals: Vec<(i32, u128)> = Vec::new();
    let n = diarized.len();
    let mut j: usize = 0;
    while j < n
        invariant
            n == segs.len(),
            segs == diarized@,
            lo == start_us,
            hi == end_us,
            j <= n,
            forall|p: int, q: int|
                0 <= p < q < totals@.len() ==> #[trigger] totals@[p].0 != #[trigger] totals@[q].0,
            forall|p: int|
                0 <= p < totals@.len() ==> #[trigger] totals@[p].1 == speaker_overlap(
                    segs.take(j as int),
                    totals@[p].0,
                    lo,
                    hi,
                ),
            forall|k: int|
                0 <= k < j ==> exists|p: int|
                    0 <= p < totals@.len() && #[trigger] totals@[p].0 == (#[trigger] segs[k]).speaker_index,
        decreases n - j,
    {
        let seg = &diarized[j];
        let o = counted_overlap_exec(seg, start_us, end_us);
        let ghost prev = segs.take(j as int);
        let ghost next = segs.take(j + 1);
        assert(next.drop_last() =~= prev);
        assert(next.last() == segs[j as int]);
        let mut p: usize = 0;
        let mut found = false;
        while p < totals.len()
            invariant_except_break
                !found,
            invariant
                p <= totals@.len(),
                forall|q: int| 0 <= q < p ==> (#[trigger] totals@[q]).0 != seg.speaker_index,
                found ==> p < totals@.len() && totals@[p as int].0 == seg.speaker_index,
            ensures
                found ==> p < totals@.len() && totals@[p as int].0 == seg.speaker_index,
                !found ==> forall|q: int|
                    0 <= q < totals@.len() ==> (#[trigger] totals@[q]).0 != seg.speaker_index,
            decreases totals@.len() - p,
        {
            if totals[p].0 == seg.speaker_index {
                found = true;
                break;
            }
            p = p + 1;
        }
        proof {
            lemma_speaker_overlap_bounds(prev, seg.speaker_index, lo, hi);
            assert(prev.len() == j);
        }
        let ghost old_totals = totals@;
        if found {
            let (spk, acc) = totals[p];
            assert(acc <= j * max_overlap());
            totals.set(p, (spk, acc + o as u128));
        } else {
            proof {
                // The speaker has not appeared before, so its total so far is zero.
                if speaker_overlap(prev, seg.speaker_index, lo, hi) > 0 {
                    let k = lemma_positive_total_has_witness(prev, seg.speaker_index, lo, hi);
                    assert(prev[k] == segs[k]);
                    assert(false);
                }
                lemma_speaker_overlap_nonneg(prev, seg.speaker_index, lo, hi);
            }
            totals.push((seg.speaker_index, o as u128));
        }
        proof {
            assert forall|q: int| 0 <= q < totals@.len() implies #[trigger] totals@[q].1
                == speaker_overlap(next, totals@[q].0, lo, hi) by {
                if q < old_totals.len() {
                    assert(totals@[q].0 == old_totals[q].0);
                }
            }
            assert forall|k: int| 0 <= k < j + 1 implies exists|q: int|
                0 <= q < totals@.len() && #[trigger] totals@[q].0 == (#[trigger] segs[k]).speaker_index by {
                if k < j {
                    let q = choose|q: int|
                        0 <= q < old_totals.len() && #[trigger] old_totals[q].0
                            == segs[k].speaker_index;
                    assert(totals@[q].0 == old_totals[q].0);
                } else if found {
                    assert(totals@[p as int].0 == segs[k].speaker_index);
                } else {
                    assert(totals@[old_totals.len() as int].0 == segs[k].speaker_index);
                }
            }
        }
        j = j + 1;
    }
    assert(segs.take(n as int) =~= segs);
    // Pick the largest positive total; ties keep the smaller speaker index.
    let mut best: Option<(i32, u128)> = None;
    let mut p: usize = 0;
    while p < totals.len()
        invariant
            p <= totals@.len(),
            best is None ==> forall|q: int| 0 <= q < p ==> (#[trigger] totals@[q]).1 == 0,
            best matches Some(b) ==> {
                &&& b.1 > 0
                &&& exists|q: int| 0 <= q < p && #[trigger] totals@[q] == b
                &&& forall|q: int|
                    0 <= q < p ==> (#[trigger] totals@[q]).1 < b.1 || (totals@[q].1 == b.1 && b.0
                        <= totals@[q].0)
            },
        decreases totals@.len() - p,
    {
        let (spk, total) = totals[p];
        if total > 0 {
            match best {
                None => {
                    best = Some((spk, total));
                },
                Some((bs, bt)) => {
                    if total > bt || (total == bt && spk < bs) {
                        best = Some((spk, total));
                    }
                },
            }
        }
        p = p + 1;
    }
    proof {
        // Totals of speakers that never appear are zero.
        assert forall|u: i32|
            #![trigger speaker_overlap(segs, u, lo, hi)]
            speaker_overlap(segs, u, lo, hi) > 0 implies exists|q: int|
                0 <= q < totals@.len() && totals@[q].0 == u && totals@[q].1 == speaker_overlap(
                    segs,
                    u,
                    lo,
                    hi,
                ) by {
            let k = lemma_positive_total_has_witness(segs, u, lo, hi);
            let q = choose|q: int| 0 <= q < totals@.len() && #[trigger] totals@[q].0 == (#[trigger] segs[k]).speaker_index;
        }
    }
    match best {
        None => {
            proof {
                assert forall|i: int| 0 <= i < segs.len() implies overlap_with(
                    #[trigger] segs[i],
                    lo,
                    hi,
                ) <= 0 by {
                    lemma_segment_counts_toward_speaker(segs, i, lo, hi);
                    let u = segs[i].speaker_index;
                    if speaker_overlap(segs, u, lo, hi) > 0 {
                        let q = choose|q: int|
                            0 <= q < totals@.len() && totals@[q].0 == u && totals@[q].1
                                == speaker_overlap(segs, u, lo, hi);
                        assert(totals@[q].1 == 0);
                    }
                }
            }
            None
        },
        Some((s, t)) => {
            proof {
                let q0 = choose|q: int| 0 <= q < totals@.len() && #[trigger] totals@[q] == (s, t);
                assert(speaker_overlap(segs, s, lo, hi) == t);
                let k = lemma_positive_total_has_witness(segs, s, lo, hi);
                assert(overlap_with(segs[k], lo, hi) > 0);
                assert forall|u: i32|
                    #![trigger speaker_overlap(segs, u, lo, hi)]
                    speaker_overlap(segs, u, lo, hi) <= speaker_overlap(segs, s, lo, hi) && (
                    speaker_overlap(segs, u, lo, hi) == speaker_overlap(segs, s, lo, hi) ==> s
                        <= u) by {
                    if speaker_overlap(segs, u, lo, hi) > 0 {
                        let q = choose|q: int|
                            0 <= q < totals@.len() && totals@[q].0 == u && totals@[q].1
                                == speaker_overlap(segs, u, lo, hi);
                        assert(totals@[q].1 < t || (totals@[q].1 == t && s <= totals@[q].0));
                    }
                }
                let c = choose|c: i32| is_dominant_speaker(segs, lo, hi, c);
                lemma_dominant_speaker_unique(segs, lo, hi, s, c);
            }
            Some(s)
        },
    }
}

/// For a `(start, end)` time range, the key of the speaker whose diarized
/// segments overlap it the most in total (see [`dominant_speaker_for_range`]);
/// `None` for ranges with no overlapping diarized speech at all.
pub fn dominant_speaker_key_for_range(diarized: &[DiarizedSegment], start_us: u64, end_us: u64) -> (r:
    Option<String>)
    ensures
        match dominant_speaker(diarized@, start_us as int, end_us as int) {
            Some(s) => r matches Some(key) && key@ == speaker_key_text(s),
            None => r is None,
        },
{
    match dominant_speaker_for_range(diarized, start_us, end_us) {
        None => None,
        Some(s) => Some(speaker_key(s)),
    }
}

} // verus!
