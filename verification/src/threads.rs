use vstd::prelude::*;

verus! {

/// The number of inference threads granted to each diarization stage on a host
/// with `logical_cores` logical cores: half of them, but never fewer than one.
pub open spec fn inference_thread_budget(logical_cores: nat) -> int {
    if logical_cores / 2 >= 1 {
        (logical_cores / 2) as int
    } else {
        1
    }
}

/// Threads handed to the segmentation and embedding models: `max(1, cores / 2)`,
/// capped at `i32::MAX`.
pub fn inference_threads_for(logical_cores: usize) -> (threads: i32)
    ensures
        inference_thread_budget(logical_cores as nat) <= i32::MAX ==> threads
            == inference_thread_budget(logical_cores as nat),
        inference_thread_budget(logical_cores as nat) > i32::MAX ==> threads == i32::MAX,
        threads >= 1,
{
    let half: usize = logical_cores / 2;
    if half == 0 {
        1
    } else if half > 2147483647 {
        i32::MAX
    } else {
        half as i32
    }
}

/// The thread budget is half the logical cores rounded down (the largest
/// `t` with `2 * t <= cores`) with no other cap, and one thread on a host
/// with fewer than two cores.
pub proof fn lemma_thread_budget_is_half_the_cores(logical_cores: nat)
    ensures
        logical_cores >= 2 ==> 2 * inference_thread_budget(logical_cores) <= logical_cores
            < 2 * inference_thread_budget(logical_cores) + 2,
        logical_cores < 2 ==> inference_thread_budget(logical_cores) == 1,
{
}

} // verus!
