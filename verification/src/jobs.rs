use vstd::prelude::*;

use crate::models::DiarizationModelsStatus;

verus! {

/// The meetings for which a diarization job is currently claimed, so that a
/// second request for the same meeting is refused instead of running twice.
pub struct DiarizationJobs {
    running: Vec<String>,
}

/// The text of each claimed meeting id, in claim order.
pub open spec fn ids_view(v: Seq<String>) -> Seq<Seq<char>> {
    v.map_values(|s: String| s@)
}

impl View for DiarizationJobs {
    type V = Set<Seq<char>>;

    closed spec fn view(&self) -> Set<Seq<char>> {
        ids_view(self.running@).to_set()
    }
}

/// Whether a job is claimed for `meeting` in the registry `running`.
pub open spec fn is_claimed(running: Set<Seq<char>>, meeting: Seq<char>) -> bool {
    running.contains(meeting)
}

/// The registry after a claim for `meeting`, or `None` when the claim is
/// refused because a job for that meeting is already claimed.
pub open spec fn claimed(running: Set<Seq<char>>, meeting: Seq<char>) -> Option<Set<Seq<char>>> {
    if is_claimed(running, meeting) {
        None
    } else {
        Some(running.insert(meeting))
    }
}

/// The registry after the claim for `meeting` is released.
pub open spec fn released(running: Set<Seq<char>>, meeting: Seq<char>) -> Set<Seq<char>> {
    running.remove(meeting)
}

/// The error returned when a job is already claimed for the meeting.
pub open spec fn already_running_message() -> Seq<char> {
    "Speaker detection is already running for this meeting."@
}

impl DiarizationJobs {
    /// No meeting id occurs twice.
    #[verifier::type_invariant]
    spec fn wf(&self) -> bool {
        ids_view(self.running@).no_duplicates()
    }

    /// A registry with no running jobs.
    pub fn new() -> (jobs: Self)
        ensures
            jobs@ == Set::<Seq<char>>::empty(),
    {
        let jobs = DiarizationJobs { running: Vec::new() };
        assert(ids_view(jobs.running@).to_set() =~= Set::<Seq<char>>::empty());
        jobs
    }

    /// The position of `meeting_id` among the claimed ids, if it is claimed.
    fn position(&self, meeting_id: &str) -> (r: Option<usize>)
        ensures
            match r {
                Some(p) => p < self.running@.len() && self.running@[p as int]@ == meeting_id@,
                None => !self@.contains(meeting_id@),
            },
    {
        let wanted = String::from_str(meeting_id);
        let n = self.running.len();
        let mut p: usize = 0;
        while p < n
            invariant
                n == self.running@.len(),
                p <= n,
                wanted@ == meeting_id@,
                forall|q: int| 0 <= q < p ==> self.running@[q]@ != meeting_id@,
            decreases n - p,
        {
            if self.running[p] == wanted {
                return Some(p);
            }
            p = p + 1;
        }
        proof {
            if self@.contains(meeting_id@) {
                let ids = ids_view(self.running@);
                assert(ids.contains(meeting_id@));
                let q = choose|q: int| 0 <= q < ids.len() && ids[q] == meeting_id@;
                assert(self.running@[q]@ == meeting_id@);
            }
        }
        None
    }

    /// Whether a job is claimed for `meeting_id`.
    pub fn is_running(&self, meeting_id: &str) -> (r: bool)
        ensures
            r == is_claimed(self@, meeting_id@),
    {
        match self.position(meeting_id) {
            Some(p) => {
                proof {
                    assert(ids_view(self.running@)[p as int] == meeting_id@);
                }
                true
            },
            None => false,
        }
    }

    /// Claims a job for `meeting_id`. Refused, with the registry unchanged,
    /// when a job is already claimed for that meeting.
    pub fn begin(&mut self, meeting_id: &str) -> (r: Result<(), String>)
        ensures
            match claimed(old(self)@, meeting_id@) {
                Some(after) => r is Ok && final(self)@ == after,
                None => (r matches Err(e) && e@ == already_running_message()) && final(self)@
                    == old(self)@,
            },
    {
        proof {
            use_type_invariant(&*self);
        }
        if self.is_running(meeting_id) {
            return Err(String::from_str("Speaker detection is already running for this meeting."));
        }
        let ghost before = self.running@;
        let mut running: Vec<String> = Vec::new();
        std::mem::swap(&mut running, &mut self.running);
        running.push(String::from_str(meeting_id));
        proof {
            assert(ids_view(running@) =~= ids_view(before).push(meeting_id@));
            ids_view(before).lemma_push_to_set_commute(meeting_id@);
        }
        self.running = running;
        Ok(())
    }

    /// Releases the claim for `meeting_id` (if any) once its job has ended,
    /// whatever the outcome.
    pub fn finish(&mut self, meeting_id: &str)
        ensures
            final(self)@ == released(old(self)@, meeting_id@),
    {
        proof {
            use_type_invariant(&*self);
        }
        match self.position(meeting_id) {
            Some(p) => {
                let ghost before = ids_view(self.running@);
                let mut running: Vec<String> = Vec::new();
                std::mem::swap(&mut running, &mut self.running);
                running.remove(p);
                proof {
                    assert(ids_view(running@) =~= before.remove(p as int));
                    before.remove_ensures(p as int);
                }
                self.running = running;
                proof {
                    let after = ids_view(self.running@);
                    assert forall|x: Seq<char>| after.contains(x) <==> before.contains(x) && x
                        != meeting_id@ by {
                        if after.contains(x) {
                            let q = choose|q: int| 0 <= q < after.len() && after[q] == x;
                            if q < p {
                                assert(before[q] == x);
                                assert(before[q] != before[p as int]);
                            } else {
                                assert(before[q + 1] == x);
                                assert(before[q + 1] != before[p as int]);
                            }
                        }
                        if before.contains(x) && x != meeting_id@ {
                            let q = choose|q: int| 0 <= q < before.len() && before[q] == x;
                            assert(q != p);
                            if q < p {
                                assert(after[q] == x);
                            } else {
                                assert(after[q - 1] == x);
                            }
                        }
                    }
                    assert(after.to_set() =~= before.to_set().remove(meeting_id@));
                }
            },
            None => {
                assert(self@.remove(meeting_id@) =~= self@);
            },
        }
    }
}

/// The stages a diarization job reports, in the order they occur.
#[derive(Clone, Copy, Debug, PartialEq, Eq)]
pub enum JobStage {
    Queued,
    Decoding,
    Processing,
    Saving,
    Complete,
    Failed,
}

impl JobStage {
    /// The name under which the stage is reported to the user interface.
    pub fn as_str(&self) -> (s: &'static str)
        ensures
            *self == JobStage::Queued ==> s@ == "queued"@,
            *self == JobStage::Decoding ==> s@ == "decoding"@,
            *self == JobStage::Processing ==> s@ == "processing"@,
            *self == JobStage::Saving ==> s@ == "saving"@,
            *self == JobStage::Complete ==> s@ == "complete"@,
            *self == JobStage::Failed ==> s@ == "failed"@,
    {
        match self {
            JobStage::Queued => "queued",
            JobStage::Decoding => "decoding",
            JobStage::Processing => "processing",
            JobStage::Saving => "saving",
            JobStage::Complete => "complete",
            JobStage::Failed => "failed",
        }
    }

    /// The stage reported when a job ends: `complete` on success, `failed` otherwise.
    pub fn terminal(succeeded: bool) -> (stage: JobStage)
        ensures
            succeeded ==> stage == JobStage::Complete,
            !succeeded ==> stage == JobStage::Failed,
    {
        if succeeded {
            JobStage::Complete
        } else {
            JobStage::Failed
        }
    }
}

/// Error when a recording is still in progress.
pub open spec fn recording_active_message() -> Seq<char> {
    "Speaker diarization waits until the active recording has finished."@
}

/// Error when the models have not been downloaded.
pub open spec fn models_missing_message() -> Seq<char> {
    "Speaker diarization models aren't downloaded yet. Download them first."@
}

/// Decides whether a diarization run may start: not while a recording is
/// active, and only once both models are ready.
pub fn check_ready_to_diarize(recording_active: bool, models: &DiarizationModelsStatus) -> (r:
    Result<(), String>)
    ensures
        recording_active ==> (r matches Err(e) && e@ == recording_active_message()),
        !recording_active && !(models.segmentation_ready && models.embedding_ready) ==> (r matches Err(e) && e@
            == models_missing_message()),
        !recording_active && models.segmentation_ready && models.embedding_ready ==> r is Ok,
{
    if recording_active {
        return Err(
            String::from_str("Speaker diarization waits until the active recording has finished."),
        );
    }
    if !models.all_ready() {
        return Err(
            String::from_str("Speaker diarization models aren't downloaded yet. Download them first."),
        );
    }
    Ok(())
}

/// The error for a meeting that does not exist: `Meeting <id> not found`.
pub fn meeting_not_found_message(meeting_id: &str) -> (message: String)
    ensures
        message@ == "Meeting "@ + meeting_id@ + " not found"@,
{
    let mut message = String::from_str("Meeting ");
    message.append(meeting_id);
    message.append(" not found");
    message
}

/// The recording folder of a meeting, or the error when it has none.
pub fn recording_folder(folder_path: Option<String>) -> (r: Result<String, String>)
    ensures
        folder_path matches Some(f) ==> r == Ok::<String, String>(f),
        folder_path is None ==> (r matches Err(e) && e@
            == "Meeting has no recording folder to diarize"@),
{
    match folder_path {
        Some(f) => Ok(f),
        None => Err(String::from_str("Meeting has no recording folder to diarize")),
    }
}

} // verus!
