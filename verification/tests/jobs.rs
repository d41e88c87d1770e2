use meetily_diarization::{
    check_ready_to_diarize, meeting_not_found_message, recording_folder, DiarizationJobs,
    DiarizationModelsStatus, JobStage,
};

#[test]
fn second_claim_for_a_meeting_is_refused_until_released() {
    let mut jobs = DiarizationJobs::new();
    assert!(!jobs.is_running("m1"));
    assert_eq!(jobs.begin("m1"), Ok(()));
    assert!(jobs.is_running("m1"));
    assert_eq!(
        jobs.begin("m1"),
        Err("Speaker detection is already running for this meeting.".to_string())
    );
    // A different meeting can be claimed meanwhile.
    assert_eq!(jobs.begin("m2"), Ok(()));
    jobs.finish("m1");
    assert!(!jobs.is_running("m1"));
    assert!(jobs.is_running("m2"));
    assert_eq!(jobs.begin("m1"), Ok(()));
    // Releasing an unclaimed meeting changes nothing.
    jobs.finish("m3");
    assert!(jobs.is_running("m1") && jobs.is_running("m2"));
}

#[test]
fn readiness_checks_come_in_order() {
    let ready = DiarizationModelsStatus { segmentation_ready: true, embedding_ready: true };
    let missing = DiarizationModelsStatus { segmentation_ready: true, embedding_ready: false };
    assert_eq!(
        check_ready_to_diarize(true, &ready),
        Err("Speaker diarization waits until the active recording has finished.".to_string())
    );
    assert_eq!(
        check_ready_to_diarize(true, &missing),
        Err("Speaker diarization waits until the active recording has finished.".to_string())
    );
    assert_eq!(
        check_ready_to_diarize(false, &missing),
        Err("Speaker diarization models aren't downloaded yet. Download them first.".to_string())
    );
    assert_eq!(check_ready_to_diarize(false, &ready), Ok(()));
}

#[test]
fn meeting_errors_name_the_meeting() {
    assert_eq!(meeting_not_found_message("abc-1"), "Meeting abc-1 not found");
    assert_eq!(recording_folder(Some("/rec/a".to_string())), Ok("/rec/a".to_string()));
    assert_eq!(
        recording_folder(None),
        Err("Meeting has no recording folder to diarize".to_string())
    );
}

#[test]
fn stages_have_their_reported_names() {
    let names: Vec<&str> = [
        JobStage::Queued,
        JobStage::Decoding,
        JobStage::Processing,
        JobStage::Saving,
        JobStage::Complete,
        JobStage::Failed,
    ]
    .iter()
    .map(|s| s.as_str())
    .collect();
    assert_eq!(names, vec!["queued", "decoding", "processing", "saving", "complete", "failed"]);
    assert_eq!(JobStage::terminal(true), JobStage::Complete);
    assert_eq!(JobStage::terminal(false), JobStage::Failed);
}
