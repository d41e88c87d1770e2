//! Speaker diarization for meeting transcripts: attributing diarized speaker
//! clusters to transcript segments by cumulative time overlap, the registry of
//! running diarization jobs, model readiness and download planning, and the
//! Whisper model catalog.

pub mod assignment;
pub mod attribution;
pub mod catalog;
pub mod download;
pub mod jobs;
pub mod laws;
pub mod models;
pub mod paths;
pub mod speaker_key;
pub mod speakers;
pub mod threads;

pub use assignment::{
    count_distinct_speakers, plan_speaker_assignments, summarize_diarization,
    SpeakerDiarizationResult, TranscriptSpan,
};
pub use attribution::{dominant_speaker_for_range, dominant_speaker_key_for_range, DiarizedSegment};
pub use catalog::{
    download_file_name, whisper_model_catalog, WhisperModelInfo, AUDIO_EXTENSIONS,
    DEFAULT_PARAKEET_MODEL, DEFAULT_WHISPER_MODEL,
};
pub use download::{
    download_size_matches, partial_download_path, plan_model_downloads, should_report_progress,
    ModelAsset,
};
pub use jobs::{
    check_ready_to_diarize, meeting_not_found_message, recording_folder, DiarizationJobs, JobStage,
};
pub use models::{
    diarization_dir, embedding_model_path, models_status_for_sizes, segmentation_archive_path,
    segmentation_model_path, DiarizationModelsStatus,
};
pub use speaker_key::speaker_key;
pub use speakers::{is_blank_text, validate_display_name, MeetingSpeaker, SpeakersRepository};
pub use threads::inference_threads_for;
