use meetily_diarization::models::{EMBEDDING_MODEL_SIZE_BYTES, SEGMENTATION_MODEL_MIN_BYTES};
use meetily_diarization::{
    diarization_dir, download_size_matches, embedding_model_path, inference_threads_for,
    models_status_for_sizes, plan_model_downloads, segmentation_archive_path,
    segmentation_model_path, should_report_progress, DiarizationModelsStatus, ModelAsset,
};

#[test]
fn embedding_model_requires_complete_expected_size() {
    let truncated = models_status_for_sizes(None, Some(EMBEDDING_MODEL_SIZE_BYTES - 1));
    assert!(!truncated.embedding_ready);
    let complete = models_status_for_sizes(None, Some(EMBEDDING_MODEL_SIZE_BYTES));
    assert!(complete.embedding_ready);
    assert!(!models_status_for_sizes(None, None).embedding_ready);
}

#[test]
fn segmentation_model_needs_half_a_megabyte() {
    assert_eq!(SEGMENTATION_MODEL_MIN_BYTES, 500_000);
    assert!(!models_status_for_sizes(Some(499_999), None).segmentation_ready);
    assert!(models_status_for_sizes(Some(500_000), None).segmentation_ready);
    assert!(!models_status_for_sizes(None, None).segmentation_ready);
}

#[test]
fn all_ready_needs_both_models() {
    let status = |s, e| DiarizationModelsStatus { segmentation_ready: s, embedding_ready: e };
    assert!(status(true, true).all_ready());
    assert!(!status(true, false).all_ready());
    assert!(!status(false, true).all_ready());
    assert!(!status(false, false).all_ready());
}

#[test]
fn inference_threads_use_half_the_logical_cores() {
    assert_eq!(inference_threads_for(0), 1);
    assert_eq!(inference_threads_for(1), 1);
    assert_eq!(inference_threads_for(2), 1);
    assert_eq!(inference_threads_for(8), 4);
    assert_eq!(inference_threads_for(10), 5);
}

#[test]
fn model_paths_sit_under_the_diarization_directory() {
    let sep = std::path::MAIN_SEPARATOR;
    assert_eq!(diarization_dir("/data/models"), format!("/data/models{sep}diarization"));
    assert_eq!(
        segmentation_model_path("/data/models"),
        format!(
            "/data/models{sep}diarization{sep}sherpa-onnx-pyannote-segmentation-3-0{sep}model.onnx"
        )
    );
    assert_eq!(
        embedding_model_path("/data/models"),
        format!("/data/models{sep}diarization{sep}wespeaker_en_voxceleb_resnet34.onnx")
    );
    assert_eq!(
        segmentation_archive_path("/data/models"),
        format!("/data/models{sep}diarization{sep}segmentation.tar.bz2")
    );
    // No doubled separator after a trailing slash.
    assert_eq!(diarization_dir("/data/models/"), "/data/models/diarization");
}

#[test]
fn download_plan_fetches_missing_models_embedding_first() {
    let status = |s, e| DiarizationModelsStatus { segmentation_ready: s, embedding_ready: e };
    assert_eq!(
        plan_model_downloads(&status(false, false)),
        vec![ModelAsset::Embedding, ModelAsset::Segmentation]
    );
    assert_eq!(plan_model_downloads(&status(false, true)), vec![ModelAsset::Segmentation]);
    assert_eq!(plan_model_downloads(&status(true, false)), vec![ModelAsset::Embedding]);
    assert!(plan_model_downloads(&status(true, true)).is_empty());
    assert_eq!(ModelAsset::Embedding.stage_name(), "embedding");
    assert_eq!(ModelAsset::Segmentation.stage_name(), "segmentation");
    assert!(ModelAsset::Embedding.url().ends_with("wespeaker_en_voxceleb_resnet34.onnx"));
    assert!(ModelAsset::Segmentation.url().ends_with("sherpa-onnx-pyannote-segmentation-3-0.tar.bz2"));
}

#[test]
fn progress_is_reported_every_five_points_and_at_completion() {
    assert!(!should_report_progress(4, 0));
    assert!(should_report_progress(5, 0));
    assert!(should_report_progress(12, 5));
    assert!(!should_report_progress(99, 96));
    assert!(should_report_progress(100, 96));
}

#[test]
fn download_must_match_announced_length() {
    assert!(download_size_matches(10, Some(10)));
    assert!(!download_size_matches(9, Some(10)));
    assert!(!download_size_matches(11, Some(10)));
    assert!(download_size_matches(123, None));
}

#[test]
fn unc_bases_join_like_any_other() {
    let sep = std::path::MAIN_SEPARATOR;
    assert_eq!(
        embedding_model_path(r"\\server\share"),
        format!(r"\\server\share{sep}diarization{sep}wespeaker_en_voxceleb_resnet34.onnx")
    );
}

#[test]
fn partial_download_sits_beside_the_final_file() {
    assert_eq!(
        meetily_diarization::partial_download_path(
            "/data/models/diarization/segmentation.tar.bz2",
            "3f2a9c1e-77d0-4b0e-9a51-0c2d8e4f6a10"
        ),
        "/data/models/diarization/segmentation.tar.bz2.3f2a9c1e-77d0-4b0e-9a51-0c2d8e4f6a10.part"
    );
    assert_eq!(meetily_diarization::partial_download_path("", "x"), ".x.part");
}
