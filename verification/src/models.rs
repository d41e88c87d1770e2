use vstd::prelude::*;

use crate::paths::{
    has_verbatim_prefix, is_plain_component, join_path, joins_component,
    lemma_join_keeps_non_verbatim,
};

verus! {

/// Segmentation model: distributed as a .tar.bz2 containing `model.onnx`
/// under a `sherpa-onnx-pyannote-segmentation-3-0/` directory.
pub const SEGMENTATION_ARCHIVE_URL: &'static str = "https://github.com/k2-fsa/sherpa-onnx/releases/download/speaker-segmentation-models/sherpa-onnx-pyannote-segmentation-3-0.tar.bz2";

/// Size of the segmentation archive, in bytes.
pub const SEGMENTATION_ARCHIVE_SIZE_BYTES: u64 = 6_958_444;

/// Directory inside the segmentation archive that holds `model.onnx`.
pub const SEGMENTATION_INNER_DIR: &'static str = "sherpa-onnx-pyannote-segmentation-3-0";

/// Embedding model: English-optimized WeSpeaker ResNet34, plain .onnx file.
pub const EMBEDDING_MODEL_URL: &'static str = "https://huggingface.co/csukuangfj/speaker-embedding-models/resolve/main/wespeaker_en_voxceleb_resnet34.onnx";

/// Size of the embedding model file, in bytes.
pub const EMBEDDING_MODEL_SIZE_BYTES: u64 = 27_800_000;

/// Subdirectory (within the app's shared models directory) holding both files.
pub const DIARIZATION_SUBDIR: &'static str = "diarization";

/// File name of the embedding model.
pub const EMBEDDING_FILENAME: &'static str = "wespeaker_en_voxceleb_resnet34.onnx";

/// File name of the segmentation model inside its archive directory.
pub const SEGMENTATION_FILENAME: &'static str = "model.onnx";

/// File name the segmentation archive is downloaded to before extraction.
pub const SEGMENTATION_ARCHIVE_FILENAME: &'static str = "segmentation.tar.bz2";

/// Smallest extracted segmentation model that counts as present: half of a
/// 1 MB lower bound on `model.onnx` (the whole archive is larger).
pub const SEGMENTATION_MODEL_MIN_BYTES: u64 = 500_000;

/// Whether each of the two models is present on disk.
#[derive(Clone, Copy, Debug, PartialEq, Eq)]
pub struct DiarizationModelsStatus {
    pub segmentation_ready: bool,
    pub embedding_ready: bool,
}

impl DiarizationModelsStatus {
    /// Both models are ready.
    pub fn all_ready(&self) -> (r: bool)
        ensures
            r == (self.segmentation_ready && self.embedding_ready),
    {
        self.segmentation_ready && self.embedding_ready
    }
}

/// The segmentation model file of this size (`None`: no file) counts as present.
pub open spec fn segmentation_file_ready(len: Option<u64>) -> bool {
    len matches Some(n) && n >= SEGMENTATION_MODEL_MIN_BYTES
}

/// The embedding model file of this size (`None`: no file) is complete.
pub open spec fn embedding_file_ready(len: Option<u64>) -> bool {
    len matches Some(n) && n == EMBEDDING_MODEL_SIZE_BYTES
}

/// Readiness of both models from the sizes of their files on disk (`None`
/// where the file is missing or cannot be read): the segmentation model needs
/// at least `SEGMENTATION_MODEL_MIN_BYTES`, and the embedding model must have
/// exactly its expected size, so that a truncated file is never ready.
pub fn models_status_for_sizes(segmentation_len: Option<u64>, embedding_len: Option<u64>) -> (status:
    DiarizationModelsStatus)
    ensures
        status.segmentation_ready == segmentation_file_ready(segmentation_len),
        status.embedding_ready == embedding_file_ready(embedding_len),
{
    let segmentation_ready = match segmentation_len {
        Some(n) => n >= SEGMENTATION_MODEL_MIN_BYTES,
        None => false,
    };
    let embedding_ready = match embedding_len {
        Some(n) => n == EMBEDDING_MODEL_SIZE_BYTES,
        None => false,
    };
    DiarizationModelsStatus { segmentation_ready, embedding_ready }
}

/// `path` is reached from `base` by joining `first` and then `second`.
pub open spec fn joins_two(path: Seq<char>, base: Seq<char>, first: Seq<char>, second: Seq<char>) -> bool {
    exists|mid: Seq<char>| joins_component(mid, base, first) && joins_component(path, mid, second)
}

/// `path` is reached from `base` by joining `first`, `second` and `third`.
pub open spec fn joins_three(
    path: Seq<char>,
    base: Seq<char>,
    first: Seq<char>,
    second: Seq<char>,
    third: Seq<char>,
) -> bool {
    exists|mid: Seq<char>| joins_component(mid, base, first) && joins_two(path, mid, second, third)
}

proof fn lemma_model_names_plain()
    ensures
        is_plain_component(DIARIZATION_SUBDIR@),
        is_plain_component(SEGMENTATION_INNER_DIR@),
        is_plain_component(SEGMENTATION_FILENAME@),
        is_plain_component(EMBEDDING_FILENAME@),
        is_plain_component(SEGMENTATION_ARCHIVE_FILENAME@),
        DIARIZATION_SUBDIR@[0] != '?',
        SEGMENTATION_INNER_DIR@[0] != '?',
{
    reveal_strlit("diarization");
    reveal_strlit("sherpa-onnx-pyannote-segmentation-3-0");
    reveal_strlit("model.onnx");
    reveal_strlit("wespeaker_en_voxceleb_resnet34.onnx");
    reveal_strlit("segmentation.tar.bz2");
}

/// The directory (within the models directory) that holds both models.
pub fn diarization_dir(models_dir: &str) -> (dir: String)
    ensures
        !has_verbatim_prefix(models_dir@) ==> joins_component(dir@, models_dir@, DIARIZATION_SUBDIR@),
        !has_verbatim_prefix(models_dir@) ==> !has_verbatim_prefix(dir@),
{
    proof {
        lemma_model_names_plain();
    }
    let dir = join_path(models_dir, DIARIZATION_SUBDIR);
    proof {
        if !has_verbatim_prefix(models_dir@) {
            lemma_join_keeps_non_verbatim(dir@, models_dir@, DIARIZATION_SUBDIR@);
        }
    }
    dir
}

/// Path to the extracted segmentation model file:
/// `<models_dir>/diarization/sherpa-onnx-pyannote-segmentation-3-0/model.onnx`.
pub fn segmentation_model_path(models_dir: &str) -> (path: String)
    ensures
        !has_verbatim_prefix(models_dir@) ==> joins_three(
            path@,
            models_dir@,
            DIARIZATION_SUBDIR@,
            SEGMENTATION_INNER_DIR@,
            SEGMENTATION_FILENAME@,
        ),
{
    proof {
        lemma_model_names_plain();
    }
    let dir = diarization_dir(models_dir);
    let inner = join_path(dir.as_str(), SEGMENTATION_INNER_DIR);
    proof {
        if !has_verbatim_prefix(models_dir@) {
            lemma_join_keeps_non_verbatim(inner@, dir@, SEGMENTATION_INNER_DIR@);
        }
    }
    let path = join_path(inner.as_str(), SEGMENTATION_FILENAME);
    proof {
        if !has_verbatim_prefix(models_dir@) {
            assert(joins_two(path@, dir@, SEGMENTATION_INNER_DIR@, SEGMENTATION_FILENAME@));
        }
    }
    path
}

/// Path to the embedding model file: `<models_dir>/diarization/wespeaker_en_voxceleb_resnet34.onnx`.
pub fn embedding_model_path(models_dir: &str) -> (path: String)
    ensures
        !has_verbatim_prefix(models_dir@) ==> joins_two(
            path@,
            models_dir@,
            DIARIZATION_SUBDIR@,
            EMBEDDING_FILENAME@,
        ),
{
    proof {
        lemma_model_names_plain();
    }
    let dir = diarization_dir(models_dir);
    let path = join_path(dir.as_str(), EMBEDDING_FILENAME);
    path
}

/// Path the segmentation archive is downloaded to before it is extracted:
/// `<models_dir>/diarization/segmentation.tar.bz2`.
pub fn segmentation_archive_path(models_dir: &str) -> (path: String)
    ensures
        !has_verbatim_prefix(models_dir@) ==> joins_two(
            path@,
            models_dir@,
            DIARIZATION_SUBDIR@,
            SEGMENTATION_ARCHIVE_FILENAME@,
        ),
{
    proof {
        lemma_model_names_plain();
    }
    let dir = diarization_dir(models_dir);
    let path = join_path(dir.as_str(), SEGMENTATION_ARCHIVE_FILENAME);
    path
}

} // verus!
