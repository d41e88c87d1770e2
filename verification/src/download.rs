use vstd::prelude::*;

use crate::models::{DiarizationModelsStatus, EMBEDDING_MODEL_URL, SEGMENTATION_ARCHIVE_URL};

verus! {

/// One of the two model assets that diarization needs.
#[derive(Clone, Copy, Debug, PartialEq, Eq)]
pub enum ModelAsset {
    /// The speaker-embedding model, a plain `.onnx` file.
    Embedding,
    /// The segmentation model, a `.tar.bz2` archive that is extracted in place.
    Segmentation,
}

/// The assets to fetch for a given readiness, in the order they are fetched.
pub open spec fn download_plan(status: DiarizationModelsStatus) -> Seq<ModelAsset> {
    (if status.embedding_ready {
        Seq::<ModelAsset>::empty()
    } else {
        seq![ModelAsset::Embedding]
    }) + (if status.segmentation_ready {
        Seq::<ModelAsset>::empty()
    } else {
        seq![ModelAsset::Segmentation]
    })
}

impl ModelAsset {
    /// The stage name under which download progress for this asset is reported.
    pub fn stage_name(&self) -> (name: &'static str)
        ensures
            *self == ModelAsset::Embedding ==> name@ == "embedding"@,
            *self == ModelAsset::Segmentation ==> name@ == "segmentation"@,
    {
        match self {
            ModelAsset::Embedding => "embedding",
            ModelAsset::Segmentation => "segmentation",
        }
    }

    /// Where the asset is downloaded from.
    pub fn url(&self) -> (url: &'static str)
        ensures
            *self == ModelAsset::Embedding ==> url@ == EMBEDDING_MODEL_URL@,
            *self == ModelAsset::Segmentation ==> url@ == SEGMENTATION_ARCHIVE_URL@,
    {
        match self {
            ModelAsset::Embedding => EMBEDDING_MODEL_URL,
            ModelAsset::Segmentation => SEGMENTATION_ARCHIVE_URL,
        }
    }
}

/// The assets that still have to be downloaded: the embedding model first if
/// it is not ready, then the segmentation archive if that model is not ready.
pub fn plan_model_downloads(status: &DiarizationModelsStatus) -> (plan: Vec<ModelAsset>)
    ensures
        plan@ == download_plan(*status),
{
    let mut plan: Vec<ModelAsset> = Vec::new();
    if !status.embedding_ready {
        plan.push(ModelAsset::Embedding);
    }
    if !status.segmentation_ready {
        plan.push(ModelAsset::Segmentation);
    }
    assert(plan@ =~= download_plan(*status));
    plan
}

/// Download progress is reported again once it has advanced by at least five
/// points since the last report, and always at 100%.
pub fn should_report_progress(percent: u8, last_reported: u8) -> (report: bool)
    requires
        last_reported + 5 <= u8::MAX,
    ensures
        report == (percent >= last_reported + 5 || percent == 100),
{
    percent >= last_reported + 5 || percent == 100
}

/// A finished download is complete when its byte count equals the length the
/// server announced; without an announced length any count is accepted.
pub fn download_size_matches(downloaded: u64, content_length: Option<u64>) -> (ok: bool)
    ensures
        ok == match content_length {
            Some(expected) => downloaded == expected,
            None => true,
        },
{
    match content_length {
        Some(expected) => downloaded == expected,
        None => true,
    }
}

/// Where a download is streamed before it is moved into place: a sibling of
/// the final file named `<dest>.<token>.part`, where `token` is unique to this
/// download attempt, so that concurrent attempts never share a staging file.
pub fn partial_download_path(dest: &str, token: &str) -> (part: String)
    ensures
        part@ == dest@ + "."@ + token@ + ".part"@,
{
    let mut part = String::from_str(dest);
    part.append(".");
    part.append(token);
    part.append(".part");
    part
}

} // verus!
