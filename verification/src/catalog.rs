use vstd::prelude::*;

verus! {

/// Default Whisper model for transcription when no preference is configured.
/// This is the recommended balance of accuracy and speed.
pub const DEFAULT_WHISPER_MODEL: &'static str = "large-v3-turbo";

/// Supported audio/video file extensions for import and retranscription:
/// native formats (MP4, M4V, M4A, WAV, MP3, FLAC, OGG, AAC) and FFmpeg-backed
/// ones (MKV, WebM, WMA, MOV, AVI, FLV, TS, MPG/MPEG, WMV, 3GP). Video files are
/// demuxed to their audio track only.
pub const AUDIO_EXTENSIONS: [&'static str; 19] = [
    "mp4", "m4v", "m4a", "wav", "mp3", "flac", "ogg", "aac", "mkv", "webm", "wma", "mov", "avi",
    "flv", "ts", "mpg", "mpeg", "wmv", "3gp",
];

/// Default Parakeet model for transcription when no preference is configured.
/// This is the quantized version optimized for speed.
pub const DEFAULT_PARAKEET_MODEL: &'static str = "parakeet-tdt-0.6b-v3-int8";

/// One supported Whisper model and its metadata.
#[derive(Clone, Copy, Debug)]
pub struct WhisperModelInfo {
    pub name: &'static str,
    pub filename: &'static str,
    pub size_mb: u32,
    pub accuracy: &'static str,
    pub speed: &'static str,
    pub description: &'static str,
}

/// The file name a model is downloaded to: `ggml-<name>.bin`.
pub open spec fn ggml_file_name(name: Seq<char>) -> Seq<char> {
    seq!['g', 'g', 'm', 'l', '-'] + name + seq!['.', 'b', 'i', 'n']
}

/// The names of the catalog entries, in catalog order.
pub open spec fn catalog_names() -> Seq<Seq<char>> {
    seq![
        "tiny"@,
        "base"@,
        "small"@,
        "medium"@,
        "large-v3-turbo"@,
        "large-v3"@,
        "large-v2"@,
        "tiny.en"@,
        "base.en"@,
        "small.en"@,
        "medium.en"@,
        "tiny-q5_1"@,
        "base-q5_1"@,
        "small-q5_1"@,
        "tiny.en-q5_1"@,
        "base.en-q5_1"@,
        "small.en-q5_1"@,
        "medium-q5_0"@,
        "large-v3-turbo-q5_0"@,
        "large-v3-q5_0"@,
        "medium.en-q5_0"@,
        "small-q8_0"@,
        "medium-q8_0"@,
        "large-v3-turbo-q8_0"@,
        "distil-large-v3"@
    ]
}

/// Every catalog entry as `(name, file name, size in MB, accuracy, speed, description)`.
pub open spec fn catalog_rows() -> Seq<(Seq<char>, Seq<char>, u32, Seq<char>, Seq<char>, Seq<char>)> {
    seq![
        ("tiny"@, "ggml-tiny.bin"@, 74u32, "Decent"@, "Very Fast"@, "Fastest processing, good for real-time use"@),
        ("base"@, "ggml-base.bin"@, 142u32, "Good"@, "Fast"@, "Good balance of speed and accuracy"@),
        ("small"@, "ggml-small.bin"@, 466u32, "Good"@, "Medium"@, "Better accuracy, moderate speed"@),
        ("medium"@, "ggml-medium.bin"@, 1463u32, "High"@, "Slow"@, "High accuracy for professional use"@),
        ("large-v3-turbo"@, "ggml-large-v3-turbo.bin"@, 1549u32, "High"@, "Medium"@, "Best accuracy with improved speed"@),
        ("large-v3"@, "ggml-large-v3.bin"@, 2951u32, "High"@, "Slow"@, "Most Accurate, latest large model"@),
        ("large-v2"@, "ggml-large-v2.bin"@, 2951u32, "High"@, "Slow"@, "Multilingual, previous-generation large model, for compatibility/comparison"@),
        ("tiny.en"@, "ggml-tiny.en.bin"@, 74u32, "Decent"@, "Very Fast"@, "English-only, fastest processing"@),
        ("base.en"@, "ggml-base.en.bin"@, 141u32, "Good"@, "Fast"@, "English-only, good balance of speed and accuracy"@),
        ("small.en"@, "ggml-small.en.bin"@, 466u32, "Good"@, "Medium"@, "English-only, better accuracy, moderate speed"@),
        ("medium.en"@, "ggml-medium.en.bin"@, 1463u32, "High"@, "Slow"@, "English-only, high accuracy for professional use"@),
        ("tiny-q5_1"@, "ggml-tiny-q5_1.bin"@, 31u32, "Decent"@, "Very Fast"@, "Quantized tiny model, ~50% faster processing"@),
        ("base-q5_1"@, "ggml-base-q5_1.bin"@, 57u32, "Good"@, "Fast"@, "Quantized base model, good speed/accuracy balance"@),
        ("small-q5_1"@, "ggml-small-q5_1.bin"@, 181u32, "Good"@, "Fast"@, "Quantized small model, faster than f16 version"@),
        ("tiny.en-q5_1"@, "ggml-tiny.en-q5_1.bin"@, 31u32, "Decent"@, "Very Fast"@, "English-only quantized tiny model"@),
        ("base.en-q5_1"@, "ggml-base.en-q5_1.bin"@, 57u32, "Good"@, "Fast"@, "English-only quantized base model"@),
        ("small.en-q5_1"@, "ggml-small.en-q5_1.bin"@, 181u32, "Good"@, "Fast"@, "English-only quantized small model"@),
        ("medium-q5_0"@, "ggml-medium-q5_0.bin"@, 514u32, "High"@, "Medium"@, "Quantized medium model, professional quality"@),
        ("large-v3-turbo-q5_0"@, "ggml-large-v3-turbo-q5_0.bin"@, 547u32, "High"@, "Medium"@, "Quantized large model, best balance"@),
        ("large-v3-q5_0"@, "ggml-large-v3-q5_0.bin"@, 1031u32, "High"@, "Slow"@, "Quantized large model, high accuracy"@),
        ("medium.en-q5_0"@, "ggml-medium.en-q5_0.bin"@, 514u32, "High"@, "Medium"@, "English-only quantized medium model"@),
        ("small-q8_0"@, "ggml-small-q8_0.bin"@, 252u32, "Good"@, "Medium"@, "Near-lossless quantized small model"@),
        ("medium-q8_0"@, "ggml-medium-q8_0.bin"@, 785u32, "High"@, "Medium"@, "Near-lossless quantized medium model"@),
        ("large-v3-turbo-q8_0"@, "ggml-large-v3-turbo-q8_0.bin"@, 834u32, "High"@, "Medium"@, "Near-lossless quantized large turbo model"@),
        ("distil-large-v3"@, "ggml-distil-large-v3.bin"@, 1449u32, "High"@, "Fast"@, "English-only distilled model, faster than large-v3 with comparable accuracy"@)
    ]
}

/// The text of each field of a catalog entry.
pub open spec fn model_info_view(m: WhisperModelInfo) -> (Seq<char>, Seq<char>, u32, Seq<char>, Seq<char>, Seq<char>) {
    (m.name@, m.filename@, m.size_mb, m.accuracy@, m.speed@, m.description@)
}

/// No two catalog entries share a name.
pub proof fn lemma_catalog_names_distinct()
    ensures
        catalog_names().no_duplicates(),
{
    reveal_strlit("tiny");
    reveal_strlit("base");
    reveal_strlit("small");
    reveal_strlit("medium");
    reveal_strlit("large-v3-turbo");
    reveal_strlit("large-v3");
    reveal_strlit("large-v2");
    reveal_strlit("tiny.en");
    reveal_strlit("base.en");
    reveal_strlit("small.en");
    reveal_strlit("medium.en");
    reveal_strlit("tiny-q5_1");
    reveal_strlit("base-q5_1");
    reveal_strlit("small-q5_1");
    reveal_strlit("tiny.en-q5_1");
    reveal_strlit("base.en-q5_1");
    reveal_strlit("small.en-q5_1");
    reveal_strlit("medium-q5_0");
    reveal_strlit("large-v3-turbo-q5_0");
    reveal_strlit("large-v3-q5_0");
    reveal_strlit("medium.en-q5_0");
    reveal_strlit("small-q8_0");
    reveal_strlit("medium-q8_0");
    reveal_strlit("large-v3-turbo-q8_0");
    reveal_strlit("distil-large-v3");
    let names = catalog_names();
    assert forall|i: int, j: int| 0 <= i < j < names.len() implies names[i] != names[j] by {
        if i == 0 {
            if j == 1 {
                assert(names[0][0] != names[1][0]);
            } else if j == 2 {
                assert(names[0].len() != names[2].len());
            } else if j == 3 {
                assert(names[0].len() != names[3].len());
            } else if j == 4 {
                assert(names[0].len() != names[4].len());
            } else if j == 5 {
                assert(names[0].len() != names[5].len());
            } else if j == 6 {
                assert(names[0].len() != names[6].len());
            } else if j == 7 {
                assert(names[0].len() != names[7].len());
            } else if j == 8 {
                assert(names[0].len() != names[8].len());
            } else if j == 9 {
                assert(names[0].len() != names[9].len());
            } else if j == 10 {
                assert(names[0].len() != names[10].len());
            } else if j == 11 {
                assert(names[0].len() != names[11].len());
            } else if j == 12 {
                assert(names[0].len() != names[12].len());
            } else if j == 13 {
                assert(names[0].len() != names[13].len());
            } else if j == 14 {
                assert(names[0].len() != names[14].len());
            } else if j == 15 {
                assert(names[0].len() != names[15].len());
            } else if j == 16 {
                assert(names[0].len() != names[16].len());
            } else if j == 17 {
                assert(names[0].len() != names[17].len());
            } else if j == 18 {
                assert(names[0].len() != names[18].len());
            } else if j == 19 {
                assert(names[0].len() != names[19].len());
            } else if j == 20 {
                assert(names[0].len() != names[20].len());
            } else if j == 21 {
                assert(names[0].len() != names[21].len());
            } else if j == 22 {
                assert(names[0].len() != names[22].len());
            } else if j == 23 {
                assert(names[0].len() != names[23].len());
            } else if j == 24 {
                assert(names[0].len() != names[24].len());
            }
        } else if i == 1 {
            if j == 2 {
                assert(names[1].len() != names[2].len());
            } else if j == 3 {
                assert(names[1].len() != names[3].len());
            } else if j == 4 {
                assert(names[1].len() != names[4].len());
            } else if j == 5 {
                assert(names[1].len() != names[5].len());
            } else if j == 6 {
                assert(names[1].len() != names[6].len());
            } else if j == 7 {
                assert(names[1].len() != names[7].len());
            } else if j == 8 {
                assert(names[1].len() != names[8].len());
            } else if j == 9 {
                assert(names[1].len() != names[9].len());
            } else if j == 10 {
                assert(names[1].len() != names[10].len());
            } else if j == 11 {
                assert(names[1].len() != names[11].len());
            } else if j == 12 {
                assert(names[1].len() != names[12].len());
            } else if j == 13 {
                assert(names[1].len() != names[13].len());
            } else if j == 14 {
                assert(names[1].len() != names[14].len());
            } else if j == 15 {
                assert(names[1].len() != names[15].len());
            } else if j == 16 {
                assert(names[1].len() != names[16].len());
            } else if j == 17 {
                assert(names[1].len() != names[17].len());
            } else if j == 18 {
                assert(names[1].len() != names[18].len());
            } else if j == 19 {
                assert(names[1].len() != names[19].len());
            } else if j == 20 {
                assert(names[1].len() != names[20].len());
            } else if j == 21 {
                assert(names[1].len() != names[21].len());
            } else if j == 22 {
                assert(names[1].len() != names[22].len());
            } else if j == 23 {
                assert(names[1].len() != names[23].len());
            } else if j == 24 {
                assert(names[1].len() != names[24].len());
            }
        } else if i == 2 {
            if j == 3 {
                assert(names[2].len() != names[3].len());
            } else if j == 4 {
                assert(names[2].len() != names[4].len());
            } else if j == 5 {
                assert(names[2].len() != names[5].len());
            } else if j == 6 {
                assert(names[2].len() != names[6].len());
            } else if j == 7 {
                assert(names[2].len() != names[7].len());
            } else if j == 8 {
                assert(names[2].len() != names[8].len());
            } else if j == 9 {
                assert(names[2].len() != names[9].len());
            } else if j == 10 {
                assert(names[2].len() != names[10].len());
            } else if j == 11 {
                assert(names[2].len() != names[11].len());
            } else if j == 12 {
                assert(names[2].len() != names[12].len());
            } else if j == 13 {
                assert(names[2].len() != names[13].len());
            } else if j == 14 {
                assert(names[2].len() != names[14].len());
            } else if j == 15 {
                assert(names[2].len() != names[15].len());
            } else if j == 16 {
                assert(names[2].len() != names[16].len());
            } else if j == 17 {
                assert(names[2].len() != names[17].len());
            } else if j == 18 {
                assert(names[2].len() != names[18].len());
            } else if j == 19 {
                assert(names[2].len() != names[19].len());
            } else if j == 20 {
                assert(names[2].len() != names[20].len());
            } else if j == 21 {
                assert(names[2].len() != names[21].len());
            } else if j == 22 {
                assert(names[2].len() != names[22].len());
            } else if j == 23 {
                assert(names[2].len() != names[23].len());
            } else if j == 24 {
                assert(names[2].len() != names[24].len());
            }
        } else if i == 3 {
            if j == 4 {
                assert(names[3].len() != names[4].len());
            } else if j == 5 {
                assert(names[3].len() != names[5].len());
            } else if j == 6 {
                assert(names[3].len() != names[6].len());
            } else if j == 7 {
                assert(names[3].len() != names[7].len());
            } else if j == 8 {
                assert(names[3].len() != names[8].len());
            } else if j == 9 {
                assert(names[3].len() != names[9].len());
            } else if j == 10 {
                assert(names[3].len() != names[10].len());
            } else if j == 11 {
                assert(names[3].len() != names[11].len());
            } else if j == 12 {
                assert(names[3].len() != names[12].len());
            } else if j == 13 {
                assert(names[3].len() != names[13].len());
            } else if j == 14 {
                assert(names[3].len() != names[14].len());
            } else if j == 15 {
                assert(names[3].len() != names[15].len());
            } else if j == 16 {
                assert(names[3].len() != names[16].len());
            } else if j == 17 {
                assert(names[3].len() != names[17].len());
            } else if j == 18 {
                assert(names[3].len() != names[18].len());
            } else if j == 19 {
                assert(names[3].len() != names[19].len());
            } else if j == 20 {
                assert(names[3].len() != names[20].len());
            } else if j == 21 {
                assert(names[3].len() != names[21].len());
            } else if j == 22 {
                assert(names[3].len() != names[22].len());
            } else if j == 23 {
                assert(names[3].len() != names[23].len());
            } else if j == 24 {
                assert(names[3].len() != names[24].len());
            }
        } else if i == 4 {
            if j == 5 {
                assert(names[4].len() != names[5].len());
            } else if j == 6 {
                assert(names[4].len() != names[6].len());
            } else if j == 7 {
                assert(names[4].len() != names[7].len());
            } else if j == 8 {
                assert(names[4].len() != names[8].len());
            } else if j == 9 {
                assert(names[4].len() != names[9].len());
            } else if j == 10 {
                assert(names[4].len() != names[10].len());
            } else if j == 11 {
                assert(names[4].len() != names[11].len());
            } else if j == 12 {
                assert(names[4].len() != names[12].len());
            } else if j == 13 {
                assert(names[4].len() != names[13].len());
            } else if j == 14 {
                assert(names[4].len() != names[14].len());
            } else if j == 15 {
                assert(names[4].len() != names[15].len());
            } else if j == 16 {
                assert(names[4].len() != names[16].len());
            } else if j == 17 {
                assert(names[4].len() != names[17].len());
            } else if j == 18 {
                assert(names[4].len() != names[18].len());
            } else if j == 19 {
                assert(names[4].len() != names[19].len());
            } else if j == 20 {
                assert(names[4][0] != names[20][0]);
            } else if j == 21 {
                assert(names[4].len() != names[21].len());
            } else if j == 22 {
                assert(names[4].len() != names[22].len());
            } else if j == 23 {
                assert(names[4].len() != names[23].len());
            } else if j == 24 {
                assert(names[4].len() != names[24].len());
            }
        } else if i == 5 {
            if j == 6 {
                assert(names[5][7] != names[6][7]);
            } else if j == 7 {
                assert(names[5].len() != names[7].len());
            } else if j == 8 {
                assert(names[5].len() != names[8].len());
            } else if j == 9 {
                assert(names[5][0] != names[9][0]);
            } else if j == 10 {
                assert(names[5].len() != names[10].len());
            } else if j == 11 {
                assert(names[5].len() != names[11].len());
            } else if j == 12 {
                assert(names[5].len() != names[12].len());
            } else if j == 13 {
                assert(names[5].len() != names[13].len());
            } else if j == 14 {
                assert(names[5].len() != names[14].len());
            } else if j == 15 {
                assert(names[5].len() != names[15].len());
            } else if j == 16 {
                assert(names[5].len() != names[16].len());
            } else if j == 17 {
                assert(names[5].len() != names[17].len());
            } else if j == 18 {
                assert(names[5].len() != names[18].len());
            } else if j == 19 {
                assert(names[5].len() != names[19].len());
            } else if j == 20 {
                assert(names[5].len() != names[20].len());
            } else if j == 21 {
                assert(names[5].len() != names[21].len());
            } else if j == 22 {
                assert(names[5].len() != names[22].len());
            } else if j == 23 {
                assert(names[5].len() != names[23].len());
            } else if j == 24 {
                assert(names[5].len() != names[24].len());
            }
        } else if i == 6 {
            if j == 7 {
                assert(names[6].len() != names[7].len());
            } else if j == 8 {
                assert(names[6].len() != names[8].len());
            } else if j == 9 {
                assert(names[6][0] != names[9][0]);
            } else if j == 10 {
                assert(names[6].len() != names[10].len());
            } else if j == 11 {
                assert(names[6].len() != names[11].len());
            } else if j == 12 {
                assert(names[6].len() != names[12].len());
            } else if j == 13 {
                assert(names[6].len() != names[13].len());
            } else if j == 14 {
                assert(names[6].len() != names[14].len());
            } else if j == 15 {
                assert(names[6].len() != names[15].len());
            } else if j == 16 {
                assert(names[6].len() != names[16].len());
            } else if j == 17 {
                assert(names[6].len() != names[17].len());
            } else if j == 18 {
                assert(names[6].len() != names[18].len());
            } else if j == 19 {
                assert(names[6].len() != names[19].len());
            } else if j == 20 {
                assert(names[6].len() != names[20].len());
            } else if j == 21 {
                assert(names[6].len() != names[21].len());
            } else if j == 22 {
                assert(names[6].len() != names[22].len());
            } else if j == 23 {
                assert(names[6].len() != names[23].len());
            } else if j == 24 {
                assert(names[6].len() != names[24].len());
            }
        } else if i == 7 {
            if j == 8 {
                assert(names[7][0] != names[8][0]);
            } else if j == 9 {
                assert(names[7].len() != names[9].len());
            } else if j == 10 {
                assert(names[7].len() != names[10].len());
            } else if j == 11 {
                assert(names[7].len() != names[11].len());
            } else if j == 12 {
                assert(names[7].len() != names[12].len());
            } else if j == 13 {
                assert(names[7].len() != names[13].len());
            } else if j == 14 {
                assert(names[7].len() != names[14].len());
            } else if j == 15 {
                assert(names[7].len() != names[15].len());
            } else if j == 16 {
                assert(names[7].len() != names[16].len());
            } else if j == 17 {
                assert(names[7].len() != names[17].len());
            } else if j == 18 {
                assert(names[7].len() != names[18].len());
            } else if j == 19 {
                assert(names[7].len() != names[19].len());
            } else if j == 20 {
                assert(names[7].len() != names[20].len());
            } else if j == 21 {
                assert(names[7].len() != names[21].len());
            } else if j == 22 {
                assert(names[7].len() != names[22].len());
            } else if j == 23 {
                assert(names[7].len() != names[23].len());
            } else if j == 24 {
                assert(names[7].len() != names[24].len());
            }
        } else if i == 8 {
            if j == 9 {
                assert(names[8].len() != names[9].len());
            } else if j == 10 {
                assert(names[8].len() != names[10].len());
            } else if j == 11 {
                assert(names[8].len() != names[11].len());
            } else if j == 12 {
                assert(names[8].len() != names[12].len());
            } else if j == 13 {
                assert(names[8].len() != names[13].len());
            } else if j == 14 {
                assert(names[8].len() != names[14].len());
            } else if j == 15 {
                assert(names[8].len() != names[15].len());
            } else if j == 16 {
                assert(names[8].len() != names[16].len());
            } else if j == 17 {
                assert(names[8].len() != names[17].len());
            } else if j == 18 {
                assert(names[8].len() != names[18].len());
            } else if j == 19 {
                assert(names[8].len() != names[19].len());
            } else if j == 20 {
                assert(names[8].len() != names[20].len());
            } else if j == 21 {
                assert(names[8].len() != names[21].len());
            } else if j == 22 {
                assert(names[8].len() != names[22].len());
            } else if j == 23 {
                assert(names[8].len() != names[23].len());
            } else if j == 24 {
                assert(names[8].len() != names[24].len());
            }
        } else if i == 9 {
            if j == 10 {
                assert(names[9].len() != names[10].len());
            } else if j == 11 {
                assert(names[9].len() != names[11].len());
            } else if j == 12 {
                assert(names[9].len() != names[12].len());
            } else if j == 13 {
                assert(names[9].len() != names[13].len());
            } else if j == 14 {
                assert(names[9].len() != names[14].len());
            } else if j == 15 {
                assert(names[9].len() != names[15].len());
            } else if j == 16 {
                assert(names[9].len() != names[16].len());
            } else if j == 17 {
                assert(names[9].len() != names[17].len());
            } else if j == 18 {
                assert(names[9].len() != names[18].len());
            } else if j == 19 {
                assert(names[9].len() != names[19].len());
            } else if j == 20 {
                assert(names[9].len() != names[20].len());
            } else if j == 21 {
                assert(names[9].len() != names[21].len());
            } else if j == 22 {
                assert(names[9].len() != names[22].len());
            } else if j == 23 {
                assert(names[9].len() != names[23].len());
            } else if j == 24 {
                assert(names[9].len() != names[24].len());
            }
        } else if i == 10 {
            if j == 11 {
                assert(names[10][0] != names[11][0]);
            } else if j == 12 {
                assert(names[10][0] != names[12][0]);
            } else if j == 13 {
                assert(names[10].len() != names[13].len());
            } else if j == 14 {
                assert(names[10].len() != names[14].len());
            } else if j == 15 {
                assert(names[10].len() != names[15].len());
            } else if j == 16 {
                assert(names[10].len() != names[16].len());
            } else if j == 17 {
                assert(names[10].len() != names[17].len());
            } else if j == 18 {
                assert(names[10].len() != names[18].len());
            } else if j == 19 {
                assert(names[10].len() != names[19].len());
            } else if j == 20 {
                assert(names[10].len() != names[20].len());
            } else if j == 21 {
                assert(names[10].len() != names[21].len());
            } else if j == 22 {
                assert(names[10].len() != names[22].len());
            } else if j == 23 {
                assert(names[10].len() != names[23].len());
            } else if j == 24 {
                assert(names[10].len() != names[24].len());
            }
        } else if i == 11 {
            if j == 12 {
                assert(names[11][0] != names[12][0]);
            } else if j == 13 {
                assert(names[11].len() != names[13].len());
            } else if j == 14 {
                assert(names[11].len() != names[14].len());
            } else if j == 15 {
                assert(names[11].len() != names[15].len());
            } else if j == 16 {
                assert(names[11].len() != names[16].len());
            } else if j == 17 {
                assert(names[11].len() != names[17].len());
            } else if j == 18 {
                assert(names[11].len() != names[18].len());
            } else if j == 19 {
                assert(names[11].len() != names[19].len());
            } else if j == 20 {
                assert(names[11].len() != names[20].len());
            } else if j == 21 {
                assert(names[11].len() != names[21].len());
            } else if j == 22 {
                assert(names[11].len() != names[22].len());
            } else if j == 23 {
                assert(names[11].len() != names[23].len());
            } else if j == 24 {
                assert(names[11].len() != names[24].len());
            }
        } else if i == 12 {
            if j == 13 {
                assert(names[12].len() != names[13].len());
            } else if j == 14 {
                assert(names[12].len() != names[14].len());
            } else if j == 15 {
                assert(names[12].len() != names[15].len());
            } else if j == 16 {
                assert(names[12].len() != names[16].len());
            } else if j == 17 {
                assert(names[12].len() != names[17].len());
            } else if j == 18 {
                assert(names[12].len() != names[18].len());
            } else if j == 19 {
                assert(names[12].len() != names[19].len());
            } else if j == 20 {
                assert(names[12].len() != names[20].len());
            } else if j == 21 {
                assert(names[12].len() != names[21].len());
            } else if j == 22 {
                assert(names[12].len() != names[22].len());
            } else if j == 23 {
                assert(names[12].len() != names[23].len());
            } else if j == 24 {
                assert(names[12].len() != names[24].len());
            }
        } else if i == 13 {
            if j == 14 {
                assert(names[13].len() != names[14].len());
            } else if j == 15 {
                assert(names[13].len() != names[15].len());
            } else if j == 16 {
                assert(names[13].len() != names[16].len());
            } else if j == 17 {
                assert(names[13].len() != names[17].len());
            } else if j == 18 {
                assert(names[13].len() != names[18].len());
            } else if j == 19 {
                assert(names[13].len() != names[19].len());
            } else if j == 20 {
                assert(names[13].len() != names[20].len());
            } else if j == 21 {
                assert(names[13][7] != names[21][7]);
            } else if j == 22 {
                assert(names[13].len() != names[22].len());
            } else if j == 23 {
                assert(names[13].len() != names[23].len());
            } else if j == 24 {
                assert(names[13].len() != names[24].len());
            }
        } else if i == 14 {
            if j == 15 {
                assert(names[14][0] != names[15][0]);
            } else if j == 16 {
                assert(names[14].len() != names[16].len());
            } else if j == 17 {
                assert(names[14].len() != names[17].len());
            } else if j == 18 {
                assert(names[14].len() != names[18].len());
            } else if j == 19 {
                assert(names[14].len() != names[19].len());
            } else if j == 20 {
                assert(names[14].len() != names[20].len());
            } else if j == 21 {
                assert(names[14].len() != names[21].len());
            } else if j == 22 {
                assert(names[14].len() != names[22].len());
            } else if j == 23 {
                assert(names[14].len() != names[23].len());
            } else if j == 24 {
                assert(names[14].len() != names[24].len());
            }
        } else if i == 15 {
            if j == 16 {
                assert(names[15].len() != names[16].len());
            } else if j == 17 {
                assert(names[15].len() != names[17].len());
            } else if j == 18 {
                assert(names[15].len() != names[18].len());
            } else if j == 19 {
                assert(names[15].len() != names[19].len());
            } else if j == 20 {
                assert(names[15].len() != names[20].len());
            } else if j == 21 {
                assert(names[15].len() != names[21].len());
            } else if j == 22 {
                assert(names[15].len() != names[22].len());
            } else if j == 23 {
                assert(names[15].len() != names[23].len());
            } else if j == 24 {
                assert(names[15].len() != names[24].len());
            }
        } else if i == 16 {
            if j == 17 {
                assert(names[16].len() != names[17].len());
            } else if j == 18 {
                assert(names[16].len() != names[18].len());
            } else if j == 19 {
                assert(names[16][0] != names[19][0]);
            } else if j == 20 {
                assert(names[16].len() != names[20].len());
            } else if j == 21 {
                assert(names[16].len() != names[21].len());
            } else if j == 22 {
                assert(names[16].len() != names[22].len());
            } else if j == 23 {
                assert(names[16].len() != names[23].len());
            } else if j == 24 {
                assert(names[16].len() != names[24].len());
            }
        } else if i == 17 {
            if j == 18 {
                assert(names[17].len() != names[18].len());
            } else if j == 19 {
                assert(names[17].len() != names[19].len());
            } else if j == 20 {
                assert(names[17].len() != names[20].len());
            } else if j == 21 {
                assert(names[17].len() != names[21].len());
            } else if j == 22 {
                assert(names[17][8] != names[22][8]);
            } else if j == 23 {
                assert(names[17].len() != names[23].len());
            } else if j == 24 {
                assert(names[17].len() != names[24].len());
            }
        } else if i == 18 {
            if j == 19 {
                assert(names[18].len() != names[19].len());
            } else if j == 20 {
                assert(names[18].len() != names[20].len());
            } else if j == 21 {
                assert(names[18].len() != names[21].len());
            } else if j == 22 {
                assert(names[18].len() != names[22].len());
            } else if j == 23 {
                assert(names[18][16] != names[23][16]);
            } else if j == 24 {
                assert(names[18].len() != names[24].len());
            }
        } else if i == 19 {
            if j == 20 {
                assert(names[19].len() != names[20].len());
            } else if j == 21 {
                assert(names[19].len() != names[21].len());
            } else if j == 22 {
                assert(names[19].len() != names[22].len());
            } else if j == 23 {
                assert(names[19].len() != names[23].len());
            } else if j == 24 {
                assert(names[19].len() != names[24].len());
            }
        } else if i == 20 {
            if j == 21 {
                assert(names[20].len() != names[21].len());
            } else if j == 22 {
                assert(names[20].len() != names[22].len());
            } else if j == 23 {
                assert(names[20].len() != names[23].len());
            } else if j == 24 {
                assert(names[20].len() != names[24].len());
            }
        } else if i == 21 {
            if j == 22 {
                assert(names[21].len() != names[22].len());
            } else if j == 23 {
                assert(names[21].len() != names[23].len());
            } else if j == 24 {
                assert(names[21].len() != names[24].len());
            }
        } else if i == 22 {
            if j == 23 {
                assert(names[22].len() != names[23].len());
            } else if j == 24 {
                assert(names[22].len() != names[24].len());
            }
        } else if i == 23 {
            if j == 24 {
                assert(names[23].len() != names[24].len());
            }
        }
    }
}

/// The download file name of the model `name`: `ggml-<name>.bin`.
pub fn download_file_name(name: &str) -> (file_name: String)
    ensures
        file_name@ == ggml_file_name(name@),
{
    proof {
        reveal_strlit("ggml-");
        reveal_strlit(".bin");
    }
    let mut file_name = String::from_str("ggml-");
    file_name.append(name);
    file_name.append(".bin");
    assert(file_name@ =~= ggml_file_name(name@));
    file_name
}

fn catalog_entry(
    name: &'static str,
    filename: &'static str,
    size_mb: u32,
    accuracy: &'static str,
    speed: &'static str,
    description: &'static str,
) -> (info: WhisperModelInfo)
    ensures
        info.name == name,
        info.filename == filename,
        info.size_mb == size_mb,
        info.accuracy == accuracy,
        info.speed == speed,
        info.description == description,
{
    WhisperModelInfo { name, filename, size_mb, accuracy, speed, description }
}

/// Whisper model catalog with metadata for all supported models: every file
/// name follows the download naming convention, no name occurs twice, and the
/// default model is listed.
pub fn whisper_model_catalog() -> (catalog: Vec<WhisperModelInfo>)
    ensures
        catalog@.map_values(|m: WhisperModelInfo| model_info_view(m)) == catalog_rows(),
        catalog@.map_values(|m: WhisperModelInfo| m.name@) == catalog_names(),
        forall|i: int|
            0 <= i < catalog@.len() ==> (#[trigger] catalog@[i]).filename@ == ggml_file_name(
                catalog@[i].name@,
            ),
        catalog_names().no_duplicates(),
        catalog_names().contains(DEFAULT_WHISPER_MODEL@),
{
    proof {
        reveal_strlit("tiny");
        reveal_strlit("base");
        reveal_strlit("small");
        reveal_strlit("medium");
        reveal_strlit("large-v3-turbo");
        reveal_strlit("large-v3");
        reveal_strlit("large-v2");
        reveal_strlit("tiny.en");
        reveal_strlit("base.en");
        reveal_strlit("small.en");
        reveal_strlit("medium.en");
        reveal_strlit("tiny-q5_1");
        reveal_strlit("base-q5_1");
        reveal_strlit("small-q5_1");
        reveal_strlit("tiny.en-q5_1");
        reveal_strlit("base.en-q5_1");
        reveal_strlit("small.en-q5_1");
        reveal_strlit("medium-q5_0");
        reveal_strlit("large-v3-turbo-q5_0");
        reveal_strlit("large-v3-q5_0");
        reveal_strlit("medium.en-q5_0");
        reveal_strlit("small-q8_0");
        reveal_strlit("medium-q8_0");
        reveal_strlit("large-v3-turbo-q8_0");
        reveal_strlit("distil-large-v3");
        reveal_strlit("ggml-tiny.bin");
        reveal_strlit("ggml-base.bin");
        reveal_strlit("ggml-small.bin");
        reveal_strlit("ggml-medium.bin");
        reveal_strlit("ggml-large-v3-turbo.bin");
        reveal_strlit("ggml-large-v3.bin");
        reveal_strlit("ggml-large-v2.bin");
        reveal_strlit("ggml-tiny.en.bin");
        reveal_strlit("ggml-base.en.bin");
        reveal_strlit("ggml-small.en.bin");
        reveal_strlit("ggml-medium.en.bin");
        reveal_strlit("ggml-tiny-q5_1.bin");
        reveal_strlit("ggml-base-q5_1.bin");
        reveal_strlit("ggml-small-q5_1.bin");
        reveal_strlit("ggml-tiny.en-q5_1.bin");
        reveal_strlit("ggml-base.en-q5_1.bin");
        reveal_strlit("ggml-small.en-q5_1.bin");
        reveal_strlit("ggml-medium-q5_0.bin");
        reveal_strlit("ggml-large-v3-turbo-q5_0.bin");
        reveal_strlit("ggml-large-v3-q5_0.bin");
        reveal_strlit("ggml-medium.en-q5_0.bin");
        reveal_strlit("ggml-small-q8_0.bin");
        reveal_strlit("ggml-medium-q8_0.bin");
        reveal_strlit("ggml-large-v3-turbo-q8_0.bin");
        reveal_strlit("ggml-distil-large-v3.bin");
    }
    let catalog = vec![
        // Standard f16 models (full precision, multilingual)
        catalog_entry("tiny", "ggml-tiny.bin", 74, "Decent", "Very Fast", "Fastest processing, good for real-time use"),
        catalog_entry("base", "ggml-base.bin", 142, "Good", "Fast", "Good balance of speed and accuracy"),
        catalog_entry("small", "ggml-small.bin", 466, "Good", "Medium", "Better accuracy, moderate speed"),
        catalog_entry("medium", "ggml-medium.bin", 1463, "High", "Slow", "High accuracy for professional use"),
        catalog_entry("large-v3-turbo", "ggml-large-v3-turbo.bin", 1549, "High", "Medium", "Best accuracy with improved speed"),
        catalog_entry("large-v3", "ggml-large-v3.bin", 2951, "High", "Slow", "Most Accurate, latest large model"),
        catalog_entry("large-v2", "ggml-large-v2.bin", 2951, "High", "Slow", "Multilingual, previous-generation large model, for compatibility/comparison"),
        // English-only f16 models
        catalog_entry("tiny.en", "ggml-tiny.en.bin", 74, "Decent", "Very Fast", "English-only, fastest processing"),
        catalog_entry("base.en", "ggml-base.en.bin", 141, "Good", "Fast", "English-only, good balance of speed and accuracy"),
        catalog_entry("small.en", "ggml-small.en.bin", 466, "Good", "Medium", "English-only, better accuracy, moderate speed"),
        catalog_entry("medium.en", "ggml-medium.en.bin", 1463, "High", "Slow", "English-only, high accuracy for professional use"),
        // Q5_1 quantized models
        catalog_entry("tiny-q5_1", "ggml-tiny-q5_1.bin", 31, "Decent", "Very Fast", "Quantized tiny model, ~50% faster processing"),
        catalog_entry("base-q5_1", "ggml-base-q5_1.bin", 57, "Good", "Fast", "Quantized base model, good speed/accuracy balance"),
        catalog_entry("small-q5_1", "ggml-small-q5_1.bin", 181, "Good", "Fast", "Quantized small model, faster than f16 version"),
        catalog_entry("tiny.en-q5_1", "ggml-tiny.en-q5_1.bin", 31, "Decent", "Very Fast", "English-only quantized tiny model"),
        catalog_entry("base.en-q5_1", "ggml-base.en-q5_1.bin", 57, "Good", "Fast", "English-only quantized base model"),
        catalog_entry("small.en-q5_1", "ggml-small.en-q5_1.bin", 181, "Good", "Fast", "English-only quantized small model"),
        // Q5_0 quantized models
        catalog_entry("medium-q5_0", "ggml-medium-q5_0.bin", 514, "High", "Medium", "Quantized medium model, professional quality"),
        catalog_entry("large-v3-turbo-q5_0", "ggml-large-v3-turbo-q5_0.bin", 547, "High", "Medium", "Quantized large model, best balance"),
        catalog_entry("large-v3-q5_0", "ggml-large-v3-q5_0.bin", 1031, "High", "Slow", "Quantized large model, high accuracy"),
        catalog_entry("medium.en-q5_0", "ggml-medium.en-q5_0.bin", 514, "High", "Medium", "English-only quantized medium model"),
        // Q8_0 quantized models (near-lossless)
        catalog_entry("small-q8_0", "ggml-small-q8_0.bin", 252, "Good", "Medium", "Near-lossless quantized small model"),
        catalog_entry("medium-q8_0", "ggml-medium-q8_0.bin", 785, "High", "Medium", "Near-lossless quantized medium model"),
        catalog_entry("large-v3-turbo-q8_0", "ggml-large-v3-turbo-q8_0.bin", 834, "High", "Medium", "Near-lossless quantized large turbo model"),
        // Distilled models (English-only, optimized for speed)
        catalog_entry("distil-large-v3", "ggml-distil-large-v3.bin", 1449, "High", "Fast", "English-only distilled model, faster than large-v3 with comparable accuracy"),
    ];
    assert(catalog@.map_values(|m: WhisperModelInfo| model_info_view(m)) =~= catalog_rows());
    assert(catalog@.map_values(|m: WhisperModelInfo| m.name@) =~= catalog_names());
    assert(catalog_names()[4] == DEFAULT_WHISPER_MODEL@);
    proof {
        lemma_catalog_names_distinct();
    }
    catalog
}

} // verus!
